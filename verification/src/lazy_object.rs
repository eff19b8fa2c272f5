//! A lazy state bundled with the transformation that initializes it.

use crate::lazy::{accepts, yields, Lazy};
use vstd::prelude::*;

verus! {

/// A transformation from a seed to a result, in a form that a [`LazyObject`] can
/// own. Every function value of the right shape is one, so a boxed closure can
/// be handed to [`LazyObject::new`]; a type with state of its own can implement
/// the trait directly.
pub trait Initializer<U, I> {
    /// Whether [`Initializer::initialize`] may be called on `seed`. Unless an
    /// implementation says otherwise, it may be called on every seed.
    open spec fn accepts(&self, seed: U) -> bool {
        true
    }

    /// Whether `result` is a value that [`Initializer::initialize`] may return
    /// for `seed`. Unless an implementation says otherwise, nothing is known of
    /// the result.
    open spec fn yields(&self, seed: U, result: I) -> bool {
        true
    }

    /// Derives the result from the seed. The seed may be changed on the way.
    fn initialize(&mut self, seed: &mut U) -> (result: I)
        requires
            old(self).accepts(*old(seed)),
        ensures
            old(self).yields(*old(seed), result),
    ;
}

impl<U, I, F: FnMut(&mut U) -> I> Initializer<U, I> for F {
    open spec fn accepts(&self, seed: U) -> bool {
        accepts(*self, seed)
    }

    open spec fn yields(&self, seed: U, result: I) -> bool {
        yields(*self, seed, result)
    }

    fn initialize(&mut self, seed: &mut U) -> (result: I) {
        self(seed)
    }
}

/// A lazy state that also contains its initializer, so that `get` and
/// `initialize` can be called without supplying one.
#[verifier::reject_recursive_types(U)]
#[verifier::reject_recursive_types(I)]
pub struct LazyObject<U, I> {
    lazy: Lazy<U, I>,
    initializer: Box<dyn Initializer<U, I>>,
}

impl<U, I> View for LazyObject<U, I> {
    type V = Lazy<U, I>;

    /// The state that the object is in.
    closed spec fn view(&self) -> Lazy<U, I> {
        self.lazy
    }
}

impl<U, I> LazyObject<U, I> {
    /// Whether the stored initializer may be called on `seed`.
    pub closed spec fn accepts(&self, seed: U) -> bool {
        self.initializer.accepts(seed)
    }

    /// Whether `result` is a value that the stored initializer may return for
    /// `seed`.
    pub closed spec fn yields(&self, seed: U, result: I) -> bool {
        self.initializer.yields(seed, result)
    }

    /// Whether the initializers stored in `self` and in `other` accept the same
    /// seeds and yield the same results.
    pub open spec fn same_initializer(&self, other: &Self) -> bool {
        &&& forall|seed: U| #[trigger] self.accepts(seed) == other.accepts(seed)
        &&& forall|seed: U, result: I| #[trigger]
            self.yields(seed, result) == other.yields(seed, result)
    }

    /// Whether [`LazyObject::initialize`] may be called: an object that still
    /// holds its seed needs an initializer that accepts that seed.
    pub open spec fn ready(&self) -> bool {
        self@ matches Lazy::Uninitialized(seed) ==> self.accepts(seed)
    }

    /// Whether `after` is a state that [`LazyObject::initialize`] may leave the
    /// object in: an initialized state stays as it is, and a seed is replaced by
    /// a result that the initializer yields for it.
    pub open spec fn initializes_to(&self, after: Lazy<U, I>) -> bool {
        match self@ {
            Lazy::Initialized(_) => after == self@,
            Lazy::Uninitialized(seed) => after matches Lazy::Initialized(result)
                && self.yields(seed, result),
        }
    }

    /// Bundles a state with the initializer that will be used on it.
    pub fn new(lazy: Lazy<U, I>, initializer: Box<dyn Initializer<U, I>>) -> (object: Self)
        ensures
            object@ == lazy,
            forall|seed: U| #[trigger] object.accepts(seed) == initializer.accepts(seed),
            forall|seed: U, result: I| #[trigger]
                object.yields(seed, result) == initializer.yields(seed, result),
    {
        Self { lazy, initializer }
    }

    /// Determines if this lazy object has been initialized.
    pub fn is_initialized(&self) -> (initialized: bool)
        ensures
            initialized == (self@ is Initialized),
    {
        self.lazy.is_initialized()
    }

    /// Determines if this lazy object has yet to be initialized.
    pub fn is_uninitialized(&self) -> (uninitialized: bool)
        ensures
            uninitialized == (self@ is Uninitialized),
    {
        self.lazy.is_uninitialized()
    }

    /// Runs the stored initializer on the seed and stores what it returns. On an
    /// object that is already initialized this does nothing, and the initializer
    /// is not called.
    pub fn initialize(&mut self)
        requires
            old(self).ready(),
        ensures
            old(self).initializes_to(final(self)@),
            final(self)@ is Initialized,
            old(self)@ is Initialized ==> *final(self) == *old(self),
    {
        match &mut self.lazy {
            Lazy::Uninitialized(seed) => {
                let result = self.initializer.initialize(seed);
                self.lazy = Lazy::Initialized(result);
            },
            _ => {},
        }
    }

    /// Initializes the object if that has yet to happen, then hands out the
    /// result.
    pub fn get(&mut self) -> (result: &mut I)
        requires
            old(self).ready(),
        ensures
            old(self).initializes_to(Lazy::Initialized(*result)),
            final(self)@ == Lazy::<U, I>::Initialized(*final(result)),
            old(self)@ is Initialized ==> final(self).same_initializer(old(self)),
    {
        self.initialize();
        self.try_initialized().unwrap()
    }

    /// Hands out the result, or `None` while the object is uninitialized.
    pub fn try_initialized(&mut self) -> (found: Option<&mut I>)
        ensures
            match old(self)@ {
                Lazy::Initialized(result) => {
                    &&& found matches Some(r)
                    &&& *r == result
                    &&& final(self)@ == Lazy::<U, I>::Initialized(*final(r))
                },
                Lazy::Uninitialized(_) => found is None && final(self)@ == old(self)@,
            },
            final(self).same_initializer(old(self)),
    {
        self.lazy.try_initialized()
    }

    /// Hands out the seed, or `None` once the object is initialized.
    pub fn try_uninitialized(&mut self) -> (found: Option<&mut U>)
        ensures
            match old(self)@ {
                Lazy::Uninitialized(seed) => {
                    &&& found matches Some(r)
                    &&& *r == seed
                    &&& final(self)@ == Lazy::<U, I>::Uninitialized(*final(r))
                },
                Lazy::Initialized(_) => found is None && final(self)@ == old(self)@,
            },
            final(self).same_initializer(old(self)),
    {
        self.lazy.try_uninitialized()
    }
}

/// `core::fmt::Formatter`, the sink that `Debug::fmt` writes to. It is only
/// passed through; nothing is known of what it holds.
#[verifier::external_type_specification]
#[verifier::external_body]
pub struct ExFormatter<'a>(core::fmt::Formatter<'a>);

/// `core::fmt::Error`, the error of `core::fmt::Result`. It is only passed
/// through.
#[verifier::external_type_specification]
#[verifier::external_body]
pub struct ExFmtError(core::fmt::Error);

impl<U: core::fmt::Debug, I: core::fmt::Debug> core::fmt::Debug for LazyObject<U, I> {
    /// Formats the object as its state: hands the state to `core::fmt::Debug`
    /// for [`Lazy`] through `write!`, which writes the variant's name and, in
    /// parentheses, the seed or the result. The initializer is not shown.
    /// Nothing is claimed of what is written or of the value returned.
    #[verifier::external_body]
    fn fmt(&self, f: &mut core::fmt::Formatter<'_>) -> core::fmt::Result {
        write!(f, "{:?}", self.lazy)
    }
}

/// Function values are initializers: what [`Initializer::accepts`] and
/// [`Initializer::yields`] say of a function value is what [`accepts`] and
/// [`yields`] say of it.
pub proof fn lemma_function_is_initializer<U, I, F: FnMut(&mut U) -> I>(transform: F)
    ensures
        forall|seed: U| #[trigger]
            Initializer::<U, I>::accepts(&transform, seed) == accepts(transform, seed),
        forall|seed: U, result: I| #[trigger]
            Initializer::<U, I>::yields(&transform, seed, result) == yields(
                transform,
                seed,
                result,
            ),
{
}

/// An object delegates to its state: one whose initializer is the function
/// value `transform` is ready exactly when its state is ready for `transform`,
/// and [`LazyObject::initialize`] may leave it in exactly the states that
/// [`Lazy::initialize`] with `transform` may leave that state in.
pub proof fn lemma_object_delegates<U, I, F: FnMut(&mut U) -> I>(
    object: LazyObject<U, I>,
    transform: F,
    after: Lazy<U, I>,
)
    requires
        forall|seed: U| #[trigger]
            object.accepts(seed) == Initializer::<U, I>::accepts(&transform, seed),
        forall|seed: U, result: I| #[trigger]
            object.yields(seed, result) == Initializer::<U, I>::yields(&transform, seed, result),
    ensures
        object.ready() == object@.ready_for(transform),
        object.initializes_to(after) == object@.initialized_by(transform, after),
{
}

/// Initializing an object twice is initializing it once: the second call of
/// [`LazyObject::initialize`] finds a result and leaves the state as it is.
pub proof fn lemma_object_initialize_idempotent<U, I>(
    before: LazyObject<U, I>,
    once: LazyObject<U, I>,
    twice: LazyObject<U, I>,
)
    requires
        before.initializes_to(once@),
        once.initializes_to(twice@),
    ensures
        once.ready(),
        twice@ == once@,
{
}

/// The transition of an object happens in one step: after
/// [`LazyObject::initialize`] on an object that held a seed, the object is
/// initialized and the seed is gone.
pub proof fn lemma_object_initialize_one_shot<U, I>(
    before: LazyObject<U, I>,
    after: LazyObject<U, I>,
)
    requires
        before@ is Uninitialized,
        before.initializes_to(after@),
    ensures
        after@ is Initialized,
        !(after@ is Uninitialized),
{
}

} // verus!
