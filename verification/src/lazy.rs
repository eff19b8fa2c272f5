//! The two-phase state itself: a seed, or the result derived from it.

use vstd::prelude::*;

verus! {

/// A value that is either still waiting to be computed or already there.
///
/// The only way from `Uninitialized` to `Initialized` is [`Lazy::initialize`]
/// (or [`Lazy::get`], which calls it); nothing leads back.
#[derive(Debug, Clone)]
pub enum Lazy<U, I> {
    /// The seed, kept until the transformation has run.
    Uninitialized(U),
    /// The result that the transformation returned.
    Initialized(I),
}

/// Whether `transform` may be called on a mutable reference to `seed`.
pub open spec fn accepts<U, I, F: FnMut(&mut U) -> I>(transform: F, seed: U) -> bool {
    forall|r: &mut U| *r == seed ==> call_requires(transform, (r,))
}

/// Whether `result` is a value that `transform` may return when it is called on
/// a mutable reference to `seed`.
pub open spec fn yields<U, I, F: FnMut(&mut U) -> I>(transform: F, seed: U, result: I) -> bool {
    exists|r: &mut U| *r == seed && call_ensures(transform, (r,), result)
}

impl<U, I> Lazy<U, I> {
    /// Whether [`Lazy::initialize`] may be called with `transform`: a state that
    /// still holds its seed needs a transformation that accepts that seed.
    pub open spec fn ready_for<F: FnMut(&mut U) -> I>(self, transform: F) -> bool {
        self matches Lazy::Uninitialized(seed) ==> accepts(transform, seed)
    }

    /// Whether `after` is a state that [`Lazy::initialize`] may leave behind when
    /// it is called on `self` with `transform`: an initialized state stays as it
    /// is, and a seed is replaced by a result that `transform` yields for it.
    pub open spec fn initialized_by<F: FnMut(&mut U) -> I>(
        self,
        transform: F,
        after: Self,
    ) -> bool {
        match self {
            Lazy::Initialized(_) => after == self,
            Lazy::Uninitialized(seed) => after matches Lazy::Initialized(result) && yields(
                transform,
                seed,
                result,
            ),
        }
    }

    /// Determines if the transformation has run.
    pub fn is_initialized(&self) -> (initialized: bool)
        ensures
            initialized == (self is Initialized),
    {
        match self {
            Lazy::Uninitialized(_) => false,
            Lazy::Initialized(_) => true,
        }
    }

    /// Determines if the seed is still waiting for the transformation.
    pub fn is_uninitialized(&self) -> (uninitialized: bool)
        ensures
            uninitialized == (self is Uninitialized),
    {
        !self.is_initialized()
    }

    /// Runs `initialize` on the seed and stores what it returns. On a state that
    /// is already initialized this does nothing, and `initialize` is not called.
    pub fn initialize<Init: FnMut(&mut U) -> I>(&mut self, mut initialize: Init)
        requires
            old(self).ready_for(initialize),
        ensures
            old(self).initialized_by(initialize, *final(self)),
            *final(self) is Initialized,
    {
        match self {
            Lazy::Uninitialized(seed) => {
                let result = initialize(seed);
                *self = Lazy::Initialized(result);
            },
            _ => {},
        }
    }

    /// Initializes the state if that has yet to happen, then hands out the result.
    pub fn get<Init: FnMut(&mut U) -> I>(&mut self, initialize: Init) -> (result: &mut I)
        requires
            old(self).ready_for(initialize),
        ensures
            old(self).initialized_by(initialize, Lazy::Initialized(*result)),
            *final(self) == Lazy::<U, I>::Initialized(*final(result)),
    {
        self.initialize(initialize);
        self.try_initialized().unwrap()
    }

    /// Hands out the result, or `None` while the state is uninitialized.
    pub fn try_initialized(&mut self) -> (found: Option<&mut I>)
        ensures
            match *old(self) {
                Lazy::Initialized(result) => {
                    &&& found matches Some(r)
                    &&& *r == result
                    &&& *final(self) == Lazy::<U, I>::Initialized(*final(r))
                },
                Lazy::Uninitialized(_) => found is None && *final(self) == *old(self),
            },
    {
        if let Lazy::Initialized(result) = self {
            return Some(result);
        }
        None
    }

    /// Hands out the seed, or `None` once the state is initialized.
    pub fn try_uninitialized(&mut self) -> (found: Option<&mut U>)
        ensures
            match *old(self) {
                Lazy::Uninitialized(seed) => {
                    &&& found matches Some(r)
                    &&& *r == seed
                    &&& *final(self) == Lazy::<U, I>::Uninitialized(*final(r))
                },
                Lazy::Initialized(_) => found is None && *final(self) == *old(self),
            },
    {
        if let Lazy::Uninitialized(seed) = self {
            return Some(seed);
        }
        None
    }
}

/// Initializing twice is initializing once: whatever state the first call of
/// [`Lazy::initialize`] leaves, a second call leaves the same state, whichever
/// transformation it is given.
pub proof fn lemma_initialize_idempotent<U, I, F: FnMut(&mut U) -> I, G: FnMut(&mut U) -> I>(
    before: Lazy<U, I>,
    first: F,
    once: Lazy<U, I>,
    second: G,
    twice: Lazy<U, I>,
)
    requires
        before.initialized_by(first, once),
        once.initialized_by(second, twice),
    ensures
        once.ready_for(second),
        twice == once,
{
}

/// The transition happens in one step: after [`Lazy::initialize`] on a state that
/// held a seed, the state is initialized and the seed is gone.
pub proof fn lemma_initialize_one_shot<U, I, F: FnMut(&mut U) -> I>(
    before: Lazy<U, I>,
    transform: F,
    after: Lazy<U, I>,
)
    requires
        before is Uninitialized,
        before.initialized_by(transform, after),
    ensures
        after is Initialized,
        !(after is Uninitialized),
{
}

} // verus!
