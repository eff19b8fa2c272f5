//! A pair of shapes wired together through a lazy object: credentials that are
//! hashed only when the hash is first asked for.

use crate::lazy::Lazy;
use crate::lazy_object::{lemma_function_is_initializer, LazyObject};
use std::hash::{DefaultHasher, Hasher};
use vstd::prelude::*;
use vstd::std_specs::convert::IntoSpec;
use vstd::std_specs::hash::DefaultHasherAdditionalSpecFns;
use vstd::utf8::encode_utf8;

verus! {

/// A person known by the hash of their credentials.
#[derive(Debug)]
pub struct HashedPerson {
    hash: u64,
}

/// The credentials from which a [`HashedPerson`] is derived.
#[derive(Debug)]
pub struct HashedPersonUninitialized {
    username: String,
    password: String,
}

/// A [`HashedPerson`] that is computed from its credentials on first access.
pub type LazyHashedPerson = LazyObject<HashedPersonUninitialized, HashedPerson>;

/// The hash of a pair of credentials: what the default hasher returns after it
/// was fed the UTF-8 bytes of the user name and then those of the password.
pub open spec fn credential_hash(username: Seq<char>, password: Seq<char>) -> u64 {
    DefaultHasher::spec_finish(seq![encode_utf8(username), encode_utf8(password)])
}

impl View for HashedPerson {
    type V = u64;

    /// The hash.
    closed spec fn view(&self) -> u64 {
        self.hash
    }
}

impl View for HashedPersonUninitialized {
    type V = (Seq<char>, Seq<char>);

    /// The user name and the password, in this order.
    closed spec fn view(&self) -> (Seq<char>, Seq<char>) {
        (self.username@, self.password@)
    }
}

/// Hashes the user name and the password, in this order.
fn hash_credentials(uninit: &mut HashedPersonUninitialized) -> (person: HashedPerson)
    ensures
        person@ == credential_hash(old(uninit)@.0, old(uninit)@.1),
        *final(uninit) == *old(uninit),
{
    let mut hasher = DefaultHasher::new();
    hasher.write(uninit.username.as_str().as_bytes());
    hasher.write(uninit.password.as_str().as_bytes());
    // Two writes to an empty hasher are the two-element sequence of the hash's definition.
    assert(hasher@ =~= seq![encode_utf8(uninit.username@), encode_utf8(uninit.password@)]);
    HashedPerson { hash: hasher.finish() }
}

impl HashedPerson {
    /// Whether the initializer of `person` accepts any credentials and yields
    /// nothing but their hash.
    pub open spec fn hashes_credentials(person: LazyHashedPerson) -> bool {
        &&& forall|seed: HashedPersonUninitialized| #[trigger] person.accepts(seed)
        &&& forall|seed: HashedPersonUninitialized, result: HashedPerson| #[trigger]
            person.yields(seed, result) ==> result@ == credential_hash(seed@.0, seed@.1)
    }

    /// Stores the credentials for later. Nothing is hashed until the object is
    /// initialized.
    pub fn new_uninitialized(username: String, password: String) -> (person: LazyHashedPerson)
        ensures
            person@ matches Lazy::Uninitialized(seed) && seed@ == (username@, password@),
            Self::hashes_credentials(person),
    {
        let uninitialized = HashedPersonUninitialized { username, password };
        proof {
            lemma_function_is_initializer::<HashedPersonUninitialized, HashedPerson, _>(
                hash_credentials,
            );
        }
        LazyObject::new(Lazy::Uninitialized(uninitialized), Box::new(hash_credentials))
    }

    /// As [`HashedPerson::new_uninitialized`], for anything that converts into
    /// the type of the credentials.
    pub fn new_uninitialized_generic<Username: Into<String>, Password: Into<String>>(
        username: Username,
        password: Password,
    ) -> (person: LazyHashedPerson)
        ensures
            person@ matches Lazy::Uninitialized(seed) && (Username::obeys_into_spec() ==> seed@.0
                == username.into_spec()@) && (Password::obeys_into_spec() ==> seed@.1
                == password.into_spec()@),
            Self::hashes_credentials(person),
    {
        Self::new_uninitialized(username.into(), password.into())
    }
}

} // verus!
