//! Deferred initialization of a value.
//!
//! A [`lazy::Lazy`] starts out holding a seed and turns, exactly once, into the
//! result that a caller-supplied transformation derives from that seed. A
//! [`lazy_object::LazyObject`] keeps the transformation next to the state, so
//! that it is supplied once instead of on every access. [`HashedPerson`] is
//! such an object, spelled out for one pair of shapes.

pub mod hashed_person;
pub mod lazy;
pub mod lazy_object;

pub use hashed_person::{HashedPerson, HashedPersonUninitialized, LazyHashedPerson};
