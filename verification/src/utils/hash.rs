//! Hashing helpers and the plain-value identity of a Rust type.

use std::any::TypeId;
use std::collections::hash_map::DefaultHasher;
use std::hash::Hash;
use std::hash::Hasher;
use vstd::prelude::*;

verus! {

/// `std::any::TypeId`, carried through as an opaque value.
#[verifier::external_type_specification]
#[verifier::external_body]
pub struct ExTypeId(TypeId);

/// Calls `std::any::TypeId::of`. Nothing is claimed about the identifier
/// that comes back.
#[verifier::external_body]
fn type_id_of<T: 'static>() -> TypeId {
    TypeId::of::<T>()
}

/// Calls `std::hash::Hash::hash` on `t`, feeding `state`. What an
/// implementation of `Hash` writes is its own business, so nothing is
/// claimed about the hasher afterwards.
#[verifier::external_body]
fn feed<T: Hash>(t: &T, state: &mut DefaultHasher) {
    t.hash(state)
}

/// Hashes any hashable value with a fresh default hasher.
pub fn hash<T: Hash>(t: &T) -> u64 {
    let mut hasher = DefaultHasher::new();
    feed(t, &mut hasher);
    hasher.finish()
}

/// The identity of a Rust type as a plain integer, so that it can key a map
/// and be compared in contracts.
#[derive(Debug, Clone, Copy, PartialEq, Eq, Hash, Structural)]
pub struct TypeTag {
    pub id: u64,
}

impl TypeTag {
    /// The tag of the type `T`: the default hash of its `TypeId`.
    pub fn of<T: 'static>() -> TypeTag {
        let id = type_id_of::<T>();
        TypeTag { id: hash(&id) }
    }

    /// A tag with the given raw value.
    pub fn from_raw(id: u64) -> (tag: TypeTag)
        ensures
            tag.id == id,
    {
        TypeTag { id }
    }

    /// The raw value of the tag.
    pub fn raw(&self) -> (id: u64)
        ensures
            id == self.id,
    {
        self.id
    }
}

} // verus!
