//! A map from types to shared singleton values.

use std::collections::HashMap;
use std::sync::Arc;
use vstd::prelude::*;

use crate::utils::TypeTag;

verus! {

/// Calls `Arc::clone`, which makes another pointer to the same allocation:
/// the new pointer holds the very value that `shared` holds.
#[verifier::external_body]
fn share<V>(shared: &Arc<V>) -> (copy: Arc<V>)
    ensures
        copy == *shared,
{
    Arc::clone(shared)
}

/// A map with at most one value per type, handed out behind shared
/// pointers.
#[derive(Debug)]
pub struct AnyMap<V>(HashMap<u64, Arc<V>>);

impl<V> View for AnyMap<V> {
    type V = Map<u64, V>;

    closed spec fn view(&self) -> Map<u64, V> {
        self.0@.map_values(|shared: Arc<V>| *shared)
    }
}

/// The value held for a type, if any.
pub open spec fn held_for<V>(content: Map<u64, V>, type_tag: TypeTag) -> Option<V> {
    if content.contains_key(type_tag.id) {
        Some(content[type_tag.id])
    } else {
        None
    }
}

/// What a shared pointer, if any, points to.
pub open spec fn pointee<V>(shared: Option<Arc<V>>) -> Option<V> {
    match shared {
        Some(shared) => Some(*shared),
        None => None,
    }
}

impl<V> AnyMap<V> {
    /// An empty map.
    pub fn new() -> (map: Self)
        ensures
            map@ == Map::<u64, V>::empty(),
    {
        let map = AnyMap(HashMap::new());
        assert(map@ =~= Map::<u64, V>::empty());
        map
    }

    /// Holds `value` for the type and returns what was held for it before.
    pub fn insert(&mut self, type_tag: TypeTag, value: V) -> (replaced: Option<Arc<V>>)
        ensures
            final(self)@ == old(self)@.insert(type_tag.id, value),
            pointee(replaced) == held_for(old(self)@, type_tag),
    {
        let replaced = self.0.insert(type_tag.raw(), Arc::new(value));
        assert(self@ =~= old(self)@.insert(type_tag.id, value));
        replaced
    }

    /// The value held for the type, shared.
    pub fn get(&self, type_tag: TypeTag) -> (found: Option<Arc<V>>)
        ensures
            pointee(found) == held_for(self@, type_tag),
    {
        let key = type_tag.raw();
        match self.0.get(&key) {
            Some(shared) => Some(share(shared)),
            None => None,
        }
    }

    /// Takes out the value held for the type.
    pub fn remove(&mut self, type_tag: TypeTag) -> (removed: Option<Arc<V>>)
        ensures
            final(self)@ == old(self)@.remove(type_tag.id),
            pointee(removed) == held_for(old(self)@, type_tag),
    {
        let key = type_tag.raw();
        let removed = self.0.remove(&key);
        assert(self@ =~= old(self)@.remove(type_tag.id));
        removed
    }

    /// Whether a value is held for the type.
    pub fn has(&self, type_tag: TypeTag) -> (present: bool)
        ensures
            present == self@.contains_key(type_tag.id),
    {
        let key = type_tag.raw();
        self.0.contains_key(&key)
    }
}

} // verus!
