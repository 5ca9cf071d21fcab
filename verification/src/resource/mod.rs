//! Resources: singleton values addressed by their type alone.

pub mod update;

use std::collections::HashMap;
use vstd::prelude::*;

use crate::utils::TypeTag;

verus! {

/// What can be stored as a resource.
pub trait MoonbaseResource: Send + Sync + Clone + 'static {
    /// Called by who wants to be told of changes; does nothing unless
    /// overridden.
    fn subscribe_changes(&self) {
    }
}

/// Resource is for a global unique data for a runtime, in other words, it is a singleton.
#[derive(Debug)]
pub struct Resource<T>(T);

impl<T> View for Resource<T> {
    type V = T;

    /// The value that is wrapped.
    closed spec fn view(&self) -> T {
        self.0
    }
}

impl<T> Resource<T> {
    /// Wraps a value.
    pub fn new(data: T) -> (resource: Self)
        ensures
            resource@ == data,
    {
        Resource(data)
    }

    /// Unwraps the value.
    pub fn into_inner(self) -> (data: T)
        ensures
            data == self@,
    {
        self.0
    }

    /// The value, borrowed.
    pub fn as_ref(&self) -> (data: &T)
        ensures
            *data == self@,
    {
        &self.0
    }
}

/// The resources of one runtime, addressed by the tag of their type.
///
/// Viewed as a map from the raw tag to the value, at most one resource of a
/// type is stored at any time.
#[derive(Debug)]
pub struct ResourceRepositoryInner<V> {
    components: HashMap<u64, V>,
}

impl<V> View for ResourceRepositoryInner<V> {
    type V = Map<u64, V>;

    closed spec fn view(&self) -> Map<u64, V> {
        self.components@
    }
}

/// The resource stored for a type, if any.
pub open spec fn stored_for<V>(content: Map<u64, V>, type_tag: TypeTag) -> Option<V> {
    if content.contains_key(type_tag.id) {
        Some(content[type_tag.id])
    } else {
        None
    }
}

impl<V: MoonbaseResource> ResourceRepositoryInner<V> {
    /// An empty repository.
    pub fn new() -> (repository: Self)
        ensures
            repository@ == Map::<u64, V>::empty(),
    {
        ResourceRepositoryInner { components: HashMap::new() }
    }

    /// Stores `component` as the resource of its type and returns the one
    /// that it replaces.
    pub fn insert(&mut self, type_tag: TypeTag, component: V) -> (replaced: Option<V>)
        ensures
            final(self)@ == old(self)@.insert(type_tag.id, component),
            replaced == stored_for(old(self)@, type_tag),
    {
        self.components.insert(type_tag.raw(), component)
    }

    /// Removes the resource of a type and returns it.
    pub fn remove(&mut self, type_tag: TypeTag) -> (removed: Option<V>)
        ensures
            final(self)@ == old(self)@.remove(type_tag.id),
            removed == stored_for(old(self)@, type_tag),
    {
        let id = type_tag.raw();
        self.components.remove(&id)
    }

    /// The resource of a type, borrowed.
    pub fn get_ref(&self, type_tag: TypeTag) -> (found: Option<&V>)
        ensures
            found == (match stored_for(self@, type_tag) {
                Some(value) => Some(&value),
                None => None,
            }),
    {
        let id = type_tag.raw();
        self.components.get(&id)
    }

    /// A clone of the resource of a type.
    pub fn get(&self, type_tag: TypeTag) -> (found: Option<V>)
        ensures
            match (stored_for(self@, type_tag), found) {
                (Some(value), Some(copy)) => cloned(value, copy),
                (None, None) => true,
                _ => false,
            },
    {
        match self.get_ref(type_tag) {
            Some(value) => Some(value.clone()),
            None => None,
        }
    }

    /// Whether a resource of the type is stored.
    pub fn has(&self, type_tag: TypeTag) -> (present: bool)
        ensures
            present == self@.contains_key(type_tag.id),
    {
        let id = type_tag.raw();
        self.components.contains_key(&id)
    }
}

} // verus!
