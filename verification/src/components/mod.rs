//! Components: singleton values addressed by a name and a type. Several
//! components of one type can live side by side under different names.

pub mod index;
pub mod name;
pub mod table;

pub use name::ComponentDomain;
pub use name::ComponentKey;
pub use name::ComponentName;
pub use name::ComponentNameView;
pub use name::StoredKey;

use vstd::prelude::*;

use crate::components::table::lists_keys_of_type;
use crate::components::index::KeyIndex;
use crate::utils::TypeTag;

verus! {

/// Identifies an entity.
#[derive(Debug, Hash, Eq, PartialEq, Clone, Copy, Default)]
pub struct Entity {
    entity_id: (u64, u64),
}

/// What can be stored as a component.
pub trait MoonbaseComponent: Clone + Send + Sync + 'static {

}

/// The components of one runtime, by the key of their name.
///
/// Viewed as a map from the key (domain, type and bytes of the name) to the
/// component, at most one component is stored under a key at any time, and
/// names that differ in domain, type or bytes never address the same
/// component. The hash of a name only leads to the bucket in which its key
/// is looked for.
#[derive(Debug)]
pub struct ComponentRepositoryInner<V> {
    components: KeyIndex<V>,
}

impl<V> View for ComponentRepositoryInner<V> {
    type V = Map<ComponentKey, V>;

    closed spec fn view(&self) -> Map<ComponentKey, V> {
        self.components@
    }
}

/// The component stored under the key of `name`, if any.
pub open spec fn stored_under<V>(content: Map<ComponentKey, V>, name: ComponentNameView) -> Option<
    V,
> {
    if content.contains_key(name.key()) {
        Some(content[name.key()])
    } else {
        None
    }
}

impl<V: MoonbaseComponent> ComponentRepositoryInner<V> {
    /// An empty repository.
    pub fn new() -> (repository: Self)
        ensures
            repository@ == Map::<ComponentKey, V>::empty(),
    {
        ComponentRepositoryInner { components: KeyIndex::new() }
    }

    /// Whether a component is stored under the key of `name`.
    pub fn contains<T>(&self, name: &ComponentName<T>) -> (present: bool)
        ensures
            present == self@.contains_key(name@.key()),
    {
        self.components.contains(name)
    }

    /// Stores `component` under the key of `name` and returns what was
    /// stored there before. Components under other keys stay as they are.
    pub fn insert<T>(&mut self, name: &ComponentName<T>, component: V) -> (replaced: Option<V>)
        ensures
            final(self)@ == old(self)@.insert(name@.key(), component),
            replaced == stored_under(old(self)@, name@),
    {
        self.components.insert(name, component)
    }

    /// Removes the component stored under the key of `name` and returns it.
    /// Components under other keys stay as they are.
    pub fn remove<T>(&mut self, name: &ComponentName<T>) -> (removed: Option<V>)
        ensures
            final(self)@ == old(self)@.remove(name@.key()),
            removed == stored_under(old(self)@, name@),
    {
        self.components.remove(name)
    }

    /// The component stored under the key of `name`, borrowed.
    pub fn get_ref<T>(&self, name: &ComponentName<T>) -> (found: Option<&V>)
        ensures
            found == (match stored_under(self@, name@) {
                Some(value) => Some(&value),
                None => None,
            }),
    {
        self.components.get_ref(name)
    }

    /// A clone of the component stored under the key of `name`; `None` if
    /// nothing is stored under that key, whatever is stored under others.
    pub fn get<T>(&self, name: &ComponentName<T>) -> (found: Option<V>)
        ensures
            match (stored_under(self@, name@), found) {
                (Some(value), Some(copy)) => cloned(value, copy),
                (None, None) => true,
                _ => false,
            },
    {
        match self.get_ref(name) {
            Some(value) => Some(value.clone()),
            None => None,
        }
    }

    /// A snapshot of all components whose name belongs to the type
    /// `type_tag`, borrowed, each once and in no particular order.
    pub fn iter(&self, type_tag: TypeTag) -> (found: Vec<&V>)
        ensures
            exists|keys: Seq<ComponentKey>|
                {
                    &&& lists_keys_of_type(self@, type_tag, keys)
                    &&& found@.len() == keys.len()
                    &&& forall|n: int|
                        0 <= n < keys.len() ==> *(#[trigger] found@[n]) == self@[keys[n]]
                },
    {
        self.components.of_type(type_tag)
    }
}

} // verus!
