//! A table of values by the whole key of a component name.

use vstd::prelude::*;

use crate::components::name::ComponentKey;
use crate::components::name::ComponentName;
use crate::components::name::StoredKey;
use crate::utils::assoc::content;
use crate::utils::assoc::distinct;
use crate::utils::assoc::lemma_found;
use crate::utils::assoc::lemma_missing;
use crate::utils::assoc::lemma_push;
use crate::utils::assoc::lemma_swap_remove;
use crate::utils::TypeTag;

verus! {

/// The key of an entry.
pub closed spec fn key_of<V>() -> spec_fn((StoredKey, V)) -> ComponentKey {
    |entry: (StoredKey, V)| entry.0@
}

/// The value of an entry.
pub closed spec fn value_of<V>() -> spec_fn((StoredKey, V)) -> V {
    |entry: (StoredKey, V)| entry.1
}

/// Values by key, at most one per key.
#[derive(Debug)]
pub struct KeyTable<V> {
    entries: Vec<(StoredKey, V)>,
}

impl<V> View for KeyTable<V> {
    type V = Map<ComponentKey, V>;

    closed spec fn view(&self) -> Map<ComponentKey, V> {
        content(self.entries@, key_of(), value_of())
    }
}

/// Whether `keys` lists, each once, the keys of `content` that belong to the
/// type `type_tag`.
pub open spec fn lists_keys_of_type<V>(
    content: Map<ComponentKey, V>,
    type_tag: TypeTag,
    keys: Seq<ComponentKey>,
) -> bool {
    &&& keys.no_duplicates()
    &&& forall|key: ComponentKey|
        keys.contains(key) <==> content.contains_key(key) && key.type_tag == type_tag
}

impl<V> KeyTable<V> {
    /// No key occurs twice.
    #[verifier::type_invariant]
    closed spec fn keys_are_distinct(self) -> bool {
        distinct(self.entries@, key_of::<V>())
    }

    /// An empty table.
    pub fn new() -> (table: Self)
        ensures
            table@ == Map::<ComponentKey, V>::empty(),
    {
        let table = KeyTable { entries: Vec::new() };
        assert(table@ =~= Map::<ComponentKey, V>::empty());
        table
    }

    /// Where the key of `name` is, if it is in the table.
    fn find<T>(&self, name: &ComponentName<T>) -> (at: Option<usize>)
        ensures
            match at {
                Some(i) => i < self.entries@.len() && self.entries@[i as int].0@ == name@.key()
                    && self@.contains_key(name@.key()) && self@[name@.key()]
                    == self.entries@[i as int].1,
                None => !self@.contains_key(name@.key()),
            },
    {
        proof {
            use_type_invariant(self);
        }
        let mut i: usize = 0;
        while i < self.entries.len()
            invariant
                distinct(self.entries@, key_of::<V>()),
                i <= self.entries@.len(),
                forall|j: int| 0 <= j < i ==> self.entries@[j].0@ != name@.key(),
            decreases self.entries@.len() - i,
        {
            if name.is_key(&self.entries[i].0) {
                proof {
                    lemma_found(self.entries@, key_of(), value_of(), i as int);
                }
                return Some(i);
            }
            i = i + 1;
        }
        proof {
            lemma_missing(self.entries@, key_of(), value_of::<V>(), name@.key());
        }
        None
    }

    /// Takes the entries out for a change, leaving the table empty until they
    /// are put back.
    fn take_entries(&mut self) -> (entries: Vec<(StoredKey, V)>)
        ensures
            entries@ == old(self).entries@,
            final(self).entries@.len() == 0,
    {
        let mut entries: Vec<(StoredKey, V)> = Vec::new();
        std::mem::swap(&mut self.entries, &mut entries);
        entries
    }

    /// Whether a value is stored under the key of `name`.
    pub fn contains<T>(&self, name: &ComponentName<T>) -> (present: bool)
        ensures
            present == self@.contains_key(name@.key()),
    {
        self.find(name).is_some()
    }

    /// The value stored under the key of `name`, borrowed.
    pub fn get_ref<T>(&self, name: &ComponentName<T>) -> (found: Option<&V>)
        ensures
            found == (if self@.contains_key(name@.key()) {
                Some(&self@[name@.key()])
            } else {
                None
            }),
    {
        match self.find(name) {
            Some(i) => Some(&self.entries[i].1),
            None => None,
        }
    }

    /// Stores `value` under the key of `name` and returns what was stored
    /// there before.
    pub fn insert<T>(&mut self, name: &ComponentName<T>, value: V) -> (replaced: Option<V>)
        ensures
            final(self)@ == old(self)@.insert(name@.key(), value),
            replaced == (if old(self)@.contains_key(name@.key()) {
                Some(old(self)@[name@.key()])
            } else {
                None
            }),
    {
        let ghost before = self.entries@;
        let key = name.to_key();
        proof {
            use_type_invariant(&*self);
        }
        let at = self.find(name);
        let mut entries = self.take_entries();
        match at {
            Some(i) => {
                let (_, previous) = entries.swap_remove(i);
                proof {
                    lemma_swap_remove(before, key_of(), value_of::<V>(), i as int);
                    lemma_push(entries@, key_of(), value_of(), (key, value));
                    assert(content(before, key_of(), value_of::<V>()).remove(key@).insert(
                        key@,
                        value,
                    ) =~= content(before, key_of(), value_of::<V>()).insert(key@, value));
                }
                entries.push((key, value));
                self.entries = entries;
                Some(previous)
            },
            None => {
                proof {
                    lemma_push(before, key_of(), value_of(), (key, value));
                }
                entries.push((key, value));
                self.entries = entries;
                None
            },
        }
    }

    /// Removes the value stored under the key of `name` and returns it.
    pub fn remove<T>(&mut self, name: &ComponentName<T>) -> (removed: Option<V>)
        ensures
            final(self)@ == old(self)@.remove(name@.key()),
            removed == (if old(self)@.contains_key(name@.key()) {
                Some(old(self)@[name@.key()])
            } else {
                None
            }),
    {
        let ghost before = self.entries@;
        proof {
            use_type_invariant(&*self);
        }
        match self.find(name) {
            Some(i) => {
                let mut entries = self.take_entries();
                let (_, value) = entries.swap_remove(i);
                proof {
                    lemma_swap_remove(before, key_of(), value_of::<V>(), i as int);
                }
                self.entries = entries;
                Some(value)
            },
            None => {
                assert(self@ =~= old(self)@.remove(name@.key()));
                None
            },
        }
    }

    /// The values whose key belongs to the type `type_tag`, borrowed, each
    /// once and in no particular order.
    pub fn of_type(&self, type_tag: TypeTag) -> (found: Vec<&V>)
        ensures
            exists|keys: Seq<ComponentKey>|
                {
                    &&& lists_keys_of_type(self@, type_tag, keys)
                    &&& found@.len() == keys.len()
                    &&& forall|n: int|
                        0 <= n < keys.len() ==> *(#[trigger] found@[n]) == self@[keys[n]]
                },
    {
        proof {
            use_type_invariant(self);
        }
        let mut found: Vec<&V> = Vec::new();
        let ghost mut keys: Seq<ComponentKey> = Seq::empty();
        let mut i: usize = 0;
        while i < self.entries.len()
            invariant
                distinct(self.entries@, key_of::<V>()),
                i <= self.entries@.len(),
                keys.no_duplicates(),
                forall|key: ComponentKey|
                    keys.contains(key) <==> exists|j: int|
                        0 <= j < i && (#[trigger] self.entries@[j]).0@ == key && key.type_tag
                            == type_tag,
                found@.len() == keys.len(),
                forall|n: int| 0 <= n < keys.len() ==> self@.contains_key(#[trigger] keys[n]),
                forall|n: int|
                    0 <= n < keys.len() ==> *(#[trigger] found@[n]) == self@[keys[n]],
            decreases self.entries@.len() - i,
        {
            let ghost key = self.entries@[i as int].0@;
            proof {
                lemma_found(self.entries@, key_of(), value_of::<V>(), i as int);
                assert(key_of::<V>()(self.entries@[i as int]) == key);
                assert(self@.contains_key(key));
                assert(self@[key] == self.entries@[i as int].1);
            }
            if self.entries[i].0.type_tag() == type_tag {
                let ghost found_before = found@;
                found.push(&self.entries[i].1);
                proof {
                    let before = keys;
                    assert(!before.contains(key)) by {
                        if before.contains(key) {
                            let j = choose|j: int|
                                0 <= j < i && (#[trigger] self.entries@[j]).0@ == key
                                    && key.type_tag == type_tag;
                            assert(key_of::<V>()(self.entries@[j]) == key_of::<V>()(
                                self.entries@[i as int],
                            ));
                        }
                    }
                    keys = before.push(key);
                    assert forall|n: int| 0 <= n < keys.len() implies self@.contains_key(
                        #[trigger] keys[n],
                    ) by {
                        if n < before.len() {
                            assert(keys[n] == before[n]);
                        }
                    }
                    assert forall|n: int| 0 <= n < keys.len() implies *(#[trigger] found@[n])
                        == self@[keys[n]] by {
                        if n < before.len() {
                            assert(found@[n] == found_before[n]);
                            assert(keys[n] == before[n]);
                        }
                    }
                    assert forall|k: ComponentKey| keys.contains(k) implies exists|j: int|
                        0 <= j < i + 1 && (#[trigger] self.entries@[j]).0@ == k && k.type_tag
                            == type_tag by {
                        let at = choose|at: int| 0 <= at < keys.len() && keys[at] == k;
                        if at < before.len() {
                            assert(before.contains(k));
                            let j = choose|j: int|
                                0 <= j < i && (#[trigger] self.entries@[j]).0@ == k && k.type_tag
                                    == type_tag;
                            assert(0 <= j < i + 1);
                        } else {
                            assert(self.entries@[i as int].0@ == k);
                        }
                    }
                    assert forall|k: ComponentKey|
                        (exists|j: int|
                            0 <= j < i + 1 && (#[trigger] self.entries@[j]).0@ == k && k.type_tag
                                == type_tag) implies keys.contains(k) by {
                        let j = choose|j: int|
                            0 <= j < i + 1 && (#[trigger] self.entries@[j]).0@ == k && k.type_tag
                                == type_tag;
                        if j < i {
                            assert(before.contains(k));
                            let at = choose|at: int| 0 <= at < before.len() && before[at] == k;
                            assert(keys[at] == k);
                        } else {
                            assert(keys[before.len() as int] == k);
                        }
                    }
                }
            } else {
                proof {
                    assert forall|k: ComponentKey|
                        (exists|j: int|
                            0 <= j < i + 1 && (#[trigger] self.entries@[j]).0@ == k && k.type_tag
                                == type_tag) implies keys.contains(k) by {
                        let j = choose|j: int|
                            0 <= j < i + 1 && (#[trigger] self.entries@[j]).0@ == k && k.type_tag
                                == type_tag;
                        assert(j < i);
                    }
                }
            }
            i = i + 1;
        }
        proof {
            assert forall|key: ComponentKey|
                keys.contains(key) <==> self@.contains_key(key) && key.type_tag == type_tag by {
                if self@.contains_key(key) && key.type_tag == type_tag {
                    let j = choose|j: int|
                        0 <= j < self.entries@.len() && key_of::<V>()(self.entries@[j]) == key;
                    assert(self.entries@[j].0@ == key);
                }
                if keys.contains(key) {
                    let j = choose|j: int|
                        0 <= j < i && (#[trigger] self.entries@[j]).0@ == key && key.type_tag
                            == type_tag;
                    lemma_found(self.entries@, key_of(), value_of::<V>(), j);
                }
            }
        }
        found
    }
}

} // verus!
