//! An index of values by the whole key of a component name, with the hash
//! of the name as the way in: every hash has a bucket, and a bucket tells
//! the keys that share the hash apart.

use std::collections::HashMap;
use vstd::prelude::*;
use vstd::std_specs::iter::IteratorSpec;

use crate::components::name::ComponentKey;
use crate::components::name::ComponentName;
use crate::components::table::lists_keys_of_type;
use crate::components::table::KeyTable;
use crate::utils::TypeTag;

verus! {

/// Values by key, at most one per key, found through the hash of the key.
#[derive(Debug)]
pub struct KeyIndex<V> {
    buckets: HashMap<u64, KeyTable<V>>,
}

/// What the buckets hold under `key`: only the bucket of the key's own hash
/// is looked at.
spec fn holds<V>(buckets: Map<u64, KeyTable<V>>, key: ComponentKey) -> bool {
    buckets.contains_key(key.spec_hash()) && buckets[key.spec_hash()]@.contains_key(key)
}

/// The content of the buckets.
spec fn content_of<V>(buckets: Map<u64, KeyTable<V>>) -> Map<ComponentKey, V> {
    Map::new(|key: ComponentKey| holds(buckets, key), |key: ComponentKey| buckets[key.spec_hash()]@[key])
}

/// Every key lies in the bucket of its own hash.
spec fn sorted_by_hash<V>(buckets: Map<u64, KeyTable<V>>) -> bool {
    forall|hash: u64, key: ComponentKey|
        buckets.contains_key(hash) && #[trigger] buckets[hash]@.contains_key(key)
            ==> key.spec_hash() == hash
}

impl<V> View for KeyIndex<V> {
    type V = Map<ComponentKey, V>;

    closed spec fn view(&self) -> Map<ComponentKey, V> {
        content_of(self.buckets@)
    }
}

impl<V> KeyIndex<V> {
    /// Every key lies in the bucket of its own hash.
    #[verifier::type_invariant]
    closed spec fn keys_lie_in_their_bucket(self) -> bool {
        sorted_by_hash(self.buckets@)
    }

    /// An empty index.
    pub fn new() -> (index: Self)
        ensures
            index@ == Map::<ComponentKey, V>::empty(),
    {
        let index = KeyIndex { buckets: HashMap::new() };
        assert(index@ =~= Map::<ComponentKey, V>::empty());
        index
    }

    /// Takes the buckets out for a change, leaving the index empty until
    /// they are put back.
    fn take_buckets(&mut self) -> (buckets: HashMap<u64, KeyTable<V>>)
        ensures
            buckets@ == old(self).buckets@,
            final(self).buckets@ == Map::<u64, KeyTable<V>>::empty(),
    {
        let mut buckets: HashMap<u64, KeyTable<V>> = HashMap::new();
        std::mem::swap(&mut self.buckets, &mut buckets);
        buckets
    }

    /// Whether a value is stored under the key of `name`.
    pub fn contains<T>(&self, name: &ComponentName<T>) -> (present: bool)
        ensures
            present == self@.contains_key(name@.key()),
    {
        let hash = name.hash();
        match self.buckets.get(&hash) {
            Some(bucket) => bucket.contains(name),
            None => false,
        }
    }

    /// The value stored under the key of `name`, borrowed.
    pub fn get_ref<T>(&self, name: &ComponentName<T>) -> (found: Option<&V>)
        ensures
            found == (if self@.contains_key(name@.key()) {
                Some(&self@[name@.key()])
            } else {
                None
            }),
    {
        let hash = name.hash();
        match self.buckets.get(&hash) {
            Some(bucket) => bucket.get_ref(name),
            None => None,
        }
    }

    /// Stores `value` under the key of `name` and returns what was stored
    /// there before.
    pub fn insert<T>(&mut self, name: &ComponentName<T>, value: V) -> (replaced: Option<V>)
        ensures
            final(self)@ == old(self)@.insert(name@.key(), value),
            replaced == (if old(self)@.contains_key(name@.key()) {
                Some(old(self)@[name@.key()])
            } else {
                None
            }),
    {
        proof {
            use_type_invariant(&*self);
        }
        let hash = name.hash();
        let ghost before = self.buckets@;
        let mut buckets = self.take_buckets();
        let mut bucket = match buckets.remove(&hash) {
            Some(bucket) => bucket,
            None => KeyTable::new(),
        };
        let replaced = bucket.insert(name, value);
        buckets.insert(hash, bucket);
        proof {
            let after = buckets@;
            assert(sorted_by_hash(after)) by {
                assert forall|h: u64, key: ComponentKey|
                    after.contains_key(h) && #[trigger] after[h]@.contains_key(key) implies key.spec_hash()
                    == h by {
                    if h == hash {
                        if key != name@.key() {
                            assert(before.contains_key(hash) && before[hash]@.contains_key(key));
                        }
                    } else {
                        assert(before.contains_key(h) && before[h]@.contains_key(key));
                    }
                }
            }
            assert(content_of(after) =~= content_of(before).insert(name@.key(), value)) by {
                assert forall|key: ComponentKey|
                    content_of(after).contains_key(key) <==> content_of(before).insert(
                        name@.key(),
                        value,
                    ).contains_key(key) by {
                    if key.spec_hash() == hash {
                    } else {
                        assert(after[key.spec_hash()] == before[key.spec_hash()]);
                    }
                }
                assert forall|key: ComponentKey| content_of(after).contains_key(key) implies content_of(
                    after,
                )[key] == content_of(before).insert(name@.key(), value)[key] by {
                    if key.spec_hash() == hash {
                    } else {
                        assert(after[key.spec_hash()] == before[key.spec_hash()]);
                    }
                }
            }
        }
        self.buckets = buckets;
        replaced
    }

    /// Removes the value stored under the key of `name` and returns it.
    pub fn remove<T>(&mut self, name: &ComponentName<T>) -> (removed: Option<V>)
        ensures
            final(self)@ == old(self)@.remove(name@.key()),
            removed == (if old(self)@.contains_key(name@.key()) {
                Some(old(self)@[name@.key()])
            } else {
                None
            }),
    {
        proof {
            use_type_invariant(&*self);
        }
        let hash = name.hash();
        let ghost before = self.buckets@;
        let mut buckets = self.take_buckets();
        let mut bucket = match buckets.remove(&hash) {
            Some(bucket) => bucket,
            None => KeyTable::new(),
        };
        let removed = bucket.remove(name);
        buckets.insert(hash, bucket);
        proof {
            let after = buckets@;
            assert(sorted_by_hash(after)) by {
                assert forall|h: u64, key: ComponentKey|
                    after.contains_key(h) && #[trigger] after[h]@.contains_key(key) implies key.spec_hash()
                    == h by {
                    if h == hash {
                        assert(before.contains_key(hash) && before[hash]@.contains_key(key));
                    } else {
                        assert(before.contains_key(h) && before[h]@.contains_key(key));
                    }
                }
            }
            assert(content_of(after) =~= content_of(before).remove(name@.key())) by {
                assert forall|key: ComponentKey|
                    content_of(after).contains_key(key) <==> content_of(before).remove(
                        name@.key(),
                    ).contains_key(key) by {
                    if key.spec_hash() == hash {
                    } else {
                        assert(after[key.spec_hash()] == before[key.spec_hash()]);
                    }
                }
                assert forall|key: ComponentKey| content_of(after).contains_key(key) implies content_of(
                    after,
                )[key] == content_of(before).remove(name@.key())[key] by {
                    if key.spec_hash() == hash {
                    } else {
                        assert(after[key.spec_hash()] == before[key.spec_hash()]);
                    }
                }
            }
        }
        self.buckets = buckets;
        removed
    }

    /// The values whose key belongs to the type `type_tag`, borrowed, each
    /// once and in no particular order.
    pub fn of_type(&self, type_tag: TypeTag) -> (found: Vec<&V>)
        ensures
            exists|keys: Seq<ComponentKey>|
                {
                    &&& lists_keys_of_type(self@, type_tag, keys)
                    &&& found@.len() == keys.len()
                    &&& forall|n: int|
                        0 <= n < keys.len() ==> *(#[trigger] found@[n]) == self@[keys[n]]
                },
    {
        proof {
            use_type_invariant(self);
        }
        let mut found: Vec<&V> = Vec::new();
        let ghost all = vstd::std_specs::hash::spec_hash_map_iter(&self.buckets).remaining();
        let ghost mut keys: Seq<ComponentKey> = Seq::empty();
        for entry in entries: self.buckets.iter()
            invariant
                entries.seq() == all,
                all.no_duplicates(),
                sorted_by_hash(self.buckets@),
                forall|i: int|
                    0 <= i < all.len() ==> self.buckets@.contains_key(*(#[trigger] all[i]).0)
                        && self.buckets@[*all[i].0] == *all[i].1,
                forall|hash: u64| #[trigger]
                    self.buckets@.contains_key(hash) ==> all.contains(
                        (&hash, &self.buckets@[hash]),
                    ),
                keys.no_duplicates(),
                forall|key: ComponentKey|
                    keys.contains(key) <==> exists|i: int|
                        0 <= i < entries.index() && (#[trigger] all[i]).1@.contains_key(key)
                            && key.type_tag == type_tag,
                found@.len() == keys.len(),
                forall|n: int| 0 <= n < keys.len() ==> self@.contains_key(#[trigger] keys[n]),
                forall|n: int|
                    0 <= n < keys.len() ==> *(#[trigger] found@[n]) == self@[keys[n]],
        {
            let ghost seen = entries.index();
            let (hash, bucket) = entry;
            assert(entry == all[seen]);
            let part = bucket.of_type(type_tag);
            let ghost part_keys = choose|part_keys: Seq<ComponentKey>|
                {
                    &&& lists_keys_of_type(bucket@, type_tag, part_keys)
                    &&& part@.len() == part_keys.len()
                    &&& forall|n: int|
                        0 <= n < part_keys.len() ==> *(#[trigger] part@[n]) == bucket@[part_keys[n]]
                };
            let ghost found_before = found@;
            let ghost keys_before = keys;
            let mut j: usize = 0;
            while j < part.len()
                invariant
                    j <= part@.len(),
                    found@ == found_before + part@.take(j as int),
                decreases part@.len() - j,
            {
                found.push(part[j]);
                proof {
                    assert(part@.take(j + 1) =~= part@.take(j as int).push(part@[j as int]));
                    assert(found@ =~= found_before + part@.take(j + 1));
                }
                j = j + 1;
            }
            proof {
                assert(part@.take(part@.len() as int) =~= part@);
                keys = keys_before + part_keys;
                // every key of this bucket lies in the index under the bucket's hash
                assert forall|n: int| 0 <= n < part_keys.len() implies self@.contains_key(
                    part_keys[n],
                ) && self@[part_keys[n]] == bucket@[part_keys[n]] by {
                    let key = part_keys[n];
                    assert(part_keys.contains(key));
                    assert(self.buckets@[*hash]@.contains_key(key));
                    assert(key.spec_hash() == *hash);
                }
                // a key listed before lies in another bucket
                assert forall|a: int, b: int|
                    0 <= a < keys_before.len() && 0 <= b < part_keys.len() implies keys_before[a]
                    != part_keys[b] by {
                    let key = keys_before[a];
                    if key == part_keys[b] {
                        assert(keys_before.contains(key));
                        let i = choose|i: int|
                            0 <= i < seen && (#[trigger] all[i]).1@.contains_key(key)
                                && key.type_tag == type_tag;
                        assert(self.buckets@[*all[i].0]@.contains_key(key));
                        assert(key.spec_hash() == *all[i].0);
                        assert(part_keys.contains(key));
                        assert(self.buckets@[*hash]@.contains_key(key));
                        assert(key.spec_hash() == *hash);
                        assert(all[i] == all[seen]);
                    }
                }
                assert(keys.no_duplicates()) by {
                    assert forall|a: int, b: int|
                        0 <= a < keys.len() && 0 <= b < keys.len() && a != b implies keys[a]
                        != keys[b] by {
                        let n = keys_before.len() as int;
                        if a < n && b < n {
                        } else if a >= n && b >= n {
                            assert(part_keys[a - n] != part_keys[b - n]);
                        } else if a < n {
                            assert(keys_before[a] != part_keys[b - n]);
                        } else {
                            assert(keys_before[b] != part_keys[a - n]);
                        }
                    }
                }
                assert forall|n: int| 0 <= n < keys.len() implies self@.contains_key(
                    #[trigger] keys[n],
                ) by {
                    let m = keys_before.len() as int;
                    if n < m {
                        assert(keys[n] == keys_before[n]);
                    } else {
                        assert(keys[n] == part_keys[n - m]);
                    }
                }
                assert forall|n: int| 0 <= n < keys.len() implies *(#[trigger] found@[n])
                    == self@[keys[n]] by {
                    let m = keys_before.len() as int;
                    if n < m {
                        assert(keys[n] == keys_before[n]);
                        assert(found@[n] == found_before[n]);
                    } else {
                        assert(keys[n] == part_keys[n - m]);
                        assert(found@[n] == part@[n - m]);
                    }
                }
                assert forall|key: ComponentKey| keys.contains(key) implies exists|i: int|
                    0 <= i < seen + 1 && (#[trigger] all[i]).1@.contains_key(key) && key.type_tag
                        == type_tag by {
                    let at = choose|at: int| 0 <= at < keys.len() && keys[at] == key;
                    let m = keys_before.len() as int;
                    if at < m {
                        assert(keys_before[at] == key);
                        assert(keys_before.contains(key));
                        let i = choose|i: int|
                            0 <= i < seen && (#[trigger] all[i]).1@.contains_key(key)
                                && key.type_tag == type_tag;
                        assert(0 <= i < seen + 1);
                    } else {
                        assert(part_keys[at - m] == key);
                        assert(part_keys.contains(key));
                        assert(all[seen].1@.contains_key(key));
                    }
                }
                assert forall|key: ComponentKey|
                    (exists|i: int|
                        0 <= i < seen + 1 && (#[trigger] all[i]).1@.contains_key(key)
                            && key.type_tag == type_tag) implies keys.contains(key) by {
                    let i = choose|i: int|
                        0 <= i < seen + 1 && (#[trigger] all[i]).1@.contains_key(key)
                            && key.type_tag == type_tag;
                    let m = keys_before.len() as int;
                    if i < seen {
                        assert(keys_before.contains(key));
                        let at = choose|at: int| 0 <= at < keys_before.len() && keys_before[at] == key;
                        assert(keys[at] == key);
                    } else {
                        assert(part_keys.contains(key));
                        let at = choose|at: int| 0 <= at < part_keys.len() && part_keys[at] == key;
                        assert(keys[m + at] == key);
                    }
                }
            }
        }
        proof {
            let seen = all.len() as int;
            assert forall|key: ComponentKey|
                keys.contains(key) <==> self@.contains_key(key) && key.type_tag == type_tag by {
                if self@.contains_key(key) && key.type_tag == type_tag {
                    let hash = key.spec_hash();
                    assert(self.buckets@.contains_key(hash));
                    assert(all.contains((&hash, &self.buckets@[hash])));
                    let i = choose|i: int|
                        0 <= i < all.len() && all[i] == (&hash, &self.buckets@[hash]);
                    assert(all[i].1@.contains_key(key));
                }
                if keys.contains(key) {
                    let at = choose|at: int| 0 <= at < keys.len() && keys[at] == key;
                    assert(self@.contains_key(keys[at]));
                    let i = choose|i: int|
                        0 <= i < seen && (#[trigger] all[i]).1@.contains_key(key) && key.type_tag
                            == type_tag;
                }
            }
        }
        found
    }
}

} // verus!
