//! Association lists: a sequence of entries read as a map, given what the
//! key and the value of an entry are.

use vstd::prelude::*;

verus! {

/// The place of `key` among `entries`, if it has one.
pub open spec fn place<E, K>(entries: Seq<E>, key_of: spec_fn(E) -> K, key: K) -> int {
    choose|i: int| 0 <= i < entries.len() && key_of(entries[i]) == key
}

/// No key occurs twice among `entries`.
pub open spec fn distinct<E, K>(entries: Seq<E>, key_of: spec_fn(E) -> K) -> bool {
    forall|i: int, j: int|
        0 <= i < entries.len() && 0 <= j < entries.len() && key_of(entries[i]) == key_of(
            entries[j],
        ) ==> i == j
}

/// The values of `entries` by their keys.
pub open spec fn content<E, K, V>(
    entries: Seq<E>,
    key_of: spec_fn(E) -> K,
    value_of: spec_fn(E) -> V,
) -> Map<K, V> {
    Map::new(
        |key: K| exists|i: int| 0 <= i < entries.len() && key_of(entries[i]) == key,
        |key: K| value_of(entries[place(entries, key_of, key)]),
    )
}

/// An entry found at a place is the entry of its key.
pub proof fn lemma_found<E, K, V>(
    entries: Seq<E>,
    key_of: spec_fn(E) -> K,
    value_of: spec_fn(E) -> V,
    at: int,
)
    requires
        distinct(entries, key_of),
        0 <= at < entries.len(),
    ensures
        content(entries, key_of, value_of).contains_key(key_of(entries[at])),
        content(entries, key_of, value_of)[key_of(entries[at])] == value_of(entries[at]),
        place(entries, key_of, key_of(entries[at])) == at,
{
    let found = place(entries, key_of, key_of(entries[at]));
    assert(key_of(entries[found]) == key_of(entries[at]));
}

/// A key that no entry has is not in the map.
pub proof fn lemma_missing<E, K, V>(
    entries: Seq<E>,
    key_of: spec_fn(E) -> K,
    value_of: spec_fn(E) -> V,
    key: K,
)
    requires
        forall|i: int| 0 <= i < entries.len() ==> key_of(entries[i]) != key,
    ensures
        !content(entries, key_of, value_of).contains_key(key),
{
}

/// Pushing an entry with a new key adds it to the map and keeps the rest.
pub proof fn lemma_push<E, K, V>(
    before: Seq<E>,
    key_of: spec_fn(E) -> K,
    value_of: spec_fn(E) -> V,
    entry: E,
)
    requires
        distinct(before, key_of),
        !content(before, key_of, value_of).contains_key(key_of(entry)),
    ensures
        distinct(before.push(entry), key_of),
        content(before.push(entry), key_of, value_of) == content(
            before,
            key_of,
            value_of,
        ).insert(key_of(entry), value_of(entry)),
{
    let after = before.push(entry);
    let n = before.len() as int;
    let key = key_of(entry);
    let old_map = content(before, key_of, value_of);
    let new_map = content(after, key_of, value_of);
    assert forall|j: int| 0 <= j < n implies key_of(after[j]) != key by {
        if key_of(after[j]) == key {
            assert(key_of(before[j]) == key);
        }
    }
    assert(distinct(after, key_of));
    assert forall|k: K| new_map.contains_key(k) <==> old_map.insert(
        key,
        value_of(entry),
    ).contains_key(k) by {
        if old_map.contains_key(k) {
            let j = place(before, key_of, k);
            assert(key_of(after[j]) == k);
        }
        if k == key {
            assert(key_of(after[n]) == k);
        }
        if new_map.contains_key(k) && k != key {
            let j = place(after, key_of, k);
            assert(key_of(before[j]) == k);
        }
    }
    assert forall|k: K| new_map.contains_key(k) implies new_map[k] == old_map.insert(
        key,
        value_of(entry),
    )[k] by {
        let i = place(after, key_of, k);
        if k == key {
            assert(key_of(after[n]) == k);
            assert(i == n);
        } else {
            assert(key_of(before[i]) == k);
            assert(place(before, key_of, k) == i);
        }
    }
    assert(new_map =~= old_map.insert(key, value_of(entry)));
}

/// Moving the last entry into the place of another removes the key of that
/// other from the map and keeps the rest.
pub proof fn lemma_swap_remove<E, K, V>(
    before: Seq<E>,
    key_of: spec_fn(E) -> K,
    value_of: spec_fn(E) -> V,
    at: int,
)
    requires
        distinct(before, key_of),
        0 <= at < before.len(),
    ensures
        distinct(before.update(at, before.last()).drop_last(), key_of),
        content(before.update(at, before.last()).drop_last(), key_of, value_of) == content(
            before,
            key_of,
            value_of,
        ).remove(key_of(before[at])),
{
    let after = before.update(at, before.last()).drop_last();
    let n = before.len() as int;
    let key = key_of(before[at]);
    let old_map = content(before, key_of, value_of);
    let new_map = content(after, key_of, value_of);
    let from = |j: int| if j == at { n - 1 } else { j };
    assert forall|j: int| 0 <= j < after.len() implies after[j] == before[from(j)] && from(j)
        != at by {}
    assert forall|i: int, j: int|
        0 <= i < after.len() && 0 <= j < after.len() && key_of(after[i]) == key_of(
            after[j],
        ) implies i == j by {
        assert(after[i] == before[from(i)]);
        assert(after[j] == before[from(j)]);
        assert(from(i) == from(j));
    }
    assert forall|k: K| new_map.contains_key(k) <==> old_map.remove(key).contains_key(k) by {
        if new_map.contains_key(k) {
            let j = place(after, key_of, k);
            assert(after[j] == before[from(j)]);
            assert(key_of(before[from(j)]) == k);
        }
        if old_map.contains_key(k) && k != key {
            let i = place(before, key_of, k);
            if i == n - 1 {
                assert(key_of(after[at]) == k);
            } else {
                assert(key_of(after[i]) == k);
            }
        }
    }
    assert forall|k: K| new_map.contains_key(k) implies new_map[k] == old_map.remove(key)[k] by {
        let j = place(after, key_of, k);
        assert(after[j] == before[from(j)]);
        assert(key_of(before[from(j)]) == k);
        assert(place(before, key_of, k) == from(j));
    }
    assert(new_map =~= old_map.remove(key));
}

} // verus!
