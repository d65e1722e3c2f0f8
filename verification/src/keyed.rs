//! Lists whose items carry a key, read as maps.
//!
//! The tally keeps its candidates, and the registry its games, in a list in
//! which no key occurs twice. Such a list stands for the map from each key to
//! what the item with that key holds. The lemmas say how that map changes
//! when an item is replaced by one with the same key, and when an item with a
//! new key is added.

use vstd::prelude::*;

verus! {

/// Whether an item of the list has the key `key`.
pub open spec fn has_key<T, K>(list: Seq<T>, key_of: spec_fn(T) -> K, key: K) -> bool {
    exists|i: int| 0 <= i < list.len() && key_of(#[trigger] list[i]) == key
}

/// The place of an item with the key `key`, where there is one.
pub open spec fn index_of_key<T, K>(list: Seq<T>, key_of: spec_fn(T) -> K, key: K) -> int {
    choose|i: int| 0 <= i < list.len() && key_of(#[trigger] list[i]) == key
}

/// Whether no two items of the list have the same key.
pub open spec fn distinct_keys<T, K>(list: Seq<T>, key_of: spec_fn(T) -> K) -> bool {
    forall|i: int, j: int|
        0 <= i < j < list.len() ==> key_of(#[trigger] list[i]) != key_of(#[trigger] list[j])
}

/// The map from the key of each item to its value.
pub open spec fn keyed_map<T, K, V>(
    list: Seq<T>,
    key_of: spec_fn(T) -> K,
    value_of: spec_fn(T) -> V,
) -> Map<K, V> {
    Map::new(
        |key: K| has_key(list, key_of, key),
        |key: K| value_of(list[index_of_key(list, key_of, key)]),
    )
}

/// In a list with distinct keys, the key of an item leads back to that item.
pub proof fn lemma_keyed_index<T, K, V>(
    list: Seq<T>,
    key_of: spec_fn(T) -> K,
    value_of: spec_fn(T) -> V,
    i: int,
)
    requires
        distinct_keys(list, key_of),
        0 <= i < list.len(),
    ensures
        has_key(list, key_of, key_of(list[i])),
        index_of_key(list, key_of, key_of(list[i])) == i,
        keyed_map(list, key_of, value_of).contains_key(key_of(list[i])),
        keyed_map(list, key_of, value_of)[key_of(list[i])] == value_of(list[i]),
{
    let key = key_of(list[i]);
    assert(has_key(list, key_of, key));
    let k = index_of_key(list, key_of, key);
    assert(0 <= k < list.len() && key_of(list[k]) == key);
    if k < i {
        assert(key_of(list[k]) != key_of(list[i]));
    } else if i < k {
        assert(key_of(list[i]) != key_of(list[k]));
    }
}

/// Replacing an item by one with the same key keeps the keys distinct and
/// changes the map at that key alone.
pub proof fn lemma_keyed_update<T, K, V>(
    before: Seq<T>,
    after: Seq<T>,
    key_of: spec_fn(T) -> K,
    value_of: spec_fn(T) -> V,
    i: int,
)
    requires
        distinct_keys(before, key_of),
        0 <= i < before.len(),
        after.len() == before.len(),
        key_of(after[i]) == key_of(before[i]),
        forall|j: int| 0 <= j < before.len() && j != i ==> after[j] == before[j],
    ensures
        distinct_keys(after, key_of),
        keyed_map(after, key_of, value_of) == keyed_map(before, key_of, value_of).insert(
            key_of(before[i]),
            value_of(after[i]),
        ),
{
    let changed = key_of(before[i]);
    assert forall|a: int, b: int| 0 <= a < b < after.len() implies key_of(#[trigger] after[a])
        != key_of(#[trigger] after[b]) by {
        assert(key_of(after[a]) == key_of(before[a]));
        assert(key_of(after[b]) == key_of(before[b]));
    }
    lemma_keyed_index(before, key_of, value_of, i);
    lemma_keyed_index(after, key_of, value_of, i);
    let lhs = keyed_map(after, key_of, value_of);
    let rhs = keyed_map(before, key_of, value_of).insert(changed, value_of(after[i]));
    assert forall|key: K| lhs.contains_key(key) <==> rhs.contains_key(key) by {
        if has_key(after, key_of, key) {
            let j = index_of_key(after, key_of, key);
            assert(key_of(before[j]) == key);
        }
        if has_key(before, key_of, key) {
            let j = index_of_key(before, key_of, key);
            assert(key_of(after[j]) == key);
        }
    }
    assert forall|key: K| lhs.contains_key(key) implies lhs[key] == rhs[key] by {
        if key != changed {
            let j = index_of_key(after, key_of, key);
            assert(j != i);
            assert(key_of(before[j]) == key);
            lemma_keyed_index(before, key_of, value_of, j);
            lemma_keyed_index(after, key_of, value_of, j);
        }
    }
    assert(lhs =~= rhs);
}

/// Adding an item with a new key keeps the keys distinct and adds that key
/// to the map.
pub proof fn lemma_keyed_push<T, K, V>(
    before: Seq<T>,
    item: T,
    key_of: spec_fn(T) -> K,
    value_of: spec_fn(T) -> V,
)
    requires
        distinct_keys(before, key_of),
        !has_key(before, key_of, key_of(item)),
    ensures
        distinct_keys(before.push(item), key_of),
        !keyed_map(before, key_of, value_of).contains_key(key_of(item)),
        keyed_map(before.push(item), key_of, value_of) == keyed_map(
            before,
            key_of,
            value_of,
        ).insert(key_of(item), value_of(item)),
{
    let after = before.push(item);
    let added = key_of(item);
    assert forall|a: int, b: int| 0 <= a < b < after.len() implies key_of(#[trigger] after[a])
        != key_of(#[trigger] after[b]) by {
        if b == before.len() {
            assert(key_of(before[a]) != added);
        } else {
            assert(key_of(before[a]) != key_of(before[b]));
        }
    }
    let last = before.len() as int;
    lemma_keyed_index(after, key_of, value_of, last);
    let lhs = keyed_map(after, key_of, value_of);
    let rhs = keyed_map(before, key_of, value_of).insert(added, value_of(item));
    assert forall|key: K| lhs.contains_key(key) <==> rhs.contains_key(key) by {
        if has_key(after, key_of, key) {
            let j = index_of_key(after, key_of, key);
            if j < last {
                assert(key_of(before[j]) == key);
            }
        }
        if has_key(before, key_of, key) {
            let j = index_of_key(before, key_of, key);
            assert(key_of(after[j]) == key);
        }
    }
    assert forall|key: K| lhs.contains_key(key) implies lhs[key] == rhs[key] by {
        if key != added {
            let j = index_of_key(after, key_of, key);
            assert(j != last);
            assert(key_of(before[j]) == key);
            lemma_keyed_index(before, key_of, value_of, j);
            lemma_keyed_index(after, key_of, value_of, j);
        }
    }
    assert(lhs =~= rhs);
}

} // verus!
