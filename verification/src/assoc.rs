//! Lists of key-value pairs read as finite maps: the theory behind the
//! trust set, which keeps its bindings in such a list.

use vstd::prelude::*;

verus! {

/// Whether the pair at `i` has the key `key`.
pub open spec fn has_key_at<K, V>(list: Seq<(K, V)>, key: K, i: int) -> bool {
    0 <= i < list.len() && list[i].0 == key
}

/// Whether no key occurs at two places of `list`.
pub open spec fn distinct_keys<K, V>(list: Seq<(K, V)>) -> bool {
    forall|i: int, j: int|
        0 <= i < j < list.len() ==> (#[trigger] list[i]).0 != (#[trigger] list[j]).0
}

/// The map that a list with distinct keys stands for: a key is bound when a
/// pair has it, and then to that pair's value.
pub open spec fn as_map<K, V>(list: Seq<(K, V)>) -> Map<K, V> {
    Map::new(
        |key: K| exists|i: int| has_key_at(list, key, i),
        |key: K| list[choose|i: int| has_key_at(list, key, i)].1,
    )
}

/// The key of each pair is bound to the value of that pair.
pub proof fn lemma_pair_is_bound<K, V>(list: Seq<(K, V)>, i: int)
    requires
        distinct_keys(list),
        0 <= i < list.len(),
    ensures
        as_map(list).contains_key(list[i].0),
        as_map(list)[list[i].0] == list[i].1,
{
    assert(has_key_at(list, list[i].0, i));
}

/// A key that no pair has is not bound.
pub proof fn lemma_missing_key_is_unbound<K, V>(list: Seq<(K, V)>, key: K)
    requires
        forall|i: int| 0 <= i < list.len() ==> !has_key_at(list, key, i),
    ensures
        !as_map(list).contains_key(key),
{
}

/// The empty list stands for the empty map.
pub proof fn lemma_empty_list_is_empty_map<K, V>()
    ensures
        distinct_keys(Seq::<(K, V)>::empty()),
        as_map(Seq::<(K, V)>::empty()) == Map::<K, V>::empty(),
{
}

/// Appending a pair under a key that is not bound yet binds that key and
/// changes nothing else.
pub proof fn lemma_push_binds_new_key<K, V>(list: Seq<(K, V)>, pair: (K, V))
    requires
        distinct_keys(list),
        !as_map(list).contains_key(pair.0),
    ensures
        distinct_keys(list.push(pair)),
        as_map(list.push(pair)) == as_map(list).insert(pair.0, pair.1),
{
    let after = list.push(pair);
    let expected = as_map(list).insert(pair.0, pair.1);
    assert forall|i: int, j: int| 0 <= i < j < after.len() implies (#[trigger] after[i]).0 != (
        #[trigger] after[j]
    ).0 by {
        if j == list.len() {
            assert(has_key_at(list, list[i].0, i));
        }
    }
    assert forall|key: K| #[trigger] as_map(after).contains_key(key) implies expected.contains_key(
        key,
    ) by {
        let i = choose|i: int| has_key_at(after, key, i);
        if i < list.len() {
            assert(has_key_at(list, key, i));
        }
    }
    assert forall|key: K| #[trigger] expected.contains_key(key) implies as_map(after).contains_key(
        key,
    ) && as_map(after)[key] == expected[key] by {
        if key == pair.0 {
            lemma_pair_is_bound(after, list.len() as int);
        } else {
            let i = choose|i: int| has_key_at(list, key, i);
            lemma_pair_is_bound(list, i);
            lemma_pair_is_bound(after, i);
        }
    }
    assert(as_map(after) =~= expected);
}

/// Putting a pair in the place of one with the same key rebinds that key
/// and changes nothing else.
pub proof fn lemma_update_rebinds_key<K, V>(list: Seq<(K, V)>, i: int, pair: (K, V))
    requires
        distinct_keys(list),
        0 <= i < list.len(),
        list[i].0 == pair.0,
    ensures
        distinct_keys(list.update(i, pair)),
        as_map(list.update(i, pair)) == as_map(list).insert(pair.0, pair.1),
{
    let after = list.update(i, pair);
    let expected = as_map(list).insert(pair.0, pair.1);
    assert forall|key: K| #[trigger] as_map(after).contains_key(key) implies expected.contains_key(
        key,
    ) by {
        let c = choose|c: int| has_key_at(after, key, c);
        assert(has_key_at(list, key, c));
    }
    assert forall|key: K| #[trigger] expected.contains_key(key) implies as_map(after).contains_key(
        key,
    ) && as_map(after)[key] == expected[key] by {
        if key == pair.0 {
            lemma_pair_is_bound(after, i);
        } else {
            let c = choose|c: int| has_key_at(list, key, c);
            lemma_pair_is_bound(list, c);
            lemma_pair_is_bound(after, c);
        }
    }
    assert(as_map(after) =~= expected);
}

/// A list with distinct keys stands for a finite map of as many bindings as
/// the list has pairs.
pub proof fn lemma_as_many_bindings_as_pairs<K, V>(list: Seq<(K, V)>)
    requires
        distinct_keys(list),
    ensures
        as_map(list).dom().finite(),
        as_map(list).len() == list.len(),
{
    let keys = Seq::new(list.len(), |i: int| list[i].0);
    assert forall|key: K| keys.to_set().contains(key) implies as_map(list).dom().contains(key) by {
        let i = choose|i: int| 0 <= i < keys.len() && keys[i] == key;
        assert(has_key_at(list, key, i));
    }
    assert forall|key: K| as_map(list).dom().contains(key) implies keys.to_set().contains(key) by {
        let i = choose|i: int| has_key_at(list, key, i);
        assert(keys[i] == key);
    }
    assert(as_map(list).dom() =~= keys.to_set());
    keys.unique_seq_to_set();
    vstd::seq_lib::seq_to_set_is_finite(keys);
}

} // verus!
