//! Association lists as mathematical maps.
//!
//! Every table of this crate is stored as a vector of key/value pairs whose
//! keys are pairwise distinct. This module gives such a sequence its meaning
//! as a `Map` and proves how the two edits the tables make (replacing the
//! value of one pair, appending a pair under a fresh key) act on that map.

use vstd::prelude::*;

verus! {

/// No two pairs of `pairs` share a key.
pub open spec fn distinct_keys<K, V>(pairs: Seq<(K, V)>) -> bool {
    forall|i: int, j: int|
        0 <= i < pairs.len() && 0 <= j < pairs.len() && i != j ==> pairs[i].0 != pairs[j].0
}

/// Some pair of `pairs` is stored under `key`.
pub open spec fn has_key<K, V>(pairs: Seq<(K, V)>, key: K) -> bool {
    exists|i: int| 0 <= i < pairs.len() && #[trigger] pairs[i].0 == key
}

/// The position of a pair stored under `key`.
pub open spec fn position_of<K, V>(pairs: Seq<(K, V)>, key: K) -> int {
    choose|i: int| 0 <= i < pairs.len() && #[trigger] pairs[i].0 == key
}

/// The map that sends each key of `pairs` to the value stored beside it.
pub open spec fn as_map<K, V>(pairs: Seq<(K, V)>) -> Map<K, V> {
    Map::new(|key: K| has_key(pairs, key), |key: K| pairs[position_of(pairs, key)].1)
}

/// The pair at position `i` is what the map holds under that pair's key.
pub proof fn lemma_lookup<K, V>(pairs: Seq<(K, V)>, i: int)
    requires
        distinct_keys(pairs),
        0 <= i < pairs.len(),
    ensures
        as_map(pairs).contains_key(pairs[i].0),
        as_map(pairs)[pairs[i].0] == pairs[i].1,
{
    let key = pairs[i].0;
    assert(has_key(pairs, key));
    let j = position_of(pairs, key);
    assert(0 <= j < pairs.len() && pairs[j].0 == key);
    assert(j == i);
}

/// A key that no pair carries is outside the map's domain.
pub proof fn lemma_absent<K, V>(pairs: Seq<(K, V)>, key: K)
    requires
        forall|i: int| 0 <= i < pairs.len() ==> (#[trigger] pairs[i]).0 != key,
    ensures
        !as_map(pairs).contains_key(key),
{
    if has_key(pairs, key) {
        let j = position_of(pairs, key);
        assert(pairs[j].0 != key);
    }
}

/// Appending a pair under a fresh key inserts it into the map.
pub proof fn lemma_push<K, V>(pairs: Seq<(K, V)>, key: K, value: V)
    requires
        distinct_keys(pairs),
        !as_map(pairs).contains_key(key),
    ensures
        distinct_keys(pairs.push((key, value))),
        as_map(pairs.push((key, value))) == as_map(pairs).insert(key, value),
{
    let grown = pairs.push((key, value));
    assert forall|i: int| 0 <= i < pairs.len() implies (#[trigger] pairs[i]).0 != key by {
        lemma_lookup(pairs, i);
    }
    assert(distinct_keys(grown)) by {
        assert forall|i: int, j: int|
            0 <= i < grown.len() && 0 <= j < grown.len() && i != j implies grown[i].0
            != grown[j].0 by {
            if i < pairs.len() {
                assert(grown[i] == pairs[i]);
            }
            if j < pairs.len() {
                assert(grown[j] == pairs[j]);
            }
        }
    }
    let target = as_map(pairs).insert(key, value);
    assert forall|k: K| as_map(grown).contains_key(k) <==> target.contains_key(k) by {
        if has_key(grown, k) {
            let i = position_of(grown, k);
            if i < pairs.len() {
                assert(pairs[i].0 == k);
                assert(has_key(pairs, k));
            }
        }
        if has_key(pairs, k) {
            let i = position_of(pairs, k);
            assert(grown[i].0 == k);
        }
        if k == key {
            assert(grown[pairs.len() as int].0 == k);
        }
    }
    assert forall|k: K| as_map(grown).contains_key(k) implies as_map(grown)[k] == target[k] by {
        let i = position_of(grown, k);
        lemma_lookup(grown, i);
        if i < pairs.len() {
            assert(grown[i] == pairs[i]);
            lemma_lookup(pairs, i);
        }
    }
    assert(as_map(grown) =~= target);
}

/// Replacing the value of the pair at position `i` overwrites its key in the map.
pub proof fn lemma_replace<K, V>(pairs: Seq<(K, V)>, i: int, value: V)
    requires
        distinct_keys(pairs),
        0 <= i < pairs.len(),
    ensures
        distinct_keys(pairs.update(i, (pairs[i].0, value))),
        as_map(pairs.update(i, (pairs[i].0, value))) == as_map(pairs).insert(pairs[i].0, value),
{
    let key = pairs[i].0;
    let edited = pairs.update(i, (key, value));
    assert(distinct_keys(edited)) by {
        assert forall|a: int, b: int|
            0 <= a < edited.len() && 0 <= b < edited.len() && a != b implies edited[a].0
            != edited[b].0 by {
            assert(edited[a].0 == pairs[a].0);
            assert(edited[b].0 == pairs[b].0);
        }
    }
    let target = as_map(pairs).insert(key, value);
    assert forall|k: K| as_map(edited).contains_key(k) <==> target.contains_key(k) by {
        if has_key(edited, k) {
            let j = position_of(edited, k);
            assert(pairs[j].0 == k);
            assert(has_key(pairs, k));
        }
        if has_key(pairs, k) {
            let j = position_of(pairs, k);
            assert(edited[j].0 == k);
        }
        if k == key {
            assert(edited[i].0 == k);
        }
    }
    assert forall|k: K| as_map(edited).contains_key(k) implies as_map(edited)[k] == target[k] by {
        let j = position_of(edited, k);
        lemma_lookup(edited, j);
        if j != i {
            assert(edited[j] == pairs[j]);
            lemma_lookup(pairs, j);
        }
    }
    assert(as_map(edited) =~= target);
}

/// The empty sequence is the empty map.
pub proof fn lemma_empty<K, V>()
    ensures
        distinct_keys(Seq::<(K, V)>::empty()),
        as_map(Seq::<(K, V)>::empty()) == Map::<K, V>::empty(),
{
    assert(as_map(Seq::<(K, V)>::empty()) =~= Map::<K, V>::empty());
}

} // verus!
