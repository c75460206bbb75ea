//! A finite map kept as a vector of pairs with pairwise distinct keys.

use crate::assoc::{as_map, distinct_keys, has_key, lemma_absent, lemma_empty, lemma_lookup, lemma_push, lemma_replace};
use vstd::prelude::*;

verus! {

/// A value that a table can be keyed by: equality of keys is equality of views.
pub trait Key: View + Sized {
    /// Whether the two keys have the same view.
    fn same_as(&self, other: &Self) -> (equal: bool)
        ensures
            equal == (self@ == other@),
    ;

    /// A copy with the same view.
    fn duplicate(&self) -> (copy: Self)
        ensures
            copy@ == self@,
    ;
}

/// A finite map from keys to values. Its view is the mathematical map from
/// the views of its keys to the views of its values.
#[derive(Debug)]
pub struct Table<K: Key, V: View> {
    entries: Vec<(K, V)>,
}

impl<K: Key, V: View> View for Table<K, V> {
    type V = Map<K::V, V::V>;

    closed spec fn view(&self) -> Map<K::V, V::V> {
        as_map(self.pairs())
    }
}

/// The views of the pairs of `entries`, in their order.
pub open spec fn pair_views<K: View, V: View>(entries: Seq<(K, V)>) -> Seq<(K::V, V::V)> {
    entries.map_values(|e: (K, V)| (e.0@, e.1@))
}

impl<K: Key, V: View> Table<K, V> {
    spec fn pairs(&self) -> Seq<(K::V, V::V)> {
        pair_views(self.entries@)
    }

    #[verifier::type_invariant]
    spec fn well_formed(&self) -> bool {
        distinct_keys(self.pairs())
    }

    /// The table without entries.
    pub fn new() -> (table: Self)
        ensures
            table@ == Map::<K::V, V::V>::empty(),
    {
        let table = Table { entries: Vec::new() };
        proof {
            lemma_empty::<K::V, V::V>();
            assert(table.pairs() =~= Seq::empty());
        }
        table
    }

    /// The value stored under `key`, if there is one.
    pub fn get(&self, key: &K) -> (found: Option<&V>)
        ensures
            match found {
                Some(value) => self@.contains_key(key@) && value@ == self@[key@],
                None => !self@.contains_key(key@),
            },
    {
        proof {
            use_type_invariant(self);
        }
        let mut i: usize = 0;
        while i < self.entries.len()
            invariant
                i <= self.entries.len(),
                distinct_keys(self.pairs()),
                forall|j: int| 0 <= j < i ==> (#[trigger] self.pairs()[j]).0 != key@,
            decreases self.entries.len() - i,
        {
            if self.entries[i].0.same_as(key) {
                proof {
                    lemma_lookup(self.pairs(), i as int);
                }
                return Some(&self.entries[i].1);
            }
            i += 1;
        }
        proof {
            lemma_absent(self.pairs(), key@);
        }
        None
    }

    /// Whether a value is stored under `key`.
    pub fn has(&self, key: &K) -> (present: bool)
        ensures
            present == self@.contains_key(key@),
    {
        self.get(key).is_some()
    }

    /// Stores `value` under `key`, in place of what was stored there.
    pub fn set(&mut self, key: K, value: V)
        ensures
            final(self)@ == old(self)@.insert(key@, value@),
    {
        proof {
            use_type_invariant(&*self);
            lemma_empty::<K::V, V::V>();
        }
        let ghost before = self.pairs();
        let mut entries: Vec<(K, V)> = Vec::new();
        assert(pair_views(entries@) =~= Seq::empty());
        std::mem::swap(&mut entries, &mut self.entries);
        let mut i: usize = 0;
        while i < entries.len()
            invariant
                i <= entries.len(),
                distinct_keys(before),
                before == old(self).pairs(),
                before == pair_views(entries@),
                forall|j: int| 0 <= j < i ==> (#[trigger] before[j]).0 != key@,
            decreases entries.len() - i,
        {
            if entries[i].0.same_as(&key) {
                proof {
                    lemma_replace(before, i as int, value@);
                    assert(before.update(i as int, (key@, value@)) =~= pair_views(
                        entries@.update(i as int, (key, value)),
                    ));
                }
                entries.set(i, (key, value));
                self.entries = entries;
                return ;
            }
            i += 1;
        }
        proof {
            lemma_absent(before, key@);
            lemma_push(before, key@, value@);
            assert(before.push((key@, value@)) =~= pair_views(entries@.push((key, value))));
        }
        entries.push((key, value));
        self.entries = entries;
    }

    /// The keys of the table, each once.
    pub fn keys(&self) -> (keys: Vec<K>)
        ensures
            forall|i: int| 0 <= i < keys.len() ==> self@.contains_key(#[trigger] keys[i]@),
            forall|k: K::V|
                self@.contains_key(k) ==> exists|i: int| 0 <= i < keys.len() && #[trigger] keys[i]@ == k,
            forall|i: int, j: int| 0 <= i < keys.len() && 0 <= j < keys.len() && i != j ==> keys[i]@ != keys[j]@,
    {
        proof {
            use_type_invariant(self);
        }
        let mut keys: Vec<K> = Vec::new();
        let mut i: usize = 0;
        while i < self.entries.len()
            invariant
                i <= self.entries.len(),
                keys.len() == i,
                forall|j: int| 0 <= j < i ==> (#[trigger] keys[j])@ == self.pairs()[j].0,
            decreases self.entries.len() - i,
        {
            keys.push(self.entries[i].0.duplicate());
            i += 1;
        }
        proof {
            let pairs = self.pairs();
            assert forall|j: int| 0 <= j < keys.len() implies self@.contains_key(#[trigger] keys[j]@) by {
                lemma_lookup(pairs, j);
            }
            assert forall|k: K::V| self@.contains_key(k) implies exists|j: int|
                0 <= j < keys.len() && #[trigger] keys[j]@ == k by {
                assert(has_key(pairs, k));
                let j = choose|j: int| 0 <= j < pairs.len() && #[trigger] pairs[j].0 == k;
                assert(keys[j]@ == k);
            }
            assert forall|a: int, b: int|
                0 <= a < keys.len() && 0 <= b < keys.len() && a != b implies keys[a]@ != keys[b]@ by {
                assert(pairs[a].0 != pairs[b].0);
            }
        }
        keys
    }
}

} // verus!
