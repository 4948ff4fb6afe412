//! A small map keyed by 32-byte words, kept as a list of writes in which the
//! latest write of a key wins.

use vstd::prelude::*;
use crate::primitives::B256;

verus! {

/// The value that the latest write of `key` in `entries` stored, if any.
pub open spec fn seq_lookup<V>(entries: Seq<(B256, V)>, key: B256) -> Option<V>
    decreases entries.len(),
{
    if entries.len() == 0 {
        None
    } else if entries.last().0 == key {
        Some(entries.last().1)
    } else {
        seq_lookup(entries.drop_last(), key)
    }
}

/// A map from 32-byte words to values.
pub struct WordMap<V> {
    entries: Vec<(B256, V)>,
}

impl<V> View for WordMap<V> {
    type V = Map<B256, V>;

    closed spec fn view(&self) -> Map<B256, V> {
        Map::new(
            |key: B256| seq_lookup(self.entries@, key) is Some,
            |key: B256| seq_lookup(self.entries@, key)->0,
        )
    }
}

impl<V> WordMap<V> {
    /// The empty map.
    pub fn new() -> (map: Self)
        ensures
            map@ == Map::<B256, V>::empty(),
    {
        let map = WordMap { entries: Vec::new() };
        map
    }

    /// Stores `value` under `key`, replacing what was there.
    pub fn insert(&mut self, key: B256, value: V)
        ensures
            final(self)@ == old(self)@.insert(key, value),
    {
        let ghost before = self.entries@;
        self.entries.push((key, value));
        proof {
            let after = self.entries@;
            assert(after.drop_last() =~= before);
            assert forall|k: B256| seq_lookup(after, k) == (if k == key {
                Some(value)
            } else {
                seq_lookup(before, k)
            }) by {}
        }
    }

    /// The value stored under `key`, if any.
    pub fn get(&self, key: B256) -> (found: Option<&V>)
        ensures
            match found {
                Some(value) => self@.contains_key(key) && *value == self@[key],
                None => !self@.contains_key(key),
            },
    {
        let mut i = self.entries.len();
        assert(self.entries@.take(i as int) =~= self.entries@);
        while i > 0
            invariant
                i <= self.entries@.len(),
                seq_lookup(self.entries@, key) == seq_lookup(self.entries@.take(i as int), key),
            decreases i,
        {
            i = i - 1;
            assert(self.entries@.take(i + 1).drop_last() =~= self.entries@.take(i as int));
            if self.entries[i].0 == key {
                return Some(&self.entries[i].1);
            }
        }
        None
    }
}

} // verus!
