//! A small table from keys to values, kept in a vector.

use crate::primitives::{CandidateHash, PeerId, RelayParent};
use vstd::prelude::*;

verus! {

/// A type whose values can be told apart in executable code.
pub trait Key: Sized {
    /// Whether `self` and `other` are the same key.
    fn same(&self, other: &Self) -> (equal: bool)
        ensures
            equal == (*self == *other),
    ;
}

impl Key for PeerId {
    fn same(&self, other: &Self) -> (equal: bool) {
        self.0 == other.0
    }
}

impl Key for CandidateHash {
    fn same(&self, other: &Self) -> (equal: bool) {
        *self == *other
    }
}

impl Key for RelayParent {
    fn same(&self, other: &Self) -> (equal: bool) {
        *self == *other
    }
}

struct Entry<K, V> {
    key: K,
    value: V,
}

/// A table in which every key stands at most once. Its view is the map from the keys
/// to their values.
pub struct Table<K, V> {
    entries: Vec<Entry<K, V>>,
}

impl<K, V> Table<K, V> {
    /// Whether every key stands at most once in the table. Every table that the
    /// functions of this module hand out is of this kind.
    pub closed spec fn wf(self) -> bool {
        forall|i: int, j: int|
            0 <= i < j < self.entries@.len() ==> self.entries@[i].key != self.entries@[j].key
    }

    closed spec fn holds_at(self, key: K, i: int) -> bool {
        0 <= i < self.entries@.len() && self.entries@[i].key == key
    }

    /// The map from the keys of the table to their values.
    pub closed spec fn view(&self) -> Map<K, V> {
        Map::new(
            |key: K| exists|i: int| self.holds_at(key, i),
            |key: K| self.entries@[choose|i: int| self.holds_at(key, i)].value,
        )
    }
}

impl<K: Key, V> Table<K, V> {
    /// The table without entries.
    pub fn new() -> (table: Self)
        ensures
            table.wf(),
            table@ == Map::<K, V>::empty(),
    {
        let table = Table { entries: Vec::new() };
        assert(table@ =~= Map::<K, V>::empty());
        table
    }

    fn find(&self, key: &K) -> (found: Option<usize>)
        requires
            self.wf(),
        ensures
            found matches Some(i) ==> self.holds_at(*key, i as int),
            found is None ==> forall|i: int| !self.holds_at(*key, i),
    {
        let mut i: usize = 0;
        while i < self.entries.len()
            invariant
                i <= self.entries@.len(),
                forall|j: int| 0 <= j < i ==> self.entries@[j].key != *key,
            decreases self.entries@.len() - i,
        {
            if self.entries[i].key.same(key) {
                return Some(i);
            }
            i += 1;
        }
        None
    }

    /// Whether the table holds an entry for `key`.
    pub fn contains(&self, key: &K) -> (held: bool)
        requires
            self.wf(),
        ensures
            held == self@.contains_key(*key),
    {
        let found = self.find(key);
        proof {
            if let Some(i) = found {
                assert(self.holds_at(*key, i as int));
            }
        }
        found.is_some()
    }

    /// The value that the table holds for `key`, if it holds one.
    pub fn get(&self, key: &K) -> (value: Option<&V>)
        requires
            self.wf(),
        ensures
            value matches Some(v) ==> self@.contains_key(*key) && *v == self@[*key],
            value is None ==> !self@.contains_key(*key),
    {
        match self.find(key) {
            Some(i) => {
                proof {
                    assert(self.holds_at(*key, i as int));
                    let chosen = choose|j: int| self.holds_at(*key, j);
                    assert(self.holds_at(*key, chosen));
                    assert(chosen == i);
                }
                Some(&self.entries[i].value)
            },
            None => None,
        }
    }

    /// Sets the value for `key`, in place of the one that the table held for it, if it
    /// held one.
    pub fn insert(&mut self, key: K, value: V)
        requires
            old(self).wf(),
        ensures
            final(self).wf(),
            final(self)@ == old(self)@.insert(key, value),
    {
        let found = self.find(&key);
        match found {
            Some(i) => {
                self.entries.set(i, Entry { key, value });
            },
            None => {
                self.entries.push(Entry { key, value });
            },
        }
        proof {
            let before = *old(self);
            let after = *self;
            assert forall|a: int, b: int| 0 <= a < b < after.entries@.len() implies after.entries@[a].key
                != after.entries@[b].key by {
                match found {
                    Some(f) => {
                        assert(before.holds_at(key, f as int));
                    },
                    None => {
                        if b == before.entries@.len() {
                            assert(!before.holds_at(key, a));
                        }
                    },
                }
            }
            assert(after.wf());
            assert forall|k: K| #[trigger] after@.contains_key(k) == before@.insert(key, value).contains_key(k) by {
                if after@.contains_key(k) {
                    let i = choose|i: int| after.holds_at(k, i);
                    if k != key {
                        assert(before.holds_at(k, i));
                    }
                }
                if before@.insert(key, value).contains_key(k) {
                    if k == key {
                        match found {
                            Some(i) => { assert(after.holds_at(k, i as int)); },
                            None => { assert(after.holds_at(k, before.entries@.len() as int)); },
                        }
                    } else {
                        let i = choose|i: int| before.holds_at(k, i);
                        assert(after.holds_at(k, i));
                    }
                }
            }
            assert forall|k: K| #[trigger] after@.contains_key(k) implies after@[k] == before@.insert(key, value)[k] by {
                let i = choose|i: int| after.holds_at(k, i);
                assert(after.holds_at(k, i));
                if k != key {
                    assert(before.holds_at(k, i));
                    let j = choose|j: int| before.holds_at(k, j);
                    assert(before.holds_at(k, j));
                    assert(i == j);
                } else {
                    match found {
                        Some(f) => { assert(after.holds_at(k, f as int)); assert(i == f); },
                        None => { assert(after.holds_at(k, before.entries@.len() as int)); assert(i == before.entries@.len()); },
                    }
                }
            }
            assert(after@ =~= before@.insert(key, value));
        }
    }

    /// Takes the entry for `key` out of the table and returns its value, if the table
    /// held one.
    pub fn remove(&mut self, key: &K) -> (value: Option<V>)
        requires
            old(self).wf(),
        ensures
            final(self).wf(),
            final(self)@ == old(self)@.remove(*key),
            value == if old(self)@.contains_key(*key) {
                Some(old(self)@[*key])
            } else {
                None::<V>
            },
    {
        match self.find(key) {
            Some(i) => {
                let entry = self.entries.swap_remove(i);
                proof {
                    let before = *old(self);
                    let after = *self;
                    let last = before.entries@.len() - 1;
                    assert(before.holds_at(*key, i as int));
                    let chosen = choose|j: int| before.holds_at(*key, j);
                    assert(before.holds_at(*key, chosen));
                    assert(chosen == i);
                    assert forall|k: K| #[trigger] after@.contains_key(k) == before@.remove(*key).contains_key(k) by {
                        if after@.contains_key(k) {
                            let j = choose|j: int| after.holds_at(k, j);
                            assert(after.holds_at(k, j));
                            if j == i {
                                assert(before.holds_at(k, last));
                            } else {
                                assert(before.holds_at(k, j));
                            }
                        }
                        if before@.remove(*key).contains_key(k) {
                            let j = choose|j: int| before.holds_at(k, j);
                            assert(before.holds_at(k, j));
                            if j == last {
                                assert(after.holds_at(k, i as int));
                            } else {
                                assert(after.holds_at(k, j));
                            }
                        }
                    }
                    assert forall|k: K| #[trigger] after@.contains_key(k) implies after@[k] == before@.remove(*key)[k] by {
                        let j = choose|j: int| after.holds_at(k, j);
                        assert(after.holds_at(k, j));
                        let b = choose|b: int| before.holds_at(k, b);
                        if j == i {
                            assert(before.holds_at(k, last));
                            assert(before.holds_at(k, b));
                            assert(b == last);
                        } else {
                            assert(before.holds_at(k, j));
                            assert(before.holds_at(k, b));
                            assert(b == j);
                        }
                    }
                    assert(after@ =~= before@.remove(*key));
                }
                Some(entry.value)
            },
            None => {
                proof {
                    assert(!self@.contains_key(*key));
                    assert(self@ =~= self@.remove(*key));
                }
                None
            },
        }
    }
}

} // verus!
