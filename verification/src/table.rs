//! A finite map kept as a list of entries.

use vstd::prelude::*;
use crate::address::Address;

verus! {

/// A key of a table: a plain value whose equality can be decided.
pub trait Key: Copy {
    /// Whether the two keys are the same.
    fn same(&self, other: &Self) -> (same: bool)
        ensures
            same == (*self == *other),
    ;
}

impl Key for u32 {
    fn same(&self, other: &Self) -> (same: bool) {
        *self == *other
    }
}

impl Key for Address {
    fn same(&self, other: &Self) -> (same: bool) {
        *self == *other
    }
}

/// One entry of a table.
pub struct Entry<K, V> {
    pub key: K,
    pub value: V,
}

/// A finite map from keys to values. No key occurs in two entries.
pub struct Table<K, V> {
    entries: Vec<Entry<K, V>>,
}

impl<K: Key, V: View> Table<K, V> {
    /// The keys of the entries, in the order the entries are kept.
    pub closed spec fn keys(&self) -> Seq<K> {
        self.entries@.map_values(|entry: Entry<K, V>| entry.key)
    }

    /// No key occurs in two entries.
    pub closed spec fn wf(&self) -> bool {
        self.keys().no_duplicates()
    }

    /// The map this table holds: each key with what its value holds.
    pub closed spec fn view(&self) -> Map<K, V::V> {
        Map::new(
            |key: K| self.keys().contains(key),
            |key: K| self.entries@[self.keys().index_of(key)].value@,
        )
    }

    /// The empty table.
    pub fn new() -> (table: Self)
        ensures
            table.wf(),
            table@ == Map::<K, V::V>::empty(),
    {
        let table = Table { entries: Vec::new() };
        assert(table@ =~= Map::<K, V::V>::empty());
        table
    }

    /// Where the entry of `key` is kept, if there is one.
    fn position(&self, key: &K) -> (at: Option<usize>)
        requires
            self.wf(),
        ensures
            match at {
                Some(i) => i < self.entries.len() && self.keys()[i as int] == *key,
                None => !self.keys().contains(*key),
            },
    {
        let mut i: usize = 0;
        while i < self.entries.len()
            invariant
                i <= self.entries.len(),
                forall|j: int| 0 <= j < i ==> self.keys()[j] != *key,
            decreases self.entries.len() - i,
        {
            if self.entries[i].key.same(key) {
                return Some(i);
            }
            i += 1;
        }
        None
    }

    /// Whether the table has a value for `key`.
    pub fn has(&self, key: &K) -> (found: bool)
        requires
            self.wf(),
        ensures
            found == self@.contains_key(*key),
    {
        self.position(key).is_some()
    }

    /// The value of `key`, if the table has one.
    pub fn get(&self, key: &K) -> (found: Option<&V>)
        requires
            self.wf(),
        ensures
            match found {
                Some(value) => self@.contains_key(*key) && value@ == self@[*key],
                None => !self@.contains_key(*key),
            },
    {
        match self.position(key) {
            Some(i) => {
                assert(self.keys().contains(*key));
                assert(self.keys().index_of(*key) == i as int);
                Some(&self.entries[i].value)
            },
            None => None,
        }
    }

    /// Gives `key` the value `value`, in place of the value it had, if any.
    pub fn set(&mut self, key: K, value: V)
        requires
            old(self).wf(),
        ensures
            final(self).wf(),
            final(self)@ == old(self)@.insert(key, value@),
    {
        let ghost before = *self;
        match self.position(&key) {
            Some(i) => {
                self.entries.set(i, Entry { key, value });
                assert(self.keys() =~= before.keys());
                assert forall|k: K| self@.contains_key(k) implies #[trigger] self@[k]
                    == before@.insert(key, value@)[k] by {
                    let j = self.keys().index_of(k);
                    if k == key {
                        assert(j == i as int);
                    } else {
                        assert(j != i as int);
                    }
                }
                assert(self@ =~= before@.insert(key, value@));
            },
            None => {
                self.entries.push(Entry { key, value });
                let ghost last = before.entries@.len() as int;
                assert(self.keys() =~= before.keys().push(key));
                assert(self.keys()[last] == key);
                assert forall|k: K| self@.contains_key(k) implies #[trigger] self@[k]
                    == before@.insert(key, value@)[k] by {
                    let j = self.keys().index_of(k);
                    if k == key {
                        assert(j == last);
                    } else {
                        assert(before.keys().contains(k));
                        let j0 = before.keys().index_of(k);
                        assert(self.keys()[j0] == k);
                        assert(j == j0);
                    }
                }
                assert forall|k: K| before@.insert(key, value@).contains_key(k) implies self@.contains_key(
                    k,
                ) by {
                    if k != key {
                        let j0 = before.keys().index_of(k);
                        assert(self.keys()[j0] == k);
                    }
                }
                assert(self@ =~= before@.insert(key, value@));
            },
        }
    }

    /// Takes the value of `key` out of the table, if it has one.
    pub fn remove(&mut self, key: &K)
        requires
            old(self).wf(),
        ensures
            final(self).wf(),
            final(self)@ == old(self)@.remove(*key),
    {
        let ghost before = *self;
        match self.position(key) {
            Some(i) => {
                let _ = self.entries.remove(i);
                assert(self.keys() =~= before.keys().remove(i as int));
                assert forall|k: K| self@.contains_key(k) implies before@.remove(*key).contains_key(
                    k,
                ) && #[trigger] self@[k] == before@.remove(*key)[k] by {
                    let j = self.keys().index_of(k);
                    let j0 = if j < i {
                        j
                    } else {
                        j + 1
                    };
                    assert(before.keys()[j0] == k);
                    assert(before.keys().index_of(k) == j0);
                }
                assert forall|k: K| before@.remove(*key).contains_key(k) implies self@.contains_key(
                    k,
                ) by {
                    let j0 = before.keys().index_of(k);
                    let j = if j0 < i {
                        j0
                    } else {
                        j0 - 1
                    };
                    assert(self.keys()[j] == k);
                }
                assert(self@ =~= before@.remove(*key));
            },
            None => {
                assert(self@ =~= before@.remove(*key));
            },
        }
    }
}

} // verus!
