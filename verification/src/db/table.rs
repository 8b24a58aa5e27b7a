//! A small table keyed by strings, in which no key occurs twice.
//!
//! Both registries keep their entries in one of these. Its view is the
//! finite map from each key's characters to the value stored under it.

use crate::text::str_eq;
use vstd::prelude::*;

verus! {

/// One entry of a [`KeyedTable`].
struct Entry<V> {
    key: String,
    value: V,
}

/// A table from string keys to values. A key maps to at most one value.
pub struct KeyedTable<V> {
    entries: Vec<Entry<V>>,
}

impl<V> KeyedTable<V> {
    /// The keys, in storage order.
    pub closed spec fn keys(&self) -> Seq<Seq<char>> {
        Seq::new(self.entries@.len(), |i: int| self.entries@[i].key@)
    }

    /// The values, in storage order.
    pub closed spec fn values(&self) -> Seq<V> {
        Seq::new(self.entries@.len(), |i: int| self.entries@[i].value)
    }

    #[verifier::type_invariant]
    closed spec fn distinct_keys(&self) -> bool {
        self.keys().no_duplicates()
    }

    /// An empty table.
    pub fn new() -> (table: Self)
        ensures
            table@ == Map::<Seq<char>, V>::empty(),
    {
        let table = KeyedTable { entries: Vec::new() };
        proof {
            assert(table.keys() =~= Seq::<Seq<char>>::empty());
            assert(table@ =~= Map::<Seq<char>, V>::empty());
        }
        table
    }

    /// The number of entries.
    pub fn len(&self) -> (n: usize)
        ensures
            n == self@.dom().len(),
            self@.dom().finite(),
    {
        proof {
            use_type_invariant(self);
            self.keys().unique_seq_to_set();
            assert(self@.dom() =~= self.keys().to_set());
        }
        self.entries.len()
    }

    /// A table holds finitely many keys.
    pub proof fn domain_is_finite(&self)
        ensures
            self@.dom().finite(),
    {
        vstd::seq_lib::seq_to_set_is_finite(self.keys());
        assert(self@.dom() =~= self.keys().to_set());
    }

    /// Moves the entries out and leaves the table empty.
    fn take_entries(&mut self) -> (entries: Vec<Entry<V>>)
        ensures
            entries == old(self).entries,
            final(self).entries@.len() == 0,
    {
        let mut taken = KeyedTable { entries: Vec::new() };
        proof {
            assert(taken.keys() =~= Seq::<Seq<char>>::empty());
        }
        std::mem::swap(self, &mut taken);
        let KeyedTable { entries } = taken;
        entries
    }

    /// Where a key is stored, if it is in the table.
    fn find(&self, key: &str) -> (slot: Option<usize>)
        ensures
            match slot {
                Some(i) => i < self.keys().len() && self.keys()[i as int] == key@,
                None => !self.keys().contains(key@),
            },
    {
        let mut i: usize = 0;
        while i < self.entries.len()
            invariant
                0 <= i <= self.entries@.len(),
                self.keys().len() == self.entries@.len(),
                forall|k: int| 0 <= k < i ==> self.keys()[k] != key@,
            decreases self.entries@.len() - i,
        {
            if str_eq(self.entries[i].key.as_str(), key) {
                return Some(i);
            }
            i += 1;
        }
        None
    }

    /// Whether a key is in the table.
    pub fn contains_key(&self, key: &str) -> (found: bool)
        ensures
            found == self@.contains_key(key@),
    {
        self.find(key).is_some()
    }

    /// The value stored under a key.
    pub fn get(&self, key: &str) -> (found: Option<&V>)
        ensures
            match found {
                Some(v) => self@.contains_key(key@) && *v == self@[key@],
                None => !self@.contains_key(key@),
            },
    {
        proof {
            use_type_invariant(self);
        }
        match self.find(key) {
            Some(i) => {
                proof {
                    self.slot_of_key(i as int);
                }
                Some(&self.entries[i].value)
            },
            None => None,
        }
    }

    /// Stores a value under a key, in place of the value that the key had,
    /// if it had one.
    pub fn insert(&mut self, key: String, value: V)
        ensures
            final(self)@ == old(self)@.insert(key@, value),
    {
        proof {
            use_type_invariant(&*self);
        }
        let ghost before = *self;
        match self.find(key.as_str()) {
            Some(i) => {
                proof {
                    before.slot_of_key(i as int);
                }
                let mut entries = self.take_entries();
                entries.set(i, Entry { key, value });
                proof {
                    let after = Seq::new(entries@.len(), |j: int| entries@[j].key@);
                    assert(after =~= before.keys());
                }
                *self = KeyedTable { entries };
                proof {
                    assert forall|k: Seq<char>| #[trigger] self.keys().contains(k) implies self@[k]
                        == before@.insert(key@, value)[k] by {
                        let j = self.keys().index_of(k);
                        self.slot_of_key(j);
                        before.slot_of_key(j);
                    }
                    assert(self@ =~= before@.insert(key@, value));
                }
            },
            None => {
                let mut entries = self.take_entries();
                entries.push(Entry { key, value });
                proof {
                    let after = Seq::new(entries@.len(), |j: int| entries@[j].key@);
                    assert(after =~= before.keys().push(key@));
                }
                *self = KeyedTable { entries };
                proof {
                    let last = self.keys().len() - 1;
                    assert(self.keys()[last] == key@);
                    assert forall|k: Seq<char>|
                        before@.insert(key@, value).contains_key(k) implies #[trigger] self.keys().contains(
                        k,
                    ) by {
                        if k != key@ {
                            let j = before.keys().index_of(k);
                            assert(self.keys()[j] == k);
                        }
                    }
                    assert forall|k: Seq<char>| #[trigger] self.keys().contains(k) implies self@[k]
                        == before@.insert(key@, value)[k] by {
                        let j = self.keys().index_of(k);
                        self.slot_of_key(j);
                        if j < last {
                            before.slot_of_key(j);
                        }
                    }
                    assert(self@ =~= before@.insert(key@, value));
                }
            },
        }
    }

    /// Takes the entry of a key out of the table and gives its value, if the
    /// key was there.
    pub fn remove(&mut self, key: &str) -> (taken: Option<V>)
        ensures
            final(self)@ == old(self)@.remove(key@),
            match taken {
                Some(v) => old(self)@.contains_key(key@) && v == old(self)@[key@],
                None => !old(self)@.contains_key(key@),
            },
    {
        proof {
            use_type_invariant(&*self);
        }
        let ghost before = *self;
        match self.find(key) {
            Some(i) => {
                proof {
                    before.slot_of_key(i as int);
                }
                let mut entries = self.take_entries();
                let entry = entries.remove(i);
                proof {
                    let after = Seq::new(entries@.len(), |j: int| entries@[j].key@);
                    assert(after =~= before.keys().remove(i as int));
                    assert(after.no_duplicates()) by {
                        assert forall|a: int, b: int|
                            0 <= a < after.len() && 0 <= b < after.len() && a != b implies after[a]
                            != after[b] by {
                            let a0 = if a < i { a } else { a + 1 };
                            let b0 = if b < i { b } else { b + 1 };
                            assert(after[a] == before.keys()[a0]);
                            assert(after[b] == before.keys()[b0]);
                        }
                    }
                }
                *self = KeyedTable { entries };
                proof {
                    assert forall|k: Seq<char>| #[trigger]
                        self.keys().contains(k) <==> before@.remove(key@).contains_key(k) by {
                        if self.keys().contains(k) {
                            let j = self.keys().index_of(k);
                            let j0 = if j < i { j } else { j + 1 };
                            assert(before.keys()[j0] == k);
                        }
                        if before@.remove(key@).contains_key(k) {
                            let j0 = before.keys().index_of(k);
                            let j = if j0 < i { j0 } else { j0 - 1 };
                            assert(self.keys()[j] == k);
                        }
                    }
                    assert forall|k: Seq<char>| #[trigger] self.keys().contains(k) implies self@[k]
                        == before@.remove(key@)[k] by {
                        let j = self.keys().index_of(k);
                        let j0 = if j < i { j } else { j + 1 };
                        self.slot_of_key(j);
                        assert(before.keys()[j0] == k);
                        before.slot_of_key(j0);
                    }
                    assert(self@ =~= before@.remove(key@));
                }
                Some(entry.value)
            },
            None => {
                proof {
                    assert(self@ =~= before@.remove(key@));
                }
                None
            },
        }
    }

    /// In a table with distinct keys, the key at a slot maps to the value at
    /// that slot.
    proof fn slot_of_key(&self, i: int)
        requires
            self.keys().no_duplicates(),
            0 <= i < self.keys().len(),
        ensures
            self@.contains_key(self.keys()[i]),
            self.keys().index_of(self.keys()[i]) == i,
            self@[self.keys()[i]] == self.values()[i],
    {
        let k = self.keys()[i];
        assert(self.keys().contains(k));
        let j = self.keys().index_of(k);
        assert(0 <= j < self.keys().len() && self.keys()[j] == k);
    }
}

impl<V> View for KeyedTable<V> {
    type V = Map<Seq<char>, V>;

    closed spec fn view(&self) -> Map<Seq<char>, V> {
        Map::new(
            |k: Seq<char>| self.keys().contains(k),
            |k: Seq<char>| self.values()[self.keys().index_of(k)],
        )
    }
}

} // verus!
