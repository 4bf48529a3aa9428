//! A table keyed by peer-id text: what the session and the friend list keep
//! per peer. Keys are distinct; the table is viewed as a map.

use vstd::prelude::*;

verus! {

/// Entries keyed by peer-id text, each key at most once.
pub struct PeerTable<V> {
    entries: Vec<(String, V)>,
}

impl<V> PeerTable<V> {
    /// Well-formedness: no key occurs twice.
    pub closed spec fn wf(self) -> bool {
        forall|i: int, j: int|
            0 <= i < j < self.entries@.len() ==> self.entries@[i].0@ != self.entries@[j].0@
    }

    /// Whether some entry has key `k`.
    pub closed spec fn has_key(self, k: Seq<char>) -> bool {
        exists|i: int| 0 <= i < self.entries@.len() && self.entries@[i].0@ == k
    }

    /// The position of the entry with key `k`.
    closed spec fn index_of(self, k: Seq<char>) -> int {
        choose|i: int| 0 <= i < self.entries@.len() && self.entries@[i].0@ == k
    }

    /// The entries in table order, keys by their text.
    pub closed spec fn entry_seq(self) -> Seq<(Seq<char>, V)> {
        self.entries@.map_values(|e: (String, V)| (e.0@, e.1))
    }

    /// The position of `key`, if present.
    fn find(&self, key: &String) -> (idx: Option<usize>)
        ensures
            match idx {
                Some(i) => i < self.entries@.len() && self.entries@[i as int].0@ == key@,
                None => !self.has_key(key@),
            },
    {
        let mut i: usize = 0;
        while i < self.entries.len()
            invariant
                i <= self.entries@.len(),
                forall|j: int| 0 <= j < i ==> self.entries@[j].0@ != key@,
            decreases self.entries@.len() - i,
        {
            if self.entries[i].0 == *key {
                return Some(i);
            }
            i = i + 1;
        }
        None
    }

    proof fn lemma_index_of(self, i: int)
        requires
            self.wf(),
            0 <= i < self.entries@.len(),
        ensures
            self.has_key(self.entries@[i].0@),
            self.index_of(self.entries@[i].0@) == i,
    {
        let k = self.entries@[i].0@;
        assert(self.has_key(k));
        let j = self.index_of(k);
        assert(0 <= j < self.entries@.len() && self.entries@[j].0@ == k);
        if j != i {
            if j < i {
                assert(self.entries@[j].0@ != self.entries@[i].0@);
            } else {
                assert(self.entries@[i].0@ != self.entries@[j].0@);
            }
        }
    }

    /// The entries, in order, are the map: each key once, each with its value,
    /// and every key of the map among them.
    pub proof fn lemma_entries_are_the_map(self)
        requires
            self.wf(),
        ensures
            forall|i: int, j: int|
                0 <= i < j < self.entry_seq().len() ==> self.entry_seq()[i].0 != self.entry_seq()[j].0,
            forall|i: int|
                0 <= i < self.entry_seq().len() ==> self@.contains_key(#[trigger] self.entry_seq()[i].0)
                    && self@[self.entry_seq()[i].0] == self.entry_seq()[i].1,
            forall|k: Seq<char>|
                #[trigger] self@.contains_key(k) ==> exists|i: int|
                    0 <= i < self.entry_seq().len() && self.entry_seq()[i].0 == k,
    {
        assert forall|i: int| 0 <= i < self.entry_seq().len() implies self@.contains_key(
            #[trigger] self.entry_seq()[i].0,
        ) && self@[self.entry_seq()[i].0] == self.entry_seq()[i].1 by {
            self.lemma_index_of(i);
        }
        assert forall|k: Seq<char>| #[trigger] self@.contains_key(k) implies exists|i: int|
            0 <= i < self.entry_seq().len() && self.entry_seq()[i].0 == k by {
            let i = self.index_of(k);
            assert(self.entry_seq()[i].0 == k);
        }
    }

    /// An empty table.
    pub fn new() -> (table: Self)
        ensures
            table.wf(),
            table@ == Map::<Seq<char>, V>::empty(),
            table.entry_seq().len() == 0,
    {
        let table = PeerTable { entries: Vec::new() };
        assert(table@ =~= Map::<Seq<char>, V>::empty());
        table
    }

    /// Number of entries.
    pub fn len(&self) -> (n: usize)
        ensures
            n == self.entry_seq().len(),
    {
        self.entries.len()
    }

    /// The key and value of the entry at position `i`.
    pub fn entry_at(&self, i: usize) -> (entry: (&String, &V))
        requires
            self.wf(),
            i < self.entry_seq().len(),
        ensures
            entry.0@ == self.entry_seq()[i as int].0,
            *entry.1 == self.entry_seq()[i as int].1,
            self@.contains_key(entry.0@),
            self@[entry.0@] == *entry.1,
    {
        proof {
            self.lemma_index_of(i as int);
        }
        (&self.entries[i].0, &self.entries[i].1)
    }

    /// Whether the table has an entry for `key`.
    pub fn contains_key(&self, key: &String) -> (found: bool)
        ensures
            found == self@.contains_key(key@),
    {
        self.find(key).is_some()
    }

    /// The value stored for `key`, if any.
    pub fn get(&self, key: &String) -> (value: Option<&V>)
        requires
            self.wf(),
        ensures
            match value {
                Some(v) => self@.contains_key(key@) && self@[key@] == *v,
                None => !self@.contains_key(key@),
            },
    {
        match self.find(key) {
            Some(i) => {
                proof {
                    self.lemma_index_of(i as int);
                }
                Some(&self.entries[i].1)
            },
            None => None,
        }
    }

    /// Stores `value` for `key`, in place when the key is present (returning
    /// the value it replaces), else as a new last entry.
    pub fn insert(&mut self, key: String, value: V) -> (previous: Option<V>)
        requires
            old(self).wf(),
        ensures
            final(self).wf(),
            final(self)@ == old(self)@.insert(key@, value),
            match previous {
                Some(p) => old(self)@.contains_key(key@) && old(self)@[key@] == p,
                None => !old(self)@.contains_key(key@),
            },
    {
        match self.find(&key) {
            Some(i) => {
                proof {
                    self.lemma_index_of(i as int);
                }
                let ghost old_entries = self.entries@;
                let (_, previous) = self.entries.remove(i);
                self.entries.insert(i, (key, value));
                let ghost new_entries = self.entries@;
                assert(new_entries =~= old_entries.update(i as int, new_entries[i as int]));
                assert(self.wf());
                proof {
                    assert(self@ =~= old(self)@.insert(key@, value)) by {
                        assert forall|k: Seq<char>| #[trigger]
                            self@.contains_key(k) == old(self)@.insert(
                                key@,
                                value,
                            ).contains_key(k) by {
                            if self.has_key(k) {
                                let j = self.index_of(k);
                                if j != i {
                                    assert(old_entries[j].0@ == k);
                                    assert(old(self).has_key(k));
                                }
                            }
                            if old(self).has_key(k) {
                                let j = old(self).index_of(k);
                                assert(new_entries[j].0@ == k);
                            }
                        }
                        assert forall|k: Seq<char>| #[trigger]
                            self@.contains_key(k) implies self@[k] == old(self)@.insert(
                            key@,
                            value,
                        )[k] by {
                            let j = self.index_of(k);
                            self.lemma_index_of(j);
                            if k != key@ {
                                assert(j != i);
                                assert(old_entries[j].0@ == k);
                                old(self).lemma_index_of(j);
                            }
                        }
                    }
                }
                Some(previous)
            },
            None => {
                let ghost old_entries = self.entries@;
                self.entries.push((key, value));
                assert(self.wf());
                proof {
                    let n = old_entries.len() as int;
                    assert(self@ =~= old(self)@.insert(key@, value)) by {
                        assert forall|k: Seq<char>| #[trigger]
                            self@.contains_key(k) == old(self)@.insert(
                                key@,
                                value,
                            ).contains_key(k) by {
                            if self.has_key(k) {
                                let j = self.index_of(k);
                                if j != n {
                                    assert(old_entries[j].0@ == k);
                                }
                            }
                            if old(self).has_key(k) {
                                let j = old(self).index_of(k);
                                assert(self.entries@[j].0@ == k);
                            }
                            if k == key@ {
                                assert(self.entries@[n].0@ == k);
                            }
                        }
                        assert forall|k: Seq<char>| #[trigger]
                            self@.contains_key(k) implies self@[k] == old(self)@.insert(
                            key@,
                            value,
                        )[k] by {
                            let j = self.index_of(k);
                            self.lemma_index_of(j);
                            if k != key@ {
                                assert(j != n);
                                assert(old_entries[j].0@ == k);
                                old(self).lemma_index_of(j);
                            }
                        }
                    }
                }
                None
            },
        }
    }

    /// Removes the entry for `key`, returning its value; the other entries
    /// keep their order.
    pub fn remove(&mut self, key: &String) -> (removed: Option<V>)
        requires
            old(self).wf(),
        ensures
            final(self).wf(),
            final(self)@ == old(self)@.remove(key@),
            match removed {
                Some(v) => old(self)@.contains_key(key@) && old(self)@[key@] == v,
                None => !old(self)@.contains_key(key@),
            },
    {
        match self.find(key) {
            Some(i) => {
                proof {
                    self.lemma_index_of(i as int);
                }
                let ghost old_entries = self.entries@;
                let (_, value) = self.entries.remove(i);
                assert(self.wf());
                proof {
                    assert(self@ =~= old(self)@.remove(key@)) by {
                        assert forall|k: Seq<char>| #[trigger]
                            self@.contains_key(k) == old(self)@.remove(key@).contains_key(k) by {
                            if self.has_key(k) {
                                let j = self.index_of(k);
                                if j < i {
                                    assert(old_entries[j].0@ == k);
                                    assert(j != i);
                                } else {
                                    assert(old_entries[j + 1].0@ == k);
                                    assert(old_entries[i as int].0@ != old_entries[j + 1].0@);
                                }
                                assert(k != key@);
                            }
                            if old(self).has_key(k) && k != key@ {
                                let j = old(self).index_of(k);
                                assert(j != i);
                                if j < i {
                                    assert(self.entries@[j].0@ == k);
                                } else {
                                    assert(self.entries@[j - 1].0@ == k);
                                }
                            }
                        }
                        assert forall|k: Seq<char>| #[trigger]
                            self@.contains_key(k) implies self@[k] == old(self)@.remove(key@)[k] by {
                            let j = self.index_of(k);
                            self.lemma_index_of(j);
                            if j < i {
                                old(self).lemma_index_of(j);
                            } else {
                                old(self).lemma_index_of(j + 1);
                            }
                        }
                    }
                }
                Some(value)
            },
            None => {
                assert(self@ =~= old(self)@.remove(key@));
                None
            },
        }
    }
}

impl<V> View for PeerTable<V> {
    type V = Map<Seq<char>, V>;

    closed spec fn view(&self) -> Map<Seq<char>, V> {
        Map::new(|k: Seq<char>| self.has_key(k), |k: Seq<char>| self.entries@[self.index_of(k)].1)
    }
}

} // verus!
