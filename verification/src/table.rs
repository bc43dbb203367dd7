//! A keyed store in which every key occurs at most once.

use vstd::prelude::*;

verus! {

/// A key that can be compared at run time.
pub trait Key: Copy {
    /// Whether the two keys are the same value.
    fn key_eq(&self, other: &Self) -> (equal: bool)
        ensures
            equal == (*self == *other),
    ;
}

/// One entry of a table.
pub struct Slot<K, V> {
    pub key: K,
    pub value: V,
}

/// A finite map from keys to values, held as a list of entries with distinct keys.
pub struct Table<K, V> {
    slots: Vec<Slot<K, V>>,
}

impl<K: Key, V: Copy> View for Table<K, V> {
    type V = Map<K, V>;

    closed spec fn view(&self) -> Map<K, V> {
        Map::new(
            |key: K| exists|i: int| self.holds_at(key, i),
            |key: K| self.slots@[choose|i: int| self.holds_at(key, i)].value,
        )
    }
}

impl<K: Key, V: Copy> Table<K, V> {
    /// Whether entry `i` exists and carries `key`.
    pub closed spec fn holds_at(&self, key: K, i: int) -> bool {
        0 <= i < self.slots@.len() && self.slots@[i].key == key
    }

    /// No key occurs in two entries.
    pub closed spec fn wf(&self) -> bool {
        forall|i: int, j: int|
            0 <= i < j < self.slots@.len() ==> self.slots@[i].key != self.slots@[j].key
    }

    /// Entry `i` is what the map holds under that entry's key.
    proof fn lemma_entry(&self, i: int)
        requires
            self.wf(),
            0 <= i < self.slots@.len(),
        ensures
            self@.contains_key(self.slots@[i].key),
            self@[self.slots@[i].key] == self.slots@[i].value,
    {
        let key = self.slots@[i].key;
        assert(self.holds_at(key, i));
        let j = choose|j: int| self.holds_at(key, j);
        assert(self.holds_at(key, j));
        assert(i == j) by {
            if i < j {
                assert(self.slots@[i].key != self.slots@[j].key);
            }
            if j < i {
                assert(self.slots@[j].key != self.slots@[i].key);
            }
        }
    }

    /// A key of the map is carried by some entry.
    proof fn lemma_witness(&self, key: K) -> (i: int)
        requires
            self@.contains_key(key),
        ensures
            self.holds_at(key, i),
    {
        choose|i: int| self.holds_at(key, i)
    }

    /// The empty table.
    pub fn new() -> (table: Self)
        ensures
            table.wf(),
            table@ == Map::<K, V>::empty(),
    {
        let table = Table { slots: Vec::new() };
        assert(table@ =~= Map::<K, V>::empty()) by {
            assert forall|key: K| !table@.contains_key(key) by {
                if table@.contains_key(key) {
                    let i = table.lemma_witness(key);
                }
            }
        }
        table
    }

    /// The position of the entry that carries `key`, if there is one.
    fn find(&self, key: &K) -> (found: Option<usize>)
        requires
            self.wf(),
        ensures
            match found {
                Some(i) => self.holds_at(*key, i as int) && self@.contains_key(*key) && self@[*key]
                    == self.slots@[i as int].value,
                None => !self@.contains_key(*key),
            },
    {
        let mut i: usize = 0;
        while i < self.slots.len()
            invariant
                self.wf(),
                0 <= i <= self.slots@.len(),
                forall|j: int| 0 <= j < i ==> self.slots@[j].key != *key,
            decreases self.slots@.len() - i,
        {
            if self.slots[i].key.key_eq(key) {
                proof {
                    self.lemma_entry(i as int);
                }
                return Some(i);
            }
            i += 1;
        }
        proof {
            if self@.contains_key(*key) {
                let j = self.lemma_witness(*key);
                assert(self.slots@[j].key == *key);
            }
        }
        None
    }

    /// The value held under `key`, if there is one.
    pub fn get(&self, key: &K) -> (value: Option<V>)
        requires
            self.wf(),
        ensures
            value == if self@.contains_key(*key) {
                Some(self@[*key])
            } else {
                None
            },
    {
        match self.find(key) {
            Some(i) => Some(self.slots[i].value),
            None => None,
        }
    }

    /// Removes whatever is held under `key`.
    pub fn take(&mut self, key: &K)
        requires
            old(self).wf(),
        ensures
            final(self).wf(),
            final(self)@ == old(self)@.remove(*key),
    {
        match self.find(key) {
            Some(i) => {
                let ghost before = *self;
                self.slots.remove(i);
                proof {
                    let after = *self;
                    let at = i as int;
                    assert(after.slots@ == before.slots@.remove(at));
                    assert forall|a: int, b: int| 0 <= a < b < after.slots@.len() implies after.slots@[a].key
                        != after.slots@[b].key by {
                        let a0 = if a < at { a } else { a + 1 };
                        let b0 = if b < at { b } else { b + 1 };
                        assert(after.slots@[a] == before.slots@[a0]);
                        assert(after.slots@[b] == before.slots@[b0]);
                        assert(before.slots@[a0].key != before.slots@[b0].key);
                    }
                    assert(after.wf());
                    assert forall|k: K| after@.contains_key(k) <==> (before@.contains_key(k) && k
                        != *key) by {
                        if after@.contains_key(k) {
                            let a = after.lemma_witness(k);
                            let a0 = if a < at { a } else { a + 1 };
                            assert(after.slots@[a] == before.slots@[a0]);
                            before.lemma_entry(a0);
                            assert(k != *key) by {
                                if k == *key {
                                    if a0 < at {
                                        assert(before.slots@[a0].key != before.slots@[at].key);
                                    } else {
                                        assert(before.slots@[at].key != before.slots@[a0].key);
                                    }
                                }
                            }
                        }
                        if before@.contains_key(k) && k != *key {
                            let b0 = before.lemma_witness(k);
                            let b = if b0 < at { b0 } else { b0 - 1 };
                            assert(after.slots@[b] == before.slots@[b0]);
                            after.lemma_entry(b);
                        }
                    }
                    assert forall|k: K| after@.contains_key(k) implies after@[k] == before@[k] by {
                        let a = after.lemma_witness(k);
                        let a0 = if a < at { a } else { a + 1 };
                        assert(after.slots@[a] == before.slots@[a0]);
                        after.lemma_entry(a);
                        before.lemma_entry(a0);
                    }
                    assert(after@ =~= before@.remove(*key));
                }
            },
            None => {
                assert(self@ =~= old(self)@.remove(*key));
            },
        }
    }

    /// Holds `value` under `key`, in place of whatever was held there.
    pub fn put(&mut self, key: K, value: V)
        requires
            old(self).wf(),
        ensures
            final(self).wf(),
            final(self)@ == old(self)@.insert(key, value),
    {
        self.take(&key);
        let ghost before = *self;
        self.slots.push(Slot { key, value });
        proof {
            let after = *self;
            let last = before.slots@.len() as int;
            assert(after.slots@ == before.slots@.push(Slot { key, value }));
            assert forall|a: int, b: int| 0 <= a < b < after.slots@.len() implies after.slots@[a].key
                != after.slots@[b].key by {
                assert(after.slots@[a] == before.slots@[a]);
                if b == last {
                    before.lemma_entry(a);
                } else {
                    assert(after.slots@[b] == before.slots@[b]);
                }
            }
            assert(after.wf());
            after.lemma_entry(last);
            assert forall|k: K| after@.contains_key(k) <==> (before@.contains_key(k) || k
                == key) by {
                if after@.contains_key(k) && k != key {
                    let a = after.lemma_witness(k);
                    assert(after.slots@[a] == before.slots@[a]);
                    before.lemma_entry(a);
                }
                if before@.contains_key(k) {
                    let b = before.lemma_witness(k);
                    assert(after.slots@[b] == before.slots@[b]);
                    after.lemma_entry(b);
                }
            }
            assert forall|k: K| before@.contains_key(k) && k != key implies after@[k]
                == before@[k] by {
                let b = before.lemma_witness(k);
                assert(after.slots@[b] == before.slots@[b]);
                after.lemma_entry(b);
                before.lemma_entry(b);
            }
            assert(after@ =~= before@.insert(key, value));
            assert(before@.insert(key, value) =~= old(self)@.insert(key, value));
        }
    }
}

} // verus!
