//! A finite map keyed by strings, stored as an association list with
//! unique keys and viewed as a `Map<Seq<char>, V>`.
//!
//! The process registry and the scheduler's per-worktree timestamp
//! tables are both instances of this type.

use vstd::prelude::*;

verus! {

/// A map from strings to copyable values.
pub struct StringMap<V> {
    entries: Vec<(String, V)>,
}

impl<V> View for StringMap<V> {
    type V = Map<Seq<char>, V>;

    closed spec fn view(&self) -> Map<Seq<char>, V> {
        Map::new(
            |k: Seq<char>|
                exists|i: int| 0 <= i < self.entries@.len() && self.entries@[i].0@ == k,
            |k: Seq<char>|
                self.entries@[choose|i: int|
                    0 <= i < self.entries@.len() && self.entries@[i].0@ == k].1,
        )
    }
}

impl<V: Copy> StringMap<V> {
    /// Well-formed: no two entries share a key.
    pub closed spec fn wf(&self) -> bool {
        forall|i: int, j: int|
            0 <= i < j < self.entries@.len() ==> self.entries@[i].0@ != self.entries@[j].0@
    }

    /// With unique keys, an entry at index `i` settles both membership
    /// and the value of its key in the map view.
    proof fn lemma_entry_value(&self, i: int)
        requires
            self.wf(),
            0 <= i < self.entries@.len(),
        ensures
            self@.contains_key(self.entries@[i].0@),
            self@[self.entries@[i].0@] == self.entries@[i].1,
    {
        let k = self.entries@[i].0@;
        assert(exists|j: int| 0 <= j < self.entries@.len() && self.entries@[j].0@ == k);
        let j = choose|j: int| 0 <= j < self.entries@.len() && self.entries@[j].0@ == k;
        assert(j == i);
    }

    /// A key that no entry holds is not in the map view.
    proof fn lemma_absent_key(&self, k: Seq<char>)
        requires
            forall|i: int| 0 <= i < self.entries@.len() ==> self.entries@[i].0@ != k,
        ensures
            !self@.contains_key(k),
    {
    }

    /// A key in the map view is held by some entry.
    proof fn lemma_present_key(&self, k: Seq<char>)
        requires
            self@.contains_key(k),
        ensures
            exists|i: int| 0 <= i < self.entries@.len() && self.entries@[i].0@ == k,
    {
    }

    /// The empty map.
    pub fn new() -> (r: Self)
        ensures
            r.wf(),
            r@ == Map::<Seq<char>, V>::empty(),
    {
        let r = StringMap { entries: Vec::new() };
        proof {
            assert(r@ =~= Map::<Seq<char>, V>::empty());
        }
        r
    }

    /// The index of the entry holding `key`, if any.
    fn find_index(&self, key: &String) -> (r: Option<usize>)
        ensures
            match r {
                Option::Some(i) => 0 <= i < self.entries@.len()
                    && self.entries@[i as int].0@ == key@,
                Option::None => forall|i: int|
                    0 <= i < self.entries@.len() ==> self.entries@[i].0@ != key@,
            },
    {
        let n = self.entries.len();
        let mut i: usize = 0;
        while i < n
            invariant
                n == self.entries@.len(),
                0 <= i <= n,
                forall|j: int| 0 <= j < i ==> self.entries@[j].0@ != key@,
            decreases n - i,
        {
            if self.entries[i].0 == *key {
                return Option::Some(i);
            }
            i = i + 1;
        }
        Option::None
    }

    /// Whether `key` is in the map.
    pub fn contains_key(&self, key: &str) -> (r: bool)
        requires
            self.wf(),
        ensures
            r == self@.contains_key(key@),
    {
        let owned = key.to_owned();
        let found = self.find_index(&owned);
        match found {
            Option::Some(i) => {
                proof {
                    self.lemma_entry_value(i as int);
                }
                true
            },
            Option::None => {
                proof {
                    self.lemma_absent_key(key@);
                }
                false
            },
        }
    }

    /// The value under `key`, if any.
    pub fn get(&self, key: &str) -> (r: Option<V>)
        requires
            self.wf(),
        ensures
            r == if self@.contains_key(key@) {
                Option::Some(self@[key@])
            } else {
                Option::<V>::None
            },
    {
        let owned = key.to_owned();
        let found = self.find_index(&owned);
        match found {
            Option::Some(i) => {
                proof {
                    self.lemma_entry_value(i as int);
                }
                Option::Some(self.entries[i].1)
            },
            Option::None => {
                proof {
                    self.lemma_absent_key(key@);
                }
                Option::None
            },
        }
    }

    /// Remove `key`; returns the value it held, if any.
    pub fn remove(&mut self, key: &str) -> (r: Option<V>)
        requires
            old(self).wf(),
        ensures
            final(self).wf(),
            old(self)@.contains_key(key@) ==> r == Option::Some(old(self)@[key@])
                && final(self)@ == old(self)@.remove(key@),
            !old(self)@.contains_key(key@) ==> r == Option::<V>::None
                && final(self)@ == old(self)@,
    {
        let ghost pre = *old(self);
        let owned = key.to_owned();
        let found = self.find_index(&owned);
        match found {
            Option::Some(i) => {
                proof {
                    pre.lemma_entry_value(i as int);
                }
                let entry = self.entries.remove(i);
                proof {
                    let d = i as int;
                    // Unique keys survive deleting one entry.
                    assert forall|p: int, q: int|
                        0 <= p < q < self.entries@.len() implies self.entries@[p].0@
                        != self.entries@[q].0@ by {
                        let pp = if p < d { p } else { p + 1 };
                        let qq = if q < d { q } else { q + 1 };
                        assert(pre.entries@[pp].0@ != pre.entries@[qq].0@);
                    }
                    // The map views agree pointwise.
                    assert forall|k: Seq<char>| #[trigger] self@.contains_key(k)
                        == pre@.remove(key@).contains_key(k)
                        && (self@.contains_key(k) ==> self@[k] == pre@.remove(key@)[k]) by {
                        if k == key@ {
                            assert forall|j: int|
                                0 <= j < self.entries@.len() implies self.entries@[j].0@
                                != k by {
                                let jj = if j < d { j } else { j + 1 };
                                assert(jj != d);
                                assert(pre.entries@[jj].0@ != pre.entries@[d].0@);
                            }
                            self.lemma_absent_key(k);
                        } else if pre@.contains_key(k) {
                            pre.lemma_present_key(k);
                            let i0 = choose|j: int|
                                0 <= j < pre.entries@.len() && pre.entries@[j].0@ == k;
                            pre.lemma_entry_value(i0);
                            assert(i0 != d);
                            let shifted = if i0 < d { i0 } else { i0 - 1 };
                            assert(self.entries@[shifted] == pre.entries@[i0]);
                            self.lemma_entry_value(shifted);
                        } else {
                            assert forall|j: int|
                                0 <= j < self.entries@.len() implies self.entries@[j].0@
                                != k by {
                                let jj = if j < d { j } else { j + 1 };
                                assert(pre.entries@[jj].0@ != k);
                            }
                            self.lemma_absent_key(k);
                        }
                    }
                    assert(self@ =~= pre@.remove(key@));
                }
                Option::Some(entry.1)
            },
            Option::None => {
                proof {
                    pre.lemma_absent_key(key@);
                }
                Option::None
            },
        }
    }

    /// Insert `value` under `key`, replacing any previous value.
    pub fn insert(&mut self, key: String, value: V)
        requires
            old(self).wf(),
        ensures
            final(self).wf(),
            final(self)@ == old(self)@.insert(key@, value),
    {
        let ghost pre = *old(self);
        let _ = self.remove(key.as_str());
        let ghost mid = *self;
        proof {
            assert(!mid@.contains_key(key@));
            assert forall|j: int| 0 <= j < mid.entries@.len() implies mid.entries@[j].0@
                != key@ by {
                if mid.entries@[j].0@ == key@ {
                    mid.lemma_entry_value(j);
                }
            }
        }
        self.entries.push((key, value));
        proof {
            let n = mid.entries@.len() as int;
            // Unique keys: the new entry's key was absent.
            assert forall|p: int, q: int|
                0 <= p < q < self.entries@.len() implies self.entries@[p].0@
                != self.entries@[q].0@ by {
                if q < n {
                    assert(mid.entries@[p].0@ != mid.entries@[q].0@);
                } else {
                    assert(self.entries@[q].0@ == key@);
                    assert(mid.entries@[p].0@ != key@);
                }
            }
            // The map views agree pointwise.
            assert forall|k: Seq<char>| #[trigger] self@.contains_key(k)
                == mid@.insert(key@, value).contains_key(k)
                && (self@.contains_key(k) ==> self@[k] == mid@.insert(key@, value)[k]) by {
                if k == key@ {
                    self.lemma_entry_value(n);
                } else if mid@.contains_key(k) {
                    mid.lemma_present_key(k);
                    let i0 = choose|j: int|
                        0 <= j < mid.entries@.len() && mid.entries@[j].0@ == k;
                    mid.lemma_entry_value(i0);
                    assert(self.entries@[i0] == mid.entries@[i0]);
                    self.lemma_entry_value(i0);
                } else {
                    assert forall|j: int|
                        0 <= j < self.entries@.len() implies self.entries@[j].0@ != k by {
                        if j < n && mid.entries@[j].0@ == k {
                            mid.lemma_entry_value(j);
                        }
                    }
                    self.lemma_absent_key(k);
                }
            }
            assert(self@ =~= mid@.insert(key@, value));
            assert(self@ =~= pre@.insert(key@, value));
        }
    }

    /// The keys currently in the map, each exactly once.
    pub fn keys(&self) -> (r: Vec<String>)
        requires
            self.wf(),
        ensures
            forall|i: int| 0 <= i < r@.len() ==> self@.contains_key(#[trigger] r@[i]@),
            forall|k: Seq<char>| self@.contains_key(k) ==> exists|i: int|
                0 <= i < r@.len() && #[trigger] r@[i]@ == k,
            forall|i: int, j: int| 0 <= i < j < r@.len() ==> r@[i]@ != r@[j]@,
    {
        let n = self.entries.len();
        let mut r: Vec<String> = Vec::new();
        let mut i: usize = 0;
        while i < n
            invariant
                n == self.entries@.len(),
                0 <= i <= n,
                r@.len() == i,
                self.wf(),
                forall|j: int| 0 <= j < i ==> r@[j]@ == self.entries@[j].0@,
            decreases n - i,
        {
            r.push(self.entries[i].0.clone());
            i = i + 1;
        }
        proof {
            assert forall|j: int| 0 <= j < r@.len() implies self@.contains_key(r@[j]@) by {
                self.lemma_entry_value(j);
            }
            assert forall|k: Seq<char>| self@.contains_key(k) implies exists|j: int|
                0 <= j < r@.len() && #[trigger] r@[j]@ == k by {
                self.lemma_present_key(k);
                let i0 = choose|j: int|
                    0 <= j < self.entries@.len() && self.entries@[j].0@ == k;
                assert(r@[i0]@ == k);
            }
        }
        r
    }
}

} // verus!
