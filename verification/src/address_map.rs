//! A small keyed store indexed by account address, modelling one family of
//! per-address storage entries of a contract.
use vstd::prelude::*;

use crate::address::Address;

verus! {

/// A finite map from addresses to values. Each address occurs at most once.
pub struct AddressMap<V> {
    entries: Vec<(Address, V)>,
}

impl<V> View for AddressMap<V> {
    type V = Map<Seq<char>, V>;

    closed spec fn view(&self) -> Map<Seq<char>, V> {
        Map::new(
            |k: Seq<char>| self.keys().contains(k),
            |k: Seq<char>| self.entries@[self.keys().index_of(k)].1,
        )
    }
}

impl<V> AddressMap<V> {
    /// The addresses of the entries, in storage order.
    closed spec fn keys(&self) -> Seq<Seq<char>> {
        self.entries@.map_values(|e: (Address, V)| e.0@)
    }

    /// Every address occurs at most once.
    pub closed spec fn wf(&self) -> bool {
        self.keys().no_duplicates()
    }

    proof fn lemma_entry(&self, i: int)
        requires
            self.wf(),
            0 <= i < self.entries@.len(),
        ensures
            self@.contains_key(self.entries@[i].0@),
            self@[self.entries@[i].0@] == self.entries@[i].1,
    {
        let k = self.entries@[i].0@;
        assert(self.keys()[i] == k);
        assert(self.keys().contains(k));
        let j = self.keys().index_of(k);
        assert(self.keys()[j] == k);
    }

    /// An empty map.
    pub fn new() -> (r: Self)
        ensures
            r.wf(),
            r@ == Map::<Seq<char>, V>::empty(),
    {
        let r = AddressMap { entries: Vec::new() };
        assert(r@ =~= Map::<Seq<char>, V>::empty());
        r
    }

    /// The position of the entry for `key`, if there is one.
    fn find(&self, key: &Address) -> (r: Option<usize>)
        requires
            self.wf(),
        ensures
            match r {
                Some(i) => i < self.entries@.len() && self.entries@[i as int].0@ == key@,
                None => !self@.contains_key(key@),
            },
    {
        let n = self.entries.len();
        let mut i: usize = 0;
        while i < n
            invariant
                n == self.entries@.len(),
                i <= n,
                forall|j: int| 0 <= j < i ==> #[trigger] self.entries@[j].0@ != key@,
            decreases n - i,
        {
            if self.entries[i].0 == *key {
                return Some(i);
            }
            i = i + 1;
        }
        proof {
            if self.keys().contains(key@) {
                let j = self.keys().index_of(key@);
                assert(self.keys()[j] == self.entries@[j].0@);
            }
        }
        None
    }

    /// Whether `key` has an entry.
    pub fn contains_key(&self, key: &Address) -> (r: bool)
        requires
            self.wf(),
        ensures
            r == self@.contains_key(key@),
    {
        match self.find(key) {
            Some(i) => {
                proof {
                    self.lemma_entry(i as int);
                }
                true
            },
            None => false,
        }
    }

    /// The value stored for `key`, if any.
    pub fn get(&self, key: &Address) -> (r: Option<&V>)
        requires
            self.wf(),
        ensures
            match r {
                Some(v) => self@.contains_key(key@) && *v == self@[key@],
                None => !self@.contains_key(key@),
            },
    {
        match self.find(key) {
            Some(i) => {
                proof {
                    self.lemma_entry(i as int);
                }
                Some(&self.entries[i].1)
            },
            None => None,
        }
    }

    /// Stores `value` for `key`, replacing any earlier value.
    pub fn insert(&mut self, key: Address, value: V)
        requires
            old(self).wf(),
        ensures
            final(self).wf(),
            final(self)@ == old(self)@.insert(key@, value),
    {
        let ghost pre = *self;
        let ghost k = key@;
        match self.find(&key) {
            Some(i) => {
                self.entries.set(i, (key, value));
                proof {
                    assert(self.keys() =~= pre.keys());
                    assert(pre.keys()[i as int] == k);
                    assert forall|kk: Seq<char>|
                        #[trigger] self@.contains_key(kk) == pre@.insert(k, value).contains_key(kk)
                    by {
                        assert(self.keys() =~= pre.keys());
                    }
                    assert forall|kk: Seq<char>| #[trigger] self@.contains_key(kk) implies
                        self@[kk] == pre@.insert(k, value)[kk]
                    by {
                        let j = self.keys().index_of(kk);
                        assert(self.keys()[j] == self.entries@[j].0@);
                        self.lemma_entry(j);
                        if j != i as int {
                            pre.lemma_entry(j);
                        }
                    }
                    assert(self@ =~= pre@.insert(k, value));
                }
            },
            None => {
                self.entries.push((key, value));
                proof {
                    let n = pre.entries@.len() as int;
                    assert(self.keys() =~= pre.keys().push(k));
                    assert forall|a: int, b: int|
                        0 <= a < self.keys().len() && 0 <= b < self.keys().len() && a != b
                        implies self.keys()[a] != self.keys()[b]
                    by {
                        if a < n && b < n {
                        } else if a == n {
                            pre.lemma_entry(b);
                        } else {
                            pre.lemma_entry(a);
                        }
                    }
                    assert forall|kk: Seq<char>|
                        #[trigger] self@.contains_key(kk) == pre@.insert(k, value).contains_key(kk)
                    by {
                        if pre.keys().contains(kk) {
                            let j = pre.keys().index_of(kk);
                            assert(self.keys()[j] == kk);
                        }
                        if self.keys().contains(kk) && kk != k {
                            let j = self.keys().index_of(kk);
                            assert(pre.keys()[j] == kk);
                        }
                        assert(self.keys()[n] == k);
                    }
                    assert forall|kk: Seq<char>| #[trigger] self@.contains_key(kk) implies
                        self@[kk] == pre@.insert(k, value)[kk]
                    by {
                        let j = self.keys().index_of(kk);
                        self.lemma_entry(j);
                        if j != n {
                            pre.lemma_entry(j);
                        }
                    }
                    assert(self@ =~= pre@.insert(k, value));
                }
            },
        }
    }

    /// Deletes the entry for `key`, if there is one.
    pub fn remove(&mut self, key: &Address)
        requires
            old(self).wf(),
        ensures
            final(self).wf(),
            final(self)@ == old(self)@.remove(key@),
    {
        let ghost pre = *self;
        let ghost k = key@;
        match self.find(key) {
            Some(i) => {
                self.entries.remove(i);
                proof {
                    let ii = i as int;
                    assert(self.keys() =~= pre.keys().remove(ii));
                    assert forall|a: int, b: int|
                        0 <= a < self.keys().len() && 0 <= b < self.keys().len() && a != b
                        implies self.keys()[a] != self.keys()[b]
                    by {
                        let pa = if a < ii { a } else { a + 1 };
                        let pb = if b < ii { b } else { b + 1 };
                        assert(self.keys()[a] == pre.keys()[pa]);
                        assert(self.keys()[b] == pre.keys()[pb]);
                    }
                    assert forall|kk: Seq<char>|
                        #[trigger] self@.contains_key(kk) == pre@.remove(k).contains_key(kk)
                    by {
                        if pre.keys().contains(kk) && kk != k {
                            let j = pre.keys().index_of(kk);
                            assert(j != ii);
                            if j < ii {
                                assert(self.keys()[j] == kk);
                            } else {
                                assert(self.keys()[j - 1] == kk);
                            }
                        }
                        if self.keys().contains(kk) {
                            let j = self.keys().index_of(kk);
                            let pj = if j < ii { j } else { j + 1 };
                            assert(pre.keys()[pj] == kk);
                            assert(pre.keys()[ii] == k);
                        }
                    }
                    assert forall|kk: Seq<char>| #[trigger] self@.contains_key(kk) implies
                        self@[kk] == pre@.remove(k)[kk]
                    by {
                        let j = self.keys().index_of(kk);
                        self.lemma_entry(j);
                        let pj = if j < ii { j } else { j + 1 };
                        pre.lemma_entry(pj);
                    }
                    assert(self@ =~= pre@.remove(k));
                }
            },
            None => {
                proof {
                    assert(self@ =~= pre@.remove(k));
                }
            },
        }
    }
}

} // verus!
