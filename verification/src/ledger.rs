use vstd::prelude::*;

verus! {

/// The party ledger: for each party identity, the logical time at which
/// its active deposit was recorded. A party has an entry exactly while it
/// holds an active lock.
///
/// Stored as a vector of `(party, timestamp)` pairs with pairwise
/// distinct parties; viewed as a finite `Map<u64, u64>`.
pub struct Ledger {
    entries: Vec<(u64, u64)>,
}

/// The map a sequence of key-value pairs denotes: later pairs win.
pub open spec fn map_of(s: Seq<(u64, u64)>) -> Map<u64, u64>
    decreases s.len(),
{
    if s.len() == 0 {
        Map::empty()
    } else {
        map_of(s.drop_last()).insert(s.last().0, s.last().1)
    }
}

/// No two pairs of `s` share a key.
pub open spec fn distinct_keys(s: Seq<(u64, u64)>) -> bool {
    forall|i: int, j: int| 0 <= i < j < s.len() ==> (#[trigger] s[i]).0 != (#[trigger] s[j]).0
}

/// How `map_of` relates to the pairs themselves, when keys are distinct:
/// the domain is exactly the set of keys, and each key maps to the value
/// it is paired with.
pub proof fn lemma_map_of(s: Seq<(u64, u64)>)
    requires
        distinct_keys(s),
    ensures
        forall|k: u64| #[trigger] map_of(s).dom().contains(k)
            <==> exists|i: int| 0 <= i < s.len() && (#[trigger] s[i]).0 == k,
        forall|i: int| 0 <= i < s.len() ==> map_of(s)[(#[trigger] s[i]).0] == s[i].1,
        map_of(s).dom().finite(),
    decreases s.len(),
{
    if s.len() > 0 {
        let s0 = s.drop_last();
        assert(forall|i: int| 0 <= i < s0.len() ==> s0[i] == s[i]);
        lemma_map_of(s0);
        let last = s.last();
        assert(s[s.len() - 1] == last);
        assert forall|k: u64| #[trigger] map_of(s).dom().contains(k)
            implies exists|i: int| 0 <= i < s.len() && (#[trigger] s[i]).0 == k by {
            if k == last.0 {
                assert((s[s.len() - 1]).0 == k);
            } else {
                let i = choose|i: int| 0 <= i < s0.len() && (#[trigger] s0[i]).0 == k;
                assert((s[i]).0 == k);
            }
        }
        assert forall|k: u64| (exists|i: int| 0 <= i < s.len() && (#[trigger] s[i]).0 == k)
            implies #[trigger] map_of(s).dom().contains(k) by {
            let i = choose|i: int| 0 <= i < s.len() && (#[trigger] s[i]).0 == k;
            if i < s.len() - 1 {
                assert((s0[i]).0 == k);
            }
        }
        assert forall|i: int| 0 <= i < s.len() implies map_of(s)[(#[trigger] s[i]).0] == s[i].1 by {
            if i < s.len() - 1 {
                assert((s0[i]).0 == s[i].0);
                assert(s[i].0 != last.0);
            }
        }
    }
}

impl Ledger {
    /// The representation keeps one entry per party.
    pub closed spec fn inv(self) -> bool {
        distinct_keys(self.entries@)
    }

    /// An empty ledger: no party holds a lock.
    pub fn new() -> (r: Ledger)
        ensures
            r.inv(),
            r@ == Map::<u64, u64>::empty(),
    {
        Ledger { entries: Vec::new() }
    }

    /// Position of `key`'s entry, if the ledger holds one.
    fn index_of(&self, key: u64) -> (r: Option<usize>)
        requires
            self.inv(),
        ensures
            match r {
                Some(i) => i < self.entries@.len() && self.entries@[i as int].0 == key,
                None => forall|i: int|
                    0 <= i < self.entries@.len() ==> (#[trigger] self.entries@[i]).0 != key,
            },
    {
        let n = self.entries.len();
        let mut i: usize = 0;
        while i < n
            invariant
                i <= n,
                n == self.entries@.len(),
                forall|j: int| 0 <= j < i ==> (#[trigger] self.entries@[j]).0 != key,
            decreases n - i,
        {
            if self.entries[i].0 == key {
                return Some(i);
            }
            i = i + 1;
        }
        None
    }

    /// Whether `key` holds an entry.
    pub fn contains(&self, key: u64) -> (r: bool)
        requires
            self.inv(),
        ensures
            r == self@.dom().contains(key),
    {
        proof {
            lemma_map_of(self.entries@);
        }
        self.index_of(key).is_some()
    }

    /// The timestamp recorded for `key`, if any.
    pub fn get(&self, key: u64) -> (r: Option<u64>)
        requires
            self.inv(),
        ensures
            r == if self@.dom().contains(key) {
                Some(self@[key])
            } else {
                None::<u64>
            },
    {
        proof {
            lemma_map_of(self.entries@);
        }
        match self.index_of(key) {
            Some(i) => Some(self.entries[i].1),
            None => None,
        }
    }

    /// Record `value` for `key`, replacing any earlier entry.
    pub fn insert(&mut self, key: u64, value: u64)
        requires
            old(self).inv(),
        ensures
            final(self).inv(),
            final(self)@ == old(self)@.insert(key, value),
    {
        proof {
            lemma_map_of(self.entries@);
        }
        let ghost s_old = self.entries@;
        match self.index_of(key) {
            Some(i) => {
                self.entries.set(i, (key, value));
                proof {
                    let s_new = self.entries@;
                    assert(forall|j: int| 0 <= j < s_new.len()
                        ==> (#[trigger] s_new[j]).0 == s_old[j].0);
                    assert(distinct_keys(s_new));
                    lemma_map_of(s_new);
                    assert forall|k: u64| #[trigger] map_of(s_new).dom().contains(k)
                        implies map_of(s_old).insert(key, value).dom().contains(k)
                            && map_of(s_new)[k] == map_of(s_old).insert(key, value)[k] by {
                        let j = choose|j: int|
                            0 <= j < s_new.len() && (#[trigger] s_new[j]).0 == k;
                        if j != i as int {
                            assert(s_new[j] == s_old[j]);
                            assert((s_old[j]).0 == k);
                            assert(k != key);
                        }
                    }
                    assert forall|k: u64|
                        #[trigger] map_of(s_old).insert(key, value).dom().contains(k)
                        implies map_of(s_new).dom().contains(k) by {
                        if k == key {
                            assert((s_new[i as int]).0 == k);
                        } else {
                            let j = choose|j: int|
                                0 <= j < s_old.len() && (#[trigger] s_old[j]).0 == k;
                            assert((s_new[j]).0 == k);
                        }
                    }
                    assert(map_of(s_new) =~= map_of(s_old).insert(key, value));
                }
            },
            None => {
                self.entries.push((key, value));
                proof {
                    assert(self.entries@.drop_last() =~= s_old);
                    assert(self.entries@.last() == (key, value));
                    assert forall|i: int, j: int| 0 <= i < j < self.entries@.len()
                        implies (#[trigger] self.entries@[i]).0
                            != (#[trigger] self.entries@[j]).0 by {
                        if j == self.entries@.len() - 1 {
                            assert(self.entries@[i] == s_old[i]);
                        }
                    }
                }
            },
        }
    }

    /// Drop `key`'s entry, if it holds one.
    pub fn remove(&mut self, key: u64)
        requires
            old(self).inv(),
        ensures
            final(self).inv(),
            final(self)@ == old(self)@.remove(key),
    {
        proof {
            lemma_map_of(self.entries@);
        }
        let ghost s_old = self.entries@;
        match self.index_of(key) {
            Some(i) => {
                self.entries.remove(i);
                proof {
                    assert forall|p: int, q: int| 0 <= p < q < self.entries@.len()
                        implies (#[trigger] self.entries@[p]).0
                            != (#[trigger] self.entries@[q]).0 by {
                        let p0 = if p < i { p } else { p + 1 };
                        let q0 = if q < i { q } else { q + 1 };
                        assert(self.entries@[p] == s_old[p0]);
                        assert(self.entries@[q] == s_old[q0]);
                    }
                    lemma_map_of(self.entries@);
                    assert forall|k: u64| #[trigger] map_of(self.entries@).dom().contains(k)
                        implies map_of(s_old).remove(key).dom().contains(k)
                            && map_of(s_old).remove(key)[k] == map_of(self.entries@)[k] by {
                        let p = choose|p: int|
                            0 <= p < self.entries@.len() && (#[trigger] self.entries@[p]).0 == k;
                        let p0 = if p < i { p } else { p + 1 };
                        assert(self.entries@[p] == s_old[p0]);
                        assert(k != key);
                    }
                    assert forall|k: u64| #[trigger] map_of(s_old).remove(key).dom().contains(k)
                        implies map_of(self.entries@).dom().contains(k) by {
                        let p0 = choose|p0: int|
                            0 <= p0 < s_old.len() && (#[trigger] s_old[p0]).0 == k;
                        let p = if p0 < i { p0 } else { p0 - 1 };
                        assert(p0 != i);
                        assert(self.entries@[p] == s_old[p0]);
                    }
                    assert(map_of(self.entries@) =~= map_of(s_old).remove(key));
                }
            },
            None => {
                proof {
                    assert(map_of(s_old) =~= map_of(s_old).remove(key));
                }
            },
        }
    }

    /// Whether every recorded timestamp is at most `bound`.
    pub fn all_within(&self, bound: u64) -> (r: bool)
        requires
            self.inv(),
        ensures
            r == forall|p: u64| self@.dom().contains(p) ==> #[trigger] self@[p] <= bound,
    {
        proof {
            lemma_map_of(self.entries@);
        }
        let n = self.entries.len();
        let mut i: usize = 0;
        while i < n
            invariant
                i <= n,
                n == self.entries@.len(),
                self.inv(),
                forall|j: int| 0 <= j < i ==> (#[trigger] self.entries@[j]).1 <= bound,
            decreases n - i,
        {
            if self.entries[i].1 > bound {
                proof {
                    lemma_map_of(self.entries@);
                    assert(self@.dom().contains(self.entries@[i as int].0));
                    assert(self@[self.entries@[i as int].0] == self.entries@[i as int].1);
                }
                return false;
            }
            i = i + 1;
        }
        proof {
            lemma_map_of(self.entries@);
            assert forall|p: u64| self@.dom().contains(p) implies #[trigger] self@[p] <= bound by {
                let j = choose|j: int|
                    0 <= j < self.entries@.len() && (#[trigger] self.entries@[j]).0 == p;
                assert(self.entries@[j].1 <= bound);
            }
        }
        true
    }
}

impl View for Ledger {
    type V = Map<u64, u64>;

    closed spec fn view(&self) -> Map<u64, u64> {
        map_of(self.entries@)
    }
}

} // verus!
