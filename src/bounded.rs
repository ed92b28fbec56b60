use vstd::prelude::*;
use crate::entry::{OnEvictCallback, PutResult};

verus! {

/// No key occurs twice among the entries.
pub open spec fn keys_unique<V>(s: Seq<(i64, V)>) -> bool {
    forall|i: int, j: int| 0 <= i < j < s.len() ==> s[i].0 != s[j].0
}

/// Some entry has key `k`.
pub open spec fn has_key<V>(s: Seq<(i64, V)>, k: i64) -> bool {
    exists|i: int| 0 <= i < s.len() && s[i].0 == k
}

/// A fixed-capacity container of keyed entries that evicts the least recently
/// written entry when a new key arrives while it is full. Entries are kept in
/// order of their last write, oldest first.
pub struct BoundedCache<V, C> {
    entries: Vec<(i64, V)>,
    cap: usize,
    on_evict: C,
}

impl<V, C> View for BoundedCache<V, C> {
    type V = Seq<(i64, V)>;

    closed spec fn view(&self) -> Seq<(i64, V)> {
        self.entries@
    }
}

impl<V, C: OnEvictCallback> BoundedCache<V, C> {
    /// The largest number of entries the container holds.
    pub closed spec fn spec_capacity(&self) -> nat {
        self.cap as nat
    }

    /// The container's invariant: unique keys, never more entries than its capacity.
    pub open spec fn wf(&self) -> bool {
        &&& keys_unique(self@)
        &&& self@.len() <= self.spec_capacity()
        &&& self.spec_capacity() > 0
    }

    /// An empty container that holds at most `capacity` entries and hands each
    /// evicted entry to `on_evict`.
    pub fn new(capacity: usize, on_evict: C) -> (r: Self)
        requires
            capacity > 0,
        ensures
            r.wf(),
            r@ == Seq::<(i64, V)>::empty(),
            r.spec_capacity() == capacity,
    {
        BoundedCache { entries: Vec::new(), cap: capacity, on_evict }
    }

    fn find(&self, k: i64) -> (r: Option<usize>)
        ensures
            match r {
                Some(i) => i < self@.len() && self@[i as int].0 == k,
                None => !has_key(self@, k),
            },
    {
        let mut i: usize = 0;
        while i < self.entries.len()
            invariant
                i <= self@.len(),
                self@ == self.entries@,
                forall|j: int| 0 <= j < i ==> self@[j].0 != k,
            decreases self@.len() - i,
        {
            if self.entries[i].0 == k {
                return Some(i);
            }
            i = i + 1;
        }
        None
    }

    /// Writes `v` under `k`. An existing key is overwritten and becomes the
    /// most recent entry; a new key is added, evicting the oldest entry first
    /// when the container is full.
    pub fn put(&mut self, k: i64, v: V) -> (r: PutResult<i64, V>)
        requires
            old(self).wf(),
        ensures
            final(self).wf(),
            final(self).spec_capacity() == old(self).spec_capacity(),
            has_key(old(self)@, k) || old(self)@.len() == old(self).spec_capacity() ==> final(self)@.len()
                == old(self)@.len(),
            has_key(old(self)@, k) ==> exists|i: int|
                0 <= i < old(self)@.len() && old(self)@[i].0 == k
                && r == PutResult::<i64, V>::Update(old(self)@[i].1)
                && final(self)@ == old(self)@.remove(i).push((k, v)),
            !has_key(old(self)@, k) && old(self)@.len() < old(self).spec_capacity() ==> r
                == PutResult::<i64, V>::Put && final(self)@ == old(self)@.push((k, v)),
            !has_key(old(self)@, k) && old(self)@.len() == old(self).spec_capacity() ==> r
                == (PutResult::<i64, V>::Evicted { key: old(self)@[0].0, value: old(self)@[0].1 })
                && final(self)@ == old(self)@.drop_first().push((k, v)),
    {
        let ghost s0 = self@;
        match self.find(k) {
            Some(i) => {
                let (_, old_v) = self.entries.remove(i);
                proof {
                    assert forall|a: int| 0 <= a < self@.len() implies self@[a].0 != k by {
                        if a < i {
                            assert(self@[a] == s0[a]);
                        } else {
                            assert(self@[a] == s0[a + 1]);
                        }
                    }
                }
                self.entries.push((k, v));
                proof {
                    assert(self@ == s0.remove(i as int).push((k, v)));
                    assert forall|a: int, b: int| 0 <= a < b < self@.len() implies self@[a].0
                        != self@[b].0 by {
                        if b < self@.len() - 1 {
                            let sa = if a < i { a } else { a + 1 };
                            let sb = if b < i { b } else { b + 1 };
                            assert(self@[a] == s0[sa] && self@[b] == s0[sb]);
                        }
                    }
                }
                PutResult::Update(old_v)
            },
            None => {
                if self.entries.len() < self.cap {
                    self.entries.push((k, v));
                    proof {
                        assert forall|a: int, b: int| 0 <= a < b < self@.len() implies self@[a].0
                            != self@[b].0 by {
                            if b < self@.len() - 1 {
                                assert(self@[a] == s0[a] && self@[b] == s0[b]);
                            } else {
                                assert(self@[a] == s0[a]);
                            }
                        }
                    }
                    PutResult::Put
                } else {
                    let (ek, ev) = self.entries.remove(0);
                    self.on_evict.on_evict(&ek, &ev);
                    self.entries.push((k, v));
                    proof {
                        assert(self@ == s0.drop_first().push((k, v)));
                        assert forall|a: int, b: int| 0 <= a < b < self@.len() implies self@[a].0
                            != self@[b].0 by {
                            if b < self@.len() - 1 {
                                assert(self@[a] == s0[a + 1] && self@[b] == s0[b + 1]);
                            } else {
                                assert(self@[a] == s0[a + 1]);
                            }
                        }
                    }
                    PutResult::Evicted { key: ek, value: ev }
                }
            },
        }
    }

    /// The value stored under `k`, if any.
    pub fn get(&self, k: i64) -> (r: Option<&V>)
        ensures
            match r {
                Some(v) => exists|i: int| 0 <= i < self@.len() && self@[i].0 == k && self@[i].1 == *v,
                None => !has_key(self@, k),
            },
    {
        match self.find(k) {
            Some(i) => Some(&self.entries[i].1),
            None => None,
        }
    }

    /// Whether an entry has key `k`.
    pub fn contains(&self, k: i64) -> (r: bool)
        ensures
            r == has_key(self@, k),
    {
        self.find(k).is_some()
    }

    /// The number of entries.
    pub fn len(&self) -> (r: usize)
        ensures
            r == self@.len(),
    {
        self.entries.len()
    }

    /// Whether the container holds no entry.
    pub fn is_empty(&self) -> (r: bool)
        ensures
            r == (self@.len() == 0),
    {
        self.entries.len() == 0
    }

    /// The largest number of entries the container holds.
    pub fn capacity(&self) -> (r: usize)
        ensures
            r == self.spec_capacity(),
    {
        self.cap
    }
}

} // verus!
