use vstd::prelude::*;
use crate::keys::{key_for_lock, lock_key};

verus! {

/// When a write to the cache store may take place.
#[derive(Debug, Clone, Copy, PartialEq, Eq, Structural)]
pub enum SetCondition {
    /// Always.
    Always,
    /// Only when the key holds no value.
    OnlyIfAbsent,
    /// Only when the key already holds a value.
    OnlyIfPresent,
}

/// Whether a write under `cond` takes place on a key that is `present` or not.
pub open spec fn write_allowed(cond: SetCondition, present: bool) -> bool {
    match cond {
        SetCondition::Always => true,
        SetCondition::OnlyIfAbsent => !present,
        SetCondition::OnlyIfPresent => present,
    }
}

/// The contents after a conditional write of `value` under `key`.
pub open spec fn spec_set(
    m: Map<Seq<char>, Seq<char>>,
    key: Seq<char>,
    value: Seq<char>,
    cond: SetCondition,
) -> Map<Seq<char>, Seq<char>> {
    if write_allowed(cond, m.contains_key(key)) {
        m.insert(key, value)
    } else {
        m
    }
}

/// The sentinel held by a lock marker.
pub open spec fn lock_sentinel() -> Seq<char> {
    seq!['1']
}

/// Decides whether a write under `cond` takes place on a key that is `present` or not.
pub fn should_write(cond: SetCondition, present: bool) -> (r: bool)
    ensures
        r == write_allowed(cond, present),
{
    match cond {
        SetCondition::Always => true,
        SetCondition::OnlyIfAbsent => !present,
        SetCondition::OnlyIfPresent => present,
    }
}

/// An in-process key/value cache store over one flat keyspace, with
/// conditional writes. Entries and lock markers share the keyspace.
pub struct MemoryStore {
    entries: Vec<(String, String)>,
}

impl View for MemoryStore {
    type V = Map<Seq<char>, Seq<char>>;

    closed spec fn view(&self) -> Map<Seq<char>, Seq<char>> {
        Map::new(
            |k: Seq<char>| exists|i: int| 0 <= i < self.entries@.len() && self.entries@[i].0@ == k,
            |k: Seq<char>|
                self.entries@[choose|i: int| 0 <= i < self.entries@.len() && self.entries@[i].0@ == k].1@,
        )
    }
}

impl MemoryStore {
    /// No key is stored twice.
    pub closed spec fn wf(&self) -> bool {
        forall|i: int, j: int|
            0 <= i < j < self.entries@.len() ==> self.entries@[i].0@ != self.entries@[j].0@
    }

    proof fn lemma_view_at(&self, i: int)
        requires
            self.wf(),
            0 <= i < self.entries@.len(),
        ensures
            self@.contains_key(self.entries@[i].0@),
            self@[self.entries@[i].0@] == self.entries@[i].1@,
    {
        let k = self.entries@[i].0@;
        assert(self@.contains_key(k));
        let j = choose|j: int| 0 <= j < self.entries@.len() && self.entries@[j].0@ == k;
        assert(i == j);
    }

    /// An empty store.
    pub fn new() -> (r: Self)
        ensures
            r.wf(),
            r@ == Map::<Seq<char>, Seq<char>>::empty(),
    {
        let r = MemoryStore { entries: Vec::new() };
        assert(r@ =~= Map::<Seq<char>, Seq<char>>::empty());
        r
    }

    fn find(&self, key: &str) -> (r: Option<usize>)
        requires
            self.wf(),
        ensures
            match r {
                Some(i) => i < self.entries@.len() && self.entries@[i as int].0@ == key@,
                None => !self@.contains_key(key@),
            },
    {
        let wanted = String::from_str(key);
        let mut i: usize = 0;
        while i < self.entries.len()
            invariant
                i <= self.entries@.len(),
                wanted@ == key@,
                forall|j: int| 0 <= j < i ==> self.entries@[j].0@ != key@,
            decreases self.entries@.len() - i,
        {
            if self.entries[i].0 == wanted {
                return Some(i);
            }
            i = i + 1;
        }
        None
    }

    /// The value stored under `key`, if any.
    pub fn get(&self, key: &str) -> (r: Option<String>)
        requires
            self.wf(),
        ensures
            match r {
                Some(v) => self@.contains_key(key@) && self@[key@] == v@,
                None => !self@.contains_key(key@),
            },
    {
        match self.find(key) {
            Some(i) => {
                proof {
                    self.lemma_view_at(i as int);
                }
                Some(self.entries[i].1.clone())
            },
            None => None,
        }
    }

    /// Whether `key` holds a value.
    pub fn contains(&self, key: &str) -> (r: bool)
        requires
            self.wf(),
        ensures
            r == self@.contains_key(key@),
    {
        self.find(key).is_some()
    }

    /// Writes `value` under `key` when `cond` allows it; returns whether it did.
    pub fn set(&mut self, key: &str, value: &str, cond: SetCondition) -> (r: bool)
        requires
            old(self).wf(),
        ensures
            final(self).wf(),
            r == write_allowed(cond, old(self)@.contains_key(key@)),
            final(self)@ == spec_set(old(self)@, key@, value@, cond),
    {
        let ghost m0 = self@;
        let found = self.find(key);
        let present = found.is_some();
        if !should_write(cond, present) {
            return false;
        }
        let ghost e0 = self.entries@;
        match found {
            Some(i) => {
                self.entries.set(i, (String::from_str(key), String::from_str(value)));
                proof {
                    assert(self.wf());
                    assert forall|k: Seq<char>| #[trigger] self@.contains_key(k) <==> m0.insert(key@, value@).contains_key(k) by {
                        if m0.contains_key(k) && k != key@ {
                            let j = choose|j: int| 0 <= j < e0.len() && e0[j].0@ == k;
                            assert(self.entries@[j] == e0[j]);
                        }
                        if k == key@ {
                            assert(self.entries@[i as int].0@ == k);
                        }
                        if self@.contains_key(k) {
                            let j = choose|j: int| 0 <= j < self.entries@.len() && self.entries@[j].0@ == k;
                            if j != i {
                                assert(e0[j] == self.entries@[j]);
                            }
                        }
                    }
                    assert forall|k: Seq<char>| #[trigger] self@.contains_key(k) implies self@[k] == m0.insert(key@, value@)[k] by {
                        let j = choose|j: int| 0 <= j < self.entries@.len() && self.entries@[j].0@ == k;
                        self.lemma_view_at(j);
                        if j != i {
                            assert(e0[j] == self.entries@[j]);
                            old(self).lemma_view_at(j);
                        }
                    }
                    assert(self@ =~= m0.insert(key@, value@));
                }
            },
            None => {
                self.entries.push((String::from_str(key), String::from_str(value)));
                proof {
                    let n = e0.len() as int;
                    assert(self.wf());
                    assert forall|k: Seq<char>| #[trigger] self@.contains_key(k) <==> m0.insert(key@, value@).contains_key(k) by {
                        if m0.contains_key(k) && k != key@ {
                            let j = choose|j: int| 0 <= j < e0.len() && e0[j].0@ == k;
                            assert(self.entries@[j] == e0[j]);
                        }
                        if k == key@ {
                            assert(self.entries@[n].0@ == k);
                        }
                        if self@.contains_key(k) {
                            let j = choose|j: int| 0 <= j < self.entries@.len() && self.entries@[j].0@ == k;
                            if j != n {
                                assert(e0[j] == self.entries@[j]);
                            }
                        }
                    }
                    assert forall|k: Seq<char>| #[trigger] self@.contains_key(k) implies self@[k] == m0.insert(key@, value@)[k] by {
                        let j = choose|j: int| 0 <= j < self.entries@.len() && self.entries@[j].0@ == k;
                        self.lemma_view_at(j);
                        if j != n {
                            assert(e0[j] == self.entries@[j]);
                            old(self).lemma_view_at(j);
                        }
                    }
                    assert(self@ =~= m0.insert(key@, value@));
                }
            },
        }
        true
    }

    /// Removes whatever `key` holds; a missing key is no error.
    pub fn delete(&mut self, key: &str)
        requires
            old(self).wf(),
        ensures
            final(self).wf(),
            final(self)@ == old(self)@.remove(key@),
    {
        let ghost m0 = self@;
        let ghost e0 = self.entries@;
        match self.find(key) {
            Some(i) => {
                self.entries.remove(i);
                proof {
                    assert forall|a: int, b: int| 0 <= a < b < self.entries@.len() implies self.entries@[a].0@ != self.entries@[b].0@ by {
                        let sa = if a < i { a } else { a + 1 };
                        let sb = if b < i { b } else { b + 1 };
                        assert(self.entries@[a] == e0[sa] && self.entries@[b] == e0[sb]);
                    }
                    assert(self.wf());
                    assert forall|k: Seq<char>| #[trigger] self@.contains_key(k) <==> m0.remove(key@).contains_key(k) by {
                        if m0.contains_key(k) && k != key@ {
                            let j = choose|j: int| 0 <= j < e0.len() && e0[j].0@ == k;
                            if j < i {
                                assert(self.entries@[j] == e0[j]);
                            } else {
                                assert(self.entries@[j - 1] == e0[j]);
                            }
                        }
                        if self@.contains_key(k) {
                            let j = choose|j: int| 0 <= j < self.entries@.len() && self.entries@[j].0@ == k;
                            if j < i {
                                assert(e0[j] == self.entries@[j]);
                            } else {
                                assert(e0[j + 1] == self.entries@[j]);
                            }
                        }
                    }
                    assert forall|k: Seq<char>| #[trigger] self@.contains_key(k) implies self@[k] == m0.remove(key@)[k] by {
                        let j = choose|j: int| 0 <= j < self.entries@.len() && self.entries@[j].0@ == k;
                        self.lemma_view_at(j);
                        if j < i {
                            assert(e0[j] == self.entries@[j]);
                            old(self).lemma_view_at(j);
                        } else {
                            assert(e0[j + 1] == self.entries@[j]);
                            old(self).lemma_view_at(j + 1);
                        }
                    }
                    assert(self@ =~= m0.remove(key@));
                }
            },
            None => {
                assert(self@ =~= m0.remove(key@));
            },
        }
    }

    /// Tries to take the lock marker of record `id`: writes it only when it is
    /// absent, and returns whether this call wrote it.
    pub fn acquire_lock(&mut self, id: i64) -> (r: bool)
        requires
            old(self).wf(),
        ensures
            final(self).wf(),
            r == !old(self)@.contains_key(lock_key(id as int)),
            final(self)@ == spec_set(old(self)@, lock_key(id as int), lock_sentinel(), SetCondition::OnlyIfAbsent),
    {
        let key = key_for_lock(id);
        proof {
            reveal_strlit("1");
            assert("1"@ =~= lock_sentinel());
        }
        self.set(key.as_str(), "1", SetCondition::OnlyIfAbsent)
    }

    /// Removes the lock marker of record `id`, whoever wrote it.
    pub fn release_lock(&mut self, id: i64)
        requires
            old(self).wf(),
        ensures
            final(self).wf(),
            final(self)@ == old(self)@.remove(lock_key(id as int)),
    {
        let key = key_for_lock(id);
        self.delete(key.as_str())
    }
}

} // verus!
