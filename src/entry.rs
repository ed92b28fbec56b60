use vstd::prelude::*;

verus! {

/// A borrowed handle on a key owned elsewhere. Two handles compare and hash
/// by the keys they point at, never by address; the borrow keeps the key
/// alive for as long as the handle exists.
#[derive(Debug, Clone, Copy, PartialEq, Eq, Hash)]
pub struct KeyRef<'a, K> {
    k: &'a K,
}

impl<'a, K> KeyRef<'a, K> {
    /// A handle on `k`.
    pub fn new(k: &'a K) -> (r: Self)
        ensures
            *r.key() == *k,
    {
        KeyRef { k }
    }

    /// The key this handle points at.
    pub closed spec fn key(&self) -> &'a K {
        self.k
    }

    /// The key this handle points at.
    pub fn get(&self) -> (r: &'a K)
        ensures
            *r == *self.key(),
    {
        self.k
    }
}

/// Hook invoked with the entry that a container evicts.
pub trait OnEvictCallback {
    fn on_evict<K, V>(&self, key: &K, val: &V);
}

/// Eviction hook that does nothing.
#[derive(Debug, Clone, Copy)]
pub struct DefaultEvictCallback;

impl OnEvictCallback for DefaultEvictCallback {
    fn on_evict<K, V>(&self, key: &K, val: &V) {
    }
}

/// What happened when an entry was put into a container.
#[derive(Debug, PartialEq, Eq)]
pub enum PutResult<K, V> {
    /// The key was absent and the container had room for a new entry.
    Put,
    /// The key was present; its previous value is returned.
    Update(V),
    /// The key was absent and the container was full: this entry was evicted.
    Evicted { key: K, value: V },
    /// An update in one queue evicted an entry from another.
    EvictedAndUpdate { evicted: (K, V), update: V },
}

impl<K: Clone, V: Clone> Clone for PutResult<K, V> {
    fn clone(&self) -> Self {
        match self {
            PutResult::Put => PutResult::Put,
            PutResult::Update(v) => PutResult::Update(v.clone()),
            PutResult::Evicted { key, value } => PutResult::Evicted {
                key: key.clone(),
                value: value.clone(),
            },
            PutResult::EvictedAndUpdate { evicted, update } => PutResult::EvictedAndUpdate {
                evicted: (evicted.0.clone(), evicted.1.clone()),
                update: update.clone(),
            },
        }
    }
}

impl<K: Copy, V: Copy> Copy for PutResult<K, V> {
}

} // verus!
