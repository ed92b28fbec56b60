use vstd::prelude::*;
use crate::keys::{entry_key, key_for_id};
use crate::store::{spec_set, write_allowed, MemoryStore, SetCondition};

verus! {

/// Seconds that a populated cache entry lives.
pub const CACHE_TTL_SECS: u64 = 60;

/// A write of one record's cached payload: which record, how long the entry
/// lives, and when the write may take place.
#[derive(Debug, Clone, Copy, PartialEq, Eq, Structural)]
pub struct CacheWrite {
    pub id: i64,
    pub ttl_secs: Option<u64>,
    pub condition: SetCondition,
}

/// The write that fills the cache after a load from the backing store.
pub fn populate_write(id: i64) -> (r: CacheWrite)
    ensures
        r == (CacheWrite { id, ttl_secs: Some(CACHE_TTL_SECS), condition: SetCondition::Always }),
{
    CacheWrite { id, ttl_secs: Some(CACHE_TTL_SECS), condition: SetCondition::Always }
}

/// The write that refreshes the cache after an update of the backing store:
/// it only replaces an entry that is still there, so that a delete that
/// happened meanwhile is not undone.
pub fn refresh_write(id: i64) -> (r: CacheWrite)
    ensures
        r == (CacheWrite { id, ttl_secs: Some(CACHE_TTL_SECS), condition: SetCondition::OnlyIfPresent }),
{
    CacheWrite { id, ttl_secs: Some(CACHE_TTL_SECS), condition: SetCondition::OnlyIfPresent }
}

/// The cache maintenance that follows an update of record `id` in the
/// backing store: a refresh with the new payload when the record was found.
pub fn after_update(id: i64, found: bool) -> (r: Option<CacheWrite>)
    ensures
        found ==> r == Some(refresh_plan(id)),
        !found ==> r.is_none(),
{
    if found {
        Some(refresh_write(id))
    } else {
        None
    }
}

/// The refresh write of record `id`.
pub open spec fn refresh_plan(id: i64) -> CacheWrite {
    CacheWrite { id, ttl_secs: Some(CACHE_TTL_SECS), condition: SetCondition::OnlyIfPresent }
}

/// Carries out a planned write of `payload` on an in-process store; returns
/// whether the write took place. The lifetime is left to the store's owner.
pub fn apply_write(store: &mut MemoryStore, w: &CacheWrite, payload: &str) -> (r: bool)
    requires
        old(store).wf(),
    ensures
        final(store).wf(),
        r == write_allowed(w.condition, old(store)@.contains_key(entry_key(w.id as int))),
        final(store)@ == spec_set(old(store)@, entry_key(w.id as int), payload@, w.condition),
{
    let key = key_for_id(w.id);
    store.set(key.as_str(), payload, w.condition)
}

/// Removes the cache entry of record `id` from an in-process store.
pub fn evict_entry(store: &mut MemoryStore, id: i64)
    requires
        old(store).wf(),
    ensures
        final(store).wf(),
        final(store)@ == old(store)@.remove(entry_key(id as int)),
{
    let key = key_for_id(id);
    store.delete(key.as_str())
}

/// What a cache-aside read of record `id` returns: the cached payload when
/// there is one, otherwise what the backing store holds.
pub open spec fn cache_aside_read(
    cache: Map<Seq<char>, Seq<char>>,
    backing: Map<i64, Seq<char>>,
    id: i64,
) -> Option<Seq<char>> {
    if cache.contains_key(entry_key(id as int)) {
        Some(cache[entry_key(id as int)])
    } else if backing.contains_key(id) {
        Some(backing[id])
    } else {
        None
    }
}

/// Once an update of record `id` to `payload` has reached the backing store
/// and its refresh write has run, a cache-aside read of `id` returns `payload`,
/// whatever the cache held before.
pub proof fn lemma_update_then_read(
    cache: Map<Seq<char>, Seq<char>>,
    backing: Map<i64, Seq<char>>,
    id: i64,
    payload: Seq<char>,
)
    ensures
        cache_aside_read(
            spec_set(cache, entry_key(id as int), payload, refresh_plan(id).condition),
            backing.insert(id, payload),
            id,
        ) == Some(payload),
{
}

/// A refresh write of record `id` that runs after its entry was deleted
/// leaves the entry absent.
pub proof fn lemma_refresh_after_delete(
    cache: Map<Seq<char>, Seq<char>>,
    id: i64,
    payload: Seq<char>,
)
    ensures
        !spec_set(
            cache.remove(entry_key(id as int)),
            entry_key(id as int),
            payload,
            refresh_plan(id).condition,
        ).contains_key(entry_key(id as int)),
{
}

} // verus!
