use vstd::prelude::*;
use crate::filter::MembershipFilter;
use crate::plan::{populate_write, CacheWrite, CACHE_TTL_SECS};
use crate::store::SetCondition;

verus! {

/// Where a penetration-guarded read stands.
#[derive(Debug, Clone, Copy, PartialEq, Eq, Structural)]
pub enum PenetrationPhase {
    /// Waiting for the cache's answer.
    CheckingCache,
    /// Waiting for the backing store's answer.
    Loading,
    /// Done.
    Finished,
}

/// What the caller is to do next for a penetration-guarded read.
#[derive(Debug, Clone, Copy, PartialEq, Eq, Structural)]
pub enum PenetrationAction {
    /// The key was never written: return "not found" and touch no store.
    ReturnAbsent,
    /// Read the cache entry.
    ReadCache,
    /// Return the cached value.
    ReturnCached,
    /// Load the record from the backing store.
    Load,
    /// Return what was loaded; in the background, carry out `populate`.
    ReturnLoaded { populate: Option<CacheWrite> },
}

/// The decisions of one read that a membership filter shields from keys
/// that were never written.
#[derive(Debug, Clone, Copy, PartialEq, Eq, Structural)]
pub struct PenetrationRead {
    pub phase: PenetrationPhase,
}

impl PenetrationRead {
    /// Starts a read of `key`: a key that the filter rejects ends the read
    /// at once; any other goes on to the cache.
    pub fn start(filter: &MembershipFilter, key: &str) -> (r: (Self, PenetrationAction))
        requires
            filter.wf(),
        ensures
            !filter.all_bits_set(key@) ==> r.0.phase == PenetrationPhase::Finished
                && r.1 == PenetrationAction::ReturnAbsent,
            filter.all_bits_set(key@) ==> r.0.phase == PenetrationPhase::CheckingCache
                && r.1 == PenetrationAction::ReadCache,
            filter.inserted().contains(key@) ==> r.1 == PenetrationAction::ReadCache,
    {
        if filter.check(key) {
            (PenetrationRead { phase: PenetrationPhase::CheckingCache }, PenetrationAction::ReadCache)
        } else {
            (PenetrationRead { phase: PenetrationPhase::Finished }, PenetrationAction::ReturnAbsent)
        }
    }

    /// Takes the cache's answer: a hit ends the read, a miss goes to the backing store.
    pub fn on_cache(&mut self, hit: bool) -> (r: PenetrationAction)
        requires
            old(self).phase == PenetrationPhase::CheckingCache,
        ensures
            hit ==> r == PenetrationAction::ReturnCached && final(self).phase == PenetrationPhase::Finished,
            !hit ==> r == PenetrationAction::Load && final(self).phase == PenetrationPhase::Loading,
    {
        if hit {
            self.phase = PenetrationPhase::Finished;
            PenetrationAction::ReturnCached
        } else {
            self.phase = PenetrationPhase::Loading;
            PenetrationAction::Load
        }
    }

    /// Takes the backing store's answer, the id of the record found if any:
    /// the read ends, and a found record is written to the cache in the background.
    pub fn on_loaded(&mut self, found: Option<i64>) -> (r: PenetrationAction)
        requires
            old(self).phase == PenetrationPhase::Loading,
        ensures
            final(self).phase == PenetrationPhase::Finished,
            r == (PenetrationAction::ReturnLoaded {
                populate: match found {
                    Some(id) => Some(CacheWrite {
                        id,
                        ttl_secs: Some(CACHE_TTL_SECS),
                        condition: SetCondition::Always,
                    }),
                    None => None,
                },
            }),
    {
        self.phase = PenetrationPhase::Finished;
        let populate = match found {
            Some(id) => Some(populate_write(id)),
            None => None,
        };
        PenetrationAction::ReturnLoaded { populate }
    }
}

/// Records in the filter that `key` was durably created, so that reads of it
/// pass the filter from now on.
pub fn after_create(filter: &mut MembershipFilter, key: &str)
    requires
        old(filter).wf(),
    ensures
        final(filter).wf(),
        final(filter).inserted() == old(filter).inserted().insert(key@),
        final(filter).all_bits_set(key@),
{
    filter.insert(key)
}

} // verus!
