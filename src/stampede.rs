use vstd::prelude::*;
use crate::keys::lock_key;
use crate::plan::{populate_write, CacheWrite, CACHE_TTL_SECS};
use crate::store::{lock_sentinel, spec_set, SetCondition};

verus! {

/// Lock attempts that a read makes before it loads without the lock.
pub const MAX_LOCK_RETRIES: u32 = 100;

/// Milliseconds a read waits after its lock attempt was denied.
pub const LOCK_RETRY_MILLIS: u64 = 25;

/// Where a stampede-guarded read stands.
#[derive(Debug, Clone, Copy, PartialEq, Eq, Structural)]
pub enum StampedePhase {
    /// Waiting for the cache's answer.
    CheckingCache,
    /// Waiting for the answer to a lock attempt.
    Contending,
    /// Waiting out the pause after a denied lock attempt.
    Sleeping,
    /// Waiting for the backing store's answer.
    Loading,
    /// Done.
    Finished,
}

/// How a lock attempt went.
#[derive(Debug, Clone, Copy, PartialEq, Eq, Structural)]
pub enum LockReply {
    /// This read now holds the lock.
    Granted,
    /// Another party holds the lock.
    Denied,
    /// The lock's transport is down.
    Unavailable,
}

/// What the caller is to do next for a stampede-guarded read.
#[derive(Debug, Clone, Copy, PartialEq, Eq, Structural)]
pub enum StampedeAction {
    /// Read the cache entry.
    ReadCache,
    /// Try to take the lock marker.
    AcquireLock,
    /// Wait this many milliseconds.
    Sleep { millis: u64 },
    /// Load the record from the backing store.
    Load,
    /// Return the cached value.
    ReturnCached,
    /// Return what was loaded; in the background, carry out `populate` and
    /// then release the lock when `release_lock`.
    ReturnLoaded { populate: Option<CacheWrite>, release_lock: bool },
    /// Report the backing store's failure, releasing the lock when `release_lock`.
    Fail { release_lock: bool },
}

/// The decisions of one read of record `id` that collapses concurrent cache
/// misses into one backing-store load: the reader that takes the lock loads
/// and fills the cache; the others wait and look again, and load on their own
/// once their retries are spent.
#[derive(Debug, Clone, Copy, PartialEq, Eq, Structural)]
pub struct StampedeRead {
    pub id: i64,
    pub phase: StampedePhase,
    pub tries_left: u32,
    pub holds_lock: bool,
}

/// The read after the cache's answer.
pub open spec fn cache_next(r: StampedeRead, hit: bool) -> StampedeRead {
    StampedeRead {
        phase: if hit { StampedePhase::Finished } else { StampedePhase::Contending },
        ..r
    }
}

/// The read after the answer to its lock attempt.
pub open spec fn lock_next(r: StampedeRead, reply: LockReply) -> StampedeRead {
    match reply {
        LockReply::Granted => StampedeRead { phase: StampedePhase::Loading, holds_lock: true, ..r },
        LockReply::Unavailable => StampedeRead { phase: StampedePhase::Loading, holds_lock: false, ..r },
        LockReply::Denied => if r.tries_left == 0 {
            StampedeRead { phase: StampedePhase::Loading, holds_lock: false, ..r }
        } else {
            StampedeRead {
                phase: StampedePhase::Sleeping,
                holds_lock: false,
                tries_left: (r.tries_left - 1) as u32,
                ..r
            }
        },
    }
}

/// The read after its pause.
pub open spec fn wake_next(r: StampedeRead) -> StampedeRead {
    StampedeRead { phase: StampedePhase::CheckingCache, ..r }
}

/// The read once the backing store has answered.
pub open spec fn load_next(r: StampedeRead) -> StampedeRead {
    StampedeRead { phase: StampedePhase::Finished, ..r }
}

impl StampedeRead {
    /// An upper bound on the steps left before the read finishes; every
    /// transition lowers it, so no read waits forever.
    pub open spec fn remaining_steps(&self) -> nat {
        let rank: nat = match self.phase {
            StampedePhase::Finished => 0,
            StampedePhase::Loading => 1,
            StampedePhase::Contending => 2,
            StampedePhase::CheckingCache => 3,
            StampedePhase::Sleeping => 4,
        };
        5 * (self.tries_left as nat) + rank
    }

    /// A read of record `id` that retries its lock at most `max_retries`
    /// times; its first action is [`StampedeAction::ReadCache`].
    pub fn new(id: i64, max_retries: u32) -> (r: Self)
        ensures
            r == (StampedeRead {
                id,
                phase: StampedePhase::CheckingCache,
                tries_left: max_retries,
                holds_lock: false,
            }),
    {
        StampedeRead { id, phase: StampedePhase::CheckingCache, tries_left: max_retries, holds_lock: false }
    }

    /// Takes the cache's answer: a hit ends the read, a miss contends for the lock.
    pub fn on_cache(&mut self, hit: bool) -> (r: StampedeAction)
        requires
            old(self).phase == StampedePhase::CheckingCache,
        ensures
            *final(self) == cache_next(*old(self), hit),
            final(self).remaining_steps() < old(self).remaining_steps(),
            hit ==> r == StampedeAction::ReturnCached
                && *final(self) == (StampedeRead { phase: StampedePhase::Finished, ..*old(self) }),
            !hit ==> r == StampedeAction::AcquireLock
                && *final(self) == (StampedeRead { phase: StampedePhase::Contending, ..*old(self) }),
    {
        if hit {
            self.phase = StampedePhase::Finished;
            StampedeAction::ReturnCached
        } else {
            self.phase = StampedePhase::Contending;
            StampedeAction::AcquireLock
        }
    }

    /// Takes the answer to a lock attempt. A granted lock, or a lock whose
    /// transport is down, leads to a load; a denied one to a pause while
    /// retries remain, and to a load without the lock once they are spent.
    pub fn on_lock(&mut self, reply: LockReply) -> (r: StampedeAction)
        requires
            old(self).phase == StampedePhase::Contending,
        ensures
            *final(self) == lock_next(*old(self), reply),
            final(self).remaining_steps() < old(self).remaining_steps(),
            final(self).id == old(self).id,
            reply == LockReply::Granted ==> r == StampedeAction::Load
                && final(self).phase == StampedePhase::Loading && final(self).holds_lock
                && final(self).tries_left == old(self).tries_left,
            reply == LockReply::Unavailable ==> r == StampedeAction::Load
                && final(self).phase == StampedePhase::Loading && !final(self).holds_lock
                && final(self).tries_left == old(self).tries_left,
            reply == LockReply::Denied && old(self).tries_left == 0 ==> r == StampedeAction::Load
                && final(self).phase == StampedePhase::Loading && !final(self).holds_lock
                && final(self).tries_left == 0,
            reply == LockReply::Denied && old(self).tries_left > 0 ==> r == (StampedeAction::Sleep {
                millis: LOCK_RETRY_MILLIS,
            }) && final(self).phase == StampedePhase::Sleeping && !final(self).holds_lock
                && final(self).tries_left == old(self).tries_left - 1,
    {
        match reply {
            LockReply::Granted => {
                self.phase = StampedePhase::Loading;
                self.holds_lock = true;
                StampedeAction::Load
            },
            LockReply::Unavailable => {
                self.phase = StampedePhase::Loading;
                self.holds_lock = false;
                StampedeAction::Load
            },
            LockReply::Denied => {
                self.holds_lock = false;
                if self.tries_left == 0 {
                    self.phase = StampedePhase::Loading;
                    StampedeAction::Load
                } else {
                    self.tries_left = self.tries_left - 1;
                    self.phase = StampedePhase::Sleeping;
                    StampedeAction::Sleep { millis: LOCK_RETRY_MILLIS }
                }
            },
        }
    }

    /// The pause is over: look at the cache again.
    pub fn on_wake(&mut self) -> (r: StampedeAction)
        requires
            old(self).phase == StampedePhase::Sleeping,
        ensures
            *final(self) == wake_next(*old(self)),
            final(self).remaining_steps() < old(self).remaining_steps(),
            r == StampedeAction::ReadCache,
            *final(self) == (StampedeRead { phase: StampedePhase::CheckingCache, ..*old(self) }),
    {
        self.phase = StampedePhase::CheckingCache;
        StampedeAction::ReadCache
    }

    /// Takes the backing store's answer: the read ends; a found record is
    /// written to the cache, and a held lock released, in the background.
    pub fn on_loaded(&mut self, found: bool) -> (r: StampedeAction)
        requires
            old(self).phase == StampedePhase::Loading,
        ensures
            *final(self) == load_next(*old(self)),
            final(self).remaining_steps() < old(self).remaining_steps(),
            *final(self) == (StampedeRead { phase: StampedePhase::Finished, ..*old(self) }),
            r == (StampedeAction::ReturnLoaded {
                populate: if found {
                    Some(CacheWrite {
                        id: old(self).id,
                        ttl_secs: Some(CACHE_TTL_SECS),
                        condition: SetCondition::Always,
                    })
                } else {
                    None
                },
                release_lock: old(self).holds_lock,
            }),
    {
        self.phase = StampedePhase::Finished;
        let populate = if found {
            Some(populate_write(self.id))
        } else {
            None
        };
        StampedeAction::ReturnLoaded { populate, release_lock: self.holds_lock }
    }

    /// The backing store failed: the read ends with that failure.
    pub fn on_load_failed(&mut self) -> (r: StampedeAction)
        requires
            old(self).phase == StampedePhase::Loading,
        ensures
            *final(self) == load_next(*old(self)),
            final(self).remaining_steps() < old(self).remaining_steps(),
            *final(self) == (StampedeRead { phase: StampedePhase::Finished, ..*old(self) }),
            r == (StampedeAction::Fail { release_lock: old(self).holds_lock }),
    {
        self.phase = StampedePhase::Finished;
        StampedeAction::Fail { release_lock: self.holds_lock }
    }
}

/// The store's contents and the number of granted attempts after `n` lock
/// attempts on record `id`, one after another, with no release between them.
pub open spec fn lock_attempts(
    m: Map<Seq<char>, Seq<char>>,
    id: i64,
    n: nat,
) -> (Map<Seq<char>, Seq<char>>, nat)
    decreases n,
{
    if n == 0 {
        (m, 0)
    } else {
        let (prev, granted) = lock_attempts(m, id, (n - 1) as nat);
        let won: nat = if prev.contains_key(lock_key(id as int)) { 0 } else { 1 };
        (spec_set(prev, lock_key(id as int), lock_sentinel(), SetCondition::OnlyIfAbsent), granted + won)
    }
}

/// Of `n >= 1` lock attempts on a free lock, with no release between them,
/// exactly one is granted: the first; the lock is then held.
pub proof fn lemma_single_lock_holder(m: Map<Seq<char>, Seq<char>>, id: i64, n: nat)
    requires
        !m.contains_key(lock_key(id as int)),
        n >= 1,
    ensures
        lock_attempts(m, id, n).1 == 1,
        lock_attempts(m, id, n).0.contains_key(lock_key(id as int)),
    decreases n,
{
    if n > 1 {
        lemma_single_lock_holder(m, id, (n - 1) as nat);
    } else {
        assert(lock_attempts(m, id, 0) == (m, 0nat));
    }
}

} // verus!
