use vstd::prelude::*;
use crate::stampede::{
    cache_next, load_next, lock_next, wake_next, LockReply, StampedePhase, StampedeRead,
};

verus! {

/// Many stampede-guarded reads of one record that share one cache entry and
/// one lock marker, with the counts of loads from the backing store, of
/// answers served from the cache, and of population tasks not yet run.
pub struct Crowd {
    pub readers: Seq<StampedeRead>,
    pub cached: bool,
    pub locked: bool,
    pub pending: nat,
    pub loads: nat,
    pub hits: nat,
}

/// One thing that can happen next among the readers.
pub enum CrowdEvent {
    /// Reader `reader` takes the answer to its current action; a load finds
    /// the record when `found`.
    Step { reader: nat, found: bool },
    /// A population task runs and fills the cache.
    Populate,
    /// The lock marker goes away, by a release or by anyone.
    Release,
}

/// The readers and counts after `e`.
pub open spec fn crowd_step(c: Crowd, e: CrowdEvent) -> Crowd {
    match e {
        CrowdEvent::Populate => if c.pending > 0 {
            Crowd { pending: (c.pending - 1) as nat, cached: true, ..c }
        } else {
            c
        },
        CrowdEvent::Release => Crowd { locked: false, ..c },
        CrowdEvent::Step { reader, found } => if reader < c.readers.len() {
            let r = c.readers[reader as int];
            match r.phase {
                StampedePhase::CheckingCache => Crowd {
                    readers: c.readers.update(reader as int, cache_next(r, c.cached)),
                    hits: if c.cached { c.hits + 1 } else { c.hits },
                    ..c
                },
                StampedePhase::Contending => Crowd {
                    readers: c.readers.update(
                        reader as int,
                        lock_next(r, if c.locked { LockReply::Denied } else { LockReply::Granted }),
                    ),
                    locked: true,
                    ..c
                },
                StampedePhase::Sleeping => Crowd {
                    readers: c.readers.update(reader as int, wake_next(r)),
                    ..c
                },
                StampedePhase::Loading => Crowd {
                    readers: c.readers.update(reader as int, load_next(r)),
                    loads: c.loads + 1,
                    pending: if found { c.pending + 1 } else { c.pending },
                    ..c
                },
                StampedePhase::Finished => c,
            }
        } else {
            c
        },
    }
}

/// The readers and counts after the events `es`, in order.
pub open spec fn crowd_run(c: Crowd, es: Seq<CrowdEvent>) -> Crowd
    decreases es.len(),
{
    if es.len() == 0 {
        c
    } else {
        crowd_step(crowd_run(c, es.drop_last()), es.last())
    }
}

/// How many of the reads are finished.
pub open spec fn finished_count(s: Seq<StampedeRead>) -> nat
    decreases s.len(),
{
    if s.len() == 0 {
        0
    } else {
        finished_count(s.drop_last()) + if s.last().phase == StampedePhase::Finished {
            1nat
        } else {
            0nat
        }
    }
}

/// Every read is finished.
pub open spec fn all_finished(s: Seq<StampedeRead>) -> bool {
    forall|i: int| 0 <= i < s.len() ==> #[trigger] s[i].phase == StampedePhase::Finished
}

/// The crowd's state before anything happens: every reader is about to look
/// at the cache, which is empty, and nothing was loaded.
pub open spec fn crowd_start(c: Crowd) -> bool {
    &&& forall|i: int| 0 <= i < c.readers.len() ==> #[trigger] c.readers[i].phase == StampedePhase::CheckingCache
    &&& !c.cached
    &&& c.pending == 0
    &&& c.loads == 0
    &&& c.hits == 0
}

spec fn crowd_inv(c: Crowd) -> bool {
    &&& c.loads + c.hits == finished_count(c.readers)
    &&& c.pending <= c.loads
    &&& c.cached ==> c.loads >= 1
    &&& c.hits > 0 ==> c.loads >= 1
}

proof fn lemma_finished_count_update(s: Seq<StampedeRead>, i: int, x: StampedeRead)
    requires
        0 <= i < s.len(),
    ensures
        finished_count(s.update(i, x)) + (if s[i].phase == StampedePhase::Finished { 1nat } else { 0nat })
            == finished_count(s) + (if x.phase == StampedePhase::Finished { 1nat } else { 0nat }),
    decreases s.len(),
{
    let t = s.update(i, x);
    if i == s.len() - 1 {
        assert(t.drop_last() =~= s.drop_last());
    } else {
        assert(t.drop_last() =~= s.drop_last().update(i, x));
        lemma_finished_count_update(s.drop_last(), i, x);
    }
}

proof fn lemma_finished_count_bounds(s: Seq<StampedeRead>)
    ensures
        finished_count(s) <= s.len(),
        all_finished(s) ==> finished_count(s) == s.len(),
        (forall|i: int| 0 <= i < s.len() ==> #[trigger] s[i].phase != StampedePhase::Finished)
            ==> finished_count(s) == 0,
    decreases s.len(),
{
    if s.len() > 0 {
        let p = s.drop_last();
        lemma_finished_count_bounds(p);
        if all_finished(s) {
            assert forall|i: int| 0 <= i < p.len() implies #[trigger] p[i].phase == StampedePhase::Finished by {
                assert(p[i] == s[i]);
            }
        }
        if forall|i: int| 0 <= i < s.len() ==> #[trigger] s[i].phase != StampedePhase::Finished {
            assert forall|i: int| 0 <= i < p.len() implies #[trigger] p[i].phase != StampedePhase::Finished by {
                assert(p[i] == s[i]);
            }
            assert(s[s.len() - 1].phase != StampedePhase::Finished);
        }
    }
}

proof fn lemma_crowd_step_inv(c: Crowd, e: CrowdEvent)
    requires
        crowd_inv(c),
    ensures
        crowd_inv(crowd_step(c, e)),
        crowd_step(c, e).readers.len() == c.readers.len(),
{
    match e {
        CrowdEvent::Step { reader, found } => {
            if reader < c.readers.len() {
                let r = c.readers[reader as int];
                let x = match r.phase {
                    StampedePhase::CheckingCache => cache_next(r, c.cached),
                    StampedePhase::Contending => lock_next(
                        r,
                        if c.locked { LockReply::Denied } else { LockReply::Granted },
                    ),
                    StampedePhase::Sleeping => wake_next(r),
                    StampedePhase::Loading => load_next(r),
                    StampedePhase::Finished => r,
                };
                lemma_finished_count_update(c.readers, reader as int, x);
                if r.phase == StampedePhase::Finished {
                    assert(c.readers.update(reader as int, x) =~= c.readers);
                }
            }
        },
        _ => {},
    }
}

proof fn lemma_crowd_run_inv(c: Crowd, es: Seq<CrowdEvent>)
    requires
        crowd_inv(c),
    ensures
        crowd_inv(crowd_run(c, es)),
        crowd_run(c, es).readers.len() == c.readers.len(),
    decreases es.len(),
{
    if es.len() > 0 {
        lemma_crowd_run_inv(c, es.drop_last());
        lemma_crowd_step_inv(crowd_run(c, es.drop_last()), es.last());
    }
}

/// However the reads of `n` readers that all start on an empty cache
/// interleave with population tasks and lock releases, the backing store sees
/// at most `n` loads; once every read has finished it has seen at least one.
pub proof fn lemma_stampede_load_bounds(c: Crowd, es: Seq<CrowdEvent>)
    requires
        crowd_start(c),
    ensures
        crowd_run(c, es).loads <= c.readers.len(),
        all_finished(crowd_run(c, es).readers) && c.readers.len() >= 1 ==> crowd_run(c, es).loads >= 1,
{
    lemma_finished_count_bounds(c.readers);
    lemma_crowd_run_inv(c, es);
    lemma_finished_count_bounds(crowd_run(c, es).readers);
}

} // verus!
