//! The store as a state machine over mathematical values.
//!
//! A [`StoreView`] is what a store holds at one moment. Each operation of
//! the store is a function from one view to the next; the executable store
//! is proved to follow these functions step by step, and the laws of the
//! store are proved about them.

use crate::cache::keyed_by_rev_id;
use crate::entities::{ContextView, PendingRevId, RevState, RevisionRange, RevisionView};
use crate::pending::{awaits, unfinished};
use vstd::prelude::*;

verus! {

/// The quiescence window of the write-back, in milliseconds: a flush fires
/// once this much time has passed since the store was last asked to save.
pub const FLUSH_DELAY_MS: u64 = 300;

/// The moment at which a flush scheduled at `now` fires. The clock stops at
/// its largest value.
pub open spec fn deadline(now: u64) -> u64 {
    if now + FLUSH_DELAY_MS > u64::MAX {
        u64::MAX
    } else {
        (now + FLUSH_DELAY_MS) as u64
    }
}

/// What a store holds at one moment.
pub struct StoreView {
    /// The document the store belongs to.
    pub doc_id: Seq<char>,
    /// The cached revisions by id.
    pub cache: Map<i64, ContextView>,
    /// The revisions that wait for their acknowledgment, oldest first.
    pub pending: Seq<PendingRevId>,
    /// When the scheduled flush fires, if one is scheduled.
    pub flush_at: Option<u64>,
    /// The ids of the batch that was handed out to be written, while what
    /// came of the write has not been reported.
    pub in_flight: Option<Set<i64>>,
}

/// One step of a store: each operation that changes it.
pub enum Step {
    /// A revision is ingested at the time `now`.
    Ingest { revision: RevisionView, now: u64 },
    /// The acknowledgment of `rev_id` arrives at the time `now`.
    Ack { rev_id: i64, now: u64 },
    /// The store is asked to save at the time `now`.
    Save { now: u64 },
    /// The timer goes off at the time `now`.
    Fire { now: u64 },
    /// What came of writing the batch in flight is reported.
    Finish { written: bool },
}

impl StoreView {
    /// The store of a document right after its creation.
    pub open spec fn init(doc_id: Seq<char>) -> StoreView {
        StoreView {
            doc_id,
            cache: Map::empty(),
            pending: Seq::empty(),
            flush_at: None,
            in_flight: None,
        }
    }

    /// The invariant of a store: every cached entry is stored under the id
    /// of its own revision.
    pub open spec fn wf(self) -> bool {
        keyed_by_rev_id(self.cache)
    }

    /// Whether nothing is cached.
    pub open spec fn idle(self) -> bool {
        self.cache.dom() =~= Set::<i64>::empty()
    }

    /// Whether a revision can be ingested: its id is not cached.
    pub open spec fn accepts(self, revision: RevisionView) -> bool {
        !self.cache.dom().contains(revision.rev_id)
    }

    /// Asking the store to save at `now`: the flush that was scheduled is
    /// cancelled, and a new one is scheduled unless nothing is cached. While
    /// a batch is in flight the new flush is scheduled all the same; it
    /// comes due only once the write is reported.
    pub open spec fn save(self, now: u64) -> StoreView {
        StoreView {
            flush_at: if self.idle() {
                None
            } else {
                Some(deadline(now))
            },
            ..self
        }
    }

    /// Ingesting an accepted revision at `now`: it is cached as not yet
    /// acknowledged, joins the end of the pending queue, and the store is
    /// asked to save.
    pub open spec fn ingest(self, revision: RevisionView, now: u64) -> StoreView {
        StoreView {
            cache: self.cache.insert(
                revision.rev_id,
                ContextView { revision, state: RevState::Local },
            ),
            pending: self.pending.push(PendingRevId { rev_id: revision.rev_id }),
            ..self
        }.save(now)
    }

    /// The cache after the acknowledgment of `rev_id`: when the queue waits
    /// for the id and its revision is still cached, the entry becomes
    /// acknowledged; otherwise nothing changes.
    pub open spec fn cache_after_ack(self, rev_id: i64) -> Map<i64, ContextView> {
        if awaits(self.pending, rev_id) && self.cache.dom().contains(rev_id) {
            self.cache.insert(rev_id, self.cache[rev_id].acked())
        } else {
            self.cache
        }
    }

    /// Acknowledging `rev_id` at `now`: the cache entry is marked, the
    /// entries waiting for the id leave the queue, and the store is asked to
    /// save.
    pub open spec fn ack(self, rev_id: i64, now: u64) -> StoreView {
        StoreView {
            cache: self.cache_after_ack(rev_id),
            pending: unfinished(self.pending, rev_id),
            ..self
        }.save(now)
    }

    /// Whether the scheduled flush is due at `now`. No flush is due while a
    /// batch is being written.
    pub open spec fn flush_due(self, now: u64) -> bool {
        &&& self.in_flight is None
        &&& self.flush_at matches Some(at)
        &&& at <= now
    }

    /// The timer going off at `now`: a due flush is taken off the schedule,
    /// and everything cached is in flight from then on; at any other moment
    /// nothing happens.
    pub open spec fn fire(self, now: u64) -> StoreView {
        if self.flush_due(now) {
            StoreView { flush_at: None, in_flight: Some(self.cache.dom()), ..self }
        } else {
            self
        }
    }

    /// The report on the write of the batch in flight: after a successful
    /// write the revisions of exactly that batch leave the cache, after a
    /// failed one they stay, and either way nothing is in flight any more.
    /// With nothing in flight the report changes nothing.
    pub open spec fn finish(self, written: bool) -> StoreView {
        match self.in_flight {
            Some(ids) => StoreView {
                cache: if written {
                    self.cache.remove_keys(ids)
                } else {
                    self.cache
                },
                in_flight: None,
                ..self
            },
            None => self,
        }
    }

    /// Whether `step` takes the revision `rev_id` out of the cache: it
    /// reports the successful write of a batch that holds the id.
    pub open spec fn evicts(self, step: Step, rev_id: i64) -> bool {
        &&& step == (Step::Finish { written: true })
        &&& self.in_flight matches Some(ids)
        &&& ids.contains(rev_id)
    }

    /// Whether `step` hands out a batch that holds the revision `rev_id`.
    pub open spec fn writes(self, step: Step, rev_id: i64) -> bool {
        &&& step matches Step::Fire { now }
        &&& self.flush_due(now)
        &&& self.cache.dom().contains(rev_id)
    }

    /// Whether `step` can be taken: a revision is ingested only while its
    /// id is not cached; every other step can always be taken.
    pub open spec fn admits(self, step: Step) -> bool {
        match step {
            Step::Ingest { revision, .. } => self.accepts(revision),
            _ => true,
        }
    }

    /// The store after `step`.
    pub open spec fn next(self, step: Step) -> StoreView {
        match step {
            Step::Ingest { revision, now } => self.ingest(revision, now),
            Step::Ack { rev_id, now } => self.ack(rev_id, now),
            Step::Save { now } => self.save(now),
            Step::Fire { now } => self.fire(now),
            Step::Finish { written } => self.finish(written),
        }
    }

    /// Whether the steps can be taken one after the other.
    pub open spec fn admits_all(self, steps: Seq<Step>) -> bool
        decreases steps.len(),
    {
        steps.len() > 0 ==> self.admits_all(steps.drop_last()) && self.run(
            steps.drop_last(),
        ).admits(steps.last())
    }

    /// The store after the steps, taken one after the other.
    pub open spec fn run(self, steps: Seq<Step>) -> StoreView
        decreases steps.len(),
    {
        if steps.len() == 0 {
            self
        } else {
            self.run(steps.drop_last()).next(steps.last())
        }
    }

    /// The store after a burst of ingestions: `revisions[i]` is ingested at
    /// the time `times[i]`.
    pub open spec fn ingest_all(self, revisions: Seq<RevisionView>, times: Seq<u64>) -> StoreView
        decreases revisions.len(),
    {
        if revisions.len() == 0 {
            self
        } else {
            self.ingest_all(revisions.drop_last(), times.drop_last()).ingest(
                revisions.last(),
                times.last(),
            )
        }
    }

    /// Whether every id of the range is cached.
    pub open spec fn covers(self, range: RevisionRange) -> bool {
        forall|id: i64| range.spec_contains(id) ==> self.cache.dom().contains(id)
    }

    /// The cached revisions of the range's ids, in ascending order of id.
    pub open spec fn range_revisions(self, range: RevisionRange) -> Seq<RevisionView> {
        Seq::new(range.spec_len(), |i: int| self.cache[(range.start + i) as i64].revision)
    }
}

} // verus!
