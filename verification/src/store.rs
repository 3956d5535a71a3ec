//! The revision store of one document: the cache, the pending queue and the
//! schedule of the debounced write-back, behind the operations that the
//! editor and the synchronization shell call.
//!
//! The store performs no I/O and reads no clock. The caller passes the time
//! in milliseconds of a clock that never runs backwards, does what an
//! operation's result asks for, and reports back what came of it. A store
//! is changed by one caller at a time: whoever shares it between tasks
//! guards it with a lock and holds that lock for the length of one call.
//!
//! A flush takes two calls, one that hands out the batch and one that
//! reports what came of writing it. In between the batch is in flight, and
//! the store hands out no other: no revision is ever part of two writes at
//! once, however slow the durable log is.

use crate::cache::RevisionCache;
use crate::entities::{
    revision_from_doc, spec_revision_from_doc, ContextView, Doc, PendingRevId, RevId, RevState,
    RevType, Revision, RevisionContext, RevisionRange,
};
use crate::errors::DocError;
use crate::model::{StoreView, FLUSH_DELAY_MS};
use crate::pending::{awaits, PendingQueue};
use vstd::prelude::*;

verus! {

/// What a call did to the schedule of the write-back.
#[derive(Clone, Copy, Debug, PartialEq, Eq)]
pub struct FlushTimer {
    /// The moment at which the flush that this call cancelled would have
    /// fired, if one was scheduled.
    pub cancelled: Option<u64>,
    /// The moment at which the flush that this call scheduled fires, if it
    /// scheduled one.
    pub scheduled: Option<u64>,
}

/// What an acknowledgment did.
#[derive(Clone, Copy, Debug, PartialEq, Eq)]
pub struct AckOutcome {
    /// Whether a queue entry waited for the acknowledged id. If so, who
    /// waits for this acknowledgment is to be notified, once.
    pub finished: bool,
    /// What became of the schedule of the write-back.
    pub timer: FlushTimer,
}

/// What a flush writes to the durable log in one batch.
#[derive(Debug, PartialEq, Eq)]
pub struct FlushBatch {
    /// The ids of the revisions in the batch.
    pub ids: Vec<i64>,
    /// The revisions of these ids, in the same order, each with the state it
    /// had when the batch was taken.
    pub revisions: Vec<(Revision, RevState)>,
}

impl FlushBatch {
    /// Whether the batch is a snapshot of `cache`: it holds every cached
    /// revision once, with its state, and nothing else. The order of the
    /// batch is left open.
    pub open spec fn snapshots(&self, cache: Map<i64, ContextView>) -> bool {
        &&& self.ids@.no_duplicates()
        &&& forall|id: i64|
            #![trigger self.ids@.contains(id)]
            #![trigger cache.dom().contains(id)]
            self.ids@.contains(id) <==> cache.dom().contains(id)
        &&& self.revisions@.len() == self.ids@.len()
        &&& forall|i: int|
            0 <= i < self.ids@.len() ==> (#[trigger] self.revisions@[i]).0@
                == cache[self.ids@[i]].revision && self.revisions@[i].1
                == cache[self.ids@[i]].state
    }
}

/// Where the oldest pending revision is to be read from.
#[derive(Debug, PartialEq, Eq)]
pub enum NextRevision {
    /// No revision waits for an acknowledgment.
    Idle,
    /// The oldest pending revision, from the cache.
    Cached(Revision),
    /// The oldest pending revision has left the cache: the durable log
    /// holds it under this id.
    Evicted { rev_id: i64 },
}

/// What the caller reports while a document is fetched.
#[derive(Debug, PartialEq, Eq)]
pub enum FetchEvent {
    /// The fetch starts.
    Begin,
    /// What came of reading the document's chain from the durable log and
    /// rebuilding the document from it.
    Local(Result<Doc, DocError>),
    /// What the remote peer answered.
    Remote(Result<Doc, DocError>),
    /// What came of writing the peer's snapshot `doc` to the durable log.
    Persisted { doc: Doc, outcome: Result<(), DocError> },
}

/// What the caller does next while a document is fetched.
#[derive(Debug, PartialEq, Eq)]
pub enum FetchAction {
    /// Rebuild the document `doc_id` from the durable log.
    ReadLocal { doc_id: String },
    /// Ask the remote peer for the snapshot of the document `doc_id`.
    AskRemote { doc_id: String },
    /// Write `revision` in the state `state` to the durable log, then report
    /// the outcome together with `doc`.
    Persist { doc: Doc, revision: Revision, state: RevState },
    /// The fetch is over with this result.
    Return(Result<Doc, DocError>),
}

/// The revision store of one document.
pub struct RevisionStore {
    doc_id: String,
    revs_map: RevisionCache,
    pending_revs: PendingQueue,
    delay_save: Option<u64>,
    in_flight: Option<Vec<i64>>,
}

impl View for RevisionStore {
    type V = StoreView;

    closed spec fn view(&self) -> StoreView {
        StoreView {
            doc_id: self.doc_id@,
            cache: self.revs_map@,
            pending: self.pending_revs@,
            flush_at: self.delay_save,
            in_flight: match self.in_flight {
                Some(ids) => Some(ids@.to_set()),
                None => None,
            },
        }
    }
}

impl RevisionStore {
    /// The store's invariant.
    pub open spec fn wf(&self) -> bool {
        self@.wf()
    }

    /// The store of the document `doc_id`: nothing cached, nothing pending,
    /// no flush scheduled.
    pub fn new(doc_id: &str) -> (store: RevisionStore)
        ensures
            store.wf(),
            store@ == StoreView::init(doc_id@),
    {
        RevisionStore {
            doc_id: doc_id.to_owned(),
            revs_map: RevisionCache::new(),
            pending_revs: PendingQueue::new(),
            delay_save: None,
            in_flight: None,
        }
    }

    /// Ingests a locally authored revision at the time `now`.
    ///
    /// A revision whose id is cached already is refused and the store stays
    /// as it was. Otherwise the revision is cached as not yet acknowledged,
    /// joins the end of the pending queue, and the write-back is
    /// rescheduled; the caller then announces the revision to the consumer
    /// of pending revisions and rearms its timer as the result says.
    pub fn handle_new_revision(&mut self, revision: Revision, now: u64) -> (done: Result<
        FlushTimer,
        DocError,
    >)
        requires
            old(self).wf(),
        ensures
            final(self).wf(),
            !old(self)@.accepts(revision@) ==> final(self)@ == old(self)@ && done == Err::<
                FlushTimer,
                DocError,
            >(DocError::DuplicateRevision { rev_id: revision.rev_id }),
            old(self)@.accepts(revision@) ==> final(self)@ == old(self)@.ingest(revision@, now)
                && done == Ok::<FlushTimer, DocError>(
                FlushTimer { cancelled: old(self)@.flush_at, scheduled: final(self)@.flush_at },
            ),
    {
        let rev_id = revision.rev_id;
        match self.revs_map.insert(RevisionContext::new(revision)) {
            Err(e) => Err(e),
            Ok(()) => {
                self.pending_revs.push_back(PendingRevId::new(rev_id));
                Ok(self.save_revisions(now))
            },
        }
    }

    /// Takes note at the time `now` that the peer acknowledged `rev_id`.
    ///
    /// Every queue entry that waits for the id leaves the queue, wherever it
    /// stands. If there was one and the revision is still cached, its entry
    /// becomes acknowledged, for good. The write-back is rescheduled.
    /// Acknowledging an id that nothing waits for changes neither the cache
    /// nor the queue.
    pub fn handle_revision_acked(&mut self, rev_id: RevId, now: u64) -> (done: AckOutcome)
        requires
            old(self).wf(),
        ensures
            final(self).wf(),
            final(self)@ == old(self)@.ack(rev_id.value, now),
            done == (AckOutcome {
                finished: awaits(old(self)@.pending, rev_id.value),
                timer: FlushTimer {
                    cancelled: old(self)@.flush_at,
                    scheduled: final(self)@.flush_at,
                },
            }),
    {
        let rev_id = rev_id.value;
        let finished = self.pending_revs.retain_unfinished(rev_id);
        if finished {
            self.revs_map.mark_acked(rev_id);
        }
        let timer = self.save_revisions(now);
        AckOutcome { finished, timer }
    }

    /// Reschedules the write-back at the time `now`: the flush that was
    /// scheduled is cancelled, and unless nothing is cached a new one is
    /// scheduled to fire once the quiescence window has passed.
    pub fn save_revisions(&mut self, now: u64) -> (timer: FlushTimer)
        ensures
            final(self)@ == old(self)@.save(now),
            timer == (FlushTimer {
                cancelled: old(self)@.flush_at,
                scheduled: final(self)@.flush_at,
            }),
    {
        let cancelled = self.delay_save.take();
        if self.revs_map.is_empty() {
            return FlushTimer { cancelled, scheduled: None };
        }
        let at = now.saturating_add(FLUSH_DELAY_MS);
        self.delay_save = Some(at);
        FlushTimer { cancelled, scheduled: Some(at) }
    }

    /// The timer going off at the time `now`.
    ///
    /// When the scheduled flush is due it is taken off the schedule and the
    /// result is a snapshot of the whole cache, to be written to the
    /// durable log as one batch; its revisions are in flight until
    /// [`RevisionStore::finish_flush`] reports on the write. When no flush
    /// is scheduled, when the scheduled one is not due yet, or while a batch
    /// is in flight, nothing happens, so that no revision is handed out for
    /// two writes at once. The cache itself is left alone either way.
    pub fn begin_flush(&mut self, now: u64) -> (batch: Option<FlushBatch>)
        ensures
            old(self).wf() ==> final(self).wf(),
            final(self)@ == old(self)@.fire(now),
            match batch {
                Some(taken) => old(self)@.flush_due(now) && taken.snapshots(old(self)@.cache),
                None => !old(self)@.flush_due(now),
            },
    {
        if self.in_flight.is_some() {
            return None;
        }
        match self.delay_save {
            None => {
                return None;
            },
            Some(at) => {
                if now < at {
                    return None;
                }
            },
        }
        self.delay_save = None;
        let mut entries = self.revs_map.entries();
        let ghost listed = entries@;
        let ghost n = listed.len() as int;
        let mut ids: Vec<i64> = Vec::new();
        let mut revisions: Vec<(Revision, RevState)> = Vec::new();
        while entries.len() > 0
            invariant
                n == listed.len(),
                entries@ == listed.take(entries.len() as int),
                entries.len() <= n,
                ids.len() == n - entries.len(),
                revisions.len() == ids.len(),
                forall|j: int| 0 <= j < ids.len() ==> #[trigger] ids@[j] == listed[n - 1 - j].0,
                forall|j: int|
                    0 <= j < ids.len() ==> (#[trigger] revisions@[j]).0@ == listed[n - 1
                        - j].1@.revision && revisions@[j].1 == listed[n - 1 - j].1@.state,
            decreases entries.len(),
        {
            let ghost left = entries.len() as int;
            match entries.pop() {
                Some((rev_id, context)) => {
                    assert(listed.take(left).subrange(0, left - 1) =~= listed.take(left - 1));
                    ids.push(rev_id);
                    revisions.push((context.revision, context.state));
                },
                None => {},
            }
        }
        self.in_flight = Some(ids.clone());
        let taken = FlushBatch { ids, revisions };
        proof {
            let cache = old(self)@.cache;
            assert forall|id: i64| taken.ids@.contains(id) <==> cache.dom().contains(id) by {
                if taken.ids@.contains(id) {
                    let j = choose|j: int| 0 <= j < taken.ids@.len() && taken.ids@[j] == id;
                    assert(cache.dom().contains(listed[n - 1 - j].0));
                }
                if cache.dom().contains(id) {
                    let i = choose|i: int| 0 <= i < listed.len() && listed[i].0 == id;
                    assert(taken.ids@[n - 1 - i] == id);
                }
            }
            assert forall|i: int| 0 <= i < taken.ids@.len() implies (
            #[trigger] taken.revisions@[i]).0@ == cache[taken.ids@[i]].revision
                && taken.revisions@[i].1 == cache[taken.ids@[i]].state by {
                assert(cache.dom().contains(listed[n - 1 - i].0));
            }
            assert(taken.ids@.to_set() =~= cache.dom());
        }
        Some(taken)
    }

    /// Takes note of what came of writing the batch that
    /// [`RevisionStore::begin_flush`] handed out last.
    ///
    /// After a successful write the revisions of exactly that batch leave
    /// the cache, since the durable log now holds them; revisions ingested
    /// since the batch was taken stay. After a failed write the cache stays
    /// as it is, and the next flush writes these revisions again. Either way
    /// nothing is in flight any more. The result is the moment at which the
    /// flush fires that was scheduled meanwhile, if one was: the caller sees
    /// to it that its timer goes off then. With nothing in flight the call
    /// changes nothing.
    pub fn finish_flush(&mut self, written: bool) -> (scheduled: Option<u64>)
        requires
            old(self).wf(),
        ensures
            final(self).wf(),
            final(self)@ == old(self)@.finish(written),
            scheduled == final(self)@.flush_at,
    {
        match self.in_flight.take() {
            Some(ids) => {
                if written {
                    self.revs_map.evict(&ids);
                }
            },
            None => {},
        }
        self.delay_save
    }

    /// The revisions of the range's ids in ascending order, if the cache
    /// holds every one of them. With even one id missing the result is
    /// `None`, and the whole range is to be read from the durable log.
    pub fn revs_in_range(&self, range: &RevisionRange) -> (cached: Option<Vec<Revision>>)
        ensures
            match cached {
                Some(revisions) => self@.covers(*range) && revisions.deep_view()
                    == self@.range_revisions(*range),
                None => !self@.covers(*range),
            },
    {
        let mut revisions: Vec<Revision> = Vec::new();
        if range.end < range.start {
            assert(revisions.deep_view() =~= self@.range_revisions(*range));
            return Some(revisions);
        }
        let mut rev_id: i64 = range.start;
        loop
            invariant_except_break
                revisions.len() == rev_id - range.start,
            invariant
                range.start <= rev_id <= range.end,
                forall|id: i64| range.start <= id < rev_id ==> self@.cache.dom().contains(id),
                forall|j: int|
                    0 <= j < revisions.len() ==> (#[trigger] revisions@[j])@
                        == self@.cache[(range.start + j) as i64].revision,
            ensures
                rev_id == range.end,
                revisions.len() == range.spec_len(),
                forall|id: i64| range.start <= id <= rev_id ==> self@.cache.dom().contains(id),
                forall|j: int|
                    0 <= j < revisions.len() ==> (#[trigger] revisions@[j])@
                        == self@.cache[(range.start + j) as i64].revision,
            decreases range.end - rev_id,
        {
            match self.revs_map.get(rev_id) {
                None => {
                    assert(range.spec_contains(rev_id));
                    return None;
                },
                Some(context) => {
                    revisions.push(context.revision);
                },
            }
            if rev_id == range.end {
                break ;
            }
            rev_id = rev_id + 1;
        }
        assert(revisions.deep_view() =~= self@.range_revisions(*range));
        Some(revisions)
    }

    /// Where the revision that has waited longest for its acknowledgment is
    /// to be read from: the cache hands it out; once it has left the cache
    /// the durable log holds it.
    pub fn next(&self) -> (oldest: NextRevision)
        ensures
            match oldest {
                NextRevision::Idle => self@.pending.len() == 0,
                NextRevision::Cached(revision) => self@.pending.len() > 0
                    && self@.cache.dom().contains(self@.pending[0].rev_id) && revision@
                    == self@.cache[self@.pending[0].rev_id].revision,
                NextRevision::Evicted { rev_id } => self@.pending.len() > 0 && rev_id
                    == self@.pending[0].rev_id && !self@.cache.dom().contains(rev_id),
            },
    {
        match self.pending_revs.front() {
            None => NextRevision::Idle,
            Some(pending) => match self.revs_map.get(pending.rev_id) {
                None => NextRevision::Evicted { rev_id: pending.rev_id },
                Some(context) => NextRevision::Cached(context.revision),
            },
        }
    }

    /// One step of fetching the document: from what the caller reports to
    /// what it does next.
    ///
    /// The document is rebuilt from the durable log first. When the log
    /// could not be read, the fetch ends with that storage error. When the
    /// log holds no chain for the document, or its chain could not be
    /// composed, the remote peer is asked; its snapshot is written to the
    /// log as one acknowledged revision of remote origin before it is
    /// returned. An error of the peer, or of that write, ends the fetch as
    /// it is.
    pub fn fetch_document(&self, event: FetchEvent) -> (action: FetchAction)
        ensures
            match event {
                FetchEvent::Begin => action matches FetchAction::ReadLocal { doc_id }
                    && doc_id@ == self@.doc_id,
                FetchEvent::Local(Ok(doc)) => action == FetchAction::Return(Ok(doc)),
                FetchEvent::Local(Err(e)) => if e is Storage {
                    action == FetchAction::Return(Err(e))
                } else {
                    action matches FetchAction::AskRemote { doc_id } && doc_id@ == self@.doc_id
                },
                FetchEvent::Remote(Ok(doc)) => action matches FetchAction::Persist {
                    doc: fetched,
                    revision,
                    state,
                } && fetched == doc && revision@ == spec_revision_from_doc(doc@, RevType::Remote)
                    && state == RevState::Acked,
                FetchEvent::Remote(Err(e)) => action == FetchAction::Return(Err(e)),
                FetchEvent::Persisted { doc, outcome: Ok(_) } => action == FetchAction::Return(
                    Ok(doc),
                ),
                FetchEvent::Persisted { doc, outcome: Err(e) } => action == FetchAction::Return(
                    Err(e),
                ),
            },
    {
        match event {
            FetchEvent::Begin => FetchAction::ReadLocal { doc_id: self.doc_id.clone() },
            FetchEvent::Local(Ok(doc)) => FetchAction::Return(Ok(doc)),
            FetchEvent::Local(Err(DocError::Storage { msg })) => FetchAction::Return(
                Err(DocError::Storage { msg }),
            ),
            FetchEvent::Local(Err(_)) => FetchAction::AskRemote { doc_id: self.doc_id.clone() },
            FetchEvent::Remote(Ok(doc)) => {
                let revision = revision_from_doc(doc.clone(), RevType::Remote);
                FetchAction::Persist { doc, revision, state: RevState::Acked }
            },
            FetchEvent::Remote(Err(e)) => FetchAction::Return(Err(e)),
            FetchEvent::Persisted { doc, outcome: Ok(_) } => FetchAction::Return(Ok(doc)),
            FetchEvent::Persisted { doc, outcome: Err(e) } => FetchAction::Return(Err(e)),
        }
    }
}

} // verus!
