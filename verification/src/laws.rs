//! The laws of the store, proved about the state machine that the
//! executable store follows.

use crate::entities::{
    spec_revision_from_doc, ContextView, DocView, RevState, RevType, RevisionRange, RevisionView,
};
use crate::errors::DocErrorView;
use crate::model::{deadline, Step, StoreView};
use crate::pending::{
    awaits, lemma_unfinished, lemma_unfinished_drops_front, lemma_unfinished_keeps_front,
    unfinished,
};
use crate::replay::{ReplayActionView, ReplayEventView, ReplayView};
use vstd::prelude::*;

verus! {

/// Every step keeps the store's invariant.
pub proof fn law_steps_keep_invariant(s: StoreView, step: Step)
    requires
        s.wf(),
        s.admits(step),
    ensures
        s.next(step).wf(),
{
}

/// No duplicate ingestion: once a revision is ingested, a second revision
/// with the same id is not accepted, whatever it holds, and the cache holds
/// the first one, under its id, beside what it held before.
pub proof fn law_no_duplicate_ingestion(
    s: StoreView,
    first: RevisionView,
    second: RevisionView,
    t: u64,
)
    requires
        s.accepts(first),
        second.rev_id == first.rev_id,
    ensures
        !s.ingest(first, t).accepts(second),
        s.ingest(first, t).cache[first.rev_id] == (ContextView {
            revision: first,
            state: RevState::Local,
        }),
        s.ingest(first, t).cache.dom() == s.cache.dom().insert(first.rev_id),
        forall|id: i64|
            s.cache.dom().contains(id) ==> #[trigger] s.ingest(first, t).cache[id] == s.cache[id],
{
}

/// Acknowledgment is for good, step by step: an entry that is acknowledged
/// and still cached after a step is the same acknowledged entry.
pub proof fn law_acked_survives_step(s: StoreView, step: Step, rev_id: i64)
    requires
        s.admits(step),
        s.cache.dom().contains(rev_id),
        s.cache[rev_id].state == RevState::Acked,
        s.next(step).cache.dom().contains(rev_id),
    ensures
        s.next(step).cache[rev_id] == s.cache[rev_id],
{
}

/// Whether no step of the run takes `rev_id` out of the cache.
pub open spec fn never_evicts(s: StoreView, steps: Seq<Step>, rev_id: i64) -> bool {
    forall|p: int|
        0 <= p < steps.len() ==> !(#[trigger] s.run(steps.take(p))).evicts(steps[p], rev_id)
}

/// Acknowledgment is for good: whatever happens to the store, an
/// acknowledged entry stays cached and acknowledged until the successful
/// write of a batch that holds it evicts it.
pub proof fn law_acked_forever(s: StoreView, steps: Seq<Step>, rev_id: i64)
    requires
        s.admits_all(steps),
        s.cache.dom().contains(rev_id),
        s.cache[rev_id].state == RevState::Acked,
        never_evicts(s, steps, rev_id),
    ensures
        s.run(steps).cache.dom().contains(rev_id),
        s.run(steps).cache[rev_id] == s.cache[rev_id],
    decreases steps.len(),
{
    if steps.len() > 0 {
        let before = steps.drop_last();
        let step = steps.last();
        assert forall|p: int| 0 <= p < before.len() implies !(#[trigger] s.run(
            before.take(p),
        )).evicts(before[p], rev_id) by {
            assert(before.take(p) =~= steps.take(p));
            assert(!s.run(steps.take(p)).evicts(steps[p], rev_id));
        }
        law_acked_forever(s, before, rev_id);
        let mid = s.run(before);
        assert(steps.take(steps.len() - 1) =~= before);
        assert(!s.run(steps.take(steps.len() - 1)).evicts(steps[steps.len() - 1], rev_id));
        law_only_eviction_drops(mid, step, rev_id);
        law_acked_survives_step(mid, step, rev_id);
    }
}

/// A second acknowledgment of the same id is a no-op: it changes neither
/// the cache nor the queue.
pub proof fn law_second_ack_is_noop(s: StoreView, rev_id: i64, t1: u64, t2: u64)
    ensures
        s.ack(rev_id, t1).ack(rev_id, t2).cache == s.ack(rev_id, t1).cache,
        s.ack(rev_id, t1).ack(rev_id, t2).pending == s.ack(rev_id, t1).pending,
{
    lemma_unfinished(s.pending, rev_id);
    lemma_unfinished(unfinished(s.pending, rev_id), rev_id);
}

/// Acknowledging an id that no queue entry waits for changes neither the
/// cache nor the queue.
pub proof fn law_unknown_ack_is_noop(s: StoreView, rev_id: i64, t: u64)
    requires
        !awaits(s.pending, rev_id),
    ensures
        s.ack(rev_id, t).cache == s.cache,
        s.ack(rev_id, t).pending == s.pending,
{
    lemma_unfinished(s.pending, rev_id);
}

/// Acknowledgments may arrive in any order: the acknowledgment of one id
/// takes exactly the entries of that id out of the queue and leaves every
/// other revision waiting.
pub proof fn law_ack_leaves_others_pending(s: StoreView, acked: i64, other: i64, t: u64)
    requires
        other != acked,
    ensures
        !awaits(s.ack(acked, t).pending, acked),
        awaits(s.ack(acked, t).pending, other) == awaits(s.pending, other),
{
    lemma_unfinished(s.pending, acked);
}

/// No revision is lost: the only step that takes a revision out of the
/// cache is the report that a batch which the store itself handed out, and
/// which holds the revision, was written. Until then the revision itself is
/// never altered.
pub proof fn law_only_eviction_drops(s: StoreView, step: Step, rev_id: i64)
    requires
        s.admits(step),
        s.cache.dom().contains(rev_id),
        !s.evicts(step, rev_id),
    ensures
        s.next(step).cache.dom().contains(rev_id),
        s.next(step).cache[rev_id].revision == s.cache[rev_id].revision,
{
}

/// Pending revisions are served in order: the revision that has waited
/// longest stays at the front of the queue until its own acknowledgment
/// arrives, whatever else is ingested or acknowledged meanwhile.
pub proof fn law_front_waits_for_its_ack(s: StoreView, step: Step)
    requires
        s.pending.len() > 0,
        !(step matches Step::Ack { rev_id, .. } && rev_id == s.pending[0].rev_id),
    ensures
        s.next(step).pending.len() > 0,
        s.next(step).pending[0] == s.pending[0],
{
    if let Step::Ack { rev_id, .. } = step {
        lemma_unfinished_keeps_front(s.pending, rev_id);
    }
}

/// The queue is first in, first out: while each pending id waits once, the
/// acknowledgment of the oldest pending revision takes out that entry alone
/// and makes the one ingested next the oldest.
pub proof fn law_queue_is_fifo(s: StoreView, t: u64)
    requires
        s.pending.len() > 0,
        s.pending.no_duplicates(),
    ensures
        s.ack(s.pending[0].rev_id, t).pending == s.pending.drop_first(),
{
    lemma_unfinished_drops_front(s.pending);
}

/// Whether the times are those of one burst: they never run backwards, and
/// each comes before the flush scheduled at the one before it would fire.
pub open spec fn is_burst(times: Seq<u64>) -> bool {
    forall|i: int|
        0 <= i < times.len() - 1 ==> times[i] <= #[trigger] times[i + 1] && times[i + 1] < deadline(
            times[i],
        )
}

/// Whether the revisions can be ingested one after the other: their ids
/// differ from one another and none is cached.
pub open spec fn fresh_ids(s: StoreView, revisions: Seq<RevisionView>) -> bool {
    &&& forall|i: int| 0 <= i < revisions.len() ==> s.accepts(#[trigger] revisions[i])
    &&& forall|i: int, j: int|
        0 <= i < j < revisions.len() ==> (#[trigger] revisions[i]).rev_id != (
        #[trigger] revisions[j]).rev_id
}

/// What a burst of ingestions leaves behind: every revision of the burst is
/// cached, not yet acknowledged; what was cached before is untouched; and
/// one flush is scheduled, a quiescence window after the last ingestion.
pub proof fn lemma_burst(s: StoreView, revisions: Seq<RevisionView>, times: Seq<u64>)
    requires
        revisions.len() == times.len(),
        revisions.len() > 0,
        fresh_ids(s, revisions),
    ensures
        s.ingest_all(revisions, times).flush_at == Some(deadline(times.last())),
        s.ingest_all(revisions, times).in_flight == s.in_flight,
        forall|i: int|
            0 <= i < revisions.len() ==> s.ingest_all(revisions, times).cache.dom().contains(
                (#[trigger] revisions[i]).rev_id,
            ) && s.ingest_all(revisions, times).cache[revisions[i].rev_id] == (ContextView {
                revision: revisions[i],
                state: RevState::Local,
            }),
        s.cache.submap_of(s.ingest_all(revisions, times).cache),
        forall|id: i64| #[trigger]
            s.ingest_all(revisions, times).cache.dom().contains(id) ==> s.cache.dom().contains(id)
                || exists|i: int| 0 <= i < revisions.len() && #[trigger] revisions[i].rev_id == id,
    decreases revisions.len(),
{
    let head = revisions.drop_last();
    let head_times = times.drop_last();
    let last = revisions.last();
    let mid = s.ingest_all(head, head_times);
    let end = s.ingest_all(revisions, times);
    assert(end == mid.ingest(last, times.last()));
    assert(last == revisions[revisions.len() - 1]);
    if head.len() > 0 {
        assert(fresh_ids(s, head)) by {
            assert forall|i: int| 0 <= i < head.len() implies s.accepts(#[trigger] head[i]) by {
                assert(head[i] == revisions[i]);
            }
            assert forall|i: int, j: int| 0 <= i < j < head.len() implies (#[trigger] head[i]).rev_id != (
            #[trigger] head[j]).rev_id by {
                assert(head[i] == revisions[i]);
                assert(head[j] == revisions[j]);
            }
        }
        lemma_burst(s, head, head_times);
        assert forall|i: int| 0 <= i < revisions.len() implies end.cache.dom().contains(
            (#[trigger] revisions[i]).rev_id,
        ) && end.cache[revisions[i].rev_id] == (ContextView {
            revision: revisions[i],
            state: RevState::Local,
        }) by {
            if i < head.len() {
                assert(head[i] == revisions[i]);
                assert(revisions[i].rev_id != last.rev_id);
            }
        }
        assert forall|id: i64| #[trigger] end.cache.dom().contains(id) implies s.cache.dom().contains(
            id,
        ) || exists|i: int| 0 <= i < revisions.len() && #[trigger] revisions[i].rev_id == id by {
            if id == last.rev_id {
                assert(revisions[revisions.len() - 1].rev_id == id);
            } else {
                assert(mid.cache.dom().contains(id));
                if !s.cache.dom().contains(id) {
                    let i = choose|i: int| 0 <= i < head.len() && #[trigger] head[i].rev_id == id;
                    assert(revisions[i].rev_id == id);
                }
            }
        }
    } else {
        assert(mid == s);
        assert forall|i: int| 0 <= i < revisions.len() implies end.cache.dom().contains(
            (#[trigger] revisions[i]).rev_id,
        ) && end.cache[revisions[i].rev_id] == (ContextView {
            revision: revisions[i],
            state: RevState::Local,
        }) by {
            assert(i == 0);
        }
        assert forall|id: i64| #[trigger] end.cache.dom().contains(id) implies s.cache.dom().contains(
            id,
        ) || exists|i: int| 0 <= i < revisions.len() && #[trigger] revisions[i].rev_id == id by {
            if id == last.rev_id {
                assert(revisions[0].rev_id == id);
            }
        }
    }
    assert(s.accepts(revisions[revisions.len() - 1]));
    assert(s.cache.submap_of(mid.cache));
    assert(end.cache.dom().contains(last.rev_id));
    assert(!end.idle());
}

/// Debounce, during a burst: between two ingestions of a burst no flush
/// comes due, so nothing is written while the burst lasts. Here `k`
/// revisions of the burst have been ingested and `t` is any moment from the
/// last of these ingestions up to the next one.
pub proof fn law_no_flush_during_burst(
    s: StoreView,
    revisions: Seq<RevisionView>,
    times: Seq<u64>,
    k: int,
    t: u64,
)
    requires
        revisions.len() == times.len(),
        fresh_ids(s, revisions),
        is_burst(times),
        0 < k < revisions.len(),
        times[k - 1] <= t <= times[k],
    ensures
        !s.ingest_all(revisions.take(k), times.take(k)).flush_due(t),
{
    let head = revisions.take(k);
    assert(fresh_ids(s, head)) by {
        assert forall|i: int| 0 <= i < head.len() implies s.accepts(#[trigger] head[i]) by {
            assert(head[i] == revisions[i]);
        }
        assert forall|i: int, j: int| 0 <= i < j < head.len() implies (#[trigger] head[i]).rev_id != (
        #[trigger] head[j]).rev_id by {
            assert(head[i] == revisions[i]);
            assert(head[j] == revisions[j]);
        }
    }
    lemma_burst(s, head, times.take(k));
    assert(times.take(k).last() == times[k - 1]);
    assert(times[k - 1 + 1] < deadline(times[k - 1]));
}

/// Debounce coalescing: after the last ingestion of a burst one flush is
/// scheduled, a quiescence window after that ingestion. Until then nothing
/// is due; from then on the flush is due, unless an earlier batch is still
/// being written; its batch is the whole cache, which holds every revision
/// of the burst; and once the timer has gone off for it nothing is due any
/// more: the burst is written in one batch.
pub proof fn law_debounce_coalesces(
    s: StoreView,
    revisions: Seq<RevisionView>,
    times: Seq<u64>,
    t: u64,
    later: u64,
)
    requires
        revisions.len() == times.len(),
        revisions.len() > 0,
        fresh_ids(s, revisions),
    ensures
        s.ingest_all(revisions, times).flush_due(t) <==> s.in_flight is None && deadline(
            times.last(),
        ) <= t,
        forall|i: int|
            0 <= i < revisions.len() ==> s.ingest_all(revisions, times).cache.dom().contains(
                (#[trigger] revisions[i]).rev_id,
            ) && s.ingest_all(revisions, times).cache[revisions[i].rev_id] == (ContextView {
                revision: revisions[i],
                state: RevState::Local,
            }),
        s.ingest_all(revisions, times).flush_due(t) ==> !s.ingest_all(revisions, times).fire(
            t,
        ).flush_due(later),
{
    lemma_burst(s, revisions, times);
}

/// Rescheduling cancels: after the store was asked to save at `now`, the
/// flush that was scheduled before is gone. Whatever is scheduled fires a
/// full quiescence window after `now`, and not before.
pub proof fn law_rescheduling_cancels(s: StoreView, now: u64, t: u64)
    ensures
        s.save(now).flush_due(t) ==> deadline(now) <= t,
        s.save(now).flush_at is Some ==> s.save(now).flush_at == Some(deadline(now)),
{
}

/// A scheduled flush fires once: when the timer has gone off for a due
/// flush, everything cached is in flight, and no flush is due any more, at
/// whatever time.
pub proof fn law_flush_fires_once(s: StoreView, now: u64, later: u64)
    requires
        s.flush_due(now),
    ensures
        s.fire(now).flush_at is None,
        s.fire(now).in_flight == Some(s.cache.dom()),
        !s.fire(now).flush_due(later),
        s.fire(now).cache == s.cache,
{
}

/// No flush overlaps a write: while a batch is in flight no flush is due,
/// at whatever time, and nothing but the report on its write ends that. A
/// flush scheduled meanwhile waits for the report.
pub proof fn law_no_flush_while_writing(s: StoreView, step: Step, t: u64)
    requires
        s.in_flight is Some,
        !(step is Finish),
    ensures
        !s.flush_due(t),
        s.next(step).in_flight == s.in_flight,
        !s.next(step).flush_due(t),
{
}

/// The report on a write settles its batch: after a successful write the
/// cache holds none of the batch's revisions and every other revision as
/// before; after a failed write the cache is as it was; either way nothing
/// is in flight. A report with nothing in flight changes nothing.
pub proof fn law_report_settles_batch(s: StoreView, written: bool, rev_id: i64)
    ensures
        s.finish(written).in_flight is None,
        s.in_flight is None ==> s.finish(written) == s,
        s.finish(false).cache == s.cache,
        s.in_flight matches Some(ids) ==> (ids.contains(rev_id) ==> !s.finish(
            true,
        ).cache.dom().contains(rev_id)) && (!ids.contains(rev_id) && s.cache.dom().contains(rev_id)
            ==> s.finish(true).cache.dom().contains(rev_id) && s.finish(true).cache[rev_id]
            == s.cache[rev_id]),
{
}

/// Whether the step `k` lets a revision that was handed out at the step `i`
/// be handed out again: it is the first report after `i` and says that the
/// write failed, or it ingests the id anew.
pub open spec fn excuses(steps: Seq<Step>, i: int, k: int, rev_id: i64) -> bool {
    ||| steps[k] == (Step::Finish { written: false }) && forall|m: int|
        i < m < k ==> !((#[trigger] steps[m]) is Finish)
    ||| steps[k] matches Step::Ingest { revision, .. } && revision.rev_id == rev_id
}

/// Whether some step between `i` and `p` excuses a second write of `rev_id`.
pub open spec fn excused(steps: Seq<Step>, i: int, p: int, rev_id: i64) -> bool {
    exists|k: int| i < k < p && #[trigger] excuses(steps, i, k, rev_id)
}

/// What holds of a revision at any moment after it was handed out in a
/// batch: it is still in flight and no report has come, or it has left the
/// cache, or a second write of it is excused.
proof fn lemma_after_batch(s: StoreView, steps: Seq<Step>, i: int, p: int, rev_id: i64)
    requires
        0 <= i < p <= steps.len(),
        s.run(steps.take(i)).writes(steps[i], rev_id),
    ensures
        excused(steps, i, p, rev_id) || !s.run(steps.take(p)).cache.dom().contains(rev_id) || (
        s.run(steps.take(p)).in_flight matches Some(ids) && ids.contains(rev_id) && forall|m: int|
            i < m < p ==> !((#[trigger] steps[m]) is Finish)),
    decreases p - i,
{
    let q = p - 1;
    let before = s.run(steps.take(q));
    let step = steps[q];
    assert(steps.take(p).drop_last() =~= steps.take(q));
    assert(steps.take(p).last() == step);
    assert(s.run(steps.take(p)) == before.next(step));
    if q > i {
        lemma_after_batch(s, steps, i, q, rev_id);
        if excused(steps, i, q, rev_id) {
            let k = choose|k: int| i < k < q && #[trigger] excuses(steps, i, k, rev_id);
            assert(excuses(steps, i, k, rev_id));
        } else if step matches Step::Ingest { revision, .. } && revision.rev_id == rev_id {
            assert(excuses(steps, i, q, rev_id));
        } else if before.cache.dom().contains(rev_id) {
            if step == (Step::Finish { written: false }) {
                assert(excuses(steps, i, q, rev_id));
            }
        }
    }
}

/// No revision is written twice: when two batches of a run hold the same
/// revision, then between them the write of the first batch was reported as
/// failed, or the revision was ingested anew, which the store admits only
/// once the first write has evicted it. A flush that comes due while a
/// batch is being written hands out nothing.
pub proof fn law_no_id_in_two_batches(
    s: StoreView,
    steps: Seq<Step>,
    i: int,
    j: int,
    rev_id: i64,
)
    requires
        0 <= i < j < steps.len(),
        s.run(steps.take(i)).writes(steps[i], rev_id),
        s.run(steps.take(j)).writes(steps[j], rev_id),
    ensures
        excused(steps, i, j, rev_id),
{
    lemma_after_batch(s, steps, i, j, rev_id);
}

/// Whether `stored` is what the durable log answers for the range: one
/// revision for each id of the range, in ascending order of id.
pub open spec fn fills(stored: Seq<RevisionView>, range: RevisionRange) -> bool {
    &&& stored.len() == range.spec_len()
    &&& forall|i: int| 0 <= i < stored.len() ==> (#[trigger] stored[i]).rev_id == range.start + i
}

/// Whether cache and durable log agree: where both hold a revision of the
/// range, it is the same revision.
pub open spec fn agrees(s: StoreView, stored: Seq<RevisionView>, range: RevisionRange) -> bool {
    forall|i: int|
        0 <= i < stored.len() && s.cache.dom().contains((range.start + i) as i64) ==> s.cache[(
        range.start + i) as i64].revision == #[trigger] stored[i]
}

/// Range read fallback: when a range is read from the cache, the result is
/// what the durable log would have answered for it. So a read that falls
/// back to the log because one id has left the cache returns what the fast
/// path would have returned.
pub proof fn law_range_fallback_agrees(s: StoreView, range: RevisionRange, stored: Seq<RevisionView>)
    requires
        fills(stored, range),
        agrees(s, stored, range),
        s.covers(range),
    ensures
        s.range_revisions(range) == stored,
{
    assert forall|i: int| 0 <= i < stored.len() implies s.range_revisions(range)[i] == stored[i] by {
        assert(range.spec_contains((range.start + i) as i64));
    }
    assert(s.range_revisions(range) =~= stored);
}

/// What a range read from the cache holds: one revision for each id of the
/// range, in ascending order of id.
pub proof fn law_cached_range_is_ordered(s: StoreView, range: RevisionRange)
    requires
        s.wf(),
        s.covers(range),
    ensures
        fills(s.range_revisions(range), range),
{
    assert forall|i: int| 0 <= i < s.range_revisions(range).len() implies (
    #[trigger] s.range_revisions(range)[i]).rev_id == range.start + i by {
        assert(range.spec_contains((range.start + i) as i64));
    }
}

/// Whether every report says that a payload was composed or passed over.
pub open spec fn all_applied(events: Seq<ReplayEventView>) -> bool {
    forall|i: int|
        0 <= i < events.len() ==> (#[trigger] events[i]) is Composed || events[i] is Undecodable
}

/// The ids of the revisions whose payload was reported as undecodable, when
/// `events[i]` is the report on `chain[i]`.
pub open spec fn passed_over(chain: Seq<RevisionView>, events: Seq<ReplayEventView>) -> Seq<i64>
    decreases events.len(),
{
    if events.len() == 0 {
        Seq::empty()
    } else {
        let before = passed_over(chain, events.drop_last());
        if events.last() is Undecodable {
            before.push(chain[events.len() - 1].rev_id)
        } else {
            before
        }
    }
}

/// A replay follows its chain: as long as the caller reports payloads as
/// composed or undecodable, the payloads are offered one by one in chain
/// order, each once, the ids of the undecodable ones are kept, and when the
/// chain is used up the content is asked for.
pub proof fn law_replay_follows_chain(
    doc_id: Seq<char>,
    chain: Seq<RevisionView>,
    events: Seq<ReplayEventView>,
)
    requires
        events.len() <= chain.len(),
        all_applied(events),
    ensures
        ReplayView::start(doc_id, chain).run(events).cursor == events.len(),
        ReplayView::start(doc_id, chain).run(events).outcome is None,
        ReplayView::start(doc_id, chain).run(events).chain == chain,
        ReplayView::start(doc_id, chain).run(events).skipped == passed_over(chain, events),
        ReplayView::start(doc_id, chain).run(events).action() == if events.len() < chain.len() {
            ReplayActionView::Apply(chain[events.len() as int].delta_data)
        } else {
            ReplayActionView::Render
        },
    decreases events.len(),
{
    if events.len() > 0 {
        let before = events.drop_last();
        assert forall|i: int| 0 <= i < before.len() implies (#[trigger] before[i]) is Composed
            || before[i] is Undecodable by {
            assert(before[i] == events[i]);
        }
        law_replay_follows_chain(doc_id, chain, before);
        assert(events.last() == events[events.len() - 1]);
    }
}

/// Best-effort reconstruction: payloads that cannot be deserialized never
/// fail a fetch. However many of them were passed over, the replay ends with
/// a snapshot of the rendered content that carries the ids of the chain's
/// last revision.
pub proof fn law_replay_is_best_effort(
    doc_id: Seq<char>,
    chain: Seq<RevisionView>,
    events: Seq<ReplayEventView>,
    data: Seq<char>,
)
    requires
        chain.len() > 0,
        events.len() == chain.len(),
        all_applied(events),
    ensures
        ReplayView::start(doc_id, chain).run(events).handle(
            ReplayEventView::Rendered(data),
        ).action() == ReplayActionView::Done(
            Ok(
                DocView {
                    id: doc_id,
                    data,
                    rev_id: chain.last().rev_id,
                    base_rev_id: chain.last().base_rev_id,
                },
            ),
        ),
{
    law_replay_follows_chain(doc_id, chain, events);
    law_reconstruction_is_repeatable(doc_id, chain, events);
}

/// A failed composition ends a replay with that error.
pub proof fn law_replay_stops_at_compose_failure(
    doc_id: Seq<char>,
    chain: Seq<RevisionView>,
    events: Seq<ReplayEventView>,
    e: DocErrorView,
)
    requires
        events.len() < chain.len(),
        all_applied(events),
    ensures
        ReplayView::start(doc_id, chain).run(events).handle(
            ReplayEventView::ComposeFailed(e),
        ).action() == ReplayActionView::Done(Err(e)),
{
    law_replay_follows_chain(doc_id, chain, events);
}

/// A replay that is over stays over: no report changes its result.
pub proof fn law_replay_result_is_final(r: ReplayView, events: Seq<ReplayEventView>)
    requires
        r.outcome is Some,
    ensures
        r.run(events) == r,
    decreases events.len(),
{
    if events.len() > 0 {
        law_replay_result_is_final(r, events.drop_last());
    }
}

/// Reconstruction is repeatable: a replay never alters its chain or the ids
/// it was started with, so fetching the same chain twice offers the same
/// payloads in the same order; and the snapshot that a replay ends with is
/// made of the document id, the ids of the chain's last revision and one
/// rendered content that was reported, and of nothing else.
pub proof fn law_reconstruction_is_repeatable(
    doc_id: Seq<char>,
    chain: Seq<RevisionView>,
    events: Seq<ReplayEventView>,
)
    ensures
        ReplayView::start(doc_id, chain).run(events).chain == chain,
        ReplayView::start(doc_id, chain).run(events).doc_id == doc_id,
        ReplayView::start(doc_id, chain).run(events).rev_id == chain.last().rev_id,
        ReplayView::start(doc_id, chain).run(events).base_rev_id == chain.last().base_rev_id,
        ReplayView::start(doc_id, chain).run(events).outcome matches Some(Ok(doc)) ==> doc == (
        DocView {
            id: doc_id,
            data: doc.data,
            rev_id: chain.last().rev_id,
            base_rev_id: chain.last().base_rev_id,
        }) && exists|i: int|
            0 <= i < events.len() && #[trigger] events[i] == ReplayEventView::Rendered(doc.data),
    decreases events.len(),
{
    if events.len() > 0 {
        let before = events.drop_last();
        law_reconstruction_is_repeatable(doc_id, chain, before);
        let mid = ReplayView::start(doc_id, chain).run(before);
        let end = ReplayView::start(doc_id, chain).run(events);
        if let Some(Ok(doc)) = end.outcome {
            if mid.outcome is Some {
                let i = choose|i: int|
                    0 <= i < before.len() && #[trigger] before[i] == ReplayEventView::Rendered(
                        doc.data,
                    );
                assert(events[i] == before[i]);
            } else {
                assert(events[events.len() - 1] == ReplayEventView::Rendered(doc.data));
            }
        }
    }
}

/// Remote fallback, the second time: the revision that stands for a
/// snapshot of the peer replays to that snapshot. Its payload is the
/// snapshot's content, and the document rebuilt from it carries the
/// snapshot's ids, so once it is in the durable log the document is found
/// there and the peer is not asked again.
pub proof fn law_remote_snapshot_replays(doc: DocView, data: Seq<char>)
    ensures
        ReplayView::start(doc.id, seq![spec_revision_from_doc(doc, RevType::Remote)]).action()
            == ReplayActionView::Apply(vstd::utf8::encode_utf8(doc.data)),
        ReplayView::start(doc.id, seq![spec_revision_from_doc(doc, RevType::Remote)]).handle(
            ReplayEventView::Composed,
        ).handle(ReplayEventView::Rendered(data)).action() == ReplayActionView::Done(
            Ok(DocView { id: doc.id, data, rev_id: doc.rev_id, base_rev_id: doc.base_rev_id }),
        ),
{
}

} // verus!
