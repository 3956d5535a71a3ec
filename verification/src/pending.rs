//! The pending queue: the revisions that wait for their acknowledgment, in
//! the order in which they were ingested.

use crate::entities::PendingRevId;
use std::collections::VecDeque;
use vstd::prelude::*;

verus! {

/// What is left of a queue once `ack_id` is acknowledged: the entries that
/// this acknowledgment does not complete, in their old order.
pub open spec fn unfinished(entries: Seq<PendingRevId>, ack_id: i64) -> Seq<PendingRevId> {
    entries.filter(|entry: PendingRevId| !entry.finished_by(ack_id))
}

/// Whether some entry of the queue waits for `rev_id`.
pub open spec fn awaits(entries: Seq<PendingRevId>, rev_id: i64) -> bool {
    entries.contains(PendingRevId { rev_id })
}

/// Filtering by an acknowledgment keeps no entry of the acknowledged id and
/// every other entry; a queue that does not wait for the id stays as it is.
pub proof fn lemma_unfinished(entries: Seq<PendingRevId>, ack_id: i64)
    ensures
        !awaits(unfinished(entries, ack_id), ack_id),
        forall|rev_id: i64|
            rev_id != ack_id ==> (#[trigger] awaits(unfinished(entries, ack_id), rev_id) <==> awaits(
                entries,
                rev_id,
            )),
        !awaits(entries, ack_id) ==> unfinished(entries, ack_id) == entries,
    decreases entries.len(),
{
    let keep = |entry: PendingRevId| !entry.finished_by(ack_id);
    reveal(Seq::filter);
    if entries.len() > 0 {
        let front = entries.drop_last();
        let last = entries.last();
        lemma_unfinished(front, ack_id);
        let kept = unfinished(front, ack_id);
        assert(unfinished(entries, ack_id) == if keep(last) {
            kept.push(last)
        } else {
            kept
        });
        assert forall|rev_id: i64| #[trigger] awaits(entries, rev_id) <==> (awaits(front, rev_id)
            || last.rev_id == rev_id) by {
            let wanted = PendingRevId { rev_id };
            if entries.contains(wanted) {
                let i = choose|i: int| 0 <= i < entries.len() && entries[i] == wanted;
                if i < front.len() {
                    assert(front[i] == wanted);
                }
            }
            if front.contains(wanted) {
                let i = choose|i: int| 0 <= i < front.len() && front[i] == wanted;
                assert(entries[i] == wanted);
            }
            if last.rev_id == rev_id {
                assert(entries[entries.len() - 1] == wanted);
            }
        }
        assert forall|rev_id: i64| #[trigger] awaits(kept.push(last), rev_id) <==> (awaits(
            kept,
            rev_id,
        ) || last.rev_id == rev_id) by {
            let wanted = PendingRevId { rev_id };
            let longer = kept.push(last);
            if longer.contains(wanted) {
                let i = choose|i: int| 0 <= i < longer.len() && longer[i] == wanted;
                if i < kept.len() {
                    assert(kept[i] == wanted);
                }
            }
            if kept.contains(wanted) {
                let i = choose|i: int| 0 <= i < kept.len() && kept[i] == wanted;
                assert(longer[i] == wanted);
            }
            if last.rev_id == rev_id {
                assert(longer[longer.len() - 1] == wanted);
            }
        }
        if !awaits(entries, ack_id) {
            assert(!awaits(front, ack_id));
            assert(kept.push(last) =~= entries);
        }
    }
}

/// An acknowledgment of another id leaves the oldest entry where it is, at
/// the front of the queue.
pub proof fn lemma_unfinished_keeps_front(entries: Seq<PendingRevId>, ack_id: i64)
    requires
        entries.len() > 0,
        entries[0].rev_id != ack_id,
    ensures
        unfinished(entries, ack_id).len() > 0,
        unfinished(entries, ack_id)[0] == entries[0],
    decreases entries.len(),
{
    let keep = |entry: PendingRevId| !entry.finished_by(ack_id);
    reveal(Seq::filter);
    let front = entries.drop_last();
    if front.len() > 0 {
        lemma_unfinished_keeps_front(front, ack_id);
    } else {
        assert(front.filter(keep).len() == 0);
    }
}

/// In a queue that waits for each id once, the acknowledgment of the oldest
/// entry takes out that entry alone, and the second oldest moves up.
pub proof fn lemma_unfinished_drops_front(entries: Seq<PendingRevId>)
    requires
        entries.len() > 0,
        entries.no_duplicates(),
    ensures
        unfinished(entries, entries[0].rev_id) == entries.drop_first(),
    decreases entries.len(),
{
    let ack_id = entries[0].rev_id;
    let keep = |entry: PendingRevId| !entry.finished_by(ack_id);
    reveal(Seq::filter);
    let front = entries.drop_last();
    let last = entries.last();
    if front.len() > 0 {
        assert(front[0] == entries[0]);
        assert(front.no_duplicates()) by {
            assert forall|i: int, j: int| 0 <= i < front.len() && 0 <= j < front.len() && i != j implies front[i]
                != front[j] by {
                assert(front[i] == entries[i] && front[j] == entries[j]);
            }
        }
        lemma_unfinished_drops_front(front);
        assert(entries[0] != entries[entries.len() - 1]);
        assert(keep(last));
        assert(front.drop_first().push(last) =~= entries.drop_first());
    } else {
        assert(front.filter(keep) =~= entries.drop_first());
    }
}

/// The queue of revisions that wait for their acknowledgment.
pub struct PendingQueue {
    entries: VecDeque<PendingRevId>,
}

impl View for PendingQueue {
    type V = Seq<PendingRevId>;

    closed spec fn view(&self) -> Seq<PendingRevId> {
        self.entries@
    }
}

impl PendingQueue {
    /// An empty queue.
    pub fn new() -> (queue: PendingQueue)
        ensures
            queue@ == Seq::<PendingRevId>::empty(),
    {
        PendingQueue { entries: VecDeque::new() }
    }

    /// How many revisions wait.
    pub fn len(&self) -> (n: usize)
        ensures
            n == self@.len(),
    {
        self.entries.len()
    }

    /// Appends an entry behind all that wait already.
    pub fn push_back(&mut self, entry: PendingRevId)
        ensures
            final(self)@ == old(self)@.push(entry),
    {
        self.entries.push_back(entry);
    }

    /// The entry that has waited longest, if any.
    pub fn front(&self) -> (oldest: Option<PendingRevId>)
        ensures
            oldest == if self@.len() > 0 {
                Some(self@[0])
            } else {
                None
            },
    {
        if self.entries.len() > 0 {
            Some(self.entries[0])
        } else {
            None
        }
    }

    /// Takes out every entry that the acknowledgment of `ack_id` completes,
    /// wherever in the queue it stands; the others keep their order. Tells
    /// whether any entry was completed.
    pub fn retain_unfinished(&mut self, ack_id: i64) -> (finished: bool)
        ensures
            final(self)@ == unfinished(old(self)@, ack_id),
            finished == awaits(old(self)@, ack_id),
    {
        let ghost keep = |entry: PendingRevId| !entry.finished_by(ack_id);
        let mut kept: VecDeque<PendingRevId> = VecDeque::new();
        let mut finished = false;
        let n = self.entries.len();
        let mut i: usize = 0;
        proof {
            assert(self.entries@.take(0) =~= Seq::<PendingRevId>::empty());
            reveal(Seq::filter);
        }
        while i < n
            invariant
                i <= n,
                n == self.entries@.len(),
                self.entries@ == old(self).entries@,
                keep == |entry: PendingRevId| !entry.finished_by(ack_id),
                kept@ == self.entries@.take(i as int).filter(keep),
                finished == awaits(self.entries@.take(i as int), ack_id),
            decreases n - i,
        {
            let entry = self.entries[i];
            proof {
                let seen = self.entries@.take(i as int);
                assert(self.entries@.take(i + 1) =~= seen.push(entry));
                seen.lemma_filter_push(entry, keep);
                let wanted = PendingRevId { rev_id: ack_id };
                if seen.push(entry).contains(wanted) {
                    let j = choose|j: int| 0 <= j < seen.push(entry).len() && seen.push(entry)[j] == wanted;
                    if j < seen.len() {
                        assert(seen[j] == wanted);
                    }
                }
                if seen.contains(wanted) {
                    let j = choose|j: int| 0 <= j < seen.len() && seen[j] == wanted;
                    assert(seen.push(entry)[j] == wanted);
                }
                if entry == wanted {
                    assert(seen.push(entry)[seen.len() as int] == wanted);
                }
            }
            if entry.finish(ack_id) {
                finished = true;
            } else {
                kept.push_back(entry);
            }
            i += 1;
        }
        proof {
            assert(self.entries@.take(n as int) =~= self.entries@);
        }
        self.entries = kept;
        finished
    }
}

} // verus!
