use rev_store::entities::{RevId, RevState, RevType, Revision, RevisionRange};
use rev_store::store::{AckOutcome, FlushBatch, FlushTimer, NextRevision, RevisionStore};

fn revision(rev_id: i64) -> Revision {
    Revision::new(rev_id - 1, rev_id, vec![rev_id as u8], "doc-1", RevType::Local)
}

fn state_in(batch: &FlushBatch, rev_id: i64) -> RevState {
    let at = batch.ids.iter().position(|id| *id == rev_id).expect("the id is in the batch");
    assert_eq!(batch.revisions[at].0.rev_id, rev_id);
    batch.revisions[at].1
}

#[test]
fn a_revision_is_local_until_it_is_acknowledged() {
    let mut store = RevisionStore::new("doc-1");
    store.handle_new_revision(revision(1), 0).unwrap();
    store.handle_new_revision(revision(2), 0).unwrap();
    let _ = store.handle_revision_acked(RevId { value: 1 }, 10);
    let batch = store.begin_flush(310).unwrap();
    assert_eq!(state_in(&batch, 1), RevState::Acked);
    assert_eq!(state_in(&batch, 2), RevState::Local);
}

#[test]
fn a_second_acknowledgment_changes_nothing() {
    let mut store = RevisionStore::new("doc-1");
    store.handle_new_revision(revision(1), 0).unwrap();
    store.handle_new_revision(revision(2), 0).unwrap();
    let first = store.handle_revision_acked(RevId { value: 1 }, 10);
    let second = store.handle_revision_acked(RevId { value: 1 }, 20);
    assert!(first.finished);
    assert!(!second.finished);
    assert_eq!(second.timer, FlushTimer { cancelled: Some(310), scheduled: Some(320) });
    assert_eq!(store.next(), NextRevision::Cached(revision(2)));
    let batch = store.begin_flush(320).unwrap();
    assert_eq!(batch.ids.len(), 2);
    assert_eq!(state_in(&batch, 1), RevState::Acked);
    assert_eq!(state_in(&batch, 2), RevState::Local);
}

#[test]
fn an_acknowledged_revision_stays_acknowledged() {
    let mut store = RevisionStore::new("doc-1");
    store.handle_new_revision(revision(1), 0).unwrap();
    let _ = store.handle_revision_acked(RevId { value: 1 }, 1);
    store.handle_new_revision(revision(2), 2).unwrap();
    let _ = store.handle_revision_acked(RevId { value: 5 }, 3);
    let _ = store.save_revisions(4);
    assert!(store.begin_flush(10).is_none());
    let failed = store.begin_flush(304).unwrap();
    assert_eq!(state_in(&failed, 1), RevState::Acked);
    store.finish_flush(false);
    let _ = store.save_revisions(400);
    let retried = store.begin_flush(700).unwrap();
    assert_eq!(state_in(&retried, 1), RevState::Acked);
    assert_eq!(state_in(&retried, 2), RevState::Local);
}

#[test]
fn acknowledging_an_unknown_id_is_ignored() {
    let mut store = RevisionStore::new("doc-1");
    store.handle_new_revision(revision(1), 0).unwrap();
    let done = store.handle_revision_acked(RevId { value: 9 }, 100);
    assert_eq!(
        done,
        AckOutcome {
            finished: false,
            timer: FlushTimer { cancelled: Some(300), scheduled: Some(400) }
        }
    );
    assert_eq!(store.next(), NextRevision::Cached(revision(1)));
    let batch = store.begin_flush(400).unwrap();
    assert_eq!(state_in(&batch, 1), RevState::Local);
}

#[test]
fn acknowledging_on_an_empty_store_schedules_nothing() {
    let mut store = RevisionStore::new("doc-1");
    let done = store.handle_revision_acked(RevId { value: 1 }, 100);
    assert_eq!(
        done,
        AckOutcome { finished: false, timer: FlushTimer { cancelled: None, scheduled: None } }
    );
}

#[test]
fn acknowledgments_may_arrive_out_of_order() {
    let mut store = RevisionStore::new("doc-1");
    for id in 1..=3 {
        store.handle_new_revision(revision(id), 0).unwrap();
    }
    let _ = store.handle_revision_acked(RevId { value: 2 }, 1);
    assert_eq!(store.next(), NextRevision::Cached(revision(1)));
    let _ = store.handle_revision_acked(RevId { value: 1 }, 2);
    assert_eq!(store.next(), NextRevision::Cached(revision(3)));
    let batch = store.begin_flush(302).unwrap();
    assert_eq!(state_in(&batch, 1), RevState::Acked);
    assert_eq!(state_in(&batch, 2), RevState::Acked);
    assert_eq!(state_in(&batch, 3), RevState::Local);
}

#[test]
fn an_acknowledgment_after_eviction_only_clears_the_queue() {
    let mut store = RevisionStore::new("doc-1");
    store.handle_new_revision(revision(1), 0).unwrap();
    let batch = store.begin_flush(300).unwrap();
    assert_eq!(state_in(&batch, 1), RevState::Local);
    store.finish_flush(true);
    let done = store.handle_revision_acked(RevId { value: 1 }, 500);
    assert_eq!(
        done,
        AckOutcome { finished: true, timer: FlushTimer { cancelled: None, scheduled: None } }
    );
    assert_eq!(store.next(), NextRevision::Idle);
    assert_eq!(store.revs_in_range(&RevisionRange::new("doc-1", 1, 1)), None);
}
