use rev_store::cache::{unlisted, RevisionCache};
use rev_store::entities::{PendingRevId, RevId, RevState, RevType, Revision, RevisionContext};
use rev_store::errors::DocError;
use rev_store::pending::PendingQueue;

fn context(rev_id: i64) -> RevisionContext {
    RevisionContext::new(Revision::new(rev_id - 1, rev_id, vec![1, 2, 3], "doc-1", RevType::Local))
}

fn sorted_ids(cache: &RevisionCache) -> Vec<i64> {
    let mut ids: Vec<i64> = cache.entries().into_iter().map(|(id, _)| id).collect();
    ids.sort();
    ids
}

#[test]
fn a_new_cache_is_empty() {
    let cache = RevisionCache::new();
    assert!(cache.is_empty());
    assert!(!cache.contains(1));
    assert_eq!(cache.get(1), None);
    assert!(cache.entries().is_empty());
}

#[test]
fn the_cache_finds_what_was_inserted() {
    let mut cache = RevisionCache::new();
    assert_eq!(cache.insert(context(5)), Ok(()));
    assert!(!cache.is_empty());
    assert!(cache.contains(5));
    assert!(!cache.contains(4));
    assert_eq!(cache.get(5), Some(context(5)));
    assert_eq!(cache.get(4), None);
}

#[test]
fn the_cache_refuses_a_second_entry_for_an_id() {
    let mut cache = RevisionCache::new();
    cache.insert(context(5)).unwrap();
    let other = RevisionContext::new(Revision::new(0, 5, vec![9], "doc-1", RevType::Remote));
    assert_eq!(cache.insert(other), Err(DocError::DuplicateRevision { rev_id: 5 }));
    assert_eq!(cache.get(5), Some(context(5)));
    assert_eq!(sorted_ids(&cache), vec![5]);
}

#[test]
fn marking_acknowledged_touches_only_that_entry() {
    let mut cache = RevisionCache::new();
    cache.insert(context(1)).unwrap();
    cache.insert(context(2)).unwrap();
    cache.mark_acked(1);
    assert_eq!(cache.get(1), Some(context(1).acked()));
    assert_eq!(cache.get(1).unwrap().state, RevState::Acked);
    assert_eq!(cache.get(2).unwrap().state, RevState::Local);
    cache.mark_acked(1);
    assert_eq!(cache.get(1).unwrap().state, RevState::Acked);
    cache.mark_acked(3);
    assert!(!cache.contains(3));
    assert_eq!(sorted_ids(&cache), vec![1, 2]);
}

#[test]
fn the_entries_list_every_revision_once() {
    let mut cache = RevisionCache::new();
    for id in [4, 2, 9] {
        cache.insert(context(id)).unwrap();
    }
    cache.mark_acked(2);
    let mut entries = cache.entries();
    entries.sort_by_key(|(id, _)| *id);
    assert_eq!(
        entries,
        vec![(2, context(2).acked()), (4, context(4)), (9, context(9))]
    );
}

#[test]
fn evicting_removes_exactly_the_listed_ids() {
    let mut cache = RevisionCache::new();
    for id in 1..=5 {
        cache.insert(context(id)).unwrap();
    }
    cache.evict(&vec![2, 4, 7]);
    assert_eq!(sorted_ids(&cache), vec![1, 3, 5]);
    cache.evict(&Vec::new());
    assert_eq!(sorted_ids(&cache), vec![1, 3, 5]);
    cache.evict(&vec![1, 3, 5]);
    assert!(cache.is_empty());
}

#[test]
fn unlisted_tells_what_a_list_lacks() {
    assert!(unlisted(&vec![], 1));
    assert!(unlisted(&vec![2, 3], 1));
    assert!(!unlisted(&vec![2, 1, 3], 1));
    assert!(!unlisted(&vec![1], 1));
}

#[test]
fn a_pending_entry_is_finished_by_its_own_id_only() {
    let entry = PendingRevId::new(4);
    assert_eq!(entry.rev_id, 4);
    assert!(entry.finish(4));
    assert!(!entry.finish(3));
    assert!(!entry.finish(5));
}

#[test]
fn the_queue_keeps_arrival_order() {
    let mut queue = PendingQueue::new();
    assert_eq!(queue.len(), 0);
    assert_eq!(queue.front(), None);
    queue.push_back(PendingRevId::new(3));
    queue.push_back(PendingRevId::new(1));
    queue.push_back(PendingRevId::new(2));
    assert_eq!(queue.len(), 3);
    assert_eq!(queue.front(), Some(PendingRevId::new(3)));
}

#[test]
fn the_queue_prunes_a_finished_entry_wherever_it_stands() {
    let mut queue = PendingQueue::new();
    for id in [3, 1, 2] {
        queue.push_back(PendingRevId::new(id));
    }
    assert!(queue.retain_unfinished(1));
    assert_eq!(queue.len(), 2);
    assert_eq!(queue.front(), Some(PendingRevId::new(3)));
    assert!(queue.retain_unfinished(3));
    assert_eq!(queue.front(), Some(PendingRevId::new(2)));
    assert!(!queue.retain_unfinished(3));
    assert_eq!(queue.len(), 1);
    assert!(queue.retain_unfinished(2));
    assert_eq!(queue.front(), None);
    assert!(!queue.retain_unfinished(2));
}

#[test]
fn the_queue_prunes_every_entry_of_the_id() {
    let mut queue = PendingQueue::new();
    for id in [1, 2, 1] {
        queue.push_back(PendingRevId::new(id));
    }
    assert!(queue.retain_unfinished(1));
    assert_eq!(queue.len(), 1);
    assert_eq!(queue.front(), Some(PendingRevId::new(2)));
}

#[test]
fn values_are_copied_field_by_field() {
    let rev = Revision::new(1, 2, vec![7, 8], "doc-9", RevType::Remote);
    assert_eq!(rev.clone(), rev);
    assert_eq!(rev.doc_id, "doc-9");
    assert_eq!(rev.delta_data, vec![7, 8]);
    let ctx = RevisionContext::new(rev.clone());
    assert_eq!(ctx.state, RevState::Local);
    assert_eq!(ctx.clone(), ctx);
    assert_eq!(RevId { value: 3 }.value, 3);
    for e in [
        DocError::DuplicateRevision { rev_id: 1 },
        DocError::NotFound,
        DocError::Serialization { msg: "a".to_string() },
        DocError::Storage { msg: "b".to_string() },
        DocError::Remote { msg: "c".to_string() },
    ] {
        assert_eq!(e.clone(), e);
    }
    assert_eq!(DocError::duplicate_rev(4), DocError::DuplicateRevision { rev_id: 4 });
    assert_eq!(DocError::not_found(), DocError::NotFound);
}
