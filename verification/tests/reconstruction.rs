use rev_store::entities::{revision_from_doc, Doc, RevState, RevType, Revision};
use rev_store::errors::DocError;
use rev_store::replay::{fetch_from_local, ReplayAction, ReplayEvent};
use rev_store::store::{FetchAction, FetchEvent, RevisionStore};

fn revision(rev_id: i64, payload: &[u8]) -> Revision {
    Revision::new(rev_id - 1, rev_id, payload.to_vec(), "doc-1", RevType::Local)
}

/// A delta algebra for the tests: a delta is a text, a payload its UTF-8
/// bytes, composing appends, and a text with the letter `!` cannot be
/// composed.
fn apply(accumulated: &mut String, payload: &[u8]) -> ReplayEvent {
    match std::str::from_utf8(payload) {
        Err(_) => ReplayEvent::Undecodable,
        Ok(text) => {
            if text.contains('!') {
                ReplayEvent::ComposeFailed(DocError::Serialization { msg: text.to_string() })
            } else {
                accumulated.push_str(text);
                ReplayEvent::Composed
            }
        }
    }
}

/// Rebuilds a document from a chain as a caller of the library does, and
/// also tells which revisions were passed over.
fn rebuild(doc_id: &str, chain: Vec<Revision>) -> (Result<Doc, DocError>, Vec<i64>) {
    let mut replay = match fetch_from_local(doc_id, chain) {
        Ok(replay) => replay,
        Err(e) => return (Err(e), Vec::new()),
    };
    let mut accumulated = String::new();
    loop {
        let event = match replay.action() {
            ReplayAction::Apply(payload) => apply(&mut accumulated, &payload),
            ReplayAction::Render => ReplayEvent::Rendered(accumulated.clone()),
            ReplayAction::Done(result) => return (result, replay.skipped().clone()),
        };
        replay.handle(event);
    }
}

struct Peer {
    answer: Result<Doc, DocError>,
    asked: usize,
}

struct Log {
    written: Vec<(Revision, RevState)>,
    fail_writes: bool,
    fail_reads: bool,
}

/// Fetches a document as a caller of the library does.
fn fetch(store: &RevisionStore, log: &mut Log, peer: &mut Peer) -> Result<Doc, DocError> {
    let mut event = FetchEvent::Begin;
    loop {
        event = match store.fetch_document(event) {
            FetchAction::ReadLocal { doc_id } => {
                if log.fail_reads {
                    FetchEvent::Local(Err(DocError::Storage { msg: "unreadable".to_string() }))
                } else {
                    let chain: Vec<Revision> =
                        log.written.iter().map(|(r, _)| r.clone()).collect();
                    FetchEvent::Local(rebuild(&doc_id, chain).0)
                }
            }
            FetchAction::AskRemote { doc_id } => {
                assert_eq!(doc_id, "doc-1");
                peer.asked += 1;
                FetchEvent::Remote(peer.answer.clone())
            }
            FetchAction::Persist { doc, revision, state } => {
                if log.fail_writes {
                    FetchEvent::Persisted {
                        doc,
                        outcome: Err(DocError::Storage { msg: "disk full".to_string() }),
                    }
                } else {
                    log.written.push((revision, state));
                    FetchEvent::Persisted { doc, outcome: Ok(()) }
                }
            }
            FetchAction::Return(result) => return result,
        };
    }
}

fn snapshot() -> Doc {
    Doc { id: "doc-1".to_string(), data: "héllo".to_string(), rev_id: 12, base_rev_id: 11 }
}

#[test]
fn no_chain_means_not_found() {
    assert_eq!(fetch_from_local("doc-1", Vec::new()).err(), Some(DocError::NotFound));
}

#[test]
fn a_chain_is_composed_in_order() {
    let chain = vec![revision(1, b"ab"), revision(2, b"cd"), revision(3, b"ef")];
    let (doc, skipped) = rebuild("doc-1", chain);
    assert_eq!(
        doc,
        Ok(Doc { id: "doc-1".to_string(), data: "abcdef".to_string(), rev_id: 3, base_rev_id: 2 })
    );
    assert!(skipped.is_empty());
}

#[test]
fn the_payloads_are_offered_one_by_one() {
    let chain = vec![revision(1, b"ab"), revision(2, b"cd")];
    let mut replay = fetch_from_local("doc-1", chain).unwrap();
    assert_eq!(replay.action(), ReplayAction::Apply(b"ab".to_vec()));
    // Asking again changes nothing.
    assert_eq!(replay.action(), ReplayAction::Apply(b"ab".to_vec()));
    replay.handle(ReplayEvent::Composed);
    assert_eq!(replay.action(), ReplayAction::Apply(b"cd".to_vec()));
    replay.handle(ReplayEvent::Composed);
    assert_eq!(replay.action(), ReplayAction::Render);
    replay.handle(ReplayEvent::Rendered("abcd".to_string()));
    assert_eq!(
        replay.action(),
        ReplayAction::Done(Ok(Doc {
            id: "doc-1".to_string(),
            data: "abcd".to_string(),
            rev_id: 2,
            base_rev_id: 1
        }))
    );
}

#[test]
fn a_corrupted_payload_in_the_middle_is_skipped() {
    let chain = vec![revision(1, b"ab"), revision(2, &[0xff, 0xfe]), revision(3, b"ef")];
    let (doc, skipped) = rebuild("doc-1", chain);
    assert_eq!(
        doc,
        Ok(Doc { id: "doc-1".to_string(), data: "abef".to_string(), rev_id: 3, base_rev_id: 2 })
    );
    assert_eq!(skipped, vec![2]);
}

#[test]
fn a_chain_of_corrupted_payloads_still_yields_a_snapshot() {
    let chain = vec![revision(4, &[0xff]), revision(5, &[0xc0])];
    let (doc, skipped) = rebuild("doc-1", chain);
    assert_eq!(
        doc,
        Ok(Doc { id: "doc-1".to_string(), data: String::new(), rev_id: 5, base_rev_id: 4 })
    );
    assert_eq!(skipped, vec![4, 5]);
}

#[test]
fn a_failed_composition_fails_the_reconstruction() {
    let chain = vec![revision(1, b"ab"), revision(2, b"c!"), revision(3, b"ef")];
    let (doc, skipped) = rebuild("doc-1", chain);
    assert_eq!(doc, Err(DocError::Serialization { msg: "c!".to_string() }));
    assert!(skipped.is_empty());
}

#[test]
fn reports_that_answer_nothing_are_ignored() {
    let mut replay = fetch_from_local("doc-1", vec![revision(1, b"ab")]).unwrap();
    replay.handle(ReplayEvent::Rendered("too early".to_string()));
    assert_eq!(replay.action(), ReplayAction::Apply(b"ab".to_vec()));
    replay.handle(ReplayEvent::Undecodable);
    assert_eq!(replay.action(), ReplayAction::Render);
    replay.handle(ReplayEvent::Composed);
    replay.handle(ReplayEvent::Undecodable);
    replay.handle(ReplayEvent::ComposeFailed(DocError::NotFound));
    assert_eq!(replay.action(), ReplayAction::Render);
    assert_eq!(replay.skipped(), &vec![1]);
    replay.handle(ReplayEvent::Rendered(String::new()));
    let done = replay.action();
    replay.handle(ReplayEvent::Rendered("again".to_string()));
    replay.handle(ReplayEvent::ComposeFailed(DocError::NotFound));
    assert_eq!(replay.action(), done);
}

#[test]
fn a_replay_that_failed_stays_failed() {
    let mut replay = fetch_from_local("doc-1", vec![revision(1, b"a"), revision(2, b"b")]).unwrap();
    replay.handle(ReplayEvent::ComposeFailed(DocError::Storage { msg: "gone".to_string() }));
    replay.handle(ReplayEvent::Composed);
    replay.handle(ReplayEvent::Rendered("a".to_string()));
    assert_eq!(
        replay.action(),
        ReplayAction::Done(Err(DocError::Storage { msg: "gone".to_string() }))
    );
}

#[test]
fn rebuilding_twice_yields_identical_content() {
    let chain = || vec![revision(1, b"ab"), revision(2, &[0xff]), revision(3, "é".as_bytes())];
    let first = rebuild("doc-1", chain());
    let second = rebuild("doc-1", chain());
    assert_eq!(first, second);
    assert_eq!(first.0.unwrap().data.as_bytes(), "abé".as_bytes());
}

#[test]
fn a_snapshot_becomes_one_revision_of_its_content() {
    let rev = revision_from_doc(snapshot(), RevType::Remote);
    assert_eq!(
        rev,
        Revision {
            base_rev_id: 11,
            rev_id: 12,
            delta_data: vec![0x68, 0xc3, 0xa9, 0x6c, 0x6c, 0x6f],
            doc_id: "doc-1".to_string(),
            ty: RevType::Remote,
        }
    );
}

#[test]
fn a_local_chain_is_returned_without_asking_the_peer() {
    let store = RevisionStore::new("doc-1");
    let mut log = Log {
        written: vec![(revision(1, b"ab"), RevState::Acked), (revision(2, b"cd"), RevState::Local)],
        fail_writes: false,
        fail_reads: false,
    };
    let mut peer = Peer { answer: Ok(snapshot()), asked: 0 };
    assert_eq!(
        fetch(&store, &mut log, &mut peer),
        Ok(Doc { id: "doc-1".to_string(), data: "abcd".to_string(), rev_id: 2, base_rev_id: 1 })
    );
    assert_eq!(peer.asked, 0);
    assert_eq!(log.written.len(), 2);
}

#[test]
fn without_a_chain_the_peer_is_asked_once_and_its_snapshot_persisted() {
    let store = RevisionStore::new("doc-1");
    let mut log = Log { written: Vec::new(), fail_writes: false, fail_reads: false };
    let mut peer = Peer { answer: Ok(snapshot()), asked: 0 };
    assert_eq!(fetch(&store, &mut log, &mut peer), Ok(snapshot()));
    assert_eq!(peer.asked, 1);
    assert_eq!(
        log.written,
        vec![(revision_from_doc(snapshot(), RevType::Remote), RevState::Acked)]
    );
    // The second fetch is served by the log alone.
    assert_eq!(fetch(&store, &mut log, &mut peer), Ok(snapshot()));
    assert_eq!(peer.asked, 1);
    assert_eq!(log.written.len(), 1);
}

#[test]
fn the_error_of_the_peer_is_returned_as_it_is() {
    let store = RevisionStore::new("doc-1");
    let mut log = Log { written: Vec::new(), fail_writes: false, fail_reads: false };
    let mut peer = Peer { answer: Err(DocError::Remote { msg: "offline".to_string() }), asked: 0 };
    assert_eq!(
        fetch(&store, &mut log, &mut peer),
        Err(DocError::Remote { msg: "offline".to_string() })
    );
    assert_eq!(peer.asked, 1);
    assert!(log.written.is_empty());
}

#[test]
fn a_failed_write_of_the_snapshot_fails_the_fetch() {
    let store = RevisionStore::new("doc-1");
    let mut log = Log { written: Vec::new(), fail_writes: true, fail_reads: false };
    let mut peer = Peer { answer: Ok(snapshot()), asked: 0 };
    assert_eq!(
        fetch(&store, &mut log, &mut peer),
        Err(DocError::Storage { msg: "disk full".to_string() })
    );
    assert_eq!(peer.asked, 1);
}

#[test]
fn a_storage_error_of_the_local_read_ends_the_fetch() {
    let store = RevisionStore::new("doc-1");
    let action = store.fetch_document(FetchEvent::Local(Err(DocError::Storage {
        msg: "locked".to_string(),
    })));
    assert_eq!(
        action,
        FetchAction::Return(Err(DocError::Storage { msg: "locked".to_string() }))
    );
}

#[test]
fn a_missing_chain_falls_back_to_the_peer() {
    let store = RevisionStore::new("doc-1");
    let action = store.fetch_document(FetchEvent::Local(Err(DocError::NotFound)));
    assert_eq!(action, FetchAction::AskRemote { doc_id: "doc-1".to_string() });
}

#[test]
fn a_chain_that_cannot_be_composed_falls_back_to_the_peer() {
    let store = RevisionStore::new("doc-1");
    let mut log = Log {
        written: vec![(revision(1, b"ab"), RevState::Acked), (revision(2, b"c!"), RevState::Local)],
        fail_writes: false,
        fail_reads: false,
    };
    let mut peer = Peer { answer: Ok(snapshot()), asked: 0 };
    assert_eq!(fetch(&store, &mut log, &mut peer), Ok(snapshot()));
    assert_eq!(peer.asked, 1);
}

#[test]
fn a_log_that_cannot_be_read_fails_the_fetch_without_asking_the_peer() {
    let store = RevisionStore::new("doc-1");
    let mut log = Log { written: Vec::new(), fail_writes: false, fail_reads: true };
    let mut peer = Peer { answer: Ok(snapshot()), asked: 0 };
    assert_eq!(
        fetch(&store, &mut log, &mut peer),
        Err(DocError::Storage { msg: "unreadable".to_string() })
    );
    assert_eq!(peer.asked, 0);
    assert!(log.written.is_empty());
}

#[test]
fn each_fetch_step_is_decided_by_the_report() {
    let store = RevisionStore::new("doc-1");
    assert_eq!(
        store.fetch_document(FetchEvent::Begin),
        FetchAction::ReadLocal { doc_id: "doc-1".to_string() }
    );
    assert_eq!(
        store.fetch_document(FetchEvent::Local(Ok(snapshot()))),
        FetchAction::Return(Ok(snapshot()))
    );
    assert_eq!(
        store.fetch_document(FetchEvent::Remote(Ok(snapshot()))),
        FetchAction::Persist {
            doc: snapshot(),
            revision: revision_from_doc(snapshot(), RevType::Remote),
            state: RevState::Acked,
        }
    );
    assert_eq!(
        store.fetch_document(FetchEvent::Persisted { doc: snapshot(), outcome: Ok(()) }),
        FetchAction::Return(Ok(snapshot()))
    );
}
