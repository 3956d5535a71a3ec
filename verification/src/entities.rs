//! The values the store works on: revisions, their states, ranges of
//! revision ids and document snapshots, each with its mathematical view.

use vstd::prelude::*;
use vstd::string::StrSliceExecFns;

verus! {

/// The id of a revision: unique per document and increasing with every edit.
#[derive(Clone, Copy, Debug, PartialEq, Eq)]
pub struct RevId {
    pub value: i64,
}

/// Where a revision was authored.
#[derive(Clone, Copy, Debug, PartialEq, Eq)]
pub enum RevType {
    Local,
    Remote,
}

/// Whether the peer has acknowledged a revision.
#[derive(Clone, Copy, Debug, PartialEq, Eq)]
pub enum RevState {
    Local,
    Acked,
}

/// One ordered edit of a document.
#[derive(Debug, PartialEq, Eq)]
pub struct Revision {
    pub base_rev_id: i64,
    pub rev_id: i64,
    pub delta_data: Vec<u8>,
    pub doc_id: String,
    pub ty: RevType,
}

/// The mathematical value of a [`Revision`].
pub struct RevisionView {
    pub base_rev_id: i64,
    pub rev_id: i64,
    pub delta_data: Seq<u8>,
    pub doc_id: Seq<char>,
    pub ty: RevType,
}

impl View for Revision {
    type V = RevisionView;

    open spec fn view(&self) -> RevisionView {
        RevisionView {
            base_rev_id: self.base_rev_id,
            rev_id: self.rev_id,
            delta_data: self.delta_data@,
            doc_id: self.doc_id@,
            ty: self.ty,
        }
    }
}

impl DeepView for Revision {
    type V = RevisionView;

    open spec fn deep_view(&self) -> RevisionView {
        self@
    }
}

impl Clone for Revision {
    fn clone(&self) -> (copy: Self)
        ensures
            copy@ == self@,
    {
        Revision {
            base_rev_id: self.base_rev_id,
            rev_id: self.rev_id,
            delta_data: self.delta_data.clone(),
            doc_id: self.doc_id.clone(),
            ty: self.ty,
        }
    }
}

impl Revision {
    pub fn new(base_rev_id: i64, rev_id: i64, delta_data: Vec<u8>, doc_id: &str, ty: RevType) -> (r:
        Revision)
        ensures
            r@ == (RevisionView {
                base_rev_id,
                rev_id,
                delta_data: delta_data@,
                doc_id: doc_id@,
                ty,
            }),
    {
        Revision { base_rev_id, rev_id, delta_data, doc_id: doc_id.to_owned(), ty }
    }
}

/// A cached revision together with its acknowledgment state.
#[derive(Debug, PartialEq, Eq)]
pub struct RevisionContext {
    pub revision: Revision,
    pub state: RevState,
}

/// The mathematical value of a [`RevisionContext`].
pub struct ContextView {
    pub revision: RevisionView,
    pub state: RevState,
}

impl ContextView {
    /// The same revision, acknowledged.
    pub open spec fn acked(self) -> ContextView {
        ContextView { revision: self.revision, state: RevState::Acked }
    }
}

impl View for RevisionContext {
    type V = ContextView;

    open spec fn view(&self) -> ContextView {
        ContextView { revision: self.revision@, state: self.state }
    }
}

impl Clone for RevisionContext {
    fn clone(&self) -> (copy: Self)
        ensures
            copy@ == self@,
    {
        RevisionContext { revision: self.revision.clone(), state: self.state }
    }
}

impl RevisionContext {
    /// A freshly ingested revision: not yet acknowledged.
    pub fn new(revision: Revision) -> (c: RevisionContext)
        ensures
            c@ == (ContextView { revision: revision@, state: RevState::Local }),
    {
        RevisionContext { revision, state: RevState::Local }
    }

    /// The same revision, acknowledged. Acknowledging twice changes nothing.
    pub fn acked(self) -> (c: RevisionContext)
        ensures
            c@ == self@.acked(),
    {
        RevisionContext { revision: self.revision, state: RevState::Acked }
    }
}

/// An entry of the pending queue: a revision that waits for its
/// acknowledgment.
#[derive(Clone, Copy, Debug, PartialEq, Eq)]
pub struct PendingRevId {
    pub rev_id: i64,
}

impl PendingRevId {
    pub fn new(rev_id: i64) -> (p: PendingRevId)
        ensures
            p.rev_id == rev_id,
    {
        PendingRevId { rev_id }
    }

    /// Whether an acknowledgment of `rev_id` completes this entry.
    pub open spec fn finished_by(self, rev_id: i64) -> bool {
        self.rev_id == rev_id
    }

    /// Whether an acknowledgment of `rev_id` completes this entry.
    pub fn finish(&self, rev_id: i64) -> (done: bool)
        ensures
            done == self.finished_by(rev_id),
    {
        self.rev_id == rev_id
    }
}

/// The revision ids from `start` to `end`, both included. The range is empty
/// when `end < start`.
#[derive(Debug, PartialEq, Eq)]
pub struct RevisionRange {
    pub doc_id: String,
    pub start: i64,
    pub end: i64,
}

impl RevisionRange {
    /// How many ids the range holds.
    pub open spec fn spec_len(&self) -> nat {
        if self.end >= self.start {
            (self.end - self.start + 1) as nat
        } else {
            0
        }
    }

    /// Whether `id` lies in the range.
    pub open spec fn spec_contains(&self, id: i64) -> bool {
        self.start <= id <= self.end
    }

    pub fn new(doc_id: &str, start: i64, end: i64) -> (r: RevisionRange)
        ensures
            r.doc_id@ == doc_id@,
            r.start == start,
            r.end == end,
    {
        RevisionRange { doc_id: doc_id.to_owned(), start, end }
    }

    /// Whether the range holds no id.
    pub fn is_empty(&self) -> (empty: bool)
        ensures
            empty == (self.spec_len() == 0),
    {
        self.end < self.start
    }

    /// Whether `id` lies in the range.
    pub fn contains(&self, id: i64) -> (inside: bool)
        ensures
            inside == self.spec_contains(id),
    {
        self.start <= id && id <= self.end
    }
}

/// A snapshot of a document: its content after the revision `rev_id`.
#[derive(Debug, PartialEq, Eq)]
pub struct Doc {
    pub id: String,
    pub data: String,
    pub rev_id: i64,
    pub base_rev_id: i64,
}

/// The mathematical value of a [`Doc`].
pub struct DocView {
    pub id: Seq<char>,
    pub data: Seq<char>,
    pub rev_id: i64,
    pub base_rev_id: i64,
}

impl View for Doc {
    type V = DocView;

    open spec fn view(&self) -> DocView {
        DocView { id: self.id@, data: self.data@, rev_id: self.rev_id, base_rev_id: self.base_rev_id }
    }
}

impl DeepView for Doc {
    type V = DocView;

    open spec fn deep_view(&self) -> DocView {
        self@
    }
}

impl Clone for Doc {
    fn clone(&self) -> (copy: Self)
        ensures
            copy@ == self@,
    {
        Doc {
            id: self.id.clone(),
            data: self.data.clone(),
            rev_id: self.rev_id,
            base_rev_id: self.base_rev_id,
        }
    }
}

/// The revision that stands for a whole snapshot: its payload is the
/// snapshot's content as UTF-8 bytes.
pub open spec fn spec_revision_from_doc(doc: DocView, ty: RevType) -> RevisionView {
    RevisionView {
        base_rev_id: doc.base_rev_id,
        rev_id: doc.rev_id,
        delta_data: vstd::utf8::encode_utf8(doc.data),
        doc_id: doc.id,
        ty,
    }
}

/// Turns a snapshot into the single revision that carries it.
pub fn revision_from_doc(doc: Doc, ty: RevType) -> (r: Revision)
    ensures
        r@ == spec_revision_from_doc(doc@, ty),
{
    let delta_data = doc.data.as_str().as_bytes_vec();
    Revision { base_rev_id: doc.base_rev_id, rev_id: doc.rev_id, delta_data, doc_id: doc.id, ty }
}

} // verus!
