//! Rebuilding a document snapshot from its revision chain.
//!
//! The deltas themselves are foreign to this crate: deserializing a
//! payload, composing it onto the accumulated delta and rendering the
//! result are done by the caller. A [`ChainReplay`] decides everything
//! else: which payload is offered next, that a payload which cannot be
//! deserialized is passed over, that a failed composition ends the replay,
//! and what the snapshot says once the content is rendered.

use crate::entities::{Doc, DocView, Revision, RevisionView};
use crate::errors::{DocError, DocErrorView};
use vstd::prelude::*;

verus! {

/// What the caller reports to a replay.
#[derive(Debug, PartialEq, Eq)]
pub enum ReplayEvent {
    /// The offered payload was deserialized and composed onto the
    /// accumulated delta.
    Composed,
    /// The offered payload could not be deserialized.
    Undecodable,
    /// The offered payload was deserialized, but composing it failed.
    ComposeFailed(DocError),
    /// The accumulated delta was rendered to this content.
    Rendered(String),
}

/// The mathematical value of a [`ReplayEvent`].
pub enum ReplayEventView {
    Composed,
    Undecodable,
    ComposeFailed(DocErrorView),
    Rendered(Seq<char>),
}

impl View for ReplayEvent {
    type V = ReplayEventView;

    open spec fn view(&self) -> ReplayEventView {
        match *self {
            ReplayEvent::Composed => ReplayEventView::Composed,
            ReplayEvent::Undecodable => ReplayEventView::Undecodable,
            ReplayEvent::ComposeFailed(e) => ReplayEventView::ComposeFailed(e@),
            ReplayEvent::Rendered(data) => ReplayEventView::Rendered(data@),
        }
    }
}

/// What the caller of a replay does next.
#[derive(Debug, PartialEq, Eq)]
pub enum ReplayAction {
    /// Deserialize this payload and compose it onto the accumulated delta.
    Apply(Vec<u8>),
    /// Every payload has been offered: render the accumulated delta.
    Render,
    /// The replay is over with this result.
    Done(Result<Doc, DocError>),
}

/// The mathematical value of a [`ReplayAction`].
pub enum ReplayActionView {
    Apply(Seq<u8>),
    Render,
    Done(Result<DocView, DocErrorView>),
}

/// The mathematical value of a replay's result.
pub open spec fn outcome_view(outcome: Result<Doc, DocError>) -> Result<DocView, DocErrorView> {
    match outcome {
        Ok(doc) => Ok(doc@),
        Err(e) => Err(e@),
    }
}

impl View for ReplayAction {
    type V = ReplayActionView;

    open spec fn view(&self) -> ReplayActionView {
        match *self {
            ReplayAction::Apply(payload) => ReplayActionView::Apply(payload@),
            ReplayAction::Render => ReplayActionView::Render,
            ReplayAction::Done(outcome) => ReplayActionView::Done(outcome_view(outcome)),
        }
    }
}

/// What a replay holds at one moment.
pub struct ReplayView {
    /// The document that is rebuilt.
    pub doc_id: Seq<char>,
    /// The id of the chain's last revision.
    pub rev_id: i64,
    /// The base id of the chain's last revision.
    pub base_rev_id: i64,
    /// The revision chain, in the order in which it is replayed.
    pub chain: Seq<RevisionView>,
    /// How many revisions of the chain have been dealt with.
    pub cursor: int,
    /// The ids of the revisions that were passed over, in chain order.
    pub skipped: Seq<i64>,
    /// The result, once the replay is over.
    pub outcome: Option<Result<DocView, DocErrorView>>,
}

impl ReplayView {
    /// The replay of a chain that holds at least one revision, before
    /// anything was reported.
    pub open spec fn start(doc_id: Seq<char>, chain: Seq<RevisionView>) -> ReplayView {
        ReplayView {
            doc_id,
            rev_id: chain.last().rev_id,
            base_rev_id: chain.last().base_rev_id,
            chain,
            cursor: 0,
            skipped: Seq::empty(),
            outcome: None,
        }
    }

    /// Whether revisions of the chain are still to be offered.
    pub open spec fn applying(self) -> bool {
        self.outcome is None && 0 <= self.cursor < self.chain.len()
    }

    /// The snapshot that the replay yields for the rendered content `data`:
    /// it carries the ids of the chain's last revision.
    pub open spec fn snapshot(self, data: Seq<char>) -> DocView {
        DocView { id: self.doc_id, data, rev_id: self.rev_id, base_rev_id: self.base_rev_id }
    }

    /// What the caller does next.
    pub open spec fn action(self) -> ReplayActionView {
        match self.outcome {
            Some(outcome) => ReplayActionView::Done(outcome),
            None => if self.applying() {
                ReplayActionView::Apply(self.chain[self.cursor].delta_data)
            } else {
                ReplayActionView::Render
            },
        }
    }

    /// The replay after the caller's report. A report that does not answer
    /// the current action changes nothing.
    pub open spec fn handle(self, event: ReplayEventView) -> ReplayView {
        if self.outcome is Some {
            self
        } else if self.applying() {
            match event {
                ReplayEventView::Composed => ReplayView { cursor: self.cursor + 1, ..self },
                ReplayEventView::Undecodable => ReplayView {
                    cursor: self.cursor + 1,
                    skipped: self.skipped.push(self.chain[self.cursor].rev_id),
                    ..self
                },
                ReplayEventView::ComposeFailed(e) => ReplayView { outcome: Some(Err(e)), ..self },
                ReplayEventView::Rendered(_) => self,
            }
        } else {
            match event {
                ReplayEventView::Rendered(data) => ReplayView {
                    outcome: Some(Ok(self.snapshot(data))),
                    ..self
                },
                _ => self,
            }
        }
    }

    /// The replay after a sequence of reports.
    pub open spec fn run(self, events: Seq<ReplayEventView>) -> ReplayView
        decreases events.len(),
    {
        if events.len() == 0 {
            self
        } else {
            self.run(events.drop_last()).handle(events.last())
        }
    }
}

/// The replay of one revision chain.
pub struct ChainReplay {
    doc_id: String,
    rev_id: i64,
    base_rev_id: i64,
    chain: Vec<Revision>,
    cursor: usize,
    skipped: Vec<i64>,
    outcome: Option<Result<Doc, DocError>>,
}

impl View for ChainReplay {
    type V = ReplayView;

    closed spec fn view(&self) -> ReplayView {
        ReplayView {
            doc_id: self.doc_id@,
            rev_id: self.rev_id,
            base_rev_id: self.base_rev_id,
            chain: self.chain.deep_view(),
            cursor: self.cursor as int,
            skipped: self.skipped@,
            outcome: match self.outcome {
                Some(outcome) => Some(outcome_view(outcome)),
                None => None,
            },
        }
    }
}

/// Starts rebuilding the document `doc_id` from the revision chain that the
/// durable log holds for it, oldest revision first. Without a single
/// revision there is nothing to rebuild from, and the document is not
/// found.
pub fn fetch_from_local(doc_id: &str, revisions: Vec<Revision>) -> (started: Result<
    ChainReplay,
    DocError,
>)
    ensures
        match started {
            Ok(replay) => revisions@.len() > 0 && replay@ == ReplayView::start(
                doc_id@,
                revisions.deep_view(),
            ),
            Err(e) => revisions@.len() == 0 && e == DocError::NotFound,
        },
{
    let n = revisions.len();
    if n == 0 {
        return Err(DocError::not_found());
    }
    let rev_id = revisions[n - 1].rev_id;
    let base_rev_id = revisions[n - 1].base_rev_id;
    Ok(
        ChainReplay {
            doc_id: doc_id.to_owned(),
            rev_id,
            base_rev_id,
            chain: revisions,
            cursor: 0,
            skipped: Vec::new(),
            outcome: None,
        },
    )
}

impl ChainReplay {
    /// What the caller does next.
    pub fn action(&self) -> (next: ReplayAction)
        ensures
            next@ == self@.action(),
    {
        match &self.outcome {
            Some(Ok(doc)) => ReplayAction::Done(Ok(doc.clone())),
            Some(Err(e)) => ReplayAction::Done(Err(e.clone())),
            None => if self.cursor < self.chain.len() {
                ReplayAction::Apply(self.chain[self.cursor].delta_data.clone())
            } else {
                ReplayAction::Render
            },
        }
    }

    /// Takes note of the caller's report on the current action.
    ///
    /// A payload that was composed, or that could not be deserialized, is
    /// dealt with, and the replay moves on to the next one; the id of a
    /// revision passed over is kept. A failed composition ends the replay
    /// with that error. The rendered content ends it with the snapshot. A
    /// report that does not answer the current action changes nothing.
    pub fn handle(&mut self, event: ReplayEvent)
        ensures
            final(self)@ == old(self)@.handle(event@),
    {
        if self.outcome.is_some() {
            return ;
        }
        if self.cursor < self.chain.len() {
            match event {
                ReplayEvent::Composed => {
                    self.cursor = self.cursor + 1;
                },
                ReplayEvent::Undecodable => {
                    self.skipped.push(self.chain[self.cursor].rev_id);
                    self.cursor = self.cursor + 1;
                },
                ReplayEvent::ComposeFailed(e) => {
                    self.outcome = Some(Err(e));
                },
                ReplayEvent::Rendered(_) => {},
            }
        } else {
            match event {
                ReplayEvent::Rendered(data) => {
                    self.outcome = Some(
                        Ok(
                            Doc {
                                id: self.doc_id.clone(),
                                data,
                                rev_id: self.rev_id,
                                base_rev_id: self.base_rev_id,
                            },
                        ),
                    );
                },
                _ => {},
            }
        }
    }

    /// The ids of the revisions that were passed over so far because their
    /// payload could not be deserialized, in chain order.
    pub fn skipped(&self) -> (ids: &Vec<i64>)
        ensures
            ids@ == self@.skipped,
    {
        &self.skipped
    }
}

} // verus!
