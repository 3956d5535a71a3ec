//! The error type shared by every operation of the store.

use vstd::prelude::*;

verus! {

/// Why an operation of the store failed.
#[derive(Debug, PartialEq, Eq)]
pub enum DocError {
    /// A revision with this id is already cached.
    DuplicateRevision { rev_id: i64 },
    /// No revision chain exists, or a requested range cannot be filled.
    NotFound,
    /// A delta could not be deserialized or composed.
    Serialization { msg: String },
    /// The durable log failed.
    Storage { msg: String },
    /// The remote peer failed.
    Remote { msg: String },
}

/// The mathematical value of a [`DocError`].
pub enum DocErrorView {
    DuplicateRevision { rev_id: i64 },
    NotFound,
    Serialization { msg: Seq<char> },
    Storage { msg: Seq<char> },
    Remote { msg: Seq<char> },
}

impl View for DocError {
    type V = DocErrorView;

    open spec fn view(&self) -> DocErrorView {
        match *self {
            DocError::DuplicateRevision { rev_id } => DocErrorView::DuplicateRevision { rev_id },
            DocError::NotFound => DocErrorView::NotFound,
            DocError::Serialization { msg } => DocErrorView::Serialization { msg: msg@ },
            DocError::Storage { msg } => DocErrorView::Storage { msg: msg@ },
            DocError::Remote { msg } => DocErrorView::Remote { msg: msg@ },
        }
    }
}

impl DeepView for DocError {
    type V = DocErrorView;

    open spec fn deep_view(&self) -> DocErrorView {
        self@
    }
}

impl Clone for DocError {
    fn clone(&self) -> (copy: Self)
        ensures
            copy@ == self@,
    {
        match self {
            DocError::DuplicateRevision { rev_id } => DocError::DuplicateRevision {
                rev_id: *rev_id,
            },
            DocError::NotFound => DocError::NotFound,
            DocError::Serialization { msg } => DocError::Serialization { msg: msg.clone() },
            DocError::Storage { msg } => DocError::Storage { msg: msg.clone() },
            DocError::Remote { msg } => DocError::Remote { msg: msg.clone() },
        }
    }
}

impl DocError {
    /// The error for a revision whose id is already cached.
    pub fn duplicate_rev(rev_id: i64) -> (e: DocError)
        ensures
            e == (DocError::DuplicateRevision { rev_id }),
    {
        DocError::DuplicateRevision { rev_id }
    }

    /// The error for a missing revision chain.
    pub fn not_found() -> (e: DocError)
        ensures
            e == DocError::NotFound,
    {
        DocError::NotFound
    }
}

} // verus!
