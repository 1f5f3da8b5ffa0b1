use vstd::prelude::*;

verus! {

/// The abstract value of a [`RepoError`], used in contracts.
pub enum ErrorView {
    InvalidId,
    NotFound,
    Store { message: Seq<char> },
}

/// What a repository operation reports when it cannot return a value.
///
/// Every operation returns one of these instead of aborting: an identifier
/// that does not parse, a lookup that finds nothing, and a store failure are
/// all recoverable, reported conditions.
#[derive(Debug, Clone, PartialEq, Eq)]
pub enum RepoError {
    /// The caller-supplied identifier string is not a syntactically valid
    /// store identifier.
    InvalidId,
    /// No record with the given identifier exists.
    NotFound,
    /// The backing store failed or rejected the operation; the message
    /// carries the store's own description of the failure.
    Store { message: String },
}

impl View for RepoError {
    type V = ErrorView;

    open spec fn view(&self) -> ErrorView {
        match self {
            RepoError::InvalidId => ErrorView::InvalidId,
            RepoError::NotFound => ErrorView::NotFound,
            RepoError::Store { message } => ErrorView::Store { message: message@ },
        }
    }
}

} // verus!
