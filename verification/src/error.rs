//! The failures that the library reports.

use vstd::prelude::*;

verus! {

/// Why the backing file could not be used as a store. Writing the file is
/// the caller's work, and so is reporting that it failed.
#[derive(Clone, Copy, Debug, PartialEq, Eq, Structural)]
pub enum StoreError {
    /// The backing file could not be read.
    Unreadable,
    /// The backing file does not hold a JSON object of strings.
    Unparsable,
}

/// Why the state of a nonce account could not be had from the ledger.
#[derive(Clone, Debug, PartialEq, Eq)]
pub enum QueryError {
    /// The ledger has no account at the address.
    NotFound,
    /// There is an account, but it is no initialised nonce account.
    Malformed,
    /// The ledger could not be reached; the cause is kept for the reader.
    Transport(String),
}

/// A `QueryError` as a mathematical value.
pub ghost enum QueryErrorView {
    NotFound,
    Malformed,
    Transport(Seq<char>),
}

impl View for QueryError {
    type V = QueryErrorView;

    open spec fn view(&self) -> QueryErrorView {
        match self {
            QueryError::NotFound => QueryErrorView::NotFound,
            QueryError::Malformed => QueryErrorView::Malformed,
            QueryError::Transport(cause) => QueryErrorView::Transport(cause@),
        }
    }
}

/// Why no nonce account was provisioned. Nothing is recorded in the
/// registry on the way to this error, so the whole step may be tried again.
#[derive(Clone, Debug, PartialEq, Eq)]
pub enum ProvisionError {
    /// The transaction that creates the account did not go through.
    SubmissionFailed(String),
}

/// A `ProvisionError` as a mathematical value.
pub ghost enum ProvisionErrorView {
    SubmissionFailed(Seq<char>),
}

impl View for ProvisionError {
    type V = ProvisionErrorView;

    open spec fn view(&self) -> ProvisionErrorView {
        match self {
            ProvisionError::SubmissionFailed(cause) => ProvisionErrorView::SubmissionFailed(cause@),
        }
    }
}

/// Why a durable-nonce transaction was not carried out.
#[derive(Clone, Debug, PartialEq, Eq)]
pub enum TxError {
    /// The registry names no nonce account for the identity.
    NonceAccountMissing,
    /// The nonce account's state could not be had.
    Query(QueryError),
    /// The nonce moved on between the query and the submission: query
    /// again and build anew.
    StaleNonce,
    /// The transaction did not go through.
    SubmissionFailed(String),
}

/// A `TxError` as a mathematical value.
pub ghost enum TxErrorView {
    NonceAccountMissing,
    Query(QueryErrorView),
    StaleNonce,
    SubmissionFailed(Seq<char>),
}

impl View for TxError {
    type V = TxErrorView;

    open spec fn view(&self) -> TxErrorView {
        match self {
            TxError::NonceAccountMissing => TxErrorView::NonceAccountMissing,
            TxError::Query(error) => TxErrorView::Query(error@),
            TxError::StaleNonce => TxErrorView::StaleNonce,
            TxError::SubmissionFailed(cause) => TxErrorView::SubmissionFailed(cause@),
        }
    }
}

} // verus!
