//! The kinds of failure a repository operation can end in.

use vstd::prelude::*;
use vstd::string::StringExecFns;

verus! {

/// Why a repository operation failed. The first three kinds carry the message
/// shown to the caller; the last two are reported with a fixed message, so that
/// no detail of the store reaches the caller.
#[derive(Debug, PartialEq, Eq)]
pub enum RepoError {
    /// An identity or natural-key lookup found no row.
    NotFound(String),
    /// The natural key of a row to create is already taken.
    Conflict(String),
    /// The request is malformed: an empty patch, a name outside the allow-list,
    /// a negative page bound.
    ValidationError(String),
    /// The store failed.
    StoreError,
    /// No connection could be had in time.
    ServiceUnavailable,
}

/// The mathematical content of a [`RepoError`].
pub enum Failure {
    NotFound(Seq<char>),
    Conflict(Seq<char>),
    ValidationError(Seq<char>),
    StoreError,
    ServiceUnavailable,
}

impl View for RepoError {
    type V = Failure;

    open spec fn view(&self) -> Failure {
        match self {
            RepoError::NotFound(m) => Failure::NotFound(m@),
            RepoError::Conflict(m) => Failure::Conflict(m@),
            RepoError::ValidationError(m) => Failure::ValidationError(m@),
            RepoError::StoreError => Failure::StoreError,
            RepoError::ServiceUnavailable => Failure::ServiceUnavailable,
        }
    }
}

/// Message of a failed store operation.
pub const STORE_ERROR_MESSAGE: &'static str = "資料庫操作失敗";

/// Message of an exhausted connection pool.
pub const UNAVAILABLE_MESSAGE: &'static str = "服務暫時無法使用";

/// The HTTP status that reports a failure.
pub open spec fn status_of(f: Failure) -> int {
    match f {
        Failure::NotFound(_) => 404,
        Failure::Conflict(_) => 409,
        Failure::ValidationError(_) => 400,
        Failure::StoreError => 500,
        Failure::ServiceUnavailable => 503,
    }
}

/// The message that reports a failure.
pub open spec fn message_of(f: Failure) -> Seq<char> {
    match f {
        Failure::NotFound(m) => m,
        Failure::Conflict(m) => m,
        Failure::ValidationError(m) => m,
        Failure::StoreError => STORE_ERROR_MESSAGE@,
        Failure::ServiceUnavailable => UNAVAILABLE_MESSAGE@,
    }
}

impl RepoError {
    /// The HTTP status that reports this failure.
    pub fn status(&self) -> (code: u16)
        ensures
            code == status_of(self@),
    {
        match self {
            RepoError::NotFound(_) => 404,
            RepoError::Conflict(_) => 409,
            RepoError::ValidationError(_) => 400,
            RepoError::StoreError => 500,
            RepoError::ServiceUnavailable => 503,
        }
    }

    /// The message that reports this failure.
    pub fn message(&self) -> (text: String)
        ensures
            text@ == message_of(self@),
    {
        match self {
            RepoError::NotFound(m) => m.clone(),
            RepoError::Conflict(m) => m.clone(),
            RepoError::ValidationError(m) => m.clone(),
            RepoError::StoreError => String::from_str(STORE_ERROR_MESSAGE),
            RepoError::ServiceUnavailable => String::from_str(UNAVAILABLE_MESSAGE),
        }
    }
}

} // verus!
