//! The library's error type.
use vstd::prelude::*;

verus! {

/// What went wrong with a request, in the terms the HTTP layer answers with.
#[derive(Debug, Clone)]
pub enum AppError {
    /// The request is malformed or not allowed in the current state (400).
    BadRequest(String),
    /// The caller lacks access (403).
    Forbidden,
    /// The object does not exist (404).
    NotFound,
    /// The instance is sealed (503).
    Sealed,
    /// The instance has not been initialised yet.
    Uninitialized,
    /// Stored material is inconsistent, or an internal step failed (500).
    Internal(String),
}

/// `e` is a `BadRequest` carrying exactly `msg`.
pub open spec fn is_bad_request(e: AppError, msg: Seq<char>) -> bool {
    e matches AppError::BadRequest(m) && m@ == msg
}

/// `e` is an `Internal` error carrying exactly `msg`.
pub open spec fn is_internal(e: AppError, msg: Seq<char>) -> bool {
    e matches AppError::Internal(m) && m@ == msg
}

} // verus!
