//! The envelopes that answer a request.
use vstd::prelude::*;
use crate::review::{error_message, error_status, ReviewError};

verus! {

/// A successful answer, carrying its data.
#[derive(Debug)]
pub struct APIResponse<T> {
    pub success: bool,
    pub data: Option<T>,
}

impl<T> APIResponse<T> {
    /// A successful answer that carries `data`.
    pub fn new(success: bool, data: Option<T>) -> (r: APIResponse<T>)
        ensures
            r.success == success,
            r.data == data,
    {
        APIResponse { success, data }
    }
}

/// A failed answer.
#[derive(Debug)]
pub struct APIError {
    /// The HTTP status; absent for a success.
    pub status_code: Option<u16>,
    /// A message meant for the person who made the request.
    pub user_friendly_message: Option<String>,
    /// A code that the particular endpoint defines.
    pub error_code: Option<String>,
}

impl APIError {
    /// The answer that reports `e`.
    pub fn from_review_error(e: ReviewError) -> (r: APIError)
        ensures
            r.status_code == Some(error_status(e)),
            r.user_friendly_message matches Some(m) && m@ == error_message(e),
            r.error_code is None,
    {
        APIError {
            status_code: Some(e.status_code()),
            user_friendly_message: Some(e.user_message()),
            error_code: None,
        }
    }
}

/// How many users someone (or everyone) discovered and reviewed, in total and
/// since the start of the month.
#[derive(Clone, Copy, Debug, PartialEq, Eq, Structural)]
pub struct UserStats {
    pub users_discovered: i64,
    pub users_discovered_this_month: i64,
    pub users_reviewed: i64,
    pub users_reviewed_this_month: i64,
}

} // verus!
