//! The error answered to an API request: a code, a message and an HTTP
//! status.

use vstd::prelude::*;
use crate::text::{chars_of, concat, owned, string_of};

verus! {

/// HTTP 200.
pub const STATUS_OK: u16 = 200;
/// HTTP 401.
pub const STATUS_UNAUTHORIZED: u16 = 401;
/// HTTP 404.
pub const STATUS_NOT_FOUND: u16 = 404;
/// HTTP 500.
pub const STATUS_INTERNAL: u16 = 500;

/// An error answer.
#[derive(Debug, Clone)]
pub struct AppError {
    pub code: i32,
    pub msg: String,
    pub status: u16,
}

/// The error refuses a request with the message.
pub open spec fn is_bad_request(e: AppError, msg: Seq<char>) -> bool {
    e.code == 1000 && e.status == STATUS_OK && e.msg@ == msg
}

/// The error denies a request without the right, with the message.
pub open spec fn is_unauthorized(e: AppError, msg: Seq<char>) -> bool {
    e.code == 1001 && e.status == STATUS_UNAUTHORIZED && e.msg@ == msg
}

/// The error answers that something is not there, with the message.
pub open spec fn is_not_found(e: AppError, msg: Seq<char>) -> bool {
    e.code == 1002 && e.status == STATUS_NOT_FOUND && e.msg@ == msg
}

impl AppError {
    /// An error with the given code, answered with HTTP 200.
    pub fn new(code: i32, msg: &str) -> (r: AppError)
        ensures
            r.code == code,
            r.msg@ == msg@,
            r.status == STATUS_OK,
    {
        AppError { code, msg: owned(msg), status: STATUS_OK }
    }

    /// An error with the given code and HTTP status.
    pub fn with_status(code: i32, msg: &str, status: u16) -> (r: AppError)
        ensures
            r.code == code,
            r.msg@ == msg@,
            r.status == status,
    {
        AppError { code, msg: owned(msg), status }
    }

    /// A refused request: code 1000, HTTP 200.
    pub fn bad_request(msg: &str) -> (r: AppError)
        ensures
            r.code == 1000,
            r.msg@ == msg@,
            r.status == STATUS_OK,
    {
        Self::new(1000, msg)
    }

    /// A request without the right: code 1001, HTTP 401.
    pub fn unauthorized(msg: &str) -> (r: AppError)
        ensures
            r.code == 1001,
            r.msg@ == msg@,
            r.status == STATUS_UNAUTHORIZED,
    {
        Self::with_status(1001, msg, STATUS_UNAUTHORIZED)
    }

    /// A request for something that is not there: code 1002, HTTP 404.
    pub fn not_found(msg: &str) -> (r: AppError)
        ensures
            r.code == 1002,
            r.msg@ == msg@,
            r.status == STATUS_NOT_FOUND,
    {
        Self::with_status(1002, msg, STATUS_NOT_FOUND)
    }

    /// A failure of the service: code 5000, HTTP 500.
    pub fn internal(msg: &str) -> (r: AppError)
        ensures
            r.code == 5000,
            r.msg@ == msg@,
            r.status == STATUS_INTERNAL,
    {
        Self::with_status(5000, msg, STATUS_INTERNAL)
    }
}

} // verus!
