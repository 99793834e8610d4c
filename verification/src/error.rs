//! Classification of raw HTTP status codes into semantic error categories.
//!
//! Used only on the legacy `Outcome::HttpStatus` path; semantic outcomes
//! bypass classification entirely.

use vstd::prelude::*;

verus! {

/// Semantic category of a status-code-reported error.
#[derive(Debug, Clone, Copy, PartialEq, Eq, Structural)]
pub enum ErrorCategory {
    NetworkError,
    TimeoutError,
    AuthError,
    RateLimitError,
    FatalError,
    UnknownError,
}

/// The category a given status code classifies to: 401 is an auth error,
/// 429 a rate limit, 5xx a network-level error, a fixed set of 4xx codes
/// is fatal, and everything else is unknown.
pub open spec fn classification(status: u16) -> ErrorCategory {
    if status == 401 {
        ErrorCategory::AuthError
    } else if status == 429 {
        ErrorCategory::RateLimitError
    } else if 500 <= status && status <= 599 {
        ErrorCategory::NetworkError
    } else if status == 400 || status == 403 || status == 404 || status == 409 || status == 422 {
        ErrorCategory::FatalError
    } else {
        ErrorCategory::UnknownError
    }
}

/// Total, pure classifier over every possible status code.
pub fn classify_http_status(status: u16) -> (category: ErrorCategory)
    ensures
        category == classification(status),
{
    if status == 401 {
        ErrorCategory::AuthError
    } else if status == 429 {
        ErrorCategory::RateLimitError
    } else if 500 <= status && status <= 599 {
        ErrorCategory::NetworkError
    } else if status == 400 || status == 403 || status == 404 || status == 409 || status == 422 {
        ErrorCategory::FatalError
    } else {
        ErrorCategory::UnknownError
    }
}

} // verus!
