//! Data model shared by every component of the decision core.

use vstd::prelude::*;

verus! {

/// HTTP method of the request whose attempt is being judged.
#[derive(Debug, Clone, Copy, PartialEq, Eq, Structural)]
pub enum HttpMethod {
    GET,
    POST,
    PUT,
    DELETE,
    HEAD,
    OPTIONS,
}

/// Immutable snapshot of the request's retry policy, owned by the caller
/// and passed into each decision call. `attempt` is 1-based.
#[derive(Debug, Clone)]
pub struct RequestContext {
    pub method: HttpMethod,
    pub attempt: u8,
    pub max_attempts: u8,
    pub idempotency_key: Option<String>,
    pub allow_non_idempotent_retry: bool,
}

/// What one attempt produced. Semantic variants are preferred;
/// `HttpStatus` is a fallback for hosts that can only report a status code.
#[derive(Debug, Clone, Copy)]
pub enum Outcome {
    NetworkError,
    TimeoutError,
    RateLimited { retry_after_ms: Option<u32> },
    Blocked,
    Captcha,
    HttpStatus(u16),
}

/// Why a retry is being recommended.
#[derive(Debug, Clone, Copy, PartialEq, Eq, Structural)]
pub enum RetryReason {
    NetworkError,
    Timeout,
    RateLimited,
    AuthExpired,
}

/// Which policy terminated the attempt chain.
#[derive(Debug, Clone, Copy, PartialEq, Eq, Structural)]
pub enum FailReason {
    MaxAttemptsExceeded,
    AuthFailed,
    HardBlocked,
    Unknown,
}

/// The engine's verdict for one attempt. `Proceed` exists for a
/// caller-side success path that never reaches the engine.
#[derive(Debug, Clone, Copy, PartialEq, Eq, Structural)]
pub enum Decision {
    Proceed,
    Retry { after_ms: u32, reason: RetryReason },
    RefreshAndRetry { after_ms: u32 },
    Fail { reason: FailReason, retryable: bool },
}

/// Stable small-integer code for a retry reason, for callers that take
/// the reason over a plain-number boundary.
pub fn retry_reason_code(reason: RetryReason) -> (code: u8)
    ensures
        code == spec_retry_reason_code(reason),
{
    match reason {
        RetryReason::NetworkError => 1,
        RetryReason::Timeout => 2,
        RetryReason::RateLimited => 3,
        RetryReason::AuthExpired => 4,
    }
}

pub open spec fn spec_retry_reason_code(reason: RetryReason) -> u8 {
    match reason {
        RetryReason::NetworkError => 1,
        RetryReason::Timeout => 2,
        RetryReason::RateLimited => 3,
        RetryReason::AuthExpired => 4,
    }
}

/// Stable small-integer code for a fail reason, for callers that take
/// the reason over a plain-number boundary.
pub fn fail_reason_code(reason: FailReason) -> (code: u8)
    ensures
        code == spec_fail_reason_code(reason),
{
    match reason {
        FailReason::MaxAttemptsExceeded => 1,
        FailReason::AuthFailed => 2,
        FailReason::HardBlocked => 3,
        FailReason::Unknown => 255,
    }
}

pub open spec fn spec_fail_reason_code(reason: FailReason) -> u8 {
    match reason {
        FailReason::MaxAttemptsExceeded => 1,
        FailReason::AuthFailed => 2,
        FailReason::HardBlocked => 3,
        FailReason::Unknown => 255,
    }
}

} // verus!
