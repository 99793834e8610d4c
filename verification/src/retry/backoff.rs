//! Delay computation for a recommended retry.

use vstd::prelude::*;
use crate::model::{RequestContext, RetryReason};

verus! {

/// Ceiling applied to any server-supplied retry-after hint.
pub const MAX_RETRY_AFTER_MS: u32 = 120000;

/// Fixed base delay table, by reason for retrying.
pub open spec fn base_delay_ms(reason: RetryReason) -> u32 {
    match reason {
        RetryReason::NetworkError => 200,
        RetryReason::Timeout => 500,
        RetryReason::RateLimited => 1500,
        RetryReason::AuthExpired => 0,
    }
}

/// A server hint, clamped to the ceiling.
pub open spec fn clamped_hint(ms: u32) -> u32 {
    if ms <= MAX_RETRY_AFTER_MS {
        ms
    } else {
        MAX_RETRY_AFTER_MS
    }
}

/// Delay before the next attempt when retrying for `reason` without a
/// server hint. The context takes no part in the table today; it is
/// passed so policy could later depend on it.
pub fn retry_delay_ms(_ctx: &RequestContext, reason: RetryReason) -> (ms: u32)
    ensures
        ms == base_delay_ms(reason),
{
    match reason {
        RetryReason::NetworkError => 200,
        RetryReason::Timeout => 500,
        RetryReason::RateLimited => 1500,
        RetryReason::AuthExpired => 0,
    }
}

/// Clamp a server-supplied retry-after hint to the ceiling.
pub fn clamp_retry_after(ms: u32) -> (r: u32)
    ensures
        r == clamped_hint(ms),
        r <= MAX_RETRY_AFTER_MS,
{
    if ms <= MAX_RETRY_AFTER_MS {
        ms
    } else {
        MAX_RETRY_AFTER_MS
    }
}

/// No clamped hint ever exceeds 120000 ms.
pub proof fn lemma_clamped_hint_bounded(ms: u32)
    ensures
        clamped_hint(ms) <= 120000,
{
}

} // verus!
