//! The decision engine: one outcome in, one decision out.

use vstd::prelude::*;
use crate::auth::{auth_error_step, AuthDecision, AuthState};
use crate::error::{classification, classify_http_status, ErrorCategory};
use crate::model::{Decision, FailReason, Outcome, RequestContext, RetryReason};
use crate::retry::{can_retry, retry_permitted};
use crate::retry::backoff::{base_delay_ms, clamp_retry_after, clamped_hint, retry_delay_ms};

verus! {

/// Retry for `reason` after `after_ms` if the retry gate permits, otherwise
/// fail for an exceeded attempt budget.
pub open spec fn gated_retry(ctx: RequestContext, reason: RetryReason, after_ms: u32) -> Decision {
    if retry_permitted(ctx) {
        Decision::Retry { after_ms, reason }
    } else {
        Decision::Fail { reason: FailReason::MaxAttemptsExceeded, retryable: false }
    }
}

/// The decision and successor auth state for one attempt's outcome.
///
/// Network and timeout errors retry (gated) with their base delays. A
/// rate limit retries (gated) after the clamped server hint, or the base
/// delay when no hint came. Blocked and Captcha are policy-terminal:
/// HardBlocked whatever the budget. A legacy status code is classified
/// first: auth errors go through the refresh coordinator, rate limits
/// through the retry gate, and every other category fails as Unknown. Only the
/// auth path ever touches the auth state.
pub open spec fn engine_step(
    ctx: RequestContext,
    outcome: Outcome,
    directive: Option<AuthDecision>,
    st: AuthState,
    refresh_result: Option<bool>,
) -> (Decision, AuthState) {
    match outcome {
        Outcome::NetworkError => (
            gated_retry(ctx, RetryReason::NetworkError, base_delay_ms(RetryReason::NetworkError)),
            st,
        ),
        Outcome::TimeoutError => (
            gated_retry(ctx, RetryReason::Timeout, base_delay_ms(RetryReason::Timeout)),
            st,
        ),
        Outcome::RateLimited { retry_after_ms } => (
            gated_retry(
                ctx,
                RetryReason::RateLimited,
                match retry_after_ms {
                    Some(ms) => clamped_hint(ms),
                    None => base_delay_ms(RetryReason::RateLimited),
                },
            ),
            st,
        ),
        Outcome::Blocked => (
            Decision::Fail { reason: FailReason::HardBlocked, retryable: false },
            st,
        ),
        Outcome::Captcha => (
            Decision::Fail { reason: FailReason::HardBlocked, retryable: false },
            st,
        ),
        Outcome::HttpStatus(status) => match classification(status) {
            ErrorCategory::AuthError => auth_error_step(ctx, directive, st, refresh_result),
            ErrorCategory::RateLimitError => (
                gated_retry(ctx, RetryReason::RateLimited, base_delay_ms(RetryReason::RateLimited)),
                st,
            ),
            _ => (
                Decision::Fail { reason: FailReason::Unknown, retryable: false },
                st,
            ),
        },
    }
}

/// Decide the next action after one attempt. Pure policy: no I/O, no
/// waiting; the caller acts on the returned decision and carries the
/// auth state forward to the next attempt of the same chain.
pub fn decide(
    ctx: &RequestContext,
    outcome: Outcome,
    auth_decision: Option<AuthDecision>,
    auth_state: &mut AuthState,
    refresh_result: Option<bool>,
) -> (d: Decision)
    ensures
        d == engine_step(*ctx, outcome, auth_decision, *old(auth_state), refresh_result).0,
        *final(auth_state) == engine_step(*ctx, outcome, auth_decision, *old(auth_state), refresh_result).1,
{
    match outcome {
        Outcome::RateLimited { retry_after_ms } => {
            if can_retry(ctx) {
                let base = retry_delay_ms(ctx, RetryReason::RateLimited);
                let after_ms = match retry_after_ms {
                    Some(ms) => clamp_retry_after(ms),
                    None => base,
                };
                Decision::Retry { after_ms, reason: RetryReason::RateLimited }
            } else {
                Decision::Fail { reason: FailReason::MaxAttemptsExceeded, retryable: false }
            }
        },
        Outcome::Blocked | Outcome::Captcha => {
            Decision::Fail { reason: FailReason::HardBlocked, retryable: false }
        },
        Outcome::NetworkError => {
            if can_retry(ctx) {
                Decision::Retry {
                    after_ms: retry_delay_ms(ctx, RetryReason::NetworkError),
                    reason: RetryReason::NetworkError,
                }
            } else {
                Decision::Fail { reason: FailReason::MaxAttemptsExceeded, retryable: false }
            }
        },
        Outcome::TimeoutError => {
            if can_retry(ctx) {
                Decision::Retry {
                    after_ms: retry_delay_ms(ctx, RetryReason::Timeout),
                    reason: RetryReason::Timeout,
                }
            } else {
                Decision::Fail { reason: FailReason::MaxAttemptsExceeded, retryable: false }
            }
        },
        Outcome::HttpStatus(status) => match classify_http_status(status) {
            ErrorCategory::AuthError => {
                auth_state.on_auth_error(ctx, auth_decision, refresh_result)
            },
            ErrorCategory::RateLimitError => {
                if can_retry(ctx) {
                    Decision::Retry {
                        after_ms: retry_delay_ms(ctx, RetryReason::RateLimited),
                        reason: RetryReason::RateLimited,
                    }
                } else {
                    Decision::Fail { reason: FailReason::MaxAttemptsExceeded, retryable: false }
                }
            },
            _ => Decision::Fail { reason: FailReason::Unknown, retryable: false },
        },
    }
}

/// With the attempt budget spent, no outcome ever yields Retry or
/// RefreshAndRetry: every path is gated on the budget.
pub proof fn lemma_spent_budget_never_retries(
    ctx: RequestContext,
    outcome: Outcome,
    directive: Option<AuthDecision>,
    st: AuthState,
    refresh_result: Option<bool>,
)
    requires
        ctx.attempt >= ctx.max_attempts,
    ensures
        !(engine_step(ctx, outcome, directive, st, refresh_result).0 is Retry),
        !(engine_step(ctx, outcome, directive, st, refresh_result).0 is RefreshAndRetry),
{
}

/// Blocked and Captcha outcomes fail as HardBlocked whatever the attempt
/// budget and whatever the auth state.
pub proof fn lemma_hard_block_terminal(
    ctx: RequestContext,
    outcome: Outcome,
    directive: Option<AuthDecision>,
    st: AuthState,
    refresh_result: Option<bool>,
)
    requires
        outcome is Blocked || outcome is Captcha,
    ensures
        engine_step(ctx, outcome, directive, st, refresh_result).0
            == (Decision::Fail { reason: FailReason::HardBlocked, retryable: false }),
{
}

/// Once the chain's refresh has been spent, an auth-classified status
/// fails with AuthFailed; a second refresh is never offered.
pub proof fn lemma_spent_refresh_fails_auth_status(
    ctx: RequestContext,
    status: u16,
    directive: Option<AuthDecision>,
    st: AuthState,
    refresh_result: Option<bool>,
)
    requires
        st.refresh_attempted,
        !st.refresh_in_progress,
        classification(status) == ErrorCategory::AuthError,
    ensures
        engine_step(ctx, Outcome::HttpStatus(status), directive, st, refresh_result).0
            == (Decision::Fail { reason: FailReason::AuthFailed, retryable: false }),
        engine_step(ctx, Outcome::HttpStatus(status), directive, st, refresh_result).1 == st,
{
}

/// Any retry recommended for a RateLimited outcome waits at most
/// 120000 ms, hint or no hint.
pub proof fn lemma_rate_limited_delay_bounded(
    ctx: RequestContext,
    outcome: Outcome,
    directive: Option<AuthDecision>,
    st: AuthState,
    refresh_result: Option<bool>,
)
    requires
        outcome is RateLimited,
    ensures
        engine_step(ctx, outcome, directive, st, refresh_result).0 matches Decision::Retry {
            after_ms,
            ..
        } ==> after_ms <= 120000,
{
}

/// The engine never returns Proceed: that variant belongs to a
/// caller-side success path that short-circuits before the engine.
pub proof fn lemma_never_proceed(
    ctx: RequestContext,
    outcome: Outcome,
    directive: Option<AuthDecision>,
    st: AuthState,
    refresh_result: Option<bool>,
)
    ensures
        !(engine_step(ctx, outcome, directive, st, refresh_result).0 is Proceed),
{
}

/// Every Fail the engine returns is terminal: its `retryable` flag is
/// always false.
pub proof fn lemma_fail_never_retryable(
    ctx: RequestContext,
    outcome: Outcome,
    directive: Option<AuthDecision>,
    st: AuthState,
    refresh_result: Option<bool>,
)
    ensures
        engine_step(ctx, outcome, directive, st, refresh_result).0 matches Decision::Fail {
            retryable,
            ..
        } ==> !retryable,
{
}

} // verus!
