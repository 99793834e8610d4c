//! The auth-refresh coordinator: gates and records the single
//! refresh-and-retry allowed per attempt chain.
//!
//! Per chain the state machine is Idle (`refresh_attempted` false),
//! RefreshPending (`refresh_attempted` and `refresh_in_progress`), and
//! Exhausted (`refresh_attempted` set, `refresh_in_progress` cleared).
//! At most one credential refresh is ever performed per chain; once the
//! state is Exhausted, every further auth-category error fails.

use vstd::prelude::*;
use crate::model::{Decision, FailReason, RequestContext, RetryReason};
use crate::retry::retry_permitted;
use crate::retry::backoff::base_delay_ms;
use crate::retry::can_retry;
use crate::retry::backoff::retry_delay_ms;

verus! {

/// The caller's directive for an auth-category error: attempt one
/// credential refresh, or give up at once.
#[derive(Debug, Clone, Copy)]
pub enum AuthDecision {
    RefreshAndRetry,
    Fail,
}

/// Session-scoped refresh bookkeeping, created once per logical request
/// chain and carried by the caller across attempts of that chain.
#[derive(Debug, Clone)]
pub struct AuthState {
    pub refresh_in_progress: bool,
    pub refresh_attempted: bool,
}

/// No refresh has been attempted yet for this chain.
pub open spec fn auth_idle(st: AuthState) -> bool {
    !st.refresh_attempted
}

/// A refresh was requested from the caller and its result is still owed.
pub open spec fn auth_refresh_pending(st: AuthState) -> bool {
    st.refresh_attempted && st.refresh_in_progress
}

/// The one refresh for this chain has been spent (performed or denied).
pub open spec fn auth_exhausted(st: AuthState) -> bool {
    st.refresh_attempted && !st.refresh_in_progress
}

/// The decision and successor state for one auth-category error.
///
/// Exhausted: fail with AuthFailed, unconditionally. Idle without a
/// refresh directive: move to Exhausted and fail with AuthFailed.
/// Otherwise (Idle with the directive, or RefreshPending) the refresh
/// result decides: success spends the refresh and, if the retry gate
/// permits, recommends the retry; failure spends it and fails with
/// AuthFailed; no result yet surfaces the request to refresh, provided
/// the retry gate would let the retried attempt happen at all.
pub open spec fn auth_error_step(
    ctx: RequestContext,
    directive: Option<AuthDecision>,
    st: AuthState,
    refresh_result: Option<bool>,
) -> (Decision, AuthState) {
    if auth_exhausted(st) {
        (Decision::Fail { reason: FailReason::AuthFailed, retryable: false }, st)
    } else if auth_idle(st) && !(directive matches Some(AuthDecision::RefreshAndRetry)) {
        (
            Decision::Fail { reason: FailReason::AuthFailed, retryable: false },
            AuthState { refresh_attempted: true, refresh_in_progress: false },
        )
    } else {
        match refresh_result {
            Some(true) => (
                if retry_permitted(ctx) {
                    Decision::RefreshAndRetry { after_ms: base_delay_ms(RetryReason::AuthExpired) }
                } else {
                    Decision::Fail { reason: FailReason::MaxAttemptsExceeded, retryable: false }
                },
                AuthState { refresh_attempted: true, refresh_in_progress: false },
            ),
            Some(false) => (
                Decision::Fail { reason: FailReason::AuthFailed, retryable: false },
                AuthState { refresh_attempted: true, refresh_in_progress: false },
            ),
            None => if retry_permitted(ctx) {
                (
                    Decision::RefreshAndRetry { after_ms: 0 },
                    AuthState { refresh_attempted: true, refresh_in_progress: true },
                )
            } else {
                (
                    Decision::Fail { reason: FailReason::MaxAttemptsExceeded, retryable: false },
                    AuthState { refresh_attempted: true, refresh_in_progress: false },
                )
            },
        }
    }
}

impl AuthState {
    /// Fresh state for a new chain: Idle, nothing attempted.
    pub fn new() -> (st: Self)
        ensures
            !st.refresh_in_progress,
            !st.refresh_attempted,
    {
        Self { refresh_in_progress: false, refresh_attempted: false }
    }

    /// Resolve one auth-category error for this chain, updating the state
    /// exactly as `auth_error_step` describes.
    pub fn on_auth_error(
        &mut self,
        ctx: &RequestContext,
        directive: Option<AuthDecision>,
        refresh_result: Option<bool>,
    ) -> (d: Decision)
        ensures
            d == auth_error_step(*ctx, directive, *old(self), refresh_result).0,
            *final(self) == auth_error_step(*ctx, directive, *old(self), refresh_result).1,
    {
        if self.refresh_attempted && !self.refresh_in_progress {
            return Decision::Fail { reason: FailReason::AuthFailed, retryable: false };
        }
        if !self.refresh_attempted && !matches!(directive, Some(AuthDecision::RefreshAndRetry)) {
            self.refresh_attempted = true;
            self.refresh_in_progress = false;
            return Decision::Fail { reason: FailReason::AuthFailed, retryable: false };
        }
        self.refresh_attempted = true;
        match refresh_result {
            Some(true) => {
                self.refresh_in_progress = false;
                if can_retry(ctx) {
                    Decision::RefreshAndRetry {
                        after_ms: retry_delay_ms(ctx, RetryReason::AuthExpired),
                    }
                } else {
                    Decision::Fail { reason: FailReason::MaxAttemptsExceeded, retryable: false }
                }
            },
            Some(false) => {
                self.refresh_in_progress = false;
                Decision::Fail { reason: FailReason::AuthFailed, retryable: false }
            },
            None => {
                if can_retry(ctx) {
                    self.refresh_in_progress = true;
                    Decision::RefreshAndRetry { after_ms: 0 }
                } else {
                    self.refresh_in_progress = false;
                    Decision::Fail { reason: FailReason::MaxAttemptsExceeded, retryable: false }
                }
            },
        }
    }
}

/// Once `refresh_attempted` is set it is never cleared by a step: the
/// chain's one refresh cannot be re-armed.
pub proof fn lemma_refresh_attempted_monotone(
    ctx: RequestContext,
    directive: Option<AuthDecision>,
    st: AuthState,
    refresh_result: Option<bool>,
)
    ensures
        st.refresh_attempted ==> auth_error_step(ctx, directive, st, refresh_result).1.refresh_attempted,
{
}

/// Once the chain's refresh has been spent, every subsequent
/// auth-category error fails with AuthFailed and leaves the state alone;
/// no second refresh is ever offered.
pub proof fn lemma_exhausted_always_auth_failed(
    ctx: RequestContext,
    directive: Option<AuthDecision>,
    st: AuthState,
    refresh_result: Option<bool>,
)
    requires
        auth_exhausted(st),
    ensures
        auth_error_step(ctx, directive, st, refresh_result).0
            == (Decision::Fail { reason: FailReason::AuthFailed, retryable: false }),
        auth_error_step(ctx, directive, st, refresh_result).1 == st,
{
}

} // verus!
