//! The session handle: one auth state per logical request chain, plus a
//! side channel that keeps the last decision's payload readable through
//! plain-value accessors, for callers whose boundary passes the decision
//! kind as a bare enumerated value.

use vstd::prelude::*;
use crate::auth::{AuthDecision, AuthState};
use crate::decision::{decide, engine_step};
use crate::model::{
    fail_reason_code, spec_fail_reason_code, spec_retry_reason_code, retry_reason_code, Decision,
    Outcome, RequestContext,
};

verus! {

/// One handle per logical request chain.
#[allow(non_camel_case_types)]
pub struct transport_core_client {
    pub auth_state: AuthState,
    pub last_decision: Option<Decision>,
}

/// The delay readable after a decision: the `after_ms` of a Retry or
/// RefreshAndRetry, 0 otherwise.
pub open spec fn last_retry_after_of(last: Option<Decision>) -> u32 {
    match last {
        Some(Decision::Retry { after_ms, .. }) => after_ms,
        Some(Decision::RefreshAndRetry { after_ms }) => after_ms,
        _ => 0,
    }
}

/// The retry-reason code readable after a decision: the coded reason of
/// a Retry, 0 otherwise.
pub open spec fn last_retry_reason_of(last: Option<Decision>) -> u8 {
    match last {
        Some(Decision::Retry { reason, .. }) => spec_retry_reason_code(reason),
        _ => 0,
    }
}

/// The fail-reason code readable after a decision: the coded reason of a
/// Fail, 0 otherwise.
pub open spec fn last_fail_reason_of(last: Option<Decision>) -> u8 {
    match last {
        Some(Decision::Fail { reason, .. }) => spec_fail_reason_code(reason),
        _ => 0,
    }
}

/// The retryable flag readable after a decision: the flag of a Fail,
/// false otherwise.
pub open spec fn last_fail_retryable_of(last: Option<Decision>) -> bool {
    match last {
        Some(Decision::Fail { retryable, .. }) => retryable,
        _ => false,
    }
}

impl transport_core_client {
    /// Fresh handle: a new chain with nothing attempted and no decision
    /// made yet.
    pub fn new() -> (c: Self)
        ensures
            !c.auth_state.refresh_attempted,
            !c.auth_state.refresh_in_progress,
            c.last_decision is None,
    {
        Self {
            auth_state: AuthState::new(),
            last_decision: None,
        }
    }

    /// Decide the next action for this chain and record the decision for
    /// the accessors below.
    pub fn decide(
        &mut self,
        ctx: &RequestContext,
        outcome: Outcome,
        auth_decision: Option<AuthDecision>,
        refresh_result: Option<bool>,
    ) -> (d: Decision)
        ensures
            d == engine_step(*ctx, outcome, auth_decision, old(self).auth_state, refresh_result).0,
            final(self).auth_state == engine_step(
                *ctx,
                outcome,
                auth_decision,
                old(self).auth_state,
                refresh_result,
            ).1,
            final(self).last_decision == Some(d),
    {
        let d = decide(ctx, outcome, auth_decision, &mut self.auth_state, refresh_result);
        self.last_decision = Some(d);
        d
    }

    pub fn last_retry_after_ms(&self) -> (ms: u32)
        ensures
            ms == last_retry_after_of(self.last_decision),
    {
        match &self.last_decision {
            Some(Decision::Retry { after_ms, .. }) => *after_ms,
            Some(Decision::RefreshAndRetry { after_ms }) => *after_ms,
            _ => 0,
        }
    }

    pub fn last_retry_reason(&self) -> (code: u8)
        ensures
            code == last_retry_reason_of(self.last_decision),
    {
        match &self.last_decision {
            Some(Decision::Retry { reason, .. }) => retry_reason_code(*reason),
            _ => 0,
        }
    }

    pub fn last_fail_reason(&self) -> (code: u8)
        ensures
            code == last_fail_reason_of(self.last_decision),
    {
        match &self.last_decision {
            Some(Decision::Fail { reason, .. }) => fail_reason_code(*reason),
            _ => 0,
        }
    }

    pub fn last_fail_retryable(&self) -> (retryable: bool)
        ensures
            retryable == last_fail_retryable_of(self.last_decision),
    {
        match &self.last_decision {
            Some(Decision::Fail { retryable, .. }) => *retryable,
            _ => false,
        }
    }
}

} // verus!
