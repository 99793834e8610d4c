use transport_core::auth::AuthDecision;
use transport_core::client::transport_core_client;
use transport_core::model::{Decision, FailReason, HttpMethod, Outcome, RequestContext, RetryReason};

fn ctx(method: HttpMethod, attempt: u8, max_attempts: u8) -> RequestContext {
    RequestContext {
        method,
        attempt,
        max_attempts,
        idempotency_key: None,
        allow_non_idempotent_retry: false,
    }
}

#[test]
fn fresh_client_reports_empty_side_channel() {
    let c = transport_core_client::new();
    assert_eq!(c.last_retry_after_ms(), 0);
    assert_eq!(c.last_retry_reason(), 0);
    assert_eq!(c.last_fail_reason(), 0);
    assert!(!c.last_fail_retryable());
}

#[test]
fn client_records_retry_decision() {
    let mut c = transport_core_client::new();
    let d = c.decide(&ctx(HttpMethod::GET, 1, 3), Outcome::NetworkError, None, None);
    assert_eq!(d, Decision::Retry { after_ms: 200, reason: RetryReason::NetworkError });
    assert_eq!(c.last_retry_after_ms(), 200);
    assert_eq!(c.last_retry_reason(), 1);
    assert_eq!(c.last_fail_reason(), 0);
    assert!(!c.last_fail_retryable());
}

#[test]
fn client_records_fail_decision() {
    let mut c = transport_core_client::new();
    let d = c.decide(&ctx(HttpMethod::GET, 1, 3), Outcome::Blocked, None, None);
    assert_eq!(d, Decision::Fail { reason: FailReason::HardBlocked, retryable: false });
    assert_eq!(c.last_fail_reason(), 3);
    assert!(!c.last_fail_retryable());
    assert_eq!(c.last_retry_after_ms(), 0);
    assert_eq!(c.last_retry_reason(), 0);
}

#[test]
fn client_records_refresh_and_retry_delay() {
    let mut c = transport_core_client::new();
    let d = c.decide(
        &ctx(HttpMethod::GET, 1, 3),
        Outcome::HttpStatus(401),
        Some(AuthDecision::RefreshAndRetry),
        None,
    );
    assert_eq!(d, Decision::RefreshAndRetry { after_ms: 0 });
    assert_eq!(c.last_retry_after_ms(), 0);
    // a RefreshAndRetry carries no retry reason
    assert_eq!(c.last_retry_reason(), 0);
}

#[test]
fn client_carries_auth_state_across_calls() {
    let mut c = transport_core_client::new();
    let first = c.decide(
        &ctx(HttpMethod::GET, 1, 3),
        Outcome::HttpStatus(401),
        Some(AuthDecision::RefreshAndRetry),
        None,
    );
    assert_eq!(first, Decision::RefreshAndRetry { after_ms: 0 });
    let second = c.decide(
        &ctx(HttpMethod::GET, 1, 3),
        Outcome::HttpStatus(401),
        Some(AuthDecision::RefreshAndRetry),
        Some(true),
    );
    assert_eq!(second, Decision::RefreshAndRetry { after_ms: 0 });
    // the chain's one refresh is spent: a third auth error fails
    let third = c.decide(
        &ctx(HttpMethod::GET, 2, 3),
        Outcome::HttpStatus(401),
        Some(AuthDecision::RefreshAndRetry),
        None,
    );
    assert_eq!(third, Decision::Fail { reason: FailReason::AuthFailed, retryable: false });
    assert_eq!(c.last_fail_reason(), 2);
    assert_eq!(c.last_retry_after_ms(), 0);
}

#[test]
fn client_rate_limit_hint_round_trip() {
    let mut c = transport_core_client::new();
    let d = c.decide(
        &ctx(HttpMethod::GET, 1, 3),
        Outcome::RateLimited { retry_after_ms: Some(7000) },
        None,
        None,
    );
    assert_eq!(d, Decision::Retry { after_ms: 7000, reason: RetryReason::RateLimited });
    assert_eq!(c.last_retry_after_ms(), 7000);
    assert_eq!(c.last_retry_reason(), 3);
}
