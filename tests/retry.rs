use datadog_cli::errors::DatadogError;
use datadog_cli::retry::{calculate_backoff, should_retry, AttemptOutcome, RetryState, Step};
use std::time::Duration;

fn backoff(retry_count: u32) -> Duration {
    Duration::from_secs(calculate_backoff(retry_count))
}

#[test]
fn test_calculate_backoff_progression() {
    assert_eq!(backoff(0), Duration::from_secs(1));
    assert_eq!(backoff(1), Duration::from_secs(2));
    assert_eq!(backoff(2), Duration::from_secs(4));
    assert_eq!(backoff(3), Duration::from_secs(8));
    assert_eq!(backoff(4), Duration::from_secs(16));
}

#[test]
fn test_calculate_backoff_edge_cases() {
    assert_eq!(backoff(0), Duration::from_secs(1));
    assert_eq!(backoff(10), Duration::from_secs(1024));
}

#[test]
fn test_should_retry_under_limit() {
    assert!(should_retry(0, 3));
    assert!(should_retry(1, 3));
    assert!(should_retry(2, 3));
}

#[test]
fn test_should_retry_at_limit() {
    assert!(!should_retry(3, 3));
}

#[test]
fn test_should_retry_over_limit() {
    assert!(!should_retry(4, 3));
    assert!(!should_retry(5, 3));
    assert!(!should_retry(100, 3));
}

#[test]
fn test_should_retry_custom_max() {
    assert!(should_retry(4, 5));
    assert!(!should_retry(5, 5));
    assert!(!should_retry(0, 0));
}

#[test]
fn backoff_is_two_to_the_attempt_up_to_ten() {
    for attempt in 0..=10u32 {
        assert_eq!(calculate_backoff(attempt), 1u64 << attempt);
    }
    assert_eq!(calculate_backoff(0), 1);
    assert_eq!(calculate_backoff(3), 8);
}

#[test]
fn backoff_largest_exponent() {
    assert_eq!(calculate_backoff(63), 1u64 << 63);
}

#[test]
fn should_retry_with_zero_budget_never() {
    for attempt in 0..10u32 {
        assert!(!should_retry(attempt, 0));
    }
}

fn status(status: u16, body: &str) -> AttemptOutcome {
    AttemptOutcome::Response { status, body: body.to_string() }
}

#[test]
fn rate_limited_twice_then_success_waits_six_seconds() {
    let mut state = RetryState::new(3);
    let mut waited = 0u64;
    let outcomes = vec![status(429, ""), status(429, ""), status(200, "{\"ok\":true}")];
    let mut delivered = None;
    for outcome in outcomes {
        match state.on_outcome(outcome) {
            Step::Wait(secs) => waited += secs,
            Step::Deliver(body) => delivered = Some(body),
            Step::Fail(e) => panic!("unexpected failure {:?}", e),
        }
    }
    assert_eq!(delivered.as_deref(), Some("{\"ok\":true}"));
    assert_eq!(waited, 6);
    assert_eq!(state.attempt, 2);
}

#[test]
fn retries_exhausted_returns_last_error() {
    let mut state = RetryState::new(3);
    let mut waits = Vec::new();
    for _ in 0..3 {
        match state.on_outcome(status(503, "busy")) {
            Step::Wait(secs) => waits.push(secs),
            _ => panic!("expected a wait"),
        }
    }
    assert_eq!(waits, vec![2, 4, 8]);
    match state.on_outcome(status(401, "bad key")) {
        Step::Fail(e) => assert_eq!(e, DatadogError::AuthError("bad key".to_string())),
        _ => panic!("expected failure"),
    }
}

#[test]
fn auth_errors_are_retried_like_others() {
    let mut state = RetryState::new(1);
    assert!(matches!(state.on_outcome(status(403, "no")), Step::Wait(2)));
    assert!(matches!(state.on_outcome(status(403, "no")), Step::Fail(DatadogError::AuthError(_))));
}

#[test]
fn transport_and_decode_failures_are_network_errors() {
    let mut state = RetryState::new(0);
    match state.on_outcome(AttemptOutcome::Transport("dns failure".to_string())) {
        Step::Fail(e) => assert_eq!(e, DatadogError::NetworkError("dns failure".to_string())),
        _ => panic!("expected failure"),
    }
    match state.on_outcome(AttemptOutcome::Undecodable("missing field".to_string())) {
        Step::Fail(e) => assert_eq!(e, DatadogError::NetworkError("missing field".to_string())),
        _ => panic!("expected failure"),
    }
}

#[test]
fn zero_retries_fails_at_once() {
    let mut state = RetryState::new(0);
    assert!(matches!(state.on_outcome(status(429, "")), Step::Fail(DatadogError::RateLimitError)));
    assert_eq!(state.attempt, 0);
}

#[test]
fn unreadable_bodies() {
    let mut state = RetryState::new(0);
    match state.on_outcome(AttemptOutcome::Unreadable { status: 200, message: "reset".to_string() }) {
        Step::Fail(e) => assert_eq!(e, DatadogError::NetworkError("reset".to_string())),
        _ => panic!("expected failure"),
    }
    match state.on_outcome(AttemptOutcome::Unreadable { status: 401, message: "reset".to_string() }) {
        Step::Fail(e) => assert_eq!(e, DatadogError::AuthError("Unknown error".to_string())),
        _ => panic!("expected failure"),
    }
}
