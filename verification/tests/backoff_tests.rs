//! The retry policy: backoff bounds and the scripted resolution.

use canvas_sync::backoff::{
    backoff_base_ms, backoff_delay_ms, resolve_fetch, retry_decision, FetchStep,
};

/// The un-jittered backoff doubles from 500 ms.
#[test]
fn backoff_base_values() {
    assert_eq!(backoff_base_ms(0), 500);
    assert_eq!(backoff_base_ms(1), 1000);
    assert_eq!(backoff_base_ms(2), 2000);
}

/// The jittered delay for attempt `n` lies in `[500 * 2^n, 500 * 2^n * 1.5)`.
#[test]
fn backoff_delay_within_bounds() {
    for _ in 0..200 {
        let d0 = backoff_delay_ms(0);
        assert!((500..750).contains(&d0));
        let d1 = backoff_delay_ms(1);
        assert!((1000..1500).contains(&d1));
        let d2 = backoff_delay_ms(2);
        assert!((2000..3000).contains(&d2));
    }
}

/// Only a rate-limited status is retried, and only before the last
/// attempt.
#[test]
fn retry_decision_cases() {
    assert!(matches!(retry_decision(0, 403), FetchStep::RetryAfter(_)));
    assert!(matches!(retry_decision(1, 403), FetchStep::RetryAfter(_)));
    assert_eq!(retry_decision(2, 403), FetchStep::Accept);
    assert_eq!(retry_decision(0, 200), FetchStep::Accept);
    assert_eq!(retry_decision(0, 404), FetchStep::Accept);
    assert_eq!(retry_decision(0, 500), FetchStep::Accept);
    assert_eq!(retry_decision(1, 401), FetchStep::Accept);
}

/// A rate-limited endpoint answering 403, 403, then 200: exactly three
/// requests are made and the 200 response is the one returned.
#[test]
fn rate_limited_then_ok_makes_three_requests() {
    let (outcome, delays) = resolve_fetch(&vec![403, 403, 200]);
    assert_eq!(outcome.requests_made, 3);
    assert_eq!(outcome.final_status, 200);
    assert_eq!(delays.len(), 2);
    assert!((500..750).contains(&delays[0]));
    assert!((1000..1500).contains(&delays[1]));
}

/// An immediate success makes exactly one request and sleeps never.
#[test]
fn immediate_success_single_request() {
    let (outcome, delays) = resolve_fetch(&vec![200, 403, 403]);
    assert_eq!(outcome.requests_made, 1);
    assert_eq!(outcome.final_status, 200);
    assert!(delays.is_empty());
}

/// One rate-limited answer, then success: two requests, one sleep.
#[test]
fn one_retry_then_success() {
    let (outcome, delays) = resolve_fetch(&vec![403, 201, 403]);
    assert_eq!(outcome.requests_made, 2);
    assert_eq!(outcome.final_status, 201);
    assert_eq!(delays.len(), 1);
}

/// Rate-limited throughout: the retries exhaust and the last 403 is
/// returned as-is, for the caller to degrade.
#[test]
fn exhausted_retries_return_last_response() {
    let (outcome, delays) = resolve_fetch(&vec![403, 403, 403]);
    assert_eq!(outcome.requests_made, 3);
    assert_eq!(outcome.final_status, 403);
    assert_eq!(delays.len(), 2);
}

/// A plain client error is returned without any retry.
#[test]
fn client_error_not_retried() {
    let (outcome, delays) = resolve_fetch(&vec![404, 403, 403]);
    assert_eq!(outcome.requests_made, 1);
    assert_eq!(outcome.final_status, 404);
    assert!(delays.is_empty());
}
