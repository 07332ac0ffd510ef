use std::time::Duration;

use anthropic::error::{AnthropicError, ApiError, ErrorResponse};
use anthropic::response::Exchange;
use anthropic::retry::{decide, BackoffPolicy, Retrier, Step, DEFAULT_MAX_RETRIES, INVALID_POLICY};

fn rate_limited() -> Exchange<u32> {
    let env = ErrorResponse {
        error: ApiError {
            message: "rate limited".to_string(),
            error_type: "rate_limit_error".to_string(),
            param: None,
            code: None,
        },
    };
    Exchange::failure(429, b"", Some(env))
}

fn json_error() -> serde_json::Error {
    serde_json::from_str::<u32>("x").unwrap_err()
}

#[test]
fn rate_limit_with_offered_delay_waits() {
    match decide(rate_limited(), Some(Duration::from_millis(250)), 0, 10, 0, 1_000) {
        Step::Wait(d) => assert_eq!(d, Duration::from_millis(250)),
        Step::Finish(_) => panic!("expected a wait"),
    }
}

#[test]
fn rate_limit_with_schedule_spent_returns_its_error() {
    match decide(rate_limited(), None, 3, 10, 0, 1_000) {
        Step::Finish(Err(AnthropicError::Api(api))) => assert_eq!(api.message, "rate limited"),
        _ => panic!("expected the rate-limit error"),
    }
}

#[test]
fn rate_limit_at_ceiling_returns_its_error() {
    match decide(rate_limited(), Some(Duration::from_millis(10)), 2, 2, 0, 1_000) {
        Step::Finish(Err(AnthropicError::Api(api))) => assert_eq!(api.error_type, "rate_limit_error"),
        _ => panic!("expected the rate-limit error"),
    }
}

#[test]
fn rate_limit_below_ceiling_waits() {
    assert!(matches!(decide(rate_limited(), Some(Duration::from_millis(10)), 1, 2, 0, 1_000), Step::Wait(_)));
}

#[test]
fn elapsed_time_ceiling_ends_retries() {
    assert!(matches!(
        decide(rate_limited(), Some(Duration::from_millis(10)), 0, 10, 1_000, 1_000),
        Step::Finish(Err(AnthropicError::Api(_)))
    ));
    assert!(matches!(decide(rate_limited(), Some(Duration::from_millis(10)), 0, 10, 999, 1_000), Step::Wait(_)));
}

#[test]
fn other_failure_is_terminal() {
    let x: Exchange<u32> = Exchange::failure(500, b"boom", None);
    match decide(x, Some(Duration::from_millis(10)), 0, 10, 0, 1_000) {
        Step::Finish(Err(AnthropicError::UnexpectedResponse { status, body })) => {
            assert_eq!(status, 500);
            assert_eq!(body, "boom");
        }
        _ => panic!("expected a terminal failure"),
    }
}

#[test]
fn decode_failure_is_never_retried() {
    let x: Exchange<u32> = Exchange::Success(Err(json_error()));
    assert!(matches!(
        decide(x, Some(Duration::from_millis(10)), 0, 10, 0, 1_000),
        Step::Finish(Err(AnthropicError::Deserialize(_)))
    ));
}

#[test]
fn success_finishes() {
    match decide(Exchange::Success(Ok(5u32)), Some(Duration::from_millis(10)), 0, 10, 0, 1_000) {
        Step::Finish(Ok(v)) => assert_eq!(v, 5),
        _ => panic!("expected success"),
    }
}

#[test]
fn retrier_starts_fresh() {
    let r = Retrier::new(BackoffPolicy::default(), 4);
    assert_eq!(r.retries(), 0);
    assert_eq!(r.max_retries(), 4);
}

#[test]
fn retrier_with_no_retries_allowed_finishes_on_rate_limit() {
    let mut r = Retrier::new(BackoffPolicy::default(), 0);
    assert!(matches!(r.after(rate_limited()), Step::Finish(Err(AnthropicError::Api(_)))));
    assert_eq!(r.retries(), 0);
}

#[test]
fn retrier_counts_a_wait() {
    let mut r = Retrier::new(BackoffPolicy::default(), 5);
    match r.after(rate_limited()) {
        Step::Wait(_) => assert_eq!(r.retries(), 1),
        Step::Finish(_) => panic!("a fresh default schedule offers a delay"),
    }
}

#[test]
fn retrier_passes_terminal_outcome_through() {
    let mut r = Retrier::new(BackoffPolicy::default(), DEFAULT_MAX_RETRIES);
    assert!(matches!(r.after(Exchange::<u32>::failure(401, b"no", None)), Step::Finish(Err(_))));
    assert_eq!(r.retries(), 0);
}

#[test]
fn retrier_with_no_time_finishes_on_rate_limit() {
    let policy = BackoffPolicy::new(10, 100, 0).unwrap();
    let mut r = Retrier::new(policy, 5);
    assert!(matches!(r.after(rate_limited()), Step::Finish(Err(AnthropicError::Api(_)))));
    assert_eq!(r.retries(), 0);
}

#[test]
fn retrier_stops_at_its_ceiling() {
    let policy = BackoffPolicy::new(0, 0, 60_000).unwrap();
    let mut r = Retrier::new(policy, 2);
    assert!(matches!(r.after(rate_limited()), Step::Wait(_)));
    assert!(matches!(r.after(rate_limited()), Step::Wait(_)));
    assert!(matches!(r.after(rate_limited()), Step::Finish(Err(AnthropicError::Api(_)))));
    assert_eq!(r.retries(), 2);
}

#[test]
fn default_policy_values() {
    let p = BackoffPolicy::default();
    assert_eq!(p.initial_interval_ms, 500);
    assert_eq!(p.max_interval_ms, 60_000);
    assert_eq!(p.max_elapsed_ms, 900_000);
}

#[test]
fn policy_limits() {
    assert!(BackoffPolicy::new(100, 1_000, 86_400_000).is_ok());
    for (a, b, c) in [(2_000, 1_000, 10), (0, 86_400_001, 10), (0, 10, 86_400_001)] {
        match BackoffPolicy::new(a, b, c) {
            Err(AnthropicError::InvalidRequest(m)) => assert_eq!(m, INVALID_POLICY),
            _ => panic!("expected a refusal"),
        }
    }
}
