use anthropic::error::{AnthropicError, ApiError, ErrorResponse};
use anthropic::response::{is_success, parse_error, process_response, Exchange};

fn envelope(message: &str, kind: &str) -> ErrorResponse {
    ErrorResponse {
        error: ApiError {
            message: message.to_string(),
            error_type: kind.to_string(),
            param: Some(serde_json::Value::String("max_tokens".to_string())),
            code: None,
        },
    }
}

fn json_error() -> serde_json::Error {
    serde_json::from_str::<serde_json::Value>("{\"id\": ").unwrap_err()
}

#[test]
fn success_statuses() {
    assert!(is_success(200));
    assert!(is_success(299));
    assert!(!is_success(199));
    assert!(!is_success(300));
    assert!(!is_success(429));
}

#[test]
fn envelope_becomes_api_error_with_its_fields() {
    let e = parse_error(400, b"ignored", Some(envelope("bad request", "invalid_request_error")));
    match e {
        AnthropicError::Api(api) => {
            assert_eq!(api.message, "bad request");
            assert_eq!(api.error_type, "invalid_request_error");
            assert_eq!(api.param, Some(serde_json::Value::String("max_tokens".to_string())));
            assert_eq!(api.code, None);
        }
        other => panic!("unexpected {other:?}"),
    }
}

#[test]
fn other_body_keeps_status_and_text() {
    let e = parse_error(502, b"Bad Gateway", None);
    match e {
        AnthropicError::UnexpectedResponse { status, body } => {
            assert_eq!(status, 502);
            assert_eq!(body, "Bad Gateway");
        }
        other => panic!("unexpected {other:?}"),
    }
}

#[test]
fn malformed_bytes_are_read_lossily() {
    let e = parse_error(500, &[b'o', b'k', 0xff, b'!'], None);
    match e {
        AnthropicError::UnexpectedResponse { status, body } => {
            assert_eq!(status, 500);
            assert_eq!(body, "ok\u{FFFD}!");
        }
        other => panic!("unexpected {other:?}"),
    }
}

#[test]
fn empty_body_gives_empty_text() {
    match parse_error(503, b"", None) {
        AnthropicError::UnexpectedResponse { status, body } => {
            assert_eq!(status, 503);
            assert_eq!(body, "");
        }
        other => panic!("unexpected {other:?}"),
    }
}

#[test]
fn failure_exchange_carries_status_and_classification() {
    let x: Exchange<u32> = Exchange::failure(429, b"{}", Some(envelope("slow down", "rate_limit_error")));
    match x {
        Exchange::Failure { status, error: AnthropicError::Api(api) } => {
            assert_eq!(status, 429);
            assert_eq!(api.message, "slow down");
        }
        _ => panic!("not a classified failure"),
    }
}

#[test]
fn success_body_that_does_not_decode_is_a_decode_failure() {
    let r = process_response::<u32>(Exchange::Success(Err(json_error())));
    assert!(matches!(r, Err(AnthropicError::Deserialize(_))));
}

#[test]
fn decoded_success_is_returned() {
    let r = process_response::<u32>(Exchange::Success(Ok(7)));
    assert_eq!(r.unwrap(), 7);
}

#[test]
fn classified_failure_is_returned() {
    let r = process_response::<u32>(Exchange::failure(404, b"not here", None));
    match r {
        Err(AnthropicError::UnexpectedResponse { status, body }) => {
            assert_eq!(status, 404);
            assert_eq!(body, "not here");
        }
        other => panic!("unexpected {other:?}"),
    }
}

#[test]
fn api_error_describe() {
    let e = envelope("overloaded", "overloaded_error").error;
    assert_eq!(e.describe(), "overloaded_error: overloaded");
}
