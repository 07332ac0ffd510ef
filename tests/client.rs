use anthropic::client::MESSAGES_PATH;
use anthropic::retry::{BackoffPolicy, DEFAULT_MAX_RETRIES};
use anthropic::types::{ContentBlock, Message, MessagesRequest, MessagesRequestBuilder, Role};
use anthropic::{AnthropicError, Client, ClientBuilder};

fn request(stream: Option<bool>) -> MessagesRequest {
    let messages = vec![Message { role: Role::User, content: vec![ContentBlock::text("Hello")] }];
    let b = MessagesRequestBuilder::new("test-model-1", messages, 64);
    let b = match stream {
        Some(s) => b.stream(s),
        None => b,
    };
    b.build().unwrap()
}

#[test]
fn client_defaults() {
    let c = Client::new("sk-test").unwrap();
    assert_eq!(c.api_key(), "sk-test");
    assert_eq!(c.api_base(), "https://api.anthropic.com");
    assert_eq!(c.api_version(), "2023-06-01");
    assert_eq!(c.beta(), None);
    assert_eq!(c.timeout(), None);
    assert_eq!(c.backoff(), BackoffPolicy::default());
    assert_eq!(c.max_retries(), DEFAULT_MAX_RETRIES);
}

#[test]
fn empty_credential_is_refused() {
    match Client::new("") {
        Err(AnthropicError::InvalidRequest(m)) => assert_eq!(m, "api_key must not be empty"),
        _ => panic!("expected a refusal"),
    }
}

#[test]
fn missing_credential_is_refused() {
    match ClientBuilder::new().api_base("https://example.test").build() {
        Err(AnthropicError::InvalidRequest(m)) => assert_eq!(m, "api_key is required"),
        _ => panic!("expected a refusal"),
    }
}

#[test]
fn builder_settings_are_kept() {
    let c = ClientBuilder::new()
        .api_key("k")
        .api_base("http://localhost:8080")
        .api_version("2024-01-01")
        .beta("tools-2024")
        .timeout(std::time::Duration::from_secs(5))
        .max_retries(2)
        .backoff(BackoffPolicy::new(100, 2_000, 30_000).unwrap())
        .build()
        .unwrap();
    assert_eq!(c.timeout(), Some(std::time::Duration::from_secs(5)));
    assert_eq!(c.backoff(), BackoffPolicy::new(100, 2_000, 30_000).unwrap());
    assert_eq!(c.api_base(), "http://localhost:8080");
    assert_eq!(c.api_version(), "2024-01-01");
    assert_eq!(c.beta(), Some("tools-2024"));
    assert_eq!(c.url(MESSAGES_PATH), "http://localhost:8080/v1/messages");
    assert_eq!(c.retrier().max_retries(), 2);
    assert_eq!(c.retrier().retries(), 0);
}

#[test]
fn given_http_client_is_used() {
    let c = ClientBuilder::new().api_key("k").http_client(reqwest::Client::new()).build();
    assert!(c.is_ok());
}

#[test]
fn headers_without_feature_flag() {
    let c = Client::new("secret").unwrap();
    let h = c.headers();
    let want = vec![
        ("x-api-key", "secret"),
        ("anthropic-version", "2023-06-01"),
        ("content-type", "application/json"),
        ("accept", "application/json"),
    ];
    assert_eq!(h.len(), want.len());
    for (got, (n, v)) in h.iter().zip(want) {
        assert_eq!(got.0, n);
        assert_eq!(got.1, v);
    }
}

#[test]
fn headers_with_feature_flag() {
    let c = ClientBuilder::new().api_key("secret").beta("b1").build().unwrap();
    let h = c.headers();
    assert_eq!(h.len(), 5);
    assert_eq!(h[4], ("anthropic-beta".to_string(), "b1".to_string()));
}

#[test]
fn buffered_call_refuses_stream_flag() {
    let c = Client::new("k").unwrap();
    match c.messages_request(request(Some(true))) {
        Err(AnthropicError::InvalidRequest(m)) => {
            assert_eq!(m, "stream=true requests must use messages_stream")
        }
        _ => panic!("expected a policy violation"),
    }
}

#[test]
fn buffered_call_clears_stream_flag() {
    let c = Client::new("k").unwrap();
    let r = c.messages_request(request(Some(false))).unwrap();
    assert_eq!(r.stream, None);
    assert_eq!(r.model, "test-model-1");
    let r = c.messages_request(request(None)).unwrap();
    assert_eq!(r.stream, None);
}

#[test]
fn streamed_call_sets_stream_flag() {
    let c = Client::new("k").unwrap();
    let r = c.messages_stream_request(request(Some(false)));
    assert_eq!(r.stream, Some(true));
    assert_eq!(r.max_tokens, 64);
}

#[test]
fn out_of_range_policy_is_refused() {
    let p = BackoffPolicy { initial_interval_ms: 5, max_interval_ms: 1, max_elapsed_ms: 10 };
    match ClientBuilder::new().api_key("k").backoff(p).build() {
        Err(AnthropicError::InvalidRequest(m)) => assert_eq!(m, "backoff intervals out of range"),
        _ => panic!("expected a refusal"),
    }
}

#[test]
fn prepared_buffered_call() {
    let c = ClientBuilder::new().api_key("k").api_base("http://h").max_retries(3).build().unwrap();
    let call = c.prepare_messages(request(Some(false))).unwrap();
    assert_eq!(call.url, "http://h/v1/messages");
    assert_eq!(call.headers, c.headers());
    assert_eq!(call.request.stream, None);
    assert_eq!(call.retrier.retries(), 0);
    assert_eq!(call.retrier.max_retries(), 3);
}

#[test]
fn prepared_buffered_call_refuses_stream_flag() {
    let c = Client::new("test-key").unwrap();
    match c.prepare_messages(request(Some(true))) {
        Err(AnthropicError::InvalidRequest(m)) => assert_eq!(m, "stream=true requests must use messages_stream"),
        _ => panic!("expected a policy violation"),
    }
}

#[test]
fn prepared_streamed_call() {
    let c = Client::new("k").unwrap();
    let call = c.prepare_messages_stream(request(None));
    assert_eq!(call.url, "https://api.anthropic.com/v1/messages");
    assert_eq!(call.request.stream, Some(true));
    assert_eq!(call.headers.len(), 4);
}
