use anthropic::types::{
    ContentBlock, Message, MessagesRequestBuilder, Metadata, Role, ThinkingConfig, ToolChoice,
    ToolResultContent,
};
use anthropic::AnthropicError;

#[test]
fn text_block() {
    assert_eq!(ContentBlock::text("abc"), ContentBlock::Text { text: "abc".to_string() });
}

#[test]
fn nested_blocks_clone_equal() {
    let b = ContentBlock::ToolResult {
        tool_use_id: "t1".to_string(),
        is_error: Some(false),
        content: ToolResultContent::Blocks(vec![
            ContentBlock::text("a"),
            ContentBlock::ToolResult {
                tool_use_id: "t2".to_string(),
                is_error: None,
                content: ToolResultContent::Text("inner".to_string()),
            },
        ]),
    };
    assert_eq!(b.clone(), b);
}

#[test]
fn builder_sets_every_part() {
    let messages = vec![Message { role: Role::User, content: vec![ContentBlock::text("x")] }];
    let r = MessagesRequestBuilder::new("m", messages.clone(), 10)
        .model("m2")
        .max_tokens(20)
        .metadata(Metadata { user_id: Some("u".to_string()) })
        .stop_sequences(vec!["END".to_string()])
        .temperature(serde_json::Number::from_f64(0.5).unwrap())
        .top_p(serde_json::Number::from_f64(0.9).unwrap())
        .top_k(40)
        .stream(false)
        .tool_choice(ToolChoice::Auto)
        .thinking(ThinkingConfig::Enabled { budget_tokens: 1024 })
        .build()
        .unwrap();
    assert_eq!(r.model, "m2");
    assert_eq!(r.messages, messages);
    assert_eq!(r.max_tokens, 20);
    assert_eq!(r.metadata, Some(Metadata { user_id: Some("u".to_string()) }));
    assert_eq!(r.stop_sequences, Some(vec!["END".to_string()]));
    assert_eq!(r.temperature.unwrap().as_f64(), Some(0.5));
    assert_eq!(r.top_p.unwrap().as_f64(), Some(0.9));
    assert_eq!(r.top_k, Some(40));
    assert_eq!(r.stream, Some(false));
    assert_eq!(r.tool_choice, Some(ToolChoice::Auto));
    assert_eq!(r.thinking, Some(ThinkingConfig::Enabled { budget_tokens: 1024 }));
    assert_eq!(r.system, None);
    assert_eq!(r.tools, None);
}

#[test]
fn empty_builder_reports_model_first() {
    match MessagesRequestBuilder::default().build() {
        Err(AnthropicError::InvalidRequest(m)) => assert_eq!(m, "model is required"),
        _ => panic!("expected a refusal"),
    }
}

#[test]
fn builder_reports_messages_then_max_tokens() {
    match MessagesRequestBuilder::default().model("m").build() {
        Err(AnthropicError::InvalidRequest(m)) => assert_eq!(m, "messages is required"),
        _ => panic!("expected a refusal"),
    }
    match MessagesRequestBuilder::default().model("m").messages(vec![]).build() {
        Err(AnthropicError::InvalidRequest(m)) => assert_eq!(m, "max_tokens is required"),
        _ => panic!("expected a refusal"),
    }
}
