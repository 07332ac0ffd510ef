//! The records of the Messages API: requests, responses and stream events.
use vstd::prelude::*;
use crate::error::AnthropicError;

verus! {

#[derive(Copy, Clone, Debug, PartialEq, Eq, Structural)]
pub enum Role {
    User,
    Assistant,
}

#[derive(Debug, PartialEq, Eq)]
pub enum ContentBlock {
    Text { text: String },
    Image { source: ImageSource },
    ToolUse { id: String, name: String, input: serde_json::Value },
    ToolResult { tool_use_id: String, is_error: Option<bool>, content: ToolResultContent },
    Thinking { thinking: String },
    RedactedThinking { data: String },
}

impl Clone for ContentBlock {
    fn clone(&self) -> (r: Self)
        decreases self,
    {
        match self {
            ContentBlock::Text { text } => ContentBlock::Text { text: text.clone() },
            ContentBlock::Image { source } => ContentBlock::Image { source: source.clone() },
            ContentBlock::ToolUse { id, name, input } => ContentBlock::ToolUse {
                id: id.clone(),
                name: name.clone(),
                input: input.clone(),
            },
            ContentBlock::ToolResult { tool_use_id, is_error, content } => ContentBlock::ToolResult {
                tool_use_id: tool_use_id.clone(),
                is_error: *is_error,
                content: content.clone(),
            },
            ContentBlock::Thinking { thinking } => ContentBlock::Thinking { thinking: thinking.clone() },
            ContentBlock::RedactedThinking { data } => ContentBlock::RedactedThinking { data: data.clone() },
        }
    }
}

impl ContentBlock {
    /// A text block holding `text`.
    pub fn text(text: &str) -> (r: Self)
        ensures
            r is Text,
            r->Text_text@ == text@,
    {
        ContentBlock::Text { text: String::from_str(text) }
    }
}

#[derive(Clone, Debug, PartialEq, Eq)]
pub enum ImageSource {
    Base64 { media_type: String, data: String },
}

#[derive(Debug, PartialEq, Eq)]
pub enum ToolResultContent {
    Text(String),
    Blocks(Vec<ContentBlock>),
}

impl Clone for ToolResultContent {
    fn clone(&self) -> (r: Self)
        decreases self,
    {
        match self {
            ToolResultContent::Text(t) => ToolResultContent::Text(t.clone()),
            ToolResultContent::Blocks(blocks) => {
                let mut out: Vec<ContentBlock> = Vec::new();
                let mut i: usize = 0;
                while i < blocks.len()
                    invariant
                        *self == ToolResultContent::Blocks(*blocks),

                    decreases blocks.len() - i,
                {
                    proof {
                        vstd::std_specs::vec::axiom_vec_index_decreases(*blocks, i as int);
                        assert(decreases_to!(*self => (*self)->Blocks_0));
                        assert(decreases_to!(*self => blocks[i as int]));
                    }
                    out.push(blocks[i].clone());
                    i = i + 1;
                }
                ToolResultContent::Blocks(out)
            },
        }
    }
}

#[derive(Clone, Debug, PartialEq, Eq)]
pub struct Message {
    pub role: Role,
    pub content: Vec<ContentBlock>,
}

#[derive(Clone, Debug, PartialEq)]
pub enum SystemPrompt {
    Text(String),
    Blocks(Vec<ContentBlock>),
}

#[derive(Clone, Debug, PartialEq, Eq)]
pub struct Metadata {
    pub user_id: Option<String>,
}

#[derive(Clone, Debug, PartialEq)]
pub struct Tool {
    pub name: String,
    pub description: String,
    pub input_schema: serde_json::Value,
}

#[derive(Clone, Debug, PartialEq, Eq)]
pub enum ToolChoice {
    Auto,
    Any,
    Tool { name: String },
}

/// Configuration for extended thinking.
#[derive(Clone, Debug, PartialEq, Eq)]
pub enum ThinkingConfig {
    Enabled { budget_tokens: u32 },
    Disabled,
}

/// The body of a call to the Messages endpoint. Sampling parameters are JSON
/// numbers, as they travel on the wire.
#[derive(Clone, Debug, PartialEq)]
pub struct MessagesRequest {
    pub model: String,
    pub messages: Vec<Message>,
    pub max_tokens: u32,
    pub system: Option<SystemPrompt>,
    pub metadata: Option<Metadata>,
    pub stop_sequences: Option<Vec<String>>,
    pub temperature: Option<serde_json::Number>,
    pub top_p: Option<serde_json::Number>,
    pub top_k: Option<u32>,
    pub stream: Option<bool>,
    pub tools: Option<Vec<Tool>>,
    pub tool_choice: Option<ToolChoice>,
    pub thinking: Option<ThinkingConfig>,
}

pub const MODEL_REQUIRED: &'static str = "model is required";
pub const MESSAGES_REQUIRED: &'static str = "messages is required";
pub const MAX_TOKENS_REQUIRED: &'static str = "max_tokens is required";

/// What a request builder has been given so far.
pub struct RequestDraft {
    pub model: Option<Seq<char>>,
    pub messages: Option<Vec<Message>>,
    pub max_tokens: Option<u32>,
    pub system: Option<SystemPrompt>,
    pub metadata: Option<Metadata>,
    pub stop_sequences: Option<Vec<String>>,
    pub temperature: Option<serde_json::Number>,
    pub top_p: Option<serde_json::Number>,
    pub top_k: Option<u32>,
    pub stream: Option<bool>,
    pub tools: Option<Vec<Tool>>,
    pub tool_choice: Option<ToolChoice>,
    pub thinking: Option<ThinkingConfig>,
}

/// Builds a `MessagesRequest`; model, messages and token limit are required.
#[derive(Debug)]
pub struct MessagesRequestBuilder {
    model: Option<String>,
    messages: Option<Vec<Message>>,
    max_tokens: Option<u32>,
    system: Option<SystemPrompt>,
    metadata: Option<Metadata>,
    stop_sequences: Option<Vec<String>>,
    temperature: Option<serde_json::Number>,
    top_p: Option<serde_json::Number>,
    top_k: Option<u32>,
    stream: Option<bool>,
    tools: Option<Vec<Tool>>,
    tool_choice: Option<ToolChoice>,
    thinking: Option<ThinkingConfig>,
}

impl View for MessagesRequestBuilder {
    type V = RequestDraft;

    closed spec fn view(&self) -> RequestDraft {
        RequestDraft {
            model: match self.model {
                Some(m) => Some(m@),
                None => None,
            },
            messages: self.messages,
            max_tokens: self.max_tokens,
            system: self.system,
            metadata: self.metadata,
            stop_sequences: self.stop_sequences,
            temperature: self.temperature,
            top_p: self.top_p,
            top_k: self.top_k,
            stream: self.stream,
            tools: self.tools,
            tool_choice: self.tool_choice,
            thinking: self.thinking,
        }
    }
}

/// A draft with nothing set.
pub open spec fn empty_draft() -> RequestDraft {
    RequestDraft {
        model: None,
        messages: None,
        max_tokens: None,
        system: None,
        metadata: None,
        stop_sequences: None,
        temperature: None,
        top_p: None,
        top_k: None,
        stream: None,
        tools: None,
        tool_choice: None,
        thinking: None,
    }
}

/// Whether `r` is the request that draft `d` describes.
pub open spec fn request_of(d: RequestDraft, r: MessagesRequest) -> bool {
    &&& d.model == Some(r.model@)
    &&& d.messages == Some(r.messages)
    &&& d.max_tokens == Some(r.max_tokens)
    &&& r.system == d.system
    &&& r.metadata == d.metadata
    &&& r.stop_sequences == d.stop_sequences
    &&& r.temperature == d.temperature
    &&& r.top_p == d.top_p
    &&& r.top_k == d.top_k
    &&& r.stream == d.stream
    &&& r.tools == d.tools
    &&& r.tool_choice == d.tool_choice
    &&& r.thinking == d.thinking
}

/// The message naming the first required part that draft `d` lacks, in the
/// order model, messages, token limit.
pub open spec fn missing_part(d: RequestDraft) -> Seq<char> {
    if d.model is None {
        MODEL_REQUIRED@
    } else if d.messages is None {
        MESSAGES_REQUIRED@
    } else {
        MAX_TOKENS_REQUIRED@
    }
}

impl Default for MessagesRequestBuilder {
    fn default() -> (r: Self)
        ensures
            r@ == empty_draft(),
    {
        MessagesRequestBuilder {
            model: None,
            messages: None,
            max_tokens: None,
            system: None,
            metadata: None,
            stop_sequences: None,
            temperature: None,
            top_p: None,
            top_k: None,
            stream: None,
            tools: None,
            tool_choice: None,
            thinking: None,
        }
    }
}

impl MessagesRequestBuilder {
    /// A builder with the three required parts set.
    pub fn new(model: &str, messages: Vec<Message>, max_tokens: u32) -> (r: Self)
        ensures
            r@ == (RequestDraft {
                model: Some(model@),
                messages: Some(messages),
                max_tokens: Some(max_tokens),
                ..empty_draft()
            }),
    {
        MessagesRequestBuilder {
            model: Some(String::from_str(model)),
            messages: Some(messages),
            max_tokens: Some(max_tokens),
            ..Self::default()
        }
    }

    pub fn model(self, model: &str) -> (r: Self)
        ensures
            r@ == (RequestDraft { model: Some(model@), ..self@ }),
    {
        MessagesRequestBuilder { model: Some(String::from_str(model)), ..self }
    }

    pub fn messages(self, messages: Vec<Message>) -> (r: Self)
        ensures
            r@ == (RequestDraft { messages: Some(messages), ..self@ }),
    {
        MessagesRequestBuilder { messages: Some(messages), ..self }
    }

    pub fn max_tokens(self, max_tokens: u32) -> (r: Self)
        ensures
            r@ == (RequestDraft { max_tokens: Some(max_tokens), ..self@ }),
    {
        MessagesRequestBuilder { max_tokens: Some(max_tokens), ..self }
    }

    pub fn system(self, system: SystemPrompt) -> (r: Self)
        ensures
            r@ == (RequestDraft { system: Some(system), ..self@ }),
    {
        MessagesRequestBuilder { system: Some(system), ..self }
    }

    pub fn metadata(self, metadata: Metadata) -> (r: Self)
        ensures
            r@ == (RequestDraft { metadata: Some(metadata), ..self@ }),
    {
        MessagesRequestBuilder { metadata: Some(metadata), ..self }
    }

    pub fn stop_sequences(self, stop_sequences: Vec<String>) -> (r: Self)
        ensures
            r@ == (RequestDraft { stop_sequences: Some(stop_sequences), ..self@ }),
    {
        MessagesRequestBuilder { stop_sequences: Some(stop_sequences), ..self }
    }

    pub fn temperature(self, temperature: serde_json::Number) -> (r: Self)
        ensures
            r@ == (RequestDraft { temperature: Some(temperature), ..self@ }),
    {
        MessagesRequestBuilder { temperature: Some(temperature), ..self }
    }

    pub fn top_p(self, top_p: serde_json::Number) -> (r: Self)
        ensures
            r@ == (RequestDraft { top_p: Some(top_p), ..self@ }),
    {
        MessagesRequestBuilder { top_p: Some(top_p), ..self }
    }

    pub fn top_k(self, top_k: u32) -> (r: Self)
        ensures
            r@ == (RequestDraft { top_k: Some(top_k), ..self@ }),
    {
        MessagesRequestBuilder { top_k: Some(top_k), ..self }
    }

    pub fn stream(self, stream: bool) -> (r: Self)
        ensures
            r@ == (RequestDraft { stream: Some(stream), ..self@ }),
    {
        MessagesRequestBuilder { stream: Some(stream), ..self }
    }

    pub fn tools(self, tools: Vec<Tool>) -> (r: Self)
        ensures
            r@ == (RequestDraft { tools: Some(tools), ..self@ }),
    {
        MessagesRequestBuilder { tools: Some(tools), ..self }
    }

    pub fn tool_choice(self, tool_choice: ToolChoice) -> (r: Self)
        ensures
            r@ == (RequestDraft { tool_choice: Some(tool_choice), ..self@ }),
    {
        MessagesRequestBuilder { tool_choice: Some(tool_choice), ..self }
    }

    pub fn thinking(self, thinking: ThinkingConfig) -> (r: Self)
        ensures
            r@ == (RequestDraft { thinking: Some(thinking), ..self@ }),
    {
        MessagesRequestBuilder { thinking: Some(thinking), ..self }
    }

    /// The request, when model, messages and token limit are all set;
    /// otherwise the first one missing, in that order, is reported.
    pub fn build(self) -> (r: Result<MessagesRequest, AnthropicError>)
        ensures
            (self@.model is Some && self@.messages is Some && self@.max_tokens is Some) <==> r is Ok,
            r is Ok ==> request_of(self@, r->Ok_0),
            r is Err ==> r->Err_0 is InvalidRequest && r->Err_0->InvalidRequest_0@ == missing_part(self@),
    {
        let model = match self.model {
            Some(m) => m,
            None => {
                return Err(AnthropicError::InvalidRequest(String::from_str(MODEL_REQUIRED)));
            },
        };
        let messages = match self.messages {
            Some(m) => m,
            None => {
                return Err(AnthropicError::InvalidRequest(String::from_str(MESSAGES_REQUIRED)));
            },
        };
        let max_tokens = match self.max_tokens {
            Some(m) => m,
            None => {
                return Err(AnthropicError::InvalidRequest(String::from_str(MAX_TOKENS_REQUIRED)));
            },
        };
        Ok(MessagesRequest {
            model,
            messages,
            max_tokens,
            system: self.system,
            metadata: self.metadata,
            stop_sequences: self.stop_sequences,
            temperature: self.temperature,
            top_p: self.top_p,
            top_k: self.top_k,
            stream: self.stream,
            tools: self.tools,
            tool_choice: self.tool_choice,
            thinking: self.thinking,
        })
    }
}

#[derive(Copy, Clone, Debug, PartialEq, Eq, Structural)]
pub enum StopReason {
    EndTurn,
    MaxTokens,
    StopSequence,
    ToolUse,
}

#[derive(Copy, Clone, Debug, PartialEq, Eq, Structural)]
pub struct CacheCreation {
    pub ephemeral_1h_input_tokens: u32,
    pub ephemeral_5m_input_tokens: u32,
}

impl Default for CacheCreation {
    fn default() -> (r: Self)
        ensures
            r.ephemeral_1h_input_tokens == 0,
            r.ephemeral_5m_input_tokens == 0,
    {
        CacheCreation { ephemeral_1h_input_tokens: 0, ephemeral_5m_input_tokens: 0 }
    }
}

#[derive(Clone, Debug, PartialEq, Eq)]
pub struct Usage {
    pub input_tokens: u32,
    pub output_tokens: u32,
    pub cache_creation_input_tokens: u32,
    pub cache_read_input_tokens: u32,
    pub cache_creation: CacheCreation,
    pub service_tier: Option<String>,
}

#[derive(Clone, Debug, PartialEq)]
pub struct MessagesResponse {
    pub id: String,
    pub message_type: String,
    pub role: Role,
    pub content: Vec<ContentBlock>,
    pub model: String,
    pub stop_reason: Option<StopReason>,
    pub stop_sequence: Option<String>,
    pub usage: Usage,
}

#[derive(Clone, Debug, PartialEq, Eq)]
pub enum ContentBlockDelta {
    TextDelta { text: String },
    InputJsonDelta { partial_json: String },
}

#[derive(Clone, Debug, PartialEq, Eq)]
pub struct MessageDeltaUsage {
    pub output_tokens: u32,
}

#[derive(Clone, Debug, PartialEq, Eq)]
pub struct MessageDelta {
    pub stop_reason: Option<StopReason>,
    pub stop_sequence: Option<String>,
}

/// One event of a streamed response, in the order the server sent it.
#[derive(Clone, Debug, PartialEq)]
pub enum MessagesStreamEvent {
    MessageStart { message: Message },
    ContentBlockStart { index: usize, content_block: ContentBlock },
    ContentBlockDelta { index: usize, delta: ContentBlockDelta },
    ContentBlockStop { index: usize },
    MessageDelta { delta: MessageDelta, usage: MessageDeltaUsage },
    MessageStop,
}

} // verus!
