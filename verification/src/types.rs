//! Core LLM-protocol types.

use vstd::prelude::*;
use crate::error::ChatErrorKind;
use crate::json::{Json, JsonValue, json_str, obj2, obj3};
use crate::tool::{PartialModel, ToolCallPartial, ToolDefinition, partial_models};

verus! {

/// Which provider protocol to speak.
#[derive(Debug, Clone, Copy, PartialEq, Eq, Hash, Structural)]
pub enum ApiFormat {
    /// OpenAI `/v1/chat/completions`.
    OpenAiChat,
    /// OpenAI `/v1/responses`.
    OpenAiResponses,
    /// Anthropic `/v1/messages`.
    AnthropicMessages,
}

impl Default for ApiFormat {
    fn default() -> (r: ApiFormat)
        ensures
            r == ApiFormat::OpenAiChat,
    {
        ApiFormat::OpenAiChat
    }
}

/// Per-run reasoning effort / thinking level.
#[derive(Debug, Clone, Copy, PartialEq, Eq, Hash, Structural)]
pub enum EffortLevel {
    /// No effort / thinking controls — wire field is omitted.
    Unset,
    Low,
    Medium,
    High,
    Xhigh,
    Max,
}

impl Default for EffortLevel {
    fn default() -> (r: EffortLevel)
        ensures
            r == EffortLevel::Unset,
    {
        EffortLevel::Unset
    }
}

/// The OpenAI `reasoning_effort` value of each level.
pub open spec fn spec_openai_effort(e: EffortLevel) -> Option<Seq<char>> {
    match e {
        EffortLevel::Low => Some("low"@),
        EffortLevel::Medium => Some("medium"@),
        EffortLevel::High => Some("high"@),
        _ => None,
    }
}

/// The Anthropic `thinking.budget_tokens` value of each level.
pub open spec fn spec_anthropic_budget(e: EffortLevel) -> Option<u32> {
    match e {
        EffortLevel::Unset => None,
        EffortLevel::Low => Some(1024u32),
        EffortLevel::Medium => Some(4096u32),
        EffortLevel::High => Some(16384u32),
        EffortLevel::Xhigh => Some(32768u32),
        EffortLevel::Max => Some(65536u32),
    }
}

impl EffortLevel {
    /// OpenAI `reasoning_effort`: low/medium/high as-is; none, xhigh and max
    /// are omitted.
    pub fn to_openai_effort(self) -> (r: Option<&'static str>)
        ensures
            match r {
                Some(s) => spec_openai_effort(self) == Some(s@),
                None => spec_openai_effort(self) is None,
            },
    {
        match self {
            EffortLevel::Unset => None,
            EffortLevel::Low => Some("low"),
            EffortLevel::Medium => Some("medium"),
            EffortLevel::High => Some("high"),
            EffortLevel::Xhigh | EffortLevel::Max => None,
        }
    }

    /// Anthropic `thinking.budget_tokens`: 1024, 4096, 16384, 32768, 65536
    /// for low..max; none is omitted.
    pub fn to_anthropic_budget(self) -> (r: Option<u32>)
        ensures
            r == spec_anthropic_budget(self),
    {
        match self {
            EffortLevel::Unset => None,
            EffortLevel::Low => Some(1024),
            EffortLevel::Medium => Some(4096),
            EffortLevel::High => Some(16384),
            EffortLevel::Xhigh => Some(32768),
            EffortLevel::Max => Some(65536),
        }
    }
}

/// Where a chat message sits in a conversation.
#[derive(Debug, Clone, Copy, PartialEq, Eq, Hash, Structural)]
pub enum ChatRole {
    System,
    User,
    Assistant,
    /// Tool result echo (cross-protocol)
    Tool,
}

impl Default for ChatRole {
    fn default() -> (r: ChatRole)
        ensures
            r == ChatRole::User,
    {
        ChatRole::User
    }
}

/// The wire name of a role.
pub open spec fn spec_role_name(r: ChatRole) -> Seq<char> {
    match r {
        ChatRole::System => "system"@,
        ChatRole::User => "user"@,
        ChatRole::Assistant => "assistant"@,
        ChatRole::Tool => "tool"@,
    }
}

/// Chat state machine value.
#[derive(Debug, Clone, Copy, PartialEq, Eq, Hash, Structural)]
pub enum ChatStatus {
    Idle,
    Streaming,
    Error,
    Cancelled,
}

/// A tool call attached to an assistant message (OpenAI Chat shape).
#[derive(Debug, Clone, PartialEq, Eq)]
pub struct AssistantToolCall {
    pub id: String,
    /// always "function" today
    pub kind: String,
    pub function: AssistantToolCallFunction,
}

#[derive(Debug, Clone, PartialEq, Eq)]
pub struct AssistantToolCallFunction {
    pub name: String,
    /// The accumulating JSON arguments string. May be partial.
    pub arguments: String,
}

/// Wire shape of an assistant tool call:
/// `{id, type, function: {name, arguments}}`.
pub open spec fn spec_assistant_call_json(c: AssistantToolCall) -> Json {
    Json::Object(seq![
        ("id"@, Json::Str(c.id@)),
        ("type"@, Json::Str(c.kind@)),
        ("function"@, Json::Object(seq![
            ("name"@, Json::Str(c.function.name@)),
            ("arguments"@, Json::Str(c.function.arguments@)),
        ])),
    ])
}

impl AssistantToolCall {
    pub fn to_json(&self) -> (r: JsonValue)
        ensures
            r@ == spec_assistant_call_json(*self),
    {
        obj3(
            "id", JsonValue::String(self.id.clone()),
            "type", JsonValue::String(self.kind.clone()),
            "function", obj2(
                "name", JsonValue::String(self.function.name.clone()),
                "arguments", JsonValue::String(self.function.arguments.clone()),
            ),
        )
    }
}

/// A single chat message in any of the three protocols.
#[derive(Debug, Clone, PartialEq, Eq)]
pub struct ChatMessage {
    pub role: ChatRole,
    pub content: String,
    /// Set when role = Tool: the call this message answers.
    pub tool_call_id: Option<String>,
    /// An assistant message may carry tool calls.
    pub tool_calls: Option<Vec<AssistantToolCall>>,
}

impl Default for ChatMessage {
    fn default() -> (r: ChatMessage)
        ensures
            r.role == ChatRole::User,
            r.content@ == Seq::<char>::empty(),
            r.tool_call_id is None,
            r.tool_calls is None,
    {
        ChatMessage { role: ChatRole::User, content: String::new(), tool_call_id: None, tool_calls: None }
    }
}

/// Lightweight per-run config (endpoint, key, model, effort, tools).
#[derive(Debug)]
pub struct ProviderConfig {
    pub endpoint: String,
    pub api_key: String,
    pub model: String,
    pub api_format: ApiFormat,
    pub effort: Option<EffortLevel>,
    pub max_tokens: Option<u32>,
    /// Cross-protocol tool schema; `None` or empty means no `tools` field on
    /// the wire.
    pub tools: Option<Vec<ToolDefinition>>,
}

impl Default for ProviderConfig {
    fn default() -> (r: ProviderConfig)
        ensures
            r.endpoint@ == Seq::<char>::empty(),
            r.api_key@ == Seq::<char>::empty(),
            r.model@ == Seq::<char>::empty(),
            r.api_format == ApiFormat::OpenAiChat,
            r.effort is None,
            r.max_tokens is None,
            r.tools is None,
    {
        ProviderConfig {
            endpoint: String::new(),
            api_key: String::new(),
            model: String::new(),
            api_format: ApiFormat::OpenAiChat,
            effort: None,
            max_tokens: None,
            tools: None,
        }
    }
}

/// What comes back from a streaming receiver.
#[derive(Debug, Clone, PartialEq, Eq)]
pub enum StreamEvent {
    /// A text delta — append-only.
    Text(String),
    /// One or more tool-call partials.
    ToolCalls(Vec<ToolCallPartial>),
    /// Stream finished cleanly.
    Done,
    /// Mid-stream error.
    Error { kind: ChatErrorKind, message: String },
}

/// Model of a stream event.
pub enum EventModel {
    Text(Seq<char>),
    ToolCalls(Seq<PartialModel>),
    Done,
    Error(ChatErrorKind, Seq<char>),
}

impl StreamEvent {
    pub open spec fn model(self) -> EventModel {
        match self {
            StreamEvent::Text(s) => EventModel::Text(s@),
            StreamEvent::ToolCalls(v) => EventModel::ToolCalls(partial_models(v@)),
            StreamEvent::Done => EventModel::Done,
            StreamEvent::Error { kind, message } => EventModel::Error(kind, message@),
        }
    }
}

pub open spec fn event_models(v: Seq<StreamEvent>) -> Seq<EventModel> {
    v.map_values(|e: StreamEvent| e.model())
}

/// An empty list of events.
pub fn no_events() -> (r: Vec<StreamEvent>)
    ensures
        event_models(r@) == Seq::<EventModel>::empty(),
{
    let r: Vec<StreamEvent> = Vec::new();
    assert(event_models(r@) =~= Seq::<EventModel>::empty());
    r
}

/// Parameters for a non-streaming provider ping.
#[derive(Debug, Clone, PartialEq, Eq)]
pub struct TestProviderParams {
    /// Base URL — the protocol-specific path is appended.
    pub endpoint: String,
    /// API key. Empty is allowed (local endpoints may skip auth).
    pub api_key: String,
    pub api_format: ApiFormat,
    pub model: String,
}

/// Result of a provider ping.
#[derive(Debug, Clone, PartialEq, Eq)]
pub struct TestProviderResult {
    pub ok: bool,
    pub status: Option<u16>,
    pub error: Option<String>,
    pub response: Option<String>,
    pub endpoint: String,
    pub model: String,
    pub api_format: ApiFormat,
}

} // verus!
