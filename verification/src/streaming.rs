//! Protocol-independent streaming decisions: error classification, the
//! three streamers' request shape, and the per-frame stream drivers.

use vstd::prelude::*;
use std::collections::HashMap;
use crate::error::{ChatErrorKind, classify_status, spec_status_kind};
use crate::json::JsonValue;
use crate::pending::{PendingToolCall, PendingModel, table_model};
use crate::recorder::CompletionOutcome;
use crate::sse::{SseFrame, SseFrameModel};
use crate::text::{chars_of, string_of, str_contains, spec_contains, spec_decimal, take_chars, truncate, concat_str, u64_to_string};
use crate::tool::ToolDefinition;
use crate::types::{ApiFormat, ChatMessage, EventModel, StreamEvent, event_models, no_events};

verus! {

/// Default minimum interval between emit batches, in milliseconds (one
/// frame).
pub const DEFAULT_BATCH_INTERVAL_MS: u64 = 16;

/// Default maximum characters per emit batch.
pub const DEFAULT_BATCH_MAX_CHARS: usize = 256;

/// Errors raised before a stream opens. Mid-stream errors travel as
/// `StreamEvent::Error` instead.
#[derive(Debug, Clone, PartialEq, Eq)]
pub enum StreamError {
    /// HTTP-level error (connect, TLS, timeout); the transport's message.
    Http(String),
    /// Underlying task / IO error; its message.
    Io(String),
    /// JSON failure; its message.
    Json(String),
    /// Upstream returned a non-2xx status with a body.
    Upstream { kind: ChatErrorKind, status: u16, body_preview: String },
    /// Anything else — surfaced as-is.
    Other(String),
}

/// Convenience alias for `Result<T, StreamError>`.
pub type StreamResult<T> = Result<T, StreamError>;

/// Classify an upstream non-2xx response: the kind follows the status, and
/// the body is kept up to its first 800 characters.
pub fn classify_upstream_error(status: u16, body: &str) -> (r: StreamError)
    ensures
        r matches StreamError::Upstream { kind, status: s, body_preview }
            && kind == spec_status_kind(status) && s == status && body_preview@ == take_chars(body@, 800),
{
    let kind = classify_status(status);
    let body_preview = truncate(body, 800);
    StreamError::Upstream { kind, status, body_preview }
}

/// The error a transport failure with this status and message maps to.
pub open spec fn spec_http_failure(status: Option<u16>, text: Seq<char>, r: StreamError) -> bool {
    match status {
        Some(s) => r matches StreamError::Upstream { kind, status: s2, body_preview }
            && kind == spec_status_kind(s) && s2 == s && body_preview@ == take_chars(text, 800),
        None => r matches StreamError::Other(m) && m@ == text,
    }
}

/// Map a transport failure: with an HTTP status it is classified as an
/// upstream error carrying the failure text; otherwise it is `Other`.
pub fn map_http_failure(status: Option<u16>, text: &str) -> (r: StreamError)
    ensures
        spec_http_failure(status, text@, r),
{
    match status {
        Some(s) => classify_upstream_error(s, text),
        None => StreamError::Other(text.to_owned()),
    }
}

#[verifier::external_type_specification]
#[verifier::external_body]
pub struct ExReqwestError(reqwest::Error);

/// reqwest's `Error::status`: the HTTP status of the response the error
/// came from, if it came from one. Nothing is claimed of which errors do.
#[verifier::external_body]
fn reqwest_error_status(e: &reqwest::Error) -> (r: Option<u16>)
{
    e.status().map(|s| s.as_u16())
}

/// reqwest's `Display` of an error. Nothing is claimed of the text.
#[verifier::external_body]
fn reqwest_error_text(e: &reqwest::Error) -> (r: String)
{
    e.to_string()
}

/// Map a reqwest error: an error with an HTTP status becomes an upstream
/// error classified by that status, any other error `Other`; both carry
/// the error's message.
pub fn map_reqwest_error(e: reqwest::Error) -> (r: StreamError)
    ensures
        exists|status: Option<u16>, text: Seq<char>| spec_http_failure(status, text, r),
{
    let status = reqwest_error_status(&e);
    let text = reqwest_error_text(&e);
    let r = map_http_failure(status, text.as_str());
    assert(spec_http_failure(status, text@, r));
    r
}

/// Text of an error as it is shown to the user.
pub open spec fn spec_error_message(e: StreamError) -> Seq<char> {
    match e {
        StreamError::Http(m) => "HTTP error: "@ + m@,
        StreamError::Io(m) => "IO error: "@ + m@,
        StreamError::Json(m) => "JSON parse error: "@ + m@,
        StreamError::Upstream { status, body_preview, .. } =>
            "upstream returned "@ + spec_decimal(status as nat) + ": "@ + body_preview@,
        StreamError::Other(m) => m@,
    }
}

/// Error kind a chat reports for a failure before its stream opened.
pub open spec fn spec_dispatch_kind(e: StreamError) -> ChatErrorKind {
    match e {
        StreamError::Upstream { kind, .. } => kind,
        StreamError::Http(_) => ChatErrorKind::Network,
        StreamError::Io(_) => ChatErrorKind::Network,
        StreamError::Json(_) => ChatErrorKind::StreamProtocol,
        StreamError::Other(_) => ChatErrorKind::Unknown,
    }
}

impl StreamError {
    /// The error's message.
    pub fn message(&self) -> (r: String)
        ensures
            r@ == spec_error_message(*self),
    {
        match self {
            StreamError::Http(m) => concat_str("HTTP error: ", m.as_str()),
            StreamError::Io(m) => concat_str("IO error: ", m.as_str()),
            StreamError::Json(m) => concat_str("JSON parse error: ", m.as_str()),
            StreamError::Upstream { status, body_preview, .. } => {
                let code = u64_to_string(*status as u64);
                let a = concat_str("upstream returned ", code.as_str());
                concat_str(concat_str(a.as_str(), ": ").as_str(), body_preview.as_str())
            },
            StreamError::Other(m) => m.clone(),
        }
    }

    /// The kind of a failure before the stream opened: an upstream error
    /// keeps its kind, transport and IO errors are network errors, JSON
    /// errors protocol errors, anything else unknown.
    pub fn dispatch_kind(&self) -> (r: ChatErrorKind)
        ensures
            r == spec_dispatch_kind(*self),
    {
        match self {
            StreamError::Upstream { kind, .. } => *kind,
            StreamError::Http(_) => ChatErrorKind::Network,
            StreamError::Io(_) => ChatErrorKind::Network,
            StreamError::Json(_) => ChatErrorKind::StreamProtocol,
            StreamError::Other(_) => ChatErrorKind::Unknown,
        }
    }
}

/// Kind of a mid-stream read failure, judged from its message: connection,
/// TLS, handshake and timeout failures are network errors.
pub open spec fn spec_read_error_kind(text: Seq<char>) -> ChatErrorKind {
    if spec_contains(text, "connect"@) || spec_contains(text, "TLS"@) || spec_contains(text, "handshake"@)
        || spec_contains(text, "timeout"@) {
        ChatErrorKind::Network
    } else {
        ChatErrorKind::Unknown
    }
}

pub fn classify_reqwest_error_text(text: &str) -> (r: ChatErrorKind)
    ensures
        r == spec_read_error_kind(text@),
{
    if str_contains(text, "connect") || str_contains(text, "TLS") || str_contains(text, "handshake") {
        ChatErrorKind::Network
    } else if str_contains(text, "timeout") {
        ChatErrorKind::Network
    } else {
        ChatErrorKind::Unknown
    }
}


/// `trim_end_matches('/')`.
pub open spec fn trim_end_slash(s: Seq<char>) -> Seq<char>
    decreases s.len(),
{
    if s.len() > 0 && s.last() == '/' { trim_end_slash(s.drop_last()) } else { s }
}

/// `endpoint` without trailing slashes, followed by `path`.
pub fn join_endpoint(endpoint: &str, path: &str) -> (r: String)
    ensures
        r@ == trim_end_slash(endpoint@) + path@,
{
    let cs = chars_of(endpoint);
    let mut e = cs.len();
    assert(cs@.take(cs@.len() as int) =~= cs@);
    while e > 0 && cs[e - 1] == '/'
        invariant
            e <= cs.len(),
            trim_end_slash(cs@) == trim_end_slash(cs@.take(e as int)),
        decreases e,
    {
        assert(cs@.take(e as int).drop_last() =~= cs@.take(e - 1));
        e = e - 1;
    }
    assert(cs@.take(cs@.len() as int) =~= cs@);
    let mut out = vstd::slice::slice_to_vec(vstd::slice::slice_subrange(cs.as_slice(), 0, e));
    let mut p = chars_of(path);
    out.append(&mut p);
    assert(cs@.subrange(0, e as int) =~= cs@.take(e as int));
    string_of(out.as_slice())
}

pub open spec fn header_models(h: Seq<(String, String)>) -> Seq<(Seq<char>, Seq<char>)> {
    h.map_values(|p: (String, String)| (p.0@, p.1@))
}

/// Headers of an OpenAI request: JSON content type, and a bearer token when
/// a key is given.
pub open spec fn spec_bearer_headers(api_key: Seq<char>) -> Seq<(Seq<char>, Seq<char>)> {
    if api_key.len() == 0 {
        seq![("Content-Type"@, "application/json"@)]
    } else {
        seq![("Content-Type"@, "application/json"@), ("Authorization"@, "Bearer "@ + api_key)]
    }
}

/// Headers of an Anthropic request: JSON content type, the API version,
/// and `x-api-key` when a key is given.
pub open spec fn spec_anthropic_headers(api_key: Seq<char>) -> Seq<(Seq<char>, Seq<char>)> {
    let base = seq![("Content-Type"@, "application/json"@), ("anthropic-version"@, "2023-06-01"@)];
    if api_key.len() == 0 { base } else { base.push(("x-api-key"@, api_key)) }
}

fn bearer_headers(api_key: &str) -> (r: Vec<(String, String)>)
    ensures
        header_models(r@) == spec_bearer_headers(api_key@),
{
    let mut h: Vec<(String, String)> = vec![("Content-Type".to_owned(), "application/json".to_owned())];
    if chars_of(api_key).len() > 0 {
        h.push(("Authorization".to_owned(), concat_str("Bearer ", api_key)));
    }
    assert(header_models(h@) =~= spec_bearer_headers(api_key@));
    h
}

/// What one frame (or one transport event) makes the stream do: the events
/// to deliver, in order, and whether the round is over.
pub struct FrameStep {
    pub events: Vec<StreamEvent>,
    pub finished: bool,
}

fn step(events: Vec<StreamEvent>, finished: bool) -> (r: FrameStep)
    ensures
        r.events == events,
        r.finished == finished,
{
    FrameStep { events, finished }
}

fn one(e: StreamEvent) -> (r: Vec<StreamEvent>)
    ensures
        event_models(r@) == seq![e.model()],
{
    let ghost m = e.model();
    let r = vec![e];
    assert(event_models(r@) =~= seq![m]);
    r
}

/// OpenAI Chat Completions streamer.
pub struct OpenAiChatStreamer;

/// OpenAI Responses streamer.
pub struct OpenAiResponsesStreamer;

/// Anthropic Messages streamer.
pub struct AnthropicStreamer;

/// The three streamers, picked by wire format.
pub enum Streamer {
    OpenAiChat(OpenAiChatStreamer),
    OpenAiResponses(OpenAiResponsesStreamer),
    Anthropic(AnthropicStreamer),
}

/// Pick the streamer for a wire format.
pub fn pick(fmt: ApiFormat) -> (r: Streamer)
    ensures
        fmt == ApiFormat::OpenAiChat ==> r is OpenAiChat,
        fmt == ApiFormat::OpenAiResponses ==> r is OpenAiResponses,
        fmt == ApiFormat::AnthropicMessages ==> r is Anthropic,
{
    match fmt {
        ApiFormat::OpenAiChat => Streamer::OpenAiChat(OpenAiChatStreamer),
        ApiFormat::OpenAiResponses => Streamer::OpenAiResponses(OpenAiResponsesStreamer),
        ApiFormat::AnthropicMessages => Streamer::Anthropic(AnthropicStreamer),
    }
}

/// The stream step of a Chat Completions frame: a chunk delivers the event
/// it carries; `[DONE]` delivers `Done` and ends the round; other frames
/// deliver nothing.
pub open spec fn spec_chat_frame(f: SseFrameModel) -> (Seq<EventModel>, bool) {
    match f {
        SseFrameModel::Data(v) => match crate::openai_chat::spec_parse_openai_chunk(v) {
            Some(e) => (seq![e], false),
            None => (Seq::empty(), false),
        },
        SseFrameModel::Done => (seq![EventModel::Done], true),
        _ => (Seq::empty(), false),
    }
}

impl OpenAiChatStreamer {
    /// `{endpoint}/chat/completions`, trailing slashes of the endpoint removed.
    pub fn request_url(&self, endpoint: &str) -> (r: String)
        ensures
            r@ == trim_end_slash(endpoint@) + "/chat/completions"@,
    {
        join_endpoint(endpoint, "/chat/completions")
    }

    pub fn request_headers(&self, api_key: &str) -> (r: Vec<(String, String)>)
        ensures
            header_models(r@) == spec_bearer_headers(api_key@),
    {
        bearer_headers(api_key)
    }

    pub fn request_body(&self, model: &str, messages: &[ChatMessage], tools: Option<&[ToolDefinition]>) -> (r: JsonValue)
        ensures
            r@ == crate::openai_chat::spec_chat_body(model@, messages@, match tools { Some(t) => Some(t@), None => None }),
    {
        crate::openai_chat::build_request_body(model, messages, tools)
    }

    /// What one SSE frame makes the stream do.
    pub fn on_frame(&self, frame: SseFrame) -> (r: FrameStep)
        ensures
            (event_models(r.events@), r.finished) == spec_chat_frame(frame.model()),
    {
        match frame {
            SseFrame::Data(v) => {
                match crate::openai_chat::parse_openai_chunk(&v) {
                    Ok(Some(e)) => step(one(e), false),
                    Ok(None) => step(no_events(), false),
                    Err(m) => {
                        let msg = concat_str("parse error: ", m.as_str());
                        step(one(StreamEvent::Error { kind: ChatErrorKind::StreamProtocol, message: msg }), true)
                    },
                }
            },
            SseFrame::Done => step(one(StreamEvent::Done), true),
            _ => step(no_events(), false),
        }
    }

    /// A failed read of the byte stream ends the round with an error whose
    /// kind is judged from the failure text.
    pub fn on_read_error(&self, text: &str) -> (r: FrameStep)
        ensures
            event_models(r.events@) == seq![EventModel::Error(spec_read_error_kind(text@), "stream read error: "@ + text@)],
            r.finished,
    {
        let kind = classify_reqwest_error_text(text);
        step(one(StreamEvent::Error { kind, message: concat_str("stream read error: ", text) }), true)
    }
}

/// Responses stream state: the in-flight tool calls.
pub struct ResponsesStream {
    pub pending: HashMap<u32, PendingToolCall>,
}

/// The stream step of a Responses frame: named events are translated
/// (`Done` ends the round); other frames deliver nothing.
pub open spec fn spec_responses_frame(f: SseFrameModel, t: Map<u32, PendingModel>) -> (Seq<EventModel>, bool, Map<u32, PendingModel>) {
    match f {
        SseFrameModel::Named(event, data) => {
            let (evs, t2) = crate::openai_responses::spec_responses_event(event, data, t);
            (evs, evs.contains(EventModel::Done), t2)
        },
        _ => (Seq::empty(), false, t),
    }
}

impl ResponsesStream {
    pub fn new() -> (r: ResponsesStream)
        ensures
            table_model(r.pending@) == Map::<u32, PendingModel>::empty(),
    {
        let r = ResponsesStream { pending: HashMap::new() };
        assert(table_model(r.pending@) =~= Map::<u32, PendingModel>::empty());
        r
    }

    pub fn on_frame(&mut self, frame: SseFrame) -> (r: FrameStep)
        ensures
            (event_models(r.events@), r.finished, table_model(final(self).pending@))
                == spec_responses_frame(frame.model(), table_model(old(self).pending@)),
    {
        match frame {
            SseFrame::Named { event, data } => {
                let evs = crate::openai_responses::handle_responses_event(event.as_str(), &data, &mut self.pending);
                let done = contains_done(&evs);
                step(evs, done)
            },
            _ => step(no_events(), false),
        }
    }
}

fn contains_done(evs: &Vec<StreamEvent>) -> (r: bool)
    ensures
        r == event_models(evs@).contains(EventModel::Done),
{
    let mut i: usize = 0;
    while i < evs.len()
        invariant
            0 <= i <= evs.len(),
            forall|j: int| 0 <= j < i ==> !(evs@[j] is Done),
        decreases evs.len() - i,
    {
        if let StreamEvent::Done = evs[i] {
            assert(event_models(evs@)[i as int] == EventModel::Done);
            return true;
        }
        i = i + 1;
    }
    assert forall|j: int| 0 <= j < event_models(evs@).len() implies event_models(evs@)[j] != EventModel::Done by {
        assert(!(evs@[j] is Done));
    }
    false
}

impl OpenAiResponsesStreamer {
    /// `{endpoint}/responses`, trailing slashes of the endpoint removed.
    pub fn request_url(&self, endpoint: &str) -> (r: String)
        ensures
            r@ == trim_end_slash(endpoint@) + "/responses"@,
    {
        join_endpoint(endpoint, "/responses")
    }

    pub fn request_headers(&self, api_key: &str) -> (r: Vec<(String, String)>)
        ensures
            header_models(r@) == spec_bearer_headers(api_key@),
    {
        bearer_headers(api_key)
    }

    pub fn request_body(&self, model: &str, messages: &[ChatMessage], tools: Option<&[ToolDefinition]>) -> (r: JsonValue)
        ensures
            r@ == crate::openai_responses::spec_responses_body(model@, messages@, match tools { Some(t) => Some(t@), None => None }),
    {
        crate::openai_responses::build_request_body(model, messages, tools)
    }

    /// A failed read of the byte stream ends the round with a network error.
    pub fn on_read_error(&self, text: &str) -> (r: FrameStep)
        ensures
            event_models(r.events@) == seq![EventModel::Error(ChatErrorKind::Network, "stream read error: "@ + text@)],
            r.finished,
    {
        step(one(StreamEvent::Error { kind: ChatErrorKind::Network, message: concat_str("stream read error: ", text) }), true)
    }
}


/// Anthropic stream state: in-flight `tool_use` blocks and the number of
/// text and tool-call events delivered so far.
pub struct AnthropicStream {
    pub pending: HashMap<u32, PendingToolCall>,
    pub text_events: u32,
    pub tool_events: u32,
}

/// What one Anthropic frame makes the stream do, with the round's outcome
/// when it ends.
pub struct AnthropicStep {
    pub events: Vec<StreamEvent>,
    pub finished: bool,
    pub outcome: Option<CompletionOutcome>,
}

/// Deliver events in order, counting text and tool-call events (counters
/// wrap at 2^32); `Done` is delivered last and ends the round.
pub open spec fn anth_deliver(evs: Seq<EventModel>, text: u32, tool: u32) -> (Seq<EventModel>, bool, u32, u32)
    decreases evs.len(),
{
    if evs.len() == 0 {
        (Seq::empty(), false, text, tool)
    } else if evs[0] is Done {
        (seq![EventModel::Done], true, text, tool)
    } else {
        let t2 = if evs[0] is Text { ((text + 1) % 0x1_0000_0000) as u32 } else { text };
        let u2 = if evs[0] is ToolCalls { ((tool + 1) % 0x1_0000_0000) as u32 } else { tool };
        let r = anth_deliver(evs.drop_first(), t2, u2);
        (seq![evs[0]] + r.0, r.1, r.2, r.3)
    }
}

/// The text of the error raised when the upstream closes without
/// `message_stop`.
pub open spec fn closed_early_text() -> Seq<char> {
    "upstream closed stream without message_stop"@
}

impl AnthropicStream {
    pub fn new() -> (r: AnthropicStream)
        ensures
            table_model(r.pending@) == Map::<u32, PendingModel>::empty(),
            r.text_events == 0,
            r.tool_events == 0,
    {
        let r = AnthropicStream { pending: HashMap::new(), text_events: 0, tool_events: 0 };
        assert(table_model(r.pending@) =~= Map::<u32, PendingModel>::empty());
        r
    }

    /// Named frames are translated and delivered; when `Done` arrives the
    /// round ends with a `Done` outcome carrying the counts.
    pub fn on_frame(&mut self, frame: SseFrame) -> (r: AnthropicStep)
        ensures
            match frame.model() {
                SseFrameModel::Named(event, data) => {
                    let (evs, t2) = crate::anthropic::spec_anthropic_event(event, data, table_model(old(self).pending@));
                    let d = anth_deliver(evs, old(self).text_events, old(self).tool_events);
                    &&& table_model(final(self).pending@) == t2
                    &&& event_models(r.events@) == d.0
                    &&& r.finished == d.1
                    &&& final(self).text_events == d.2
                    &&& final(self).tool_events == d.3
                    &&& r.outcome == (if d.1 { Some(CompletionOutcome::Done { text_events: d.2, tool_call_events: d.3 }) } else { None })
                },
                _ => {
                    &&& event_models(r.events@) == Seq::<EventModel>::empty()
                    &&& !r.finished
                    &&& r.outcome is None
                    &&& final(self).pending@ == old(self).pending@
                    &&& final(self).text_events == old(self).text_events
                    &&& final(self).tool_events == old(self).tool_events
                },
            },
    {
        match frame {
            SseFrame::Named { event, data } => {
                let mut evs = crate::anthropic::handle_anthropic_event(event.as_str(), &data, &mut self.pending);
                let ghost all = event_models(evs@);
                let ghost t0 = self.text_events;
                let ghost u0 = self.tool_events;
                let ghost pend = self.pending@;
                let mut out: Vec<StreamEvent> = Vec::new();
                let mut finished = false;
                assert(event_models(out@) + anth_deliver(all, t0, u0).0 =~= anth_deliver(all, t0, u0).0);
                loop
                    invariant_except_break
                        self.pending@ == pend,
                        !finished,
                        anth_deliver(all, t0, u0) == (event_models(out@) + anth_deliver(event_models(evs@), self.text_events, self.tool_events).0,
                            anth_deliver(event_models(evs@), self.text_events, self.tool_events).1,
                            anth_deliver(event_models(evs@), self.text_events, self.tool_events).2,
                            anth_deliver(event_models(evs@), self.text_events, self.tool_events).3),
                    ensures
                        self.pending@ == pend,
                        anth_deliver(all, t0, u0) == (event_models(out@), finished, self.text_events, self.tool_events),
                    decreases evs.len(),
                {
                    if evs.len() == 0 {
                        assert(event_models(out@) + Seq::<EventModel>::empty() =~= event_models(out@));
                        break;
                    }
                    let ghost cur = event_models(evs@);
                    let e = evs.remove(0);
                    assert(event_models(evs@) =~= cur.drop_first());
                    assert(cur[0] == e.model());
                    let ghost before = event_models(out@);
                    match e {
                        StreamEvent::Done => {
                            out.push(StreamEvent::Done);
                            assert(event_models(out@) =~= before + seq![EventModel::Done]);
                            finished = true;
                            break;
                        },
                        StreamEvent::Text(t) => {
                            self.text_events = self.text_events.wrapping_add(1);
                            out.push(StreamEvent::Text(t));
                        },
                        StreamEvent::ToolCalls(p) => {
                            self.tool_events = self.tool_events.wrapping_add(1);
                            out.push(StreamEvent::ToolCalls(p));
                        },
                        StreamEvent::Error { kind, message } => {
                            out.push(StreamEvent::Error { kind, message });
                        },
                    }
                    assert(event_models(out@) =~= before.push(cur[0]));
                    let ghost r = anth_deliver(event_models(evs@), self.text_events, self.tool_events);
                    assert(before + (seq![cur[0]] + r.0) =~= event_models(out@) + r.0);
                }
                let outcome = if finished {
                    Some(CompletionOutcome::Done { text_events: self.text_events, tool_call_events: self.tool_events })
                } else {
                    None
                };
                AnthropicStep { events: out, finished, outcome }
            },
            _ => AnthropicStep { events: no_events(), finished: false, outcome: None },
        }
    }
}


/// Events and the one recorded outcome when an Anthropic round ends
/// without `message_stop`.
pub struct EndStep {
    pub events: Vec<StreamEvent>,
    pub outcome: CompletionOutcome,
}

fn closed_early() -> (r: String)
    ensures
        r@ == closed_early_text(),
{
    "upstream closed stream without message_stop".to_owned()
}

impl AnthropicStreamer {
    /// `{endpoint}/messages`, trailing slashes of the endpoint removed.
    pub fn request_url(&self, endpoint: &str) -> (r: String)
        ensures
            r@ == trim_end_slash(endpoint@) + "/messages"@,
    {
        join_endpoint(endpoint, "/messages")
    }

    pub fn request_headers(&self, api_key: &str) -> (r: Vec<(String, String)>)
        ensures
            header_models(r@) == spec_anthropic_headers(api_key@),
    {
        let mut h: Vec<(String, String)> = vec![
            ("Content-Type".to_owned(), "application/json".to_owned()),
            ("anthropic-version".to_owned(), crate::anthropic::ANTHROPIC_VERSION.to_owned()),
        ];
        if chars_of(api_key).len() > 0 {
            h.push(("x-api-key".to_owned(), api_key.to_owned()));
        }
        assert(header_models(h@) =~= spec_anthropic_headers(api_key@));
        h
    }

    pub fn request_body(&self, model: &str, messages: &[ChatMessage], tools: Option<&[ToolDefinition]>) -> (r: JsonValue)
        ensures
            r@ == crate::anthropic::spec_anthropic_body(model@, messages@, match tools { Some(t) => Some(t@), None => None }),
    {
        crate::anthropic::build_request_body(model, messages, tools)
    }

    /// The request could not be sent: the outcome kind follows the failure's
    /// HTTP status when it has one, else it is a network failure.
    pub fn send_failure(&self, status: Option<u16>, text: &str) -> (r: (CompletionOutcome, StreamError))
        ensures
            r.0 == (CompletionOutcome::PreStreamFailure {
                kind: match status { Some(s) => spec_status_kind(s), None => ChatErrorKind::Network },
                message: r.0->PreStreamFailure_message,
            }),
            r.0->PreStreamFailure_message@ == text@,
            match status {
                Some(s) => r.1 matches StreamError::Upstream { kind, status: s2, body_preview }
                    && kind == spec_status_kind(s) && s2 == s && body_preview@ == take_chars(text@, 800),
                None => r.1 matches StreamError::Other(m) && m@ == text@,
            },
    {
        let kind = match status {
            Some(s) => classify_status(s),
            None => ChatErrorKind::Network,
        };
        (CompletionOutcome::PreStreamFailure { kind, message: text.to_owned() }, map_http_failure(status, text))
    }

    /// The upstream answered non-2xx: the outcome reads
    /// `upstream returned {status}: {body}`, and the error is classified.
    pub fn upstream_failure(&self, status: u16, body: &str) -> (r: (CompletionOutcome, StreamError))
        ensures
            r.0 matches CompletionOutcome::PreStreamFailure { kind, message }
                && kind == spec_status_kind(status)
                && message@ == "upstream returned "@ + crate::text::spec_decimal(status as nat) + ": "@ + body@,
            r.1 matches StreamError::Upstream { kind, status: s2, body_preview }
                && kind == spec_status_kind(status) && s2 == status && body_preview@ == take_chars(body@, 800),
    {
        let kind = classify_status(status);
        let mut m = chars_of("upstream returned ");
        let mut d = chars_of(crate::text::u64_to_string(status as u64).as_str());
        m.append(&mut d);
        let mut c = chars_of(": ");
        m.append(&mut c);
        let mut b = chars_of(body);
        m.append(&mut b);
        (CompletionOutcome::PreStreamFailure { kind, message: string_of(m.as_slice()) }, classify_upstream_error(status, body))
    }

    /// A failed read ends the round: a network error, then (as for any
    /// stream that stops before `message_stop`) a protocol error. The round
    /// is recorded once, as the network error.
    pub fn on_read_error(&self, text: &str) -> (r: EndStep)
        ensures
            event_models(r.events@) == seq![
                EventModel::Error(ChatErrorKind::Network, "stream read error: "@ + text@),
                EventModel::Error(ChatErrorKind::StreamProtocol, closed_early_text()),
            ],
            r.outcome matches CompletionOutcome::Error { kind, message }
                && kind == ChatErrorKind::Network && message@ == "stream read error: "@ + text@,
    {
        let msg = concat_str("stream read error: ", text);
        let ev = vec![
            StreamEvent::Error { kind: ChatErrorKind::Network, message: msg.clone() },
            StreamEvent::Error { kind: ChatErrorKind::StreamProtocol, message: closed_early() },
        ];
        assert(event_models(ev@) =~= seq![
            EventModel::Error(ChatErrorKind::Network, "stream read error: "@ + text@),
            EventModel::Error(ChatErrorKind::StreamProtocol, closed_early_text()),
        ]);
        EndStep { events: ev, outcome: CompletionOutcome::Error { kind: ChatErrorKind::Network, message: msg } }
    }

    /// The byte stream ended before `message_stop`: a protocol error, recorded.
    pub fn on_end(&self) -> (r: EndStep)
        ensures
            event_models(r.events@) == seq![EventModel::Error(ChatErrorKind::StreamProtocol, closed_early_text())],
            r.outcome matches CompletionOutcome::Error { kind, message }
                && kind == ChatErrorKind::StreamProtocol && message@ == closed_early_text(),
    {
        let ev = vec![StreamEvent::Error { kind: ChatErrorKind::StreamProtocol, message: closed_early() }];
        assert(event_models(ev@) =~= seq![EventModel::Error(ChatErrorKind::StreamProtocol, closed_early_text())]);
        EndStep { events: ev, outcome: CompletionOutcome::Error { kind: ChatErrorKind::StreamProtocol, message: closed_early() } }
    }
}

} // verus!
