//! 8-way error classification shared by every protocol.

use vstd::prelude::*;
use crate::json::{Json, JsonValue, field_models_of, lemma_field_models_of_index};
use crate::tool::opt_view;

verus! {

/// The error taxonomy. Drives player-facing copy and the debug recipes.
#[derive(Debug, Clone, Copy, PartialEq, Eq, Hash, Structural)]
pub enum ChatErrorKind {
    /// Connect / TLS / DNS / read timeout
    Network,
    /// 401 / 403 — api key wrong, missing, or expired
    Auth,
    /// 404 — model name not recognized by upstream
    ModelNotFound,
    /// 400 — bad request (malformed messages, wrong params)
    BadRequest,
    /// 429 — rate limit / quota exceeded
    RateLimit,
    /// 5xx — upstream server error
    ServerError,
    /// SSE protocol violated
    StreamProtocol,
    /// Anything we don't recognize
    Unknown,
}

/// The stable snake_case name of each kind.
pub open spec fn spec_kind_name(k: ChatErrorKind) -> Seq<char> {
    match k {
        ChatErrorKind::Network => "network"@,
        ChatErrorKind::Auth => "auth"@,
        ChatErrorKind::ModelNotFound => "model_not_found"@,
        ChatErrorKind::BadRequest => "bad_request"@,
        ChatErrorKind::RateLimit => "rate_limit"@,
        ChatErrorKind::ServerError => "server_error"@,
        ChatErrorKind::StreamProtocol => "stream_protocol"@,
        ChatErrorKind::Unknown => "unknown"@,
    }
}

/// Human-friendly label of each kind.
pub open spec fn spec_kind_label(k: ChatErrorKind) -> Seq<char> {
    match k {
        ChatErrorKind::Network => "Network / connect / TLS / timeout"@,
        ChatErrorKind::Auth => "Authentication failed (401 / 403)"@,
        ChatErrorKind::ModelNotFound => "Model not found (404)"@,
        ChatErrorKind::BadRequest => "Bad request (400 / 4xx)"@,
        ChatErrorKind::RateLimit => "Rate limit / quota exceeded (429)"@,
        ChatErrorKind::ServerError => "Upstream server error (5xx)"@,
        ChatErrorKind::StreamProtocol => "SSE protocol violation"@,
        ChatErrorKind::Unknown => "Unclassified error"@,
    }
}

/// Debug recipe of each kind: a markdown bullet list of likely causes and next checks.
pub open spec fn spec_kind_hint(k: ChatErrorKind) -> Seq<char> {
    match k {
        ChatErrorKind::Network => "\
- The Rust side could not connect, complete TLS handshake, or read the response within the timeout.
- Check the `endpoint` in Settings — typo, wrong scheme (http vs https), or a stale custom URL are the usual culprits.
- If using a self-hosted LLM (llama.cpp, vLLM, ollama, etc.), confirm the server is running and listening on the configured port (`curl {endpoint}/v1/models` from the same machine is a fast smoke test).
- Corporate proxies or VPNs can break TLS or DNS; try a different network to isolate.
- Look at the `cause` field in the console entry for the underlying reqwest error string (it carries the OS-level reason)."@,
        ChatErrorKind::Auth => "\
- The API key was rejected (HTTP 401 / 403).
- Re-paste the key in Settings — leading/trailing whitespace or a truncated paste are the #1 cause.
- Confirm the key has access to the model you selected. Some providers (OpenAI org-scoped keys, Azure, Anthropic workspaces) require extra setup.
- If the key was just rotated, the provider may take a few seconds to propagate; retry once.
- The saved report's request body has the `Authorization` header redacted; check the raw response body for the upstream's exact rejection reason."@,
        ChatErrorKind::ModelNotFound => "\
- The model id you selected is not served by the endpoint, or the API key lacks access to it.
- Cross-check the model id in the provider's model list. Common gotchas: case (`gpt-4o` vs `GPT-4o`), version suffix (`-preview`, `-2024-08-06`), provider aliases (Anthropic `-latest` aliases vs the dated id).
- If using OpenAI-compatible third-party providers (OpenRouter, DeepSeek, GLM, etc.), each one accepts its own model id set; the curated catalog in the app lists the supported ones."@,
        ChatErrorKind::BadRequest => "\
- The request body was rejected as malformed (HTTP 400, sometimes 422).
- The most common cause is a tool schema that the provider can't parse — required field missing, wrong JSON Schema type, or a `parameters` object that doesn't have `type: \"object\"` at the root.
- Cross-protocol tool translation is a known sharp edge: a tool that works on `openai_chat` may need a tweak to work on `openai_responses` (different field names).
- Long conversation history can hit context-window limits — the request may need summarization before the next retry.
- The saved report's request body shows exactly what the provider saw; the response body shows the provider's structured error."@,
        ChatErrorKind::RateLimit => "\
- You've exceeded the provider's per-minute token / request quota (HTTP 429).
- Most providers return a `Retry-After` header; the saved report's response digest shows the status, and the raw response body has the full retry instructions.
- If the rate limit is per-organization (not per-key), switching keys won't help — you have to wait or upgrade the plan.
- The agent loop in this app retries the same turn automatically once after a short delay; if you see two 429s back-to-back, the limit is being hit every turn and the conversation is too chatty."@,
        ChatErrorKind::ServerError => "\
- The provider's server returned 5xx. This is on their side, not yours.
- Retry once after a few seconds — transient 502 / 503 / 504 are common during provider restarts.
- Check the provider's status page before assuming the app is broken.
- If the error persists across multiple minutes and multiple models, your network path (proxy, firewall) is likely rewriting or dropping responses."@,
        ChatErrorKind::StreamProtocol => "\
- The SSE byte stream violated the expected wire shape (missing `[DONE]`, unexpected event type, malformed JSON, premature close).
- This almost always means the endpoint is not actually speaking the protocol you configured. Switch `api_format` to the right one for the endpoint.
- Self-hosted servers behind reverse proxies (nginx, Caddy) often buffer or chunk the response, breaking the SSE framing. Try disabling proxy buffering for the path.
- A custom openai-compatible provider may add a non-standard event the parser doesn't know — the saved report's raw response body shows the offending frames."@,
        ChatErrorKind::Unknown => "\
- The error didn't match any of the 7 known classes. This is rare; usually it's a wrapped library error that escaped classification.
- The `cause` field in the console entry has the original error string; that's the most useful starting point for the LLM assistant.
- The saved report includes the full request + raw response — paste both into the LLM and ask it to classify and propose a fix."@,
    }
}

/// Error kind of a non-2xx HTTP status.
pub open spec fn spec_status_kind(status: u16) -> ChatErrorKind {
    if status == 401 || status == 403 {
        ChatErrorKind::Auth
    } else if status == 404 {
        ChatErrorKind::ModelNotFound
    } else if status == 429 {
        ChatErrorKind::RateLimit
    } else if 500 <= status && status <= 599 {
        ChatErrorKind::ServerError
    } else if 400 <= status && status <= 499 {
        ChatErrorKind::BadRequest
    } else {
        ChatErrorKind::Unknown
    }
}

/// The status table: 401 and 403 are authentication failures, 404 an
/// unknown model, 429 a rate limit, every 5xx a server error, every other
/// 4xx (400 among them) a bad request, and anything else unknown.
pub proof fn law_status_table(status: u16)
    ensures
        (status == 401 || status == 403) ==> spec_status_kind(status) == ChatErrorKind::Auth,
        status == 404 ==> spec_status_kind(status) == ChatErrorKind::ModelNotFound,
        status == 429 ==> spec_status_kind(status) == ChatErrorKind::RateLimit,
        500 <= status <= 599 ==> spec_status_kind(status) == ChatErrorKind::ServerError,
        400 <= status <= 499 && status != 401 && status != 403 && status != 404 && status != 429
            ==> spec_status_kind(status) == ChatErrorKind::BadRequest,
        !(400 <= status <= 599) ==> spec_status_kind(status) == ChatErrorKind::Unknown,
        spec_status_kind(400) == ChatErrorKind::BadRequest,
{
}

/// Classify an HTTP status: 401/403 auth, 404 model not found, 429 rate
/// limit, 5xx server error, other 4xx bad request, anything else unknown.
pub fn classify_status(status: u16) -> (r: ChatErrorKind)
    ensures
        r == spec_status_kind(status),
{
    if status == 401 || status == 403 {
        ChatErrorKind::Auth
    } else if status == 404 {
        ChatErrorKind::ModelNotFound
    } else if status == 429 {
        ChatErrorKind::RateLimit
    } else if 500 <= status && status <= 599 {
        ChatErrorKind::ServerError
    } else if 400 <= status && status <= 499 {
        ChatErrorKind::BadRequest
    } else {
        ChatErrorKind::Unknown
    }
}

impl ChatErrorKind {
    /// All eight kinds, in declaration order.
    pub fn all() -> (r: Vec<ChatErrorKind>)
        ensures
            r@ == seq![
                ChatErrorKind::Network,
                ChatErrorKind::Auth,
                ChatErrorKind::ModelNotFound,
                ChatErrorKind::BadRequest,
                ChatErrorKind::RateLimit,
                ChatErrorKind::ServerError,
                ChatErrorKind::StreamProtocol,
                ChatErrorKind::Unknown,
            ],
    {
        vec![
            ChatErrorKind::Network,
            ChatErrorKind::Auth,
            ChatErrorKind::ModelNotFound,
            ChatErrorKind::BadRequest,
            ChatErrorKind::RateLimit,
            ChatErrorKind::ServerError,
            ChatErrorKind::StreamProtocol,
            ChatErrorKind::Unknown,
        ]
    }

    /// Human-friendly label.
    pub fn label(self) -> (r: &'static str)
        ensures
            r@ == spec_kind_label(self),
    {
        match self {
            ChatErrorKind::Network => "Network / connect / TLS / timeout",
            ChatErrorKind::Auth => "Authentication failed (401 / 403)",
            ChatErrorKind::ModelNotFound => "Model not found (404)",
            ChatErrorKind::BadRequest => "Bad request (400 / 4xx)",
            ChatErrorKind::RateLimit => "Rate limit / quota exceeded (429)",
            ChatErrorKind::ServerError => "Upstream server error (5xx)",
            ChatErrorKind::StreamProtocol => "SSE protocol violation",
            ChatErrorKind::Unknown => "Unclassified error",
        }
    }

    /// LLM-facing debug hint: likely causes and next checks for this kind.
    pub fn to_debug_hint(self) -> (r: &'static str)
        ensures
            r@ == spec_kind_hint(self),
    {
        match self {
            ChatErrorKind::Network => "\
- The Rust side could not connect, complete TLS handshake, or read the response within the timeout.
- Check the `endpoint` in Settings — typo, wrong scheme (http vs https), or a stale custom URL are the usual culprits.
- If using a self-hosted LLM (llama.cpp, vLLM, ollama, etc.), confirm the server is running and listening on the configured port (`curl {endpoint}/v1/models` from the same machine is a fast smoke test).
- Corporate proxies or VPNs can break TLS or DNS; try a different network to isolate.
- Look at the `cause` field in the console entry for the underlying reqwest error string (it carries the OS-level reason).",
            ChatErrorKind::Auth => "\
- The API key was rejected (HTTP 401 / 403).
- Re-paste the key in Settings — leading/trailing whitespace or a truncated paste are the #1 cause.
- Confirm the key has access to the model you selected. Some providers (OpenAI org-scoped keys, Azure, Anthropic workspaces) require extra setup.
- If the key was just rotated, the provider may take a few seconds to propagate; retry once.
- The saved report's request body has the `Authorization` header redacted; check the raw response body for the upstream's exact rejection reason.",
            ChatErrorKind::ModelNotFound => "\
- The model id you selected is not served by the endpoint, or the API key lacks access to it.
- Cross-check the model id in the provider's model list. Common gotchas: case (`gpt-4o` vs `GPT-4o`), version suffix (`-preview`, `-2024-08-06`), provider aliases (Anthropic `-latest` aliases vs the dated id).
- If using OpenAI-compatible third-party providers (OpenRouter, DeepSeek, GLM, etc.), each one accepts its own model id set; the curated catalog in the app lists the supported ones.",
            ChatErrorKind::BadRequest => "\
- The request body was rejected as malformed (HTTP 400, sometimes 422).
- The most common cause is a tool schema that the provider can't parse — required field missing, wrong JSON Schema type, or a `parameters` object that doesn't have `type: \"object\"` at the root.
- Cross-protocol tool translation is a known sharp edge: a tool that works on `openai_chat` may need a tweak to work on `openai_responses` (different field names).
- Long conversation history can hit context-window limits — the request may need summarization before the next retry.
- The saved report's request body shows exactly what the provider saw; the response body shows the provider's structured error.",
            ChatErrorKind::RateLimit => "\
- You've exceeded the provider's per-minute token / request quota (HTTP 429).
- Most providers return a `Retry-After` header; the saved report's response digest shows the status, and the raw response body has the full retry instructions.
- If the rate limit is per-organization (not per-key), switching keys won't help — you have to wait or upgrade the plan.
- The agent loop in this app retries the same turn automatically once after a short delay; if you see two 429s back-to-back, the limit is being hit every turn and the conversation is too chatty.",
            ChatErrorKind::ServerError => "\
- The provider's server returned 5xx. This is on their side, not yours.
- Retry once after a few seconds — transient 502 / 503 / 504 are common during provider restarts.
- Check the provider's status page before assuming the app is broken.
- If the error persists across multiple minutes and multiple models, your network path (proxy, firewall) is likely rewriting or dropping responses.",
            ChatErrorKind::StreamProtocol => "\
- The SSE byte stream violated the expected wire shape (missing `[DONE]`, unexpected event type, malformed JSON, premature close).
- This almost always means the endpoint is not actually speaking the protocol you configured. Switch `api_format` to the right one for the endpoint.
- Self-hosted servers behind reverse proxies (nginx, Caddy) often buffer or chunk the response, breaking the SSE framing. Try disabling proxy buffering for the path.
- A custom openai-compatible provider may add a non-standard event the parser doesn't know — the saved report's raw response body shows the offending frames.",
            ChatErrorKind::Unknown => "\
- The error didn't match any of the 7 known classes. This is rare; usually it's a wrapped library error that escaped classification.
- The `cause` field in the console entry has the original error string; that's the most useful starting point for the LLM assistant.
- The saved report includes the full request + raw response — paste both into the LLM and ask it to classify and propose a fix.",
        }
    }


    /// Stable snake_case name.
    pub fn as_str(self) -> (r: &'static str)
        ensures
            r@ == spec_kind_name(self),
    {
        match self {
            ChatErrorKind::Network => "network",
            ChatErrorKind::Auth => "auth",
            ChatErrorKind::ModelNotFound => "model_not_found",
            ChatErrorKind::BadRequest => "bad_request",
            ChatErrorKind::RateLimit => "rate_limit",
            ChatErrorKind::ServerError => "server_error",
            ChatErrorKind::StreamProtocol => "stream_protocol",
            ChatErrorKind::Unknown => "unknown",
        }
    }
}

/// Optional developer-facing diagnostic blob (status, body preview, request
/// id, stage). Not shown to the player by default.
#[derive(Debug, Clone, Default, PartialEq, Eq)]
pub struct ChatErrorDiag {
    /// HTTP status code if any
    pub status: Option<u16>,
    /// First 1KB of the upstream error body (if any)
    pub body: Option<String>,
    /// Upstream `x-request-id` header (for support tickets)
    pub request_id: Option<String>,
    /// Internal stage where the error was raised
    pub stage: Option<String>,
}


/// Optional diagnostic context that travels alongside an error. Every
/// field starts empty; each builder sets one.
#[derive(Debug, Clone, PartialEq, Eq)]
pub struct ErrorContext {
    /// Compact summary of the outgoing request.
    pub request_digest: Option<String>,
    /// Compact summary of the incoming response.
    pub response_digest: Option<String>,
    /// The lower-level error text that was classified.
    pub cause: Option<String>,
    /// Internal stage at which the error was raised.
    pub stage: Option<String>,
    /// Upstream request id, when surfaced.
    pub upstream_request_id: Option<String>,
}

/// `o` as an optional JSON string.
pub open spec fn opt_str_field(key: Seq<char>, o: Option<String>) -> Seq<(Seq<char>, Json)> {
    match o {
        Some(s) => seq![(key, Json::Str(s@))],
        None => Seq::empty(),
    }
}

/// Wire shape of a context: only the fields that are set, in order.
pub open spec fn spec_context_json(c: ErrorContext) -> Json {
    Json::Object(opt_str_field("request_digest"@, c.request_digest)
        + opt_str_field("response_digest"@, c.response_digest)
        + opt_str_field("cause"@, c.cause)
        + opt_str_field("stage"@, c.stage)
        + opt_str_field("upstream_request_id"@, c.upstream_request_id))
}

impl Default for ErrorContext {
    /// The empty context.
    fn default() -> (r: ErrorContext)
        ensures
            r.request_digest is None,
            r.response_digest is None,
            r.cause is None,
            r.stage is None,
            r.upstream_request_id is None,
    {
        ErrorContext::new()
    }
}

impl ErrorContext {
    /// An empty context.
    pub fn new() -> (r: ErrorContext)
        ensures
            r.request_digest is None,
            r.response_digest is None,
            r.cause is None,
            r.stage is None,
            r.upstream_request_id is None,
    {
        ErrorContext { request_digest: None, response_digest: None, cause: None, stage: None, upstream_request_id: None }
    }

    pub fn with_request_digest(self, digest: &str) -> (r: ErrorContext)
        ensures
            opt_view(r.request_digest) == Some(digest@),
            opt_view(r.response_digest) == opt_view(self.response_digest),
            opt_view(r.cause) == opt_view(self.cause),
            opt_view(r.stage) == opt_view(self.stage),
            opt_view(r.upstream_request_id) == opt_view(self.upstream_request_id),
    {
        let mut c = self;
        c.request_digest = Some(digest.to_owned());
        c
    }

    pub fn with_response_digest(self, digest: &str) -> (r: ErrorContext)
        ensures
            opt_view(r.request_digest) == opt_view(self.request_digest),
            opt_view(r.response_digest) == Some(digest@),
            opt_view(r.cause) == opt_view(self.cause),
            opt_view(r.stage) == opt_view(self.stage),
            opt_view(r.upstream_request_id) == opt_view(self.upstream_request_id),
    {
        let mut c = self;
        c.response_digest = Some(digest.to_owned());
        c
    }

    pub fn with_cause(self, cause: &str) -> (r: ErrorContext)
        ensures
            opt_view(r.request_digest) == opt_view(self.request_digest),
            opt_view(r.response_digest) == opt_view(self.response_digest),
            opt_view(r.cause) == Some(cause@),
            opt_view(r.stage) == opt_view(self.stage),
            opt_view(r.upstream_request_id) == opt_view(self.upstream_request_id),
    {
        let mut c = self;
        c.cause = Some(cause.to_owned());
        c
    }

    pub fn with_stage(self, stage: &str) -> (r: ErrorContext)
        ensures
            opt_view(r.request_digest) == opt_view(self.request_digest),
            opt_view(r.response_digest) == opt_view(self.response_digest),
            opt_view(r.cause) == opt_view(self.cause),
            opt_view(r.stage) == Some(stage@),
            opt_view(r.upstream_request_id) == opt_view(self.upstream_request_id),
    {
        let mut c = self;
        c.stage = Some(stage.to_owned());
        c
    }

    pub fn with_upstream_request_id(self, id: &str) -> (r: ErrorContext)
        ensures
            opt_view(r.request_digest) == opt_view(self.request_digest),
            opt_view(r.response_digest) == opt_view(self.response_digest),
            opt_view(r.cause) == opt_view(self.cause),
            opt_view(r.stage) == opt_view(self.stage),
            opt_view(r.upstream_request_id) == Some(id@),
    {
        let mut c = self;
        c.upstream_request_id = Some(id.to_owned());
        c
    }

    /// The context as a JSON object holding only the fields that are set
    /// (an empty context is `{}`).
    pub fn to_json(&self) -> (r: JsonValue)
        ensures
            r@ == spec_context_json(*self),
    {
        let mut f: Vec<(String, JsonValue)> = Vec::new();
        let ghost fm: Seq<(Seq<char>, Json)> = Seq::empty();
        push_opt_field(&mut f, "request_digest", &self.request_digest);
        push_opt_field(&mut f, "response_digest", &self.response_digest);
        push_opt_field(&mut f, "cause", &self.cause);
        push_opt_field(&mut f, "stage", &self.stage);
        push_opt_field(&mut f, "upstream_request_id", &self.upstream_request_id);
        proof { lemma_field_models_of_index(f@); }
        assert(field_models_of(f@) =~= opt_str_field("request_digest"@, self.request_digest)
            + opt_str_field("response_digest"@, self.response_digest)
            + opt_str_field("cause"@, self.cause)
            + opt_str_field("stage"@, self.stage)
            + opt_str_field("upstream_request_id"@, self.upstream_request_id));
        JsonValue::Object(f)
    }
}

/// Appends `key: o` when `o` is set.
fn push_opt_field(f: &mut Vec<(String, JsonValue)>, key: &str, o: &Option<String>)
    ensures
        field_models_of(final(f)@) == field_models_of(old(f)@) + opt_str_field(key@, *o),
{
    proof { lemma_field_models_of_index(f@); }
    match o {
        Some(s) => {
            f.push((key.to_owned(), JsonValue::String(s.clone())));
            proof { lemma_field_models_of_index(f@); }
            assert(field_models_of(f@) =~= field_models_of(old(f)@) + opt_str_field(key@, *o));
        },
        None => {
            assert(field_models_of(f@) =~= field_models_of(old(f)@) + opt_str_field(key@, *o));
        },
    }
}

} // verus!
