//! Non-streaming ping of an endpoint + API key + model combination.
//!
//! A ping sends one tiny request (`"hi"`, `max_tokens: 1`, no streaming) and
//! reads the first content text of the answer. This module decides what is
//! sent and what the outcome is; the round trip itself happens outside it.
//! Every failure is reported through the result's `error` field.

use vstd::prelude::*;
use crate::error::{ChatErrorKind, spec_status_kind};
use crate::json::{Json, JsonNum, JsonNumber, JsonValue, json_str, obj2, obj3, obj4, models_of, lemma_models_of_index};
use crate::openai_chat::message_json;
use crate::sse::{trim_end_ws, trim_start_ws, trim_str};
use crate::streaming::{join_endpoint, trim_end_slash};
use crate::text::{chars_of, concat_str, spec_decimal, take_chars, truncate, u64_to_string};
use crate::types::{ApiFormat, ChatMessage, ChatRole, ProviderConfig, TestProviderParams, TestProviderResult};

verus! {

/// Longest response text kept in a successful result.
pub const MAX_RESPONSE_PREVIEW: usize = 200;

/// URL path appended to the base endpoint.
pub open spec fn spec_test_path(f: ApiFormat) -> Seq<char> {
    match f {
        ApiFormat::OpenAiChat => "/chat/completions"@,
        ApiFormat::OpenAiResponses => "/v1/responses"@,
        ApiFormat::AnthropicMessages => "/v1/messages"@,
    }
}

pub fn test_endpoint_path(api_format: ApiFormat) -> (r: &'static str)
    ensures
        r@ == spec_test_path(api_format),
{
    match api_format {
        ApiFormat::OpenAiChat => "/chat/completions",
        ApiFormat::OpenAiResponses => "/v1/responses",
        ApiFormat::AnthropicMessages => "/v1/messages",
    }
}

/// `str::trim`.
pub open spec fn trim_ws(s: Seq<char>) -> Seq<char> {
    trim_end_ws(trim_start_ws(s))
}

/// The single user message of a ping, as it goes on the wire.
pub open spec fn spec_ping_messages() -> Json {
    Json::Array(seq![Json::Object(seq![("role"@, Json::Str("user"@)), ("content"@, Json::Str("hi"@))])])
}

/// The ping body of each protocol.
pub open spec fn spec_test_body(f: ApiFormat, model: Seq<char>) -> Json {
    let one = Json::Number(JsonNum::PosInt(1));
    match f {
        ApiFormat::OpenAiChat => Json::Object(seq![
            ("model"@, Json::Str(model)),
            ("messages"@, spec_ping_messages()),
            ("max_tokens"@, one),
            ("stream"@, Json::Bool(false)),
        ]),
        ApiFormat::OpenAiResponses => Json::Object(seq![
            ("model"@, Json::Str(model)),
            ("input"@, spec_ping_messages()),
            ("max_tokens"@, one),
            ("stream"@, Json::Bool(false)),
        ]),
        ApiFormat::AnthropicMessages => Json::Object(seq![
            ("model"@, Json::Str(model)),
            ("max_tokens"@, one),
            ("messages"@, spec_ping_messages()),
        ]),
    }
}

fn ping_messages() -> (r: JsonValue)
    ensures
        r@ == spec_ping_messages(),
{
    let m = ChatMessage { role: ChatRole::User, content: "hi".to_owned(), tool_call_id: None, tool_calls: None };
    let j = message_json(&m);
    let v: Vec<JsonValue> = vec![j];
    proof { lemma_models_of_index(v@); }
    assert(models_of(v@) =~= seq![j@]);
    JsonValue::Array(v)
}

/// The ping body: the model, one `"hi"` user message, `max_tokens: 1`, and
/// `stream: false` for the OpenAI protocols.
pub fn build_test_body(api_format: ApiFormat, model: &str) -> (r: JsonValue)
    ensures
        r@ == spec_test_body(api_format, model@),
{
    let one = JsonValue::Number(JsonNumber::PosInt(1));
    match api_format {
        ApiFormat::OpenAiChat => obj4(
            "model", JsonValue::String(model.to_owned()),
            "messages", ping_messages(),
            "max_tokens", one,
            "stream", JsonValue::Bool(false),
        ),
        ApiFormat::OpenAiResponses => obj4(
            "model", JsonValue::String(model.to_owned()),
            "input", ping_messages(),
            "max_tokens", one,
            "stream", JsonValue::Bool(false),
        ),
        ApiFormat::AnthropicMessages => obj3(
            "model", JsonValue::String(model.to_owned()),
            "max_tokens", one,
            "messages", ping_messages(),
        ),
    }
}

/// Headers of a ping: JSON content type; the key as a bearer token (OpenAI)
/// or `x-api-key` (Anthropic) unless it is empty; and the Anthropic API
/// version.
pub open spec fn spec_test_headers(f: ApiFormat, key: Seq<char>) -> Seq<(Seq<char>, Seq<char>)> {
    let base = seq![("Content-Type"@, "application/json"@)];
    let with_auth = if key.len() == 0 {
        base
    } else {
        match f {
            ApiFormat::AnthropicMessages => base.push(("x-api-key"@, key)),
            _ => base.push(("Authorization"@, "Bearer "@ + key)),
        }
    };
    match f {
        ApiFormat::AnthropicMessages => with_auth.push(("anthropic-version"@, "2023-06-01"@)),
        _ => with_auth,
    }
}

pub open spec fn pair_models(h: Seq<(String, String)>) -> Seq<(Seq<char>, Seq<char>)> {
    h.map_values(|p: (String, String)| (p.0@, p.1@))
}

/// Adds the authentication header of the protocol; an empty key adds none.
pub fn apply_auth(headers: &mut Vec<(String, String)>, api_format: ApiFormat, api_key: &str)
    ensures
        pair_models(final(headers)@) == pair_models(old(headers)@) + (if api_key@.len() == 0 {
            Seq::empty()
        } else {
            match api_format {
                ApiFormat::AnthropicMessages => seq![("x-api-key"@, api_key@)],
                _ => seq![("Authorization"@, "Bearer "@ + api_key@)],
            }
        }),
{
    let ghost before = pair_models(headers@);
    if chars_of(api_key).len() == 0 {
        assert(pair_models(headers@) =~= before + Seq::empty());
        return;
    }
    match api_format {
        ApiFormat::AnthropicMessages => {
            headers.push(("x-api-key".to_owned(), api_key.to_owned()));
            assert(pair_models(headers@) =~= before + seq![("x-api-key"@, api_key@)]);
        },
        _ => {
            headers.push(("Authorization".to_owned(), concat_str("Bearer ", api_key)));
            assert(pair_models(headers@) =~= before + seq![("Authorization"@, "Bearer "@ + api_key@)]);
        },
    }
}

/// Everything a ping sends.
pub struct TestRequest {
    /// Trimmed endpoint without trailing slashes, then the protocol path.
    pub url: String,
    pub headers: Vec<(String, String)>,
    pub body: JsonValue,
}

/// The request of a ping: endpoint and model are trimmed; the key is used
/// as given.
pub fn build_test_request(params: &TestProviderParams) -> (r: TestRequest)
    ensures
        r.url@ == trim_end_slash(trim_ws(params.endpoint@)) + spec_test_path(params.api_format),
        pair_models(r.headers@) == spec_test_headers(params.api_format, params.api_key@),
        r.body@ == spec_test_body(params.api_format, trim_ws(params.model@)),
{
    let endpoint = trim_str(params.endpoint.as_str());
    let model = trim_str(params.model.as_str());
    let url = join_endpoint(endpoint.as_str(), test_endpoint_path(params.api_format));
    let mut headers: Vec<(String, String)> = vec![("Content-Type".to_owned(), "application/json".to_owned())];
    assert(pair_models(headers@) =~= seq![("Content-Type"@, "application/json"@)]);
    apply_auth(&mut headers, params.api_format, params.api_key.as_str());
    let ghost with_auth = pair_models(headers@);
    match params.api_format {
        ApiFormat::AnthropicMessages => {
            headers.push(("anthropic-version".to_owned(), "2023-06-01".to_owned()));
            assert(pair_models(headers@) =~= with_auth.push(("anthropic-version"@, "2023-06-01"@)));
        },
        _ => {},
    }
    assert(pair_models(headers@) =~= spec_test_headers(params.api_format, params.api_key@));
    let body = build_test_body(params.api_format, model.as_str());
    TestRequest { url, headers, body }
}

/// `o.get(key)`.
pub open spec fn and_get(o: Option<Json>, key: Seq<char>) -> Option<Json> {
    match o {
        Some(j) => j.get(key),
        None => None,
    }
}

/// `o.get(i)` on an array.
pub open spec fn and_at(o: Option<Json>, i: int) -> Option<Json> {
    match o {
        Some(j) => j.at(i),
        None => None,
    }
}

pub open spec fn and_str(o: Option<Json>) -> Option<Seq<char>> {
    match o {
        Some(j) => j.as_str(),
        None => None,
    }
}

/// First content text of a successful answer: `choices[0].message.content`,
/// `output[0].content[0].text` or `content[0].text`.
pub open spec fn spec_extract_text(f: ApiFormat, body: Json) -> Option<Seq<char>> {
    match f {
        ApiFormat::OpenAiChat => and_str(and_get(and_get(and_at(body.get("choices"@), 0), "message"@), "content"@)),
        ApiFormat::OpenAiResponses => and_str(and_get(and_at(and_get(and_at(body.get("output"@), 0), "content"@), 0), "text"@)),
        ApiFormat::AnthropicMessages => and_str(and_get(and_at(body.get("content"@), 0), "text"@)),
    }
}

fn get_opt<'a>(o: Option<&'a JsonValue>, key: &str) -> (r: Option<&'a JsonValue>)
    ensures
        match r { Some(x) => and_get(match o { Some(j) => Some(j@), None => None }, key@) == Some(x@),
            None => and_get(match o { Some(j) => Some(j@), None => None }, key@) is None },
{
    match o {
        Some(j) => j.get(key),
        None => None,
    }
}

fn at_opt<'a>(o: Option<&'a JsonValue>, i: usize) -> (r: Option<&'a JsonValue>)
    ensures
        match r { Some(x) => and_at(match o { Some(j) => Some(j@), None => None }, i as int) == Some(x@),
            None => and_at(match o { Some(j) => Some(j@), None => None }, i as int) is None },
{
    match o {
        Some(j) => j.at(i),
        None => None,
    }
}

fn str_opt(o: Option<&JsonValue>) -> (r: Option<String>)
    ensures
        match r { Some(s) => and_str(match o { Some(j) => Some(j@), None => None }) == Some(s@),
            None => and_str(match o { Some(j) => Some(j@), None => None }) is None },
{
    match o {
        Some(j) => match j.as_str() {
            Some(s) => Some(s.to_owned()),
            None => None,
        },
        None => None,
    }
}

/// First content text of a successful answer, or `None` when the body does
/// not have the expected shape.
pub fn extract_response_text(api_format: ApiFormat, body: &JsonValue) -> (r: Option<String>)
    ensures
        match r { Some(s) => spec_extract_text(api_format, body@) == Some(s@),
            None => spec_extract_text(api_format, body@) is None },
{
    match api_format {
        ApiFormat::OpenAiChat => str_opt(get_opt(get_opt(at_opt(body.get("choices"), 0), "message"), "content")),
        ApiFormat::OpenAiResponses => str_opt(get_opt(at_opt(get_opt(at_opt(body.get("output"), 0), "content"), 0), "text")),
        ApiFormat::AnthropicMessages => str_opt(get_opt(at_opt(body.get("content"), 0), "text")),
    }
}

/// Error kind of a ping's HTTP status.
pub fn classify_test_status(status: u16) -> (r: ChatErrorKind)
    ensures
        r == spec_status_kind(status),
{
    match status {
        401 | 403 => ChatErrorKind::Auth,
        404 => ChatErrorKind::ModelNotFound,
        429 => ChatErrorKind::RateLimit,
        500..=599 => ChatErrorKind::ServerError,
        400..=499 => ChatErrorKind::BadRequest,
        _ => ChatErrorKind::Unknown,
    }
}

/// Ping parameters taken from a saved provider configuration.
pub fn params_from_config(cfg: &ProviderConfig) -> (r: TestProviderParams)
    ensures
        r.endpoint@ == cfg.endpoint@,
        r.api_key@ == cfg.api_key@,
        r.api_format == cfg.api_format,
        r.model@ == cfg.model@,
{
    TestProviderParams {
        endpoint: cfg.endpoint.clone(),
        api_key: cfg.api_key.clone(),
        api_format: cfg.api_format,
        model: cfg.model.clone(),
    }
}

/// Where a ping failed before an HTTP status was read.
pub enum TestStage {
    /// The HTTP client could not be built.
    ClientBuild,
    /// The request body could not be serialized.
    Serialize,
    /// The request could not be sent or answered.
    Send,
}

pub open spec fn spec_stage_prefix(s: TestStage) -> Seq<char> {
    match s {
        TestStage::ClientBuild => "reqwest builder: "@,
        TestStage::Serialize => "request serialization: "@,
        TestStage::Send => "request failed: "@,
    }
}

/// A failed result echoing the trimmed endpoint and model.
fn failed(params: &TestProviderParams, status: Option<u16>, error: String) -> (r: TestProviderResult)
    ensures
        !r.ok,
        r.status == status,
        r.error matches Some(e) && e@ == error@,
        r.response is None,
        r.endpoint@ == trim_ws(params.endpoint@),
        r.model@ == trim_ws(params.model@),
        r.api_format == params.api_format,
{
    TestProviderResult {
        ok: false,
        status,
        error: Some(error),
        response: None,
        endpoint: trim_str(params.endpoint.as_str()),
        model: trim_str(params.model.as_str()),
        api_format: params.api_format,
    }
}

/// Result of a ping that failed before any HTTP status was read; `status`
/// is the one a send error may carry.
pub fn test_stage_failure(params: &TestProviderParams, stage: TestStage, status: Option<u16>, detail: &str) -> (r: TestProviderResult)
    ensures
        !r.ok,
        r.status == status,
        r.error matches Some(e) && e@ == spec_stage_prefix(stage) + detail@,
        r.response is None,
        r.endpoint@ == trim_ws(params.endpoint@),
        r.model@ == trim_ws(params.model@),
        r.api_format == params.api_format,
{
    let prefix: &str = match stage {
        TestStage::ClientBuild => "reqwest builder: ",
        TestStage::Serialize => "request serialization: ",
        TestStage::Send => "request failed: ",
    };
    failed(params, status, concat_str(prefix, detail))
}

pub open spec fn is_success(status: u16) -> bool {
    200 <= status && status <= 299
}

/// How a ping answered with an HTTP status ends: a non-2xx status carries
/// the status and the first 500 characters of the body; a body that is not
/// JSON (`parsed` is `None`, `parse_error` its message) the first 200; a
/// JSON body without (non-empty) content text a hint at the model id;
/// otherwise the ping succeeded with the first 200 characters of the text.
pub open spec fn spec_test_outcome(
    f: ApiFormat,
    status: u16,
    body: Seq<char>,
    parsed: Option<Json>,
    parse_error: Seq<char>,
) -> (bool, Option<Seq<char>>, Option<Seq<char>>) {
    if !is_success(status) {
        (false, Some("HTTP "@ + spec_decimal(status as nat) + ": "@ + take_chars(body, 500)), None)
    } else {
        match parsed {
            None => (false, Some("invalid JSON response: "@ + parse_error + " (body: "@ + take_chars(body, 200) + ")"@), None),
            Some(j) => match spec_extract_text(f, j) {
                Some(t) => if t.len() > 0 {
                    (true, None, Some(take_chars(t, 200)))
                } else {
                    (false, Some("HTTP "@ + spec_decimal(status as nat)
                        + " but no extractable content text. Check that model id is correct."@), None)
                },
                None => (false, Some("HTTP "@ + spec_decimal(status as nat)
                    + " but no extractable content text. Check that model id is correct."@), None),
            },
        }
    }
}

/// Result of a ping that got an HTTP status back; `parsed` is the body as
/// JSON, or `None` with `parse_error` when it is not JSON.
pub fn test_outcome(
    params: &TestProviderParams,
    status: u16,
    body_text: &str,
    parsed: Option<&JsonValue>,
    parse_error: &str,
) -> (r: TestProviderResult)
    ensures
        ({
            let (ok, error, response) = spec_test_outcome(params.api_format, status, body_text@,
                match parsed { Some(j) => Some(j@), None => None }, parse_error@);
            &&& r.ok == ok
            &&& r.status == Some(status)
            &&& match error { Some(e) => r.error matches Some(x) && x@ == e, None => r.error is None }
            &&& match response { Some(t) => r.response matches Some(x) && x@ == t, None => r.response is None }
        }),
        r.endpoint@ == trim_ws(params.endpoint@),
        r.model@ == trim_ws(params.model@),
        r.api_format == params.api_format,
{
    let code = u64_to_string(status as u64);
    if !(200 <= status && status <= 299) {
        let msg = concat_str(concat_str(concat_str("HTTP ", code.as_str()).as_str(), ": ").as_str(),
            truncate(body_text, 500).as_str());
        return failed(params, Some(status), msg);
    }
    match parsed {
        None => {
            let a = concat_str("invalid JSON response: ", parse_error);
            let b = concat_str(concat_str(a.as_str(), " (body: ").as_str(), truncate(body_text, 200).as_str());
            failed(params, Some(status), concat_str(b.as_str(), ")"))
        },
        Some(j) => match extract_response_text(params.api_format, j) {
            Some(t) if !t.as_str().is_empty() => TestProviderResult {
                ok: true,
                status: Some(status),
                error: None,
                response: Some(truncate(t.as_str(), MAX_RESPONSE_PREVIEW)),
                endpoint: trim_str(params.endpoint.as_str()),
                model: trim_str(params.model.as_str()),
                api_format: params.api_format,
            },
            _ => {
                let msg = concat_str(concat_str("HTTP ", code.as_str()).as_str(),
                    " but no extractable content text. Check that model id is correct.");
                failed(params, Some(status), msg)
            },
        },
    }
}

} // verus!
