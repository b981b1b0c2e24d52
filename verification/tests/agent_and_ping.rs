use laipe::agent::{
    denial_json, execute_tool, perm_for, permission_table, resolve_tool_call, tool_output_json, tool_succeeded,
    AgentLoop, StreamStep, ToolPerm, ToolVerdict, MAX_AGENT_TURNS,
};
use laipe::error::ChatErrorKind;
use laipe::json::{JsonNumber, JsonValue};
use laipe::json_write::to_json_string;
use laipe::ping::{
    build_test_body, build_test_request, classify_test_status, extract_response_text, params_from_config,
    test_endpoint_path, test_outcome, test_stage_failure, TestStage,
};
use laipe::streaming::{
    classify_reqwest_error_text, classify_upstream_error, join_endpoint, map_http_failure, pick, AnthropicStreamer,
    Streamer, StreamError,
};
use laipe::text::truncate;
use laipe::tool::ToolCallPartial;
use laipe::types::{ApiFormat, ChatMessage, ChatRole, ProviderConfig, StreamEvent, TestProviderParams};
use serde_json::Value;

fn jv(v: &Value) -> JsonValue {
    match v {
        Value::Null => JsonValue::Null,
        Value::Bool(b) => JsonValue::Bool(*b),
        Value::Number(n) => {
            if let Some(u) = n.as_u64() {
                JsonValue::Number(JsonNumber::PosInt(u))
            } else if let Some(i) = n.as_i64() {
                JsonValue::Number(JsonNumber::NegInt(i))
            } else {
                JsonValue::Number(JsonNumber::Float(n.to_string()))
            }
        }
        Value::String(s) => JsonValue::String(s.clone()),
        Value::Array(a) => JsonValue::Array(a.iter().map(jv).collect()),
        Value::Object(m) => JsonValue::Object(m.iter().map(|(k, x)| (k.clone(), jv(x))).collect()),
    }
}

fn parse(s: &str) -> JsonValue {
    jv(&serde_json::from_str::<Value>(s).unwrap())
}

fn params(fmt: ApiFormat, key: &str) -> TestProviderParams {
    TestProviderParams {
        endpoint: "  https://api.example.com/v1/ ".into(),
        api_key: key.into(),
        api_format: fmt,
        model: " gpt-4o ".into(),
    }
}

// --- agent loop ---

#[test]
fn tool_perm_parses_known_values() {
    assert_eq!(ToolPerm::parse("ask"), ToolPerm::Ask);
    assert_eq!(ToolPerm::parse("deny"), ToolPerm::Deny);
    assert_eq!(ToolPerm::parse("auto"), ToolPerm::Auto);
    assert_eq!(ToolPerm::parse("DENY"), ToolPerm::Auto);
    let table = permission_table(Some(vec![("echo".into(), "deny".into()), ("x".into(), "ask".into())]));
    assert_eq!(perm_for(&table, "echo"), ToolPerm::Deny);
    assert_eq!(perm_for(&table, "x"), ToolPerm::Ask);
    assert_eq!(perm_for(&table, "other"), ToolPerm::Auto);
    assert_eq!(perm_for(&permission_table(None), "echo"), ToolPerm::Auto);
}

#[test]
fn denial_and_tool_outputs_are_exact_json() {
    assert_eq!(
        denial_json("c1", "echo", "denied by policy"),
        r#"{"error":"user_denied","reason":"denied by policy","tool_call_id":"c1","tool_name":"echo"}"#
    );
    assert_eq!(execute_tool("echo", "{\"x\":1}"), r#"{"echoed":"{\"x\":1}"}"#);
    assert_eq!(execute_tool("nope", "{}"), r#"{"error":"unknown tool: nope","received_args":"{}"}"#);
    assert_eq!(tool_output_json("get_current_time", "", "T"), r#"{"current_time":"T","timezone":"UTC"}"#);
    let t: Value = serde_json::from_str(&execute_tool("get_current_time", "")).unwrap();
    assert_eq!(t["timezone"], "UTC");
}

#[test]
fn tool_calls_are_decided_by_permission() {
    let d = resolve_tool_call(ToolPerm::Deny, true, "c1", "echo", "{}");
    assert_eq!(d.verdict, ToolVerdict::Denied);
    assert!(!d.success);
    assert_eq!(d.verdict.label(), "denied");
    let asked_no = resolve_tool_call(ToolPerm::Ask, false, "c1", "echo", "{}");
    assert!(asked_no.result_json.contains("user clicked Deny"));
    let asked_yes = resolve_tool_call(ToolPerm::Ask, true, "c1", "echo", "{}");
    assert_eq!(asked_yes.verdict, ToolVerdict::Approved);
    assert!(asked_yes.success);
    let auto = resolve_tool_call(ToolPerm::Auto, false, "c1", "nope", "{}");
    assert_eq!(auto.verdict.label(), "auto");
    assert!(!auto.success);
    assert!(tool_succeeded("{\"ok\":1}"));
    assert!(!tool_succeeded("{\"error\":1}"));
}

#[test]
fn agent_loop_collects_tool_calls_and_appends_messages() {
    let mut a = AgentLoop::new(vec![ChatMessage { role: ChatRole::User, content: "hi".into(), ..Default::default() }]);
    assert_eq!(a.begin_turn(), Some(0));
    assert!(matches!(a.on_event(StreamEvent::Text("x".into())), StreamStep::Chunk(s) if s == "x"));
    let part = ToolCallPartial { index: 0, id: Some("c1".into()), name: Some("echo".into()), arguments_delta: "{}".into() };
    assert!(matches!(a.on_event(StreamEvent::ToolCalls(vec![part])), StreamStep::ToolCalls(p) if p.len() == 1));
    assert!(matches!(a.on_event(StreamEvent::Done), StreamStep::End));
    let jobs = a.finish_turn();
    assert_eq!(jobs.len(), 1);
    assert_eq!(jobs[0].call_id, "c1");
    assert_eq!(jobs[0].name, "echo");
    assert_eq!(a.working.len(), 2);
    assert_eq!(a.working[1].role, ChatRole::Assistant);
    let calls = a.working[1].tool_calls.as_ref().unwrap();
    assert_eq!(calls[0].kind, "function");
    assert_eq!(calls[0].function.arguments, "{}");
    a.push_tool_result("c1".into(), "{\"echoed\":\"{}\"}".into());
    assert_eq!(a.working[2].role, ChatRole::Tool);
    assert_eq!(a.working[2].tool_call_id.as_deref(), Some("c1"));
    assert_eq!(a.begin_turn(), Some(1));
    assert!(a.tool_calls.is_empty());
    assert!(a.finish_turn().is_empty());
    assert_eq!(a.working.len(), 3);
}

#[test]
fn agent_loop_stops_after_turn_budget() {
    let mut a = AgentLoop::new(Vec::new());
    for t in 0..MAX_AGENT_TURNS {
        assert_eq!(a.begin_turn(), Some(t));
    }
    assert_eq!(a.begin_turn(), None);
    let err = a.on_event(StreamEvent::Error { kind: ChatErrorKind::Auth, message: "no".into() });
    assert!(matches!(err, StreamStep::Failed(ChatErrorKind::Auth, m) if m == "no"));
}

// --- provider ping ---

#[test]
fn ping_paths_bodies_and_headers() {
    assert_eq!(test_endpoint_path(ApiFormat::OpenAiChat), "/chat/completions");
    assert_eq!(test_endpoint_path(ApiFormat::OpenAiResponses), "/v1/responses");
    assert_eq!(test_endpoint_path(ApiFormat::AnthropicMessages), "/v1/messages");
    assert_eq!(
        to_json_string(&build_test_body(ApiFormat::OpenAiChat, "m")),
        r#"{"model":"m","messages":[{"role":"user","content":"hi"}],"max_tokens":1,"stream":false}"#
    );
    assert_eq!(
        to_json_string(&build_test_body(ApiFormat::AnthropicMessages, "m")),
        r#"{"model":"m","max_tokens":1,"messages":[{"role":"user","content":"hi"}]}"#
    );
    let r = build_test_request(&params(ApiFormat::AnthropicMessages, "k"));
    assert_eq!(r.url, "https://api.example.com/v1/v1/messages");
    assert_eq!(
        r.headers,
        vec![
            ("Content-Type".to_string(), "application/json".to_string()),
            ("x-api-key".to_string(), "k".to_string()),
            ("anthropic-version".to_string(), "2023-06-01".to_string()),
        ]
    );
    let r = build_test_request(&params(ApiFormat::OpenAiChat, ""));
    assert_eq!(r.headers.len(), 1);
    let r = build_test_request(&params(ApiFormat::OpenAiResponses, "k"));
    assert_eq!(r.headers[1], ("Authorization".to_string(), "Bearer k".to_string()));
    assert_eq!(to_json_string(&r.body), r#"{"model":"gpt-4o","input":[{"role":"user","content":"hi"}],"max_tokens":1,"stream":false}"#);
}

#[test]
fn ping_outcomes() {
    let p = params(ApiFormat::OpenAiChat, "k");
    let ok_body = parse(r#"{"choices":[{"message":{"content":"hello"}}]}"#);
    let r = test_outcome(&p, 200, "", Some(&ok_body), "");
    assert!(r.ok);
    assert_eq!(r.response.as_deref(), Some("hello"));
    assert_eq!(r.endpoint, "https://api.example.com/v1/");
    assert_eq!(r.model, "gpt-4o");
    let r = test_outcome(&p, 401, "bad key", None, "");
    assert!(!r.ok);
    assert_eq!(r.status, Some(401));
    assert_eq!(r.error.as_deref(), Some("HTTP 401: bad key"));
    let r = test_outcome(&p, 200, "<html>", None, "expected value");
    assert_eq!(r.error.as_deref(), Some("invalid JSON response: expected value (body: <html>)"));
    let empty = parse(r#"{"choices":[{"message":{"content":""}}]}"#);
    let r = test_outcome(&p, 200, "", Some(&empty), "");
    assert!(!r.ok);
    assert_eq!(r.error.as_deref(), Some("HTTP 200 but no extractable content text. Check that model id is correct."));
    let r = test_stage_failure(&p, TestStage::Send, None, "dns");
    assert_eq!(r.error.as_deref(), Some("request failed: dns"));
    assert_eq!(r.status, None);
}

#[test]
fn ping_extracts_text_per_protocol() {
    let resp = parse(r#"{"output":[{"content":[{"text":"a"}]}]}"#);
    assert_eq!(extract_response_text(ApiFormat::OpenAiResponses, &resp).as_deref(), Some("a"));
    let anth = parse(r#"{"content":[{"text":"b"}]}"#);
    assert_eq!(extract_response_text(ApiFormat::AnthropicMessages, &anth).as_deref(), Some("b"));
    assert_eq!(extract_response_text(ApiFormat::OpenAiChat, &anth), None);
    assert_eq!(classify_test_status(404), ChatErrorKind::ModelNotFound);
    assert_eq!(classify_test_status(500), ChatErrorKind::ServerError);
    let cfg = ProviderConfig { model: "m".into(), ..Default::default() };
    assert_eq!(params_from_config(&cfg).model, "m");
}

// --- streaming helpers ---

#[test]
fn upstream_errors_are_classified_and_truncated() {
    let long = "y".repeat(900);
    match classify_upstream_error(429, &long) {
        StreamError::Upstream { kind, status, body_preview } => {
            assert_eq!(kind, ChatErrorKind::RateLimit);
            assert_eq!(status, 429);
            assert_eq!(body_preview.chars().count(), 800);
        }
        _ => panic!(),
    }
    assert_eq!(map_http_failure(None, "boom"), StreamError::Other("boom".into()));
    assert_eq!(
        classify_upstream_error(500, "down").message(),
        "upstream returned 500: down"
    );
    assert_eq!(StreamError::Http("x".into()).dispatch_kind(), ChatErrorKind::Network);
    assert_eq!(StreamError::Json("x".into()).dispatch_kind(), ChatErrorKind::StreamProtocol);
    assert_eq!(StreamError::Io("x".into()).message(), "IO error: x");
}

#[test]
fn read_errors_and_urls() {
    assert_eq!(classify_reqwest_error_text("error trying to connect"), ChatErrorKind::Network);
    assert_eq!(classify_reqwest_error_text("operation timeout"), ChatErrorKind::Network);
    assert_eq!(classify_reqwest_error_text("decode"), ChatErrorKind::Unknown);
    assert_eq!(join_endpoint("https://x//", "/messages"), "https://x/messages");
    assert!(matches!(pick(ApiFormat::AnthropicMessages), Streamer::Anthropic(_)));
    assert_eq!(AnthropicStreamer.request_url("https://api.anthropic.com/v1/"), "https://api.anthropic.com/v1/messages");
    assert_eq!(truncate("héllo", 2), "hé");
}

#[test]
fn agent_loop_joins_fragments_by_index() {
    let mut a = AgentLoop::new(vec![]);
    assert_eq!(a.begin_turn(), Some(0));
    let parts = vec![
        ToolCallPartial { index: 0, id: Some("c".into()), name: Some("echo".into()), arguments_delta: "".into() },
        ToolCallPartial { index: 1, id: Some("d".into()), name: Some("get_current_time".into()), arguments_delta: "{".into() },
    ];
    let _ = a.on_event(StreamEvent::ToolCalls(parts));
    let _ = a.on_event(StreamEvent::ToolCalls(vec![
        ToolCallPartial { index: 0, id: None, name: None, arguments_delta: "{\"x\":1}".into() },
        ToolCallPartial { index: 1, id: None, name: None, arguments_delta: "}".into() },
    ]));
    assert!(matches!(a.on_event(StreamEvent::Done), StreamStep::End));
    let jobs = a.finish_turn();
    assert_eq!(jobs.len(), 2);
    assert_eq!((jobs[0].call_id.as_str(), jobs[0].name.as_str(), jobs[0].arguments.as_str()), ("c", "echo", "{\"x\":1}"));
    assert_eq!((jobs[1].call_id.as_str(), jobs[1].name.as_str(), jobs[1].arguments.as_str()), ("d", "get_current_time", "{}"));
    let calls = a.working[0].tool_calls.as_ref().unwrap();
    assert_eq!(calls.len(), 2);
    assert_eq!(calls[0].id, "c");
    assert_eq!(calls[0].function.arguments, "{\"x\":1}");
}
