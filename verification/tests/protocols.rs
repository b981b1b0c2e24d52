use std::collections::HashMap;

use laipe::anthropic;
use laipe::json::{JsonNumber, JsonValue};
use laipe::openai_chat;
use laipe::openai_responses;
use laipe::sse::{SseFrame, SseParser, SseRawFrame};
use laipe::tool::{ToolDefinition, ToolFunction};
use laipe::types::{ChatMessage, ChatRole, StreamEvent};
use serde_json::Value;

fn jv(v: &Value) -> JsonValue {
    match v {
        Value::Null => JsonValue::Null,
        Value::Bool(b) => JsonValue::Bool(*b),
        Value::Number(n) => {
            if let Some(u) = n.as_u64() {
                JsonValue::Number(JsonNumber::PosInt(u))
            } else if let Some(i) = n.as_i64() {
                JsonValue::Number(JsonNumber::NegInt(i))
            } else {
                JsonValue::Number(JsonNumber::Float(n.to_string()))
            }
        }
        Value::String(s) => JsonValue::String(s.clone()),
        Value::Array(a) => JsonValue::Array(a.iter().map(jv).collect()),
        Value::Object(m) => JsonValue::Object(m.iter().map(|(k, x)| (k.clone(), jv(x))).collect()),
    }
}

fn sv(v: &JsonValue) -> Value {
    match v {
        JsonValue::Null => Value::Null,
        JsonValue::Bool(b) => Value::Bool(*b),
        JsonValue::Number(JsonNumber::PosInt(u)) => Value::from(*u),
        JsonValue::Number(JsonNumber::NegInt(i)) => Value::from(*i),
        JsonValue::Number(JsonNumber::Float(t)) => serde_json::from_str(t).unwrap(),
        JsonValue::String(s) => Value::String(s.clone()),
        JsonValue::Array(a) => Value::Array(a.iter().map(sv).collect()),
        JsonValue::Object(f) => {
            let mut m = serde_json::Map::new();
            for (k, x) in f {
                m.insert(k.clone(), sv(x));
            }
            Value::Object(m)
        }
    }
}

fn parse(s: &str) -> JsonValue {
    jv(&serde_json::from_str::<Value>(s).unwrap())
}

/// Feed bytes and decode each payload as JSON, the way the streamers do.
fn feed(p: &mut SseParser, bytes: &[u8]) -> Vec<SseFrame> {
    p.feed(bytes)
        .into_iter()
        .map(|raw| {
            let parsed = match &raw {
                SseRawFrame::Payload { data, .. } => serde_json::from_str::<Value>(data).ok().map(|v| jv(&v)),
                SseRawFrame::Done => None,
            };
            SseFrame::from_raw(raw, parsed)
        })
        .collect()
}

fn echo_tool() -> ToolDefinition {
    ToolDefinition {
        kind: Default::default(),
        function: ToolFunction {
            name: "echo".into(),
            description: "echo back".into(),
            parameters: parse(r#"{"type": "object"}"#),
        },
    }
}

fn user(text: &str) -> ChatMessage {
    ChatMessage { role: ChatRole::User, content: text.into(), ..Default::default() }
}

// --- SSE framing ---

#[test]
fn parses_data_only() {
    let mut p = SseParser::new();
    let out = feed(&mut p, b"data: {\"a\":1}\n\n");
    assert_eq!(out.len(), 1);
    match &out[0] {
        SseFrame::Data(v) => assert_eq!(sv(v)["a"], 1),
        _ => panic!(),
    }
}

#[test]
fn parses_named_event() {
    let mut p = SseParser::new();
    let out = feed(&mut p, b"event: response.output_text.delta\ndata: {\"delta\":\"hi\"}\n\n");
    assert_eq!(out.len(), 1);
    match &out[0] {
        SseFrame::Named { event, data } => {
            assert_eq!(event, "response.output_text.delta");
            assert_eq!(sv(data)["delta"], "hi");
        }
        _ => panic!(),
    }
}

#[test]
fn parses_done_sentinel() {
    let mut p = SseParser::new();
    let out = feed(&mut p, b"data: [DONE]\n\n");
    assert!(matches!(out[0], SseFrame::Done));
}

#[test]
fn handles_split_chunk() {
    let mut p = SseParser::new();
    assert!(feed(&mut p, b"data: {\"a\"").is_empty());
    let out = feed(&mut p, b":1}\n\n");
    assert_eq!(out.len(), 1);
}

#[test]
fn skips_heartbeat() {
    let mut p = SseParser::new();
    let out = feed(&mut p, b": ping\n\n");
    assert!(out.is_empty());
}

#[test]
fn sse_parser_handles_multiple_frames() {
    let mut p = SseParser::new();
    let items = feed(
        &mut p,
        b"data: {\"choices\":[{\"delta\":{\"content\":\"a\"}}]}\n\ndata: {\"choices\":[{\"delta\":{\"content\":\"b\"}}]}\n\ndata: [DONE]\n\n",
    );
    assert_eq!(items.len(), 3);
    assert!(matches!(items[0], SseFrame::Data(_)));
    assert!(matches!(items[1], SseFrame::Data(_)));
    assert!(matches!(items[2], SseFrame::Done));
}

#[test]
fn sse_parser_handles_split_chunk() {
    let mut p = SseParser::new();
    let items1 = feed(&mut p, b"data: {\"choices\":[{\"delta\":{\"conte");
    assert!(items1.is_empty(), "incomplete frame should buffer");
    let items2 = feed(&mut p, b"nt\":\"hello\"}}]}\n\n");
    assert_eq!(items2.len(), 1);
}

#[test]
fn sse_chunking_does_not_change_frames() {
    let whole: &[u8] = b"event: a\ndata: {\"x\":1}\n\ndata: [DONE]\n\n: c\n\ndata: {\"y\":2}\n\n";
    let mut one = SseParser::new();
    let all = feed(&mut one, whole);
    for cut in 0..whole.len() {
        let mut two = SseParser::new();
        let mut got = feed(&mut two, &whole[..cut]);
        got.extend(feed(&mut two, &whole[cut..]));
        assert_eq!(format!("{:?}", got), format!("{:?}", all), "cut at {cut}");
    }
    assert_eq!(all.len(), 3);
}

#[test]
fn sse_joins_multiple_data_lines_and_skips_bad_json() {
    let mut p = SseParser::new();
    let raw = p.feed(b"data: {\"a\":\ndata: 2}\n\ndata: not json\n\n");
    assert_eq!(raw.len(), 2);
    match &raw[0] {
        SseRawFrame::Payload { event, data } => {
            assert!(event.is_none());
            assert_eq!(data, "{\"a\":\n2}");
        }
        _ => panic!(),
    }
    let frames = feed(&mut SseParser::new(), b"data: not json\n\n");
    assert!(matches!(frames[0], SseFrame::Skip));
}

#[test]
fn find_double_newline_finds_first() {
    assert_eq!(laipe::sse::find_double_newline(b"ab\n\ncd\n\n"), Some(2));
    assert_eq!(laipe::sse::find_double_newline(b"ab\ncd\n"), None);
}

// --- OpenAI Chat Completions ---

#[test]
fn openai_chat_build_body_no_tools() {
    let body = sv(&openai_chat::build_request_body("gpt-4o-mini", &[user("hi")], None));
    assert!(body.get("tools").is_none());
    assert_eq!(body["model"], "gpt-4o-mini");
    assert_eq!(body["messages"][0]["role"], "user");
    assert_eq!(body["messages"][0]["content"], "hi");
    assert_eq!(body["stream"], true);
}

#[test]
fn openai_chat_build_body_empty_tools_omits_field() {
    let body = sv(&openai_chat::build_request_body("gpt-4o", &[], Some(&[])));
    assert!(body.get("tools").is_none(), "empty tools array must be omitted, not written as []");
}

#[test]
fn build_body_with_tools() {
    let tools = vec![echo_tool()];
    let body = sv(&openai_chat::build_request_body("gpt-4o", &[], Some(&tools)));
    assert_eq!(body["tools"][0]["function"]["name"], "echo");
}

#[test]
fn parse_chunk_text_delta() {
    let v = parse(r#"{"choices": [{"delta": {"content": "hello"}}]}"#);
    match openai_chat::parse_openai_chunk(&v).unwrap().unwrap() {
        StreamEvent::Text(s) => assert_eq!(s, "hello"),
        _ => panic!("expected Text"),
    }
}

#[test]
fn parse_chunk_tool_call_delta() {
    let v = parse(
        r#"{"choices": [{"delta": {"tool_calls": [{"index": 0, "id": "call_1", "function": {"name": "echo", "arguments": "{\"x\":"}}]}}]}"#,
    );
    match openai_chat::parse_openai_chunk(&v).unwrap().unwrap() {
        StreamEvent::ToolCalls(parts) => {
            assert_eq!(parts.len(), 1);
            assert_eq!(parts[0].index, 0);
            assert_eq!(parts[0].id.as_deref(), Some("call_1"));
            assert_eq!(parts[0].name.as_deref(), Some("echo"));
            assert_eq!(parts[0].arguments_delta, "{\"x\":");
        }
        _ => panic!("expected ToolCalls"),
    }
}

#[test]
fn parse_chunk_empty_returns_none() {
    let v = parse(r#"{"choices": [{"delta": {}}]}"#);
    assert!(openai_chat::parse_openai_chunk(&v).unwrap().is_none());
}

#[test]
fn role_to_str_names_each_role() {
    assert_eq!(openai_chat::role_to_str(ChatRole::System), "system");
    assert_eq!(openai_chat::role_to_str(ChatRole::User), "user");
    assert_eq!(openai_chat::role_to_str(ChatRole::Assistant), "assistant");
    assert_eq!(openai_chat::role_to_str(ChatRole::Tool), "tool");
}

// --- OpenAI Responses ---

#[test]
fn openai_responses_build_body_no_tools() {
    let body = sv(&openai_responses::build_request_body("gpt-4o", &[user("hi")], None));
    assert!(body.get("tools").is_none());
    assert_eq!(body["model"], "gpt-4o");
    assert_eq!(body["input"][0]["role"], "user");
    assert_eq!(body["input"][0]["content"], "hi");
    assert_eq!(body["stream"], true);
}

#[test]
fn openai_responses_build_body_empty_tools_omits_field() {
    let body = sv(&openai_responses::build_request_body("gpt-4o", &[], Some(&[])));
    assert!(body.get("tools").is_none());
}

#[test]
fn build_body_with_tools_flattens_to_responses_shape() {
    let tools = vec![echo_tool()];
    let body = sv(&openai_responses::build_request_body("gpt-4o", &[], Some(&tools)));
    assert_eq!(body["tools"][0]["type"], "function");
    assert_eq!(body["tools"][0]["name"], "echo");
    assert!(body["tools"][0].get("function").is_none());
}

#[test]
fn openai_responses_parses_text_delta() {
    let mut pending = HashMap::new();
    let data = parse(r#"{"delta": "hello", "output_index": 0}"#);
    let events = openai_responses::handle_responses_event("response.output_text.delta", &data, &mut pending);
    assert_eq!(events.len(), 1);
    match &events[0] {
        StreamEvent::Text(s) => assert_eq!(s, "hello"),
        _ => panic!(),
    }
}

#[test]
fn tracks_function_call_across_added_and_delta() {
    let mut pending = HashMap::new();
    let added = parse(r#"{"item": {"type": "function_call", "id": "call_1", "name": "echo"}, "output_index": 0}"#);
    let _ = openai_responses::handle_responses_event("response.output_item.added", &added, &mut pending);
    let delta = parse(r#"{"delta": "{\"x\":", "output_index": 0}"#);
    let events =
        openai_responses::handle_responses_event("response.function_call_arguments.delta", &delta, &mut pending);
    assert_eq!(events.len(), 1);
    match &events[0] {
        StreamEvent::ToolCalls(parts) => {
            assert_eq!(parts[0].id.as_deref(), Some("call_1"));
            assert_eq!(parts[0].name.as_deref(), Some("echo"));
            assert_eq!(parts[0].arguments_delta, "{\"x\":");
        }
        _ => panic!(),
    }
}

#[test]
fn completed_event_emits_done() {
    let mut pending = HashMap::new();
    let events = openai_responses::handle_responses_event("response.completed", &parse("{}"), &mut pending);
    assert!(matches!(events.as_slice(), [StreamEvent::Done]));
}

// --- Anthropic Messages ---

#[test]
fn build_body_no_tools_pulls_system_out() {
    let body = sv(&anthropic::build_request_body(
        "sonnet-3-5-20241022",
        &[
            ChatMessage { role: ChatRole::System, content: "you are helpful".into(), ..Default::default() },
            user("hi"),
        ],
        None,
    ));
    assert!(body.get("tools").is_none());
    assert_eq!(body["model"], "sonnet-3-5-20241022");
    assert_eq!(body["system"], "you are helpful");
    assert!(body["messages"].as_array().unwrap().iter().all(|m| m["role"] != "system"));
    assert_eq!(body["messages"][0]["role"], "user");
    assert_eq!(body["messages"][0]["content"], "hi");
    assert_eq!(body["stream"], true);
    assert!(body.get("max_tokens").is_some());
}

#[test]
fn build_body_with_tools_uses_input_schema_not_parameters() {
    let tools = vec![echo_tool()];
    let body = sv(&anthropic::build_request_body("sonnet-3-5", &[], Some(&tools)));
    assert_eq!(body["tools"][0]["name"], "echo");
    assert_eq!(body["tools"][0]["input_schema"]["type"], "object");
    assert!(body["tools"][0].get("parameters").is_none());
    assert!(body["tools"][0].get("function").is_none());
}

#[test]
fn anthropic_build_body_empty_tools_omits_field() {
    let body = sv(&anthropic::build_request_body("sonnet-3-5", &[], Some(&[])));
    assert!(body.get("tools").is_none());
}

#[test]
fn anthropic_parses_text_delta() {
    let mut pending = HashMap::new();
    let data = parse(r#"{"index": 0, "delta": {"type": "text_delta", "text": "hi"}}"#);
    let events = anthropic::handle_anthropic_event("content_block_delta", &data, &mut pending);
    assert_eq!(events.len(), 1);
    match &events[0] {
        StreamEvent::Text(s) => assert_eq!(s, "hi"),
        _ => panic!(),
    }
}

#[test]
fn tracks_tool_use_across_start_and_delta() {
    let mut pending = HashMap::new();
    let start = parse(r#"{"index": 1, "content_block": {"type": "tool_use", "id": "toolu_1", "name": "echo"}}"#);
    let _ = anthropic::handle_anthropic_event("content_block_start", &start, &mut pending);
    let delta = parse(r#"{"index": 1, "delta": {"type": "input_json_delta", "partial_json": "{\"x\":"}}"#);
    let events = anthropic::handle_anthropic_event("content_block_delta", &delta, &mut pending);
    assert_eq!(events.len(), 1);
    match &events[0] {
        StreamEvent::ToolCalls(parts) => {
            assert_eq!(parts[0].id.as_deref(), Some("toolu_1"));
            assert_eq!(parts[0].name.as_deref(), Some("echo"));
            assert_eq!(parts[0].arguments_delta, "{\"x\":");
        }
        _ => panic!(),
    }
}

#[test]
fn message_stop_emits_done() {
    let mut pending = HashMap::new();
    let events = anthropic::handle_anthropic_event("message_stop", &parse("{}"), &mut pending);
    assert!(matches!(events.as_slice(), [StreamEvent::Done]));
}

fn joined_args(events: &[StreamEvent], index: u32) -> String {
    let mut out = String::new();
    for e in events {
        if let StreamEvent::ToolCalls(parts) = e {
            for p in parts {
                if p.index == index {
                    out.push_str(&p.arguments_delta);
                }
            }
        }
    }
    out
}

#[test]
fn responses_done_adds_no_repeated_arguments() {
    let mut pending = HashMap::new();
    let mut all = Vec::new();
    all.extend(openai_responses::handle_responses_event(
        "response.output_item.added",
        &parse(r#"{"output_index":0,"item":{"type":"function_call","id":"fc_1","name":"echo"}}"#),
        &mut pending,
    ));
    for d in ["{\\\"x\\\"", ":1}"] {
        let data = parse(&format!(r#"{{"output_index":0,"delta":"{}"}}"#, d));
        all.extend(openai_responses::handle_responses_event("response.function_call_arguments.delta", &data, &mut pending));
    }
    let done = parse(r#"{"output_index":0,"item":{"id":"fc_1","name":"echo","arguments":"{\"x\":1}"}}"#);
    let last = openai_responses::handle_responses_event("response.function_call_arguments.done", &done, &mut pending);
    match &last[0] {
        StreamEvent::ToolCalls(parts) => {
            assert_eq!(parts[0].arguments_delta, "");
            assert_eq!(parts[0].name.as_deref(), Some("echo"));
        }
        other => panic!("unexpected {other:?}"),
    }
    all.extend(last);
    assert_eq!(joined_args(&all, 0), "{\"x\":1}");
}

#[test]
fn responses_done_without_deltas_carries_arguments() {
    let mut pending = HashMap::new();
    let done = parse(r#"{"output_index":2,"item":{"id":"fc_2","name":"echo","arguments":"{}"}}"#);
    let evs = openai_responses::handle_responses_event("response.function_call_arguments.done", &done, &mut pending);
    assert_eq!(joined_args(&evs, 2), "{}");
}

#[test]
fn crlf_blank_line_ends_a_frame() {
    let mut p = SseParser::new();
    let out = feed(&mut p, b"data: {\"a\":1}\r\n\r\n");
    assert_eq!(out.len(), 1);
    match &out[0] {
        SseFrame::Data(v) => assert_eq!(sv(v)["a"], 1),
        _ => panic!(),
    }
    let out = feed(&mut p, b"event: response.completed\r\ndata: {}\r\n\r");
    assert!(out.is_empty());
    let out = feed(&mut p, b"\ndata: [DONE]\n\n");
    assert_eq!(out.len(), 2);
    match &out[0] {
        SseFrame::Named { event, .. } => assert_eq!(event, "response.completed"),
        _ => panic!(),
    }
    assert!(matches!(out[1], SseFrame::Done));
}
