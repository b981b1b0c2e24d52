use laipe::console::{ConsoleDiag, ConsoleState, MAX_CONSOLE_ENTRIES};
use laipe::diagnostics::{
    api_format_match, api_format_match_static, compose_error_report_at, dump_request, entry_not_found_message,
    no_recording_message, parse_kind, readme_needs_rewrite, recording_context_at, recording_matches, render_conversation,
    render_readme_for_llm, render_response_section, sanitize_id, DiagnosticConfig,
};
use laipe::error::ChatErrorKind;
use laipe::json::{JsonNumber, JsonValue};
use laipe::recorder::{CompletionOutcome, OpenRecording, RecordingContext};
use laipe::redact::{redact_request_bytes, try_redact_request_bytes};
use laipe::types::{ChatMessage, ChatRole};
use serde_json::Value;

fn jv(v: &Value) -> JsonValue {
    match v {
        Value::Null => JsonValue::Null,
        Value::Bool(b) => JsonValue::Bool(*b),
        Value::Number(n) => {
            if let Some(u) = n.as_u64() {
                JsonValue::Number(JsonNumber::PosInt(u))
            } else if let Some(i) = n.as_i64() {
                JsonValue::Number(JsonNumber::NegInt(i))
            } else {
                JsonValue::Number(JsonNumber::Float(n.to_string()))
            }
        }
        Value::String(s) => JsonValue::String(s.clone()),
        Value::Array(a) => JsonValue::Array(a.iter().map(jv).collect()),
        Value::Object(m) => JsonValue::Object(m.iter().map(|(k, x)| (k.clone(), jv(x))).collect()),
    }
}

fn ctx() -> RecordingContext {
    RecordingContext {
        id: "rec-1".into(),
        started_at: "2026-01-01T00:00:00+00:00".into(),
        api_format: "openai_chat".into(),
        model: "gpt-4o".into(),
        endpoint: "https://api.openai.com/v1".into(),
        conversation_id: Some("conv-1".into()),
        turn: Some(2),
    }
}

// --- redaction ---

#[test]
fn redaction_strips_bearer() {
    let body = br#"{"model":"gpt-4o","headers":{"Authorization":"Bearer sk-abc123"}}"#;
    let s = String::from_utf8(redact_request_bytes(body)).unwrap();
    assert!(s.contains("REDACTED"), "{s}");
    assert!(!s.contains("sk-abc123"), "{s}");
}

#[test]
fn redaction_strips_x_api_key() {
    let body = br#"{"headers":{"x-api-key":"sk-ant-abc123"}}"#;
    let s = String::from_utf8(redact_request_bytes(body)).unwrap();
    assert!(s.contains("REDACTED"));
    assert!(!s.contains("sk-ant-abc123"));
}

#[test]
fn redaction_strips_json_api_key_field() {
    let body = br#"{"api_key": "sk-abc123", "model": "gpt-4o"}"#;
    let s = String::from_utf8(redact_request_bytes(body)).unwrap();
    assert!(s.contains("\"api_key\": \"REDACTED\""), "{s}");
    assert!(!s.contains("sk-abc123"), "{s}");
    assert!(s.contains("\"model\": \"gpt-4o\""), "{s}");
}

#[test]
fn redaction_exact_outputs() {
    let s = String::from_utf8(redact_request_bytes(b"Authorization: Bearer abc\nX: 1")).unwrap();
    assert_eq!(s, "Authorization:Bearer REDACTED\nX: 1");
    let s = String::from_utf8(redact_request_bytes(br#"{"Authorization":"Bearer sk-abc123"}"#)).unwrap();
    assert_eq!(s, r#"{"Authorization":"Bearer REDACTED"}"#);
    let s = String::from_utf8(redact_request_bytes(br#"{"x-api-key": "sk-1"}"#)).unwrap();
    assert_eq!(s, r#"{"x-api-key":"REDACTED"}"#);
}

#[test]
fn redaction_leaves_non_string_api_key() {
    let body = br#"{"api_key": 123}"#;
    assert_eq!(String::from_utf8(redact_request_bytes(body)).unwrap(), r#"{"api_key": 123}"#);
    let body = br#"{"api_key": null, "api_key": "s"}"#;
    assert_eq!(
        String::from_utf8(redact_request_bytes(body)).unwrap(),
        r#"{"api_key": null, "api_key": "REDACTED"}"#
    );
}

#[test]
fn redaction_leaves_text_without_markers() {
    let body = br#"{"model":"gpt-4o","messages":[]}"#;
    assert_eq!(redact_request_bytes(body), body.to_vec());
    let binary = [0xffu8, 0xfe, 0x00];
    assert_eq!(redact_request_bytes(&binary), binary.to_vec());
}

#[test]
fn redaction_reports_unsplittable_bodies() {
    // A non-word-bounded match starting after a multi-byte character would
    // cut that character in two.
    assert!(try_redact_request_bytes("éauthorizationx: 1".as_bytes()).is_none());
    assert!(try_redact_request_bytes(b"authorization: 1").is_some());
}

// --- recordings ---

#[test]
fn recording_caps_response_bytes() {
    let mut r = OpenRecording::start(&ctx(), 17);
    let n = r.accept_chunk(10, 8);
    assert_eq!(n, 8);
    assert!(r.truncated);
    r.wrote(n);
    assert_eq!(r.accept_chunk(4, 8), 0);
    let meta = r.finish(&CompletionOutcome::Done { text_events: 2, tool_call_events: 0 });
    assert_eq!(meta.response_bytes, 8);
    assert!(meta.truncated);
    assert_eq!(meta.request_bytes, 17);
    assert_eq!(meta.outcome, "done (text=2, tools=0)");
    let text = laipe::json_write::to_json_string(&meta.to_json());
    assert!(text.contains("\"truncated\":true"));
    assert!(text.contains("\"response_bytes\":8"));
}

#[test]
fn recording_accepts_whole_chunks_under_cap() {
    let mut r = OpenRecording::start(&ctx(), 0);
    assert_eq!(r.accept_chunk(9, 18), 9);
    r.wrote(9);
    assert_eq!(r.accept_chunk(9, 18), 9);
    r.wrote(9);
    assert!(!r.truncated);
    assert_eq!(r.accept_chunk(1, 18), 0);
    assert!(r.truncated);
}

#[test]
fn completion_labels() {
    assert_eq!(CompletionOutcome::Cancelled.label(), "cancelled");
    assert_eq!(
        CompletionOutcome::Error { kind: ChatErrorKind::RateLimit, message: "x".into() }.label(),
        "error (rate_limit)"
    );
    assert_eq!(
        CompletionOutcome::PreStreamFailure { kind: ChatErrorKind::Auth, message: "x".into() }.label(),
        "pre-stream failure (auth)"
    );
}

// --- console ---

#[test]
fn console_diag_builder() {
    let d = ConsoleDiag::new()
        .with_conversation_id("conv-1")
        .with_turn(2)
        .with_kind(ChatErrorKind::Auth)
        .with_request_digest("model=gpt-4o")
        .with_response_digest("status=401")
        .with_cause("HTTP 401");
    assert_eq!(d.conversation_id.as_deref(), Some("conv-1"));
    assert_eq!(d.turn, Some(2));
    assert_eq!(d.kind, Some(ChatErrorKind::Auth));
    assert_eq!(d.request_digest.as_deref(), Some("model=gpt-4o"));
    assert_eq!(d.response_digest.as_deref(), Some("status=401"));
    assert_eq!(d.cause.as_deref(), Some("HTTP 401"));
}

#[test]
fn empty_diag_is_default() {
    let d = ConsoleDiag::default();
    assert!(d.conversation_id.is_none());
    assert!(d.turn.is_none());
    assert!(d.kind.is_none());
    assert!(d.request_digest.is_none());
    assert!(d.response_digest.is_none());
    assert!(d.cause.is_none());
}

#[test]
fn console_keeps_newest_first_and_bounds() {
    let mut c = ConsoleState::new();
    let e = c.push_entry("error", "llm", "boom", ConsoleDiag::new().with_kind(ChatErrorKind::Auth), 1700, 1701);
    assert_eq!(e.id, "console-1700-1");
    assert_eq!(e.source, "backend");
    assert_eq!(e.kind.as_deref(), Some("auth"));
    assert_eq!(e.timestamp_ms, 1701);
    c.push("info", "app", "second");
    let snap = c.snapshot();
    assert_eq!(snap.len(), 2);
    assert_eq!(snap[0].message, "second");
    assert_eq!(snap[1].message, "boom");
    assert_eq!(c.find_entry("console-1700-1").unwrap().message, "boom");
    assert!(c.find_entry("nope").is_none());
    for _ in 0..MAX_CONSOLE_ENTRIES {
        c.push("info", "app", "filler");
    }
    assert_eq!(c.snapshot().len(), MAX_CONSOLE_ENTRIES);
    assert!(c.find_entry("console-1700-1").is_none());
    c.clear();
    assert!(c.snapshot().is_empty());
}

// --- diagnostics ---

#[test]
fn diagnostic_config_defaults() {
    let d = DiagnosticConfig::default();
    assert!(!d.auto_snapshot);
    assert_eq!(d.max_report_bytes, 5 * 1024 * 1024);
    assert!(!d.record_successful_rounds);
}

#[test]
fn sanitize_id_replaces_unsafe_chars() {
    assert_eq!(sanitize_id("rec-17/a b_c.é"), "rec-17_a_b_c__");
}

#[test]
fn format_and_kind_names() {
    assert_eq!(api_format_match("OpenAiResponses"), "openai_responses");
    assert_eq!(api_format_match("anthropic"), "anthropic");
    assert_eq!(api_format_match("AnthropicMessages"), "unknown");
    assert_eq!(api_format_match_static("anthropic_messages"), "anthropic_messages");
    assert_eq!(api_format_match_static("(unknown)"), "unknown");
    assert_eq!(parse_kind("rate_limit"), ChatErrorKind::RateLimit);
    assert_eq!(parse_kind("bogus"), ChatErrorKind::Unknown);
    for k in ChatErrorKind::all() {
        assert_eq!(parse_kind(k.as_str()), k);
    }
}

#[test]
fn response_section_shapes() {
    assert_eq!(render_response_section(b"", 10), "_No response bytes recorded._");
    assert_eq!(render_response_section(b"abc", 10), "_Full response: 3 bytes._\n\n```text\nabc\n```");
    assert_eq!(
        render_response_section(b"abcdef", 4),
        "_Truncated to first 4 bytes (full size: 6 bytes)._\n\n```text\nabcd\n```"
    );
}

#[test]
fn conversation_section_shapes() {
    assert_eq!(render_conversation(&[]), "_No conversation context captured._");
    let long = "x".repeat(801);
    let msgs = vec![
        ChatMessage { role: ChatRole::User, content: "hi".into(), ..Default::default() },
        ChatMessage { role: ChatRole::Assistant, content: long, ..Default::default() },
    ];
    let s = render_conversation(&msgs);
    assert!(s.starts_with("**[0] user**: hi\n\n**[1] assistant**: xxx"));
    assert!(s.ends_with("…(_truncated, 801 bytes total_)\n\n"));
}

#[test]
fn readme_lists_every_kind() {
    let r = render_readme_for_llm();
    assert!(r.starts_with("# README-FOR-LLM.md — laipe diagnostics"));
    assert!(r.contains("schema_version: 1"));
    for k in ChatErrorKind::all() {
        assert!(r.contains(&format!("### `{}` — {}", k.as_str(), k.label())));
    }
}

#[test]
fn error_report_and_index_line() {
    let c = ctx();
    let rep = compose_error_report_at(
        "rec-1/x",
        &c,
        ChatErrorKind::Auth,
        "denied",
        Some("HTTP 401"),
        &[],
        "{}",
        b"",
        "{\"id\":\"rec-1\"}",
        100,
        "20260101T000000",
        "2026-01-01T00:00:00+00:00",
        "2026-01-01T00:00:01+00:00",
    );
    assert_eq!(rep.filename, "20260101T000000-rec-1_x.md");
    assert_eq!(rep.rel_path, "reports/20260101T000000-rec-1_x.md");
    assert!(rep.body.starts_with("# laipe error report — Authentication failed (401 / 403)\n"));
    assert!(rep.body.contains("conversation_id: conv-1\nturn: 2\n"));
    assert!(rep.body.contains("\nUnderlying cause: `HTTP 401`\n"));
    let line: Value = serde_json::from_str(&rep.index_line).unwrap();
    assert_eq!(line["kind"], "auth");
    assert_eq!(line["turn"], 2);
    assert_eq!(line["report_path"], "reports/20260101T000000-rec-1_x.md");
}

#[test]
fn recording_lookup_and_context() {
    let meta = jv(&serde_json::from_str::<Value>(r#"{"conversation_id":"conv-1","turn":2,"model":"m"}"#).unwrap());
    assert!(recording_matches(&meta, "conv-1", Some(2)));
    assert!(recording_matches(&meta, "conv-1", None));
    assert!(!recording_matches(&meta, "conv-1", Some(3)));
    assert!(!recording_matches(&meta, "conv-2", None));
    let c = laipe::diagnostics::recording_context_from_meta("rec-9", &meta, "t".into());
    assert_eq!(c.model, "m");
    assert_eq!(c.endpoint, "(unknown)");
    assert_eq!(c.api_format, "unknown");
    assert_eq!(c.turn, Some(2));
    let r = recording_context_at(None, Some(1), "m", "e", "OpenAiChat", 1700, Some(0x5_0000_0abc), "t".into());
    assert_eq!(r.id, "rec-1700-abc");
    assert_eq!(r.api_format, "openai_chat");
}

#[test]
fn dump_request_from_entry() {
    let mut c = ConsoleState::new();
    let e = c.push_entry(
        "error",
        "llm",
        "boom",
        ConsoleDiag::new().with_kind(ChatErrorKind::RateLimit).with_cause("429"),
        1,
        1,
    );
    let d = dump_request(&e);
    assert_eq!(d.kind, ChatErrorKind::RateLimit);
    assert_eq!(d.message, "boom");
    assert_eq!(d.error_context.stage.as_deref(), Some("dump_on_demand"));
    assert_eq!(d.error_context.request_digest.as_deref(), Some(""));
    assert_eq!(d.error_context.cause.as_deref(), Some("429"));
    assert_eq!(entry_not_found_message("c-1"), "console entry not found: c-1");
    assert!(no_recording_message("c-1").starts_with("no on-disk recording matches console entry c-1"));
}

#[test]
fn readme_rewritten_only_without_current_schema() {
    assert!(readme_needs_rewrite(None));
    assert!(readme_needs_rewrite(Some("# old readme\nschema_version: 0\n")));
    assert!(!readme_needs_rewrite(Some("x schema_version: 1 y")));
    let fresh = render_readme_for_llm();
    assert!(!readme_needs_rewrite(Some(fresh.as_str())));
}

#[test]
fn recording_id_without_clock_reading() {
    let r = recording_context_at(Some("c".into()), None, "m", "e", "x", -5, None, "t".into());
    assert_eq!(r.id, "rec--5-0");
    assert_eq!(r.api_format, "unknown");
}

#[test]
fn console_ids_stay_distinct_across_clear() {
    let mut c = ConsoleState::new();
    let a = c.push_entry("info", "m", "one", ConsoleDiag::new(), 5, 5);
    c.clear();
    let b = c.push_entry("info", "m", "two", ConsoleDiag::new(), 5, 5);
    assert_ne!(a.id, b.id);
    assert_eq!(a.id, "console-5-1");
    assert_eq!(b.id, "console-5-2");
}
