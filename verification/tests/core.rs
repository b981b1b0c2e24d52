use laipe::builtin_tools::{
    ask_free_text_schema, ask_user_question_schema, builtin_meta_by_name, builtin_tool_meta, builtin_tools,
    update_doc_item_schema, BuiltinTool, ToolPermission, ToolRisk,
};
use laipe::error::{classify_status, ChatErrorKind, ErrorContext};
use laipe::json::{JsonNumber, JsonValue};
use laipe::json_write::to_json_string;
use laipe::types::{EffortLevel, ProviderConfig};
use serde_json::Value;

fn sv(v: &JsonValue) -> Value {
    match v {
        JsonValue::Null => Value::Null,
        JsonValue::Bool(b) => Value::Bool(*b),
        JsonValue::Number(JsonNumber::PosInt(u)) => Value::from(*u),
        JsonValue::Number(JsonNumber::NegInt(i)) => Value::from(*i),
        JsonValue::Number(JsonNumber::Float(t)) => serde_json::from_str(t).unwrap(),
        JsonValue::String(s) => Value::String(s.clone()),
        JsonValue::Array(a) => Value::Array(a.iter().map(sv).collect()),
        JsonValue::Object(f) => {
            let mut m = serde_json::Map::new();
            for (k, x) in f {
                m.insert(k.clone(), sv(x));
            }
            Value::Object(m)
        }
    }
}

// --- built-in tools ---

#[test]
fn as_str_matches_wire_format() {
    assert_eq!(BuiltinTool::AskUserQuestion.as_str(), "ask_user_question");
    assert_eq!(BuiltinTool::AskFreeText.as_str(), "ask_free_text");
    assert_eq!(BuiltinTool::UpdateDocItem.as_str(), "update_doc_item");
}

#[test]
fn as_str_is_consistent_with_display() {
    for t in [BuiltinTool::AskUserQuestion, BuiltinTool::AskFreeText, BuiltinTool::UpdateDocItem] {
        assert_eq!(t.as_str(), t.display_text().as_str());
    }
}

#[test]
fn meta_by_name_finds_known_tools() {
    assert!(builtin_meta_by_name("ask_user_question").is_some());
    assert!(builtin_meta_by_name("ask_free_text").is_some());
    assert!(builtin_meta_by_name("update_doc_item").is_some());
}

#[test]
fn meta_by_name_returns_none_for_unknown() {
    assert!(builtin_meta_by_name("not_a_tool").is_none());
    assert!(builtin_meta_by_name("").is_none());
    assert!(builtin_meta_by_name("Ask_User_Question").is_none());
}

#[test]
fn meta_default_permissions_match_design() {
    let ask_uq = builtin_meta_by_name("ask_user_question").unwrap();
    assert_eq!(ask_uq.default_permission, ToolPermission::Auto);
    assert_eq!(ask_uq.risk, ToolRisk::Low);

    let ask_ft = builtin_meta_by_name("ask_free_text").unwrap();
    assert_eq!(ask_ft.default_permission, ToolPermission::Auto);
    assert_eq!(ask_ft.risk, ToolRisk::Low);

    let upd = builtin_meta_by_name("update_doc_item").unwrap();
    assert_eq!(upd.default_permission, ToolPermission::Ask);
    assert_eq!(upd.risk, ToolRisk::Medium);
}

#[test]
fn builtin_tools_returns_three_in_canonical_order() {
    let tools = builtin_tools();
    assert_eq!(tools.len(), 3);
    assert_eq!(tools[0].function.name, "ask_user_question");
    assert_eq!(tools[1].function.name, "ask_free_text");
    assert_eq!(tools[2].function.name, "update_doc_item");
}

#[test]
fn builtin_tools_names_match_meta_table() {
    let tools = builtin_tools();
    let meta = builtin_tool_meta();
    let meta_names: Vec<&str> = meta.iter().map(|m| m.name.as_str()).collect();
    let tool_names: Vec<&str> = tools.iter().map(|t| t.function.name.as_str()).collect();
    assert_eq!(meta_names, tool_names);
}

#[test]
fn all_schemas_serialize_to_valid_json() {
    for t in builtin_tools() {
        let s = to_json_string(&t.to_json());
        let back: Value = serde_json::from_str(&s).expect("schema must round-trip");
        assert_eq!(back["function"]["name"], t.function.name.as_str());
    }
}

#[test]
fn ask_user_question_schema_requires_question_and_options() {
    let s = ask_user_question_schema();
    let params = sv(&s.function.parameters);
    assert_eq!(params["type"], "object");
    let required = params["required"].as_array().expect("required must be array");
    let required_strs: Vec<&str> = required.iter().filter_map(|v| v.as_str()).collect();
    assert!(required_strs.contains(&"question"));
    assert!(required_strs.contains(&"options"));
    let options = &params["properties"]["options"];
    assert_eq!(options["minItems"], 2);
    assert_eq!(options["maxItems"], 5);
    let items = &options["items"];
    let item_required: Vec<&str> =
        items["required"].as_array().unwrap().iter().filter_map(|v| v.as_str()).collect();
    assert!(item_required.contains(&"label"));
    assert!(item_required.contains(&"preview"));
    assert_eq!(items["properties"]["label"]["maxLength"], 10);
    assert_eq!(params["additionalProperties"], false);
    assert_eq!(items["additionalProperties"], false);
}

#[test]
fn ask_free_text_schema_requires_only_question() {
    let s = ask_free_text_schema();
    let params = sv(&s.function.parameters);
    let required: Vec<&str> = params["required"].as_array().unwrap().iter().filter_map(|v| v.as_str()).collect();
    assert_eq!(required, vec!["question"]);
    assert_eq!(params["additionalProperties"], false);
}

#[test]
fn update_doc_item_schema_requires_item_id_and_content() {
    let s = update_doc_item_schema();
    let params = sv(&s.function.parameters);
    let required: Vec<&str> = params["required"].as_array().unwrap().iter().filter_map(|v| v.as_str()).collect();
    assert!(required.contains(&"item_id"));
    assert!(required.contains(&"content"));
    let mode = &params["properties"]["mode"];
    let mode_enum: Vec<&str> = mode["enum"].as_array().unwrap().iter().filter_map(|v| v.as_str()).collect();
    assert_eq!(mode_enum, vec!["replace", "append"]);
    assert_eq!(mode["default"], "replace");
    assert_eq!(params["additionalProperties"], false);
}

#[test]
fn all_schema_names_match_enum_as_str() {
    for t in builtin_tools() {
        let meta = builtin_meta_by_name(&t.function.name).expect("every schema must have a meta entry");
        assert_eq!(meta.name.as_str(), t.function.name);
    }
}

#[test]
fn tool_permission_default_is_auto() {
    assert_eq!(ToolPermission::default(), ToolPermission::Auto);
}

#[test]
fn meta_table_labels() {
    let meta = builtin_tool_meta();
    assert_eq!(meta[0].label, "Ask User Question");
    assert_eq!(meta[2].label, "Update Doc Item");
    assert!(meta[2].description.starts_with("Propose a document edit"));
}

// --- error context ---

#[test]
fn empty_context_serializes_to_null() {
    let v = sv(&ErrorContext::new().to_json());
    assert_eq!(v, serde_json::from_str::<Value>("{}").unwrap());
}

#[test]
fn builders_set_fields() {
    let c = ErrorContext::new().with_request_digest("model=gpt-4o").with_cause("connect timeout").with_stage("connect");
    assert_eq!(c.request_digest.as_deref(), Some("model=gpt-4o"));
    assert_eq!(c.cause.as_deref(), Some("connect timeout"));
    assert_eq!(c.stage.as_deref(), Some("connect"));
}

#[test]
fn serializes_only_set_fields() {
    let c = ErrorContext::new().with_stage("parse_sse");
    let v = sv(&c.to_json());
    let obj = v.as_object().unwrap();
    assert!(obj.contains_key("stage"));
    assert!(!obj.contains_key("request_digest"));
    assert!(!obj.contains_key("response_digest"));
    assert!(!obj.contains_key("cause"));
    assert!(!obj.contains_key("upstream_request_id"));
}

#[test]
fn context_upstream_request_id_is_kept() {
    let c = ErrorContext::new().with_upstream_request_id("req-9").with_response_digest("status=500");
    assert_eq!(to_json_string(&c.to_json()), r#"{"response_digest":"status=500","upstream_request_id":"req-9"}"#);
}

// --- error kinds ---

#[test]
fn classify_status_maps_each_band() {
    assert_eq!(classify_status(401), ChatErrorKind::Auth);
    assert_eq!(classify_status(403), ChatErrorKind::Auth);
    assert_eq!(classify_status(404), ChatErrorKind::ModelNotFound);
    assert_eq!(classify_status(429), ChatErrorKind::RateLimit);
    assert_eq!(classify_status(503), ChatErrorKind::ServerError);
    assert_eq!(classify_status(422), ChatErrorKind::BadRequest);
    assert_eq!(classify_status(302), ChatErrorKind::Unknown);
}

#[test]
fn kinds_have_names_labels_and_hints() {
    let all = ChatErrorKind::all();
    assert_eq!(all.len(), 8);
    assert_eq!(ChatErrorKind::ModelNotFound.as_str(), "model_not_found");
    assert_eq!(ChatErrorKind::RateLimit.label(), "Rate limit / quota exceeded (429)");
    assert!(ChatErrorKind::Auth.to_debug_hint().starts_with("- The API key was rejected"));
}

// --- types ---

#[test]
fn effort_levels_map_per_protocol() {
    assert_eq!(EffortLevel::Unset.to_openai_effort(), None);
    assert_eq!(EffortLevel::Medium.to_openai_effort(), Some("medium"));
    assert_eq!(EffortLevel::Max.to_openai_effort(), None);
    assert_eq!(EffortLevel::Unset.to_anthropic_budget(), None);
    assert_eq!(EffortLevel::Low.to_anthropic_budget(), Some(1024));
    assert_eq!(EffortLevel::Xhigh.to_anthropic_budget(), Some(32768));
    assert_eq!(EffortLevel::Max.to_anthropic_budget(), Some(65536));
}

#[test]
fn provider_config_default_is_empty_openai_chat() {
    let c = ProviderConfig::default();
    assert!(c.endpoint.is_empty() && c.api_key.is_empty() && c.model.is_empty());
    assert_eq!(c.api_format, laipe::types::ApiFormat::OpenAiChat);
    assert!(c.tools.is_none() && c.effort.is_none() && c.max_tokens.is_none());
}

#[test]
fn error_context_default_clone_and_eq() {
    let d = laipe::error::ErrorContext::default();
    assert_eq!(d, laipe::error::ErrorContext::new());
    let c = laipe::error::ErrorContext::new().with_stage("stream").with_cause("boom");
    let c2 = c.clone();
    assert_eq!(c, c2);
    assert_ne!(c, d);
    assert_eq!(c2.stage.as_deref(), Some("stream"));
}
