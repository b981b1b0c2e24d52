use indexmap::IndexMap;
use laipe::json::{JsonNumber, JsonValue};
use laipe::model_catalog::{
    check_refresh_sanity, choose_catalog, empty_catalog, freshest, is_cache_healthy, is_listable_model,
    resolve_catalog, resolve_endpoint, resolve_model, slim_catalog_at, slim_model, slim_provider, slim_string,
    suggested_api_format, CatalogLimit, CatalogModel, CatalogProvider, ModelCatalog, MIN_HEALTHY_PROVIDERS,
};
use laipe::model_catalog::{cache_path_in, needs_refresh_at, CACHE_FILE_NAME, REFRESH_TTL_MS};
use serde_json::Value;

fn jv(v: &Value) -> JsonValue {
    match v {
        Value::Null => JsonValue::Null,
        Value::Bool(b) => JsonValue::Bool(*b),
        Value::Number(n) => {
            if let Some(u) = n.as_u64() {
                JsonValue::Number(JsonNumber::PosInt(u))
            } else if let Some(i) = n.as_i64() {
                JsonValue::Number(JsonNumber::NegInt(i))
            } else {
                JsonValue::Number(JsonNumber::Float(n.to_string()))
            }
        }
        Value::String(s) => JsonValue::String(s.clone()),
        Value::Array(a) => JsonValue::Array(a.iter().map(jv).collect()),
        Value::Object(m) => JsonValue::Object(m.iter().map(|(k, x)| (k.clone(), jv(x))).collect()),
    }
}

fn parse(s: &str) -> JsonValue {
    jv(&serde_json::from_str::<Value>(s).unwrap())
}

fn provider(name: &str, api: Option<&str>) -> CatalogProvider {
    CatalogProvider { name: name.into(), api: api.map(String::from), npm: None, models: IndexMap::new() }
}

fn good_model() -> CatalogModel {
    CatalogModel {
        name: "gpt-4o".into(),
        limit: CatalogLimit::default(),
        reasoning: false,
        tool_call: true,
        attachment: false,
        release_date: None,
        status: None,
    }
}

#[test]
fn slim_string_extracts_field() {
    let v = parse(r#"{"name": "Anthropic", "api": "https://api.anthropic.com"}"#);
    assert_eq!(slim_string(&v, "name").as_deref(), Some("Anthropic"));
    assert_eq!(slim_string(&v, "api").as_deref(), Some("https://api.anthropic.com"));
    assert_eq!(slim_string(&v, "missing"), None);
}

#[test]
fn slim_model_defaults_are_safe() {
    let m = slim_model("sonnet-test", &parse("{}"));
    assert_eq!(m.name, "sonnet-test");
    assert_eq!(m.limit.context, 0);
    assert!(!m.reasoning);
    assert!(!m.tool_call);
}

#[test]
fn slim_provider_drops_when_name_missing() {
    let raw = parse(r#"{"api": "https://x", "models": {}}"#);
    assert!(slim_provider("x", &raw).is_none());
}

#[test]
fn slim_catalog_drops_broken_providers() {
    let raw = parse(r#"{"anthropic": {"name": "Anthropic", "models": {}}, "broken": {"models": {}}}"#);
    let cat = slim_catalog_at(&raw, "2026-01-01T00:00:00Z".to_string());
    assert_eq!(cat.providers.len(), 1);
    assert!(cat.providers.contains_key("anthropic"));
}

#[test]
fn slim_provider_keeps_object_models_only() {
    let raw = parse(
        r#"{"name": "P", "models": {"a": {"name": "A", "tool_call": true, "limit": {"context": 10, "output": 2}}, "b": 3}}"#,
    );
    let p = slim_provider("p", &raw).unwrap();
    assert_eq!(p.models.len(), 1);
    let a = &p.models["a"];
    assert_eq!(a.name, "A");
    assert!(a.tool_call);
    assert_eq!(a.limit, CatalogLimit { context: 10, output: 2 });
}

#[test]
fn resolve_endpoint_uses_official_fallback() {
    let p = provider("Anthropic", None);
    assert_eq!(resolve_endpoint("anthropic", &p).as_deref(), Some("https://api.anthropic.com"));
}

#[test]
fn resolve_endpoint_skips_template_api() {
    let p = provider("Custom", Some("https://${API_KEY}.example.com"));
    assert_eq!(resolve_endpoint("custom", &p).as_deref(), None);
}

#[test]
fn resolve_endpoint_prefers_own_api() {
    let p = provider("OpenAI", Some("https://proxy.example/v1"));
    assert_eq!(resolve_endpoint("openai", &p).as_deref(), Some("https://proxy.example/v1"));
    let empty = provider("OpenAI", Some(""));
    assert_eq!(resolve_endpoint("openai", &empty).as_deref(), Some("https://api.openai.com/v1"));
}

#[test]
fn suggested_api_format_maps_anthropic_npm() {
    assert_eq!(suggested_api_format(Some("@ai-sdk/anthropic")), "anthropic_messages");
    assert_eq!(suggested_api_format(Some("@ai-sdk/openai")), "openai_chat");
    assert_eq!(suggested_api_format(None), "openai_chat");
}

#[test]
fn is_listable_model_filters_deprecated_and_no_tool_call() {
    let good = good_model();
    assert!(is_listable_model(&good));
    let deprecated = CatalogModel { status: Some("deprecated".into()), ..good.clone() };
    assert!(!is_listable_model(&deprecated));
    let no_tool_call = CatalogModel { tool_call: false, ..good };
    assert!(!is_listable_model(&no_tool_call));
}

#[test]
fn resolve_model_copies_fields() {
    let m = CatalogModel { attachment: true, release_date: Some("2025-01-01".into()), ..good_model() };
    let r = resolve_model("gpt-4o", &m);
    assert_eq!(r.id, "gpt-4o");
    assert!(r.vision);
    assert_eq!(r.release_date.as_deref(), Some("2025-01-01"));
}

#[test]
fn resolve_catalog_filters_unreachable_and_empty() {
    let mut providers = IndexMap::new();
    let mut models = IndexMap::new();
    models.insert(
        "sonnet-4-5".to_string(),
        CatalogModel {
            name: "Sonnet 4.5".into(),
            limit: CatalogLimit { context: 200_000, output: 8_000 },
            reasoning: true,
            tool_call: true,
            attachment: false,
            release_date: Some("2025-09-29".into()),
            status: None,
        },
    );
    providers.insert(
        "anthropic".to_string(),
        CatalogProvider { name: "Anthropic".into(), api: None, npm: None, models },
    );
    providers.insert("unknown-provider".to_string(), provider("Unknown", Some("https://${API_KEY}.x")));
    let cat = ModelCatalog { fetched_at: "2026-01-01T00:00:00Z".into(), providers };
    let r = resolve_catalog(&cat);
    assert_eq!(r.providers.len(), 1);
    assert_eq!(r.providers[0].id, "anthropic");
    assert_eq!(r.providers[0].endpoint, "https://api.anthropic.com");
    assert_eq!(r.providers[0].models[0].id, "sonnet-4-5");
    assert_eq!(r.providers[0].models[0].context_window, 200_000);
}

#[test]
fn is_cache_healthy_rejects_empty_or_too_small() {
    let empty = ModelCatalog { fetched_at: String::new(), providers: IndexMap::new() };
    assert!(!is_cache_healthy(&empty));
    let mut cat = ModelCatalog { fetched_at: String::new(), providers: IndexMap::new() };
    cat.providers.insert("a".into(), provider("A", None));
    assert!(!is_cache_healthy(&cat));
    let mut providers = IndexMap::new();
    for i in 0..MIN_HEALTHY_PROVIDERS {
        providers.insert(format!("p{i}"), provider(&format!("P{i}"), None));
    }
    let cat2 = ModelCatalog { fetched_at: String::new(), providers };
    assert!(!is_cache_healthy(&cat2));
}

#[test]
fn healthy_cache_with_time_and_enough_providers() {
    let mut providers = IndexMap::new();
    for i in 0..MIN_HEALTHY_PROVIDERS {
        providers.insert(format!("p{i}"), provider(&format!("P{i}"), None));
    }
    let cat = ModelCatalog { fetched_at: "2026-01-01T00:00:00Z".into(), providers };
    assert!(is_cache_healthy(&cat));
    let choice = choose_catalog(Some(cat), ModelCatalog { fetched_at: "2025-01-01T00:00:00Z".into(), providers: IndexMap::new() });
    assert!(!choice.drop_cache);
    assert_eq!(choice.catalog.providers.len(), MIN_HEALTHY_PROVIDERS);
}

#[test]
fn unhealthy_cache_falls_back_to_snapshot() {
    let snapshot = ModelCatalog { fetched_at: "2025-01-01T00:00:00Z".into(), providers: IndexMap::new() };
    let choice = choose_catalog(Some(empty_catalog()), snapshot);
    assert!(choice.drop_cache);
    assert_eq!(choice.catalog.fetched_at, "2025-01-01T00:00:00Z");
}

#[test]
fn freshest_picks_later_iso_string() {
    let older = ModelCatalog { fetched_at: "2025-01-01T00:00:00Z".into(), providers: IndexMap::new() };
    let newer = ModelCatalog { fetched_at: "2026-01-01T00:00:00Z".into(), providers: IndexMap::new() };
    assert!(freshest(&newer, &older));
    assert!(!freshest(&older, &newer));
    assert!(!freshest(&older, &older));
}

#[test]
fn refresh_sanity_reports_short_counts() {
    let cat = empty_catalog();
    assert_eq!(
        check_refresh_sanity(&cat),
        Err("refresh: sanity check failed — got 0 providers, expected >= 50".to_string())
    );
    let mut providers = IndexMap::new();
    for i in 0..50 {
        providers.insert(format!("p{i}"), provider("P", None));
    }
    let cat = ModelCatalog { fetched_at: String::new(), providers };
    assert_eq!(
        check_refresh_sanity(&cat),
        Err("refresh: sanity check failed — got 0 models, expected >= 1000".to_string())
    );
}

#[test]
fn bad_snapshot_bytes_fail_to_decompress() {
    let r = laipe::model_catalog::decompress_snapshot(b"not gzip");
    assert!(r.unwrap_err().starts_with("decompress embedded: "));
}

#[test]
fn refresh_is_due_after_a_day_or_unknown_age() {
    // 2024-01-01T00:00:00Z is 1704067200000 ms after the epoch.
    let t = 1704067200000i64;
    assert!(needs_refresh_at("not a date", t));
    assert!(!needs_refresh_at("2024-01-01T00:00:00Z", t));
    assert!(!needs_refresh_at("2024-01-01T00:00:00Z", t + REFRESH_TTL_MS));
    assert!(needs_refresh_at("2024-01-01T00:00:00Z", t + REFRESH_TTL_MS + 1));
    assert!(needs_refresh_at("2024-01-01T08:00:00+08:00", t + REFRESH_TTL_MS + 1));
    assert!(!needs_refresh_at("2024-01-02T00:00:00Z", t));
}

#[test]
fn cache_path_joins_file_name() {
    let p = cache_path_in(std::path::Path::new("/tmp/conf"), CACHE_FILE_NAME);
    assert_eq!(p, std::path::PathBuf::from("/tmp/conf/model_catalog.json"));
}
