//! models.dev model catalog: slimming the raw catalog, choosing between the
//! cached and the embedded copy, and resolving it into the shape the
//! settings UI lists (tool-capable, non-deprecated models of providers with
//! a reachable endpoint).
//!
//! Providers and models are kept in insertion-ordered maps (`IndexMap`);
//! fetching, caching on disk and JSON parsing happen outside this module.

use vstd::prelude::*;
use indexmap::IndexMap;
use std::io::Read;
use crate::clock::utc_now_rfc3339;
use crate::json::{Json, JsonValue, get_str, lemma_field_models_of_index, field_models_of};
use crate::text::{concat_str, spec_contains, spec_decimal, str_contains, str_eq, u64_to_string};
use crate::tool::{copy_opt, opt_view};

verus! {

/// Fewest providers a cached catalog must list to be trusted.
pub const MIN_HEALTHY_PROVIDERS: usize = 30;
/// Fewest providers a refreshed catalog must list to be kept.
pub const MIN_SANE_PROVIDERS: usize = 50;
/// Fewest models a refreshed catalog must list to be kept.
pub const MIN_SANE_MODELS: usize = 1000;
/// Age, in milliseconds, past which a cached catalog is refreshed (24
/// hours).
pub const REFRESH_TTL_MS: i64 = 86400000;

/// chrono's `DateTime::parse_from_rfc3339(s)` read as milliseconds since
/// the Unix epoch (`timestamp_millis`); `None` when `s` is not RFC 3339.
pub uninterp spec fn rfc3339_millis(s: Seq<char>) -> Option<i64>;

/// chrono's `DateTime::parse_from_rfc3339` followed by `timestamp_millis`.
/// Claimed: the result is `rfc3339_millis` of the text (the parse depends
/// on the text alone). How RFC 3339 text is read is not described.
#[verifier::external_body]
fn parse_rfc3339_millis(s: &str) -> (r: Option<i64>)
    ensures
        r == rfc3339_millis(s@),
{
    chrono::DateTime::parse_from_rfc3339(s).ok().map(|t| t.timestamp_millis())
}

/// A catalog fetched at `fetched_at` is refreshed at time `now_ms` when
/// the fetch time cannot be read or it is more than a day old.
pub fn needs_refresh_at(fetched_at: &str, now_ms: i64) -> (r: bool)
    ensures
        r == match rfc3339_millis(fetched_at@) {
            Some(t) => now_ms - t > REFRESH_TTL_MS,
            None => true,
        },
{
    match parse_rfc3339_millis(fetched_at) {
        Some(t) => (now_ms as i128) - (t as i128) > REFRESH_TTL_MS as i128,
        None => true,
    }
}

/// File name of the on-disk cache.
pub const CACHE_FILE_NAME: &'static str = "model_catalog.json";

#[verifier::external_type_specification]
#[verifier::external_body]
#[verifier::reject_recursive_types(K)]
#[verifier::reject_recursive_types(V)]
#[verifier::reject_recursive_types(S)]
pub struct ExIndexMap<K, V, S>(IndexMap<K, V, S>);

/// Context and output token limits.
#[derive(Debug, Clone, Copy, PartialEq, Eq, Structural)]
pub struct CatalogLimit {
    pub context: u64,
    pub output: u64,
}

impl Default for CatalogLimit {
    fn default() -> (r: CatalogLimit)
        ensures
            r == (CatalogLimit { context: 0, output: 0 }),
    {
        CatalogLimit { context: 0, output: 0 }
    }
}

/// One model of a provider.
#[derive(Debug, Clone)]
pub struct CatalogModel {
    pub name: String,
    pub limit: CatalogLimit,
    pub reasoning: bool,
    pub tool_call: bool,
    pub attachment: bool,
    pub release_date: Option<String>,
    pub status: Option<String>,
}

pub struct ModelView {
    pub name: Seq<char>,
    pub limit: CatalogLimit,
    pub reasoning: bool,
    pub tool_call: bool,
    pub attachment: bool,
    pub release_date: Option<Seq<char>>,
    pub status: Option<Seq<char>>,
}

impl View for CatalogModel {
    type V = ModelView;

    open spec fn view(&self) -> ModelView {
        ModelView {
            name: self.name@,
            limit: self.limit,
            reasoning: self.reasoning,
            tool_call: self.tool_call,
            attachment: self.attachment,
            release_date: opt_view(self.release_date),
            status: opt_view(self.status),
        }
    }
}

/// What a model map holds: its entries in order.
pub uninterp spec fn model_entries(m: IndexMap<String, CatalogModel>) -> Seq<(Seq<char>, ModelView)>;

/// What a provider map holds: its entries in order.
pub uninterp spec fn provider_entries(m: IndexMap<String, CatalogProvider>) -> Seq<(Seq<char>, ProviderView)>;

/// `IndexMap::insert` on entries: an existing key keeps its place and
/// takes the new value; a new key goes last.
pub open spec fn entries_insert<T>(s: Seq<(Seq<char>, T)>, k: Seq<char>, v: T) -> Seq<(Seq<char>, T)>
    decreases s.len(),
{
    if s.len() == 0 {
        seq![(k, v)]
    } else if s[0].0 == k {
        s.update(0, (k, v))
    } else {
        seq![s[0]] + entries_insert(s.drop_first(), k, v)
    }
}

/// indexmap's `IndexMap::new`: an empty map.
#[verifier::external_body]
fn new_model_map() -> (r: IndexMap<String, CatalogModel>)
    ensures
        model_entries(r) == Seq::<(Seq<char>, ModelView)>::empty(),
{
    IndexMap::new()
}

/// indexmap's `IndexMap::insert`: an existing key keeps its position and
/// takes the new value; otherwise the pair is appended.
#[verifier::external_body]
fn model_map_insert(m: &mut IndexMap<String, CatalogModel>, k: String, v: CatalogModel)
    ensures
        model_entries(*final(m)) == entries_insert(model_entries(*old(m)), k@, v@),
{
    m.insert(k, v);
}

/// indexmap's `IndexMap::iter`: the entries in order.
#[verifier::external_body]
fn model_map_iter(m: &IndexMap<String, CatalogModel>) -> (r: Vec<(&String, &CatalogModel)>)
    ensures
        r@.len() == model_entries(*m).len(),
        forall|i: int| 0 <= i < r@.len() ==> (#[trigger] r@[i]).0@ == model_entries(*m)[i].0
            && r@[i].1@ == model_entries(*m)[i].1,
{
    m.iter().collect()
}

/// indexmap's `IndexMap::new`: an empty map.
#[verifier::external_body]
fn new_provider_map() -> (r: IndexMap<String, CatalogProvider>)
    ensures
        provider_entries(r) == Seq::<(Seq<char>, ProviderView)>::empty(),
{
    IndexMap::new()
}

/// indexmap's `IndexMap::insert` (see `model_map_insert`).
#[verifier::external_body]
fn provider_map_insert(m: &mut IndexMap<String, CatalogProvider>, k: String, v: CatalogProvider)
    ensures
        provider_entries(*final(m)) == entries_insert(provider_entries(*old(m)), k@, v@),
{
    m.insert(k, v);
}

/// indexmap's `IndexMap::iter`: the entries in order.
#[verifier::external_body]
fn provider_map_iter(m: &IndexMap<String, CatalogProvider>) -> (r: Vec<(&String, &CatalogProvider)>)
    ensures
        r@.len() == provider_entries(*m).len(),
        forall|i: int| 0 <= i < r@.len() ==> (#[trigger] r@[i]).0@ == provider_entries(*m)[i].0
            && r@[i].1@ == provider_entries(*m)[i].1,
{
    m.iter().collect()
}

/// indexmap's `IndexMap::len`: the number of entries.
#[verifier::external_body]
fn provider_map_len(m: &IndexMap<String, CatalogProvider>) -> (r: usize)
    ensures
        r == provider_entries(*m).len(),
{
    m.len()
}

/// One provider and its models.
#[derive(Debug)]
pub struct CatalogProvider {
    pub name: String,
    pub api: Option<String>,
    pub npm: Option<String>,
    pub models: IndexMap<String, CatalogModel>,
}

pub struct ProviderView {
    pub name: Seq<char>,
    pub api: Option<Seq<char>>,
    pub npm: Option<Seq<char>>,
    pub models: Seq<(Seq<char>, ModelView)>,
}

impl View for CatalogProvider {
    type V = ProviderView;

    open spec fn view(&self) -> ProviderView {
        ProviderView {
            name: self.name@,
            api: opt_view(self.api),
            npm: opt_view(self.npm),
            models: model_entries(self.models),
        }
    }
}

/// The slim catalog, as cached on disk.
#[derive(Debug)]
pub struct ModelCatalog {
    /// RFC 3339 time of the fetch; empty when unknown.
    pub fetched_at: String,
    pub providers: IndexMap<String, CatalogProvider>,
}

#[verifier::external_type_specification]
#[verifier::external_body]
pub struct ExPath(std::path::Path);

#[verifier::external_type_specification]
#[verifier::external_body]
pub struct ExPathBuf(std::path::PathBuf);

/// std's `Path::join`. Nothing is claimed of the result: how paths join
/// depends on the platform's separator rules.
#[verifier::external_body]
fn path_join(dir: &std::path::Path, file_name: &str) -> (r: std::path::PathBuf)
{
    dir.join(file_name)
}

/// The cache file `file_name` under `dir`.
pub fn cache_path_in(dir: &std::path::Path, file_name: &str) -> (r: std::path::PathBuf)
{
    path_join(dir, file_name)
}

// ---------------------------------------------------------------------------
// Slimming the raw models.dev JSON
// ---------------------------------------------------------------------------

/// A string field of a raw object.
pub fn slim_string(value: &JsonValue, key: &str) -> (r: Option<String>)
    ensures
        opt_view(r) == get_str(Some(value@), key@),
{
    crate::json::str_field(Some(value), key)
}

pub open spec fn u64_or_zero(o: Option<Json>, key: Seq<char>) -> u64 {
    match o {
        Some(j) => match j.get(key) {
            Some(x) => match x.as_u64() { Some(n) => n, None => 0 },
            None => 0,
        },
        None => 0,
    }
}

pub open spec fn bool_or_false(j: Json, key: Seq<char>) -> bool {
    match j.get(key) {
        Some(x) => match x.as_bool() { Some(b) => b, None => false },
        None => false,
    }
}

/// A model slimmed from its raw object: missing fields take safe defaults
/// (the id as name, zero limits, no capabilities).
pub open spec fn spec_slim_model(id: Seq<char>, raw: Json) -> ModelView {
    ModelView {
        name: match get_str(Some(raw), "name"@) { Some(n) => n, None => id },
        limit: CatalogLimit {
            context: u64_or_zero(raw.get("limit"@), "context"@),
            output: u64_or_zero(raw.get("limit"@), "output"@),
        },
        reasoning: bool_or_false(raw, "reasoning"@),
        tool_call: bool_or_false(raw, "tool_call"@),
        attachment: bool_or_false(raw, "attachment"@),
        release_date: get_str(Some(raw), "release_date"@),
        status: get_str(Some(raw), "status"@),
    }
}

fn u64_field_or_zero(o: Option<&JsonValue>, key: &str) -> (r: u64)
    ensures
        r == u64_or_zero(match o { Some(j) => Some(j@), None => None }, key@),
{
    match o {
        Some(j) => match j.get(key) {
            Some(x) => match x.as_u64() {
                Some(n) => n,
                None => 0,
            },
            None => 0,
        },
        None => 0,
    }
}

fn bool_field_or_false(j: &JsonValue, key: &str) -> (r: bool)
    ensures
        r == bool_or_false(j@, key@),
{
    match j.get(key) {
        Some(x) => match x.as_bool() {
            Some(b) => b,
            None => false,
        },
        None => false,
    }
}

pub fn slim_model(id: &str, raw: &JsonValue) -> (r: CatalogModel)
    ensures
        r@ == spec_slim_model(id@, raw@),
{
    let limit = raw.get("limit");
    CatalogModel {
        name: match slim_string(raw, "name") {
            Some(n) => n,
            None => id.to_owned(),
        },
        limit: CatalogLimit {
            context: u64_field_or_zero(limit, "context"),
            output: u64_field_or_zero(limit, "output"),
        },
        reasoning: bool_field_or_false(raw, "reasoning"),
        tool_call: bool_field_or_false(raw, "tool_call"),
        attachment: bool_field_or_false(raw, "attachment"),
        release_date: slim_string(raw, "release_date"),
        status: slim_string(raw, "status"),
    }
}

/// The models of a raw `models` object: each object-valued field, slimmed,
/// in order (a repeated id keeps its first place and its last value).
pub open spec fn spec_slim_models(f: Seq<(Seq<char>, Json)>) -> Seq<(Seq<char>, ModelView)>
    decreases f.len(),
{
    if f.len() == 0 {
        Seq::empty()
    } else {
        let prev = spec_slim_models(f.drop_last());
        let (mid, mval) = f.last();
        if mval.is_object() { entries_insert(prev, mid, spec_slim_model(mid, mval)) } else { prev }
    }
}

/// A provider slimmed from its raw object; `None` without a `name`.
pub open spec fn spec_slim_provider(raw: Json) -> Option<ProviderView> {
    match get_str(Some(raw), "name"@) {
        None => None,
        Some(name) => Some(ProviderView {
            name,
            api: get_str(Some(raw), "api"@),
            npm: get_str(Some(raw), "npm"@),
            models: match raw.get("models"@) {
                Some(Json::Object(f)) => spec_slim_models(f),
                _ => Seq::empty(),
            },
        }),
    }
}

pub fn slim_provider(id: &str, raw: &JsonValue) -> (r: Option<CatalogProvider>)
    ensures
        match spec_slim_provider(raw@) {
            Some(p) => r matches Some(x) && x@ == p,
            None => r is None,
        },
{
    let name = match slim_string(raw, "name") {
        Some(n) => n,
        None => { return None; },
    };
    let api = slim_string(raw, "api");
    let npm = slim_string(raw, "npm");
    let mut models = new_model_map();
    match raw.get("models") {
        Some(JsonValue::Object(f)) => {
            proof { lemma_field_models_of_index(f@); }
            let ghost fm = field_models_of(f@);
            let mut i: usize = 0;
            while i < f.len()
                invariant
                    0 <= i <= f.len(),
                    fm == field_models_of(f@),
                    fm.len() == f@.len(),
                    forall|j: int| 0 <= j < f@.len() ==> #[trigger] fm[j] == (f@[j].0@, f@[j].1@),
                    model_entries(models) == spec_slim_models(fm.take(i as int)),
                decreases f.len() - i,
            {
                assert(fm.take(i + 1).drop_last() =~= fm.take(i as int));
                if f[i].1.is_object() {
                    let m = slim_model(f[i].0.as_str(), &f[i].1);
                    model_map_insert(&mut models, f[i].0.clone(), m);
                }
                i = i + 1;
            }
            assert(fm.take(fm.len() as int) =~= fm);
        },
        _ => {},
    }
    Some(CatalogProvider { name, api, npm, models })
}

/// The providers of a raw catalog: each entry that slims to a provider,
/// in order.
pub open spec fn spec_slim_providers(f: Seq<(Seq<char>, Json)>) -> Seq<(Seq<char>, ProviderView)>
    decreases f.len(),
{
    if f.len() == 0 {
        Seq::empty()
    } else {
        let prev = spec_slim_providers(f.drop_last());
        let (id, pval) = f.last();
        match spec_slim_provider(pval) {
            Some(p) => entries_insert(prev, id, p),
            None => prev,
        }
    }
}

/// The slim catalog of raw models.dev JSON, stamped `fetched_at`.
pub fn slim_catalog_at(raw: &JsonValue, fetched_at: String) -> (r: ModelCatalog)
    ensures
        r.fetched_at@ == fetched_at@,
        provider_entries(r.providers) == match raw@ {
            Json::Object(f) => spec_slim_providers(f),
            _ => Seq::empty(),
        },
{
    let mut providers = new_provider_map();
    match raw {
        JsonValue::Object(f) => {
            proof { lemma_field_models_of_index(f@); }
            let ghost fm = field_models_of(f@);
            let mut i: usize = 0;
            while i < f.len()
                invariant
                    0 <= i <= f.len(),
                    fm == field_models_of(f@),
                    fm.len() == f@.len(),
                    forall|j: int| 0 <= j < f@.len() ==> #[trigger] fm[j] == (f@[j].0@, f@[j].1@),
                    provider_entries(providers) == spec_slim_providers(fm.take(i as int)),
                decreases f.len() - i,
            {
                assert(fm.take(i + 1).drop_last() =~= fm.take(i as int));
                match slim_provider(f[i].0.as_str(), &f[i].1) {
                    Some(p) => provider_map_insert(&mut providers, f[i].0.clone(), p),
                    None => {},
                }
                i = i + 1;
            }
            assert(fm.take(fm.len() as int) =~= fm);
        },
        _ => {},
    }
    ModelCatalog { fetched_at, providers }
}

/// The slim catalog of raw models.dev JSON, stamped with the current time.
pub fn slim_catalog(raw: &JsonValue) -> (r: ModelCatalog)
    ensures
        provider_entries(r.providers) == match raw@ {
            Json::Object(f) => spec_slim_providers(f),
            _ => Seq::empty(),
        },
{
    slim_catalog_at(raw, utc_now_rfc3339())
}

/// A catalog with no providers and no fetch time.
pub fn empty_catalog() -> (r: ModelCatalog)
    ensures
        r.fetched_at@ == Seq::<char>::empty(),
        provider_entries(r.providers).len() == 0,
{
    ModelCatalog { fetched_at: String::new(), providers: new_provider_map() }
}

// ---------------------------------------------------------------------------
// Choosing the copy to use
// ---------------------------------------------------------------------------

/// A cache lists at least 30 providers and has a fetch time.
pub open spec fn spec_healthy(providers: nat, fetched_at: Seq<char>) -> bool {
    providers >= MIN_HEALTHY_PROVIDERS && fetched_at.len() > 0
}

pub fn is_cache_healthy(catalog: &ModelCatalog) -> (r: bool)
    ensures
        r == spec_healthy(provider_entries(catalog.providers).len(), catalog.fetched_at@),
{
    if provider_map_len(&catalog.providers) < MIN_HEALTHY_PROVIDERS {
        return false;
    }
    if catalog.fetched_at.as_str().is_empty() {
        return false;
    }
    true
}

/// `a` sorts after `b` (character by character; a proper prefix sorts
/// first), as `str` comparison orders RFC 3339 UTC times.
pub open spec fn lex_greater(a: Seq<char>, b: Seq<char>) -> bool
    decreases a.len(),
{
    if a.len() == 0 {
        false
    } else if b.len() == 0 {
        true
    } else if a[0] != b[0] {
        (a[0] as u32) > (b[0] as u32)
    } else {
        lex_greater(a.drop_first(), b.drop_first())
    }
}

/// Freshness is a strict order: of two catalogs, at most one counts as
/// fetched after the other, and none after itself.
pub proof fn law_freshness_asymmetric(a: Seq<char>, b: Seq<char>)
    ensures
        !(lex_greater(a, b) && lex_greater(b, a)),
        !lex_greater(a, a),
    decreases a.len(),
{
    if a.len() > 0 && b.len() > 0 && a[0] == b[0] {
        law_freshness_asymmetric(a.drop_first(), b.drop_first());
    }
    if a.len() > 0 {
        law_freshness_asymmetric(a.drop_first(), a.drop_first());
    }
}

/// `a` was fetched after `b`.
pub fn freshest(a: &ModelCatalog, b: &ModelCatalog) -> (r: bool)
    ensures
        r == lex_greater(a.fetched_at@, b.fetched_at@),
{
    let x = crate::text::chars_of(a.fetched_at.as_str());
    let y = crate::text::chars_of(b.fetched_at.as_str());
    let mut i: usize = 0;
    assert(x@.skip(0) =~= x@);
    assert(y@.skip(0) =~= y@);
    while i < x.len() && i < y.len() && x[i] == y[i]
        invariant
            0 <= i <= x.len(),
            i <= y.len(),
            x@ == a.fetched_at@,
            y@ == b.fetched_at@,
            lex_greater(x@, y@) == lex_greater(x@.skip(i as int), y@.skip(i as int)),
        decreases x.len() - i,
    {
        assert(x@.skip(i as int).drop_first() =~= x@.skip(i + 1));
        assert(y@.skip(i as int).drop_first() =~= y@.skip(i + 1));
        i = i + 1;
    }
    if i == x.len() {
        false
    } else if i == y.len() {
        true
    } else {
        (x[i] as u32) > (y[i] as u32)
    }
}

/// Which copy to use: a healthy cache fetched after the embedded snapshot,
/// else the snapshot (and the cache file is to be removed).
pub struct CatalogChoice {
    pub catalog: ModelCatalog,
    pub drop_cache: bool,
}

pub fn choose_catalog(cached: Option<ModelCatalog>, snapshot: ModelCatalog) -> (r: CatalogChoice)
    ensures
        match cached {
            Some(c) => if spec_healthy(provider_entries(c.providers).len(), c.fetched_at@)
                && lex_greater(c.fetched_at@, snapshot.fetched_at@) {
                !r.drop_cache && r.catalog.fetched_at@ == c.fetched_at@
                    && provider_entries(r.catalog.providers) == provider_entries(c.providers)
            } else {
                r.drop_cache && r.catalog.fetched_at@ == snapshot.fetched_at@
                    && provider_entries(r.catalog.providers) == provider_entries(snapshot.providers)
            },
            None => r.drop_cache && r.catalog.fetched_at@ == snapshot.fetched_at@
                && provider_entries(r.catalog.providers) == provider_entries(snapshot.providers),
        },
{
    match cached {
        Some(c) => {
            if is_cache_healthy(&c) && freshest(&c, &snapshot) {
                CatalogChoice { catalog: c, drop_cache: false }
            } else {
                CatalogChoice { catalog: snapshot, drop_cache: true }
            }
        },
        None => CatalogChoice { catalog: snapshot, drop_cache: true },
    }
}

// ---------------------------------------------------------------------------
// Resolving for the UI
// ---------------------------------------------------------------------------

/// Official endpoints of providers whose catalog entry has no usable `api`.
pub open spec fn spec_fallbacks() -> Seq<(Seq<char>, Seq<char>)> {
    seq![
        ("anthropic"@, "https://api.anthropic.com"@),
        ("openai"@, "https://api.openai.com/v1"@),
        ("google"@, "https://generativelanguage.googleapis.com/v1beta/openai"@),
        ("xai"@, "https://api.x.ai/v1"@),
        ("mistral"@, "https://api.mistral.ai/v1"@),
        ("groq"@, "https://api.groq.com/openai/v1"@),
        ("cohere"@, "https://api.cohere.ai/compatibility/v1"@),
        ("perplexity"@, "https://api.perplexity.ai"@),
        ("togetherai"@, "https://api.together.xyz/v1"@),
        ("deepinfra"@, "https://api.deepinfra.com/v1/openai"@),
        ("cerebras"@, "https://api.cerebras.ai/v1"@),
        ("v0"@, "https://api.v0.dev/v1"@),
        ("vercel"@, "https://ai-gateway.vercel.sh/v1"@),
    ]
}

pub fn official_api_fallbacks() -> (r: Vec<(&'static str, &'static str)>)
    ensures
        r@.len() == spec_fallbacks().len(),
        forall|i: int| 0 <= i < r@.len() ==> (#[trigger] r@[i]).0@ == spec_fallbacks()[i].0
            && r@[i].1@ == spec_fallbacks()[i].1,
{
    vec![
        ("anthropic", "https://api.anthropic.com"),
        ("openai", "https://api.openai.com/v1"),
        ("google", "https://generativelanguage.googleapis.com/v1beta/openai"),
        ("xai", "https://api.x.ai/v1"),
        ("mistral", "https://api.mistral.ai/v1"),
        ("groq", "https://api.groq.com/openai/v1"),
        ("cohere", "https://api.cohere.ai/compatibility/v1"),
        ("perplexity", "https://api.perplexity.ai"),
        ("togetherai", "https://api.together.xyz/v1"),
        ("deepinfra", "https://api.deepinfra.com/v1/openai"),
        ("cerebras", "https://api.cerebras.ai/v1"),
        ("v0", "https://api.v0.dev/v1"),
        ("vercel", "https://ai-gateway.vercel.sh/v1"),
    ]
}

/// The official endpoint listed first for `id`, if any (and not empty).
pub open spec fn spec_fallback_for(t: Seq<(Seq<char>, Seq<char>)>, id: Seq<char>) -> Option<Seq<char>>
    decreases t.len(),
{
    if t.len() == 0 {
        None
    } else if t[0].0 == id {
        if t[0].1.len() > 0 { Some(t[0].1) } else { None }
    } else {
        spec_fallback_for(t.drop_first(), id)
    }
}

/// A provider's endpoint: its own `api` when set and free of `${`
/// placeholders, else the official fallback of its id.
pub open spec fn spec_resolve_endpoint(id: Seq<char>, p: ProviderView) -> Option<Seq<char>> {
    match p.api {
        Some(api) => if api.len() > 0 && !spec_contains(api, "${"@) {
            Some(api)
        } else {
            spec_fallback_for(spec_fallbacks(), id)
        },
        None => spec_fallback_for(spec_fallbacks(), id),
    }
}

pub fn resolve_endpoint(provider_id: &str, p: &CatalogProvider) -> (r: Option<String>)
    ensures
        opt_view(r) == spec_resolve_endpoint(provider_id@, p@),
{
    match &p.api {
        Some(api) => {
            if !api.as_str().is_empty() && !str_contains(api.as_str(), "${") {
                return Some(api.clone());
            }
        },
        None => {},
    }
    let table = official_api_fallbacks();
    let ghost t = spec_fallbacks();
    let mut i: usize = 0;
    assert(t.skip(0) =~= t);
    assert(spec_resolve_endpoint(provider_id@, p@) == spec_fallback_for(t, provider_id@));
    while i < table.len()
        invariant
            0 <= i <= table@.len(),
            t == spec_fallbacks(),
            spec_resolve_endpoint(provider_id@, p@) == spec_fallback_for(t, provider_id@),
            table@.len() == t.len(),
            forall|j: int| 0 <= j < table@.len() ==> (#[trigger] table@[j]).0@ == t[j].0 && table@[j].1@ == t[j].1,
            spec_fallback_for(t, provider_id@) == spec_fallback_for(t.skip(i as int), provider_id@),
        decreases table.len() - i,
    {
        assert(t.skip(i as int).drop_first() =~= t.skip(i + 1));
        assert(t.skip(i as int)[0] == t[i as int]);
        let (k, v) = table[i];
        if str_eq(k, provider_id) {
            if v.is_empty() {
                return None;
            }
            return Some(v.to_owned());
        }
        i = i + 1;
    }
    None
}

/// Wire format to use for a provider's SDK package.
pub open spec fn spec_suggested_format(npm: Option<Seq<char>>) -> Seq<char> {
    if npm == Some("@ai-sdk/anthropic"@) { "anthropic_messages"@ } else { "openai_chat"@ }
}

pub fn suggested_api_format(npm: Option<&str>) -> (r: &'static str)
    ensures
        r@ == spec_suggested_format(match npm { Some(s) => Some(s@), None => None }),
{
    match npm {
        Some(s) => if str_eq(s, "@ai-sdk/anthropic") { "anthropic_messages" } else { "openai_chat" },
        None => "openai_chat",
    }
}

/// A model is listed when it calls tools and is not deprecated.
pub open spec fn spec_listable(m: ModelView) -> bool {
    m.status != Some("deprecated"@) && m.tool_call
}

pub fn is_listable_model(m: &CatalogModel) -> (r: bool)
    ensures
        r == spec_listable(m@),
{
    let deprecated = match &m.status {
        Some(s) => str_eq(s.as_str(), "deprecated"),
        None => false,
    };
    !deprecated && m.tool_call
}

/// A model as the UI lists it.
#[derive(Debug, Clone)]
pub struct ResolvedModel {
    pub id: String,
    pub name: String,
    pub context_window: u64,
    pub output_limit: u64,
    pub reasoning: bool,
    pub tool_call: bool,
    pub vision: bool,
    pub release_date: Option<String>,
    pub status: Option<String>,
}

/// `r` lists model `m` under `id` (`vision` is the attachment flag).
pub open spec fn is_resolved_model(r: ResolvedModel, id: Seq<char>, m: ModelView) -> bool {
    &&& r.id@ == id
    &&& r.name@ == m.name
    &&& r.context_window == m.limit.context
    &&& r.output_limit == m.limit.output
    &&& r.reasoning == m.reasoning
    &&& r.tool_call == m.tool_call
    &&& r.vision == m.attachment
    &&& opt_view(r.release_date) == m.release_date
    &&& opt_view(r.status) == m.status
}

pub fn resolve_model(id: &str, m: &CatalogModel) -> (r: ResolvedModel)
    ensures
        is_resolved_model(r, id@, m@),
{
    ResolvedModel {
        id: id.to_owned(),
        name: m.name.clone(),
        context_window: m.limit.context,
        output_limit: m.limit.output,
        reasoning: m.reasoning,
        tool_call: m.tool_call,
        vision: m.attachment,
        release_date: copy_opt(&m.release_date),
        status: copy_opt(&m.status),
    }
}

/// A provider as the UI lists it.
#[derive(Debug, Clone)]
pub struct ResolvedProvider {
    pub id: String,
    pub name: String,
    pub endpoint: String,
    pub npm: Option<String>,
    pub suggested_api_format: String,
    pub models: Vec<ResolvedModel>,
}

/// The UI view of a catalog.
#[derive(Debug, Clone)]
pub struct ResolvedCatalog {
    pub fetched_at: String,
    pub providers: Vec<ResolvedProvider>,
}

/// The listable models of a provider, in order.
pub open spec fn spec_listed(ms: Seq<(Seq<char>, ModelView)>) -> Seq<(Seq<char>, ModelView)> {
    ms.filter(listable_pred())
}

pub open spec fn listable_pred() -> spec_fn((Seq<char>, ModelView)) -> bool {
    |e: (Seq<char>, ModelView)| spec_listable(e.1)
}

/// One step of `Seq::filter`.
pub proof fn lemma_filter_step<A>(s: Seq<A>, p: spec_fn(A) -> bool)
    requires
        s.len() > 0,
    ensures
        s.filter(p) == if p(s.last()) { s.drop_last().filter(p).push(s.last()) } else { s.drop_last().filter(p) },
{
    reveal(Seq::filter);
}

/// `r` lists exactly the listed models of `ms`, in order.
pub open spec fn lists_models(r: Seq<ResolvedModel>, ms: Seq<(Seq<char>, ModelView)>) -> bool {
    &&& r.len() == spec_listed(ms).len()
    &&& forall|i: int| 0 <= i < r.len() ==> is_resolved_model(#[trigger] r[i], spec_listed(ms)[i].0, spec_listed(ms)[i].1)
}

fn resolve_models(p: &CatalogProvider) -> (r: Vec<ResolvedModel>)
    ensures
        lists_models(r@, model_entries(p.models)),
{
    let entries = model_map_iter(&p.models);
    let ghost ms = model_entries(p.models);
    let mut out: Vec<ResolvedModel> = Vec::new();
    let mut i: usize = 0;
    while i < entries.len()
        invariant
            0 <= i <= entries@.len(),
            ms == model_entries(p.models),
            entries@.len() == ms.len(),
            forall|j: int| 0 <= j < entries@.len() ==> (#[trigger] entries@[j]).0@ == ms[j].0 && entries@[j].1@ == ms[j].1,
            lists_models(out@, ms.take(i as int)),
        decreases entries.len() - i,
    {
        let (mid, m) = entries[i];
        let ghost before = out@;
        proof {
            let t = ms.take(i as int);
            let t1 = ms.take(i + 1);
            assert(t1.drop_last() =~= t);
            assert(t1.last() == ms[i as int]);
            lemma_filter_step(t1, listable_pred());
        }
        if is_listable_model(m) {
            let rm = resolve_model(mid.as_str(), m);
            out.push(rm);
            assert(out@.drop_last() =~= before);
        }
        i = i + 1;
    }
    assert(ms.take(ms.len() as int) =~= ms);
    out
}

/// `r` resolves provider `p` listed under `id` to `endpoint`.
pub open spec fn is_resolved_provider(r: ResolvedProvider, id: Seq<char>, p: ProviderView, endpoint: Seq<char>) -> bool {
    &&& r.id@ == id
    &&& r.name@ == p.name
    &&& r.endpoint@ == endpoint
    &&& opt_view(r.npm) == p.npm
    &&& r.suggested_api_format@ == spec_suggested_format(p.npm)
    &&& lists_models(r.models@, p.models)
}

/// Provider entries the UI shows: those with an endpoint and at least one
/// listed model.
pub open spec fn spec_shown(ps: Seq<(Seq<char>, ProviderView)>) -> Seq<(Seq<char>, ProviderView)> {
    ps.filter(shown_pred())
}

pub open spec fn shown_pred() -> spec_fn((Seq<char>, ProviderView)) -> bool {
    |e: (Seq<char>, ProviderView)| spec_resolve_endpoint(e.0, e.1) is Some && spec_listed(e.1.models).len() > 0
}

/// The UI view of a catalog: providers without a reachable endpoint or
/// without listed models are dropped; the rest keep their order.
pub fn resolve_catalog(catalog: &ModelCatalog) -> (r: ResolvedCatalog)
    ensures
        r.fetched_at@ == catalog.fetched_at@,
        r.providers@.len() == spec_shown(provider_entries(catalog.providers)).len(),
        forall|i: int| 0 <= i < r.providers@.len() ==> {
            let e = #[trigger] spec_shown(provider_entries(catalog.providers))[i];
            is_resolved_provider(r.providers@[i], e.0, e.1, spec_resolve_endpoint(e.0, e.1)->Some_0)
        },
{
    let entries = provider_map_iter(&catalog.providers);
    let ghost ps = provider_entries(catalog.providers);
    let mut out: Vec<ResolvedProvider> = Vec::new();
    let mut i: usize = 0;
    while i < entries.len()
        invariant
            0 <= i <= entries@.len(),
            ps == provider_entries(catalog.providers),
            entries@.len() == ps.len(),
            forall|j: int| 0 <= j < entries@.len() ==> (#[trigger] entries@[j]).0@ == ps[j].0 && entries@[j].1@ == ps[j].1,
            out@.len() == spec_shown(ps.take(i as int)).len(),
            forall|k: int| 0 <= k < out@.len() ==> {
                let e = #[trigger] spec_shown(ps.take(i as int))[k];
                is_resolved_provider(out@[k], e.0, e.1, spec_resolve_endpoint(e.0, e.1)->Some_0)
            },
        decreases entries.len() - i,
    {
        let (id, p) = entries[i];
        let ghost before = out@;
        proof {
            let t = ps.take(i as int);
            let t1 = ps.take(i + 1);
            assert(t1.drop_last() =~= t);
            assert(t1.last() == ps[i as int]);
            lemma_filter_step(t1, shown_pred());
        }
        match resolve_endpoint(id.as_str(), p) {
            None => {},
            Some(endpoint) => {
                let models = resolve_models(p);
                if models.len() > 0 {
                    let npm_ref: Option<&str> = match &p.npm {
                        Some(s) => Some(s.as_str()),
                        None => None,
                    };
                    let fmt = suggested_api_format(npm_ref);
                    out.push(ResolvedProvider {
                        id: id.clone(),
                        name: p.name.clone(),
                        endpoint,
                        npm: copy_opt(&p.npm),
                        suggested_api_format: fmt.to_owned(),
                        models,
                    });
                    assert(out@.drop_last() =~= before);
                }
            },
        }
        i = i + 1;
    }
    assert(ps.take(ps.len() as int) =~= ps);
    ResolvedCatalog { fetched_at: catalog.fetched_at.clone(), providers: out }
}

// ---------------------------------------------------------------------------
// Refresh sanity and the embedded snapshot
// ---------------------------------------------------------------------------

/// Number of models over all provider entries.
pub open spec fn spec_total_models(ps: Seq<(Seq<char>, ProviderView)>) -> nat
    decreases ps.len(),
{
    if ps.len() == 0 { 0 } else { spec_total_models(ps.drop_last()) + ps.last().1.models.len() }
}

/// indexmap's `IndexMap::len` on a model map.
#[verifier::external_body]
fn model_map_len(m: &IndexMap<String, CatalogModel>) -> (r: usize)
    ensures
        r == model_entries(*m).len(),
{
    m.len()
}

/// A refreshed catalog is kept only with at least 50 providers and 1000
/// models; otherwise the message says which count fell short.
pub fn check_refresh_sanity(catalog: &ModelCatalog) -> (r: Result<(), String>)
    ensures
        ({
            let ps = provider_entries(catalog.providers);
            &&& ps.len() < MIN_SANE_PROVIDERS ==> (r matches Err(m) && m@ == "refresh: sanity check failed — got "@
                + spec_decimal(ps.len()) + " providers, expected >= 50"@)
            &&& ps.len() >= MIN_SANE_PROVIDERS && spec_total_models(ps) < MIN_SANE_MODELS ==> (r matches Err(m)
                && m@ == "refresh: sanity check failed — got "@ + spec_decimal(spec_total_models(ps)) + " models, expected >= 1000"@)
            &&& ps.len() >= MIN_SANE_PROVIDERS && spec_total_models(ps) >= MIN_SANE_MODELS ==> r is Ok
        }),
{
    let entries = provider_map_iter(&catalog.providers);
    let ghost ps = provider_entries(catalog.providers);
    let mut total: usize = 0;
    let mut i: usize = 0;
    while i < entries.len()
        invariant
            0 <= i <= entries@.len(),
            ps == provider_entries(catalog.providers),
            entries@.len() == ps.len(),
            forall|j: int| 0 <= j < entries@.len() ==> (#[trigger] entries@[j]).0@ == ps[j].0 && entries@[j].1@ == ps[j].1,
            total as nat == if spec_total_models(ps.take(i as int)) >= usize::MAX { usize::MAX as nat }
                else { spec_total_models(ps.take(i as int)) },
        decreases entries.len() - i,
    {
        assert(ps.take(i + 1).drop_last() =~= ps.take(i as int));
        let n = model_map_len(&entries[i].1.models);
        total = total.saturating_add(n);
        i = i + 1;
    }
    assert(ps.take(ps.len() as int) =~= ps);
    let count = provider_map_len(&catalog.providers);
    if count < MIN_SANE_PROVIDERS {
        let a = concat_str("refresh: sanity check failed — got ", u64_to_string(count as u64).as_str());
        return Err(concat_str(a.as_str(), " providers, expected >= 50"));
    }
    if total < MIN_SANE_MODELS {
        let a = concat_str("refresh: sanity check failed — got ", u64_to_string(total as u64).as_str());
        return Err(concat_str(a.as_str(), " models, expected >= 1000"));
    }
    Ok(())
}

/// flate2's `GzDecoder` read to a string.
pub uninterp spec fn gunzip_text(b: Seq<u8>) -> Option<Seq<char>>;

/// flate2's `GzDecoder::new(bytes).read_to_string`: the decompressed text,
/// or the error's message. Claimed: a success holds `gunzip_text(bytes)`
/// and a failure means `gunzip_text(bytes)` is `None`; the message is not
/// described.
#[verifier::external_body]
fn gunzip_to_string(bytes: &[u8]) -> (r: Result<String, String>)
    ensures
        match r {
            Ok(s) => gunzip_text(bytes@) == Some(s@),
            Err(_) => gunzip_text(bytes@) is None,
        },
{
    let mut decoder = flate2::read::GzDecoder::new(bytes);
    let mut json = String::new();
    match decoder.read_to_string(&mut json) {
        Ok(_) => Ok(json),
        Err(e) => Err(e.to_string()),
    }
}

/// The JSON text of a gzipped catalog snapshot; a failure is reported as
/// `decompress embedded: <reason>`.
pub fn decompress_snapshot(bytes: &[u8]) -> (r: Result<String, String>)
    ensures
        match r {
            Ok(s) => gunzip_text(bytes@) == Some(s@),
            Err(m) => gunzip_text(bytes@) is None && "decompress embedded: "@.is_prefix_of(m@),
        },
{
    match gunzip_to_string(bytes) {
        Ok(s) => Ok(s),
        Err(e) => {
            let m = concat_str("decompress embedded: ", e.as_str());
            proof {
                let p = "decompress embedded: "@;
                assert(m@.subrange(0, p.len() as int) =~= p);
            }
            Err(m)
        },
    }
}

} // verus!
