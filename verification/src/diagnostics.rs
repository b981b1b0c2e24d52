//! Diagnostics of the desktop app: the report configuration, the saved
//! error report and its index line, the `README-FOR-LLM.md` text, and the
//! small name mappings the report flow uses. Files are read and written
//! outside this module; it only computes their text.

use vstd::prelude::*;
use vstd::utf8::*;
use vstd::string::StringSliceAdditionalSpecFns;
use crate::console::ConsoleEntry;
use crate::error::{ChatErrorKind, ErrorContext, spec_kind_name, spec_kind_label, spec_kind_hint};
use crate::json::{Json, JsonNum, JsonNumber, JsonValue, get_str};
use crate::json_write::{json_text, to_json_string};
use crate::recorder::RecordingContext;
use crate::clock::{now_millis, now_nanos, utc_now_rfc3339, utc_now_stamp};
use crate::json_write::hex_digit;
use crate::text::{chars_of, concat_str, i64_to_string, spec_decimal, spec_signed_decimal, str_eq, string_of, u64_to_string};
use crate::tool::{copy_opt, opt_view};
use crate::types::{ChatMessage, ChatRole, spec_role_name};

verus! {

/// User-facing diagnostic toggles.
#[derive(Debug, Clone, Copy, PartialEq, Eq, Structural)]
pub struct DiagnosticConfig {
    /// Write a report file on every error.
    pub auto_snapshot: bool,
    /// Largest raw response shown in a report, in bytes.
    pub max_report_bytes: usize,
    /// Record successful rounds to disk too.
    pub record_successful_rounds: bool,
}

impl Default for DiagnosticConfig {
    /// Auto-snapshot off, 5 MiB per report, successful rounds not recorded.
    fn default() -> (r: DiagnosticConfig)
        ensures
            r == (DiagnosticConfig { auto_snapshot: false, max_report_bytes: 5242880, record_successful_rounds: false }),
    {
        DiagnosticConfig { auto_snapshot: false, max_report_bytes: 5 * 1024 * 1024, record_successful_rounds: false }
    }
}

/// `[A-Za-z0-9_-]` is kept in file names; anything else becomes `_`.
pub open spec fn sanitize_char(c: char) -> char {
    if ('a' <= c && c <= 'z') || ('A' <= c && c <= 'Z') || ('0' <= c && c <= '9') || c == '-' || c == '_' {
        c
    } else {
        '_'
    }
}

/// A recording id made safe for a file name.
pub fn sanitize_id(s: &str) -> (r: String)
    ensures
        r@ == s@.map_values(|c: char| sanitize_char(c)),
{
    let cs = chars_of(s);
    let mut out: Vec<char> = Vec::new();
    let mut i: usize = 0;
    while i < cs.len()
        invariant
            0 <= i <= cs.len(),
            cs@ == s@,
            out@ == cs@.take(i as int).map_values(|c: char| sanitize_char(c)),
        decreases cs.len() - i,
    {
        let c = cs[i];
        let k = if ('a' <= c && c <= 'z') || ('A' <= c && c <= 'Z') || ('0' <= c && c <= '9') || c == '-' || c == '_' {
            c
        } else {
            '_'
        };
        out.push(k);
        assert(cs@.take(i + 1).map_values(|c: char| sanitize_char(c))
            =~= cs@.take(i as int).map_values(|c: char| sanitize_char(c)).push(sanitize_char(c)));
        i = i + 1;
    }
    assert(cs@.take(cs@.len() as int) =~= cs@);
    string_of(out.as_slice())
}

/// Wire name of a protocol, from either its debug name or its wire name.
pub open spec fn spec_api_format_match(s: Seq<char>) -> Seq<char> {
    if s == "OpenAiChat"@ || s == "openai_chat"@ {
        "openai_chat"@
    } else if s == "OpenAiResponses"@ || s == "openai_responses"@ {
        "openai_responses"@
    } else if s == "Anthropic"@ || s == "anthropic"@ {
        "anthropic"@
    } else {
        "unknown"@
    }
}

pub fn api_format_match(s: &str) -> (r: &'static str)
    ensures
        r@ == spec_api_format_match(s@),
{
    if str_eq(s, "OpenAiChat") || str_eq(s, "openai_chat") {
        "openai_chat"
    } else if str_eq(s, "OpenAiResponses") || str_eq(s, "openai_responses") {
        "openai_responses"
    } else if str_eq(s, "Anthropic") || str_eq(s, "anthropic") {
        "anthropic"
    } else {
        "unknown"
    }
}

/// A known wire name of a protocol, or `unknown`.
pub open spec fn spec_api_format_static(s: Seq<char>) -> Seq<char> {
    if s == "openai_chat"@ || s == "openai_responses"@ || s == "anthropic_messages"@ { s } else { "unknown"@ }
}

pub fn api_format_match_static(s: &str) -> (r: &'static str)
    ensures
        r@ == spec_api_format_static(s@),
{
    if str_eq(s, "openai_chat") {
        "openai_chat"
    } else if str_eq(s, "openai_responses") {
        "openai_responses"
    } else if str_eq(s, "anthropic_messages") {
        "anthropic_messages"
    } else {
        "unknown"
    }
}

/// The error kind named by its wire name; anything else is `Unknown`.
pub open spec fn spec_parse_kind(s: Seq<char>) -> ChatErrorKind {
    if s == "network"@ {
        ChatErrorKind::Network
    } else if s == "auth"@ {
        ChatErrorKind::Auth
    } else if s == "model_not_found"@ {
        ChatErrorKind::ModelNotFound
    } else if s == "bad_request"@ {
        ChatErrorKind::BadRequest
    } else if s == "rate_limit"@ {
        ChatErrorKind::RateLimit
    } else if s == "server_error"@ {
        ChatErrorKind::ServerError
    } else if s == "stream_protocol"@ {
        ChatErrorKind::StreamProtocol
    } else {
        ChatErrorKind::Unknown
    }
}

pub fn parse_kind(s: &str) -> (r: ChatErrorKind)
    ensures
        r == spec_parse_kind(s@),
{
    if str_eq(s, "network") {
        ChatErrorKind::Network
    } else if str_eq(s, "auth") {
        ChatErrorKind::Auth
    } else if str_eq(s, "model_not_found") {
        ChatErrorKind::ModelNotFound
    } else if str_eq(s, "bad_request") {
        ChatErrorKind::BadRequest
    } else if str_eq(s, "rate_limit") {
        ChatErrorKind::RateLimit
    } else if str_eq(s, "server_error") {
        ChatErrorKind::ServerError
    } else if str_eq(s, "stream_protocol") {
        ChatErrorKind::StreamProtocol
    } else {
        ChatErrorKind::Unknown
    }
}

/// Reading a kind back from its wire name gives the same kind: the
/// console stores kinds as names and the report flow parses them.
pub proof fn law_parse_kind_inverts_name(k: ChatErrorKind)
    ensures
        spec_parse_kind(spec_kind_name(k)) == k,
{
    reveal_strlit("network");
    reveal_strlit("auth");
    reveal_strlit("model_not_found");
    reveal_strlit("bad_request");
    reveal_strlit("rate_limit");
    reveal_strlit("server_error");
    reveal_strlit("stream_protocol");
    reveal_strlit("unknown");
    match k {
        ChatErrorKind::Network => {},
        ChatErrorKind::Auth => { assert("auth"@[0] != "network"@[0]); },
        ChatErrorKind::ModelNotFound => {
            assert("model_not_found"@[0] != "network"@[0]);
            assert("model_not_found"@[0] != "auth"@[0]);
        },
        ChatErrorKind::BadRequest => {
            assert("bad_request"@[0] != "network"@[0]);
            assert("bad_request"@[0] != "auth"@[0]);
            assert("bad_request"@[0] != "model_not_found"@[0]);
        },
        ChatErrorKind::RateLimit => {
            assert("rate_limit"@[0] != "network"@[0]);
            assert("rate_limit"@[0] != "auth"@[0]);
            assert("rate_limit"@[0] != "model_not_found"@[0]);
            assert("rate_limit"@[0] != "bad_request"@[0]);
        },
        ChatErrorKind::ServerError => {
            assert("server_error"@[0] != "network"@[0]);
            assert("server_error"@[0] != "auth"@[0]);
            assert("server_error"@[0] != "model_not_found"@[0]);
            assert("server_error"@[0] != "bad_request"@[0]);
            assert("server_error"@[0] != "rate_limit"@[0]);
        },
        ChatErrorKind::StreamProtocol => {
            assert("stream_protocol"@[0] != "network"@[0]);
            assert("stream_protocol"@[0] != "auth"@[0]);
            assert("stream_protocol"@[0] != "model_not_found"@[0]);
            assert("stream_protocol"@[0] != "bad_request"@[0]);
            assert("stream_protocol"@[0] != "rate_limit"@[0]);
            assert("stream_protocol"@[1] != "server_error"@[1]);
        },
        ChatErrorKind::Unknown => {
            assert("unknown"@[0] != "network"@[0]);
            assert("unknown"@[0] != "auth"@[0]);
            assert("unknown"@[0] != "model_not_found"@[0]);
            assert("unknown"@[0] != "bad_request"@[0]);
            assert("unknown"@[0] != "rate_limit"@[0]);
            assert("unknown"@[0] != "server_error"@[0]);
            assert("unknown"@[0] != "stream_protocol"@[0]);
        },
    }
}

/// Text of `README-FOR-LLM.md` before the per-kind recipes.
pub const README_HEAD: &'static str = "# README-FOR-LLM.md — laipe diagnostics\
    \n\
    \n**You are an LLM assistant helping the user debug a laipe app.**This file is generated by the app and explains exactly whereto find the diagnostic data and how to read it. Read this onceat the start of a debug session, then jump to the relevantreport.\
    \n\
    \nschema_version: 1\
    \n\
    \n## Directory layout\
    \n\
    \n```\
    \n<app_log_dir>/\
    \n├── README-FOR-LLM.md        ← this file\
    \n├── INDEX.jsonl              ← one line per saved report; grep this\
    \n├── recordings/\
    \n│   └── <rec-id>/\
    \n│       ├── request.json     ← exact request bytes (auth redacted)\
    \n│       ├── response.bin     ← raw response bytes, concatenated\
    \n│       └── meta.json        ← model, endpoint, conversation_id, turn, byte counts, outcome\
    \n└── reports/\
    \n└── <ts>-<rec-id>.md     ← self-contained .md report for one error\
    \n```\
    \n\
    \nWhere `<app_log_dir>` is the platform-specific Tauri 2 log dir:\
    \n\
    \n- **Windows**: `%LOCALAPPDATA%\\dev.laipe.app\\logs`\
    \n- **macOS**: `~/Library/Logs/dev.laipe.app`\
    \n- **Linux**: `~/.local/share/dev.laipe.app/logs`\
    \n\
    \n## How to read the data\
    \n\
    \n1. **Find the error.** The user will typically paste one of:\
    \n- a `.md` report from `<app_log_dir>/reports/` (preferred — it has all context)\
    \n- a single `console:entry` from the in-app debug console (start with that one if so)\
    \n- a `rec-id` like `rec-1722700000000-1a2b3c4d`\
    \n2. **Read the .md first.** It has YAML frontmatter (ts, kind, model, conversation_id, turn), the error message, the full request, the raw response, and the likely causes for the `ChatErrorKind`.\
    \n3. **Cross-reference `INDEX.jsonl`** if the user asks about a pattern (\"show me all rate limit errors\"). It's one JSON object per line, greppable with `jq` or `grep`.\
    \n4. **The raw `response.bin`** is the bytes the upstream actually sent. If the .md's response section is truncated, you can read the file directly (up to 5 MiB by default).\
    \n\
    \n## Per-`ChatErrorKind` debug recipes\
    \n\
    \nThese are the **same hints** embedded in every saved report's \"Likely causes\" section. The app calls them from `laipe_core::ChatErrorKind::to_debug_hint()` — single source of truth.\
    \n\
    \n";

/// Text of `README-FOR-LLM.md` after the per-kind recipes.
pub const README_TAIL: &'static str = "\
    \n\
    \n## What this is NOT\
    \n\
    \n- **Not a telemetry pipeline.** Nothing is sent off-device. All data is local.\
    \n- **Not a session replay tool.** Each `.md` is one error, not the full conversation timeline.\
    \n- **Not always-on.** The default config records nothing to disk; auto-snapshot is off. The user has to opt in via Settings.\
    \n\
    \n## When updating the schema\
    \n\
    \nIf you (the LLM assistant) recommend changes to the report format, ask the user to bump `README_SCHEMA_VERSION` in `laipe-app/src-tauri/src/diagnostics.rs` so this file regenerates on next start.\
    \n";

// ---------------------------------------------------------------------------
// Report sections
// ---------------------------------------------------------------------------

/// std's `String::from_utf8_lossy` of a byte string.
pub uninterp spec fn utf8_lossy(b: Seq<u8>) -> Seq<char>;

/// std's `String::from_utf8_lossy`: the text of `b`, with each invalid
/// sequence replaced by U+FFFD. Claimed: the result is `utf8_lossy(b)`,
/// and valid UTF-8 is decoded as it is.
#[verifier::external_body]
fn decode_lossy(b: &[u8]) -> (r: String)
    ensures
        r@ == utf8_lossy(b@),
        valid_utf8(b@) ==> r@ == decode_utf8(b@),
{
    String::from_utf8_lossy(b).into_owned()
}

fn push_str(out: &mut Vec<char>, s: &str)
    ensures
        final(out)@ == old(out)@ + s@,
{
    let mut cs = chars_of(s);
    out.append(&mut cs);
}

fn push_decimal(out: &mut Vec<char>, n: u64)
    ensures
        final(out)@ == old(out)@ + spec_decimal(n as nat),
{
    let t = u64_to_string(n);
    push_str(out, t.as_str());
}

/// The response part of a report: a size line, then the (possibly cut)
/// bytes as text in a fenced block.
pub open spec fn spec_response_section(b: Seq<u8>, cap: nat) -> Seq<char> {
    if b.len() == 0 {
        "_No response bytes recorded._"@
    } else if b.len() > cap {
        "_Truncated to first "@ + spec_decimal(cap) + " bytes (full size: "@ + spec_decimal(b.len())
            + " bytes)._\n\n"@ + "```text\n"@ + utf8_lossy(b.take(cap as int)) + "\n```"@
    } else {
        "_Full response: "@ + spec_decimal(b.len()) + " bytes._\n\n"@ + "```text\n"@ + utf8_lossy(b) + "\n```"@
    }
}

pub fn render_response_section(bytes: &[u8], cap: usize) -> (r: String)
    ensures
        r@ == spec_response_section(bytes@, cap as nat),
{
    if bytes.len() == 0 {
        return "_No response bytes recorded._".to_owned();
    }
    let mut out: Vec<char> = Vec::new();
    let truncated = bytes.len() > cap;
    if truncated {
        push_str(&mut out, "_Truncated to first ");
        push_decimal(&mut out, cap as u64);
        push_str(&mut out, " bytes (full size: ");
        push_decimal(&mut out, bytes.len() as u64);
        push_str(&mut out, " bytes)._\n\n");
    } else {
        push_str(&mut out, "_Full response: ");
        push_decimal(&mut out, bytes.len() as u64);
        push_str(&mut out, " bytes._\n\n");
    }
    push_str(&mut out, "```text\n");
    let preview = if truncated {
        let shown = vstd::slice::slice_subrange(bytes, 0, cap);
        assert(shown@ =~= bytes@.take(cap as int));
        decode_lossy(shown)
    } else {
        decode_lossy(bytes)
    };
    push_str(&mut out, preview.as_str());
    push_str(&mut out, "\n```");
    string_of(out.as_slice())
}

/// A message's content in the report: past 800 bytes it is cut there and
/// the full size noted.
pub open spec fn spec_report_content(c: Seq<char>) -> Seq<char> {
    let b = encode_utf8(c);
    if b.len() > 800 {
        decode_utf8(b.take(800)) + "…(_truncated, "@ + spec_decimal(b.len()) + " bytes total_)"@
    } else {
        c
    }
}

/// Byte 800 of a long content falls on a character boundary (the report
/// cuts it there).
pub open spec fn cut_ok(c: Seq<char>) -> bool {
    encode_utf8(c).len() > 800 ==> is_char_boundary(encode_utf8(c), 800)
}

pub open spec fn spec_report_line(i: nat, m: ChatMessage) -> Seq<char> {
    "**["@ + spec_decimal(i) + "] "@ + spec_role_name(m.role) + "**: "@ + spec_report_content(m.content@) + "\n\n"@
}

/// The lines of the first `n` messages.
pub open spec fn spec_report_lines(ms: Seq<ChatMessage>, n: nat) -> Seq<char>
    decreases n,
{
    if n == 0 {
        Seq::empty()
    } else {
        spec_report_lines(ms, (n - 1) as nat) + spec_report_line((n - 1) as nat, ms[n - 1])
    }
}

/// The conversation part of a report.
pub open spec fn spec_conversation_section(ms: Seq<ChatMessage>) -> Seq<char> {
    if ms.len() == 0 {
        "_No conversation context captured._"@
    } else {
        spec_report_lines(ms, ms.len())
    }
}

fn report_content(c: &String) -> (r: String)
    requires
        cut_ok(c@),
    ensures
        r@ == spec_report_content(c@),
{
    let s = c.as_str();
    let n = s.as_bytes().len();
    if n > 800 {
        let (head, _) = s.split_at(800);
        proof {
            broadcast use vstd::utf8::encode_utf8_decode_utf8;
            assert(s@ == c@);
            assert(head.spec_bytes() =~= encode_utf8(c@).subrange(0, 800));
            assert(encode_utf8(head@) =~= encode_utf8(c@).take(800));
            assert(decode_utf8(encode_utf8(head@)) == head@);
            assert(head@ == decode_utf8(encode_utf8(c@).take(800)));
        }
        let mut out = chars_of(head);
        push_str(&mut out, "…(_truncated, ");
        push_decimal(&mut out, n as u64);
        push_str(&mut out, " bytes total_)");
        string_of(out.as_slice())
    } else {
        c.clone()
    }
}

pub fn render_conversation(messages: &[ChatMessage]) -> (r: String)
    requires
        forall|i: int| 0 <= i < messages@.len() ==> cut_ok(#[trigger] messages@[i].content@),
    ensures
        r@ == spec_conversation_section(messages@),
{
    if messages.len() == 0 {
        return "_No conversation context captured._".to_owned();
    }
    let mut out: Vec<char> = Vec::new();
    let mut i: usize = 0;
    while i < messages.len()
        invariant
            0 <= i <= messages@.len(),
            forall|j: int| 0 <= j < messages@.len() ==> cut_ok(#[trigger] messages@[j].content@),
            out@ == spec_report_lines(messages@, i as nat),
        decreases messages.len() - i,
    {
        let m = &messages[i];
        let role: &str = match m.role {
            ChatRole::System => "system",
            ChatRole::User => "user",
            ChatRole::Assistant => "assistant",
            ChatRole::Tool => "tool",
        };
        let content = report_content(&m.content);
        let ghost before = out@;
        push_str(&mut out, "**[");
        push_decimal(&mut out, i as u64);
        push_str(&mut out, "] ");
        push_str(&mut out, role);
        push_str(&mut out, "**: ");
        push_str(&mut out, content.as_str());
        push_str(&mut out, "\n\n");
        assert(out@ =~= before + spec_report_line(i as nat, messages@[i as int]));
        i = i + 1;
    }
    string_of(out.as_slice())
}

// ---------------------------------------------------------------------------
// README-FOR-LLM.md
// ---------------------------------------------------------------------------

/// Schema version of `README-FOR-LLM.md`; the app rewrites the file when
/// the existing one names another version.
pub const README_SCHEMA_VERSION: u32 = 1;

/// The README is rewritten when it is missing or does not name the
/// current schema version (`schema_version: 1`).
pub open spec fn spec_readme_needs_rewrite(existing: Option<Seq<char>>) -> bool {
    match existing {
        Some(t) => !crate::text::spec_contains(t, "schema_version: 1"@),
        None => true,
    }
}

pub fn readme_needs_rewrite(existing: Option<&str>) -> (r: bool)
    ensures
        r == spec_readme_needs_rewrite(opt_str_view(existing)),
{
    match existing {
        Some(t) => !crate::text::str_contains(t, "schema_version: 1"),
        None => true,
    }
}

pub open spec fn spec_all_kinds() -> Seq<ChatErrorKind> {
    seq![
        ChatErrorKind::Network,
        ChatErrorKind::Auth,
        ChatErrorKind::ModelNotFound,
        ChatErrorKind::BadRequest,
        ChatErrorKind::RateLimit,
        ChatErrorKind::ServerError,
        ChatErrorKind::StreamProtocol,
        ChatErrorKind::Unknown,
    ]
}

/// The README section of one kind.
pub open spec fn spec_kind_doc(k: ChatErrorKind) -> Seq<char> {
    "### `"@ + spec_kind_name(k) + "` — "@ + spec_kind_label(k) + "\n\n"@ + spec_kind_hint(k) + "\n"@
}

pub open spec fn spec_kinds_doc(ks: Seq<ChatErrorKind>) -> Seq<char>
    decreases ks.len(),
{
    if ks.len() == 0 {
        Seq::empty()
    } else {
        spec_kinds_doc(ks.drop_last()) + spec_kind_doc(ks.last())
    }
}

/// The whole README: the fixed text around one recipe per error kind.
pub open spec fn spec_readme() -> Seq<char> {
    README_HEAD@ + spec_kinds_doc(spec_all_kinds()) + README_TAIL@
}

pub fn render_readme_for_llm() -> (r: String)
    ensures
        r@ == spec_readme(),
{
    let kinds = ChatErrorKind::all();
    let mut out = chars_of(README_HEAD);
    let mut i: usize = 0;
    while i < kinds.len()
        invariant
            0 <= i <= kinds@.len(),
            kinds@ == spec_all_kinds(),
            out@ == README_HEAD@ + spec_kinds_doc(kinds@.take(i as int)),
        decreases kinds.len() - i,
    {
        let k = kinds[i];
        let ghost before = out@;
        push_str(&mut out, "### `");
        push_str(&mut out, k.as_str());
        push_str(&mut out, "` — ");
        push_str(&mut out, k.label());
        push_str(&mut out, "\n\n");
        push_str(&mut out, k.to_debug_hint());
        push_str(&mut out, "\n");
        assert(kinds@.take(i + 1).drop_last() =~= kinds@.take(i as int));
        assert(out@ =~= before + spec_kind_doc(k));
        i = i + 1;
    }
    assert(kinds@.take(kinds@.len() as int) =~= kinds@);
    push_str(&mut out, README_TAIL);
    string_of(out.as_slice())
}

// ---------------------------------------------------------------------------
// Error report
// ---------------------------------------------------------------------------

pub open spec fn opt_str_view(o: Option<&str>) -> Option<Seq<char>> {
    match o {
        Some(c) => Some(c@),
        None => None,
    }
}

pub open spec fn or_none(o: Option<Seq<char>>) -> Seq<char> {
    match o {
        Some(s) => s,
        None => "(none)"@,
    }
}

pub open spec fn turn_text(t: Option<u32>) -> Seq<char> {
    match t {
        Some(n) => spec_decimal(n as nat),
        None => "(none)"@,
    }
}

pub open spec fn cause_text(c: Option<Seq<char>>) -> Seq<char> {
    match c {
        Some(s) => "\nUnderlying cause: `"@ + s + "`\n"@,
        None => Seq::empty(),
    }
}

/// The markdown text of one error report.
pub open spec fn spec_error_report(
    rec_id: Seq<char>,
    ts_iso: Seq<char>,
    ctx: RecordingContext,
    kind: ChatErrorKind,
    message: Seq<char>,
    cause: Option<Seq<char>>,
    request: Seq<char>,
    response_section: Seq<char>,
    meta: Seq<char>,
    conv_section: Seq<char>,
) -> Seq<char> {
    let label = spec_kind_label(kind);
    "# laipe error report — "@ + label
        + "\n\n---\n\n```yaml\nerror_id: "@ + rec_id
        + "\nts: "@ + ts_iso
        + "\nkind: "@ + spec_kind_name(kind)
        + "\nconversation_id: "@ + or_none(opt_view(ctx.conversation_id))
        + "\nturn: "@ + turn_text(ctx.turn)
        + "\nmodel: "@ + ctx.model@
        + "\napi_format: "@ + ctx.api_format@
        + "\nendpoint: "@ + ctx.endpoint@
        + "\n```\n\n## Error\n\n"@ + label
        + ": "@ + message
        + "\n"@ + cause_text(cause)
        + "\n## Request\n\n<details><summary>Full request body (auth redacted)</summary>\n\n```json\n"@ + request
        + "\n```\n\n</details>\n\n## Response\n\n"@ + response_section
        + "\n\n<details><summary>meta.json (recording metadata)</summary>\n\n```json\n"@ + meta
        + "\n```\n\n</details>\n\n## Likely causes\n\n"@ + spec_kind_hint(kind)
        + "\n\n## Conversation context (this turn)\n\n"@ + conv_section
        + "\n\n---\n\n_Generated by laipe diagnostics. For schema docs and LLM-friendly reading instructions, see `README-FOR-LLM.md` in the same directory._\n"@
}

pub fn render_error_report(
    rec_id: &str,
    ts_iso: &str,
    ctx: &RecordingContext,
    kind: ChatErrorKind,
    message: &str,
    cause: Option<&str>,
    request: &str,
    response_section: &str,
    meta: &str,
    conv_section: &str,
) -> (r: String)
    ensures
        r@ == spec_error_report(rec_id@, ts_iso@, *ctx, kind, message@,
            opt_str_view(cause), request@, response_section@, meta@, conv_section@),
{
    let mut out: Vec<char> = Vec::new();
    push_str(&mut out, "# laipe error report — ");
    push_str(&mut out, kind.label());
    push_str(&mut out, "\n\n---\n\n```yaml\nerror_id: ");
    push_str(&mut out, rec_id);
    push_str(&mut out, "\nts: ");
    push_str(&mut out, ts_iso);
    push_str(&mut out, "\nkind: ");
    push_str(&mut out, kind.as_str());
    push_str(&mut out, "\nconversation_id: ");
    match &ctx.conversation_id {
        Some(c) => push_str(&mut out, c.as_str()),
        None => push_str(&mut out, "(none)"),
    }
    push_str(&mut out, "\nturn: ");
    match ctx.turn {
        Some(t) => push_decimal(&mut out, t as u64),
        None => push_str(&mut out, "(none)"),
    }
    push_str(&mut out, "\nmodel: ");
    push_str(&mut out, ctx.model.as_str());
    push_str(&mut out, "\napi_format: ");
    push_str(&mut out, ctx.api_format.as_str());
    push_str(&mut out, "\nendpoint: ");
    push_str(&mut out, ctx.endpoint.as_str());
    push_str(&mut out, "\n```\n\n## Error\n\n");
    push_str(&mut out, kind.label());
    push_str(&mut out, ": ");
    push_str(&mut out, message);
    push_str(&mut out, "\n");
    match cause {
        Some(c) => {
            push_str(&mut out, "\nUnderlying cause: `");
            push_str(&mut out, c);
            push_str(&mut out, "`\n");
        },
        None => {},
    }
    push_str(&mut out, "\n## Request\n\n<details><summary>Full request body (auth redacted)</summary>\n\n```json\n");
    push_str(&mut out, request);
    push_str(&mut out, "\n```\n\n</details>\n\n## Response\n\n");
    push_str(&mut out, response_section);
    push_str(&mut out, "\n\n<details><summary>meta.json (recording metadata)</summary>\n\n```json\n");
    push_str(&mut out, meta);
    push_str(&mut out, "\n```\n\n</details>\n\n## Likely causes\n\n");
    push_str(&mut out, kind.to_debug_hint());
    push_str(&mut out, "\n\n## Conversation context (this turn)\n\n");
    push_str(&mut out, conv_section);
    push_str(&mut out, "\n\n---\n\n_Generated by laipe diagnostics. For schema docs and LLM-friendly reading instructions, see `README-FOR-LLM.md` in the same directory._\n");
    assert(out@ =~= spec_error_report(rec_id@, ts_iso@, *ctx, kind, message@,
        opt_str_view(cause), request@, response_section@, meta@, conv_section@));
    string_of(out.as_slice())
}

/// One line per saved report in `reports/INDEX.jsonl`.
#[derive(Debug)]
pub struct IndexEntry {
    pub id: String,
    pub ts: String,
    pub conversation_id: Option<String>,
    pub turn: Option<u32>,
    pub kind: Option<String>,
    pub model: Option<String>,
    pub api_format: Option<String>,
    pub endpoint: Option<String>,
    pub message: String,
    pub report_path: String,
}

/// Model of an index line.
pub struct IndexView {
    pub id: Seq<char>,
    pub ts: Seq<char>,
    pub conversation_id: Option<Seq<char>>,
    pub turn: Option<u32>,
    pub kind: Option<Seq<char>>,
    pub model: Option<Seq<char>>,
    pub api_format: Option<Seq<char>>,
    pub endpoint: Option<Seq<char>>,
    pub message: Seq<char>,
    pub report_path: Seq<char>,
}

impl View for IndexEntry {
    type V = IndexView;

    open spec fn view(&self) -> IndexView {
        IndexView {
            id: self.id@,
            ts: self.ts@,
            conversation_id: opt_view(self.conversation_id),
            turn: self.turn,
            kind: opt_view(self.kind),
            model: opt_view(self.model),
            api_format: opt_view(self.api_format),
            endpoint: opt_view(self.endpoint),
            message: self.message@,
            report_path: self.report_path@,
        }
    }
}

pub open spec fn opt_str_json(o: Option<Seq<char>>) -> Json {
    match o {
        Some(s) => Json::Str(s),
        None => Json::Null,
    }
}

/// Wire shape of an index line: every field, absent ones as `null`.
pub open spec fn spec_index_json(e: IndexView) -> Json {
    Json::Object(seq![
        ("id"@, Json::Str(e.id)),
        ("ts"@, Json::Str(e.ts)),
        ("conversation_id"@, opt_str_json(e.conversation_id)),
        ("turn"@, match e.turn { Some(t) => Json::Number(JsonNum::PosInt(t as u64)), None => Json::Null }),
        ("kind"@, opt_str_json(e.kind)),
        ("model"@, opt_str_json(e.model)),
        ("api_format"@, opt_str_json(e.api_format)),
        ("endpoint"@, opt_str_json(e.endpoint)),
        ("message"@, Json::Str(e.message)),
        ("report_path"@, Json::Str(e.report_path)),
    ])
}

fn opt_json(o: &Option<String>) -> (r: JsonValue)
    ensures
        r@ == opt_str_json(opt_view(*o)),
{
    match o {
        Some(s) => JsonValue::String(s.clone()),
        None => JsonValue::Null,
    }
}

impl IndexEntry {
    /// The entry as one line of JSON text.
    pub fn to_json_line(&self) -> (r: String)
        ensures
            r@ == json_text(spec_index_json(self@)),
    {
        let turn = match self.turn {
            Some(t) => JsonValue::Number(JsonNumber::PosInt(t as u64)),
            None => JsonValue::Null,
        };
        let f: Vec<(String, JsonValue)> = vec![
            ("id".to_owned(), JsonValue::String(self.id.clone())),
            ("ts".to_owned(), JsonValue::String(self.ts.clone())),
            ("conversation_id".to_owned(), opt_json(&self.conversation_id)),
            ("turn".to_owned(), turn),
            ("kind".to_owned(), opt_json(&self.kind)),
            ("model".to_owned(), opt_json(&self.model)),
            ("api_format".to_owned(), opt_json(&self.api_format)),
            ("endpoint".to_owned(), opt_json(&self.endpoint)),
            ("message".to_owned(), JsonValue::String(self.message.clone())),
            ("report_path".to_owned(), JsonValue::String(self.report_path.clone())),
        ];
        proof { crate::json::lemma_field_models_of_index(f@); }
        let ghost fm = crate::json::field_models_of(f@);
        proof {
            match spec_index_json(self@) {
                Json::Object(want) => { assert(fm =~= want); },
                _ => {},
            }
        }
        let v = JsonValue::Object(f);
        assert(v@ == spec_index_json(self@));
        to_json_string(&v)
    }
}

/// A saved report: its file name under `reports/`, its path relative to
/// the log directory, its text, and its index line.
pub struct ErrorReport {
    pub filename: String,
    pub rel_path: String,
    pub body: String,
    pub index_line: String,
}

/// The report of one error, for the given clock readings: `stamp` names
/// the file, `ts_iso` goes in the report and `index_ts` in the index line.
pub fn compose_error_report_at(
    rec_id: &str,
    ctx: &RecordingContext,
    kind: ChatErrorKind,
    message: &str,
    cause: Option<&str>,
    conv_messages: &[ChatMessage],
    request_text: &str,
    response_bytes: &[u8],
    meta_text: &str,
    cap: usize,
    stamp: &str,
    ts_iso: &str,
    index_ts: &str,
) -> (r: ErrorReport)
    requires
        forall|i: int| 0 <= i < conv_messages@.len() ==> cut_ok(#[trigger] conv_messages@[i].content@),
    ensures
        r.filename@ == stamp@ + "-"@ + rec_id@.map_values(|c: char| sanitize_char(c)) + ".md"@,
        r.rel_path@ == "reports/"@ + r.filename@,
        r.body@ == spec_error_report(rec_id@, ts_iso@, *ctx, kind, message@,
            opt_str_view(cause), request_text@,
            spec_response_section(response_bytes@, cap as nat), meta_text@,
            spec_conversation_section(conv_messages@)),
        r.index_line@ == json_text(spec_index_json((IndexView {
            id: rec_id@,
            ts: index_ts@,
            conversation_id: opt_view(ctx.conversation_id),
            turn: ctx.turn,
            kind: Some(spec_kind_name(kind)),
            model: Some(ctx.model@),
            api_format: Some(ctx.api_format@),
            endpoint: Some(ctx.endpoint@),
            message: message@,
            report_path: r.rel_path@,
        }))),
{
    let mut name = chars_of(stamp);
    push_str(&mut name, "-");
    push_str(&mut name, sanitize_id(rec_id).as_str());
    push_str(&mut name, ".md");
    let filename = string_of(name.as_slice());
    let mut rel = chars_of("reports/");
    push_str(&mut rel, filename.as_str());
    let rel_path = string_of(rel.as_slice());
    let response_section = render_response_section(response_bytes, cap);
    let conv_section = render_conversation(conv_messages);
    let body = render_error_report(rec_id, ts_iso, ctx, kind, message, cause, request_text,
        response_section.as_str(), meta_text, conv_section.as_str());
    let entry = IndexEntry {
        id: rec_id.to_owned(),
        ts: index_ts.to_owned(),
        conversation_id: copy_opt(&ctx.conversation_id),
        turn: ctx.turn,
        kind: Some(kind.as_str().to_owned()),
        model: Some(ctx.model.clone()),
        api_format: Some(ctx.api_format.clone()),
        endpoint: Some(ctx.endpoint.clone()),
        message: message.to_owned(),
        report_path: rel_path.clone(),
    };
    let index_line = entry.to_json_line();
    ErrorReport { filename, rel_path, body, index_line }
}

/// The report of one error, stamped with the current time.
pub fn compose_error_report(
    rec_id: &str,
    ctx: &RecordingContext,
    kind: ChatErrorKind,
    message: &str,
    cause: Option<&str>,
    conv_messages: &[ChatMessage],
    request_text: &str,
    response_bytes: &[u8],
    meta_text: &str,
    cap: usize,
) -> (r: ErrorReport)
    requires
        forall|i: int| 0 <= i < conv_messages@.len() ==> cut_ok(#[trigger] conv_messages@[i].content@),
    ensures
        exists|stamp: Seq<char>| r.filename@ == stamp + "-"@ + rec_id@.map_values(|c: char| sanitize_char(c)) + ".md"@,
        r.rel_path@ == "reports/"@ + r.filename@,
        exists|ts_iso: Seq<char>| r.body@ == #[trigger] spec_error_report(rec_id@, ts_iso, *ctx, kind, message@,
            opt_str_view(cause), request_text@,
            spec_response_section(response_bytes@, cap as nat), meta_text@,
            spec_conversation_section(conv_messages@)),
        exists|index_ts: Seq<char>| r.index_line@ == #[trigger] json_text(spec_index_json((IndexView {
            id: rec_id@,
            ts: index_ts,
            conversation_id: opt_view(ctx.conversation_id),
            turn: ctx.turn,
            kind: Some(spec_kind_name(kind)),
            model: Some(ctx.model@),
            api_format: Some(ctx.api_format@),
            endpoint: Some(ctx.endpoint@),
            message: message@,
            report_path: r.rel_path@,
        }))),
{
    let stamp = utc_now_stamp();
    let ts_iso = utc_now_rfc3339();
    let index_ts = utc_now_rfc3339();
    compose_error_report_at(rec_id, ctx, kind, message, cause, conv_messages, request_text, response_bytes,
        meta_text, cap, stamp.as_str(), ts_iso.as_str(), index_ts.as_str())
}

// ---------------------------------------------------------------------------
// Recording lookup and on-demand reports
// ---------------------------------------------------------------------------

/// Lowercase hexadecimal digits of `n`, without leading zeros.
pub open spec fn spec_hex(n: nat) -> Seq<char>
    decreases n,
{
    if n < 16 {
        seq![hex_digit(n as u32)]
    } else {
        spec_hex(n / 16).push(hex_digit((n % 16) as u32))
    }
}

fn push_hex(out: &mut Vec<char>, n: u64)
    ensures
        final(out)@ == old(out)@ + spec_hex(n as nat),
    decreases n,
{
    if n >= 16 {
        push_hex(out, n / 16);
    }
    let d = (n % 16) as u32;
    let c: char = if d < 10 { ((48 + d) as u8) as char } else { ((87 + d) as u8) as char };
    assert(c == hex_digit(d)) by {
        assert(d < 10 ==> ((48 + d) as u8) as char == ((48 + d) as u32) as char);
        assert(d >= 10 ==> ((87 + d) as u8) as char == ((87 + d) as u32) as char);
    }
    let ghost before = out@;
    out.push(c);
    proof {
        if n >= 16 {
            assert(out@ =~= old(out)@ + spec_hex(n as nat));
        } else {
            assert(out@ =~= old(out)@ + spec_hex(n as nat));
        }
    }
}

/// `rec-<millis>-<hex of the low 32 nanosecond bits>`.
pub open spec fn spec_recording_id(ms: i64, nanos_low: u64) -> Seq<char> {
    "rec-"@ + spec_signed_decimal(ms as int) + "-"@ + spec_hex(nanos_low as nat)
}

/// The low 32 bits of a nanosecond clock reading; 0 when the clock could
/// not be read (it was before the Unix epoch).
pub open spec fn spec_nanos_low32(nanos: Option<u128>) -> u64 {
    match nanos {
        Some(n) => (n % 0x1_0000_0000) as u64,
        None => 0,
    }
}

fn nanos_low32(nanos: Option<u128>) -> (r: u64)
    ensures
        r == spec_nanos_low32(nanos),
        r <= 0xFFFF_FFFF,
{
    match nanos {
        Some(n) => {
            let low = n & 0xFFFF_FFFFu128;
            assert(low == n % 0x1_0000_0000 && low <= 0xFFFF_FFFF) by (bit_vector)
                requires low == n & 0xFFFF_FFFFu128;
            low as u64
        },
        None => 0,
    }
}

/// The context of one chat round, for the given clock readings: the time
/// in milliseconds and the nanosecond reading (`None` when the clock is
/// before the epoch).
pub fn recording_context_at(
    conversation_id: Option<String>,
    turn: Option<u32>,
    model: &str,
    endpoint: &str,
    api_format: &str,
    ms: i64,
    nanos: Option<u128>,
    started_at: String,
) -> (r: RecordingContext)
    ensures
        r.id@ == spec_recording_id(ms, spec_nanos_low32(nanos)),
        r.started_at@ == started_at@,
        r.api_format@ == spec_api_format_match(api_format@),
        r.model@ == model@,
        r.endpoint@ == endpoint@,
        opt_view(r.conversation_id) == opt_view(conversation_id),
        r.turn == turn,
{
    let mut id = chars_of("rec-");
    push_str(&mut id, i64_to_string(ms).as_str());
    push_str(&mut id, "-");
    push_hex(&mut id, nanos_low32(nanos));
    RecordingContext {
        id: string_of(id.as_slice()),
        started_at,
        api_format: api_format_match(api_format).to_owned(),
        model: model.to_owned(),
        endpoint: endpoint.to_owned(),
        conversation_id,
        turn,
    }
}

/// The context of one chat round, stamped with the current time.
pub fn new_recording_context(
    conversation_id: Option<String>,
    turn: Option<u32>,
    model: &str,
    endpoint: &str,
    api_format: &str,
) -> (r: RecordingContext)
    ensures
        exists|ms: i64, nanos_low: u64| r.id@ == spec_recording_id(ms, nanos_low),
        r.api_format@ == spec_api_format_match(api_format@),
        r.model@ == model@,
        r.endpoint@ == endpoint@,
        opt_view(r.conversation_id) == opt_view(conversation_id),
        r.turn == turn,
{
    let ms = now_millis();
    let nanos = now_nanos();
    let started_at = utc_now_rfc3339();
    recording_context_at(conversation_id, turn, model, endpoint, api_format, ms, nanos, started_at)
}

/// `meta.turn` as a `u32` (truncated as `as u32` does).
pub open spec fn meta_turn(meta: Json) -> Option<u32> {
    match meta.get("turn"@) {
        Some(t) => match t.as_u64() {
            Some(n) => Some(n as u32),
            None => None,
        },
        None => None,
    }
}

/// A recording's `meta.json` belongs to conversation `conv_id` (an absent
/// id counts as empty) and, when `turn` is given, to that turn.
pub open spec fn spec_recording_matches(meta: Json, conv_id: Seq<char>, turn: Option<u32>) -> bool {
    let mc = match get_str(Some(meta), "conversation_id"@) { Some(s) => s, None => Seq::empty() };
    mc == conv_id && match turn {
        Some(t) => meta_turn(meta) == Some(t),
        None => true,
    }
}

fn meta_turn_exec(meta: &JsonValue) -> (r: Option<u32>)
    ensures
        r == meta_turn(meta@),
{
    match meta.get("turn") {
        Some(t) => match t.as_u64() {
            Some(n) => Some(n as u32),
            None => None,
        },
        None => None,
    }
}

pub fn recording_matches(meta: &JsonValue, conv_id: &str, turn: Option<u32>) -> (r: bool)
    ensures
        r == spec_recording_matches(meta@, conv_id@, turn),
{
    let mc = match crate::json::str_field(Some(meta), "conversation_id") {
        Some(s) => s,
        None => String::new(),
    };
    if !str_eq(mc.as_str(), conv_id) {
        return false;
    }
    match turn {
        Some(t) => match meta_turn_exec(meta) {
            Some(m) => m == t,
            None => false,
        },
        None => true,
    }
}

pub open spec fn or_unknown(o: Option<Seq<char>>) -> Seq<char> {
    match o {
        Some(s) => s,
        None => "(unknown)"@,
    }
}

fn str_or_unknown(meta: &JsonValue, key: &str) -> (r: String)
    ensures
        r@ == or_unknown(get_str(Some(meta@), key@)),
{
    match crate::json::str_field(Some(meta), key) {
        Some(s) => s,
        None => "(unknown)".to_owned(),
    }
}

/// The context of a saved recording, read back from its `meta.json`:
/// missing names read `(unknown)`, and the protocol name is normalised.
pub fn recording_context_from_meta(rec_id: &str, meta: &JsonValue, started_at: String) -> (r: RecordingContext)
    ensures
        r.id@ == rec_id@,
        r.started_at@ == started_at@,
        r.api_format@ == spec_api_format_static(or_unknown(get_str(Some(meta@), "api_format"@))),
        r.model@ == or_unknown(get_str(Some(meta@), "model"@)),
        r.endpoint@ == or_unknown(get_str(Some(meta@), "endpoint"@)),
        opt_view(r.conversation_id) == get_str(Some(meta@), "conversation_id"@),
        r.turn == meta_turn(meta@),
{
    let api_format = str_or_unknown(meta, "api_format");
    RecordingContext {
        id: rec_id.to_owned(),
        started_at,
        api_format: api_format_match_static(api_format.as_str()).to_owned(),
        model: str_or_unknown(meta, "model"),
        endpoint: str_or_unknown(meta, "endpoint"),
        conversation_id: crate::json::str_field(Some(meta), "conversation_id"),
        turn: meta_turn_exec(meta),
    }
}

/// What an on-demand report of a console entry is made of.
pub struct DumpRequest {
    pub kind: ChatErrorKind,
    pub message: String,
    pub cause: Option<String>,
    pub error_context: ErrorContext,
}

fn or_empty(o: &Option<String>) -> (r: String)
    ensures
        r@ == match opt_view(*o) { Some(s) => s, None => Seq::empty() },
{
    match o {
        Some(s) => s.clone(),
        None => String::new(),
    }
}

/// The report inputs of a console entry: its kind (by name; unknown when
/// absent), message and cause, and a context with its digests, its cause
/// and the stage `dump_on_demand`.
pub fn dump_request(entry: &ConsoleEntry) -> (r: DumpRequest)
    ensures
        r.kind == spec_parse_kind(match opt_view(entry.kind) { Some(k) => k, None => "unknown"@ }),
        r.message@ == entry.message@,
        opt_view(r.cause) == opt_view(entry.cause),
        opt_view(r.error_context.request_digest) == Some(match opt_view(entry.request_digest) { Some(s) => s, None => Seq::<char>::empty() }),
        opt_view(r.error_context.response_digest) == Some(match opt_view(entry.response_digest) { Some(s) => s, None => Seq::<char>::empty() }),
        opt_view(r.error_context.cause) == Some(match opt_view(entry.cause) { Some(s) => s, None => Seq::<char>::empty() }),
        opt_view(r.error_context.stage) == Some("dump_on_demand"@),
        r.error_context.upstream_request_id is None,
{
    let kind = match &entry.kind {
        Some(k) => parse_kind(k.as_str()),
        None => parse_kind("unknown"),
    };
    let ctx = ErrorContext::new()
        .with_request_digest(or_empty(&entry.request_digest).as_str())
        .with_response_digest(or_empty(&entry.response_digest).as_str())
        .with_cause(or_empty(&entry.cause).as_str())
        .with_stage("dump_on_demand");
    DumpRequest { kind, message: entry.message.clone(), cause: copy_opt(&entry.cause), error_context: ctx }
}

/// Message when no console entry has the requested id.
pub fn entry_not_found_message(console_id: &str) -> (r: String)
    ensures
        r@ == "console entry not found: "@ + console_id@,
{
    concat_str("console entry not found: ", console_id)
}

/// Message when no recording matches the entry's conversation and turn.
pub fn no_recording_message(console_id: &str) -> (r: String)
    ensures
        r@ == "no on-disk recording matches console entry "@ + console_id@ + " (no matching conversation/turn)"@,
{
    concat_str(concat_str("no on-disk recording matches console entry ", console_id).as_str(),
        " (no matching conversation/turn)")
}

} // verus!
