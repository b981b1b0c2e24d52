//! Diagnostic recording: round outcomes, the response size cap, and the
//! redaction scrubber for request bodies.

use vstd::prelude::*;
use crate::error::{ChatErrorKind, spec_kind_name};
use crate::json::{Json, JsonNum, JsonNumber, JsonValue, field_models_of, lemma_field_models_of_index};
use crate::text::{chars_of, string_of, u64_to_string, spec_decimal};
use crate::tool::{copy_opt, opt_view};

verus! {

/// What terminated a chat round.
#[derive(Debug, Clone, PartialEq, Eq)]
pub enum CompletionOutcome {
    /// Stream ended cleanly.
    Done { text_events: u32, tool_call_events: u32 },
    /// Stream ended on a mid-stream error.
    Error { kind: ChatErrorKind, message: String },
    /// The request never opened, or the upstream answered non-2xx.
    PreStreamFailure { kind: ChatErrorKind, message: String },
    /// Consumer dropped the receiver or the round was cancelled.
    Cancelled,
}

/// One-line label of an outcome.
pub open spec fn spec_outcome_label(o: CompletionOutcome) -> Seq<char> {
    match o {
        CompletionOutcome::Done { text_events, tool_call_events } =>
            "done (text="@ + spec_decimal(text_events as nat) + ", tools="@ + spec_decimal(tool_call_events as nat) + ")"@,
        CompletionOutcome::Error { kind, .. } => "error ("@ + spec_kind_name(kind) + ")"@,
        CompletionOutcome::PreStreamFailure { kind, .. } => "pre-stream failure ("@ + spec_kind_name(kind) + ")"@,
        CompletionOutcome::Cancelled => "cancelled"@,
    }
}

fn push_str(acc: &mut Vec<char>, s: &str)
    ensures
        final(acc)@ == old(acc)@ + s@,
{
    let mut v = chars_of(s);
    acc.append(&mut v);
}

impl CompletionOutcome {
    /// One-line label suitable for log lines and the saved report, such as
    /// `done (text=2, tools=0)` or `error (rate_limit)`.
    pub fn label(&self) -> (r: String)
        ensures
            r@ == spec_outcome_label(*self),
    {
        let mut out: Vec<char> = Vec::new();
        match self {
            CompletionOutcome::Done { text_events, tool_call_events } => {
                push_str(&mut out, "done (text=");
                push_str(&mut out, u64_to_string(*text_events as u64).as_str());
                push_str(&mut out, ", tools=");
                push_str(&mut out, u64_to_string(*tool_call_events as u64).as_str());
                push_str(&mut out, ")");
            },
            CompletionOutcome::Error { kind, .. } => {
                push_str(&mut out, "error (");
                push_str(&mut out, kind.as_str());
                push_str(&mut out, ")");
            },
            CompletionOutcome::PreStreamFailure { kind, .. } => {
                push_str(&mut out, "pre-stream failure (");
                push_str(&mut out, kind.as_str());
                push_str(&mut out, ")");
            },
            CompletionOutcome::Cancelled => {
                push_str(&mut out, "cancelled");
            },
        }
        string_of(out.as_slice())
    }
}


/// Per-round recording context. `started_at` is the RFC 3339 time the
/// round started.
#[derive(Debug)]
pub struct RecordingContext {
    /// Unique id; names the recording directory.
    pub id: String,
    pub started_at: String,
    /// Wire name of the protocol.
    pub api_format: String,
    pub model: String,
    pub endpoint: String,
    pub conversation_id: Option<String>,
    /// Agent-loop turn (0-based).
    pub turn: Option<u32>,
}


/// The recorder that records nothing (the default when no diagnostics are
/// wanted).
pub struct NullRecorder;

/// Largest response a recording keeps by default: 5 MiB.
pub const DEFAULT_MAX_RESPONSE_BYTES: usize = 5242880;

/// What `meta.json` of a recording holds.
#[derive(Debug)]
pub struct MetaRecord {
    pub id: String,
    pub started_at: String,
    pub api_format: String,
    pub model: String,
    pub endpoint: String,
    pub conversation_id: Option<String>,
    pub turn: Option<u32>,
    pub request_bytes: usize,
    pub response_bytes: usize,
    pub truncated: bool,
    /// `in_progress` until the round ends, then the outcome's label.
    pub outcome: String,
}

pub open spec fn opt_json_str(o: Option<String>) -> Json {
    match o {
        Some(s) => Json::Str(s@),
        None => Json::Null,
    }
}

/// Wire shape of `meta.json`: every field in order, absent ones `null`.
pub open spec fn spec_meta_json(m: MetaRecord) -> Json {
    Json::Object(seq![
        ("id"@, Json::Str(m.id@)),
        ("started_at"@, Json::Str(m.started_at@)),
        ("api_format"@, Json::Str(m.api_format@)),
        ("model"@, Json::Str(m.model@)),
        ("endpoint"@, Json::Str(m.endpoint@)),
        ("conversation_id"@, opt_json_str(m.conversation_id)),
        ("turn"@, match m.turn { Some(t) => Json::Number(JsonNum::PosInt(t as u64)), None => Json::Null }),
        ("request_bytes"@, Json::Number(JsonNum::PosInt(m.request_bytes as u64))),
        ("response_bytes"@, Json::Number(JsonNum::PosInt(m.response_bytes as u64))),
        ("truncated"@, Json::Bool(m.truncated)),
        ("outcome"@, Json::Str(m.outcome@)),
    ])
}

fn opt_str_value(o: &Option<String>) -> (r: JsonValue)
    ensures
        r@ == opt_json_str(*o),
{
    match o {
        Some(s) => JsonValue::String(s.clone()),
        None => JsonValue::Null,
    }
}

impl MetaRecord {
    /// The record as a JSON object.
    pub fn to_json(&self) -> (r: JsonValue)
        ensures
            r@ == spec_meta_json(*self),
    {
        let turn = match self.turn {
            Some(t) => JsonValue::Number(JsonNumber::PosInt(t as u64)),
            None => JsonValue::Null,
        };
        let f: Vec<(String, JsonValue)> = vec![
            ("id".to_owned(), JsonValue::String(self.id.clone())),
            ("started_at".to_owned(), JsonValue::String(self.started_at.clone())),
            ("api_format".to_owned(), JsonValue::String(self.api_format.clone())),
            ("model".to_owned(), JsonValue::String(self.model.clone())),
            ("endpoint".to_owned(), JsonValue::String(self.endpoint.clone())),
            ("conversation_id".to_owned(), opt_str_value(&self.conversation_id)),
            ("turn".to_owned(), turn),
            ("request_bytes".to_owned(), JsonValue::Number(JsonNumber::PosInt(self.request_bytes as u64))),
            ("response_bytes".to_owned(), JsonValue::Number(JsonNumber::PosInt(self.response_bytes as u64))),
            ("truncated".to_owned(), JsonValue::Bool(self.truncated)),
            ("outcome".to_owned(), JsonValue::String(self.outcome.clone())),
        ];
        proof { lemma_field_models_of_index(f@); }
        let ghost fm = field_models_of(f@);
        proof {
            match spec_meta_json(*self) {
                Json::Object(want) => { assert(fm =~= want); },
                _ => {},
            }
        }
        JsonValue::Object(f)
    }
}

/// Bytes of a chunk a recording accepts (see `OpenRecording::accept_chunk`).
pub open spec fn spec_accepted(written: usize, truncated: bool, chunk_len: usize, max: usize) -> usize {
    if truncated || written >= max {
        0
    } else if chunk_len <= max - written {
        chunk_len
    } else {
        (max - written) as usize
    }
}

/// One recording between its request and its completion.
#[derive(Debug)]
pub struct OpenRecording {
    /// Response bytes written so far.
    pub written: usize,
    /// A chunk was cut or dropped at the size cap.
    pub truncated: bool,
    pub meta: MetaRecord,
}

impl OpenRecording {
    /// A recording whose request of `request_bytes` bytes was written:
    /// nothing of the response yet, outcome `in_progress`.
    pub fn start(ctx: &RecordingContext, request_bytes: usize) -> (r: OpenRecording)
        ensures
            r.written == 0,
            !r.truncated,
            r.meta.id@ == ctx.id@,
            r.meta.started_at@ == ctx.started_at@,
            r.meta.api_format@ == ctx.api_format@,
            r.meta.model@ == ctx.model@,
            r.meta.endpoint@ == ctx.endpoint@,
            opt_view(r.meta.conversation_id) == opt_view(ctx.conversation_id),
            r.meta.turn == ctx.turn,
            r.meta.request_bytes == request_bytes,
            r.meta.response_bytes == 0,
            !r.meta.truncated,
            r.meta.outcome@ == "in_progress"@,
    {
        OpenRecording {
            written: 0,
            truncated: false,
            meta: MetaRecord {
                id: ctx.id.clone(),
                started_at: ctx.started_at.clone(),
                api_format: ctx.api_format.clone(),
                model: ctx.model.clone(),
                endpoint: ctx.endpoint.clone(),
                conversation_id: copy_opt(&ctx.conversation_id),
                turn: ctx.turn,
                request_bytes,
                response_bytes: 0,
                truncated: false,
                outcome: "in_progress".to_owned(),
            },
        }
    }

    /// How many bytes of a `chunk_len`-byte chunk to append under the cap
    /// `max`: all of it while it fits, the part that fits when it does not
    /// (the recording is then truncated), nothing once truncated or full.
    pub fn accept_chunk(&mut self, chunk_len: usize, max: usize) -> (n: usize)
        ensures
            final(self).written == old(self).written,
            final(self).meta == old(self).meta,
            old(self).truncated ==> n == 0 && final(self).truncated,
            !old(self).truncated && old(self).written >= max ==> n == 0 && final(self).truncated,
            !old(self).truncated && old(self).written < max ==> {
                let remaining = max - old(self).written;
                &&& chunk_len <= remaining ==> n == chunk_len && !final(self).truncated
                &&& chunk_len > remaining ==> n == remaining && final(self).truncated
            },
            n == spec_accepted(old(self).written, old(self).truncated, chunk_len, max),
    {
        if self.truncated {
            return 0;
        }
        let remaining = if self.written >= max { 0 } else { max - self.written };
        if remaining == 0 {
            self.truncated = true;
            return 0;
        }
        if chunk_len <= remaining {
            chunk_len
        } else {
            self.truncated = true;
            remaining
        }
    }

    /// `n` accepted bytes were appended.
    pub fn wrote(&mut self, n: usize)
        requires
            old(self).written + n <= usize::MAX,
        ensures
            final(self).written == old(self).written + n,
            final(self).truncated == old(self).truncated,
            final(self).meta == old(self).meta,
    {
        self.written = self.written + n;
    }

    /// The `meta.json` record of the finished round.
    pub fn finish(self, outcome: &CompletionOutcome) -> (m: MetaRecord)
        ensures
            m.id@ == self.meta.id@,
            m.started_at@ == self.meta.started_at@,
            m.api_format@ == self.meta.api_format@,
            m.model@ == self.meta.model@,
            m.endpoint@ == self.meta.endpoint@,
            opt_view(m.conversation_id) == opt_view(self.meta.conversation_id),
            m.turn == self.meta.turn,
            m.request_bytes == self.meta.request_bytes,
            m.response_bytes == self.written,
            m.truncated == self.truncated,
            m.outcome@ == spec_outcome_label(*outcome),
    {
        let mut m = self.meta;
        m.response_bytes = self.written;
        m.truncated = self.truncated;
        m.outcome = outcome.label();
        m
    }
}

/// The size cap holds: starting within the cap, a recording that appends
/// what `accept_chunk` accepts stays within it.
pub proof fn law_accepted_within_cap(written: usize, truncated: bool, chunk_len: usize, max: usize)
    requires
        written <= max,
    ensures
        written + spec_accepted(written, truncated, chunk_len, max) <= max,
{
}

} // verus!
