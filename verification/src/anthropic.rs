//! Anthropic Messages: request body and `event:` translation.
//!
//! Wire: `POST {endpoint}/messages` with `stream: true`, `x-api-key` auth and
//! an `anthropic-version` header. System messages move to the top-level
//! `system` field; tools go out as `{name, description, input_schema}`; tool
//! calls come back as `tool_use` content blocks whose input streams as
//! `input_json_delta`.

use vstd::prelude::*;
use std::collections::HashMap;
use crate::error::ChatErrorKind;
use crate::json::{Json, JsonNum, JsonNumber, JsonValue, json_str, obj2, obj3, obj4, models_of, lemma_models_push, get_str, unwrap_or_empty, index_of, str_field, index_field};
use crate::pending::{PendingModel, PendingToolCall, table_model, entry_or_default, report, take_entry, put_entry, report_exec};
use crate::text::{str_eq, chars_of, string_of};
use crate::tool::{ToolDefinition, partial_models};
use crate::types::{ChatMessage, ChatRole, EventModel, StreamEvent, event_models, no_events};
use crate::openai_responses::{tool_calls_event, event_args, lemma_event_args_concat};
use crate::agent::joined_args;

verus! {

broadcast use vstd::std_specs::hash::group_hash_axioms;

/// In-flight `tool_use` block state.
pub type PendingToolUse = PendingToolCall;

/// `anthropic-version` header value.
pub const ANTHROPIC_VERSION: &'static str = "2023-06-01";

/// `max_tokens` written on every request.
pub const DEFAULT_MAX_TOKENS: u32 = 4096;

/// All system messages, joined by a blank line; `None` when there are none.
pub open spec fn spec_system_text(msgs: Seq<ChatMessage>) -> Option<Seq<char>>
    decreases msgs.len(),
{
    if msgs.len() == 0 {
        None
    } else {
        let prev = spec_system_text(msgs.drop_last());
        let m = msgs.last();
        if m.role == ChatRole::System {
            match prev {
                Some(p) => Some(p + "\n\n"@ + m.content@),
                None => Some(m.content@),
            }
        } else {
            prev
        }
    }
}

/// `[tool_result {id}] ` for a tool message with a call id, else nothing.
pub open spec fn spec_tool_prefix(m: ChatMessage) -> Seq<char> {
    match m.tool_call_id {
        Some(id) => "[tool_result "@ + id@ + "] "@,
        None => Seq::empty(),
    }
}

/// Wire shape of a non-system message: user and assistant keep their role;
/// a tool result goes out as a user message with the `[tool_result id]`
/// prefix.
pub open spec fn spec_anthropic_message(m: ChatMessage) -> Json {
    if m.role == ChatRole::Assistant {
        Json::Object(seq![("role"@, Json::Str("assistant"@)), ("content"@, Json::Str(m.content@))])
    } else if m.role == ChatRole::Tool {
        Json::Object(seq![("role"@, Json::Str("user"@)), ("content"@, Json::Str(spec_tool_prefix(m) + m.content@))])
    } else {
        Json::Object(seq![("role"@, Json::Str("user"@)), ("content"@, Json::Str(m.content@))])
    }
}

/// The non-system messages, in order.
pub open spec fn spec_anthropic_messages(msgs: Seq<ChatMessage>) -> Seq<Json>
    decreases msgs.len(),
{
    if msgs.len() == 0 {
        Seq::empty()
    } else {
        let prev = spec_anthropic_messages(msgs.drop_last());
        if msgs.last().role == ChatRole::System { prev } else { prev.push(spec_anthropic_message(msgs.last())) }
    }
}

/// Anthropic tool shape: `{name, description, input_schema}`.
pub open spec fn spec_anthropic_tool_json(t: ToolDefinition) -> Json {
    Json::Object(seq![
        ("name"@, Json::Str(t.function.name@)),
        ("description"@, Json::Str(t.function.description@)),
        ("input_schema"@, t.function.parameters@),
    ])
}

/// The request body: `{model, messages, max_tokens: 4096, stream: true}`,
/// plus `system` when any system message is given and `tools` when at
/// least one tool is given.
pub open spec fn spec_anthropic_body(model: Seq<char>, msgs: Seq<ChatMessage>, tools: Option<Seq<ToolDefinition>>) -> Json {
    let b = Json::Object(seq![
        ("model"@, Json::Str(model)),
        ("messages"@, Json::Array(spec_anthropic_messages(msgs))),
        ("max_tokens"@, Json::Number(JsonNum::PosInt(4096))),
        ("stream"@, Json::Bool(true)),
    ]);
    let b1 = match spec_system_text(msgs) {
        Some(s) => b.set("system"@, Json::Str(s)),
        None => b,
    };
    match tools {
        Some(t) => if t.len() > 0 {
            b1.set("tools"@, Json::Array(t.map_values(|x: ToolDefinition| spec_anthropic_tool_json(x))))
        } else {
            b1
        },
        None => b1,
    }
}

fn append_str(acc: &mut Vec<char>, s: &str)
    ensures
        final(acc)@ == old(acc)@ + s@,
{
    let mut v = chars_of(s);
    acc.append(&mut v);
}

fn anthropic_message(m: &ChatMessage) -> (r: JsonValue)
    ensures
        r@ == spec_anthropic_message(*m),
{
    match m.role {
        ChatRole::Assistant => obj2("role", json_str("assistant"), "content", JsonValue::String(m.content.clone())),
        ChatRole::Tool => {
            let mut c: Vec<char> = Vec::new();
            match &m.tool_call_id {
                Some(id) => {
                    append_str(&mut c, "[tool_result ");
                    append_str(&mut c, id.as_str());
                    append_str(&mut c, "] ");
                },
                None => {},
            }
            append_str(&mut c, m.content.as_str());
            assert(c@ =~= spec_tool_prefix(*m) + m.content@);
            obj2("role", json_str("user"), "content", JsonValue::String(string_of(c.as_slice())))
        },
        _ => obj2("role", json_str("user"), "content", JsonValue::String(m.content.clone())),
    }
}

/// Build the Anthropic request body.
pub fn build_request_body(model: &str, messages: &[ChatMessage], tools: Option<&[ToolDefinition]>) -> (r: JsonValue)
    ensures
        r@ == spec_anthropic_body(model@, messages@, match tools { Some(t) => Some(t@), None => None }),
{
    let mut system: Option<Vec<char>> = None;
    let mut out: Vec<JsonValue> = Vec::new();
    let mut i: usize = 0;
    while i < messages.len()
        invariant
            0 <= i <= messages.len(),
            models_of(out@) == spec_anthropic_messages(messages@.take(i as int)),
            (match system { Some(v) => Some(v@), None => None }) == spec_system_text(messages@.take(i as int)),
        decreases messages.len() - i,
    {
        let m = &messages[i];
        assert(messages@.take(i + 1).drop_last() =~= messages@.take(i as int));
        assert(messages@.take(i + 1).last() == *m);
        match m.role {
            ChatRole::System => {
                match system {
                    Some(mut prev) => {
                        append_str(&mut prev, "\n\n");
                        append_str(&mut prev, m.content.as_str());
                        system = Some(prev);
                    },
                    None => {
                        system = Some(chars_of(m.content.as_str()));
                    },
                }
            },
            _ => {
                let j = anthropic_message(m);
                proof { lemma_models_push(out@, j); }
                out.push(j);
            },
        }
        i = i + 1;
    }
    assert(messages@.take(messages@.len() as int) =~= messages@);
    let mut body = obj4(
        "model", json_str(model),
        "messages", JsonValue::Array(out),
        "max_tokens", JsonValue::Number(JsonNumber::PosInt(4096)),
        "stream", JsonValue::Bool(true),
    );
    match system {
        Some(s) => body.set("system", JsonValue::String(string_of(s.as_slice()))),
        None => {},
    }
    match tools {
        Some(t) => {
            if t.len() > 0 {
                let mut ts: Vec<JsonValue> = Vec::new();
                let mut k: usize = 0;
                while k < t.len()
                    invariant
                        0 <= k <= t.len(),
                        models_of(ts@) == t@.take(k as int).map_values(|x: ToolDefinition| spec_anthropic_tool_json(x)),
                    decreases t.len() - k,
                {
                    let f = &t[k].function;
                    let j = obj3(
                        "name", JsonValue::String(f.name.clone()),
                        "description", JsonValue::String(f.description.clone()),
                        "input_schema", f.parameters.duplicate(),
                    );
                    proof { lemma_models_push(ts@, j); }
                    ts.push(j);
                    assert(t@.take(k + 1).map_values(|x: ToolDefinition| spec_anthropic_tool_json(x))
                        =~= t@.take(k as int).map_values(|x: ToolDefinition| spec_anthropic_tool_json(x)).push(spec_anthropic_tool_json(t@[k as int])));
                    k = k + 1;
                }
                assert(t@.take(t@.len() as int) =~= t@);
                body.set("tools", JsonValue::Array(ts));
            }
        },
        None => {},
    }
    body
}

/// What one Anthropic event yields, and the new table of in-flight
/// `tool_use` blocks.
pub open spec fn spec_anthropic_event(event: Seq<char>, d: Json, t: Map<u32, PendingModel>) -> (Seq<EventModel>, Map<u32, PendingModel>) {
    let k = index_of(d, "index"@);
    if event == "content_block_start"@ {
        match d.get("content_block"@) {
            Some(block) => if get_str(Some(block), "type"@) == Some("tool_use"@) {
                let p = entry_or_default(t, k);
                (Seq::empty(), t.insert(k, PendingModel { id: get_str(Some(block), "id"@), name: get_str(Some(block), "name"@), args: p.args }))
            } else {
                (Seq::empty(), t)
            },
            None => (Seq::empty(), t),
        }
    } else if event == "content_block_delta"@ {
        match d.get("delta"@) {
            None => (Seq::empty(), t),
            Some(delta) => {
                let ty = get_str(Some(delta), "type"@);
                if ty == Some("text_delta"@) {
                    match get_str(Some(delta), "text"@) {
                        Some(s) => if s.len() > 0 { (seq![EventModel::Text(s)], t) } else { (Seq::empty(), t) },
                        None => (Seq::empty(), t),
                    }
                } else if ty == Some("input_json_delta"@) {
                    let part = unwrap_or_empty(get_str(Some(delta), "partial_json"@));
                    let p0 = entry_or_default(t, k);
                    let p = PendingModel { id: p0.id, name: p0.name, args: p0.args + part };
                    if part.len() == 0 && p.id is None && p.name is None {
                        (Seq::empty(), t.insert(k, p))
                    } else {
                        (seq![tool_calls_event(report(k, p, part))], t.insert(k, p))
                    }
                } else {
                    (Seq::empty(), t)
                }
            },
        }
    } else if event == "content_block_stop"@ {
        if t.contains_key(k) && (t[k].id is Some || t[k].name is Some) {
            (seq![tool_calls_event(report(k, t[k], Seq::empty()))], t)
        } else {
            (Seq::empty(), t)
        }
    } else if event == "message_stop"@ {
        (seq![EventModel::Done], t)
    } else if event == "error"@ {
        let msg = match d.get("error"@) {
            Some(e) => match get_str(Some(e), "message"@) {
                Some(m) => m,
                None => "anthropic stream error"@,
            },
            None => "anthropic stream error"@,
        };
        (seq![EventModel::Error(ChatErrorKind::StreamProtocol, msg)], t)
    } else {
        (Seq::empty(), t)
    }
}

/// Messages that are not system messages.
pub open spec fn not_system() -> spec_fn(ChatMessage) -> bool {
    |m: ChatMessage| m.role != ChatRole::System
}

/// Roles survive the translation: the Anthropic `messages` list has one
/// entry per non-system message, in order; an assistant message goes out
/// with role `assistant`, user and tool messages with role `user`, and a
/// user or assistant message keeps its text.
pub proof fn law_anthropic_roles_kept(msgs: Seq<ChatMessage>)
    ensures
        spec_anthropic_messages(msgs).len() == msgs.filter(not_system()).len(),
        forall|j: int| 0 <= j < spec_anthropic_messages(msgs).len() ==> {
            let m = msgs.filter(not_system())[j];
            &&& (#[trigger] spec_anthropic_messages(msgs)[j]).get("role"@)
                == Some(Json::Str(if m.role == ChatRole::Assistant { "assistant"@ } else { "user"@ }))
            &&& m.role != ChatRole::Tool ==> spec_anthropic_messages(msgs)[j].get("content"@) == Some(Json::Str(m.content@))
        },
    decreases msgs.len(),
{
    reveal_strlit("role");
    reveal_strlit("content");
    assert("role"@.len() != "content"@.len());
    if msgs.len() > 0 {
        law_anthropic_roles_kept(msgs.drop_last());
        crate::model_catalog::lemma_filter_step(msgs, not_system());
        let prev = spec_anthropic_messages(msgs.drop_last());
        let all = spec_anthropic_messages(msgs);
        let m = msgs.last();
        if m.role != ChatRole::System {
            assert(all == prev.push(spec_anthropic_message(m)));
            assert forall|j: int| 0 <= j < all.len() implies {
                let mm = msgs.filter(not_system())[j];
                &&& (#[trigger] all[j]).get("role"@)
                    == Some(Json::Str(if mm.role == ChatRole::Assistant { "assistant"@ } else { "user"@ }))
                &&& mm.role != ChatRole::Tool ==> all[j].get("content"@) == Some(Json::Str(mm.content@))
            } by {
                if j < prev.len() {
                    assert(all[j] == prev[j]);
                    assert(msgs.filter(not_system())[j] == msgs.drop_last().filter(not_system())[j]);
                } else {
                    assert(all[j] == spec_anthropic_message(m));
                    assert(msgs.filter(not_system())[j] == m);
                    let f = if m.role == ChatRole::Assistant {
                        seq![("role"@, Json::Str("assistant"@)), ("content"@, Json::Str(m.content@))]
                    } else if m.role == ChatRole::Tool {
                        seq![("role"@, Json::Str("user"@)), ("content"@, Json::Str(spec_tool_prefix(m) + m.content@))]
                    } else {
                        seq![("role"@, Json::Str("user"@)), ("content"@, Json::Str(m.content@))]
                    };
                    assert(spec_anthropic_message(m) == Json::Object(f));
                    assert(f.drop_first()[0].0 == "content"@);
                    assert(f[0].0 != "content"@);
                    assert(crate::json::fields_get(f.drop_first(), "content"@) == Some(f.drop_first()[0].1));
                    assert(crate::json::fields_get(f, "content"@) == Some(f[1].1));
                }
            }
        } else {
            assert(all == prev);
        }
    }
}

/// Runs a sequence of `(event name, data)` pairs through the translator,
/// starting from the table `t`: all events produced, and the final table.
pub open spec fn run_anthropic(evs: Seq<(Seq<char>, Json)>, t: Map<u32, PendingModel>) -> (Seq<EventModel>, Map<u32, PendingModel>)
    decreases evs.len(),
{
    if evs.len() == 0 {
        (Seq::empty(), t)
    } else {
        let r = run_anthropic(evs.drop_last(), t);
        let s = spec_anthropic_event(evs.last().0, evs.last().1, r.1);
        (r.0 + s.0, s.1)
    }
}

/// `content_block_delta` events carrying the data `ds`.
pub open spec fn block_delta_events(ds: Seq<Json>) -> Seq<(Seq<char>, Json)> {
    ds.map_values(|d: Json| ("content_block_delta"@, d))
}

/// An `input_json_delta` for block `k`.
pub open spec fn is_json_delta(d: Json, k: u32) -> bool {
    &&& index_of(d, "index"@) == k
    &&& d.get("delta"@) matches Some(delta) && get_str(Some(delta), "type"@) == Some("input_json_delta"@)
}

/// The `partial_json` texts of the deltas `ds`, joined in order.
pub open spec fn partial_text(ds: Seq<Json>) -> Seq<char>
    decreases ds.len(),
{
    if ds.len() == 0 {
        Seq::empty()
    } else {
        partial_text(ds.drop_last()) + unwrap_or_empty(get_str(ds.last().get("delta"@), "partial_json"@))
    }
}

proof fn lemma_json_delta_step(d: Json, k: u32, t: Map<u32, PendingModel>)
    requires
        is_json_delta(d, k),
    ensures
        ({
            let s = spec_anthropic_event("content_block_delta"@, d, t);
            let part = unwrap_or_empty(get_str(d.get("delta"@), "partial_json"@));
            &&& event_args(s.0, k) == part
            &&& entry_or_default(s.1, k).args == entry_or_default(t, k).args + part
        }),
{
    reveal_strlit("content_block_delta");
    reveal_strlit("content_block_start");
    reveal_strlit("input_json_delta");
    reveal_strlit("text_delta");
    assert("content_block_delta"@[14] != "content_block_start"@[14]);
    assert("input_json_delta"@.len() != "text_delta"@.len());
    let s = spec_anthropic_event("content_block_delta"@, d, t);
    let part = unwrap_or_empty(get_str(d.get("delta"@), "partial_json"@));
    let p0 = entry_or_default(t, k);
    let p = PendingModel { id: p0.id, name: p0.name, args: p0.args + part };
    if s.0.len() > 0 {
        let ps = seq![report(k, p, part)];
        assert(s.0 == seq![tool_calls_event(report(k, p, part))]);
        assert(ps.drop_last() =~= Seq::<crate::tool::PartialModel>::empty());
        assert(joined_args(ps.drop_last(), k) =~= Seq::<char>::empty());
        assert(joined_args(ps, k) =~= part);
        assert(s.0.drop_last() =~= Seq::<EventModel>::empty());
        assert(event_args(s.0.drop_last(), k) =~= Seq::<char>::empty());
        assert(event_args(s.0, k) =~= part);
    } else {
        assert(part =~= Seq::<char>::empty());
        assert(event_args(s.0, k) =~= Seq::<char>::empty());
    }
    assert(s.1 == t.insert(k, p));
}

/// The fragments of a `tool_use` block add up to its input: after any
/// sequence of `input_json_delta` events for block `k`, the argument
/// fragments emitted for `k`, joined in order, are exactly the
/// `partial_json` texts received, joined in order (each event emits its
/// own fragment, never the text accumulated so far), and the block's
/// accumulated input grows by exactly that text.
pub proof fn law_anthropic_fragments_add_up(k: u32, ds: Seq<Json>, t: Map<u32, PendingModel>)
    requires
        forall|j: int| 0 <= j < ds.len() ==> is_json_delta(#[trigger] ds[j], k),
    ensures
        event_args(run_anthropic(block_delta_events(ds), t).0, k) == partial_text(ds),
        entry_or_default(run_anthropic(block_delta_events(ds), t).1, k).args
            == entry_or_default(t, k).args + partial_text(ds),
    decreases ds.len(),
{
    let evs = block_delta_events(ds);
    if ds.len() == 0 {
        assert(evs =~= Seq::<(Seq<char>, Json)>::empty());
        assert(entry_or_default(t, k).args + Seq::<char>::empty() =~= entry_or_default(t, k).args);
    } else {
        let prev = ds.drop_last();
        law_anthropic_fragments_add_up(k, prev, t);
        assert(evs.drop_last() =~= block_delta_events(prev));
        assert(evs.last() == ("content_block_delta"@, ds.last()));
        assert(is_json_delta(ds.last(), k));
        let r0 = run_anthropic(block_delta_events(prev), t);
        lemma_json_delta_step(ds.last(), k, r0.1);
        let s = spec_anthropic_event("content_block_delta"@, ds.last(), r0.1);
        lemma_event_args_concat(r0.0, s.0, k);
        let part = unwrap_or_empty(get_str(ds.last().get("delta"@), "partial_json"@));
        assert(partial_text(ds) == partial_text(prev) + part);
        assert(entry_or_default(t, k).args + partial_text(prev) + part =~= entry_or_default(t, k).args + partial_text(ds));
    }
}

fn one_call(p: crate::tool::ToolCallPartial) -> (r: Vec<StreamEvent>)
    ensures
        event_models(r@) == seq![tool_calls_event(p.model())],
{
    let ghost pm = p.model();
    let v = vec![p];
    assert(partial_models(v@) =~= seq![pm]);
    let r = vec![StreamEvent::ToolCalls(v)];
    assert(event_models(r@) =~= seq![tool_calls_event(pm)]);
    r
}

fn one_event(e: StreamEvent) -> (r: Vec<StreamEvent>)
    ensures
        event_models(r@) == seq![e.model()],
{
    let ghost em = e.model();
    let r = vec![e];
    assert(event_models(r@) =~= seq![em]);
    r
}

/// Translate one Anthropic event into zero or more stream events, tracking
/// in-flight `tool_use` blocks across events by `index`.
pub fn handle_anthropic_event(event: &str, data: &JsonValue, pending: &mut HashMap<u32, PendingToolUse>) -> (r: Vec<StreamEvent>)
    ensures
        (event_models(r@), table_model(final(pending)@)) == spec_anthropic_event(event@, data@, table_model(old(pending)@)),
{
    let k = index_field(data, "index");
    if str_eq(event, "content_block_start") {
        match data.get("content_block") {
            Some(block) => {
                let ty = str_field(Some(block), "type");
                let is_use = match &ty {
                    Some(t) => str_eq(t.as_str(), "tool_use"),
                    None => false,
                };
                if is_use {
                    let p = take_entry(pending, k);
                    let np = PendingToolCall { id: str_field(Some(block), "id"), name: str_field(Some(block), "name"), arguments: p.arguments };
                    let ghost pm = np.model();
                    put_entry(pending, k, np);
                    assert(table_model(old(pending)@).remove(k).insert(k, pm) =~= table_model(old(pending)@).insert(k, pm));
                }
            },
            None => {},
        }
        no_events()
    } else if str_eq(event, "content_block_delta") {
        let delta = match data.get("delta") {
            Some(d) => d,
            None => return no_events(),
        };
        let ty = str_field(Some(delta), "type");
        let is_text = match &ty { Some(t) => str_eq(t.as_str(), "text_delta"), None => false };
        let is_json = match &ty { Some(t) => str_eq(t.as_str(), "input_json_delta"), None => false };
        if is_text {
            match str_field(Some(delta), "text") {
                Some(s) => {
                    if chars_of(s.as_str()).len() > 0 {
                        return one_event(StreamEvent::Text(s));
                    }
                    no_events()
                },
                None => no_events(),
            }
        } else if is_json {
            let part = match str_field(Some(delta), "partial_json") {
                Some(s) => s,
                None => String::new(),
            };
            let mut p = take_entry(pending, k);
            let mut acc = chars_of(p.arguments.as_str());
            let mut pv = chars_of(part.as_str());
            let plen = pv.len();
            acc.append(&mut pv);
            p.arguments = string_of(acc.as_slice());
            let quiet = plen == 0 && p.id.is_none() && p.name.is_none();
            let r = if quiet { no_events() } else { one_call(report_exec(k, &p, part)) };
            let ghost pm = p.model();
            put_entry(pending, k, p);
            assert(table_model(old(pending)@).remove(k).insert(k, pm) =~= table_model(old(pending)@).insert(k, pm));
            r
        } else {
            no_events()
        }
    } else if str_eq(event, "content_block_stop") {
        match pending.get(&k) {
            Some(p) => {
                assert(table_model(pending@)[k] == p.model());
                if p.id.is_some() || p.name.is_some() {
                    one_call(report_exec(k, p, String::new()))
                } else {
                    no_events()
                }
            },
            None => no_events(),
        }
    } else if str_eq(event, "message_stop") {
        one_event(StreamEvent::Done)
    } else if str_eq(event, "error") {
        let msg = match data.get("error") {
            Some(e) => match str_field(Some(e), "message") {
                Some(m) => m,
                None => "anthropic stream error".to_owned(),
            },
            None => "anthropic stream error".to_owned(),
        };
        one_event(StreamEvent::Error { kind: ChatErrorKind::StreamProtocol, message: msg })
    } else {
        no_events()
    }
}


/// The upstream learns of tools only when there are some: the body has a
/// `tools` field exactly when at least one tool is given.
pub proof fn law_tools_field_only_with_tools(model: Seq<char>, msgs: Seq<ChatMessage>, tools: Option<Seq<ToolDefinition>>)
    ensures
        (spec_anthropic_body(model, msgs, tools).get("tools"@) is Some) <==> (tools matches Some(t) && t.len() > 0),
{
    reveal_strlit("tools");
    reveal_strlit("model");
    reveal_strlit("messages");
    reveal_strlit("max_tokens");
    reveal_strlit("stream");
    reveal_strlit("system");
    let f = seq![
        ("model"@, Json::Str(model)),
        ("messages"@, Json::Array(spec_anthropic_messages(msgs))),
        ("max_tokens"@, Json::Number(JsonNum::PosInt(4096))),
        ("stream"@, Json::Bool(true)),
    ];
    assert("model"@[0] != "tools"@[0]);
    assert("messages"@[0] != "tools"@[0]);
    assert("max_tokens"@[0] != "tools"@[0]);
    assert("stream"@[0] != "tools"@[0]);
    assert("system"@[0] != "tools"@[0]);
    reveal_with_fuel(crate::json::fields_get, 5);
    assert(f.drop_first() =~= seq![f[1], f[2], f[3]]);
    assert(f.drop_first().drop_first() =~= seq![f[2], f[3]]);
    assert(f.drop_first().drop_first().drop_first() =~= seq![f[3]]);
    assert(f.drop_first().drop_first().drop_first().drop_first() =~= Seq::<(Seq<char>, Json)>::empty());
    assert(crate::json::fields_get(f, "tools"@) is None);
    let b = Json::Object(f);
    let b1 = match spec_system_text(msgs) {
        Some(s) => b.set("system"@, Json::Str(s)),
        None => b,
    };
    match spec_system_text(msgs) {
        Some(s) => { crate::json::lemma_fields_get_set_other(f, "system"@, Json::Str(s), "tools"@); },
        None => {},
    }
    assert(b1.get("tools"@) is None);
    match b1 {
        Json::Object(g) => match tools {
            Some(t) => if t.len() > 0 {
                crate::json::lemma_fields_get_set_same(g, "tools"@, Json::Array(t.map_values(|x: ToolDefinition| spec_anthropic_tool_json(x))));
            },
            None => {},
        },
        _ => {},
    }
}

} // verus!
