//! OpenAI Responses: request body and `event: response.*` translation.
//!
//! Wire: `POST {endpoint}/responses` with `stream: true`; frames are named
//! `response.*` events. Tool calls are tracked by `output_index`: the
//! `output_item.added` event announces id + name, argument deltas follow.

use vstd::prelude::*;
use std::collections::HashMap;
use crate::json::{Json, JsonValue, json_str, obj2, obj3, obj4, models_of, lemma_models_push, get_str, unwrap_or_empty, index_of, str_field, index_field};
use crate::agent::joined_args;
use crate::openai_chat::role_to_str;
use crate::pending::{PendingModel, PendingToolCall, table_model, entry_or_default, report, take_entry, put_entry, report_exec};
use crate::text::{str_eq, chars_of, string_of};
use crate::tool::{ToolDefinition, partial_models};
use crate::types::{ChatMessage, EventModel, StreamEvent, spec_role_name, event_models, no_events};

verus! {

broadcast use vstd::std_specs::hash::group_hash_axioms;

/// Wire shape of a message in `input`: `{role, content}`.
pub open spec fn spec_input_json(m: ChatMessage) -> Json {
    Json::Object(seq![("role"@, Json::Str(spec_role_name(m.role))), ("content"@, Json::Str(m.content@))])
}

/// Flat Responses tool shape: `{type: "function", name, description, parameters}`.
pub open spec fn spec_flat_tool_json(t: ToolDefinition) -> Json {
    Json::Object(seq![
        ("type"@, Json::Str("function"@)),
        ("name"@, Json::Str(t.function.name@)),
        ("description"@, Json::Str(t.function.description@)),
        ("parameters"@, t.function.parameters@),
    ])
}

/// The request body: `{model, input, stream: true}`, plus the flattened
/// `tools` only when at least one tool is given.
pub open spec fn spec_responses_body(model: Seq<char>, msgs: Seq<ChatMessage>, tools: Option<Seq<ToolDefinition>>) -> Json {
    let b = Json::Object(seq![
        ("model"@, Json::Str(model)),
        ("input"@, Json::Array(msgs.map_values(|m: ChatMessage| spec_input_json(m)))),
        ("stream"@, Json::Bool(true)),
    ]);
    match tools {
        Some(t) => if t.len() > 0 {
            b.set("tools"@, Json::Array(t.map_values(|x: ToolDefinition| spec_flat_tool_json(x))))
        } else {
            b
        },
        None => b,
    }
}

/// Build the Responses request body. The `tools` field is written only when
/// `tools` holds at least one tool.
pub fn build_request_body(model: &str, messages: &[ChatMessage], tools: Option<&[ToolDefinition]>) -> (r: JsonValue)
    ensures
        r@ == spec_responses_body(model@, messages@, match tools { Some(t) => Some(t@), None => None }),
{
    let mut input: Vec<JsonValue> = Vec::new();
    let mut i: usize = 0;
    while i < messages.len()
        invariant
            0 <= i <= messages.len(),
            models_of(input@) == messages@.take(i as int).map_values(|m: ChatMessage| spec_input_json(m)),
        decreases messages.len() - i,
    {
        let m = &messages[i];
        let j = obj2("role", json_str(role_to_str(m.role)), "content", JsonValue::String(m.content.clone()));
        proof { lemma_models_push(input@, j); }
        input.push(j);
        assert(messages@.take(i + 1).map_values(|m: ChatMessage| spec_input_json(m))
            =~= messages@.take(i as int).map_values(|m: ChatMessage| spec_input_json(m)).push(spec_input_json(messages@[i as int])));
        i = i + 1;
    }
    assert(messages@.take(messages@.len() as int) =~= messages@);
    let mut body = obj3("model", json_str(model), "input", JsonValue::Array(input), "stream", JsonValue::Bool(true));
    match tools {
        Some(t) => {
            if t.len() > 0 {
                let mut out: Vec<JsonValue> = Vec::new();
                let mut k: usize = 0;
                while k < t.len()
                    invariant
                        0 <= k <= t.len(),
                        models_of(out@) == t@.take(k as int).map_values(|x: ToolDefinition| spec_flat_tool_json(x)),
                    decreases t.len() - k,
                {
                    let f = &t[k].function;
                    let j = obj4(
                        "type", json_str("function"),
                        "name", JsonValue::String(f.name.clone()),
                        "description", JsonValue::String(f.description.clone()),
                        "parameters", f.parameters.duplicate(),
                    );
                    proof { lemma_models_push(out@, j); }
                    out.push(j);
                    assert(t@.take(k + 1).map_values(|x: ToolDefinition| spec_flat_tool_json(x))
                        =~= t@.take(k as int).map_values(|x: ToolDefinition| spec_flat_tool_json(x)).push(spec_flat_tool_json(t@[k as int])));
                    k = k + 1;
                }
                assert(t@.take(t@.len() as int) =~= t@);
                body.set("tools", JsonValue::Array(out));
            }
        },
        None => {},
    }
    body
}

pub open spec fn tool_calls_event(p: crate::tool::PartialModel) -> EventModel {
    EventModel::ToolCalls(seq![p])
}

/// What one `response.*` event yields, and the new table of in-flight calls.
pub open spec fn spec_responses_event(event: Seq<char>, d: Json, t: Map<u32, PendingModel>) -> (Seq<EventModel>, Map<u32, PendingModel>) {
    let k = index_of(d, "output_index"@);
    if event == "response.output_text.delta"@ {
        match get_str(Some(d), "delta"@) {
            Some(s) => if s.len() > 0 { (seq![EventModel::Text(s)], t) } else { (Seq::empty(), t) },
            None => (Seq::empty(), t),
        }
    } else if event == "response.output_item.added"@ {
        match d.get("item"@) {
            Some(item) => if get_str(Some(item), "type"@) == Some("function_call"@) {
                let p = entry_or_default(t, k);
                (Seq::empty(), t.insert(k, PendingModel { id: get_str(Some(item), "id"@), name: get_str(Some(item), "name"@), args: p.args }))
            } else {
                (Seq::empty(), t)
            },
            None => (Seq::empty(), t),
        }
    } else if event == "response.function_call_arguments.delta"@ {
        let delta = unwrap_or_empty(get_str(Some(d), "delta"@));
        let p0 = entry_or_default(t, k);
        let p = PendingModel { id: p0.id, name: p0.name, args: p0.args + delta };
        if delta.len() == 0 && p.id is None && p.name is None {
            (Seq::empty(), t.insert(k, p))
        } else {
            (seq![tool_calls_event(report(k, p, delta))], t.insert(k, p))
        }
    } else if event == "response.function_call_arguments.done"@ {
        match d.get("item"@) {
            Some(item) => {
                let id = get_str(Some(item), "id"@);
                let name = get_str(Some(item), "name"@);
                let args = unwrap_or_empty(get_str(Some(item), "arguments"@));
                let p0 = entry_or_default(t, k);
                let p = PendingModel {
                    id: if id is Some { id } else { p0.id },
                    name: if name is Some { name } else { p0.name },
                    args: args,
                };
                (seq![tool_calls_event(report(k, p, missing_tail(p0.args, args)))], t.insert(k, p))
            },
            None => (Seq::empty(), t),
        }
    } else if event == "response.completed"@ || event == "response.incomplete"@ {
        (seq![EventModel::Done], t)
    } else {
        (Seq::empty(), t)
    }
}

/// What the final arguments add to the text the deltas already sent: the
/// rest of `full` when `sent` begins it, else nothing.
pub open spec fn missing_tail(sent: Seq<char>, full: Seq<char>) -> Seq<char> {
    if sent.len() <= full.len() && full.subrange(0, sent.len() as int) == sent {
        full.subrange(sent.len() as int, full.len() as int)
    } else {
        Seq::empty()
    }
}

/// Joining a call's fragments gives its final arguments once: when the
/// deltas sent so far begin the final arguments, the fragment of the `done`
/// event adds exactly the rest (nothing when the deltas were complete).
pub proof fn law_done_completes_arguments(sent: Seq<char>, full: Seq<char>)
    requires
        sent.len() <= full.len(),
        full.subrange(0, sent.len() as int) == sent,
    ensures
        sent + missing_tail(sent, full) == full,
        sent == full ==> missing_tail(sent, full) == Seq::<char>::empty(),
{
    assert(sent + full.subrange(sent.len() as int, full.len() as int) =~= full);
    if sent == full {
        assert(full.subrange(sent.len() as int, full.len() as int) =~= Seq::<char>::empty());
    }
}

/// The end of a response, whether it completed or was cut short
/// (`response.incomplete`, e.g. at the output-token limit), yields exactly
/// one `Done` and leaves the in-flight calls as they were, whatever the data.
pub proof fn law_response_end_yields_done(d: Json, t: Map<u32, PendingModel>)
    ensures
        spec_responses_event("response.completed"@, d, t) == (seq![EventModel::Done], t),
        spec_responses_event("response.incomplete"@, d, t) == (seq![EventModel::Done], t),
{
    reveal_strlit("response.completed");
    reveal_strlit("response.incomplete");
    reveal_strlit("response.output_text.delta");
    reveal_strlit("response.output_item.added");
    reveal_strlit("response.function_call_arguments.delta");
    reveal_strlit("response.function_call_arguments.done");
    assert("response.completed"@.len() != "response.output_text.delta"@.len());
    assert("response.completed"@.len() != "response.output_item.added"@.len());
    assert("response.completed"@.len() != "response.function_call_arguments.delta"@.len());
    assert("response.completed"@.len() != "response.function_call_arguments.done"@.len());
    assert("response.incomplete"@.len() != "response.output_text.delta"@.len());
    assert("response.incomplete"@.len() != "response.output_item.added"@.len());
    assert("response.incomplete"@.len() != "response.function_call_arguments.delta"@.len());
    assert("response.incomplete"@.len() != "response.function_call_arguments.done"@.len());
}

/// Runs a sequence of `(event name, data)` pairs through the translator,
/// starting from the table `t`: all events produced, and the final table.
pub open spec fn run_responses(evs: Seq<(Seq<char>, Json)>, t: Map<u32, PendingModel>) -> (Seq<EventModel>, Map<u32, PendingModel>)
    decreases evs.len(),
{
    if evs.len() == 0 {
        (Seq::empty(), t)
    } else {
        let r = run_responses(evs.drop_last(), t);
        let s = spec_responses_event(evs.last().0, evs.last().1, r.1);
        (r.0 + s.0, s.1)
    }
}

/// What a consumer accumulates for index `k`: the arguments of every
/// tool-call fragment with that index, in order.
pub open spec fn event_args(evs: Seq<EventModel>, k: u32) -> Seq<char>
    decreases evs.len(),
{
    if evs.len() == 0 {
        Seq::empty()
    } else {
        event_args(evs.drop_last(), k) + match evs.last() {
            EventModel::ToolCalls(ps) => joined_args(ps, k),
            _ => Seq::empty(),
        }
    }
}

pub proof fn lemma_event_args_concat(a: Seq<EventModel>, b: Seq<EventModel>, k: u32)
    ensures
        event_args(a + b, k) == event_args(a, k) + event_args(b, k),
    decreases b.len(),
{
    if b.len() == 0 {
        assert(a + b =~= a);
    } else {
        lemma_event_args_concat(a, b.drop_last(), k);
        assert((a + b).drop_last() =~= a + b.drop_last());
        assert((a + b).last() == b.last());
    }
}

/// The `delta` texts of argument-delta events, joined.
pub open spec fn delta_text(ds: Seq<Json>) -> Seq<char>
    decreases ds.len(),
{
    if ds.len() == 0 {
        Seq::empty()
    } else {
        delta_text(ds.drop_last()) + unwrap_or_empty(get_str(Some(ds.last()), "delta"@))
    }
}

pub open spec fn added_event(d: Json) -> (Seq<char>, Json) {
    ("response.output_item.added"@, d)
}

pub open spec fn delta_events(ds: Seq<Json>) -> Seq<(Seq<char>, Json)> {
    ds.map_values(|d: Json| ("response.function_call_arguments.delta"@, d))
}

pub open spec fn done_event(d: Json) -> (Seq<char>, Json) {
    ("response.function_call_arguments.done"@, d)
}

/// A `response.output_item.added` announcing a function call at index `k`.
pub open spec fn announces_call(added: Json, k: u32) -> bool {
    &&& index_of(added, "output_index"@) == k
    &&& added.get("item"@) matches Some(item) && get_str(Some(item), "type"@) == Some("function_call"@)
}

proof fn lemma_event_names_differ()
    ensures
        "response.output_item.added"@ != "response.output_text.delta"@,
        "response.function_call_arguments.delta"@ != "response.output_text.delta"@,
        "response.function_call_arguments.delta"@ != "response.output_item.added"@,
        "response.function_call_arguments.done"@ != "response.output_text.delta"@,
        "response.function_call_arguments.done"@ != "response.output_item.added"@,
        "response.function_call_arguments.done"@ != "response.function_call_arguments.delta"@,
{
    reveal_strlit("response.output_item.added");
    reveal_strlit("response.output_text.delta");
    reveal_strlit("response.function_call_arguments.delta");
    reveal_strlit("response.function_call_arguments.done");
    assert("response.output_item.added"@[16] != "response.output_text.delta"@[16]);
    assert("response.function_call_arguments.delta"@.len() != "response.output_text.delta"@.len());
    assert("response.function_call_arguments.delta"@.len() != "response.output_item.added"@.len());
    assert("response.function_call_arguments.done"@.len() != "response.output_text.delta"@.len());
    assert("response.function_call_arguments.done"@.len() != "response.output_item.added"@.len());
    assert("response.function_call_arguments.done"@[34] != "response.function_call_arguments.delta"@[34]);
}

proof fn lemma_deltas_accumulate(k: u32, added: Json, ds: Seq<Json>)
    requires
        announces_call(added, k),
        forall|j: int| 0 <= j < ds.len() ==> index_of(#[trigger] ds[j], "output_index"@) == k,
    ensures
        ({
            let r = run_responses(seq![added_event(added)] + delta_events(ds), Map::empty());
            &&& r.1.contains_key(k)
            &&& r.1[k].args == delta_text(ds)
            &&& event_args(r.0, k) == delta_text(ds)
        }),
    decreases ds.len(),
{
    lemma_event_names_differ();
    let evs = seq![added_event(added)] + delta_events(ds);
    if ds.len() == 0 {
        assert(evs =~= seq![added_event(added)]);
        assert(evs.drop_last() =~= Seq::<(Seq<char>, Json)>::empty());
        assert(evs.last() == added_event(added));
        let r0 = run_responses(evs.drop_last(), Map::empty());
        assert(r0.0 =~= Seq::<EventModel>::empty());
        let s = spec_responses_event(evs.last().0, evs.last().1, r0.1);
        assert(s.0 =~= Seq::<EventModel>::empty());
        let r = run_responses(evs, Map::empty());
        assert(r.0 =~= r0.0 + s.0);
        assert(r.0 =~= Seq::<EventModel>::empty());
    } else {
        let prev = ds.drop_last();
        lemma_deltas_accumulate(k, added, prev);
        assert(evs.drop_last() =~= seq![added_event(added)] + delta_events(prev));
        assert(evs.last() == ("response.function_call_arguments.delta"@, ds.last()));
        assert(index_of(ds.last(), "output_index"@) == k);
        let r0 = run_responses(evs.drop_last(), Map::empty());
        let s = spec_responses_event(evs.last().0, evs.last().1, r0.1);
        let delta = unwrap_or_empty(get_str(Some(ds.last()), "delta"@));
        lemma_event_args_concat(r0.0, s.0, k);
        if s.0.len() > 0 {
            let e = s.0;
            assert(e.drop_last() =~= Seq::<EventModel>::empty());
            let ps = seq![report(k, PendingModel { id: r0.1[k].id, name: r0.1[k].name, args: r0.1[k].args + delta }, delta)];
            assert(ps.drop_last() =~= Seq::<crate::tool::PartialModel>::empty());
            assert(joined_args(ps.drop_last(), k) =~= Seq::<char>::empty());
            assert(ps.last().index == k);
            assert(joined_args(ps, k) =~= delta);
            assert(e.last() == EventModel::ToolCalls(ps));
            assert(event_args(e.drop_last(), k) =~= Seq::<char>::empty());
            assert(event_args(e, k) =~= delta);
        } else {
            assert(event_args(s.0, k) =~= Seq::<char>::empty());
        }
    }
}

/// The fragments of one Responses tool call add up to its arguments: from
/// an empty table, a call announced at index `k`, argument deltas for `k`,
/// then the `done` event whose arguments are the deltas joined, the
/// fragments for `k` joined in order give exactly those arguments.
pub proof fn law_responses_fragments_add_up(k: u32, added: Json, ds: Seq<Json>, done: Json)
    requires
        announces_call(added, k),
        forall|j: int| 0 <= j < ds.len() ==> index_of(#[trigger] ds[j], "output_index"@) == k,
        index_of(done, "output_index"@) == k,
        done.get("item"@) matches Some(item) && unwrap_or_empty(get_str(Some(item), "arguments"@)) == delta_text(ds),
    ensures
        event_args(run_responses(seq![added_event(added)] + delta_events(ds) + seq![done_event(done)], Map::empty()).0, k)
            == delta_text(ds),
{
    lemma_event_names_differ();
    lemma_deltas_accumulate(k, added, ds);
    let pre = seq![added_event(added)] + delta_events(ds);
    let evs = pre + seq![done_event(done)];
    assert(evs.drop_last() =~= pre);
    let r0 = run_responses(pre, Map::empty());
    let s = spec_responses_event(evs.last().0, evs.last().1, r0.1);
    lemma_event_args_concat(r0.0, s.0, k);
    let full = delta_text(ds);
    assert(full.subrange(0, full.len() as int) =~= full);
    assert(missing_tail(full, full) =~= Seq::<char>::empty());
    let e = s.0;
    assert(e.drop_last() =~= Seq::<EventModel>::empty());
    let p0 = r0.1[k];
    let item = done.get("item"@)->Some_0;
    let id = get_str(Some(item), "id"@);
    let name = get_str(Some(item), "name"@);
    let p = PendingModel {
        id: if id is Some { id } else { p0.id },
        name: if name is Some { name } else { p0.name },
        args: full,
    };
    let ps = seq![report(k, p, Seq::<char>::empty())];
    assert(ps.drop_last() =~= Seq::<crate::tool::PartialModel>::empty());
    assert(joined_args(ps.drop_last(), k) =~= Seq::<char>::empty());
    assert(joined_args(ps, k) =~= Seq::<char>::empty());
    assert(e.last() == EventModel::ToolCalls(ps));
    assert(event_args(e.drop_last(), k) =~= Seq::<char>::empty());
    assert(event_args(e, k) =~= Seq::<char>::empty());
    assert(event_args(r0.0, k) + Seq::<char>::empty() =~= full);
}

fn missing_tail_exec(sent: &str, full: &str) -> (r: String)
    ensures
        r@ == missing_tail(sent@, full@),
{
    let a = chars_of(sent);
    let b = chars_of(full);
    if a.len() > b.len() {
        return String::new();
    }
    let mut i: usize = 0;
    while i < a.len()
        invariant
            0 <= i <= a.len(),
            a.len() <= b.len(),
            a@ == sent@,
            b@ == full@,
            b@.subrange(0, i as int) == a@.subrange(0, i as int),
        decreases a.len() - i,
    {
        if a[i] != b[i] {
            assert(b@.subrange(0, a.len() as int)[i as int] != a@[i as int]);
            return String::new();
        }
        assert(b@.subrange(0, i + 1) =~= b@.subrange(0, i as int).push(b@[i as int]));
        assert(a@.subrange(0, i + 1) =~= a@.subrange(0, i as int).push(a@[i as int]));
        i = i + 1;
    }
    assert(a@.subrange(0, a.len() as int) =~= a@);
    let mut tail: Vec<char> = Vec::new();
    let mut j: usize = a.len();
    while j < b.len()
        invariant
            a.len() <= j <= b.len(),
            tail@ == b@.subrange(a.len() as int, j as int),
        decreases b.len() - j,
    {
        tail.push(b[j]);
        assert(b@.subrange(a.len() as int, j + 1) =~= b@.subrange(a.len() as int, j as int).push(b@[j as int]));
        j = j + 1;
    }
    string_of(tail.as_slice())
}

fn one_call(p: crate::tool::ToolCallPartial) -> (r: Vec<StreamEvent>)
    ensures
        event_models(r@) == seq![tool_calls_event(p.model())],
{
    let ghost pm = p.model();
    let v = vec![p];
    assert(partial_models(v@) =~= seq![pm]);
    let r = vec![StreamEvent::ToolCalls(v)];
    assert(event_models(r@) =~= seq![tool_calls_event(pm)]);
    r
}

/// Translate one Responses event into zero or more stream events, tracking
/// in-flight tool calls across events by `output_index`.
pub fn handle_responses_event(event: &str, data: &JsonValue, pending: &mut HashMap<u32, PendingToolCall>) -> (r: Vec<StreamEvent>)
    ensures
        (event_models(r@), table_model(final(pending)@)) == spec_responses_event(event@, data@, table_model(old(pending)@)),
{
    let k = index_field(data, "output_index");
    if str_eq(event, "response.output_text.delta") {
        match data.get("delta") {
            Some(x) => match x.as_str() {
                Some(s) => {
                    let cs = chars_of(s);
                    if cs.len() > 0 {
                        let r = vec![StreamEvent::Text(s.to_owned())];
                        assert(event_models(r@) =~= seq![EventModel::Text(s@)]);
                        return r;
                    }
                },
                None => {},
            },
            None => {},
        }
        no_events()
    } else if str_eq(event, "response.output_item.added") {
        match data.get("item") {
            Some(item) => {
                let ty = str_field(Some(item), "type");
                let is_call = match &ty {
                    Some(t) => str_eq(t.as_str(), "function_call"),
                    None => false,
                };
                if is_call {
                    let p = take_entry(pending, k);
                    let id = str_field(Some(item), "id");
                    let name = str_field(Some(item), "name");
                    let np = PendingToolCall { id, name, arguments: p.arguments };
                    let ghost pm = np.model();
                    put_entry(pending, k, np);
                    assert(table_model(old(pending)@).remove(k).insert(k, pm) =~= table_model(old(pending)@).insert(k, pm));
                }
            },
            None => {},
        }
        no_events()
    } else if str_eq(event, "response.function_call_arguments.delta") {
        let delta = match str_field(Some(data), "delta") {
            Some(s) => s,
            None => String::new(),
        };
        let mut p = take_entry(pending, k);
        let mut dv = chars_of(delta.as_str());
        let dlen = dv.len();
        let mut acc = chars_of(p.arguments.as_str());
        acc.append(&mut dv);
        p.arguments = string_of(acc.as_slice());
        let quiet = dlen == 0 && p.id.is_none() && p.name.is_none();
        let r = if quiet { no_events() } else { one_call(report_exec(k, &p, delta)) };
        let ghost pm = p.model();
        put_entry(pending, k, p);
        assert(table_model(old(pending)@).remove(k).insert(k, pm) =~= table_model(old(pending)@).insert(k, pm));
        r
    } else if str_eq(event, "response.function_call_arguments.done") {
        match data.get("item") {
            Some(item) => {
                let id = str_field(Some(item), "id");
                let name = str_field(Some(item), "name");
                let args = match str_field(Some(item), "arguments") {
                    Some(a) => a,
                    None => String::new(),
                };
                let mut p = take_entry(pending, k);
                if id.is_some() {
                    p.id = id;
                }
                if name.is_some() {
                    p.name = name;
                }
                let tail = missing_tail_exec(p.arguments.as_str(), args.as_str());
                p.arguments = args;
                let r = one_call(report_exec(k, &p, tail));
                let ghost pm = p.model();
                put_entry(pending, k, p);
                assert(table_model(old(pending)@).remove(k).insert(k, pm) =~= table_model(old(pending)@).insert(k, pm));
                r
            },
            None => {
                no_events()
            },
        }
    } else if str_eq(event, "response.completed") || str_eq(event, "response.incomplete") {
        let r = vec![StreamEvent::Done];
        assert(event_models(r@) =~= seq![EventModel::Done]);
        r
    } else {
        no_events()
    }
}



/// The upstream learns of tools only when there are some: the body has a
/// `tools` field exactly when at least one tool is given.
pub proof fn law_tools_field_only_with_tools(model: Seq<char>, msgs: Seq<ChatMessage>, tools: Option<Seq<ToolDefinition>>)
    ensures
        (spec_responses_body(model, msgs, tools).get("tools"@) is Some) <==> (tools matches Some(t) && t.len() > 0),
{
    reveal_strlit("tools");
    reveal_strlit("model");
    reveal_strlit("input");
    reveal_strlit("stream");
    let f = seq![
        ("model"@, Json::Str(model)),
        ("input"@, Json::Array(msgs.map_values(|m: ChatMessage| spec_input_json(m)))),
        ("stream"@, Json::Bool(true)),
    ];
    assert("model"@[0] != "tools"@[0]);
    assert("input"@[0] != "tools"@[0]);
    assert("stream"@[0] != "tools"@[0]);
    reveal_with_fuel(crate::json::fields_get, 4);
    assert(f.drop_first() =~= seq![f[1], f[2]]);
    assert(f.drop_first().drop_first() =~= seq![f[2]]);
    assert(f.drop_first().drop_first().drop_first() =~= Seq::<(Seq<char>, Json)>::empty());
    assert(crate::json::fields_get(f, "tools"@) is None);
    match tools {
        Some(t) => if t.len() > 0 {
            crate::json::lemma_fields_get_set_same(f, "tools"@, Json::Array(t.map_values(|x: ToolDefinition| spec_flat_tool_json(x))));
        },
        None => {},
    }
}

} // verus!
