//! OpenAI Chat Completions: request body and `data:` chunk translation.
//!
//! Wire: `POST {endpoint}/chat/completions` with `stream: true`; each chunk's
//! `choices[i].delta` carries `content` (text) and/or `tool_calls[]`; the
//! stream ends with `data: [DONE]`.

use vstd::prelude::*;
use crate::json::{Json, JsonValue, json_str, obj2, obj3, models_of, lemma_models_push, lemma_models_of_index, get_str, unwrap_or_empty, index_of, str_field, index_field, fields_get, lemma_fields_get_set_same};
use crate::text::{chars_of, string_of};
use crate::tool::{PartialModel, ToolCallPartial, ToolDefinition, partial_models, spec_tool_json};
use crate::types::{ChatRole, ChatMessage, AssistantToolCall, EventModel, StreamEvent, spec_role_name, spec_assistant_call_json};

verus! {

/// The wire name of a role.
pub fn role_to_str(role: ChatRole) -> (r: &'static str)
    ensures
        r@ == spec_role_name(role),
{
    match role {
        ChatRole::System => "system",
        ChatRole::User => "user",
        ChatRole::Assistant => "assistant",
        ChatRole::Tool => "tool",
    }
}

/// Wire shape of one message: `{role, content}` plus `tool_call_id` and
/// `tool_calls` when present.
pub open spec fn spec_chat_message_json(m: ChatMessage) -> Json {
    let base = Json::Object(seq![("role"@, Json::Str(spec_role_name(m.role))), ("content"@, Json::Str(m.content@))]);
    let b1 = match m.tool_call_id {
        Some(id) => base.set("tool_call_id"@, Json::Str(id@)),
        None => base,
    };
    match m.tool_calls {
        Some(tcs) => b1.set("tool_calls"@, Json::Array(tcs@.map_values(|c: AssistantToolCall| spec_assistant_call_json(c)))),
        None => b1,
    }
}

/// The request body: `{model, messages, stream: true}`, plus `tools` only
/// when at least one tool is given.
pub open spec fn spec_chat_body(model: Seq<char>, msgs: Seq<ChatMessage>, tools: Option<Seq<ToolDefinition>>) -> Json {
    let b = Json::Object(seq![
        ("model"@, Json::Str(model)),
        ("messages"@, Json::Array(msgs.map_values(|m: ChatMessage| spec_chat_message_json(m)))),
        ("stream"@, Json::Bool(true)),
    ]);
    match tools {
        Some(t) => if t.len() > 0 {
            b.set("tools"@, Json::Array(t.map_values(|x: ToolDefinition| spec_tool_json(x))))
        } else {
            b
        },
        None => b,
    }
}

pub(crate) fn message_json(m: &ChatMessage) -> (r: JsonValue)
    ensures
        r@ == spec_chat_message_json(*m),
{
    let mut obj = obj2("role", json_str(role_to_str(m.role)), "content", JsonValue::String(m.content.clone()));
    match &m.tool_call_id {
        Some(id) => obj.set("tool_call_id", JsonValue::String(id.clone())),
        None => {},
    }
    match &m.tool_calls {
        Some(tcs) => {
            let mut out: Vec<JsonValue> = Vec::new();
            let mut i: usize = 0;
            while i < tcs.len()
                invariant
                    0 <= i <= tcs.len(),
                    models_of(out@) == tcs@.take(i as int).map_values(|c: AssistantToolCall| spec_assistant_call_json(c)),
                decreases tcs.len() - i,
            {
                let j = tcs[i].to_json();
                proof { lemma_models_push(out@, j); }
                out.push(j);
                assert(tcs@.take(i + 1).map_values(|c: AssistantToolCall| spec_assistant_call_json(c))
                    =~= tcs@.take(i as int).map_values(|c: AssistantToolCall| spec_assistant_call_json(c)).push(spec_assistant_call_json(tcs@[i as int])));
                i = i + 1;
            }
            assert(tcs@.take(tcs@.len() as int) =~= tcs@);
            obj.set("tool_calls", JsonValue::Array(out));
        },
        None => {},
    }
    obj
}

/// Wire array of tools in the Chat Completions shape.
fn tools_json(tools: &[ToolDefinition]) -> (r: JsonValue)
    ensures
        r@ == Json::Array(tools@.map_values(|x: ToolDefinition| spec_tool_json(x))),
{
    let mut out: Vec<JsonValue> = Vec::new();
    let mut i: usize = 0;
    while i < tools.len()
        invariant
            0 <= i <= tools.len(),
            models_of(out@) == tools@.take(i as int).map_values(|x: ToolDefinition| spec_tool_json(x)),
        decreases tools.len() - i,
    {
        let j = tools[i].to_json();
        proof { lemma_models_push(out@, j); }
        out.push(j);
        assert(tools@.take(i + 1).map_values(|x: ToolDefinition| spec_tool_json(x))
            =~= tools@.take(i as int).map_values(|x: ToolDefinition| spec_tool_json(x)).push(spec_tool_json(tools@[i as int])));
        i = i + 1;
    }
    assert(tools@.take(tools@.len() as int) =~= tools@);
    JsonValue::Array(out)
}

/// Build the Chat Completions request body. The `tools` field is written
/// only when `tools` holds at least one tool.
pub fn build_request_body(model: &str, messages: &[ChatMessage], tools: Option<&[ToolDefinition]>) -> (r: JsonValue)
    ensures
        r@ == spec_chat_body(model@, messages@, match tools { Some(t) => Some(t@), None => None }),
{
    let mut out: Vec<JsonValue> = Vec::new();
    let mut i: usize = 0;
    while i < messages.len()
        invariant
            0 <= i <= messages.len(),
            models_of(out@) == messages@.take(i as int).map_values(|m: ChatMessage| spec_chat_message_json(m)),
        decreases messages.len() - i,
    {
        let j = message_json(&messages[i]);
        proof { lemma_models_push(out@, j); }
        out.push(j);
        assert(messages@.take(i + 1).map_values(|m: ChatMessage| spec_chat_message_json(m))
            =~= messages@.take(i as int).map_values(|m: ChatMessage| spec_chat_message_json(m)).push(spec_chat_message_json(messages@[i as int])));
        i = i + 1;
    }
    assert(messages@.take(messages@.len() as int) =~= messages@);
    let mut body = obj3(
        "model", json_str(model),
        "messages", JsonValue::Array(out),
        "stream", JsonValue::Bool(true),
    );
    match tools {
        Some(t) => {
            if t.len() > 0 {
                body.set("tools", tools_json(t));
            }
        },
        None => {},
    }
    body
}


/// One tool-call delta entry as a partial.
pub open spec fn spec_chat_partial(tc: Json) -> PartialModel {
    PartialModel {
        index: index_of(tc, "index"@),
        id: get_str(Some(tc), "id"@),
        name: get_str(tc.get("function"@), "name"@),
        args: unwrap_or_empty(get_str(tc.get("function"@), "arguments"@)),
    }
}

/// Text carried by one choice's delta.
pub open spec fn choice_text(c: Json) -> Seq<char> {
    unwrap_or_empty(get_str(c.get("delta"@), "content"@))
}

/// Tool-call partials carried by one choice's delta.
pub open spec fn choice_calls(c: Json) -> Seq<PartialModel> {
    match c.get("delta"@) {
        Some(d) => match d.get("tool_calls"@) {
            Some(t) => match t.as_array() {
                Some(tcs) => tcs.map_values(|tc: Json| spec_chat_partial(tc)),
                None => Seq::empty(),
            },
            None => Seq::empty(),
        },
        None => Seq::empty(),
    }
}

pub open spec fn chunk_text(cs: Seq<Json>) -> Seq<char>
    decreases cs.len(),
{
    if cs.len() == 0 {
        Seq::empty()
    } else {
        chunk_text(cs.drop_last()) + choice_text(cs.last())
    }
}

pub open spec fn chunk_calls(cs: Seq<Json>) -> Seq<PartialModel>
    decreases cs.len(),
{
    if cs.len() == 0 {
        Seq::empty()
    } else {
        chunk_calls(cs.drop_last()) + choice_calls(cs.last())
    }
}

/// The event a chunk carries: the text of all choices concatenated, or, if
/// any choice declares tool calls, those partials (text is then dropped);
/// nothing when the chunk carries neither.
pub open spec fn spec_parse_openai_chunk(v: Json) -> Option<EventModel> {
    match v.get("choices"@) {
        Some(c) => match c.as_array() {
            Some(cs) => {
                let t = chunk_text(cs);
                let calls = chunk_calls(cs);
                if t.len() == 0 && calls.len() == 0 {
                    None
                } else if calls.len() == 0 {
                    Some(EventModel::Text(t))
                } else {
                    Some(EventModel::ToolCalls(calls))
                }
            },
            None => None,
        },
        None => None,
    }
}

/// A chunk whose one choice declares tool calls yields one fragment per
/// `tool_calls` entry, in order, each carrying that entry's own `index`
/// (0 only when absent), `id`, function name and arguments text: parallel
/// tool calls stay apart.
pub proof fn law_chat_fragments_keep_entry_index(v: Json, choice: Json, delta: Json, tcs: Seq<Json>)
    requires
        v.get("choices"@) == Some(Json::Array(seq![choice])),
        choice.get("delta"@) == Some(delta),
        delta.get("tool_calls"@) == Some(Json::Array(tcs)),
        tcs.len() > 0,
    ensures
        spec_parse_openai_chunk(v) matches Some(EventModel::ToolCalls(ps))
            && ps.len() == tcs.len()
            && forall|i: int| 0 <= i < tcs.len() ==> {
                &&& (#[trigger] ps[i]).index == index_of(tcs[i], "index"@)
                &&& ps[i].id == get_str(Some(tcs[i]), "id"@)
                &&& ps[i].name == get_str(tcs[i].get("function"@), "name"@)
                &&& ps[i].args == unwrap_or_empty(get_str(tcs[i].get("function"@), "arguments"@))
            },
{
    let cs = seq![choice];
    assert(cs.drop_last() =~= Seq::<Json>::empty());
    assert(cs.last() == choice);
    let calls = chunk_calls(cs);
    assert(chunk_calls(cs.drop_last()) =~= Seq::<PartialModel>::empty());
    assert(calls =~= tcs.map_values(|tc: Json| spec_chat_partial(tc)));
    assert(calls.len() > 0);
}

fn chat_partial(tc: &JsonValue) -> (r: ToolCallPartial)
    ensures
        r.model() == spec_chat_partial(tc@),
{
    let index = index_field(tc, "index");
    let id = str_field(Some(tc), "id");
    let f = tc.get("function");
    let name = str_field(f, "name");
    let args = match str_field(f, "arguments") {
        Some(a) => a,
        None => String::new(),
    };
    ToolCallPartial { index, id, name, arguments_delta: args }
}

/// Parse one Chat Completions chunk into the event it carries, if any.
pub fn parse_openai_chunk(v: &JsonValue) -> (r: Result<Option<StreamEvent>, String>)
    ensures
        r matches Ok(e) && match e {
            Some(ev) => spec_parse_openai_chunk(v@) == Some(ev.model()),
            None => spec_parse_openai_chunk(v@) is None,
        },
{
    let choices = match v.get("choices") {
        Some(c) => match c.as_array() {
            Some(a) => a,
            None => return Ok(None),
        },
        None => return Ok(None),
    };
    let ghost cs = models_of(choices@);
    proof { lemma_models_of_index(choices@); }
    let mut text: Vec<char> = Vec::new();
    let mut calls: Vec<ToolCallPartial> = Vec::new();
    let mut i: usize = 0;
    while i < choices.len()
        invariant
            0 <= i <= choices.len(),
            cs == models_of(choices@),
            cs.len() == choices@.len(),
            forall|k: int| 0 <= k < choices@.len() ==> #[trigger] cs[k] == choices@[k].model(),
            text@ == chunk_text(cs.take(i as int)),
            partial_models(calls@) == chunk_calls(cs.take(i as int)),
        decreases choices.len() - i,
    {
        let choice = &choices[i];
        assert(cs.take(i + 1).drop_last() =~= cs.take(i as int));
        assert(cs.take(i + 1).last() == choice@);
        match choice.get("delta") {
            Some(delta) => {
                match delta.get("content") {
                    Some(c) => match c.as_str() {
                        Some(content) => {
                            let piece = chars_of(content);
                            let mut p = piece;
                            text.append(&mut p);
                        },
                        None => {},
                    },
                    None => {},
                }
                match delta.get("tool_calls") {
                    Some(t) => match t.as_array() {
                        Some(tcs) => {
                            let ghost base = partial_models(calls@);
                            let ghost tm = models_of(tcs@);
                            proof { lemma_models_of_index(tcs@); }
                            let mut k: usize = 0;
                            while k < tcs.len()
                                invariant
                                    0 <= k <= tcs.len(),
                                    tm == models_of(tcs@),
                                    tm.len() == tcs@.len(),
                                    forall|q: int| 0 <= q < tcs@.len() ==> #[trigger] tm[q] == tcs@[q].model(),
                                    partial_models(calls@) == base + tm.take(k as int).map_values(|tc: Json| spec_chat_partial(tc)),
                                decreases tcs.len() - k,
                            {
                                let p = chat_partial(&tcs[k]);
                                let ghost before = partial_models(calls@);
                                calls.push(p);
                                assert(partial_models(calls@) =~= before.push(p.model()));
                                assert(tm.take(k + 1).map_values(|tc: Json| spec_chat_partial(tc))
                                    =~= tm.take(k as int).map_values(|tc: Json| spec_chat_partial(tc)).push(spec_chat_partial(tm[k as int])));
                                k = k + 1;
                            }
                            assert(tm.take(tm.len() as int) =~= tm);
                        },
                        None => {},
                    },
                    None => {},
                }
            },
            None => {},
        }
        assert(text@ == chunk_text(cs.take(i + 1)));
        assert(partial_models(calls@) =~= chunk_calls(cs.take(i + 1)));
        i = i + 1;
    }
    assert(cs.take(cs.len() as int) =~= cs);
    if text.len() == 0 && calls.len() == 0 {
        return Ok(None);
    }
    if calls.len() == 0 {
        Ok(Some(StreamEvent::Text(string_of(text.as_slice()))))
    } else {
        Ok(Some(StreamEvent::ToolCalls(calls)))
    }
}


/// The upstream learns of tools only when there are some: the body has a
/// `tools` field exactly when at least one tool is given.
pub proof fn law_tools_field_only_with_tools(model: Seq<char>, msgs: Seq<ChatMessage>, tools: Option<Seq<ToolDefinition>>)
    ensures
        (spec_chat_body(model, msgs, tools).get("tools"@) is Some) <==> (tools matches Some(t) && t.len() > 0),
{
    reveal_strlit("tools");
    reveal_strlit("model");
    reveal_strlit("messages");
    reveal_strlit("stream");
    let f = seq![
        ("model"@, Json::Str(model)),
        ("messages"@, Json::Array(msgs.map_values(|m: ChatMessage| spec_chat_message_json(m)))),
        ("stream"@, Json::Bool(true)),
    ];
    assert("model"@[0] != "tools"@[0]);
    assert("messages"@[0] != "tools"@[0]);
    assert("stream"@[0] != "tools"@[0]);
    reveal_with_fuel(fields_get, 4);
    assert(f.drop_first() =~= seq![f[1], f[2]]);
    assert(f.drop_first().drop_first() =~= seq![f[2]]);
    assert(f.drop_first().drop_first().drop_first() =~= Seq::<(Seq<char>, Json)>::empty());
    assert(fields_get(f, "tools"@) is None);
    match tools {
        Some(t) => if t.len() > 0 {
            lemma_fields_get_set_same(f, "tools"@, Json::Array(t.map_values(|x: ToolDefinition| spec_tool_json(x))));
        },
        None => {},
    }
}

} // verus!
