//! Decisions of the tool-calling agent loop.
//!
//! One chat runs up to `MAX_AGENT_TURNS` turns. Each turn streams one
//! completion; the tool calls it declares are collected, an assistant
//! message carrying them is appended to the working conversation, and each
//! call is run, asked about, or denied according to its permission. Every
//! result goes back as a `role: tool` message and the next turn starts.
//! Waiting for the user, emitting events and the network live outside this
//! module; it only says what happens next.

use vstd::prelude::*;
use crate::clock::utc_now_rfc3339;
use crate::error::ChatErrorKind;
use crate::json::{Json, JsonValue, json_str, obj1, obj2, obj4};
use crate::json_write::{escape_str, json_text, lemma_object_starts_with_first_key, quoted, to_json_string};
use crate::text::{concat_str, spec_contains, str_contains, str_eq};
use crate::tool::{ToolCallPartial, copy_opt, partial_models, PartialModel, opt_view};
use crate::types::{AssistantToolCall, AssistantToolCallFunction, ChatMessage, ChatRole, StreamEvent};

verus! {

/// Most turns one chat may take (LLM → tools → LLM → …).
pub const MAX_AGENT_TURNS: u32 = 4;

/// Per-tool execution permission. Unknown values mean `Auto`.
#[derive(Debug, Clone, Copy, PartialEq, Eq, Structural)]
pub enum ToolPerm {
    Auto,
    Ask,
    Deny,
}

pub open spec fn spec_parse_perm(s: Seq<char>) -> ToolPerm {
    if s == "ask"@ {
        ToolPerm::Ask
    } else if s == "deny"@ {
        ToolPerm::Deny
    } else {
        ToolPerm::Auto
    }
}

impl ToolPerm {
    /// `"ask"` and `"deny"`; anything else runs automatically.
    pub fn parse(s: &str) -> (r: ToolPerm)
        ensures
            r == spec_parse_perm(s@),
    {
        if str_eq(s, "ask") {
            ToolPerm::Ask
        } else if str_eq(s, "deny") {
            ToolPerm::Deny
        } else {
            ToolPerm::Auto
        }
    }
}

/// Permission of the first entry named `name`, or `Auto`.
pub open spec fn spec_perm_for(perms: Seq<(Seq<char>, ToolPerm)>, name: Seq<char>) -> ToolPerm
    decreases perms.len(),
{
    if perms.len() == 0 {
        ToolPerm::Auto
    } else if perms[0].0 == name {
        perms[0].1
    } else {
        spec_perm_for(perms.drop_first(), name)
    }
}

pub open spec fn perm_models(p: Seq<(String, ToolPerm)>) -> Seq<(Seq<char>, ToolPerm)> {
    p.map_values(|e: (String, ToolPerm)| (e.0@, e.1))
}

pub open spec fn raw_perm_models(p: Seq<(String, String)>) -> Seq<(Seq<char>, ToolPerm)> {
    p.map_values(|e: (String, String)| (e.0@, spec_parse_perm(e.1@)))
}

/// The permission table of a chat: each tool name with its parsed
/// permission (no table at all is an empty one).
pub fn permission_table(raw: Option<Vec<(String, String)>>) -> (r: Vec<(String, ToolPerm)>)
    ensures
        perm_models(r@) == match raw { Some(v) => raw_perm_models(v@), None => Seq::empty() },
{
    let mut out: Vec<(String, ToolPerm)> = Vec::new();
    match raw {
        None => {
            assert(perm_models(out@) =~= Seq::<(Seq<char>, ToolPerm)>::empty());
            out
        },
        Some(v) => {
            let mut i: usize = 0;
            while i < v.len()
                invariant
                    0 <= i <= v.len(),
                    perm_models(out@) == raw_perm_models(v@.take(i as int)),
                decreases v.len() - i,
            {
                let p = ToolPerm::parse(v[i].1.as_str());
                out.push((v[i].0.clone(), p));
                assert(raw_perm_models(v@.take(i + 1)) =~= raw_perm_models(v@.take(i as int)).push((v@[i as int].0@, p)));
                assert(perm_models(out@) =~= raw_perm_models(v@.take(i + 1)));
                i = i + 1;
            }
            assert(v@.take(v@.len() as int) =~= v@);
            out
        },
    }
}

/// Permission of tool `name` (`Auto` when the table does not name it).
pub fn perm_for(perms: &[(String, ToolPerm)], name: &str) -> (r: ToolPerm)
    ensures
        r == spec_perm_for(perm_models(perms@), name@),
{
    let ghost m = perm_models(perms@);
    let mut i: usize = 0;
    assert(m.subrange(0, m.len() as int) =~= m);
    while i < perms.len()
        invariant
            0 <= i <= perms.len(),
            m == perm_models(perms@),
            m.len() == perms@.len(),
            spec_perm_for(m, name@) == spec_perm_for(m.subrange(i as int, m.len() as int), name@),
        decreases perms.len() - i,
    {
        assert(m.subrange(i as int, m.len() as int).drop_first() =~= m.subrange(i + 1, m.len() as int));
        if str_eq(perms[i].0.as_str(), name) {
            return perms[i].1;
        }
        i = i + 1;
    }
    ToolPerm::Auto
}

/// The result a denied call reports to the model.
pub open spec fn spec_denial(call_id: Seq<char>, name: Seq<char>, reason: Seq<char>) -> Json {
    Json::Object(seq![
        ("error"@, Json::Str("user_denied"@)),
        ("reason"@, Json::Str(reason)),
        ("tool_call_id"@, Json::Str(call_id)),
        ("tool_name"@, Json::Str(name)),
    ])
}

/// JSON text of a denial.
pub fn denial_json(call_id: &str, name: &str, reason: &str) -> (r: String)
    ensures
        r@ == json_text(spec_denial(call_id@, name@, reason@)),
{
    let v = obj4(
        "error", json_str("user_denied"),
        "reason", json_str(reason),
        "tool_call_id", json_str(call_id),
        "tool_name", json_str(name),
    );
    to_json_string(&v)
}

/// What the built-in tool registry answers: the current time (given as
/// `now`), an echo of the arguments, or an unknown-tool error.
pub open spec fn spec_tool_output(name: Seq<char>, args: Seq<char>, now: Seq<char>) -> Json {
    if name == "get_current_time"@ {
        Json::Object(seq![("current_time"@, Json::Str(now)), ("timezone"@, Json::Str("UTC"@))])
    } else if name == "echo"@ {
        Json::Object(seq![("echoed"@, Json::Str(args))])
    } else {
        Json::Object(seq![("error"@, Json::Str("unknown tool: "@ + name)), ("received_args"@, Json::Str(args))])
    }
}

/// JSON text of the registry's answer, with the current time given.
pub fn tool_output_json(name: &str, args_json: &str, now: &str) -> (r: String)
    ensures
        r@ == json_text(spec_tool_output(name@, args_json@, now@)),
{
    let v = if str_eq(name, "get_current_time") {
        obj2("current_time", json_str(now), "timezone", json_str("UTC"))
    } else if str_eq(name, "echo") {
        obj1("echoed", json_str(args_json))
    } else {
        obj2("error", JsonValue::String(concat_str("unknown tool: ", name)), "received_args", json_str(args_json))
    };
    to_json_string(&v)
}

/// Runs a built-in tool. Only `get_current_time` reads the clock.
pub fn execute_tool(name: &str, args_json: &str) -> (r: String)
    ensures
        exists|now: Seq<char>| r@ == json_text(spec_tool_output(name@, args_json@, now)),
        name@ != "get_current_time"@ ==> r@ == json_text(spec_tool_output(name@, args_json@, Seq::empty())),
{
    if str_eq(name, "get_current_time") {
        let now = utc_now_rfc3339();
        tool_output_json(name, args_json, now.as_str())
    } else {
        tool_output_json(name, args_json, "")
    }
}

/// A result counts as a success when it holds no `"error"` key text.
pub open spec fn spec_tool_success(result: Seq<char>) -> bool {
    !spec_contains(result, "\"error\""@)
}

pub fn tool_succeeded(result_json: &str) -> (r: bool)
    ensures
        r == spec_tool_success(result_json@),
{
    !str_contains(result_json, "\"error\"")
}

/// How a tool call was decided.
#[derive(Debug, Clone, Copy, PartialEq, Eq, Structural)]
pub enum ToolVerdict {
    /// Ran without asking.
    Auto,
    /// The user approved it.
    Approved,
    /// Denied by policy or by the user.
    Denied,
}

pub open spec fn spec_verdict_label(v: ToolVerdict) -> Seq<char> {
    match v {
        ToolVerdict::Auto => "auto"@,
        ToolVerdict::Approved => "approved"@,
        ToolVerdict::Denied => "denied"@,
    }
}

impl ToolVerdict {
    pub fn label(self) -> (r: &'static str)
        ensures
            r@ == spec_verdict_label(self),
    {
        match self {
            ToolVerdict::Auto => "auto",
            ToolVerdict::Approved => "approved",
            ToolVerdict::Denied => "denied",
        }
    }
}

/// The result of one tool call.
pub struct ToolOutcome {
    /// JSON text handed back to the model.
    pub result_json: String,
    pub verdict: ToolVerdict,
    /// `result_json` holds no `"error"` key.
    pub success: bool,
}

/// Decides one tool call. `approved` is the user's answer, read only when
/// the permission is `Ask` (a timeout or a cancel counts as a denial).
pub fn resolve_tool_call(perm: ToolPerm, approved: bool, call_id: &str, name: &str, args_json: &str) -> (r: ToolOutcome)
    ensures
        r.success == spec_tool_success(r.result_json@),
        perm == ToolPerm::Deny ==> r.verdict == ToolVerdict::Denied
            && r.result_json@ == json_text(spec_denial(call_id@, name@, "denied by policy"@)),
        perm == ToolPerm::Ask && !approved ==> r.verdict == ToolVerdict::Denied
            && r.result_json@ == json_text(spec_denial(call_id@, name@, "user clicked Deny"@)),
        perm == ToolPerm::Ask && approved ==> r.verdict == ToolVerdict::Approved,
        perm == ToolPerm::Auto ==> r.verdict == ToolVerdict::Auto,
        (perm == ToolPerm::Auto || (perm == ToolPerm::Ask && approved)) ==> {
            &&& exists|now: Seq<char>| r.result_json@ == json_text(spec_tool_output(name@, args_json@, now))
            &&& name@ != "get_current_time"@ ==> r.result_json@ == json_text(spec_tool_output(name@, args_json@, Seq::empty()))
        },
{
    let (result_json, verdict) = match perm {
        ToolPerm::Deny => (denial_json(call_id, name, "denied by policy"), ToolVerdict::Denied),
        ToolPerm::Ask => if approved {
            (execute_tool(name, args_json), ToolVerdict::Approved)
        } else {
            (denial_json(call_id, name, "user clicked Deny"), ToolVerdict::Denied)
        },
        ToolPerm::Auto => (execute_tool(name, args_json), ToolVerdict::Auto),
    };
    let success = tool_succeeded(result_json.as_str());
    ToolOutcome { result_json, verdict, success }
}

/// A denied call is never reported as a success: its result names an
/// `"error"` key.
pub proof fn law_denial_is_failure(call_id: Seq<char>, name: Seq<char>, reason: Seq<char>)
    ensures
        !spec_tool_success(json_text(spec_denial(call_id, name, reason))),
{
    reveal_strlit("\"error\"");
    reveal_strlit("error");
    reveal_with_fuel(escape_str, 6);
    let j = spec_denial(call_id, name, reason);
    let f = seq![
        ("error"@, Json::Str("user_denied"@)),
        ("reason"@, Json::Str(reason)),
        ("tool_call_id"@, Json::Str(call_id)),
        ("tool_name"@, Json::Str(name)),
    ];
    assert(j == Json::Object(f));
    let t = json_text(j);
    lemma_object_starts_with_first_key(f);
    let e = "error"@;
    assert(escape_str(e) =~= e);
    let needle = "\"error\""@;
    assert(quoted(e) =~= needle);
    let p = seq!['{'] + quoted(f[0].0);
    assert(p =~= seq!['{'] + needle);
    assert(p.is_prefix_of(t));
    assert(t.subrange(0, 8) =~= p);
    assert(t.subrange(1, 1 + needle.len() as int) =~= p.subrange(1, 8));
    assert(t.subrange(1, 1 + needle.len() as int) =~= needle);
}

/// A tool call the loop has to settle.
pub struct ToolJob {
    pub call_id: String,
    pub name: String,
    pub arguments: String,
}

/// What one stream event means for the loop.
pub enum StreamStep {
    /// Show this text delta.
    Chunk(String),
    /// Show these tool-call fragments (they are also collected).
    ToolCalls(Vec<ToolCallPartial>),
    /// The stream ended cleanly.
    End,
    /// The stream failed; the chat stops here.
    Failed(ChatErrorKind, String),
}

/// The assistant tool call built from a joined call.
pub open spec fn spec_assistant_call(p: PartialModel, c: AssistantToolCall) -> bool {
    &&& c.id@ == match p.id { Some(s) => s, None => Seq::empty() }
    &&& c.kind@ == "function"@
    &&& c.function.name@ == match p.name { Some(s) => s, None => Seq::empty() }
    &&& c.function.arguments@ == p.args
}

/// The assistant message that carries a turn's tool calls.
pub open spec fn spec_assistant_message(parts: Seq<PartialModel>, m: ChatMessage) -> bool {
    &&& m.role == ChatRole::Assistant
    &&& m.content@ == Seq::<char>::empty()
    &&& m.tool_call_id is None
    &&& m.tool_calls matches Some(v) && v@.len() == parts.len()
        && forall|i: int| 0 <= i < parts.len() ==> #[trigger] spec_assistant_call(parts[i], v@[i])
}

/// Position of the first call with streaming index `k`.
pub open spec fn call_pos(acc: Seq<PartialModel>, k: u32) -> Option<int>
    decreases acc.len(),
{
    if acc.len() == 0 {
        None
    } else {
        match call_pos(acc.drop_last(), k) {
            Some(j) => Some(j),
            None => if acc.last().index == k { Some(acc.len() - 1) } else { None },
        }
    }
}

/// A call extended by one more fragment of the same index: the arguments
/// are joined; the id and name are the first ones a fragment carried.
pub open spec fn merge_part(c: PartialModel, p: PartialModel) -> PartialModel {
    PartialModel {
        index: c.index,
        id: if c.id is Some { c.id } else { p.id },
        name: if c.name is Some { c.name } else { p.name },
        args: c.args + p.args,
    }
}

/// The calls so far, extended by one fragment.
pub open spec fn add_part(acc: Seq<PartialModel>, p: PartialModel) -> Seq<PartialModel> {
    match call_pos(acc, p.index) {
        Some(j) => acc.update(j, merge_part(acc[j], p)),
        None => acc.push(p),
    }
}

/// The tool calls of a turn: fragments joined by streaming index, one
/// call per distinct index, in the order the indices were first seen.
pub open spec fn join_parts(parts: Seq<PartialModel>) -> Seq<PartialModel>
    decreases parts.len(),
{
    if parts.len() == 0 {
        Seq::empty()
    } else {
        add_part(join_parts(parts.drop_last()), parts.last())
    }
}

/// The arguments of every fragment with index `k`, joined in order.
pub open spec fn joined_args(parts: Seq<PartialModel>, k: u32) -> Seq<char>
    decreases parts.len(),
{
    if parts.len() == 0 {
        Seq::empty()
    } else {
        joined_args(parts.drop_last(), k) + if parts.last().index == k { parts.last().args } else { Seq::empty() }
    }
}

pub proof fn lemma_call_pos(acc: Seq<PartialModel>, k: u32)
    ensures
        call_pos(acc, k) matches Some(j) ==> 0 <= j < acc.len() && acc[j].index == k,
        call_pos(acc, k) is None ==> forall|j: int| 0 <= j < acc.len() ==> acc[j].index != k,
    decreases acc.len(),
{
    if acc.len() > 0 {
        lemma_call_pos(acc.drop_last(), k);
        if call_pos(acc, k) is None {
            assert forall|j: int| 0 <= j < acc.len() implies #[trigger] acc[j].index != k by {
                if j < acc.len() - 1 {
                    assert(acc[j] == acc.drop_last()[j]);
                }
            }
        }
        if let Some(j) = call_pos(acc.drop_last(), k) {
            assert(acc[j] == acc.drop_last()[j]);
        }
    }
}

/// Joining by index: each index has one call, and a call's arguments are
/// the arguments of all fragments of its index, joined in stream order;
/// an index without a call has no fragments.
pub proof fn law_fragments_join_by_index(parts: Seq<PartialModel>)
    ensures
        forall|a: int, b: int| 0 <= a < b < join_parts(parts).len()
            ==> #[trigger] join_parts(parts)[a].index != #[trigger] join_parts(parts)[b].index,
        forall|j: int| 0 <= j < join_parts(parts).len()
            ==> (#[trigger] join_parts(parts)[j]).args == joined_args(parts, join_parts(parts)[j].index),
        forall|k: u32| call_pos(join_parts(parts), k) is None ==> #[trigger] joined_args(parts, k) == Seq::<char>::empty(),
    decreases parts.len(),
{
    if parts.len() > 0 {
        let prev = parts.drop_last();
        let p = parts.last();
        law_fragments_join_by_index(prev);
        let acc = join_parts(prev);
        let acc2 = join_parts(parts);
        lemma_call_pos(acc, p.index);
        assert forall|k: u32| joined_args(parts, k) == joined_args(prev, k)
            + (if p.index == k { p.args } else { Seq::<char>::empty() }) by {}
        match call_pos(acc, p.index) {
            Some(j0) => {
                assert(acc2 == acc.update(j0, merge_part(acc[j0], p)));
                assert forall|j: int| 0 <= j < acc2.len()
                    implies (#[trigger] acc2[j]).args == joined_args(parts, acc2[j].index) by {
                    if j != j0 {
                        assert(acc2[j] == acc[j]);
                        assert(acc[j].index != p.index);
                        assert(joined_args(parts, acc[j].index) =~= joined_args(prev, acc[j].index));
                    }
                }
                assert forall|k: u32| call_pos(acc2, k) is None implies #[trigger] joined_args(parts, k) == Seq::<char>::empty() by {
                    lemma_call_pos(acc2, k);
                    lemma_call_pos(acc, k);
                    if let Some(jj) = call_pos(acc, k) {
                        assert(acc2[jj].index == acc[jj].index);
                    }
                    assert(k != p.index);
                    assert(joined_args(parts, k) =~= joined_args(prev, k));
                }
            },
            None => {
                assert(acc2 == acc.push(p));
                assert(joined_args(prev, p.index) == Seq::<char>::empty());
                assert forall|j: int| 0 <= j < acc2.len()
                    implies (#[trigger] acc2[j]).args == joined_args(parts, acc2[j].index) by {
                    if j < acc.len() {
                        assert(acc2[j] == acc[j]);
                        assert(joined_args(parts, acc[j].index) =~= joined_args(prev, acc[j].index));
                    } else {
                        assert(joined_args(parts, p.index) =~= p.args);
                    }
                }
                assert forall|k: u32| call_pos(acc2, k) is None implies #[trigger] joined_args(parts, k) == Seq::<char>::empty() by {
                    lemma_call_pos(acc2, k);
                    lemma_call_pos(acc, k);
                    if let Some(jj) = call_pos(acc, k) {
                        assert(acc2[jj] == acc[jj]);
                    }
                    assert(acc2[acc.len() as int] == p);
                    assert(k != p.index);
                    assert(joined_args(parts, k) =~= joined_args(prev, k));
                }
            },
        }
    }
}

/// Position of the first collected call with index `k`.
fn find_call(acc: &Vec<ToolCallPartial>, k: u32) -> (r: Option<usize>)
    ensures
        match r {
            Some(j) => call_pos(partial_models(acc@), k) == Some(j as int),
            None => call_pos(partial_models(acc@), k) is None,
        },
{
    let ghost m = partial_models(acc@);
    let mut j: usize = 0;
    while j < acc.len()
        invariant
            0 <= j <= acc.len(),
            m == partial_models(acc@),
            call_pos(m.take(j as int), k) is None,
        decreases acc.len() - j,
    {
        assert(m.take(j + 1).drop_last() =~= m.take(j as int));
        if acc[j].index == k {
            assert(m.take(j + 1).last().index == k);
            proof { lemma_call_pos_prefix(m, k, j + 1); }
            return Some(j);
        }
        j = j + 1;
    }
    assert(m.take(acc.len() as int) =~= m);
    None
}

/// A position found in a prefix is the position in the whole sequence.
proof fn lemma_call_pos_prefix(m: Seq<PartialModel>, k: u32, n: int)
    requires
        0 <= n <= m.len(),
        call_pos(m.take(n), k) is Some,
    ensures
        call_pos(m, k) == call_pos(m.take(n), k),
    decreases m.len() - n,
{
    if n < m.len() {
        assert(m.take(n + 1).drop_last() =~= m.take(n));
        lemma_call_pos_prefix(m, k, n + 1);
    } else {
        assert(m.take(n) =~= m);
    }
}

/// The collected fragments joined into calls (see `join_parts`).
fn join_fragments(parts: &Vec<ToolCallPartial>) -> (r: Vec<ToolCallPartial>)
    ensures
        partial_models(r@) == join_parts(partial_models(parts@)),
{
    let ghost pm = partial_models(parts@);
    let mut acc: Vec<ToolCallPartial> = Vec::new();
    let mut i: usize = 0;
    assert(partial_models(acc@) =~= join_parts(pm.take(0)));
    while i < parts.len()
        invariant
            0 <= i <= parts.len(),
            pm == partial_models(parts@),
            partial_models(acc@) == join_parts(pm.take(i as int)),
        decreases parts.len() - i,
    {
        let p = &parts[i];
        assert(pm.take(i + 1).drop_last() =~= pm.take(i as int));
        assert(pm.take(i + 1).last() == p.model());
        let ghost before = partial_models(acc@);
        match find_call(&acc, p.index) {
            Some(j) => {
                proof { lemma_call_pos(before, p.index); }
                let c = &acc[j];
                let merged = ToolCallPartial {
                    index: c.index,
                    id: if c.id.is_some() { copy_opt(&c.id) } else { copy_opt(&p.id) },
                    name: if c.name.is_some() { copy_opt(&c.name) } else { copy_opt(&p.name) },
                    arguments_delta: concat_str(c.arguments_delta.as_str(), p.arguments_delta.as_str()),
                };
                assert(merged.model() == merge_part(before[j as int], p.model()));
                acc.set(j, merged);
                assert(partial_models(acc@) =~= before.update(j as int, merge_part(before[j as int], p.model())));
            },
            None => {
                acc.push(p.duplicate());
                assert(partial_models(acc@) =~= before.push(p.model()));
            },
        }
        i = i + 1;
    }
    assert(pm.take(parts.len() as int) =~= pm);
    acc
}

/// State of one chat's agent loop.
pub struct AgentLoop {
    /// The conversation as the next turn sends it.
    pub working: Vec<ChatMessage>,
    /// Turns started so far.
    pub turn: u32,
    /// Tool-call fragments collected in the current turn.
    pub tool_calls: Vec<ToolCallPartial>,
}

fn unwrap_or_empty_string(o: &Option<String>) -> (r: String)
    ensures
        r@ == match opt_view(*o) { Some(s) => s, None => Seq::empty() },
{
    match o {
        Some(s) => s.clone(),
        None => String::new(),
    }
}

impl AgentLoop {
    pub fn new(messages: Vec<ChatMessage>) -> (r: AgentLoop)
        ensures
            r.working@ == messages@,
            r.turn == 0,
            r.tool_calls@.len() == 0,
    {
        AgentLoop { working: messages, turn: 0, tool_calls: Vec::new() }
    }

    /// Starts the next turn, if the turn budget allows: returns its index
    /// and clears the collected tool calls.
    pub fn begin_turn(&mut self) -> (r: Option<u32>)
        ensures
            old(self).turn < MAX_AGENT_TURNS ==> r == Some(old(self).turn)
                && final(self).turn == old(self).turn + 1
                && final(self).tool_calls@.len() == 0,
            old(self).turn >= MAX_AGENT_TURNS ==> r is None && final(self).turn == old(self).turn
                && final(self).tool_calls@ == old(self).tool_calls@,
            final(self).working@ == old(self).working@,
            r matches Some(t) ==> t < MAX_AGENT_TURNS,
    {
        if self.turn < MAX_AGENT_TURNS {
            let t = self.turn;
            self.turn = t + 1;
            self.tool_calls = Vec::new();
            Some(t)
        } else {
            None
        }
    }

    /// Takes one stream event: text is shown, tool-call fragments are shown
    /// and collected, `Done` ends the stream, an error fails the chat.
    pub fn on_event(&mut self, ev: StreamEvent) -> (r: StreamStep)
        ensures
            final(self).working@ == old(self).working@,
            final(self).turn == old(self).turn,
            match ev {
                StreamEvent::Text(d) => r matches StreamStep::Chunk(x) && x@ == d@
                    && final(self).tool_calls@ == old(self).tool_calls@,
                StreamEvent::ToolCalls(parts) => r matches StreamStep::ToolCalls(x)
                    && partial_models(x@) == partial_models(parts@)
                    && partial_models(final(self).tool_calls@) == partial_models(old(self).tool_calls@) + partial_models(parts@),
                StreamEvent::Done => r is End && final(self).tool_calls@ == old(self).tool_calls@,
                StreamEvent::Error { kind, message } => r matches StreamStep::Failed(k, m) && k == kind
                    && m@ == message@ && final(self).tool_calls@ == old(self).tool_calls@,
            },
    {
        match ev {
            StreamEvent::Text(d) => StreamStep::Chunk(d),
            StreamEvent::ToolCalls(parts) => {
                let ghost before = partial_models(self.tool_calls@);
                let mut shown: Vec<ToolCallPartial> = Vec::new();
                let mut i: usize = 0;
                while i < parts.len()
                    invariant
                        0 <= i <= parts.len(),
                        partial_models(shown@) == partial_models(parts@.take(i as int)),
                        partial_models(self.tool_calls@) == before + partial_models(parts@.take(i as int)),
                        self.working@ == old(self).working@,
                        self.turn == old(self).turn,
                    decreases parts.len() - i,
                {
                    let a = parts[i].duplicate();
                    let b = parts[i].duplicate();
                    shown.push(a);
                    let ghost tc_before = self.tool_calls@;
                    self.tool_calls.push(b);
                    assert(partial_models(self.tool_calls@) =~= partial_models(tc_before).push(parts@[i as int].model()));
                    assert(partial_models(parts@.take(i + 1)) =~= partial_models(parts@.take(i as int)).push(parts@[i as int].model()));
                    assert(partial_models(shown@) =~= partial_models(parts@.take(i + 1)));
                    assert(partial_models(self.tool_calls@) =~= before + partial_models(parts@.take(i + 1)));
                    i = i + 1;
                }
                assert(parts@.take(parts@.len() as int) =~= parts@);
                StreamStep::ToolCalls(shown)
            },
            StreamEvent::Done => StreamStep::End,
            StreamEvent::Error { kind, message } => StreamStep::Failed(kind, message),
        }
    }

    /// Ends a turn whose stream closed. Without tool calls the chat is done
    /// (no job, nothing appended). Otherwise the fragments are joined by
    /// streaming index (`join_parts`): the assistant message carrying one
    /// call per index is appended and one job per call is returned, in the
    /// order the indices were first seen.
    pub fn finish_turn(&mut self) -> (jobs: Vec<ToolJob>)
        ensures
            final(self).turn == old(self).turn,
            final(self).tool_calls@ == old(self).tool_calls@,
            old(self).tool_calls@.len() == 0 ==> jobs@.len() == 0 && final(self).working@ == old(self).working@,
            old(self).tool_calls@.len() > 0 ==> {
                let calls = join_parts(partial_models(old(self).tool_calls@));
                &&& final(self).working@.len() == old(self).working@.len() + 1
                &&& final(self).working@.take(old(self).working@.len() as int) == old(self).working@
                &&& spec_assistant_message(calls, final(self).working@.last())
                &&& jobs@.len() == calls.len()
                &&& forall|i: int| 0 <= i < jobs@.len() ==> {
                    let p = #[trigger] calls[i];
                    &&& jobs@[i].call_id@ == match p.id { Some(s) => s, None => Seq::empty() }
                    &&& jobs@[i].name@ == match p.name { Some(s) => s, None => Seq::empty() }
                    &&& jobs@[i].arguments@ == p.args
                }
            },
    {
        let mut jobs: Vec<ToolJob> = Vec::new();
        if self.tool_calls.len() == 0 {
            return jobs;
        }
        let joined = join_fragments(&self.tool_calls);
        let ghost pm = partial_models(joined@);
        let mut calls: Vec<AssistantToolCall> = Vec::new();
        let mut i: usize = 0;
        while i < joined.len()
            invariant
                0 <= i <= joined.len(),
                pm == partial_models(joined@),
                calls@.len() == i,
                jobs@.len() == i,
                forall|j: int| 0 <= j < i ==> #[trigger] spec_assistant_call(pm[j], calls@[j]),
                forall|j: int| 0 <= j < i ==> {
                    let p = #[trigger] pm[j];
                    &&& jobs@[j].call_id@ == match p.id { Some(s) => s, None => Seq::empty() }
                    &&& jobs@[j].name@ == match p.name { Some(s) => s, None => Seq::empty() }
                    &&& jobs@[j].arguments@ == p.args
                },
            decreases joined.len() - i,
        {
            let p = &joined[i];
            assert(pm[i as int] == p.model());
            let id = unwrap_or_empty_string(&p.id);
            let name = unwrap_or_empty_string(&p.name);
            calls.push(AssistantToolCall {
                id: id.clone(),
                kind: "function".to_owned(),
                function: AssistantToolCallFunction { name: name.clone(), arguments: p.arguments_delta.clone() },
            });
            jobs.push(ToolJob { call_id: id, name, arguments: p.arguments_delta.clone() });
            i = i + 1;
        }
        let ghost before = self.working@;
        self.working.push(ChatMessage {
            role: ChatRole::Assistant,
            content: String::new(),
            tool_call_id: None,
            tool_calls: Some(calls),
        });
        assert(self.working@.take(before.len() as int) =~= before);
        jobs
    }

    /// Appends the `role: tool` message answering call `call_id`.
    pub fn push_tool_result(&mut self, call_id: String, result_json: String)
        ensures
            final(self).turn == old(self).turn,
            final(self).tool_calls@ == old(self).tool_calls@,
            final(self).working@.len() == old(self).working@.len() + 1,
            final(self).working@.take(old(self).working@.len() as int) == old(self).working@,
            final(self).working@.last().role == ChatRole::Tool,
            final(self).working@.last().content@ == result_json@,
            final(self).working@.last().tool_call_id matches Some(id) && id@ == call_id@,
            final(self).working@.last().tool_calls is None,
    {
        let ghost before = self.working@;
        self.working.push(ChatMessage {
            role: ChatRole::Tool,
            content: result_json,
            tool_call_id: Some(call_id),
            tool_calls: None,
        });
        assert(self.working@.take(before.len() as int) =~= before);
    }
}

} // verus!
