//! In-flight tool-call state, keyed by output / content-block index.

use vstd::prelude::*;
use std::collections::HashMap;
use crate::tool::{opt_view, PartialModel, ToolCallPartial, copy_opt};

verus! {

broadcast use vstd::std_specs::hash::group_hash_axioms;

/// One in-flight tool call: the id and name announced when it started, and
/// the arguments text gathered so far.
#[derive(Debug, Default)]
pub struct PendingToolCall {
    pub id: Option<String>,
    pub name: Option<String>,
    pub arguments: String,
}

/// Model of an in-flight tool call.
pub struct PendingModel {
    pub id: Option<Seq<char>>,
    pub name: Option<Seq<char>>,
    pub args: Seq<char>,
}

impl PendingToolCall {
    pub open spec fn model(self) -> PendingModel {
        PendingModel { id: opt_view(self.id), name: opt_view(self.name), args: self.arguments@ }
    }
}

pub open spec fn pending_default() -> PendingModel {
    PendingModel { id: None, name: None, args: Seq::empty() }
}

/// Model of the whole table.
pub open spec fn table_model(m: Map<u32, PendingToolCall>) -> Map<u32, PendingModel> {
    m.map_values(|p: PendingToolCall| p.model())
}

/// The entry at `k`, or a fresh one (`entry(k).or_default()`).
pub open spec fn entry_or_default(t: Map<u32, PendingModel>, k: u32) -> PendingModel {
    if t.contains_key(k) { t[k] } else { pending_default() }
}

/// The fragment a pending call reports.
pub open spec fn report(k: u32, p: PendingModel, args: Seq<char>) -> PartialModel {
    PartialModel { index: k, id: p.id, name: p.name, args: args }
}

/// Take the entry at `k` out of the table (a fresh one when absent).
pub fn take_entry(t: &mut HashMap<u32, PendingToolCall>, k: u32) -> (r: PendingToolCall)
    ensures
        table_model(final(t)@) == table_model(old(t)@).remove(k),
        r.model() == entry_or_default(table_model(old(t)@), k),
{
    let r = match t.remove(&k) {
        Some(p) => p,
        None => PendingToolCall { id: None, name: None, arguments: String::new() },
    };
    assert(table_model(t@) =~= table_model(old(t)@).remove(k));
    r
}

/// Put an entry back at `k`.
pub fn put_entry(t: &mut HashMap<u32, PendingToolCall>, k: u32, p: PendingToolCall)
    ensures
        table_model(final(t)@) == table_model(old(t)@).insert(k, p.model()),
{
    let ghost pm = p.model();
    t.insert(k, p);
    assert(table_model(t@) =~= table_model(old(t)@).insert(k, pm));
}

/// The fragment for a pending call with the given arguments text.
pub fn report_exec(k: u32, p: &PendingToolCall, args: String) -> (r: ToolCallPartial)
    ensures
        r.model() == report(k, p.model(), args@),
{
    ToolCallPartial { index: k, id: copy_opt(&p.id), name: copy_opt(&p.name), arguments_delta: args }
}

} // verus!
