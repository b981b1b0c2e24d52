//! Tool / function-calling schema.

use vstd::prelude::*;
use crate::json::{Json, JsonValue, json_str, obj2, obj3};

verus! {

/// A tool definition (the OpenAI Chat Completions shape, kept internally
/// whatever protocol is on the wire).
#[derive(Debug)]
pub struct ToolDefinition {
    pub kind: ToolType,
    pub function: ToolFunction,
}

#[derive(Debug, Clone, Copy, PartialEq, Eq, Structural)]
pub enum ToolType {
    Function,
}

impl Default for ToolType {
    fn default() -> (r: ToolType)
        ensures
            r == ToolType::Function,
    {
        ToolType::Function
    }
}

#[derive(Debug)]
pub struct ToolFunction {
    pub name: String,
    pub description: String,
    /// JSON Schema describing the function's parameters.
    pub parameters: JsonValue,
}

/// A tool call with its final, decoded arguments.
#[derive(Debug)]
pub struct ToolCallInfo {
    pub id: String,
    pub name: String,
    pub arguments: JsonValue,
}

/// A single tool-call fragment streamed from upstream. Consumers accumulate
/// by `index` until the stream completes.
#[derive(Debug, Clone, PartialEq, Eq)]
pub struct ToolCallPartial {
    /// Streaming order (0-based).
    pub index: u32,
    /// May be absent on the first delta.
    pub id: Option<String>,
    /// Function name, may be absent on the first delta.
    pub name: Option<String>,
    /// Raw, partial JSON arguments text.
    pub arguments_delta: String,
}

/// Player's reply to a tool call.
#[derive(Debug, Clone, PartialEq, Eq)]
pub struct ToolResult {
    pub tool_call_id: String,
    pub content: String,
}

/// Model of a tool-call fragment.
pub struct PartialModel {
    pub index: u32,
    pub id: Option<Seq<char>>,
    pub name: Option<Seq<char>>,
    pub args: Seq<char>,
}

pub open spec fn opt_view(o: Option<String>) -> Option<Seq<char>> {
    match o {
        Some(s) => Some(s@),
        None => None,
    }
}

impl ToolCallPartial {
    pub open spec fn model(self) -> PartialModel {
        PartialModel {
            index: self.index,
            id: opt_view(self.id),
            name: opt_view(self.name),
            args: self.arguments_delta@,
        }
    }
}

pub open spec fn partial_models(v: Seq<ToolCallPartial>) -> Seq<PartialModel> {
    v.map_values(|p: ToolCallPartial| p.model())
}

/// A copy of an optional string.
pub fn copy_opt(o: &Option<String>) -> (r: Option<String>)
    ensures
        opt_view(r) == opt_view(*o),
{
    match o {
        Some(s) => Some(s.clone()),
        None => None,
    }
}

impl ToolCallPartial {
    /// A copy with the same model.
    pub fn duplicate(&self) -> (r: ToolCallPartial)
        ensures
            r.model() == self.model(),
    {
        ToolCallPartial {
            index: self.index,
            id: copy_opt(&self.id),
            name: copy_opt(&self.name),
            arguments_delta: self.arguments_delta.clone(),
        }
    }
}

/// The OpenAI Chat Completions wire shape of a tool:
/// `{type: "function", function: {name, description, parameters}}`.
pub open spec fn spec_tool_json(t: ToolDefinition) -> Json {
    Json::Object(seq![
        ("type"@, Json::Str("function"@)),
        ("function"@, Json::Object(seq![
            ("name"@, Json::Str(t.function.name@)),
            ("description"@, Json::Str(t.function.description@)),
            ("parameters"@, t.function.parameters@),
        ])),
    ])
}

impl ToolDefinition {
    /// The Chat Completions wire shape of this tool.
    pub fn to_json(&self) -> (r: JsonValue)
        ensures
            r@ == spec_tool_json(*self),
    {
        let f = obj3(
            "name", JsonValue::String(self.function.name.clone()),
            "description", JsonValue::String(self.function.description.clone()),
            "parameters", self.function.parameters.duplicate(),
        );
        obj2("type", json_str("function"), "function", f)
    }
}

} // verus!
