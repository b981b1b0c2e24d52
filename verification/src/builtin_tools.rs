//! The three built-in tool schemas and their metadata.
//!
//! 1. `ask_user_question` — a branching decision: 2-5 options, the player
//!    picks one.
//! 2. `ask_free_text` — one open question the player answers freely.
//! 3. `update_doc_item` — a proposed document edit the player confirms.
//!
//! The two probes run without asking by default; the document write asks.
//! A tool's wire name (`BuiltinTool::as_str`) is exactly its schema's
//! `function.name`.

use vstd::prelude::*;
use crate::json::{Json, JsonNum, JsonValue, arr1, arr2, json_str, json_u64, obj1, obj2, obj3, obj4, obj5};
use crate::text::str_eq;
use crate::tool::{ToolDefinition, ToolFunction, ToolType};

verus! {

/// Name of a built-in tool.
#[derive(Debug, Clone, Copy, PartialEq, Eq, Hash, Structural)]
pub enum BuiltinTool {
    AskUserQuestion,
    AskFreeText,
    UpdateDocItem,
}

pub open spec fn spec_tool_name(t: BuiltinTool) -> Seq<char> {
    match t {
        BuiltinTool::AskUserQuestion => "ask_user_question"@,
        BuiltinTool::AskFreeText => "ask_free_text"@,
        BuiltinTool::UpdateDocItem => "update_doc_item"@,
    }
}

impl BuiltinTool {
    /// Wire name; equal to the schema's `function.name`.
    pub fn as_str(self) -> (r: &'static str)
        ensures
            r@ == spec_tool_name(self),
    {
        match self {
            BuiltinTool::AskUserQuestion => "ask_user_question",
            BuiltinTool::AskFreeText => "ask_free_text",
            BuiltinTool::UpdateDocItem => "update_doc_item",
        }
    }

    /// The tool as display text: its wire name.
    pub fn display_text(self) -> (r: String)
        ensures
            r@ == spec_tool_name(self),
    {
        self.as_str().to_owned()
    }
}

/// Default per-tool permission.
#[derive(Debug, Clone, Copy, PartialEq, Eq, Structural)]
pub enum ToolPermission {
    /// Runs immediately.
    Auto,
    /// Waits for the player's approval.
    Ask,
    /// Rejected with a denial result.
    Deny,
}

impl Default for ToolPermission {
    fn default() -> (r: ToolPermission)
        ensures
            r == ToolPermission::Auto,
    {
        ToolPermission::Auto
    }
}

/// Coarse risk band.
#[derive(Debug, Clone, Copy, PartialEq, Eq, Structural)]
pub enum ToolRisk {
    /// Read-only or probe.
    Low,
    /// Writes a project artifact.
    Medium,
    /// Destructive or with external side effects.
    High,
}

/// Metadata of a built-in tool.
#[derive(Debug, Clone, Copy)]
pub struct BuiltinToolMeta {
    pub name: BuiltinTool,
    pub label: &'static str,
    pub description: &'static str,
    pub risk: ToolRisk,
    pub default_permission: ToolPermission,
}

pub open spec fn spec_meta_label(t: BuiltinTool) -> Seq<char> {
    match t {
        BuiltinTool::AskUserQuestion => "Ask User Question"@,
        BuiltinTool::AskFreeText => "Ask Free Text"@,
        BuiltinTool::UpdateDocItem => "Update Doc Item"@,
    }
}

pub open spec fn spec_meta_description(t: BuiltinTool) -> Seq<char> {
    match t {
        BuiltinTool::AskUserQuestion => "Surface 2-5 mutually-exclusive options; player picks one, answer fed back as a `role: tool` message."@,
        BuiltinTool::AskFreeText => "Ask one open-ended question; player types a free-form answer in the composer (or an inline input)."@,
        BuiltinTool::UpdateDocItem => "Propose a document edit (item_id + content + optional mode). Player must confirm before the editor is touched."@,
    }
}

/// Probes are low-risk and run without asking; the document write is
/// medium-risk and asks.
pub open spec fn spec_meta_risk(t: BuiltinTool) -> ToolRisk {
    match t {
        BuiltinTool::UpdateDocItem => ToolRisk::Medium,
        _ => ToolRisk::Low,
    }
}

pub open spec fn spec_meta_permission(t: BuiltinTool) -> ToolPermission {
    match t {
        BuiltinTool::UpdateDocItem => ToolPermission::Ask,
        _ => ToolPermission::Auto,
    }
}

/// `m` is the metadata of tool `t`.
pub open spec fn is_meta_of(m: BuiltinToolMeta, t: BuiltinTool) -> bool {
    &&& m.name == t
    &&& m.label@ == spec_meta_label(t)
    &&& m.description@ == spec_meta_description(t)
    &&& m.risk == spec_meta_risk(t)
    &&& m.default_permission == spec_meta_permission(t)
}

/// The three tools in canonical order.
pub open spec fn spec_all_tools() -> Seq<BuiltinTool> {
    seq![BuiltinTool::AskUserQuestion, BuiltinTool::AskFreeText, BuiltinTool::UpdateDocItem]
}

fn meta_of(t: BuiltinTool) -> (r: BuiltinToolMeta)
    ensures
        is_meta_of(r, t),
{
    match t {
        BuiltinTool::AskUserQuestion => BuiltinToolMeta {
            name: t,
            label: "Ask User Question",
            description: "Surface 2-5 mutually-exclusive options; player picks one, answer fed back as a `role: tool` message.",
            risk: ToolRisk::Low,
            default_permission: ToolPermission::Auto,
        },
        BuiltinTool::AskFreeText => BuiltinToolMeta {
            name: t,
            label: "Ask Free Text",
            description: "Ask one open-ended question; player types a free-form answer in the composer (or an inline input).",
            risk: ToolRisk::Low,
            default_permission: ToolPermission::Auto,
        },
        BuiltinTool::UpdateDocItem => BuiltinToolMeta {
            name: t,
            label: "Update Doc Item",
            description: "Propose a document edit (item_id + content + optional mode). Player must confirm before the editor is touched.",
            risk: ToolRisk::Medium,
            default_permission: ToolPermission::Ask,
        },
    }
}

/// The metadata table, in canonical order.
pub fn builtin_tool_meta() -> (r: Vec<BuiltinToolMeta>)
    ensures
        r@.len() == 3,
        forall|i: int| 0 <= i < 3 ==> is_meta_of(#[trigger] r@[i], spec_all_tools()[i]),
{
    vec![meta_of(BuiltinTool::AskUserQuestion), meta_of(BuiltinTool::AskFreeText), meta_of(BuiltinTool::UpdateDocItem)]
}

/// The built-in tool with wire name `name` (exact, case-sensitive match).
pub open spec fn spec_tool_by_name(name: Seq<char>) -> Option<BuiltinTool> {
    if name == spec_tool_name(BuiltinTool::AskUserQuestion) {
        Some(BuiltinTool::AskUserQuestion)
    } else if name == spec_tool_name(BuiltinTool::AskFreeText) {
        Some(BuiltinTool::AskFreeText)
    } else if name == spec_tool_name(BuiltinTool::UpdateDocItem) {
        Some(BuiltinTool::UpdateDocItem)
    } else {
        None
    }
}

/// Metadata of the tool with wire name `name`; `None` for any other name.
pub fn builtin_meta_by_name(name: &str) -> (r: Option<BuiltinToolMeta>)
    ensures
        match spec_tool_by_name(name@) {
            Some(t) => r matches Some(m) && is_meta_of(m, t),
            None => r is None,
        },
{
    if str_eq(name, "ask_user_question") {
        Some(meta_of(BuiltinTool::AskUserQuestion))
    } else if str_eq(name, "ask_free_text") {
        Some(meta_of(BuiltinTool::AskFreeText))
    } else if str_eq(name, "update_doc_item") {
        Some(meta_of(BuiltinTool::UpdateDocItem))
    } else {
        None
    }
}

// ---------------------------------------------------------------------------
// Schemas
// ---------------------------------------------------------------------------

pub open spec fn jstr(s: Seq<char>) -> Json {
    Json::Str(s)
}

pub open spec fn jnum(n: u64) -> Json {
    Json::Number(JsonNum::PosInt(n))
}

/// `{type: "string", description}`
pub open spec fn string_prop(description: Seq<char>) -> Json {
    Json::Object(seq![("type"@, jstr("string"@)), ("description"@, jstr(description))])
}

pub open spec fn spec_ask_user_question_params() -> Json {
    let item = Json::Object(seq![
        ("type"@, jstr("object"@)),
        ("properties"@, Json::Object(seq![
            ("label"@, Json::Object(seq![
                ("type"@, jstr("string"@)),
                ("maxLength"@, jnum(10)),
                ("description"@, jstr("卡片 header (≤10 字)"@)),
            ])),
            ("preview"@, string_prop("完整备选内容（玩家采用后写入编辑器 / 选中的内容）"@)),
            ("description"@, string_prop("可选 hover-tooltip 详情（不参与主流程）"@)),
        ])),
        ("required"@, Json::Array(seq![jstr("label"@), jstr("preview"@)])),
        ("additionalProperties"@, Json::Bool(false)),
    ]);
    Json::Object(seq![
        ("type"@, jstr("object"@)),
        ("properties"@, Json::Object(seq![
            ("question"@, string_prop("向玩家展示的 1 句问题（会显示在 AltCard 顶部）"@)),
            ("options"@, Json::Object(seq![
                ("type"@, jstr("array"@)),
                ("minItems"@, jnum(2)),
                ("maxItems"@, jnum(5)),
                ("items"@, item),
                ("description"@, jstr("2-5 个互斥备选方案"@)),
            ])),
        ])),
        ("required"@, Json::Array(seq![jstr("question"@), jstr("options"@)])),
        ("additionalProperties"@, Json::Bool(false)),
    ])
}

pub open spec fn spec_ask_free_text_params() -> Json {
    Json::Object(seq![
        ("type"@, jstr("object"@)),
        ("properties"@, Json::Object(seq![
            ("question"@, string_prop("向玩家展示的 1 句开放问题（必填，不要用编号拆多个）"@)),
        ])),
        ("required"@, Json::Array(seq![jstr("question"@)])),
        ("additionalProperties"@, Json::Bool(false)),
    ])
}

pub open spec fn spec_update_doc_item_params() -> Json {
    Json::Object(seq![
        ("type"@, jstr("object"@)),
        ("properties"@, Json::Object(seq![
            ("item_id"@, string_prop("要写入的文档项 id（由 app 定义；例如 PlotCraft 的概念 7 步：seed / pillars / world-rules / locations / character-functions / three-act / core-fantasy）"@)),
            ("content"@, string_prop("最终内容（玩家改过的优先于 LLM 原始备选）"@)),
            ("mode"@, Json::Object(seq![
                ("type"@, jstr("string"@)),
                ("enum"@, Json::Array(seq![jstr("replace"@), jstr("append"@)])),
                ("default"@, jstr("replace"@)),
                ("description"@, jstr("replace = 覆盖当前内容；append = 追加到末尾"@)),
            ])),
        ])),
        ("required"@, Json::Array(seq![jstr("item_id"@), jstr("content"@)])),
        ("additionalProperties"@, Json::Bool(false)),
    ])
}

pub open spec fn spec_schema_description(t: BuiltinTool) -> Seq<char> {
    match t {
        BuiltinTool::AskUserQuestion => "向玩家提出一个多选问题，提供 2-5 个互斥的备选方案让 ta 选。适合给方向、选项、取舍。**只**用于「问问题」场景；不适合问开放性问题（用 ask_free_text）。"@,
        BuiltinTool::AskFreeText => "向玩家提出一个需要 ta 自己想清楚的开放问题。**不要**给选项 — 这种问题没有标准答案，要让玩家自己想。适合反思类追问、深度确认。跟 ask_user_question 的区别：ask_user_question 给方向性备选让玩家挑；ask_free_text 是真正需要玩家自己想的开放问题。"@,
        BuiltinTool::UpdateDocItem => "把玩家选定 / 修改后的内容写入文档某一项。**只**在玩家已经明确表达过要这个方案时调（例如玩家问「用 A 改暗版」，或玩家从 ask_user_question 选了一个 option）。**不要**在没确认的情况下主动调这个 — 玩家主导，绝不替玩家做决定。**反思 / 提问 / 解释**类输出**不要**用这个 tool — 反思用 ask_free_text（开放问题）或 ask_user_question（让玩家挑选项）。"@,
    }
}

pub open spec fn spec_schema_params(t: BuiltinTool) -> Json {
    match t {
        BuiltinTool::AskUserQuestion => spec_ask_user_question_params(),
        BuiltinTool::AskFreeText => spec_ask_free_text_params(),
        BuiltinTool::UpdateDocItem => spec_update_doc_item_params(),
    }
}

/// `d` is the schema of tool `t`: a function named by the tool's wire
/// name, with its description and parameter schema.
pub open spec fn is_schema_of(d: ToolDefinition, t: BuiltinTool) -> bool {
    &&& d.kind == ToolType::Function
    &&& d.function.name@ == spec_tool_name(t)
    &&& d.function.description@ == spec_schema_description(t)
    &&& d.function.parameters@ == spec_schema_params(t)
}

fn string_prop_json(description: &str) -> (r: JsonValue)
    ensures
        r@ == string_prop(description@),
{
    obj2("type", json_str("string"), "description", json_str(description))
}

fn schema(t: BuiltinTool, description: &str, parameters: JsonValue) -> (r: ToolDefinition)
    requires
        description@ == spec_schema_description(t),
        parameters@ == spec_schema_params(t),
    ensures
        is_schema_of(r, t),
{
    ToolDefinition {
        kind: ToolType::Function,
        function: ToolFunction {
            name: t.as_str().to_owned(),
            description: description.to_owned(),
            parameters,
        },
    }
}

/// Schema of `ask_user_question`: a question and 2-5 options, each with a
/// label (at most 10 characters) and a preview, an optional description.
pub fn ask_user_question_schema() -> (r: ToolDefinition)
    ensures
        is_schema_of(r, BuiltinTool::AskUserQuestion),
{
    let label = obj3(
        "type", json_str("string"),
        "maxLength", json_u64(10),
        "description", json_str("卡片 header (≤10 字)"),
    );
    let item_props = obj3(
        "label", label,
        "preview", string_prop_json("完整备选内容（玩家采用后写入编辑器 / 选中的内容）"),
        "description", string_prop_json("可选 hover-tooltip 详情（不参与主流程）"),
    );
    let item = obj4(
        "type", json_str("object"),
        "properties", item_props,
        "required", arr2(json_str("label"), json_str("preview")),
        "additionalProperties", JsonValue::Bool(false),
    );
    let options = obj5(
        "type", json_str("array"),
        "minItems", json_u64(2),
        "maxItems", json_u64(5),
        "items", item,
        "description", json_str("2-5 个互斥备选方案"),
    );
    let props = obj2(
        "question", string_prop_json("向玩家展示的 1 句问题（会显示在 AltCard 顶部）"),
        "options", options,
    );
    let params = obj4(
        "type", json_str("object"),
        "properties", props,
        "required", arr2(json_str("question"), json_str("options")),
        "additionalProperties", JsonValue::Bool(false),
    );
    schema(BuiltinTool::AskUserQuestion,
        "向玩家提出一个多选问题，提供 2-5 个互斥的备选方案让 ta 选。适合给方向、选项、取舍。**只**用于「问问题」场景；不适合问开放性问题（用 ask_free_text）。",
        params)
}

/// Schema of `ask_free_text`: one open question, nothing else.
pub fn ask_free_text_schema() -> (r: ToolDefinition)
    ensures
        is_schema_of(r, BuiltinTool::AskFreeText),
{
    let props = obj1("question", string_prop_json("向玩家展示的 1 句开放问题（必填，不要用编号拆多个）"));
    let params = obj4(
        "type", json_str("object"),
        "properties", props,
        "required", arr1(json_str("question")),
        "additionalProperties", JsonValue::Bool(false),
    );
    schema(BuiltinTool::AskFreeText,
        "向玩家提出一个需要 ta 自己想清楚的开放问题。**不要**给选项 — 这种问题没有标准答案，要让玩家自己想。适合反思类追问、深度确认。跟 ask_user_question 的区别：ask_user_question 给方向性备选让玩家挑；ask_free_text 是真正需要玩家自己想的开放问题。",
        params)
}

/// Schema of `update_doc_item`: an item id, the content, and an optional
/// mode (`replace`, the default, or `append`).
pub fn update_doc_item_schema() -> (r: ToolDefinition)
    ensures
        is_schema_of(r, BuiltinTool::UpdateDocItem),
{
    let mode = obj4(
        "type", json_str("string"),
        "enum", arr2(json_str("replace"), json_str("append")),
        "default", json_str("replace"),
        "description", json_str("replace = 覆盖当前内容；append = 追加到末尾"),
    );
    let props = obj3(
        "item_id", string_prop_json("要写入的文档项 id（由 app 定义；例如 PlotCraft 的概念 7 步：seed / pillars / world-rules / locations / character-functions / three-act / core-fantasy）"),
        "content", string_prop_json("最终内容（玩家改过的优先于 LLM 原始备选）"),
        "mode", mode,
    );
    let params = obj4(
        "type", json_str("object"),
        "properties", props,
        "required", arr2(json_str("item_id"), json_str("content")),
        "additionalProperties", JsonValue::Bool(false),
    );
    schema(BuiltinTool::UpdateDocItem,
        "把玩家选定 / 修改后的内容写入文档某一项。**只**在玩家已经明确表达过要这个方案时调（例如玩家问「用 A 改暗版」，或玩家从 ask_user_question 选了一个 option）。**不要**在没确认的情况下主动调这个 — 玩家主导，绝不替玩家做决定。**反思 / 提问 / 解释**类输出**不要**用这个 tool — 反思用 ask_free_text（开放问题）或 ask_user_question（让玩家挑选项）。",
        params)
}

/// All three schemas in canonical order.
pub fn builtin_tools() -> (r: Vec<ToolDefinition>)
    ensures
        r@.len() == 3,
        forall|i: int| 0 <= i < 3 ==> is_schema_of(#[trigger] r@[i], spec_all_tools()[i]),
{
    vec![ask_user_question_schema(), ask_free_text_schema(), update_doc_item_schema()]
}

/// The schema list and the metadata table agree: the i-th schema's name
/// is the wire name of the i-th table entry, and looking that name up
/// finds that entry's tool.
pub proof fn law_schemas_match_meta_table(i: int)
    requires
        0 <= i < 3,
    ensures
        spec_tool_by_name(spec_tool_name(spec_all_tools()[i])) == Some(spec_all_tools()[i]),
{
    reveal_strlit("ask_user_question");
    reveal_strlit("ask_free_text");
    reveal_strlit("update_doc_item");
    assert("ask_free_text"@[4] != "ask_user_question"@[4]);
    assert("update_doc_item"@[0] != "ask_user_question"@[0]);
    assert("update_doc_item"@[0] != "ask_free_text"@[0]);
}

} // verus!
