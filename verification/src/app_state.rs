//! The application's transient view state: which tool is selected, its
//! display name and icon, and the icon lookup the sidebar uses.

use vstd::prelude::*;
use crate::textops::str_eq;

verus! {

/// The tool a sidebar entry selects.
#[derive(Clone, Copy, PartialEq, Eq, Structural)]
pub enum Tool {
    JsonFormatter,
    Base64Encoder,
    TimestampConverter,
}

/// The display name of a tool entry.
pub open spec fn tool_label(t: Tool) -> Seq<char> {
    match t {
        Tool::JsonFormatter => ("JSON 格式化")@,
        Tool::Base64Encoder => ("Base64 编解码")@,
        Tool::TimestampConverter => ("时间戳转换")@,
    }
}

/// The icon of a tool entry.
pub open spec fn tool_glyph(t: Tool) -> Seq<char> {
    match t {
        Tool::JsonFormatter => ("📄")@,
        Tool::Base64Encoder => ("🔒")@,
        Tool::TimestampConverter => ("⏰")@,
    }
}

impl Tool {
    /// The name shown in the sidebar and the title bar.
    pub fn name(&self) -> (r: &'static str)
        ensures
            r@ == tool_label(*self),
    {
        match self {
            Tool::JsonFormatter => "JSON 格式化",
            Tool::Base64Encoder => "Base64 编解码",
            Tool::TimestampConverter => "时间戳转换",
        }
    }

    /// The icon shown beside the name.
    pub fn icon(&self) -> (r: &'static str)
        ensures
            r@ == tool_glyph(*self),
    {
        match self {
            Tool::JsonFormatter => "📄",
            Tool::Base64Encoder => "🔒",
            Tool::TimestampConverter => "⏰",
        }
    }
}

/// The state the view tree shares: the tool on display.
#[derive(Clone, Copy, PartialEq, Eq, Structural)]
pub struct AppState {
    pub current_tool: Tool,
}

impl Default for AppState {
    /// The window opens on the JSON tool.
    fn default() -> (r: Self)
        ensures
            r.current_tool == Tool::JsonFormatter,
    {
        AppState { current_tool: Tool::JsonFormatter }
    }
}

/// The sidebar glyph for a registered tool identifier.
pub open spec fn icon_for_id(id: Seq<char>) -> Seq<char> {
    if id == ("json")@ {
        ("{}")@
    } else if id == ("b64")@ {
        ("B64")@
    } else if id == ("ts")@ {
        ("TS")@
    } else {
        ("...")@
    }
}

/// The sidebar glyph for a registered tool identifier.
pub fn tool_icon(tool_id: &str) -> (r: &'static str)
    ensures
        r@ == icon_for_id(tool_id@),
{
    if str_eq(tool_id, "json") {
        "{}"
    } else if str_eq(tool_id, "b64") {
        "B64"
    } else if str_eq(tool_id, "ts") {
        "TS"
    } else {
        "..."
    }
}

} // verus!
