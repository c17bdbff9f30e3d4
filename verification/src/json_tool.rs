//! The JSON tool: validates a JSON document and reserializes it, either
//! pretty-printed or minified, through `serde_json`.

use vstd::prelude::*;
use vstd::pervasive::unreached;
use crate::registry::{Mode, ProcessError, ProcessErrorKind, ProcessResult, Tool};
use crate::textops::{trim_spec, is_blank, str_eq};

verus! {

/// Whether `serde_json::from_str::<serde_json::Value>` accepts the text.
pub uninterp spec fn json_ok(s: Seq<char>) -> bool;

/// What pretty-printing the parsed document of `s` yields.
pub uninterp spec fn json_pretty_of(s: Seq<char>) -> Seq<char>;

/// What minifying the parsed document of `s` yields.
pub uninterp spec fn json_minified_of(s: Seq<char>) -> Seq<char>;

/// The message `serde_json`'s parse error displays for the text.
pub uninterp spec fn json_error_text(s: Seq<char>) -> Seq<char>;

/// Relies on `serde_json::from_str::<serde_json::Value>`: it succeeds exactly
/// on JSON documents, deterministically in the text alone.  The error case
/// hands back what the crate's error displays.
#[verifier::external_body]
fn json_parse_check(s: &str) -> (r: Result<(), String>)
    ensures
        match r {
            Ok(_) => json_ok(s@),
            Err(m) => !json_ok(s@) && m@ == json_error_text(s@),
        },
{
    match serde_json::from_str::<serde_json::Value>(s) {
        Ok(_) => Ok(()),
        Err(e) => Err(format!("{e}")),
    }
}

/// Relies on `serde_json::from_str::<serde_json::Value>` chained with
/// `serde_json::to_string_pretty`: parsing succeeds exactly on JSON
/// documents and both steps depend on the text alone.  Reserializing a
/// parsed `Value` cannot fail — its maps carry string keys and the writer is
/// a byte vector — so the chain succeeds exactly when the parse does.
#[verifier::external_body]
pub(crate) fn json_pretty(s: &str) -> (r: Result<String, String>)
    ensures
        match r {
            Ok(t) => json_ok(s@) && t@ == json_pretty_of(s@),
            Err(m) => !json_ok(s@) && m@ == json_error_text(s@),
        },
{
    match serde_json::from_str::<serde_json::Value>(s) {
        Ok(v) => serde_json::to_string_pretty(&v).map_err(|e| format!("{e}")),
        Err(e) => Err(format!("{e}")),
    }
}

/// Relies on `serde_json::from_str::<serde_json::Value>` chained with
/// `serde_json::to_string`: as with pretty-printing, the chain succeeds
/// exactly when the parse does, deterministically in the text alone.
#[verifier::external_body]
fn json_minify(s: &str) -> (r: Result<String, String>)
    ensures
        match r {
            Ok(t) => json_ok(s@) && t@ == json_minified_of(s@),
            Err(m) => !json_ok(s@) && m@ == json_error_text(s@),
        },
{
    match serde_json::from_str::<serde_json::Value>(s) {
        Ok(v) => serde_json::to_string(&v).map_err(|e| format!("{e}")),
        Err(e) => Err(format!("{e}")),
    }
}

/// What the JSON tool returns: blank input passes through empty, a text that
/// does not parse reports the parse error whatever the mode, and a parsed
/// document is reserialized pretty or minified; any other mode is
/// unsupported.
pub open spec fn json_process_spec(mode: Seq<char>, input: Seq<char>, r: ProcessResult) -> bool {
    if trim_spec(input).len() == 0 {
        match r {
            Ok(o) => o@ == Seq::<char>::empty(),
            Err(_) => false,
        }
    } else if !json_ok(input) {
        match r {
            Ok(_) => false,
            Err(e) => e.kind == ProcessErrorKind::Parse && e.message@ == ("JSON 解析错误: ")@
                + json_error_text(input),
        }
    } else if mode == ("pretty")@ {
        match r {
            Ok(t) => t@ == json_pretty_of(input),
            Err(_) => false,
        }
    } else if mode == ("minify")@ {
        match r {
            Ok(t) => t@ == json_minified_of(input),
            Err(_) => false,
        }
    } else {
        match r {
            Ok(_) => false,
            Err(e) => e.kind == ProcessErrorKind::Unsupported && e.message@ == ("不支持的模式")@,
        }
    }
}

/// The JSON pretty/minify tool.
#[derive(Clone, Copy)]
pub struct JsonTool;

impl Tool for JsonTool {
    open spec fn spec_id(&self) -> Seq<char> {
        ("json")@
    }

    open spec fn spec_name(&self) -> Seq<char> {
        ("JSON 工具")@
    }

    open spec fn spec_modes(&self) -> Seq<(Seq<char>, Seq<char>)> {
        seq![(("pretty")@, ("Pretty（美化）")@), (("minify")@, ("Minify（压缩）")@)]
    }

    open spec fn spec_default_mode(&self) -> Seq<char> {
        ("pretty")@
    }

    open spec fn process_spec(&self, mode: Seq<char>, input: Seq<char>, r: ProcessResult) -> bool {
        json_process_spec(mode, input, r)
    }

    fn id(&self) -> (r: &'static str) {
        "json"
    }

    fn name(&self) -> (r: &'static str) {
        "JSON 工具"
    }

    fn modes(&self) -> (r: Vec<Mode>) {
        let mut v: Vec<Mode> = Vec::new();
        v.push(Mode { id: "pretty", label: "Pretty（美化）" });
        v.push(Mode { id: "minify", label: "Minify（压缩）" });
        v
    }

    fn default_mode(&self) -> (r: &'static str) {
        "pretty"
    }

    fn process(&self, mode_id: &str, input: &str) -> (r: ProcessResult) {
        if is_blank(input) {
            return Ok(String::new());
        }
        match json_parse_check(input) {
            Err(m) => {
                let mut msg = String::from_str("JSON 解析错误: ");
                msg.append(m.as_str());
                Err(ProcessError { kind: ProcessErrorKind::Parse, message: msg })
            },
            Ok(_) => {
                if str_eq(mode_id, "pretty") {
                    match json_pretty(input) {
                        Ok(t) => Ok(t),
                        Err(_) => unreached(),
                    }
                } else if str_eq(mode_id, "minify") {
                    match json_minify(input) {
                        Ok(t) => Ok(t),
                        Err(_) => unreached(),
                    }
                } else {
                    Err(
                        ProcessError {
                            kind: ProcessErrorKind::Unsupported,
                            message: String::from_str("不支持的模式"),
                        },
                    )
                }
            },
        }
    }
}

} // verus!
