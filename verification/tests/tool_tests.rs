use toolbox::base64_tool::Base64Tool;
use toolbox::json_tool::JsonTool;
use toolbox::registry::{AnyTool, ProcessErrorKind, Registry, Tool};
use toolbox::registry::evaluate;
use toolbox::timestamp_tool::TimestampTool;

#[test]
fn base64_identity() {
    let t = Base64Tool;
    assert_eq!(t.id(), "b64");
    assert_eq!(t.name(), "Base64 工具");
    assert_eq!(t.default_mode(), "encode");
    let modes = t.modes();
    assert_eq!(modes.len(), 2);
    assert_eq!(modes[0].id, "encode");
    assert_eq!(modes[0].label, "Encode（编码）");
    assert_eq!(modes[1].id, "decode");
    assert_eq!(modes[1].label, "Decode（解码）");
}

#[test]
fn base64_encode_hello() {
    let t = Base64Tool;
    let r = t.process("encode", "Hello, World!").unwrap();
    assert_eq!(r, "SGVsbG8sIFdvcmxkIQ==");
}

#[test]
fn base64_encode_empty() {
    let t = Base64Tool;
    assert_eq!(t.process("encode", "").unwrap(), "");
}

#[test]
fn base64_decode_hello() {
    let t = Base64Tool;
    assert_eq!(t.process("decode", "SGVsbG8sIFdvcmxkIQ==").unwrap(), "Hello, World!");
}

#[test]
fn base64_decode_trims_input() {
    let t = Base64Tool;
    assert_eq!(t.process("decode", "  SGVsbG8=\n").unwrap(), "Hello");
}

#[test]
fn base64_decode_blank_is_empty() {
    let t = Base64Tool;
    assert_eq!(t.process("decode", "   ").unwrap(), "");
}

#[test]
fn base64_decode_rejects_bad_text() {
    let t = Base64Tool;
    let e = t.process("decode", "!!!not base64!!!").unwrap_err();
    assert_eq!(e.kind, ProcessErrorKind::Decode);
    assert!(e.message.starts_with("Base64 解码失败: "));
}

#[test]
fn base64_decode_rejects_bad_utf8() {
    let t = Base64Tool;
    // 0xFF 0xFE is valid Base64 input ("//4=") but not valid UTF-8
    let e = t.process("decode", "//4=").unwrap_err();
    assert_eq!(e.kind, ProcessErrorKind::Decode);
    assert!(e.message.starts_with("UTF-8 解析失败: "));
}

#[test]
fn base64_round_trip() {
    let t = Base64Tool;
    let source = "报文 with mixed 内容 123";
    let encoded = t.process("encode", source).unwrap();
    assert_eq!(t.process("decode", &encoded).unwrap(), source);
}

#[test]
fn base64_unsupported_mode() {
    let t = Base64Tool;
    let e = t.process("zip", "x").unwrap_err();
    assert_eq!(e.kind, ProcessErrorKind::Unsupported);
    assert_eq!(e.message, "不支持的模式");
}

#[test]
fn json_identity() {
    let t = JsonTool;
    assert_eq!(t.id(), "json");
    assert_eq!(t.name(), "JSON 工具");
    assert_eq!(t.default_mode(), "pretty");
    let modes = t.modes();
    assert_eq!(modes.len(), 2);
    assert_eq!(modes[0].id, "pretty");
    assert_eq!(modes[1].id, "minify");
}

#[test]
fn json_pretty_small_object() {
    let t = JsonTool;
    assert_eq!(t.process("pretty", "{\"a\":1}").unwrap(), "{\n  \"a\": 1\n}");
}

#[test]
fn json_minify_small_object() {
    let t = JsonTool;
    assert_eq!(t.process("minify", "{ \"a\" : 1 ,\n \"b\": [true, null] }").unwrap(), "{\"a\":1,\"b\":[true,null]}");
}

#[test]
fn json_blank_is_empty() {
    let t = JsonTool;
    assert_eq!(t.process("pretty", " \n ").unwrap(), "");
}

#[test]
fn json_parse_error() {
    let t = JsonTool;
    let e = t.process("pretty", "{oops}").unwrap_err();
    assert_eq!(e.kind, ProcessErrorKind::Parse);
    assert!(e.message.starts_with("JSON 解析错误: "));
}

#[test]
fn json_unknown_mode_still_reports_parse_error() {
    let t = JsonTool;
    let e = t.process("fancy", "{oops}").unwrap_err();
    assert_eq!(e.kind, ProcessErrorKind::Parse);
}

#[test]
fn json_unknown_mode_on_valid_input() {
    let t = JsonTool;
    let e = t.process("fancy", "{}").unwrap_err();
    assert_eq!(e.kind, ProcessErrorKind::Unsupported);
    assert_eq!(e.message, "不支持的模式");
}

#[test]
fn timestamp_identity() {
    let t = TimestampTool;
    assert_eq!(t.id(), "ts");
    assert_eq!(t.name(), "时间戳 工具");
    assert_eq!(t.default_mode(), "to_human");
    let modes = t.modes();
    assert_eq!(modes.len(), 2);
    assert_eq!(modes[0].id, "to_human");
    assert_eq!(modes[1].id, "to_unix");
}

#[test]
fn timestamp_to_human_seconds() {
    let t = TimestampTool;
    let out = t.process("to_human", "1700000000").unwrap();
    assert!(out.starts_with("UTC : 2023-11-14T22:13:20+00:00\nLocal: "));
}

#[test]
fn timestamp_to_human_milliseconds() {
    let t = TimestampTool;
    // magnitude above ten trillion is read as milliseconds
    let out = t.process("to_human", "17000000000500").unwrap();
    let expected = chrono::DateTime::<chrono::Utc>::from_timestamp(17000000000, 500000000)
        .unwrap()
        .to_rfc3339();
    assert!(out.starts_with(&format!("UTC : {}\nLocal: ", expected)));
}

#[test]
fn timestamp_to_human_with_separators() {
    let t = TimestampTool;
    let out = t.process("to_human", " 1_700_000_000 ").unwrap();
    assert!(out.starts_with("UTC : 2023-11-14T22:13:20+00:00\nLocal: "));
}

#[test]
fn timestamp_to_human_blank() {
    let t = TimestampTool;
    assert_eq!(t.process("to_human", "  ").unwrap(), "");
}

#[test]
fn timestamp_to_human_rejects_text() {
    let t = TimestampTool;
    let e = t.process("to_human", "yesterday").unwrap_err();
    assert_eq!(e.kind, ProcessErrorKind::Parse);
    assert_eq!(e.message, "请输入整数型 Unix 时间戳（秒或毫秒）");
}

#[test]
fn timestamp_to_human_out_of_range() {
    let t = TimestampTool;
    let e = t.process("to_human", "9999999999999").unwrap_err();
    assert_eq!(e.kind, ProcessErrorKind::Parse);
    assert_eq!(e.message, "无法构造时间，请检查数值范围");
}

#[test]
fn timestamp_to_human_negative_milliseconds_with_remainder() {
    let t = TimestampTool;
    // the negative remainder wraps around the nanosecond cast, which chrono
    // then rejects
    let e = t.process("to_human", "-10000000000001").unwrap_err();
    assert_eq!(e.kind, ProcessErrorKind::Parse);
    assert_eq!(e.message, "无法构造时间，请检查数值范围");
}

#[test]
fn timestamp_to_human_negative_milliseconds_on_the_second() {
    let t = TimestampTool;
    let out = t.process("to_human", "-20000000000000").unwrap();
    let expected = chrono::DateTime::<chrono::Utc>::from_timestamp(-20000000000, 0)
        .unwrap()
        .to_rfc3339();
    assert!(out.starts_with(&format!("UTC : {}\nLocal: ", expected)));
}

#[test]
fn timestamp_to_human_huge_millisecond_count() {
    let t = TimestampTool;
    let e = t.process("to_human", "99999999999999999999").unwrap_err();
    assert_eq!(e.kind, ProcessErrorKind::Parse);
    assert_eq!(e.message, "无法构造时间，请检查数值范围");
}

#[test]
fn timestamp_to_unix_rfc3339() {
    let t = TimestampTool;
    assert_eq!(t.process("to_unix", "2023-11-14T22:13:20+00:00").unwrap(), "1700000000");
}

#[test]
fn timestamp_to_unix_rfc3339_with_offset() {
    let t = TimestampTool;
    assert_eq!(t.process("to_unix", "2023-11-15T06:13:20+08:00").unwrap(), "1700000000");
}

#[test]
fn timestamp_to_unix_local_format_yields_integer() {
    let t = TimestampTool;
    let out = t.process("to_unix", "2023-11-14 22:13:20").unwrap();
    assert!(out.parse::<i64>().is_ok());
}

#[test]
fn timestamp_to_unix_blank() {
    let t = TimestampTool;
    assert_eq!(t.process("to_unix", "").unwrap(), "");
}

#[test]
fn timestamp_to_unix_rejects_other_formats() {
    let t = TimestampTool;
    let e = t.process("to_unix", "14/11/2023").unwrap_err();
    assert_eq!(e.kind, ProcessErrorKind::Parse);
    assert_eq!(e.message, "不支持的时间格式：RFC3339 或 \"YYYY-MM-DD HH:MM:SS[.sss]\"");
}

#[test]
fn timestamp_unsupported_mode() {
    let t = TimestampTool;
    let e = t.process("to_mars", "1").unwrap_err();
    assert_eq!(e.kind, ProcessErrorKind::Unsupported);
}

fn full_registry() -> Registry {
    let mut reg = Registry::new();
    reg.register(AnyTool::Json(JsonTool));
    reg.register(AnyTool::Base64(Base64Tool));
    reg.register(AnyTool::Timestamp(TimestampTool));
    reg
}

#[test]
fn registry_lookup() {
    let reg = full_registry();
    assert_eq!(reg.tools().len(), 3);
    assert!(reg.by_id("b64").is_some());
    assert_eq!(reg.by_id("b64").unwrap().id(), "b64");
    assert_eq!(reg.by_id("json").unwrap().id(), "json");
    assert_eq!(reg.by_id("ts").unwrap().id(), "ts");
    assert!(reg.by_id("nope").is_none());
}

#[test]
fn registry_returns_first_match() {
    let mut reg = Registry::new();
    reg.register(AnyTool::Base64(Base64Tool));
    reg.register(AnyTool::Base64(Base64Tool));
    assert_eq!(reg.tools().len(), 2);
    assert_eq!(reg.by_id("b64").unwrap().id(), "b64");
}

#[test]
fn evaluate_runs_selected_tool() {
    let reg = full_registry();
    let mut output = String::new();
    let mut error = String::new();
    evaluate(&reg, "b64", "encode", "hi", &mut output, &mut error);
    assert_eq!(output, "aGk=");
    assert_eq!(error, "");
}

#[test]
fn evaluate_reports_tool_error() {
    let reg = full_registry();
    let mut output = String::from("stale");
    let mut error = String::new();
    evaluate(&reg, "json", "pretty", "{bad", &mut output, &mut error);
    assert_eq!(output, "");
    assert!(error.starts_with("JSON 解析错误: "));
}

#[test]
fn evaluate_blank_clears_panes() {
    let reg = full_registry();
    let mut output = String::from("stale");
    let mut error = String::from("stale");
    evaluate(&reg, "json", "pretty", "   ", &mut output, &mut error);
    assert_eq!(output, "");
    assert_eq!(error, "");
}

#[test]
fn evaluate_unknown_tool_changes_nothing() {
    let reg = full_registry();
    let mut output = String::from("kept");
    let mut error = String::from("kept too");
    evaluate(&reg, "gone", "pretty", "{}", &mut output, &mut error);
    assert_eq!(output, "kept");
    assert_eq!(error, "kept too");
}
