use toolbox::app_state::{AppState, Tool, tool_icon};
use toolbox::sidebar::{PanelSidebar, SidebarState};
use toolbox::timestamp_tool::{autodetect_ts_to_secs, convert_dt_input, convert_ts_input};

#[test]
fn autodetect_thirteen_digits_are_milliseconds() {
    assert_eq!(autodetect_ts_to_secs("1700000000123"), Ok((1700000000, 123000000)));
    assert_eq!(autodetect_ts_to_secs("1700000000000"), Ok((1700000000, 0)));
}

#[test]
fn autodetect_ten_digits_are_seconds() {
    assert_eq!(autodetect_ts_to_secs("1700000000"), Ok((1700000000, 0)));
}

#[test]
fn autodetect_other_lengths_go_by_magnitude() {
    assert_eq!(autodetect_ts_to_secs("12345"), Ok((12345, 0)));
    // fourteen digits, at least a trillion: milliseconds
    assert_eq!(autodetect_ts_to_secs("17000000005001"), Ok((17000000005, 1000000)));
}

#[test]
fn autodetect_rejects_non_digits() {
    assert_eq!(
        autodetect_ts_to_secs("17000000a"),
        Err(String::from("时间戳必须是纯数字（不含空格/小数/符号）")),
    );
    assert_eq!(
        autodetect_ts_to_secs("-1700000000"),
        Err(String::from("时间戳必须是纯数字（不含空格/小数/符号）")),
    );
}

#[test]
fn autodetect_rejects_oversized_numbers() {
    let forty_nines = "9999999999999999999999999999999999999999";
    assert_eq!(autodetect_ts_to_secs(forty_nines), Err(String::from("时间戳过大或无效")));
    assert_eq!(autodetect_ts_to_secs(""), Err(String::from("时间戳过大或无效")));
}

#[test]
fn convert_ts_renders_utc() {
    let (utc, local) = convert_ts_input("1700000000").unwrap();
    assert_eq!(utc, "2023-11-14 22:13:20");
    assert!(!local.is_empty());
}

#[test]
fn convert_ts_blank_input() {
    assert_eq!(convert_ts_input(" "), Err(String::from("请输入时间戳（秒或毫秒）")));
}

#[test]
fn convert_ts_rejects_garbage() {
    assert_eq!(
        convert_ts_input("later"),
        Err(String::from("时间戳必须是纯数字（不含空格/小数/符号）")),
    );
}

#[test]
fn convert_dt_yields_seconds_and_milliseconds() {
    let (sec, ms) = convert_dt_input("2023-11-14 22:13:20").unwrap();
    let s: i64 = sec.parse().unwrap();
    let m: i64 = ms.parse().unwrap();
    assert_eq!(m, s.saturating_mul(1000));
}

#[test]
fn convert_dt_blank_input() {
    assert_eq!(
        convert_dt_input(""),
        Err(String::from("请输入日期时间，格式：YYYY-MM-DD HH:MM:SS")),
    );
}

#[test]
fn convert_dt_rejects_bad_format() {
    assert_eq!(
        convert_dt_input("2023/11/14"),
        Err(String::from("日期格式错误，请使用：YYYY-MM-DD HH:MM:SS")),
    );
}

#[test]
fn sidebar_drag_follows_pointer() {
    let mut s = SidebarState::new();
    assert_eq!(s.current_width(), 240);
    s.start_drag();
    assert!(s.dragging);
    s.drag_to(300);
    assert_eq!(s.current_width(), 300);
    assert!(!s.collapsed);
    s.drag_to(1000);
    assert_eq!(s.current_width(), 360);
    s.end_drag(200);
    assert!(!s.dragging);
    assert_eq!(s.current_width(), 200);
}

#[test]
fn sidebar_auto_collapses_when_narrow() {
    let mut s = SidebarState::new();
    s.start_drag();
    s.drag_to(100);
    assert!(s.collapsed);
    assert_eq!(s.current_width(), 68);
    // the remembered width is untouched by the collapsing move
    assert_eq!(s.width, 240);
}

#[test]
fn sidebar_toggle_restores_width() {
    let mut s = SidebarState::new();
    s.start_drag();
    s.end_drag(250);
    s.toggle_collapse();
    assert!(s.collapsed);
    assert_eq!(s.current_width(), 68);
    s.toggle_collapse();
    assert!(!s.collapsed);
    assert_eq!(s.current_width(), 250);
}

#[test]
fn sidebar_toggle_floors_restored_width() {
    let mut s = SidebarState::new();
    s.start_drag();
    s.end_drag(150);
    assert_eq!(s.width, 150);
    s.toggle_collapse();
    s.toggle_collapse();
    assert_eq!(s.current_width(), 180);
}

#[test]
fn panel_drag_moves_by_delta() {
    let mut p = PanelSidebar::new();
    assert_eq!(p.current_width(), 220);
    p.handle_down(500);
    p.pointer_move(530);
    assert_eq!(p.width, 250);
    p.pointer_move(400);
    assert_eq!(p.width, 160);
    p.pointer_up();
    assert!(!p.dragging);
}

#[test]
fn panel_ignores_moves_when_not_dragging() {
    let mut p = PanelSidebar::new();
    p.pointer_move(999);
    assert_eq!(p.width, 220);
}

#[test]
fn panel_toggle_remembers_width() {
    let mut p = PanelSidebar::new();
    p.handle_down(500);
    p.pointer_move(600);
    assert_eq!(p.width, 320);
    p.pointer_up();
    p.toggle_collapse();
    assert!(p.collapsed);
    assert_eq!(p.current_width(), 56);
    p.toggle_collapse();
    assert_eq!(p.current_width(), 320);
}

#[test]
fn tool_entries_have_names_and_icons() {
    assert_eq!(Tool::JsonFormatter.name(), "JSON 格式化");
    assert_eq!(Tool::Base64Encoder.name(), "Base64 编解码");
    assert_eq!(Tool::TimestampConverter.name(), "时间戳转换");
    assert_eq!(Tool::JsonFormatter.icon(), "📄");
    assert_eq!(Tool::Base64Encoder.icon(), "🔒");
    assert_eq!(Tool::TimestampConverter.icon(), "⏰");
}

#[test]
fn default_state_opens_json() {
    let s = AppState::default();
    assert!(matches!(s.current_tool, Tool::JsonFormatter));
}

#[test]
fn icons_by_tool_id() {
    assert_eq!(tool_icon("json"), "{}");
    assert_eq!(tool_icon("b64"), "B64");
    assert_eq!(tool_icon("ts"), "TS");
    assert_eq!(tool_icon("other"), "...");
}
