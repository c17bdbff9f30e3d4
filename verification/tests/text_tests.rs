use toolbox::highlight::{format_and_highlight, highlight_json, highlight_json_with_search};
use toolbox::numerals::{digits_only, i64_to_string, parse_i128, u64_to_string};
use toolbox::search::{
    cycle_next, cycle_prev, find_from, find_matches, replace_all, replace_current, splice,
};
use toolbox::textops::{is_blank, is_space, remove_separators, str_eq, trim_str};

#[test]
fn trim_strips_both_ends() {
    assert_eq!(trim_str("  hello \t\n"), "hello");
    assert_eq!(trim_str("hello"), "hello");
    assert_eq!(trim_str(""), "");
    assert_eq!(trim_str(" \t \n "), "");
}

#[test]
fn trim_strips_unicode_whitespace() {
    assert_eq!(trim_str("\u{3000}\u{a0}x\u{2028}"), "x");
    assert_eq!("\u{3000}\u{a0}x\u{2028}".trim(), "x");
}

#[test]
fn is_space_matches_std() {
    for c in ['\t', '\n', ' ', '\u{a0}', '\u{2003}', '\u{3000}', 'x', '0', '_'] {
        assert_eq!(is_space(c), c.is_whitespace());
    }
}

#[test]
fn blankness() {
    assert!(is_blank("   \t"));
    assert!(is_blank(""));
    assert!(!is_blank(" x "));
}

#[test]
fn separators_removed() {
    assert_eq!(remove_separators("1_700,000_000"), "1700000000");
    assert_eq!(remove_separators("plain"), "plain");
    assert_eq!(remove_separators("_,_"), "");
}

#[test]
fn string_equality() {
    assert!(str_eq("abc", "abc"));
    assert!(!str_eq("abc", "abd"));
    assert!(!str_eq("abc", "ab"));
    assert!(str_eq("", ""));
}

#[test]
fn parse_decimal_values() {
    assert_eq!(parse_i128("0"), Some(0));
    assert_eq!(parse_i128("1700000000"), Some(1700000000));
    assert_eq!(parse_i128("+42"), Some(42));
    assert_eq!(parse_i128("-42"), Some(-42));
    assert_eq!(parse_i128("007"), Some(7));
}

#[test]
fn parse_decimal_extremes() {
    assert_eq!(
        parse_i128("170141183460469231731687303715884105727"),
        Some(i128::MAX),
    );
    assert_eq!(
        parse_i128("-170141183460469231731687303715884105728"),
        Some(i128::MIN),
    );
    assert_eq!(parse_i128("170141183460469231731687303715884105728"), None);
    assert_eq!(parse_i128("-170141183460469231731687303715884105729"), None);
}

#[test]
fn parse_decimal_rejects_malformed() {
    assert_eq!(parse_i128(""), None);
    assert_eq!(parse_i128("+"), None);
    assert_eq!(parse_i128("-"), None);
    assert_eq!(parse_i128("12x"), None);
    assert_eq!(parse_i128(" 12"), None);
    assert_eq!(parse_i128("1_2"), None);
}

#[test]
fn parse_matches_std() {
    for s in ["0", "-5", "+17", "999999999999999999999999999999999999999", "", "9a"] {
        assert_eq!(parse_i128(s), s.parse::<i128>().ok());
    }
}

#[test]
fn digit_scan() {
    assert!(digits_only("123"));
    assert!(digits_only(""));
    assert!(!digits_only("12.3"));
    assert!(!digits_only("-1"));
}

#[test]
fn integers_render() {
    assert_eq!(u64_to_string(0), "0");
    assert_eq!(u64_to_string(1700000000), "1700000000");
    assert_eq!(i64_to_string(-5), "-5");
    assert_eq!(i64_to_string(0), "0");
    assert_eq!(i64_to_string(i64::MIN), "-9223372036854775808");
    assert_eq!(i64_to_string(i64::MAX), "9223372036854775807");
    assert_eq!(i64_to_string(42), 42i64.to_string());
}

#[test]
fn matches_are_found_in_order() {
    let pos = find_matches("abcabcabc", "abc");
    assert_eq!(pos, vec![0, 3, 6]);
}

#[test]
fn matches_do_not_overlap() {
    assert_eq!(find_matches("aaaa", "aa"), vec![0, 2]);
    assert_eq!(find_matches("aaa", "aa"), vec![0]);
}

#[test]
fn matches_empty_cases() {
    assert_eq!(find_matches("", "a"), Vec::<usize>::new());
    assert_eq!(find_matches("abc", ""), Vec::<usize>::new());
    assert_eq!(find_matches("abc", "zz"), Vec::<usize>::new());
}

#[test]
fn find_from_scans_forward() {
    assert_eq!(find_from("abcabc", "abc", 0), Some(0));
    assert_eq!(find_from("abcabc", "abc", 1), Some(3));
    assert_eq!(find_from("abcabc", "abc", 4), None);
}

#[test]
fn cursor_cycles() {
    assert_eq!(cycle_next(3, 0), 1);
    assert_eq!(cycle_next(3, 2), 0);
    assert_eq!(cycle_next(0, 5), 5);
    assert_eq!(cycle_prev(3, 0), 2);
    assert_eq!(cycle_prev(3, 2), 1);
    assert_eq!(cycle_prev(0, 5), 5);
}

#[test]
fn splice_replaces_range() {
    assert_eq!(splice("hello world", 6, 5, "there"), "hello there");
    assert_eq!(splice("abc", 0, 0, "x"), "xabc");
    assert_eq!(splice("abc", 3, 0, "x"), "abcx");
}

#[test]
fn replace_current_at_cursor() {
    let text = "one two one";
    let positions = find_matches(text, "one");
    assert_eq!(positions, vec![0, 8]);
    assert_eq!(
        replace_current(text, "one", "ONE", &positions, 1),
        Some(String::from("one two ONE")),
    );
    assert_eq!(
        replace_current(text, "one", "ONE", &positions, 0),
        Some(String::from("ONE two one")),
    );
}

#[test]
fn replace_current_without_matches() {
    let text = "abc";
    let positions = find_matches(text, "zz");
    assert_eq!(replace_current(text, "zz", "q", &positions, 0), None);
}

#[test]
fn replace_all_rewrites_every_occurrence() {
    assert_eq!(replace_all("one two one", "one", "1"), "1 two 1");
    assert_eq!(replace_all("aaa", "aa", "b"), "ba");
    assert_eq!(replace_all("abc", "zz", "q"), "abc");
    assert_eq!(replace_all("one two one", "one", "1"), "one two one".replace("one", "1"));
}

#[test]
fn highlight_wraps_tokens() {
    let html = highlight_json("{\"a\": true}");
    assert_eq!(
        html,
        "{<span style=\"color: #9cdcfe\">\"a\"</span>: <span style=\"color: #569cd6\">true</span>}",
    );
}

#[test]
fn highlight_distinguishes_keys_and_values() {
    let html = highlight_json("{\"k\": \"v\"}");
    assert_eq!(
        html,
        "{<span style=\"color: #9cdcfe\">\"k\"</span>: <span style=\"color: #ce9178\">\"v\"</span>}",
    );
}

#[test]
fn highlight_keywords() {
    assert_eq!(
        highlight_json("[false, null]"),
        "[<span style=\"color: #569cd6\">false</span>, <span style=\"color: #569cd6\">null</span>]",
    );
}

#[test]
fn highlight_keeps_escaped_quotes_inside_strings() {
    let html = highlight_json("{\"a\": \"x\\\"y\"}");
    assert_eq!(
        html,
        "{<span style=\"color: #9cdcfe\">\"a\"</span>: <span style=\"color: #ce9178\">\"x\\\"y\"</span>}",
    );
}

#[test]
fn highlight_empty_input() {
    assert_eq!(highlight_json(""), "");
}

#[test]
fn search_overlay_marks_first_hit() {
    let out = highlight_json_with_search("{\"a\": true}", "true");
    let expected = "{<span style=\"color: #9cdcfe\">\"a\"</span>: <span style=\"color: #569cd6\"><span style=\"background:#ffcc00;color:#000;\"><span style=\"background:rgba(255,204,0,0.35);\">true</span></span></span>}";
    assert_eq!(out, expected);
}

#[test]
fn repaint_formats_and_highlights() {
    let (output, highlighted, error) = format_and_highlight("{\"a\":true}", "true");
    assert_eq!(output, "{\n  \"a\": true\n}");
    assert_eq!(highlighted, highlight_json_with_search(&output, "true"));
    assert_eq!(error, "");
}

#[test]
fn repaint_blank_clears_all() {
    let (output, highlighted, error) = format_and_highlight("  ", "q");
    assert_eq!(output, "");
    assert_eq!(highlighted, "");
    assert_eq!(error, "");
}

#[test]
fn repaint_reports_parse_error() {
    let (output, highlighted, error) = format_and_highlight("{nope", "");
    assert_eq!(output, "");
    assert_eq!(highlighted, "");
    assert!(error.starts_with("JSON 解析错误: "));
}

#[test]
fn search_overlay_without_query() {
    assert_eq!(
        highlight_json_with_search("{\"a\": true}", ""),
        highlight_json("{\"a\": true}"),
    );
}

#[test]
fn search_overlay_without_hit() {
    assert_eq!(
        highlight_json_with_search("{\"a\": true}", "zebra"),
        highlight_json("{\"a\": true}"),
    );
}
