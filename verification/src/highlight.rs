//! JSON syntax highlighting for the output pane: a single pass over the text
//! that wraps strings, keys and the literals `true`, `false` and `null` in
//! colored HTML spans, plus the overlay that marks search hits.

use vstd::prelude::*;
use crate::json_tool::{json_error_text, json_ok, json_pretty, json_pretty_of};
use crate::search::{
    find_from, first_match_from, is_match_at, lemma_first_is_match, replace_all, splice,
    splice_all_from,
};
use crate::textops::{is_blank, trim_spec};

verus! {

/// HTML escaping of one character as `html_escape::encode_text` performs it:
/// `&`, `<` and `>` become entities, everything else stays.
pub open spec fn esc_char(c: char) -> Seq<char> {
    if c == '&' {
        ("&amp;")@
    } else if c == '<' {
        ("&lt;")@
    } else if c == '>' {
        ("&gt;")@
    } else {
        seq![c]
    }
}

/// HTML escaping of a whole text.
pub open spec fn html_text_escaped(s: Seq<char>) -> Seq<char>
    decreases s.len(),
{
    if s.len() == 0 {
        Seq::empty()
    } else {
        esc_char(s[0]) + html_text_escaped(s.drop_first())
    }
}

/// Relies on `html_escape::encode_text`: it escapes exactly `&` to `&amp;`,
/// `<` to `&lt;` and `>` to `&gt;`, and leaves every other character alone.
#[verifier::external_body]
fn escape_html_text(s: &str) -> (r: String)
    ensures
        r@ == html_text_escaped(s@),
{
    html_escape::encode_text(s).into_owned()
}

/// What the highlighting pass emits from position `i` on, given whether the
/// scan stands inside a string literal, expects a key, or just saw a
/// backslash.  Mirrors one loop step per branch: quotes open and close
/// colored spans (keys and values in different colors), `:` ends a key,
/// `{`, `[` and `,` announce one, `true`/`false`/`null` (recognized by their
/// first two characters) are wrapped whole, and a backslash inside a string
/// shields the character after it.
pub open spec fn highlight_from(
    s: Seq<char>,
    i: int,
    in_string: bool,
    is_key: bool,
    escape: bool,
) -> Seq<char>
    decreases s.len() - i,
{
    if i < 0 || i >= s.len() {
        Seq::empty()
    } else {
        let ch = s[i];
        if ch == '"' && !escape {
            if !in_string {
                (if is_key {
                    ("<span style=\"color: #9cdcfe\">\"")@
                } else {
                    ("<span style=\"color: #ce9178\">\"")@
                }) + highlight_from(s, i + 1, true, is_key, false)
            } else {
                ("\"</span>")@ + highlight_from(s, i + 1, false, false, false)
            }
        } else if ch == ':' && !in_string {
            seq![':'] + highlight_from(s, i + 1, in_string, false, false)
        } else if (ch == '{' || ch == '[') && !in_string {
            seq![ch] + highlight_from(s, i + 1, in_string, true, false)
        } else if (ch == '}' || ch == ']') && !in_string {
            seq![ch] + highlight_from(s, i + 1, in_string, is_key, false)
        } else if ch == ',' && !in_string {
            seq![ch] + highlight_from(s, i + 1, in_string, true, false)
        } else if ch == 't' && !in_string && i + 1 < s.len() && s[i + 1] == 'r' {
            ("<span style=\"color: #569cd6\">t")@ + ("rue</span>")@ + highlight_from(
                s,
                if i + 4 <= s.len() {
                    i + 4
                } else {
                    s.len() as int
                },
                in_string,
                is_key,
                false,
            )
        } else if ch == 'f' && !in_string && i + 1 < s.len() && s[i + 1] == 'a' {
            ("<span style=\"color: #569cd6\">f")@ + ("alse</span>")@ + highlight_from(
                s,
                if i + 5 <= s.len() {
                    i + 5
                } else {
                    s.len() as int
                },
                in_string,
                is_key,
                false,
            )
        } else if ch == 'n' && !in_string && i + 1 < s.len() && s[i + 1] == 'u' {
            ("<span style=\"color: #569cd6\">n")@ + ("ull</span>")@ + highlight_from(
                s,
                if i + 4 <= s.len() {
                    i + 4
                } else {
                    s.len() as int
                },
                in_string,
                is_key,
                false,
            )
        } else if ch == '\\' && in_string {
            seq!['\\'] + highlight_from(s, i + 1, in_string, is_key, true)
        } else {
            seq![ch] + highlight_from(s, i + 1, in_string, is_key, false)
        }
    }
}

/// The full highlighting of a JSON text.
pub open spec fn highlight_json_spec(s: Seq<char>) -> Seq<char> {
    highlight_from(s, 0, false, false, false)
}

/// Wraps the strings, keys and keyword literals of `json` in colored HTML
/// spans, one linear pass over the characters.
#[verifier::rlimit(60)]
pub fn highlight_json(json: &str) -> (r: String)
    ensures
        r@ == highlight_json_spec(json@),
{
    let n = json.unicode_len();
    let mut out = String::new();
    let mut i: usize = 0;
    let mut in_string = false;
    let mut is_key = false;
    let mut escape = false;
    while i < n
        invariant
            n == json@.len(),
            0 <= i <= n,
            highlight_json_spec(json@) =~= out@ + highlight_from(
                json@,
                i as int,
                in_string,
                is_key,
                escape,
            ),
        decreases n - i,
    {
        let ghost pre = out@;
        let ghost spec_here = highlight_from(json@, i as int, in_string, is_key, escape);
        let ch = json.get_char(i);
        if ch == '"' && !escape {
            in_string = !in_string;
            if in_string {
                if is_key {
                    out.append("<span style=\"color: #9cdcfe\">\"");
                } else {
                    out.append("<span style=\"color: #ce9178\">\"");
                }
            } else {
                out.append("\"</span>");
                is_key = false;
            }
            escape = false;
            proof {
                assert(pre + spec_here =~= out@ + highlight_from(
                    json@,
                    i + 1,
                    in_string,
                    is_key,
                    escape,
                ));
            }
            i += 1;
        } else if ch == ':' && !in_string {
            out.push(':');
            is_key = false;
            escape = false;
            proof {
                assert(pre + spec_here =~= out@ + highlight_from(
                    json@,
                    i + 1,
                    in_string,
                    is_key,
                    escape,
                ));
            }
            i += 1;
        } else if (ch == '{' || ch == '[') && !in_string {
            out.push(ch);
            is_key = true;
            escape = false;
            proof {
                assert(pre + spec_here =~= out@ + highlight_from(
                    json@,
                    i + 1,
                    in_string,
                    is_key,
                    escape,
                ));
            }
            i += 1;
        } else if (ch == '}' || ch == ']') && !in_string {
            out.push(ch);
            escape = false;
            proof {
                assert(pre + spec_here =~= out@ + highlight_from(
                    json@,
                    i + 1,
                    in_string,
                    is_key,
                    escape,
                ));
            }
            i += 1;
        } else if ch == ',' && !in_string {
            out.push(ch);
            is_key = true;
            escape = false;
            proof {
                assert(pre + spec_here =~= out@ + highlight_from(
                    json@,
                    i + 1,
                    in_string,
                    is_key,
                    escape,
                ));
            }
            i += 1;
        } else if ch == 't' && !in_string && i + 1 < n && json.get_char(i + 1) == 'r' {
            out.append("<span style=\"color: #569cd6\">t");
            out.append("rue</span>");
            escape = false;
            let j = if n - i >= 4 {
                i + 4
            } else {
                n
            };
            proof {
                assert(pre + spec_here =~= out@ + highlight_from(
                    json@,
                    j as int,
                    in_string,
                    is_key,
                    escape,
                ));
            }
            i = j;
        } else if ch == 'f' && !in_string && i + 1 < n && json.get_char(i + 1) == 'a' {
            out.append("<span style=\"color: #569cd6\">f");
            out.append("alse</span>");
            escape = false;
            let j = if n - i >= 5 {
                i + 5
            } else {
                n
            };
            proof {
                assert(pre + spec_here =~= out@ + highlight_from(
                    json@,
                    j as int,
                    in_string,
                    is_key,
                    escape,
                ));
            }
            i = j;
        } else if ch == 'n' && !in_string && i + 1 < n && json.get_char(i + 1) == 'u' {
            out.append("<span style=\"color: #569cd6\">n");
            out.append("ull</span>");
            escape = false;
            let j = if n - i >= 4 {
                i + 4
            } else {
                n
            };
            proof {
                assert(pre + spec_here =~= out@ + highlight_from(
                    json@,
                    j as int,
                    in_string,
                    is_key,
                    escape,
                ));
            }
            i = j;
        } else if ch == '\\' && in_string {
            escape = true;
            out.push(ch);
            proof {
                assert(pre + spec_here =~= out@ + highlight_from(
                    json@,
                    i + 1,
                    in_string,
                    is_key,
                    escape,
                ));
            }
            i += 1;
        } else {
            out.push(ch);
            escape = false;
            proof {
                assert(pre + spec_here =~= out@ + highlight_from(
                    json@,
                    i + 1,
                    in_string,
                    is_key,
                    escape,
                ));
            }
            i += 1;
        }
    }
    out
}

/// The span put around the hit the cursor rests on.
pub open spec fn strong_span(q: Seq<char>) -> Seq<char> {
    ("<span style=\"background:#ffcc00;color:#000;\">")@ + html_text_escaped(q) + ("</span>")@
}

/// The span put around every other hit.
pub open spec fn weak_span(q: Seq<char>) -> Seq<char> {
    ("<span style=\"background:rgba(255,204,0,0.35);\">")@ + html_text_escaped(q) + ("</span>")@
}

/// The highlighted text with search hits overlaid: the first occurrence of
/// the query gets the strong span, and every occurrence still present after
/// that splice gets the weak one.
pub open spec fn highlight_with_search_spec(j: Seq<char>, q: Seq<char>) -> Seq<char> {
    let html = highlight_json_spec(j);
    if q.len() == 0 {
        html
    } else {
        match first_match_from(html, q, 0) {
            Some(p) => {
                let spliced = html.subrange(0, p) + strong_span(q) + html.subrange(
                    p + q.len(),
                    html.len() as int,
                );
                splice_all_from(spliced, q, weak_span(q), 0)
            },
            None => html,
        }
    }
}

/// Highlights `json` and overlays hits of `query`, a plain text-level
/// overlay that may also strike inside the generated HTML markup.
pub fn highlight_json_with_search(json: &str, query: &str) -> (r: String)
    ensures
        r@ == highlight_with_search_spec(json@, query@),
{
    let html = highlight_json(json);
    let qn = query.unicode_len();
    if qn == 0 {
        return html;
    }
    match find_from(html.as_str(), query, 0) {
        Some(p) => {
            let escaped = escape_html_text(query);
            let mut strong = String::from_str("<span style=\"background:#ffcc00;color:#000;\">");
            strong.append(escaped.as_str());
            strong.append("</span>");
            proof {
                assert(strong@ =~= strong_span(query@));
                lemma_first_is_match(html@, query@, 0, p as int);
                assert(is_match_at(html@, query@, p as int));
            }
            let spliced = splice(html.as_str(), p, qn, strong.as_str());
            let mut weak = String::from_str("<span style=\"background:rgba(255,204,0,0.35);\">");
            weak.append(escaped.as_str());
            weak.append("</span>");
            proof {
                assert(weak@ =~= weak_span(query@));
            }
            replace_all(spliced.as_str(), query, weak.as_str())
        },
        None => html,
    }
}

/// What one repaint of the formatter panel computes from the input text and
/// the output pane's search query: blank input clears everything; a JSON
/// document yields its pretty form, that form highlighted with the query
/// overlaid, and no error; anything else clears both panes and reports the
/// parse error.
pub open spec fn repaint_spec(
    input: Seq<char>,
    query: Seq<char>,
    output: Seq<char>,
    highlighted: Seq<char>,
    error: Seq<char>,
) -> bool {
    if trim_spec(input).len() == 0 {
        output.len() == 0 && highlighted.len() == 0 && error.len() == 0
    } else if json_ok(input) {
        &&& output == json_pretty_of(input)
        &&& highlighted == highlight_with_search_spec(json_pretty_of(input), query)
        &&& error.len() == 0
    } else {
        output.len() == 0 && highlighted.len() == 0 && error == ("JSON 解析错误: ")@
            + json_error_text(input)
    }
}

/// One repaint of the formatter panel: pretty-prints the input and overlays
/// the output pane's search query on the highlighted form.  Returns the
/// plain output, the highlighted output, and the error text.
pub fn format_and_highlight(input: &str, output_query: &str) -> (r: (String, String, String))
    ensures
        repaint_spec(input@, output_query@, r.0@, r.1@, r.2@),
{
    if is_blank(input) {
        return (String::new(), String::new(), String::new());
    }
    match json_pretty(input) {
        Ok(formatted) => {
            let highlighted = highlight_json_with_search(formatted.as_str(), output_query);
            (formatted, highlighted, String::new())
        },
        Err(m) => {
            let mut msg = String::from_str("JSON 解析错误: ");
            msg.append(m.as_str());
            (String::new(), String::new(), msg)
        },
    }
}

} // verus!
