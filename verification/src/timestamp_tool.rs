//! The timestamp tool: turning Unix timestamps into readable datetimes and
//! back, through `chrono`.  The arithmetic that splits a raw number into
//! seconds and nanoseconds — including the wrap-around casts the interface
//! performs on out-of-range values — is verified exactly; `chrono` renders
//! and parses datetimes behind trusted wrappers.

use vstd::prelude::*;
use vstd::arithmetic::div_mod::{
    lemma_fundamental_div_mod, lemma_mod_add_multiples_vanish, lemma_mod_multiples_vanish,
    lemma_small_mod,
};
use chrono::TimeZone;
use crate::numerals::{
    all_digits, dec_val, digits_only, dec_str_int, i64_to_string, int_digits, int_value,
    int_well_formed, lemma_dec_val_bound, lemma_dec_val_nonneg, parse_i128, parse_i128_spec, pow10,
};
use crate::registry::{Mode, ProcessError, ProcessErrorKind, ProcessResult, Tool};
use crate::textops::{remove_separators, trim_spec, trim_str, str_eq};
use vstd::pervasive::unreached;

verus! {

/// Whether `chrono` can place the pair of seconds and nanoseconds on its
/// timeline: what `DateTime::from_timestamp` (and through it
/// `Utc.timestamp_opt(..).single()`, which delegates to it) accepts.
pub uninterp spec fn utc_in_range(secs: int, nanos: int) -> bool;

/// The RFC 3339 rendering of the UTC datetime at the pair.
pub uninterp spec fn utc_rfc3339_of(secs: int, nanos: int) -> Seq<char>;

/// The `YYYY-MM-DD HH:MM:SS` rendering of the UTC datetime at the pair.
pub uninterp spec fn utc_ymdhms_of(secs: int, nanos: int) -> Seq<char>;

/// What `DateTime::parse_from_rfc3339` followed by `timestamp` yields on the
/// text: the Unix seconds when the text is RFC 3339, nothing otherwise.
pub uninterp spec fn rfc3339_secs_of(s: Seq<char>) -> Option<i64>;

/// Whether `NaiveDateTime::parse_from_str` accepts the text under the
/// format.
pub uninterp spec fn naive_parse_ok(s: Seq<char>, fmt: Seq<char>) -> bool;

/// Relies on `chrono::Utc.timestamp_opt(..).single()` and
/// `DateTime::to_rfc3339`: in range exactly when `utc_in_range` holds, and
/// the rendering depends on the pair alone.
#[verifier::external_body]
fn utc_rfc3339_string(secs: i64, nanos: u32) -> (r: Option<String>)
    ensures
        r is Some <==> utc_in_range(secs as int, nanos as int),
        r matches Some(t) ==> t@ == utc_rfc3339_of(secs as int, nanos as int),
{
    chrono::Utc.timestamp_opt(secs, nanos).single().map(|dt| dt.to_rfc3339())
}

/// Relies on `chrono::Utc.timestamp_opt(..).single()` followed by a
/// conversion to the local zone and `format`: succeeds exactly on the range
/// `utc_in_range` names; the rendered text depends on the machine's time
/// zone, so nothing is claimed of it.
#[verifier::external_body]
fn utc_local_string(secs: i64, nanos: u32) -> (r: Option<String>)
    ensures
        r is Some <==> utc_in_range(secs as int, nanos as int),
{
    chrono::Utc.timestamp_opt(secs, nanos).single().map(
        |dt| {
            let loc: chrono::DateTime<chrono::Local> = chrono::DateTime::from(dt);
            loc.format("%Y-%m-%d %H:%M:%S%.3f %z").to_string()
        },
    )
}

/// Relies on `chrono::DateTime::from_timestamp` and `format`: in range
/// exactly when `utc_in_range` holds, and the rendering depends on the pair
/// alone.
#[verifier::external_body]
fn utc_ymdhms_string(secs: i64, nanos: u32) -> (r: Option<String>)
    ensures
        r is Some <==> utc_in_range(secs as int, nanos as int),
        r matches Some(t) ==> t@ == utc_ymdhms_of(secs as int, nanos as int),
{
    chrono::DateTime::<chrono::Utc>::from_timestamp(secs, nanos).map(
        |dt| dt.format("%Y-%m-%d %H:%M:%S").to_string(),
    )
}

/// Relies on `chrono::DateTime::from_timestamp`, `with_timezone(&Local)` and
/// `format`: succeeds exactly on the range `utc_in_range` names; the text
/// depends on the machine's time zone, so nothing is claimed of it.
#[verifier::external_body]
fn local_ymdhms_string(secs: i64, nanos: u32) -> (r: Option<String>)
    ensures
        r is Some <==> utc_in_range(secs as int, nanos as int),
{
    chrono::DateTime::<chrono::Utc>::from_timestamp(secs, nanos).map(
        |dt| dt.with_timezone(&chrono::Local).format("%Y-%m-%d %H:%M:%S").to_string(),
    )
}

/// Relies on `chrono::DateTime::parse_from_rfc3339` followed by `timestamp`:
/// the offset stands in the text, so the seconds depend on the text alone.
#[verifier::external_body]
fn rfc3339_to_secs(s: &str) -> (r: Option<i64>)
    ensures
        r == rfc3339_secs_of(s@),
{
    chrono::DateTime::parse_from_rfc3339(s).ok().map(|dt| dt.timestamp())
}

/// Relies on `chrono::NaiveDateTime::parse_from_str` followed by
/// `Local.from_local_datetime(..).single()` and `timestamp`: parsing
/// succeeds exactly when `naive_parse_ok` holds; whether the local zone
/// places the naive datetime uniquely, and where, depends on the machine, so
/// only the split between parse failure and the rest is claimed.
#[verifier::external_body]
fn local_fmt_secs(s: &str, fmt: &str) -> (r: Result<Option<i64>, ()>)
    ensures
        r is Ok <==> naive_parse_ok(s@, fmt@),
{
    match chrono::NaiveDateTime::parse_from_str(s, fmt) {
        Ok(n) => Ok(chrono::Local.from_local_datetime(&n).single().map(|dt| dt.timestamp())),
        Err(_) => Err(()),
    }
}

/// Relies on the same chain as [`local_fmt_secs`], but falls back to
/// `earliest()` when the local mapping is ambiguous, as the converter card
/// does.
#[verifier::external_body]
fn local_fmt_secs_earliest(s: &str, fmt: &str) -> (r: Result<Option<i64>, ()>)
    ensures
        r is Ok <==> naive_parse_ok(s@, fmt@),
{
    match chrono::NaiveDateTime::parse_from_str(s, fmt) {
        Ok(n) => Ok(
            chrono::Local.from_local_datetime(&n).single().or_else(
                || chrono::Local.from_local_datetime(&n).earliest(),
            ).map(|dt| dt.timestamp()),
        ),
        Err(_) => Err(()),
    }
}

/// `x` reduced into `[0, 2^64)`, the value a `u64` keeps of it.
pub open spec fn wrap_u64_val(x: int) -> int {
    x % 0x10000000000000000
}

/// What an `as i64` cast makes of an arbitrary integer: two's-complement
/// wrap-around.
pub open spec fn as_wrapped_i64(x: int) -> int {
    if wrap_u64_val(x) >= 0x8000000000000000 {
        wrap_u64_val(x) - 0x10000000000000000
    } else {
        wrap_u64_val(x)
    }
}

/// `x` reduced into `[0, 2^32)`, the value an `as u32` cast keeps of it.
pub open spec fn wrap_u32_val(x: int) -> int {
    x % 0x100000000
}

/// Division by 1000 truncated toward zero, as `/` behaves on signed
/// integers.
pub open spec fn trunc_div_1000(n: int) -> int {
    if n >= 0 {
        n / 1000
    } else {
        -((-n) / 1000)
    }
}

/// Remainder of the truncated division, carrying the sign of `n`.
pub open spec fn trunc_rem_1000(n: int) -> int {
    if n >= 0 {
        n % 1000
    } else {
        -((-n) % 1000)
    }
}

/// Reduces a non-negative quotient the way `as i64` would.
fn wrap_u128_to_i64(q: u128) -> (r: i64)
    ensures
        r as int == as_wrapped_i64(q as int),
{
    let low: u64 = (q % 18446744073709551616u128) as u64;
    if low >= 0x8000000000000000u64 {
        -((u64::MAX - low) as i64) - 1
    } else {
        low as i64
    }
}

/// Reduces the negation of a non-negative quotient the way `as i64` would.
fn wrap_neg_u128_to_i64(q: u128) -> (r: i64)
    ensures
        r as int == as_wrapped_i64(-(q as int)),
{
    let lowq: u64 = (q % 18446744073709551616u128) as u64;
    proof {
        let m: int = 0x10000000000000000;
        let qi = q as int;
        lemma_fundamental_div_mod(qi, m);
        assert(-qi == m * (-(qi / m) - 1) + (m - qi % m)) by {
            assert(m * (-(qi / m) - 1) == -(m * (qi / m)) - m) by (nonlinear_arith);
        }
        lemma_mod_multiples_vanish(-(qi / m) - 1, m - qi % m, m);
        assert((-qi) % m == (m - qi % m) % m);
        if qi % m == 0 {
            lemma_mod_multiples_vanish(1, 0, m);
            assert((m - qi % m) % m == 0);
        } else {
            lemma_small_mod((m - qi % m) as nat, m as nat);
        }
    }
    let low: u64 = if lowq == 0 {
        0
    } else {
        (18446744073709551615u64 - lowq) + 1
    };
    if low >= 0x8000000000000000u64 {
        -((u64::MAX - low) as i64) - 1
    } else {
        low as i64
    }
}

/// Turns a negated millisecond remainder into the nanosecond count the
/// `as u32` cast produces: zero stays zero, anything else wraps around.
fn neg_millis_to_nanos_u32(rm: u32) -> (r: u32)
    requires
        rm < 1000,
    ensures
        r as int == wrap_u32_val(-(rm as int) * 1000000),
{
    let m: u64 = 4294967296u64;
    if rm == 0 {
        proof {
            lemma_small_mod(0nat, 0x100000000nat);
        }
        0
    } else {
        proof {
            let x: int = -(rm as int) * 1000000;
            lemma_mod_add_multiples_vanish(x, 0x100000000);
            lemma_small_mod((x + 0x100000000) as nat, 0x100000000nat);
        }
        (m - (rm as u64) * 1000000) as u32
    }
}

/// The magnitude of a negative `i128`, computed without overflowing.
fn neg_magnitude(n: i128) -> (r: u128)
    requires
        n < 0,
    ensures
        r as int == -(n as int),
{
    ((-(n + 1)) as u128) + 1
}

/// Which complaint, if any, the automatic second/millisecond detection
/// raises on a raw digit string.
pub open spec fn auto_err(s: Seq<char>) -> Option<Seq<char>> {
    if !all_digits(s) {
        Some(("时间戳必须是纯数字（不含空格/小数/符号）")@)
    } else if s.len() == 13 || s.len() == 10 {
        None
    } else if s.len() == 0 || dec_val(s) > i128::MAX {
        Some(("时间戳过大或无效")@)
    } else {
        None
    }
}

/// The seconds the detection reads out of an accepted digit string: a
/// 13-digit string counts milliseconds, a 10-digit one seconds, and any
/// other length goes by magnitude, with the interface's wrap-around cast on
/// oversized quotients.
pub open spec fn auto_secs(s: Seq<char>) -> int {
    if s.len() == 13 {
        dec_val(s) / 1000
    } else if s.len() == 10 {
        dec_val(s)
    } else if dec_val(s) >= 1000000000000 {
        as_wrapped_i64(dec_val(s) / 1000)
    } else {
        dec_val(s)
    }
}

/// The nanoseconds the detection pairs with [`auto_secs`].
pub open spec fn auto_nanos(s: Seq<char>) -> int {
    if s.len() == 13 {
        (dec_val(s) % 1000) * 1000000
    } else if s.len() == 10 {
        0
    } else if dec_val(s) >= 1000000000000 {
        (dec_val(s) % 1000) * 1000000
    } else {
        0
    }
}

/// What the automatic detection returns on a raw input string.
pub open spec fn autodetect_spec(s: Seq<char>, r: Result<(i64, u32), String>) -> bool {
    match auto_err(s) {
        Some(msg) => r matches Err(m) && m@ == msg,
        None => r matches Ok(p) && p.0 as int == auto_secs(s) && p.1 as int == auto_nanos(s),
    }
}

/// On an all-digit string, the sign-aware readings collapse to the plain
/// digit value.
proof fn lemma_digits_parse(s: Seq<char>)
    requires
        all_digits(s),
        s.len() > 0,
    ensures
        int_digits(s) == s,
        int_well_formed(s),
        int_value(s) == dec_val(s),
        int_value(s) >= 0,
{
    assert(crate::numerals::is_digit_char(s[0]));
    assert(s[0] != '+' && s[0] != '-');
    assert(int_digits(s) == s);
    lemma_dec_val_nonneg(s);
}

/// Reads a timestamp of unstated unit: 13 digits are milliseconds, 10
/// digits seconds, and any other length decides by magnitude.
pub fn autodetect_ts_to_secs(s: &str) -> (r: Result<(i64, u32), String>)
    ensures
        autodetect_spec(s@, r),
{
    if !digits_only(s) {
        return Err(String::from_str("时间戳必须是纯数字（不含空格/小数/符号）"));
    }
    let len = s.unicode_len();
    if len == 13 {
        match parse_i128(s) {
            Some(ms) => {
                proof {
                    lemma_digits_parse(s@);
                    lemma_dec_val_bound(s@);
                    reveal_with_fuel(pow10, 14);
                }
                let mu: u64 = ms as u64;
                let secs: i64 = (mu / 1000) as i64;
                let nanos: u32 = ((mu % 1000) as u32) * 1_000_000;
                Ok((secs, nanos))
            },
            None => {
                proof {
                    lemma_digits_parse(s@);
                    lemma_dec_val_bound(s@);
                    reveal_with_fuel(pow10, 14);
                }
                unreached()
            },
        }
    } else if len == 10 {
        match parse_i128(s) {
            Some(v) => {
                proof {
                    lemma_digits_parse(s@);
                    lemma_dec_val_bound(s@);
                    reveal_with_fuel(pow10, 11);
                }
                Ok((v as i64, 0))
            },
            None => {
                proof {
                    lemma_digits_parse(s@);
                    lemma_dec_val_bound(s@);
                    reveal_with_fuel(pow10, 11);
                }
                unreached()
            },
        }
    } else {
        match parse_i128(s) {
            None => {
                proof {
                    if s@.len() > 0 {
                        lemma_digits_parse(s@);
                    }
                }
                Err(String::from_str("时间戳过大或无效"))
            },
            Some(v) => {
                proof {
                    lemma_digits_parse(s@);
                }
                if v >= 1_000_000_000_000i128 {
                    let vu: u128 = v as u128;
                    let qm: u128 = vu / 1000;
                    let rm: u128 = vu % 1000;
                    let secs = wrap_u128_to_i64(qm);
                    let nanos: u32 = (rm as u32) * 1_000_000;
                    Ok((secs, nanos))
                } else {
                    Ok((v as i64, 0))
                }
            },
        }
    }
}

/// The raw numeral the tool reads: the input trimmed, with `_` and `,`
/// separators removed.
pub open spec fn ts_normalized(input: Seq<char>) -> Seq<char> {
    trim_spec(input).filter(|c: char| c != '_' && c != ',')
}

/// Whether the tool takes the number for milliseconds: magnitude above ten
/// trillion.
pub open spec fn ms_magnitude(n: int) -> bool {
    n > 10000000000000 || n < -10000000000000
}

/// The seconds the tool hands to `chrono`, wrap-around cast included.
pub open spec fn ts_secs_of(n: int) -> int {
    if ms_magnitude(n) {
        as_wrapped_i64(trunc_div_1000(n))
    } else {
        n
    }
}

/// The nanoseconds the tool hands to `chrono`; a negative millisecond
/// remainder wraps around the `u32` cast.
pub open spec fn ts_nsecs_of(n: int) -> int {
    if ms_magnitude(n) {
        wrap_u32_val(trunc_rem_1000(n) * 1000000)
    } else {
        0
    }
}

/// What the timestamp-to-datetime conversion returns: blank input passes
/// through empty; a non-numeral is rejected; a number out of `chrono`'s
/// range is rejected; and otherwise the output opens with the UTC rendering,
/// followed by a local rendering that depends on the machine's time zone.
pub open spec fn ts_to_human_spec(input: Seq<char>, r: ProcessResult) -> bool {
    let raw = ts_normalized(input);
    if raw.len() == 0 {
        r matches Ok(o) && o@ == Seq::<char>::empty()
    } else {
        match parse_i128_spec(raw) {
            None => r matches Err(e) && e.kind == ProcessErrorKind::Parse && e.message@ == (
            "请输入整数型 Unix 时间戳（秒或毫秒）")@,
            Some(n) => {
                let secs = ts_secs_of(n as int);
                let nsecs = ts_nsecs_of(n as int);
                if utc_in_range(secs, nsecs) {
                    let head = ("UTC : ")@ + utc_rfc3339_of(secs, nsecs) + ("\nLocal: ")@;
                    r matches Ok(o) && o@.len() >= head.len() && o@.subrange(
                        0,
                        head.len() as int,
                    ) == head
                } else {
                    r matches Err(e) && e.kind == ProcessErrorKind::Parse && e.message@ == (
                    "无法构造时间，请检查数值范围")@
                }
            },
        }
    }
}

/// Splits a raw number into the seconds and nanoseconds the interface hands
/// on, mirroring its truncating division and wrap-around casts.
fn split_timestamp(n: i128) -> (r: (i64, u32))
    ensures
        r.0 as int == ts_secs_of(n as int),
        r.1 as int == ts_nsecs_of(n as int),
{
    if n > 10_000_000_000_000i128 {
        let vu: u128 = n as u128;
        let qm: u128 = vu / 1000;
        let rm: u128 = vu % 1000;
        let secs = wrap_u128_to_i64(qm);
        let nanos: u32 = (rm as u32) * 1_000_000;
        proof {
            lemma_small_mod((rm * 1000000) as nat, 0x100000000nat);
        }
        (secs, nanos)
    } else if n < -10_000_000_000_000i128 {
        let mag: u128 = neg_magnitude(n);
        let qm: u128 = mag / 1000;
        let rm: u128 = mag % 1000;
        let secs = wrap_neg_u128_to_i64(qm);
        let nanos = neg_millis_to_nanos_u32(rm as u32);
        proof {
            assert(trunc_div_1000(n as int) == -(qm as int));
            assert(trunc_rem_1000(n as int) == -(rm as int));
        }
        (secs, nanos)
    } else {
        (n as i64, 0)
    }
}

/// Converts a Unix timestamp, in seconds or milliseconds, to its UTC and
/// local datetime renderings.
pub fn ts_to_human(input: &str) -> (r: ProcessResult)
    ensures
        ts_to_human_spec(input@, r),
{
    let t = trim_str(input);
    let raw = remove_separators(t);
    if raw.as_str().is_empty() {
        return Ok(String::new());
    }
    match parse_i128(raw.as_str()) {
        None => Err(
            ProcessError {
                kind: ProcessErrorKind::Parse,
                message: String::from_str("请输入整数型 Unix 时间戳（秒或毫秒）"),
            },
        ),
        Some(n) => {
            let (secs, nsecs) = split_timestamp(n);
            match utc_rfc3339_string(secs, nsecs) {
                None => Err(
                    ProcessError {
                        kind: ProcessErrorKind::Parse,
                        message: String::from_str("无法构造时间，请检查数值范围"),
                    },
                ),
                Some(u) => {
                    match utc_local_string(secs, nsecs) {
                        None => unreached(),
                        Some(l) => {
                            let mut out = String::from_str("UTC : ");
                            out.append(u.as_str());
                            out.append("\nLocal: ");
                            out.append(l.as_str());
                            proof {
                                let head = ("UTC : ")@ + utc_rfc3339_of(
                                    secs as int,
                                    nsecs as int,
                                ) + ("\nLocal: ")@;
                                assert(out@.subrange(0, head.len() as int) =~= head);
                            }
                            Ok(out)
                        },
                    }
                },
            }
        },
    }
}

/// Decimal rendering of an `i64`, for stating that an output is some
/// rendered count of seconds.
pub open spec fn dec_str_i64(v: i64) -> Seq<char> {
    dec_str_int(v as int)
}

/// What the datetime-to-timestamp conversion returns: blank input passes
/// through empty; an RFC 3339 text maps to its own Unix seconds; a text in
/// one of the two local formats maps to machine-dependent seconds or to the
/// ambiguity error; anything else is rejected.
pub open spec fn human_to_unix_spec(input: Seq<char>, r: ProcessResult) -> bool {
    let t = trim_spec(input);
    if t.len() == 0 {
        r matches Ok(o) && o@ == Seq::<char>::empty()
    } else {
        match rfc3339_secs_of(t) {
            Some(v) => r matches Ok(o) && o@ == dec_str_i64(v),
            None => {
                if naive_parse_ok(t, ("%Y-%m-%d %H:%M:%S%.3f")@) || naive_parse_ok(
                    t,
                    ("%Y-%m-%d %H:%M:%S")@,
                ) {
                    match r {
                        Ok(o) => exists|v: i64| o@ == #[trigger] dec_str_i64(v),
                        Err(e) => e.kind == ProcessErrorKind::Parse && e.message@ == (
                        "本地时间不唯一/无效（涉夏令时）")@,
                    }
                } else {
                    r matches Err(e) && e.kind == ProcessErrorKind::Parse && e.message@ == (
                    "不支持的时间格式：RFC3339 或 \"YYYY-MM-DD HH:MM:SS[.sss]\"")@
                }
            },
        }
    }
}

/// Converts a readable datetime to Unix seconds: RFC 3339 first, then the
/// two local formats interpreted in the machine's zone.
pub fn human_to_unix(input: &str) -> (r: ProcessResult)
    ensures
        human_to_unix_spec(input@, r),
{
    let t = trim_str(input);
    if t.is_empty() {
        return Ok(String::new());
    }
    match rfc3339_to_secs(t) {
        Some(v) => Ok(i64_to_string(v)),
        None => {
            match local_fmt_secs(t, "%Y-%m-%d %H:%M:%S%.3f") {
                Ok(Some(v)) => {
                    let o = i64_to_string(v);
                    proof {
                        assert(o@ == dec_str_i64(v));
                    }
                    Ok(o)
                },
                Ok(None) => Err(
                    ProcessError {
                        kind: ProcessErrorKind::Parse,
                        message: String::from_str("本地时间不唯一/无效（涉夏令时）"),
                    },
                ),
                Err(_) => {
                    match local_fmt_secs(t, "%Y-%m-%d %H:%M:%S") {
                        Ok(Some(v)) => {
                            let o = i64_to_string(v);
                            proof {
                                assert(o@ == dec_str_i64(v));
                            }
                            Ok(o)
                        },
                        Ok(None) => Err(
                            ProcessError {
                                kind: ProcessErrorKind::Parse,
                                message: String::from_str("本地时间不唯一/无效（涉夏令时）"),
                            },
                        ),
                        Err(_) => Err(
                            ProcessError {
                                kind: ProcessErrorKind::Parse,
                                message: String::from_str(
                                    "不支持的时间格式：RFC3339 或 \"YYYY-MM-DD HH:MM:SS[.sss]\"",
                                ),
                            },
                        ),
                    }
                },
            }
        },
    }
}

/// What the timestamp tool returns for each mode.
pub open spec fn timestamp_process_spec(
    mode: Seq<char>,
    input: Seq<char>,
    r: ProcessResult,
) -> bool {
    if mode == ("to_human")@ {
        ts_to_human_spec(input, r)
    } else if mode == ("to_unix")@ {
        human_to_unix_spec(input, r)
    } else {
        match r {
            Ok(_) => false,
            Err(e) => e.kind == ProcessErrorKind::Unsupported && e.message@ == ("不支持的模式")@,
        }
    }
}

/// The timestamp conversion tool.
#[derive(Clone, Copy)]
pub struct TimestampTool;

impl Tool for TimestampTool {
    open spec fn spec_id(&self) -> Seq<char> {
        ("ts")@
    }

    open spec fn spec_name(&self) -> Seq<char> {
        ("时间戳 工具")@
    }

    open spec fn spec_modes(&self) -> Seq<(Seq<char>, Seq<char>)> {
        seq![(("to_human")@, ("Unix → 人类可读")@), (("to_unix")@, ("人类可读 → Unix")@)]
    }

    open spec fn spec_default_mode(&self) -> Seq<char> {
        ("to_human")@
    }

    open spec fn process_spec(&self, mode: Seq<char>, input: Seq<char>, r: ProcessResult) -> bool {
        timestamp_process_spec(mode, input, r)
    }

    fn id(&self) -> (r: &'static str) {
        "ts"
    }

    fn name(&self) -> (r: &'static str) {
        "时间戳 工具"
    }

    fn modes(&self) -> (r: Vec<Mode>) {
        let mut v: Vec<Mode> = Vec::new();
        v.push(Mode { id: "to_human", label: "Unix → 人类可读" });
        v.push(Mode { id: "to_unix", label: "人类可读 → Unix" });
        v
    }

    fn default_mode(&self) -> (r: &'static str) {
        "to_human"
    }

    fn process(&self, mode_id: &str, input: &str) -> (r: ProcessResult) {
        if str_eq(mode_id, "to_human") {
            ts_to_human(input)
        } else if str_eq(mode_id, "to_unix") {
            human_to_unix(input)
        } else {
            Err(
                ProcessError {
                    kind: ProcessErrorKind::Unsupported,
                    message: String::from_str("不支持的模式"),
                },
            )
        }
    }
}

/// The product of the saturating multiplication by 1000.
pub open spec fn sat_mul_1000(v: int) -> int {
    if v * 1000 > i64::MAX {
        i64::MAX as int
    } else if v * 1000 < i64::MIN {
        i64::MIN as int
    } else {
        v * 1000
    }
}

/// `i64::saturating_mul` by 1000, written out.
fn saturating_mul_1000(v: i64) -> (r: i64)
    ensures
        r as int == sat_mul_1000(v as int),
{
    if v > 9223372036854775i64 {
        i64::MAX
    } else if v < -9223372036854775i64 {
        i64::MIN
    } else {
        v * 1000
    }
}

/// What the timestamp-to-datetime converter card computes: its own blank
/// message, the detection's complaints, or the two renderings of the
/// detected instant — UTC pinned, local machine-dependent.
pub open spec fn convert_ts_spec(input: Seq<char>, r: Result<(String, String), String>) -> bool {
    let raw = trim_spec(input);
    if raw.len() == 0 {
        r matches Err(m) && m@ == ("请输入时间戳（秒或毫秒）")@
    } else {
        match auto_err(raw) {
            Some(msg) => r matches Err(m) && m@ == msg,
            None => {
                if utc_in_range(auto_secs(raw), auto_nanos(raw)) {
                    r matches Ok(p) && p.0@ == utc_ymdhms_of(auto_secs(raw), auto_nanos(raw))
                } else {
                    r matches Err(m) && m@ == ("无效的时间戳")@
                }
            },
        }
    }
}

/// The timestamp-to-datetime converter card: detects the unit and renders
/// the instant as UTC and local `YYYY-MM-DD HH:MM:SS` strings.
pub fn convert_ts_input(input: &str) -> (r: Result<(String, String), String>)
    ensures
        convert_ts_spec(input@, r),
{
    let raw = trim_str(input);
    if raw.is_empty() {
        return Err(String::from_str("请输入时间戳（秒或毫秒）"));
    }
    match autodetect_ts_to_secs(raw) {
        Err(m) => Err(m),
        Ok((secs, nanos)) => {
            match utc_ymdhms_string(secs, nanos) {
                None => Err(String::from_str("无效的时间戳")),
                Some(u) => {
                    match local_ymdhms_string(secs, nanos) {
                        None => unreached(),
                        Some(l) => Ok((u, l)),
                    }
                },
            }
        },
    }
}

/// What the datetime-to-timestamp converter card computes: its own blank
/// and format messages, the ambiguity message, or the machine-dependent
/// seconds with their millisecond rendering.
pub open spec fn convert_dt_spec(input: Seq<char>, r: Result<(String, String), String>) -> bool {
    let raw = trim_spec(input);
    if raw.len() == 0 {
        r matches Err(m) && m@ == ("请输入日期时间，格式：YYYY-MM-DD HH:MM:SS")@
    } else if !naive_parse_ok(raw, ("%Y-%m-%d %H:%M:%S")@) {
        r matches Err(m) && m@ == ("日期格式错误，请使用：YYYY-MM-DD HH:MM:SS")@
    } else {
        match r {
            Ok(p) => exists|v: i64|
                p.0@ == #[trigger] dec_str_i64(v) && p.1@ == dec_str_int(sat_mul_1000(v as int)),
            Err(m) => m@ == ("该本地时间在时区规则下可能不存在或不唯一，请调整后再试")@,
        }
    }
}

/// The datetime-to-timestamp converter card: parses a local
/// `YYYY-MM-DD HH:MM:SS` datetime and renders its Unix seconds and
/// milliseconds.
pub fn convert_dt_input(input: &str) -> (r: Result<(String, String), String>)
    ensures
        convert_dt_spec(input@, r),
{
    let raw = trim_str(input);
    if raw.is_empty() {
        return Err(String::from_str("请输入日期时间，格式：YYYY-MM-DD HH:MM:SS"));
    }
    match local_fmt_secs_earliest(raw, "%Y-%m-%d %H:%M:%S") {
        Err(_) => Err(String::from_str("日期格式错误，请使用：YYYY-MM-DD HH:MM:SS")),
        Ok(None) => Err(
            String::from_str("该本地时间在时区规则下可能不存在或不唯一，请调整后再试"),
        ),
        Ok(Some(sec)) => {
            let ms = saturating_mul_1000(sec);
            let a = i64_to_string(sec);
            let b = i64_to_string(ms);
            proof {
                assert(a@ == dec_str_i64(sec));
            }
            Ok((a, b))
        },
    }
}

} // verus!
