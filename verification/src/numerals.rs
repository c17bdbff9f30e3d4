//! Decimal numerals: parsing signed decimal strings the way `str::parse`
//! does, and rendering integers back to decimal strings, with exact
//! specifications over character sequences.

use vstd::prelude::*;

verus! {

/// An ASCII decimal digit.
pub open spec fn is_digit_char(c: char) -> bool {
    '0' <= c && c <= '9'
}

/// Numeric value of a digit character.
pub open spec fn digit_val(c: char) -> int {
    c as u32 - '0' as u32
}

/// Every character of `s` is a decimal digit.
pub open spec fn all_digits(s: Seq<char>) -> bool {
    forall|i: int| 0 <= i < s.len() ==> is_digit_char(#[trigger] s[i])
}

/// Value of a digit string read in base ten.
pub open spec fn dec_val(s: Seq<char>) -> int
    decreases s.len(),
{
    if s.len() == 0 {
        0
    } else {
        10 * dec_val(s.drop_last()) + digit_val(s.last())
    }
}

/// The digit part of a signed numeral: everything after an optional leading
/// `+` or `-`.
pub open spec fn int_digits(s: Seq<char>) -> Seq<char> {
    if s.len() > 0 && (s[0] == '+' || s[0] == '-') {
        s.drop_first()
    } else {
        s
    }
}

/// The numeral carries a leading minus sign.
pub open spec fn int_negative(s: Seq<char>) -> bool {
    s.len() > 0 && s[0] == '-'
}

/// The shape `str::parse` accepts for an integer: an optional sign followed
/// by at least one digit, and nothing else.
pub open spec fn int_well_formed(s: Seq<char>) -> bool {
    int_digits(s).len() > 0 && all_digits(int_digits(s))
}

/// Mathematical value of a well-formed signed numeral.
pub open spec fn int_value(s: Seq<char>) -> int {
    if int_negative(s) {
        -dec_val(int_digits(s))
    } else {
        dec_val(int_digits(s))
    }
}

/// What `str::parse::<i128>` returns on `s`: the value when `s` is a
/// well-formed numeral that fits, and nothing otherwise.
pub open spec fn parse_i128_spec(s: Seq<char>) -> Option<i128> {
    if int_well_formed(s) && i128::MIN <= int_value(s) <= i128::MAX {
        Some(int_value(s) as i128)
    } else {
        None
    }
}

/// A digit string has a non-negative value.
pub proof fn lemma_dec_val_nonneg(s: Seq<char>)
    requires
        all_digits(s),
    ensures
        dec_val(s) >= 0,
    decreases s.len(),
{
    if s.len() > 0 {
        assert(all_digits(s.drop_last())) by {
            assert(forall|i: int|
                0 <= i < s.len() - 1 ==> s.drop_last()[i] == #[trigger] s[i]);
        }
        lemma_dec_val_nonneg(s.drop_last());
    }
}

/// Extending a digit string can only grow its value.
pub proof fn lemma_dec_val_prefix(s: Seq<char>, k: int)
    requires
        all_digits(s),
        0 <= k <= s.len(),
    ensures
        dec_val(s.take(k)) <= dec_val(s),
    decreases s.len() - k,
{
    if k < s.len() {
        lemma_dec_val_prefix(s, k + 1);
        assert(s.take(k + 1).drop_last() =~= s.take(k));
        assert(s.take(k + 1).last() == s[k]);
        assert(all_digits(s.take(k))) by {
            assert(forall|i: int| 0 <= i < k ==> s.take(k)[i] == #[trigger] s[i]);
        }
        lemma_dec_val_nonneg(s.take(k));
        assert(dec_val(s.take(k)) <= dec_val(s.take(k + 1)));
    } else {
        assert(s.take(k) =~= s);
    }
}

/// Reports whether every character of `s` is a decimal digit, as the
/// timestamp tool checks its raw input.
pub fn digits_only(s: &str) -> (r: bool)
    ensures
        r == all_digits(s@),
{
    let n = s.unicode_len();
    let mut i: usize = 0;
    while i < n
        invariant
            n == s@.len(),
            0 <= i <= n,
            forall|j: int| 0 <= j < i ==> is_digit_char(#[trigger] s@[j]),
        decreases n - i,
    {
        let c = s.get_char(i);
        if !('0' <= c && c <= '9') {
            return false;
        }
        i += 1;
    }
    true
}

/// Ten to the power `k`.
pub open spec fn pow10(k: nat) -> int
    decreases k,
{
    if k == 0 {
        1
    } else {
        10 * pow10((k - 1) as nat)
    }
}

/// A digit string's value stays under ten to its length.
pub proof fn lemma_dec_val_bound(s: Seq<char>)
    requires
        all_digits(s),
    ensures
        dec_val(s) < pow10(s.len()),
    decreases s.len(),
{
    if s.len() == 0 {
    } else {
        assert(all_digits(s.drop_last())) by {
            assert(forall|i: int|
                0 <= i < s.len() - 1 ==> s.drop_last()[i] == #[trigger] s[i]);
        }
        lemma_dec_val_bound(s.drop_last());
    }
}

/// Parses a signed decimal numeral exactly as `str::parse::<i128>` does.
pub fn parse_i128(s: &str) -> (r: Option<i128>)
    ensures
        r == parse_i128_spec(s@),
{
    let n = s.unicode_len();
    if n == 0 {
        return None;
    }
    let c0 = s.get_char(0);
    let neg = c0 == '-';
    let start: usize = if c0 == '-' || c0 == '+' {
        1
    } else {
        0
    };
    if start >= n {
        // a bare sign has no digits
        return None;
    }
    proof {
        assert(int_digits(s@) =~= s@.subrange(start as int, n as int));
    }
    let mut mag: u128 = 0;
    let mut i: usize = start;
    proof {
        assert(s@.subrange(start as int, start as int) =~= Seq::<char>::empty());
    }
    while i < n
        invariant
            n == s@.len(),
            start <= i <= n,
            start < n,
            int_digits(s@) =~= s@.subrange(start as int, n as int),
            all_digits(s@.subrange(start as int, i as int)),
            mag == dec_val(s@.subrange(start as int, i as int)),
        decreases n - i,
    {
        let c = s.get_char(i);
        if !('0' <= c && c <= '9') {
            // not a numeral at all
            proof {
                assert(!is_digit_char(int_digits(s@)[i - start]));
            }
            return None;
        }
        let d: u32 = c as u32 - '0' as u32;
        proof {
            assert(s@.subrange(start as int, i + 1).drop_last() =~= s@.subrange(
                start as int,
                i as int,
            ));
            assert(s@.subrange(start as int, i + 1).last() == s@[i as int]);
            assert(all_digits(s@.subrange(start as int, i + 1))) by {
                let sub = s@.subrange(start as int, i + 1);
                assert(forall|j: int|
                    0 <= j < sub.len() - 1 ==> sub[j] == #[trigger] s@.subrange(
                        start as int,
                        i as int,
                    )[j]);
            }
        }
        // u128::MAX / 10 and the matching last digit of u128::MAX
        if mag > 34028236692093846346337460743176821145u128 || (mag
            == 34028236692093846346337460743176821145u128 && d > 5) {
            // the value can no longer fit, whatever digits follow
            proof {
                let full = int_digits(s@);
                let upto = s@.subrange(start as int, i + 1);
                assert(dec_val(upto) > i128::MAX);
                if all_digits(full) {
                    lemma_dec_val_prefix(full, i + 1 - start);
                    assert(full.take(i + 1 - start) =~= upto);
                    assert(dec_val(full) > i128::MAX);
                }
            }
            return None;
        }
        mag = mag * 10 + (d as u128);
        i += 1;
    }
    proof {
        assert(s@.subrange(start as int, n as int) =~= int_digits(s@));
        assert(int_well_formed(s@));
        lemma_dec_val_nonneg(int_digits(s@));
    }
    if neg {
        // 2^127, the magnitude of i128::MIN
        if mag > 170141183460469231731687303715884105728u128 {
            return None;
        }
        if mag == 170141183460469231731687303715884105728u128 {
            Some(i128::MIN)
        } else {
            Some(-(mag as i128))
        }
    } else {
        if mag > i128::MAX as u128 {
            return None;
        }
        Some(mag as i128)
    }
}

/// The digit character for a value below ten.
pub open spec fn dec_digit_char(d: int) -> char {
    if d == 0 {
        '0'
    } else if d == 1 {
        '1'
    } else if d == 2 {
        '2'
    } else if d == 3 {
        '3'
    } else if d == 4 {
        '4'
    } else if d == 5 {
        '5'
    } else if d == 6 {
        '6'
    } else if d == 7 {
        '7'
    } else if d == 8 {
        '8'
    } else {
        '9'
    }
}

/// Decimal rendering of a non-negative integer, without sign or leading
/// zeros.
pub open spec fn dec_str_nat(n: int) -> Seq<char>
    decreases n,
{
    if n < 0 {
        Seq::empty()
    } else if n < 10 {
        seq![dec_digit_char(n)]
    } else {
        dec_str_nat(n / 10).push(dec_digit_char(n % 10))
    }
}

/// Decimal rendering of a signed integer, as `i64::to_string` produces it.
pub open spec fn dec_str_int(v: int) -> Seq<char> {
    if v < 0 {
        seq!['-'] + dec_str_nat(-v)
    } else {
        dec_str_nat(v)
    }
}

fn digit_to_char(d: u64) -> (r: char)
    requires
        d < 10,
    ensures
        r == dec_digit_char(d as int),
{
    if d == 0 {
        '0'
    } else if d == 1 {
        '1'
    } else if d == 2 {
        '2'
    } else if d == 3 {
        '3'
    } else if d == 4 {
        '4'
    } else if d == 5 {
        '5'
    } else if d == 6 {
        '6'
    } else if d == 7 {
        '7'
    } else if d == 8 {
        '8'
    } else {
        '9'
    }
}

/// Renders an unsigned integer in decimal.
pub fn u64_to_string(n: u64) -> (r: String)
    ensures
        r@ == dec_str_nat(n as int),
{
    let mut digits: Vec<char> = Vec::new();
    let mut m: u64 = n;
    while m >= 10
        invariant
            dec_str_nat(n as int) =~= dec_str_nat(m as int) + digits@.reverse(),
        decreases m,
    {
        let d = m % 10;
        proof {
            assert(dec_str_nat(m as int) == dec_str_nat(m as int / 10).push(
                dec_digit_char(m as int % 10),
            ));
            assert((digits@.push(dec_digit_char(m as int % 10))).reverse() =~= seq![
                dec_digit_char(m as int % 10),
            ] + digits@.reverse());
            assert(dec_str_nat(m as int / 10) + (digits@.push(
                dec_digit_char(m as int % 10),
            )).reverse() =~= dec_str_nat(m as int) + digits@.reverse());
        }
        digits.push(digit_to_char(d));
        m = m / 10;
    }
    digits.push(digit_to_char(m));
    proof {
        assert(digits@.reverse() =~= seq![dec_digit_char(m as int)] + digits@.drop_last(
        ).reverse());
        assert(digits@.drop_last() =~= digits@.subrange(0, digits@.len() - 1));
        assert(dec_str_nat(n as int) =~= digits@.reverse());
    }
    let mut out = String::new();
    let mut i: usize = digits.len();
    while i > 0
        invariant
            i <= digits@.len(),
            out@ =~= digits@.subrange(i as int, digits@.len() as int).reverse(),
        decreases i,
    {
        i -= 1;
        let c = digits[i];
        proof {
            let tail = digits@.subrange(i as int, digits@.len() as int);
            assert(tail.reverse() =~= digits@.subrange(
                i + 1,
                digits@.len() as int,
            ).reverse().push(digits@[i as int]));
            assert(out@.push(digits@[i as int]) =~= digits@.subrange(
                i + 1,
                digits@.len() as int,
            ).reverse().push(digits@[i as int]));
            assert(digits@.subrange(i + 1, digits@.len() as int).reverse().push(
                digits@[i as int],
            ) =~= tail.reverse());
        }
        out.push(c);
    }
    proof {
        assert(digits@.subrange(0, digits@.len() as int) =~= digits@);
    }
    out
}

/// Renders a signed integer in decimal, as `i64::to_string` does.
pub fn i64_to_string(v: i64) -> (r: String)
    ensures
        r@ == dec_str_int(v as int),
{
    if v >= 0 {
        u64_to_string(v as u64)
    } else {
        let mag: u64 = ((-(v + 1)) as u64) + 1;
        let mut out = String::from_str("-");
        let rest = u64_to_string(mag);
        out.append(rest.as_str());
        proof {
            reveal_strlit("-");
            assert(out@ =~= dec_str_int(v as int));
        }
        out
    }
}

} // verus!
