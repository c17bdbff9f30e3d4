//! Character and string utilities shared by the tools: Unicode whitespace
//! trimming, separator removal, and string equality, all stated over the
//! `Seq<char>` views of `&str` and `String`.

use vstd::prelude::*;

verus! {

/// The characters with the Unicode `White_Space` property, the set that
/// `str::trim` strips from both ends of a string.
pub open spec fn is_space_char(c: char) -> bool {
    ||| c == '\t'
    ||| c == '\n'
    ||| c == '\u{0b}'
    ||| c == '\u{0c}'
    ||| c == '\r'
    ||| c == ' '
    ||| c == '\u{85}'
    ||| c == '\u{a0}'
    ||| c == '\u{1680}'
    ||| ('\u{2000}' <= c && c <= '\u{200a}')
    ||| c == '\u{2028}'
    ||| c == '\u{2029}'
    ||| c == '\u{202f}'
    ||| c == '\u{205f}'
    ||| c == '\u{3000}'
}

/// Runtime test for [`is_space_char`].
pub fn is_space(c: char) -> (r: bool)
    ensures
        r == is_space_char(c),
{
    c == '\t' || c == '\n' || c == '\u{0b}' || c == '\u{0c}' || c == '\r' || c == ' ' || c
        == '\u{85}' || c == '\u{a0}' || c == '\u{1680}' || ('\u{2000}' <= c && c <= '\u{200a}') || c
        == '\u{2028}' || c == '\u{2029}' || c == '\u{202f}' || c == '\u{205f}' || c == '\u{3000}'
}

/// Index of the first character of `s` at or after `i` that is not whitespace,
/// or `s.len()` if all of them are.
pub open spec fn first_non_space(s: Seq<char>, i: int) -> int
    decreases s.len() - i,
{
    if i < 0 || i >= s.len() {
        s.len() as int
    } else if is_space_char(s[i]) {
        first_non_space(s, i + 1)
    } else {
        i
    }
}

/// End (exclusive) of the last character of `s` before `j` that is not
/// whitespace, or `0` if all of them are.
pub open spec fn last_non_space_end(s: Seq<char>, j: int) -> int
    decreases j,
{
    if j <= 0 || j > s.len() {
        0
    } else if is_space_char(s[j - 1]) {
        last_non_space_end(s, j - 1)
    } else {
        j
    }
}

/// `s` with leading and trailing whitespace removed, as `str::trim` leaves it.
pub open spec fn trim_spec(s: Seq<char>) -> Seq<char> {
    let a = first_non_space(s, 0);
    let b = last_non_space_end(s, s.len() as int);
    if a <= b {
        s.subrange(a, b)
    } else {
        Seq::empty()
    }
}

/// Strips whitespace from both ends of `s`.
pub fn trim_str<'a>(s: &'a str) -> (r: &'a str)
    ensures
        r@ == trim_spec(s@),
{
    let n = s.unicode_len();
    let mut i: usize = 0;
    while i < n && is_space(s.get_char(i))
        invariant
            n == s@.len(),
            0 <= i <= n,
            first_non_space(s@, 0) == first_non_space(s@, i as int),
        decreases n - i,
    {
        i += 1;
    }
    assert(first_non_space(s@, 0) == i as int);
    let mut j: usize = n;
    while j > i && is_space(s.get_char(j - 1))
        invariant
            n == s@.len(),
            i <= j <= n,
            i as int == first_non_space(s@, 0),
            last_non_space_end(s@, n as int) == last_non_space_end(s@, j as int),
        decreases j,
    {
        j -= 1;
    }
    if i >= j {
        proof {
            if j > 0 && !is_space_char(s@[j - 1]) {
                assert(last_non_space_end(s@, j as int) == j as int);
                assert(first_non_space(s@, 0) <= j - 1 < j) by {
                    lemma_first_non_space_le(s@, j - 1);
                }
            } else if j > 0 {
                assert(last_non_space_end(s@, j as int) == last_non_space_end(s@, j - 1));
                lemma_last_non_space_le(s@, j - 1);
            }
            assert(trim_spec(s@) =~= Seq::<char>::empty());
            reveal_strlit("");
        }
        ""
    } else {
        proof {
            assert(!is_space_char(s@[j - 1]));
            assert(last_non_space_end(s@, j as int) == j as int);
        }
        let r = s.substring_char(i, j);
        proof {
            assert(r@ =~= trim_spec(s@));
        }
        r
    }
}

/// `last_non_space_end` never exceeds its starting point.
proof fn lemma_last_non_space_le(s: Seq<char>, j: int)
    requires
        0 <= j <= s.len(),
    ensures
        last_non_space_end(s, j) <= j,
    decreases j,
{
    if j > 0 && is_space_char(s[j - 1]) {
        lemma_last_non_space_le(s, j - 1);
    }
}

/// A non-whitespace character at `p` keeps `first_non_space` at or below `p`.
proof fn lemma_first_non_space_le(s: Seq<char>, p: int)
    requires
        0 <= p < s.len(),
        !is_space_char(s[p]),
    ensures
        first_non_space(s, 0) <= p,
{
    lemma_first_non_space_le_from(s, 0, p);
}

proof fn lemma_first_non_space_le_from(s: Seq<char>, i: int, p: int)
    requires
        0 <= i <= p < s.len(),
        !is_space_char(s[p]),
    ensures
        first_non_space(s, i) <= p,
    decreases p - i,
{
    if i < p && is_space_char(s[i]) {
        lemma_first_non_space_le_from(s, i + 1, p);
    }
}

/// Reports whether `s` is empty after trimming, that is, holds only
/// whitespace.
pub fn is_blank(s: &str) -> (r: bool)
    ensures
        r == (trim_spec(s@).len() == 0),
{
    trim_str(s).is_empty()
}

/// Relies on `String::push`: appends the one character to the end.
pub assume_specification[ String::push ](s: &mut String, c: char)
    ensures
        final(s)@ == old(s)@.push(c),
;

/// Keeps the characters of `s` that are neither `'_'` nor `','`.
pub fn remove_separators(s: &str) -> (r: String)
    ensures
        r@ == s@.filter(|c: char| c != '_' && c != ','),
{
    let pred = |c: char| c != '_' && c != ',';
    let n = s.unicode_len();
    let mut out = String::new();
    let mut i: usize = 0;
    proof {
        reveal(Seq::filter);
        assert(s@.take(0) =~= Seq::<char>::empty());
    }
    while i < n
        invariant
            n == s@.len(),
            0 <= i <= n,
            out@ == s@.take(i as int).filter(|c: char| c != '_' && c != ','),
        decreases n - i,
    {
        let c = s.get_char(i);
        proof {
            reveal(Seq::filter);
            assert(s@.take(i + 1).drop_last() =~= s@.take(i as int));
            assert(s@.take(i + 1).last() == s@[i as int]);
        }
        if c != '_' && c != ',' {
            out.push(c);
        }
        i += 1;
    }
    proof {
        assert(s@.take(n as int) =~= s@);
    }
    out
}

/// Reports whether two strings hold the same characters.
pub fn str_eq(a: &str, b: &str) -> (r: bool)
    ensures
        r == (a@ == b@),
{
    let n = a.unicode_len();
    let m = b.unicode_len();
    if n != m {
        proof {
            assert(a@ != b@);
        }
        return false;
    }
    let mut i: usize = 0;
    while i < n
        invariant
            n == a@.len() == b@.len(),
            0 <= i <= n,
            forall|j: int| 0 <= j < i ==> a@[j] == b@[j],
        decreases n - i,
    {
        if a.get_char(i) != b.get_char(i) {
            return false;
        }
        i += 1;
    }
    proof {
        assert(a@ =~= b@);
    }
    true
}

} // verus!
