//! The find/replace engine behind the two text panes: locating every
//! non-overlapping occurrence of a query, cycling the current match, and
//! splicing replacements in, all with exact contracts over character
//! sequences.

use vstd::prelude::*;

verus! {

/// The query `q` occurs in `t` at position `i`.
pub open spec fn is_match_at(t: Seq<char>, q: Seq<char>, i: int) -> bool {
    0 <= i && i + q.len() <= t.len() && t.subrange(i, i + q.len()) == q
}

/// Positions of the non-overlapping occurrences of `q` in `t`, scanning left
/// to right from `start` and resuming after the end of each match.
pub open spec fn match_positions_from(t: Seq<char>, q: Seq<char>, start: int) -> Seq<int>
    decreases t.len() - start,
{
    if q.len() == 0 || start < 0 || start + q.len() > t.len() {
        Seq::empty()
    } else if is_match_at(t, q, start) {
        seq![start] + match_positions_from(t, q, start + q.len())
    } else {
        match_positions_from(t, q, start + 1)
    }
}

/// The first occurrence of `q` in `t` at or after `start`, if any.
pub open spec fn first_match_from(t: Seq<char>, q: Seq<char>, start: int) -> Option<int>
    decreases t.len() - start,
{
    if q.len() == 0 || start < 0 || start + q.len() > t.len() {
        None
    } else if is_match_at(t, q, start) {
        Some(start)
    } else {
        first_match_from(t, q, start + 1)
    }
}

/// `t` with every non-overlapping occurrence of `q` at or after `start`
/// replaced by `r`, as `str::replace` rewrites it.
pub open spec fn splice_all_from(t: Seq<char>, q: Seq<char>, r: Seq<char>, start: int) -> Seq<char>
    decreases t.len() - start,
{
    if q.len() == 0 || start < 0 || start >= t.len() {
        if 0 <= start && start <= t.len() {
            t.subrange(start, t.len() as int)
        } else {
            Seq::empty()
        }
    } else if is_match_at(t, q, start) {
        r + splice_all_from(t, q, r, start + q.len())
    } else {
        seq![t[start]] + splice_all_from(t, q, r, start + 1)
    }
}

/// Every recorded position is a real occurrence.
pub proof fn lemma_positions_are_matches(t: Seq<char>, q: Seq<char>, start: int)
    ensures
        forall|k: int|
            0 <= k < match_positions_from(t, q, start).len() ==> is_match_at(
                t,
                q,
                #[trigger] match_positions_from(t, q, start)[k],
            ),
    decreases t.len() - start,
{
    assert forall|k: int| 0 <= k < match_positions_from(t, q, start).len() implies is_match_at(
        t,
        q,
        #[trigger] match_positions_from(t, q, start)[k],
    ) by {
        lemma_position_is_match(t, q, start, k);
    }
}

proof fn lemma_position_is_match(t: Seq<char>, q: Seq<char>, start: int, k: int)
    requires
        0 <= k < match_positions_from(t, q, start).len(),
    ensures
        is_match_at(t, q, match_positions_from(t, q, start)[k]),
    decreases t.len() - start,
{
    if q.len() == 0 || start < 0 || start + q.len() > t.len() {
    } else if is_match_at(t, q, start) {
        let rest = match_positions_from(t, q, start + q.len());
        assert(match_positions_from(t, q, start) == seq![start] + rest);
        if k == 0 {
            assert((seq![start] + rest)[0] == start);
        } else {
            assert((seq![start] + rest)[k] == rest[k - 1]);
            lemma_position_is_match(t, q, start + q.len(), k - 1);
        }
    } else {
        lemma_position_is_match(t, q, start + 1, k);
    }
}

/// Scanning decomposes at the first occurrence.
proof fn lemma_positions_step(t: Seq<char>, q: Seq<char>, start: int, p: int)
    requires
        first_match_from(t, q, start) == Some(p),
    ensures
        match_positions_from(t, q, start) == seq![p] + match_positions_from(t, q, p + q.len()),
    decreases t.len() - start,
{
    if !(q.len() == 0 || start < 0 || start + q.len() > t.len()) && !is_match_at(t, q, start) {
        lemma_positions_step(t, q, start + 1, p);
    }
}

/// With no occurrence left, scanning records nothing.
proof fn lemma_positions_none(t: Seq<char>, q: Seq<char>, start: int)
    requires
        first_match_from(t, q, start) is None,
    ensures
        match_positions_from(t, q, start) == Seq::<int>::empty(),
    decreases t.len() - start,
{
    if !(q.len() == 0 || start < 0 || start + q.len() > t.len()) && !is_match_at(t, q, start) {
        lemma_positions_none(t, q, start + 1);
    }
}

/// Compares `q` against `t` at position `i`.
fn match_at(t: &str, q: &str, i: usize) -> (r: bool)
    requires
        i + q@.len() <= t@.len(),
    ensures
        r == is_match_at(t@, q@, i as int),
{
    let n = t.unicode_len();
    let qn = q.unicode_len();
    let mut j: usize = 0;
    while j < qn
        invariant
            n == t@.len(),
            qn == q@.len(),
            i + qn <= t@.len(),
            0 <= j <= qn,
            forall|k: int| 0 <= k < j ==> t@[i + k] == #[trigger] q@[k],
        decreases qn - j,
    {
        if t.get_char(i + j) != q.get_char(j) {
            proof {
                assert(t@.subrange(i as int, i + q@.len())[j as int] == t@[i + j]);
            }
            return false;
        }
        j += 1;
    }
    proof {
        assert(t@.subrange(i as int, i + q@.len()) =~= q@);
    }
    true
}

/// First occurrence of `query` in `text` at or after `from`, if any.
pub fn find_from(text: &str, query: &str, from: usize) -> (r: Option<usize>)
    ensures
        match r {
            Some(p) => first_match_from(text@, query@, from as int) == Some(p as int),
            None => first_match_from(text@, query@, from as int) is None,
        },
{
    let n = text.unicode_len();
    let qn = query.unicode_len();
    if qn == 0 || qn > n {
        return None;
    }
    let mut i: usize = from;
    while i <= n - qn
        invariant
            n == text@.len(),
            qn == query@.len(),
            0 < qn <= n,
            from <= i,
            first_match_from(text@, query@, from as int) == first_match_from(
                text@,
                query@,
                i as int,
            ),
        decreases n - i,
    {
        if match_at(text, query, i) {
            return Some(i);
        }
        i += 1;
    }
    None
}

/// Positions of every non-overlapping occurrence of `query` in `text`,
/// scanning left to right.
pub fn find_matches(text: &str, query: &str) -> (pos: Vec<usize>)
    ensures
        pos@.map_values(|p: usize| p as int) == match_positions_from(text@, query@, 0),
{
    let n = text.unicode_len();
    let mut pos: Vec<usize> = Vec::new();
    let mut start: usize = 0;
    proof {
        assert(pos@.map_values(|p: usize| p as int) =~= Seq::<int>::empty());
    }
    loop
        invariant
            n == text@.len(),
            match_positions_from(text@, query@, 0) =~= pos@.map_values(|p: usize| p as int)
                + match_positions_from(text@, query@, start as int),
        decreases n + 1 - start,
    {
        match find_from(text, query, start) {
            Some(p) => {
                proof {
                    lemma_positions_step(text@, query@, start as int, p as int);
                    assert((pos@.push(p)).map_values(|x: usize| x as int) =~= pos@.map_values(
                        |x: usize| x as int,
                    ).push(p as int));
                    assert(pos@.map_values(|x: usize| x as int).push(p as int) + match_positions_from(
                        text@,
                        query@,
                        p + query@.len(),
                    ) =~= pos@.map_values(|x: usize| x as int) + (seq![p as int]
                        + match_positions_from(text@, query@, p + query@.len())));
                }
                pos.push(p);
                let qn = query.unicode_len();
                proof {
                    lemma_first_is_match(text@, query@, start as int, p as int);
                    assert(query@.len() > 0);
                }
                start = p + qn;
            },
            None => {
                proof {
                    lemma_positions_none(text@, query@, start as int);
                    assert(pos@.map_values(|p: usize| p as int) + Seq::<int>::empty()
                        =~= pos@.map_values(|p: usize| p as int));
                }
                return pos;
            },
        }
    }
}

/// The first occurrence really is an occurrence, at or after where the scan
/// began.
pub proof fn lemma_first_is_match(t: Seq<char>, q: Seq<char>, start: int, p: int)
    requires
        first_match_from(t, q, start) == Some(p),
    ensures
        is_match_at(t, q, p),
        start <= p,
    decreases t.len() - start,
{
    if !(q.len() == 0 || start < 0 || start + q.len() > t.len()) && !is_match_at(t, q, start) {
        lemma_first_is_match(t, q, start + 1, p);
    }
}

/// Steps the current-match cursor forward, wrapping at the end.
pub fn cycle_next(total: usize, idx: usize) -> (r: usize)
    requires
        total == 0 || idx < total,
    ensures
        r as int == if total == 0 {
            idx as int
        } else if idx + 1 == total {
            0int
        } else {
            idx + 1
        },
{
    if total == 0 {
        idx
    } else if idx + 1 == total {
        0
    } else {
        idx + 1
    }
}

/// Steps the current-match cursor backward, wrapping at the start.
pub fn cycle_prev(total: usize, idx: usize) -> (r: usize)
    requires
        total == 0 || idx < total,
    ensures
        r as int == if total == 0 {
            idx as int
        } else if idx == 0 {
            total - 1
        } else {
            idx - 1
        },
{
    if total == 0 {
        idx
    } else if idx == 0 {
        total - 1
    } else {
        idx - 1
    }
}

/// Replaces the `len` characters of `text` at `pos` with `replacement`.
pub fn splice(text: &str, pos: usize, len: usize, replacement: &str) -> (r: String)
    requires
        pos + len <= text@.len(),
    ensures
        r@ == text@.subrange(0, pos as int) + replacement@ + text@.subrange(
            pos + len,
            text@.len() as int,
        ),
{
    let n = text.unicode_len();
    let mut out = String::new();
    let mut i: usize = 0;
    while i < pos
        invariant
            n == text@.len(),
            pos + len <= n,
            0 <= i <= pos,
            out@ =~= text@.subrange(0, i as int),
        decreases pos - i,
    {
        proof {
            assert(text@.subrange(0, i + 1) =~= text@.subrange(0, i as int).push(
                text@[i as int],
            ));
        }
        out.push(text.get_char(i));
        i += 1;
    }
    out.append(replacement);
    let mut j: usize = pos + len;
    while j < n
        invariant
            n == text@.len(),
            pos + len <= j <= n,
            out@ =~= text@.subrange(0, pos as int) + replacement@ + text@.subrange(
                pos + len,
                j as int,
            ),
        decreases n - j,
    {
        proof {
            assert(text@.subrange(pos + len, j + 1) =~= text@.subrange(pos + len, j as int).push(
                text@[j as int],
            ));
        }
        out.push(text.get_char(j));
        j += 1;
    }
    out
}

/// Replaces the occurrence of `query` that the cursor rests on, leaving the
/// text alone when there is no query or no match, as the editor pane does.
pub fn replace_current(
    text: &str,
    query: &str,
    replacement: &str,
    positions: &Vec<usize>,
    idx: usize,
) -> (r: Option<String>)
    requires
        positions@.map_values(|p: usize| p as int) == match_positions_from(text@, query@, 0),
        positions@.len() > 0 ==> idx < positions@.len(),
    ensures
        match r {
            Some(s) => query@.len() > 0 && positions@.len() > 0 && s@ == text@.subrange(
                0,
                positions@[idx as int] as int,
            ) + replacement@ + text@.subrange(
                positions@[idx as int] + query@.len(),
                text@.len() as int,
            ),
            None => query@.len() == 0 || positions@.len() == 0,
        },
{
    let qn = query.unicode_len();
    if qn == 0 {
        return None;
    }
    if positions.len() == 0 {
        return None;
    }
    let p = positions[idx];
    proof {
        lemma_positions_are_matches(text@, query@, 0);
        assert(positions@.map_values(|x: usize| x as int)[idx as int] == p as int);
        assert(is_match_at(text@, query@, p as int));
    }
    Some(splice(text, p, qn, replacement))
}

/// Replaces every non-overlapping occurrence of `query` in `text`, as
/// `str::replace` does.
pub fn replace_all(text: &str, query: &str, replacement: &str) -> (r: String)
    requires
        query@.len() > 0,
    ensures
        r@ == splice_all_from(text@, query@, replacement@, 0),
{
    let n = text.unicode_len();
    let qn = query.unicode_len();
    let mut out = String::new();
    let mut i: usize = 0;
    proof {
        assert(Seq::<char>::empty() + splice_all_from(text@, query@, replacement@, 0)
            =~= splice_all_from(text@, query@, replacement@, 0));
    }
    while i < n
        invariant
            n == text@.len(),
            qn == query@.len(),
            qn > 0,
            0 <= i <= n,
            splice_all_from(text@, query@, replacement@, 0) =~= out@ + splice_all_from(
                text@,
                query@,
                replacement@,
                i as int,
            ),
        decreases n - i,
    {
        if qn <= n - i && match_at(text, query, i) {
            proof {
                assert(out@ + (replacement@ + splice_all_from(
                    text@,
                    query@,
                    replacement@,
                    i + query@.len(),
                )) =~= (out@ + replacement@) + splice_all_from(
                    text@,
                    query@,
                    replacement@,
                    i + query@.len(),
                ));
            }
            out.append(replacement);
            i += qn;
        } else {
            proof {
                assert(splice_all_from(text@, query@, replacement@, i as int) == seq![
                    text@[i as int],
                ] + splice_all_from(text@, query@, replacement@, i + 1));
                assert(out@ + (seq![text@[i as int]] + splice_all_from(
                    text@,
                    query@,
                    replacement@,
                    i + 1,
                )) =~= out@.push(text@[i as int]) + splice_all_from(
                    text@,
                    query@,
                    replacement@,
                    i + 1,
                ));
            }
            out.push(text.get_char(i));
            i += 1;
        }
    }
    proof {
        assert(splice_all_from(text@, query@, replacement@, n as int) =~= Seq::<char>::empty());
        assert(out@ + Seq::<char>::empty() =~= out@);
    }
    out
}

} // verus!
