//! Word-wise cursor motion: the mathematical definition of the forward and
//! backward word positions, and the laws that relate them.

use vstd::prelude::*;

verus! {

use crate::text::is_ws;

/// First position at or after `p` that ends the run of non-whitespace
/// characters starting at `p`.
pub open spec fn skip_word(s: Seq<char>, p: int) -> int
    recommends
        0 <= p <= s.len(),
    decreases s.len() - p when 0 <= p <= s.len()
{
    if p < s.len() && !is_ws(s[p]) {
        skip_word(s, p + 1)
    } else {
        p
    }
}

/// First position at or after `p` that ends the run of whitespace characters
/// starting at `p`.
pub open spec fn skip_ws(s: Seq<char>, p: int) -> int
    recommends
        0 <= p <= s.len(),
    decreases s.len() - p when 0 <= p <= s.len()
{
    if p < s.len() && is_ws(s[p]) {
        skip_ws(s, p + 1)
    } else {
        p
    }
}

/// Stepping back from `p` over whitespace: the last position at or before `p`
/// that holds a non-whitespace character, or 0.
pub open spec fn back_skip_ws(s: Seq<char>, p: int) -> int
    recommends
        0 <= p < s.len(),
    decreases p when 0 <= p
{
    if p > 0 && is_ws(s[p]) {
        back_skip_ws(s, p - 1)
    } else {
        p
    }
}

/// Stepping back from `p` over the non-whitespace run that precedes it: the
/// start of that run, or 0.
pub open spec fn back_skip_word(s: Seq<char>, p: int) -> int
    recommends
        0 <= p <= s.len(),
    decreases p when 0 <= p
{
    if p > 0 && !is_ws(s[p - 1]) {
        back_skip_word(s, p - 1)
    } else {
        p
    }
}

/// Where the cursor lands after a forward word motion: past the current
/// non-whitespace run, then past the following whitespace run.
pub open spec fn next_word_pos(s: Seq<char>, p: int) -> int
    recommends
        0 <= p <= s.len(),
{
    skip_ws(s, skip_word(s, p))
}

/// Where the cursor lands after a backward word motion: one step back, then
/// back over whitespace, then back over the preceding non-whitespace run.
pub open spec fn prev_word_pos(s: Seq<char>, p: int) -> int
    recommends
        0 <= p <= s.len(),
{
    if p <= 0 {
        0
    } else {
        back_skip_word(s, back_skip_ws(s, p - 1))
    }
}

/// `skip_word` stays within the buffer, passes only non-whitespace, and stops
/// at the end or on whitespace.
pub proof fn lemma_skip_word(s: Seq<char>, p: int)
    requires
        0 <= p <= s.len(),
    ensures
        p <= skip_word(s, p) <= s.len(),
        forall|i: int| p <= i < skip_word(s, p) ==> !is_ws(s[i]),
        skip_word(s, p) == s.len() || is_ws(s[skip_word(s, p)]),
    decreases s.len() - p,
{
    if p < s.len() && !is_ws(s[p]) {
        lemma_skip_word(s, p + 1);
    }
}

/// `skip_ws` stays within the buffer, passes only whitespace, and stops at
/// the end or on non-whitespace.
pub proof fn lemma_skip_ws(s: Seq<char>, p: int)
    requires
        0 <= p <= s.len(),
    ensures
        p <= skip_ws(s, p) <= s.len(),
        forall|i: int| p <= i < skip_ws(s, p) ==> is_ws(s[i]),
        skip_ws(s, p) == s.len() || !is_ws(s[skip_ws(s, p)]),
    decreases s.len() - p,
{
    if p < s.len() && is_ws(s[p]) {
        lemma_skip_ws(s, p + 1);
    }
}

/// `back_skip_ws` stays within the buffer, passes only whitespace, and stops
/// at 0 or on non-whitespace.
pub proof fn lemma_back_skip_ws(s: Seq<char>, p: int)
    requires
        0 <= p < s.len(),
    ensures
        0 <= back_skip_ws(s, p) <= p,
        forall|i: int| back_skip_ws(s, p) < i <= p ==> is_ws(s[i]),
        back_skip_ws(s, p) == 0 || !is_ws(s[back_skip_ws(s, p)]),
    decreases p,
{
    if p > 0 && is_ws(s[p]) {
        lemma_back_skip_ws(s, p - 1);
    }
}

/// `back_skip_word` stays within the buffer, passes back only over
/// non-whitespace, and stops at 0 or right after whitespace.
pub proof fn lemma_back_skip_word(s: Seq<char>, p: int)
    requires
        0 <= p <= s.len(),
    ensures
        0 <= back_skip_word(s, p) <= p,
        forall|i: int| back_skip_word(s, p) <= i < p ==> !is_ws(s[i]),
        back_skip_word(s, p) == 0 || is_ws(s[back_skip_word(s, p) - 1]),
    decreases p,
{
    if p > 0 && !is_ws(s[p - 1]) {
        lemma_back_skip_word(s, p - 1);
    }
}

/// Walking back over a whitespace run that is known to end at `t` stops
/// exactly at `t`.
proof fn lemma_back_skip_ws_stops(s: Seq<char>, t: int, p: int)
    requires
        0 <= t <= p < s.len(),
        forall|i: int| t < i <= p ==> is_ws(s[i]),
        t == 0 || !is_ws(s[t]),
    ensures
        back_skip_ws(s, p) == t,
    decreases p - t,
{
    if p > t {
        assert(is_ws(s[p]));
        lemma_back_skip_ws_stops(s, t, p - 1);
    }
}

/// Walking back from `p` over non-whitespace reaches at most `a` when all of
/// `[a, p)` is non-whitespace.
proof fn lemma_back_skip_word_le(s: Seq<char>, a: int, p: int)
    requires
        0 <= a <= p <= s.len(),
        forall|i: int| a <= i < p ==> !is_ws(s[i]),
    ensures
        back_skip_word(s, p) <= a,
    decreases p - a,
{
    if p > a {
        assert(!is_ws(s[p - 1]));
        lemma_back_skip_word_le(s, a, p - 1);
    } else {
        lemma_back_skip_word(s, p);
    }
}

/// A forward word motion from a position on a word character, followed by a
/// backward word motion, never lands past the starting position.
pub proof fn lemma_next_then_prev_word(s: Seq<char>, p: int)
    requires
        0 <= p < s.len(),
        !is_ws(s[p]),
    ensures
        prev_word_pos(s, next_word_pos(s, p)) <= p,
{
    let q1 = skip_word(s, p);
    lemma_skip_word(s, p);
    assert(q1 == skip_word(s, p + 1));
    lemma_skip_word(s, p + 1);
    assert(p + 1 <= q1);
    let q2 = skip_ws(s, q1);
    lemma_skip_ws(s, q1);
    assert(next_word_pos(s, p) == q2);
    assert(q2 >= 1);
    assert(!is_ws(s[q1 - 1]));
    lemma_back_skip_ws_stops(s, q1 - 1, q2 - 1);
    lemma_back_skip_word_le(s, p, q1 - 1);
}

/// A forward word motion at the end of the buffer stays at the end.
pub proof fn lemma_next_word_at_end(s: Seq<char>)
    ensures
        next_word_pos(s, s.len() as int) == s.len(),
{
}

/// A backward word motion at the start of the buffer stays at the start.
pub proof fn lemma_prev_word_at_start(s: Seq<char>)
    ensures
        prev_word_pos(s, 0) == 0,
{
}

} // verus!
