//! Forward-only text scanning primitives: find a literal, match a literal at
//! a position, skip a run of whitespace, read a decimal digit run.
//!
//! Each executable function mirrors a spec function over `Seq<char>`; the
//! spec functions are the mathematical model that the page parser's contract
//! is stated in.

use vstd::prelude::*;

verus! {

/// The characters the scraped markup treats as whitespace: tab, newline,
/// carriage return, space.
pub open spec fn is_html_ws(c: char) -> bool {
    c == '\t' || c == '\n' || c == '\r' || c == ' '
}

/// `pat` occurs in `s` starting exactly at `pos`.
pub open spec fn matches_at(s: Seq<char>, pos: int, pat: Seq<char>) -> bool {
    &&& 0 <= pos
    &&& pos + pat.len() <= s.len()
    &&& s.subrange(pos, pos + pat.len()) == pat
}

/// Position of the first occurrence of `pat` in `s` at or after `pos`.
pub open spec fn sp_find(s: Seq<char>, pos: int, pat: Seq<char>) -> Option<int>
    decreases s.len() - pos + 1,
{
    if pos < 0 || pos + pat.len() > s.len() {
        None
    } else if matches_at(s, pos, pat) {
        Some(pos)
    } else {
        sp_find(s, pos + 1, pat)
    }
}

/// Position just past `pat` when `pat` stands exactly at `pos`.
pub open spec fn sp_tag(s: Seq<char>, pos: int, pat: Seq<char>) -> Option<int> {
    if matches_at(s, pos, pat) {
        Some(pos + pat.len())
    } else {
        None
    }
}

/// Position of the first character at or after `pos` that is not whitespace.
pub open spec fn sp_skip_ws(s: Seq<char>, pos: int) -> int
    decreases s.len() - pos,
{
    if 0 <= pos < s.len() && is_html_ws(s[pos]) {
        sp_skip_ws(s, pos + 1)
    } else {
        pos
    }
}

/// An ASCII decimal digit.
pub open spec fn is_digit(c: char) -> bool {
    48 <= c as u32 <= 57
}

/// The numeric value of a digit character.
pub open spec fn digit_val(c: char) -> int {
    c as u32 - 48
}

/// Position of the first character at or after `pos` that is not a digit.
pub open spec fn digit_run_end(s: Seq<char>, pos: int) -> int
    decreases s.len() - pos,
{
    if 0 <= pos < s.len() && is_digit(s[pos]) {
        digit_run_end(s, pos + 1)
    } else {
        pos
    }
}

/// The value of the decimal digit run `s[pos..end]`.
pub open spec fn digits_val(s: Seq<char>, pos: int, end: int) -> int
    decreases end - pos,
{
    if pos >= end {
        0
    } else {
        digits_val(s, pos, end - 1) * 10 + digit_val(s[end - 1])
    }
}

/// Reading an unsigned decimal number at `pos`: at least one digit must
/// stand there, the whole digit run is consumed, and its value must not
/// exceed `max`. Yields the value and the position after the run.
pub open spec fn sp_uint(s: Seq<char>, pos: int, max: int) -> Option<(int, int)> {
    let end = digit_run_end(s, pos);
    if end == pos || digits_val(s, pos, end) > max {
        None
    } else {
        Some((digits_val(s, pos, end), end))
    }
}

/// `sp_find` never yields a position before `pos`, and a hit is a match.
pub proof fn lemma_find_bounds(s: Seq<char>, pos: int, pat: Seq<char>)
    ensures
        match sp_find(s, pos, pat) {
            Some(i) => pos <= i && matches_at(s, i, pat) && i + pat.len() <= s.len(),
            None => true,
        },
    decreases s.len() - pos + 1,
{
    if !(pos < 0 || pos + pat.len() > s.len()) && !matches_at(s, pos, pat) {
        lemma_find_bounds(s, pos + 1, pat);
    }
}

/// When nothing is found, no position at or after `pos` matches.
pub proof fn lemma_find_none(s: Seq<char>, pos: int, pat: Seq<char>)
    requires
        0 <= pos,
        sp_find(s, pos, pat) is None,
    ensures
        forall|i: int| pos <= i ==> !matches_at(s, i, pat),
    decreases s.len() - pos + 1,
{
    if pos + pat.len() > s.len() {
        assert forall|i: int| pos <= i implies !matches_at(s, i, pat) by {
            assert(i + pat.len() > s.len());
        }
    } else {
        lemma_find_none(s, pos + 1, pat);
    }
}

/// `sp_skip_ws` stays inside `[pos, s.len()]`.
pub proof fn lemma_skip_ws_bounds(s: Seq<char>, pos: int)
    requires
        0 <= pos <= s.len(),
    ensures
        pos <= sp_skip_ws(s, pos) <= s.len(),
    decreases s.len() - pos,
{
    if pos < s.len() && is_html_ws(s[pos]) {
        lemma_skip_ws_bounds(s, pos + 1);
    }
}

/// `digit_run_end` stays inside `[pos, s.len()]`.
pub proof fn lemma_digit_run_bounds(s: Seq<char>, pos: int)
    requires
        0 <= pos <= s.len(),
    ensures
        pos <= digit_run_end(s, pos) <= s.len(),
    decreases s.len() - pos,
{
    if pos < s.len() && is_digit(s[pos]) {
        lemma_digit_run_bounds(s, pos + 1);
    }
}

/// A digit run's value is never negative.
pub proof fn lemma_digits_val_nonneg(s: Seq<char>, pos: int, end: int)
    requires
        forall|k: int| pos <= k < end ==> is_digit(s[k]),
    ensures
        digits_val(s, pos, end) >= 0,
    decreases end - pos,
{
    if pos < end {
        lemma_digits_val_nonneg(s, pos, end - 1);
    }
}

/// Every character of a digit run up to `digit_run_end` is a digit.
pub proof fn lemma_digit_run_digits(s: Seq<char>, pos: int, k: int)
    requires
        0 <= pos,
        pos <= k < digit_run_end(s, pos),
    ensures
        is_digit(s[k]),
    decreases k - pos,
{
    if pos < s.len() && is_digit(s[pos]) {
        if k > pos {
            lemma_digit_run_digits(s, pos + 1, k);
        }
    }
}

/// Extending a digit run on the right never shrinks its value.
pub proof fn lemma_digits_val_monotonic(s: Seq<char>, pos: int, e1: int, e2: int)
    requires
        pos <= e1 <= e2,
        forall|k: int| pos <= k < e2 ==> is_digit(s[k]),
    ensures
        digits_val(s, pos, e1) <= digits_val(s, pos, e2),
    decreases e2 - e1,
{
    if e1 < e2 {
        lemma_digits_val_monotonic(s, pos, e1, e2 - 1);
        lemma_digits_val_nonneg(s, pos, e2 - 1);
    }
}

/// Converts a string slice to the vector of its characters.
pub fn str_chars(s: &str) -> (r: Vec<char>)
    ensures
        r@ == s@,
{
    broadcast use vstd::string::group_string_axioms;

    let mut r: Vec<char> = Vec::new();
    for c in it: s.chars()
        invariant
            it.seq() == s@,
            r@ == it.history(),
    {
        r.push(c);
    }
    proof {
        assert(r@ =~= s@);
    }
    r
}

/// Reads a decimal digit run at `pos` into a number, refusing a value above
/// `max`: the executable form of [`sp_uint`].
pub fn parse_uint(s: &[char], pos: usize, max: u64) -> (r: Option<(u64, usize)>)
    requires
        pos <= s@.len(),
    ensures
        match r {
            Some(vp) => sp_uint(s@, pos as int, max as int) == Some((vp.0 as int, vp.1 as int))
                && pos < vp.1 <= s@.len() && vp.0 <= max,
            None => sp_uint(s@, pos as int, max as int) is None,
        },
{
    let n = s.len();
    let mut i: usize = pos;
    let mut val: u64 = 0;
    loop
        invariant
            n == s@.len(),
            pos <= i <= n,
            forall|k: int| pos <= k < i ==> is_digit(s@[k]),
            val == digits_val(s@, pos as int, i as int),
            val <= max,
            digit_run_end(s@, pos as int) == digit_run_end(s@, i as int),
        decreases n - i,
    {
        if i >= n {
            assert(digit_run_end(s@, pos as int) == i);
            if i == pos {
                return None;
            }
            return Some((val, i));
        }
        let c = s[i];
        let cu = c as u32;
        if cu < 48 || cu > 57 {
            assert(digit_run_end(s@, pos as int) == i);
            if i == pos {
                return None;
            }
            return Some((val, i));
        }
        let d = (cu - 48) as u64;
        proof {
            vstd::arithmetic::div_mod::lemma_fundamental_div_mod(max as int, 10);
        }
        if val > max / 10 || (val == max / 10 && d > max % 10) {
            // The run's value already exceeds `max`: the whole run does too.
            proof {
                let end = digit_run_end(s@, pos as int);
                lemma_digit_run_bounds(s@, i as int);
                assert(end == digit_run_end(s@, i + 1));
                lemma_digit_run_bounds(s@, i + 1);
                assert forall|k: int| pos <= k < end implies is_digit(s@[k]) by {
                    if i <= k {
                        lemma_digit_run_digits(s@, i as int, k);
                    }
                }
                assert(digits_val(s@, pos as int, i + 1) == val * 10 + d);
                lemma_digits_val_monotonic(s@, pos as int, i + 1, end);
            }
            return None;
        }
        val = val * 10 + d;
        i += 1;
    }
}

/// Tests whether `pat` stands at `pos` in `s`, by comparing one character at
/// a time.
pub fn eq_at(s: &[char], pos: usize, pat: &[char]) -> (r: bool)
    requires
        pos <= s@.len(),
    ensures
        r == matches_at(s@, pos as int, pat@),
{
    let n = s.len();
    let m = pat.len();
    if m > n - pos {
        return false;
    }
    let mut k: usize = 0;
    while k < m
        invariant
            n == s@.len(),
            m == pat@.len(),
            pos + m <= n,
            0 <= k <= m,
            forall|j: int| 0 <= j < k ==> s@[pos + j] == pat@[j],
        decreases m - k,
    {
        if s[pos + k] != pat[k] {
            assert(s@.subrange(pos as int, pos + pat@.len())[k as int] != pat@[k as int]);
            return false;
        }
        k += 1;
    }
    proof {
        assert(s@.subrange(pos as int, pos + pat@.len()) =~= pat@);
    }
    true
}

/// Finds the first occurrence of `pat` at or after `pos`: the executable
/// form of [`sp_find`].
pub fn find_from(s: &[char], pos: usize, pat: &[char]) -> (r: Option<usize>)
    requires
        pos <= s@.len(),
    ensures
        match r {
            Some(i) => sp_find(s@, pos as int, pat@) == Some(i as int) && pos <= i
                && i + pat@.len() <= s@.len(),
            None => sp_find(s@, pos as int, pat@) is None,
        },
{
    proof {
        lemma_find_bounds(s@, pos as int, pat@);
    }
    if pat.len() == 0 {
        proof {
            assert(s@.subrange(pos as int, pos as int) =~= pat@);
        }
        return Some(pos);
    }
    let mut i: usize = pos;
    while pat.len() <= s.len() - i
        invariant
            pos <= i <= s@.len(),
            pat@.len() > 0,
            sp_find(s@, pos as int, pat@) == sp_find(s@, i as int, pat@),
        decreases s@.len() - i,
    {
        if eq_at(s, i, pat) {
            return Some(i);
        }
        i += 1;
    }
    None
}

/// Matches `pat` exactly at `pos`: the executable form of [`sp_tag`].
pub fn tag_from(s: &[char], pos: usize, pat: &[char]) -> (r: Option<usize>)
    requires
        pos <= s@.len(),
    ensures
        match r {
            Some(p) => sp_tag(s@, pos as int, pat@) == Some(p as int) && pos <= p
                && p <= s@.len(),
            None => sp_tag(s@, pos as int, pat@) is None,
        },
{
    let n = s.len();
    if eq_at(s, pos, pat) {
        assert(pos + pat@.len() <= n);
        Some(pos + pat.len())
    } else {
        None
    }
}

/// Skips the maximal whitespace run at `pos`: the executable form of
/// [`sp_skip_ws`].
pub fn skip_ws_from(s: &[char], pos: usize) -> (r: usize)
    requires
        pos <= s@.len(),
    ensures
        r == sp_skip_ws(s@, pos as int),
        pos <= r <= s@.len(),
{
    let mut i: usize = pos;
    while i < s.len() && (s[i] == '\t' || s[i] == '\n' || s[i] == '\r' || s[i] == ' ')
        invariant
            pos <= i <= s@.len(),
            sp_skip_ws(s@, pos as int) == sp_skip_ws(s@, i as int),
        decreases s@.len() - i,
    {
        i += 1;
    }
    i
}

} // verus!
