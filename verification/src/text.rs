//! The description decoder: HTML-entity-decodes a free-text field and trims
//! surrounding whitespace; an empty outcome means the field is absent.

use vstd::prelude::*;

use crate::scan::str_chars;
use vstd::string::StrSliceExecFns;
use vstd::string::StringExecFns;

verus! {

/// Whether a character has the Unicode `White_Space` property: the set that
/// `str::trim` removes. The answer depends on the character alone.
pub uninterp spec fn is_white_space(c: char) -> bool;

/// Relies on `char::is_whitespace`: tests the Unicode `White_Space`
/// property of the character.
#[verifier::external_body]
fn char_is_whitespace(c: char) -> (r: bool)
    ensures
        r == is_white_space(c),
{
    c.is_whitespace()
}

/// What `htmlescape::decode_html` turns the text into; `None` when the text
/// holds a reference it cannot decode. The result depends on the input text
/// alone.
pub uninterp spec fn html_decode(s: Seq<char>) -> Option<Seq<char>>;

/// Relies on `htmlescape::decode_html`: decodes HTML numeric and named
/// character references in the text.
#[verifier::external_body]
fn decode_html_text(s: &str) -> (r: Option<String>)
    ensures
        match r {
            Some(d) => html_decode(s@) == Some(d@),
            None => html_decode(s@) is None,
        },
{
    htmlescape::decode_html(s).ok()
}

/// Index of the first character at or after `pos` that is not whitespace.
pub open spec fn trim_start_idx(s: Seq<char>, pos: int) -> int
    decreases s.len() - pos,
{
    if 0 <= pos < s.len() && is_white_space(s[pos]) {
        trim_start_idx(s, pos + 1)
    } else {
        pos
    }
}

/// Index just past the last character before `pos` that is not whitespace.
pub open spec fn trim_end_idx(s: Seq<char>, pos: int) -> int
    decreases pos,
{
    if 0 < pos <= s.len() && is_white_space(s[pos - 1]) {
        trim_end_idx(s, pos - 1)
    } else {
        pos
    }
}

/// The text with leading and trailing whitespace removed.
pub open spec fn sp_trim(s: Seq<char>) -> Seq<char> {
    let a = trim_start_idx(s, 0);
    let b = trim_end_idx(s, s.len() as int);
    if a <= b {
        s.subrange(a, b)
    } else {
        Seq::empty()
    }
}

/// The semantic value of a description field: the entity-decoded, trimmed
/// text, or `None` when decoding fails or nothing visible is left.
pub open spec fn description_of(s: Seq<char>) -> Option<Seq<char>> {
    match html_decode(s) {
        Some(d) => {
            let t = sp_trim(d);
            if t.len() == 0 {
                None
            } else {
                Some(t)
            }
        },
        None => None,
    }
}

/// Index of the first non-whitespace character: executable form of
/// [`trim_start_idx`] from the start of the text.
fn trim_start_of(cs: &Vec<char>) -> (a: usize)
    ensures
        a == trim_start_idx(cs@, 0),
        a <= cs@.len(),
{
    let n = cs.len();
    let mut i: usize = 0;
    loop
        invariant
            0 <= i <= n,
            n == cs@.len(),
            trim_start_idx(cs@, 0) == trim_start_idx(cs@, i as int),
        decreases n - i,
    {
        if i >= n {
            return i;
        }
        if !char_is_whitespace(cs[i]) {
            return i;
        }
        i += 1;
    }
}

/// Index just past the last non-whitespace character: executable form of
/// [`trim_end_idx`] from the end of the text.
fn trim_end_of(cs: &Vec<char>) -> (b: usize)
    ensures
        b == trim_end_idx(cs@, cs@.len() as int),
        b <= cs@.len(),
{
    let mut i: usize = cs.len();
    loop
        invariant
            0 <= i <= cs@.len(),
            trim_end_idx(cs@, cs@.len() as int) == trim_end_idx(cs@, i as int),
        decreases i,
    {
        if i == 0 {
            return 0;
        }
        if !char_is_whitespace(cs[i - 1]) {
            return i;
        }
        i -= 1;
    }
}

/// Removes leading and trailing whitespace: the executable form of
/// [`sp_trim`].
fn trim_of(s: &str) -> (r: String)
    ensures
        r@ == sp_trim(s@),
{
    let cs = str_chars(s);
    let a = trim_start_of(&cs);
    let b = trim_end_of(&cs);
    if a <= b {
        let t = s.substring_char(a, b);
        String::from_str(t)
    } else {
        String::new()
    }
}

/// Decodes and trims a description field; an empty outcome, or a field that
/// does not decode, is an absent description rather than an empty one.
pub fn parse_description(desc: &str) -> (r: Option<String>)
    ensures
        match r {
            Some(t) => description_of(desc@) == Some(t@),
            None => description_of(desc@) is None,
        },
{
    match decode_html_text(desc) {
        None => None,
        Some(d) => {
            let t = trim_of(d.as_str());
            if t.as_str().is_empty() {
                None
            } else {
                Some(t)
            }
        },
    }
}

} // verus!
