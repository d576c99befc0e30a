//! Low-level text scanning: character classes, whitespace skipping, runs of
//! digits, line boundaries and quoted regions.
//!
//! Every executable function here mirrors a specification function over the
//! input's view (a `Seq<char>`), so that the higher parsing layers can be
//! stated and proved purely over sequences.

use vstd::prelude::*;

verus! {

/// Blank characters inside a declaration line: space and horizontal tab.
pub open spec fn is_space_char(c: char) -> bool {
    c == ' ' || c == '\t'
}

/// Whitespace between declarations: blanks plus line breaks.
pub open spec fn is_multispace_char(c: char) -> bool {
    c == ' ' || c == '\t' || c == '\r' || c == '\n'
}

/// Characters that end a line of text.
pub open spec fn is_line_break_char(c: char) -> bool {
    c == '\n' || c == '\r'
}

/// ASCII decimal digits.
pub open spec fn is_digit_char(c: char) -> bool {
    '0' <= c && c <= '9'
}

/// Characters that terminate an unquoted attribute value.
pub open spec fn is_bare_value_end_char(c: char) -> bool {
    c == ',' || is_multispace_char(c)
}

/// First position at or after `pos` whose character fails `p`, or the end of
/// the input if every remaining character satisfies `p`.
pub open spec fn spec_skip_while(s: Seq<char>, pos: int, p: spec_fn(char) -> bool) -> int
    decreases s.len() - pos,
{
    if pos < 0 || pos >= s.len() {
        pos
    } else if p(s[pos]) {
        spec_skip_while(s, pos + 1, p)
    } else {
        pos
    }
}

pub(crate) proof fn lemma_skip_while(s: Seq<char>, pos: int, p: spec_fn(char) -> bool)
    requires
        0 <= pos <= s.len(),
    ensures
        pos <= spec_skip_while(s, pos, p) <= s.len(),
        forall|i: int| pos <= i < spec_skip_while(s, pos, p) ==> p(#[trigger] s[i]),
        spec_skip_while(s, pos, p) < s.len() ==> !p(s[spec_skip_while(s, pos, p)]),
    decreases s.len() - pos,
{
    if pos < s.len() && p(s[pos]) {
        lemma_skip_while(s, pos + 1, p);
    }
}

/// End of the run of blanks starting at `pos`.
pub open spec fn spec_skip_spaces(s: Seq<char>, pos: int) -> int {
    spec_skip_while(s, pos, |c: char| is_space_char(c))
}

/// End of the run of whitespace (blanks and line breaks) starting at `pos`.
pub open spec fn spec_skip_multispace(s: Seq<char>, pos: int) -> int {
    spec_skip_while(s, pos, |c: char| is_multispace_char(c))
}

/// End of the run of decimal digits starting at `pos`.
pub open spec fn spec_scan_digits(s: Seq<char>, pos: int) -> int {
    spec_skip_while(s, pos, |c: char| is_digit_char(c))
}

/// Position of the next line break at or after `pos`, or the end of input.
pub open spec fn spec_scan_line(s: Seq<char>, pos: int) -> int {
    spec_skip_while(s, pos, |c: char| !is_line_break_char(c))
}

/// End of the unquoted attribute value starting at `pos`.
pub open spec fn spec_scan_bare_value(s: Seq<char>, pos: int) -> int {
    spec_skip_while(s, pos, |c: char| !is_bare_value_end_char(c))
}

pub(crate) proof fn lemma_skip_spaces(s: Seq<char>, pos: int)
    requires
        0 <= pos <= s.len(),
    ensures
        pos <= spec_skip_spaces(s, pos) <= s.len(),
{
    lemma_skip_while(s, pos, |c: char| is_space_char(c));
}

pub(crate) proof fn lemma_scan_digits_all(s: Seq<char>, pos: int)
    requires
        0 <= pos <= s.len(),
    ensures
        pos <= spec_scan_digits(s, pos) <= s.len(),
        forall|i: int|
            pos <= i < spec_scan_digits(s, pos) ==> is_digit_char(#[trigger] s[i]),
{
    lemma_skip_while(s, pos, |c: char| is_digit_char(c));
}

pub(crate) proof fn lemma_scan_bare_value(s: Seq<char>, pos: int)
    requires
        0 <= pos <= s.len(),
    ensures
        pos <= spec_scan_bare_value(s, pos) <= s.len(),
{
    lemma_skip_while(s, pos, |c: char| !is_bare_value_end_char(c));
}

/// Position of the first double quote at or after `pos`, if any.
pub open spec fn spec_find_quote(s: Seq<char>, pos: int) -> Option<int>
    decreases s.len() - pos,
{
    if pos < 0 || pos >= s.len() {
        None
    } else if s[pos] == '"' {
        Some(pos)
    } else {
        spec_find_quote(s, pos + 1)
    }
}

pub(crate) proof fn lemma_find_quote(s: Seq<char>, pos: int)
    requires
        0 <= pos <= s.len(),
    ensures
        spec_find_quote(s, pos) matches Some(q) ==> pos <= q < s.len(),
    decreases s.len() - pos,
{
    if pos < s.len() && s[pos] != '"' {
        lemma_find_quote(s, pos + 1);
    }
}

/// Position of the first occurrence of `c` at or after `pos`, if any.
pub open spec fn spec_find_char(s: Seq<char>, pos: int, c: char) -> Option<int>
    decreases s.len() - pos,
{
    if pos < 0 || pos >= s.len() {
        None
    } else if s[pos] == c {
        Some(pos)
    } else {
        spec_find_char(s, pos + 1, c)
    }
}

/// Executable mirror of [`spec_find_char`].
pub(crate) fn find_char(s: &str, len: usize, pos: usize, c: char) -> (r: Option<usize>)
    requires
        len == s@.len(),
        pos <= len,
    ensures
        match r {
            Some(q) => pos <= q < len && spec_find_char(s@, pos as int, c) == Some(q as int),
            None => spec_find_char(s@, pos as int, c) is None,
        },
{
    let mut i = pos;
    loop
        invariant
            pos <= i <= len,
            spec_find_char(s@, pos as int, c) == spec_find_char(s@, i as int, c),
        decreases len - i,
    {
        if i >= len {
            return None;
        }
        if s.get_char(i) == c {
            return Some(i);
        }
        i += 1;
    }
}

/// Does `lit` occur in `s` starting exactly at `pos`?
pub open spec fn spec_has_prefix(s: Seq<char>, pos: int, lit: Seq<char>) -> bool {
    &&& 0 <= pos
    &&& pos + lit.len() <= s.len()
    &&& s.subrange(pos, pos + lit.len()) == lit
}

pub(crate) fn skip_spaces(s: &str, len: usize, pos: usize) -> (r: usize)
    requires
        len == s@.len(),
        pos <= len,
    ensures
        r == spec_skip_spaces(s@, pos as int),
        pos <= r <= len,
{
    let mut i = pos;
    loop
        invariant
            pos <= i <= len,
            spec_skip_spaces(s@, pos as int) == spec_skip_spaces(s@, i as int),
        decreases len - i,
    {
        if i >= len {
            break ;
        }
        let c = s.get_char(i);
        if !(c == ' ' || c == '\t') {
            break ;
        }
        i += 1;
    }
    i
}

pub(crate) fn skip_multispace(s: &str, len: usize, pos: usize) -> (r: usize)
    requires
        len == s@.len(),
        pos <= len,
    ensures
        r == spec_skip_multispace(s@, pos as int),
        pos <= r <= len,
{
    let mut i = pos;
    loop
        invariant
            pos <= i <= len,
            spec_skip_multispace(s@, pos as int) == spec_skip_multispace(s@, i as int),
        decreases len - i,
    {
        if i >= len {
            break ;
        }
        let c = s.get_char(i);
        if !(c == ' ' || c == '\t' || c == '\r' || c == '\n') {
            break ;
        }
        i += 1;
    }
    i
}

pub(crate) fn scan_digits(s: &str, len: usize, pos: usize) -> (r: usize)
    requires
        len == s@.len(),
        pos <= len,
    ensures
        r == spec_scan_digits(s@, pos as int),
        pos <= r <= len,
{
    let mut i = pos;
    loop
        invariant
            pos <= i <= len,
            spec_scan_digits(s@, pos as int) == spec_scan_digits(s@, i as int),
        decreases len - i,
    {
        if i >= len {
            break ;
        }
        let c = s.get_char(i);
        if !('0' <= c && c <= '9') {
            break ;
        }
        i += 1;
    }
    i
}

pub(crate) fn scan_line(s: &str, len: usize, pos: usize) -> (r: usize)
    requires
        len == s@.len(),
        pos <= len,
    ensures
        r == spec_scan_line(s@, pos as int),
        pos <= r <= len,
{
    let mut i = pos;
    loop
        invariant
            pos <= i <= len,
            spec_scan_line(s@, pos as int) == spec_scan_line(s@, i as int),
        decreases len - i,
    {
        if i >= len {
            break ;
        }
        let c = s.get_char(i);
        if c == '\n' || c == '\r' {
            break ;
        }
        i += 1;
    }
    i
}

pub(crate) fn scan_bare_value(s: &str, len: usize, pos: usize) -> (r: usize)
    requires
        len == s@.len(),
        pos <= len,
    ensures
        r == spec_scan_bare_value(s@, pos as int),
        pos <= r <= len,
{
    let mut i = pos;
    loop
        invariant
            pos <= i <= len,
            spec_scan_bare_value(s@, pos as int) == spec_scan_bare_value(s@, i as int),
        decreases len - i,
    {
        if i >= len {
            break ;
        }
        let c = s.get_char(i);
        if c == ',' || c == ' ' || c == '\t' || c == '\r' || c == '\n' {
            break ;
        }
        i += 1;
    }
    i
}

pub(crate) fn find_quote(s: &str, len: usize, pos: usize) -> (r: Option<usize>)
    requires
        len == s@.len(),
        pos <= len,
    ensures
        match r {
            Some(q) => pos <= q < len && spec_find_quote(s@, pos as int) == Some(q as int),
            None => spec_find_quote(s@, pos as int) is None,
        },
{
    let mut i = pos;
    loop
        invariant
            pos <= i <= len,
            spec_find_quote(s@, pos as int) == spec_find_quote(s@, i as int),
        decreases len - i,
    {
        if i >= len {
            return None;
        }
        let c = s.get_char(i);
        if c == '"' {
            return Some(i);
        }
        i += 1;
    }
}

/// Does `lit` occur in `s` starting exactly at `pos`?
pub(crate) fn match_prefix(s: &str, len: usize, pos: usize, lit: &str) -> (r: bool)
    requires
        len == s@.len(),
        pos <= len,
    ensures
        r == spec_has_prefix(s@, pos as int, lit@),
{
    let lit_len = lit.unicode_len();
    if lit_len > len - pos {
        assert(!spec_has_prefix(s@, pos as int, lit@));
        return false;
    }
    let mut i: usize = 0;
    loop
        invariant
            0 <= i <= lit_len,
            pos + lit_len <= len,
            forall|j: int| 0 <= j < i ==> s@[pos + j] == lit@[j],
        decreases lit_len - i,
    {
        if i >= lit_len {
            break ;
        }
        if s.get_char(pos + i) != lit.get_char(i) {
            assert(!spec_has_prefix(s@, pos as int, lit@)) by {
                if spec_has_prefix(s@, pos as int, lit@) {
                    assert(s@.subrange(pos as int, pos + lit@.len())[i as int] == lit@[i as int]);
                }
            }
            return false;
        }
        i += 1;
    }
    assert(s@.subrange(pos as int, pos + lit@.len()) =~= lit@);
    true
}

/// Are the two strings the same sequence of characters?
pub(crate) fn str_eq(a: &str, b: &str) -> (r: bool)
    ensures
        r == (a@ == b@),
{
    let la = a.unicode_len();
    let lb = b.unicode_len();
    if la != lb {
        return false;
    }
    let mut i: usize = 0;
    loop
        invariant
            0 <= i <= la,
            la == a@.len() && la == b@.len(),
            forall|j: int| 0 <= j < i ==> a@[j] == b@[j],
        decreases la - i,
    {
        if i >= la {
            break ;
        }
        if a.get_char(i) != b.get_char(i) {
            assert(a@ != b@);
            return false;
        }
        i += 1;
    }
    assert(a@ =~= b@);
    true
}

/// Copy of the characters of `s` between `from` and `to`.
pub(crate) fn extract(s: &str, len: usize, from: usize, to: usize) -> (r: String)
    requires
        len == s@.len(),
        from <= to <= len,
    ensures
        r@ == s@.subrange(from as int, to as int),
{
    let sub = s.substring_char(from, to);
    sub.to_owned()
}

} // verus!
