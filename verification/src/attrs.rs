//! The attribute-list parser: the generic `KEY=value[,KEY=value...]` grammar
//! shared by every declaration kind.
//!
//! Matching is attempted against the full set of known attribute keys at each
//! position, so the list itself carries no canonical order; which keys a
//! given declaration accepts is decided later, by that declaration's builder.
//! Each key has a fixed enclosure: its value is either a bare token ended by
//! a comma or whitespace, or a double-quoted token that may contain both.

use vstd::prelude::*;
use crate::scan::{
    extract, find_quote, lemma_find_quote, lemma_scan_bare_value, lemma_skip_spaces, match_prefix,
    scan_bare_value, skip_spaces, spec_find_quote, spec_has_prefix, spec_scan_bare_value,
    spec_skip_spaces,
};

verus! {

/// The attribute keys recognized anywhere in a playlist.
#[derive(Debug, PartialEq, Eq, Structural, Clone, Copy)]
pub enum AttrKey {
    GroupId,
    Name,
    Language,
    Default,
    Autoselect,
    Channels,
    Uri,
    Bandwidth,
    AverageBandwidth,
    Codecs,
    Resolution,
    FrameRate,
    VideoRange,
    Audio,
    ClosedCaptions,
}

/// The literal spelling of each attribute key in playlist text.
pub open spec fn key_lit(k: AttrKey) -> Seq<char> {
    match k {
        AttrKey::GroupId => "GROUP-ID"@,
        AttrKey::Name => "NAME"@,
        AttrKey::Language => "LANGUAGE"@,
        AttrKey::Default => "DEFAULT"@,
        AttrKey::Autoselect => "AUTOSELECT"@,
        AttrKey::Channels => "CHANNELS"@,
        AttrKey::Uri => "URI"@,
        AttrKey::Bandwidth => "BANDWIDTH"@,
        AttrKey::AverageBandwidth => "AVERAGE-BANDWIDTH"@,
        AttrKey::Codecs => "CODECS"@,
        AttrKey::Resolution => "RESOLUTION"@,
        AttrKey::FrameRate => "FRAME-RATE"@,
        AttrKey::VideoRange => "VIDEO-RANGE"@,
        AttrKey::Audio => "AUDIO"@,
        AttrKey::ClosedCaptions => "CLOSED-CAPTIONS"@,
    }
}

/// Keys whose values are written inside double quotes; the rest are bare.
pub open spec fn key_quoted(k: AttrKey) -> bool {
    match k {
        AttrKey::GroupId => true,
        AttrKey::Name => true,
        AttrKey::Language => true,
        AttrKey::Channels => true,
        AttrKey::Uri => true,
        AttrKey::Codecs => true,
        AttrKey::Audio => true,
        _ => false,
    }
}

/// The key whose literal occurs at `pos`, if any.  No key literal is a
/// prefix of another, so at most one can match; the chain fixes the order in
/// which candidates are tried.
pub open spec fn spec_match_key(s: Seq<char>, pos: int) -> Option<AttrKey> {
    if spec_has_prefix(s, pos, key_lit(AttrKey::GroupId)) {
        Some(AttrKey::GroupId)
    } else if spec_has_prefix(s, pos, key_lit(AttrKey::Name)) {
        Some(AttrKey::Name)
    } else if spec_has_prefix(s, pos, key_lit(AttrKey::Language)) {
        Some(AttrKey::Language)
    } else if spec_has_prefix(s, pos, key_lit(AttrKey::Default)) {
        Some(AttrKey::Default)
    } else if spec_has_prefix(s, pos, key_lit(AttrKey::Autoselect)) {
        Some(AttrKey::Autoselect)
    } else if spec_has_prefix(s, pos, key_lit(AttrKey::Channels)) {
        Some(AttrKey::Channels)
    } else if spec_has_prefix(s, pos, key_lit(AttrKey::Uri)) {
        Some(AttrKey::Uri)
    } else if spec_has_prefix(s, pos, key_lit(AttrKey::Bandwidth)) {
        Some(AttrKey::Bandwidth)
    } else if spec_has_prefix(s, pos, key_lit(AttrKey::AverageBandwidth)) {
        Some(AttrKey::AverageBandwidth)
    } else if spec_has_prefix(s, pos, key_lit(AttrKey::Codecs)) {
        Some(AttrKey::Codecs)
    } else if spec_has_prefix(s, pos, key_lit(AttrKey::Resolution)) {
        Some(AttrKey::Resolution)
    } else if spec_has_prefix(s, pos, key_lit(AttrKey::FrameRate)) {
        Some(AttrKey::FrameRate)
    } else if spec_has_prefix(s, pos, key_lit(AttrKey::VideoRange)) {
        Some(AttrKey::VideoRange)
    } else if spec_has_prefix(s, pos, key_lit(AttrKey::Audio)) {
        Some(AttrKey::Audio)
    } else if spec_has_prefix(s, pos, key_lit(AttrKey::ClosedCaptions)) {
        Some(AttrKey::ClosedCaptions)
    } else {
        None
    }
}

/// One `KEY=value` item, with optional surrounding blanks and an optional
/// trailing comma.  `None` when no known key (with a well-formed value of its
/// enclosure) starts here; `Some` carries the key, the raw value, and the
/// position just past the item.
pub open spec fn spec_attr_step(s: Seq<char>, pos: int) -> Option<(AttrKey, Seq<char>, int)> {
    let p0 = spec_skip_spaces(s, pos);
    match spec_match_key(s, p0) {
        None => None,
        Some(k) => {
            let p1 = p0 + key_lit(k).len();
            let p2 = spec_skip_spaces(s, p1);
            if !(p2 < s.len() && s[p2] == '=') {
                None
            } else {
                let p3 = spec_skip_spaces(s, p2 + 1);
                if key_quoted(k) {
                    if p3 < s.len() && s[p3] == '"' {
                        match spec_find_quote(s, p3 + 1) {
                            None => None,
                            Some(q) => Some(
                                spec_attr_step_tail(s, q + 1, k, s.subrange(p3 + 1, q)),
                            ),
                        }
                    } else {
                        None
                    }
                } else {
                    let e = spec_scan_bare_value(s, p3);
                    Some(spec_attr_step_tail(s, e, k, s.subrange(p3, e)))
                }
            }
        },
    }
}

/// Trailing blanks and the optional comma after a value ending at `pos`.
pub open spec fn spec_attr_step_tail(s: Seq<char>, pos: int, k: AttrKey, v: Seq<char>) -> (
    AttrKey,
    Seq<char>,
    int,
) {
    let p4 = spec_skip_spaces(s, pos);
    if p4 < s.len() && s[p4] == ',' {
        (k, v, p4 + 1)
    } else {
        (k, v, p4)
    }
}

pub(crate) proof fn lemma_attr_step_range(s: Seq<char>, pos: int)
    requires
        0 <= pos <= s.len(),
    ensures
        spec_attr_step(s, pos) matches Some(t) ==> pos < t.2 <= s.len(),
{
    let p0 = spec_skip_spaces(s, pos);
    lemma_skip_spaces(s, pos);
    if let Some(k) = spec_match_key(s, p0) {
        let p1 = p0 + key_lit(k).len();
        let p2 = spec_skip_spaces(s, p1);
        lemma_skip_spaces(s, p1);
        if p2 < s.len() && s[p2] == '=' {
            let p3 = spec_skip_spaces(s, p2 + 1);
            lemma_skip_spaces(s, p2 + 1);
            if key_quoted(k) {
                if p3 < s.len() && s[p3] == '"' {
                    if let Some(q) = spec_find_quote(s, p3 + 1) {
                        lemma_find_quote(s, p3 + 1);
                        lemma_attr_step_tail_range(s, q + 1);
                    }
                }
            } else {
                let e = spec_scan_bare_value(s, p3);
                lemma_scan_bare_value(s, p3);
                lemma_attr_step_tail_range(s, e);
            }
        }
    }
}

pub(crate) proof fn lemma_attr_step_tail_range(s: Seq<char>, pos: int)
    requires
        0 <= pos <= s.len(),
    ensures
        forall|k: AttrKey, v: Seq<char>|
            pos <= (#[trigger] spec_attr_step_tail(s, pos, k, v)).2 <= s.len(),
{
    lemma_skip_spaces(s, pos);
}

/// The ordered raw `(key, value)` pairs readable from `pos`, and the position
/// where no further key matches.
pub open spec fn spec_attr_list(s: Seq<char>, pos: int) -> (Seq<(AttrKey, Seq<char>)>, int)
    decreases s.len() - pos,
{
    if !(0 <= pos <= s.len()) {
        (Seq::empty(), pos)
    } else {
        match spec_attr_step(s, pos) {
            None => (Seq::empty(), pos),
            Some(t) => if pos < t.2 <= s.len() {
                let rest = spec_attr_list(s, t.2);
                (Seq::empty().push((t.0, t.1)) + rest.0, rest.1)
            } else {
                (Seq::empty(), pos)
            },
        }
    }
}

pub(crate) proof fn lemma_attr_list_range(s: Seq<char>, pos: int)
    requires
        0 <= pos <= s.len(),
    ensures
        pos <= spec_attr_list(s, pos).1 <= s.len(),
    decreases s.len() - pos,
{
    lemma_attr_step_range(s, pos);
    if let Some(t) = spec_attr_step(s, pos) {
        if pos < t.2 <= s.len() {
            lemma_attr_list_range(s, t.2);
        }
    }
}

/// View of an executable pair list: each raw value replaced by its character
/// sequence.
pub open spec fn pairs_view(v: Seq<(AttrKey, String)>) -> Seq<(AttrKey, Seq<char>)> {
    v.map_values(|p: (AttrKey, String)| (p.0, p.1@))
}

/// Executable mirror of [`spec_match_key`].
pub(crate) fn match_key(s: &str, len: usize, pos: usize) -> (r: Option<AttrKey>)
    requires
        len == s@.len(),
        pos <= len,
    ensures
        r == spec_match_key(s@, pos as int),
{
    if match_prefix(s, len, pos, "GROUP-ID") {
        Some(AttrKey::GroupId)
    } else if match_prefix(s, len, pos, "NAME") {
        Some(AttrKey::Name)
    } else if match_prefix(s, len, pos, "LANGUAGE") {
        Some(AttrKey::Language)
    } else if match_prefix(s, len, pos, "DEFAULT") {
        Some(AttrKey::Default)
    } else if match_prefix(s, len, pos, "AUTOSELECT") {
        Some(AttrKey::Autoselect)
    } else if match_prefix(s, len, pos, "CHANNELS") {
        Some(AttrKey::Channels)
    } else if match_prefix(s, len, pos, "URI") {
        Some(AttrKey::Uri)
    } else if match_prefix(s, len, pos, "BANDWIDTH") {
        Some(AttrKey::Bandwidth)
    } else if match_prefix(s, len, pos, "AVERAGE-BANDWIDTH") {
        Some(AttrKey::AverageBandwidth)
    } else if match_prefix(s, len, pos, "CODECS") {
        Some(AttrKey::Codecs)
    } else if match_prefix(s, len, pos, "RESOLUTION") {
        Some(AttrKey::Resolution)
    } else if match_prefix(s, len, pos, "FRAME-RATE") {
        Some(AttrKey::FrameRate)
    } else if match_prefix(s, len, pos, "VIDEO-RANGE") {
        Some(AttrKey::VideoRange)
    } else if match_prefix(s, len, pos, "AUDIO") {
        Some(AttrKey::Audio)
    } else if match_prefix(s, len, pos, "CLOSED-CAPTIONS") {
        Some(AttrKey::ClosedCaptions)
    } else {
        None
    }
}

/// Length in characters of a key's literal spelling.
pub(crate) fn key_len(k: AttrKey) -> (r: usize)
    ensures
        r == key_lit(k).len(),
{
    match k {
        AttrKey::GroupId => "GROUP-ID".unicode_len(),
        AttrKey::Name => "NAME".unicode_len(),
        AttrKey::Language => "LANGUAGE".unicode_len(),
        AttrKey::Default => "DEFAULT".unicode_len(),
        AttrKey::Autoselect => "AUTOSELECT".unicode_len(),
        AttrKey::Channels => "CHANNELS".unicode_len(),
        AttrKey::Uri => "URI".unicode_len(),
        AttrKey::Bandwidth => "BANDWIDTH".unicode_len(),
        AttrKey::AverageBandwidth => "AVERAGE-BANDWIDTH".unicode_len(),
        AttrKey::Codecs => "CODECS".unicode_len(),
        AttrKey::Resolution => "RESOLUTION".unicode_len(),
        AttrKey::FrameRate => "FRAME-RATE".unicode_len(),
        AttrKey::VideoRange => "VIDEO-RANGE".unicode_len(),
        AttrKey::Audio => "AUDIO".unicode_len(),
        AttrKey::ClosedCaptions => "CLOSED-CAPTIONS".unicode_len(),
    }
}

/// Executable mirror of [`key_quoted`].
pub(crate) fn key_is_quoted(k: AttrKey) -> (r: bool)
    ensures
        r == key_quoted(k),
{
    match k {
        AttrKey::GroupId => true,
        AttrKey::Name => true,
        AttrKey::Language => true,
        AttrKey::Channels => true,
        AttrKey::Uri => true,
        AttrKey::Codecs => true,
        AttrKey::Audio => true,
        _ => false,
    }
}

/// Executable mirror of [`spec_attr_step`].
pub(crate) fn parse_attr_step(s: &str, len: usize, pos: usize) -> (r: Option<(AttrKey, String, usize)>)
    requires
        len == s@.len(),
        pos <= len,
    ensures
        match r {
            Some(t) => {
                &&& spec_attr_step(s@, pos as int) == Some((t.0, t.1@, t.2 as int))
                &&& pos < t.2 <= len
            },
            None => spec_attr_step(s@, pos as int) is None,
        },
{
    proof {
        lemma_attr_step_range(s@, pos as int);
    }
    let p0 = skip_spaces(s, len, pos);
    let k = match match_key(s, len, p0) {
        None => {
            return None;
        },
        Some(k) => k,
    };
    let p1 = p0 + key_len(k);
    let p2 = skip_spaces(s, len, p1);
    if !(p2 < len && s.get_char(p2) == '=') {
        return None;
    }
    let p3 = skip_spaces(s, len, p2 + 1);
    if key_is_quoted(k) {
        if p3 < len && s.get_char(p3) == '"' {
            match find_quote(s, len, p3 + 1) {
                None => None,
                Some(q) => {
                    let v = extract(s, len, p3 + 1, q);
                    Some(attr_step_tail(s, len, q + 1, k, v))
                },
            }
        } else {
            None
        }
    } else {
        let e = scan_bare_value(s, len, p3);
        let v = extract(s, len, p3, e);
        Some(attr_step_tail(s, len, e, k, v))
    }
}

/// Executable mirror of [`spec_attr_step_tail`].
fn attr_step_tail(s: &str, len: usize, pos: usize, k: AttrKey, v: String) -> (r: (
    AttrKey,
    String,
    usize,
))
    requires
        len == s@.len(),
        pos <= len,
    ensures
        (r.0, r.1@, r.2 as int) == spec_attr_step_tail(s@, pos as int, k, v@),
        pos <= r.2 <= len,
{
    let p4 = skip_spaces(s, len, pos);
    if p4 < len && s.get_char(p4) == ',' {
        (k, v, p4 + 1)
    } else {
        (k, v, p4)
    }
}

/// Executable mirror of [`spec_attr_list`]: collects raw pairs until no
/// further key matches, returning them with the position where it stopped.
pub(crate) fn parse_attr_list(s: &str, len: usize, pos: usize) -> (r: (Vec<(AttrKey, String)>, usize))
    requires
        len == s@.len(),
        pos <= len,
    ensures
        pairs_view(r.0@) == spec_attr_list(s@, pos as int).0,
        r.1 as int == spec_attr_list(s@, pos as int).1,
        pos <= r.1 <= len,
{
    let mut acc: Vec<(AttrKey, String)> = Vec::new();
    let mut cur = pos;
    loop
        invariant
            pos <= cur <= len,
            spec_attr_list(s@, pos as int).0 == pairs_view(acc@) + spec_attr_list(
                s@,
                cur as int,
            ).0,
            spec_attr_list(s@, pos as int).1 == spec_attr_list(s@, cur as int).1,
        decreases len - cur,
    {
        match parse_attr_step(s, len, cur) {
            None => {
                break ;
            },
            Some(t) => {
                let (k, v, n) = t;
                proof {
                    let step = spec_attr_list(s@, cur as int);
                    let rest = spec_attr_list(s@, n as int);
                    assert(step.0 == Seq::empty().push((k, v@)) + rest.0);
                    assert(pairs_view(acc@.push((k, v))) =~= pairs_view(acc@).push((k, v@)));
                    assert(pairs_view(acc@).push((k, v@)) + rest.0 =~= pairs_view(acc@) + (
                    Seq::empty().push((k, v@)) + rest.0));
                }
                acc.push((k, v));
                cur = n;
            },
        }
    }
    proof {
        assert(spec_attr_list(s@, cur as int).0 =~= Seq::<(AttrKey, Seq<char>)>::empty());
        assert(pairs_view(acc@) + Seq::empty() =~= pairs_view(acc@));
    }
    (acc, cur)
}

} // verus!
