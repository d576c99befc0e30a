//! Primitive value parsers: pure conversions from a raw attribute string to a
//! typed value.  Each is total over its input and mirrors a specification
//! function exactly, so a conversion failure is always the one the
//! specification predicts.

use vstd::prelude::*;
use crate::scan::{
    extract, find_char, is_digit_char, is_multispace_char, spec_find_char,
    spec_skip_multispace, str_eq,
};
use crate::types::{AudioChannelInfo, FrameRate, Resolution};

verus! {

/// Numeric value of a decimal digit character.
pub open spec fn digit_val(c: char) -> int {
    (c as u32) - ('0' as u32)
}

/// Is every character of `s` a decimal digit?
pub open spec fn spec_all_digits(s: Seq<char>) -> bool {
    forall|i: int| 0 <= i < s.len() ==> is_digit_char(#[trigger] s[i])
}

/// Value of `s` read as a decimal numeral.
pub open spec fn spec_digits_val(s: Seq<char>) -> int
    decreases s.len(),
{
    if s.len() == 0 {
        0
    } else {
        spec_digits_val(s.drop_last()) * 10 + digit_val(s.last())
    }
}

pub(crate) proof fn lemma_digits_val_nonneg(s: Seq<char>)
    requires
        spec_all_digits(s),
    ensures
        spec_digits_val(s) >= 0,
    decreases s.len(),
{
    if s.len() > 0 {
        assert(spec_all_digits(s.drop_last()));
        lemma_digits_val_nonneg(s.drop_last());
    }
}

/// Reading more digits can only grow the value.
pub(crate) proof fn lemma_digits_prefix_le(s: Seq<char>, i: int)
    requires
        spec_all_digits(s),
        0 <= i <= s.len(),
    ensures
        spec_digits_val(s.subrange(0, i)) <= spec_digits_val(s),
    decreases s.len() - i,
{
    if i == s.len() {
        assert(s.subrange(0, i) =~= s);
    } else {
        lemma_digits_prefix_le(s, i + 1);
        let shorter = s.subrange(0, i);
        let longer = s.subrange(0, i + 1);
        assert(longer.drop_last() =~= shorter);
        assert(spec_all_digits(shorter));
        lemma_digits_val_nonneg(shorter);
        assert(spec_digits_val(longer) == spec_digits_val(shorter) * 10 + digit_val(longer.last()));
    }
}

/// The value of a nonempty, all-digit numeral that fits the machine word;
/// anything else fails.
pub open spec fn spec_parse_usize(s: Seq<char>) -> Option<usize> {
    if s.len() > 0 && spec_all_digits(s) && spec_digits_val(s) <= usize::MAX as int {
        Some(spec_digits_val(s) as usize)
    } else {
        None
    }
}

/// Executable mirror of [`spec_parse_usize`].
pub fn parse_usize_str(v: &str) -> (r: Option<usize>)
    ensures
        r == spec_parse_usize(v@),
{
    let len = v.unicode_len();
    if len == 0 {
        return None;
    }
    let mut i: usize = 0;
    loop
        invariant
            i <= len,
            forall|j: int| 0 <= j < i ==> is_digit_char(#[trigger] v@[j]),
        decreases len - i,
    {
        if i >= len {
            break ;
        }
        let c = v.get_char(i);
        if !('0' <= c && c <= '9') {
            assert(!spec_all_digits(v@));
            return None;
        }
        i += 1;
    }
    assert(spec_all_digits(v@));
    let mut acc: usize = 0;
    let mut k: usize = 0;
    loop
        invariant
            k <= len,
            acc as int == spec_digits_val(v@.subrange(0, k as int)),
        decreases len - k,
    {
        if k >= len {
            break ;
        }
        let c = v.get_char(k);
        let d: u32 = (c as u32) - ('0' as u32);
        proof {
            assert(v@.subrange(0, k as int + 1).drop_last() =~= v@.subrange(0, k as int));
            assert(v@.subrange(0, k as int + 1).last() == v@[k as int]);
        }
        let next: u128 = (acc as u128) * 10 + (d as u128);
        if next > (usize::MAX as u128) {
            proof {
                lemma_digits_prefix_le(v@, k as int + 1);
            }
            return None;
        }
        acc = next as usize;
        k += 1;
    }
    assert(v@.subrange(0, len as int) =~= v@);
    Some(acc)
}

/// `YES` is true and `NO` is false; nothing else is a boolean.
pub open spec fn spec_parse_bool(s: Seq<char>) -> Option<bool> {
    if s == "YES"@ {
        Some(true)
    } else if s == "NO"@ {
        Some(false)
    } else {
        None
    }
}

/// Executable mirror of [`spec_parse_bool`].
pub fn bool_from_param_str(s: &str) -> (r: Option<bool>)
    ensures
        r == spec_parse_bool(s@),
{
    if str_eq(s, "YES") {
        Some(true)
    } else if str_eq(s, "NO") {
        Some(false)
    } else {
        None
    }
}

/// `CC` means captions are present and `NONE` that there are none; nothing
/// else is a closed-captions flag.
pub open spec fn spec_parse_cc_flag(s: Seq<char>) -> Option<bool> {
    if s == "CC"@ {
        Some(true)
    } else if s == "NONE"@ {
        Some(false)
    } else {
        None
    }
}

/// Executable mirror of [`spec_parse_cc_flag`].
pub fn cc_flag_from_param_str(s: &str) -> (r: Option<bool>)
    ensures
        r == spec_parse_cc_flag(s@),
{
    if str_eq(s, "CC") {
        Some(true)
    } else if str_eq(s, "NONE") {
        Some(false)
    } else {
        None
    }
}

/// The pieces of `s` between occurrences of `sep`, from `pos` on.  Always at
/// least one piece; separators at the edges contribute empty pieces.
pub open spec fn spec_split_from(s: Seq<char>, pos: int, sep: char) -> Seq<Seq<char>>
    decreases s.len() - pos,
{
    if !(0 <= pos <= s.len()) {
        Seq::empty()
    } else {
        match spec_find_char(s, pos, sep) {
            None => seq![s.subrange(pos, s.len() as int)],
            Some(i) => if pos <= i < s.len() {
                seq![s.subrange(pos, i)] + spec_split_from(s, i + 1, sep)
            } else {
                Seq::empty()
            },
        }
    }
}

/// The pieces of the whole of `s` between occurrences of `sep`.
pub open spec fn spec_split(s: Seq<char>, sep: char) -> Seq<Seq<char>> {
    spec_split_from(s, 0, sep)
}

/// View of an executable string list as its character sequences.
pub open spec fn strs_view(v: Seq<String>) -> Seq<Seq<char>> {
    v.map_values(|x: String| x@)
}

/// Executable mirror of [`spec_split`].
pub(crate) fn split_on_char(v: &str, sep: char) -> (r: Vec<String>)
    ensures
        strs_view(r@) == spec_split(v@, sep),
        r@.len() >= 1,
{
    let len = v.unicode_len();
    let mut acc: Vec<String> = Vec::new();
    let mut cur: usize = 0;
    loop
        invariant
            cur <= len,
            spec_split(v@, sep) == strs_view(acc@) + spec_split_from(v@, cur as int, sep),
        decreases len - cur,
    {
        match find_char(v, len, cur, sep) {
            None => {
                let piece = extract(v, len, cur, len);
                proof {
                    assert(spec_split_from(v@, cur as int, sep) =~= seq![piece@]);
                    assert(strs_view(acc@.push(piece)) =~= strs_view(acc@).push(piece@));
                    assert(strs_view(acc@).push(piece@) =~= strs_view(acc@) + seq![piece@]);
                }
                acc.push(piece);
                break ;
            },
            Some(i) => {
                let piece = extract(v, len, cur, i);
                proof {
                    assert(spec_split_from(v@, cur as int, sep) == seq![piece@] + spec_split_from(
                        v@,
                        i + 1,
                        sep,
                    ));
                    assert(strs_view(acc@.push(piece)) =~= strs_view(acc@).push(piece@));
                    assert(strs_view(acc@).push(piece@) + spec_split_from(v@, i + 1, sep)
                        =~= strs_view(acc@) + (seq![piece@] + spec_split_from(v@, i + 1, sep)));
                }
                acc.push(piece);
                cur = i + 1;
            },
        }
    }
    proof {
        assert(strs_view(acc@).len() == acc@.len());
    }
    acc
}

/// Index just past the last character that is not whitespace.
pub open spec fn spec_trim_end_idx(s: Seq<char>) -> int
    decreases s.len(),
{
    if s.len() == 0 {
        0
    } else if is_multispace_char(s.last()) {
        spec_trim_end_idx(s.drop_last())
    } else {
        s.len() as int
    }
}


/// `s` with whitespace removed from both ends.
pub open spec fn spec_trim(s: Seq<char>) -> Seq<char> {
    let t = s.subrange(0, spec_trim_end_idx(s));
    t.subrange(spec_skip_multispace(t, 0), t.len() as int)
}

/// Executable mirror of [`spec_trim`].
pub(crate) fn trim_str(v: &str) -> (r: String)
    ensures
        r@ == spec_trim(v@),
{
    let len = v.unicode_len();
    let mut hi = len;
    proof {
        assert(v@.subrange(0, len as int) =~= v@);
    }
    let mut lo: usize = 0;
    loop
        invariant
            hi <= len,
            spec_trim_end_idx(v@) == spec_trim_end_idx(v@.subrange(0, hi as int)),
        decreases hi,
    {
        if hi == 0 {
            break ;
        }
        let c = v.get_char(hi - 1);
        if !(c == ' ' || c == '\t' || c == '\r' || c == '\n') {
            break ;
        }
        proof {
            assert(v@.subrange(0, hi as int).drop_last() =~= v@.subrange(0, hi as int - 1));
        }
        hi -= 1;
    }
    let ghost t = v@.subrange(0, hi as int);
    assert(spec_trim_end_idx(v@) == hi as int);
    loop
        invariant
            lo <= hi <= len,
            t == v@.subrange(0, hi as int),
            spec_skip_multispace(t, 0) == spec_skip_multispace(t, lo as int),
        decreases hi - lo,
    {
        if lo >= hi {
            break ;
        }
        let c = v.get_char(lo);
        if !(c == ' ' || c == '\t' || c == '\r' || c == '\n') {
            break ;
        }
        lo += 1;
    }
    proof {
        assert(spec_skip_multispace(t, lo as int) == lo as int);
        assert(t.subrange(lo as int, t.len() as int) =~= v@.subrange(lo as int, hi as int));
    }
    extract(v, len, lo, hi)
}

/// Channel info: the count before any `/`, and the coding flag exactly when
/// the second `/`-separated piece is `JOC`.
pub open spec fn spec_parse_channels(v: Seq<char>) -> Option<AudioChannelInfo> {
    let segs = spec_split(v, '/');
    match spec_parse_usize(segs[0]) {
        None => None,
        Some(c) => Some(
            AudioChannelInfo { channels: c, joc: segs.len() > 1 && segs[1] == "JOC"@ },
        ),
    }
}

impl AudioChannelInfo {
    /// Parse a raw `CHANNELS` value such as `2` or `16/JOC`.
    pub fn from_str(v: &str) -> (r: Option<AudioChannelInfo>)
        ensures
            r == spec_parse_channels(v@),
    {
        let segs = split_on_char(v, '/');
        proof {
            assert(strs_view(segs@)[0] == segs@[0]@);
        }
        match parse_usize_str(segs[0].as_str()) {
            None => None,
            Some(c) => {
                let mut joc = false;
                if segs.len() > 1 {
                    proof {
                        assert(strs_view(segs@)[1] == segs@[1]@);
                    }
                    joc = str_eq(segs[1].as_str(), "JOC");
                }
                Some(AudioChannelInfo { channels: c, joc })
            },
        }
    }
}

/// A resolution is exactly two numerals joined by one `x`.
pub open spec fn spec_parse_resolution(v: Seq<char>) -> Option<Resolution> {
    let segs = spec_split(v, 'x');
    if segs.len() == 2 {
        match (spec_parse_usize(segs[0]), spec_parse_usize(segs[1])) {
            (Some(w), Some(h)) => Some(Resolution { width: w, height: h }),
            _ => None,
        }
    } else {
        None
    }
}

impl Resolution {
    /// Parse a raw `RESOLUTION` value such as `960x540`.
    pub fn from_str(v: &str) -> (r: Option<Resolution>)
        ensures
            r == spec_parse_resolution(v@),
    {
        let segs = split_on_char(v, 'x');
        if segs.len() != 2 {
            return None;
        }
        proof {
            assert(strs_view(segs@)[0] == segs@[0]@);
            assert(strs_view(segs@)[1] == segs@[1]@);
        }
        match parse_usize_str(segs[0].as_str()) {
            None => None,
            Some(w) => match parse_usize_str(segs[1].as_str()) {
                None => None,
                Some(h) => Some(Resolution { width: w, height: h }),
            },
        }
    }
}

/// A frame rate is a numeral with at most one `.`-separated fractional part,
/// kept digit for digit.
pub open spec fn spec_parse_frame_rate(v: Seq<char>) -> Option<FrameRate> {
    let segs = spec_split(v, '.');
    if segs.len() == 1 {
        match spec_parse_usize(segs[0]) {
            Some(w) => Some(FrameRate { whole: w, frac: 0, frac_len: 0 }),
            None => None,
        }
    } else if segs.len() == 2 {
        match (spec_parse_usize(segs[0]), spec_parse_usize(segs[1])) {
            (Some(w), Some(f)) => Some(
                FrameRate { whole: w, frac: f, frac_len: segs[1].len() as usize },
            ),
            _ => None,
        }
    } else {
        None
    }
}

impl FrameRate {
    /// Parse a raw `FRAME-RATE` value such as `23.97` or `25`.
    pub fn from_str(v: &str) -> (r: Option<FrameRate>)
        ensures
            r == spec_parse_frame_rate(v@),
    {
        let segs = split_on_char(v, '.');
        proof {
            assert(strs_view(segs@)[0] == segs@[0]@);
        }
        if segs.len() == 1 {
            match parse_usize_str(segs[0].as_str()) {
                Some(w) => Some(FrameRate { whole: w, frac: 0, frac_len: 0 }),
                None => None,
            }
        } else if segs.len() == 2 {
            proof {
                assert(strs_view(segs@)[1] == segs@[1]@);
            }
            match parse_usize_str(segs[0].as_str()) {
                None => None,
                Some(w) => match parse_usize_str(segs[1].as_str()) {
                    None => None,
                    Some(f) => Some(
                        FrameRate { whole: w, frac: f, frac_len: segs[1].as_str().unicode_len() },
                    ),
                },
            }
        } else {
            None
        }
    }
}

/// A codec list: the `,`-separated pieces of the raw value, each trimmed of
/// surrounding whitespace, in order and without deduplication.
pub open spec fn spec_parse_codecs(v: Seq<char>) -> Seq<Seq<char>> {
    spec_split(v, ',').map_values(|x: Seq<char>| spec_trim(x))
}

/// Executable mirror of [`spec_parse_codecs`].
pub fn codecs_from_param_str(v: &str) -> (r: Vec<String>)
    ensures
        strs_view(r@) == spec_parse_codecs(v@),
{
    let segs = split_on_char(v, ',');
    let n = segs.len();
    let mut out: Vec<String> = Vec::new();
    let mut i: usize = 0;
    loop
        invariant
            i <= n,
            n == segs@.len(),
            strs_view(segs@) == spec_split(v@, ','),
            out@.len() == i,
            forall|j: int| 0 <= j < i ==> (#[trigger] out@[j])@ == spec_trim(segs@[j]@),
        decreases n - i,
    {
        if i >= n {
            break ;
        }
        let t = trim_str(segs[i].as_str());
        out.push(t);
        i += 1;
    }
    proof {
        assert(strs_view(out@) =~= spec_parse_codecs(v@)) by {
            assert forall|j: int| 0 <= j < out@.len() implies strs_view(out@)[j]
                == spec_parse_codecs(v@)[j] by {
                assert(strs_view(segs@)[j] == segs@[j]@);
            }
        }
    }
    out
}

} // verus!
