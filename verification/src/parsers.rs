//! The tag dispatcher and playlist assembler.
//!
//! The grammar is stated as specification functions over the input's
//! character sequence: one recognizer per declaration kind, tried in a fixed
//! priority order with the generic comment last (every declaration literal
//! itself begins with `#`), and a fold that applies each recognized element
//! to the growing playlist.  The executable parser returns exactly what
//! [`spec_parse_playlist`] says: the assembled playlist when the whole input
//! is consumed, and the first failure in document order otherwise.

use vstd::prelude::*;
use crate::attrs::{pairs_view, parse_attr_list, spec_attr_list, AttrKey};
use crate::builders::{
    audio_record_from_pairs, iframe_record_from_pairs, spec_build_audio, spec_build_iframe,
    spec_build_stream, stream_record_from_pairs,
};
use crate::errors::{ErrView, HlsError};
use crate::scan::{
    extract, lemma_scan_digits_all, match_prefix, scan_digits, scan_line, skip_multispace,
    skip_spaces, spec_has_prefix, spec_scan_digits, spec_scan_line, spec_skip_multispace,
    spec_skip_spaces,
};
use crate::primitives::{parse_usize_str, spec_all_digits, spec_digits_val};
use crate::types::{
    spec_playlist_init, AudioStreams, IframeStreams, PlaylistView, Streams,
};
use crate::HlsPlaylist;

verus! {

/// One recognized playlist element: the raw material of a declaration, or a
/// marker line that contributes no data.
pub ghost enum ElemView {
    NoData,
    AudioDecl { pairs: Seq<(AttrKey, Seq<char>)> },
    StreamDecl { pairs: Seq<(AttrKey, Seq<char>)>, uri: Seq<char> },
    IframeDecl { pairs: Seq<(AttrKey, Seq<char>)> },
    VersionDecl { version: usize },
}

/// A variant-stream declaration: its literal, blanks, a nonempty attribute
/// list, then a line break and the whole next line as the URI, then
/// whitespace up to the next declaration.
pub open spec fn spec_stream_elem(s: Seq<char>, pos: int) -> Option<(ElemView, int)> {
    if !spec_has_prefix(s, pos, "#EXT-X-STREAM-INF:"@) {
        None
    } else {
        let p1 = pos + "#EXT-X-STREAM-INF:"@.len();
        let p2 = spec_skip_spaces(s, p1);
        let al = spec_attr_list(s, p2);
        if al.0.len() == 0 {
            None
        } else {
            let p4 = spec_skip_spaces(s, al.1);
            if p4 < s.len() && s[p4] == '\n' {
                let ue = spec_scan_line(s, p4 + 1);
                let p5 = spec_skip_multispace(s, ue);
                Some((ElemView::StreamDecl { pairs: al.0, uri: s.subrange(p4 + 1, ue) }, p5))
            } else {
                None
            }
        }
    }
}

/// An iframe-stream declaration: its literal, blanks, a nonempty attribute
/// list, then whitespace up to the next declaration.
pub open spec fn spec_iframe_elem(s: Seq<char>, pos: int) -> Option<(ElemView, int)> {
    if !spec_has_prefix(s, pos, "#EXT-X-I-FRAME-STREAM-INF:"@) {
        None
    } else {
        let p1 = pos + "#EXT-X-I-FRAME-STREAM-INF:"@.len();
        let p2 = spec_skip_spaces(s, p1);
        let al = spec_attr_list(s, p2);
        if al.0.len() == 0 {
            None
        } else {
            let p4 = spec_skip_multispace(s, al.1);
            Some((ElemView::IframeDecl { pairs: al.0 }, p4))
        }
    }
}

/// An audio declaration: the media literal, the fixed `TYPE=AUDIO`
/// discriminator and its comma, a nonempty attribute list, then whitespace.
pub open spec fn spec_audio_elem(s: Seq<char>, pos: int) -> Option<(ElemView, int)> {
    if !spec_has_prefix(s, pos, "#EXT-X-MEDIA:"@) {
        None
    } else {
        let p1 = pos + "#EXT-X-MEDIA:"@.len();
        let p2 = spec_skip_spaces(s, p1);
        if !spec_has_prefix(s, p2, "TYPE=AUDIO"@) {
            None
        } else {
            let p3 = p2 + "TYPE=AUDIO"@.len();
            let p4 = spec_skip_spaces(s, p3);
            if p4 < s.len() && s[p4] == ',' {
                let al = spec_attr_list(s, p4 + 1);
                if al.0.len() == 0 {
                    None
                } else {
                    let p5 = spec_skip_multispace(s, al.1);
                    Some((ElemView::AudioDecl { pairs: al.0 }, p5))
                }
            } else {
                None
            }
        }
    }
}

/// A version declaration: its literal and a decimal numeral that fits the
/// machine word, then whitespace.
pub open spec fn spec_version_elem(s: Seq<char>, pos: int) -> Option<(ElemView, int)> {
    if !spec_has_prefix(s, pos, "#EXT-X-VERSION:"@) {
        None
    } else {
        let p1 = pos + "#EXT-X-VERSION:"@.len();
        let d = spec_scan_digits(s, p1);
        if d == p1 {
            None
        } else {
            let val = spec_digits_val(s.subrange(p1, d));
            if val > usize::MAX as int {
                None
            } else {
                let p2 = spec_skip_multispace(s, d);
                Some((ElemView::VersionDecl { version: val as usize }, p2))
            }
        }
    }
}

/// The independent-segments marker: its literal, then whitespace; no data.
pub open spec fn spec_indep_elem(s: Seq<char>, pos: int) -> Option<(ElemView, int)> {
    if !spec_has_prefix(s, pos, "#EXT-X-INDEPENDENT-SEGMENTS"@) {
        None
    } else {
        let p1 = pos + "#EXT-X-INDEPENDENT-SEGMENTS"@.len();
        Some((ElemView::NoData, spec_skip_multispace(s, p1)))
    }
}

/// The playlist header: its literal, then whitespace; no data.
pub open spec fn spec_header_elem(s: Seq<char>, pos: int) -> Option<(ElemView, int)> {
    if !spec_has_prefix(s, pos, "#EXTM3U"@) {
        None
    } else {
        let p1 = pos + "#EXTM3U"@.len();
        Some((ElemView::NoData, spec_skip_multispace(s, p1)))
    }
}

/// A generic comment: `#`, the rest of the line, and its terminating
/// newline; no data.  Tried only after every other recognizer.
pub open spec fn spec_comment_elem(s: Seq<char>, pos: int) -> Option<(ElemView, int)> {
    if 0 <= pos < s.len() && s[pos] == '#' {
        let le = spec_scan_line(s, pos + 1);
        if le < s.len() && s[le] == '\n' {
            Some((ElemView::NoData, le + 1))
        } else {
            None
        }
    } else {
        None
    }
}

/// The element at `pos`: the recognizers tried in priority order.  Each
/// declaration's literal distinguishes it from all the others, so the order
/// matters only against the generic comment, which must come last.
pub open spec fn spec_element(s: Seq<char>, pos: int) -> Option<(ElemView, int)> {
    match spec_stream_elem(s, pos) {
        Some(r) => Some(r),
        None => match spec_iframe_elem(s, pos) {
            Some(r) => Some(r),
            None => match spec_audio_elem(s, pos) {
                Some(r) => Some(r),
                None => match spec_version_elem(s, pos) {
                    Some(r) => Some(r),
                    None => match spec_indep_elem(s, pos) {
                        Some(r) => Some(r),
                        None => match spec_header_elem(s, pos) {
                            Some(r) => Some(r),
                            None => spec_comment_elem(s, pos),
                        },
                    },
                },
            },
        },
    }
}

/// Fold one element into the playlist built so far: a record is finalized
/// and appended in declaration order, a version overwrites the scalar, and a
/// marker contributes nothing.  A builder failure is the parse's failure.
pub open spec fn spec_apply_elem(acc: PlaylistView, e: ElemView) -> Result<PlaylistView, ErrView> {
    match e {
        ElemView::NoData => Ok(acc),
        ElemView::AudioDecl { pairs } => match spec_build_audio(pairs) {
            Ok(a) => Ok(PlaylistView { audios: acc.audios.push(a), ..acc }),
            Err(er) => Err(er),
        },
        ElemView::StreamDecl { pairs, uri } => match spec_build_stream(pairs, uri) {
            Ok(v) => Ok(PlaylistView { streams: acc.streams.push(v), ..acc }),
            Err(er) => Err(er),
        },
        ElemView::IframeDecl { pairs } => match spec_build_iframe(pairs) {
            Ok(v) => Ok(PlaylistView { iframes: acc.iframes.push(v), ..acc }),
            Err(er) => Err(er),
        },
        ElemView::VersionDecl { version } => Ok(PlaylistView { version, ..acc }),
    }
}

/// Parse everything from `pos` on into `acc`: repeat until the input is
/// fully consumed, and fail with the offset of the first position no
/// recognizer matches, or with the first builder failure.
pub open spec fn spec_parse_from(s: Seq<char>, pos: int, acc: PlaylistView) -> Result<
    PlaylistView,
    ErrView,
>
    decreases s.len() - pos,
{
    if pos == s.len() {
        Ok(acc)
    } else {
        match spec_element(s, pos) {
            None => Err(ErrView::UnparsableInput { offset: pos }),
            Some(t) => if pos < t.1 <= s.len() {
                match spec_apply_elem(acc, t.0) {
                    Ok(acc2) => spec_parse_from(s, t.1, acc2),
                    Err(e) => Err(e),
                }
            } else {
                Err(ErrView::UnparsableInput { offset: pos })
            },
        }
    }
}

/// What parsing a whole document means: the fold from the empty playlist at
/// the start of the input.
pub open spec fn spec_parse_playlist(s: Seq<char>) -> Result<PlaylistView, ErrView> {
    spec_parse_from(s, 0, spec_playlist_init())
}

/// Executable mirror of [`spec_stream_elem`].
fn try_stream(s: &str, len: usize, pos: usize) -> (r: Option<(Vec<(AttrKey, String)>, String, usize)>)
    requires
        len == s@.len(),
        pos <= len,
    ensures
        match r {
            Some(t) => {
                &&& spec_stream_elem(s@, pos as int) == Some(
                    (ElemView::StreamDecl { pairs: pairs_view(t.0@), uri: t.1@ }, t.2 as int),
                )
                &&& pos < t.2 <= len
            },
            None => spec_stream_elem(s@, pos as int) is None,
        },
{
    if !match_prefix(s, len, pos, "#EXT-X-STREAM-INF:") {
        return None;
    }
    let p1 = pos + "#EXT-X-STREAM-INF:".unicode_len();
    let p2 = skip_spaces(s, len, p1);
    let (pairs, a_end) = parse_attr_list(s, len, p2);
    if pairs.len() == 0 {
        proof {
            assert(pairs_view(pairs@).len() == 0);
        }
        return None;
    }
    proof {
        assert(pairs_view(pairs@).len() == pairs@.len());
    }
    let p4 = skip_spaces(s, len, a_end);
    if !(p4 < len && s.get_char(p4) == '\n') {
        return None;
    }
    let ue = scan_line(s, len, p4 + 1);
    let uri = extract(s, len, p4 + 1, ue);
    let p5 = skip_multispace(s, len, ue);
    Some((pairs, uri, p5))
}

/// Executable mirror of [`spec_iframe_elem`].
fn try_iframe(s: &str, len: usize, pos: usize) -> (r: Option<(Vec<(AttrKey, String)>, usize)>)
    requires
        len == s@.len(),
        pos <= len,
    ensures
        match r {
            Some(t) => {
                &&& spec_iframe_elem(s@, pos as int) == Some(
                    (ElemView::IframeDecl { pairs: pairs_view(t.0@) }, t.1 as int),
                )
                &&& pos < t.1 <= len
            },
            None => spec_iframe_elem(s@, pos as int) is None,
        },
{
    if !match_prefix(s, len, pos, "#EXT-X-I-FRAME-STREAM-INF:") {
        return None;
    }
    let p1 = pos + "#EXT-X-I-FRAME-STREAM-INF:".unicode_len();
    let p2 = skip_spaces(s, len, p1);
    let (pairs, a_end) = parse_attr_list(s, len, p2);
    if pairs.len() == 0 {
        proof {
            assert(pairs_view(pairs@).len() == 0);
        }
        return None;
    }
    proof {
        assert(pairs_view(pairs@).len() == pairs@.len());
        reveal_strlit("#EXT-X-I-FRAME-STREAM-INF:");
    }
    let p4 = skip_multispace(s, len, a_end);
    Some((pairs, p4))
}

/// Executable mirror of [`spec_audio_elem`].
fn try_audio(s: &str, len: usize, pos: usize) -> (r: Option<(Vec<(AttrKey, String)>, usize)>)
    requires
        len == s@.len(),
        pos <= len,
    ensures
        match r {
            Some(t) => {
                &&& spec_audio_elem(s@, pos as int) == Some(
                    (ElemView::AudioDecl { pairs: pairs_view(t.0@) }, t.1 as int),
                )
                &&& pos < t.1 <= len
            },
            None => spec_audio_elem(s@, pos as int) is None,
        },
{
    if !match_prefix(s, len, pos, "#EXT-X-MEDIA:") {
        return None;
    }
    let p1 = pos + "#EXT-X-MEDIA:".unicode_len();
    let p2 = skip_spaces(s, len, p1);
    if !match_prefix(s, len, p2, "TYPE=AUDIO") {
        return None;
    }
    let p3 = p2 + "TYPE=AUDIO".unicode_len();
    let p4 = skip_spaces(s, len, p3);
    if !(p4 < len && s.get_char(p4) == ',') {
        return None;
    }
    let (pairs, a_end) = parse_attr_list(s, len, p4 + 1);
    if pairs.len() == 0 {
        proof {
            assert(pairs_view(pairs@).len() == 0);
        }
        return None;
    }
    proof {
        assert(pairs_view(pairs@).len() == pairs@.len());
    }
    let p5 = skip_multispace(s, len, a_end);
    Some((pairs, p5))
}

/// Executable mirror of [`spec_version_elem`].
fn try_version(s: &str, len: usize, pos: usize) -> (r: Option<(usize, usize)>)
    requires
        len == s@.len(),
        pos <= len,
    ensures
        match r {
            Some(t) => {
                &&& spec_version_elem(s@, pos as int) == Some(
                    (ElemView::VersionDecl { version: t.0 }, t.1 as int),
                )
                &&& pos < t.1 <= len
            },
            None => spec_version_elem(s@, pos as int) is None,
        },
{
    if !match_prefix(s, len, pos, "#EXT-X-VERSION:") {
        return None;
    }
    let p1 = pos + "#EXT-X-VERSION:".unicode_len();
    let d = scan_digits(s, len, p1);
    if d == p1 {
        return None;
    }
    let digits = extract(s, len, p1, d);
    proof {
        lemma_scan_digits_all(s@, p1 as int);
        assert forall|j: int| 0 <= j < digits@.len() implies crate::scan::is_digit_char(
            #[trigger] digits@[j],
        ) by {
            assert(digits@[j] == s@[p1 + j]);
        }
        assert(spec_all_digits(digits@));
    }
    match parse_usize_str(digits.as_str()) {
        None => {
            proof {
                assert(spec_digits_val(digits@) > usize::MAX as int);
            }
            None
        },
        Some(v) => {
            let p2 = skip_multispace(s, len, d);
            Some((v, p2))
        },
    }
}

/// Executable mirror of [`spec_indep_elem`].
fn try_indep(s: &str, len: usize, pos: usize) -> (r: Option<usize>)
    requires
        len == s@.len(),
        pos <= len,
    ensures
        match r {
            Some(n) => spec_indep_elem(s@, pos as int) == Some((ElemView::NoData, n as int)) && pos
                < n <= len,
            None => spec_indep_elem(s@, pos as int) is None,
        },
{
    if !match_prefix(s, len, pos, "#EXT-X-INDEPENDENT-SEGMENTS") {
        return None;
    }
    proof {
        reveal_strlit("#EXT-X-INDEPENDENT-SEGMENTS");
    }
    let p1 = pos + "#EXT-X-INDEPENDENT-SEGMENTS".unicode_len();
    Some(skip_multispace(s, len, p1))
}

/// Executable mirror of [`spec_header_elem`].
fn try_header(s: &str, len: usize, pos: usize) -> (r: Option<usize>)
    requires
        len == s@.len(),
        pos <= len,
    ensures
        match r {
            Some(n) => spec_header_elem(s@, pos as int) == Some((ElemView::NoData, n as int)) && pos
                < n <= len,
            None => spec_header_elem(s@, pos as int) is None,
        },
{
    if !match_prefix(s, len, pos, "#EXTM3U") {
        return None;
    }
    proof {
        reveal_strlit("#EXTM3U");
    }
    let p1 = pos + "#EXTM3U".unicode_len();
    Some(skip_multispace(s, len, p1))
}

/// Executable mirror of [`spec_comment_elem`].
fn try_comment(s: &str, len: usize, pos: usize) -> (r: Option<usize>)
    requires
        len == s@.len(),
        pos <= len,
    ensures
        match r {
            Some(n) => spec_comment_elem(s@, pos as int) == Some((ElemView::NoData, n as int))
                && pos < n <= len,
            None => spec_comment_elem(s@, pos as int) is None,
        },
{
    if !(pos < len && s.get_char(pos) == '#') {
        return None;
    }
    let le = scan_line(s, len, pos + 1);
    if le < len && s.get_char(le) == '\n' {
        Some(le + 1)
    } else {
        None
    }
}

/// Parse a whole document.  On success the returned playlist is exactly the
/// specification's fold of every declaration in source order; on failure the
/// error is exactly the specification's first failure, and no playlist is
/// returned.
pub fn parse_hls_playlist(data: &str) -> (r: Result<HlsPlaylist, HlsError>)
    ensures
        match r {
            Ok(p) => spec_parse_playlist(data@) == Ok::<_, ErrView>(p@),
            Err(e) => spec_parse_playlist(data@) == Err::<PlaylistView, _>(e@),
        },
{
    let len = data.unicode_len();
    let mut playlist = HlsPlaylist {
        audio_streams: AudioStreams { inner: Vec::new() },
        streams: Streams { inner: Vec::new() },
        iframe_streams: IframeStreams { inner: Vec::new() },
        version: 0,
    };
    proof {
        assert(playlist@.audios =~= spec_playlist_init().audios);
        assert(playlist@.streams =~= spec_playlist_init().streams);
        assert(playlist@.iframes =~= spec_playlist_init().iframes);
        assert(playlist@ == spec_playlist_init());
    }
    let mut pos: usize = 0;
    loop
        invariant
            pos <= len,
            spec_parse_from(data@, pos as int, playlist@) == spec_parse_playlist(data@),
        decreases len - pos,
    {
        if pos >= len {
            break ;
        }
        match try_stream(data, len, pos) {
            Some(t) => {
                let (pairs, uri, next) = t;
                let ghost acc = playlist@;
                match stream_record_from_pairs(&pairs, uri) {
                    Ok(rec) => {
                        playlist.streams.inner.push(rec);
                        proof {
                            assert(playlist@.streams =~= acc.streams.push(rec@));
                            assert(playlist@.audios =~= acc.audios);
                            assert(playlist@.iframes =~= acc.iframes);
                            assert(playlist@ == PlaylistView {
                                streams: acc.streams.push(rec@),
                                ..acc
                            });
                        }
                        pos = next;
                        continue ;
                    },
                    Err(e) => {
                        return Err(e);
                    },
                }
            },
            None => {},
        }
        match try_iframe(data, len, pos) {
            Some(t) => {
                let (pairs, next) = t;
                let ghost acc = playlist@;
                match iframe_record_from_pairs(&pairs) {
                    Ok(rec) => {
                        playlist.iframe_streams.inner.push(rec);
                        proof {
                            assert(playlist@.iframes =~= acc.iframes.push(rec@));
                            assert(playlist@.audios =~= acc.audios);
                            assert(playlist@.streams =~= acc.streams);
                            assert(playlist@ == PlaylistView {
                                iframes: acc.iframes.push(rec@),
                                ..acc
                            });
                        }
                        pos = next;
                        continue ;
                    },
                    Err(e) => {
                        return Err(e);
                    },
                }
            },
            None => {},
        }
        match try_audio(data, len, pos) {
            Some(t) => {
                let (pairs, next) = t;
                let ghost acc = playlist@;
                match audio_record_from_pairs(&pairs) {
                    Ok(rec) => {
                        playlist.audio_streams.inner.push(rec);
                        proof {
                            assert(playlist@.audios =~= acc.audios.push(rec@));
                            assert(playlist@.streams =~= acc.streams);
                            assert(playlist@.iframes =~= acc.iframes);
                            assert(playlist@ == PlaylistView {
                                audios: acc.audios.push(rec@),
                                ..acc
                            });
                        }
                        pos = next;
                        continue ;
                    },
                    Err(e) => {
                        return Err(e);
                    },
                }
            },
            None => {},
        }
        match try_version(data, len, pos) {
            Some(t) => {
                let ghost acc = playlist@;
                playlist.version = t.0;
                proof {
                    assert(playlist@.audios =~= acc.audios);
                    assert(playlist@.streams =~= acc.streams);
                    assert(playlist@.iframes =~= acc.iframes);
                    assert(playlist@ == PlaylistView { version: t.0, ..acc });
                }
                pos = t.1;
                continue ;
            },
            None => {},
        }
        match try_indep(data, len, pos) {
            Some(n) => {
                pos = n;
                continue ;
            },
            None => {},
        }
        match try_header(data, len, pos) {
            Some(n) => {
                pos = n;
                continue ;
            },
            None => {},
        }
        match try_comment(data, len, pos) {
            Some(n) => {
                pos = n;
                continue ;
            },
            None => {},
        }
        return Err(HlsError::UnparsableInput { offset: pos });
    }
    Ok(playlist)
}

} // verus!
