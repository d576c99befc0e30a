//! Laws of the parser, stated and proved over the specification grammar.
//!
//! The first group relates a successfully parsed playlist to the sequence of
//! elements the grammar recognizes in the document: each record sequence is
//! exactly the records of the corresponding declarations, in source order.
//! The second group shows that the order of the attributes inside one
//! declaration carries no meaning: any permutation of a declaration's
//! distinct attributes builds the identical record.

use vstd::prelude::*;
use crate::attrs::AttrKey;
use crate::builders::{
    spec_audio_builder_init, spec_audio_incorporate_all, spec_build_audio, spec_build_iframe,
    spec_build_stream, spec_iframe_builder_init, spec_iframe_incorporate_all,
    spec_stream_builder_init, spec_stream_incorporate_all, AudioBuilderView, IframeBuilderView,
    StreamBuilderView, StreamCommonBuilderView,
};
use crate::primitives::{
    spec_parse_bool, spec_parse_channels, spec_parse_codecs, spec_parse_frame_rate,
    spec_parse_resolution, spec_parse_usize,
};
use crate::types::{AudioChannelInfo, FrameRate, Resolution};
use crate::parsers::{
    spec_apply_elem, spec_element, spec_parse_from, spec_parse_playlist, ElemView,
};
use crate::types::{spec_playlist_init, AudioView, IframeView, PlaylistView, StreamView};

verus! {

/// The sequence of elements the grammar recognizes from `pos` to the end of
/// the input, or the offset where no recognizer matches.
pub open spec fn spec_elements(s: Seq<char>, pos: int) -> Result<Seq<ElemView>, int>
    decreases s.len() - pos,
{
    if pos == s.len() {
        Ok(Seq::empty())
    } else {
        match spec_element(s, pos) {
            None => Err(pos),
            Some(t) => if pos < t.1 <= s.len() {
                match spec_elements(s, t.1) {
                    Err(o) => Err(o),
                    Ok(rest) => Ok(Seq::empty().push(t.0) + rest),
                }
            } else {
                Err(pos)
            },
        }
    }
}

/// The elements of the whole document, where the grammar recognizes it.
pub open spec fn spec_document_elements(s: Seq<char>) -> Seq<ElemView> {
    match spec_elements(s, 0) {
        Ok(es) => es,
        Err(_) => Seq::empty(),
    }
}

/// The audio records of an element sequence, in order, skipping any
/// declaration that does not build.
pub open spec fn audio_records_of(elems: Seq<ElemView>) -> Seq<AudioView>
    decreases elems.len(),
{
    if elems.len() == 0 {
        Seq::empty()
    } else {
        let head: Seq<AudioView> = match elems[0] {
            ElemView::AudioDecl { pairs } => match spec_build_audio(pairs) {
                Ok(a) => seq![a],
                Err(_) => Seq::empty(),
            },
            _ => Seq::empty(),
        };
        head + audio_records_of(elems.drop_first())
    }
}

/// The variant-stream records of an element sequence, in order.
pub open spec fn stream_records_of(elems: Seq<ElemView>) -> Seq<StreamView>
    decreases elems.len(),
{
    if elems.len() == 0 {
        Seq::empty()
    } else {
        let head: Seq<StreamView> = match elems[0] {
            ElemView::StreamDecl { pairs, uri } => match spec_build_stream(pairs, uri) {
                Ok(v) => seq![v],
                Err(_) => Seq::empty(),
            },
            _ => Seq::empty(),
        };
        head + stream_records_of(elems.drop_first())
    }
}

/// The iframe records of an element sequence, in order.
pub open spec fn iframe_records_of(elems: Seq<ElemView>) -> Seq<IframeView>
    decreases elems.len(),
{
    if elems.len() == 0 {
        Seq::empty()
    } else {
        let head: Seq<IframeView> = match elems[0] {
            ElemView::IframeDecl { pairs } => match spec_build_iframe(pairs) {
                Ok(v) => seq![v],
                Err(_) => Seq::empty(),
            },
            _ => Seq::empty(),
        };
        head + iframe_records_of(elems.drop_first())
    }
}

/// How many audio declarations an element sequence holds.
pub open spec fn count_audio_decls(elems: Seq<ElemView>) -> int
    decreases elems.len(),
{
    if elems.len() == 0 {
        0
    } else {
        (if elems[0] is AudioDecl {
            1int
        } else {
            0int
        }) + count_audio_decls(elems.drop_first())
    }
}

/// How many variant-stream declarations an element sequence holds.
pub open spec fn count_stream_decls(elems: Seq<ElemView>) -> int
    decreases elems.len(),
{
    if elems.len() == 0 {
        0
    } else {
        (if elems[0] is StreamDecl {
            1int
        } else {
            0int
        }) + count_stream_decls(elems.drop_first())
    }
}

/// How many iframe declarations an element sequence holds.
pub open spec fn count_iframe_decls(elems: Seq<ElemView>) -> int
    decreases elems.len(),
{
    if elems.len() == 0 {
        0
    } else {
        (if elems[0] is IframeDecl {
            1int
        } else {
            0int
        }) + count_iframe_decls(elems.drop_first())
    }
}

proof fn lemma_parse_from_records(s: Seq<char>, pos: int, acc: PlaylistView)
    requires
        0 <= pos <= s.len(),
    ensures
        spec_parse_from(s, pos, acc) matches Ok(p) ==> ({
            &&& spec_elements(s, pos) is Ok
            &&& spec_elements(s, pos) matches Ok(es) ==> {
                &&& p.audios == acc.audios + audio_records_of(es)
                &&& p.streams == acc.streams + stream_records_of(es)
                &&& p.iframes == acc.iframes + iframe_records_of(es)
                &&& p.audios.len() == acc.audios.len() + count_audio_decls(es)
                &&& p.streams.len() == acc.streams.len() + count_stream_decls(es)
                &&& p.iframes.len() == acc.iframes.len() + count_iframe_decls(es)
            }
        }),
    decreases s.len() - pos,
{
    if spec_parse_from(s, pos, acc) matches Ok(p) {
        if pos == s.len() {
            assert(acc.audios + audio_records_of(Seq::empty()) =~= acc.audios);
            assert(acc.streams + stream_records_of(Seq::empty()) =~= acc.streams);
            assert(acc.iframes + iframe_records_of(Seq::empty()) =~= acc.iframes);
        } else {
            let t = spec_element(s, pos)->Some_0;
            let e = t.0;
            let next = t.1;
            let acc2 = spec_apply_elem(acc, e)->Ok_0;
            lemma_parse_from_records(s, next, acc2);
            let rest = spec_elements(s, next)->Ok_0;
            let es = Seq::empty().push(e) + rest;
            assert(spec_elements(s, pos) == Ok::<_, int>(es));
            assert(es[0] == e);
            assert(es.drop_first() =~= rest);
            match e {
                ElemView::NoData => {
                    assert(audio_records_of(es) =~= audio_records_of(rest));
                    assert(stream_records_of(es) =~= stream_records_of(rest));
                    assert(iframe_records_of(es) =~= iframe_records_of(rest));
                },
                ElemView::AudioDecl { pairs } => {
                    let a = spec_build_audio(pairs)->Ok_0;
                    assert(acc2.audios == acc.audios.push(a));
                    assert(audio_records_of(es) =~= seq![a] + audio_records_of(rest));
                    assert(acc.audios + (seq![a] + audio_records_of(rest)) =~= acc.audios.push(a)
                        + audio_records_of(rest));
                    assert(stream_records_of(es) =~= stream_records_of(rest));
                    assert(iframe_records_of(es) =~= iframe_records_of(rest));
                },
                ElemView::StreamDecl { pairs, uri } => {
                    let v = spec_build_stream(pairs, uri)->Ok_0;
                    assert(acc2.streams == acc.streams.push(v));
                    assert(stream_records_of(es) =~= seq![v] + stream_records_of(rest));
                    assert(acc.streams + (seq![v] + stream_records_of(rest)) =~= acc.streams.push(v)
                        + stream_records_of(rest));
                    assert(audio_records_of(es) =~= audio_records_of(rest));
                    assert(iframe_records_of(es) =~= iframe_records_of(rest));
                },
                ElemView::IframeDecl { pairs } => {
                    let v = spec_build_iframe(pairs)->Ok_0;
                    assert(acc2.iframes == acc.iframes.push(v));
                    assert(iframe_records_of(es) =~= seq![v] + iframe_records_of(rest));
                    assert(acc.iframes + (seq![v] + iframe_records_of(rest)) =~= acc.iframes.push(v)
                        + iframe_records_of(rest));
                    assert(audio_records_of(es) =~= audio_records_of(rest));
                    assert(stream_records_of(es) =~= stream_records_of(rest));
                },
                ElemView::VersionDecl { version } => {
                    assert(audio_records_of(es) =~= audio_records_of(rest));
                    assert(stream_records_of(es) =~= stream_records_of(rest));
                    assert(iframe_records_of(es) =~= iframe_records_of(rest));
                },
            }
        }
    }
}

/// For every document the parser accepts, each record sequence of the
/// playlist holds exactly the records of the corresponding declarations
/// recognized in the source text: the counts are equal, and the relative
/// order within each sequence is the source order.
pub proof fn lemma_parse_counts_and_order(s: Seq<char>)
    ensures
        spec_parse_playlist(s) matches Ok(p) ==> ({
            &&& spec_elements(s, 0) is Ok
            &&& p.audios == audio_records_of(spec_document_elements(s))
            &&& p.streams == stream_records_of(spec_document_elements(s))
            &&& p.iframes == iframe_records_of(spec_document_elements(s))
            &&& p.audios.len() == count_audio_decls(spec_document_elements(s))
            &&& p.streams.len() == count_stream_decls(spec_document_elements(s))
            &&& p.iframes.len() == count_iframe_decls(spec_document_elements(s))
        }),
{
    lemma_parse_from_records(s, 0, spec_playlist_init());
    if spec_parse_playlist(s) matches Ok(p) {
        let es = spec_document_elements(s);
        assert(spec_playlist_init().audios + audio_records_of(es) =~= audio_records_of(es));
        assert(spec_playlist_init().streams + stream_records_of(es) =~= stream_records_of(es));
        assert(spec_playlist_init().iframes + iframe_records_of(es) =~= iframe_records_of(es));
    }
}


// ---------------------------------------------------------------------------
// Attribute order carries no meaning
// ---------------------------------------------------------------------------
/// No key occurs twice in the pair list.
pub open spec fn no_dup_keys(pairs: Seq<(AttrKey, Seq<char>)>) -> bool {
    forall|i: int, j: int|
        0 <= i < j < pairs.len() ==> (#[trigger] pairs[i]).0 != (#[trigger] pairs[j]).0
}

/// The value of the last pair carrying key `k`, if any.
pub open spec fn lookup_key(pairs: Seq<(AttrKey, Seq<char>)>, k: AttrKey) -> Option<Seq<char>>
    decreases pairs.len(),
{
    if pairs.len() == 0 {
        None
    } else {
        match lookup_key(pairs.drop_first(), k) {
            Some(v) => Some(v),
            None => if pairs[0].0 == k {
                Some(pairs[0].1)
            } else {
                None
            },
        }
    }
}

spec fn upd_raw(l: Option<Seq<char>>, prev: Option<Seq<char>>) -> Option<Seq<char>> {
    match l {
        Some(v) => Some(v),
        None => prev,
    }
}

spec fn upd_bool(l: Option<Seq<char>>, prev: Option<bool>) -> Option<bool> {
    match l {
        Some(v) => Some(spec_parse_bool(v)->Some_0),
        None => prev,
    }
}

spec fn upd_channels(l: Option<Seq<char>>, prev: Option<AudioChannelInfo>) -> Option<
    AudioChannelInfo,
> {
    match l {
        Some(v) => Some(spec_parse_channels(v)->Some_0),
        None => prev,
    }
}

spec fn upd_usize(l: Option<Seq<char>>, prev: Option<usize>) -> Option<usize> {
    match l {
        Some(v) => Some(spec_parse_usize(v)->Some_0),
        None => prev,
    }
}

spec fn upd_resolution(l: Option<Seq<char>>, prev: Option<Resolution>) -> Option<Resolution> {
    match l {
        Some(v) => Some(spec_parse_resolution(v)->Some_0),
        None => prev,
    }
}

spec fn upd_frame_rate(l: Option<Seq<char>>, prev: Option<FrameRate>) -> Option<FrameRate> {
    match l {
        Some(v) => Some(spec_parse_frame_rate(v)->Some_0),
        None => prev,
    }
}

spec fn upd_codecs(l: Option<Seq<char>>, prev: Option<Seq<Seq<char>>>) -> Option<Seq<Seq<char>>> {
    match l {
        Some(v) => Some(spec_parse_codecs(v)),
        None => prev,
    }
}

/// Is this pair one the audio builder accepts, with a convertible value?
pub open spec fn audio_pair_ok(p: (AttrKey, Seq<char>)) -> bool {
    match p.0 {
        AttrKey::GroupId => true,
        AttrKey::Name => true,
        AttrKey::Language => true,
        AttrKey::Default => spec_parse_bool(p.1) is Some,
        AttrKey::Autoselect => spec_parse_bool(p.1) is Some,
        AttrKey::Channels => spec_parse_channels(p.1) is Some,
        AttrKey::Uri => true,
        _ => false,
    }
}

/// Is this pair one the variant-stream builder accepts, with a convertible
/// value?
pub open spec fn stream_pair_ok(p: (AttrKey, Seq<char>)) -> bool {
    match p.0 {
        AttrKey::Bandwidth => spec_parse_usize(p.1) is Some,
        AttrKey::Codecs => true,
        AttrKey::Resolution => spec_parse_resolution(p.1) is Some,
        AttrKey::VideoRange => true,
        AttrKey::Uri => true,
        AttrKey::AverageBandwidth => spec_parse_usize(p.1) is Some,
        AttrKey::FrameRate => spec_parse_frame_rate(p.1) is Some,
        AttrKey::Audio => true,
        AttrKey::ClosedCaptions => true,
        _ => false,
    }
}

/// Is this pair one the iframe builder accepts, with a convertible value?
pub open spec fn iframe_pair_ok(p: (AttrKey, Seq<char>)) -> bool {
    match p.0 {
        AttrKey::Bandwidth => spec_parse_usize(p.1) is Some,
        AttrKey::Codecs => true,
        AttrKey::Resolution => spec_parse_resolution(p.1) is Some,
        AttrKey::VideoRange => true,
        AttrKey::Uri => true,
        _ => false,
    }
}

pub open spec fn all_audio_pairs_ok(pairs: Seq<(AttrKey, Seq<char>)>) -> bool {
    forall|i: int| 0 <= i < pairs.len() ==> audio_pair_ok(#[trigger] pairs[i])
}

pub open spec fn all_stream_pairs_ok(pairs: Seq<(AttrKey, Seq<char>)>) -> bool {
    forall|i: int| 0 <= i < pairs.len() ==> stream_pair_ok(#[trigger] pairs[i])
}

pub open spec fn all_iframe_pairs_ok(pairs: Seq<(AttrKey, Seq<char>)>) -> bool {
    forall|i: int| 0 <= i < pairs.len() ==> iframe_pair_ok(#[trigger] pairs[i])
}

/// The audio fold succeeds exactly when every pair is acceptable, and the
/// final state of each slot is determined by the last value for its key.
proof fn lemma_audio_fold(b: AudioBuilderView, pairs: Seq<(AttrKey, Seq<char>)>)
    ensures
        (spec_audio_incorporate_all(b, pairs) is Ok) == all_audio_pairs_ok(pairs),
        spec_audio_incorporate_all(b, pairs) matches Ok(b2) ==> ({
            &&& b2.group_id == upd_raw(lookup_key(pairs, AttrKey::GroupId), b.group_id)
            &&& b2.name == upd_raw(lookup_key(pairs, AttrKey::Name), b.name)
            &&& b2.language == upd_raw(lookup_key(pairs, AttrKey::Language), b.language)
            &&& b2.default == upd_bool(lookup_key(pairs, AttrKey::Default), b.default)
            &&& b2.auto_select == upd_bool(lookup_key(pairs, AttrKey::Autoselect), b.auto_select)
            &&& b2.channel_info == upd_channels(
                lookup_key(pairs, AttrKey::Channels),
                b.channel_info,
            )
            &&& b2.uri == upd_raw(lookup_key(pairs, AttrKey::Uri), b.uri)
        }),
    decreases pairs.len(),
{
    if pairs.len() > 0 {
        let p0 = pairs[0];
        let rest = pairs.drop_first();
        assert(all_audio_pairs_ok(pairs) ==> audio_pair_ok(p0) && all_audio_pairs_ok(rest)) by {
            if all_audio_pairs_ok(pairs) {
                assert(audio_pair_ok(pairs[0]));
                assert forall|i: int| 0 <= i < rest.len() implies audio_pair_ok(
                    #[trigger] rest[i],
                ) by {
                    assert(rest[i] == pairs[i + 1]);
                }
            }
        }
        assert(audio_pair_ok(p0) && all_audio_pairs_ok(rest) ==> all_audio_pairs_ok(pairs)) by {
            if audio_pair_ok(p0) && all_audio_pairs_ok(rest) {
                assert forall|i: int| 0 <= i < pairs.len() implies audio_pair_ok(
                    #[trigger] pairs[i],
                ) by {
                    if i > 0 {
                        assert(pairs[i] == rest[i - 1]);
                    }
                }
            }
        }
        match crate::builders::spec_audio_incorporate(b, p0.0, p0.1) {
            Err(_) => {},
            Ok(t) => {
                if t.1 {
                    lemma_audio_fold(t.0, rest);
                }
            },
        }
    }
}

/// The variant-stream fold succeeds exactly when every pair is acceptable,
/// and the final state of each slot is determined by the last value for its
/// key.
proof fn lemma_stream_fold(b: StreamBuilderView, pairs: Seq<(AttrKey, Seq<char>)>)
    ensures
        (spec_stream_incorporate_all(b, pairs) is Ok) == all_stream_pairs_ok(pairs),
        spec_stream_incorporate_all(b, pairs) matches Ok(b2) ==> ({
            &&& b2.common.bandwidth == upd_usize(
                lookup_key(pairs, AttrKey::Bandwidth),
                b.common.bandwidth,
            )
            &&& b2.common.codecs == upd_codecs(lookup_key(pairs, AttrKey::Codecs), b.common.codecs)
            &&& b2.common.resolution == upd_resolution(
                lookup_key(pairs, AttrKey::Resolution),
                b.common.resolution,
            )
            &&& b2.common.video_range == upd_raw(
                lookup_key(pairs, AttrKey::VideoRange),
                b.common.video_range,
            )
            &&& b2.common.uri == upd_raw(lookup_key(pairs, AttrKey::Uri), b.common.uri)
            &&& b2.average_bandwidth == upd_usize(
                lookup_key(pairs, AttrKey::AverageBandwidth),
                b.average_bandwidth,
            )
            &&& b2.frame_rate == upd_frame_rate(lookup_key(pairs, AttrKey::FrameRate), b.frame_rate)
            &&& b2.audio_codec == upd_raw(lookup_key(pairs, AttrKey::Audio), b.audio_codec)
            &&& b2.closed_captions == upd_raw(
                lookup_key(pairs, AttrKey::ClosedCaptions),
                b.closed_captions,
            )
        }),
    decreases pairs.len(),
{
    if pairs.len() > 0 {
        let p0 = pairs[0];
        let rest = pairs.drop_first();
        assert(all_stream_pairs_ok(pairs) ==> stream_pair_ok(p0) && all_stream_pairs_ok(rest)) by {
            if all_stream_pairs_ok(pairs) {
                assert(stream_pair_ok(pairs[0]));
                assert forall|i: int| 0 <= i < rest.len() implies stream_pair_ok(
                    #[trigger] rest[i],
                ) by {
                    assert(rest[i] == pairs[i + 1]);
                }
            }
        }
        assert(stream_pair_ok(p0) && all_stream_pairs_ok(rest) ==> all_stream_pairs_ok(pairs)) by {
            if stream_pair_ok(p0) && all_stream_pairs_ok(rest) {
                assert forall|i: int| 0 <= i < pairs.len() implies stream_pair_ok(
                    #[trigger] pairs[i],
                ) by {
                    if i > 0 {
                        assert(pairs[i] == rest[i - 1]);
                    }
                }
            }
        }
        match crate::builders::spec_stream_incorporate(b, p0.0, p0.1) {
            Err(_) => {},
            Ok(t) => {
                if t.1 {
                    lemma_stream_fold(t.0, rest);
                }
            },
        }
    }
}

/// The iframe fold succeeds exactly when every pair is acceptable, and the
/// final state of each slot is determined by the last value for its key.
proof fn lemma_iframe_fold(b: IframeBuilderView, pairs: Seq<(AttrKey, Seq<char>)>)
    ensures
        (spec_iframe_incorporate_all(b, pairs) is Ok) == all_iframe_pairs_ok(pairs),
        spec_iframe_incorporate_all(b, pairs) matches Ok(b2) ==> ({
            &&& b2.common.bandwidth == upd_usize(
                lookup_key(pairs, AttrKey::Bandwidth),
                b.common.bandwidth,
            )
            &&& b2.common.codecs == upd_codecs(lookup_key(pairs, AttrKey::Codecs), b.common.codecs)
            &&& b2.common.resolution == upd_resolution(
                lookup_key(pairs, AttrKey::Resolution),
                b.common.resolution,
            )
            &&& b2.common.video_range == upd_raw(
                lookup_key(pairs, AttrKey::VideoRange),
                b.common.video_range,
            )
            &&& b2.common.uri == upd_raw(lookup_key(pairs, AttrKey::Uri), b.common.uri)
        }),
    decreases pairs.len(),
{
    if pairs.len() > 0 {
        let p0 = pairs[0];
        let rest = pairs.drop_first();
        assert(all_iframe_pairs_ok(pairs) ==> iframe_pair_ok(p0) && all_iframe_pairs_ok(rest)) by {
            if all_iframe_pairs_ok(pairs) {
                assert(iframe_pair_ok(pairs[0]));
                assert forall|i: int| 0 <= i < rest.len() implies iframe_pair_ok(
                    #[trigger] rest[i],
                ) by {
                    assert(rest[i] == pairs[i + 1]);
                }
            }
        }
        assert(iframe_pair_ok(p0) && all_iframe_pairs_ok(rest) ==> all_iframe_pairs_ok(pairs)) by {
            if iframe_pair_ok(p0) && all_iframe_pairs_ok(rest) {
                assert forall|i: int| 0 <= i < pairs.len() implies iframe_pair_ok(
                    #[trigger] pairs[i],
                ) by {
                    if i > 0 {
                        assert(pairs[i] == rest[i - 1]);
                    }
                }
            }
        }
        match crate::builders::spec_iframe_incorporate(b, p0.0, p0.1) {
            Err(_) => {},
            Ok(t) => {
                if t.1 {
                    lemma_iframe_fold(t.0, rest);
                }
            },
        }
    }
}

/// With distinct keys, a key looks up a value exactly when the list holds
/// that pair.
proof fn lemma_lookup_contains(pairs: Seq<(AttrKey, Seq<char>)>, k: AttrKey, v: Seq<char>)
    requires
        no_dup_keys(pairs),
    ensures
        (lookup_key(pairs, k) == Some(v)) <==> pairs.contains((k, v)),
    decreases pairs.len(),
{
    if pairs.len() > 0 {
        let p0 = pairs[0];
        let rest = pairs.drop_first();
        assert(no_dup_keys(rest)) by {
            assert forall|i: int, j: int| 0 <= i < j < rest.len() implies (
            #[trigger] rest[i]).0 != (#[trigger] rest[j]).0 by {
                assert(rest[i] == pairs[i + 1]);
                assert(rest[j] == pairs[j + 1]);
            }
        }
        lemma_lookup_contains(rest, k, v);
        if pairs.contains((k, v)) {
            let i = choose|i: int| 0 <= i < pairs.len() && pairs[i] == (k, v);
            if i > 0 {
                assert(rest[i - 1] == (k, v));
                assert(rest.contains((k, v)));
            } else {
                assert(p0 == (k, v));
                match lookup_key(rest, k) {
                    Some(v2) => {
                        lemma_lookup_contains(rest, k, v2);
                        let j = choose|j: int| 0 <= j < rest.len() && rest[j] == (k, v2);
                        assert(pairs[j + 1] == (k, v2));
                        assert(pairs[0].0 == pairs[j + 1].0);
                        assert(false);
                    },
                    None => {},
                }
            }
        }
        if lookup_key(pairs, k) == Some(v) {
            match lookup_key(rest, k) {
                Some(v2) => {
                    assert(v2 == v);
                    assert(rest.contains((k, v)));
                    let j = choose|j: int| 0 <= j < rest.len() && rest[j] == (k, v);
                    assert(pairs[j + 1] == (k, v));
                    assert(pairs.contains((k, v)));
                },
                None => {
                    assert(p0 == (k, v));
                    assert(pairs.contains((k, v)));
                },
            }
        }
    }
}

/// Reordering a distinct-key pair list never changes what any key looks up.
proof fn lemma_lookup_permutation(
    p1: Seq<(AttrKey, Seq<char>)>,
    p2: Seq<(AttrKey, Seq<char>)>,
    k: AttrKey,
)
    requires
        p1.to_multiset() == p2.to_multiset(),
        no_dup_keys(p1),
        no_dup_keys(p2),
    ensures
        lookup_key(p1, k) == lookup_key(p2, k),
{
    broadcast use vstd::seq_lib::group_to_multiset_ensures;

    match lookup_key(p1, k) {
        Some(v) => {
            lemma_lookup_contains(p1, k, v);
            assert(p1.to_multiset().count((k, v)) > 0);
            assert(p2.contains((k, v)));
            lemma_lookup_contains(p2, k, v);
        },
        None => {
            match lookup_key(p2, k) {
                Some(v) => {
                    lemma_lookup_contains(p2, k, v);
                    assert(p2.to_multiset().count((k, v)) > 0);
                    assert(p1.contains((k, v)));
                    lemma_lookup_contains(p1, k, v);
                },
                None => {},
            }
        },
    }
}

/// Every pair of a reordered list occurs in the list it reorders.
proof fn lemma_pairs_transfer(p1: Seq<(AttrKey, Seq<char>)>, p2: Seq<(AttrKey, Seq<char>)>)
    requires
        p1.to_multiset() == p2.to_multiset(),
    ensures
        forall|i: int| 0 <= i < p2.len() ==> p1.contains(#[trigger] p2[i]),
{
    broadcast use vstd::seq_lib::group_to_multiset_ensures;

    assert forall|i: int| 0 <= i < p2.len() implies p1.contains(#[trigger] p2[i]) by {
        assert(p2.contains(p2[i]));
        assert(p2.to_multiset().count(p2[i]) > 0);
    }
}

/// Permuting the attribute order within one audio declaration yields a
/// record identical to the unpermuted parse: if a distinct-key pair list
/// builds an audio record, every reordering of it builds the same record.
pub proof fn lemma_audio_attr_order_irrelevant(
    p1: Seq<(AttrKey, Seq<char>)>,
    p2: Seq<(AttrKey, Seq<char>)>,
)
    requires
        p1.to_multiset() == p2.to_multiset(),
        no_dup_keys(p1),
        no_dup_keys(p2),
    ensures
        spec_build_audio(p1) is Ok ==> spec_build_audio(p2) == spec_build_audio(p1),
{
    if spec_build_audio(p1) is Ok {
        let init = spec_audio_builder_init();
        lemma_audio_fold(init, p1);
        assert(all_audio_pairs_ok(p2)) by {
            lemma_pairs_transfer(p1, p2);
            assert forall|i: int| 0 <= i < p2.len() implies audio_pair_ok(#[trigger] p2[i]) by {
                let j = choose|j: int| 0 <= j < p1.len() && p1[j] == p2[i];
                assert(audio_pair_ok(p1[j]));
            }
        }
        lemma_audio_fold(init, p2);
        lemma_lookup_permutation(p1, p2, AttrKey::GroupId);
        lemma_lookup_permutation(p1, p2, AttrKey::Name);
        lemma_lookup_permutation(p1, p2, AttrKey::Language);
        lemma_lookup_permutation(p1, p2, AttrKey::Default);
        lemma_lookup_permutation(p1, p2, AttrKey::Autoselect);
        lemma_lookup_permutation(p1, p2, AttrKey::Channels);
        lemma_lookup_permutation(p1, p2, AttrKey::Uri);
        let b1 = spec_audio_incorporate_all(init, p1)->Ok_0;
        let b2 = spec_audio_incorporate_all(init, p2)->Ok_0;
        assert(b1 =~= b2);
    }
}

/// Permuting the attribute order within one variant-stream declaration
/// yields a record identical to the unpermuted parse, for any
/// following-line URI.
pub proof fn lemma_stream_attr_order_irrelevant(
    p1: Seq<(AttrKey, Seq<char>)>,
    p2: Seq<(AttrKey, Seq<char>)>,
    uri: Seq<char>,
)
    requires
        p1.to_multiset() == p2.to_multiset(),
        no_dup_keys(p1),
        no_dup_keys(p2),
    ensures
        spec_build_stream(p1, uri) is Ok ==> spec_build_stream(p2, uri) == spec_build_stream(
            p1,
            uri,
        ),
{
    if spec_build_stream(p1, uri) is Ok {
        let init = spec_stream_builder_init();
        lemma_stream_fold(init, p1);
        assert(all_stream_pairs_ok(p2)) by {
            lemma_pairs_transfer(p1, p2);
            assert forall|i: int| 0 <= i < p2.len() implies stream_pair_ok(#[trigger] p2[i]) by {
                let j = choose|j: int| 0 <= j < p1.len() && p1[j] == p2[i];
                assert(stream_pair_ok(p1[j]));
            }
        }
        lemma_stream_fold(init, p2);
        lemma_lookup_permutation(p1, p2, AttrKey::Bandwidth);
        lemma_lookup_permutation(p1, p2, AttrKey::Codecs);
        lemma_lookup_permutation(p1, p2, AttrKey::Resolution);
        lemma_lookup_permutation(p1, p2, AttrKey::VideoRange);
        lemma_lookup_permutation(p1, p2, AttrKey::Uri);
        lemma_lookup_permutation(p1, p2, AttrKey::AverageBandwidth);
        lemma_lookup_permutation(p1, p2, AttrKey::FrameRate);
        lemma_lookup_permutation(p1, p2, AttrKey::Audio);
        lemma_lookup_permutation(p1, p2, AttrKey::ClosedCaptions);
        let b1 = spec_stream_incorporate_all(init, p1)->Ok_0;
        let b2 = spec_stream_incorporate_all(init, p2)->Ok_0;
        assert(b1.common =~= b2.common);
        assert(b1 =~= b2);
        assert(StreamBuilderView {
            common: StreamCommonBuilderView { uri: Some(uri), ..b1.common },
            ..b1
        } =~= StreamBuilderView {
            common: StreamCommonBuilderView { uri: Some(uri), ..b2.common },
            ..b2
        });
    }
}

/// Permuting the attribute order within one iframe declaration yields a
/// record identical to the unpermuted parse.
pub proof fn lemma_iframe_attr_order_irrelevant(
    p1: Seq<(AttrKey, Seq<char>)>,
    p2: Seq<(AttrKey, Seq<char>)>,
)
    requires
        p1.to_multiset() == p2.to_multiset(),
        no_dup_keys(p1),
        no_dup_keys(p2),
    ensures
        spec_build_iframe(p1) is Ok ==> spec_build_iframe(p2) == spec_build_iframe(p1),
{
    if spec_build_iframe(p1) is Ok {
        let init = spec_iframe_builder_init();
        lemma_iframe_fold(init, p1);
        assert(all_iframe_pairs_ok(p2)) by {
            lemma_pairs_transfer(p1, p2);
            assert forall|i: int| 0 <= i < p2.len() implies iframe_pair_ok(#[trigger] p2[i]) by {
                let j = choose|j: int| 0 <= j < p1.len() && p1[j] == p2[i];
                assert(iframe_pair_ok(p1[j]));
            }
        }
        lemma_iframe_fold(init, p2);
        lemma_lookup_permutation(p1, p2, AttrKey::Bandwidth);
        lemma_lookup_permutation(p1, p2, AttrKey::Codecs);
        lemma_lookup_permutation(p1, p2, AttrKey::Resolution);
        lemma_lookup_permutation(p1, p2, AttrKey::VideoRange);
        lemma_lookup_permutation(p1, p2, AttrKey::Uri);
        let b1 = spec_iframe_incorporate_all(init, p1)->Ok_0;
        let b2 = spec_iframe_incorporate_all(init, p2)->Ok_0;
        assert(b1.common =~= b2.common);
        assert(b1 =~= b2);
    }
}

} // verus!
