//! Record builders: one accumulator per declaration kind, with an optional
//! slot for every field.  `incorporate` stores one converted attribute and
//! distinguishes "not my key" from a failed conversion, so a composite
//! builder can delegate to the embedded common builder first; `build`
//! performs the completeness check in one place, in a fixed field order.

use vstd::prelude::*;
use crate::attrs::{pairs_view, AttrKey};
use crate::errors::{Declaration, ErrView, HlsError};
use crate::primitives::{
    bool_from_param_str, codecs_from_param_str, spec_parse_bool, spec_parse_channels,
    spec_parse_codecs, spec_parse_frame_rate, spec_parse_resolution, spec_parse_usize,
    parse_usize_str, strs_view,
};
use crate::types::{
    Audio, AudioChannelInfo, AudioView, FrameRate, IframeStreamInfo, IframeView, Resolution,
    StreamCommonView, StreamInfo, StreamInfoCommon, StreamView,
};

verus! {

// ---------------------------------------------------------------------------
// Audio
// ---------------------------------------------------------------------------
/// Accumulator for an audio rendition declaration.
pub struct AudioBuilder {
    group_id: Option<String>,
    name: Option<String>,
    language: Option<String>,
    default: Option<bool>,
    auto_select: Option<bool>,
    channel_info: Option<AudioChannelInfo>,
    uri: Option<String>,
}

/// Mathematical image of an [`AudioBuilder`].
#[verifier::ext_equal]
pub ghost struct AudioBuilderView {
    pub group_id: Option<Seq<char>>,
    pub name: Option<Seq<char>>,
    pub language: Option<Seq<char>>,
    pub default: Option<bool>,
    pub auto_select: Option<bool>,
    pub channel_info: Option<AudioChannelInfo>,
    pub uri: Option<Seq<char>>,
}

impl View for AudioBuilder {
    type V = AudioBuilderView;

    closed spec fn view(&self) -> AudioBuilderView {
        AudioBuilderView {
            group_id: match self.group_id {
                Some(ref x) => Some(x@),
                None => None,
            },
            name: match self.name {
                Some(ref x) => Some(x@),
                None => None,
            },
            language: match self.language {
                Some(ref x) => Some(x@),
                None => None,
            },
            default: self.default,
            auto_select: self.auto_select,
            channel_info: self.channel_info,
            uri: match self.uri {
                Some(ref x) => Some(x@),
                None => None,
            },
        }
    }
}

/// The builder with every slot unset.
pub open spec fn spec_audio_builder_init() -> AudioBuilderView {
    AudioBuilderView {
        group_id: None,
        name: None,
        language: None,
        default: None,
        auto_select: None,
        channel_info: None,
        uri: None,
    }
}

/// One attribute offered to the audio builder: `Ok((b, true))` stores it,
/// `Ok((unchanged, false))` means the key is not an audio key, and `Err` is a
/// failed conversion.
pub open spec fn spec_audio_incorporate(b: AudioBuilderView, k: AttrKey, v: Seq<char>) -> Result<
    (AudioBuilderView, bool),
    ErrView,
> {
    match k {
        AttrKey::GroupId => Ok((AudioBuilderView { group_id: Some(v), ..b }, true)),
        AttrKey::Name => Ok((AudioBuilderView { name: Some(v), ..b }, true)),
        AttrKey::Language => Ok((AudioBuilderView { language: Some(v), ..b }, true)),
        AttrKey::Default => match spec_parse_bool(v) {
            Some(x) => Ok((AudioBuilderView { default: Some(x), ..b }, true)),
            None => Err(
                ErrView::MalformedAttributeValue {
                    declaration: Declaration::Audio,
                    attribute: k,
                    raw_value: v,
                },
            ),
        },
        AttrKey::Autoselect => match spec_parse_bool(v) {
            Some(x) => Ok((AudioBuilderView { auto_select: Some(x), ..b }, true)),
            None => Err(
                ErrView::MalformedAttributeValue {
                    declaration: Declaration::Audio,
                    attribute: k,
                    raw_value: v,
                },
            ),
        },
        AttrKey::Channels => match spec_parse_channels(v) {
            Some(ci) => Ok((AudioBuilderView { channel_info: Some(ci), ..b }, true)),
            None => Err(
                ErrView::MalformedAttributeValue {
                    declaration: Declaration::Audio,
                    attribute: k,
                    raw_value: v,
                },
            ),
        },
        AttrKey::Uri => Ok((AudioBuilderView { uri: Some(v), ..b }, true)),
        _ => Ok((b, false)),
    }
}

/// Fold a pair list into the audio builder; a key that is not an audio key
/// is an unrecognized attribute for this declaration.
pub open spec fn spec_audio_incorporate_all(
    b: AudioBuilderView,
    pairs: Seq<(AttrKey, Seq<char>)>,
) -> Result<AudioBuilderView, ErrView>
    decreases pairs.len(),
{
    if pairs.len() == 0 {
        Ok(b)
    } else {
        match spec_audio_incorporate(b, pairs[0].0, pairs[0].1) {
            Err(e) => Err(e),
            Ok(t) => if t.1 {
                spec_audio_incorporate_all(t.0, pairs.drop_first())
            } else {
                Err(
                    ErrView::UnrecognizedAttribute {
                        declaration: Declaration::Audio,
                        attribute: pairs[0].0,
                    },
                )
            },
        }
    }
}

/// The completeness check, in the record's field order: the first unset
/// mandatory slot names the missing attribute.
pub open spec fn spec_audio_finalize(b: AudioBuilderView) -> Result<AudioView, ErrView> {
    if b.group_id is None {
        Err(
            ErrView::MissingRequiredAttribute {
                declaration: Declaration::Audio,
                attribute: AttrKey::GroupId,
            },
        )
    } else if b.name is None {
        Err(
            ErrView::MissingRequiredAttribute {
                declaration: Declaration::Audio,
                attribute: AttrKey::Name,
            },
        )
    } else if b.language is None {
        Err(
            ErrView::MissingRequiredAttribute {
                declaration: Declaration::Audio,
                attribute: AttrKey::Language,
            },
        )
    } else if b.default is None {
        Err(
            ErrView::MissingRequiredAttribute {
                declaration: Declaration::Audio,
                attribute: AttrKey::Default,
            },
        )
    } else if b.auto_select is None {
        Err(
            ErrView::MissingRequiredAttribute {
                declaration: Declaration::Audio,
                attribute: AttrKey::Autoselect,
            },
        )
    } else if b.channel_info is None {
        Err(
            ErrView::MissingRequiredAttribute {
                declaration: Declaration::Audio,
                attribute: AttrKey::Channels,
            },
        )
    } else if b.uri is None {
        Err(
            ErrView::MissingRequiredAttribute {
                declaration: Declaration::Audio,
                attribute: AttrKey::Uri,
            },
        )
    } else {
        Ok(
            AudioView {
                group_id: b.group_id->Some_0,
                name: b.name->Some_0,
                language: b.language->Some_0,
                default: b.default->Some_0,
                auto_select: b.auto_select->Some_0,
                channel_info: b.channel_info->Some_0,
                uri: b.uri->Some_0,
            },
        )
    }
}

/// The audio record an attribute pair list builds, or the first failure.
pub open spec fn spec_build_audio(pairs: Seq<(AttrKey, Seq<char>)>) -> Result<AudioView, ErrView> {
    match spec_audio_incorporate_all(spec_audio_builder_init(), pairs) {
        Err(e) => Err(e),
        Ok(b) => spec_audio_finalize(b),
    }
}

impl Default for AudioBuilder {
    /// The builder with every slot unset.
    fn default() -> (r: Self)
        ensures
            r@ == spec_audio_builder_init(),
    {
        AudioBuilder {
            group_id: None,
            name: None,
            language: None,
            default: None,
            auto_select: None,
            channel_info: None,
            uri: None,
        }
    }
}

impl AudioBuilder {
    /// Offer one raw attribute to the builder; stores it, reports it as not
    /// an audio key, or fails on a bad value.
    pub fn incorporate(&mut self, key: AttrKey, value: &str) -> (r: Result<bool, HlsError>)
        ensures
            match r {
                Ok(accepted) => spec_audio_incorporate(old(self)@, key, value@) == Ok::<_, ErrView>(
                    (final(self)@, accepted),
                ),
                Err(e) => spec_audio_incorporate(old(self)@, key, value@) == Err::<(AudioBuilderView, bool), _>(e@) && final(self)@
                    == old(self)@,
            },
    {
        match key {
            AttrKey::GroupId => {
                self.group_id = Some(value.to_owned());
                Ok(true)
            },
            AttrKey::Name => {
                self.name = Some(value.to_owned());
                Ok(true)
            },
            AttrKey::Language => {
                self.language = Some(value.to_owned());
                Ok(true)
            },
            AttrKey::Default => match bool_from_param_str(value) {
                Some(x) => {
                    self.default = Some(x);
                    Ok(true)
                },
                None => Err(
                    HlsError::MalformedAttributeValue {
                        declaration: Declaration::Audio,
                        attribute: key,
                        raw_value: value.to_owned(),
                    },
                ),
            },
            AttrKey::Autoselect => match bool_from_param_str(value) {
                Some(x) => {
                    self.auto_select = Some(x);
                    Ok(true)
                },
                None => Err(
                    HlsError::MalformedAttributeValue {
                        declaration: Declaration::Audio,
                        attribute: key,
                        raw_value: value.to_owned(),
                    },
                ),
            },
            AttrKey::Channels => match AudioChannelInfo::from_str(value) {
                Some(ci) => {
                    self.channel_info = Some(ci);
                    Ok(true)
                },
                None => Err(
                    HlsError::MalformedAttributeValue {
                        declaration: Declaration::Audio,
                        attribute: key,
                        raw_value: value.to_owned(),
                    },
                ),
            },
            AttrKey::Uri => {
                self.uri = Some(value.to_owned());
                Ok(true)
            },
            _ => Ok(false),
        }
    }

    /// Consume the builder, yielding the record if every mandatory slot is
    /// set and the first missing attribute otherwise.
    pub fn build(self) -> (r: Result<Audio, HlsError>)
        ensures
            match r {
                Ok(a) => spec_audio_finalize(self@) == Ok::<_, ErrView>(a@),
                Err(e) => spec_audio_finalize(self@) == Err::<AudioView, _>(e@),
            },
    {
        let AudioBuilder { group_id, name, language, default, auto_select, channel_info, uri } =
            self;
        let group_id = match group_id {
            Some(x) => x,
            None => {
                return Err(
                    HlsError::MissingRequiredAttribute {
                        declaration: Declaration::Audio,
                        attribute: AttrKey::GroupId,
                    },
                );
            },
        };
        let name = match name {
            Some(x) => x,
            None => {
                return Err(
                    HlsError::MissingRequiredAttribute {
                        declaration: Declaration::Audio,
                        attribute: AttrKey::Name,
                    },
                );
            },
        };
        let language = match language {
            Some(x) => x,
            None => {
                return Err(
                    HlsError::MissingRequiredAttribute {
                        declaration: Declaration::Audio,
                        attribute: AttrKey::Language,
                    },
                );
            },
        };
        let default = match default {
            Some(x) => x,
            None => {
                return Err(
                    HlsError::MissingRequiredAttribute {
                        declaration: Declaration::Audio,
                        attribute: AttrKey::Default,
                    },
                );
            },
        };
        let auto_select = match auto_select {
            Some(x) => x,
            None => {
                return Err(
                    HlsError::MissingRequiredAttribute {
                        declaration: Declaration::Audio,
                        attribute: AttrKey::Autoselect,
                    },
                );
            },
        };
        let channel_info = match channel_info {
            Some(x) => x,
            None => {
                return Err(
                    HlsError::MissingRequiredAttribute {
                        declaration: Declaration::Audio,
                        attribute: AttrKey::Channels,
                    },
                );
            },
        };
        let uri = match uri {
            Some(x) => x,
            None => {
                return Err(
                    HlsError::MissingRequiredAttribute {
                        declaration: Declaration::Audio,
                        attribute: AttrKey::Uri,
                    },
                );
            },
        };
        Ok(Audio { group_id, name, language, default, auto_select, channel_info, uri })
    }
}

/// Build one audio record from the raw pairs of one declaration line.
pub fn audio_record_from_pairs(pairs: &Vec<(AttrKey, String)>) -> (r: Result<Audio, HlsError>)
    ensures
        match r {
            Ok(a) => spec_build_audio(pairs_view(pairs@)) == Ok::<_, ErrView>(a@),
            Err(e) => spec_build_audio(pairs_view(pairs@)) == Err::<AudioView, _>(e@),
        },
{
    let ghost pv = pairs_view(pairs@);
    let mut b = AudioBuilder::default();
    let n = pairs.len();
    proof {
        assert(pv.subrange(0, n as int) =~= pv);
    }
    let mut i: usize = 0;
    loop
        invariant
            i <= n,
            n == pairs@.len(),
            spec_audio_incorporate_all(spec_audio_builder_init(), pv) == spec_audio_incorporate_all(
                b@,
                pv.subrange(i as int, n as int),
            ),
        decreases n - i,
    {
        if i >= n {
            break ;
        }
        proof {
            assert(pv[i as int] == (pairs@[i as int].0, pairs@[i as int].1@));
            assert(pv.subrange(i as int, n as int)[0] == pv[i as int]);
            assert(pv.subrange(i as int, n as int).drop_first() =~= pv.subrange(
                i as int + 1,
                n as int,
            ));
        }
        let key = pairs[i].0;
        match b.incorporate(key, pairs[i].1.as_str()) {
            Err(e) => {
                return Err(e);
            },
            Ok(true) => {},
            Ok(false) => {
                return Err(
                    HlsError::UnrecognizedAttribute {
                        declaration: Declaration::Audio,
                        attribute: key,
                    },
                );
            },
        }
        i += 1;
    }
    proof {
        assert(pv.subrange(n as int, n as int) =~= Seq::<(AttrKey, Seq<char>)>::empty());
    }
    b.build()
}


// ---------------------------------------------------------------------------
// Stream common
// ---------------------------------------------------------------------------
/// Accumulator for the attributes shared by both stream kinds.
pub struct StreamInfoCommonBuilder {
    bandwidth: Option<usize>,
    codecs: Option<Vec<String>>,
    resolution: Option<Resolution>,
    video_range: Option<String>,
    uri: Option<String>,
}

/// Mathematical image of a [`StreamInfoCommonBuilder`].
#[verifier::ext_equal]
pub ghost struct StreamCommonBuilderView {
    pub bandwidth: Option<usize>,
    pub codecs: Option<Seq<Seq<char>>>,
    pub resolution: Option<Resolution>,
    pub video_range: Option<Seq<char>>,
    pub uri: Option<Seq<char>>,
}

impl View for StreamInfoCommonBuilder {
    type V = StreamCommonBuilderView;

    closed spec fn view(&self) -> StreamCommonBuilderView {
        StreamCommonBuilderView {
            bandwidth: self.bandwidth,
            codecs: match self.codecs {
                Some(ref v) => Some(strs_view(v@)),
                None => None,
            },
            resolution: self.resolution,
            video_range: match self.video_range {
                Some(ref x) => Some(x@),
                None => None,
            },
            uri: match self.uri {
                Some(ref x) => Some(x@),
                None => None,
            },
        }
    }
}

/// The common builder with every slot unset.
pub open spec fn spec_common_builder_init() -> StreamCommonBuilderView {
    StreamCommonBuilderView {
        bandwidth: None,
        codecs: None,
        resolution: None,
        video_range: None,
        uri: None,
    }
}

/// One attribute offered to the common builder; `decl` names the declaration
/// being parsed, for error attribution.
pub open spec fn spec_common_incorporate(
    c: StreamCommonBuilderView,
    k: AttrKey,
    v: Seq<char>,
    decl: Declaration,
) -> Result<(StreamCommonBuilderView, bool), ErrView> {
    match k {
        AttrKey::Bandwidth => match spec_parse_usize(v) {
            Some(x) => Ok((StreamCommonBuilderView { bandwidth: Some(x), ..c }, true)),
            None => Err(
                ErrView::MalformedAttributeValue { declaration: decl, attribute: k, raw_value: v },
            ),
        },
        AttrKey::Codecs => Ok(
            (StreamCommonBuilderView { codecs: Some(spec_parse_codecs(v)), ..c }, true),
        ),
        AttrKey::Resolution => match spec_parse_resolution(v) {
            Some(x) => Ok((StreamCommonBuilderView { resolution: Some(x), ..c }, true)),
            None => Err(
                ErrView::MalformedAttributeValue { declaration: decl, attribute: k, raw_value: v },
            ),
        },
        AttrKey::VideoRange => Ok((StreamCommonBuilderView { video_range: Some(v), ..c }, true)),
        AttrKey::Uri => Ok((StreamCommonBuilderView { uri: Some(v), ..c }, true)),
        _ => Ok((c, false)),
    }
}

/// The completeness check for the common slots, in field order.
pub open spec fn spec_common_finalize(c: StreamCommonBuilderView, decl: Declaration) -> Result<
    StreamCommonView,
    ErrView,
> {
    if c.bandwidth is None {
        Err(
            ErrView::MissingRequiredAttribute { declaration: decl, attribute: AttrKey::Bandwidth },
        )
    } else if c.codecs is None {
        Err(ErrView::MissingRequiredAttribute { declaration: decl, attribute: AttrKey::Codecs })
    } else if c.resolution is None {
        Err(
            ErrView::MissingRequiredAttribute { declaration: decl, attribute: AttrKey::Resolution },
        )
    } else if c.video_range is None {
        Err(
            ErrView::MissingRequiredAttribute { declaration: decl, attribute: AttrKey::VideoRange },
        )
    } else if c.uri is None {
        Err(ErrView::MissingRequiredAttribute { declaration: decl, attribute: AttrKey::Uri })
    } else {
        Ok(
            StreamCommonView {
                bandwidth: c.bandwidth->Some_0,
                codecs: c.codecs->Some_0,
                resolution: c.resolution->Some_0,
                video_range: c.video_range->Some_0,
                uri: c.uri->Some_0,
            },
        )
    }
}

impl Default for StreamInfoCommonBuilder {
    /// The builder with every slot unset.
    fn default() -> (r: Self)
        ensures
            r@ == spec_common_builder_init(),
    {
        StreamInfoCommonBuilder {
            bandwidth: None,
            codecs: None,
            resolution: None,
            video_range: None,
            uri: None,
        }
    }
}

impl StreamInfoCommonBuilder {
    /// Offer one raw attribute to the common builder; stores it, reports it
    /// as not a common key, or fails on a bad value.
    pub fn incorporate(&mut self, key: AttrKey, value: &str, declaration: Declaration) -> (r:
        Result<bool, HlsError>)
        ensures
            match r {
                Ok(accepted) => spec_common_incorporate(old(self)@, key, value@, declaration)
                    == Ok::<_, ErrView>((final(self)@, accepted)),
                Err(e) => spec_common_incorporate(old(self)@, key, value@, declaration) == Err::<
                    (StreamCommonBuilderView, bool),
                    _,
                >(e@) && final(self)@ == old(self)@,
            },
    {
        match key {
            AttrKey::Bandwidth => match parse_usize_str(value) {
                Some(x) => {
                    self.bandwidth = Some(x);
                    Ok(true)
                },
                None => Err(
                    HlsError::MalformedAttributeValue {
                        declaration,
                        attribute: key,
                        raw_value: value.to_owned(),
                    },
                ),
            },
            AttrKey::Codecs => {
                self.codecs = Some(codecs_from_param_str(value));
                Ok(true)
            },
            AttrKey::Resolution => match Resolution::from_str(value) {
                Some(x) => {
                    self.resolution = Some(x);
                    Ok(true)
                },
                None => Err(
                    HlsError::MalformedAttributeValue {
                        declaration,
                        attribute: key,
                        raw_value: value.to_owned(),
                    },
                ),
            },
            AttrKey::VideoRange => {
                self.video_range = Some(value.to_owned());
                Ok(true)
            },
            AttrKey::Uri => {
                self.uri = Some(value.to_owned());
                Ok(true)
            },
            _ => Ok(false),
        }
    }

    /// Consume the builder, yielding the common record part if every
    /// mandatory slot is set and the first missing attribute otherwise.
    pub fn build(self, declaration: Declaration) -> (r: Result<StreamInfoCommon, HlsError>)
        ensures
            match r {
                Ok(c) => spec_common_finalize(self@, declaration) == Ok::<_, ErrView>(c@),
                Err(e) => spec_common_finalize(self@, declaration) == Err::<StreamCommonView, _>(
                    e@,
                ),
            },
    {
        let StreamInfoCommonBuilder { bandwidth, codecs, resolution, video_range, uri } = self;
        let bandwidth = match bandwidth {
            Some(x) => x,
            None => {
                return Err(
                    HlsError::MissingRequiredAttribute {
                        declaration,
                        attribute: AttrKey::Bandwidth,
                    },
                );
            },
        };
        let codecs = match codecs {
            Some(x) => x,
            None => {
                return Err(
                    HlsError::MissingRequiredAttribute { declaration, attribute: AttrKey::Codecs },
                );
            },
        };
        let resolution = match resolution {
            Some(x) => x,
            None => {
                return Err(
                    HlsError::MissingRequiredAttribute {
                        declaration,
                        attribute: AttrKey::Resolution,
                    },
                );
            },
        };
        let video_range = match video_range {
            Some(x) => x,
            None => {
                return Err(
                    HlsError::MissingRequiredAttribute {
                        declaration,
                        attribute: AttrKey::VideoRange,
                    },
                );
            },
        };
        let uri = match uri {
            Some(x) => x,
            None => {
                return Err(
                    HlsError::MissingRequiredAttribute { declaration, attribute: AttrKey::Uri },
                );
            },
        };
        Ok(StreamInfoCommon { bandwidth, codecs, resolution, video_range, uri })
    }
}

// ---------------------------------------------------------------------------
// Variant stream
// ---------------------------------------------------------------------------
/// Accumulator for a variant-stream declaration: the common slots plus the
/// variant-only ones.
pub struct StreamInfoBuilder {
    common: StreamInfoCommonBuilder,
    average_bandwidth: Option<usize>,
    frame_rate: Option<FrameRate>,
    audio_codec: Option<String>,
    closed_captions: Option<String>,
}

/// Mathematical image of a [`StreamInfoBuilder`].
#[verifier::ext_equal]
pub ghost struct StreamBuilderView {
    pub common: StreamCommonBuilderView,
    pub average_bandwidth: Option<usize>,
    pub frame_rate: Option<FrameRate>,
    pub audio_codec: Option<Seq<char>>,
    pub closed_captions: Option<Seq<char>>,
}

impl View for StreamInfoBuilder {
    type V = StreamBuilderView;

    closed spec fn view(&self) -> StreamBuilderView {
        StreamBuilderView {
            common: self.common@,
            average_bandwidth: self.average_bandwidth,
            frame_rate: self.frame_rate,
            audio_codec: match self.audio_codec {
                Some(ref x) => Some(x@),
                None => None,
            },
            closed_captions: match self.closed_captions {
                Some(ref x) => Some(x@),
                None => None,
            },
        }
    }
}

/// The variant-stream builder with every slot unset.
pub open spec fn spec_stream_builder_init() -> StreamBuilderView {
    StreamBuilderView {
        common: spec_common_builder_init(),
        average_bandwidth: None,
        frame_rate: None,
        audio_codec: None,
        closed_captions: None,
    }
}

/// One attribute offered to the variant-stream builder: the embedded common
/// builder is tried first, and only a key it rejects is offered to the
/// variant-only slots.
pub open spec fn spec_stream_incorporate(b: StreamBuilderView, k: AttrKey, v: Seq<char>) -> Result<
    (StreamBuilderView, bool),
    ErrView,
> {
    match spec_common_incorporate(b.common, k, v, Declaration::Stream) {
        Err(e) => Err(e),
        Ok(t) => if t.1 {
            Ok((StreamBuilderView { common: t.0, ..b }, true))
        } else {
            match k {
                AttrKey::AverageBandwidth => match spec_parse_usize(v) {
                    Some(x) => Ok((StreamBuilderView { average_bandwidth: Some(x), ..b }, true)),
                    None => Err(
                        ErrView::MalformedAttributeValue {
                            declaration: Declaration::Stream,
                            attribute: k,
                            raw_value: v,
                        },
                    ),
                },
                AttrKey::FrameRate => match spec_parse_frame_rate(v) {
                    Some(x) => Ok((StreamBuilderView { frame_rate: Some(x), ..b }, true)),
                    None => Err(
                        ErrView::MalformedAttributeValue {
                            declaration: Declaration::Stream,
                            attribute: k,
                            raw_value: v,
                        },
                    ),
                },
                AttrKey::Audio => Ok((StreamBuilderView { audio_codec: Some(v), ..b }, true)),
                AttrKey::ClosedCaptions => Ok(
                    (StreamBuilderView { closed_captions: Some(v), ..b }, true),
                ),
                _ => Ok((b, false)),
            }
        },
    }
}

/// Fold a pair list into the variant-stream builder; a key rejected by both
/// the common and the variant-only slots is an unrecognized attribute.
pub open spec fn spec_stream_incorporate_all(
    b: StreamBuilderView,
    pairs: Seq<(AttrKey, Seq<char>)>,
) -> Result<StreamBuilderView, ErrView>
    decreases pairs.len(),
{
    if pairs.len() == 0 {
        Ok(b)
    } else {
        match spec_stream_incorporate(b, pairs[0].0, pairs[0].1) {
            Err(e) => Err(e),
            Ok(t) => if t.1 {
                spec_stream_incorporate_all(t.0, pairs.drop_first())
            } else {
                Err(
                    ErrView::UnrecognizedAttribute {
                        declaration: Declaration::Stream,
                        attribute: pairs[0].0,
                    },
                )
            },
        }
    }
}

/// The completeness check: common slots first, then the variant-only slots
/// in field order.
pub open spec fn spec_stream_finalize(b: StreamBuilderView) -> Result<StreamView, ErrView> {
    match spec_common_finalize(b.common, Declaration::Stream) {
        Err(e) => Err(e),
        Ok(c) => if b.average_bandwidth is None {
            Err(
                ErrView::MissingRequiredAttribute {
                    declaration: Declaration::Stream,
                    attribute: AttrKey::AverageBandwidth,
                },
            )
        } else if b.frame_rate is None {
            Err(
                ErrView::MissingRequiredAttribute {
                    declaration: Declaration::Stream,
                    attribute: AttrKey::FrameRate,
                },
            )
        } else if b.audio_codec is None {
            Err(
                ErrView::MissingRequiredAttribute {
                    declaration: Declaration::Stream,
                    attribute: AttrKey::Audio,
                },
            )
        } else if b.closed_captions is None {
            Err(
                ErrView::MissingRequiredAttribute {
                    declaration: Declaration::Stream,
                    attribute: AttrKey::ClosedCaptions,
                },
            )
        } else {
            Ok(
                StreamView {
                    common: c,
                    average_bandwidth: b.average_bandwidth->Some_0,
                    frame_rate: b.frame_rate->Some_0,
                    audio_codec: b.audio_codec->Some_0,
                    closed_captions: b.closed_captions->Some_0,
                },
            )
        },
    }
}

/// The variant-stream record a pair list and a following-line URI build, or
/// the first failure.  The URI is not an attribute: it overwrites the common
/// URI slot after the attribute fold.
pub open spec fn spec_build_stream(pairs: Seq<(AttrKey, Seq<char>)>, uri: Seq<char>) -> Result<
    StreamView,
    ErrView,
> {
    match spec_stream_incorporate_all(spec_stream_builder_init(), pairs) {
        Err(e) => Err(e),
        Ok(b) => spec_stream_finalize(
            StreamBuilderView {
                common: StreamCommonBuilderView { uri: Some(uri), ..b.common },
                ..b
            },
        ),
    }
}

impl Default for StreamInfoBuilder {
    /// The builder with every slot unset.
    fn default() -> (r: Self)
        ensures
            r@ == spec_stream_builder_init(),
    {
        StreamInfoBuilder {
            common: StreamInfoCommonBuilder::default(),
            average_bandwidth: None,
            frame_rate: None,
            audio_codec: None,
            closed_captions: None,
        }
    }
}

impl StreamInfoBuilder {
    /// Offer one raw attribute: first to the embedded common builder, then
    /// to the variant-only slots.
    pub fn incorporate(&mut self, key: AttrKey, value: &str) -> (r: Result<bool, HlsError>)
        ensures
            match r {
                Ok(accepted) => spec_stream_incorporate(old(self)@, key, value@) == Ok::<
                    _,
                    ErrView,
                >((final(self)@, accepted)),
                Err(e) => spec_stream_incorporate(old(self)@, key, value@) == Err::<
                    (StreamBuilderView, bool),
                    _,
                >(e@) && final(self)@ == old(self)@,
            },
    {
        match self.common.incorporate(key, value, Declaration::Stream) {
            Err(e) => Err(e),
            Ok(true) => Ok(true),
            Ok(false) => match key {
                AttrKey::AverageBandwidth => match parse_usize_str(value) {
                    Some(x) => {
                        self.average_bandwidth = Some(x);
                        Ok(true)
                    },
                    None => Err(
                        HlsError::MalformedAttributeValue {
                            declaration: Declaration::Stream,
                            attribute: key,
                            raw_value: value.to_owned(),
                        },
                    ),
                },
                AttrKey::FrameRate => match FrameRate::from_str(value) {
                    Some(x) => {
                        self.frame_rate = Some(x);
                        Ok(true)
                    },
                    None => Err(
                        HlsError::MalformedAttributeValue {
                            declaration: Declaration::Stream,
                            attribute: key,
                            raw_value: value.to_owned(),
                        },
                    ),
                },
                AttrKey::Audio => {
                    self.audio_codec = Some(value.to_owned());
                    Ok(true)
                },
                AttrKey::ClosedCaptions => {
                    self.closed_captions = Some(value.to_owned());
                    Ok(true)
                },
                _ => Ok(false),
            },
        }
    }

    /// Consume the builder, yielding the record if every mandatory slot is
    /// set and the first missing attribute otherwise.
    pub fn build(self) -> (r: Result<StreamInfo, HlsError>)
        ensures
            match r {
                Ok(s) => spec_stream_finalize(self@) == Ok::<_, ErrView>(s@),
                Err(e) => spec_stream_finalize(self@) == Err::<StreamView, _>(e@),
            },
    {
        let StreamInfoBuilder { common, average_bandwidth, frame_rate, audio_codec, closed_captions }
            = self;
        let common = match common.build(Declaration::Stream) {
            Ok(c) => c,
            Err(e) => {
                return Err(e);
            },
        };
        let average_bandwidth = match average_bandwidth {
            Some(x) => x,
            None => {
                return Err(
                    HlsError::MissingRequiredAttribute {
                        declaration: Declaration::Stream,
                        attribute: AttrKey::AverageBandwidth,
                    },
                );
            },
        };
        let frame_rate = match frame_rate {
            Some(x) => x,
            None => {
                return Err(
                    HlsError::MissingRequiredAttribute {
                        declaration: Declaration::Stream,
                        attribute: AttrKey::FrameRate,
                    },
                );
            },
        };
        let audio_codec = match audio_codec {
            Some(x) => x,
            None => {
                return Err(
                    HlsError::MissingRequiredAttribute {
                        declaration: Declaration::Stream,
                        attribute: AttrKey::Audio,
                    },
                );
            },
        };
        let closed_captions = match closed_captions {
            Some(x) => x,
            None => {
                return Err(
                    HlsError::MissingRequiredAttribute {
                        declaration: Declaration::Stream,
                        attribute: AttrKey::ClosedCaptions,
                    },
                );
            },
        };
        Ok(StreamInfo { common, average_bandwidth, frame_rate, audio_codec, closed_captions })
    }
}

/// Build one variant-stream record from the raw pairs of one declaration
/// line and the URI found on the line after it.
pub fn stream_record_from_pairs(pairs: &Vec<(AttrKey, String)>, uri: String) -> (r: Result<
    StreamInfo,
    HlsError,
>)
    ensures
        match r {
            Ok(s) => spec_build_stream(pairs_view(pairs@), uri@) == Ok::<_, ErrView>(s@),
            Err(e) => spec_build_stream(pairs_view(pairs@), uri@) == Err::<StreamView, _>(e@),
        },
{
    let ghost pv = pairs_view(pairs@);
    let mut b = StreamInfoBuilder::default();
    let n = pairs.len();
    proof {
        assert(pv.subrange(0, n as int) =~= pv);
    }
    let mut i: usize = 0;
    loop
        invariant
            i <= n,
            n == pairs@.len(),
            spec_stream_incorporate_all(spec_stream_builder_init(), pv)
                == spec_stream_incorporate_all(b@, pv.subrange(i as int, n as int)),
        decreases n - i,
    {
        if i >= n {
            break ;
        }
        proof {
            assert(pv[i as int] == (pairs@[i as int].0, pairs@[i as int].1@));
            assert(pv.subrange(i as int, n as int)[0] == pv[i as int]);
            assert(pv.subrange(i as int, n as int).drop_first() =~= pv.subrange(
                i as int + 1,
                n as int,
            ));
        }
        let key = pairs[i].0;
        match b.incorporate(key, pairs[i].1.as_str()) {
            Err(e) => {
                return Err(e);
            },
            Ok(true) => {},
            Ok(false) => {
                return Err(
                    HlsError::UnrecognizedAttribute {
                        declaration: Declaration::Stream,
                        attribute: key,
                    },
                );
            },
        }
        i += 1;
    }
    proof {
        assert(pv.subrange(n as int, n as int) =~= Seq::<(AttrKey, Seq<char>)>::empty());
    }
    b.common.uri = Some(uri);
    b.build()
}

// ---------------------------------------------------------------------------
// Iframe stream
// ---------------------------------------------------------------------------
/// Accumulator for an iframe-stream declaration: exactly the common slots,
/// with the URI as an ordinary attribute.
pub struct IframeStreamInfoBuilder {
    common: StreamInfoCommonBuilder,
}

/// Mathematical image of an [`IframeStreamInfoBuilder`].
#[verifier::ext_equal]
pub ghost struct IframeBuilderView {
    pub common: StreamCommonBuilderView,
}

impl View for IframeStreamInfoBuilder {
    type V = IframeBuilderView;

    closed spec fn view(&self) -> IframeBuilderView {
        IframeBuilderView { common: self.common@ }
    }
}

/// The iframe builder with every slot unset.
pub open spec fn spec_iframe_builder_init() -> IframeBuilderView {
    IframeBuilderView { common: spec_common_builder_init() }
}

/// One attribute offered to the iframe builder: exactly the common keys.
pub open spec fn spec_iframe_incorporate(b: IframeBuilderView, k: AttrKey, v: Seq<char>) -> Result<
    (IframeBuilderView, bool),
    ErrView,
> {
    match spec_common_incorporate(b.common, k, v, Declaration::Iframe) {
        Err(e) => Err(e),
        Ok(t) => Ok((IframeBuilderView { common: t.0 }, t.1)),
    }
}

/// Fold a pair list into the iframe builder; a key the common slots reject
/// is an unrecognized attribute for this declaration.
pub open spec fn spec_iframe_incorporate_all(
    b: IframeBuilderView,
    pairs: Seq<(AttrKey, Seq<char>)>,
) -> Result<IframeBuilderView, ErrView>
    decreases pairs.len(),
{
    if pairs.len() == 0 {
        Ok(b)
    } else {
        match spec_iframe_incorporate(b, pairs[0].0, pairs[0].1) {
            Err(e) => Err(e),
            Ok(t) => if t.1 {
                spec_iframe_incorporate_all(t.0, pairs.drop_first())
            } else {
                Err(
                    ErrView::UnrecognizedAttribute {
                        declaration: Declaration::Iframe,
                        attribute: pairs[0].0,
                    },
                )
            },
        }
    }
}

/// The completeness check for an iframe record.
pub open spec fn spec_iframe_finalize(b: IframeBuilderView) -> Result<IframeView, ErrView> {
    match spec_common_finalize(b.common, Declaration::Iframe) {
        Err(e) => Err(e),
        Ok(c) => Ok(IframeView { common: c }),
    }
}

/// The iframe record an attribute pair list builds, or the first failure.
pub open spec fn spec_build_iframe(pairs: Seq<(AttrKey, Seq<char>)>) -> Result<
    IframeView,
    ErrView,
> {
    match spec_iframe_incorporate_all(spec_iframe_builder_init(), pairs) {
        Err(e) => Err(e),
        Ok(b) => spec_iframe_finalize(b),
    }
}

impl Default for IframeStreamInfoBuilder {
    /// The builder with every slot unset.
    fn default() -> (r: Self)
        ensures
            r@ == spec_iframe_builder_init(),
    {
        IframeStreamInfoBuilder { common: StreamInfoCommonBuilder::default() }
    }
}

impl IframeStreamInfoBuilder {
    /// Offer one raw attribute to the iframe builder.
    pub fn incorporate(&mut self, key: AttrKey, value: &str) -> (r: Result<bool, HlsError>)
        ensures
            match r {
                Ok(accepted) => spec_iframe_incorporate(old(self)@, key, value@) == Ok::<
                    _,
                    ErrView,
                >((final(self)@, accepted)),
                Err(e) => spec_iframe_incorporate(old(self)@, key, value@) == Err::<
                    (IframeBuilderView, bool),
                    _,
                >(e@) && final(self)@ == old(self)@,
            },
    {
        self.common.incorporate(key, value, Declaration::Iframe)
    }

    /// Consume the builder, yielding the record if every mandatory slot is
    /// set and the first missing attribute otherwise.
    pub fn build(self) -> (r: Result<IframeStreamInfo, HlsError>)
        ensures
            match r {
                Ok(s) => spec_iframe_finalize(self@) == Ok::<_, ErrView>(s@),
                Err(e) => spec_iframe_finalize(self@) == Err::<IframeView, _>(e@),
            },
    {
        match self.common.build(Declaration::Iframe) {
            Ok(c) => Ok(IframeStreamInfo { common: c }),
            Err(e) => Err(e),
        }
    }
}

/// Build one iframe record from the raw pairs of one declaration line.
pub fn iframe_record_from_pairs(pairs: &Vec<(AttrKey, String)>) -> (r: Result<
    IframeStreamInfo,
    HlsError,
>)
    ensures
        match r {
            Ok(s) => spec_build_iframe(pairs_view(pairs@)) == Ok::<_, ErrView>(s@),
            Err(e) => spec_build_iframe(pairs_view(pairs@)) == Err::<IframeView, _>(e@),
        },
{
    let ghost pv = pairs_view(pairs@);
    let mut b = IframeStreamInfoBuilder::default();
    let n = pairs.len();
    proof {
        assert(pv.subrange(0, n as int) =~= pv);
    }
    let mut i: usize = 0;
    loop
        invariant
            i <= n,
            n == pairs@.len(),
            spec_iframe_incorporate_all(spec_iframe_builder_init(), pv)
                == spec_iframe_incorporate_all(b@, pv.subrange(i as int, n as int)),
        decreases n - i,
    {
        if i >= n {
            break ;
        }
        proof {
            assert(pv[i as int] == (pairs@[i as int].0, pairs@[i as int].1@));
            assert(pv.subrange(i as int, n as int)[0] == pv[i as int]);
            assert(pv.subrange(i as int, n as int).drop_first() =~= pv.subrange(
                i as int + 1,
                n as int,
            ));
        }
        let key = pairs[i].0;
        match b.incorporate(key, pairs[i].1.as_str()) {
            Err(e) => {
                return Err(e);
            },
            Ok(true) => {},
            Ok(false) => {
                return Err(
                    HlsError::UnrecognizedAttribute {
                        declaration: Declaration::Iframe,
                        attribute: key,
                    },
                );
            },
        }
        i += 1;
    }
    proof {
        assert(pv.subrange(n as int, n as int) =~= Seq::<(AttrKey, Seq<char>)>::empty());
    }
    b.build()
}

} // verus!
