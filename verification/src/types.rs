//! Types representing parsed HLS data: one record per declaration kind, plus
//! the small value types their attributes parse into.  Records are immutable
//! once constructed; the parser is the only producer.

use vstd::prelude::*;

verus! {

/// Parsed value of an audio declaration's `CHANNELS` attribute: a channel
/// count, and whether the raw value carried a `/JOC` (Joint Object Coding,
/// i.e. object-based audio) suffix.
#[derive(Debug, PartialEq, Eq, Structural, Clone, Copy)]
pub struct AudioChannelInfo {
    pub channels: usize,
    pub joc: bool,
}

impl AudioChannelInfo {
    /// Ordering for channel info: by channel count ascending, ties broken by
    /// the coding flag with `false` before `true`.
    pub fn cmp(&self, other: &Self) -> (r: core::cmp::Ordering)
        ensures
            r == (if self.channels < other.channels {
                core::cmp::Ordering::Less
            } else if self.channels > other.channels {
                core::cmp::Ordering::Greater
            } else if self.joc == other.joc {
                core::cmp::Ordering::Equal
            } else if !self.joc {
                core::cmp::Ordering::Less
            } else {
                core::cmp::Ordering::Greater
            }),
    {
        if self.channels < other.channels {
            core::cmp::Ordering::Less
        } else if self.channels > other.channels {
            core::cmp::Ordering::Greater
        } else if self.joc == other.joc {
            core::cmp::Ordering::Equal
        } else if !self.joc {
            core::cmp::Ordering::Less
        } else {
            core::cmp::Ordering::Greater
        }
    }
}

/// Parsed value of a `RESOLUTION` attribute: width and height in pixels.
#[derive(Debug, PartialEq, Eq, Structural, Clone, Copy)]
pub struct Resolution {
    pub width: usize,
    pub height: usize,
}

impl Resolution {
    /// Ordering for resolutions, kept exactly as the presentation layer has
    /// always used it: two resolutions with equal widths compare equal, and
    /// otherwise they compare by height alone.
    pub fn cmp(&self, other: &Self) -> (r: core::cmp::Ordering)
        ensures
            r == (if self.width == other.width {
                core::cmp::Ordering::Equal
            } else if self.height < other.height {
                core::cmp::Ordering::Less
            } else if self.height > other.height {
                core::cmp::Ordering::Greater
            } else {
                core::cmp::Ordering::Equal
            }),
    {
        if self.width == other.width {
            core::cmp::Ordering::Equal
        } else if self.height < other.height {
            core::cmp::Ordering::Less
        } else if self.height > other.height {
            core::cmp::Ordering::Greater
        } else {
            core::cmp::Ordering::Equal
        }
    }
}

/// Parsed value of a `FRAME-RATE` attribute, kept as the exact decimal
/// written in the playlist: the value is `whole` plus `frac / 10^frac_len`.
/// A rate written without a fractional part has `frac == 0` and
/// `frac_len == 0`.
#[derive(Debug, PartialEq, Eq, Structural, Clone, Copy)]
pub struct FrameRate {
    pub whole: usize,
    pub frac: usize,
    pub frac_len: usize,
}

/// Parsed audio rendition metadata (`#EXT-X-MEDIA:TYPE=AUDIO`).
#[derive(Debug, PartialEq, Eq)]
pub struct Audio {
    pub group_id: String,
    pub name: String,
    pub language: String,
    pub default: bool,
    pub auto_select: bool,
    pub channel_info: AudioChannelInfo,
    /// URI of the audio stream the other metadata fields describe.
    pub uri: String,
}

/// Mathematical image of an [`Audio`] record.
pub ghost struct AudioView {
    pub group_id: Seq<char>,
    pub name: Seq<char>,
    pub language: Seq<char>,
    pub default: bool,
    pub auto_select: bool,
    pub channel_info: AudioChannelInfo,
    pub uri: Seq<char>,
}

impl View for Audio {
    type V = AudioView;

    open spec fn view(&self) -> AudioView {
        AudioView {
            group_id: self.group_id@,
            name: self.name@,
            language: self.language@,
            default: self.default,
            auto_select: self.auto_select,
            channel_info: self.channel_info,
            uri: self.uri@,
        }
    }
}

/// Data shared by both stream kinds (variant and iframe streams).
#[derive(Debug, PartialEq, Eq)]
pub struct StreamInfoCommon {
    pub bandwidth: usize,
    pub codecs: Vec<String>,
    pub resolution: Resolution,
    pub video_range: String,
    /// URI of the media playlist the other metadata fields describe.
    pub uri: String,
}

/// Mathematical image of a [`StreamInfoCommon`] record.
pub ghost struct StreamCommonView {
    pub bandwidth: usize,
    pub codecs: Seq<Seq<char>>,
    pub resolution: Resolution,
    pub video_range: Seq<char>,
    pub uri: Seq<char>,
}

impl View for StreamInfoCommon {
    type V = StreamCommonView;

    open spec fn view(&self) -> StreamCommonView {
        StreamCommonView {
            bandwidth: self.bandwidth,
            codecs: self.codecs@.map_values(|c: String| c@),
            resolution: self.resolution,
            video_range: self.video_range@,
            uri: self.uri@,
        }
    }
}

/// Parsed variant video stream metadata (`#EXT-X-STREAM-INF`).  Its URI is
/// not an attribute: it is the text of the line that follows the declaration.
#[derive(Debug, PartialEq, Eq)]
pub struct StreamInfo {
    pub common: StreamInfoCommon,
    pub average_bandwidth: usize,
    pub frame_rate: FrameRate,
    pub audio_codec: String,
    pub closed_captions: String,
}

/// Mathematical image of a [`StreamInfo`] record.
pub ghost struct StreamView {
    pub common: StreamCommonView,
    pub average_bandwidth: usize,
    pub frame_rate: FrameRate,
    pub audio_codec: Seq<char>,
    pub closed_captions: Seq<char>,
}

impl View for StreamInfo {
    type V = StreamView;

    open spec fn view(&self) -> StreamView {
        StreamView {
            common: self.common@,
            average_bandwidth: self.average_bandwidth,
            frame_rate: self.frame_rate,
            audio_codec: self.audio_codec@,
            closed_captions: self.closed_captions@,
        }
    }
}

/// Parsed iframe stream metadata (`#EXT-X-I-FRAME-STREAM-INF`).  Unlike a
/// variant stream, its URI is an ordinary quoted attribute.
#[derive(Debug, PartialEq, Eq)]
pub struct IframeStreamInfo {
    pub common: StreamInfoCommon,
}

/// Mathematical image of an [`IframeStreamInfo`] record.
pub ghost struct IframeView {
    pub common: StreamCommonView,
}

impl View for IframeStreamInfo {
    type V = IframeView;

    open spec fn view(&self) -> IframeView {
        IframeView { common: self.common@ }
    }
}

/// All audio renditions parsed from a playlist, in declaration order.
#[derive(Debug)]
pub struct AudioStreams {
    pub inner: Vec<Audio>,
}

impl View for AudioStreams {
    type V = Seq<AudioView>;

    open spec fn view(&self) -> Seq<AudioView> {
        self.inner@.map_values(|a: Audio| a@)
    }
}

/// All variant video streams parsed from a playlist, in declaration order.
#[derive(Debug)]
pub struct Streams {
    pub inner: Vec<StreamInfo>,
}

impl View for Streams {
    type V = Seq<StreamView>;

    open spec fn view(&self) -> Seq<StreamView> {
        self.inner@.map_values(|s: StreamInfo| s@)
    }
}

/// All iframe streams parsed from a playlist, in declaration order.
#[derive(Debug)]
pub struct IframeStreams {
    pub inner: Vec<IframeStreamInfo>,
}

impl View for IframeStreams {
    type V = Seq<IframeView>;

    open spec fn view(&self) -> Seq<IframeView> {
        self.inner@.map_values(|s: IframeStreamInfo| s@)
    }
}

/// Mathematical image of a whole parsed playlist.
pub ghost struct PlaylistView {
    pub audios: Seq<AudioView>,
    pub streams: Seq<StreamView>,
    pub iframes: Seq<IframeView>,
    pub version: usize,
}

/// The empty playlist: no records and protocol version 0.
pub open spec fn spec_playlist_init() -> PlaylistView {
    PlaylistView { audios: Seq::empty(), streams: Seq::empty(), iframes: Seq::empty(), version: 0 }
}

} // verus!
