use hls_parse::attrs::AttrKey;
use hls_parse::errors::{Declaration, HlsError};
use hls_parse::primitives::{
    bool_from_param_str, cc_flag_from_param_str, codecs_from_param_str, parse_usize_str,
};
use hls_parse::types::{AudioChannelInfo, FrameRate, Resolution};
use hls_parse::HlsPlaylist;

/// A minimal audio declaration with all seven attributes parses to a record
/// with exactly those field values.
#[test]
fn minimal_audio_declaration_all_fields() {
    let data = "#EXT-X-MEDIA:TYPE=AUDIO,GROUP-ID=\"aac-128k\",NAME=\"English\",LANGUAGE=\"en\",DEFAULT=YES,AUTOSELECT=YES,CHANNELS=\"2\",URI=\"audio/unenc/aac_128k/vod.m3u8\"
";
    let playlist = HlsPlaylist::from_str(data).unwrap();
    assert_eq!(playlist.audio_streams.inner.len(), 1);
    let audio = &playlist.audio_streams.inner[0];
    assert_eq!(audio.group_id, "aac-128k");
    assert_eq!(audio.name, "English");
    assert_eq!(audio.language, "en");
    assert!(audio.default);
    assert!(audio.auto_select);
    assert_eq!(
        audio.channel_info,
        AudioChannelInfo {
            channels: 2,
            joc: false
        }
    );
    assert_eq!(audio.uri, "audio/unenc/aac_128k/vod.m3u8");
}

/// A channel value with the joint-object-coding suffix sets the flag.
#[test]
fn channels_with_joc_suffix() {
    assert_eq!(
        AudioChannelInfo::from_str("16/JOC"),
        Some(AudioChannelInfo {
            channels: 16,
            joc: true
        })
    );
    assert_eq!(
        AudioChannelInfo::from_str("2"),
        Some(AudioChannelInfo {
            channels: 2,
            joc: false
        })
    );
    // A second segment other than JOC leaves the flag unset.
    assert_eq!(
        AudioChannelInfo::from_str("6/OTHER"),
        Some(AudioChannelInfo {
            channels: 6,
            joc: false
        })
    );
    assert_eq!(AudioChannelInfo::from_str("x/JOC"), None);
}

/// A well-formed resolution parses; a bad separator is a malformed value.
#[test]
fn resolution_shapes() {
    assert_eq!(
        Resolution::from_str("960x540"),
        Some(Resolution {
            width: 960,
            height: 540
        })
    );
    assert_eq!(Resolution::from_str("960-540"), None);
    assert_eq!(Resolution::from_str("960"), None);
    assert_eq!(Resolution::from_str("960x540x2"), None);
    assert_eq!(Resolution::from_str("x540"), None);
}

/// A malformed resolution inside a stream declaration aborts the parse with
/// the structured error naming the declaration, the key and the raw value.
#[test]
fn malformed_resolution_in_stream() {
    let data = "#EXT-X-STREAM-INF:BANDWIDTH=1000,AVERAGE-BANDWIDTH=900,CODECS=\"a\",RESOLUTION=960-540,FRAME-RATE=25,VIDEO-RANGE=PQ,AUDIO=\"g\",CLOSED-CAPTIONS=NONE
uri.m3u8
";
    let err = HlsPlaylist::from_str(data).unwrap_err();
    assert_eq!(
        err,
        HlsError::MalformedAttributeValue {
            declaration: Declaration::Stream,
            attribute: AttrKey::Resolution,
            raw_value: "960-540".to_owned(),
        }
    );
}

/// The text of the line after a variant-stream declaration becomes the
/// record's URI, exactly.
#[test]
fn stream_uri_from_following_line() {
    let data = "#EXT-X-STREAM-INF:BANDWIDTH=2483789,AVERAGE-BANDWIDTH=1762745,CODECS=\"mp4a.40.2\",RESOLUTION=960x540,FRAME-RATE=23.97,VIDEO-RANGE=PQ,AUDIO=\"aac-128k\",CLOSED-CAPTIONS=NONE
hdr10/unenc/1650k/vod.m3u8
";
    let playlist = HlsPlaylist::from_str(data).unwrap();
    assert_eq!(
        playlist.streams.inner[0].common.uri,
        "hdr10/unenc/1650k/vod.m3u8"
    );
}

/// Record counts equal declaration counts and each sequence keeps source
/// order.
#[test]
fn counts_and_order_match_source() {
    let data = "#EXTM3U
#EXT-X-MEDIA:TYPE=AUDIO,GROUP-ID=\"g1\",NAME=\"n1\",LANGUAGE=\"en\",DEFAULT=YES,AUTOSELECT=YES,CHANNELS=\"2\",URI=\"u1\"
#EXT-X-STREAM-INF:BANDWIDTH=1,AVERAGE-BANDWIDTH=1,CODECS=\"c\",RESOLUTION=1x1,FRAME-RATE=25,VIDEO-RANGE=PQ,AUDIO=\"g1\",CLOSED-CAPTIONS=NONE
s1.m3u8
#EXT-X-MEDIA:TYPE=AUDIO,GROUP-ID=\"g2\",NAME=\"n2\",LANGUAGE=\"en\",DEFAULT=NO,AUTOSELECT=NO,CHANNELS=\"6\",URI=\"u2\"
#EXT-X-I-FRAME-STREAM-INF:BANDWIDTH=2,CODECS=\"c\",RESOLUTION=2x2,VIDEO-RANGE=PQ,URI=\"i1\"
#EXT-X-STREAM-INF:BANDWIDTH=3,AVERAGE-BANDWIDTH=3,CODECS=\"c\",RESOLUTION=3x3,FRAME-RATE=25,VIDEO-RANGE=PQ,AUDIO=\"g2\",CLOSED-CAPTIONS=NONE
s2.m3u8
";
    let playlist = HlsPlaylist::from_str(data).unwrap();
    assert_eq!(playlist.audio_streams.inner.len(), 2);
    assert_eq!(playlist.streams.inner.len(), 2);
    assert_eq!(playlist.iframe_streams.inner.len(), 1);
    assert_eq!(playlist.audio_streams.inner[0].group_id, "g1");
    assert_eq!(playlist.audio_streams.inner[1].group_id, "g2");
    assert_eq!(playlist.streams.inner[0].common.uri, "s1.m3u8");
    assert_eq!(playlist.streams.inner[1].common.uri, "s2.m3u8");
    assert_eq!(playlist.iframe_streams.inner[0].common.uri, "i1");
}

/// Permuting the attribute order within a declaration yields an identical
/// record.
#[test]
fn attribute_order_is_irrelevant() {
    let a = "#EXT-X-MEDIA:TYPE=AUDIO,GROUP-ID=\"g\",NAME=\"n\",LANGUAGE=\"en\",DEFAULT=YES,AUTOSELECT=NO,CHANNELS=\"2\",URI=\"u\"
";
    let b = "#EXT-X-MEDIA:TYPE=AUDIO,URI=\"u\",CHANNELS=\"2\",AUTOSELECT=NO,DEFAULT=YES,LANGUAGE=\"en\",NAME=\"n\",GROUP-ID=\"g\"
";
    let pa = HlsPlaylist::from_str(a).unwrap();
    let pb = HlsPlaylist::from_str(b).unwrap();
    assert_eq!(pa.audio_streams.inner[0], pb.audio_streams.inner[0]);

    let s1 = "#EXT-X-I-FRAME-STREAM-INF:BANDWIDTH=7,CODECS=\"c1,c2\",RESOLUTION=10x20,VIDEO-RANGE=PQ,URI=\"i\"
";
    let s2 = "#EXT-X-I-FRAME-STREAM-INF:URI=\"i\",VIDEO-RANGE=PQ,RESOLUTION=10x20,CODECS=\"c1,c2\",BANDWIDTH=7
";
    let q1 = HlsPlaylist::from_str(s1).unwrap();
    let q2 = HlsPlaylist::from_str(s2).unwrap();
    assert_eq!(q1.iframe_streams.inner[0], q2.iframe_streams.inner[0]);
}

/// An audio declaration without a URI fails with the structured
/// missing-attribute error naming the declaration and the key.
#[test]
fn audio_missing_uri() {
    let data = "#EXT-X-MEDIA:TYPE=AUDIO,GROUP-ID=\"g\",NAME=\"n\",LANGUAGE=\"en\",DEFAULT=YES,AUTOSELECT=YES,CHANNELS=\"2\"
";
    let err = HlsPlaylist::from_str(data).unwrap_err();
    assert_eq!(
        err,
        HlsError::MissingRequiredAttribute {
            declaration: Declaration::Audio,
            attribute: AttrKey::Uri,
        }
    );
}

/// A key that no declaration of this kind knows is an unrecognized
/// attribute, not a silent skip.
#[test]
fn audio_unrecognized_attribute() {
    let data = "#EXT-X-MEDIA:TYPE=AUDIO,GROUP-ID=\"g\",BANDWIDTH=5,URI=\"u\"
";
    let err = HlsPlaylist::from_str(data).unwrap_err();
    assert_eq!(
        err,
        HlsError::UnrecognizedAttribute {
            declaration: Declaration::Audio,
            attribute: AttrKey::Bandwidth,
        }
    );
}

/// Input that matches no recognizer fails with the offset of the first
/// unparsable position, and no playlist is returned.
#[test]
fn unrecognized_line_fails() {
    let data = "free text with no tag prefix
";
    let err = HlsPlaylist::from_str(data).unwrap_err();
    assert_eq!(err, HlsError::UnparsableInput { offset: 0 });
}

/// End-to-end fixture: 4 audio declarations, 36 variant streams and 2
/// iframe streams parse to sequences of exactly those lengths.
#[test]
fn end_to_end_fixture_counts() {
    let mut data = String::new();
    data.push_str("#EXTM3U\n#EXT-X-VERSION:6\n#EXT-X-INDEPENDENT-SEGMENTS\n");
    for i in 0..4 {
        data.push_str(&format!(
            "#EXT-X-MEDIA:TYPE=AUDIO,GROUP-ID=\"g{i}\",NAME=\"n{i}\",LANGUAGE=\"en\",DEFAULT=YES,AUTOSELECT=YES,CHANNELS=\"2\",URI=\"a{i}.m3u8\"\n"
        ));
    }
    for i in 0..36 {
        data.push_str(&format!(
            "#EXT-X-STREAM-INF:BANDWIDTH={},AVERAGE-BANDWIDTH={},CODECS=\"mp4a.40.2,hvc1.2.4.L90.90\",RESOLUTION=960x540,FRAME-RATE=23.97,VIDEO-RANGE=PQ,AUDIO=\"g0\",CLOSED-CAPTIONS=NONE\ns{}.m3u8\n",
            1000 + i,
            900 + i,
            i
        ));
    }
    for i in 0..2 {
        data.push_str(&format!(
            "#EXT-X-I-FRAME-STREAM-INF:BANDWIDTH={},CODECS=\"hvc1.2.4.L63.90\",RESOLUTION=640x360,VIDEO-RANGE=PQ,URI=\"i{}.m3u8\"\n",
            100 + i,
            i
        ));
    }
    let playlist = HlsPlaylist::from_str(&data).unwrap();
    assert_eq!(playlist.version, 6);
    assert_eq!(playlist.audio_streams.inner.len(), 4);
    assert_eq!(playlist.streams.inner.len(), 36);
    assert_eq!(playlist.iframe_streams.inner.len(), 2);
}

/// Boolean attribute values are exactly YES and NO.
#[test]
fn boolean_values() {
    assert_eq!(bool_from_param_str("YES"), Some(true));
    assert_eq!(bool_from_param_str("NO"), Some(false));
    assert_eq!(bool_from_param_str("yes"), None);
    assert_eq!(bool_from_param_str("MAYBE"), None);
    assert_eq!(bool_from_param_str(""), None);
}

/// Closed-caption flag values are exactly CC and NONE.
#[test]
fn closed_captions_flag_values() {
    assert_eq!(cc_flag_from_param_str("CC"), Some(true));
    assert_eq!(cc_flag_from_param_str("NONE"), Some(false));
    assert_eq!(cc_flag_from_param_str("cc"), None);
    assert_eq!(cc_flag_from_param_str(""), None);
}

/// Frame rates keep their decimal form digit for digit.
#[test]
fn frame_rate_forms() {
    assert_eq!(
        FrameRate::from_str("23.97"),
        Some(FrameRate {
            whole: 23,
            frac: 97,
            frac_len: 2
        })
    );
    assert_eq!(
        FrameRate::from_str("25"),
        Some(FrameRate {
            whole: 25,
            frac: 0,
            frac_len: 0
        })
    );
    assert_eq!(
        FrameRate::from_str("23.976"),
        Some(FrameRate {
            whole: 23,
            frac: 976,
            frac_len: 3
        })
    );
    assert_eq!(FrameRate::from_str("23."), None);
    assert_eq!(FrameRate::from_str(".5"), None);
    assert_eq!(FrameRate::from_str("a.b"), None);
    assert_eq!(FrameRate::from_str("1.2.3"), None);
}

/// Codec lists split on commas, keep order and duplicates, and trim each
/// piece.
#[test]
fn codec_list_split_and_trim() {
    assert_eq!(
        codecs_from_param_str("mp4a.40.2,hvc1.2.4.L90.90"),
        vec!["mp4a.40.2".to_owned(), "hvc1.2.4.L90.90".to_owned()]
    );
    assert_eq!(
        codecs_from_param_str("a, b ,a"),
        vec!["a".to_owned(), "b".to_owned(), "a".to_owned()]
    );
    assert_eq!(codecs_from_param_str(""), vec!["".to_owned()]);
}

/// Decimal parsing rejects empty, non-numeric and overflowing numerals.
#[test]
fn usize_parsing() {
    assert_eq!(parse_usize_str("0"), Some(0));
    assert_eq!(parse_usize_str("2483789"), Some(2483789));
    assert_eq!(parse_usize_str(""), None);
    assert_eq!(parse_usize_str("12a"), None);
    assert_eq!(parse_usize_str("99999999999999999999999999"), None);
}

/// Channel info orders by channel count, ties broken by the coding flag.
#[test]
fn channel_info_ordering() {
    let a = AudioChannelInfo {
        channels: 2,
        joc: false,
    };
    let b = AudioChannelInfo {
        channels: 16,
        joc: false,
    };
    let c = AudioChannelInfo {
        channels: 16,
        joc: true,
    };
    assert_eq!(a.cmp(&b), std::cmp::Ordering::Less);
    assert_eq!(b.cmp(&a), std::cmp::Ordering::Greater);
    assert_eq!(b.cmp(&c), std::cmp::Ordering::Less);
    assert_eq!(c.cmp(&c), std::cmp::Ordering::Equal);
}

/// Resolutions with equal widths compare equal; otherwise they compare by
/// height.
#[test]
fn resolution_ordering() {
    let a = Resolution {
        width: 960,
        height: 540,
    };
    let b = Resolution {
        width: 960,
        height: 720,
    };
    let c = Resolution {
        width: 1280,
        height: 720,
    };
    assert_eq!(a.cmp(&b), std::cmp::Ordering::Equal);
    assert_eq!(a.cmp(&c), std::cmp::Ordering::Less);
    assert_eq!(c.cmp(&a), std::cmp::Ordering::Greater);
}

/// Without a version declaration the version is 0; a repeated declaration
/// is overwritten by the last occurrence.
#[test]
fn version_default_and_last_wins() {
    let playlist = HlsPlaylist::from_str("#EXTM3U\n").unwrap();
    assert_eq!(playlist.version, 0);
    let playlist = HlsPlaylist::from_str("#EXT-X-VERSION:3\n#EXT-X-VERSION:7\n").unwrap();
    assert_eq!(playlist.version, 7);
}

/// Empty input is a playlist with no records.
#[test]
fn empty_input_is_empty_playlist() {
    let playlist = HlsPlaylist::from_str("").unwrap();
    assert_eq!(playlist.audio_streams.inner.len(), 0);
    assert_eq!(playlist.streams.inner.len(), 0);
    assert_eq!(playlist.iframe_streams.inner.len(), 0);
    assert_eq!(playlist.version, 0);
}

/// Blanks around `=` and after commas are tolerated inside a declaration.
#[test]
fn whitespace_tolerance() {
    let data = "#EXT-X-MEDIA:TYPE=AUDIO, GROUP-ID = \"g\" , NAME=\"n\",LANGUAGE=\"en\",DEFAULT= YES,AUTOSELECT=YES,CHANNELS=\"2\",URI=\"u\"
";
    let playlist = HlsPlaylist::from_str(data).unwrap();
    let audio = &playlist.audio_streams.inner[0];
    assert_eq!(audio.group_id, "g");
    assert!(audio.default);
}

/// A media declaration of another type is no audio declaration; like any
/// `#`-prefixed line no recognizer claims, it is consumed as a comment.
#[test]
fn non_audio_media_is_comment() {
    let data = "#EXT-X-MEDIA:TYPE=SUBTITLES,GROUP-ID=\"subs\",NAME=\"English\"
";
    let playlist = HlsPlaylist::from_str(data).unwrap();
    assert_eq!(playlist.audio_streams.inner.len(), 0);
}

/// A repeated key takes the last written value.
#[test]
fn repeated_key_last_wins() {
    let data = "#EXT-X-MEDIA:TYPE=AUDIO,GROUP-ID=\"old\",GROUP-ID=\"new\",NAME=\"n\",LANGUAGE=\"en\",DEFAULT=YES,AUTOSELECT=YES,CHANNELS=\"2\",URI=\"u\"
";
    let playlist = HlsPlaylist::from_str(data).unwrap();
    assert_eq!(playlist.audio_streams.inner[0].group_id, "new");
}

/// A malformed channel value inside an audio declaration aborts the parse.
#[test]
fn malformed_channels_in_audio() {
    let data = "#EXT-X-MEDIA:TYPE=AUDIO,GROUP-ID=\"g\",CHANNELS=\"many\",URI=\"u\"
";
    let err = HlsPlaylist::from_str(data).unwrap_err();
    assert_eq!(
        err,
        HlsError::MalformedAttributeValue {
            declaration: Declaration::Audio,
            attribute: AttrKey::Channels,
            raw_value: "many".to_owned(),
        }
    );
}

/// A stream declaration missing a mandatory attribute names the first unset
/// one, in the record's field order.
#[test]
fn stream_missing_bandwidth() {
    let data = "#EXT-X-STREAM-INF:AVERAGE-BANDWIDTH=900,CODECS=\"a\",RESOLUTION=1x1,FRAME-RATE=25,VIDEO-RANGE=PQ,AUDIO=\"g\",CLOSED-CAPTIONS=NONE
uri.m3u8
";
    let err = HlsPlaylist::from_str(data).unwrap_err();
    assert_eq!(
        err,
        HlsError::MissingRequiredAttribute {
            declaration: Declaration::Stream,
            attribute: AttrKey::Bandwidth,
        }
    );
}

/// A variant-stream declaration must be followed by a line break and its
/// URI line; without them nothing recognizes the text.
#[test]
fn stream_without_uri_line_fails() {
    let data = "#EXT-X-STREAM-INF:BANDWIDTH=1,AVERAGE-BANDWIDTH=1,CODECS=\"c\",RESOLUTION=1x1,FRAME-RATE=25,VIDEO-RANGE=PQ,AUDIO=\"g\",CLOSED-CAPTIONS=NONE";
    assert!(HlsPlaylist::from_str(data).is_err());
}

/// A version declaration whose value is not a numeral is no version
/// declaration; the line is consumed as a generic comment.
#[test]
fn version_without_digits_is_comment() {
    let playlist = HlsPlaylist::from_str("#EXT-X-VERSION:abc\n").unwrap();
    assert_eq!(playlist.version, 0);
}

/// A comment line must end in a newline to be recognized.
#[test]
fn comment_without_newline_fails() {
    let err = HlsPlaylist::from_str("# trailing comment without newline").unwrap_err();
    assert_eq!(err, HlsError::UnparsableInput { offset: 0 });
}

/// The header alone, with or without a trailing newline, is an empty
/// playlist.
#[test]
fn header_alone_parses() {
    let playlist = HlsPlaylist::from_str("#EXTM3U").unwrap();
    assert_eq!(playlist.audio_streams.inner.len(), 0);
    let playlist = HlsPlaylist::from_str("#EXTM3U\n").unwrap();
    assert_eq!(playlist.streams.inner.len(), 0);
}

/// A version numeral too large for the machine word is no version
/// declaration; the line falls through to the generic comment.
#[test]
fn version_overflow_is_comment() {
    let playlist = HlsPlaylist::from_str("#EXT-X-VERSION:99999999999999999999999999\n").unwrap();
    assert_eq!(playlist.version, 0);
}

/// A quoted value may contain commas and blanks; they do not end it.
#[test]
fn quoted_value_keeps_commas_and_blanks() {
    let data = "#EXT-X-MEDIA:TYPE=AUDIO,GROUP-ID=\"g\",NAME=\"English, described\",LANGUAGE=\"en\",DEFAULT=YES,AUTOSELECT=YES,CHANNELS=\"2\",URI=\"u\"
";
    let playlist = HlsPlaylist::from_str(data).unwrap();
    assert_eq!(playlist.audio_streams.inner[0].name, "English, described");
}
