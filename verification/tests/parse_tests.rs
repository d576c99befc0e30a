use hls_parse::types::{
    Audio, AudioChannelInfo, FrameRate, IframeStreamInfo, Resolution, StreamInfo, StreamInfoCommon,
};
use hls_parse::HlsPlaylist;

/// Parse basic elements that don't return structured data.
#[test]
fn test_parse_no_data() {
    let data = "#EXTM3U
#EXT-X-INDEPENDENT-SEGMENTS
# other comment
";
    let _ = HlsPlaylist::from_str(data).unwrap();
}

/// Parse basic elements that don't return structured data.
#[test]
fn test_parse_version() {
    let data = "#EXT-X-VERSION:5
";
    let playlist = HlsPlaylist::from_str(data).unwrap();
    assert_eq!(playlist.version, 5);
}

/// Parse audio media data only.
#[test]
fn test_parse_audio() {
    let data = "#EXT-X-MEDIA:TYPE=AUDIO,GROUP-ID=\"aac-128k\",NAME=\"English\",LANGUAGE=\"en\",DEFAULT=YES,AUTOSELECT=YES,CHANNELS=\"2\",URI=\"audio/unenc/aac_128k/vod.m3u8\"

#EXT-X-MEDIA:TYPE=AUDIO,GROUP-ID=\"aac-64k\",NAME=\"English\",LANGUAGE=\"en\",DEFAULT=YES,AUTOSELECT=YES,CHANNELS=\"2\",URI=\"audio/unenc/aac_64k/vod.m3u8\"

#EXT-X-MEDIA:TYPE=AUDIO,GROUP-ID=\"atmos\",NAME=\"English\",LANGUAGE=\"en\",DEFAULT=YES,AUTOSELECT=YES,CHANNELS=\"16/JOC\",URI=\"audio/unenc/atmos_1024k/vod.m3u8\"
";
    let playlist = HlsPlaylist::from_str(data).unwrap();
    println!("{playlist:?}");
    assert_eq!(
        playlist.audio_streams.inner[0],
        Audio {
            group_id: "aac-128k".to_owned(),
            name: "English".to_owned(),
            language: "en".to_owned(),
            default: true,
            auto_select: true,
            channel_info: AudioChannelInfo {
                channels: 2,
                joc: false,
            },
            uri: "audio/unenc/aac_128k/vod.m3u8".to_owned(),
        }
    );
    assert!(playlist.audio_streams.inner[2].channel_info.joc);
}

/// Parse stream data only.
#[test]
fn test_parse_stream() {
    let data = "#EXT-X-STREAM-INF:BANDWIDTH=2483789,AVERAGE-BANDWIDTH=1762745,CODECS=\"mp4a.40.2,hvc1.2.4.L90.90\",RESOLUTION=960x540,FRAME-RATE=23.97,VIDEO-RANGE=PQ,AUDIO=\"aac-128k\",CLOSED-CAPTIONS=NONE
hdr10/unenc/1650k/vod.m3u8
#EXT-X-STREAM-INF:BANDWIDTH=15811232,AVERAGE-BANDWIDTH=10058085,CODECS=\"mp4a.40.2,hvc1.2.4.L150.90\",RESOLUTION=2560x1440,FRAME-RATE=23.97,VIDEO-RANGE=PQ,AUDIO=\"aac-128k\",CLOSED-CAPTIONS=NONE
hdr10/unenc/10000k/vod.m3u8
";

    let playlist = HlsPlaylist::from_str(data).unwrap();
    println!("{playlist:?}");
    assert_eq!(
        playlist.streams.inner[0],
        StreamInfo {
            common: StreamInfoCommon {
                bandwidth: 2483789,
                codecs: vec!["mp4a.40.2".to_owned(), "hvc1.2.4.L90.90".to_owned()],
                resolution: Resolution {
                    width: 960,
                    height: 540,
                },
                video_range: "PQ".to_owned(),
                uri: "hdr10/unenc/1650k/vod.m3u8".to_owned(),
            },
            average_bandwidth: 1762745,
            frame_rate: FrameRate {
                whole: 23,
                frac: 97,
                frac_len: 2,
            },
            audio_codec: "aac-128k".to_owned(),
            closed_captions: "NONE".to_owned(),
        }
    );
}

/// Parse iframe stream data only.
#[test]
fn test_parse_iframe() {
    let data = "#EXT-X-I-FRAME-STREAM-INF:BANDWIDTH=222552,CODECS=\"hvc1.2.4.L93.90\",RESOLUTION=1280x720,VIDEO-RANGE=PQ,URI=\"hdr10/unenc/3300k/vod-iframe.m3u8\"

#EXT-X-I-FRAME-STREAM-INF:BANDWIDTH=77758,CODECS=\"hvc1.2.4.L63.90\",RESOLUTION=640x360,VIDEO-RANGE=PQ,URI=\"hdr10/unenc/900k/vod-iframe.m3u8\"
";

    let playlist = HlsPlaylist::from_str(data).unwrap();
    println!("{playlist:?}");
    assert_eq!(
        playlist.iframe_streams.inner[1],
        IframeStreamInfo {
            common: StreamInfoCommon {
                bandwidth: 77758,
                codecs: vec!["hvc1.2.4.L63.90".to_owned()],
                resolution: Resolution {
                    width: 640,
                    height: 360,
                },
                video_range: "PQ".to_owned(),
                uri: "hdr10/unenc/900k/vod-iframe.m3u8".to_owned(),
            },
        }
    );
}

/// Expect failure on invalid m3u8 input.
#[test]
fn test_parse_fail() {
    let data = "this line should never exist in an HLS playlist!";
    assert!(HlsPlaylist::from_str(data).is_err());
}
