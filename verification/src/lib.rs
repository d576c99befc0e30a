//! Parser for HLS multivariant (master) playlists in M3U8 format.
//!
//! The library turns raw playlist text into typed records describing audio
//! renditions, variant video streams and iframe (trick-play) streams.  The
//! whole grammar is stated as specification functions over sequences of
//! characters, and the executable parser is proved to return exactly what the
//! specification says, for every input.
#![verifier::loop_isolation(false)]

pub mod attrs;
pub mod builders;
pub mod errors;
pub mod laws;
pub mod parsers;
pub mod primitives;
pub mod scan;
pub mod types;

use vstd::prelude::*;

verus! {

/// A parsed HLS multivariant playlist: every record of each kind in
/// declaration order, and the protocol version (0 when no version
/// declaration is present).
#[derive(Debug)]
pub struct HlsPlaylist {
    pub audio_streams: types::AudioStreams,
    pub streams: types::Streams,
    pub iframe_streams: types::IframeStreams,
    /// Playlist protocol version.
    pub version: usize,
}

impl View for HlsPlaylist {
    type V = types::PlaylistView;

    open spec fn view(&self) -> types::PlaylistView {
        types::PlaylistView {
            audios: self.audio_streams@,
            streams: self.streams@,
            iframes: self.iframe_streams@,
            version: self.version,
        }
    }
}

impl Default for HlsPlaylist {
    /// The empty playlist: no records, version 0.
    fn default() -> (r: Self)
        ensures
            r@ == types::spec_playlist_init(),
    {
        let r = HlsPlaylist {
            audio_streams: types::AudioStreams { inner: Vec::new() },
            streams: types::Streams { inner: Vec::new() },
            iframe_streams: types::IframeStreams { inner: Vec::new() },
            version: 0,
        };
        proof {
            assert(r@.audios =~= types::spec_playlist_init().audios);
            assert(r@.streams =~= types::spec_playlist_init().streams);
            assert(r@.iframes =~= types::spec_playlist_init().iframes);
        }
        r
    }
}

impl HlsPlaylist {
    /// Parse a whole playlist document, as [`parsers::spec_parse_playlist`]
    /// specifies: the assembled playlist exactly when the input conforms to
    /// the grammar, and the first failure in document order otherwise.
    pub fn from_str(data: &str) -> (r: Result<HlsPlaylist, errors::HlsError>)
        ensures
            match r {
                Ok(p) => parsers::spec_parse_playlist(data@) == Ok::<_, errors::ErrView>(p@),
                Err(e) => parsers::spec_parse_playlist(data@) == Err::<types::PlaylistView, _>(e@),
            },
    {
        parsers::parse_hls_playlist(data)
    }
}

} // verus!
