//! Data types of the Netease Cloud Music API responses.
use vstd::prelude::*;

verus! {

/// A music artist.
pub struct Artist {
    /// Netease artist ID.
    pub id: u64,
    /// Display name.
    pub name: String,
}

/// An album.
pub struct Album {
    /// Netease album ID.
    pub id: u64,
    /// Album title.
    pub name: String,
    /// Cover image URL.
    pub pic_url: Option<String>,
}

/// A music track (song).
pub struct Track {
    /// Netease track ID.
    pub id: u64,
    /// Song title.
    pub name: String,
    /// Performing artists.
    pub artists: Vec<Artist>,
    /// Album this track belongs to.
    pub album: Album,
    /// Duration in milliseconds.
    pub duration_ms: u64,
}

/// Abbreviated user info embedded in a [`Playlist`].
pub struct UserBrief {
    /// Netease user ID.
    pub id: u64,
    /// Display name.
    pub name: String,
}

/// A playlist (song list).
pub struct Playlist {
    /// Netease playlist ID.
    pub id: u64,
    /// Playlist title.
    pub name: String,
    /// User-written description.
    pub description: Option<String>,
    /// Cover image URL.
    pub cover_url: Option<String>,
    /// Total number of tracks in the playlist.
    pub track_count: u64,
    /// Playlist creator.
    pub creator: Option<UserBrief>,
    /// Full track list (only filled in by the playlist detail request).
    pub tracks: Option<Vec<Track>>,
}

/// Current user profile.
pub struct UserProfile {
    /// Netease user ID.
    pub id: u64,
    /// Display nickname.
    pub nickname: String,
    /// Avatar image URL.
    pub avatar_url: Option<String>,
}

/// Song lyrics in LRC format.
pub struct Lyric {
    /// Original lyrics; `None` if the track has none.
    pub lrc: Option<String>,
    /// Translated lyrics; `None` if unavailable.
    pub tlyric: Option<String>,
}

/// One page of search results: exactly one of `tracks`, `albums`,
/// `playlists` and `artists` is `Some`, the one of the search type.
pub struct SearchResult {
    /// Total number of matching results on the server.
    pub total: u64,
    /// Current page offset (0-based).
    pub offset: u64,
    /// Page size.
    pub limit: u64,
    /// Matched tracks (track search).
    pub tracks: Option<Vec<Track>>,
    /// Matched albums (album search).
    pub albums: Option<Vec<Album>>,
    /// Matched playlists (playlist search).
    pub playlists: Option<Vec<Playlist>>,
    /// Matched artists (artist search).
    pub artists: Option<Vec<Artist>>,
}

/// Search target type.
#[derive(Clone, Copy, Debug, PartialEq, Eq, Structural)]
pub enum SearchType {
    Track,
    Album,
    Artist,
    Playlist,
}

/// The API `type` parameter of each search type.
pub open spec fn search_type_value(t: SearchType) -> u64 {
    match t {
        SearchType::Track => 1,
        SearchType::Album => 10,
        SearchType::Artist => 100,
        SearchType::Playlist => 1000,
    }
}

impl SearchType {
    /// The value of the API `type` parameter: 1, 10, 100 or 1000.
    pub fn api_value(self) -> (v: u64)
        ensures
            v == search_type_value(self),
    {
        match self {
            SearchType::Track => 1,
            SearchType::Album => 10,
            SearchType::Artist => 100,
            SearchType::Playlist => 1000,
        }
    }
}

/// Audio quality requested for a playback URL.
#[derive(Clone, Copy, Debug, PartialEq, Eq, Structural)]
pub enum Quality {
    /// 128 kbps MP3.
    Standard,
    /// 192 kbps MP3.
    Higher,
    /// 320 kbps MP3.
    Exhigh,
    /// Lossless (FLAC).
    Lossless,
}

/// The bitrate sent as the API `br` parameter for each quality.
pub open spec fn quality_bitrate(q: Quality) -> u64 {
    match q {
        Quality::Standard => 128_000,
        Quality::Higher => 192_000,
        Quality::Exhigh => 320_000,
        Quality::Lossless => 999_000,
    }
}

/// The rank of a quality, from `Standard` (0) to `Lossless` (3).
pub open spec fn quality_rank(q: Quality) -> int {
    match q {
        Quality::Standard => 0,
        Quality::Higher => 1,
        Quality::Exhigh => 2,
        Quality::Lossless => 3,
    }
}

impl Quality {
    /// The bitrate value sent to the API `br` parameter.
    pub fn bitrate(self) -> (br: u64)
        ensures
            br == quality_bitrate(self),
    {
        match self {
            Quality::Standard => 128_000,
            Quality::Higher => 192_000,
            Quality::Exhigh => 320_000,
            Quality::Lossless => 999_000,
        }
    }
}

/// Each quality asks for its bitrate in bits per second: 128, 192 and 320
/// kbps for the MP3 qualities and 999 kbps for lossless.
pub proof fn lemma_bitrate_kbps(q: Quality)
    ensures
        quality_bitrate(q) % 1000 == 0,
        quality_bitrate(q) / 1000 == match q {
            Quality::Standard => 128int,
            Quality::Higher => 192int,
            Quality::Exhigh => 320int,
            Quality::Lossless => 999int,
        },
{
}

/// A higher quality always asks for a higher bitrate.
pub proof fn lemma_bitrate_increases_with_quality(a: Quality, b: Quality)
    requires
        quality_rank(a) < quality_rank(b),
    ensures
        quality_bitrate(a) < quality_bitrate(b),
{
}

/// The search type codes are the powers of ten in the order track, album,
/// artist, playlist, so no two types share a code.
pub proof fn lemma_search_type_codes(t: SearchType)
    ensures
        search_type_value(t) == match t {
            SearchType::Track => 1int,
            SearchType::Album => 10int,
            SearchType::Artist => 100int,
            SearchType::Playlist => 1000int,
        },
        forall|u: SearchType| u != t ==> search_type_value(u) != search_type_value(t),
{
}

/// A duration in milliseconds shown as whole minutes and the seconds past
/// them.
pub fn minutes_seconds(duration_ms: u64) -> (ms: (u64, u64))
    ensures
        ms.0 == duration_ms / 60000,
        ms.1 == (duration_ms / 1000) % 60,
        ms.1 < 60,
        ms.0 * 60000 + ms.1 * 1000 <= duration_ms < ms.0 * 60000 + ms.1 * 1000 + 1000,
{
    (duration_ms / 60000, (duration_ms / 1000) % 60)
}

} // verus!
