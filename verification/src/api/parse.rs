//! Decoding of the JSON responses of the WEAPI endpoints into the API types.
use vstd::prelude::*;

use crate::json::{
    as_array, as_i64, as_string, as_u64, deref_json, element, field, get_element, get_field, is_null, json_i64, json_array, json_is_null,
    json_str, json_u64, str_or_empty, string_or_default, u64_or_default, u64_or_zero, Json,
};
use vstd::string::StrSliceExecFns;
use super::error::Error;
use super::types::{Album, Artist, Lyric, Playlist, SearchResult, SearchType, Track, UserBrief, UserProfile};

verus! {

/// The characters of an optional string.
pub open spec fn opt_string(s: Option<String>) -> Option<Seq<char>> {
    match s {
        Some(x) => Some(x@),
        None => None,
    }
}

/// `a` is the artist described by `v` (`id`, `name`).
pub open spec fn artist_from(a: Artist, v: Option<Json>) -> bool {
    &&& a.id == u64_or_zero(field(v, "id"@))
    &&& a.name@ == str_or_empty(field(v, "name"@))
}

/// `xs` are the artists described, one each, by `items`.
pub open spec fn artists_from(xs: Seq<Artist>, items: Seq<Json>) -> bool {
    &&& xs.len() == items.len()
    &&& forall|i: int| 0 <= i < xs.len() ==> artist_from(#[trigger] xs[i], Some(items[i]))
}

/// `a` is the album described by `v` (`id`, `name`, `picUrl`).
pub open spec fn album_from(a: Album, v: Option<Json>) -> bool {
    &&& a.id == u64_or_zero(field(v, "id"@))
    &&& a.name@ == str_or_empty(field(v, "name"@))
    &&& opt_string(a.pic_url) == json_str(field(v, "picUrl"@))
}

/// `xs` are the albums described, one each, by `items`.
pub open spec fn albums_from(xs: Seq<Album>, items: Seq<Json>) -> bool {
    &&& xs.len() == items.len()
    &&& forall|i: int| 0 <= i < xs.len() ==> album_from(#[trigger] xs[i], Some(items[i]))
}

/// The artist list of a track: `ar`, or else `artists`, or else nothing.
pub open spec fn track_artist_items(v: Option<Json>) -> Seq<Json> {
    match json_array(field(v, "ar"@)) {
        Some(items) => items,
        None => match json_array(field(v, "artists"@)) {
            Some(items) => items,
            None => Seq::empty(),
        },
    }
}

/// The album of a track: `al`, unless it is null, else `album`.
pub open spec fn track_album_value(v: Option<Json>) -> Option<Json> {
    if json_is_null(field(v, "al"@)) {
        field(v, "album"@)
    } else {
        field(v, "al"@)
    }
}

/// The duration of a track in milliseconds: `dt`, or else `duration`, or
/// else zero.
pub open spec fn track_duration(v: Option<Json>) -> u64 {
    match json_u64(field(v, "dt"@)) {
        Some(d) => d,
        None => u64_or_zero(field(v, "duration"@)),
    }
}

/// `t` is the track described by `v`.
pub open spec fn track_from(t: Track, v: Option<Json>) -> bool {
    &&& t.id == u64_or_zero(field(v, "id"@))
    &&& t.name@ == str_or_empty(field(v, "name"@))
    &&& artists_from(t.artists@, track_artist_items(v))
    &&& album_from(t.album, track_album_value(v))
    &&& t.duration_ms == track_duration(v)
}

/// `xs` are the tracks described, one each, by `items`.
pub open spec fn tracks_from(xs: Seq<Track>, items: Seq<Json>) -> bool {
    &&& xs.len() == items.len()
    &&& forall|i: int| 0 <= i < xs.len() ==> track_from(#[trigger] xs[i], Some(items[i]))
}

/// `c` is the playlist creator described by `v` (`userId`, `nickname`),
/// `None` where `v` is null.
pub open spec fn creator_from(c: Option<UserBrief>, v: Option<Json>) -> bool {
    if json_is_null(v) {
        c is None
    } else {
        match c {
            Some(u) => u.id == u64_or_zero(field(v, "userId"@)) && u.name@ == str_or_empty(
                field(v, "nickname"@),
            ),
            None => false,
        }
    }
}

/// The fields every playlist takes from its description `v`.
pub open spec fn playlist_summary_from(p: Playlist, v: Option<Json>) -> bool {
    &&& p.id == u64_or_zero(field(v, "id"@))
    &&& p.name@ == str_or_empty(field(v, "name"@))
    &&& opt_string(p.description) == json_str(field(v, "description"@))
    &&& opt_string(p.cover_url) == json_str(field(v, "coverImgUrl"@))
    &&& p.track_count == u64_or_zero(field(v, "trackCount"@))
    &&& creator_from(p.creator, field(v, "creator"@))
}

/// `xs` are the playlists (without tracks) described, one each, by `items`.
pub open spec fn playlists_from(xs: Seq<Playlist>, items: Seq<Json>) -> bool {
    &&& xs.len() == items.len()
    &&& forall|i: int|
        0 <= i < xs.len() ==> playlist_summary_from(#[trigger] xs[i], Some(items[i])) && xs[i].tracks is None
}

/// `xs` are described, one each, by `items`: artists.
fn parse_artist(v: Option<&Json>) -> (a: Artist)
    ensures
        artist_from(a, deref_json(v)),
{
    Artist { id: u64_or_default(get_field(v, "id")), name: string_or_default(get_field(v, "name")) }
}

/// The artists described by the elements of `arr`, none if it is `None`.
pub fn parse_artists(arr: Option<&Vec<Json>>) -> (res: Vec<Artist>)
    ensures
        match arr {
            Some(items) => artists_from(res@, items@),
            None => res@.len() == 0,
        },
{
    let mut res: Vec<Artist> = Vec::new();
    let items = match arr {
        Some(items) => items,
        None => {
            return res;
        },
    };
    let mut i: usize = 0;
    while i < items.len()
        invariant
            0 <= i <= items@.len(),
            res@.len() == i,
            forall|k: int| 0 <= k < i ==> artist_from(#[trigger] res@[k], Some(items@[k])),
        decreases items@.len() - i,
    {
        res.push(parse_artist(Some(&items[i])));
        i = i + 1;
    }
    res
}

fn parse_album(v: Option<&Json>) -> (a: Album)
    ensures
        album_from(a, deref_json(v)),
{
    Album {
        id: u64_or_default(get_field(v, "id")),
        name: string_or_default(get_field(v, "name")),
        pic_url: as_string(get_field(v, "picUrl")),
    }
}

/// The albums described by the elements of `arr`, none if it is `None`.
pub fn parse_albums(arr: Option<&Vec<Json>>) -> (res: Vec<Album>)
    ensures
        match arr {
            Some(items) => albums_from(res@, items@),
            None => res@.len() == 0,
        },
{
    let mut res: Vec<Album> = Vec::new();
    let items = match arr {
        Some(items) => items,
        None => {
            return res;
        },
    };
    let mut i: usize = 0;
    while i < items.len()
        invariant
            0 <= i <= items@.len(),
            res@.len() == i,
            forall|k: int| 0 <= k < i ==> album_from(#[trigger] res@[k], Some(items@[k])),
        decreases items@.len() - i,
    {
        res.push(parse_album(Some(&items[i])));
        i = i + 1;
    }
    res
}

/// The track described by `v`; its duration is `dt`, or else `duration`.
pub fn parse_track(v: Option<&Json>) -> (t: Track)
    ensures
        track_from(t, deref_json(v)),
{
    let artist_items = match as_array(get_field(v, "ar")) {
        Some(items) => Some(items),
        None => as_array(get_field(v, "artists")),
    };
    let artists = parse_artists(artist_items);
    let al = if is_null(get_field(v, "al")) {
        get_field(v, "album")
    } else {
        get_field(v, "al")
    };
    let duration_ms = match as_u64(get_field(v, "dt")) {
        Some(d) => d,
        None => u64_or_default(get_field(v, "duration")),
    };
    Track {
        id: u64_or_default(get_field(v, "id")),
        name: string_or_default(get_field(v, "name")),
        artists,
        album: parse_album(al),
        duration_ms,
    }
}

/// The tracks described by the elements of `arr`, none if it is `None`.
pub fn parse_tracks(arr: Option<&Vec<Json>>) -> (res: Vec<Track>)
    ensures
        match arr {
            Some(items) => tracks_from(res@, items@),
            None => res@.len() == 0,
        },
{
    let mut res: Vec<Track> = Vec::new();
    let items = match arr {
        Some(items) => items,
        None => {
            return res;
        },
    };
    let mut i: usize = 0;
    while i < items.len()
        invariant
            0 <= i <= items@.len(),
            res@.len() == i,
            forall|k: int| 0 <= k < i ==> track_from(#[trigger] res@[k], Some(items@[k])),
        decreases items@.len() - i,
    {
        res.push(parse_track(Some(&items[i])));
        i = i + 1;
    }
    res
}

/// The creator described by `v`, `None` if it is null.
pub fn parse_creator(v: Option<&Json>) -> (c: Option<UserBrief>)
    ensures
        creator_from(c, deref_json(v)),
{
    if is_null(v) {
        return None;
    }
    Some(
        UserBrief {
            id: u64_or_default(get_field(v, "userId")),
            name: string_or_default(get_field(v, "nickname")),
        },
    )
}

fn parse_playlist_summary(v: Option<&Json>) -> (p: Playlist)
    ensures
        playlist_summary_from(p, deref_json(v)),
        p.tracks is None,
{
    Playlist {
        id: u64_or_default(get_field(v, "id")),
        name: string_or_default(get_field(v, "name")),
        description: as_string(get_field(v, "description")),
        cover_url: as_string(get_field(v, "coverImgUrl")),
        track_count: u64_or_default(get_field(v, "trackCount")),
        creator: parse_creator(get_field(v, "creator")),
        tracks: None,
    }
}

/// The playlists (without tracks) described by the elements of `arr`, none
/// if it is `None`.
pub fn parse_playlists(arr: Option<&Vec<Json>>) -> (res: Vec<Playlist>)
    ensures
        match arr {
            Some(items) => playlists_from(res@, items@),
            None => res@.len() == 0,
        },
{
    let mut res: Vec<Playlist> = Vec::new();
    let items = match arr {
        Some(items) => items,
        None => {
            return res;
        },
    };
    let mut i: usize = 0;
    while i < items.len()
        invariant
            0 <= i <= items@.len(),
            res@.len() == i,
            forall|k: int|
                0 <= k < i ==> playlist_summary_from(#[trigger] res@[k], Some(items@[k])) && res@[k].tracks is None,
        decreases items@.len() - i,
    {
        res.push(parse_playlist_summary(Some(&items[i])));
        i = i + 1;
    }
    res
}

/// `p` is the playlist of the detail response `resp`, its track list
/// always present: the tracks of `playlist.tracks`, or none where the
/// response holds no track array.
pub open spec fn playlist_detail_from(p: Playlist, resp: Option<Json>) -> bool {
    let v = field(resp, "playlist"@);
    &&& playlist_summary_from(p, v)
    &&& match p.tracks {
        Some(ts) => match json_array(field(v, "tracks"@)) {
            Some(items) => tracks_from(ts@, items),
            None => ts@.len() == 0,
        },
        None => false,
    }
}

/// The playlist, with all its tracks, of a playlist detail response.
pub fn playlist_from_response(resp: &Json) -> (p: Playlist)
    ensures
        playlist_detail_from(p, Some(*resp)),
{
    let v = get_field(Some(resp), "playlist");
    let summary = parse_playlist_summary(v);
    let tracks = Some(parse_tracks(as_array(get_field(v, "tracks"))));
    Playlist { tracks, ..summary }
}

/// The result field, and its count field, of each search type.
pub open spec fn search_count_key(t: SearchType) -> Seq<char> {
    match t {
        SearchType::Track => "songCount"@,
        SearchType::Album => "albumCount"@,
        SearchType::Artist => "artistCount"@,
        SearchType::Playlist => "playlistCount"@,
    }
}

/// `sr` is the page of results of type `t` in the search response `resp`,
/// requested with `limit` and `offset`.
pub open spec fn search_result_from(sr: SearchResult, resp: Option<Json>, t: SearchType, limit: u64, offset: u64) -> bool {
    let result = field(resp, "result"@);
    &&& sr.offset == offset
    &&& sr.limit == limit
    &&& sr.total == u64_or_zero(field(result, search_count_key(t)))
    &&& match t {
        SearchType::Track => sr.albums is None && sr.artists is None && sr.playlists is None && match sr.tracks {
            Some(ts) => match json_array(field(result, "songs"@)) {
                Some(items) => tracks_from(ts@, items),
                None => ts@.len() == 0,
            },
            None => false,
        },
        SearchType::Album => sr.tracks is None && sr.artists is None && sr.playlists is None && match sr.albums {
            Some(xs) => match json_array(field(result, "albums"@)) {
                Some(items) => albums_from(xs@, items),
                None => xs@.len() == 0,
            },
            None => false,
        },
        SearchType::Artist => sr.tracks is None && sr.albums is None && sr.playlists is None && match sr.artists {
            Some(xs) => match json_array(field(result, "artists"@)) {
                Some(items) => artists_from(xs@, items),
                None => xs@.len() == 0,
            },
            None => false,
        },
        SearchType::Playlist => sr.tracks is None && sr.albums is None && sr.artists is None && match sr.playlists {
            Some(xs) => match json_array(field(result, "playlists"@)) {
                Some(items) => playlists_from(xs@, items),
                None => xs@.len() == 0,
            },
            None => false,
        },
    }
}

/// The page of search results of type `search_type` in a search response,
/// requested with `limit` and `offset`.
pub fn search_result_from_response(resp: &Json, search_type: SearchType, limit: u64, offset: u64) -> (sr: SearchResult)
    ensures
        search_result_from(sr, Some(*resp), search_type, limit, offset),
{
    let result = get_field(Some(resp), "result");
    let mut sr = SearchResult {
        total: 0,
        offset,
        limit,
        tracks: None,
        albums: None,
        playlists: None,
        artists: None,
    };
    match search_type {
        SearchType::Track => {
            sr.total = u64_or_default(get_field(result, "songCount"));
            sr.tracks = Some(parse_tracks(as_array(get_field(result, "songs"))));
        },
        SearchType::Album => {
            sr.total = u64_or_default(get_field(result, "albumCount"));
            sr.albums = Some(parse_albums(as_array(get_field(result, "albums"))));
        },
        SearchType::Artist => {
            sr.total = u64_or_default(get_field(result, "artistCount"));
            sr.artists = Some(parse_artists(as_array(get_field(result, "artists"))));
        },
        SearchType::Playlist => {
            sr.total = u64_or_default(get_field(result, "playlistCount"));
            sr.playlists = Some(parse_playlists(as_array(get_field(result, "playlists"))));
        },
    }
    sr
}

/// The outcome of a track detail response for track `id`: the first song
/// listed, `MissSong` without a song list, `TrackNotFound` for an empty one.
pub open spec fn track_detail_from(res: Result<Track, Error>, resp: Option<Json>, id: u64) -> bool {
    match json_array(field(resp, "songs"@)) {
        None => res matches Err(Error::MissSong),
        Some(songs) => if songs.len() == 0 {
            res matches Err(Error::TrackNotFound { id: e }) && e == id
        } else {
            res matches Ok(t) && track_from(t, Some(songs[0]))
        },
    }
}

/// The track of a track detail response for track `id`.
pub fn track_from_detail_response(resp: &Json, id: u64) -> (res: Result<Track, Error>)
    ensures
        track_detail_from(res, Some(*resp), id),
{
    let songs = match as_array(get_field(Some(resp), "songs")) {
        Some(songs) => songs,
        None => {
            return Err(Error::MissSong);
        },
    };
    if songs.len() == 0 {
        return Err(Error::TrackNotFound { id });
    }
    Ok(parse_track(Some(&songs[0])))
}

/// The playback URL of a track URL response: `data[0].url`, or
/// `TrackUnavailable` where it is not a string.
pub open spec fn track_url_from(res: Result<String, Error>, resp: Option<Json>) -> bool {
    match json_str(field(element(field(resp, "data"@), 0), "url"@)) {
        Some(url) => res matches Ok(u) && u@ == url,
        None => res matches Err(Error::TrackUnavailable),
    }
}

/// The playback URL of a track URL response.
pub fn url_from_response(resp: &Json) -> (res: Result<String, Error>)
    ensures
        track_url_from(res, Some(*resp)),
{
    let data = get_field(Some(resp), "data");
    match as_string(get_field(get_element(data, 0), "url")) {
        Some(url) => Ok(url),
        None => Err(Error::TrackUnavailable),
    }
}

/// A lyric text: the string `v`, unless it is missing, not a string or
/// empty (as for an instrumental track).
pub open spec fn lyric_text(v: Option<Json>) -> Option<Seq<char>> {
    match json_str(v) {
        Some(s) => if s.len() == 0 {
            None
        } else {
            Some(s)
        },
        None => None,
    }
}

/// The lyric text `v`, `None` where it is missing, not a string or empty.
fn parse_lyric_text(v: Option<&Json>) -> (res: Option<String>)
    ensures
        opt_string(res) == lyric_text(deref_json(v)),
{
    match as_string(v) {
        Some(s) => if s.as_str().unicode_len() == 0 {
            None
        } else {
            Some(s)
        },
        None => None,
    }
}

/// `lyric` holds the lyrics of the lyric response `resp`.
pub open spec fn lyrics_from(lyric: Lyric, resp: Option<Json>) -> bool {
    &&& opt_string(lyric.lrc) == lyric_text(field(field(resp, "lrc"@), "lyric"@))
    &&& opt_string(lyric.tlyric) == lyric_text(field(field(resp, "tlyric"@), "lyric"@))
}

/// The lyrics of a lyric response: `lrc.lyric` and `tlyric.lyric`, each
/// `None` where it is missing or empty.
pub fn lyric_from_response(resp: &Json) -> (lyric: Lyric)
    ensures
        lyrics_from(lyric, Some(*resp)),
        opt_string(lyric.lrc) == lyric_text(field(field(Some(*resp), "lrc"@), "lyric"@)),
        opt_string(lyric.tlyric) == lyric_text(field(field(Some(*resp), "tlyric"@), "lyric"@)),
{
    Lyric {
        lrc: parse_lyric_text(get_field(get_field(Some(resp), "lrc"), "lyric")),
        tlyric: parse_lyric_text(get_field(get_field(Some(resp), "tlyric"), "lyric")),
    }
}

/// `profile` is the user profile of the account response `resp`.
pub open spec fn profile_from(profile: UserProfile, resp: Option<Json>) -> bool {
    let p = field(resp, "profile"@);
    &&& profile.id == u64_or_zero(field(p, "userId"@))
    &&& profile.nickname@ == str_or_empty(field(p, "nickname"@))
    &&& opt_string(profile.avatar_url) == json_str(field(p, "avatarUrl"@))
}

/// The user profile of an account response: `profile.userId`,
/// `profile.nickname`, `profile.avatarUrl`.
pub fn profile_from_response(resp: &Json) -> (profile: UserProfile)
    ensures
        profile_from(profile, Some(*resp)),
        profile.id == u64_or_zero(field(field(Some(*resp), "profile"@), "userId"@)),
        profile.nickname@ == str_or_empty(field(field(Some(*resp), "profile"@), "nickname"@)),
        opt_string(profile.avatar_url) == json_str(field(field(Some(*resp), "profile"@), "avatarUrl"@)),
{
    let p = get_field(Some(resp), "profile");
    UserProfile {
        id: u64_or_default(get_field(p, "userId")),
        nickname: string_or_default(get_field(p, "nickname")),
        avatar_url: as_string(get_field(p, "avatarUrl")),
    }
}

/// The error message of a failed response: `message`, or else `msg`, as a
/// string, or else `"unknown error"`.
pub open spec fn error_message(resp: Option<Json>) -> Seq<char> {
    let m = match field(resp, "message"@) {
        Some(x) => Some(x),
        None => field(resp, "msg"@),
    };
    match json_str(m) {
        Some(s) => s,
        None => "unknown error"@,
    }
}

/// A response is refused exactly when its `code` is an integer other than
/// 200; the error carries that code and the response's error message.
pub open spec fn response_checked(res: Result<(), Error>, resp: Option<Json>) -> bool {
    match json_i64(field(resp, "code"@)) {
        Some(code) => if code != 200 {
            res matches Err(Error::Api { code: c, message: m }) && c == code && m@ == error_message(resp)
        } else {
            res is Ok
        },
        None => res is Ok,
    }
}

/// Checks the `code` of a response.
pub fn check_response(resp: &Json) -> (res: Result<(), Error>)
    ensures
        response_checked(res, Some(*resp)),
{
    match as_i64(get_field(Some(resp), "code")) {
        Some(code) => {
            if code != 200 {
                let m = match get_field(Some(resp), "message") {
                    Some(x) => Some(x),
                    None => get_field(Some(resp), "msg"),
                };
                let message = match as_string(m) {
                    Some(s) => s,
                    None => String::from_str("unknown error"),
                };
                Err(Error::Api { code, message })
            } else {
                Ok(())
            }
        },
        None => Ok(()),
    }
}

} // verus!
