//! What each decoded value holds, field by field, in terms of the keys that
//! the WEAPI responses document. Each law starts from the relation that a
//! decoding function ensures and names the response key that every field
//! comes from.
use vstd::prelude::*;

use crate::json::{field, json_array, json_i64, json_str, json_u64, member, Json};
use super::error::Error;
use super::parse::{
    album_from, artist_from, creator_from, lyric_text, lyrics_from, playlist_detail_from, playlist_summary_from, profile_from,
    playlists_from, response_checked, search_result_from, track_detail_from, track_from,
    track_url_from,
};
use super::types::{Album, Artist, Lyric, Playlist, SearchResult, SearchType, Track, UserBrief, UserProfile};

verus! {

/// The number under `key` of the object `v`; zero where there is none.
pub open spec fn number_at(v: Option<Json>, key: Seq<char>) -> u64 {
    if let Some(n) = json_u64(field(v, key)) {
        n
    } else {
        0
    }
}

/// The text under `key` of the object `v`; empty where there is none.
pub open spec fn text_at(v: Option<Json>, key: Seq<char>) -> Seq<char> {
    if let Some(t) = json_str(field(v, key)) {
        t
    } else {
        Seq::empty()
    }
}

/// The elements of the array under `key` of the object `v`; none where
/// there is no array.
pub open spec fn list_at(v: Option<Json>, key: Seq<char>) -> Seq<Json> {
    if let Some(items) = json_array(field(v, key)) {
        items
    } else {
        Seq::empty()
    }
}

/// Looking up `key` in an object's members gives the value of the first
/// member named `key`, and nothing when no member has that name.
pub proof fn lemma_member_is_first_with_key(members: Seq<(String, Json)>, key: Seq<char>)
    ensures
        member(members, key) is None <==> (forall|i: int| 0 <= i < members.len() ==> #[trigger] members[i].0@ != key),
        member(members, key) matches Some(v) ==> exists|i: int|
            0 <= i < members.len() && #[trigger] members[i].0@ == key && members[i].1 == v && forall|k: int|
                0 <= k < i ==> #[trigger] members[k].0@ != key,
    decreases members.len(),
{
    if members.len() > 0 {
        let rest = members.drop_first();
        lemma_member_is_first_with_key(rest, key);
        if members[0].0@ == key {
            assert(members[0].0@ == key);
        } else {
            assert forall|i: int| 1 <= i < members.len() implies #[trigger] members[i].0@ == rest[i - 1].0@ by {}
            if member(rest, key) is None {
                assert forall|i: int| 0 <= i < members.len() implies #[trigger] members[i].0@ != key by {
                    if i > 0 {
                        assert(rest[i - 1].0@ != key);
                    }
                }
            } else {
                let v = member(rest, key)->0;
                let j = choose|j: int|
                    0 <= j < rest.len() && #[trigger] rest[j].0@ == key && rest[j].1 == v && forall|k: int|
                        0 <= k < j ==> #[trigger] rest[k].0@ != key;
                assert(members[j + 1].0@ == key && members[j + 1].1 == v);
                assert forall|k: int| 0 <= k < j + 1 implies #[trigger] members[k].0@ != key by {
                    if k > 0 {
                        assert(rest[k - 1].0@ != key);
                    }
                }
                assert(rest[j].0@ == key);
            }
        }
    }
}

/// An artist holds the `id` and `name` of its description.
pub proof fn lemma_artist_documented_fields(a: Artist, v: Option<Json>)
    requires
        artist_from(a, v),
    ensures
        a.id == number_at(v, "id"@),
        a.name@ == text_at(v, "name"@),
{
}

/// An album holds the `id`, `name` and `picUrl` of its description.
pub proof fn lemma_album_documented_fields(a: Album, v: Option<Json>)
    requires
        album_from(a, v),
    ensures
        a.id == number_at(v, "id"@),
        a.name@ == text_at(v, "name"@),
        a.pic_url matches Some(u) ==> json_str(field(v, "picUrl"@)) == Some(u@),
        a.pic_url is None ==> json_str(field(v, "picUrl"@)) is None,
{
}

/// A track holds the `id` and `name` of its description, one artist for
/// each entry of `ar` (or, without that array, of `artists`), the album
/// `al` (or `album` where `al` is null or missing), and the duration `dt`
/// in milliseconds (or `duration` where `dt` is no number, or zero).
pub proof fn lemma_track_documented_fields(t: Track, v: Option<Json>)
    requires
        track_from(t, v),
    ensures
        t.id == number_at(v, "id"@),
        t.name@ == text_at(v, "name"@),
        ({
            let listed = if json_array(field(v, "ar"@)) is Some {
                list_at(v, "ar"@)
            } else {
                list_at(v, "artists"@)
            };
            &&& t.artists@.len() == listed.len()
            &&& forall|i: int|
                0 <= i < listed.len() ==> t.artists@[i].id == number_at(Some(listed[i]), "id"@)
                    && t.artists@[i].name@ == text_at(Some(listed[i]), "name"@)
        }),
        ({
            let al = field(v, "al"@);
            let described = if al is None || al == Some(Json::Null) {
                field(v, "album"@)
            } else {
                al
            };
            t.album.id == number_at(described, "id"@) && t.album.name@ == text_at(described, "name"@)
        }),
        json_u64(field(v, "dt"@)) matches Some(d) ==> t.duration_ms == d,
        json_u64(field(v, "dt"@)) is None ==> t.duration_ms == number_at(v, "duration"@),
{
    let listed = if json_array(field(v, "ar"@)) is Some {
        list_at(v, "ar"@)
    } else {
        list_at(v, "artists"@)
    };
    assert forall|i: int| 0 <= i < listed.len() implies t.artists@[i].id == number_at(Some(listed[i]), "id"@)
        && t.artists@[i].name@ == text_at(Some(listed[i]), "name"@) by {
        assert(artist_from(t.artists@[i], Some(listed[i])));
    }
}

/// A creator is `None` exactly for a null or missing description, and
/// otherwise holds its `userId` and `nickname`.
pub proof fn lemma_creator_documented_fields(c: Option<UserBrief>, v: Option<Json>)
    requires
        creator_from(c, v),
    ensures
        c is None <==> (v is None || v == Some(Json::Null)),
        c matches Some(u) ==> u.id == number_at(v, "userId"@) && u.name@ == text_at(v, "nickname"@),
{
}

/// A playlist holds the `id`, `name`, `description`, `coverImgUrl`,
/// `trackCount` and `creator` of its description; its name never comes
/// from any other key.
pub proof fn lemma_playlist_documented_fields(p: Playlist, v: Option<Json>)
    requires
        playlist_summary_from(p, v),
    ensures
        p.id == number_at(v, "id"@),
        p.name@ == text_at(v, "name"@),
        p.description matches Some(d) ==> json_str(field(v, "description"@)) == Some(d@),
        p.description is None ==> json_str(field(v, "description"@)) is None,
        p.cover_url matches Some(u) ==> json_str(field(v, "coverImgUrl"@)) == Some(u@),
        p.cover_url is None ==> json_str(field(v, "coverImgUrl"@)) is None,
        p.track_count == number_at(v, "trackCount"@),
        p.creator is None <==> (field(v, "creator"@) is None || field(v, "creator"@) == Some(Json::Null)),
{
    lemma_creator_documented_fields(p.creator, field(v, "creator"@));
}

/// The playlist of a detail response is described by its `playlist`
/// object, and its tracks, always present, are one for each entry of that
/// object's `tracks` array, in order.
pub proof fn lemma_playlist_detail_documented(p: Playlist, resp: Option<Json>)
    requires
        playlist_detail_from(p, resp),
    ensures
        playlist_summary_from(p, field(resp, "playlist"@)),
        p.name@ == text_at(field(resp, "playlist"@), "name"@),
        p.tracks matches Some(ts) && ts@.len() == list_at(field(resp, "playlist"@), "tracks"@).len()
            && forall|i: int|
            0 <= i < ts@.len() ==> track_from(
                #[trigger] ts@[i],
                Some(list_at(field(resp, "playlist"@), "tracks"@)[i]),
            ),
{
    lemma_playlist_documented_fields(p, field(resp, "playlist"@));
}

/// A search result answers with the page it was asked for and the total
/// under the count key of its type, and holds results of that type only:
/// tracks from `result.songs`, albums from `result.albums`, artists from
/// `result.artists`, playlists from `result.playlists`, one per entry.
pub proof fn lemma_search_result_documented(sr: SearchResult, resp: Option<Json>, t: SearchType, limit: u64, offset: u64)
    requires
        search_result_from(sr, resp, t, limit, offset),
    ensures
        sr.limit == limit,
        sr.offset == offset,
        ({
            let result = field(resp, "result"@);
            match t {
                SearchType::Track => {
                    &&& sr.total == number_at(result, "songCount"@)
                    &&& sr.albums is None && sr.artists is None && sr.playlists is None
                    &&& sr.tracks matches Some(xs) && xs@.len() == list_at(result, "songs"@).len()
                    &&& forall|i: int|
                        0 <= i < list_at(result, "songs"@).len() ==> track_from(
                            #[trigger] sr.tracks->0@[i],
                            Some(list_at(result, "songs"@)[i]),
                        )
                },
                SearchType::Album => {
                    &&& sr.total == number_at(result, "albumCount"@)
                    &&& sr.tracks is None && sr.artists is None && sr.playlists is None
                    &&& sr.albums matches Some(xs) && xs@.len() == list_at(result, "albums"@).len()
                    &&& forall|i: int|
                        0 <= i < list_at(result, "albums"@).len() ==> album_from(
                            #[trigger] sr.albums->0@[i],
                            Some(list_at(result, "albums"@)[i]),
                        )
                },
                SearchType::Artist => {
                    &&& sr.total == number_at(result, "artistCount"@)
                    &&& sr.tracks is None && sr.albums is None && sr.playlists is None
                    &&& sr.artists matches Some(xs) && xs@.len() == list_at(result, "artists"@).len()
                    &&& forall|i: int|
                        0 <= i < list_at(result, "artists"@).len() ==> artist_from(
                            #[trigger] sr.artists->0@[i],
                            Some(list_at(result, "artists"@)[i]),
                        )
                },
                SearchType::Playlist => {
                    &&& sr.total == number_at(result, "playlistCount"@)
                    &&& sr.tracks is None && sr.albums is None && sr.artists is None
                    &&& sr.playlists matches Some(xs) && xs@.len() == list_at(result, "playlists"@).len()
                    &&& forall|i: int|
                        0 <= i < list_at(result, "playlists"@).len() ==> playlist_summary_from(
                            #[trigger] sr.playlists->0@[i],
                            Some(list_at(result, "playlists"@)[i]),
                        ) && sr.playlists->0@[i].tracks is None
                },
            }
        }),
{
}

/// An artist search gives exactly one artist for each entry listed under
/// `result.artists`, each with that entry's `id` and `name`.
pub proof fn lemma_artist_search_lists_artists(sr: SearchResult, resp: Option<Json>, limit: u64, offset: u64)
    requires
        search_result_from(sr, resp, SearchType::Artist, limit, offset),
    ensures
        ({
            let listed = list_at(field(resp, "result"@), "artists"@);
            &&& sr.artists matches Some(xs) && xs@.len() == listed.len()
            &&& forall|i: int|
                0 <= i < listed.len() ==> (#[trigger] sr.artists->0@[i]).id == number_at(Some(listed[i]), "id"@)
                    && sr.artists->0@[i].name@ == text_at(Some(listed[i]), "name"@)
        }),
{
    lemma_search_result_documented(sr, resp, SearchType::Artist, limit, offset);
    let listed = list_at(field(resp, "result"@), "artists"@);
    assert forall|i: int| 0 <= i < listed.len() implies (#[trigger] sr.artists->0@[i]).id == number_at(
        Some(listed[i]),
        "id"@,
    ) && sr.artists->0@[i].name@ == text_at(Some(listed[i]), "name"@) by {
        assert(artist_from(sr.artists->0@[i], Some(listed[i])));
    }
}

/// A track detail response gives its first `songs` entry; without a
/// `songs` array it is `MissSong`, with an empty one `TrackNotFound` for
/// the asked id.
pub proof fn lemma_track_detail_documented(res: Result<Track, Error>, resp: Option<Json>, id: u64)
    requires
        track_detail_from(res, resp, id),
    ensures
        json_array(field(resp, "songs"@)) is None ==> res is Err && res->Err_0 is MissSong,
        json_array(field(resp, "songs"@)) matches Some(songs) && songs.len() == 0 ==> res == Err::<
            Track,
            Error,
        >(Error::TrackNotFound { id }),
        list_at(resp, "songs"@).len() > 0 ==> (res matches Ok(t) && track_from(
            t,
            Some(list_at(resp, "songs"@)[0]),
        )),
{
}

/// The playback URL is the string `url` of the first entry of `data`; any
/// other answer is `TrackUnavailable`.
pub proof fn lemma_track_url_documented(res: Result<String, Error>, resp: Option<Json>)
    requires
        track_url_from(res, resp),
    ensures
        ({
            let first = if let Some(items) = json_array(field(resp, "data"@)) {
                if items.len() > 0 {
                    Some(items[0])
                } else {
                    None
                }
            } else {
                None
            };
            &&& res matches Ok(u) ==> json_str(field(first, "url"@)) == Some(u@)
            &&& res is Err <==> json_str(field(first, "url"@)) is None
        }),
{
}

/// A lyric text is present exactly when the response holds a non-empty
/// string there, and then it is that string.
pub proof fn lemma_lyric_text_documented(v: Option<Json>)
    ensures
        lyric_text(v) is Some <==> (json_str(v) is Some && json_str(v)->0.len() > 0),
        lyric_text(v) matches Some(s) ==> json_str(v) == Some(s),
{
}

/// The lyrics are the non-empty strings under `lrc.lyric` (the original
/// text) and `tlyric.lyric` (the translation).
pub proof fn lemma_lyrics_documented(l: Lyric, resp: Option<Json>)
    requires
        lyrics_from(l, resp),
    ensures
        ({
            let original = json_str(field(field(resp, "lrc"@), "lyric"@));
            let translated = json_str(field(field(resp, "tlyric"@), "lyric"@));
            &&& l.lrc matches Some(s) ==> original == Some(s@) && s@.len() > 0
            &&& l.lrc is None ==> (original is None || original == Some(Seq::<char>::empty()))
            &&& l.tlyric matches Some(s) ==> translated == Some(s@) && s@.len() > 0
            &&& l.tlyric is None ==> (translated is None || translated == Some(Seq::<char>::empty()))
        }),
{
    lemma_lyric_text_documented(field(field(resp, "lrc"@), "lyric"@));
    lemma_lyric_text_documented(field(field(resp, "tlyric"@), "lyric"@));
}

/// A profile holds the `userId`, `nickname` and `avatarUrl` of the
/// response's `profile` object.
pub proof fn lemma_profile_documented(p: UserProfile, resp: Option<Json>)
    requires
        profile_from(p, resp),
    ensures
        p.id == number_at(field(resp, "profile"@), "userId"@),
        p.nickname@ == text_at(field(resp, "profile"@), "nickname"@),
        p.avatar_url matches Some(u) ==> json_str(field(field(resp, "profile"@), "avatarUrl"@)) == Some(u@),
        p.avatar_url is None ==> json_str(field(field(resp, "profile"@), "avatarUrl"@)) is None,
{
}

/// A response is refused exactly when its `code` is an integer other than
/// 200, with that code; one without an integer `code` passes.
pub proof fn lemma_response_check_documented(res: Result<(), Error>, resp: Option<Json>)
    requires
        response_checked(res, resp),
    ensures
        res is Ok <==> (json_i64(field(resp, "code"@)) is None || json_i64(field(resp, "code"@)) == Some(200i64)),
        res matches Err(e) ==> e matches Error::Api { code, .. } && Some(code) == json_i64(field(resp, "code"@)),
        res matches Err(Error::Api { message, .. }) ==> message@ == (if field(resp, "message"@) is Some {
            if let Some(t) = json_str(field(resp, "message"@)) {
                t
            } else {
                "unknown error"@
            }
        } else if let Some(t) = json_str(field(resp, "msg"@)) {
            t
        } else {
            "unknown error"@
        }),
{
}

/// Search playlists carry no tracks.
pub proof fn lemma_search_playlists_have_no_tracks(xs: Seq<Playlist>, items: Seq<Json>)
    requires
        playlists_from(xs, items),
    ensures
        forall|i: int| 0 <= i < xs.len() ==> (#[trigger] xs[i]).tracks is None,
{
}

} // verus!
