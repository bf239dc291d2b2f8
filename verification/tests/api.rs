use ncmdump::api::requests::{
    playlist_detail_request, search_request, track_detail_request, track_lyric_request,
    track_url_request, user_info_request,
};
use ncmdump::api::auth::Session;
use ncmdump::api::client::{download_extension, Client};
use ncmdump::api::error::Error;
use ncmdump::api::parse::{
    check_response, lyric_from_response, parse_albums, parse_artists, parse_creator,
    parse_playlists, parse_track, parse_tracks, playlist_from_response, profile_from_response,
    search_result_from_response, track_from_detail_response, url_from_response,
};
use ncmdump::api::types::{minutes_seconds, Quality, SearchType};
use ncmdump::json::{Json, JsonNumber};

fn s(v: &str) -> Json {
    Json::String(v.to_string())
}

fn n(v: u64) -> Json {
    Json::Number(JsonNumber::PosInt(v))
}

fn obj(members: Vec<(&str, Json)>) -> Json {
    Json::Object(members.into_iter().map(|(k, v)| (k.to_string(), v)).collect())
}

fn song(id: u64, name: &str, with_dt: bool) -> Json {
    let mut members = vec![
        ("id", n(id)),
        ("name", s(name)),
        ("ar", Json::Array(vec![obj(vec![("id", n(7)), ("name", s("Singer"))])])),
        ("al", obj(vec![("id", n(9)), ("name", s("Album")), ("picUrl", s("http://pic"))])),
    ];
    if with_dt {
        members.push(("dt", n(240000)));
    } else {
        members.push(("duration", n(123000)));
    }
    obj(members)
}

#[test]
fn parse_track_reads_all_fields() {
    let v = song(42, "Song", true);
    let t = parse_track(Some(&v));
    assert_eq!(t.id, 42);
    assert_eq!(t.name, "Song");
    assert_eq!(t.artists.len(), 1);
    assert_eq!(t.artists[0].id, 7);
    assert_eq!(t.artists[0].name, "Singer");
    assert_eq!(t.album.id, 9);
    assert_eq!(t.album.name, "Album");
    assert_eq!(t.album.pic_url.as_deref(), Some("http://pic"));
    assert_eq!(t.duration_ms, 240000);
}

#[test]
fn parse_track_falls_back_to_alternative_fields() {
    let v = obj(vec![
        ("id", n(1)),
        ("artists", Json::Array(vec![obj(vec![("id", n(3)), ("name", s("A"))])])),
        ("al", Json::Null),
        ("album", obj(vec![("id", n(5)), ("name", s("B"))])),
        ("duration", n(1000)),
    ]);
    let t = parse_track(Some(&v));
    assert_eq!(t.name, "");
    assert_eq!(t.artists[0].name, "A");
    assert_eq!(t.album.id, 5);
    assert_eq!(t.album.pic_url, None);
    assert_eq!(t.duration_ms, 1000);
    // Track lists fall back to `duration` too.
    let tracks = parse_tracks(Some(&vec![v]));
    assert_eq!(tracks[0].duration_ms, 1000);
}

#[test]
fn parse_lists_of_none_are_empty() {
    assert!(parse_tracks(None).is_empty());
    assert!(parse_albums(None).is_empty());
    assert!(parse_artists(None).is_empty());
    assert!(parse_playlists(None).is_empty());
}

#[test]
fn parse_creator_null_is_none() {
    assert!(parse_creator(Some(&Json::Null)).is_none());
    assert!(parse_creator(None).is_none());
    let c = parse_creator(Some(&obj(vec![("userId", n(11)), ("nickname", s("me"))]))).unwrap();
    assert_eq!(c.id, 11);
    assert_eq!(c.name, "me");
}

#[test]
fn search_fills_exactly_the_requested_kind() {
    let resp = obj(vec![
        ("code", n(200)),
        (
            "result",
            obj(vec![
                ("songCount", n(268)),
                ("songs", Json::Array(vec![song(1, "x", true), song(2, "y", false)])),
                ("albumCount", n(5)),
                ("albums", Json::Array(vec![obj(vec![("id", n(456)), ("name", s("al"))])])),
            ]),
        ),
    ]);
    let sr = search_result_from_response(&resp, SearchType::Track, 20, 0);
    assert_eq!(sr.total, 268);
    assert_eq!(sr.limit, 20);
    assert_eq!(sr.offset, 0);
    let tracks = sr.tracks.unwrap();
    assert_eq!(tracks.len(), 2);
    assert_eq!(tracks[0].duration_ms, 240000);
    assert_eq!(tracks[1].duration_ms, 123000);
    assert!(sr.albums.is_none() && sr.artists.is_none() && sr.playlists.is_none());

    let sr = search_result_from_response(&resp, SearchType::Album, 10, 30);
    assert_eq!(sr.total, 5);
    assert_eq!(sr.offset, 30);
    assert_eq!(sr.albums.unwrap()[0].id, 456);
    assert!(sr.tracks.is_none() && sr.artists.is_none() && sr.playlists.is_none());

    let sr = search_result_from_response(&resp, SearchType::Playlist, 10, 0);
    assert_eq!(sr.total, 0);
    assert!(sr.playlists.unwrap().is_empty());
}

#[test]
fn playlist_detail_includes_tracks() {
    let resp = obj(vec![(
        "playlist",
        obj(vec![
            ("id", n(123456)),
            ("name", s("list")),
            ("description", s("desc")),
            ("coverImgUrl", s("https://c")),
            ("trackCount", n(2)),
            ("creator", obj(vec![("userId", n(789)), ("nickname", s("user"))])),
            ("tracks", Json::Array(vec![song(1, "a", true), song(2, "b", false)])),
        ]),
    )]);
    let p = playlist_from_response(&resp);
    assert_eq!(p.id, 123456);
    assert_eq!(p.description.as_deref(), Some("desc"));
    assert_eq!(p.cover_url.as_deref(), Some("https://c"));
    assert_eq!(p.track_count, 2);
    assert_eq!(p.creator.unwrap().name, "user");
    let tracks = p.tracks.unwrap();
    assert_eq!(tracks[1].duration_ms, 123000);
}

#[test]
fn playlist_detail_without_track_array_has_empty_tracks() {
    let resp = obj(vec![("playlist", obj(vec![("id", n(7)), ("tracks", Json::Null)]))]);
    let p = playlist_from_response(&resp);
    assert_eq!(p.id, 7);
    assert_eq!(p.tracks.map(|t| t.len()), Some(0));
    let p = playlist_from_response(&obj(vec![]));
    assert_eq!(p.tracks.map(|t| t.len()), Some(0));
}

#[test]
fn search_track_without_dt_uses_duration() {
    let resp = obj(vec![(
        "result",
        obj(vec![(
            "songs",
            Json::Array(vec![obj(vec![("id", n(7)), ("name", s("x")), ("duration", n(240000))])]),
        )]),
    )]);
    let sr = search_result_from_response(&resp, SearchType::Track, 20, 0);
    let tracks = sr.tracks.unwrap();
    assert_eq!(tracks.len(), 1);
    assert_eq!(tracks[0].id, 7);
    assert_eq!(tracks[0].name, "x");
    assert_eq!(tracks[0].duration_ms, 240000);
}

#[test]
fn empty_lyrics_are_none() {
    let resp = obj(vec![
        ("code", n(200)),
        ("lrc", obj(vec![("lyric", s(""))])),
        ("tlyric", obj(vec![("lyric", s(""))])),
    ]);
    let l = lyric_from_response(&resp);
    assert!(l.lrc.is_none());
    assert!(l.tlyric.is_none());
    let resp = obj(vec![("lrc", obj(vec![("lyric", Json::Null)])), ("tlyric", obj(vec![("lyric", s("t"))]))]);
    let l = lyric_from_response(&resp);
    assert!(l.lrc.is_none());
    assert_eq!(l.tlyric.as_deref(), Some("t"));
}

#[test]
fn playlist_search_has_no_tracks() {
    let items = vec![obj(vec![("id", n(101)), ("name", s("p")), ("trackCount", n(50))])];
    let ps = parse_playlists(Some(&items));
    assert_eq!(ps[0].id, 101);
    assert_eq!(ps[0].track_count, 50);
    assert!(ps[0].creator.is_none());
    assert!(ps[0].tracks.is_none());
}

#[test]
fn track_detail_errors() {
    let missing = obj(vec![("code", n(200))]);
    assert!(matches!(track_from_detail_response(&missing, 5), Err(Error::MissSong)));
    let empty = obj(vec![("songs", Json::Array(vec![]))]);
    assert!(matches!(
        track_from_detail_response(&empty, 5),
        Err(Error::TrackNotFound { id: 5 })
    ));
    let one = obj(vec![("songs", Json::Array(vec![song(5, "s", true)]))]);
    assert_eq!(track_from_detail_response(&one, 5).ok().unwrap().name, "s");
}

#[test]
fn track_url_unavailable_when_null() {
    let null_url = obj(vec![("data", Json::Array(vec![obj(vec![("url", Json::Null)])]))]);
    assert!(matches!(url_from_response(&null_url), Err(Error::TrackUnavailable)));
    let ok = obj(vec![("data", Json::Array(vec![obj(vec![("url", s("https://m7/x.flac"))])]))]);
    assert_eq!(url_from_response(&ok).ok().unwrap(), "https://m7/x.flac");
}

#[test]
fn lyric_and_profile() {
    let resp = obj(vec![("lrc", obj(vec![("lyric", s("[00:00.00]a"))])), ("tlyric", obj(vec![]))]);
    let l = lyric_from_response(&resp);
    assert_eq!(l.lrc.as_deref(), Some("[00:00.00]a"));
    assert!(l.tlyric.is_none());
    let resp = obj(vec![(
        "profile",
        obj(vec![("userId", n(413184081)), ("nickname", s("nick")), ("avatarUrl", s("https://a"))]),
    )]);
    let p = profile_from_response(&resp);
    assert_eq!(p.id, 413184081);
    assert_eq!(p.nickname, "nick");
    assert_eq!(p.avatar_url.as_deref(), Some("https://a"));
}

#[test]
fn check_response_codes() {
    assert!(check_response(&obj(vec![("code", n(200))])).is_ok());
    assert!(check_response(&obj(vec![])).is_ok());
    match check_response(&obj(vec![("code", n(301)), ("msg", s("need login"))])) {
        Err(Error::Api { code, message }) => {
            assert_eq!(code, 301);
            assert_eq!(message, "need login");
        }
        _ => panic!("expected an API error"),
    }
    match check_response(&obj(vec![("code", Json::Number(JsonNumber::NegInt(-460)))])) {
        Err(Error::Api { code, message }) => {
            assert_eq!(code, -460);
            assert_eq!(message, "unknown error");
        }
        _ => panic!("expected an API error"),
    }
    // A `message` that is not a string hides `msg`.
    match check_response(&obj(vec![("code", n(400)), ("message", Json::Null), ("msg", s("m"))])) {
        Err(Error::Api { message, .. }) => assert_eq!(message, "unknown error"),
        _ => panic!("expected an API error"),
    }
}

#[test]
fn session_cookie_and_login() {
    let none = Session { music_u: None };
    assert!(none.cookie_header().is_none());
    assert!(!none.is_logged_in());
    let empty = Session { music_u: Some(String::new()) };
    assert!(!empty.is_logged_in());
    assert_eq!(empty.cookie_header().unwrap(), "os=pc; __remember_me=true; MUSIC_U=");
    let set = Session { music_u: Some("abc".to_string()) };
    assert!(set.is_logged_in());
    assert_eq!(set.cookie_header().unwrap(), "os=pc; __remember_me=true; MUSIC_U=abc");
}

#[test]
fn client_prepares_requests() {
    let client = Client::with_session(Session { music_u: Some("u".to_string()) });
    assert_eq!(client.session().music_u.as_deref(), Some("u"));
    assert!(client.require_login().is_ok());
    let req = client.prepare_request("/song/detail", r#"{"id":1}"#);
    assert_eq!(req.url, "https://music.163.com/weapi/song/detail");
    assert_eq!(req.cookie.as_deref(), Some("os=pc; __remember_me=true; MUSIC_U=u"));
    let params = req.body.strip_prefix("params=").unwrap();
    let (params, key) = params.split_once("&encSecKey=").unwrap();
    assert!(!params.contains('+') && !params.contains('/') && !params.contains('='));
    assert_eq!(key.len(), 256);
    let anonymous = Client::with_session(Session { music_u: None });
    assert!(matches!(anonymous.require_login(), Err(Error::NotLoggedIn)));
    assert!(anonymous.prepare_request("/x", "{}").cookie.is_none());
}

#[test]
fn quality_and_search_values() {
    assert_eq!(Quality::Standard.bitrate(), 128_000);
    assert_eq!(Quality::Higher.bitrate(), 192_000);
    assert_eq!(Quality::Exhigh.bitrate(), 320_000);
    assert_eq!(Quality::Lossless.bitrate(), 999_000);
    assert_eq!(SearchType::Track.api_value(), 1);
    assert_eq!(SearchType::Album.api_value(), 10);
    assert_eq!(SearchType::Artist.api_value(), 100);
    assert_eq!(SearchType::Playlist.api_value(), 1000);
}

#[test]
fn download_names_and_durations() {
    assert_eq!(download_extension("https://m701.music.126.net/a/b.flac?x=1"), "flac");
    assert_eq!(download_extension("https://m701.music.126.net/a/b.mp3"), "mp3");
    assert_eq!(minutes_seconds(263546), (4, 23));
    assert_eq!(minutes_seconds(59999), (0, 59));
}

#[test]
fn request_payloads_are_exact() {
    let r = playlist_detail_request(123456);
    assert_eq!(r.endpoint, "/v6/playlist/detail");
    assert_eq!(r.data, r#"{"id":123456,"n":100000}"#);
    let r = search_request("周杰伦", SearchType::Track, 20, 0);
    assert_eq!(r.endpoint, "/cloudsearch/get/web");
    assert_eq!(r.data, r#"{"limit":20,"offset":0,"s":"周杰伦","type":1}"#);
    let r = search_request("a\"b\\c\n\u{1}", SearchType::Playlist, 5, 10);
    assert_eq!(r.data, "{\"limit\":5,\"offset\":10,\"s\":\"a\\\"b\\\\c\\n\\u0001\",\"type\":1000}");
    let r = track_detail_request(42);
    assert_eq!(r.data, r#"{"c":"[{\"id\":42}]","ids":"[42]"}"#);
    let r = track_url_request(42, Quality::Lossless);
    assert_eq!(r.data, r#"{"br":999000,"ids":"[42]"}"#);
    let r = track_lyric_request(7);
    assert_eq!(r.data, r#"{"id":7,"lv":-1,"tv":-1}"#);
    let r = user_info_request();
    assert_eq!(r.data, "{}");
}
