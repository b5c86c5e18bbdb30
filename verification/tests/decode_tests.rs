use yplayer::api::decode::{jfield, parse_album, parse_artist, parse_id, parse_playlist, parse_track, parse_tracks};
use yplayer::api::json::Json;
use yplayer::api::models::YTrackDownloadInfo;
use yplayer::api::paths::{api_url, search_path, tracks_batch_path};
use yplayer::api::responses::{
    album_from, artist_tracks, choose_download, download_infos, history_track_ids, liked_track_ids,
    lyrics_of, mark_liked, playlist_tracks, response_result, search_result, uid_of,
};
use yplayer::utils::helpers::Quality;

fn s(v: &str) -> Json {
    Json::Str(v.to_string())
}

fn obj(members: Vec<(&str, Json)>) -> Json {
    Json::Object(members.into_iter().map(|(k, v)| (k.to_string(), v)).collect())
}

fn arr(items: Vec<Json>) -> Json {
    Json::Array(items)
}

fn track_json(id: Json, title: &str) -> Json {
    obj(vec![
        ("id", id),
        ("title", s(title)),
        ("artists", arr(vec![obj(vec![("id", Json::PosInt(1)), ("name", s("Ann"))]), obj(vec![("id", Json::PosInt(2))])])),
        ("albums", arr(vec![obj(vec![("id", Json::PosInt(9)), ("title", s("Alb")), ("coverUri", s("c/%%"))])])),
        ("durationMs", Json::PosInt(200_000)),
        ("lyricsInfo", obj(vec![("hasAvailableSyncLyrics", Json::Bool(true))])),
    ])
}

#[test]
fn ids_from_numbers_and_strings() {
    assert_eq!(parse_id(&Json::PosInt(12)), Some("12".to_string()));
    assert_eq!(parse_id(&Json::NegInt(-7)), Some("-7".to_string()));
    assert_eq!(parse_id(&s("abc")), Some("abc".to_string()));
    assert_eq!(parse_id(&Json::PosInt(u64::MAX)), None);
    assert_eq!(parse_id(&Json::Null), None);
    assert_eq!(parse_id(&Json::Float), None);
}

#[test]
fn camel_case_wins_unless_null() {
    let v = obj(vec![("durationMs", Json::Null), ("duration_ms", Json::PosInt(5))]);
    assert!(matches!(jfield(&v, "durationMs", "duration_ms"), Json::PosInt(5)));
    let w = obj(vec![("durationMs", Json::PosInt(6)), ("duration_ms", Json::PosInt(5))]);
    assert!(matches!(jfield(&w, "durationMs", "duration_ms"), Json::PosInt(6)));
    assert!(matches!(jfield(&Json::Null, "a", "b"), Json::Null));
}

#[test]
fn a_track_is_decoded() {
    let t = parse_track(&track_json(Json::PosInt(101), "Song"), true, Some(4)).unwrap();
    assert_eq!(t.id, "101");
    assert_eq!(t.title, "Song");
    assert_eq!(t.artists.len(), 1);
    assert_eq!(t.artists[0].name, "Ann");
    assert_eq!(t.albums.len(), 1);
    assert_eq!(t.albums[0].title, "Alb");
    assert_eq!(t.duration_ms, 200_000);
    assert_eq!(t.cover_uri.as_deref(), Some("c/%%"));
    assert!(t.lyrics_available);
    assert!(!t.explicit);
    assert_eq!(t.track_position, Some(4));
    assert!(t.liked);
}

#[test]
fn a_track_without_id_or_title_is_skipped() {
    assert!(parse_track(&track_json(Json::Null, "x"), false, None).is_none());
    assert!(parse_track(&obj(vec![("id", s("1"))]), false, None).is_none());
    let list = parse_tracks(&[track_json(s("a"), "A"), track_json(Json::Bool(true), "B"), track_json(s("c"), "C")], false);
    assert_eq!(list.len(), 2);
    assert_eq!(list[1].id, "c");
}

#[test]
fn track_position_falls_back() {
    let t = obj(vec![("id", s("1")), ("title", s("x")), ("index", Json::PosInt(3)), ("durationMs", Json::PosInt(4_294_967_297))]);
    let r = parse_track(&t, false, None).unwrap();
    assert_eq!(r.track_position, Some(3));
    assert_eq!(r.duration_ms, 1);
    assert!(r.cover_uri.is_none());
}

#[test]
fn artists_and_albums() {
    let a = obj(vec![
        ("id", Json::PosInt(5)),
        ("name", s("Zed")),
        ("cover", obj(vec![("uri", s("u"))])),
        ("genres", arr(vec![s("jazz"), Json::PosInt(1), s("soul")])),
        ("counts", obj(vec![("tracks", Json::PosInt(10))])),
        ("albumsCount", Json::PosInt(2)),
    ]);
    let r = parse_artist(&a).unwrap();
    assert_eq!(r.id, "5");
    assert_eq!(r.genres, vec!["jazz".to_string(), "soul".to_string()]);
    assert_eq!(r.tracks_count, Some(10));
    assert_eq!(r.albums_count, Some(2));
    assert_eq!(r.cover_uri.as_deref(), Some("u"));
    assert!(parse_artist(&obj(vec![("id", Json::PosInt(5))])).is_none());
    let al = obj(vec![("title", s("T")), ("track_count", Json::PosInt(12)), ("year", Json::PosInt(1999))]);
    let r = parse_album(&al).unwrap();
    assert_eq!(r.id, "");
    assert_eq!(r.track_count, 12);
    assert_eq!(r.year, Some(1999));
}

#[test]
fn playlists() {
    let p = obj(vec![("kind", Json::PosInt(1003)), ("title", s("Mix")), ("owner", obj(vec![("login", s("me"))])), ("ogImage", s("img"))]);
    let r = parse_playlist(&p).unwrap();
    assert_eq!(r.id, "1003");
    assert_eq!(r.kind, 1003);
    assert_eq!(r.owner_name, "me");
    assert_eq!(r.cover_uri.as_deref(), Some("img"));
    let q = obj(vec![("playlistUuid", s("uuid")), ("title", s("X"))]);
    let r = parse_playlist(&q).unwrap();
    assert_eq!(r.id, "uuid");
    assert_eq!(r.kind, 0);
    assert!(parse_playlist(&obj(vec![("kind", Json::PosInt(1))])).is_none());
}

#[test]
fn responses_are_unwrapped() {
    let ok = obj(vec![("result", Json::PosInt(1))]);
    assert!(matches!(response_result(&ok), Ok(Json::PosInt(1))));
    let err = obj(vec![("error", obj(vec![("message", s("bad"))])), ("result", Json::Null)]);
    assert_eq!(response_result(&err).err(), Some("bad".to_string()));
    let err2 = obj(vec![("error", obj(vec![]))]);
    assert_eq!(response_result(&err2).err(), Some("Unknown error".to_string()));
    let missing = obj(vec![("error", s("not an object"))]);
    assert_eq!(response_result(&missing).err(), Some("Missing 'result' in response".to_string()));
}

#[test]
fn account_uid_and_liked_ids() {
    let st = obj(vec![("account", obj(vec![("uid", Json::PosInt(77))]))]);
    assert_eq!(uid_of(&st), Some(77));
    let st2 = obj(vec![("account", obj(vec![("uid", Json::NegInt(-1))]))]);
    assert_eq!(uid_of(&st2), Some(u64::MAX));
    assert_eq!(uid_of(&obj(vec![])), None);
    let likes = obj(vec![("library", obj(vec![("tracks", arr(vec![
        obj(vec![("id", s("1"))]),
        obj(vec![("albumId", s("x"))]),
        obj(vec![("id", Json::PosInt(2))]),
    ]))]))]);
    assert_eq!(liked_track_ids(&likes), vec!["1".to_string(), "2".to_string()]);
    let mut tracks = parse_tracks(&[track_json(s("a"), "A")], false);
    mark_liked(&mut tracks);
    assert!(tracks[0].liked);
}

#[test]
fn playlist_entries_hold_tracks() {
    let resp = obj(vec![("tracks", arr(vec![
        obj(vec![("index", Json::PosInt(1)), ("track", track_json(s("a"), "A"))]),
        track_json(s("b"), "B"),
        obj(vec![("track", Json::Null)]),
    ]))]);
    let ts = playlist_tracks(&resp);
    assert_eq!(ts.len(), 2);
    assert_eq!(ts[0].id, "a");
    assert_eq!(ts[0].track_position, Some(1));
    assert_eq!(ts[1].id, "b");
}

#[test]
fn an_album_with_volumes() {
    let resp = obj(vec![
        ("id", Json::PosInt(5)),
        ("liked", Json::Bool(true)),
        ("volumes", arr(vec![arr(vec![track_json(s("1"), "a")]), s("junk"), arr(vec![track_json(s("2"), "b"), track_json(s("3"), "c")])])),
    ]);
    let a = album_from(&resp);
    assert_eq!(a.id, "5");
    assert_eq!(a.title, "");
    assert!(a.liked);
    assert_eq!(a.tracks.len(), 3);
    assert_eq!(a.tracks[2].id, "3");
}

#[test]
fn artist_tracks_and_lyrics() {
    let resp = obj(vec![("tracks", arr(vec![track_json(s("1"), "a")]))]);
    assert_eq!(artist_tracks(&resp).len(), 1);
    assert!(artist_tracks(&obj(vec![])).is_empty());
    assert_eq!(lyrics_of(&obj(vec![("lyrics", s("la la"))])).as_deref(), Some("la la"));
    assert!(lyrics_of(&obj(vec![])).is_none());
}

fn play(id: &str) -> Json {
    obj(vec![("data", obj(vec![("itemId", obj(vec![("trackId", s(id))]))]))])
}

#[test]
fn history_ids_are_unique_and_limited() {
    let resp = obj(vec![("historyTabs", arr(vec![
        obj(vec![("items", arr(vec![obj(vec![("tracks", arr(vec![play("1"), play("2"), play("1")]))])]))]),
        obj(vec![("items", arr(vec![obj(vec![("tracks", arr(vec![play("3"), play("2"), play("4")]))])]))]),
    ]))]);
    assert_eq!(history_track_ids(&resp, 100), vec!["1", "2", "3", "4"]);
    assert_eq!(history_track_ids(&resp, 3), vec!["1", "2", "3"]);
    assert!(history_track_ids(&resp, 0).is_empty());
    assert!(history_track_ids(&obj(vec![]), 5).is_empty());
}

#[test]
fn search_results_are_decoded() {
    let resp = obj(vec![
        ("tracks", obj(vec![("results", arr(vec![track_json(s("1"), "a")]))])),
        ("artists", obj(vec![("results", arr(vec![obj(vec![("name", s("N"))])]))])),
        ("albums", obj(vec![("results", arr(vec![obj(vec![("title", s("T"))]), obj(vec![])]))])),
    ]);
    let r = search_result(&resp);
    assert_eq!(r.tracks.len(), 1);
    assert_eq!(r.artists.len(), 1);
    assert_eq!(r.albums.len(), 1);
    assert!(r.playlists.is_empty());
}

fn info(codec: &str, bitrate: u32) -> YTrackDownloadInfo {
    YTrackDownloadInfo { url: format!("{codec}{bitrate}"), codec: codec.to_string(), bitrate, gain: false }
}

#[test]
fn download_options_are_decoded() {
    let list = download_infos(&[obj(vec![("downloadInfoUrl", s("u")), ("codec", s("mp3")), ("bitrateInKbps", Json::PosInt(320)), ("gain", Json::Bool(true))]), obj(vec![])]);
    assert_eq!(list.len(), 2);
    assert_eq!(list[0].url, "u");
    assert_eq!(list[0].bitrate, 320);
    assert!(list[0].gain);
    assert_eq!(list[1].codec, "");
}

#[test]
fn best_download_within_quality() {
    let infos = vec![info("mp3", 192), info("flac", 900), info("mp3", 320), info("aac", 320)];
    assert_eq!(choose_download(&infos, Quality::Flac), Some(1));
    assert_eq!(choose_download(&infos, Quality::Mp3_320), Some(3));
    assert_eq!(choose_download(&infos, Quality::Aac), Some(3));
    // nothing within "any": the best bitrate overall
    assert_eq!(choose_download(&infos, Quality::Any), Some(1));
    assert_eq!(choose_download(&[], Quality::Flac), None);
    let ogg = vec![info("ogg", 100), info("ogg", 100)];
    assert_eq!(choose_download(&ogg, Quality::Any), Some(1));
}

#[test]
fn request_addresses() {
    assert_eq!(api_url("account/status"), "https://api.music.yandex.net:443/account/status");
    assert_eq!(search_path("a b&ц*", "track", 2), "search?text=a+b%26%D1%86*&page=2&type=track&nocorrect=false");
    assert_eq!(tracks_batch_path(&["1".to_string(), "2".to_string()]), "tracks?trackIds=1,2");
    assert_eq!(tracks_batch_path(&[]), "tracks?trackIds=");
}
