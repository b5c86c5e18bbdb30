use yplayer::api::models::{LibraryView, YAlbum, YArtist, YPlaylist, YTrack};
use yplayer::utils::helpers::{
    artist_names, format_duration, format_duration_long, format_relative_time, progress_bar,
    truncate_string, Quality,
};
use yplayer::utils::text::{decimal_string, join_strings};

fn artist(name: &str) -> YArtist {
    YArtist {
        id: name.to_lowercase(),
        name: name.to_string(),
        cover_uri: None,
        genres: vec!["rock".to_string(), "pop".to_string()],
        tracks_count: None,
        albums_count: None,
        liked: false,
    }
}

fn album(title: &str) -> YAlbum {
    YAlbum {
        id: "1".to_string(),
        title: title.to_string(),
        artists: vec![artist("A"), artist("B")],
        cover_uri: None,
        track_count: 0,
        year: None,
        genre: None,
        liked: false,
        tracks: vec![],
    }
}

fn sample_track() -> YTrack {
    YTrack {
        id: "42".to_string(),
        title: "Song".to_string(),
        artists: vec![artist("Ann"), artist("Bob")],
        albums: vec![album("First"), album("Second")],
        duration_ms: 185_999,
        cover_uri: None,
        lyrics_available: false,
        explicit: false,
        track_position: None,
        liked: false,
    }
}

#[test]
fn durations_are_minutes_and_seconds() {
    assert_eq!(format_duration(0), "00:00");
    assert_eq!(format_duration(61_000), "01:01");
    assert_eq!(format_duration(599_999), "09:59");
    assert_eq!(format_duration(3_600_000), "60:00");
    assert_eq!(format_duration(6_000_000), "100:00");
}

#[test]
fn long_durations_show_hours() {
    assert_eq!(format_duration_long(59_000), "00:59");
    assert_eq!(format_duration_long(3_599_000), "59:59");
    assert_eq!(format_duration_long(3_661_000), "1:01:01");
    assert_eq!(format_duration_long(36_000_000), "10:00:00");
}

#[test]
fn progress_bar_fills_then_empties() {
    assert_eq!(progress_bar(2, 3), "██───");
    assert_eq!(progress_bar(0, 2), "──");
    assert_eq!(progress_bar(0, 0), "");
}

#[test]
fn truncation_adds_an_ellipsis() {
    assert_eq!(truncate_string("hello", 5), "hello");
    assert_eq!(truncate_string("hello", 3), "he…");
    assert_eq!(truncate_string("hello", 1), "…");
    assert_eq!(truncate_string("hello", 0), "…");
    assert_eq!(truncate_string("привет", 4), "при…");
    assert_eq!(truncate_string("", 0), "");
}

#[test]
fn artist_names_are_joined() {
    assert_eq!(artist_names(&[]), "");
    assert_eq!(artist_names(&[artist("Ann")]), "Ann");
    assert_eq!(artist_names(&[artist("Ann"), artist("Bob"), artist("Cy")]), "Ann, Bob, Cy");
}

#[test]
fn relative_times() {
    assert_eq!(format_relative_time(-5).as_deref(), Some("только что"));
    assert_eq!(format_relative_time(59).as_deref(), Some("только что"));
    assert_eq!(format_relative_time(60).as_deref(), Some("1 мин. назад"));
    assert_eq!(format_relative_time(3599).as_deref(), Some("59 мин. назад"));
    assert_eq!(format_relative_time(7200).as_deref(), Some("2 ч. назад"));
    assert_eq!(format_relative_time(172_800).as_deref(), Some("2 дн. назад"));
    assert_eq!(format_relative_time(604_799).as_deref(), Some("6 дн. назад"));
    assert_eq!(format_relative_time(604_800), None);
}

#[test]
fn quality_settings_ignore_case() {
    assert_eq!(Quality::from_str("flac"), Quality::Flac);
    assert_eq!(Quality::from_str("FLAC"), Quality::Flac);
    assert_eq!(Quality::from_str("Mp3"), Quality::Mp3_320);
    assert_eq!(Quality::from_str("mp3_320"), Quality::Mp3_320);
    assert_eq!(Quality::from_str("AAC"), Quality::Aac);
    assert_eq!(Quality::from_str("ogg"), Quality::Any);
    assert_eq!(Quality::from_str(""), Quality::Any);
    assert_eq!(Quality::from_lowercase("FLAC"), Quality::Any);
}

#[test]
fn quality_priorities_and_labels() {
    assert_eq!(Quality::Flac.priority(), 3);
    assert_eq!(Quality::Mp3_320.priority(), 2);
    assert_eq!(Quality::Aac.priority(), 1);
    assert_eq!(Quality::Any.priority(), 0);
    assert_eq!(Quality::Flac.to_string(), "FLAC");
    assert_eq!(Quality::Mp3_320.to_string(), "MP3 320");
    assert_eq!(Quality::Aac.to_string(), "AAC");
    assert_eq!(Quality::Any.to_string(), "Auto");
}

#[test]
fn track_texts() {
    let t = sample_track();
    assert_eq!(t.artists_str(), "Ann, Bob");
    assert_eq!(t.album_str(), "First");
    assert_eq!(t.duration_str(), "03:05");
    assert_eq!(t.display_title(), "Ann, Bob — Song");
    let mut bare = sample_track();
    bare.albums.clear();
    bare.artists.clear();
    assert_eq!(bare.album_str(), "");
    assert_eq!(bare.display_title(), " — Song");
}

#[test]
fn album_artist_and_playlist_texts() {
    assert_eq!(album("X").artists_str(), "A, B");
    assert_eq!(artist("Ann").genres_str(), "rock, pop");
    let pl = YPlaylist {
        id: "p".to_string(),
        kind: 3,
        title: "Mix".to_string(),
        owner_name: "me".to_string(),
        track_count: 2,
        cover_uri: None,
        description: None,
        duration_ms: 4_000_000,
        liked: false,
        tracks: vec![],
    };
    assert_eq!(pl.duration_str(), "66:40");
}

#[test]
fn library_views_in_order() {
    let views = LibraryView::all();
    assert_eq!(views, &[LibraryView::LikedTracks, LibraryView::Playlists, LibraryView::History]);
    assert_eq!(LibraryView::LikedTracks.name(), "Мне нравится");
    assert_eq!(LibraryView::Playlists.name(), "Плейлисты");
    assert_eq!(LibraryView::History.name(), "История");
    assert_eq!(LibraryView::LikedTracks.icon(), "♥");
    assert_eq!(LibraryView::Playlists.icon(), "♪");
    assert_eq!(LibraryView::History.icon(), "⏱");
}

#[test]
fn copies_keep_the_fields() {
    let t = sample_track();
    let c = t.clone();
    assert_eq!(c, t);
    let a = album("Z");
    assert_eq!(a.clone(), a);
}

#[test]
fn numbers_in_decimal() {
    assert_eq!(decimal_string(0), "0");
    assert_eq!(decimal_string(7), "7");
    assert_eq!(decimal_string(1234567890), "1234567890");
    assert_eq!(decimal_string(u64::MAX), "18446744073709551615");
    assert_eq!(join_strings(&["a".to_string(), "b".to_string()], "--"), "a--b");
}
