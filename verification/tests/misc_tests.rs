use md5::Digest;
use yplayer::api::auth::{auth_header, auth_url, token_from_input};
use yplayer::api::download::{download_url_from_fields, download_url_from_xml, scan_fields, to_hex_lower, XmlEvent};
use yplayer::api::models::YTrack;
use yplayer::app::config::{
    config_file_path, new_token_data, usable_token, AuthConfig, Config, MpvConfig, PlayerConfig, TokenData, UiConfig,
};
use yplayer::player::cache::{safe_file_name, TrackCache};
use yplayer::player::playback::{adjusted_volume, clamp_volume, PlaybackFlags};
use yplayer::player::queue::RepeatMode;
use yplayer::ui::layout::{
    clock_pair_text, clock_text, help_area, playlist_row_text, row_number_text, row_prefix,
    status_line_text, track_row_text, visible_window, vol_bar, volume_line_text,
};
use yplayer::utils::helpers::Quality;

#[test]
fn default_settings() {
    let c = Config::default();
    assert_eq!(c.player.volume, 80);
    assert_eq!(c.player.default_quality, "flac");
    assert_eq!(c.player.crossfade_ms, 0);
    assert_eq!(c.ui.theme, "dark");
    assert!(c.ui.show_cover_art);
    assert_eq!(c.ui.cover_art_protocol, "sixel");
    assert!(c.ui.vim_keybindings);
    assert_eq!(c.ui.language, "ru");
    assert!(c.auth.auto_login);
    assert_eq!(c.auth.token_path, "config.toml");
    assert_eq!(c.mpv.extra_args, vec!["--no-video", "--msg-level=all=warn", "--force-seekable=yes"]);
    assert_eq!(c.default_quality(), Quality::Flac);
    assert_eq!(PlayerConfig::default().volume, 80);
    assert_eq!(UiConfig::default().theme, "dark");
    assert!(AuthConfig::default().auto_login);
    assert_eq!(MpvConfig::default().extra_args.len(), 3);
}

#[test]
fn token_path_expands_home() {
    let mut c = Config::default();
    let home = || Some("/home/u".to_string());
    let cfg = || Some("/home/u/Library/Application Support".to_string());
    assert_eq!(c.token_path(home(), cfg()), "/home/u/Library/Application Support/yplayer/config.toml");
    assert_eq!(c.token_path(home(), cfg()), config_file_path("/home/u/Library/Application Support"));
    assert_eq!(c.token_path(home(), None), "config.toml");
    c.auth.token_path = "~/.config/yplayer/token.json".to_string();
    assert_eq!(c.token_path(home(), cfg()), "/home/u/.config/yplayer/token.json");
    assert_eq!(c.token_path(None, cfg()), "~/.config/yplayer/token.json");
    c.auth.token_path = "/etc/token.json".to_string();
    assert_eq!(c.token_path(home(), cfg()), "/etc/token.json");
    c.auth.token_path = "~x/token".to_string();
    assert_eq!(c.token_path(home(), Some("/cfg".to_string())), "~x/token");
    c.auth.token_path = "tokens/t.json".to_string();
    assert_eq!(c.token_path(home(), cfg()), "tokens/t.json");
    c.player.default_quality = "MP3".to_string();
    assert_eq!(c.default_quality(), Quality::Mp3_320);
}

#[test]
fn token_expiry_has_a_minute_of_margin() {
    let mut t = new_token_data("tok".to_string());
    assert!(!t.is_expired_at(i64::MAX));
    assert!(!t.is_expired());
    t.expires_at = Some(1000);
    assert!(!t.is_expired_at(939));
    assert!(t.is_expired_at(940));
    assert!(t.is_expired_at(2000));
    assert!(t.is_expired());
    t.expires_at = Some(i64::MAX);
    assert!(!t.is_expired());
}

#[test]
fn saved_token_is_used_until_it_expires() {
    let t = TokenData {
        access_token: "abc".to_string(),
        refresh_token: None,
        expires_at: None,
        device_code: None,
        user_code: None,
        verification_url: None,
    };
    assert_eq!(usable_token(&Some(t.clone())), Some("abc".to_string()));
    let mut old = t.clone();
    old.expires_at = Some(100);
    assert_eq!(usable_token(&Some(old)), None);
    let mut far = t;
    far.expires_at = Some(i64::MAX);
    assert_eq!(usable_token(&Some(far)), Some("abc".to_string()));
    assert_eq!(usable_token(&None), None);
}

#[test]
fn sign_in_helpers() {
    assert_eq!(auth_url(), "https://oauth.yandex.ru/authorize?response_type=token&client_id=23cabbbdc6cd418abb4b39c32c41195d");
    assert_eq!(token_from_input("  abc123 \n"), Some("abc123".to_string()));
    assert_eq!(token_from_input(" \t\n"), None);
    assert_eq!(token_from_input("\u{3000}a b\u{a0}\r\n"), Some("a b".to_string()));
    assert_eq!(auth_header("t0k"), "OAuth t0k");
}

#[test]
fn cache_file_names_are_safe() {
    assert_eq!(safe_file_name("12345"), "12345.mp3");
    assert_eq!(safe_file_name("../../etc/passwd"), "etcpasswd.mp3");
    assert_eq!(safe_file_name("a_b-C:9"), "a_b-C9.mp3");
    assert_eq!(safe_file_name("трек"), ".mp3");
}

#[test]
fn cache_paths_live_in_the_cache_dir() {
    let c = TrackCache::new(Some("/tmp/yplayer-test-cache-base".to_string()));
    assert_eq!(c.dir_path(), "/tmp/yplayer-test-cache-base/yplayer/tracks");
    assert_eq!(c.path("../x"), "/tmp/yplayer-test-cache-base/yplayer/tracks/x.mp3");
    assert!(!c.has("nothing-here"));
    assert!(c.get("nothing-here").is_none());
    let d = TrackCache::new(None);
    assert_eq!(d.dir_path(), "~/.cache/yplayer/tracks");
}

#[test]
fn end_of_replaced_file_is_ignored() {
    let mut f = PlaybackFlags::new();
    f.end_of_file();
    assert!(f.pending_next());
    f.track_started();
    assert!(!f.pending_next());
    f.end_of_file();
    assert!(!f.pending_next());
    f.end_of_file();
    assert!(f.pending_next());
    f.clear_pending_next();
    assert!(!f.pending_next());
    f.track_started();
    assert!(f.take_suppress_next_end_file());
    assert!(!f.take_suppress_next_end_file());
}

#[test]
fn volume_stays_in_range() {
    assert_eq!(clamp_volume(120), 100);
    assert_eq!(clamp_volume(55), 55);
    assert_eq!(adjusted_volume(98, 5), 100);
    assert_eq!(adjusted_volume(3, -5), 0);
    assert_eq!(adjusted_volume(50, -5), 45);
    assert_eq!(adjusted_volume(255, 0), 100);
}

#[test]
fn list_windows_follow_the_cursor() {
    assert_eq!(visible_window(10, 5, 4), (3, 7));
    assert_eq!(visible_window(10, 9, 4), (6, 10));
    assert_eq!(visible_window(10, 0, 4), (0, 4));
    assert_eq!(visible_window(2, 0, 5), (0, 2));
    assert_eq!(visible_window(0, 3, 5), (0, 0));
    assert_eq!(visible_window(5, 2, 0), (2, 3));
}

fn track() -> YTrack {
    YTrack {
        id: "1".to_string(),
        title: "Song".to_string(),
        artists: vec![],
        albums: vec![],
        duration_ms: 65_000,
        cover_uri: None,
        lyrics_available: false,
        explicit: false,
        track_position: None,
        liked: false,
    }
}

#[test]
fn row_texts() {
    assert_eq!(row_prefix(true), "▸ ");
    assert_eq!(row_prefix(false), "  ");
    assert_eq!(row_number_text(0, true), "▸  1. ");
    assert_eq!(row_number_text(8, false), "   9. ");
    assert_eq!(row_number_text(41, false), "  42. ");
    assert_eq!(row_number_text(1233, false), "  1234. ");
    assert_eq!(track_row_text(&track()), " — Song [01:05]");
}

#[test]
fn playlist_row_text_has_the_count() {
    let pl = yplayer::api::models::YPlaylist {
        id: "p".to_string(),
        kind: 1,
        title: "Mix".to_string(),
        owner_name: String::new(),
        track_count: 12,
        cover_uri: None,
        description: None,
        duration_ms: 0,
        liked: false,
        tracks: vec![],
    };
    assert_eq!(playlist_row_text(2, &pl, true), "▸  3. Mix — 12 тр.");
}

#[test]
fn player_bar_texts() {
    assert_eq!(clock_text(125), "02:05");
    assert_eq!(clock_pair_text(5, 600), "00:05 / 10:00");
    assert_eq!(vol_bar(55), "█████░░░░░");
    assert_eq!(vol_bar(100), "██████████");
    assert_eq!(volume_line_text(80), " Vol:  80% [████████████████░░░░] ");
    assert_eq!(volume_line_text(5), " Vol:   5% [█░░░░░░░░░░░░░░░░░░░] ");
    let t = track();
    assert_eq!(status_line_text(Some(&t), true, true, RepeatMode::All), " ▶   — Song  🔀 🔁 ");
    assert_eq!(status_line_text(None, false, false, RepeatMode::Off), " ⏸  — нет трека —  ");
}

#[test]
fn help_box_is_centred() {
    assert_eq!(help_area(0, 0, 100, 40), (19, 12, 62, 16));
    assert_eq!(help_area(0, 0, 20, 10), (1, 1, 18, 8));
    assert_eq!(help_area(5, 5, 1, 1), (5, 5, 1, 1));
}

#[test]
fn hex_of_bytes() {
    assert_eq!(to_hex_lower(&[0x0a, 0x14, 0x1e, 0xff]), "0a141eff");
    assert_eq!(to_hex_lower(&[]), "");
}

#[test]
fn download_fields_are_read_in_order() {
    let events = vec![
        XmlEvent::Tag("download-info".to_string()),
        XmlEvent::Tag("host".to_string()),
        XmlEvent::Text("h1".to_string()),
        XmlEvent::Other,
        XmlEvent::Text("ignored".to_string()),
        XmlEvent::Tag("s".to_string()),
        XmlEvent::Text("sig".to_string()),
        XmlEvent::Tag("host".to_string()),
        XmlEvent::Text("h2".to_string()),
    ];
    let (host, path, sig, ts) = scan_fields(&events);
    assert_eq!(host, "h2");
    assert_eq!(path, "");
    assert_eq!(sig, "sig");
    assert_eq!(ts, "");
}

fn expected_link(host: &str, path: &str, sig: &str, ts: &str) -> String {
    let digest = md5::Md5::digest(format!("XGRlBW9FXlekgbPrRHuSiA{}{}", &path[1..], sig).as_bytes());
    let hex: String = digest.iter().map(|b| format!("{b:02x}")).collect();
    format!("https://{host}/get-mp3/{hex}/{ts}{path}")
}

#[test]
fn download_link_is_signed() {
    let link = download_url_from_fields("s1.storage", "/get/file.mp3", "abc", "0005f");
    assert_eq!(link, expected_link("s1.storage", "/get/file.mp3", "abc", "0005f"));
    assert!(link.starts_with("https://s1.storage/get-mp3/"));
    assert!(link.ends_with("/0005f/get/file.mp3"));
}

#[test]
fn download_link_from_document() {
    let doc = "<?xml version=\"1.0\" encoding=\"utf-8\"?>\n<download-info><host>s2.storage</host><path>/x/y.mp3</path><ts>00aa</ts><region>-1</region><s>d3adb33f</s></download-info>";
    assert_eq!(download_url_from_xml(doc), Some(expected_link("s2.storage", "/x/y.mp3", "d3adb33f", "00aa")));
    let missing = "<download-info><host>h</host><path>/p</path><ts>1</ts></download-info>";
    assert_eq!(download_url_from_xml(missing), None);
    assert_eq!(download_url_from_xml("not xml at all"), None);
    let escaped = "<r><host>h</host><path>/a&amp;b</path><ts>1</ts><s>z</s></r>";
    assert_eq!(download_url_from_xml(escaped), Some(expected_link("h", "/a&b", "z", "1")));
}
