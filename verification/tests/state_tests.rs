use yplayer::api::models::{LibraryView, YPlaylist, YTrack};
use yplayer::app::actions::{handle_action, open_playlist, Action, Command};
use yplayer::app::state::{move_selection, AppState, Focus, Screen};

fn track(id: &str) -> YTrack {
    YTrack {
        id: id.to_string(),
        title: format!("T{id}"),
        artists: vec![],
        albums: vec![],
        duration_ms: 0,
        cover_uri: None,
        lyrics_available: false,
        explicit: false,
        track_position: None,
        liked: false,
    }
}

fn playlist(title: &str, kind: i64, tracks: Vec<YTrack>) -> YPlaylist {
    YPlaylist {
        id: kind.to_string(),
        kind,
        title: title.to_string(),
        owner_name: String::new(),
        track_count: tracks.len() as u32,
        cover_uri: None,
        description: None,
        duration_ms: 0,
        liked: false,
        tracks,
    }
}

#[test]
fn app_state_starts_in_library_sidebar() {
    let app = AppState::new();
    assert!(matches!(app.screen, Screen::Library));
    assert_eq!(app.focus, Focus::Sidebar);
    assert_eq!(app.library_view, LibraryView::LikedTracks);
    assert_eq!(app.content_len(), 0);
    assert_eq!(app.max_scroll(), 0);
    assert!(app.current_tracks().is_empty());
}

#[test]
fn current_tracks_follow_the_tab() {
    let mut app = AppState::new();
    app.liked_tracks = vec![track("1"), track("2")];
    app.history = vec![track("h")];
    app.playlists = vec![playlist("p", 3, vec![])];
    assert_eq!(app.current_tracks().len(), 2);
    app.library_view = LibraryView::History;
    assert_eq!(app.current_tracks()[0].id, "h");
    app.library_view = LibraryView::Playlists;
    assert!(app.current_tracks().is_empty());
    assert_eq!(app.content_len(), 1);
    app.current_playlist = Some(playlist("q", 4, vec![track("x"), track("y"), track("z")]));
    assert_eq!(app.current_tracks().len(), 3);
    app.screen = Screen::PlaylistDetail(playlist("q", 4, vec![track("x"), track("y"), track("z")]));
    assert_eq!(app.max_scroll(), 2);
}

#[test]
fn sidebar_navigation_and_enter() {
    let mut app = AppState::new();
    assert!(matches!(handle_action(&mut app, Action::Down, false), Command::Redraw));
    assert_eq!(app.sidebar_selected, 1);
    handle_action(&mut app, Action::Down, false);
    handle_action(&mut app, Action::Down, false);
    assert_eq!(app.sidebar_selected, 2);
    handle_action(&mut app, Action::Up, false);
    assert_eq!(app.sidebar_selected, 1);
    let cmd = handle_action(&mut app, Action::Enter, false);
    assert!(matches!(cmd, Command::Redraw));
    assert_eq!(app.library_view, LibraryView::Playlists);
    assert_eq!(app.focus, Focus::Content);
    assert_eq!(app.selected_index, 0);
}

#[test]
fn history_is_requested_once() {
    let mut app = AppState::new();
    let cmd = handle_action(&mut app, Action::BackTab, false);
    assert!(matches!(cmd, Command::LoadHistory));
    assert_eq!(app.library_view, LibraryView::History);
    assert_eq!(app.sidebar_selected, 2);
    assert!(app.history_loading);
    handle_action(&mut app, Action::Tab, false);
    assert_eq!(app.library_view, LibraryView::LikedTracks);
    handle_action(&mut app, Action::Tab, false);
    let cmd = handle_action(&mut app, Action::Tab, false);
    assert_eq!(app.library_view, LibraryView::History);
    assert!(matches!(cmd, Command::Redraw));
    app.receive_history(vec![track("h1")]);
    assert!(app.history_loaded);
    assert_eq!(app.history.len(), 1);
}

#[test]
fn enter_on_a_liked_track_plays_the_list_from_it() {
    let mut app = AppState::new();
    app.liked_tracks = vec![track("1"), track("2"), track("3")];
    app.focus = Focus::Content;
    handle_action(&mut app, Action::Down, false);
    match handle_action(&mut app, Action::Enter, false) {
        Command::Play { tracks, start, propagate_errors } => {
            assert_eq!(tracks.len(), 3);
            assert_eq!(tracks[start].id, "2");
            assert!(propagate_errors);
        }
        other => panic!("unexpected {other:?}"),
    }
}

#[test]
fn play_pause_toggles_when_a_track_is_loaded() {
    let mut app = AppState::new();
    app.liked_tracks = vec![track("1")];
    assert!(matches!(handle_action(&mut app, Action::PlayPause, true), Command::TogglePlayback));
    assert!(matches!(handle_action(&mut app, Action::PlayPause, false), Command::Play { start: 0, .. }));
    assert!(matches!(handle_action(&mut app, Action::PlayAll, true), Command::Play { start: 0, .. }));
}

#[test]
fn playback_keys_ask_the_player() {
    let mut app = AppState::new();
    assert!(matches!(handle_action(&mut app, Action::Next, false), Command::PlayNext));
    assert!(matches!(handle_action(&mut app, Action::Prev, false), Command::PlayPrev));
    assert!(matches!(handle_action(&mut app, Action::VolumeUp, false), Command::AdjustVolume(5)));
    assert!(matches!(handle_action(&mut app, Action::VolumeDown, false), Command::AdjustVolume(-5)));
    assert!(matches!(handle_action(&mut app, Action::SeekForward, false), Command::Seek(5)));
    assert!(matches!(handle_action(&mut app, Action::SeekBackward, false), Command::Seek(-5)));
    assert!(matches!(handle_action(&mut app, Action::ToggleShuffle, false), Command::ToggleShuffle));
    assert!(matches!(handle_action(&mut app, Action::ToggleRepeat, false), Command::CycleRepeat));
    assert!(matches!(handle_action(&mut app, Action::Quit, false), Command::Quit));
}

#[test]
fn opening_a_playlist_uses_the_fetched_tracks() {
    let mut app = AppState::new();
    app.playlists = vec![playlist("a", 1, vec![]), playlist("b", 7, vec![])];
    app.library_view = LibraryView::Playlists;
    app.focus = Focus::Content;
    app.selected_index = 1;
    match handle_action(&mut app, Action::Enter, false) {
        Command::OpenPlaylist { index, kind } => {
            assert_eq!(index, 1);
            assert_eq!(kind, 7);
            open_playlist(&mut app, index, Some(vec![track("x"), track("y")]));
        }
        other => panic!("unexpected {other:?}"),
    }
    match &app.screen {
        Screen::PlaylistDetail(pl) => {
            assert_eq!(pl.title, "b");
            assert_eq!(pl.tracks.len(), 2);
        }
        _ => panic!("playlist not opened"),
    }
    assert_eq!(app.current_playlist.as_ref().unwrap().tracks[1].id, "y");
    assert_eq!(app.selected_index, 0);
    handle_action(&mut app, Action::Down, false);
    assert_eq!(app.selected_index, 1);
    handle_action(&mut app, Action::Down, false);
    assert_eq!(app.selected_index, 1);
    assert!(matches!(handle_action(&mut app, Action::Enter, false), Command::Play { start: 1, .. }));
    handle_action(&mut app, Action::GoBack, false);
    assert!(matches!(app.screen, Screen::Library));
}

#[test]
fn failed_playlist_fetch_keeps_its_tracks() {
    let mut app = AppState::new();
    app.playlists = vec![playlist("a", 1, vec![track("old")])];
    open_playlist(&mut app, 0, None);
    match &app.screen {
        Screen::PlaylistDetail(pl) => assert_eq!(pl.tracks[0].id, "old"),
        _ => panic!("playlist not opened"),
    }
}

#[test]
fn search_typing_starts_new_requests() {
    let mut app = AppState::new();
    handle_action(&mut app, Action::Search, false);
    assert!(matches!(app.screen, Screen::Search));
    assert_eq!(app.focus, Focus::Content);
    match handle_action(&mut app, Action::Char('a'), false) {
        Command::Search { seq, query } => {
            assert_eq!(seq, 1);
            assert_eq!(query, "a");
        }
        other => panic!("unexpected {other:?}"),
    }
    match handle_action(&mut app, Action::Char('b'), false) {
        Command::Search { seq, query } => {
            assert_eq!(seq, 2);
            assert_eq!(query, "ab");
        }
        other => panic!("unexpected {other:?}"),
    }
    // a late answer to the first request is dropped
    assert!(!app.receive_search_results(1, vec![track("old")]));
    assert!(app.search_results.is_empty());
    assert!(app.receive_search_results(2, vec![track("new")]));
    assert_eq!(app.search_results[0].id, "new");
    // backspace shortens the query
    assert!(matches!(handle_action(&mut app, Action::GoBack, false), Command::Search { seq: 3, .. }));
    assert_eq!(app.search_query, "a");
    // emptying the query clears the results without a request
    assert!(matches!(handle_action(&mut app, Action::GoBack, false), Command::Redraw));
    assert!(app.search_results.is_empty());
    assert_eq!(app.search_seq, 4);
    // backspace on an empty query leaves the search screen
    handle_action(&mut app, Action::GoBack, false);
    assert!(matches!(app.screen, Screen::Library));
    assert_eq!(app.search_seq, 5);
}

#[test]
fn search_enter_plays_and_leaves() {
    let mut app = AppState::new();
    handle_action(&mut app, Action::Search, false);
    handle_action(&mut app, Action::Char('x'), false);
    app.receive_search_results(1, vec![track("r1"), track("r2")]);
    handle_action(&mut app, Action::Down, false);
    handle_action(&mut app, Action::Down, false);
    assert_eq!(app.selected_index, 1);
    match handle_action(&mut app, Action::Enter, false) {
        Command::Play { tracks, start, propagate_errors } => {
            assert_eq!(tracks[start].id, "r2");
            assert!(!propagate_errors);
        }
        other => panic!("unexpected {other:?}"),
    }
    assert!(matches!(app.screen, Screen::Library));
    assert!(app.search_query.is_empty());
    assert_eq!(app.search_seq, 2);
}

#[test]
fn help_overlay_swallows_keys() {
    let mut app = AppState::new();
    handle_action(&mut app, Action::Help, false);
    assert!(app.show_help);
    assert!(matches!(handle_action(&mut app, Action::Quit, false), Command::Redraw));
    assert!(!app.show_help);
    handle_action(&mut app, Action::Help, false);
    assert!(matches!(handle_action(&mut app, Action::Next, false), Command::Redraw));
    assert!(app.show_help);
}

#[test]
fn move_selection_clamps_to_the_list() {
    let mut app = AppState::new();
    app.focus = Focus::Content;
    app.liked_tracks = (0..25).map(|i| track(&i.to_string())).collect();
    move_selection(&mut app, 10);
    assert_eq!(app.selected_index, 10);
    move_selection(&mut app, 10);
    move_selection(&mut app, 10);
    assert_eq!(app.selected_index, 24);
    move_selection(&mut app, -30);
    assert_eq!(app.selected_index, 0);
    app.selected_index = 100;
    move_selection(&mut app, -1);
    assert_eq!(app.selected_index, 23);
    app.focus = Focus::Sidebar;
    move_selection(&mut app, 10);
    assert_eq!(app.sidebar_selected, 2);
    app.screen = Screen::NowPlaying;
    app.selected_index = 5;
    move_selection(&mut app, 1);
    assert_eq!(app.selected_index, 0);
}

#[test]
fn now_playing_scrolls() {
    let mut app = AppState::new();
    handle_action(&mut app, Action::NowPlaying, false);
    handle_action(&mut app, Action::Down, false);
    handle_action(&mut app, Action::Down, false);
    handle_action(&mut app, Action::Up, false);
    assert_eq!(app.now_playing_scroll, 1);
    handle_action(&mut app, Action::Left, false);
    assert!(matches!(app.screen, Screen::Library));
    handle_action(&mut app, Action::Right, false);
    assert_eq!(app.focus, Focus::Content);
    handle_action(&mut app, Action::QueueView, false);
    assert!(matches!(app.screen, Screen::Queue));
    handle_action(&mut app, Action::Escape, false);
    assert!(matches!(app.screen, Screen::Library));
}

#[test]
fn liked_pages_are_appended() {
    let mut app = AppState::new();
    app.receive_liked_tracks(vec![track("1")]);
    app.receive_liked_tracks(vec![track("2"), track("3")]);
    assert_eq!(app.liked_tracks.len(), 3);
    assert_eq!(app.liked_tracks[2].id, "3");
}

#[test]
fn history_load_starts_once_on_its_tab() {
    let mut app = AppState::new();
    app.library_view = yplayer::api::models::LibraryView::History;
    assert!(matches!(yplayer::app::actions::maybe_load_history(&mut app), Command::LoadHistory));
    assert!(app.history_loading);
    assert!(matches!(yplayer::app::actions::maybe_load_history(&mut app), Command::Redraw));
    let mut other = AppState::new();
    assert!(matches!(yplayer::app::actions::maybe_load_history(&mut other), Command::Redraw));
    assert!(!other.history_loading);
}
