//! What a key press does: the decisions of the event loop, as a function
//! from state and action to the next state and the outside work to do.
use vstd::prelude::*;
use crate::api::models::{
    LibraryView, YTrack, copy_playlist, copy_tracks, library_views, same_playlist,
    same_playlist_info, same_track,
};
use crate::app::state::{
    AppState, Focus, Screen, content_len_of, current_tracks_of, move_selection, moved, on_sidebar,
    selection_len,
};
use crate::utils::text::{clear_string, pop_char, push_char};

verus! {

/// A user command, as the key bindings produce it.
#[derive(Debug, Clone, Copy, PartialEq, Eq, Structural)]
pub enum Action {
    Quit,
    Up,
    Down,
    Left,
    Right,
    Enter,
    Escape,
    GoBack,
    Tab,
    BackTab,
    PlayPause,
    Next,
    Prev,
    VolumeUp,
    VolumeDown,
    SeekForward,
    SeekBackward,
    ToggleShuffle,
    ToggleRepeat,
    Search,
    NowPlaying,
    QueueView,
    PlayAll,
    Help,
    ScrollDown,
    ScrollUp,
    PageDown,
    PageUp,
    Char(char),
}

/// The outside work an action asks for, done by the caller after the state
/// has been updated.
#[derive(Debug)]
pub enum Command {
    /// Nothing to do but draw the new state.
    Redraw,
    /// Leave the application.
    Quit,
    /// Replace the queue with `tracks` and play `tracks[start]`. When
    /// `propagate_errors` is false a failure is only reported.
    Play { tracks: Vec<YTrack>, start: usize, propagate_errors: bool },
    TogglePlayback,
    /// Advance the queue and play what it gives.
    PlayNext,
    /// Step the queue back and play what it gives.
    PlayPrev,
    AdjustVolume(i8),
    /// Seek by this many seconds.
    Seek(i8),
    ToggleShuffle,
    CycleRepeat,
    /// Fetch the tracks of playlist `index` (of the given kind), then call
    /// `open_playlist`.
    OpenPlaylist { index: usize, kind: i64 },
    /// Fetch the listening history in the background.
    LoadHistory,
    /// Run search request number `seq` for `query` in the background.
    Search { seq: u64, query: String },
}

/// The position of a tab in the sidebar.
pub open spec fn view_index(v: LibraryView) -> nat {
    match v {
        LibraryView::LikedTracks => 0,
        LibraryView::Playlists => 1,
        LibraryView::History => 2,
    }
}

/// Whether entering the current tab starts loading the history.
pub open spec fn history_requested(s: AppState) -> bool {
    s.library_view == LibraryView::History && !s.history_loaded && !s.history_loading
}

/// `s` with the history load started if it is requested, and the command for it.
pub open spec fn history_checked(s: AppState, new: AppState, cmd: Command) -> bool {
    if history_requested(s) {
        new == AppState { history_loading: true, ..s } && cmd is LoadHistory
    } else {
        new == s && cmd is Redraw
    }
}

/// `cmd` plays copies of `src` from `start`.
pub open spec fn plays(cmd: Command, src: Seq<YTrack>, start: nat, propagate: bool) -> bool {
    match cmd {
        Command::Play { tracks, start: s, propagate_errors } => {
            &&& tracks@.len() == src.len()
            &&& forall|i: int| 0 <= i < src.len() ==> same_track(#[trigger] tracks@[i], src[i])
            &&& s == start
            &&& propagate_errors == propagate
        },
        _ => false,
    }
}

/// `cmd` plays the selected one of `src` when the selection is inside it.
pub open spec fn plays_selection(s: AppState, src: Seq<YTrack>, cmd: Command, propagate: bool) -> bool {
    if src.len() > 0 && s.selected_index < src.len() {
        plays(cmd, src, s.selected_index as nat, propagate)
    } else {
        cmd is Redraw
    }
}

/// The search query changed to `q`: a new request generation starts.
pub open spec fn query_changed(old: AppState, q: Seq<char>, new: AppState, cmd: Command) -> bool {
    &&& new.search_query@ == q
    &&& new.search_seq == old.search_seq + 1
    &&& if q.len() == 0 {
        &&& new == AppState {
            search_query: new.search_query,
            search_seq: new.search_seq,
            search_results: new.search_results,
            ..old
        }
        &&& new.search_results@.len() == 0
        &&& cmd is Redraw
    } else {
        &&& new == AppState { search_query: new.search_query, search_seq: new.search_seq, ..old }
        &&& match cmd {
            Command::Search { seq, query } => seq == new.search_seq && query@ == q,
            _ => false,
        }
    }
}

/// Leaving the search screen.
pub open spec fn search_left(old: AppState, new: AppState, clear_query: bool) -> bool {
    &&& new == AppState {
        screen: Screen::Library,
        search_query: new.search_query,
        search_seq: new.search_seq,
        selected_index: 0,
        ..old
    }
    &&& new.search_seq == old.search_seq + 1
    &&& new.search_query@ == if clear_query { Seq::empty() } else { old.search_query@ }
}

/// What an action does while the search screen is open.
pub open spec fn search_handled(old: AppState, action: Action, new: AppState, cmd: Command) -> bool {
    match action {
        Action::Quit => new == old && cmd is Quit,
        Action::Escape => search_left(old, new, true) && cmd is Redraw,
        Action::GoBack => if old.search_query@.len() == 0 {
            search_left(old, new, false) && cmd is Redraw
        } else {
            query_changed(old, old.search_query@.drop_last(), new, cmd)
        },
        Action::Enter => search_left(old, new, true) && plays_selection(
            old,
            old.search_results@,
            cmd,
            false,
        ),
        Action::Up => cmd is Redraw && new == AppState {
            selected_index: if old.search_results@.len() > 0 && old.selected_index > 0 {
                (old.selected_index - 1) as usize
            } else {
                old.selected_index
            },
            ..old
        },
        Action::Down => cmd is Redraw && new == AppState {
            selected_index: if old.selected_index + 1 < old.search_results@.len() {
                (old.selected_index + 1) as usize
            } else {
                old.selected_index
            },
            ..old
        },
        Action::PageUp => new == moved(old, -10) && cmd is Redraw,
        Action::PageDown => new == moved(old, 10) && cmd is Redraw,
        Action::Char(c) => query_changed(old, old.search_query@.push(c), new, cmd),
        _ => new == old && cmd is Redraw,
    }
}

/// What `Up` does outside the search screen.
pub open spec fn up_state(old: AppState) -> AppState {
    match old.screen {
        Screen::Library => match old.focus {
            Focus::Sidebar => if old.sidebar_selected > 0 {
                AppState { sidebar_selected: (old.sidebar_selected - 1) as usize, ..old }
            } else {
                old
            },
            Focus::Content => if old.selected_index > 0 {
                AppState { selected_index: (old.selected_index - 1) as usize, ..old }
            } else {
                old
            },
        },
        Screen::PlaylistDetail(pl) => if pl.tracks@.len() > 0 && old.selected_index > 0 {
            AppState { selected_index: (old.selected_index - 1) as usize, ..old }
        } else {
            old
        },
        Screen::NowPlaying => AppState {
            now_playing_scroll: if old.now_playing_scroll > 0 {
                (old.now_playing_scroll - 1) as usize
            } else {
                0
            },
            ..old
        },
        _ => old,
    }
}

/// What `Down` does outside the search screen.
pub open spec fn down_state(old: AppState) -> AppState {
    match old.screen {
        Screen::Library => match old.focus {
            Focus::Sidebar => if old.sidebar_selected + 1 < library_views().len() {
                AppState { sidebar_selected: (old.sidebar_selected + 1) as usize, ..old }
            } else {
                old
            },
            Focus::Content => if content_len_of(old) > 0 && old.selected_index + 1
                < content_len_of(old) {
                AppState { selected_index: (old.selected_index + 1) as usize, ..old }
            } else {
                old
            },
        },
        Screen::PlaylistDetail(pl) => if pl.tracks@.len() > 0 && old.selected_index + 1
            < pl.tracks@.len() {
            AppState { selected_index: (old.selected_index + 1) as usize, ..old }
        } else {
            old
        },
        Screen::NowPlaying => AppState {
            now_playing_scroll: (old.now_playing_scroll + 1) as usize,
            ..old
        },
        _ => old,
    }
}

/// What `Enter` does outside the search screen.
pub open spec fn enter_handled(old: AppState, new: AppState, cmd: Command) -> bool {
    match old.screen {
        Screen::Library => match old.focus {
            Focus::Sidebar => if old.sidebar_selected < library_views().len() {
                history_checked(
                    AppState {
                        library_view: library_views()[old.sidebar_selected as int],
                        selected_index: 0,
                        focus: Focus::Content,
                        ..old
                    },
                    new,
                    cmd,
                )
            } else {
                new == old && cmd is Redraw
            },
            Focus::Content => new == old && match old.library_view {
                LibraryView::Playlists => if old.selected_index < old.playlists@.len() {
                    cmd == Command::OpenPlaylist {
                        index: old.selected_index,
                        kind: old.playlists@[old.selected_index as int].kind,
                    }
                } else {
                    cmd is Redraw
                },
                _ => plays_selection(old, current_tracks_of(old), cmd, true),
            },
        },
        Screen::PlaylistDetail(pl) => new == old && plays_selection(old, pl.tracks@, cmd, true),
        _ => new == old && cmd is Redraw,
    }
}

/// Switching to the tab at `i` with Tab or BackTab.
pub open spec fn tab_switched(old: AppState, i: nat, new: AppState, cmd: Command) -> bool {
    history_checked(
        AppState {
            library_view: library_views()[i as int],
            selected_index: 0,
            sidebar_selected: i as usize,
            focus: Focus::Sidebar,
            ..old
        },
        new,
        cmd,
    )
}

/// What an action does outside the search screen.
pub open spec fn normal_handled(
    old: AppState,
    action: Action,
    has_track: bool,
    new: AppState,
    cmd: Command,
) -> bool {
    match action {
        Action::Quit => new == old && cmd is Quit,
        Action::Escape => new == AppState { screen: Screen::Library, ..old } && cmd is Redraw,
        Action::Up => new == up_state(old) && cmd is Redraw,
        Action::Down => new == down_state(old) && cmd is Redraw,
        Action::Left => cmd is Redraw && new == match old.screen {
            Screen::Library => AppState { focus: Focus::Sidebar, ..old },
            _ => AppState { screen: Screen::Library, ..old },
        },
        Action::Right => cmd is Redraw && new == if old.screen is Library {
            AppState { focus: Focus::Content, ..old }
        } else {
            old
        },
        Action::Enter => enter_handled(old, new, cmd),
        Action::Tab => tab_switched(old, (view_index(old.library_view) + 1) % 3, new, cmd),
        Action::BackTab => tab_switched(
            old,
            if view_index(old.library_view) == 0 { 2 } else { (view_index(old.library_view) - 1) as nat },
            new,
            cmd,
        ),
        Action::PlayPause => new == old && if has_track {
            cmd is TogglePlayback
        } else {
            plays_selection(old, current_tracks_of(old), cmd, true)
        },
        Action::Next => new == old && cmd is PlayNext,
        Action::Prev => new == old && cmd is PlayPrev,
        Action::VolumeUp => new == old && cmd == Command::AdjustVolume(5),
        Action::VolumeDown => new == old && cmd == Command::AdjustVolume(-5i8),
        Action::SeekForward => new == old && cmd == Command::Seek(5),
        Action::SeekBackward => new == old && cmd == Command::Seek(-5i8),
        Action::ToggleShuffle => new == old && cmd is ToggleShuffle,
        Action::ToggleRepeat => new == old && cmd is CycleRepeat,
        Action::Search => cmd is Redraw && new == AppState {
            screen: Screen::Search,
            focus: Focus::Content,
            selected_index: 0,
            ..old
        },
        Action::NowPlaying => cmd is Redraw && new == AppState { screen: Screen::NowPlaying, ..old },
        Action::QueueView => cmd is Redraw && new == AppState { screen: Screen::Queue, ..old },
        Action::PlayAll => new == old && if current_tracks_of(old).len() > 0 {
            plays(cmd, current_tracks_of(old), 0, true)
        } else {
            cmd is Redraw
        },
        Action::GoBack => cmd is Redraw && new == match old.screen {
            Screen::PlaylistDetail(_)
            | Screen::AlbumDetail(_)
            | Screen::ArtistDetail(_)
            | Screen::NowPlaying
            | Screen::Queue => AppState { screen: Screen::Library, ..old },
            _ => old,
        },
        Action::Help => cmd is Redraw && new == AppState { show_help: true, ..old },
        Action::ScrollDown | Action::PageDown => new == moved(old, 10) && cmd is Redraw,
        Action::ScrollUp | Action::PageUp => new == moved(old, -10) && cmd is Redraw,
        Action::Char(_) => new == old && cmd is Redraw,
    }
}

/// Whether `action` closes the help overlay.
pub open spec fn closes_help(action: Action) -> bool {
    action is Help || action is Escape || action is GoBack || action is Quit
}

/// What an action does: the help overlay swallows everything until it is
/// closed, the search screen captures typing, and otherwise the action
/// moves the cursor, switches screens or asks for playback.
pub open spec fn action_handled(
    old: AppState,
    action: Action,
    has_track: bool,
    new: AppState,
    cmd: Command,
) -> bool {
    if old.show_help {
        cmd is Redraw && new == if closes_help(action) {
            AppState { show_help: false, ..old }
        } else {
            old
        }
    } else if old.screen is Search {
        search_handled(old, action, new, cmd)
    } else {
        normal_handled(old, action, has_track, new, cmd)
    }
}

/// The counters that an action increments stay below their maximum, where
/// the action increments them.
pub open spec fn counters_fit(s: AppState, action: Action) -> bool {
    &&& (!s.show_help && s.screen is Search && (action is Escape || action is GoBack
        || action is Enter || action is Char) ==> s.search_seq < u64::MAX)
    &&& (!s.show_help && s.screen is NowPlaying && action is Down ==> s.now_playing_scroll
        < usize::MAX)
}

/// The history is loaded at most once: once its load has started (or
/// finished), no action asks for it again and the flags stay as they are.
pub proof fn law_history_requested_once(
    old: AppState,
    action: Action,
    has_track: bool,
    new: AppState,
    cmd: Command,
)
    requires
        action_handled(old, action, has_track, new, cmd),
        old.history_loading || old.history_loaded,
    ensures
        !(cmd is LoadHistory),
        new.history_loading == old.history_loading,
        new.history_loaded == old.history_loaded,
{
}

/// A search answer is applied only when it belongs to the latest request
/// and the search screen is open; any other answer leaves the state as it is.
pub proof fn law_stale_results_dropped(old: AppState, seq: u64, tracks: Seq<YTrack>, new: AppState)
    requires
        crate::app::state::results_received(old, seq, tracks, new),
        seq != old.search_seq || !(old.screen is Search),
    ensures
        new == old,
{
}

/// Every change of the query starts a new request generation, so an answer
/// to an earlier query can no longer be applied.
pub proof fn law_query_change_supersedes(
    old: AppState,
    action: Action,
    new: AppState,
    cmd: Command,
)
    requires
        !old.show_help,
        old.screen is Search,
        search_handled(old, action, new, cmd),
        new.search_query@ != old.search_query@,
    ensures
        new.search_seq == old.search_seq + 1,
        cmd matches Command::Search { seq, .. } ==> seq == new.search_seq,
{
}

/// The history is asked for only while it is neither loaded nor loading,
/// and asking for it marks it as loading, with its tab active.
pub proof fn law_history_load_marks_loading(
    old: AppState,
    action: Action,
    has_track: bool,
    new: AppState,
    cmd: Command,
)
    requires
        action_handled(old, action, has_track, new, cmd),
        cmd is LoadHistory,
    ensures
        !old.history_loaded,
        !old.history_loading,
        new.history_loading,
        new.library_view == LibraryView::History,
{
}

/// Entering the History tab (Tab, Shift+Tab, or Enter on the sidebar)
/// while the history is neither loaded nor loading starts its load.
pub proof fn law_history_requested_on_entry(
    old: AppState,
    action: Action,
    has_track: bool,
    new: AppState,
    cmd: Command,
)
    requires
        action_handled(old, action, has_track, new, cmd),
        !old.show_help,
        !(old.screen is Search),
        action is Tab || action is BackTab || (action is Enter && old.screen is Library && old.focus
            == Focus::Sidebar && old.sidebar_selected < library_views().len()),
        new.library_view == LibraryView::History,
        !old.history_loaded,
        !old.history_loading,
    ensures
        cmd is LoadHistory,
        new.history_loading,
{
}

/// Up moves the cursor one row up and Down one row down, staying inside
/// the list: in the library's content pane, in an opened playlist and in
/// the search results.
pub proof fn law_up_down_move_one_row(
    old: AppState,
    action: Action,
    has_track: bool,
    new: AppState,
    cmd: Command,
)
    requires
        action_handled(old, action, has_track, new, cmd),
        !old.show_help,
        action is Up || action is Down,
        (old.screen is Library && old.focus == Focus::Content) || old.screen is PlaylistDetail
            || old.screen is Search,
    ensures
        cmd is Redraw,
        action is Up && old.selected_index > 0 && selection_len(old) > 0 ==> new.selected_index
            == old.selected_index - 1,
        action is Up && old.selected_index == 0 ==> new.selected_index == 0,
        action is Down && old.selected_index + 1 < selection_len(old) ==> new.selected_index
            == old.selected_index + 1,
        action is Down && old.selected_index + 1 >= selection_len(old) ==> new.selected_index
            == old.selected_index,
        new.screen == old.screen,
        new.sidebar_selected == old.sidebar_selected,
{
    if action is Down && old.selected_index + 1 < selection_len(old) {
        match old.screen {
            Screen::PlaylistDetail(pl) => {
                assert(pl.tracks.len() == pl.tracks@.len());
            },
            Screen::Search => {
                assert(old.search_results.len() == old.search_results@.len());
            },
            _ => {
                assert(old.liked_tracks.len() == old.liked_tracks@.len());
                assert(old.playlists.len() == old.playlists@.len());
                assert(old.history.len() == old.history@.len());
                match old.current_playlist {
                    Some(p) => assert(p.tracks.len() == p.tracks@.len()),
                    None => {},
                }
            },
        }
    }
}

/// Up on the library sidebar moves the highlight one tab up and Down one
/// tab down, within the three tabs.
pub proof fn law_sidebar_up_down(
    old: AppState,
    action: Action,
    has_track: bool,
    new: AppState,
    cmd: Command,
)
    requires
        action_handled(old, action, has_track, new, cmd),
        !old.show_help,
        old.screen is Library,
        old.focus == Focus::Sidebar,
        action is Up || action is Down,
    ensures
        action is Up && old.sidebar_selected > 0 ==> new.sidebar_selected == old.sidebar_selected - 1,
        action is Up && old.sidebar_selected == 0 ==> new.sidebar_selected == 0,
        action is Down && old.sidebar_selected < 2 ==> new.sidebar_selected == old.sidebar_selected + 1,
        action is Down && old.sidebar_selected >= 2 ==> new.sidebar_selected == old.sidebar_selected,
        new.selected_index == old.selected_index,
{
}

/// Moving the cursor keeps it inside the list of the current screen.
pub proof fn law_cursor_in_range(old: AppState, delta: int)
    requires
        selection_len(old) > 0,
    ensures
        on_sidebar(old) ==> moved(old, delta).sidebar_selected < selection_len(old),
        !on_sidebar(old) ==> moved(old, delta).selected_index < selection_len(old),
{
}

/// Tab three times returns to the same tab.
pub proof fn law_tab_cycles(v: LibraryView)
    ensures
        library_views()[((((view_index(v) + 1) % 3 + 1) % 3 + 1) % 3) as int] == v,
{
}

/// Starts the one-time background load of the history when its tab is
/// active and the history is neither loaded nor loading; otherwise leaves
/// the state as it is.
pub fn maybe_load_history(app: &mut AppState) -> (cmd: Command)
    ensures
        history_checked(*old(app), *final(app), cmd),
{
    if app.library_view == LibraryView::History && !app.history_loaded && !app.history_loading {
        app.history_loading = true;
        Command::LoadHistory
    } else {
        Command::Redraw
    }
}

/// Plays the selected track of `src` when the selection is inside it.
fn play_selection(selected: usize, src: &[YTrack], propagate: bool) -> (cmd: Command)
    ensures
        if src@.len() > 0 && selected < src@.len() {
            plays(cmd, src@, selected as nat, propagate)
        } else {
            cmd is Redraw
        },
{
    if src.len() > 0 && selected < src.len() {
        Command::Play { tracks: copy_tracks(src), start: selected, propagate_errors: propagate }
    } else {
        Command::Redraw
    }
}

/// The query changed: start a new request generation.
fn after_query_change(app: &mut AppState) -> (cmd: Command)
    requires
        old(app).search_seq < u64::MAX,
    ensures
        final(app).search_seq == old(app).search_seq + 1,
        final(app).search_query@ == old(app).search_query@,
        if old(app).search_query@.len() == 0 {
            &&& *final(app) == AppState {
                search_seq: final(app).search_seq,
                search_results: final(app).search_results,
                ..*old(app)
            }
            &&& final(app).search_results@.len() == 0
            &&& cmd is Redraw
        } else {
            &&& *final(app) == AppState { search_seq: final(app).search_seq, ..*old(app) }
            &&& match cmd {
                Command::Search { seq, query } => seq == final(app).search_seq && query@
                    == old(app).search_query@,
                _ => false,
            }
        },
{
    app.search_seq = app.search_seq + 1;
    if app.search_query.as_str().is_empty() {
        app.search_results.clear();
        Command::Redraw
    } else {
        Command::Search { seq: app.search_seq, query: app.search_query.clone() }
    }
}

fn handle_search(app: &mut AppState, action: Action) -> (cmd: Command)
    requires
        old(app).screen is Search,
        !old(app).show_help,
        counters_fit(*old(app), action),
    ensures
        search_handled(*old(app), action, *final(app), cmd),
{
    match action {
        Action::Quit => Command::Quit,
        Action::Escape => {
            app.screen = Screen::Library;
            clear_string(&mut app.search_query);
            app.search_seq = app.search_seq + 1;
            app.selected_index = 0;
            Command::Redraw
        },
        Action::GoBack => {
            if app.search_query.as_str().is_empty() {
                app.screen = Screen::Library;
                app.search_seq = app.search_seq + 1;
                app.selected_index = 0;
                Command::Redraw
            } else {
                pop_char(&mut app.search_query);
                after_query_change(app)
            }
        },
        Action::Enter => {
            let cmd = play_selection(app.selected_index, app.search_results.as_slice(), false);
            app.screen = Screen::Library;
            clear_string(&mut app.search_query);
            app.search_seq = app.search_seq + 1;
            app.selected_index = 0;
            cmd
        },
        Action::Up => {
            if app.search_results.len() > 0 && app.selected_index > 0 {
                app.selected_index = app.selected_index - 1;
            }
            Command::Redraw
        },
        Action::Down => {
            if app.search_results.len() > 0 && app.selected_index < app.search_results.len() - 1 {
                app.selected_index = app.selected_index + 1;
            }
            Command::Redraw
        },
        Action::PageUp => {
            move_selection(app, -10);
            Command::Redraw
        },
        Action::PageDown => {
            move_selection(app, 10);
            Command::Redraw
        },
        Action::Char(c) => {
            push_char(&mut app.search_query, c);
            after_query_change(app)
        },
        _ => Command::Redraw,
    }
}

fn handle_enter(app: &mut AppState) -> (cmd: Command)
    requires
        !(old(app).screen is Search),
    ensures
        enter_handled(*old(app), *final(app), cmd),
{
    match &app.screen {
        Screen::Library => match app.focus {
            Focus::Sidebar => {
                let views = LibraryView::all();
                if app.sidebar_selected < views.len() {
                    app.library_view = views[app.sidebar_selected];
                    app.selected_index = 0;
                    app.focus = Focus::Content;
                    maybe_load_history(app)
                } else {
                    Command::Redraw
                }
            },
            Focus::Content => match app.library_view {
                LibraryView::Playlists => {
                    if app.selected_index < app.playlists.len() {
                        Command::OpenPlaylist {
                            index: app.selected_index,
                            kind: app.playlists[app.selected_index].kind,
                        }
                    } else {
                        Command::Redraw
                    }
                },
                _ => play_selection(app.selected_index, app.current_tracks(), true),
            },
        },
        Screen::PlaylistDetail(pl) => play_selection(app.selected_index, pl.tracks.as_slice(), true),
        _ => Command::Redraw,
    }
}

fn handle_normal(app: &mut AppState, action: Action, has_current_track: bool) -> (cmd: Command)
    requires
        !(old(app).screen is Search),
        !old(app).show_help,
        counters_fit(*old(app), action),
    ensures
        normal_handled(*old(app), action, has_current_track, *final(app), cmd),
{
    match action {
        Action::Quit => Command::Quit,
        Action::Escape => {
            app.screen = Screen::Library;
            Command::Redraw
        },
        Action::Up => {
            let playlist_len: usize = match &app.screen {
                Screen::PlaylistDetail(pl) => pl.tracks.len(),
                _ => 0,
            };
            match &app.screen {
                Screen::Library => match app.focus {
                    Focus::Sidebar => {
                        if app.sidebar_selected > 0 {
                            app.sidebar_selected = app.sidebar_selected - 1;
                        }
                    },
                    Focus::Content => {
                        if app.selected_index > 0 {
                            app.selected_index = app.selected_index - 1;
                        }
                    },
                },
                Screen::PlaylistDetail(_) => {
                    if playlist_len > 0 && app.selected_index > 0 {
                        app.selected_index = app.selected_index - 1;
                    }
                },
                Screen::NowPlaying => {
                    if app.now_playing_scroll > 0 {
                        app.now_playing_scroll = app.now_playing_scroll - 1;
                    }
                },
                _ => {},
            }
            Command::Redraw
        },
        Action::Down => {
            let playlist_len: usize = match &app.screen {
                Screen::PlaylistDetail(pl) => pl.tracks.len(),
                _ => 0,
            };
            let max = app.content_len();
            match &app.screen {
                Screen::Library => match app.focus {
                    Focus::Sidebar => {
                        if app.sidebar_selected < LibraryView::all().len() - 1 {
                            app.sidebar_selected = app.sidebar_selected + 1;
                        }
                    },
                    Focus::Content => {
                        if max > 0 && app.selected_index < max - 1 {
                            app.selected_index = app.selected_index + 1;
                        }
                    },
                },
                Screen::PlaylistDetail(_) => {
                    if playlist_len > 0 && app.selected_index < playlist_len - 1 {
                        app.selected_index = app.selected_index + 1;
                    }
                },
                Screen::NowPlaying => {
                    app.now_playing_scroll = app.now_playing_scroll + 1;
                },
                _ => {},
            }
            Command::Redraw
        },
        Action::Left => {
            if matches!(app.screen, Screen::Library) {
                if app.focus == Focus::Content {
                    app.focus = Focus::Sidebar;
                }
            } else {
                app.screen = Screen::Library;
            }
            Command::Redraw
        },
        Action::Right => {
            if matches!(app.screen, Screen::Library) {
                app.focus = Focus::Content;
            }
            Command::Redraw
        },
        Action::Enter => handle_enter(app),
        Action::Tab => {
            let idx: usize = match app.library_view {
                LibraryView::LikedTracks => 0,
                LibraryView::Playlists => 1,
                LibraryView::History => 2,
            };
            let views = LibraryView::all();
            let next = (idx + 1) % views.len();
            app.library_view = views[next];
            app.selected_index = 0;
            app.sidebar_selected = next;
            app.focus = Focus::Sidebar;
            maybe_load_history(app)
        },
        Action::BackTab => {
            let idx: usize = match app.library_view {
                LibraryView::LikedTracks => 0,
                LibraryView::Playlists => 1,
                LibraryView::History => 2,
            };
            let views = LibraryView::all();
            let prev = if idx == 0 { views.len() - 1 } else { idx - 1 };
            app.library_view = views[prev];
            app.selected_index = 0;
            app.sidebar_selected = prev;
            app.focus = Focus::Sidebar;
            maybe_load_history(app)
        },
        Action::PlayPause => {
            if has_current_track {
                Command::TogglePlayback
            } else {
                play_selection(app.selected_index, app.current_tracks(), true)
            }
        },
        Action::Next => Command::PlayNext,
        Action::Prev => Command::PlayPrev,
        Action::VolumeUp => Command::AdjustVolume(5),
        Action::VolumeDown => Command::AdjustVolume(-5i8),
        Action::SeekForward => Command::Seek(5),
        Action::SeekBackward => Command::Seek(-5),
        Action::ToggleShuffle => Command::ToggleShuffle,
        Action::ToggleRepeat => Command::CycleRepeat,
        Action::Search => {
            app.screen = Screen::Search;
            app.focus = Focus::Content;
            app.selected_index = 0;
            Command::Redraw
        },
        Action::NowPlaying => {
            app.screen = Screen::NowPlaying;
            Command::Redraw
        },
        Action::QueueView => {
            app.screen = Screen::Queue;
            Command::Redraw
        },
        Action::PlayAll => {
            let tracks = app.current_tracks();
            if tracks.len() > 0 {
                Command::Play { tracks: copy_tracks(tracks), start: 0, propagate_errors: true }
            } else {
                Command::Redraw
            }
        },
        Action::GoBack => {
            match &app.screen {
                Screen::PlaylistDetail(_)
                | Screen::AlbumDetail(_)
                | Screen::ArtistDetail(_)
                | Screen::NowPlaying
                | Screen::Queue => {
                    app.screen = Screen::Library;
                },
                _ => {},
            }
            Command::Redraw
        },
        Action::Help => {
            app.show_help = true;
            Command::Redraw
        },
        Action::ScrollDown | Action::PageDown => {
            move_selection(app, 10);
            Command::Redraw
        },
        Action::ScrollUp | Action::PageUp => {
            move_selection(app, -10);
            Command::Redraw
        },
        Action::Char(_) => Command::Redraw,
    }
}

/// Applies a user action to the state and returns the outside work it asks
/// for. `has_current_track` tells whether the player has a track loaded.
pub fn handle_action(app: &mut AppState, action: Action, has_current_track: bool) -> (cmd: Command)
    requires
        counters_fit(*old(app), action),
    ensures
        action_handled(*old(app), action, has_current_track, *final(app), cmd),
{
    // The help overlay swallows everything until closed.
    if app.show_help {
        match action {
            Action::Help | Action::Escape | Action::GoBack | Action::Quit => app.show_help = false,
            _ => {},
        }
        return Command::Redraw;
    }
    if matches!(app.screen, Screen::Search) {
        handle_search(app, action)
    } else {
        handle_normal(app, action, has_current_track)
    }
}

/// Opens playlist `index` on its own screen, with the tracks that were
/// fetched for it (the tracks it already had when the fetch failed).
pub fn open_playlist(app: &mut AppState, index: usize, fetched: Option<Vec<YTrack>>)
    requires
        index < old(app).playlists@.len(),
    ensures
        final(app).selected_index == 0,
        *final(app) == (AppState {
            screen: final(app).screen,
            current_playlist: final(app).current_playlist,
            selected_index: 0,
            ..*old(app)
        }),
        match (final(app).screen, final(app).current_playlist) {
            (Screen::PlaylistDetail(p), Some(c)) => {
                let orig = old(app).playlists@[index as int];
                &&& same_playlist(c, p)
                &&& same_playlist_info(p, orig)
                &&& match fetched {
                    Some(t) => p.tracks == t,
                    None => p.tracks@.len() == orig.tracks@.len() && forall|i: int|
                        0 <= i < orig.tracks@.len() ==> same_track(#[trigger] p.tracks@[i], orig.tracks@[i]),
                }
            },
            _ => false,
        },
{
    let mut pl = copy_playlist(&app.playlists[index]);
    match fetched {
        Some(t) => pl.tracks = t,
        None => {},
    }
    app.current_playlist = Some(copy_playlist(&pl));
    app.screen = Screen::PlaylistDetail(pl);
    app.selected_index = 0;
}

} // verus!
