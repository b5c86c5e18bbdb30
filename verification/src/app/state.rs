//! What the interface shows and where the cursor is.
use vstd::prelude::*;
use crate::api::models::{LibraryView, YAlbum, YArtist, YPlaylist, YTrack, library_views};

verus! {

#[derive(Debug, Clone, PartialEq)]
pub enum Screen {
    Library,
    PlaylistDetail(YPlaylist),
    AlbumDetail(YAlbum),
    ArtistDetail(YArtist),
    Search,
    NowPlaying,
    Queue,
}

#[derive(Debug, Clone, Copy, PartialEq, Eq, Structural)]
pub enum Focus {
    Sidebar,
    Content,
}

#[derive(Debug, Clone)]
pub struct AppState {
    pub screen: Screen,
    pub focus: Focus,
    pub library_view: LibraryView,
    pub liked_tracks: Vec<YTrack>,
    pub playlists: Vec<YPlaylist>,
    pub history: Vec<YTrack>,
    /// History is loaded lazily, the first time its tab is entered.
    pub history_loaded: bool,
    pub history_loading: bool,
    pub current_playlist: Option<YPlaylist>,
    pub search_query: String,
    pub search_results: Vec<YTrack>,
    /// Generation counter for in-flight search requests; stale responses are dropped.
    pub search_seq: u64,
    pub selected_index: usize,
    pub sidebar_selected: usize,
    pub scroll_offset: usize,
    pub now_playing_scroll: usize,
    /// Whether the help overlay is shown.
    pub show_help: bool,
}

/// The state a new session starts in.
pub open spec fn initial_state(s: AppState) -> bool {
    &&& s.screen == Screen::Library
    &&& s.focus == Focus::Sidebar
    &&& s.library_view == LibraryView::LikedTracks
    &&& s.liked_tracks@.len() == 0
    &&& s.playlists@.len() == 0
    &&& s.history@.len() == 0
    &&& !s.history_loaded
    &&& !s.history_loading
    &&& s.current_playlist is None
    &&& s.search_query@.len() == 0
    &&& s.search_results@.len() == 0
    &&& s.search_seq == 0
    &&& s.selected_index == 0
    &&& s.sidebar_selected == 0
    &&& s.scroll_offset == 0
    &&& s.now_playing_scroll == 0
    &&& !s.show_help
}

impl Default for AppState {
    fn default() -> (s: Self)
        ensures
            initial_state(s),
    {
        AppState {
            screen: Screen::Library,
            focus: Focus::Sidebar,
            library_view: LibraryView::LikedTracks,
            liked_tracks: Vec::new(),
            playlists: Vec::new(),
            history: Vec::new(),
            history_loaded: false,
            history_loading: false,
            current_playlist: None,
            search_query: String::new(),
            search_results: Vec::new(),
            search_seq: 0,
            selected_index: 0,
            sidebar_selected: 0,
            scroll_offset: 0,
            now_playing_scroll: 0,
            show_help: false,
        }
    }
}

/// The tracks of the active library tab; the playlists tab shows the tracks
/// of the opened playlist, if any.
pub open spec fn current_tracks_of(s: AppState) -> Seq<YTrack> {
    match s.library_view {
        LibraryView::LikedTracks => s.liked_tracks@,
        LibraryView::Playlists => match s.current_playlist {
            Some(p) => p.tracks@,
            None => Seq::empty(),
        },
        LibraryView::History => s.history@,
    }
}

/// Rows of the library content pane: the playlists tab lists playlists.
pub open spec fn content_len_of(s: AppState) -> nat {
    match s.library_view {
        LibraryView::Playlists => s.playlists@.len(),
        _ => current_tracks_of(s).len(),
    }
}

/// Rows of the list the cursor moves in on the current screen.
pub open spec fn selection_len(s: AppState) -> nat {
    match s.screen {
        Screen::PlaylistDetail(pl) => pl.tracks@.len(),
        Screen::Search => s.search_results@.len(),
        Screen::Library => match s.focus {
            Focus::Sidebar => library_views().len(),
            Focus::Content => content_len_of(s),
        },
        _ => 0,
    }
}

/// Whether the cursor is the sidebar's.
pub open spec fn on_sidebar(s: AppState) -> bool {
    s.screen is Library && s.focus == Focus::Sidebar
}

pub open spec fn clamp(x: int, lo: int, hi: int) -> int {
    if x < lo {
        lo
    } else if x > hi {
        hi
    } else {
        x
    }
}

/// The cursor moved by `delta` within the list of the current screen.
pub open spec fn moved(s: AppState, delta: int) -> AppState {
    let len = selection_len(s);
    let cur = if on_sidebar(s) { s.sidebar_selected as int } else { s.selected_index as int };
    let target = if len == 0 {
        0
    } else {
        clamp(if cur < len - 1 { cur } else { len - 1 } + delta, 0, len - 1)
    };
    if on_sidebar(s) {
        AppState { sidebar_selected: target as usize, ..s }
    } else {
        AppState { selected_index: target as usize, ..s }
    }
}

/// The state after search results of request `seq` arrive.
pub open spec fn results_received(old: AppState, seq: u64, tracks: Seq<YTrack>, new: AppState) -> bool {
    if seq == old.search_seq && old.screen is Search {
        &&& new == AppState {
            search_results: new.search_results,
            selected_index: new.selected_index,
            ..old
        }
        &&& new.search_results@ == tracks
        &&& new.selected_index == if old.selected_index >= tracks.len() {
            0
        } else {
            old.selected_index
        }
    } else {
        new == old
    }
}

impl AppState {
    pub fn new() -> (s: Self)
        ensures
            initial_state(s),
    {
        Self::default()
    }

    pub fn current_tracks(&self) -> (r: &[YTrack])
        ensures
            r@ == current_tracks_of(*self),
    {
        match self.library_view {
            LibraryView::LikedTracks => self.liked_tracks.as_slice(),
            LibraryView::Playlists => match &self.current_playlist {
                Some(p) => p.tracks.as_slice(),
                None => &[],
            },
            LibraryView::History => self.history.as_slice(),
        }
    }

    /// Number of rows in the Library content pane for the active view.
    /// In the Playlists view the pane lists playlists, not tracks.
    pub fn content_len(&self) -> (r: usize)
        ensures
            r == content_len_of(*self),
    {
        match self.library_view {
            LibraryView::Playlists => self.playlists.len(),
            _ => self.current_tracks().len(),
        }
    }

    /// Upper bound for scroll_offset on the current screen.
    pub fn max_scroll(&self) -> (r: usize)
        ensures
            r == match self.screen {
                Screen::PlaylistDetail(pl) => if pl.tracks@.len() > 0 {
                    (pl.tracks@.len() - 1) as usize
                } else {
                    0
                },
                _ => 0,
            },
    {
        match &self.screen {
            Screen::PlaylistDetail(pl) => if pl.tracks.len() > 0 {
                pl.tracks.len() - 1
            } else {
                0
            },
            _ => 0,
        }
    }

    /// Rows of the list the cursor moves in on the current screen.
    pub fn selection_len(&self) -> (r: usize)
        ensures
            r == selection_len(*self),
    {
        match &self.screen {
            Screen::PlaylistDetail(pl) => pl.tracks.len(),
            Screen::Search => self.search_results.len(),
            Screen::Library => match self.focus {
                Focus::Sidebar => LibraryView::all().len(),
                Focus::Content => self.content_len(),
            },
            _ => 0,
        }
    }

    /// Search results arrived for request `seq`; they are dropped unless
    /// they answer the latest request and the search screen is still open.
    /// Returns whether the screen changed.
    pub fn receive_search_results(&mut self, seq: u64, tracks: Vec<YTrack>) -> (changed: bool)
        ensures
            changed == (seq == old(self).search_seq && old(self).screen is Search),
            results_received(*old(self), seq, tracks@, *final(self)),
    {
        if seq == self.search_seq && matches!(self.screen, Screen::Search) {
            let n = tracks.len();
            self.search_results = tracks;
            if self.selected_index >= n {
                self.selected_index = 0;
            }
            true
        } else {
            false
        }
    }

    /// The listening history arrived.
    pub fn receive_history(&mut self, tracks: Vec<YTrack>)
        ensures
            *final(self) == (AppState { history: tracks, history_loaded: true, ..*old(self) }),
    {
        self.history = tracks;
        self.history_loaded = true;
    }

    /// Another page of liked tracks arrived.
    pub fn receive_liked_tracks(&mut self, tracks: Vec<YTrack>)
        ensures
            *final(self) == (AppState { liked_tracks: final(self).liked_tracks, ..*old(self) }),
            final(self).liked_tracks@ == old(self).liked_tracks@ + tracks@,
    {
        let mut tracks = tracks;
        self.liked_tracks.append(&mut tracks);
    }
}

/// Move the cursor by `delta`, clamped to the list shown on the current
/// screen; the views scroll to follow the cursor at draw time.
pub fn move_selection(app: &mut AppState, delta: isize)
    ensures
        *final(app) == moved(*old(app), delta as int),
{
    let len = app.selection_len();
    let sidebar = matches!(app.screen, Screen::Library) && app.focus == Focus::Sidebar;
    let cur = if sidebar { app.sidebar_selected } else { app.selected_index };
    let target: usize = if len == 0 {
        0
    } else {
        let last = len - 1;
        let start = if cur < last { cur } else { last };
        if delta >= 0 {
            let d = delta as usize;
            if d >= last - start { last } else { start + d }
        } else {
            let d = ((-(delta + 1)) as usize) + 1;
            if d >= start { 0 } else { start - d }
        }
    };
    if sidebar {
        app.sidebar_selected = target;
    } else {
        app.selected_index = target;
    }
}

} // verus!
