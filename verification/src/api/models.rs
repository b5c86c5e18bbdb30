use vstd::prelude::*;
use crate::utils::text::{joined, push_str, push_decimal2, decimal2, owned};

verus! {

/// A track as the service describes it.
#[derive(Debug, PartialEq)]
pub struct YTrack {
    pub id: String,
    pub title: String,
    pub artists: Vec<YArtist>,
    pub albums: Vec<YAlbum>,
    pub duration_ms: u32,
    pub cover_uri: Option<String>,
    pub lyrics_available: bool,
    pub explicit: bool,
    pub track_position: Option<u32>,
    pub liked: bool,
}

/// An artist.
#[derive(Debug, PartialEq)]
pub struct YArtist {
    pub id: String,
    pub name: String,
    pub cover_uri: Option<String>,
    pub genres: Vec<String>,
    pub tracks_count: Option<u32>,
    pub albums_count: Option<u32>,
    pub liked: bool,
}

/// An album, with its tracks when they were requested.
#[derive(Debug, PartialEq)]
pub struct YAlbum {
    pub id: String,
    pub title: String,
    pub artists: Vec<YArtist>,
    pub cover_uri: Option<String>,
    pub track_count: u32,
    pub year: Option<u32>,
    pub genre: Option<String>,
    pub liked: bool,
    pub tracks: Vec<YTrack>,
}


/// A playlist; `tracks` is filled when the playlist is opened.
#[derive(Debug, PartialEq)]
pub struct YPlaylist {
    pub id: String,
    pub kind: i64,
    pub title: String,
    pub owner_name: String,
    pub track_count: u32,
    pub cover_uri: Option<String>,
    pub description: Option<String>,
    pub duration_ms: u32,
    pub liked: bool,
    pub tracks: Vec<YTrack>,
}

#[derive(Debug, Clone)]
pub struct YSearchResult {
    pub tracks: Vec<YTrack>,
    pub artists: Vec<YArtist>,
    pub albums: Vec<YAlbum>,
    pub playlists: Vec<YPlaylist>,
}

#[derive(Debug, Clone)]
pub struct YRadioStation {
    pub id: String,
    pub title: String,
    pub description: Option<String>,
    pub icon_uri: Option<String>,
}

/// One way to download a track: where to ask for the link, and in which
/// codec and bitrate.
#[derive(Debug, Clone)]
pub struct YTrackDownloadInfo {
    pub url: String,
    pub codec: String,
    pub bitrate: u32,
    pub gain: bool,
}

#[derive(Debug, Clone)]
pub struct YLyrics {
    pub lyrics: String,
    pub has_timing: bool,
}

/// The tabs of the library pane.
#[derive(Debug, Clone, Copy, PartialEq, Eq, Structural)]
pub enum LibraryView {
    LikedTracks,
    Playlists,
    History,
}

#[derive(Debug, Clone)]
pub struct DeviceCodeResponse {
    pub device_code: String,
    pub user_code: String,
    pub verification_url: String,
    pub interval: u32,
    pub expires_in: u32,
}

#[derive(Debug, Clone)]
pub struct TokenResponse {
    pub access_token: String,
    pub refresh_token: Option<String>,
    pub expires_in: u32,
    pub token_type: String,
}

/// The names of the artists joined with ", ".
pub open spec fn artist_names_of(artists: Seq<YArtist>) -> Seq<char> {
    joined(artists.map_values(|a: YArtist| a.name@), ", "@)
}

/// `mm:ss` for a duration in milliseconds; minutes are not capped at 59.
pub open spec fn mm_ss(ms: nat) -> Seq<char> {
    decimal2((ms / 1000) / 60) + seq![':'] + decimal2((ms / 1000) % 60)
}

/// The names of the artists joined with ", ".
pub fn join_artist_names(artists: &[YArtist]) -> (r: String)
    ensures
        r@ == artist_names_of(artists@),
{
    let ghost views = artists@.map_values(|a: YArtist| a.name@);
    let mut out = String::new();
    for i in 0..artists.len()
        invariant
            views == artists@.map_values(|a: YArtist| a.name@),
            out@ == joined(views.take(i as int), ", "@),
    {
        if i != 0 {
            push_str(&mut out, ", ");
        }
        push_str(&mut out, artists[i].name.as_str());
        assert(views.take(i + 1).drop_last() == views.take(i as int));
    }
    assert(views.take(artists@.len() as int) == views);
    out
}

/// `mm:ss` for a duration in milliseconds.
pub fn format_mm_ss(ms: u32) -> (r: String)
    ensures
        r@ == mm_ss(ms as nat),
{
    let total_secs = ms / 1000;
    let mut out = String::new();
    push_decimal2(&mut out, (total_secs / 60) as u64);
    push_str(&mut out, ":");
    proof { reveal_strlit(":"); }
    push_decimal2(&mut out, (total_secs % 60) as u64);
    out
}

impl YTrack {
    pub fn artists_str(&self) -> (r: String)
        ensures
            r@ == artist_names_of(self.artists@),
    {
        join_artist_names(self.artists.as_slice())
    }

    /// Title of the first album, or the empty string.
    pub fn album_str(&self) -> (r: String)
        ensures
            r@ == if self.albums@.len() > 0 { self.albums@[0].title@ } else { Seq::empty() },
    {
        if self.albums.len() > 0 {
            self.albums[0].title.clone()
        } else {
            String::new()
        }
    }

    pub fn duration_str(&self) -> (r: String)
        ensures
            r@ == mm_ss(self.duration_ms as nat),
    {
        format_mm_ss(self.duration_ms)
    }

    /// "Artists — Title".
    pub fn display_title(&self) -> (r: String)
        ensures
            r@ == artist_names_of(self.artists@) + " — "@ + self.title@,
    {
        let mut out = self.artists_str();
        push_str(&mut out, " — ");
        push_str(&mut out, self.title.as_str());
        out
    }
}

impl YArtist {
    pub fn genres_str(&self) -> (r: String)
        ensures
            r@ == joined(self.genres@.map_values(|g: String| g@), ", "@),
    {
        crate::utils::text::join_strings(self.genres.as_slice(), ", ")
    }
}

impl YAlbum {
    pub fn artists_str(&self) -> (r: String)
        ensures
            r@ == artist_names_of(self.artists@),
    {
        join_artist_names(self.artists.as_slice())
    }
}

impl YPlaylist {
    pub fn duration_str(&self) -> (r: String)
        ensures
            r@ == mm_ss(self.duration_ms as nat),
    {
        format_mm_ss(self.duration_ms)
    }
}

/// The three library tabs, in sidebar order.
pub open spec fn library_views() -> Seq<LibraryView> {
    seq![LibraryView::LikedTracks, LibraryView::Playlists, LibraryView::History]
}

impl LibraryView {
    pub fn all() -> (r: &'static [LibraryView])
        ensures
            r@ == library_views(),
    {
        &[LibraryView::LikedTracks, LibraryView::Playlists, LibraryView::History]
    }

    pub fn name(&self) -> (r: &'static str)
        ensures
            r@ == match self {
                LibraryView::LikedTracks => "Мне нравится"@,
                LibraryView::Playlists => "Плейлисты"@,
                LibraryView::History => "История"@,
            },
    {
        match self {
            LibraryView::LikedTracks => "Мне нравится",
            LibraryView::Playlists => "Плейлисты",
            LibraryView::History => "История",
        }
    }

    pub fn icon(&self) -> (r: &'static str)
        ensures
            r@ == match self {
                LibraryView::LikedTracks => "♥"@,
                LibraryView::Playlists => "♪"@,
                LibraryView::History => "⏱"@,
            },
    {
        match self {
            LibraryView::LikedTracks => "♥",
            LibraryView::Playlists => "♪",
            LibraryView::History => "⏱",
        }
    }
}

/// Copies an optional string.
pub fn copy_opt_string(s: &Option<String>) -> (r: Option<String>)
    ensures
        r == *s,
{
    match s {
        Some(v) => Some(v.clone()),
        None => None,
    }
}

/// Copies a list of strings.
pub fn copy_strings(v: &Vec<String>) -> (r: Vec<String>)
    ensures
        r@ == v@,
{
    let mut out: Vec<String> = Vec::new();
    for i in 0..v.len()
        invariant
            out@ == v@.subrange(0, i as int),
    {
        out.push(v[i].clone());
        assert(out@ == v@.subrange(0, i + 1));
    }
    assert(v@.subrange(0, v@.len() as int) == v@);
    out
}

/// The fields of an artist that a copy keeps.
pub open spec fn same_artist(a: YArtist, b: YArtist) -> bool {
    &&& a.id == b.id
    &&& a.name == b.name
    &&& a.cover_uri == b.cover_uri
    &&& a.genres@ == b.genres@
    &&& a.tracks_count == b.tracks_count
    &&& a.albums_count == b.albums_count
    &&& a.liked == b.liked
}

/// The fields of a track that a copy keeps: its artists and albums are
/// copied one by one.
pub open spec fn same_track(a: YTrack, b: YTrack) -> bool
    decreases a, 1int,
{
    &&& a.id == b.id
    &&& a.title == b.title
    &&& same_artists(a.artists@, b.artists@)
    &&& a.albums@.len() == b.albums@.len()
    &&& forall|i: int| 0 <= i < a.albums@.len() ==> {
        proof { vstd::std_specs::vec::axiom_vec_index_decreases(a.albums, i); }
        same_album(#[trigger] a.albums@[i], b.albums@[i])
    }
    &&& a.duration_ms == b.duration_ms
    &&& a.cover_uri == b.cover_uri
    &&& a.lyrics_available == b.lyrics_available
    &&& a.explicit == b.explicit
    &&& a.track_position == b.track_position
    &&& a.liked == b.liked
}

/// Artists copied one by one.
pub open spec fn same_artists(a: Seq<YArtist>, b: Seq<YArtist>) -> bool {
    &&& a.len() == b.len()
    &&& forall|i: int| 0 <= i < a.len() ==> same_artist(#[trigger] a[i], b[i])
}

/// The fields of an album that a copy keeps: its artists are copied one by
/// one, and its list of tracks keeps its length.
pub open spec fn same_album(a: YAlbum, b: YAlbum) -> bool
    decreases a, 0int,
{
    &&& a.id == b.id
    &&& a.title == b.title
    &&& same_artists(a.artists@, b.artists@)
    &&& a.cover_uri == b.cover_uri
    &&& a.track_count == b.track_count
    &&& a.year == b.year
    &&& a.genre == b.genre
    &&& a.liked == b.liked
    &&& a.tracks@.len() == b.tracks@.len()
    &&& forall|i: int| 0 <= i < a.tracks@.len() ==> {
        proof { vstd::std_specs::vec::axiom_vec_index_decreases(a.tracks, i); }
        same_track(#[trigger] a.tracks@[i], b.tracks@[i])
    }
}

pub fn copy_artist(a: &YArtist) -> (r: YArtist)
    ensures
        same_artist(r, *a),
{
    YArtist {
        id: a.id.clone(),
        name: a.name.clone(),
        cover_uri: copy_opt_string(&a.cover_uri),
        genres: copy_strings(&a.genres),
        tracks_count: a.tracks_count,
        albums_count: a.albums_count,
        liked: a.liked,
    }
}

pub fn copy_artists(v: &Vec<YArtist>) -> (r: Vec<YArtist>)
    ensures
        r@.len() == v@.len(),
        forall|i: int| 0 <= i < v@.len() ==> same_artist(#[trigger] r@[i], v@[i]),
{
    let mut out: Vec<YArtist> = Vec::new();
    for i in 0..v.len()
        invariant
            out@.len() == i,
            forall|k: int| 0 <= k < i ==> same_artist(#[trigger] out@[k], v@[k]),
    {
        out.push(copy_artist(&v[i]));
    }
    out
}

pub fn copy_track(t: &YTrack) -> (r: YTrack)
    ensures
        same_track(r, *t),
    decreases t, 1int,
{
    let mut albums: Vec<YAlbum> = Vec::new();
    for i in 0..t.albums.len()
        invariant
            albums@.len() == i,
            forall|k: int| 0 <= k < i ==> same_album(#[trigger] albums@[k], t.albums@[k]),
    {
        proof { vstd::std_specs::vec::axiom_vec_index_decreases(t.albums, i as int); }
        albums.push(copy_album(&t.albums[i]));
    }
    YTrack {
        id: t.id.clone(),
        title: t.title.clone(),
        artists: copy_artists(&t.artists),
        albums,
        duration_ms: t.duration_ms,
        cover_uri: copy_opt_string(&t.cover_uri),
        lyrics_available: t.lyrics_available,
        explicit: t.explicit,
        track_position: t.track_position,
        liked: t.liked,
    }
}

pub fn copy_album(a: &YAlbum) -> (r: YAlbum)
    ensures
        same_album(r, *a),
    decreases a, 0int,
{
    let mut tracks: Vec<YTrack> = Vec::new();
    for i in 0..a.tracks.len()
        invariant
            tracks@.len() == i,
            forall|k: int| 0 <= k < i ==> same_track(#[trigger] tracks@[k], a.tracks@[k]),
    {
        proof { vstd::std_specs::vec::axiom_vec_index_decreases(a.tracks, i as int); }
        tracks.push(copy_track(&a.tracks[i]));
    }
    YAlbum {
        id: a.id.clone(),
        title: a.title.clone(),
        artists: copy_artists(&a.artists),
        cover_uri: copy_opt_string(&a.cover_uri),
        track_count: a.track_count,
        year: a.year,
        genre: copy_opt_string(&a.genre),
        liked: a.liked,
        tracks,
    }
}

/// Copies of the tracks, in order.
pub fn copy_tracks(v: &[YTrack]) -> (r: Vec<YTrack>)
    ensures
        r@.len() == v@.len(),
        forall|i: int| 0 <= i < v@.len() ==> same_track(#[trigger] r@[i], v@[i]),
{
    let mut out: Vec<YTrack> = Vec::new();
    for i in 0..v.len()
        invariant
            out@.len() == i,
            forall|k: int| 0 <= k < i ==> same_track(#[trigger] out@[k], v@[k]),
    {
        out.push(copy_track(&v[i]));
    }
    out
}

/// The fields of a playlist that a copy keeps; its tracks are copied one by one.
pub open spec fn same_playlist(a: YPlaylist, b: YPlaylist) -> bool {
    &&& same_playlist_info(a, b)
    &&& a.tracks@.len() == b.tracks@.len()
    &&& forall|i: int| 0 <= i < a.tracks@.len() ==> same_track(#[trigger] a.tracks@[i], b.tracks@[i])
}

/// The fields of a playlist other than its tracks are equal.
pub open spec fn same_playlist_info(a: YPlaylist, b: YPlaylist) -> bool {
    &&& a.id == b.id
    &&& a.kind == b.kind
    &&& a.title == b.title
    &&& a.owner_name == b.owner_name
    &&& a.track_count == b.track_count
    &&& a.cover_uri == b.cover_uri
    &&& a.description == b.description
    &&& a.duration_ms == b.duration_ms
    &&& a.liked == b.liked
}

pub fn copy_playlist(p: &YPlaylist) -> (r: YPlaylist)
    ensures
        same_playlist(r, *p),
{
    YPlaylist {
        id: p.id.clone(),
        kind: p.kind,
        title: p.title.clone(),
        owner_name: p.owner_name.clone(),
        track_count: p.track_count,
        cover_uri: copy_opt_string(&p.cover_uri),
        description: copy_opt_string(&p.description),
        duration_ms: p.duration_ms,
        liked: p.liked,
        tracks: copy_tracks(p.tracks.as_slice()),
    }
}

impl Clone for YPlaylist {
    fn clone(&self) -> (r: Self)
        ensures
            same_playlist(r, *self),
    {
        copy_playlist(self)
    }
}

impl Clone for YTrack {
    fn clone(&self) -> (r: Self)
        ensures
            same_track(r, *self),
    {
        copy_track(self)
    }
}

impl Clone for YAlbum {
    fn clone(&self) -> (r: Self)
        ensures
            same_album(r, *self),
    {
        copy_album(self)
    }
}

impl Clone for YArtist {
    fn clone(&self) -> (r: Self)
        ensures
            same_artist(r, *self),
    {
        copy_artist(self)
    }
}

} // verus!
