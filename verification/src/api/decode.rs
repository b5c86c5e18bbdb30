//! Turning the service's JSON into tracks, albums, artists and playlists.
use vstd::prelude::*;
use crate::api::json::{Json, jarray, jarray_or_empty, jbool, jget, ji64, jstr, ju64, push_signed_decimal, signed_decimal};
use crate::api::models::{YAlbum, YArtist, YPlaylist, YTrack};
use crate::utils::text::owned;

verus! {

/// The elements of `s` that satisfy `ok`, in order.
pub open spec fn kept(s: Seq<Json>, ok: spec_fn(Json) -> bool) -> Seq<Json>
    decreases s.len(),
{
    if s.len() == 0 {
        Seq::empty()
    } else if ok(s.last()) {
        kept(s.drop_last(), ok).push(s.last())
    } else {
        kept(s.drop_last(), ok)
    }
}

/// `out` is what a `filter_map` gives over `src`: one value for each
/// element that decodes (`ok`), related to it by `rel`, in order.
pub open spec fn decoded_list<T>(
    src: Seq<Json>,
    ok: spec_fn(Json) -> bool,
    rel: spec_fn(Json, T) -> bool,
    out: Seq<T>,
) -> bool {
    let k = kept(src, ok);
    &&& out.len() == k.len()
    &&& forall|i: int| 0 <= i < k.len() ==> #[trigger] rel(k[i], out[i])
}

/// Decoding one more element extends what a `filter_map` gives.
pub proof fn lemma_decoded_push<T>(
    src: Seq<Json>,
    ok: spec_fn(Json) -> bool,
    rel: spec_fn(Json, T) -> bool,
    out: Seq<T>,
    i: int,
    r: Option<T>,
)
    requires
        0 <= i < src.len(),
        decoded_list(src.take(i), ok, rel, out),
        r is Some == ok(src[i]),
        r matches Some(x) ==> rel(src[i], x),
    ensures
        decoded_list(
            src.take(i + 1),
            ok,
            rel,
            match r {
                Some(x) => out.push(x),
                None => out,
            },
        ),
{
    assert(src.take(i + 1).drop_last() == src.take(i));
    assert(src.take(i + 1).last() == src[i]);
    let k = kept(src.take(i), ok);
    match r {
        Some(x) => {
            let k2 = kept(src.take(i + 1), ok);
            assert(k2 == k.push(src[i]));
            let o2 = out.push(x);
            assert forall|j: int| 0 <= j < k2.len() implies #[trigger] rel(k2[j], o2[j]) by {
                if j < k.len() {
                    assert(k2[j] == k[j] && o2[j] == out[j]);
                }
            }
        },
        None => {},
    }
}

pub open spec fn opt_view(o: Option<String>) -> Option<Seq<char>> {
    match o {
        Some(s) => Some(s@),
        None => None,
    }
}

pub open spec fn or_else<T>(a: Option<T>, b: Option<T>) -> Option<T> {
    match a {
        Some(x) => Some(x),
        None => b,
    }
}

pub open spec fn or_empty(o: Option<Seq<char>>) -> Seq<char> {
    match o {
        Some(s) => s,
        None => Seq::empty(),
    }
}

pub open spec fn or_zero(o: Option<u64>) -> u64 {
    match o {
        Some(x) => x,
        None => 0,
    }
}

pub open spec fn to_u32(o: Option<u64>) -> Option<u32> {
    match o {
        Some(x) => Some(x as u32),
        None => None,
    }
}

pub open spec fn is_true(o: Option<bool>) -> bool {
    o == Some(true)
}

/// The service writes keys in camelCase; some older payloads use
/// snake_case. The camelCase member wins unless it is absent or null.
pub open spec fn jfield_of(v: Json, camel: Seq<char>, snake: Seq<char>) -> Json {
    if jget(v, camel) is Null {
        jget(v, snake)
    } else {
        jget(v, camel)
    }
}

/// Ids arrive either as numbers or as strings depending on the endpoint.
pub open spec fn id_of(v: Json) -> Option<Seq<char>> {
    match ji64(v) {
        Some(i) => Some(signed_decimal(i as int)),
        None => jstr(v),
    }
}

/// The strings of an array, skipping other elements.
pub open spec fn is_str(v: Json) -> bool {
    jstr(v) is Some
}

pub open spec fn str_rel(v: Json, s: String) -> bool {
    jstr(v) == Some(s@)
}

pub open spec fn artist_ok(a: Json) -> bool {
    jstr(jget(a, "name"@)) is Some
}

pub open spec fn artist_rel(a: Json, r: YArtist) -> bool {
    &&& r.id@ == or_empty(id_of(jget(a, "id"@)))
    &&& Some(r.name@) == jstr(jget(a, "name"@))
    &&& opt_view(r.cover_uri) == jstr(jget(jget(a, "cover"@), "uri"@))
    &&& decoded_list(jarray_or_empty(jget(a, "genres"@)), |v: Json| is_str(v), |v: Json, s: String| str_rel(v, s), r.genres@)
    &&& r.tracks_count == to_u32(
        or_else(
            ju64(jget(jget(a, "counts"@), "tracks"@)),
            ju64(jfield_of(a, "tracksCount"@, "tracks_count"@)),
        ),
    )
    &&& r.albums_count == to_u32(
        or_else(
            ju64(jget(jget(a, "counts"@), "directAlbums"@)),
            ju64(jfield_of(a, "albumsCount"@, "albums_count"@)),
        ),
    )
    &&& !r.liked
}

pub open spec fn album_ok(a: Json) -> bool {
    jstr(jget(a, "title"@)) is Some
}

pub open spec fn album_rel(a: Json, r: YAlbum) -> bool {
    &&& r.id@ == or_empty(id_of(jget(a, "id"@)))
    &&& Some(r.title@) == jstr(jget(a, "title"@))
    &&& decoded_list(jarray_or_empty(jget(a, "artists"@)), |v: Json| artist_ok(v), |v: Json, x: YArtist| artist_rel(v, x), r.artists@)
    &&& opt_view(r.cover_uri) == jstr(jfield_of(a, "coverUri"@, "cover_uri"@))
    &&& r.track_count == or_zero(ju64(jfield_of(a, "trackCount"@, "track_count"@))) as u32
    &&& r.year == to_u32(ju64(jget(a, "year"@)))
    &&& opt_view(r.genre) == jstr(jget(a, "genre"@))
    &&& !r.liked
    &&& r.tracks@.len() == 0
}

pub open spec fn track_ok(t: Json) -> bool {
    id_of(jget(t, "id"@)) is Some && jstr(jget(t, "title"@)) is Some
}

/// The cover of a track: its own, or else its first album's.
pub open spec fn track_cover(t: Json) -> Option<Seq<char>> {
    or_else(
        jstr(jfield_of(t, "coverUri"@, "cover_uri"@)),
        match jarray(jget(t, "albums"@)) {
            Some(a) => if a.len() > 0 {
                jstr(jfield_of(a[0], "coverUri"@, "cover_uri"@))
            } else {
                None
            },
            None => None,
        },
    )
}

/// Whether any of the lyrics flags of a track is set.
pub open spec fn track_has_lyrics(t: Json) -> bool {
    let info = jfield_of(t, "lyricsInfo"@, "lyrics_info"@);
    is_true(jbool(jfield_of(t, "lyricsAvailable"@, "lyrics_available"@))) || is_true(
        jbool(jfield_of(info, "hasAvailableTextLyrics"@, "has_visible_lyrics"@)),
    ) || is_true(jbool(jfield_of(info, "hasAvailableSyncLyrics"@, "has_lyrics"@)))
}

pub open spec fn track_rel(t: Json, liked: bool, position: Option<u64>, r: YTrack) -> bool {
    &&& Some(r.id@) == id_of(jget(t, "id"@))
    &&& Some(r.title@) == jstr(jget(t, "title"@))
    &&& decoded_list(jarray_or_empty(jget(t, "artists"@)), |v: Json| artist_ok(v), |v: Json, x: YArtist| artist_rel(v, x), r.artists@)
    &&& decoded_list(jarray_or_empty(jget(t, "albums"@)), |v: Json| album_ok(v), |v: Json, x: YAlbum| album_rel(v, x), r.albums@)
    &&& r.duration_ms == or_zero(ju64(jfield_of(t, "durationMs"@, "duration_ms"@))) as u32
    &&& opt_view(r.cover_uri) == track_cover(t)
    &&& r.lyrics_available == track_has_lyrics(t)
    &&& r.explicit == is_true(jbool(jget(t, "explicit"@)))
    &&& r.track_position == to_u32(
        or_else(
            position,
            or_else(ju64(jfield_of(t, "trackPosition"@, "track_position"@)), ju64(jget(t, "index"@))),
        ),
    )
    &&& r.liked == liked
}

pub open spec fn playlist_ok(p: Json) -> bool {
    jstr(jget(p, "title"@)) is Some
}

pub open spec fn kind_text(p: Json) -> Option<Seq<char>> {
    match ji64(jget(p, "kind"@)) {
        Some(k) => Some(signed_decimal(k as int)),
        None => None,
    }
}

pub open spec fn playlist_rel(p: Json, r: YPlaylist) -> bool {
    &&& r.id@ == or_empty(or_else(jstr(jfield_of(p, "playlistUuid"@, "playlist_id"@)), kind_text(p)))
    &&& r.kind == match ji64(jget(p, "kind"@)) {
        Some(k) => k,
        None => 0,
    }
    &&& Some(r.title@) == jstr(jget(p, "title"@))
    &&& r.owner_name@ == or_empty(
        or_else(jstr(jget(jget(p, "owner"@), "name"@)), jstr(jget(jget(p, "owner"@), "login"@))),
    )
    &&& r.track_count == or_zero(ju64(jfield_of(p, "trackCount"@, "track_count"@))) as u32
    &&& opt_view(r.cover_uri) == or_else(
        jstr(jget(jget(p, "cover"@), "uri"@)),
        jstr(jfield_of(p, "ogImage"@, "og_image"@)),
    )
    &&& opt_view(r.description) == jstr(jget(p, "description"@))
    &&& r.duration_ms == or_zero(ju64(jfield_of(p, "durationMs"@, "duration_ms"@))) as u32
    &&& !r.liked
    &&& r.tracks@.len() == 0
}

/// The camelCase member, or the snake_case one when that is absent or null.
pub fn jfield<'a>(v: &'a Json, camel: &str, snake: &str) -> (r: &'a Json)
    ensures
        *r == jfield_of(*v, camel@, snake@),
{
    let c = v.get(camel);
    if c.is_null() {
        v.get(snake)
    } else {
        c
    }
}

/// An id written as a number or a string, as a string.
pub fn parse_id(v: &Json) -> (r: Option<String>)
    ensures
        opt_view(r) == id_of(*v),
{
    match v.as_i64() {
        Some(i) => {
            let mut s = String::new();
            push_signed_decimal(&mut s, i);
            Some(s)
        },
        None => match v.as_str() {
            Some(s) => Some(owned(s)),
            None => None,
        },
    }
}

fn id_or_empty(v: &Json) -> (r: String)
    ensures
        r@ == or_empty(id_of(*v)),
{
    match parse_id(v) {
        Some(s) => s,
        None => String::new(),
    }
}

fn opt_owned(o: Option<&str>) -> (r: Option<String>)
    ensures
        opt_view(r) == match o {
            Some(s) => Some(s@),
            None => None,
        },
{
    match o {
        Some(s) => Some(owned(s)),
        None => None,
    }
}

fn opt_u32(o: Option<u64>) -> (r: Option<u32>)
    ensures
        r == to_u32(o),
{
    match o {
        Some(x) => Some(x as u32),
        None => None,
    }
}

fn u64_or_zero(o: Option<u64>) -> (r: u64)
    ensures
        r == or_zero(o),
{
    match o {
        Some(x) => x,
        None => 0,
    }
}

fn bool_or_false(o: Option<bool>) -> (r: bool)
    ensures
        r == is_true(o),
{
    match o {
        Some(b) => b,
        None => false,
    }
}

#[verifier::loop_isolation(false)]
fn strings_of(v: &Json) -> (r: Vec<String>)
    ensures
        decoded_list(jarray_or_empty(*v), |x: Json| is_str(x), |x: Json, s: String| str_rel(x, s), r@),
{
    let ghost ok = |x: Json| is_str(x);
    let ghost rel = |x: Json, s: String| str_rel(x, s);
    let mut out: Vec<String> = Vec::new();
    match v.as_array() {
        Some(a) => {
            for i in 0..a.len()
                invariant
                    decoded_list(a@.take(i as int), ok, rel, out@),
            {
                assert(a@.take(i + 1).drop_last() == a@.take(i as int));
                let r = match a[i].as_str() {
                    Some(s) => Some(owned(s)),
                    None => None,
                };
                proof {
                    lemma_decoded_push(a@, ok, rel, out@, i as int, r);
                }
                match r {
                    Some(x) => out.push(x),
                    None => {},
                }
            }
            assert(a@.take(a@.len() as int) == a@);
        },
        None => {},
    }
    out
}

pub fn parse_artist(a: &Json) -> (r: Option<YArtist>)
    ensures
        r is Some == artist_ok(*a),
        r matches Some(x) ==> artist_rel(*a, x),
{
    let name = match a.get("name").as_str() {
        Some(n) => owned(n),
        None => return None,
    };
    let counts = a.get("counts");
    let tracks_count = match counts.get("tracks").as_u64() {
        Some(c) => Some(c),
        None => jfield(a, "tracksCount", "tracks_count").as_u64(),
    };
    let albums_count = match counts.get("directAlbums").as_u64() {
        Some(c) => Some(c),
        None => jfield(a, "albumsCount", "albums_count").as_u64(),
    };
    Some(YArtist {
        id: id_or_empty(a.get("id")),
        name,
        cover_uri: opt_owned(a.get("cover").get("uri").as_str()),
        genres: strings_of(a.get("genres")),
        tracks_count: opt_u32(tracks_count),
        albums_count: opt_u32(albums_count),
        liked: false,
    })
}

/// The artists of an array that decode, skipping the others.
#[verifier::loop_isolation(false)]
pub fn parse_artists(v: &Json) -> (r: Vec<YArtist>)
    ensures
        decoded_list(jarray_or_empty(*v), |x: Json| artist_ok(x), |x: Json, y: YArtist| artist_rel(x, y), r@),
{
    let ghost ok = |x: Json| artist_ok(x);
    let ghost rel = |x: Json, y: YArtist| artist_rel(x, y);
    let mut out: Vec<YArtist> = Vec::new();
    match v.as_array() {
        Some(a) => {
            for i in 0..a.len()
                invariant
                    decoded_list(a@.take(i as int), ok, rel, out@),
            {
                assert(a@.take(i + 1).drop_last() == a@.take(i as int));
                let r = parse_artist(&a[i]);
                proof {
                    lemma_decoded_push(a@, ok, rel, out@, i as int, r);
                }
                match r {
                    Some(x) => out.push(x),
                    None => {},
                }
            }
            assert(a@.take(a@.len() as int) == a@);
        },
        None => {},
    }
    out
}

pub fn parse_album(a: &Json) -> (r: Option<YAlbum>)
    ensures
        r is Some == album_ok(*a),
        r matches Some(x) ==> album_rel(*a, x),
{
    let title = match a.get("title").as_str() {
        Some(t) => owned(t),
        None => return None,
    };
    Some(YAlbum {
        id: id_or_empty(a.get("id")),
        title,
        artists: parse_artists(a.get("artists")),
        cover_uri: opt_owned(jfield(a, "coverUri", "cover_uri").as_str()),
        track_count: u64_or_zero(jfield(a, "trackCount", "track_count").as_u64()) as u32,
        year: opt_u32(a.get("year").as_u64()),
        genre: opt_owned(a.get("genre").as_str()),
        liked: false,
        tracks: Vec::new(),
    })
}

/// The albums of an array that decode, skipping the others.
#[verifier::loop_isolation(false)]
pub fn parse_albums(v: &Json) -> (r: Vec<YAlbum>)
    ensures
        decoded_list(jarray_or_empty(*v), |x: Json| album_ok(x), |x: Json, y: YAlbum| album_rel(x, y), r@),
{
    let ghost ok = |x: Json| album_ok(x);
    let ghost rel = |x: Json, y: YAlbum| album_rel(x, y);
    let mut out: Vec<YAlbum> = Vec::new();
    match v.as_array() {
        Some(a) => {
            for i in 0..a.len()
                invariant
                    decoded_list(a@.take(i as int), ok, rel, out@),
            {
                assert(a@.take(i + 1).drop_last() == a@.take(i as int));
                let r = parse_album(&a[i]);
                proof {
                    lemma_decoded_push(a@, ok, rel, out@, i as int, r);
                }
                match r {
                    Some(x) => out.push(x),
                    None => {},
                }
            }
            assert(a@.take(a@.len() as int) == a@);
        },
        None => {},
    }
    out
}

fn cover_of(t: &Json) -> (r: Option<String>)
    ensures
        opt_view(r) == track_cover(*t),
{
    match jfield(t, "coverUri", "cover_uri").as_str() {
        Some(c) => Some(owned(c)),
        None => match t.get("albums").as_array() {
            Some(a) => if a.len() > 0 {
                opt_owned(jfield(&a[0], "coverUri", "cover_uri").as_str())
            } else {
                None
            },
            None => None,
        },
    }
}

fn has_lyrics(t: &Json) -> (r: bool)
    ensures
        r == track_has_lyrics(*t),
{
    let info = jfield(t, "lyricsInfo", "lyrics_info");
    bool_or_false(jfield(t, "lyricsAvailable", "lyrics_available").as_bool()) || bool_or_false(
        jfield(info, "hasAvailableTextLyrics", "has_visible_lyrics").as_bool(),
    ) || bool_or_false(jfield(info, "hasAvailableSyncLyrics", "has_lyrics").as_bool())
}

/// A track; one without an id or a title is skipped, since it could not be
/// downloaded or cached.
pub fn parse_track(t: &Json, liked: bool, position: Option<u64>) -> (r: Option<YTrack>)
    ensures
        r is Some == track_ok(*t),
        r matches Some(x) ==> track_rel(*t, liked, position, x),
{
    let id = match parse_id(t.get("id")) {
        Some(i) => i,
        None => return None,
    };
    let title = match t.get("title").as_str() {
        Some(s) => owned(s),
        None => return None,
    };
    let position = match position {
        Some(p) => Some(p),
        None => match jfield(t, "trackPosition", "track_position").as_u64() {
            Some(p) => Some(p),
            None => t.get("index").as_u64(),
        },
    };
    Some(YTrack {
        id,
        title,
        artists: parse_artists(t.get("artists")),
        albums: parse_albums(t.get("albums")),
        duration_ms: u64_or_zero(jfield(t, "durationMs", "duration_ms").as_u64()) as u32,
        cover_uri: cover_of(t),
        lyrics_available: has_lyrics(t),
        explicit: bool_or_false(t.get("explicit").as_bool()),
        track_position: opt_u32(position),
        liked,
    })
}

/// The tracks of a list that decode, skipping the others.
#[verifier::loop_isolation(false)]
pub fn parse_tracks(arr: &[Json], liked: bool) -> (r: Vec<YTrack>)
    ensures
        decoded_list(arr@, |x: Json| track_ok(x), |x: Json, y: YTrack| track_rel(x, liked, None, y), r@),
{
    let ghost ok = |x: Json| track_ok(x);
    let ghost rel = |x: Json, y: YTrack| track_rel(x, liked, None, y);
    let mut out: Vec<YTrack> = Vec::new();
    for i in 0..arr.len()
        invariant
            decoded_list(arr@.take(i as int), ok, rel, out@),
    {
        assert(arr@.take(i + 1).drop_last() == arr@.take(i as int));
        let r = parse_track(&arr[i], liked, None);
        proof {
            lemma_decoded_push(arr@, ok, rel, out@, i as int, r);
        }
        match r {
            Some(x) => out.push(x),
            None => {},
        }
    }
    assert(arr@.take(arr@.len() as int) == arr@);
    out
}

pub fn parse_playlist(p: &Json) -> (r: Option<YPlaylist>)
    ensures
        r is Some == playlist_ok(*p),
        r matches Some(x) ==> playlist_rel(*p, x),
{
    let kind = p.get("kind").as_i64();
    let id = match jfield(p, "playlistUuid", "playlist_id").as_str() {
        Some(s) => owned(s),
        None => match kind {
            Some(k) => {
                let mut s = String::new();
                push_signed_decimal(&mut s, k);
                s
            },
            None => String::new(),
        },
    };
    let title = match p.get("title").as_str() {
        Some(t) => owned(t),
        None => return None,
    };
    let owner = p.get("owner");
    let owner_name = match owner.get("name").as_str() {
        Some(n) => owned(n),
        None => match owner.get("login").as_str() {
            Some(l) => owned(l),
            None => String::new(),
        },
    };
    let cover_uri = match p.get("cover").get("uri").as_str() {
        Some(c) => Some(owned(c)),
        None => opt_owned(jfield(p, "ogImage", "og_image").as_str()),
    };
    Some(YPlaylist {
        id,
        kind: match kind {
            Some(k) => k,
            None => 0,
        },
        title,
        owner_name,
        track_count: u64_or_zero(jfield(p, "trackCount", "track_count").as_u64()) as u32,
        cover_uri,
        description: opt_owned(p.get("description").as_str()),
        duration_ms: u64_or_zero(jfield(p, "durationMs", "duration_ms").as_u64()) as u32,
        liked: false,
        tracks: Vec::new(),
    })
}

/// The playlists of a list that decode, skipping the others.
#[verifier::loop_isolation(false)]
pub fn parse_playlists(arr: &[Json]) -> (r: Vec<YPlaylist>)
    ensures
        decoded_list(arr@, |x: Json| playlist_ok(x), |x: Json, y: YPlaylist| playlist_rel(x, y), r@),
{
    let ghost ok = |x: Json| playlist_ok(x);
    let ghost rel = |x: Json, y: YPlaylist| playlist_rel(x, y);
    let mut out: Vec<YPlaylist> = Vec::new();
    for i in 0..arr.len()
        invariant
            decoded_list(arr@.take(i as int), ok, rel, out@),
    {
        assert(arr@.take(i + 1).drop_last() == arr@.take(i as int));
        let r = parse_playlist(&arr[i]);
        proof {
            lemma_decoded_push(arr@, ok, rel, out@, i as int, r);
        }
        match r {
            Some(x) => out.push(x),
            None => {},
        }
    }
    assert(arr@.take(arr@.len() as int) == arr@);
    out
}

} // verus!
