//! What the client takes from each of the service's responses.
use vstd::prelude::*;
use crate::api::decode::{
    album_ok, album_rel, artist_ok, artist_rel, decoded_list, id_of, jfield, jfield_of, kept,
    opt_view, or_empty, or_zero, parse_album, parse_albums, parse_artist, parse_artists, parse_id,
    parse_playlist, parse_track, parse_tracks, playlist_ok, playlist_rel, to_u32, track_ok,
    track_rel, is_true,
};
use crate::api::json::{Json, jarray, jarray_or_empty, jbool, jfind, jget, ji64, jstr, ju64};
use crate::api::models::{YAlbum, YArtist, YPlaylist, YSearchResult, YTrack, YTrackDownloadInfo};
use crate::utils::helpers::{Quality, priority_of, quality_named};
use crate::utils::text::{owned, str_equal};

verus! {

pub open spec fn is_object(v: Json) -> bool {
    v is Object
}

/// What a request answers: the service's error message when the answer
/// holds an `error` object ("Unknown error" when it has no message), else
/// its `result` member, else the note that it is missing.
pub open spec fn response_outcome(json: Json) -> Result<Json, Seq<char>> {
    let error = jget(json, "error"@);
    if is_object(error) {
        Err(
            match jstr(jget(error, "message"@)) {
                Some(m) => m,
                None => "Unknown error"@,
            },
        )
    } else {
        match jfind(json, "result"@) {
            Some(r) => Ok(r),
            None => Err("Missing 'result' in response"@),
        }
    }
}

pub fn response_result(json: &Json) -> (r: Result<&Json, String>)
    ensures
        match r {
            Ok(v) => response_outcome(*json) == Ok::<Json, Seq<char>>(*v),
            Err(m) => response_outcome(*json) == Err::<Json, Seq<char>>(m@),
        },
{
    let error = json.get("error");
    match error {
        Json::Object(_) => {
            let msg = match error.get("message").as_str() {
                Some(m) => owned(m),
                None => owned("Unknown error"),
            };
            return Err(msg);
        },
        _ => {},
    }
    match json.find("result") {
        Some(v) => Ok(v),
        None => Err(owned("Missing 'result' in response")),
    }
}

/// The account's user id: `account.uid`, as an unsigned or a signed number.
pub open spec fn uid_of_status(status: Json) -> Option<u64> {
    let v = jget(jget(status, "account"@), "uid"@);
    match ju64(v) {
        Some(u) => Some(u),
        None => match ji64(v) {
            Some(i) => Some(i as u64),
            None => None,
        },
    }
}

pub fn uid_of(status: &Json) -> (r: Option<u64>)
    ensures
        r == uid_of_status(*status),
{
    let v = status.get("account").get("uid");
    match v.as_u64() {
        Some(u) => Some(u),
        None => match v.as_i64() {
            Some(i) => Some(i as u64),
            None => None,
        },
    }
}

pub open spec fn has_id(v: Json) -> bool {
    id_of(jget(v, "id"@)) is Some
}

pub open spec fn id_rel(v: Json, s: String) -> bool {
    id_of(jget(v, "id"@)) == Some(s@)
}

/// Ids of the liked tracks, newest first: `library.tracks[*].id`.
#[verifier::loop_isolation(false)]
pub fn liked_track_ids(resp: &Json) -> (r: Vec<String>)
    ensures
        decoded_list(
            jarray_or_empty(jget(jget(*resp, "library"@), "tracks"@)),
            |v: Json| has_id(v),
            |v: Json, s: String| id_rel(v, s),
            r@,
        ),
{
    let ghost ok = |v: Json| has_id(v);
    let ghost rel = |v: Json, s: String| id_rel(v, s);
    let mut out: Vec<String> = Vec::new();
    match resp.get("library").get("tracks").as_array() {
        Some(a) => {
            for i in 0..a.len()
                invariant
                    decoded_list(a@.take(i as int), ok, rel, out@),
            {
                let r = parse_id(a[i].get("id"));
                proof {
                    crate::api::decode::lemma_decoded_push(a@, ok, rel, out@, i as int, r);
                }
                match r {
                    Some(x) => out.push(x),
                    None => {},
                }
            }
            assert(a@.take(a@.len() as int) == a@);
        },
        None => {},
    }
    out
}

/// Marks every track as liked.
pub fn mark_liked(tracks: &mut Vec<YTrack>)
    ensures
        final(tracks)@.len() == old(tracks)@.len(),
        forall|i: int|
            0 <= i < old(tracks)@.len() ==> #[trigger] final(tracks)@[i] == (YTrack {
                liked: true,
                ..old(tracks)@[i]
            }),
{
    let n = tracks.len();
    for i in 0..n
        invariant
            n == tracks@.len(),
            n == old(tracks)@.len(),
            forall|k: int| 0 <= k < i ==> #[trigger] tracks@[k] == (YTrack { liked: true, ..old(tracks)@[k] }),
            forall|k: int| i <= k < n ==> #[trigger] tracks@[k] == old(tracks)@[k],
    {
        let mut t = tracks.remove(i);
        t.liked = true;
        tracks.insert(i, t);
    }
}

/// The track an entry of a playlist holds: its `track` member when there
/// is one, the entry itself otherwise.
pub open spec fn entry_track(e: Json) -> Json {
    match jfind(e, "track"@) {
        Some(t) => t,
        None => e,
    }
}

pub open spec fn entry_ok(e: Json) -> bool {
    track_ok(entry_track(e))
}

pub open spec fn entry_rel(e: Json, r: YTrack) -> bool {
    track_rel(entry_track(e), false, ju64(jget(e, "index"@)), r)
}

/// The tracks of a playlist: each entry of `tracks`, at its `index`.
#[verifier::loop_isolation(false)]
pub fn playlist_tracks(resp: &Json) -> (r: Vec<YTrack>)
    ensures
        decoded_list(
            jarray_or_empty(jget(*resp, "tracks"@)),
            |e: Json| entry_ok(e),
            |e: Json, t: YTrack| entry_rel(e, t),
            r@,
        ),
{
    let ghost ok = |e: Json| entry_ok(e);
    let ghost rel = |e: Json, t: YTrack| entry_rel(e, t);
    let mut out: Vec<YTrack> = Vec::new();
    match resp.get("tracks").as_array() {
        Some(a) => {
            for i in 0..a.len()
                invariant
                    decoded_list(a@.take(i as int), ok, rel, out@),
            {
                let e = &a[i];
                let track = match e.find("track") {
                    Some(t) => t,
                    None => e,
                };
                let r = parse_track(track, false, e.get("index").as_u64());
                proof {
                    crate::api::decode::lemma_decoded_push(a@, ok, rel, out@, i as int, r);
                }
                match r {
                    Some(x) => out.push(x),
                    None => {},
                }
            }
            assert(a@.take(a@.len() as int) == a@);
        },
        None => {},
    }
    out
}

/// The elements of the volumes of an album, one volume after the other;
/// a volume that is not an array adds nothing.
pub open spec fn volume_entries(volumes: Seq<Json>) -> Seq<Json>
    decreases volumes.len(),
{
    if volumes.len() == 0 {
        Seq::empty()
    } else {
        volume_entries(volumes.drop_last()) + jarray_or_empty(volumes.last())
    }
}

pub open spec fn indexed_rel(t: Json, r: YTrack) -> bool {
    track_rel(t, false, ju64(jget(t, "index"@)), r)
}

/// An album with its tracks, from the album endpoint.
pub open spec fn album_rel_full(resp: Json, r: YAlbum) -> bool {
    &&& r.id@ == or_empty(id_of(jget(resp, "id"@)))
    &&& r.title@ == or_empty(jstr(jget(resp, "title"@)))
    &&& decoded_list(
        jarray_or_empty(jget(resp, "artists"@)),
        |v: Json| artist_ok(v),
        |v: Json, x: YArtist| artist_rel(v, x),
        r.artists@,
    )
    &&& opt_view(r.cover_uri) == jstr(jfield_of(resp, "coverUri"@, "cover_uri"@))
    &&& r.track_count == or_zero(ju64(jfield_of(resp, "trackCount"@, "track_count"@))) as u32
    &&& r.year == to_u32(ju64(jget(resp, "year"@)))
    &&& opt_view(r.genre) == jstr(jget(resp, "genre"@))
    &&& r.liked == is_true(jbool(jget(resp, "liked"@)))
    &&& decoded_list(
        volume_entries(jarray_or_empty(jget(resp, "volumes"@))),
        |t: Json| track_ok(t),
        |t: Json, x: YTrack| indexed_rel(t, x),
        r.tracks@,
    )
}

/// `kept` of a concatenation is the concatenation of `kept`.
proof fn lemma_kept_concat(a: Seq<Json>, b: Seq<Json>, ok: spec_fn(Json) -> bool)
    ensures
        kept(a + b, ok) == kept(a, ok) + kept(b, ok),
    decreases b.len(),
{
    if b.len() == 0 {
        assert(a + b == a);
    } else {
        lemma_kept_concat(a, b.drop_last(), ok);
        assert((a + b).drop_last() == a + b.drop_last());
        assert((a + b).last() == b.last());
    }
}

#[verifier::loop_isolation(false)]
fn push_volume_tracks(out: &mut Vec<YTrack>, vol: &Vec<Json>, Ghost(prefix): Ghost<Seq<Json>>)
    requires
        decoded_list(prefix, |t: Json| track_ok(t), |t: Json, x: YTrack| indexed_rel(t, x), old(out)@),
    ensures
        decoded_list(
            prefix + vol@,
            |t: Json| track_ok(t),
            |t: Json, x: YTrack| indexed_rel(t, x),
            final(out)@,
        ),
{
    let ghost ok = |t: Json| track_ok(t);
    let ghost rel = |t: Json, x: YTrack| indexed_rel(t, x);
    for i in 0..vol.len()
        invariant
            decoded_list(prefix + vol@.take(i as int), ok, rel, out@),
    {
        let t = &vol[i];
        let r = parse_track(t, false, t.get("index").as_u64());
        proof {
            let all = prefix + vol@;
            assert(all.take(prefix.len() + i) == prefix + vol@.take(i as int));
            assert(all.take(prefix.len() + i + 1) == prefix + vol@.take(i + 1));
            assert(all[prefix.len() + i] == vol@[i as int]);
            crate::api::decode::lemma_decoded_push(all, ok, rel, out@, prefix.len() + i, r);
        }
        match r {
            Some(x) => out.push(x),
            None => {},
        }
    }
    assert(vol@.take(vol@.len() as int) == vol@);
}

/// The album endpoint's answer, with the tracks of all its volumes.
#[verifier::loop_isolation(false)]
pub fn album_from(resp: &Json) -> (r: YAlbum)
    ensures
        album_rel_full(*resp, r),
{
    let mut tracks: Vec<YTrack> = Vec::new();
    match resp.get("volumes").as_array() {
        Some(volumes) => {
            for k in 0..volumes.len()
                invariant
                    decoded_list(
                        volume_entries(volumes@.take(k as int)),
                        |t: Json| track_ok(t),
                        |t: Json, x: YTrack| indexed_rel(t, x),
                        tracks@,
                    ),
            {
                assert(volumes@.take(k + 1).drop_last() == volumes@.take(k as int));
                match volumes[k].as_array() {
                    Some(vol) => {
                        push_volume_tracks(&mut tracks, vol, Ghost(volume_entries(volumes@.take(k as int))));
                    },
                    None => {
                        assert(volume_entries(volumes@.take(k as int)) + Seq::<Json>::empty()
                            == volume_entries(volumes@.take(k as int)));
                    },
                }
            }
            assert(volumes@.take(volumes@.len() as int) == volumes@);
        },
        None => {},
    }
    let title = match resp.get("title").as_str() {
        Some(t) => owned(t),
        None => String::new(),
    };
    let id = match parse_id(resp.get("id")) {
        Some(i) => i,
        None => String::new(),
    };
    YAlbum {
        id,
        title,
        artists: parse_artists(resp.get("artists")),
        cover_uri: match jfield(resp, "coverUri", "cover_uri").as_str() {
            Some(c) => Some(owned(c)),
            None => None,
        },
        track_count: match jfield(resp, "trackCount", "track_count").as_u64() {
            Some(c) => c,
            None => 0,
        } as u32,
        year: match resp.get("year").as_u64() {
            Some(y) => Some(y as u32),
            None => None,
        },
        genre: match resp.get("genre").as_str() {
            Some(g) => Some(owned(g)),
            None => None,
        },
        liked: match resp.get("liked").as_bool() {
            Some(b) => b,
            None => false,
        },
        tracks,
    }
}

/// The tracks of an artist's first page.
pub fn artist_tracks(resp: &Json) -> (r: Vec<YTrack>)
    ensures
        decoded_list(
            jarray_or_empty(jget(*resp, "tracks"@)),
            |x: Json| track_ok(x),
            |x: Json, y: YTrack| track_rel(x, false, None, y),
            r@,
        ),
{
    match resp.get("tracks").as_array() {
        Some(a) => parse_tracks(a.as_slice(), false),
        None => Vec::new(),
    }
}

/// The lyrics text of a lyrics answer.
pub fn lyrics_of(resp: &Json) -> (r: Option<String>)
    ensures
        opt_view(r) == jstr(jget(*resp, "lyrics"@)),
{
    match resp.get("lyrics").as_str() {
        Some(l) => Some(owned(l)),
        None => None,
    }
}

/// The track id of a history item: `data.itemId.trackId`.
pub open spec fn history_item_id(item: Json) -> Option<Seq<char>> {
    id_of(
        jfield_of(
            jfield_of(jget(item, "data"@), "itemId"@, "item_id"@),
            "trackId"@,
            "track_id"@,
        ),
    )
}

/// Adds an id unless it is already there or `lim` ids are collected.
pub open spec fn collect_id(acc: Seq<Seq<char>>, id: Option<Seq<char>>, lim: nat) -> Seq<Seq<char>> {
    match id {
        Some(x) => if !acc.contains(x) && acc.len() < lim {
            acc.push(x)
        } else {
            acc
        },
        None => acc,
    }
}

pub open spec fn collect_items(acc: Seq<Seq<char>>, items: Seq<Json>, lim: nat) -> Seq<Seq<char>>
    decreases items.len(),
{
    if items.len() == 0 {
        acc
    } else {
        collect_id(collect_items(acc, items.drop_last(), lim), history_item_id(items.last()), lim)
    }
}

pub open spec fn collect_groups(acc: Seq<Seq<char>>, groups: Seq<Json>, lim: nat) -> Seq<Seq<char>>
    decreases groups.len(),
{
    if groups.len() == 0 {
        acc
    } else {
        collect_items(
            collect_groups(acc, groups.drop_last(), lim),
            jarray_or_empty(jget(groups.last(), "tracks"@)),
            lim,
        )
    }
}

pub open spec fn collect_tabs(acc: Seq<Seq<char>>, tabs: Seq<Json>, lim: nat) -> Seq<Seq<char>>
    decreases tabs.len(),
{
    if tabs.len() == 0 {
        acc
    } else {
        collect_groups(
            collect_tabs(acc, tabs.drop_last(), lim),
            jarray_or_empty(jget(tabs.last(), "items"@)),
            lim,
        )
    }
}

/// The ids of the recently played tracks, newest first, each once: days
/// (`historyTabs`) of play groups (`items`) of plays (`tracks`). Reading
/// stops once `limit` ids are collected, so there are none when the limit
/// is zero.
pub open spec fn history_ids(resp: Json, limit: nat) -> Seq<Seq<char>> {
    collect_tabs(
        Seq::empty(),
        jarray_or_empty(jfield_of(resp, "historyTabs"@, "history_tabs"@)),
        limit,
    )
}

pub open spec fn views_of(v: Seq<String>) -> Seq<Seq<char>> {
    v.map_values(|s: String| s@)
}

fn contains_id(ids: &Vec<String>, id: &str) -> (r: bool)
    ensures
        r == views_of(ids@).contains(id@),
{
    for i in 0..ids.len()
        invariant
            forall|k: int| 0 <= k < i ==> ids@[k]@ != id@,
    {
        if str_equal(ids[i].as_str(), id) {
            assert(views_of(ids@)[i as int] == id@);
            return true;
        }
    }
    assert forall|k: int| 0 <= k < views_of(ids@).len() implies views_of(ids@)[k] != id@ by {
        assert(views_of(ids@)[k] == ids@[k]@);
    }
    false
}

fn collect_items_exec(ids: &mut Vec<String>, items: &Vec<Json>, lim: usize)
    ensures
        views_of(final(ids)@) == collect_items(views_of(old(ids)@), items@, lim as nat),
{
    let ghost start = views_of(ids@);
    for i in 0..items.len()
        invariant
            views_of(ids@) == collect_items(start, items@.take(i as int), lim as nat),
    {
        assert(items@.take(i + 1).drop_last() == items@.take(i as int));
        let item = &items[i];
        let item_id = jfield(item.get("data"), "itemId", "item_id");
        match parse_id(jfield(item_id, "trackId", "track_id")) {
            Some(id) => {
                if !contains_id(ids, id.as_str()) && ids.len() < lim {
                    let ghost before = ids@;
                    let ghost idv = id@;
                    ids.push(id);
                    assert(views_of(ids@) =~= views_of(before).push(idv));
                }
            },
            None => {},
        }
    }
    assert(items@.take(items@.len() as int) == items@);
}

fn collect_groups_exec(ids: &mut Vec<String>, groups: &Vec<Json>, lim: usize)
    ensures
        views_of(final(ids)@) == collect_groups(views_of(old(ids)@), groups@, lim as nat),
{
    let ghost start = views_of(ids@);
    for i in 0..groups.len()
        invariant
            views_of(ids@) == collect_groups(start, groups@.take(i as int), lim as nat),
    {
        assert(groups@.take(i + 1).drop_last() == groups@.take(i as int));
        match groups[i].get("tracks").as_array() {
            Some(items) => collect_items_exec(ids, items, lim),
            None => {},
        }
    }
    assert(groups@.take(groups@.len() as int) == groups@);
}

/// The ids of the recently played tracks, newest first, each once, at
/// most `limit` of them.
pub fn history_track_ids(resp: &Json, limit: usize) -> (r: Vec<String>)
    ensures
        views_of(r@) == history_ids(*resp, limit as nat),
{
    let lim: usize = limit;
    let mut ids: Vec<String> = Vec::new();
    assert(views_of(ids@) == Seq::<Seq<char>>::empty());
    match jfield(resp, "historyTabs", "history_tabs").as_array() {
        Some(tabs) => {
            let ghost start = views_of(ids@);
            for i in 0..tabs.len()
                invariant
                    start == Seq::<Seq<char>>::empty(),
                    views_of(ids@) == collect_tabs(start, tabs@.take(i as int), lim as nat),
            {
                assert(tabs@.take(i + 1).drop_last() == tabs@.take(i as int));
                match tabs[i].get("items").as_array() {
                    Some(groups) => collect_groups_exec(&mut ids, groups, lim),
                    None => {},
                }
            }
            assert(tabs@.take(tabs@.len() as int) == tabs@);
        },
        None => {},
    }
    ids
}

/// At most `limit` ids come out (none when the limit is zero), and no id twice.
pub proof fn law_history_ids_bounded(resp: Json, limit: nat)
    ensures
        history_ids(resp, limit).len() <= limit,
        history_ids(resp, limit).no_duplicates(),
{
    lemma_collect_tabs(Seq::empty(), jarray_or_empty(jfield_of(resp, "historyTabs"@, "history_tabs"@)), limit);
}

pub open spec fn id_list_ok(acc: Seq<Seq<char>>, lim: nat) -> bool {
    acc.len() <= lim && acc.no_duplicates()
}

proof fn lemma_collect_items(acc: Seq<Seq<char>>, items: Seq<Json>, lim: nat)
    requires
        id_list_ok(acc, lim),
    ensures
        id_list_ok(collect_items(acc, items, lim), lim),
    decreases items.len(),
{
    if items.len() > 0 {
        lemma_collect_items(acc, items.drop_last(), lim);
    }
}

proof fn lemma_collect_groups(acc: Seq<Seq<char>>, groups: Seq<Json>, lim: nat)
    requires
        id_list_ok(acc, lim),
    ensures
        id_list_ok(collect_groups(acc, groups, lim), lim),
    decreases groups.len(),
{
    if groups.len() > 0 {
        lemma_collect_groups(acc, groups.drop_last(), lim);
        lemma_collect_items(
            collect_groups(acc, groups.drop_last(), lim),
            jarray_or_empty(jget(groups.last(), "tracks"@)),
            lim,
        );
    }
}

proof fn lemma_collect_tabs(acc: Seq<Seq<char>>, tabs: Seq<Json>, lim: nat)
    requires
        id_list_ok(acc, lim),
    ensures
        id_list_ok(collect_tabs(acc, tabs, lim), lim),
    decreases tabs.len(),
{
    if tabs.len() > 0 {
        lemma_collect_tabs(acc, tabs.drop_last(), lim);
        lemma_collect_groups(
            collect_tabs(acc, tabs.drop_last(), lim),
            jarray_or_empty(jget(tabs.last(), "items"@)),
            lim,
        );
    }
}

/// `r` starts with `acc`.
pub open spec fn extends_ids(r: Seq<Seq<char>>, acc: Seq<Seq<char>>) -> bool {
    acc.len() <= r.len() && r.take(acc.len() as int) == acc
}

proof fn lemma_extends_contains(r: Seq<Seq<char>>, acc: Seq<Seq<char>>, x: Seq<char>)
    requires
        extends_ids(r, acc),
        acc.contains(x),
    ensures
        r.contains(x),
{
    let k = choose|k: int| 0 <= k < acc.len() && acc[k] == x;
    assert(r.take(acc.len() as int)[k] == r[k]);
}

/// The plays of a group.
pub open spec fn group_plays(group: Json) -> Seq<Json> {
    jarray_or_empty(jget(group, "tracks"@))
}

/// The play groups of a day.
pub open spec fn tab_groups(tab: Json) -> Seq<Json> {
    jarray_or_empty(jget(tab, "items"@))
}

proof fn lemma_items_read_all(acc: Seq<Seq<char>>, items: Seq<Json>, lim: nat)
    ensures
        extends_ids(collect_items(acc, items, lim), acc),
        collect_items(acc, items, lim).len() < lim ==> forall|i: int|
            0 <= i < items.len() && (#[trigger] history_item_id(items[i])) is Some ==> collect_items(
                acc,
                items,
                lim,
            ).contains(history_item_id(items[i])->0),
    decreases items.len(),
{
    if items.len() > 0 {
        let rest = items.drop_last();
        let prev = collect_items(acc, rest, lim);
        let r = collect_items(acc, items, lim);
        lemma_items_read_all(acc, rest, lim);
        assert(r == collect_id(prev, history_item_id(items.last()), lim));
        assert(extends_ids(r, prev)) by {
            assert(r.take(prev.len() as int) =~= prev);
        }
        assert(extends_ids(r, acc)) by {
            assert(r.take(acc.len() as int) =~= prev.take(acc.len() as int));
        }
        if r.len() < lim {
            assert forall|i: int|
                0 <= i < items.len() && (#[trigger] history_item_id(items[i])) is Some implies r.contains(
                history_item_id(items[i])->0) by {
                if i < rest.len() {
                    assert(rest[i] == items[i]);
                    assert(history_item_id(rest[i]) is Some);
                    lemma_extends_contains(r, prev, history_item_id(items[i])->0);
                } else {
                    let x = history_item_id(items[i])->0;
                    if prev.contains(x) {
                        lemma_extends_contains(r, prev, x);
                    } else {
                        assert(r == prev.push(x));
                        assert(r[prev.len() as int] == x);
                    }
                }
            }
        }
    } else {
        assert(acc.take(acc.len() as int) =~= acc);
    }
}

proof fn lemma_groups_read_all(acc: Seq<Seq<char>>, groups: Seq<Json>, lim: nat)
    ensures
        extends_ids(collect_groups(acc, groups, lim), acc),
        collect_groups(acc, groups, lim).len() < lim ==> forall|g: int, i: int|
            0 <= g < groups.len() && 0 <= i < group_plays(groups[g]).len() && (#[trigger] history_item_id(
                group_plays(groups[g])[i],
            )) is Some ==> collect_groups(acc, groups, lim).contains(
                history_item_id(group_plays(groups[g])[i])->0,
            ),
    decreases groups.len(),
{
    if groups.len() > 0 {
        let rest = groups.drop_last();
        let prev = collect_groups(acc, rest, lim);
        let items = group_plays(groups.last());
        let r = collect_groups(acc, groups, lim);
        lemma_groups_read_all(acc, rest, lim);
        lemma_items_read_all(prev, items, lim);
        assert(r == collect_items(prev, items, lim));
        assert(extends_ids(r, acc)) by {
            assert(r.take(acc.len() as int) =~= prev.take(acc.len() as int));
        }
        if r.len() < lim {
            assert forall|g: int, i: int|
                0 <= g < groups.len() && 0 <= i < group_plays(groups[g]).len() && (#[trigger] history_item_id(
                    group_plays(groups[g])[i],
                )) is Some implies r.contains(history_item_id(group_plays(groups[g])[i])->0) by {
                if g < rest.len() {
                    assert(rest[g] == groups[g]);
                    assert(history_item_id(group_plays(rest[g])[i]) is Some);
                    lemma_extends_contains(r, prev, history_item_id(group_plays(groups[g])[i])->0);
                } else {
                    assert(groups[g] == groups.last());
                    assert(history_item_id(items[i]) is Some);
                }
            }
        }
    } else {
        assert(acc.take(acc.len() as int) =~= acc);
    }
}

proof fn lemma_tabs_read_all(acc: Seq<Seq<char>>, tabs: Seq<Json>, lim: nat)
    ensures
        extends_ids(collect_tabs(acc, tabs, lim), acc),
        collect_tabs(acc, tabs, lim).len() < lim ==> forall|t: int, g: int, i: int|
            0 <= t < tabs.len() && 0 <= g < tab_groups(tabs[t]).len() && 0 <= i < group_plays(
                tab_groups(tabs[t])[g],
            ).len() && (#[trigger] history_item_id(group_plays(tab_groups(tabs[t])[g])[i])) is Some
                ==> collect_tabs(acc, tabs, lim).contains(
                history_item_id(group_plays(tab_groups(tabs[t])[g])[i])->0,
            ),
    decreases tabs.len(),
{
    if tabs.len() > 0 {
        let rest = tabs.drop_last();
        let prev = collect_tabs(acc, rest, lim);
        let groups = tab_groups(tabs.last());
        let r = collect_tabs(acc, tabs, lim);
        lemma_tabs_read_all(acc, rest, lim);
        lemma_groups_read_all(prev, groups, lim);
        assert(r == collect_groups(prev, groups, lim));
        assert(extends_ids(r, acc)) by {
            assert(r.take(acc.len() as int) =~= prev.take(acc.len() as int));
        }
        if r.len() < lim {
            assert forall|t: int, g: int, i: int|
                0 <= t < tabs.len() && 0 <= g < tab_groups(tabs[t]).len() && 0 <= i < group_plays(
                    tab_groups(tabs[t])[g],
                ).len() && (#[trigger] history_item_id(group_plays(tab_groups(tabs[t])[g])[i])) is Some
                    implies r.contains(history_item_id(group_plays(tab_groups(tabs[t])[g])[i])->0) by {
                if t < rest.len() {
                    assert(rest[t] == tabs[t]);
                    assert(history_item_id(group_plays(tab_groups(rest[t])[g])[i]) is Some);
                    lemma_extends_contains(r, prev, history_item_id(group_plays(tab_groups(tabs[t])[g])[i])->0);
                } else {
                    assert(tabs[t] == tabs.last());
                    assert(history_item_id(group_plays(groups[g])[i]) is Some);
                }
            }
        }
    } else {
        assert(acc.take(acc.len() as int) =~= acc);
    }
}

/// Every play of every group of every day is read: while fewer than
/// `limit` ids were collected, each track id that occurs in any play group
/// of any history tab is among them.
pub proof fn law_history_reads_every_play(resp: Json, limit: nat, t: int, g: int, i: int)
    requires
        history_ids(resp, limit).len() < limit,
        0 <= t < jarray_or_empty(jfield_of(resp, "historyTabs"@, "history_tabs"@)).len(),
        0 <= g < tab_groups(jarray_or_empty(jfield_of(resp, "historyTabs"@, "history_tabs"@))[t]).len(),
        0 <= i < group_plays(
            tab_groups(jarray_or_empty(jfield_of(resp, "historyTabs"@, "history_tabs"@))[t])[g],
        ).len(),
        history_item_id(
            group_plays(
                tab_groups(jarray_or_empty(jfield_of(resp, "historyTabs"@, "history_tabs"@))[t])[g],
            )[i],
        ) is Some,
    ensures
        history_ids(resp, limit).contains(
            history_item_id(
                group_plays(
                    tab_groups(jarray_or_empty(jfield_of(resp, "historyTabs"@, "history_tabs"@))[t])[g],
                )[i],
            )->0,
        ),
{
    let tabs = jarray_or_empty(jfield_of(resp, "historyTabs"@, "history_tabs"@));
    lemma_tabs_read_all(Seq::empty(), tabs, limit);
    assert(history_item_id(group_plays(tab_groups(tabs[t])[g])[i]) is Some);
}

/// A search answer: tracks, artists, albums and playlists that decode.
pub fn search_result(resp: &Json) -> (r: YSearchResult)
    ensures
        decoded_list(
            jarray_or_empty(jget(jget(*resp, "tracks"@), "results"@)),
            |x: Json| track_ok(x),
            |x: Json, y: YTrack| track_rel(x, false, None, y),
            r.tracks@,
        ),
        decoded_list(
            jarray_or_empty(jget(jget(*resp, "artists"@), "results"@)),
            |x: Json| artist_ok(x),
            |x: Json, y: YArtist| artist_rel(x, y),
            r.artists@,
        ),
        decoded_list(
            jarray_or_empty(jget(jget(*resp, "albums"@), "results"@)),
            |x: Json| album_ok(x),
            |x: Json, y: YAlbum| album_rel(x, y),
            r.albums@,
        ),
        decoded_list(
            jarray_or_empty(jget(jget(*resp, "playlists"@), "results"@)),
            |x: Json| playlist_ok(x),
            |x: Json, y: YPlaylist| playlist_rel(x, y),
            r.playlists@,
        ),
{
    let tracks = match resp.get("tracks").get("results").as_array() {
        Some(a) => parse_tracks(a.as_slice(), false),
        None => Vec::new(),
    };
    let playlists = match resp.get("playlists").get("results").as_array() {
        Some(a) => crate::api::decode::parse_playlists(a.as_slice()),
        None => Vec::new(),
    };
    YSearchResult {
        tracks,
        artists: parse_artists(resp.get("artists").get("results")),
        albums: parse_albums(resp.get("albums").get("results")),
        playlists,
    }
}

/// One download option, from an entry of the download-info answer.
pub open spec fn download_info_rel(j: Json, r: YTrackDownloadInfo) -> bool {
    &&& r.url@ == or_empty(jstr(jget(j, "downloadInfoUrl"@)))
    &&& r.codec@ == or_empty(jstr(jget(j, "codec"@)))
    &&& r.bitrate == or_zero(ju64(jget(j, "bitrateInKbps"@))) as u32
    &&& r.gain == is_true(jbool(jget(j, "gain"@)))
}

pub fn download_infos(arr: &[Json]) -> (r: Vec<YTrackDownloadInfo>)
    ensures
        r@.len() == arr@.len(),
        forall|i: int| 0 <= i < arr@.len() ==> download_info_rel(arr@[i], #[trigger] r@[i]),
{
    let mut out: Vec<YTrackDownloadInfo> = Vec::new();
    for i in 0..arr.len()
        invariant
            out@.len() == i,
            forall|k: int| 0 <= k < i ==> download_info_rel(arr@[k], #[trigger] out@[k]),
    {
        let j = &arr[i];
        let url = match j.get("downloadInfoUrl").as_str() {
            Some(s) => owned(s),
            None => String::new(),
        };
        let codec = match j.get("codec").as_str() {
            Some(s) => owned(s),
            None => String::new(),
        };
        let bitrate = match j.get("bitrateInKbps").as_u64() {
            Some(b) => b,
            None => 0,
        } as u32;
        let gain = match j.get("gain").as_bool() {
            Some(g) => g,
            None => false,
        };
        out.push(YTrackDownloadInfo { url, codec, bitrate, gain });
    }
    out
}

/// The quality a codec name stands for.
pub open spec fn codec_quality(codec: Seq<char>) -> Quality {
    if codec == "flac"@ {
        Quality::Flac
    } else if codec == "mp3"@ {
        Quality::Mp3_320
    } else if codec == "aac"@ {
        Quality::Aac
    } else {
        Quality::Any
    }
}

/// The download option is not better than the wanted quality.
pub open spec fn within_quality(info: YTrackDownloadInfo, target: u8) -> bool {
    priority_of(codec_quality(info.codec@)) <= target
}

/// `i` is the option that `max_by_key` on the bitrate picks among those
/// that satisfy `p`: the highest bitrate, the last one on a tie.
pub open spec fn last_max(infos: Seq<YTrackDownloadInfo>, p: spec_fn(YTrackDownloadInfo) -> bool, i: int) -> bool {
    &&& 0 <= i < infos.len()
    &&& p(infos[i])
    &&& forall|j: int| 0 <= j < infos.len() && p(#[trigger] infos[j]) ==> infos[j].bitrate <= infos[i].bitrate
    &&& forall|j: int| i < j < infos.len() && p(#[trigger] infos[j]) ==> infos[j].bitrate < infos[i].bitrate
}

/// A codec name ranks as the quality of the same name, as a quality
/// setting is read: "flac" is FLAC (3), "mp3" is MP3 320 (2), "aac" is AAC
/// (1), and any other codec ranks lowest (0). So with the AAC setting an
/// mp3 or flac option is never within the wanted quality, and with the MP3
/// setting a flac option is not.
pub proof fn law_codec_ranks_as_its_quality(info: YTrackDownloadInfo)
    ensures
        info.codec@ == "flac"@ || info.codec@ == "mp3"@ || info.codec@ == "aac"@ ==> codec_quality(
            info.codec@,
        ) == quality_named(info.codec@),
        info.codec@ == "flac"@ ==> priority_of(codec_quality(info.codec@)) == 3,
        info.codec@ == "mp3"@ ==> priority_of(codec_quality(info.codec@)) == 2,
        info.codec@ == "aac"@ ==> priority_of(codec_quality(info.codec@)) == 1,
        info.codec@ == "mp3"@ || info.codec@ == "flac"@ ==> !within_quality(
            info,
            priority_of(Quality::Aac),
        ),
        info.codec@ == "flac"@ ==> !within_quality(info, priority_of(Quality::Mp3_320)),
        info.codec@ == "aac"@ ==> within_quality(info, priority_of(Quality::Aac)),
{
    reveal_strlit("flac");
    reveal_strlit("mp3");
    reveal_strlit("aac");
    reveal_strlit("mp3_320");
    assert("mp3"@ != "flac"@) by {
        assert("mp3"@.len() != "flac"@.len());
    }
    assert("aac"@ != "flac"@) by {
        assert("aac"@.len() != "flac"@.len());
    }
    assert("aac"@ != "mp3"@) by {
        assert("aac"@[0] != "mp3"@[0]);
    }
    assert("aac"@ != "mp3_320"@) by {
        assert("aac"@.len() != "mp3_320"@.len());
    }
}

fn codec_priority(codec: &str) -> (p: u8)
    ensures
        p == priority_of(codec_quality(codec@)),
{
    let q = if str_equal(codec, "flac") {
        Quality::Flac
    } else if str_equal(codec, "mp3") {
        Quality::Mp3_320
    } else if str_equal(codec, "aac") {
        Quality::Aac
    } else {
        Quality::Any
    };
    q.priority()
}

/// The option to download for the wanted quality: the best bitrate among
/// those not above the quality, or the best bitrate overall when none is;
/// `None` when there is no option.
#[verifier::loop_isolation(false)]
pub fn choose_download(infos: &[YTrackDownloadInfo], quality: Quality) -> (r: Option<usize>)
    ensures
        r is None <==> infos@.len() == 0,
        r matches Some(i) ==> if exists|j: int|
            0 <= j < infos@.len() && within_quality(#[trigger] infos@[j], priority_of(quality)) {
            last_max(infos@, |x: YTrackDownloadInfo| within_quality(x, priority_of(quality)), i as int)
        } else {
            last_max(infos@, |x: YTrackDownloadInfo| true, i as int)
        },
{
    let target = quality.priority();
    let ghost p = |x: YTrackDownloadInfo| within_quality(x, target);
    let ghost all = |x: YTrackDownloadInfo| true;
    let mut best: Option<usize> = None;
    let mut any: Option<usize> = None;
    for i in 0..infos.len()
        invariant
            target == priority_of(quality),
            best is None ==> forall|j: int| 0 <= j < i ==> !p(#[trigger] infos@[j]),
            best matches Some(b) ==> b < i && last_max(infos@.take(i as int), p, b as int),
            any is None ==> i == 0,
            any matches Some(b) ==> b < i && last_max(infos@.take(i as int), all, b as int),
    {
        let bitrate = infos[i].bitrate;
        let eligible = codec_priority(infos[i].codec.as_str()) <= target;
        let ghost t0 = infos@.take(i as int);
        let ghost t1 = infos@.take(i + 1);
        assert(forall|j: int| 0 <= j < i ==> t1[j] == t0[j]);
        if eligible {
            match best {
                Some(b) => {
                    if bitrate >= infos[b].bitrate {
                        best = Some(i);
                    }
                },
                None => best = Some(i),
            }
        }
        match any {
            Some(b) => {
                if bitrate >= infos[b].bitrate {
                    any = Some(i);
                }
            },
            None => any = Some(i),
        }
    }
    assert(infos@.take(infos@.len() as int) == infos@);
    match best {
        Some(b) => Some(b),
        None => any,
    }
}

} // verus!
