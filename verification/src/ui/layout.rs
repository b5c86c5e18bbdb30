//! Text and geometry of list rows and the player bar, without the drawing.
use vstd::prelude::*;
use crate::api::models::{YTrack, YPlaylist, artist_names_of, mm_ss};
use crate::player::queue::RepeatMode;
use crate::utils::helpers::{push_repeated, repeated};
use crate::utils::text::{
    decimal, decimal2, decimal_right2, decimal_right3, push_decimal, push_decimal2, push_decimal_right2,
    push_decimal_right3, push_str,
};

verus! {

/// The marker in front of a list row.
pub fn row_prefix(selected: bool) -> (r: &'static str)
    ensures
        r@ == if selected { "▸ "@ } else { "  "@ },
{
    if selected { "▸ " } else { "  " }
}

pub open spec fn sat_sub(a: int, b: int) -> int {
    if a > b { a - b } else { 0 }
}

pub open spec fn min_int(a: int, b: int) -> int {
    if a < b { a } else { b }
}

/// The rows shown of a list of `len` rows in `visible` lines, keeping the
/// selected row roughly centred.
pub open spec fn window(len: int, selected: int, visible: int) -> (int, int) {
    let v = if visible < 1 { 1 } else { visible };
    let start = min_int(sat_sub(selected, v / 2), sat_sub(len, v));
    (start, min_int(start + v, len))
}

/// Window [start, end) over `len` rows, `visible` rows tall, that keeps
/// `selected` roughly centered so the cursor never leaves the screen.
pub fn visible_window(len: usize, selected: usize, visible: usize) -> (r: (usize, usize))
    ensures
        (r.0 as int, r.1 as int) == window(len as int, selected as int, visible as int),
{
    let visible = if visible < 1 { 1 } else { visible };
    let a = if selected > visible / 2 { selected - visible / 2 } else { 0 };
    let b = if len > visible { len - visible } else { 0 };
    let start = if a < b { a } else { b };
    let end = if start + visible < len { start + visible } else { len };
    (start, end)
}

/// The window holds at most `visible` rows (at least one), lies inside the
/// list, and shows the selected row whenever it is in the list.
pub proof fn law_window_shows_selection(len: int, selected: int, visible: int)
    requires
        0 <= len,
        0 <= selected,
    ensures
        0 <= window(len, selected, visible).0 <= window(len, selected, visible).1 <= len,
        window(len, selected, visible).1 - window(len, selected, visible).0 <= if visible < 1 {
            1
        } else {
            visible
        },
        selected < len ==> window(len, selected, visible).0 <= selected < window(
            len,
            selected,
            visible,
        ).1,
{
}

/// "▸ " or "  ", the row number right-aligned in two columns, and ". ":
/// the selected first row starts "▸  1. ".
pub open spec fn row_number(i: nat, selected: bool) -> Seq<char> {
    (if selected { "▸ "@ } else { "  "@ }) + decimal_right2(i + 1) + ". "@
}

/// The numbered start of row `i`.
pub fn row_number_text(i: usize, selected: bool) -> (r: String)
    requires
        i < usize::MAX,
    ensures
        r@ == row_number(i as nat, selected),
{
    let mut out = String::new();
    push_str(&mut out, row_prefix(selected));
    push_decimal_right2(&mut out, (i + 1) as u64);
    push_str(&mut out, ". ");
    out
}

/// "Artists — Title [mm:ss]", the body of a track row.
pub fn track_row_text(t: &YTrack) -> (r: String)
    ensures
        r@ == artist_names_of(t.artists@) + " — "@ + t.title@ + " ["@ + mm_ss(t.duration_ms as nat)
            + "]"@,
{
    let mut out = t.artists_str();
    push_str(&mut out, " — ");
    push_str(&mut out, t.title.as_str());
    push_str(&mut out, " [");
    let d = t.duration_str();
    push_str(&mut out, d.as_str());
    push_str(&mut out, "]");
    out
}

/// A playlist row: number, title and track count.
pub fn playlist_row_text(i: usize, pl: &YPlaylist, selected: bool) -> (r: String)
    requires
        i < usize::MAX,
    ensures
        r@ == row_number(i as nat, selected) + pl.title@ + " — "@ + decimal(pl.track_count as nat)
            + " тр."@,
{
    let mut out = row_number_text(i, selected);
    push_str(&mut out, pl.title.as_str());
    push_str(&mut out, " — ");
    push_decimal(&mut out, pl.track_count as u64);
    push_str(&mut out, " тр.");
    out
}

/// `mm:ss` of a whole number of seconds.
pub open spec fn clock(secs: nat) -> Seq<char> {
    decimal2(secs / 60) + ":"@ + decimal2(secs % 60)
}

pub fn clock_text(secs: u32) -> (r: String)
    ensures
        r@ == clock(secs as nat),
{
    let mut out = String::new();
    push_decimal2(&mut out, (secs / 60) as u64);
    push_str(&mut out, ":");
    push_decimal2(&mut out, (secs % 60) as u64);
    out
}

/// "position / duration" as two clocks.
pub fn clock_pair_text(pos: u32, dur: u32) -> (r: String)
    ensures
        r@ == clock(pos as nat) + " / "@ + clock(dur as nat),
{
    let mut out = clock_text(pos);
    push_str(&mut out, " / ");
    let d = clock_text(dur);
    push_str(&mut out, d.as_str());
    out
}

/// A ten-cell volume bar of the now-playing screen.
pub fn vol_bar(vol: u8) -> (r: String)
    requires
        vol < 110,
    ensures
        r@ == repeated('█', (vol / 10) as nat) + repeated('░', (10 - vol / 10) as nat),
{
    let filled = vol / 10;
    let empty = 10 - filled;
    let mut out = String::new();
    push_repeated(&mut out, '█', filled as usize);
    push_repeated(&mut out, '░', empty as usize);
    out
}

/// The volume line of the player bar: the percentage and a twenty-cell bar.
pub open spec fn volume_line(vol: nat) -> Seq<char> {
    let filled = if vol / 5 < 20 { vol / 5 } else { 20 };
    " Vol: "@ + decimal_right3(vol) + "% ["@ + repeated('█', filled) + repeated(
        '░',
        (20 - filled) as nat,
    ) + "] "@
}

pub fn volume_line_text(vol: u8) -> (r: String)
    ensures
        r@ == volume_line(vol as nat),
{
    let filled = if vol / 5 < 20 { vol / 5 } else { 20 };
    let mut out = String::new();
    push_str(&mut out, " Vol: ");
    push_decimal_right3(&mut out, vol as u64);
    push_str(&mut out, "% [");
    push_repeated(&mut out, '█', filled as usize);
    push_repeated(&mut out, '░', (20 - filled) as usize);
    push_str(&mut out, "] ");
    out
}

/// The help overlay's box on a screen at (`x`, `y`) of `width` by
/// `height`: at most 62 by 16 cells, two cells smaller than the screen, at
/// least one cell, centred.
pub open spec fn help_box(x: int, y: int, width: int, height: int) -> (int, int, int, int) {
    let w = if min_int(62, sat_sub(width, 2)) < 1 { 1 } else { min_int(62, sat_sub(width, 2)) };
    let h = if min_int(16, sat_sub(height, 2)) < 1 { 1 } else { min_int(16, sat_sub(height, 2)) };
    (x + sat_sub(width, w) / 2, y + sat_sub(height, h) / 2, w, h)
}

pub fn help_area(x: u16, y: u16, width: u16, height: u16) -> (r: (u16, u16, u16, u16))
    requires
        x + width / 2 <= u16::MAX,
        y + height / 2 <= u16::MAX,
    ensures
        (r.0 as int, r.1 as int, r.2 as int, r.3 as int) == help_box(
            x as int,
            y as int,
            width as int,
            height as int,
        ),
{
    let wa: u16 = if width > 2 { width - 2 } else { 0 };
    let wb: u16 = if wa < 62 { wa } else { 62 };
    let w: u16 = if wb < 1 { 1 } else { wb };
    let ha: u16 = if height > 2 { height - 2 } else { 0 };
    let hb: u16 = if ha < 16 { ha } else { 16 };
    let h: u16 = if hb < 1 { 1 } else { hb };
    let dx: u16 = if width > w { (width - w) / 2 } else { 0 };
    let dy: u16 = if height > h { (height - h) / 2 } else { 0 };
    (x + dx, y + dy, w, h)
}

/// The first line of the player bar: state, track, shuffle and repeat.
pub open spec fn status_line(
    track: Option<YTrack>,
    playing: bool,
    shuffle: bool,
    repeat: RepeatMode,
) -> Seq<char> {
    " "@ + (if playing { "▶"@ } else { "⏸"@ }) + " "@ + match track {
        Some(t) => " "@ + artist_names_of(t.artists@) + " — "@ + t.title@ + " "@,
        None => " — нет трека — "@,
    } + (if shuffle { " 🔀"@ } else { ""@ }) + match repeat {
        RepeatMode::One => " 🔂"@,
        RepeatMode::All => " 🔁"@,
        RepeatMode::Off => ""@,
    } + " "@
}

pub fn status_line_text(track: Option<&YTrack>, playing: bool, shuffle: bool, repeat: RepeatMode) -> (r: String)
    ensures
        r@ == status_line(
            match track {
                Some(t) => Some(*t),
                None => None,
            },
            playing,
            shuffle,
            repeat,
        ),
{
    let mut out = String::new();
    push_str(&mut out, " ");
    push_str(&mut out, if playing { "▶" } else { "⏸" });
    push_str(&mut out, " ");
    match track {
        Some(t) => {
            push_str(&mut out, " ");
            let a = t.artists_str();
            push_str(&mut out, a.as_str());
            push_str(&mut out, " — ");
            push_str(&mut out, t.title.as_str());
            push_str(&mut out, " ");
        },
        None => push_str(&mut out, " — нет трека — "),
    }
    push_str(&mut out, if shuffle { " 🔀" } else { "" });
    push_str(
        &mut out,
        match repeat {
            RepeatMode::One => " 🔂",
            RepeatMode::All => " 🔁",
            RepeatMode::Off => "",
        },
    );
    push_str(&mut out, " ");
    out
}

} // verus!
