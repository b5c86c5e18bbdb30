//! Formatting helpers shown by the interface, and the audio quality setting.
use vstd::prelude::*;
use vstd::string::{StrSliceExecFns, StringExecFns};
use crate::api::models::{YArtist, artist_names_of, join_artist_names};
use crate::utils::text::{decimal, decimal2, push_char, push_decimal, push_decimal2, push_str, str_equal};

verus! {

/// `mm:ss` of a duration in milliseconds; minutes are not capped at 59.
pub fn format_duration(ms: u32) -> (r: String)
    ensures
        r@ == decimal2((ms / 1000 / 60) as nat) + ":"@ + decimal2((ms / 1000 % 60) as nat),
{
    let total_seconds = ms / 1000;
    let minutes = total_seconds / 60;
    let seconds = total_seconds % 60;
    let mut out = String::new();
    push_decimal2(&mut out, minutes as u64);
    push_str(&mut out, ":");
    push_decimal2(&mut out, seconds as u64);
    out
}

/// `h:mm:ss` when the duration reaches an hour, `mm:ss` below that.
pub open spec fn duration_long(ms: nat) -> Seq<char> {
    let total = ms / 1000;
    let hours = total / 3600;
    let minutes = (total % 3600) / 60;
    let seconds = total % 60;
    if hours > 0 {
        decimal(hours) + ":"@ + decimal2(minutes) + ":"@ + decimal2(seconds)
    } else {
        decimal2(minutes) + ":"@ + decimal2(seconds)
    }
}

pub fn format_duration_long(ms: u32) -> (r: String)
    ensures
        r@ == duration_long(ms as nat),
{
    let total_seconds = ms / 1000;
    let hours = total_seconds / 3600;
    let minutes = (total_seconds % 3600) / 60;
    let seconds = total_seconds % 60;
    let mut out = String::new();
    if hours > 0 {
        push_decimal(&mut out, hours as u64);
        push_str(&mut out, ":");
    }
    push_decimal2(&mut out, minutes as u64);
    push_str(&mut out, ":");
    push_decimal2(&mut out, seconds as u64);
    out
}

/// `n` copies of `c`.
pub open spec fn repeated(c: char, n: nat) -> Seq<char> {
    Seq::new(n, |i: int| c)
}

/// Appends `n` copies of `c`.
pub fn push_repeated(s: &mut String, c: char, n: usize)
    ensures
        final(s)@ == old(s)@ + repeated(c, n as nat),
{
    let ghost start = s@;
    for i in 0..n
        invariant
            s@ == start + repeated(c, i as nat),
    {
        push_char(s, c);
        assert(start + repeated(c, (i + 1) as nat) == (start + repeated(c, i as nat)).push(c));
    }
}

/// A progress bar: `filled` full blocks, then `empty` thin lines.
pub fn progress_bar(filled: usize, empty: usize) -> (r: String)
    ensures
        r@ == repeated('█', filled as nat) + repeated('─', empty as nat),
{
    let mut out = String::new();
    push_repeated(&mut out, '█', filled);
    push_repeated(&mut out, '─', empty);
    out
}

/// The first `max_len - 1` characters and an ellipsis when `s` is longer than
/// `max_len` characters; `s` itself otherwise.
pub open spec fn truncated(s: Seq<char>, max_len: nat) -> Seq<char> {
    if s.len() <= max_len {
        s
    } else {
        s.take(if max_len > 0 { max_len - 1 } else { 0 }).push('…')
    }
}

pub fn truncate_string(s: &str, max_len: usize) -> (r: String)
    ensures
        r@ == truncated(s@, max_len as nat),
{
    let count = s.unicode_len();
    if count <= max_len {
        String::from_str(s)
    } else {
        let keep = if max_len > 0 { max_len - 1 } else { 0 };
        let mut out = String::from_str(s.substring_char(0, keep));
        push_char(&mut out, '…');
        out
    }
}

/// The names of the artists joined with ", ".
pub fn artist_names(artists: &[YArtist]) -> (r: String)
    ensures
        r@ == artist_names_of(artists@),
{
    join_artist_names(artists)
}

/// How long ago something happened, from the elapsed seconds: a phrase up
/// to a week, `None` beyond that (the caller shows the date instead).
pub open spec fn relative_time(diff_secs: int) -> Option<Seq<char>> {
    if diff_secs < 60 {
        Some("только что"@)
    } else if diff_secs < 3600 {
        Some(decimal((diff_secs / 60) as nat) + " мин. назад"@)
    } else if diff_secs < 86400 {
        Some(decimal((diff_secs / 3600) as nat) + " ч. назад"@)
    } else if diff_secs < 604800 {
        Some(decimal((diff_secs / 86400) as nat) + " дн. назад"@)
    } else {
        None
    }
}

pub fn format_relative_time(diff_secs: i64) -> (r: Option<String>)
    ensures
        match r {
            Some(t) => relative_time(diff_secs as int) == Some(t@),
            None => relative_time(diff_secs as int) is None,
        },
{
    if diff_secs < 60 {
        Some(String::from_str("только что"))
    } else if diff_secs < 3600 {
        let mut out = String::new();
        push_decimal(&mut out, (diff_secs / 60) as u64);
        push_str(&mut out, " мин. назад");
        Some(out)
    } else if diff_secs < 86400 {
        let mut out = String::new();
        push_decimal(&mut out, (diff_secs / 3600) as u64);
        push_str(&mut out, " ч. назад");
        Some(out)
    } else if diff_secs < 604800 {
        let mut out = String::new();
        push_decimal(&mut out, (diff_secs / 86400) as u64);
        push_str(&mut out, " дн. назад");
        Some(out)
    } else {
        None
    }
}

/// Preferred audio quality.
#[derive(Debug, Clone, Copy, PartialEq, Eq, Structural)]
pub enum Quality {
    Flac,
    Mp3_320,
    Aac,
    Any,
}

/// The Unicode lower-case mapping of a string. Its tables take pages to
/// state, so the result is only named.
pub uninterp spec fn lowercase(s: Seq<char>) -> Seq<char>;

/// `str::to_lowercase` from std: the result is `lowercase` of the input.
#[verifier::external_body]
fn to_lowercase(s: &str) -> (r: String)
    ensures
        r@ == lowercase(s@),
{
    s.to_lowercase()
}

/// The quality that a lower-case setting names; anything else means any.
pub open spec fn quality_named(lower: Seq<char>) -> Quality {
    if lower == "flac"@ {
        Quality::Flac
    } else if lower == "mp3_320"@ || lower == "mp3"@ {
        Quality::Mp3_320
    } else if lower == "aac"@ {
        Quality::Aac
    } else {
        Quality::Any
    }
}

pub open spec fn priority_of(q: Quality) -> u8 {
    match q {
        Quality::Flac => 3,
        Quality::Mp3_320 => 2,
        Quality::Aac => 1,
        Quality::Any => 0,
    }
}

impl Quality {
    /// Parses a setting, ignoring case.
    pub fn from_str(s: &str) -> (q: Self)
        ensures
            q == quality_named(lowercase(s@)),
    {
        let lower = to_lowercase(s);
        Self::from_lowercase(lower.as_str())
    }

    /// The quality named by an already lower-cased setting.
    pub fn from_lowercase(lower: &str) -> (q: Self)
        ensures
            q == quality_named(lower@),
    {
        if str_equal(lower, "flac") {
            Quality::Flac
        } else if str_equal(lower, "mp3_320") || str_equal(lower, "mp3") {
            Quality::Mp3_320
        } else if str_equal(lower, "aac") {
            Quality::Aac
        } else {
            Quality::Any
        }
    }

    /// Higher is better; `Any` is the lowest.
    pub fn priority(&self) -> (p: u8)
        ensures
            p == priority_of(*self),
    {
        match self {
            Quality::Flac => 3,
            Quality::Mp3_320 => 2,
            Quality::Aac => 1,
            Quality::Any => 0,
        }
    }

    /// The label shown for the quality.
    pub fn to_string(&self) -> (r: String)
        ensures
            r@ == match self {
                Quality::Flac => "FLAC"@,
                Quality::Mp3_320 => "MP3 320"@,
                Quality::Aac => "AAC"@,
                Quality::Any => "Auto"@,
            },
    {
        match self {
            Quality::Flac => String::from_str("FLAC"),
            Quality::Mp3_320 => String::from_str("MP3 320"),
            Quality::Aac => String::from_str("AAC"),
            Quality::Any => String::from_str("Auto"),
        }
    }
}

} // verus!
