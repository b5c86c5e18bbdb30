//! Signing in: the address to open and the token the user pastes back.
use vstd::prelude::*;
use crate::utils::text::{owned, push_str};

verus! {

/// The application's id at the sign-in service.
pub open spec fn client_id() -> Seq<char> {
    "23cabbbdc6cd418abb4b39c32c41195d"@
}

/// The page where the user allows access and receives a token.
pub fn auth_url() -> (r: String)
    ensures
        r@ == "https://oauth.yandex.ru/authorize?response_type=token&client_id="@ + client_id(),
{
    let mut out = owned("https://oauth.yandex.ru/authorize?response_type=token&client_id=");
    push_str(&mut out, "23cabbbdc6cd418abb4b39c32c41195d");
    out
}

/// The characters with the Unicode White_Space property, which `str::trim`
/// removes: U+0009..U+000D, U+0020, U+0085, U+00A0, U+1680,
/// U+2000..U+200A, U+2028, U+2029, U+202F, U+205F and U+3000.
pub open spec fn white_space(c: char) -> bool {
    let u = c as u32;
    (0x9 <= u && u <= 0xd) || u == 0x20 || u == 0x85 || u == 0xa0 || u == 0x1680 || (0x2000 <= u
        && u <= 0x200a) || u == 0x2028 || u == 0x2029 || u == 0x202f || u == 0x205f || u == 0x3000
}

/// `s` without its leading white space.
pub open spec fn trimmed_start(s: Seq<char>) -> Seq<char>
    decreases s.len(),
{
    if s.len() > 0 && white_space(s[0]) {
        trimmed_start(s.drop_first())
    } else {
        s
    }
}

/// `s` without its trailing white space.
pub open spec fn trimmed_end(s: Seq<char>) -> Seq<char>
    decreases s.len(),
{
    if s.len() > 0 && white_space(s.last()) {
        trimmed_end(s.drop_last())
    } else {
        s
    }
}

/// `s` without leading and trailing white space.
pub open spec fn trimmed(s: Seq<char>) -> Seq<char> {
    trimmed_end(trimmed_start(s))
}

/// `str::trim` from std: the slice without leading and trailing
/// White_Space characters.
#[verifier::external_body]
fn trim(s: &str) -> (r: &str)
    ensures
        r@ == trimmed(s@),
{
    s.trim()
}

/// The token in a line the user typed: the line without surrounding white
/// space, unless nothing is left.
pub fn token_from_input(line: &str) -> (r: Option<String>)
    ensures
        match r {
            Some(t) => t@ == trimmed(line@) && t@.len() > 0,
            None => trimmed(line@).len() == 0,
        },
{
    let t = trim(line);
    if t.is_empty() {
        None
    } else {
        Some(owned(t))
    }
}

/// The authorization header value for a token.
pub fn auth_header(token: &str) -> (r: String)
    ensures
        r@ == "OAuth "@ + token@,
{
    let mut out = owned("OAuth ");
    push_str(&mut out, token);
    out
}

} // verus!
