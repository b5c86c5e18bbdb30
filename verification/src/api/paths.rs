//! Addresses of the service's endpoints.
use vstd::prelude::*;
use vstd::string::StringSliceAdditionalSpecFns;
use crate::utils::text::{decimal, joined, join_strings, owned, push_decimal, push_str};

verus! {

/// Bytes that `application/x-www-form-urlencoded` leaves as they are.
pub open spec fn form_unchanged(b: u8) -> bool {
    b == 0x2a || b == 0x2d || b == 0x2e || (0x30 <= b && b <= 0x39) || (0x41 <= b && b <= 0x5a)
        || b == 0x5f || (0x61 <= b && b <= 0x7a)
}

/// The upper-case hexadecimal digit for `d`.
pub open spec fn hex_upper(d: u8) -> char {
    if d < 10 {
        ('0' as u8 + d) as char
    } else {
        ('A' as u8 + (d - 10)) as char
    }
}

/// One byte, form-urlencoded: kept, a space as "+", otherwise "%XX".
pub open spec fn form_byte(b: u8) -> Seq<char> {
    if form_unchanged(b) {
        seq![b as char]
    } else if b == 0x20 {
        seq!['+']
    } else {
        seq!['%', hex_upper(b / 16), hex_upper(b % 16)]
    }
}

/// The form-urlencoded serialisation of bytes.
pub open spec fn form_encoded(bytes: Seq<u8>) -> Seq<char>
    decreases bytes.len(),
{
    if bytes.len() == 0 {
        Seq::empty()
    } else {
        form_encoded(bytes.drop_last()) + form_byte(bytes.last())
    }
}

/// `url::form_urlencoded::byte_serialize` of the UTF-8 bytes of `s`,
/// collected into a string: each byte is kept when it is an ASCII letter,
/// digit or one of `*-._`, a space becomes `+`, any other byte `%XX` in
/// upper-case hexadecimal.
#[verifier::external_body]
fn form_urlencode(s: &str) -> (r: String)
    ensures
        r@ == form_encoded(s.spec_bytes()),
{
    url::form_urlencoded::byte_serialize(s.as_bytes()).collect()
}

/// The base of every request.
pub open spec fn api_base() -> Seq<char> {
    "https://api.music.yandex.net:443/"@
}

/// The address of an endpoint.
pub fn api_url(path: &str) -> (r: String)
    ensures
        r@ == api_base() + path@,
{
    let mut out = owned("https://api.music.yandex.net:443/");
    push_str(&mut out, path);
    out
}

/// The search endpoint for `query` (form-urlencoded), a result type and a page.
pub open spec fn search_path_of(query: Seq<char>, search_type: Seq<char>, page: nat) -> Seq<char> {
    "search?text="@ + form_encoded(vstd::utf8::encode_utf8(query)) + "&page="@ + decimal(page)
        + "&type="@ + search_type + "&nocorrect=false"@
}

pub fn search_path(query: &str, search_type: &str, page: u32) -> (r: String)
    ensures
        r@ == search_path_of(query@, search_type@, page as nat),
{
    let encoded = form_urlencode(query);
    let mut out = owned("search?text=");
    push_str(&mut out, encoded.as_str());
    push_str(&mut out, "&page=");
    push_decimal(&mut out, page as u64);
    push_str(&mut out, "&type=");
    push_str(&mut out, search_type);
    push_str(&mut out, "&nocorrect=false");
    out
}

/// The endpoint that resolves several tracks at once.
pub fn tracks_batch_path(ids: &[String]) -> (r: String)
    ensures
        r@ == "tracks?trackIds="@ + joined(ids@.map_values(|v: String| v@), ","@),
{
    let mut out = owned("tracks?trackIds=");
    let list = join_strings(ids, ",");
    push_str(&mut out, list.as_str());
    out
}

} // verus!
