//! The signed link to an audio file, built from the download-info document.
use vstd::prelude::*;
use vstd::string::{StrSliceExecFns, StringSliceAdditionalSpecFns};
use md5::Digest;
use crate::utils::text::{owned, push_char, push_str, str_equal};

verus! {

/// An event of an XML document, as far as the download-info reading needs it.
#[derive(Debug)]
pub enum XmlEvent {
    /// A start tag or an empty-element tag, with its name.
    Tag(String),
    /// Character data, unescaped.
    Text(String),
    /// Any other event: end tags, comments, declarations and so on.
    Other,
}

/// The events that `quick_xml` reads from a document up to its end or its
/// first error. How a document is tokenised takes pages to state, so the
/// result is only named.
pub uninterp spec fn xml_events_of(doc: Seq<char>) -> Seq<XmlEvent>;

/// Reads the events of `doc` with `quick_xml::Reader`, until the end of the
/// document or the first error, each event converted one for one.
#[verifier::external_body]
fn xml_events(doc: &str) -> (r: Vec<XmlEvent>)
    ensures
        r@ == xml_events_of(doc@),
{
    let (mut reader, mut buf, mut out) = (quick_xml::Reader::from_str(doc), Vec::new(), Vec::new());
    loop {
        let event = match reader.read_event_into(&mut buf) {
            Ok(quick_xml::events::Event::Start(e)) | Ok(quick_xml::events::Event::Empty(e)) =>
                XmlEvent::Tag(String::from_utf8_lossy(e.name().as_ref()).into_owned()),
            Ok(quick_xml::events::Event::Text(t)) => XmlEvent::Text(t.unescape().unwrap_or_default().into_owned()),
            Ok(quick_xml::events::Event::Eof) | Err(_) => break,
            Ok(_) => XmlEvent::Other,
        };
        out.push(event);
        buf.clear();
    }
    out
}

/// The MD5 digest of `data`. The algorithm takes pages to state, so the
/// result is only named; a digest has sixteen bytes.
pub uninterp spec fn md5_of(data: Seq<u8>) -> Seq<u8>;

/// `Md5::digest` of the `md-5` crate.
#[verifier::external_body]
fn md5_digest(data: &[u8]) -> (r: Vec<u8>)
    ensures
        r@ == md5_of(data@),
        r@.len() == 16,
{
    md5::Md5::digest(data).to_vec()
}

/// The fields read so far from the download-info document: the last tag
/// opened (cleared by the text after it), and the four values.
#[verifier::ext_equal]
pub struct DownloadFields {
    pub tag: Seq<char>,
    pub host: Seq<char>,
    pub path: Seq<char>,
    pub sig: Seq<char>,
    pub ts: Seq<char>,
}

pub open spec fn scan_step(f: DownloadFields, e: XmlEvent) -> DownloadFields {
    match e {
        XmlEvent::Tag(name) => DownloadFields { tag: name@, ..f },
        XmlEvent::Text(v) => {
            let g = if f.tag == "host"@ {
                DownloadFields { host: v@, ..f }
            } else if f.tag == "path"@ {
                DownloadFields { path: v@, ..f }
            } else if f.tag == "s"@ {
                DownloadFields { sig: v@, ..f }
            } else if f.tag == "ts"@ {
                DownloadFields { ts: v@, ..f }
            } else {
                f
            };
            DownloadFields { tag: Seq::empty(), ..g }
        },
        XmlEvent::Other => f,
    }
}

/// The fields after reading the events in order; a later value of a field
/// replaces an earlier one.
pub open spec fn scan(events: Seq<XmlEvent>) -> DownloadFields
    decreases events.len(),
{
    if events.len() == 0 {
        DownloadFields {
            tag: Seq::empty(),
            host: Seq::empty(),
            path: Seq::empty(),
            sig: Seq::empty(),
            ts: Seq::empty(),
        }
    } else {
        scan_step(scan(events.drop_last()), events.last())
    }
}

/// The salt of the link signature.
pub open spec fn sign_salt() -> Seq<char> {
    "XGRlBW9FXlekgbPrRHuSiA"@
}

/// The lower-case hexadecimal digit for `d`.
pub open spec fn hex_digit(d: u8) -> char {
    if d < 10 {
        ('0' as u8 + d) as char
    } else {
        ('a' as u8 + (d - 10)) as char
    }
}

/// Two lower-case hexadecimal digits per byte, high nibble first.
pub open spec fn hex_lower(bytes: Seq<u8>) -> Seq<char>
    decreases bytes.len(),
{
    if bytes.len() == 0 {
        Seq::empty()
    } else {
        hex_lower(bytes.drop_last()) + seq![hex_digit(bytes.last() / 16), hex_digit(bytes.last() % 16)]
    }
}

/// The link: `https://{host}/get-mp3/{hex}/{ts}{path}`, where `hex` is the
/// MD5 of the salt, the path without its first character, and the signature.
pub open spec fn download_link(host: Seq<char>, path: Seq<char>, sig: Seq<char>, ts: Seq<char>) -> Seq<char> {
    let hex = hex_lower(md5_of(vstd::utf8::encode_utf8(sign_salt() + path.skip(1) + sig)));
    "https://"@ + host + "/get-mp3/"@ + hex + "/"@ + ts + path
}

/// The link for the fields of a document, when all four are there and the
/// path starts with a one-byte character.
pub open spec fn link_from_fields(f: DownloadFields) -> Option<Seq<char>> {
    if f.sig.len() == 0 || f.ts.len() == 0 || f.host.len() == 0 || f.path.len() == 0 {
        None
    } else if (f.path[0] as u32) >= 128 {
        None
    } else {
        Some(download_link(f.host, f.path, f.sig, f.ts))
    }
}

fn hex_char(d: u8) -> (c: char)
    requires
        d < 16,
    ensures
        c == hex_digit(d),
{
    if d < 10 {
        ('0' as u8 + d) as char
    } else {
        ('a' as u8 + (d - 10)) as char
    }
}

/// Lower-case hexadecimal, as `{:x}` prints a digest.
pub fn to_hex_lower(bytes: &[u8]) -> (r: String)
    ensures
        r@ == hex_lower(bytes@),
{
    let mut out = String::new();
    for i in 0..bytes.len()
        invariant
            out@ == hex_lower(bytes@.take(i as int)),
    {
        let b = bytes[i];
        push_char(&mut out, hex_char(b / 16));
        push_char(&mut out, hex_char(b % 16));
        assert(bytes@.take(i + 1).drop_last() == bytes@.take(i as int));
    }
    assert(bytes@.take(bytes@.len() as int) == bytes@);
    out
}

/// The host, path, signature and timestamp of a download-info document.
pub fn scan_fields(events: &[XmlEvent]) -> (r: (String, String, String, String))
    ensures
        r.0@ == scan(events@).host,
        r.1@ == scan(events@).path,
        r.2@ == scan(events@).sig,
        r.3@ == scan(events@).ts,
{
    let mut tag = String::new();
    let mut host = String::new();
    let mut path = String::new();
    let mut sig = String::new();
    let mut ts = String::new();
    for i in 0..events.len()
        invariant
            scan(events@.take(i as int)) == (DownloadFields {
                tag: tag@,
                host: host@,
                path: path@,
                sig: sig@,
                ts: ts@,
            }),
    {
        assert(events@.take(i + 1).drop_last() == events@.take(i as int));
        match &events[i] {
            XmlEvent::Tag(name) => {
                tag = name.clone();
            },
            XmlEvent::Text(v) => {
                if str_equal(tag.as_str(), "host") {
                    host = v.clone();
                } else if str_equal(tag.as_str(), "path") {
                    path = v.clone();
                } else if str_equal(tag.as_str(), "s") {
                    sig = v.clone();
                } else if str_equal(tag.as_str(), "ts") {
                    ts = v.clone();
                }
                tag = String::new();
            },
            XmlEvent::Other => {},
        }
    }
    assert(events@.take(events@.len() as int) == events@);
    (host, path, sig, ts)
}

/// The signed link for the four fields.
pub fn download_url_from_fields(host: &str, path: &str, sig: &str, ts: &str) -> (r: String)
    requires
        path@.len() > 0,
        (path@[0] as u32) < 128,
    ensures
        r@ == download_link(host@, path@, sig@, ts@),
{
    let mut input = owned("XGRlBW9FXlekgbPrRHuSiA");
    push_str(&mut input, path.substring_char(1, path.unicode_len()));
    push_str(&mut input, sig);
    let digest = md5_digest(input.as_str().as_bytes());
    let hex = to_hex_lower(digest.as_slice());
    let mut out = owned("https://");
    push_str(&mut out, host);
    push_str(&mut out, "/get-mp3/");
    push_str(&mut out, hex.as_str());
    push_str(&mut out, "/");
    push_str(&mut out, ts);
    push_str(&mut out, path);
    out
}

/// The signed link of a download-info document, or `None` when the
/// document lacks one of the four fields. A path that starts with a
/// character of more than one byte also gives `None`: its first byte cannot
/// be cut off.
pub fn download_url_from_xml(doc: &str) -> (r: Option<String>)
    ensures
        opt_seq(r) == link_from_fields(scan(xml_events_of(doc@))),
{
    let events = xml_events(doc);
    let (host, path, sig, ts) = scan_fields(events.as_slice());
    if sig.as_str().unicode_len() == 0 || ts.as_str().unicode_len() == 0
        || host.as_str().unicode_len() == 0 || path.as_str().unicode_len() == 0 {
        return None;
    }
    let first = path.as_str().get_char(0);
    if (first as u32) >= 128 {
        return None;
    }
    Some(download_url_from_fields(host.as_str(), path.as_str(), sig.as_str(), ts.as_str()))
}

pub open spec fn opt_seq(o: Option<String>) -> Option<Seq<char>> {
    match o {
        Some(s) => Some(s@),
        None => None,
    }
}

} // verus!
