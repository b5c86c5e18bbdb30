//! Where downloaded tracks are kept on disk.
use vstd::prelude::*;
use vstd::string::{StrSliceExecFns, StringExecFns};
use crate::utils::text::{push_char, push_str};

verus! {

/// Characters that may appear in a cached file's name.
pub open spec fn filename_safe(c: char) -> bool {
    ('a' <= c && c <= 'z') || ('A' <= c && c <= 'Z') || ('0' <= c && c <= '9') || c == '_' || c
        == '-'
}

/// The filename-safe characters of `s`, in order.
pub open spec fn keep_safe(s: Seq<char>) -> Seq<char>
    decreases s.len(),
{
    if s.len() == 0 {
        Seq::empty()
    } else if filename_safe(s.last()) {
        keep_safe(s.drop_last()).push(s.last())
    } else {
        keep_safe(s.drop_last())
    }
}

/// The name of the cached file of a track.
pub open spec fn cache_file_name(track_id: Seq<char>) -> Seq<char> {
    keep_safe(track_id) + ".mp3"@
}

/// `dir` and `name` joined by `std::path::Path::join`, as a string. The
/// platform's rules for separators and absolute paths decide it, so the
/// result is only named.
pub uninterp spec fn path_joined(dir: Seq<char>, name: Seq<char>) -> Seq<char>;

/// `Path::new(dir).join(name)` from std, converted back to a string. The
/// inputs are strings, so the conversion loses nothing.
#[verifier::external_body]
pub(crate) fn join_path(dir: &str, name: &str) -> (r: String)
    ensures
        r@ == path_joined(dir@, name@),
{
    std::path::Path::new(dir).join(name).to_string_lossy().into_owned()
}

/// `Path::exists` from std. What is on disk decides the result, so nothing
/// is stated of it.
#[verifier::external_body]
fn path_exists(path: &str) -> (r: bool) {
    std::path::Path::new(path).exists()
}

/// Whether `c` may appear in a cached file's name.
pub fn is_filename_safe(c: char) -> (r: bool)
    ensures
        r == filename_safe(c),
{
    ('a' <= c && c <= 'z') || ('A' <= c && c <= 'Z') || ('0' <= c && c <= '9') || c == '_' || c
        == '-'
}

/// Track ids come from the service's responses; only filename-safe
/// characters are kept, so an id cannot leave the cache directory through
/// ".." or "/".
pub fn safe_file_name(track_id: &str) -> (r: String)
    ensures
        r@ == cache_file_name(track_id@),
{
    let n = track_id.unicode_len();
    let mut out = String::new();
    for i in 0..n
        invariant
            n == track_id@.len(),
            out@ == keep_safe(track_id@.take(i as int)),
    {
        let c = track_id.get_char(i);
        if is_filename_safe(c) {
            push_char(&mut out, c);
        }
        assert(track_id@.take(i + 1).drop_last() == track_id@.take(i as int));
    }
    assert(track_id@.take(n as int) == track_id@);
    push_str(&mut out, ".mp3");
    out
}

/// The cache of downloaded tracks: one file per track in one directory.
pub struct TrackCache {
    dir: String,
}

/// The directory of the cache under the user's cache directory.
pub open spec fn cache_dir_under(base: Seq<char>) -> Seq<char> {
    path_joined(path_joined(base, "yplayer"@), "tracks"@)
}

impl TrackCache {
    /// The cache under `cache_base`, the user's cache directory, or under
    /// "~/.cache" when that is unknown. Creating the directory is the
    /// caller's part.
    pub fn new(cache_base: Option<String>) -> (c: Self)
        ensures
            c.dir()@ == cache_dir_under(
                match cache_base {
                    Some(b) => b@,
                    None => "~/.cache"@,
                },
            ),
    {
        let base = match cache_base {
            Some(b) => b,
            None => String::from_str("~/.cache"),
        };
        let app_dir = join_path(base.as_str(), "yplayer");
        let dir = join_path(app_dir.as_str(), "tracks");
        TrackCache { dir }
    }

    pub closed spec fn dir(&self) -> String {
        self.dir
    }

    /// The directory of the cache.
    pub fn dir_path(&self) -> (r: &str)
        ensures
            r@ == self.dir()@,
    {
        self.dir.as_str()
    }

    /// Where the track's file is, whether or not it exists.
    pub fn path(&self, track_id: &str) -> (r: String)
        ensures
            r@ == path_joined(self.dir()@, cache_file_name(track_id@)),
    {
        let name = safe_file_name(track_id);
        join_path(self.dir.as_str(), name.as_str())
    }

    /// Whether the track's file exists.
    pub fn has(&self, track_id: &str) -> (r: bool) {
        let p = self.path(track_id);
        path_exists(p.as_str())
    }

    /// The track's file, when it exists.
    pub fn get(&self, track_id: &str) -> (r: Option<String>)
        ensures
            r matches Some(p) ==> p@ == path_joined(self.dir()@, cache_file_name(track_id@)),
    {
        let p = self.path(track_id);
        if path_exists(p.as_str()) {
            Some(p)
        } else {
            None
        }
    }
}

/// The name of a cached file is made of filename-safe characters followed
/// by ".mp3": it holds no "/" and is never "." or "..", so joining it to the
/// cache directory names a file inside that directory.
pub proof fn law_cache_name_is_plain(track_id: Seq<char>)
    ensures
        cache_file_name(track_id).len() >= 4,
        forall|i: int|
            0 <= i < cache_file_name(track_id).len() - 4 ==> filename_safe(
                #[trigger] cache_file_name(track_id)[i],
            ),
        !cache_file_name(track_id).contains('/'),
        cache_file_name(track_id) != "."@,
        cache_file_name(track_id) != ".."@,
{
    lemma_keep_safe(track_id);
    reveal_strlit(".mp3");
    reveal_strlit(".");
    reveal_strlit("..");
    let name = cache_file_name(track_id);
    let k = keep_safe(track_id);
    assert forall|i: int| 0 <= i < name.len() implies name[i] != '/' by {
        if i < k.len() {
            assert(name[i] == k[i]);
        } else {
            assert(name[i] == ".mp3"@[i - k.len()]);
        }
    }
    assert(name[name.len() - 1] == '3');
    assert(".."@[1] == '.');
}

proof fn lemma_keep_safe(s: Seq<char>)
    ensures
        forall|i: int| 0 <= i < keep_safe(s).len() ==> filename_safe(#[trigger] keep_safe(s)[i]),
    decreases s.len(),
{
    if s.len() > 0 {
        let rest = keep_safe(s.drop_last());
        lemma_keep_safe(s.drop_last());
        if filename_safe(s.last()) {
            assert forall|i: int| 0 <= i < keep_safe(s).len() implies filename_safe(
                #[trigger] keep_safe(s)[i],
            ) by {
                if i < rest.len() {
                    assert(keep_safe(s)[i] == rest[i]);
                }
            }
        }
    }
}

} // verus!
