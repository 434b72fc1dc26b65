//! Where the thumbnail of a video is kept.

use vstd::prelude::*;
use vstd::string::{StrSliceExecFns, StringExecFns};

verus! {

/// Whether `c` is an ASCII letter or digit.
pub open spec fn is_plain(c: char) -> bool {
    ('a' <= c <= 'z') || ('A' <= c <= 'Z') || ('0' <= c <= '9')
}

/// `stem` with an underscore in place of whatever is no ASCII letter or digit.
pub open spec fn safe_text(stem: Seq<char>) -> Seq<char> {
    Seq::new(stem.len(), |i: int| if is_plain(stem[i]) { stem[i] } else { '_' })
}

/// The stem given to a video whose path has no readable file stem.
pub open spec fn default_stem() -> Seq<char> {
    "video"@
}

/// The stem that a thumbnail is named after, before it is made safe.
pub open spec fn stem_or_default(stem: Option<Seq<char>>) -> Seq<char> {
    match stem {
        Some(stem) => stem,
        None => default_stem(),
    }
}

/// The directory of the thumbnails, below the cache directory.
pub open spec fn thumbnails_directory() -> Seq<char> {
    "thumbnails"@
}

/// The file name of the thumbnail of a video with the safe stem `stem`.
pub open spec fn thumbnail_name(stem: Seq<char>) -> Seq<char> {
    stem + ".jpg"@
}

/// `std::path::Path::file_stem`, read as text: the file name of `path`
/// without its extension, if there is one and it is valid Unicode. Which
/// part of a path that is depends on the platform, so nothing is claimed of
/// the result.
#[verifier::external_body]
fn file_stem_of(path: &str) -> (r: Option<String>) {
    std::path::Path::new(path).file_stem().and_then(|stem| stem.to_str()).map(String::from)
}

/// Whether `c` is an ASCII letter or digit.
fn plain(c: char) -> (r: bool)
    ensures
        r == is_plain(c),
{
    ('a' <= c && c <= 'z') || ('A' <= c && c <= 'Z') || ('0' <= c && c <= '9')
}

/// `stem` with an underscore in place of whatever is no ASCII letter or digit.
pub fn sanitized(stem: &str) -> (r: String)
    ensures
        r@ == safe_text(stem@),
{
    let n = stem.unicode_len();
    let mut out = String::new();
    let mut i: usize = 0;
    proof {
        reveal_strlit("_");
    }
    while i < n
        invariant
            i <= n,
            n == stem@.len(),
            "_"@ == seq!['_'],
            out@ == safe_text(stem@).take(i as int),
        decreases n - i,
    {
        let c = stem.get_char(i);
        if plain(c) {
            let piece = stem.substring_char(i, i + 1);
            assert(piece@ =~= seq![c]);
            out.append(piece);
        } else {
            out.append("_");
        }
        assert(out@ =~= safe_text(stem@).take(i + 1));
        i += 1;
    }
    assert(safe_text(stem@).take(n as int) =~= safe_text(stem@));
    out
}

/// The stem of the thumbnail of the video at `path`: the file stem as the
/// platform reads it from the path, or `video` where there is none, made
/// safe.
pub fn safe_file_stem(path: &str) -> (r: String)
    ensures
        exists|stem: Option<Seq<char>>| r@ == safe_text(#[trigger] stem_or_default(stem)),
{
    let stem = file_stem_of(path);
    let ghost read = crate::text::optional_text(stem);
    let r = safe_stem_of(stem);
    assert(r@ == safe_text(stem_or_default(read)));
    r
}

/// The stem of a thumbnail for the file stem `stem`, made safe; for a video
/// without a file stem it is `video`.
pub fn safe_stem_of(stem: Option<String>) -> (r: String)
    ensures
        r@ == safe_text(stem_or_default(crate::text::optional_text(stem))),
{
    match stem {
        Some(stem) => sanitized(stem.as_str()),
        None => sanitized("video"),
    }
}

/// Where the thumbnail of the video at `video_path` is kept, below the cache
/// directory: the directory `thumbnails` and, in it, the file named after
/// the safe stem of the video.
pub fn make_thumbnail_path(video_path: &str) -> (r: (String, String))
    ensures
        r.0@ == thumbnails_directory(),
        exists|stem: Option<Seq<char>>|
            r.1@ == thumbnail_name(safe_text(#[trigger] stem_or_default(stem))),
{
    let mut name = safe_file_stem(video_path);
    let ghost stem = choose|stem: Option<Seq<char>>|
        name@ == safe_text(#[trigger] stem_or_default(stem));
    name.append(".jpg");
    assert(name@ == thumbnail_name(safe_text(stem_or_default(stem))));
    ("thumbnails".to_owned(), name)
}

} // verus!
