//! Recognising video files by their extension.
use std::path::Path;

use vstd::prelude::*;

use crate::text::text_equals;

verus! {

/// Extensions of the video files the player offers to play.
pub const VIDEO_EXTENSIONS: [&'static str; 13] = [
    "mp4",
    "mov",
    "avi",
    "mkv",
    "webm",
    "m4v",
    "wmv",
    "flv",
    "mpeg",
    "mpg",
    "3gp",
    "ts",
    "mts",
];

/// The extension `std::path::Path::extension` finds in a path, as text.
pub uninterp spec fn spec_path_extension(path: Seq<char>) -> Option<Seq<char>>;

/// Whether `std::path::Path`'s equality, which compares paths component by
/// component, holds between the paths `a` and `b`.
pub uninterp spec fn spec_same_path(a: Seq<char>, b: Seq<char>) -> bool;

/// The text `str::to_lowercase` makes of `s`.
pub uninterp spec fn spec_lowercase(s: Seq<char>) -> Seq<char>;

/// Calls `Path::extension` of std on `path` and converts the extension to
/// text: the part of the file name after its last dot, `None` when there is
/// no such part or it is not valid text. Only the name of the result is
/// stated.
#[verifier::external_body]
fn path_extension(path: &str) -> (r: Option<String>)
    ensures
        match r {
            Some(e) => spec_path_extension(path@) == Some(e@),
            None => spec_path_extension(path@) is None,
        },
{
    Path::new(path).extension().and_then(|e| e.to_str()).map(|e| e.to_string())
}

/// Compares `a` and `b` with `==` on `std::path::Path`, which compares their
/// components (so `a//b` and `a/b` are the same path). Only the name of the
/// result is stated.
#[verifier::external_body]
pub(crate) fn same_path(a: &str, b: &str) -> (r: bool)
    ensures
        r == spec_same_path(a@, b@),
{
    Path::new(a) == Path::new(b)
}

/// Calls `str::to_lowercase` of std on `s`; the Unicode lowercase mapping
/// is only named.
#[verifier::external_body]
fn lowercase(s: &str) -> (r: String)
    ensures
        r@ == spec_lowercase(s@),
{
    s.to_lowercase()
}

/// `ext` is one of the video extensions.
pub open spec fn spec_is_video_extension(ext: Seq<char>) -> bool {
    exists|i: int| 0 <= i < VIDEO_EXTENSIONS@.len() && (#[trigger] VIDEO_EXTENSIONS@[i])@ == ext
}

/// Whether an already lowercased extension is one of the video extensions.
pub fn is_video_extension(ext: &str) -> (r: bool)
    ensures
        r == spec_is_video_extension(ext@),
{
    let mut i: usize = 0;
    while i < 13
        invariant
            i <= 13,
            forall|j: int| 0 <= j < i ==> (#[trigger] VIDEO_EXTENSIONS@[j])@ != ext@,
        decreases 13 - i,
    {
        if text_equals(VIDEO_EXTENSIONS[i], ext) {
            return true;
        }
        i = i + 1;
    }
    false
}

/// Whether a path has a video extension, in any letter case.
pub fn is_video_file(path: &str) -> (r: bool)
    ensures
        r == match spec_path_extension(path@) {
            Some(e) => spec_is_video_extension(spec_lowercase(e)),
            None => false,
        },
{
    match path_extension(path) {
        Some(e) => {
            let lower = lowercase(e.as_str());
            is_video_extension(lower.as_str())
        },
        None => false,
    }
}

} // verus!
