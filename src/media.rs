//! Media category from a file's extension, MIME type from its content, and
//! the rule that keeps the two consistent.

use vstd::prelude::*;
use crate::text::{
    chars_of, ends_with, has_prefix, has_suffix, lower_ascii_seq, same_text, starts_with,
    string_of, to_ascii_lower, owned,
};

verus! {

/// Largest accepted input file: 2 GiB.
pub const MAX_FILE_BYTES: u64 = 2147483648;

/// Media category of a path, decided by its extension alone, ignoring ASCII case.
pub open spec fn media_type_of(path: Seq<char>) -> Seq<char> {
    let lower = lower_ascii_seq(path);
    if has_suffix(lower, ".mp3"@) || has_suffix(lower, ".wav"@) || has_suffix(lower, ".m4a"@) {
        "audio"@
    } else if has_suffix(lower, ".mp4"@) {
        "video"@
    } else if has_suffix(lower, ".jpg"@) || has_suffix(lower, ".jpeg"@) || has_suffix(
        lower,
        ".png"@,
    ) || has_suffix(lower, ".heif"@) {
        "image"@
    } else {
        "unknown"@
    }
}

/// The category of a file path from its extension: `audio` for .mp3, .wav
/// and .m4a, `video` for .mp4, `image` for .jpg, .jpeg, .png and .heif, and
/// `unknown` for anything else.
pub fn infer_media_type(file_path: &str) -> (r: &'static str)
    ensures
        r@ == media_type_of(file_path@),
{
    let lower = to_ascii_lower(file_path);
    if ends_with(&lower, ".mp3") || ends_with(&lower, ".wav") || ends_with(&lower, ".m4a") {
        "audio"
    } else if ends_with(&lower, ".mp4") {
        "video"
    } else if ends_with(&lower, ".jpg") || ends_with(&lower, ".jpeg") || ends_with(&lower, ".png")
        || ends_with(&lower, ".heif") {
        "image"
    } else {
        "unknown"
    }
}

/// The MIME type reported when the content has no recognised signature.
pub open spec fn generic_mime() -> Seq<char> {
    "application/octet-stream"@
}

/// Whether a sniffed MIME type is consistent with a media category: the
/// generic type passes for any category; otherwise the MIME family must be the
/// category's own.
pub open spec fn mime_fits(media_type: Seq<char>, mime_type: Seq<char>) -> bool {
    if mime_type == generic_mime() {
        true
    } else if media_type == "audio"@ {
        has_prefix(mime_type, "audio/"@)
    } else if media_type == "video"@ {
        has_prefix(mime_type, "video/"@)
    } else if media_type == "image"@ {
        has_prefix(mime_type, "image/"@)
    } else {
        false
    }
}

pub fn mime_matches_media_type(media_type: &str, mime_type: &str) -> (r: bool)
    ensures
        r == mime_fits(media_type@, mime_type@),
{
    if same_text(mime_type, "application/octet-stream") {
        true
    } else if same_text(media_type, "audio") {
        starts_with(mime_type, "audio/")
    } else if same_text(media_type, "video") {
        starts_with(mime_type, "video/")
    } else if same_text(media_type, "image") {
        starts_with(mime_type, "image/")
    } else {
        false
    }
}

/// Characters kept in stored file names: ASCII letters and digits, `-`, `_`
/// and `.`; every other character becomes `_`.
pub open spec fn safe_char(c: char) -> char {
    if ('a' <= c <= 'z') || ('A' <= c <= 'Z') || ('0' <= c <= '9') || c == '-' || c == '_' || c
        == '.' {
        c
    } else {
        '_'
    }
}

pub open spec fn sanitized(s: Seq<char>) -> Seq<char> {
    Seq::new(s.len(), |i: int| safe_char(s[i]))
}

/// The file name with every character outside the safe set replaced by `_`.
pub fn sanitize_file_name(input: &str) -> (r: String)
    ensures
        r@ == sanitized(input@),
{
    let cs = chars_of(input);
    let mut out: Vec<char> = Vec::new();
    let mut i: usize = 0;
    while i < cs.len()
        invariant
            i <= cs.len(),
            cs@ == input@,
            out@ =~= sanitized(input@).take(i as int),
        decreases cs.len() - i,
    {
        let c = cs[i];
        let keep = ('a' <= c && c <= 'z') || ('A' <= c && c <= 'Z') || ('0' <= c && c <= '9') || c
            == '-' || c == '_' || c == '.';
        if keep {
            out.push(c);
        } else {
            out.push('_');
        }
        i = i + 1;
    }
    string_of(&out)
}

/// Whether a file of the given size is within the cap.
pub fn size_within_limit(size_bytes: u64) -> (r: bool)
    ensures
        r == (size_bytes <= MAX_FILE_BYTES),
{
    size_bytes <= MAX_FILE_BYTES
}

/// The MIME type that infer's signature table gives to the bytes at the start
/// of a file, if one matches.
pub uninterp spec fn sniffed_mime(header: Seq<u8>) -> Option<Seq<char>>;

/// Relies on `infer::get`: the built-in matchers look at the given bytes
/// only, and the matching type's `mime_type` is returned.
#[verifier::external_body]
fn sniff(header: &[u8]) -> (r: Option<String>)
    ensures
        r matches Some(m) ==> sniffed_mime(header@) == Some(m@),
        r is None ==> sniffed_mime(header@) is None,
{
    match infer::get(header) {
        Some(kind) => Some(kind.mime_type().to_string()),
        None => None,
    }
}

/// MIME type detected from content: the sniffed one, or the generic type
/// when no signature matches.
pub open spec fn detected_mime(header: Seq<u8>) -> Seq<char> {
    match sniffed_mime(header) {
        Some(m) => m,
        None => generic_mime(),
    }
}

/// Detects the MIME type of a file from its first bytes (up to 8192 are read).
pub fn detect_mime(header: &[u8]) -> (r: String)
    ensures
        r@ == detected_mime(header@),
{
    match sniff(header) {
        Some(m) => m,
        None => owned("application/octet-stream"),
    }
}

} // verus!
