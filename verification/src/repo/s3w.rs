//! Keys, URLs and media types of objects in an S3 repository.

use vstd::prelude::*;
use crate::repo::repo_info::S3Info;
use crate::text::{concat, slash_join, slashed};

verus! {

/// The key of an object in the bucket: the key below the repository's root,
/// behind the repository's prefix where it has one.
pub open spec fn full_key(base: Seq<char>, key: Seq<char>) -> Seq<char> {
    if base.len() == 0 {
        key
    } else {
        slashed(base, key)
    }
}

/// The URL that reports show for an object: `s3://{bucket}/{key}`, with the
/// key below the repository's root.
pub open spec fn s3_url_of(bucket: Seq<char>, key: Seq<char>) -> Seq<char> {
    slashed("s3://"@ + bucket, key)
}

/// The key to ask the bucket for, and the URL to report.
pub fn get_full_key_and_s3_url(s3_info: &S3Info, key: &str) -> (r: (String, String))
    ensures
        r.0@ == full_key(s3_info.base@, key@),
        r.1@ == s3_url_of(s3_info.bucket@, key@),
{
    let full_key = if s3_info.base.as_str().is_empty() {
        String::from_str(key)
    } else {
        slash_join(s3_info.base.as_str(), key)
    };
    let head = concat("s3://", s3_info.bucket.as_str());
    let s3_url = slash_join(head.as_str(), key);
    (full_key, s3_url)
}

/// The media type that `mime_guess` gives for a path, by the path's
/// extension: the first type it knows for the extension, and
/// `application/octet-stream` where it knows none.
pub uninterp spec fn guessed_mime(path: Seq<char>) -> Seq<char>;

/// Calls `mime_guess::from_path` and `MimeGuess::first_or_octet_stream`, and
/// writes the media type out. The contract only names the outcome.
#[verifier::external_body]
fn guess_mime(path: &str) -> (r: String)
    ensures
        r@ == guessed_mime(path@),
{
    mime_guess::from_path(path).first_or_octet_stream().to_string()
}

/// The media type that a file is uploaded with: the one guessed from its
/// path.
pub fn upload_file_content_type(file_path: &str) -> (r: String)
    ensures
        r@ == guessed_mime(file_path@),
{
    guess_mime(file_path)
}

/// The media type that a text is uploaded with: the one given, else
/// `text/plain`.
pub fn upload_text_content_type(content_type: Option<&str>) -> (r: String)
    ensures
        r@ == (match content_type {
            Some(t) => t@,
            None => "text/plain"@,
        }),
{
    match content_type {
        Some(t) => String::from_str(t),
        None => String::from_str("text/plain"),
    }
}

} // verus!
