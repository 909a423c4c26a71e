//! Whether a file is an image, judged by its name.

use vstd::prelude::*;

use crate::text::str_equal;

verus! {

/// The top-level media type that mime_guess gives the first type it guesses
/// for `path`, `application` (of `application/octet-stream`) where it
/// guesses none.
pub uninterp spec fn guessed_top_level_type(path: Seq<char>) -> Seq<char>;

/// `mime_guess::from_path(path).first_or_octet_stream().type_()`: the
/// top-level type of the media type guessed from the extension of `path`.
#[verifier::external_body]
fn guess_top_level_type(path: &str) -> (r: String)
    ensures
        r@ == guessed_top_level_type(path@),
{
    mime_guess::from_path(path).first_or_octet_stream().type_().as_str().to_string()
}

/// Whether the media type guessed for `path` is an image type.
pub fn is_image_path(path: &str) -> (b: bool)
    ensures
        b == (guessed_top_level_type(path@) == "image"@),
{
    let t = guess_top_level_type(path);
    str_equal(t.as_str(), "image")
}

} // verus!
