//! Telling links to other sites apart from links within the project.

use vstd::prelude::*;

use crate::text::chars_of;
use crate::text::has_prefix;
use crate::text::starts_with;

verus! {

/// A link leaves the project when it starts with `http:`, `https:`, `//` or
/// `mailto:`.
pub open spec fn is_external_link_spec(link: Seq<char>) -> bool {
    ||| has_prefix(link, "http:"@)
    ||| has_prefix(link, "https:"@)
    ||| has_prefix(link, "//"@)
    ||| has_prefix(link, "mailto:"@)
}

/// Whether `link` points outside the project.
pub fn is_external_link(link: &str) -> (b: bool)
    ensures
        b == is_external_link_spec(link@),
{
    let v = chars_of(link);
    starts_with(&v, &chars_of("http:")) || starts_with(&v, &chars_of("https:")) || starts_with(
        &v,
        &chars_of("//"),
    ) || starts_with(&v, &chars_of("mailto:"))
}

} // verus!
