//! A block of plain text in an MCP message.

use vstd::prelude::*;

use crate::text::chars_of;
use crate::text::string_from_chars;

verus! {

/// A block of plain text.
#[derive(Clone, Debug, PartialEq, Eq)]
pub struct TextContent {
    pub text: String,
}

impl<'a> vstd::std_specs::convert::FromSpecImpl<&'a str> for TextContent {
    /// The contract of `from` below is stated on the impl itself.
    open spec fn obeys_from_spec() -> bool {
        false
    }

    open spec fn from_spec(value: &'a str) -> TextContent {
        arbitrary()
    }
}

impl<'a> From<&'a str> for TextContent {
    fn from(value: &'a str) -> (r: TextContent)
        ensures
            r.text@ == value@,
    {
        TextContent { text: string_from_chars(&chars_of(value)) }
    }
}

impl vstd::std_specs::convert::FromSpecImpl<String> for TextContent {
    open spec fn obeys_from_spec() -> bool {
        true
    }

    open spec fn from_spec(text: String) -> TextContent {
        TextContent { text }
    }
}

impl From<String> for TextContent {
    fn from(text: String) -> (r: TextContent)
        ensures
            r == (TextContent { text }),
    {
        TextContent { text }
    }
}

} // verus!
