//! What a project file is, by where it lives.

use vstd::prelude::*;

verus! {

/// The kinds of project files.
#[derive(Clone, Debug, Eq, PartialEq, Structural)]
pub enum FileEntryKind {
    Author,
    Content,
    Other,
    Prompt,
    Shortcode,
}

impl FileEntryKind {
    pub fn is_author(&self) -> (b: bool)
        ensures
            b == (*self == FileEntryKind::Author),
    {
        *self == Self::Author
    }

    pub fn is_content(&self) -> (b: bool)
        ensures
            b == (*self == FileEntryKind::Content),
    {
        *self == Self::Content
    }

    pub fn is_prompt(&self) -> (b: bool)
        ensures
            b == (*self == FileEntryKind::Prompt),
    {
        *self == Self::Prompt
    }

    pub fn is_shortcode(&self) -> (b: bool)
        ensures
            b == (*self == FileEntryKind::Shortcode),
    {
        *self == Self::Shortcode
    }
}

} // verus!
