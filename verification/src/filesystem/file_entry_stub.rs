//! A file of a project: its path, relative to the project, and its contents.

use vstd::prelude::*;

verus! {

/// A file of a project, before it is sorted into a kind.
#[derive(Debug)]
pub struct FileEntryStub {
    pub contents: String,
    pub relative_path: String,
}

impl FileEntryStub {
    /// A copy of this file.
    pub fn copy(&self) -> (r: FileEntryStub)
        ensures
            r == *self,
    {
        FileEntryStub { contents: self.contents.clone(), relative_path: self.relative_path.clone() }
    }
}

} // verus!
