//! A project held in memory: files by path, which a read gives back as the
//! last write left them.

use vstd::prelude::*;

use crate::filesystem::file_entry_stub::FileEntryStub;
use crate::mcp::name_index::entries_map;
use crate::mcp::name_index::sorted_by_name;
use crate::mcp::name_index::NameIndex;
use crate::text::string_from_chars;

verus! {

/// What reading a file found.
#[derive(Debug)]
pub enum ReadFileContentsResult {
    /// The path is a directory.
    Directory,
    /// The file, with its contents.
    Found { contents: String },
    /// Nothing is at the path.
    NotFound,
}

/// What reading `path` gives back from the files `files`.
pub open spec fn read_result(files: Map<Seq<char>, String>, path: Seq<char>) -> Option<String> {
    if files.contains_key(path) {
        Some(files[path])
    } else {
        None
    }
}

/// The files of a project, by path, in memory.
pub struct Memory {
    files: NameIndex<String>,
}

impl Memory {
    /// The contents of each file, by path.
    pub closed spec fn files(&self) -> Map<Seq<char>, String> {
        self.files.as_map()
    }

    /// The paths and contents of the files, in the order of their paths.
    pub closed spec fn listing(&self) -> Seq<(Seq<char>, String)> {
        self.files.view()
    }

    /// A project with no files.
    pub fn new() -> (m: Self)
        ensures
            m.files() == Map::<Seq<char>, String>::empty(),
            m.listing() == Seq::<(Seq<char>, String)>::empty(),
    {
        let m = Memory { files: NameIndex::new() };
        assert(m.files() =~= Map::<Seq<char>, String>::empty());
        m
    }

    /// The contents of the file at `relative_path`; `NotFound` where there is
    /// none.
    pub fn read_file_contents(&self, relative_path: &str) -> (r: ReadFileContentsResult)
        ensures
            match read_result(self.files(), relative_path@) {
                Some(contents) => r matches ReadFileContentsResult::Found { contents: c } && c
                    == contents,
                None => r is NotFound,
            },
    {
        match self.files.get(relative_path) {
            Some(contents) => ReadFileContentsResult::Found { contents: contents.clone() },
            None => ReadFileContentsResult::NotFound,
        }
    }

    /// Writes `contents` to the file at `path`, in place of what it held.
    pub fn set_file_contents_sync(&mut self, path: &str, contents: &str)
        ensures
            final(self).files() == old(self).files().insert(path@, final(self).files()[path@]),
            final(self).files()[path@]@ == contents@,
    {
        self.files.insert(path.to_string(), contents.to_string());
    }

    /// Every file, with its path, in the order of the paths.
    pub fn read_project_files(&self) -> (r: Vec<FileEntryStub>)
        ensures
            sorted_by_name(self.listing()),
            entries_map(self.listing()) == self.files(),
            r@.len() == self.listing().len(),
            forall|i: int|
                0 <= i < r@.len() ==> (#[trigger] r@[i]).relative_path@ == self.listing()[i].0
                    && r@[i].contents == self.listing()[i].1,
    {
        let n = self.files.len();
        let mut out: Vec<FileEntryStub> = Vec::new();
        let mut i: usize = 0;
        while i < n
            invariant
                i <= n,
                n == self.listing().len(),
                out@.len() == i,
                forall|k: int|
                    0 <= k < i ==> (#[trigger] out@[k]).relative_path@ == self.listing()[k].0
                        && out@[k].contents == self.listing()[k].1,
            decreases n - i,
        {
            let (path, contents) = self.files.entry_at(i);
            out.push(
                FileEntryStub { contents: contents.clone(), relative_path: string_from_chars(path) },
            );
            i = i + 1;
        }
        out
    }
}

/// A read gives back what the last write to its path wrote, and a write to
/// one path leaves what a read of any other path gives unchanged.
pub proof fn law_read_after_write(
    files: Map<Seq<char>, String>,
    path: Seq<char>,
    contents: String,
    other: Seq<char>,
)
    ensures
        read_result(files.insert(path, contents), path) == Some(contents),
        other != path ==> read_result(files.insert(path, contents), other) == read_result(
            files,
            other,
        ),
{
}

} // verus!
