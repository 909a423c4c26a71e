//! Reading a project from disk: which entries of a directory are read, which
//! are visited later, and which are left out. The disk itself is read by the
//! caller; this module decides.

use vstd::prelude::*;

use crate::text::str_equal;

verus! {

/// A project kept on disk under `base_directory`.
#[derive(Clone, Debug)]
pub struct Storage {
    pub base_directory: String,
}

/// What `path` is relative to `base`, where `base` is a leading part of it,
/// component by component.
pub uninterp spec fn relative_path_of(path: Seq<char>, base: Seq<char>) -> Option<Seq<char>>;

/// The extension of the file name of `path`: what follows its last `.`, for a
/// name that holds a `.` other than a leading one.
pub uninterp spec fn extension_of(path: Seq<char>) -> Option<Seq<char>>;

/// `std::path::Path::strip_prefix`: `path` without its leading components
/// `base`, or `None` where `base` does not lead it.
#[verifier::external_body]
fn strip_base_directory(path: &str, base: &str) -> (r: Option<String>)
    ensures
        match r {
            Some(s) => relative_path_of(path@, base@) == Some(s@),
            None => relative_path_of(path@, base@) is None,
        },
{
    std::path::Path::new(path).strip_prefix(base).ok().map(|p| p.to_string_lossy().to_string())
}

/// `std::path::Path::extension`, as text.
#[verifier::external_body]
fn path_extension(path: &str) -> (r: Option<String>)
    ensures
        match r {
            Some(s) => extension_of(path@) == Some(s@),
            None => extension_of(path@) is None,
        },
{
    std::path::Path::new(path).extension().and_then(|e| e.to_str()).map(|e| e.to_string())
}

/// What reading a directory does with one of its entries.
#[derive(Clone, Debug)]
pub enum DirEntryAction {
    /// A directory, visited later.
    Visit { path: String },
    /// A file that is read, and kept under its path relative to the project.
    Read { path: String, relative_path: String },
    /// A file of a kind the project does not hold.
    Skip,
}

/// The abstract form of a `DirEntryAction`.
pub enum DirEntryActionView {
    Visit(Seq<char>),
    Read(Seq<char>, Seq<char>),
    Skip,
}

impl View for DirEntryAction {
    type V = DirEntryActionView;

    open spec fn view(&self) -> DirEntryActionView {
        match self {
            DirEntryAction::Visit { path } => DirEntryActionView::Visit(path@),
            DirEntryAction::Read { path, relative_path } => DirEntryActionView::Read(
                path@,
                relative_path@,
            ),
            DirEntryAction::Skip => DirEntryActionView::Skip,
        }
    }
}

/// A file found outside the project's directory.
#[derive(Clone, Debug)]
pub struct NotUnderBaseDirectory {
    pub path: String,
    pub base_directory: String,
}

/// The extensions of the files a project holds: Markdown, Rhai and TOML.
pub open spec fn is_project_extension(e: Seq<char>) -> bool {
    e == "md"@ || e == "rhai"@ || e == "toml"@
}

/// What reading a directory does with its entry at `path`: a directory is
/// visited later; a file is read when its extension is one of a project's,
/// else left out; a file whose path does not lie under `base` is an error.
pub open spec fn dir_entry_outcome(base: Seq<char>, path: Seq<char>, is_dir: bool) -> Option<
    DirEntryActionView,
> {
    if is_dir {
        Some(DirEntryActionView::Visit(path))
    } else {
        match relative_path_of(path, base) {
            None => None,
            Some(relative) => match extension_of(path) {
                Some(e) => if is_project_extension(e) {
                    Some(DirEntryActionView::Read(path, relative))
                } else {
                    Some(DirEntryActionView::Skip)
                },
                None => Some(DirEntryActionView::Skip),
            },
        }
    }
}

impl Storage {
    /// Decides what to do with the directory entry at `path`.
    pub fn dir_entry_action(&self, path: String, is_dir: bool) -> (r: Result<
        DirEntryAction,
        NotUnderBaseDirectory,
    >)
        ensures
            match r {
                Ok(a) => dir_entry_outcome(self.base_directory@, path@, is_dir) == Some(a@),
                Err(e) => dir_entry_outcome(self.base_directory@, path@, is_dir) is None
                    && e.path@ == path@ && e.base_directory@ == self.base_directory@,
            },
    {
        if is_dir {
            return Ok(DirEntryAction::Visit { path });
        }
        let relative_path = match strip_base_directory(path.as_str(), self.base_directory.as_str()) {
            Some(r) => r,
            None => {
                return Err(
                    NotUnderBaseDirectory { path, base_directory: self.base_directory.clone() },
                );
            },
        };
        match path_extension(path.as_str()) {
            Some(e) => {
                proof {
                    reveal_strlit("md");
                    reveal_strlit("rhai");
                    reveal_strlit("toml");
                }
                if str_equal(e.as_str(), "md") || str_equal(e.as_str(), "rhai") || str_equal(
                    e.as_str(),
                    "toml",
                ) {
                    Ok(DirEntryAction::Read { path, relative_path })
                } else {
                    Ok(DirEntryAction::Skip)
                }
            },
            None => Ok(DirEntryAction::Skip),
        }
    }
}

/// The directories still to read, the last found first.
#[derive(Clone, Debug)]
pub struct DirectoryWalk {
    pub to_visit: Vec<String>,
}

impl DirectoryWalk {
    /// A walk that starts at `roots`, the last of them first.
    pub fn new(roots: Vec<String>) -> (w: Self)
        ensures
            w.to_visit@ == roots@,
    {
        DirectoryWalk { to_visit: roots }
    }

    /// The next directory to read: the one added last.
    pub fn next_directory(&mut self) -> (r: Option<String>)
        ensures
            old(self).to_visit@.len() == 0 ==> r is None && final(self).to_visit@ == old(
                self,
            ).to_visit@,
            old(self).to_visit@.len() > 0 ==> r == Some(old(self).to_visit@.last())
                && final(self).to_visit@ == old(self).to_visit@.drop_last(),
    {
        self.to_visit.pop()
    }

    /// Adds `directories`, found in a directory just read, to be read next.
    pub fn visit_later(&mut self, directories: Vec<String>)
        ensures
            final(self).to_visit@ == old(self).to_visit@ + directories@,
    {
        let mut i: usize = 0;
        let ghost start = self.to_visit@;
        while i < directories.len()
            invariant
                i <= directories.len(),
                self.to_visit@ == start + directories@.take(i as int),
            decreases directories.len() - i,
        {
            self.to_visit.push(directories[i].clone());
            assert(self.to_visit@ =~= start + directories@.take(i + 1));
            i = i + 1;
        }
        assert(directories@.take(directories.len() as int) =~= directories@);
    }
}

} // verus!
