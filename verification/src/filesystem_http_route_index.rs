//! The routes under which a generated site's files are served.

use vstd::prelude::*;

use crate::filesystem::file_entry_stub::FileEntryStub;
use crate::mcp::name_index::NameIndex;
use crate::text::chars_of;
use crate::text::ends_with;
use crate::text::has_suffix;
use crate::text::str_equal;
use crate::text::string_from_range;

verus! {

/// A file that the site may not serve.
#[derive(Debug)]
pub struct UnexpectedFilename {
    pub filename: String,
}

/// The routes of the file at `filename`: a directory's `index.html` under its
/// own path and under its directory's path (ending in `/`); the root
/// `index.html` under the empty route and its own; `sitemap.xml` under its
/// own. Any other file has none.
pub open spec fn routes_of(filename: Seq<char>) -> Option<Seq<Seq<char>>> {
    if has_suffix(filename, "/index.html"@) {
        Some(seq![filename, filename.subrange(0, filename.len() - "index.html"@.len())])
    } else if filename == "index.html"@ {
        Some(seq![Seq::empty(), "index.html"@])
    } else if filename == "sitemap.xml"@ {
        Some(seq![filename])
    } else {
        None
    }
}

/// `after` serves `file` under each of `keys`, and under every other route
/// what `before` served.
pub open spec fn serves_under(
    before: Map<Seq<char>, FileEntryStub>,
    after: Map<Seq<char>, FileEntryStub>,
    keys: Seq<Seq<char>>,
    file: FileEntryStub,
) -> bool {
    &&& forall|i: int|
        0 <= i < keys.len() ==> after.contains_key(#[trigger] keys[i]) && after[keys[i]] == file
    &&& forall|k: Seq<char>|
        !keys.contains(k) ==> (after.contains_key(k) == before.contains_key(k)) && (
        before.contains_key(k) ==> #[trigger] after[k] == before[k])
}

/// Inserting `file` under `a` and then under `b` serves it under both and
/// leaves every other route as it was.
proof fn lemma_serves_under_two(
    before: Map<Seq<char>, FileEntryStub>,
    after: Map<Seq<char>, FileEntryStub>,
    a: Seq<char>,
    b: Seq<char>,
    file: FileEntryStub,
)
    requires
        after == before.insert(a, file).insert(b, file),
    ensures
        serves_under(before, after, seq![a, b], file),
{
    let keys = seq![a, b];
    assert forall|k: Seq<char>| !keys.contains(k) implies k != a && k != b by {
        if k == a {
            assert(keys[0] == a);
        }
        if k == b {
            assert(keys[1] == b);
        }
    }
}

/// The files of a generated site, by route.
pub struct FilesystemHttpRouteIndex {
    routes: NameIndex<FileEntryStub>,
}

impl FilesystemHttpRouteIndex {
    /// The file served under each route.
    pub closed spec fn routes(&self) -> Map<Seq<char>, FileEntryStub> {
        self.routes.as_map()
    }

    /// An index with no routes.
    pub fn new() -> (r: Self)
        ensures
            r.routes() == Map::<Seq<char>, FileEntryStub>::empty(),
    {
        let r = FilesystemHttpRouteIndex { routes: NameIndex::new() };
        assert(r.routes() =~= Map::<Seq<char>, FileEntryStub>::empty());
        r
    }

    /// The file served under `path`.
    pub fn get_file_entry_for_path(&self, path: &str) -> (r: Option<FileEntryStub>)
        ensures
            match r {
                Some(f) => self.routes().contains_key(path@) && f == self.routes()[path@],
                None => !self.routes().contains_key(path@),
            },
    {
        match self.routes.get(path) {
            Some(f) => Some(f.copy()),
            None => None,
        }
    }

    /// Serves `file` under its routes; a file that has none is refused and
    /// changes nothing.
    pub fn register_file(&mut self, file: FileEntryStub) -> (r: Result<(), UnexpectedFilename>)
        ensures
            r is Ok <==> routes_of(file.relative_path@) is Some,
            r matches Err(e) ==> e.filename@ == file.relative_path@ && final(self).routes() == old(
                self,
            ).routes(),
            r is Ok ==> serves_under(
                old(self).routes(),
                final(self).routes(),
                routes_of(file.relative_path@)->0,
                file,
            ),
    {
        proof {
            reveal_strlit("/index.html");
            reveal_strlit("index.html");
            reveal_strlit("sitemap.xml");
        }
        let filename = file.relative_path.clone();
        let chars = chars_of(filename.as_str());
        let suffix = chars_of("/index.html");
        if ends_with(&chars, &suffix) {
            let stripped = string_from_range(&chars, 0, chars.len() - 10);
            let ghost keys = seq![filename@, stripped@];
            assert(routes_of(file.relative_path@) == Some(keys));
            let ghost before = self.routes();
            let ghost f = file;
            let copy = file.copy();
            self.routes.insert(filename, copy);
            self.routes.insert(stripped, file);
            proof {
                lemma_serves_under_two(before, self.routes(), keys[0], keys[1], f);
            }
            Ok(())
        } else if str_equal(filename.as_str(), "index.html") {
            let ghost before = self.routes();
            let ghost f = file;
            let copy = file.copy();
            let root = String::new();
            let ghost keys = seq![root@, filename@];
            assert(routes_of(file.relative_path@) == Some(keys));
            self.routes.insert(root, copy);
            self.routes.insert(filename, file);
            proof {
                lemma_serves_under_two(before, self.routes(), keys[0], keys[1], f);
            }
            Ok(())
        } else if str_equal(filename.as_str(), "sitemap.xml") {
            let ghost before = self.routes();
            let ghost keys = seq![filename@];
            assert(routes_of(file.relative_path@) == Some(keys));
            self.routes.insert(filename, file);
            proof {
                assert forall|k: Seq<char>| !keys.contains(k) implies k != keys[0] by {
                    assert(keys[0] == keys[0]);
                    if k == keys[0] {
                        assert(keys.contains(keys[0]));
                    }
                }
            }
            Ok(())
        } else {
            Err(UnexpectedFilename { filename })
        }
    }

    /// The index of the files `files`; the first file that has no routes is
    /// refused.
    pub fn from_files(files: Vec<FileEntryStub>) -> (r: Result<Self, UnexpectedFilename>)
        ensures
            r is Ok <==> forall|i: int|
                0 <= i < files@.len() ==> routes_of((#[trigger] files@[i]).relative_path@) is Some,
    {
        let mut index = Self::new();
        let mut i: usize = 0;
        while i < files.len()
            invariant
                i <= files.len(),
                forall|k: int| 0 <= k < i ==> routes_of((#[trigger] files@[k]).relative_path@) is Some,
            decreases files.len() - i,
        {
            let file = files[i].copy();
            match index.register_file(file) {
                Ok(()) => {},
                Err(e) => {
                    return Err(e);
                },
            }
            i = i + 1;
        }
        Ok(index)
    }
}

} // verus!
