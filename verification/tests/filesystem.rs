use poet::document_error_collection::DocumentErrorCollection;
use poet::filesystem::file_entry_stub::FileEntryStub;
use poet::filesystem::memory::Memory;
use poet::filesystem::memory::ReadFileContentsResult;
use poet::filesystem::storage::DirEntryAction;
use poet::filesystem::storage::DirectoryWalk;
use poet::filesystem::storage::Storage;
use poet::filesystem_http_route_index::FilesystemHttpRouteIndex;
use poet::filesystem_http_route_index::UnexpectedFilename;

fn file_entry(relative_path: &str) -> FileEntryStub {
    FileEntryStub {
        contents: String::new(),
        relative_path: relative_path.to_string(),
    }
}

#[test]
fn registers_root_index_under_empty_and_named_routes() -> Result<(), UnexpectedFilename> {
    let mut index = FilesystemHttpRouteIndex::new();

    index.register_file(file_entry("index.html"))?;

    assert_eq!(
        index
            .get_file_entry_for_path("")
            .map(|entry| entry.relative_path),
        Some("index.html".to_string())
    );
    assert!(index.get_file_entry_for_path("index.html").is_some());

    Ok(())
}

#[test]
fn registers_nested_index_under_directory_and_full_path() -> Result<(), UnexpectedFilename> {
    let mut index = FilesystemHttpRouteIndex::new();

    index.register_file(file_entry("docs/index.html"))?;

    assert!(index.get_file_entry_for_path("docs/index.html").is_some());
    assert!(index.get_file_entry_for_path("docs/").is_some());

    Ok(())
}

#[test]
fn registers_sitemap_under_its_own_path() -> Result<(), UnexpectedFilename> {
    let mut index = FilesystemHttpRouteIndex::new();

    index.register_file(file_entry("sitemap.xml"))?;

    assert!(index.get_file_entry_for_path("sitemap.xml").is_some());

    Ok(())
}

#[test]
fn rejects_unexpected_filename() {
    let mut index = FilesystemHttpRouteIndex::new();

    assert!(index.register_file(file_entry("page.html")).is_err());
}

#[test]
fn returns_none_for_unregistered_path() {
    let index = FilesystemHttpRouteIndex::new();

    assert!(index.get_file_entry_for_path("missing").is_none());
}

#[test]
fn index_of_files_stops_at_the_first_unexpected_one() {
    assert!(FilesystemHttpRouteIndex::from_files(vec![
        file_entry("index.html"),
        file_entry("blog/index.html")
    ])
    .is_ok());
    match FilesystemHttpRouteIndex::from_files(vec![file_entry("index.html"), file_entry("a.css")]) {
        Err(e) => assert_eq!(e.filename, "a.css"),
        Ok(_) => panic!("a.css has no route"),
    }
}

#[test]
fn memory_reads_back_what_was_written() {
    let mut memory = Memory::new();

    assert!(matches!(
        memory.read_file_contents("content/guide.md"),
        ReadFileContentsResult::NotFound
    ));

    memory.set_file_contents_sync("content/guide.md", "first");
    memory.set_file_contents_sync("content/about.md", "about");
    memory.set_file_contents_sync("content/guide.md", "second");

    match memory.read_file_contents("content/guide.md") {
        ReadFileContentsResult::Found { contents } => assert_eq!(contents, "second"),
        other => panic!("unexpected {other:?}"),
    }

    let files = memory.read_project_files();
    let paths: Vec<&str> = files.iter().map(|f| f.relative_path.as_str()).collect();
    assert_eq!(paths, vec!["content/about.md", "content/guide.md"]);
    assert_eq!(files[0].contents, "about");
}

#[test]
fn storage_reads_project_files_and_visits_directories() {
    let storage = Storage {
        base_directory: "/site".to_string(),
    };

    match storage.dir_entry_action("/site/content".to_string(), true) {
        Ok(DirEntryAction::Visit { path }) => assert_eq!(path, "/site/content"),
        other => panic!("unexpected {other:?}"),
    }
    match storage.dir_entry_action("/site/content/guide.md".to_string(), false) {
        Ok(DirEntryAction::Read {
            path,
            relative_path,
        }) => {
            assert_eq!(path, "/site/content/guide.md");
            assert_eq!(relative_path, "content/guide.md");
        }
        other => panic!("unexpected {other:?}"),
    }
    assert!(matches!(
        storage.dir_entry_action("/site/shortcodes/Layout.rhai".to_string(), false),
        Ok(DirEntryAction::Read { .. })
    ));
    assert!(matches!(
        storage.dir_entry_action("/site/blogs/blog.toml".to_string(), false),
        Ok(DirEntryAction::Read { .. })
    ));
    assert!(matches!(
        storage.dir_entry_action("/site/content/logo.png".to_string(), false),
        Ok(DirEntryAction::Skip)
    ));
    assert!(matches!(
        storage.dir_entry_action("/site/content/README".to_string(), false),
        Ok(DirEntryAction::Skip)
    ));
    match storage.dir_entry_action("/elsewhere/guide.md".to_string(), false) {
        Err(e) => {
            assert_eq!(e.path, "/elsewhere/guide.md");
            assert_eq!(e.base_directory, "/site");
        }
        other => panic!("unexpected {other:?}"),
    }
}

#[test]
fn directory_walk_reads_the_last_found_first() {
    let mut walk = DirectoryWalk::new(vec!["a".to_string(), "b".to_string()]);

    assert_eq!(walk.next_directory(), Some("b".to_string()));
    walk.visit_later(vec!["b/c".to_string(), "b/d".to_string()]);
    assert_eq!(walk.next_directory(), Some("b/d".to_string()));
    assert_eq!(walk.next_directory(), Some("b/c".to_string()));
    assert_eq!(walk.next_directory(), Some("a".to_string()));
    assert_eq!(walk.next_directory(), None);
}

#[test]
fn is_empty_until_an_error_is_registered() {
    let mut collection = DocumentErrorCollection::new();

    assert!(collection.is_empty());

    collection.register_error("guide".to_string(), "boom".to_string());

    assert!(!collection.is_empty());
}

#[test]
fn display_reports_count_and_sorts_errors_by_basename() {
    let mut collection = DocumentErrorCollection::new();

    collection.register_error("beta".to_string(), "second".to_string());
    collection.register_error("alpha".to_string(), "first".to_string());

    assert_eq!(
        collection.render(),
        "Multiple errors occurred (2 total):\nalpha:\n- first\n\nbeta:\n- second\n\n"
    );
}

#[test]
fn errors_of_one_document_are_reported_in_the_order_met() {
    let mut collection = DocumentErrorCollection::new();

    collection.register_error("doc".to_string(), "one".to_string());
    collection.register_error("doc".to_string(), "two".to_string());

    assert_eq!(
        collection.render(),
        "Multiple errors occurred (1 total):\ndoc:\n- one\n\ndoc:\n- two\n\n"
    );
}
