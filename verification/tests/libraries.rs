use icie_judge::library::{FileEntry, LibraryCache, LibraryError, Piece};

fn piece(id: &str, modified: u64, code: &str) -> Piece {
    Piece { id: id.to_string(), modified, code: code.to_string() }
}

fn entry(id: &str, extension: Option<&str>, modified: u64) -> FileEntry {
    FileEntry { id: id.to_string(), extension: extension.map(|e| e.to_string()), modified }
}

#[test]
fn a_new_cache_has_seen_nothing() {
    let cache = LibraryCache::new();
    assert!(cache.is_empty());
    assert_eq!(cache.directory(), "");
    assert!(!cache.contains("dsu"));
}

#[test]
fn no_directory_configured() {
    let cache = LibraryCache::new();
    assert_eq!(cache.get_directory("", false), Err(LibraryError::NotConfigured));
    assert_eq!(cache.get_directory("", true), Err(LibraryError::NotConfigured));
}

#[test]
fn a_directory_that_is_not_there() {
    let cache = LibraryCache::new();
    assert_eq!(
        cache.get_directory("/home/a/lib", false),
        Err(LibraryError::MissingDirectory("/home/a/lib".to_string()))
    );
    assert_eq!(cache.get_directory("/home/a/lib", true), Ok("/home/a/lib".to_string()));
}

#[test]
fn messages_are_worded_for_the_user() {
    assert_eq!(LibraryError::NotConfigured.message(), "library not found");
    assert_eq!(LibraryError::Empty.message(), "library is empty");
    assert_eq!(
        LibraryError::MissingDirectory("/lib".to_string()).message(),
        "library directory /lib does not exist"
    );
}

#[test]
fn only_cpp_files_hold_pieces() {
    let cache = LibraryCache::new();
    assert!(cache.is_piece_file(Some("cpp")));
    assert!(!cache.is_piece_file(Some("hpp")));
    assert!(!cache.is_piece_file(Some("CPP")));
    assert!(!cache.is_piece_file(Some("")));
    assert!(!cache.is_piece_file(None));
}

#[test]
fn an_empty_library_is_an_error() {
    let mut cache = LibraryCache::new();
    assert_eq!(cache.update("/lib".to_string(), vec![]), Err(LibraryError::Empty));
    assert_eq!(cache.directory(), "/lib");
    assert!(cache.is_empty());
}

#[test]
fn update_installs_the_pieces() {
    let mut cache = LibraryCache::new();
    assert_eq!(
        cache.update("/lib".to_string(), vec![piece("dsu", 1, "a"), piece("graph/bfs", 2, "b")]),
        Ok(())
    );
    assert_eq!(cache.directory(), "/lib");
    assert!(cache.contains("dsu"));
    assert!(cache.contains("graph/bfs"));
    assert!(!cache.contains("bfs"));
    assert!(!cache.is_empty());
}

#[test]
fn update_replaces_what_was_there() {
    let mut cache = LibraryCache::new();
    cache.update("/lib".to_string(), vec![piece("dsu", 1, "a")]).unwrap();
    cache.update("/lib".to_string(), vec![piece("bfs", 1, "b")]).unwrap();
    assert!(!cache.contains("dsu"));
    assert!(cache.contains("bfs"));
}

#[test]
fn of_two_pieces_with_one_id_the_later_stays() {
    let mut cache = LibraryCache::new();
    cache.update("/lib".to_string(), vec![piece("dsu", 1, "old"), piece("dsu", 2, "new")]).unwrap();
    assert_eq!(cache.maybe_load_piece("dsu", 2), Some(piece("dsu", 2, "new")));
}

#[test]
fn an_unchanged_piece_is_reused() {
    let mut cache = LibraryCache::new();
    cache.update("/lib".to_string(), vec![piece("dsu", 10, "a")]).unwrap();
    assert_eq!(cache.maybe_load_piece("dsu", 10), Some(piece("dsu", 10, "a")));
    assert!(!cache.contains("dsu"));
    assert_eq!(cache.maybe_load_piece("dsu", 10), None);
}

#[test]
fn a_changed_piece_is_dropped() {
    let mut cache = LibraryCache::new();
    cache.update("/lib".to_string(), vec![piece("dsu", 10, "a"), piece("bfs", 5, "b")]).unwrap();
    assert_eq!(cache.maybe_load_piece("dsu", 11), None);
    assert!(!cache.contains("dsu"));
    assert!(cache.contains("bfs"));
}

#[test]
fn an_unknown_piece_has_to_be_read() {
    let mut cache = LibraryCache::new();
    cache.update("/lib".to_string(), vec![piece("dsu", 10, "a")]).unwrap();
    assert_eq!(cache.maybe_load_piece("bfs", 10), None);
    assert!(cache.contains("dsu"));
}

#[test]
fn entering_another_directory_forgets_the_pieces() {
    let mut cache = LibraryCache::new();
    cache.update("/lib".to_string(), vec![piece("dsu", 10, "a")]).unwrap();
    cache.enter("/lib");
    assert!(cache.contains("dsu"));
    cache.enter("/other");
    assert!(cache.is_empty());
    assert_eq!(cache.directory(), "/lib");
}

#[test]
fn scan_tells_what_to_reuse_and_what_to_read() {
    let mut cache = LibraryCache::new();
    cache
        .update(
            "/lib".to_string(),
            vec![piece("dsu", 10, "a"), piece("bfs", 5, "b"), piece("gone", 1, "c")],
        )
        .unwrap();
    let listing = vec![
        entry("dsu", Some("cpp"), 10),
        entry("notes", Some("md"), 3),
        entry("bfs", Some("cpp"), 6),
        entry("new", Some("cpp"), 7),
        entry("Makefile", None, 7),
    ];
    let scan = cache.scan("/lib", &listing);
    assert_eq!(scan.reused, vec![piece("dsu", 10, "a")]);
    assert_eq!(scan.wanted, vec![entry("bfs", Some("cpp"), 6), entry("new", Some("cpp"), 7)]);
    assert!(cache.contains("gone"));
    assert!(!cache.contains("dsu"));
    assert!(!cache.contains("bfs"));
}

#[test]
fn scan_of_another_directory_reuses_nothing() {
    let mut cache = LibraryCache::new();
    cache.update("/lib".to_string(), vec![piece("dsu", 10, "a")]).unwrap();
    let scan = cache.scan("/other", &vec![entry("dsu", Some("cpp"), 10)]);
    assert!(scan.reused.is_empty());
    assert_eq!(scan.wanted, vec![entry("dsu", Some("cpp"), 10)]);
    assert!(cache.is_empty());
}

#[test]
fn a_file_listed_twice_is_reused_once() {
    let mut cache = LibraryCache::new();
    cache.update("/lib".to_string(), vec![piece("dsu", 10, "a")]).unwrap();
    let listing = vec![entry("dsu", Some("cpp"), 10), entry("dsu", Some("cpp"), 10)];
    let scan = cache.scan("/lib", &listing);
    assert_eq!(scan.reused, vec![piece("dsu", 10, "a")]);
    assert_eq!(scan.wanted, vec![entry("dsu", Some("cpp"), 10)]);
}

#[test]
fn a_duplicate_piece_is_equal() {
    let original = piece("graph/bfs", 7, "int bfs();");
    assert_eq!(original.duplicate(), original);
}

#[test]
fn a_reused_piece_has_the_id_asked_for() {
    let mut cache = LibraryCache::new();
    cache.update("/lib".to_string(), vec![piece("a", 1, "x"), piece("b", 1, "y")]).unwrap();
    assert_eq!(cache.maybe_load_piece("b", 1).map(|p| p.id), Some("b".to_string()));
    let scan = cache.scan("/lib", &vec![entry("a", Some("cpp"), 1)]);
    assert_eq!(scan.reused.iter().map(|p| p.id.as_str()).collect::<Vec<_>>(), vec!["a"]);
}
