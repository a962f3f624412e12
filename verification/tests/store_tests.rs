use odin_host::{
    select_store, store_request, LibraryConfig, Library, SqliteLibrary, StartupError, StoreRequest,
};

#[test]
fn absent_library_section_selects_memory() {
    let r = store_request(&None);
    assert_eq!(r, StoreRequest::Memory);
    let store = select_store(r, None).unwrap();
    assert!(matches!(store, Library::Memory(_)));
}

#[test]
fn memory_variant_selects_memory() {
    let r = store_request(&Some(LibraryConfig::Memory));
    assert_eq!(r, StoreRequest::Memory);
    let store = select_store(r, None).unwrap();
    assert!(matches!(store, Library::Memory(_)));
}

#[test]
fn sqlite_variant_requests_open_at_path() {
    let r = store_request(&Some(LibraryConfig::SQLite { path: "library.db".to_string() }));
    assert_eq!(r, StoreRequest::OpenSqlite { path: "library.db".to_string() });
}

#[test]
fn sqlite_open_success_selects_persistent_store() {
    let request = StoreRequest::OpenSqlite { path: "library.db".to_string() };
    let opened = Some(Ok(SqliteLibrary { path: "library.db".to_string() }));
    let store = select_store(request, opened).unwrap();
    assert_eq!(store, Library::Sqlite(SqliteLibrary { path: "library.db".to_string() }));
}

#[test]
fn sqlite_open_failure_is_fatal() {
    // a nonexistent or corrupt store file aborts startup before any service
    let request = StoreRequest::OpenSqlite { path: "missing.db".to_string() };
    let opened = Some(Err("unable to open database file".to_string()));
    match select_store(request, opened) {
        Err(StartupError::StoreOpen(d)) => assert_eq!(d, "unable to open database file"),
        _ => panic!("a failed open must be a fatal startup error"),
    }
}
