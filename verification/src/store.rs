use vstd::prelude::*;

use crate::config::LibraryConfig;
use crate::error::StartupError;

verus! {

/// The in-memory library store. Constructing it has no failure mode.
#[derive(Debug, PartialEq, Eq)]
pub struct MemoryLibrary {}

impl MemoryLibrary {
    pub fn new() -> MemoryLibrary {
        MemoryLibrary {  }
    }
}

/// The persistent library store, opened against a file path. This core
/// keeps only the identity of the opened store; its query logic belongs to
/// the store itself.
#[derive(Debug, PartialEq, Eq)]
pub struct SqliteLibrary {
    pub path: String,
}

/// The one concrete library store an application instance owns.
#[derive(Debug, PartialEq, Eq)]
pub enum Library {
    Memory(MemoryLibrary),
    Sqlite(SqliteLibrary),
}

/// What the store selector asks of the outside world: nothing for the
/// in-memory store, or one open of the persistent store at a path.
#[derive(Debug, PartialEq, Eq)]
pub enum StoreRequest {
    Memory,
    OpenSqlite { path: String },
}

/// Maps the configured variant to the store that must be constructed. An
/// absent library section selects the in-memory store.
pub fn store_request(cfg: &Option<LibraryConfig>) -> (r: StoreRequest)
    ensures
        cfg matches Some(LibraryConfig::SQLite { path: cp }) ==> (
        r matches StoreRequest::OpenSqlite { path: p } && p@ == cp@),
        (cfg is None || (cfg matches Some(l) && l is Memory)) ==> r is Memory,
{
    match cfg {
        Some(LibraryConfig::SQLite { path }) => StoreRequest::OpenSqlite { path: path.clone() },
        Some(LibraryConfig::Memory) => StoreRequest::Memory,
        None => StoreRequest::Memory,
    }
}

/// Finishes store selection: the in-memory variant always succeeds; the
/// persistent variant takes the outcome of opening the store file, and a
/// failed open is a fatal startup error. Exactly one store comes out.
pub fn select_store(
    request: StoreRequest,
    opened: Option<Result<SqliteLibrary, String>>,
) -> (r: Result<Library, StartupError>)
    requires
        request is OpenSqlite <==> opened is Some,
    ensures
        request is Memory ==> (r matches Ok(l) && l matches Library::Memory(_)),
        opened matches Some(Ok(s)) ==> (r matches Ok(l) && l == Library::Sqlite(s)),
        opened matches Some(Err(d)) ==> (r matches Err(e) && e matches StartupError::StoreOpen(m)
            && m@ == d@),
{
    match opened {
        None => Ok(Library::Memory(MemoryLibrary::new())),
        Some(Ok(store)) => Ok(Library::Sqlite(store)),
        Some(Err(detail)) => Err(StartupError::StoreOpen(detail)),
    }
}

} // verus!
