//! The start pane of the earlier screen layout: what its Start button asks
//! for, from the store chosen, the files given and the server setting.

use vstd::prelude::*;

verus! {

/// The stores the start pane offers.
#[derive(Clone, Copy, Debug, PartialEq, Eq, Structural)]
pub enum PaneStoreKind {
    Memory,
    Sqlite,
}

/// The store the start pane starts with: memory, or an SQLite database
/// file with the directory of its attached files.
#[derive(Debug, PartialEq, Eq)]
pub enum PaneStore {
    Memory,
    Sqlite(String, String),
}

/// The error shown when the SQLite store lacks its database file or its
/// directory of files.
pub open spec fn missing_files_text() -> Seq<char> {
    "db file or path is not specified"@
}

/// What the Start button asks for: the store chosen, and the server
/// address when the server is enabled.  The SQLite store needs both its
/// database file and its directory of files; without either it is
/// refused with a message.
pub fn pane_start(kind: PaneStoreKind, db_file: Option<String>, file_path: Option<String>, server_enable: bool, server: &str) -> (r: Result<(PaneStore, Option<String>), String>)
    ensures
        kind == PaneStoreKind::Sqlite && (db_file is None || file_path is None)
            ==> (r matches Err(e) && e@ == missing_files_text()),
        !(kind == PaneStoreKind::Sqlite && (db_file is None || file_path is None)) ==> (r matches Ok(p) && {
            &&& (server_enable ==> (p.1 matches Some(s) && s@ == server@))
            &&& (!server_enable ==> p.1 is None)
            &&& kind == PaneStoreKind::Memory ==> p.0 is Memory
            &&& kind == PaneStoreKind::Sqlite ==> (p.0 matches PaneStore::Sqlite(d, f)
                && d@ == db_file.unwrap()@ && f@ == file_path.unwrap()@)
        }),
{
    let store = match kind {
        PaneStoreKind::Memory => PaneStore::Memory,
        PaneStoreKind::Sqlite => match (db_file, file_path) {
            (Some(d), Some(f)) => PaneStore::Sqlite(d, f),
            _ => {
                return Err(String::from_str("db file or path is not specified"));
            },
        },
    };
    let server = if server_enable {
        Some(String::from_str(server))
    } else {
        None
    };
    Ok((store, server))
}

} // verus!
