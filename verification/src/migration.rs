//! The migration that keeps the next-page URL with a cached response. An answer
//! that nothing changed sometimes omits the link, so it cannot be derived again
//! then.

use crate::text::joined;
use vstd::prelude::*;
use vstd::string::*;

verus! {

/// The databases that the mirror can be stored in; any other by its name.
#[derive(Debug)]
pub enum DatabaseBackend {
    Postgres,
    MySql,
    Sqlite,
    Other(String),
}

/// The statement that adds the column; the words of the error for a database
/// that there is none for.
pub fn up(backend: &DatabaseBackend) -> (out: Result<&'static str, String>)
    ensures
        match out {
            Ok(sql) => !(backend is Other) && sql@
                == "ALTER TABLE gm_http_cache ADD COLUMN next_page TEXT;"@,
            Err(words) => backend is Other && words@
                == "migration has no DDL for database backend "@ + backend->Other_0@,
        },
{
    match backend {
        DatabaseBackend::Other(name) => Err(
            joined("migration has no DDL for database backend ", name.as_str()),
        ),
        _ => Ok("ALTER TABLE gm_http_cache ADD COLUMN next_page TEXT;"),
    }
}

/// The statement that drops the column again.
pub fn down() -> (out: &'static str)
    ensures
        out@ == "ALTER TABLE gm_http_cache DROP COLUMN next_page;"@,
{
    "ALTER TABLE gm_http_cache DROP COLUMN next_page;"
}

} // verus!
