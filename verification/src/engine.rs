//! Trusted boundary to the external query engine (SQLite through rusqlite)
//! and to the wall-clock instrumentation. Everything here is a declaration
//! of an outside type or a thin wrapper around one outside call; the rest
//! of the crate is verified against these contracts.

use vstd::prelude::*;

verus! {

#[verifier::external_type_specification]
#[verifier::external_body]
pub struct ExConnection(rusqlite::Connection);

#[verifier::external_type_specification]
#[verifier::external_body]
pub struct ExRusqliteError(rusqlite::Error);

#[verifier::external_type_specification]
#[verifier::external_body]
pub struct ExInstant(std::time::Instant);

/// Relies on rusqlite::Connection::open_in_memory: opens a fresh, empty
/// in-memory database and returns a handle to it.
#[verifier::external_body]
pub(crate) fn open_in_memory() -> Result<rusqlite::Connection, rusqlite::Error> {
    rusqlite::Connection::open_in_memory()
}

/// Relies on rusqlite::vtab::csvtab::load_module: registers the read-only
/// CSV virtual-table module on the connection, so that later
/// CREATE VIRTUAL TABLE ... USING csv(...) statements are understood.
#[verifier::external_body]
pub(crate) fn load_csv_module(conn: &rusqlite::Connection) -> Result<(), rusqlite::Error> {
    rusqlite::vtab::csvtab::load_module(conn)
}

/// Relies on rusqlite::Connection::execute_batch: runs the given SQL
/// statement(s) against the connection, returning the engine's error if
/// any statement fails.
#[verifier::external_body]
pub(crate) fn execute_batch(conn: &rusqlite::Connection, sql: &str) -> Result<
    (),
    rusqlite::Error,
> {
    conn.execute_batch(sql)
}

/// Relies on rusqlite::Connection::prepare, Statement::query, Rows::next
/// and Row::get. Prepares the query, then lazily pulls only the first
/// result row and reads its first column as an integer; no further rows
/// are produced. The four calls share one body because the statement, its
/// row cursor and the row borrow from one another and cannot outlive this
/// call. Returns None when the query yields no row at all.
#[verifier::external_body]
pub(crate) fn query_first_i64(conn: &rusqlite::Connection, sql: &str) -> Result<
    Option<i64>,
    rusqlite::Error,
> {
    let mut stmt = conn.prepare(sql)?;
    let mut rows = stmt.query([])?;
    match rows.next()? {
        Some(row) => Ok(Some(row.get(0)?)),
        None => Ok(None),
    }
}

/// Relies on std::time::Instant::now: an opaque timestamp of the moment of
/// the call. Nothing is assumed of its value.
#[verifier::external_body]
pub(crate) fn instant_now() -> std::time::Instant {
    std::time::Instant::now()
}

/// Relies on std::time::Instant::elapsed: the wall-clock time that has
/// passed since the timestamp was taken. Nothing is assumed of its value.
#[verifier::external_body]
pub(crate) fn instant_elapsed(t: &std::time::Instant) -> std::time::Duration {
    t.elapsed()
}

/// Relies on std::time::Duration::as_secs: the whole-second part of the
/// duration.
#[verifier::external_body]
pub(crate) fn duration_secs(d: &std::time::Duration) -> u64 {
    d.as_secs()
}

} // verus!
