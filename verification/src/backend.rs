//! Trusted bindings to the embedded relational engine and to the filesystem.
//!
//! Everything here is believed rather than verified: each item states of the
//! outside call no more than the crate's own source shows, and the store's
//! verified logic is proved against these statements alone.

use vstd::prelude::*;
use vstd::string::StringSliceAdditionalSpecFns;

verus! {

/// A connection to the embedded relational engine: an open store file.
#[verifier::external_type_specification]
#[verifier::external_body]
pub struct ExConnection(sqlite3::Connection);

/// A prepared statement of the engine, borrowing its connection.
#[verifier::external_type_specification]
#[verifier::external_body]
pub struct ExStatement<'l>(sqlite3::Statement<'l>);

/// The state a prepared statement reaches after one evaluation step: a row
/// ready for reading, or the end of the statement.
#[verifier::external_type_specification]
pub struct ExState(sqlite3::State);

/// The engine's error value: an optional code and an optional message.
#[verifier::external_type_specification]
pub struct ExError(sqlite3::Error);

/// Relies on sqlite3::open: opens the database file at `path` in read-write
/// mode, creating it when absent; errs when it cannot be opened or created.
#[verifier::external_body]
pub(crate) fn open_connection(path: &str) -> (r: Result<sqlite3::Connection, sqlite3::Error>) {
    sqlite3::open(path)
}

/// Relies on sqlite3::Connection::execute: runs the given SQL text without
/// reading resulting rows; `Ok` when the engine accepted and completed it.
#[verifier::external_body]
pub(crate) fn execute_sql(connection: &sqlite3::Connection, sql: &str) -> (r: Result<
    (),
    sqlite3::Error,
>) {
    connection.execute(sql)
}

/// Relies on sqlite3::Connection::prepare: compiles the given SQL text into a
/// prepared statement without running it.
#[verifier::external_body]
pub(crate) fn prepare<'l>(connection: &'l sqlite3::Connection, sql: &str) -> (r: Result<
    sqlite3::Statement<'l>,
    sqlite3::Error,
>) {
    connection.prepare(sql)
}

/// Relies on sqlite3::Statement::bind for `&str`: binds the text to the
/// statement's parameter at index `i`. The leftmost parameter has index 1;
/// index 0 would trip the crate's debug assertion. The crate hands the
/// text's byte length to the engine's C interface as a 32-bit signed
/// integer, so a text of 2^31 bytes or more must stay out: its length would
/// wrap negative and the engine would read past the buffer.
#[verifier::external_body]
pub(crate) fn bind_text<'l>(
    statement: &mut sqlite3::Statement<'l>,
    i: usize,
    value: &str,
) -> (r: Result<(), sqlite3::Error>)
    requires
        1 <= i,
        value.spec_bytes().len() < 0x8000_0000,
{
    statement.bind(i, value)
}

/// Relies on sqlite3::Statement::next: runs one evaluation step; `Row` when a
/// row is ready for reading, `Done` when the statement has been evaluated
/// entirely.
#[verifier::external_body]
pub(crate) fn step<'l>(statement: &mut sqlite3::Statement<'l>) -> (r: Result<
    sqlite3::State,
    sqlite3::Error,
>) {
    statement.next()
}

/// Relies on sqlite3::Statement::read for `i64`: reads the current row's
/// column at index `i` as an integer. The leftmost column has index 0.
#[verifier::external_body]
pub(crate) fn read_integer<'l>(statement: &sqlite3::Statement<'l>, i: usize) -> (r: Result<
    i64,
    sqlite3::Error,
>) {
    statement.read::<i64>(i)
}

/// Relies on fs_err::remove_file: removes the file at `path` from the
/// filesystem; errs when the file is absent or cannot be removed.
#[verifier::external_body]
pub(crate) fn remove_store_file(path: &str) -> (r: Result<(), String>) {
    match fs_err::remove_file(path) {
        Ok(()) => Ok(()),
        Err(e) => Err(e.to_string()),
    }
}

} // verus!
