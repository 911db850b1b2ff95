//! The log store: connection ownership, schema application, the write path,
//! and destruction of the backing file.

use vstd::prelude::*;

use crate::backend;
use crate::config::{resolve_path, spec_resolved_path, StoreConfig};
use crate::error::StoreError;
use crate::schema::get_schema;

verus! {

/// A single immutable record: one observed log line. All five fields are
/// required; none is validated, parsed or bounded by the store.
pub struct LogEntry {
    /// Timestamp, as sortable text; accepted as opaque.
    pub date: String,
    /// Identifier of the process, host or service that produced the entry.
    pub emitter: String,
    /// Identifier of the originating channel.
    pub source: String,
    /// Sub-system or service name within the emitter.
    pub component: String,
    /// The raw log line content.
    pub entry: String,
}

/// The abstract state of a store value: where its backing file lives, and
/// whether the store has already been destroyed.
pub struct StoreView {
    pub path: Seq<char>,
    pub destroyed: bool,
}

/// The log store. One store value exclusively owns one connection to its
/// backing file for its whole lifetime.
pub struct DataStore {
    /// The path to the backing database file.
    filename: String,
    /// The connection to the database.
    connection: sqlite3::Connection,
    /// Whether `destroy` has removed the backing file.
    destroyed: bool,
}

impl View for DataStore {
    type V = StoreView;

    closed spec fn view(&self) -> StoreView {
        StoreView { path: self.filename@, destroyed: self.destroyed }
    }
}

/// The diagnostic text of an engine error: its message when it carries one,
/// empty otherwise.
pub open spec fn spec_engine_diagnostic(e: sqlite3::Error) -> Seq<char> {
    match e.message {
        Some(m) => m@,
        None => Seq::empty(),
    }
}

/// Extracts the diagnostic text of an engine error.
fn diagnostic_of(e: sqlite3::Error) -> (s: String)
    ensures
        s@ == spec_engine_diagnostic(e),
{
    match e.message {
        Some(m) => m,
        None => String::new(),
    }
}

/// The fixed text of the single-row insert statement: five positional
/// placeholders, one per field of an entry. Entry content is only ever bound
/// to a placeholder; it never becomes part of the SQL text.
pub open spec fn spec_insert_sql() -> Seq<char> {
    "INSERT INTO log (date, emitter, source, component, entry) VALUES (?, ?, ?, ?, ?);"@
}

/// Returns the fixed text of the single-row insert statement.
fn insert_sql() -> (sql: &'static str)
    ensures
        sql@ == spec_insert_sql(),
{
    "INSERT INTO log (date, emitter, source, component, entry) VALUES (?, ?, ?, ?, ?);"
}

/// Converts the change count the engine reported into the count the write
/// path returns: a non-negative count passes through unchanged; a negative
/// one, which the engine never reports of a well-formed count query, is a
/// write failure.
pub fn convert_count(count: i64) -> (r: Result<u64, StoreError>)
    ensures
        count >= 0 ==> (r matches Ok(c) && c == count),
        count < 0 ==> (r matches Err(e) && e is WriteFailed),
{
    if count >= 0 {
        Ok(count as u64)
    } else {
        Err(StoreError::WriteFailed(String::from_str("negative change count")))
    }
}

/// Accepts only the change count a single-entry insert owes: a count of
/// exactly 1 passes through; any other count is a write failure.
pub fn single_row_count(count: u64) -> (r: Result<u64, StoreError>)
    ensures
        count == 1 ==> (r matches Ok(c) && c == 1),
        count != 1 ==> (r matches Err(e) && e is WriteFailed),
{
    if count == 1 {
        Ok(count)
    } else {
        Err(StoreError::WriteFailed(String::from_str(
            "unexpected row count for a single-entry insert",
        )))
    }
}

/// Opens a connection to the database at the location the configuration
/// resolves to, creating the file when it is absent.
fn get_connection(config: &StoreConfig) -> (r: Result<sqlite3::Connection, StoreError>)
    ensures
        r matches Err(e) ==> e is ConnectionFailed,
{
    let path = resolve_path(config);
    match backend::open_connection(path.as_str()) {
        Ok(connection) => Ok(connection),
        Err(e) => Err(StoreError::ConnectionFailed(diagnostic_of(e))),
    }
}

impl DataStore {
    /// Initializes a new store: resolves the backing file's location from the
    /// configuration, opens the file (creating it when absent), and applies
    /// the schema. May create a new file on disk.
    pub fn new(config: &StoreConfig) -> (r: Result<DataStore, StoreError>)
        ensures
            r matches Ok(store) ==> store@.path == spec_resolved_path(*config)
                && !store@.destroyed,
            r matches Err(e) ==> e is ConnectionFailed || e is SchemaInitFailed,
    {
        let path = resolve_path(config);
        match get_connection(config) {
            Ok(connection) => {
                let mut store = DataStore {
                    filename: path,
                    connection: connection,
                    destroyed: false,
                };
                match store.init() {
                    Ok(()) => Ok(store),
                    Err(e) => Err(e),
                }
            },
            Err(e) => Err(e),
        }
    }

    /// Applies the schema to the store's connection. The guarded form of the
    /// schema makes this a no-op on an already-initialized store.
    pub fn init(&mut self) -> (r: Result<(), StoreError>)
        ensures
            final(self)@ == old(self)@,
            r matches Err(e) ==> e is SchemaInitFailed,
    {
        match backend::execute_sql(&self.connection, get_schema()) {
            Ok(()) => Ok(()),
            Err(e) => Err(StoreError::SchemaInitFailed(diagnostic_of(e))),
        }
    }

    /// Executes a prepared statement: compiles `query`, in which each
    /// parameter is a positional placeholder, binds the parameter texts in
    /// order, runs the statement, and returns the number of rows it changed.
    pub fn exec_prepared_statement(&self, query: &str, parameters: &Vec<String>) -> (r: Result<
        u64,
        StoreError,
    >)
        ensures
            r matches Err(e) ==> e is WriteFailed,
    {
        let mut statement = match backend::prepare(&self.connection, query) {
            Ok(statement) => statement,
            Err(e) => {
                return Err(StoreError::WriteFailed(diagnostic_of(e)));
            },
        };
        let mut i: usize = 0;
        while i < parameters.len()
            invariant
                i <= parameters.len(),
            decreases parameters.len() - i,
        {
            let parameter = parameters[i].as_str();
            if parameter.as_bytes().len() >= 0x8000_0000 {
                // The engine's C interface takes the text's byte length as a
                // 32-bit signed integer; an oversize text must not reach it.
                return Err(StoreError::WriteFailed(String::from_str(
                    "parameter text too long to bind",
                )));
            }
            match backend::bind_text(&mut statement, i + 1, parameter) {
                Ok(()) => {},
                Err(e) => {
                    return Err(StoreError::WriteFailed(diagnostic_of(e)));
                },
            }
            i = i + 1;
        }
        match backend::step(&mut statement) {
            Ok(state) => self.finish_update(state),
            Err(e) => Err(StoreError::WriteFailed(diagnostic_of(e))),
        }
    }

    /// Decides the write path's outcome from the state an update statement
    /// reached: a statement that ran to its end yields the engine's change
    /// count; one that yields a row is no update, so it is a write failure.
    pub fn finish_update(&self, state: sqlite3::State) -> (r: Result<u64, StoreError>)
        ensures
            state is Row ==> (r matches Err(e) && e is WriteFailed),
            r matches Err(e) ==> e is WriteFailed,
    {
        match state {
            sqlite3::State::Done => self.count_changes(),
            sqlite3::State::Row => Err(
                StoreError::WriteFailed(String::from_str("update statement yielded a row")),
            ),
        }
    }

    /// Asks the engine how many rows the most recent statement on this
    /// connection changed.
    fn count_changes(&self) -> (r: Result<u64, StoreError>)
        ensures
            r matches Err(e) ==> e is WriteFailed,
    {
        let mut statement = match backend::prepare(&self.connection, "SELECT changes();") {
            Ok(statement) => statement,
            Err(e) => {
                return Err(StoreError::WriteFailed(diagnostic_of(e)));
            },
        };
        match backend::step(&mut statement) {
            Ok(sqlite3::State::Row) => {},
            Ok(sqlite3::State::Done) => {
                return Err(StoreError::WriteFailed(String::from_str("change count query yielded no row")));
            },
            Err(e) => {
                return Err(StoreError::WriteFailed(diagnostic_of(e)));
            },
        }
        match backend::read_integer(&statement, 0) {
            Ok(count) => convert_count(count),
            Err(e) => Err(StoreError::WriteFailed(diagnostic_of(e))),
        }
    }

    /// Inserts one entry into the log, binding the five fields positionally.
    /// A successful single-entry insert changes exactly one row, and the
    /// returned count says so; any other count, and any engine failure, is a
    /// `WriteFailed`.
    pub fn insert(&self, entry: LogEntry) -> (r: Result<u64, StoreError>)
        ensures
            r matches Ok(count) ==> count == 1,
            r matches Err(e) ==> e is WriteFailed,
    {
        let mut parameters: Vec<String> = Vec::new();
        parameters.push(entry.date);
        parameters.push(entry.emitter);
        parameters.push(entry.source);
        parameters.push(entry.component);
        parameters.push(entry.entry);
        match self.exec_prepared_statement(insert_sql(), &parameters) {
            Ok(count) => single_row_count(count),
            Err(e) => Err(e),
        }
    }

    /// Destroys the store by removing its backing file. Irreversible: a
    /// second destroy fails with `DestroyFailed`, the file being already
    /// gone, rather than silently succeeding.
    pub fn destroy(&mut self) -> (r: Result<(), StoreError>)
        ensures
            final(self)@.path == old(self)@.path,
            final(self)@.destroyed == (old(self)@.destroyed || r is Ok),
            old(self)@.destroyed ==> r is Err,
            r matches Err(e) ==> e is DestroyFailed,
    {
        if self.destroyed {
            return Err(StoreError::DestroyFailed(String::from_str("the backing file was already removed")));
        }
        match backend::remove_store_file(self.filename.as_str()) {
            Ok(()) => {
                self.destroyed = true;
                Ok(())
            },
            Err(m) => Err(StoreError::DestroyFailed(m)),
        }
    }

    /// The path of the backing file.
    pub fn path(&self) -> (p: &String)
        ensures
            p@ == self@.path,
    {
        &self.filename
    }
}

} // verus!
