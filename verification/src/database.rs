//! The durable store: canonical records, the SQLite-backed store handle,
//! and the two operations the pipeline needs — idempotent schema creation
//! and append-only insert.
//!
//! The store's visible contents are modelled by [`store_rows`]: the sequence
//! of rows of the `window_events` table reachable through a connection, in
//! insertion order, the empty sequence while the table does not exist.

use vstd::prelude::*;
pub use crate::events::WindowEvent;
use crate::timefmt::Timestamp;

verus! {

/// Record of what a user is doing at an instant in time.
#[derive(Clone, Debug)]
pub struct TimeEntry {
    /// The time that this event occurred.
    pub event_time: Timestamp,
    /// What this event is (e.g. the user moving windows, opening a new
    /// program, and so on).
    pub event_source: WindowEvent,
    /// The area on the screen that the window occupies. Recorded verbatim
    /// from the reported geometry, so it can be zero or negative.
    pub window_area: i64,
    /// The name of the window the user is interacting with.
    pub window_name: String,
    /// What type of window the user is interacting with; most programs set
    /// this to the program's name.
    pub window_class: String,
}

/// One stored row, as (event_source, event_time, window_area, window_class,
/// window_name) — the order of the insert statement's parameters.
pub type Row = (Seq<char>, Seq<char>, int, Seq<char>, Seq<char>);

/// The row under which an entry is persisted.
pub open spec fn entry_row(e: TimeEntry) -> Row {
    (
        e.event_source.label_spec(),
        e.event_time.format_spec(),
        e.window_area as int,
        e.window_class@,
        e.window_name@,
    )
}

#[verifier::external_type_specification]
#[verifier::external_body]
pub struct ExConnection(rusqlite::Connection);

#[verifier::external_type_specification]
#[verifier::external_body]
pub struct ExSqliteError(rusqlite::Error);

/// The rows of the `window_events` table visible through `conn`, in
/// insertion order; the empty sequence while the table does not exist.
pub uninterp spec fn store_rows(conn: rusqlite::Connection) -> Seq<Row>;

/// How the store can fail.
#[derive(Debug)]
pub enum DatabaseError {
    /// The backing resource could not be opened at all.
    OpenFailed(rusqlite::Error),
    /// The resource opened but the record table could not be created.
    EnsureSchemaFailed,
    /// An insert failed (disk full, lock contention, I/O error).
    WriteFailed(rusqlite::Error),
}

/// The statement that creates the record table; `IF NOT EXISTS` makes it
/// safe to run against a store that already has the table.
pub open spec fn schema_sql() -> Seq<char> {
    "CREATE TABLE IF NOT EXISTS window_events (id INTEGER PRIMARY KEY, event_source TEXT NOT NULL, event_time TEXT NOT NULL, window_area INT, window_class TEXT, window_name TEXT)"@
}

/// The statement that appends one record.
pub open spec fn insert_sql() -> Seq<char> {
    "INSERT INTO window_events (event_source, event_time, window_area, window_class, window_name) VALUES (?1, ?2, ?3, ?4, ?5)"@
}

/// Relies on `rusqlite::Connection::open`: opens or creates an SQLite
/// database at `path`. Nothing is assumed of the contents found there.
#[verifier::external_body]
fn sqlite_open(path: &str) -> (r: Result<rusqlite::Connection, rusqlite::Error>) {
    rusqlite::Connection::open(path)
}

/// Relies on `rusqlite::Connection::execute` running one `CREATE TABLE IF
/// NOT EXISTS` statement: creating the (empty) table, or finding it already
/// present, or failing, none of which touches any existing row.
#[verifier::external_body]
fn sqlite_execute_schema(conn: &mut rusqlite::Connection, sql: &str) -> (r: Result<
    usize,
    rusqlite::Error,
>)
    requires
        sql@ == schema_sql(),
    ensures
        store_rows(*final(conn)) == store_rows(*old(conn)),
{
    conn.execute(sql, ())
}

/// Relies on `rusqlite::Connection::execute` running one `INSERT` statement
/// with five parameters: on success exactly the one new row is appended, and
/// a failed statement is rolled back by SQLite, leaving the table unchanged.
#[verifier::external_body]
fn sqlite_execute_insert(
    conn: &mut rusqlite::Connection,
    sql: &str,
    source: &str,
    time: &str,
    area: i64,
    class: &str,
    name: &str,
) -> (r: Result<usize, rusqlite::Error>)
    requires
        sql@ == insert_sql(),
    ensures
        r is Ok ==> store_rows(*final(conn)) == store_rows(*old(conn)).push(
            (source@, time@, area as int, class@, name@),
        ),
        r is Err ==> store_rows(*final(conn)) == store_rows(*old(conn)),
{
    conn.execute(sql, (source, time, area, class, name))
}

/// Opens (or creates) the database at `path` and ensures the record table
/// exists. Returns `OpenFailed` when the backing resource cannot be opened
/// and `EnsureSchemaFailed` when schema creation fails; both are fatal at
/// startup.
pub fn open_database(path: &str) -> (r: Result<rusqlite::Connection, DatabaseError>)
    ensures
        r matches Err(e) ==> (e is OpenFailed || e is EnsureSchemaFailed),
{
    let mut conn = match sqlite_open(path) {
        Ok(c) => c,
        Err(e) => {
            return Err(DatabaseError::OpenFailed(e));
        },
    };
    match sqlite_execute_schema(
        &mut conn,
        "CREATE TABLE IF NOT EXISTS window_events (id INTEGER PRIMARY KEY, event_source TEXT NOT NULL, event_time TEXT NOT NULL, window_area INT, window_class TEXT, window_name TEXT)",
    ) {
        Ok(_) => Ok(conn),
        Err(_) => Err(DatabaseError::EnsureSchemaFailed),
    }
}

/// Appends one entry to the store as a single durable insert. On success the
/// store holds exactly the old rows followed by the entry's row; on failure
/// the store is unchanged and the error is surfaced as `WriteFailed`.
pub fn append_entry(conn: &mut rusqlite::Connection, entry: &TimeEntry) -> (r: Result<
    (),
    DatabaseError,
>)
    requires
        entry.event_time.valid(),
    ensures
        r is Ok ==> store_rows(*final(conn)) == store_rows(*old(conn)).push(entry_row(*entry)),
        r is Err ==> store_rows(*final(conn)) == store_rows(*old(conn)),
        r matches Err(e) ==> e is WriteFailed,
{
    let source = entry.event_source.to_string();
    let time_string = entry.event_time.format();
    match sqlite_execute_insert(
        conn,
        "INSERT INTO window_events (event_source, event_time, window_area, window_class, window_name) VALUES (?1, ?2, ?3, ?4, ?5)",
        source.as_str(),
        time_string.as_str(),
        entry.window_area,
        entry.window_class.as_str(),
        entry.window_name.as_str(),
    ) {
        Ok(_) => Ok(()),
        Err(e) => Err(DatabaseError::WriteFailed(e)),
    }
}

} // verus!
