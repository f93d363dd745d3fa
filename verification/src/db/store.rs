//! The trusted boundary to the on-disk store and the clock.
//!
//! The store is reached through a pooled SQLite connection. Its contents are
//! modeled by two uninterpreted functions, [`db_messages`] and [`db_notes`]:
//! the message log as the sequence of rows in insertion order, and the notes
//! table as a map from account name to its row. Every wrapper below states,
//! over that model, exactly what its one SQL statement does; nothing else in
//! the crate is taken on trust.

use vstd::prelude::*;

use super::query::{Note, SearchResultMessage, StoredMessage};
use rusqlite::OptionalExtension;

verus! {

#[verifier::external_type_specification]
#[verifier::external_body]
pub struct ExSqliteConnectionManager(r2d2_sqlite::SqliteConnectionManager);

/// A bounded pool of connections to the store. Opaque: Verus sees nothing
/// inside it. (r2d2's own pool type cannot be declared to Verus, because its
/// generic parameter is bounded by an outside trait.)
#[verifier::external_body]
pub struct StorePool {
    pool: r2d2::Pool<r2d2_sqlite::SqliteConnectionManager>,
}

/// One connection checked out of the pool. Opaque to Verus; the store behind
/// it is modeled by [`db_messages`] and [`db_notes`].
#[verifier::external_body]
pub struct StoreConnection {
    conn: r2d2::PooledConnection<r2d2_sqlite::SqliteConnectionManager>,
}

/// The message log behind a connection: one row per appended message, in
/// insertion order.
pub uninterp spec fn db_messages(c: StoreConnection) -> Seq<StoredMessage>;

/// The notes table behind a connection: at most one row per account name.
pub uninterp spec fn db_notes(c: StoreConnection) -> Map<Seq<char>, Note>;

/// Relies on `r2d2_sqlite::SqliteConnectionManager::file`: builds a manager
/// that opens connections to the given path (URI forms included).
#[verifier::external_body]
pub(crate) fn sqlite_manager(path: &str) -> r2d2_sqlite::SqliteConnectionManager {
    r2d2_sqlite::SqliteConnectionManager::file(path)
}

/// Relies on `r2d2::Pool::new`: builds a connection pool with the default
/// configuration, or reports why it could not.
#[verifier::external_body]
pub(crate) fn pool_new(
    manager: r2d2_sqlite::SqliteConnectionManager,
) -> Result<StorePool, String> {
    r2d2::Pool::new(manager).map(|pool| StorePool { pool }).map_err(|e| e.to_string())
}

/// Relies on `r2d2::Pool::get`: checks one connection out of the pool.
/// Nothing is assumed about the store behind it.
#[verifier::external_body]
pub(crate) fn pool_get(pool: &StorePool) -> Result<StoreConnection, String> {
    pool.pool.get().map(|conn| StoreConnection { conn }).map_err(|e| e.to_string())
}

/// Relies on `rusqlite_migration::Migrations::to_latest`: applies the pending
/// schema migrations in order, each exactly once, tracked in the store
/// itself. Migrations only create tables and indexes, so the rows already
/// stored are untouched.
#[verifier::external_body]
pub(crate) fn run_migrations(
    conn: &mut StoreConnection,
) -> (r: Result<(), String>)
    ensures
        db_messages(*final(conn)) == db_messages(*old(conn)),
        db_notes(*final(conn)) == db_notes(*old(conn)),
{
    let migrations = rusqlite_migration::Migrations::new(vec![
        rusqlite_migration::M::up(
            "CREATE TABLE messages (id INTEGER PRIMARY KEY, channel_type TEXT NOT NULL, subgroup INTEGER NOT NULL, is_broadcast INTEGER NOT NULL, timestamp INTEGER NOT NULL, account_name TEXT NOT NULL, character_name TEXT NOT NULL, text TEXT NOT NULL, game_start INTEGER NOT NULL);",
        ),
        rusqlite_migration::M::up("CREATE INDEX messages_timestamp ON messages (timestamp);"),
        rusqlite_migration::M::up(
            "CREATE TABLE notes (account_name TEXT PRIMARY KEY, note_added INTEGER NOT NULL, note_updated INTEGER NOT NULL, note TEXT NOT NULL, color1 INTEGER, color2 INTEGER, color3 INTEGER);",
        ),
    ]);
    migrations.to_latest(&mut conn.conn).map_err(|e| e.to_string())
}

/// Relies on `rusqlite::Connection::pragma_update`: switches the journal mode
/// to write-ahead logging. The pragma changes no table rows.
#[verifier::external_body]
pub(crate) fn set_wal_mode(
    conn: &StoreConnection,
) -> Result<(), String> {
    conn.conn.pragma_update(None, "journal_mode", "WAL").map_err(|e| e.to_string())
}

/// Relies on `rusqlite::Connection::execute` with a single parameterized
/// `INSERT`: on success exactly one row is appended to the message log; a
/// failed statement backs out its changes and leaves the store as it was.
#[verifier::external_body]
pub(crate) fn exec_insert_message(
    conn: &mut StoreConnection,
    row: &SearchResultMessage,
    game_start: i64,
) -> (r: Result<(), String>)
    ensures
        r is Ok ==> db_messages(*final(conn)) == db_messages(*old(conn)).push(
            StoredMessage { message: *row, game_start },
        ),
        r is Err ==> db_messages(*final(conn)) == db_messages(*old(conn)),
        db_notes(*final(conn)) == db_notes(*old(conn)),
{
    conn.conn.execute(
        "INSERT INTO messages (channel_type, subgroup, is_broadcast, timestamp, account_name, character_name, text, game_start) VALUES (?1, ?2, ?3, ?4, ?5, ?6, ?7, ?8)",
        (
            &row.channel_type,
            row.subgroup,
            row.is_broadcast,
            row.timestamp,
            &row.account_name,
            &row.character_name,
            &row.text,
            game_start,
        ),
    ).map(|_| ()).map_err(|e| e.to_string())
}

/// Relies on `rusqlite::Connection::execute` with `INSERT .. ON CONFLICT
/// (account_name) DO UPDATE`: a new row carries the given time as both
/// timestamps and no color; on conflict only the text and the updated
/// timestamp are overwritten. A failed statement leaves the store as it was.
#[verifier::external_body]
pub(crate) fn exec_upsert_note(
    conn: &mut StoreConnection,
    account: &String,
    text: &String,
    time: i64,
) -> (r: Result<(), String>)
    ensures
        r is Ok ==> db_notes(*final(conn)) == db_notes(*old(conn)).insert(
            account@,
            if db_notes(*old(conn)).contains_key(account@) {
                Note {
                    account_name: *account,
                    note: *text,
                    note_added: db_notes(*old(conn))[account@].note_added,
                    note_updated: time,
                    color: db_notes(*old(conn))[account@].color,
                }
            } else {
                Note {
                    account_name: *account,
                    note: *text,
                    note_added: time,
                    note_updated: time,
                    color: None,
                }
            },
        ),
        r is Err ==> db_notes(*final(conn)) == db_notes(*old(conn)),
        db_messages(*final(conn)) == db_messages(*old(conn)),
{
    conn.conn.execute(
        "INSERT INTO notes (account_name, note_added, note_updated, note) VALUES (?1, ?2, ?2, ?3) ON CONFLICT (account_name) DO UPDATE SET note_updated=?2, note=?3",
        (account, time, text),
    ).map(|_| ()).map_err(|e| e.to_string())
}

/// Relies on `rusqlite::Connection::execute` with a single `UPDATE` of the
/// color columns: an existing row gets the given color (or none); a missing
/// row leaves the store unchanged, which is not an error.
#[verifier::external_body]
pub(crate) fn exec_update_note_color(
    conn: &mut StoreConnection,
    account: &String,
    color: &Option<super::query::NoteColor>,
) -> (r: Result<(), String>)
    ensures
        r is Ok ==> db_notes(*final(conn)) == (if db_notes(*old(conn)).contains_key(account@) {
            db_notes(*old(conn)).insert(
                account@,
                Note { color: *color, ..db_notes(*old(conn))[account@] },
            )
        } else {
            db_notes(*old(conn))
        }),
        r is Err ==> db_notes(*final(conn)) == db_notes(*old(conn)),
        db_messages(*final(conn)) == db_messages(*old(conn)),
{
    let (c1, c2, c3) = match color {
        Some(c) => (Some(c.c1), Some(c.c2), Some(c.c3)),
        None => (None, None, None),
    };
    conn.conn.execute(
        "UPDATE notes SET color1=?2, color2=?3, color3=?4 WHERE account_name=?1",
        (account, c1, c2, c3),
    ).map(|_| ()).map_err(|e| e.to_string())
}

/// Relies on `rusqlite::Connection::execute` with a single `DELETE` by key:
/// on success the row for the account, if any, is gone; a missing row is not
/// an error.
#[verifier::external_body]
pub(crate) fn exec_delete_note(
    conn: &mut StoreConnection,
    account: &String,
) -> (r: Result<(), String>)
    ensures
        r is Ok ==> db_notes(*final(conn)) == db_notes(*old(conn)).remove(account@),
        r is Err ==> db_notes(*final(conn)) == db_notes(*old(conn)),
        db_messages(*final(conn)) == db_messages(*old(conn)),
{
    conn.conn.execute("DELETE FROM notes WHERE account_name=?1", (account,))
        .map(|_| ())
        .map_err(|e| e.to_string())
}

/// Relies on `rusqlite::Connection::query_row` with a `SELECT` by key: the
/// row for the account is returned exactly as stored, and its key column
/// equals the account looked up; no row means no note.
#[verifier::external_body]
pub(crate) fn exec_select_note(
    conn: &StoreConnection,
    account: &String,
) -> (r: Result<Option<Note>, String>)
    ensures
        r matches Ok(found) ==> match found {
            Some(n) => db_notes(*conn).contains_key(account@) && n == db_notes(*conn)[account@]
                && n.account_name@ == account@,
            None => !db_notes(*conn).contains_key(account@),
        },
{
    conn.conn.query_row(
        "SELECT account_name, note, note_added, note_updated, color1, color2, color3 FROM notes WHERE account_name=?1 LIMIT 1",
        (account,),
        |row| Ok(super::query::note_from_columns(
            row.get(0)?, row.get(1)?, row.get(2)?, row.get(3)?,
            row.get(4)?, row.get(5)?, row.get(6)?,
        )),
    ).optional().map_err(|e| e.to_string())
}

/// Relies on `rusqlite::Statement::query_map` with `SELECT .. ORDER BY id`:
/// the message log is append-only and `id` is the rowid, so the rows come
/// back exactly in insertion order.
#[verifier::external_body]
pub(crate) fn exec_fetch_messages(
    conn: &StoreConnection,
) -> (r: Result<Vec<SearchResultMessage>, String>)
    ensures
        r matches Ok(rows) ==> rows@ == db_messages(*conn).map_values(
            |p: StoredMessage| p.message,
        ),
{
    let mut stmt = conn.conn.prepare(
        "SELECT channel_type, subgroup, is_broadcast, timestamp, account_name, character_name, text FROM messages ORDER BY id ASC",
    ).map_err(|e| e.to_string())?;
    let rows = stmt.query_map([], |row| Ok(super::query::message_from_columns(
        row.get(0)?, row.get(1)?, row.get(2)?, row.get(3)?,
        row.get(4)?, row.get(5)?, row.get(6)?,
    ))).map_err(|e| e.to_string())?;
    rows.collect::<Result<Vec<SearchResultMessage>, rusqlite::Error>>().map_err(|e| e.to_string())
}

/// Relies on `chrono::Utc::now`: the current time in whole seconds since the
/// epoch. The result depends on the clock; nothing is assumed of it.
#[verifier::external_body]
pub(crate) fn now_timestamp() -> i64 {
    chrono::Utc::now().timestamp()
}

} // verus!
