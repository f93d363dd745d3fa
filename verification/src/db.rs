//! Persistence and query engine for squad chat logs.
//!
//! The engine appends chat messages and per-account notes to an on-disk
//! SQLite store and answers cached note lookups and paginated full-text
//! searches. Producers never touch the store directly: they enqueue write and
//! read requests on two FIFO queues and poll shared state (the note cache and
//! the search session slot) for results. The worker steps that drain the
//! queues are explicit methods here, so the whole request/apply/publish cycle
//! is verified; a deployment runs them from background threads.

pub mod cache;
pub mod insert;
pub mod laws;
pub mod query;
pub mod search;
pub mod store;
pub mod text;

use vstd::prelude::*;

use self::cache::NoteCache;
use self::insert::DbInsert;
use self::query::{DbQuery, QueriedNote, SearchState};
use self::store::{
    pool_get, pool_new, run_migrations, set_wal_mode, sqlite_manager, StoreConnection, StorePool,
};

verus! {

/// Why the engine could not be constructed. Each variant carries the
/// underlying report.
#[derive(Debug)]
pub enum ChatDatabaseError {
    /// The connection pool could not be created.
    CreatePool(String),
    /// No connection could be checked out of the pool.
    GetConnection(String),
    /// The schema migrations could not be applied.
    Migrate(String),
    /// The journal mode could not be switched.
    JournalMode(String),
}

/// The persistence and query engine.
///
/// Producer-facing methods only touch the queues, the note cache and the
/// search session slot, and so never block on the store. The store itself is
/// written and read by the two worker steps, [`ChatDatabase::step_insert_worker`]
/// and [`ChatDatabase::step_query_worker`], which a deployment calls from
/// background threads.
pub struct ChatDatabase {
    /// The path the store was opened under.
    pub log_path: String,
    /// The connection pool; workers draw their connections here.
    pub pool: StorePool,
    /// The store connection the worker steps apply requests to.
    pub conn: StoreConnection,
    /// The time this session started; appended messages are tagged with it.
    pub game_start: i64,
    /// The FIFO write queue.
    pub insert_queue: Vec<DbInsert>,
    /// The FIFO read queue.
    pub query_queue: Vec<DbQuery>,
    /// The read-through note cache.
    pub note_cache: NoteCache,
    /// The shared search session slot.
    pub search_state: SearchState,
    /// Whether the engine was shut down; a released engine drops requests.
    pub released: bool,
}

impl ChatDatabase {
    /// The engine's internal invariant: the note cache is well formed.
    pub open spec fn wf(self) -> bool {
        self.note_cache.wf()
    }

    /// Opens (or creates) the store at `log_path`, applies pending schema
    /// migrations and switches on write-ahead journaling. Any failure is
    /// fatal: no engine is returned and no queue or cache exists.
    pub fn try_new(log_path: &str, game_start: i64) -> (r: Result<ChatDatabase, ChatDatabaseError>)
        ensures
            r matches Ok(d) ==> {
                &&& d.wf()
                &&& d.log_path@ == log_path@
                &&& d.game_start == game_start
                &&& d.insert_queue@.len() == 0
                &&& d.query_queue@.len() == 0
                &&& d.note_cache@ == Map::<Seq<char>, QueriedNote>::empty()
                &&& d.search_state is Idle
                &&& !d.released
            },
    {
        let manager = sqlite_manager(log_path);
        let pool = match pool_new(manager) {
            Ok(p) => p,
            Err(e) => {
                return Err(ChatDatabaseError::CreatePool(e));
            },
        };
        let mut conn = match pool_get(&pool) {
            Ok(c) => c,
            Err(e) => {
                return Err(ChatDatabaseError::GetConnection(e));
            },
        };
        match run_migrations(&mut conn) {
            Ok(_) => {},
            Err(e) => {
                return Err(ChatDatabaseError::Migrate(e));
            },
        }
        match set_wal_mode(&conn) {
            Ok(_) => {},
            Err(e) => {
                return Err(ChatDatabaseError::JournalMode(e));
            },
        }
        Ok(
            ChatDatabase {
                log_path: log_path.to_owned(),
                pool,
                conn,
                game_start,
                insert_queue: Vec::new(),
                query_queue: Vec::new(),
                note_cache: NoteCache::new(),
                search_state: SearchState::Idle,
                released: false,
            },
        )
    }

    /// Shuts the engine down: every later producer request is dropped.
    pub fn release(&mut self)
        requires
            old(self).wf(),
        ensures
            final(self).wf(),
            final(self).released,
            *final(self) == (ChatDatabase { released: true, ..*old(self) }),
    {
        self.released = true;
    }
}

} // verus!
