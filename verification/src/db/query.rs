//! Read-side types of the engine: notes, cached note states, search queries,
//! search results and the search session state machine.

use vstd::prelude::*;
use vstd::string::StringExecFns;

use super::search::{matching, more_after, page_of, ranked};
use super::store::{db_messages, db_notes, exec_fetch_messages, exec_select_note, StoreConnection};
use super::ChatDatabase;

verus! {

/// Whether the session slot is still waiting for the search with this
/// identifier; only then may its outcome be published.
pub open spec fn session_accepts(state: SearchState, id: u64) -> bool {
    state matches SearchState::Searching(cur) && cur == id
}

/// A request on the read queue, served by the query worker in FIFO order.
#[derive(Debug)]
pub enum DbQuery {
    /// Look the note for an account up and publish it into the cache.
    Note(String),
    /// Run a search and publish its results into the session slot.
    SearchMessages(SearchQuery),
}

/// The channel a chat message was sent on.
#[derive(Clone, Copy, Debug, PartialEq, Eq, Structural)]
pub enum ChannelKind {
    Party,
    Squad,
    Reserved,
    Invalid,
}

/// The text under which a channel kind is stored and filtered.
pub open spec fn channel_label_spec(kind: ChannelKind) -> Seq<char> {
    match kind {
        ChannelKind::Party => "Party"@,
        ChannelKind::Squad => "Squad"@,
        ChannelKind::Reserved => "Reserved"@,
        ChannelKind::Invalid => "Invalid"@,
    }
}

/// The stored text for a channel kind.
pub fn channel_label(kind: ChannelKind) -> (r: String)
    ensures
        r@ == channel_label_spec(kind),
{
    match kind {
        ChannelKind::Party => String::from_str("Party"),
        ChannelKind::Squad => String::from_str("Squad"),
        ChannelKind::Reserved => String::from_str("Reserved"),
        ChannelKind::Invalid => String::from_str("Invalid"),
    }
}

/// A chat message as handed to the engine by the producer. The session start
/// marker is attached by the insert worker, not carried here.
#[derive(Clone, Debug)]
pub struct ChatMessageInfo {
    pub channel_type: String,
    pub subgroup: u8,
    pub is_broadcast: bool,
    pub timestamp: i64,
    pub account_name: String,
    pub character_name: String,
    pub text: String,
}

impl ChatMessageInfo {
    /// Builds a message from its parts, storing the channel kind as its text
    /// label.
    pub fn new(
        kind: ChannelKind,
        subgroup: u8,
        is_broadcast: bool,
        timestamp: i64,
        account_name: &str,
        character_name: &str,
        text: &str,
    ) -> (r: Self)
        ensures
            r.channel_type@ == channel_label_spec(kind),
            r.subgroup == subgroup,
            r.is_broadcast == is_broadcast,
            r.timestamp == timestamp,
            r.account_name@ == account_name@,
            r.character_name@ == character_name@,
            r.text@ == text@,
    {
        ChatMessageInfo {
            channel_type: channel_label(kind),
            subgroup,
            is_broadcast,
            timestamp,
            account_name: account_name.to_owned(),
            character_name: character_name.to_owned(),
            text: text.to_owned(),
        }
    }
}

/// A single search result message, as read back from the store.
#[derive(Clone, Debug)]
pub struct SearchResultMessage {
    pub channel_type: String,
    pub subgroup: u8,
    pub is_broadcast: bool,
    pub timestamp: i64,
    pub account_name: String,
    pub character_name: String,
    pub text: String,
}

/// The row stored for a message: the message itself as it is read back by a
/// search, with the session start marker it was tagged with at write time.
pub ghost struct StoredMessage {
    pub message: SearchResultMessage,
    pub game_start: i64,
}

/// The row a message request is stored as.
pub open spec fn as_stored_row(m: ChatMessageInfo) -> SearchResultMessage {
    SearchResultMessage {
        channel_type: m.channel_type,
        subgroup: m.subgroup,
        is_broadcast: m.is_broadcast,
        timestamp: m.timestamp,
        account_name: m.account_name,
        character_name: m.character_name,
        text: m.text,
    }
}

/// Turns a message request into the row it is stored as.
pub fn into_stored_row(m: ChatMessageInfo) -> (r: SearchResultMessage)
    ensures
        r == as_stored_row(m),
{
    SearchResultMessage {
        channel_type: m.channel_type,
        subgroup: m.subgroup,
        is_broadcast: m.is_broadcast,
        timestamp: m.timestamp,
        account_name: m.account_name,
        character_name: m.character_name,
        text: m.text,
    }
}

/// Assembles a search result message from its stored columns.
pub fn message_from_columns(
    channel_type: String,
    subgroup: u8,
    is_broadcast: bool,
    timestamp: i64,
    account_name: String,
    character_name: String,
    text: String,
) -> (r: SearchResultMessage)
    ensures
        r == (SearchResultMessage {
            channel_type,
            subgroup,
            is_broadcast,
            timestamp,
            account_name,
            character_name,
            text,
        }),
{
    SearchResultMessage {
        channel_type,
        subgroup,
        is_broadcast,
        timestamp,
        account_name,
        character_name,
        text,
    }
}

/// A field-for-field copy of a search result message.
pub fn copy_message(m: &SearchResultMessage) -> (r: SearchResultMessage)
    ensures
        r == *m,
{
    SearchResultMessage {
        channel_type: m.channel_type.clone(),
        subgroup: m.subgroup,
        is_broadcast: m.is_broadcast,
        timestamp: m.timestamp,
        account_name: m.account_name.clone(),
        character_name: m.character_name.clone(),
        text: m.text.clone(),
    }
}

/// Parameters for searching chat messages.
#[derive(Clone, Debug)]
pub struct SearchQuery {
    /// Text to search for; matched against account name, character name and
    /// message text.
    pub search_text: String,
    /// Filter by channel type label, matched exactly.
    pub channel_type: Option<String>,
    /// Filter by account name, matched as a substring.
    pub account_name: Option<String>,
    /// Minimum timestamp, inclusive.
    pub timestamp_min: Option<i64>,
    /// Maximum timestamp, inclusive.
    pub timestamp_max: Option<i64>,
    /// Number of results to return per batch.
    pub batch_size: u32,
    /// Offset into the full result list, for pagination.
    pub offset: u32,
    /// Caller-assigned identifier used to correlate results.
    pub search_id: u64,
}

impl SearchQuery {
    /// A query for the given text with no further filters and the default
    /// batch size.
    pub fn new(search_text: String, search_id: u64) -> (r: Self)
        ensures
            r.search_text == search_text,
            r.channel_type is None,
            r.account_name is None,
            r.timestamp_min is None,
            r.timestamp_max is None,
            r.batch_size == 50u32,
            r.offset == 0u32,
            r.search_id == search_id,
    {
        SearchQuery {
            search_text,
            channel_type: None,
            account_name: None,
            timestamp_min: None,
            timestamp_max: None,
            batch_size: 50,
            offset: 0,
            search_id,
        }
    }
}

/// Container for one batch of search results.
#[derive(Clone, Debug)]
pub struct SearchResults {
    /// The search identifier this batch answers.
    pub search_id: u64,
    /// The matched messages, newest first.
    pub messages: Vec<SearchResultMessage>,
    /// Whether more results exist past this batch.
    pub has_more: bool,
    /// Total count of matching messages, when known.
    pub total_count: Option<u64>,
    /// The offset this batch corresponds to.
    pub offset: u32,
}

/// State of the shared search session slot.
#[derive(Clone, Debug)]
pub enum SearchState {
    /// No search in progress.
    Idle,
    /// A search with the given identifier is in flight.
    Searching(u64),
    /// The most recent search completed with these results.
    Results(SearchResults),
    /// The most recent search failed.
    Error(String),
}

/// A display color for a note: three channel intensities, carried as the bit
/// patterns of the producer's normalized float channels. The engine stores
/// and returns them untouched.
#[derive(Clone, Copy, Debug, PartialEq, Eq, Structural)]
pub struct NoteColor {
    pub c1: u32,
    pub c2: u32,
    pub c3: u32,
}

/// A per-account annotation.
#[derive(Clone, Debug)]
pub struct Note {
    pub account_name: String,
    pub note: String,
    pub note_added: i64,
    pub note_updated: i64,
    pub color: Option<NoteColor>,
}

/// A field-for-field copy of a note.
pub fn copy_note(n: &Note) -> (r: Note)
    ensures
        r == *n,
{
    Note {
        account_name: n.account_name.clone(),
        note: n.note.clone(),
        note_added: n.note_added,
        note_updated: n.note_updated,
        color: match &n.color {
            Some(c) => Some(*c),
            None => None,
        },
    }
}

/// The state a note lookup is in, as held by the note cache.
#[derive(Clone, Debug)]
pub enum QueriedNote {
    /// The note was found.
    Success(Note),
    /// The lookup failed.
    Error,
    /// No note exists for the account.
    NotFound,
    /// A lookup is in flight; inserted synchronously to suppress duplicates.
    Pending,
}

/// A field-for-field copy of a cached note state.
pub fn copy_queried_note(q: &QueriedNote) -> (r: QueriedNote)
    ensures
        r == *q,
{
    match q {
        QueriedNote::Success(n) => QueriedNote::Success(copy_note(n)),
        QueriedNote::Error => QueriedNote::Error,
        QueriedNote::NotFound => QueriedNote::NotFound,
        QueriedNote::Pending => QueriedNote::Pending,
    }
}

/// Assembles a note from its stored columns. The color is present only when
/// all three channels are present.
pub fn note_from_columns(
    account_name: String,
    note: String,
    note_added: i64,
    note_updated: i64,
    c1: Option<u32>,
    c2: Option<u32>,
    c3: Option<u32>,
) -> (r: Note)
    ensures
        r.account_name == account_name,
        r.note == note,
        r.note_added == note_added,
        r.note_updated == note_updated,
        r.color == (if c1 is Some && c2 is Some && c3 is Some {
            Some(NoteColor { c1: c1->0, c2: c2->0, c3: c3->0 })
        } else {
            None::<NoteColor>
        }),
{
    let color = match (c1, c2, c3) {
        (Some(a), Some(b), Some(c)) => Some(NoteColor { c1: a, c2: b, c3: c }),
        _ => None,
    };
    Note { account_name, note, note_added, note_updated, color }
}

/// Result batches that agree in every observable field.
pub open spec fn same_results(a: SearchResults, b: SearchResults) -> bool {
    &&& a.search_id == b.search_id
    &&& a.messages@ == b.messages@
    &&& a.has_more == b.has_more
    &&& a.total_count == b.total_count
    &&& a.offset == b.offset
}

/// Session states that agree in every observable field.
pub open spec fn same_search_state(a: SearchState, b: SearchState) -> bool {
    match (a, b) {
        (SearchState::Idle, SearchState::Idle) => true,
        (SearchState::Searching(x), SearchState::Searching(y)) => x == y,
        (SearchState::Results(x), SearchState::Results(y)) => same_results(x, y),
        (SearchState::Error(x), SearchState::Error(y)) => x == y,
        _ => false,
    }
}

/// A field-for-field copy of a result batch.
pub fn copy_results(r: &SearchResults) -> (c: SearchResults)
    ensures
        same_results(c, *r),
{
    let mut messages: Vec<SearchResultMessage> = Vec::new();
    let mut i: usize = 0;
    proof {
        assert(messages@ =~= r.messages@.subrange(0, 0));
    }
    while i < r.messages.len()
        invariant
            0 <= i <= r.messages@.len(),
            messages@ == r.messages@.subrange(0, i as int),
        decreases r.messages@.len() - i,
    {
        proof {
            assert(r.messages@.subrange(0, i + 1) =~= r.messages@.subrange(0, i as int).push(
                r.messages@[i as int],
            ));
        }
        messages.push(copy_message(&r.messages[i]));
        i += 1;
    }
    proof {
        assert(messages@ =~= r.messages@);
    }
    SearchResults {
        search_id: r.search_id,
        messages,
        has_more: r.has_more,
        total_count: match &r.total_count {
            Some(c) => Some(*c),
            None => None,
        },
        offset: r.offset,
    }
}

impl ChatDatabase {
    /// Returns the note state for the account. A cached state comes back as
    /// it is, the `Pending` placeholder included. An unseen account is
    /// cached as `Pending` at once, so repeated calls trigger no duplicate
    /// lookup, and one lookup request is enqueued (none on a shut down
    /// engine).
    pub fn get_or_query_note(&mut self, account_name: &str) -> (r: QueriedNote)
        requires
            old(self).wf(),
        ensures
            final(self).wf(),
            old(self).note_cache@.contains_key(account_name@) ==> r == old(
                self,
            ).note_cache@[account_name@] && *final(self) == *old(self),
            !old(self).note_cache@.contains_key(account_name@) ==> {
                &&& r is Pending
                &&& final(self).note_cache@ == old(self).note_cache@.insert(
                    account_name@,
                    QueriedNote::Pending,
                )
                &&& *final(self) == (ChatDatabase {
                    note_cache: final(self).note_cache,
                    query_queue: final(self).query_queue,
                    ..*old(self)
                })
                &&& old(self).released ==> final(self).query_queue@ == old(self).query_queue@
                &&& !old(self).released ==> {
                    &&& final(self).query_queue@.len() == old(self).query_queue@.len() + 1
                    &&& final(self).query_queue@.last() matches DbQuery::Note(a) && a@
                        == account_name@
                    &&& final(self).query_queue@.subrange(
                        0,
                        old(self).query_queue@.len() as int,
                    ) == old(self).query_queue@
                }
            },
    {
        let key = account_name.to_owned();
        match self.note_cache.lookup_copy(&key) {
            Some(v) => {
                return v;
            },
            None => {},
        }
        let queued = key.clone();
        self.note_cache.put(key, QueriedNote::Pending);
        if !self.released {
            self.query_queue.push(DbQuery::Note(queued));
            proof {
                assert(self.query_queue@.subrange(0, old(self).query_queue@.len() as int)
                    =~= old(self).query_queue@);
            }
        }
        QueriedNote::Pending
    }

    /// Starts a search: the session slot turns to `Searching` with the
    /// query's identifier, which supersedes any search still in flight, and
    /// the query is enqueued. A shut down engine ignores the request.
    pub fn search_messages(&mut self, query: SearchQuery)
        requires
            old(self).wf(),
        ensures
            final(self).wf(),
            old(self).released ==> *final(self) == *old(self),
            !old(self).released ==> {
                &&& final(self).search_state == SearchState::Searching(query.search_id)
                &&& final(self).query_queue@ == old(self).query_queue@.push(
                    DbQuery::SearchMessages(query),
                )
                &&& *final(self) == (ChatDatabase {
                    search_state: final(self).search_state,
                    query_queue: final(self).query_queue,
                    ..*old(self)
                })
            },
    {
        if self.released {
            return ;
        }
        self.search_state = SearchState::Searching(query.search_id);
        self.query_queue.push(DbQuery::SearchMessages(query));
    }

    /// The current state of the search session slot.
    pub fn get_search_state(&self) -> (r: SearchState)
        ensures
            same_search_state(r, self.search_state),
    {
        match &self.search_state {
            SearchState::Idle => SearchState::Idle,
            SearchState::Searching(id) => SearchState::Searching(*id),
            SearchState::Results(res) => SearchState::Results(copy_results(res)),
            SearchState::Error(e) => SearchState::Error(e.clone()),
        }
    }

    /// Forces the session slot back to `Idle`.
    pub fn clear_search(&mut self)
        requires
            old(self).wf(),
        ensures
            final(self).wf(),
            final(self).search_state is Idle,
            *final(self) == (ChatDatabase { search_state: SearchState::Idle, ..*old(self) }),
    {
        self.search_state = SearchState::Idle;
    }

    /// Runs one search against the store: the matching messages, newest
    /// first, cut to the requested page, with a flag for further results.
    pub fn execute_search(conn: &StoreConnection, query: &SearchQuery) -> (r: Result<
        SearchResults,
        String,
    >)
        ensures
            r matches Ok(res) ==> {
                &&& res.search_id == query.search_id
                &&& res.offset == query.offset
                &&& res.total_count is None
                &&& res.messages@ == page_of(
                    ranked(db_messages(*conn), *query),
                    query.offset,
                    query.batch_size,
                )
                &&& res.has_more == more_after(
                    ranked(db_messages(*conn), *query),
                    query.offset,
                    query.batch_size,
                )
            },
    {
        let rows = match exec_fetch_messages(conn) {
            Ok(rows) => rows,
            Err(e) => {
                return Err(e);
            },
        };
        let filtered = super::search::filter_rows(&rows, query);
        proof {
            assert(filtered@ == matching(db_messages(*conn), *query));
        }
        let sorted = super::search::sort_rows(&filtered);
        let (messages, has_more) = super::search::paginate(
            &sorted,
            query.offset,
            query.batch_size,
        );
        Ok(
            SearchResults {
                search_id: query.search_id,
                messages,
                has_more,
                total_count: None,
                offset: query.offset,
            },
        )
    }

    /// Takes one request off the read queue and serves it. A note lookup
    /// always settles the cache entry for its account: the note on success,
    /// `NotFound` without a row, `Error` on a failed statement. A search
    /// outcome is published into the session slot only if the slot still
    /// waits for that search's identifier; a superseded result is discarded.
    pub fn step_query_worker(&mut self) -> (r: Option<Result<(), String>>)
        requires
            old(self).wf(),
        ensures
            final(self).wf(),
            r is None <==> old(self).query_queue@.len() == 0,
            r is None ==> *final(self) == *old(self),
            r matches Some(outcome) ==> {
                &&& final(self).query_queue@ == old(self).query_queue@.drop_first()
                &&& old(self).query_queue@[0] matches DbQuery::Note(a) ==> {
                    &&& *final(self) == (ChatDatabase {
                        query_queue: final(self).query_queue,
                        note_cache: final(self).note_cache,
                        ..*old(self)
                    })
                    &&& outcome is Ok ==> final(self).note_cache@ == old(self).note_cache@.insert(
                        a@,
                        if db_notes(old(self).conn).contains_key(a@) {
                            QueriedNote::Success(db_notes(old(self).conn)[a@])
                        } else {
                            QueriedNote::NotFound
                        },
                    )
                    &&& outcome is Err ==> final(self).note_cache@ == old(
                        self,
                    ).note_cache@.insert(a@, QueriedNote::Error)
                }
                &&& old(self).query_queue@[0] matches DbQuery::SearchMessages(q) ==> {
                    &&& *final(self) == (ChatDatabase {
                        query_queue: final(self).query_queue,
                        search_state: final(self).search_state,
                        ..*old(self)
                    })
                    &&& !session_accepts(old(self).search_state, q.search_id)
                        ==> final(self).search_state == old(self).search_state
                    &&& session_accepts(old(self).search_state, q.search_id) && outcome is Ok
                        ==> (final(self).search_state matches SearchState::Results(res) && {
                        &&& res.search_id == q.search_id
                        &&& res.offset == q.offset
                        &&& res.total_count is None
                        &&& res.messages@ == page_of(
                            ranked(db_messages(old(self).conn), q),
                            q.offset,
                            q.batch_size,
                        )
                        &&& res.has_more == more_after(
                            ranked(db_messages(old(self).conn), q),
                            q.offset,
                            q.batch_size,
                        )
                    })
                    &&& session_accepts(old(self).search_state, q.search_id) && outcome is Err
                        ==> final(self).search_state is Error
                }
            },
    {
        if self.query_queue.len() == 0 {
            return None;
        }
        let req = self.query_queue.remove(0);
        proof {
            assert(old(self).query_queue@.remove(0) =~= old(self).query_queue@.drop_first());
        }
        match req {
            DbQuery::Note(account) => {
                match exec_select_note(&self.conn, &account) {
                    Ok(Some(n)) => {
                        self.note_cache.put(account, QueriedNote::Success(n));
                        Some(Ok(()))
                    },
                    Ok(None) => {
                        self.note_cache.put(account, QueriedNote::NotFound);
                        Some(Ok(()))
                    },
                    Err(e) => {
                        self.note_cache.put(account, QueriedNote::Error);
                        Some(Err(e))
                    },
                }
            },
            DbQuery::SearchMessages(q) => {
                let publish = match &self.search_state {
                    SearchState::Searching(id) => *id == q.search_id,
                    _ => false,
                };
                match Self::execute_search(&self.conn, &q) {
                    Ok(results) => {
                        if publish {
                            self.search_state = SearchState::Results(results);
                        }
                        Some(Ok(()))
                    },
                    Err(e) => {
                        if publish {
                            self.search_state = SearchState::Error(e.clone());
                        }
                        Some(Err(e))
                    },
                }
            },
        }
    }

    /// Drains the read queue in FIFO order. Each request is served as
    /// [`ChatDatabase::step_query_worker`] describes; a failed request is
    /// dropped and the worker goes on with the next one.
    pub fn drain_query_queue(&mut self)
        requires
            old(self).wf(),
        ensures
            final(self).wf(),
            final(self).query_queue@.len() == 0,
            final(self).insert_queue@ == old(self).insert_queue@,
            final(self).conn == old(self).conn,
            final(self).pool == old(self).pool,
            final(self).game_start == old(self).game_start,
            final(self).log_path == old(self).log_path,
            final(self).released == old(self).released,
            final(self).search_state is Idle <==> old(self).search_state is Idle,
            forall|i: int|
                0 <= i < old(self).query_queue@.len()
                    ==> ((#[trigger] old(self).query_queue@[i]) matches DbQuery::Note(a)
                    ==> final(self).note_cache@.contains_key(a@)
                        && !(final(self).note_cache@[a@] is Pending)),
    {
        let ghost orig = *old(self);
        let ghost mut done: int = 0;
        loop
            invariant
                orig == *old(self),
                self.wf(),
                0 <= done <= orig.query_queue@.len(),
                self.query_queue@ == orig.query_queue@.subrange(
                    done,
                    orig.query_queue@.len() as int,
                ),
                self.insert_queue@ == orig.insert_queue@,
                self.conn == orig.conn,
                self.pool == orig.pool,
                self.game_start == orig.game_start,
                self.log_path == orig.log_path,
                self.released == orig.released,
                self.search_state is Idle <==> orig.search_state is Idle,
                forall|i: int|
                    0 <= i < done ==> ((#[trigger] orig.query_queue@[i]) matches DbQuery::Note(a)
                        ==> self.note_cache@.contains_key(a@) && !(self.note_cache@[a@]
                        is Pending)),
            decreases self.query_queue@.len(),
        {
            let ghost prev_queue = self.query_queue@;
            match self.step_query_worker() {
                None => {
                    return ;
                },
                Some(_) => {},
            }
            proof {
                assert(prev_queue[0] == orig.query_queue@[done]);
                done = done + 1;
                assert(self.query_queue@ =~= orig.query_queue@.subrange(
                    done,
                    orig.query_queue@.len() as int,
                ));
            }
        }
    }
}

} // verus!
