//! Engine-wide guarantees, each proved from the specifications the engine's
//! methods carry.

use vstd::prelude::*;

use super::insert::{apply_inserts, cache_after_upsert, upserted_note, DbInsert, NoteToAdd};
use super::query::{
    session_accepts, Note, QueriedNote, SearchQuery, SearchResultMessage, SearchState,
    StoredMessage, as_stored_row,
};
use super::search::{matching, more_after, newest_first, page_of, ranked};

verus! {

/// The rows a queue of append requests stores, in queue order.
pub open spec fn appended_rows(reqs: Seq<DbInsert>, game_start: i64) -> Seq<StoredMessage> {
    reqs.map_values(
        |r: DbInsert| StoredMessage { message: as_stored_row(r->ChatMessage_0), game_start },
    )
}

/// Messages are persisted in exactly the enqueue order: draining a write
/// queue of append requests, each of whose statements succeeded, extends the
/// message log by those messages, in order, and leaves the notes table
/// untouched.
pub proof fn lemma_appends_persist_in_enqueue_order(
    reqs: Seq<DbInsert>,
    oks: Seq<bool>,
    game_start: i64,
    msgs: Seq<StoredMessage>,
    notes: Map<Seq<char>, Note>,
)
    requires
        oks.len() == reqs.len(),
        forall|i: int| 0 <= i < reqs.len() ==> reqs[i] is ChatMessage,
        forall|i: int| 0 <= i < oks.len() ==> oks[i],
    ensures
        apply_inserts(reqs, oks, game_start, msgs, notes).0 == msgs + appended_rows(
            reqs,
            game_start,
        ),
        apply_inserts(reqs, oks, game_start, msgs, notes).1 == notes,
    decreases reqs.len(),
{
    if reqs.len() == 0 {
        assert(appended_rows(reqs, game_start) =~= Seq::<StoredMessage>::empty());
        assert(msgs + appended_rows(reqs, game_start) =~= msgs);
    } else {
        lemma_appends_persist_in_enqueue_order(
            reqs.drop_last(),
            oks.drop_last(),
            game_start,
            msgs,
            notes,
        );
        assert(appended_rows(reqs, game_start).drop_last() =~= appended_rows(
            reqs.drop_last(),
            game_start,
        ));
        assert(msgs + appended_rows(reqs, game_start) =~= (msgs + appended_rows(
            reqs.drop_last(),
            game_start,
        )).push(StoredMessage { message: as_stored_row(reqs.last()->ChatMessage_0), game_start }));
    }
}

/// Read-your-writes: after the eager cache update of an upsert, the cache
/// holds `Success` with the new text and update time under that account, so
/// an immediate lookup returns it and never `Pending`.
pub proof fn lemma_read_your_writes(cache: Map<Seq<char>, QueriedNote>, n: NoteToAdd)
    ensures
        cache_after_upsert(cache, n).contains_key(n.account_name@),
        cache_after_upsert(cache, n)[n.account_name@] matches QueriedNote::Success(note) && {
            &&& note.note == n.note
            &&& note.note_updated == n.cur_time
        },
{
}

/// Request coalescing: the `Pending` placeholder written by the first lookup
/// of an unseen account is itself a cached state, so the next lookup of the
/// same account finds the cache populated and changes nothing.
pub proof fn lemma_pending_coalesces(cache: Map<Seq<char>, QueriedNote>, account: Seq<char>)
    requires
        !cache.contains_key(account),
    ensures
        cache.insert(account, QueriedNote::Pending).contains_key(account),
        cache.insert(account, QueriedNote::Pending)[account] is Pending,
{
}

/// Absence is not an error: deleting the note of an account that has no row
/// leaves the notes table exactly as it was.
pub proof fn lemma_delete_absent_is_noop(notes: Map<Seq<char>, Note>, account: Seq<char>)
    requires
        !notes.contains_key(account),
    ensures
        notes.remove(account) == notes,
{
    assert(notes.remove(account) =~= notes);
}

/// Superseded searches are discarded: a session waiting for one search
/// accepts no outcome carrying a different identifier, so a later search
/// keeps the slot until its own outcome arrives.
pub proof fn lemma_superseded_search_is_ignored(stale_id: u64, current_id: u64)
    requires
        stale_id != current_id,
    ensures
        !session_accepts(SearchState::Searching(current_id), stale_id),
        session_accepts(SearchState::Searching(current_id), current_id),
{
}

/// Pagination: a page holds at most `batch` entries; it is exactly `batch`
/// entries long while enough entries remain, and `more_after` reports
/// precisely whether entries exist past the page.
pub proof fn lemma_pagination(s: Seq<SearchResultMessage>, offset: u32, batch: u32)
    ensures
        page_of(s, offset, batch).len() == (if s.len() <= offset {
            0int
        } else if s.len() < offset + batch {
            s.len() - offset
        } else {
            batch as int
        }),
        more_after(s, offset, batch) <==> s.len() > offset + batch,
{
}

/// A search from the start with room for every match returns exactly the
/// matching subset, newest first, and reports no further results.
pub proof fn lemma_search_returns_exact_matches(db: Seq<StoredMessage>, q: SearchQuery)
    requires
        q.offset == 0,
        matching(db, q).len() <= q.batch_size,
    ensures
        page_of(ranked(db, q), q.offset, q.batch_size) == ranked(db, q),
        ranked(db, q).to_multiset() == matching(db, q).to_multiset(),
        forall|m: SearchResultMessage|
            ranked(db, q).contains(m) <==> matching(db, q).contains(m),
        newest_first(ranked(db, q)),
        !more_after(ranked(db, q), q.offset, q.batch_size),
{
    super::search::lemma_sort_newest_first_ensures(matching(db, q));
    assert(page_of(ranked(db, q), q.offset, q.batch_size) =~= ranked(db, q));
    ranked(db, q).to_multiset_ensures();
    matching(db, q).to_multiset_ensures();
    assert forall|m: SearchResultMessage|
        ranked(db, q).contains(m) <==> matching(db, q).contains(m) by {
        assert(ranked(db, q).to_multiset().count(m) == matching(db, q).to_multiset().count(m));
    }
}

/// An upsert on an account that already has a note row replaces the text
/// and the update time and preserves the added time and the color.
pub proof fn lemma_upsert_preserves_color(
    notes: Map<Seq<char>, Note>,
    account: String,
    text: String,
    time: i64,
)
    requires
        notes.contains_key(account@),
    ensures
        upserted_note(notes, account, text, time).color == notes[account@].color,
        upserted_note(notes, account, text, time).note_added == notes[account@].note_added,
        upserted_note(notes, account, text, time).note == text,
        upserted_note(notes, account, text, time).note_updated == time,
{
}

/// The eager cache update of an upsert preserves the color of an already
/// cached note while replacing its text.
pub proof fn lemma_cache_upsert_preserves_color(cache: Map<Seq<char>, QueriedNote>, n: NoteToAdd)
    requires
        cache.contains_key(n.account_name@),
        cache[n.account_name@] matches QueriedNote::Success(existing),
    ensures
        cache_after_upsert(cache, n)[n.account_name@] matches QueriedNote::Success(note) && {
            &&& note.color == cache[n.account_name@]->Success_0.color
            &&& note.note_added == cache[n.account_name@]->Success_0.note_added
            &&& note.note == n.note
        },
{
}

} // verus!
