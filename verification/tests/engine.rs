//! End-to-end tests of the engine against a real SQLite store. Each test
//! opens its own shared-cache in-memory database, so nothing touches disk
//! and nothing leaks between tests.

use chatlog_store::db::insert::{NoteColorUpdate, NoteToAdd};
use chatlog_store::db::query::{
    ChannelKind, ChatMessageInfo, NoteColor, QueriedNote, SearchQuery, SearchState,
};
use chatlog_store::db::ChatDatabase;

fn new_engine(db_name: &str, game_start: i64) -> ChatDatabase {
    let uri = format!("file:{}?mode=memory&cache=shared", db_name);
    match ChatDatabase::try_new(&uri, game_start) {
        Ok(d) => d,
        Err(e) => panic!("engine construction failed: {:?}", e),
    }
}

fn message(ts: i64, account: &str, character: &str, text: &str) -> ChatMessageInfo {
    ChatMessageInfo::new(ChannelKind::Squad, 255, false, ts, account, character, text)
}

fn results_of(state: SearchState) -> chatlog_store::db::query::SearchResults {
    match state {
        SearchState::Results(r) => r,
        other => panic!("expected results, got {:?}", other),
    }
}

#[test]
fn messages_persist_in_enqueue_order() {
    let mut d = new_engine("order_db", 7);
    // Equal timestamps: the stable newest-first order must keep the
    // enqueue order among them.
    for text in ["first", "second", "third"] {
        d.process_message(message(100, "acct.1", "Char", text)).unwrap();
    }
    d.drain_insert_queue();
    d.search_messages(SearchQuery::new(String::new(), 1));
    d.drain_query_queue();
    let r = results_of(d.get_search_state());
    let texts: Vec<&str> = r.messages.iter().map(|m| m.text.as_str()).collect();
    assert_eq!(texts, vec!["first", "second", "third"]);
    assert!(!r.has_more);
}

#[test]
fn read_your_writes_without_pending() {
    let mut d = new_engine("ryw_db", 0);
    d.insert_note(NoteToAdd::with_time("acct.2", "remember this", 50)).unwrap();
    match d.get_or_query_note("acct.2") {
        QueriedNote::Success(n) => {
            assert_eq!(n.note, "remember this");
            assert_eq!(n.note_added, 50);
            assert_eq!(n.note_updated, 50);
        }
        other => panic!("expected immediate Success, got {:?}", other),
    }
}

#[test]
fn pending_coalesces_and_resolves() {
    let mut d = new_engine("pending_db", 0);
    assert!(matches!(d.get_or_query_note("acct.3"), QueriedNote::Pending));
    assert!(matches!(d.get_or_query_note("acct.3"), QueriedNote::Pending));
    // The second call found the placeholder: only one lookup was enqueued.
    assert_eq!(d.query_queue.len(), 1);
    d.drain_query_queue();
    assert!(matches!(d.get_or_query_note("acct.3"), QueriedNote::NotFound));
}

#[test]
fn delete_without_row_is_not_an_error() {
    let mut d = new_engine("delete_db", 0);
    d.delete_note("acct.4").unwrap();
    assert!(matches!(d.get_or_query_note("acct.4"), QueriedNote::NotFound));
    match d.step_insert_worker() {
        Some(Ok(())) => {}
        other => panic!("expected the delete to apply cleanly, got {:?}", other),
    }
    assert!(matches!(d.get_or_query_note("acct.4"), QueriedNote::NotFound));
}

#[test]
fn stale_search_result_is_discarded() {
    let mut d = new_engine("stale_db", 0);
    d.process_message(message(10, "acct.5", "Char", "hello")).unwrap();
    d.drain_insert_queue();
    // Search A, then search B before A's result arrives.
    d.search_messages(SearchQuery::new(String::from("hello"), 1));
    d.search_messages(SearchQuery::new(String::from("hello"), 2));
    // A's result arrives: the session must keep waiting for B.
    d.step_query_worker();
    assert!(matches!(d.get_search_state(), SearchState::Searching(2)));
    // B's result arrives and is published.
    d.step_query_worker();
    let r = results_of(d.get_search_state());
    assert_eq!(r.search_id, 2);
    assert_eq!(r.messages.len(), 1);
}

#[test]
fn pagination_over_fifteen_rows() {
    let mut d = new_engine("page_db", 0);
    for i in 0..15i64 {
        let text = format!("entry number {}", i);
        d.process_message(message(i + 1, "acct.6", "Char", &text)).unwrap();
    }
    d.drain_insert_queue();

    let mut q = SearchQuery::new(String::from("entry"), 1);
    q.batch_size = 10;
    d.search_messages(q);
    d.drain_query_queue();
    let first = results_of(d.get_search_state());
    assert_eq!(first.messages.len(), 10);
    assert!(first.has_more);
    // Newest first: timestamps 15 down to 6.
    let ts: Vec<i64> = first.messages.iter().map(|m| m.timestamp).collect();
    assert_eq!(ts, vec![15, 14, 13, 12, 11, 10, 9, 8, 7, 6]);

    let mut q2 = SearchQuery::new(String::from("entry"), 2);
    q2.batch_size = 10;
    q2.offset = 10;
    d.search_messages(q2);
    d.drain_query_queue();
    let second = results_of(d.get_search_state());
    assert_eq!(second.messages.len(), 5);
    assert!(!second.has_more);
    let ts2: Vec<i64> = second.messages.iter().map(|m| m.timestamp).collect();
    assert_eq!(ts2, vec![5, 4, 3, 2, 1]);
}

#[test]
fn search_returns_exactly_the_matching_subset() {
    let mut d = new_engine("roundtrip_db", 0);
    d.process_message(message(1, "acct.7", "Char", "alpha fragment")).unwrap();
    d.process_message(message(2, "acct.7", "Char", "the needle is here")).unwrap();
    d.process_message(message(3, "acct.7", "Char", "gamma fragment")).unwrap();
    d.process_message(message(4, "acct.7", "Char", "another Needle too")).unwrap();
    d.drain_insert_queue();

    // Substring matching is ASCII-case-insensitive.
    d.search_messages(SearchQuery::new(String::from("NEEDLE"), 9));
    d.drain_query_queue();
    let r = results_of(d.get_search_state());
    let texts: Vec<&str> = r.messages.iter().map(|m| m.text.as_str()).collect();
    assert_eq!(texts, vec!["another Needle too", "the needle is here"]);
    assert!(!r.has_more);
    assert_eq!(r.offset, 0);
    assert_eq!(r.total_count, None);
}

#[test]
fn search_filters_by_channel_account_and_time() {
    let mut d = new_engine("filters_db", 0);
    d.process_message(ChatMessageInfo::new(
        ChannelKind::Squad, 255, false, 10, "alice.1", "Alice", "squad chatter",
    ))
    .unwrap();
    d.process_message(ChatMessageInfo::new(
        ChannelKind::Party, 1, false, 20, "bob.2", "Bob", "party chatter",
    ))
    .unwrap();
    d.process_message(ChatMessageInfo::new(
        ChannelKind::Party, 1, false, 30, "alice.1", "Alice", "late party chatter",
    ))
    .unwrap();
    d.drain_insert_queue();

    let mut q = SearchQuery::new(String::from("chatter"), 1);
    q.channel_type = Some(String::from("Party"));
    q.account_name = Some(String::from("ALICE"));
    q.timestamp_min = Some(25);
    q.timestamp_max = Some(35);
    d.search_messages(q);
    d.drain_query_queue();
    let r = results_of(d.get_search_state());
    assert_eq!(r.messages.len(), 1);
    assert_eq!(r.messages[0].text, "late party chatter");
    assert_eq!(r.messages[0].channel_type, "Party");
}

#[test]
fn color_survives_text_update_and_delete_clears() {
    let mut d = new_engine("color_db", 0);
    let color = NoteColor { c1: 0x3f800000, c2: 0, c3: 0x3f000000 };
    d.insert_note(NoteToAdd::with_time("acct.8", "first text", 100)).unwrap();
    d.update_note_color(NoteColorUpdate::new("acct.8", Some(color))).unwrap();
    match d.get_or_query_note("acct.8") {
        QueriedNote::Success(n) => assert_eq!(n.color, Some(color)),
        other => panic!("expected Success, got {:?}", other),
    }
    // Update only the text afterwards: the color must be unchanged.
    d.insert_note(NoteToAdd::with_time("acct.8", "second text", 200)).unwrap();
    match d.get_or_query_note("acct.8") {
        QueriedNote::Success(n) => {
            assert_eq!(n.note, "second text");
            assert_eq!(n.color, Some(color));
            assert_eq!(n.note_added, 100);
            assert_eq!(n.note_updated, 200);
        }
        other => panic!("expected Success, got {:?}", other),
    }
    d.drain_insert_queue();

    // A second engine on the same store reads through the worker and must
    // see the same row.
    let mut d2 = new_engine("color_db", 0);
    assert!(matches!(d2.get_or_query_note("acct.8"), QueriedNote::Pending));
    d2.drain_query_queue();
    match d2.get_or_query_note("acct.8") {
        QueriedNote::Success(n) => {
            assert_eq!(n.note, "second text");
            assert_eq!(n.color, Some(color));
            assert_eq!(n.note_added, 100);
            assert_eq!(n.note_updated, 200);
        }
        other => panic!("expected Success from the store, got {:?}", other),
    }

    // Delete the note: the cache shows NotFound at once, and a fresh reader
    // finds no row.
    d.delete_note("acct.8").unwrap();
    assert!(matches!(d.get_or_query_note("acct.8"), QueriedNote::NotFound));
    d.drain_insert_queue();
    let mut d3 = new_engine("color_db", 0);
    assert!(matches!(d3.get_or_query_note("acct.8"), QueriedNote::Pending));
    d3.drain_query_queue();
    assert!(matches!(d3.get_or_query_note("acct.8"), QueriedNote::NotFound));
    d.release();
    d2.release();
    d3.release();
}

#[test]
fn released_engine_drops_requests() {
    let mut d = new_engine("release_db", 0);
    d.release();
    d.process_message(message(1, "acct.9", "Char", "dropped")).unwrap();
    assert_eq!(d.insert_queue.len(), 0);
    d.search_messages(SearchQuery::new(String::from("x"), 1));
    assert!(matches!(d.get_search_state(), SearchState::Idle));
    // The cache itself keeps working, as in the original.
    assert!(matches!(d.get_or_query_note("acct.9"), QueriedNote::Pending));
    assert_eq!(d.query_queue.len(), 0);
}

#[test]
fn clear_search_forces_idle() {
    let mut d = new_engine("clear_db", 0);
    d.search_messages(SearchQuery::new(String::from("x"), 1));
    assert!(matches!(d.get_search_state(), SearchState::Searching(1)));
    d.clear_search();
    assert!(matches!(d.get_search_state(), SearchState::Idle));
}

#[test]
fn construction_fails_on_conflicting_schema() {
    // A store that already holds an unrelated `messages` table at schema
    // version zero cannot be migrated.
    let uri = "file:bad_schema_db?mode=memory&cache=shared";
    let holder = rusqlite::Connection::open(uri).unwrap();
    holder
        .execute("CREATE TABLE messages (just_one_column TEXT)", ())
        .unwrap();
    match ChatDatabase::try_new(uri, 0) {
        Err(chatlog_store::db::ChatDatabaseError::Migrate(_)) => {}
        other => panic!("expected a migration failure, got {:?}", other.map(|_| ())),
    }
    drop(holder);
}

#[test]
fn offset_beyond_the_results_gives_an_empty_page() {
    let mut d = new_engine("beyond_db", 0);
    for i in 0..3i64 {
        d.process_message(message(i + 1, "acct.10", "Char", "something")).unwrap();
    }
    d.drain_insert_queue();
    let mut q = SearchQuery::new(String::from("something"), 1);
    q.batch_size = 10;
    q.offset = 50;
    d.search_messages(q);
    d.drain_query_queue();
    let r = results_of(d.get_search_state());
    assert_eq!(r.messages.len(), 0);
    assert!(!r.has_more);
    assert_eq!(r.offset, 50);
}

#[test]
fn query_defaults() {
    let q = SearchQuery::new(String::from("abc"), 12);
    assert_eq!(q.search_text, "abc");
    assert_eq!(q.search_id, 12);
    assert_eq!(q.batch_size, 50);
    assert_eq!(q.offset, 0);
    assert_eq!(q.channel_type, None);
    assert_eq!(q.account_name, None);
    assert_eq!(q.timestamp_min, None);
    assert_eq!(q.timestamp_max, None);
}
