//! Unit tests for the text matching and the search predicate.

use chatlog_store::db::query::{ChannelKind, ChatMessageInfo, SearchQuery};
use chatlog_store::db::search::message_matches;
use chatlog_store::db::text::{bytes_contain_ci, str_contains_ci};
use chatlog_store::db::query::into_stored_row;

#[test]
fn substring_search_is_case_insensitive_on_ascii() {
    assert!(str_contains_ci("Hello World", "hello"));
    assert!(str_contains_ci("Hello World", "WORLD"));
    assert!(str_contains_ci("Hello World", "o W"));
    assert!(!str_contains_ci("Hello World", "planet"));
}

#[test]
fn empty_needle_matches_everything() {
    assert!(str_contains_ci("anything", ""));
    assert!(str_contains_ci("", ""));
    assert!(!str_contains_ci("", "x"));
}

#[test]
fn non_ascii_bytes_match_exactly() {
    assert!(str_contains_ci("ein grüner Баум", "grüner"));
    assert!(str_contains_ci("ein grüner Баум", "БАУМ") == false);
    // A case difference in a non-ASCII letter is a mismatch...
    assert!(str_contains_ci("ein GRÜNER Baum", "grüner") == false);
    // ...while the same non-ASCII letter with ASCII case differences matches.
    assert!(str_contains_ci("ein GRÜNER Baum", "grÜner"));
    // The ASCII letters around a non-ASCII one still fold.
    assert!(str_contains_ci("ein GRüNER Baum", "grüner"));
}

#[test]
fn byte_level_scan_agrees_with_str_level() {
    assert!(bytes_contain_ci(b"AbCdEf", b"bcde"));
    assert!(!bytes_contain_ci(b"AbCdEf", b"bcdf"));
    assert!(bytes_contain_ci(b"", b""));
}

#[test]
fn predicate_respects_each_filter() {
    let m = into_stored_row(ChatMessageInfo::new(
        ChannelKind::Party,
        2,
        true,
        1000,
        "alice.1",
        "Alice",
        "meet at the bridge",
    ));

    let all = SearchQuery::new(String::new(), 1);
    assert!(message_matches(&m, &all));

    let mut by_text = SearchQuery::new(String::from("BRIDGE"), 1);
    assert!(message_matches(&m, &by_text));
    by_text.search_text = String::from("tower");
    assert!(!message_matches(&m, &by_text));

    let mut by_channel = SearchQuery::new(String::new(), 1);
    by_channel.channel_type = Some(String::from("Party"));
    assert!(message_matches(&m, &by_channel));
    by_channel.channel_type = Some(String::from("Squad"));
    assert!(!message_matches(&m, &by_channel));

    let mut by_account = SearchQuery::new(String::new(), 1);
    by_account.account_name = Some(String::from("lice"));
    assert!(message_matches(&m, &by_account));
    by_account.account_name = Some(String::from("bob"));
    assert!(!message_matches(&m, &by_account));

    let mut by_time = SearchQuery::new(String::new(), 1);
    by_time.timestamp_min = Some(1000);
    by_time.timestamp_max = Some(1000);
    assert!(message_matches(&m, &by_time));
    by_time.timestamp_min = Some(1001);
    assert!(!message_matches(&m, &by_time));
    by_time.timestamp_min = None;
    by_time.timestamp_max = Some(999);
    assert!(!message_matches(&m, &by_time));
}

#[test]
fn free_text_searches_all_three_fields() {
    let m = into_stored_row(ChatMessageInfo::new(
        ChannelKind::Squad,
        255,
        false,
        1,
        "commander.9",
        "Nightshade",
        "pull the boss now",
    ));
    for needle in ["commander", "nightshade", "BOSS"] {
        let q = SearchQuery::new(String::from(needle), 1);
        assert!(message_matches(&m, &q), "needle {:?} should match", needle);
    }
    let q = SearchQuery::new(String::from("absent"), 1);
    assert!(!message_matches(&m, &q));
}
