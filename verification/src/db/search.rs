//! Search execution: the match predicate, newest-first ordering and
//! pagination, all stated over the store's message log.

use vstd::prelude::*;

use super::query::{copy_message, SearchQuery, SearchResultMessage, StoredMessage};
use super::text::{contains_ci, str_contains_ci, utf8};

verus! {

/// Whether a message satisfies a query: the free-text fragment (if any)
/// occurs in the account name, the character name or the text, and every
/// present filter holds.
pub open spec fn msg_matches(m: SearchResultMessage, q: SearchQuery) -> bool {
    &&& (q.search_text@.len() == 0 || contains_ci(utf8(m.account_name@), utf8(q.search_text@))
        || contains_ci(utf8(m.character_name@), utf8(q.search_text@)) || contains_ci(
        utf8(m.text@),
        utf8(q.search_text@),
    ))
    &&& (q.channel_type matches Some(c) ==> m.channel_type@ == c@)
    &&& (q.account_name matches Some(a) ==> contains_ci(utf8(m.account_name@), utf8(a@)))
    &&& (q.timestamp_min matches Some(t) ==> m.timestamp >= t)
    &&& (q.timestamp_max matches Some(t) ==> m.timestamp <= t)
}

/// Whether a message satisfies a query.
pub fn message_matches(m: &SearchResultMessage, q: &SearchQuery) -> (r: bool)
    ensures
        r == msg_matches(*m, *q),
{
    let text_ok = q.search_text.as_str().is_empty() || str_contains_ci(
        m.account_name.as_str(),
        q.search_text.as_str(),
    ) || str_contains_ci(m.character_name.as_str(), q.search_text.as_str()) || str_contains_ci(
        m.text.as_str(),
        q.search_text.as_str(),
    );
    let channel_ok = match &q.channel_type {
        Some(c) => m.channel_type == *c,
        None => true,
    };
    let account_ok = match &q.account_name {
        Some(a) => str_contains_ci(m.account_name.as_str(), a.as_str()),
        None => true,
    };
    let min_ok = match &q.timestamp_min {
        Some(t) => m.timestamp >= *t,
        None => true,
    };
    let max_ok = match &q.timestamp_max {
        Some(t) => m.timestamp <= *t,
        None => true,
    };
    text_ok && channel_ok && account_ok && min_ok && max_ok
}

/// The match predicate of a query, as a function on messages.
pub open spec fn match_pred(q: SearchQuery) -> spec_fn(SearchResultMessage) -> bool {
    |m: SearchResultMessage| msg_matches(m, q)
}

/// The messages of the log that satisfy the query, in insertion order.
pub open spec fn matching(db: Seq<StoredMessage>, q: SearchQuery) -> Seq<SearchResultMessage> {
    db.map_values(|p: StoredMessage| p.message).filter(match_pred(q))
}

/// Inserts a message behind every message with an equal or newer timestamp,
/// so that equal timestamps keep their earlier order.
pub open spec fn insert_newest_first(
    s: Seq<SearchResultMessage>,
    m: SearchResultMessage,
) -> Seq<SearchResultMessage>
    decreases s.len(),
{
    if s.len() == 0 {
        seq![m]
    } else if s.first().timestamp >= m.timestamp {
        seq![s.first()] + insert_newest_first(s.drop_first(), m)
    } else {
        seq![m] + s
    }
}

/// Sorts messages by timestamp descending, stably: among equal timestamps
/// the earlier-inserted message comes first.
pub open spec fn sort_newest_first(s: Seq<SearchResultMessage>) -> Seq<SearchResultMessage>
    decreases s.len(),
{
    if s.len() == 0 {
        Seq::empty()
    } else {
        insert_newest_first(sort_newest_first(s.drop_last()), s.last())
    }
}

/// Timestamps never increase along the sequence.
pub open spec fn newest_first(s: Seq<SearchResultMessage>) -> bool {
    forall|i: int, j: int| 0 <= i <= j < s.len() ==> s[i].timestamp >= s[j].timestamp
}

/// The length of the leading run of messages at least as new as `m`.
pub open spec fn run_len(s: Seq<SearchResultMessage>, m: SearchResultMessage) -> int
    decreases s.len(),
{
    if s.len() == 0 || s.first().timestamp < m.timestamp {
        0
    } else {
        1 + run_len(s.drop_first(), m)
    }
}

proof fn lemma_run_len(s: Seq<SearchResultMessage>, m: SearchResultMessage)
    ensures
        0 <= run_len(s, m) <= s.len(),
        forall|i: int| 0 <= i < run_len(s, m) ==> s[i].timestamp >= m.timestamp,
        run_len(s, m) < s.len() ==> s[run_len(s, m)].timestamp < m.timestamp,
    decreases s.len(),
{
    if s.len() > 0 && s.first().timestamp >= m.timestamp {
        lemma_run_len(s.drop_first(), m);
        let p = run_len(s, m);
        assert(p == 1 + run_len(s.drop_first(), m));
        assert forall|i: int| 0 <= i < p implies s[i].timestamp >= m.timestamp by {
            if i > 0 {
                assert(s.drop_first()[i - 1] == s[i]);
            }
        }
        if p < s.len() {
            assert(s.drop_first()[p - 1] == s[p]);
        }
    }
}

/// Where the insertion lands: behind the leading run of equal-or-newer
/// timestamps.
proof fn lemma_insert_at(s: Seq<SearchResultMessage>, m: SearchResultMessage, p: int)
    requires
        0 <= p <= s.len(),
        forall|i: int| 0 <= i < p ==> s[i].timestamp >= m.timestamp,
        p < s.len() ==> s[p].timestamp < m.timestamp,
    ensures
        insert_newest_first(s, m) == s.insert(p, m),
    decreases s.len(),
{
    if s.len() == 0 {
        assert(insert_newest_first(s, m) =~= s.insert(p, m));
    } else if p == 0 {
        assert(s.first().timestamp < m.timestamp);
        assert(insert_newest_first(s, m) =~= s.insert(0, m));
    } else {
        assert(s.first().timestamp >= m.timestamp);
        lemma_insert_at(s.drop_first(), m, p - 1);
        assert(seq![s.first()] + s.drop_first().insert(p - 1, m) =~= s.insert(p, m));
    }
}

/// Inserting keeps the order and adds exactly the one message.
pub proof fn lemma_insert_newest_first_ensures(s: Seq<SearchResultMessage>, m: SearchResultMessage)
    requires
        newest_first(s),
    ensures
        newest_first(insert_newest_first(s, m)),
        insert_newest_first(s, m).to_multiset() == s.to_multiset().insert(m),
        insert_newest_first(s, m).len() == s.len() + 1,
{
    let p = run_len(s, m);
    lemma_run_len(s, m);
    lemma_insert_at(s, m, p);
    let w = s.insert(p, m);
    s.insert_ensures(p, m);
    vstd::seq_lib::to_multiset_insert(s, p, m);
    assert forall|i: int, j: int| 0 <= i <= j < w.len() implies w[i].timestamp
        >= w[j].timestamp by {
        if i < p {
            assert(w[i] == s[i]);
        }
        if p < i {
            assert(w[i] == s[i - 1]);
        }
        if j < p {
            assert(w[j] == s[j]);
        }
        if p < j {
            assert(w[j] == s[j - 1]);
        }
    }
}

/// Sorting keeps exactly the messages and orders them newest first.
pub proof fn lemma_sort_newest_first_ensures(s: Seq<SearchResultMessage>)
    ensures
        newest_first(sort_newest_first(s)),
        sort_newest_first(s).to_multiset() == s.to_multiset(),
        sort_newest_first(s).len() == s.len(),
    decreases s.len(),
{
    broadcast use vstd::multiset::group_multiset_axioms;

    if s.len() == 0 {
        assert(s =~= Seq::<SearchResultMessage>::empty());
        assert(sort_newest_first(s) == Seq::<SearchResultMessage>::empty());
    } else {
        lemma_sort_newest_first_ensures(s.drop_last());
        lemma_insert_newest_first_ensures(sort_newest_first(s.drop_last()), s.last());
        assert(sort_newest_first(s) == insert_newest_first(
            sort_newest_first(s.drop_last()),
            s.last(),
        ));
        assert(s.drop_last().push(s.last()) =~= s);
        assert(s.drop_last().push(s.last()).to_multiset() =~= s.drop_last().to_multiset().insert(
            s.last(),
        )) by {
            s.drop_last().to_multiset_ensures();
        }
        assert(sort_newest_first(s).to_multiset() == sort_newest_first(
            s.drop_last(),
        ).to_multiset().insert(s.last()));
        assert(sort_newest_first(s).to_multiset() == s.drop_last().to_multiset().insert(s.last()));
    }
}

/// One page of a result list: up to `batch` entries starting at `offset`.
pub open spec fn page_of(
    s: Seq<SearchResultMessage>,
    offset: u32,
    batch: u32,
) -> Seq<SearchResultMessage> {
    let start = if offset <= s.len() {
        offset as int
    } else {
        s.len() as int
    };
    let end = if offset + batch <= s.len() {
        offset as int + batch as int
    } else {
        s.len() as int
    };
    s.subrange(start, end)
}

/// Whether entries exist past the page.
pub open spec fn more_after(s: Seq<SearchResultMessage>, offset: u32, batch: u32) -> bool {
    s.len() > offset + batch
}

/// The messages of the log that satisfy the query, newest first.
pub open spec fn ranked(db: Seq<StoredMessage>, q: SearchQuery) -> Seq<SearchResultMessage> {
    sort_newest_first(matching(db, q))
}

/// Keeps the rows that satisfy the query, in order.
pub fn filter_rows(rows: &Vec<SearchResultMessage>, q: &SearchQuery) -> (r: Vec<
    SearchResultMessage,
>)
    ensures
        r@ == rows@.filter(match_pred(*q)),
{
    let mut out: Vec<SearchResultMessage> = Vec::new();
    let mut i: usize = 0;
    proof {
        reveal_with_fuel(Seq::filter, 2);
        assert(rows@.subrange(0, 0) =~= Seq::<SearchResultMessage>::empty());
        assert(rows@.subrange(0, 0).filter(match_pred(*q)) =~= Seq::<SearchResultMessage>::empty());
    }
    while i < rows.len()
        invariant
            0 <= i <= rows@.len(),
            out@ == rows@.subrange(0, i as int).filter(match_pred(*q)),
        decreases rows@.len() - i,
    {
        proof {
            reveal_with_fuel(Seq::filter, 2);
            let prev = rows@.subrange(0, i as int);
            let cur = rows@.subrange(0, i + 1);
            assert(cur.drop_last() =~= prev);
            assert(cur.last() == rows@[i as int]);
            assert(cur.filter(match_pred(*q)) == (if match_pred(*q)(rows@[i as int]) {
                prev.filter(match_pred(*q)).push(rows@[i as int])
            } else {
                prev.filter(match_pred(*q))
            }));
        }
        if message_matches(&rows[i], q) {
            out.push(copy_message(&rows[i]));
        }
        i += 1;
    }
    proof {
        assert(rows@.subrange(0, rows@.len() as int) =~= rows@);
    }
    out
}

/// Sorts the rows newest first, stably, by insertion.
pub fn sort_rows(rows: &Vec<SearchResultMessage>) -> (r: Vec<SearchResultMessage>)
    ensures
        r@ == sort_newest_first(rows@),
{
    let mut out: Vec<SearchResultMessage> = Vec::new();
    let mut i: usize = 0;
    proof {
        assert(rows@.subrange(0, 0) =~= Seq::<SearchResultMessage>::empty());
    }
    while i < rows.len()
        invariant
            0 <= i <= rows@.len(),
            out@ == sort_newest_first(rows@.subrange(0, i as int)),
        decreases rows@.len() - i,
    {
        let m = copy_message(&rows[i]);
        let mut p: usize = 0;
        while p < out.len() && out[p].timestamp >= m.timestamp
            invariant
                0 <= p <= out@.len(),
                m == rows@[i as int],
                forall|k: int| 0 <= k < p ==> out@[k].timestamp >= m.timestamp,
            decreases out@.len() - p,
        {
            p += 1;
        }
        proof {
            lemma_insert_at(out@, m, p as int);
            assert(rows@.subrange(0, i + 1).drop_last() =~= rows@.subrange(0, i as int));
            assert(rows@.subrange(0, i + 1).last() == rows@[i as int]);
        }
        out.insert(p, m);
        i += 1;
    }
    proof {
        assert(rows@.subrange(0, rows@.len() as int) =~= rows@);
    }
    out
}

/// Cuts one page out of the ordered rows and reports whether more exist.
pub fn paginate(rows: &Vec<SearchResultMessage>, offset: u32, batch: u32) -> (r: (Vec<
    SearchResultMessage,
>, bool))
    ensures
        r.0@ == page_of(rows@, offset, batch),
        r.1 == more_after(rows@, offset, batch),
{
    let len64: u64 = rows.len() as u64;
    let off64: u64 = offset as u64;
    let b64: u64 = batch as u64;
    let start64: u64 = if off64 <= len64 {
        off64
    } else {
        len64
    };
    let end64: u64 = if off64 + b64 <= len64 {
        off64 + b64
    } else {
        len64
    };
    let has_more = len64 > off64 + b64;
    let start: usize = start64 as usize;
    let end: usize = end64 as usize;
    let mut page: Vec<SearchResultMessage> = Vec::new();
    let mut i: usize = start;
    proof {
        assert(rows@.subrange(start as int, start as int) =~= Seq::<SearchResultMessage>::empty());
    }
    while i < end
        invariant
            start <= i <= end,
            end <= rows@.len(),
            page@ == rows@.subrange(start as int, i as int),
        decreases end - i,
    {
        proof {
            assert(rows@.subrange(start as int, i + 1) =~= rows@.subrange(
                start as int,
                i as int,
            ).push(rows@[i as int]));
        }
        page.push(copy_message(&rows[i]));
        i += 1;
    }
    proof {
        assert(page@ =~= page_of(rows@, offset, batch));
    }
    (page, has_more)
}

} // verus!
