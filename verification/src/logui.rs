//! Producer-side state of the search view: the query being edited, the
//! results shown, and the polling that moves session outcomes into them.

pub mod buffer;
pub mod settings;

use vstd::prelude::*;
use vstd::string::StringExecFns;

use crate::db::query::{
    copy_message, SearchQuery, SearchResultMessage, SearchState,
};

verus! {

/// The channel filter a dropdown index stands for: all channels, squad
/// only, or party only.
pub open spec fn channel_filter_spec(index: int) -> Option<Seq<char>> {
    if index == 1 {
        Some("Squad"@)
    } else if index == 2 {
        Some("Party"@)
    } else {
        None
    }
}

/// The channel filter a dropdown index stands for.
pub fn channel_filter_for_index(index: usize) -> (r: Option<String>)
    ensures
        match r {
            Some(s) => channel_filter_spec(index as int) matches Some(v) && s@ == v,
            None => channel_filter_spec(index as int) is None,
        },
{
    if index == 1 {
        Some(String::from_str("Squad"))
    } else if index == 2 {
        Some(String::from_str("Party"))
    } else {
        None
    }
}

/// State for the search view.
#[derive(Debug)]
pub struct SearchUiState {
    /// Current search query text.
    pub search_text: String,
    /// Filter by account name.
    pub account_filter: String,
    /// Filter by channel kind, as an index into the channel dropdown.
    pub channel_type_index: usize,
    /// Whether the search window is open.
    pub window_open: bool,
    /// Counter for generating unique search identifiers.
    pub search_id_counter: u64,
    /// The results currently shown.
    pub cached_results: Vec<SearchResultMessage>,
    /// Whether more results can be loaded.
    pub has_more: bool,
    /// Current offset for pagination.
    pub current_offset: u32,
    /// Whether a search is in progress.
    pub is_searching: bool,
    /// Last error message.
    pub error_message: Option<String>,
    /// The search identifier the shown results answer.
    pub cached_search_id: u64,
}

impl SearchUiState {
    /// A closed search view with nothing searched yet.
    pub fn new() -> (r: Self)
        ensures
            r.search_text@.len() == 0,
            r.account_filter@.len() == 0,
            r.channel_type_index == 0,
            !r.window_open,
            r.search_id_counter == 0,
            r.cached_results@.len() == 0,
            !r.has_more,
            r.current_offset == 0,
            !r.is_searching,
            r.error_message is None,
            r.cached_search_id == 0,
    {
        SearchUiState {
            search_text: String::new(),
            account_filter: String::new(),
            channel_type_index: 0,
            window_open: false,
            search_id_counter: 0,
            cached_results: Vec::new(),
            has_more: false,
            current_offset: 0,
            is_searching: false,
            error_message: None,
            cached_search_id: 0,
        }
    }

    /// The next unique search identifier.
    pub fn next_search_id(&mut self) -> (r: u64)
        requires
            old(self).search_id_counter < u64::MAX,
        ensures
            final(self).search_id_counter == old(self).search_id_counter + 1,
            r == final(self).search_id_counter,
            *final(self) == (SearchUiState {
                search_id_counter: final(self).search_id_counter,
                ..*old(self)
            }),
    {
        self.search_id_counter = self.search_id_counter + 1;
        self.search_id_counter
    }

    /// Clears the shown results for a fresh search.
    pub fn clear_for_new_search(&mut self)
        ensures
            final(self).cached_results@.len() == 0,
            !final(self).has_more,
            final(self).current_offset == 0,
            final(self).error_message is None,
            *final(self) == (SearchUiState {
                cached_results: final(self).cached_results,
                has_more: false,
                current_offset: 0,
                error_message: None,
                ..*old(self)
            }),
    {
        self.cached_results.clear();
        self.has_more = false;
        self.current_offset = 0;
        self.error_message = None;
    }

    /// Prepares a search from the view's current text and filters: a fresh
    /// identifier is drawn, the shown results are cleared unless this
    /// continues a previous search, and the built query carries the text,
    /// the filters, the current offset and the given batch size.
    pub fn begin_search(&mut self, append: bool, batch_size: u32) -> (q: SearchQuery)
        requires
            old(self).search_id_counter < u64::MAX,
        ensures
            final(self).search_id_counter == old(self).search_id_counter + 1,
            final(self).cached_search_id == final(self).search_id_counter,
            final(self).is_searching,
            final(self).search_text == old(self).search_text,
            final(self).account_filter == old(self).account_filter,
            final(self).channel_type_index == old(self).channel_type_index,
            final(self).window_open == old(self).window_open,
            !append ==> {
                &&& final(self).cached_results@.len() == 0
                &&& !final(self).has_more
                &&& final(self).current_offset == 0
                &&& final(self).error_message is None
            },
            append ==> {
                &&& final(self).cached_results@ == old(self).cached_results@
                &&& final(self).has_more == old(self).has_more
                &&& final(self).current_offset == old(self).current_offset
                &&& final(self).error_message == old(self).error_message
            },
            q.search_id == final(self).search_id_counter,
            q.search_text == old(self).search_text,
            q.offset == final(self).current_offset,
            q.batch_size == batch_size,
            match q.channel_type {
                Some(s) => channel_filter_spec(old(self).channel_type_index as int)
                    matches Some(v) && s@ == v,
                None => channel_filter_spec(old(self).channel_type_index as int) is None,
            },
            old(self).account_filter@.len() == 0 ==> q.account_name is None,
            old(self).account_filter@.len() > 0 ==> (q.account_name matches Some(a) && a == old(
                self,
            ).account_filter),
            q.timestamp_min is None,
            q.timestamp_max is None,
    {
        let search_id = self.next_search_id();
        if !append {
            self.clear_for_new_search();
        }
        self.is_searching = true;
        self.cached_search_id = search_id;
        let mut query = SearchQuery::new(self.search_text.clone(), search_id);
        query.offset = self.current_offset;
        query.batch_size = batch_size;
        query.channel_type = channel_filter_for_index(self.channel_type_index);
        if !self.account_filter.as_str().is_empty() {
            query.account_name = Some(self.account_filter.clone());
        }
        query
    }

    /// Advances the offset past the shown results and prepares the search
    /// for the next batch.
    pub fn load_more(&mut self, batch_size: u32) -> (q: SearchQuery)
        requires
            old(self).search_id_counter < u64::MAX,
            old(self).current_offset + batch_size <= u32::MAX,
        ensures
            final(self).current_offset == old(self).current_offset + batch_size,
            q.offset == final(self).current_offset,
            q.batch_size == batch_size,
            final(self).is_searching,
            final(self).cached_results@ == old(self).cached_results@,
    {
        self.current_offset = self.current_offset + batch_size;
        self.begin_search(true, batch_size)
    }

    /// Folds a polled session state into the view: only outcomes for the
    /// identifier the view waits for are taken; a first batch replaces the
    /// shown results, a later batch is appended; an error is shown; a
    /// session already taken over by another search stops the waiting.
    pub fn poll_search_results(&mut self, state: &SearchState)
        ensures
            !old(self).is_searching ==> *final(self) == *old(self),
            old(self).is_searching ==> match *state {
                SearchState::Idle => *final(self) == *old(self),
                SearchState::Searching(id) => {
                    &&& id == old(self).cached_search_id ==> *final(self) == *old(self)
                    &&& id != old(self).cached_search_id ==> *final(self) == (SearchUiState {
                        is_searching: false,
                        ..*old(self)
                    })
                },
                SearchState::Results(results) => {
                    &&& results.search_id != old(self).cached_search_id ==> *final(self) == *old(
                        self,
                    )
                    &&& results.search_id == old(self).cached_search_id ==> {
                        &&& results.offset == 0 ==> final(self).cached_results@
                            == results.messages@
                        &&& results.offset != 0 ==> final(self).cached_results@ == old(
                            self,
                        ).cached_results@ + results.messages@
                        &&& final(self).has_more == results.has_more
                        &&& !final(self).is_searching
                        &&& *final(self) == (SearchUiState {
                            cached_results: final(self).cached_results,
                            has_more: results.has_more,
                            is_searching: false,
                            ..*old(self)
                        })
                    }
                },
                SearchState::Error(e) => {
                    &&& final(self).error_message matches Some(msg) && msg == e
                    &&& !final(self).is_searching
                    &&& *final(self) == (SearchUiState {
                        error_message: final(self).error_message,
                        is_searching: false,
                        ..*old(self)
                    })
                },
            },
    {
        if !self.is_searching {
            return ;
        }
        match state {
            SearchState::Idle => {},
            SearchState::Searching(id) => {
                if *id != self.cached_search_id {
                    self.is_searching = false;
                }
            },
            SearchState::Results(results) => {
                if results.search_id == self.cached_search_id {
                    if results.offset == 0 {
                        self.cached_results.clear();
                    }
                    let ghost base = self.cached_results@;
                    let mut i: usize = 0;
                    proof {
                        assert(base + results.messages@.subrange(0, 0) =~= base);
                    }
                    while i < results.messages.len()
                        invariant
                            0 <= i <= results.messages@.len(),
                            self.cached_results@ == base + results.messages@.subrange(
                                0,
                                i as int,
                            ),
                            *self == (SearchUiState {
                                cached_results: self.cached_results,
                                ..*old(self)
                            }),
                        decreases results.messages@.len() - i,
                    {
                        proof {
                            assert(base + results.messages@.subrange(0, i + 1) =~= (base
                                + results.messages@.subrange(0, i as int)).push(
                                results.messages@[i as int],
                            ));
                        }
                        self.cached_results.push(copy_message(&results.messages[i]));
                        i += 1;
                    }
                    proof {
                        assert(base + results.messages@.subrange(
                            0,
                            results.messages@.len() as int,
                        ) =~= base + results.messages@);
                    }
                    self.has_more = results.has_more;
                    self.is_searching = false;
                }
            },
            SearchState::Error(e) => {
                self.error_message = Some(e.clone());
                self.is_searching = false;
            },
        }
    }
}

} // verus!
