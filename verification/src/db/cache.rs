//! The note cache: a read-through mapping from account name to the last
//! known annotation state.
//!
//! The cache is viewed as a `Map` from account name to [`QueriedNote`]. It
//! holds at most one entry per account and never evicts; entries are only
//! overwritten, by eager producer-side updates and by query worker results.

use vstd::prelude::*;

use super::query::{copy_queried_note, QueriedNote};
use vstd::pervasive::VecAdditionalExecFns;

verus! {

/// The mapping an entry list denotes: later entries win, though a
/// well-formed cache never repeats a key.
pub open spec fn map_of(s: Seq<(String, QueriedNote)>) -> Map<Seq<char>, QueriedNote>
    decreases s.len(),
{
    if s.len() == 0 {
        Map::empty()
    } else {
        map_of(s.drop_last()).insert(s.last().0@, s.last().1)
    }
}

proof fn lemma_map_of_domain(s: Seq<(String, QueriedNote)>, k: Seq<char>)
    ensures
        map_of(s).contains_key(k) <==> exists|i: int| 0 <= i < s.len() && s[i].0@ == k,
    decreases s.len(),
{
    if s.len() > 0 {
        lemma_map_of_domain(s.drop_last(), k);
        if s.last().0@ != k && map_of(s).contains_key(k) {
            let i = choose|i: int| 0 <= i < s.drop_last().len() && s.drop_last()[i].0@ == k;
            assert(s[i].0@ == k);
        }
        if exists|i: int| 0 <= i < s.len() && s[i].0@ == k {
            let i = choose|i: int| 0 <= i < s.len() && s[i].0@ == k;
            if i < s.len() - 1 {
                assert(s.drop_last()[i].0@ == k);
            }
        }
    }
}

proof fn lemma_map_of_found(s: Seq<(String, QueriedNote)>, i: int)
    requires
        0 <= i < s.len(),
        forall|i0: int, j0: int|
            0 <= i0 < j0 < s.len() ==> (#[trigger] s[i0]).0@ != (#[trigger] s[j0]).0@,
    ensures
        map_of(s).contains_key(s[i].0@),
        map_of(s)[s[i].0@] == s[i].1,
    decreases s.len(),
{
    lemma_map_of_domain(s, s[i].0@);
    if i < s.len() - 1 {
        assert(s.last().0@ != s[i].0@);
        lemma_map_of_found(s.drop_last(), i);
    }
}

proof fn lemma_map_of_update(s: Seq<(String, QueriedNote)>, i: int, v: (String, QueriedNote))
    requires
        0 <= i < s.len(),
        forall|i0: int, j0: int|
            0 <= i0 < j0 < s.len() ==> (#[trigger] s[i0]).0@ != (#[trigger] s[j0]).0@,
        v.0@ == s[i].0@,
    ensures
        map_of(s.update(i, v)) =~= map_of(s).insert(v.0@, v.1),
    decreases s.len(),
{
    if i == s.len() - 1 {
        assert(s.update(i, v).drop_last() =~= s.drop_last());
        assert(s.update(i, v).last() == v);
    } else {
        lemma_map_of_update(s.drop_last(), i, v);
        assert(s.update(i, v).drop_last() =~= s.drop_last().update(i, v));
        assert(s.update(i, v).last() == s.last());
        assert(s.last().0@ != v.0@);
    }
}

/// The note cache: at most one entry per account name, never evicted.
#[derive(Debug)]
pub struct NoteCache {
    entries: Vec<(String, QueriedNote)>,
}

impl View for NoteCache {
    type V = Map<Seq<char>, QueriedNote>;

    closed spec fn view(&self) -> Map<Seq<char>, QueriedNote> {
        map_of(self.entries@)
    }
}

impl NoteCache {
    /// One entry per account name.
    pub closed spec fn wf(self) -> bool {
        forall|i: int, j: int|
            0 <= i < j < self.entries@.len() ==> (#[trigger] self.entries@[i]).0@ != (
            #[trigger] self.entries@[j]).0@
    }

    /// An empty cache.
    pub fn new() -> (r: Self)
        ensures
            r.wf(),
            r@ == Map::<Seq<char>, QueriedNote>::empty(),
    {
        NoteCache { entries: Vec::new() }
    }

    /// The position of the entry for `key`, if one exists.
    fn position(&self, key: &String) -> (r: Option<usize>)
        ensures
            match r {
                Some(i) => i < self.entries@.len() && self.entries@[i as int].0@ == key@,
                None => forall|i: int|
                    0 <= i < self.entries@.len() ==> (#[trigger] self.entries@[i]).0@ != key@,
            },
    {
        let mut i: usize = 0;
        while i < self.entries.len()
            invariant
                0 <= i <= self.entries@.len(),
                forall|i0: int| 0 <= i0 < i ==> (#[trigger] self.entries@[i0]).0@ != key@,
            decreases self.entries@.len() - i,
        {
            if self.entries[i].0 == *key {
                return Some(i);
            }
            i += 1;
        }
        None
    }

    /// The cached state for `key`, if any.
    pub fn lookup(&self, key: &String) -> (r: Option<&QueriedNote>)
        requires
            self.wf(),
        ensures
            match r {
                Some(v) => self@.contains_key(key@) && *v == self@[key@],
                None => !self@.contains_key(key@),
            },
    {
        proof {
            lemma_map_of_domain(self.entries@, key@);
        }
        match self.position(key) {
            Some(i) => {
                proof {
                    lemma_map_of_found(self.entries@, i as int);
                }
                Some(&self.entries[i].1)
            },
            None => None,
        }
    }

    /// A copy of the cached state for `key`, if any.
    pub fn lookup_copy(&self, key: &String) -> (r: Option<QueriedNote>)
        requires
            self.wf(),
        ensures
            match r {
                Some(v) => self@.contains_key(key@) && v == self@[key@],
                None => !self@.contains_key(key@),
            },
    {
        match self.lookup(key) {
            Some(v) => Some(copy_queried_note(v)),
            None => None,
        }
    }

    /// Stores `value` under `key`, overwriting any previous state.
    pub fn put(&mut self, key: String, value: QueriedNote)
        requires
            old(self).wf(),
        ensures
            final(self).wf(),
            final(self)@ == old(self)@.insert(key@, value),
    {
        match self.position(&key) {
            Some(i) => {
                proof {
                    lemma_map_of_update(self.entries@, i as int, (key, value));
                }
                self.entries.set(i, (key, value));
            },
            None => {
                proof {
                    assert(self.entries@.push((key, value)).drop_last() =~= self.entries@);
                }
                self.entries.push((key, value));
                proof {
                    assert(forall|i0: int|
                        0 <= i0 < self.entries@.len() - 1 ==> #[trigger] self.entries@[i0]
                            == old(self).entries@[i0]);
                }
            },
        }
    }
}

} // verus!
