//! The write path: producer-side enqueueing with eager cache updates, and
//! the insert worker step that applies queued requests to the store.

use vstd::prelude::*;

use super::query::{
    as_stored_row, into_stored_row, ChatMessageInfo, Note, NoteColor, QueriedNote, StoredMessage,
};
use super::store::{
    db_messages, db_notes, exec_delete_note, exec_insert_message, exec_update_note_color,
    exec_upsert_note, now_timestamp,
};
use super::ChatDatabase;

verus! {

/// A request on the write queue, applied by the insert worker in FIFO order.
#[derive(Debug)]
pub enum DbInsert {
    /// Append one chat message to the log.
    ChatMessage(ChatMessageInfo),
    /// Insert or update the note for an account.
    AddNote(NoteToAdd),
    /// Replace the color of an existing note; a no-op without one.
    UpdateNoteColor(NoteColorUpdate),
    /// Delete the note for an account; a no-op without one.
    DeleteNote(String),
}

/// A note to insert or update, stamped with the time it was requested.
#[derive(Clone, Debug)]
pub struct NoteToAdd {
    pub account_name: String,
    pub note: String,
    pub cur_time: i64,
}

impl NoteToAdd {
    /// A note for the given account, stamped with the current time.
    pub fn new(account_name: &str, note: &str) -> (r: Self)
        ensures
            r.account_name@ == account_name@,
            r.note@ == note@,
    {
        NoteToAdd {
            account_name: account_name.to_owned(),
            note: note.to_owned(),
            cur_time: now_timestamp(),
        }
    }

    /// A note for the given account, stamped with the given time.
    pub fn with_time(account_name: &str, note: &str, cur_time: i64) -> (r: Self)
        ensures
            r.account_name@ == account_name@,
            r.note@ == note@,
            r.cur_time == cur_time,
    {
        NoteToAdd { account_name: account_name.to_owned(), note: note.to_owned(), cur_time }
    }
}

/// A field-for-field copy of a note request.
pub fn copy_note_to_add(n: &NoteToAdd) -> (r: NoteToAdd)
    ensures
        r == *n,
{
    NoteToAdd {
        account_name: n.account_name.clone(),
        note: n.note.clone(),
        cur_time: n.cur_time,
    }
}

/// A color change for an account's note.
#[derive(Clone, Debug)]
pub struct NoteColorUpdate {
    pub account_name: String,
    pub color: Option<NoteColor>,
}

impl NoteColorUpdate {
    /// A color change for the given account; `None` clears the color.
    pub fn new(account_name: &str, color: Option<NoteColor>) -> (r: Self)
        ensures
            r.account_name@ == account_name@,
            r.color == color,
    {
        NoteColorUpdate { account_name: account_name.to_owned(), color }
    }
}

/// A field-for-field copy of a color change.
pub fn copy_color_update(u: &NoteColorUpdate) -> (r: NoteColorUpdate)
    ensures
        r == *u,
{
    NoteColorUpdate {
        account_name: u.account_name.clone(),
        color: match &u.color {
            Some(c) => Some(*c),
            None => None,
        },
    }
}

/// The note row an upsert leaves behind: a fresh row carries the request
/// time as both timestamps and no color; an existing row keeps its added
/// timestamp and color.
pub open spec fn upserted_note(
    notes: Map<Seq<char>, Note>,
    account: String,
    text: String,
    time: i64,
) -> Note {
    if notes.contains_key(account@) {
        Note {
            account_name: account,
            note: text,
            note_added: notes[account@].note_added,
            note_updated: time,
            color: notes[account@].color,
        }
    } else {
        Note { account_name: account, note: text, note_added: time, note_updated: time, color: None }
    }
}

/// What one write request does to the notes table.
pub open spec fn notes_after_insert(
    req: DbInsert,
    notes: Map<Seq<char>, Note>,
) -> Map<Seq<char>, Note> {
    match req {
        DbInsert::ChatMessage(_) => notes,
        DbInsert::AddNote(n) => notes.insert(
            n.account_name@,
            upserted_note(notes, n.account_name, n.note, n.cur_time),
        ),
        DbInsert::UpdateNoteColor(u) => if notes.contains_key(u.account_name@) {
            notes.insert(u.account_name@, Note { color: u.color, ..notes[u.account_name@] })
        } else {
            notes
        },
        DbInsert::DeleteNote(a) => notes.remove(a@),
    }
}

/// What one write request does to the message log.
pub open spec fn messages_after_insert(
    req: DbInsert,
    game_start: i64,
    msgs: Seq<StoredMessage>,
) -> Seq<StoredMessage> {
    match req {
        DbInsert::ChatMessage(m) => msgs.push(
            StoredMessage { message: as_stored_row(m), game_start },
        ),
        _ => msgs,
    }
}

/// What a queue of write requests does to the store, given which of them
/// succeeded: requests are applied front to back, and a failed request is
/// dropped without effect.
pub open spec fn apply_inserts(
    reqs: Seq<DbInsert>,
    oks: Seq<bool>,
    game_start: i64,
    msgs: Seq<StoredMessage>,
    notes: Map<Seq<char>, Note>,
) -> (Seq<StoredMessage>, Map<Seq<char>, Note>)
    decreases reqs.len(),
{
    if reqs.len() == 0 {
        (msgs, notes)
    } else {
        let prev = apply_inserts(reqs.drop_last(), oks.drop_last(), game_start, msgs, notes);
        if oks.len() == reqs.len() && oks.last() {
            (
                messages_after_insert(reqs.last(), game_start, prev.0),
                notes_after_insert(reqs.last(), prev.1),
            )
        } else {
            prev
        }
    }
}

/// The eager cache update an upsert performs: an already cached note keeps
/// its added timestamp and color under the new text; any other state is
/// replaced by a fresh note.
pub open spec fn cache_after_upsert(
    cache: Map<Seq<char>, QueriedNote>,
    n: NoteToAdd,
) -> Map<Seq<char>, QueriedNote> {
    let key = n.account_name@;
    let value = if cache.contains_key(key) && cache[key] is Success {
        match cache[key] {
            QueriedNote::Success(existing) => QueriedNote::Success(
                Note { note: n.note, note_updated: n.cur_time, ..existing },
            ),
            _ => QueriedNote::Pending,
        }
    } else {
        QueriedNote::Success(
            Note {
                account_name: n.account_name,
                note: n.note,
                note_added: n.cur_time,
                note_updated: n.cur_time,
                color: None,
            },
        )
    };
    cache.insert(key, value)
}

/// The eager cache update a color change performs: only an already cached
/// note is touched, and only its color.
pub open spec fn cache_after_color(
    cache: Map<Seq<char>, QueriedNote>,
    u: NoteColorUpdate,
) -> Map<Seq<char>, QueriedNote> {
    let key = u.account_name@;
    if cache.contains_key(key) && cache[key] is Success {
        match cache[key] {
            QueriedNote::Success(existing) => cache.insert(
                key,
                QueriedNote::Success(Note { color: u.color, ..existing }),
            ),
            _ => cache,
        }
    } else {
        cache
    }
}

impl ChatDatabase {
    /// Enqueues one chat message for durable append. Non-blocking; a shut
    /// down engine drops the message.
    pub fn process_message(&mut self, message: ChatMessageInfo) -> (r: Result<(), String>)
        requires
            old(self).wf(),
        ensures
            final(self).wf(),
            r is Ok,
            old(self).released ==> *final(self) == *old(self),
            !old(self).released ==> final(self).insert_queue@ == old(self).insert_queue@.push(
                DbInsert::ChatMessage(message),
            ),
            !old(self).released ==> *final(self) == (ChatDatabase {
                insert_queue: final(self).insert_queue,
                ..*old(self)
            }),
    {
        if self.released {
            return Ok(());
        }
        self.insert_queue.push(DbInsert::ChatMessage(message));
        Ok(())
    }

    /// Enqueues a note insert-or-update and eagerly updates the cache, so an
    /// immediate read on the same key sees the new text.
    pub fn insert_note(&mut self, note: NoteToAdd) -> (r: Result<(), String>)
        requires
            old(self).wf(),
        ensures
            final(self).wf(),
            r is Ok,
            old(self).released ==> *final(self) == *old(self),
            !old(self).released ==> {
                &&& final(self).insert_queue@ == old(self).insert_queue@.push(
                    DbInsert::AddNote(note),
                )
                &&& final(self).note_cache@ == cache_after_upsert(old(self).note_cache@, note)
                &&& *final(self) == (ChatDatabase {
                    insert_queue: final(self).insert_queue,
                    note_cache: final(self).note_cache,
                    ..*old(self)
                })
            },
    {
        if self.released {
            return Ok(());
        }
        let key = note.account_name.clone();
        self.insert_queue.push(DbInsert::AddNote(copy_note_to_add(&note)));
        let cached = self.note_cache.lookup_copy(&key);
        match cached {
            Some(QueriedNote::Success(existing)) => {
                let updated = Note {
                    account_name: existing.account_name,
                    note: note.note,
                    note_added: existing.note_added,
                    note_updated: note.cur_time,
                    color: existing.color,
                };
                self.note_cache.put(key, QueriedNote::Success(updated));
            },
            _ => {
                let fresh = Note {
                    account_name: note.account_name,
                    note: note.note,
                    note_added: note.cur_time,
                    note_updated: note.cur_time,
                    color: None,
                };
                self.note_cache.put(key, QueriedNote::Success(fresh));
            },
        }
        Ok(())
    }

    /// Enqueues a note color change and eagerly updates the cache.
    pub fn update_note_color(&mut self, update: NoteColorUpdate) -> (r: Result<(), String>)
        requires
            old(self).wf(),
        ensures
            final(self).wf(),
            r is Ok,
            old(self).released ==> *final(self) == *old(self),
            !old(self).released ==> {
                &&& final(self).insert_queue@ == old(self).insert_queue@.push(
                    DbInsert::UpdateNoteColor(update),
                )
                &&& final(self).note_cache@ == cache_after_color(old(self).note_cache@, update)
                &&& *final(self) == (ChatDatabase {
                    insert_queue: final(self).insert_queue,
                    note_cache: final(self).note_cache,
                    ..*old(self)
                })
            },
    {
        if self.released {
            return Ok(());
        }
        let key = update.account_name.clone();
        self.insert_queue.push(DbInsert::UpdateNoteColor(copy_color_update(&update)));
        let cached = self.note_cache.lookup_copy(&key);
        match cached {
            Some(QueriedNote::Success(existing)) => {
                let updated = Note { color: update.color, ..existing };
                self.note_cache.put(key, QueriedNote::Success(updated));
            },
            _ => {},
        }
        Ok(())
    }

    /// Enqueues a note deletion and eagerly records the absence in the
    /// cache. Deleting a note that does not exist is not an error.
    pub fn delete_note(&mut self, account_name: &str) -> (r: Result<(), String>)
        requires
            old(self).wf(),
        ensures
            final(self).wf(),
            r is Ok,
            old(self).released ==> *final(self) == *old(self),
            !old(self).released ==> {
                &&& final(self).insert_queue@.len() == old(self).insert_queue@.len() + 1
                &&& final(self).insert_queue@.last() matches DbInsert::DeleteNote(a)
                    && a@ == account_name@
                &&& final(self).insert_queue@.subrange(
                    0,
                    old(self).insert_queue@.len() as int,
                ) == old(self).insert_queue@
                &&& final(self).note_cache@ == old(self).note_cache@.insert(
                    account_name@,
                    QueriedNote::NotFound,
                )
                &&& *final(self) == (ChatDatabase {
                    insert_queue: final(self).insert_queue,
                    note_cache: final(self).note_cache,
                    ..*old(self)
                })
            },
    {
        if self.released {
            return Ok(());
        }
        let owned = account_name.to_owned();
        let key = owned.clone();
        self.insert_queue.push(DbInsert::DeleteNote(owned));
        self.note_cache.put(key, QueriedNote::NotFound);
        proof {
            assert(self.insert_queue@.subrange(0, old(self).insert_queue@.len() as int)
                =~= old(self).insert_queue@);
        }
        Ok(())
    }

    /// Takes one request off the write queue and applies it to the store.
    /// Returns `None` on an empty queue; a failed statement is reported and
    /// dropped, and the worker goes on with the next request.
    pub fn step_insert_worker(&mut self) -> (r: Option<Result<(), String>>)
        requires
            old(self).wf(),
        ensures
            final(self).wf(),
            r is None <==> old(self).insert_queue@.len() == 0,
            r is None ==> *final(self) == *old(self),
            r matches Some(outcome) ==> {
                &&& final(self).insert_queue@ == old(self).insert_queue@.drop_first()
                &&& *final(self) == (ChatDatabase {
                    insert_queue: final(self).insert_queue,
                    conn: final(self).conn,
                    ..*old(self)
                })
                &&& outcome is Ok ==> {
                    &&& db_messages(final(self).conn) == messages_after_insert(
                        old(self).insert_queue@[0],
                        old(self).game_start,
                        db_messages(old(self).conn),
                    )
                    &&& db_notes(final(self).conn) == notes_after_insert(
                        old(self).insert_queue@[0],
                        db_notes(old(self).conn),
                    )
                }
                &&& outcome is Err ==> {
                    &&& db_messages(final(self).conn) == db_messages(old(self).conn)
                    &&& db_notes(final(self).conn) == db_notes(old(self).conn)
                }
            },
    {
        if self.insert_queue.len() == 0 {
            return None;
        }
        let req = self.insert_queue.remove(0);
        proof {
            assert(old(self).insert_queue@.remove(0) =~= old(self).insert_queue@.drop_first());
        }
        match req {
            DbInsert::ChatMessage(m) => {
                let row = into_stored_row(m);
                Some(exec_insert_message(&mut self.conn, &row, self.game_start))
            },
            DbInsert::AddNote(n) => Some(
                exec_upsert_note(&mut self.conn, &n.account_name, &n.note, n.cur_time),
            ),
            DbInsert::UpdateNoteColor(u) => Some(
                exec_update_note_color(&mut self.conn, &u.account_name, &u.color),
            ),
            DbInsert::DeleteNote(a) => Some(exec_delete_note(&mut self.conn, &a)),
        }
    }

    /// Drains the write queue in FIFO order. The store afterwards holds the
    /// queued requests applied front to back, less those whose statements
    /// failed.
    pub fn drain_insert_queue(&mut self)
        requires
            old(self).wf(),
        ensures
            final(self).wf(),
            final(self).insert_queue@.len() == 0,
            *final(self) == (ChatDatabase {
                insert_queue: final(self).insert_queue,
                conn: final(self).conn,
                ..*old(self)
            }),
            exists|oks: Seq<bool>|
                oks.len() == old(self).insert_queue@.len() && (
                db_messages(final(self).conn),
                db_notes(final(self).conn),
                ) == apply_inserts(
                    old(self).insert_queue@,
                    oks,
                    old(self).game_start,
                    db_messages(old(self).conn),
                    db_notes(old(self).conn),
                ),
    {
        let ghost orig = *old(self);
        let ghost mut done: Seq<bool> = Seq::empty();
        proof {
            assert(orig.insert_queue@.subrange(0, 0) =~= Seq::<DbInsert>::empty());
        }
        loop
            invariant
                orig == *old(self),
                self.wf(),
                done.len() <= orig.insert_queue@.len(),
                self.insert_queue@ == orig.insert_queue@.subrange(
                    done.len() as int,
                    orig.insert_queue@.len() as int,
                ),
                *self == (ChatDatabase {
                    insert_queue: self.insert_queue,
                    conn: self.conn,
                    ..orig
                }),
                (db_messages(self.conn), db_notes(self.conn)) == apply_inserts(
                    orig.insert_queue@.subrange(0, done.len() as int),
                    done,
                    orig.game_start,
                    db_messages(orig.conn),
                    db_notes(orig.conn),
                ),
            decreases self.insert_queue@.len(),
        {
            let ghost prev_queue = self.insert_queue@;
            let ghost prev_done = done;
            let outcome = match self.step_insert_worker() {
                None => {
                    proof {
                        assert(orig.insert_queue@.subrange(0, done.len() as int)
                            =~= orig.insert_queue@);
                        assert(done.len() == orig.insert_queue@.len() && (
                        db_messages(self.conn),
                        db_notes(self.conn),
                        ) == apply_inserts(
                            orig.insert_queue@,
                            done,
                            orig.game_start,
                            db_messages(orig.conn),
                            db_notes(orig.conn),
                        ));
                    }
                    return ;
                },
                Some(res) => res,
            };
            proof {
                let k = prev_done.len() as int;
                let ok = outcome is Ok;
                done = prev_done.push(ok);
                let prefix = orig.insert_queue@.subrange(0, k + 1);
                assert(prefix.drop_last() =~= orig.insert_queue@.subrange(0, k));
                assert(done.drop_last() =~= prev_done);
                assert(prefix.last() == orig.insert_queue@[k]);
                assert(prev_queue[0] == orig.insert_queue@[k]);
                assert(self.insert_queue@ =~= orig.insert_queue@.subrange(
                    k + 1,
                    orig.insert_queue@.len() as int,
                ));
            }
        }
    }
}

} // verus!
