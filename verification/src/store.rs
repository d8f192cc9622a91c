//! A store in memory that behaves as the model says. It stands in for the
//! real store where there is no network: in tests, and wherever the typed
//! operations are wanted without a transport.

use crate::error::{Error, Operation};
use crate::kv::{is_missing_session, text_of, Indexed, KVPair, KeyValueEntry};
use crate::model::{concerns, unlocked, StoreState};
use crate::session::{is_invalid_behavior, label_of, Behavior, SessionEntry, SessionRecord};
use crate::text::{format_decimal, has_prefix};
use vstd::prelude::*;
use vstd::string::*;

verus! {

/// The entries of a list as mathematical values.
pub open spec fn entry_views(entries: Seq<KVPair>) -> Seq<KeyValueEntry> {
    entries.map_values(|entry: KVPair| entry@)
}

/// The sessions of a list as mathematical values.
pub open spec fn session_views(sessions: Seq<SessionEntry>) -> Seq<SessionRecord> {
    sessions.map_values(|session: SessionEntry| session@)
}

/// An optional entry as a mathematical value.
pub open spec fn entry_view(entry: Option<KVPair>) -> Option<KeyValueEntry> {
    match entry {
        Some(entry) => Some(entry@),
        None => None,
    }
}

/// An optional session as a mathematical value.
pub open spec fn session_view(session: Option<SessionEntry>) -> Option<SessionRecord> {
    match session {
        Some(session) => Some(session@),
        None => None,
    }
}

/// The tag that a write of `pair` stores: that of `pair`, or zero.
pub open spec fn flags_of(pair: KVPair) -> u64 {
    match pair.flags {
        Some(tag) => tag,
        None => 0,
    }
}

/// Whether `error` says that the store could not take the write that
/// `operation` on `subject` asked for.
pub open spec fn is_refused(error: Error, operation: Operation, subject: Seq<char>) -> bool {
    error matches Error::HttpError { operation: o, subject: s, .. } && o == operation && s@
        == subject
}

/// A store in memory.
#[derive(Debug)]
pub struct Store {
    entries: Vec<KVPair>,
    sessions: Vec<SessionEntry>,
    index: u64,
}

impl View for Store {
    type V = StoreState;

    closed spec fn view(&self) -> StoreState {
        StoreState {
            entries: entry_views(self.entries@),
            sessions: session_views(self.sessions@),
            index: self.index,
        }
    }
}

proof fn lemma_filter_step<A>(all: Seq<A>, keep: spec_fn(A) -> bool, i: int)
    requires
        0 <= i < all.len(),
    ensures
        all.take(i + 1).filter(keep) == if keep(all[i]) {
            all.take(i).filter(keep).push(all[i])
        } else {
            all.take(i).filter(keep)
        },
{
    reveal(Seq::filter);
    assert(all.take(i + 1).drop_last() =~= all.take(i));
}

fn find_entry(entries: &Vec<KVPair>, key: &String) -> (at: Option<usize>)
    ensures
        match at {
            Some(i) => i < entries.len() && entries[i as int].key@ == key@,
            None => forall|i: int| 0 <= i < entries.len() ==> (#[trigger] entries[i]).key@ != key@,
        },
{
    let mut i: usize = 0;
    while i < entries.len()
        invariant
            i <= entries.len(),
            forall|j: int| 0 <= j < i ==> (#[trigger] entries[j]).key@ != key@,
        decreases entries.len() - i,
    {
        if entries[i].key == *key {
            return Some(i);
        }
        i = i + 1;
    }
    None
}

fn find_session(sessions: &Vec<SessionEntry>, id: &String) -> (at: Option<usize>)
    ensures
        match at {
            Some(i) => i < sessions.len() && text_of(sessions[i as int].id) == Some(id@),
            None => forall|i: int|
                0 <= i < sessions.len() ==> text_of((#[trigger] sessions[i]).id) != Some(id@),
        },
{
    let mut i: usize = 0;
    while i < sessions.len()
        invariant
            i <= sessions.len(),
            forall|j: int| 0 <= j < i ==> text_of((#[trigger] sessions[j]).id) != Some(id@),
        decreases sessions.len() - i,
    {
        let same = match &sessions[i].id {
            Some(own) => *own == *id,
            None => false,
        };
        if same {
            return Some(i);
        }
        i = i + 1;
    }
    None
}

fn refused(operation: Operation, subject: &str) -> (error: Error)
    ensures
        is_refused(error, operation, subject@),
{
    Error::HttpError {
        operation,
        subject: String::from_str(subject),
        detail: String::from_str("the store has run out of indices"),
    }
}

impl Store {
    #[verifier::type_invariant]
    spec fn in_order(&self) -> bool {
        self@.wf()
    }

    /// A store that nothing was written to.
    pub fn new() -> (store: Self)
        ensures
            store@ == StoreState::empty(),
    {
        let store = Store { entries: Vec::new(), sessions: Vec::new(), index: 0 };
        assert(store@.entries =~= Seq::empty());
        assert(store@.sessions =~= Seq::empty());
        store
    }

    /// A store that holds nothing and whose last write had the index
    /// `index`: what is left of a store that was emptied.
    pub fn emptied_at(index: u64) -> (store: Self)
        ensures
            store@ == (StoreState { index, ..StoreState::empty() }),
            store@.wf(),
    {
        let store = Store { entries: Vec::new(), sessions: Vec::new(), index };
        assert(store@.entries =~= Seq::empty());
        assert(store@.sessions =~= Seq::empty());
        store
    }

    /// The index of the last write.
    pub fn index(&self) -> (index: u64)
        ensures
            index == self@.index,
    {
        self.index
    }

    /// Whether the store has run out of indices and takes no write.
    pub fn is_full(&self) -> (full: bool)
        ensures
            full == self@.full(),
    {
        self.index == u64::MAX
    }

    fn place(&self, key: &String) -> (at: Option<usize>)
        ensures
            self@.wf(),
            match at {
                Some(i) => i < self.entries.len() && self@.has_key(key@) && self@.place(key@) == i
                    && self@.entry(key@) == Some(self.entries[i as int]@),
                None => !self@.has_key(key@) && self@.entry(key@) is None,
            },
    {
        proof {
            use_type_invariant(self);
        }
        let at = find_entry(&self.entries, key);
        proof {
            if let Some(i) = at {
                self@.lemma_place(i as int);
            }
        }
        at
    }

    fn seat(&self, id: &String) -> (at: Option<usize>)
        ensures
            self@.wf(),
            match at {
                Some(i) => i < self.sessions.len() && self@.is_live(id@) && self@.seat(id@) == i
                    && self@.session(id@) == Some(self.sessions[i as int]@),
                None => !self@.is_live(id@) && self@.session(id@) is None,
            },
    {
        proof {
            use_type_invariant(self);
        }
        let at = find_session(&self.sessions, id);
        proof {
            if let Some(i) = at {
                self@.lemma_seat(i as int);
            }
        }
        at
    }

    /// Puts `entries` and `sessions` in place of what the store holds, at the
    /// index `index`.
    fn replace(&mut self, entries: Vec<KVPair>, sessions: Vec<SessionEntry>, index: u64)
        requires
            (StoreState {
                entries: entry_views(entries@),
                sessions: session_views(sessions@),
                index,
            }).wf(),
        ensures
            final(self)@ == (StoreState {
                entries: entry_views(entries@),
                sessions: session_views(sessions@),
                index,
            }),
    {
        *self = Store { entries, sessions, index };
    }

    /// Takes the entries and the sessions out of the store, which is left
    /// empty at its index.
    fn take(&mut self) -> (held: (Vec<KVPair>, Vec<SessionEntry>))
        ensures
            entry_views(held.0@) == old(self)@.entries,
            session_views(held.1@) == old(self)@.sessions,
            held.0@ == old(self).entries@,
            held.1@ == old(self).sessions@,
            final(self).index == old(self).index,
            old(self)@.wf(),
    {
        proof {
            use_type_invariant(&*self);
        }
        let mut entries: Vec<KVPair> = Vec::new();
        let mut sessions: Vec<SessionEntry> = Vec::new();
        core::mem::swap(&mut self.entries, &mut entries);
        core::mem::swap(&mut self.sessions, &mut sessions);
        (entries, sessions)
    }

    /// Writes the value and the tag of `pair` under its key, creating the
    /// entry if there is none. Who holds the lock stays as it is. The answer
    /// is `true`; a store that has run out of indices refuses.
    pub fn put(&mut self, pair: &KVPair) -> (r: Result<bool, Error>)
        ensures
            final(self)@.wf(),
            match r {
                Ok(done) => done && !old(self)@.full() && final(self)@ == old(self)@.put(
                    pair.key@,
                    pair.value@,
                    flags_of(*pair),
                ),
                Err(error) => old(self)@.full() && final(self)@ == old(self)@ && is_refused(
                    error,
                    Operation::KvPut,
                    pair.key@,
                ),
            },
    {
        proof {
            use_type_invariant(&*self);
        }
        if self.index == u64::MAX {
            return Err(refused(Operation::KvPut, pair.key.as_str()));
        }
        let now = self.index + 1;
        let flags = match pair.flags {
            Some(tag) => tag,
            None => 0,
        };
        let at = self.place(&pair.key);
        let ghost before = self@;
        let (mut entries, sessions) = self.take();
        proof {
            before.lemma_put(pair.key@, pair.value@, flags);
        }
        match at {
            Some(i) => {
                let old = &entries[i];
                let entry = KVPair {
                    key: old.key.clone(),
                    createindex: old.createindex,
                    modifyindex: Some(now),
                    lockindex: old.lockindex,
                    flags: Some(flags),
                    value: pair.value.clone(),
                    session: match &old.session {
                        Some(id) => Some(id.clone()),
                        None => None,
                    },
                };
                entries.set(i, entry);
                assert(entry_views(entries@) =~= before.put(pair.key@, pair.value@, flags).entries);
            },
            None => {
                let entry = KVPair {
                    key: pair.key.clone(),
                    createindex: Some(now),
                    modifyindex: Some(now),
                    lockindex: Some(0),
                    flags: Some(flags),
                    value: pair.value.clone(),
                    session: None,
                };
                entries.push(entry);
                assert(entry_views(entries@) =~= before.put(pair.key@, pair.value@, flags).entries);
            },
        }
        self.replace(entries, sessions, now);
        Ok(true)
    }

    /// Tries to make the session that `pair` names the holder of the lock on
    /// the entry, creating the entry if there is none, and writes the value
    /// and the tag of `pair` with it.
    ///
    /// Without a session in `pair` the call fails, whatever the store holds.
    /// The answer is `true` where the session now holds the lock, and
    /// `false`, with nothing changed, where another session holds it or the
    /// session is not valid: then the caller may try again later. A store
    /// that has run out of indices refuses.
    pub fn acquire(&mut self, pair: &KVPair) -> (r: Result<bool, Error>)
        ensures
            final(self)@.wf(),
            match pair.session {
                None => r matches Err(error) && is_missing_session(
                    error,
                    Operation::KvAcquire,
                    pair.key@,
                ) && final(self)@ == old(self)@,
                Some(id) => if old(self)@.full() {
                    r matches Err(error) && is_refused(error, Operation::KvAcquire, pair.key@)
                        && final(self)@ == old(self)@
                } else {
                    r == Ok::<bool, Error>(old(self)@.can_acquire(pair.key@, id@))
                        && final(self)@ == old(self)@.acquire(
                        pair.key@,
                        pair.value@,
                        flags_of(*pair),
                        id@,
                    )
                },
            },
    {
        proof {
            use_type_invariant(&*self);
        }
        let id = match &pair.session {
            Some(id) => id,
            None => {
                return Err(
                    Error::MissingSession {
                        operation: Operation::KvAcquire,
                        subject: pair.key.clone(),
                    },
                );
            },
        };
        if self.index == u64::MAX {
            return Err(refused(Operation::KvAcquire, pair.key.as_str()));
        }
        let now = self.index + 1;
        let flags = match pair.flags {
            Some(tag) => tag,
            None => 0,
        };
        if self.seat(id).is_none() {
            return Ok(false);
        }
        let at = self.place(&pair.key);
        let ghost before = self@;
        proof {
            before.lemma_acquire(pair.key@, pair.value@, flags, id@);
        }
        match at {
            Some(i) => {
                let free = match &self.entries[i].session {
                    Some(holder) => if *holder == *id {
                        Some(false)
                    } else {
                        None
                    },
                    None => Some(true),
                };
                match free {
                    None => Ok(false),
                    Some(free) => {
                        let (mut entries, sessions) = self.take();
                        let old = &entries[i];
                        let locked = match old.lockindex {
                            Some(count) => if free {
                                count + 1
                            } else {
                                count
                            },
                            None => 1,
                        };
                        let entry = KVPair {
                            key: old.key.clone(),
                            createindex: old.createindex,
                            modifyindex: Some(now),
                            lockindex: Some(locked),
                            flags: Some(flags),
                            value: pair.value.clone(),
                            session: Some(id.clone()),
                        };
                        entries.set(i, entry);
                        assert(entry_views(entries@) =~= before.acquire(
                            pair.key@,
                            pair.value@,
                            flags,
                            id@,
                        ).entries);
                        self.replace(entries, sessions, now);
                        Ok(true)
                    },
                }
            },
            None => {
                let (mut entries, sessions) = self.take();
                let entry = KVPair {
                    key: pair.key.clone(),
                    createindex: Some(now),
                    modifyindex: Some(now),
                    lockindex: Some(1),
                    flags: Some(flags),
                    value: pair.value.clone(),
                    session: Some(id.clone()),
                };
                entries.push(entry);
                assert(entry_views(entries@) =~= before.acquire(
                    pair.key@,
                    pair.value@,
                    flags,
                    id@,
                ).entries);
                self.replace(entries, sessions, now);
                Ok(true)
            },
        }
    }

    /// Gives back the lock that the session that `pair` names holds on the
    /// entry, and writes the value and the tag of `pair` with it.
    ///
    /// Without a session in `pair` the call fails, whatever the store holds.
    /// The answer is `true` where the lock was given back, and `false`, with
    /// nothing changed, where the session did not hold it. A store that has
    /// run out of indices refuses.
    pub fn release(&mut self, pair: &KVPair) -> (r: Result<bool, Error>)
        ensures
            final(self)@.wf(),
            match pair.session {
                None => r matches Err(error) && is_missing_session(
                    error,
                    Operation::KvRelease,
                    pair.key@,
                ) && final(self)@ == old(self)@,
                Some(id) => if old(self)@.full() {
                    r matches Err(error) && is_refused(error, Operation::KvRelease, pair.key@)
                        && final(self)@ == old(self)@
                } else {
                    r == Ok::<bool, Error>(old(self)@.holds(pair.key@, id@)) && final(self)@
                        == old(self)@.release(pair.key@, pair.value@, flags_of(*pair), id@)
                },
            },
    {
        proof {
            use_type_invariant(&*self);
        }
        let id = match &pair.session {
            Some(id) => id,
            None => {
                return Err(
                    Error::MissingSession {
                        operation: Operation::KvRelease,
                        subject: pair.key.clone(),
                    },
                );
            },
        };
        if self.index == u64::MAX {
            return Err(refused(Operation::KvRelease, pair.key.as_str()));
        }
        let now = self.index + 1;
        let flags = match pair.flags {
            Some(tag) => tag,
            None => 0,
        };
        let at = self.place(&pair.key);
        let ghost before = self@;
        proof {
            before.lemma_release(pair.key@, pair.value@, flags, id@);
        }
        match at {
            Some(i) => {
                let held = match &self.entries[i].session {
                    Some(holder) => *holder == *id,
                    None => false,
                };
                if !held {
                    return Ok(false);
                }
                let (mut entries, sessions) = self.take();
                let old = &entries[i];
                let entry = KVPair {
                    key: old.key.clone(),
                    createindex: old.createindex,
                    modifyindex: Some(now),
                    lockindex: old.lockindex,
                    flags: Some(flags),
                    value: pair.value.clone(),
                    session: None,
                };
                entries.set(i, entry);
                assert(entry_views(entries@) =~= before.release(
                    pair.key@,
                    pair.value@,
                    flags,
                    id@,
                ).entries);
                self.replace(entries, sessions, now);
                Ok(true)
            },
            None => Ok(false),
        }
    }

    /// Removes `key` or, where `recursive`, every key that begins with it.
    /// The answer is `true`, also where there was nothing to remove. A store
    /// that has run out of indices refuses.
    pub fn delete(&mut self, key: &str, recursive: bool) -> (r: Result<bool, Error>)
        ensures
            final(self)@.wf(),
            match r {
                Ok(done) => done && !old(self)@.full() && final(self)@ == old(self)@.delete(
                    key@,
                    recursive,
                ),
                Err(error) => old(self)@.full() && final(self)@ == old(self)@ && is_refused(
                    error,
                    Operation::KvDelete,
                    key@,
                ),
            },
    {
        proof {
            use_type_invariant(&*self);
        }
        if self.index == u64::MAX {
            return Err(refused(Operation::KvDelete, key));
        }
        let now = self.index + 1;
        let ghost before = self@;
        let ghost keep = |entry: KeyValueEntry| !concerns(entry, key@, recursive);
        let (entries, sessions) = self.take();
        let ghost all = entry_views(entries@);
        let mut kept: Vec<KVPair> = Vec::new();
        let mut i: usize = 0;
        proof {
            reveal(Seq::filter);
            before.lemma_pruned(keep);
        }
        while i < entries.len()
            invariant
                i <= entries.len(),
                all == entry_views(entries@),
                keep == |entry: KeyValueEntry| !concerns(entry, key@, recursive),
                entry_views(kept@) == all.take(i as int).filter(keep),
            decreases entries.len() - i,
        {
            proof {
                lemma_filter_step(all, keep, i as int);
            }
            let gone = if recursive {
                has_prefix(entries[i].key.as_str(), key)
            } else {
                crate::text::same_str(entries[i].key.as_str(), key)
            };
            if !gone {
                let copy = entries[i].clone();
                kept.push(copy);
            }
            i = i + 1;
        }
        proof {
            assert(all.take(i as int) =~= all);
        }
        self.replace(kept, sessions, now);
        Ok(true)
    }

    /// Creates a session as `wanted` asks and returns it with the identifier
    /// that it was given. A behavior that is neither `release` nor `delete`
    /// is refused, and so is any creation by a store that has run out of
    /// indices.
    pub fn create_session(&mut self, wanted: &SessionEntry) -> (r: Result<SessionEntry, Error>)
        ensures
            final(self)@.wf(),
            if !wanted@.well_formed() {
                r matches Err(error) && is_invalid_behavior(error, label_of(wanted@))
                    && final(self)@ == old(self)@
            } else if old(self)@.full() {
                r matches Err(error) && is_refused(
                    error,
                    Operation::SessionCreate,
                    label_of(wanted@),
                ) && final(self)@ == old(self)@
            } else {
                r matches Ok(made) && made@ == old(self)@.admitted(wanted@) && final(self)@
                    == old(self)@.create_session(wanted@)
            },
    {
        proof {
            use_type_invariant(&*self);
        }
        let label = match &wanted.name {
            Some(name) => name.clone(),
            None => String::new(),
        };
        if !wanted.is_well_formed() {
            return Err(
                Error::InvalidBehavior { operation: Operation::SessionCreate, subject: label },
            );
        }
        if self.index == u64::MAX {
            return Err(refused(Operation::SessionCreate, label.as_str()));
        }
        let now = self.index + 1;
        let ghost before = self@;
        let mut made = wanted.clone();
        made.id = Some(format_decimal(now));
        made.createindex = Some(now);
        let copy = made.clone();
        proof {
            before.lemma_create_session(wanted@);
        }
        let (entries, mut sessions) = self.take();
        sessions.push(made);
        assert(session_views(sessions@) =~= before.create_session(wanted@).sessions);
        self.replace(entries, sessions, now);
        Ok(copy)
    }

    /// Destroys the session `id`. The entries that it held the lock on are
    /// unlocked or removed, as its behavior says. The end of a session by
    /// its time to live or by a failed check is this same step.
    ///
    /// The answer is `true`, also where no such session is valid: to destroy
    /// what is gone already is no error. A store that has run out of indices
    /// refuses to end a session that is valid.
    pub fn destroy_session(&mut self, id: &str) -> (r: Result<bool, Error>)
        ensures
            final(self)@.wf(),
            if !old(self)@.is_live(id@) {
                r == Ok::<bool, Error>(true) && final(self)@ == old(self)@
            } else if old(self)@.full() {
                r matches Err(error) && is_refused(error, Operation::SessionDestroy, id@)
                    && final(self)@ == old(self)@
            } else {
                r == Ok::<bool, Error>(true) && final(self)@ == old(self)@.end_session(id@)
            },
    {
        proof {
            use_type_invariant(&*self);
        }
        let name = String::from_str(id);
        let at = match self.seat(&name) {
            Some(at) => at,
            None => {
                return Ok(true);
            },
        };
        if self.index == u64::MAX {
            return Err(refused(Operation::SessionDestroy, id));
        }
        let now = self.index + 1;
        let behavior = self.sessions[at].effective_behavior();
        let ghost before = self@;
        let ghost stay = |session: SessionRecord| session.id != Some(id@);
        let ghost keep = |entry: KeyValueEntry| entry.session != Some(id@);
        let ghost free = |entry: KeyValueEntry|
            if entry.session == Some(id@) {
                unlocked(entry, now)
            } else {
                entry
            };
        let (entries, sessions) = self.take();
        let ghost all = entry_views(entries@);
        let ghost seats = session_views(sessions@);
        proof {
            before.lemma_end_session(id@);
            reveal(Seq::filter);
        }
        let mut left: Vec<SessionEntry> = Vec::new();
        let mut i: usize = 0;
        while i < sessions.len()
            invariant
                i <= sessions.len(),
                seats == session_views(sessions@),
                stay == |session: SessionRecord| session.id != Some(id@),
                name@ == id@,
                session_views(left@) == seats.take(i as int).filter(stay),
            decreases sessions.len() - i,
        {
            proof {
                lemma_filter_step(seats, stay, i as int);
            }
            let gone = match &sessions[i].id {
                Some(own) => *own == name,
                None => false,
            };
            if !gone {
                let copy = sessions[i].clone();
                left.push(copy);
            }
            i = i + 1;
        }
        proof {
            assert(seats.take(i as int) =~= seats);
        }
        let mut kept: Vec<KVPair> = Vec::new();
        let mut j: usize = 0;
        match behavior {
            Behavior::Release => {
                while j < entries.len()
                    invariant
                        j <= entries.len(),
                        all == entry_views(entries@),
                        free == |entry: KeyValueEntry|
                            if entry.session == Some(id@) {
                                unlocked(entry, now)
                            } else {
                                entry
                            },
                        name@ == id@,
                        entry_views(kept@) == all.take(j as int).map_values(free),
                    decreases entries.len() - j,
                {
                    let held = match &entries[j].session {
                        Some(holder) => *holder == name,
                        None => false,
                    };
                    let mut copy = entries[j].clone();
                    if held {
                        copy.session = None;
                        copy.modifyindex = Some(now);
                    }
                    let ghost so_far = entry_views(kept@);
                    kept.push(copy);
                    assert(entry_views(kept@) =~= so_far.push(free(all[j as int])));
                    j = j + 1;
                }
                proof {
                    assert(all.take(j as int) =~= all);
                }
            },
            Behavior::Delete => {
                while j < entries.len()
                    invariant
                        j <= entries.len(),
                        all == entry_views(entries@),
                        keep == |entry: KeyValueEntry| entry.session != Some(id@),
                        name@ == id@,
                        entry_views(kept@) == all.take(j as int).filter(keep),
                    decreases entries.len() - j,
                {
                    proof {
                        lemma_filter_step(all, keep, j as int);
                    }
                    let held = match &entries[j].session {
                        Some(holder) => *holder == name,
                        None => false,
                    };
                    if !held {
                        let copy = entries[j].clone();
                        kept.push(copy);
                    }
                    j = j + 1;
                }
                proof {
                    assert(all.take(j as int) =~= all);
                }
            },
        }
        self.replace(kept, left, now);
        Ok(true)
    }

    /// Renews the session `id` and returns it, or nothing where no such
    /// session is valid. A session that has ended cannot be renewed and has
    /// to be created anew.
    pub fn renew_session(&self, id: &str) -> (session: Option<SessionEntry>)
        ensures
            session_view(session) == self@.session(id@),
    {
        let name = String::from_str(id);
        match self.seat(&name) {
            Some(at) => Some(self.sessions[at].clone()),
            None => None,
        }
    }

    /// Reads the session `id`, or nothing where no such session is valid.
    pub fn session_info(&self, id: &str) -> (read: Indexed<Option<SessionEntry>>)
        ensures
            session_view(read.value) == self@.session(id@),
            read.index == self@.index,
    {
        Indexed { value: self.renew_session(id), index: self.index }
    }

    /// Reads the sessions that are valid, in the order of their creation.
    pub fn list_sessions(&self) -> (read: Indexed<Vec<SessionEntry>>)
        ensures
            session_views(read.value@) == self@.sessions,
            read.index == self@.index,
    {
        let mut found: Vec<SessionEntry> = Vec::new();
        let mut i: usize = 0;
        while i < self.sessions.len()
            invariant
                i <= self.sessions.len(),
                session_views(found@) =~= self@.sessions.take(i as int),
            decreases self.sessions.len() - i,
        {
            let copy = self.sessions[i].clone();
            let ghost so_far = session_views(found@);
            found.push(copy);
            assert(session_views(found@) =~= so_far.push(self@.sessions[i as int]));
            i = i + 1;
        }
        Indexed { value: found, index: self.index }
    }

    /// Reads the sessions that are held on `node`, in the order of their
    /// creation.
    pub fn list_sessions_for_node(&self, node: &str) -> (read: Indexed<Vec<SessionEntry>>)
        ensures
            session_views(read.value@) == self@.sessions.filter(
                |session: SessionRecord| session.node == Some(node@),
            ),
            read.index == self@.index,
    {
        let ghost on = |session: SessionRecord| session.node == Some(node@);
        let ghost all = self@.sessions;
        let mut found: Vec<SessionEntry> = Vec::new();
        let mut i: usize = 0;
        proof {
            reveal(Seq::filter);
        }
        while i < self.sessions.len()
            invariant
                i <= self.sessions.len(),
                all == self@.sessions,
                all.len() == self.sessions.len(),
                on == |session: SessionRecord| session.node == Some(node@),
                session_views(found@) == all.take(i as int).filter(on),
            decreases self.sessions.len() - i,
        {
            proof {
                lemma_filter_step(all, on, i as int);
            }
            let here = match &self.sessions[i].node {
                Some(held) => crate::text::same_str(held.as_str(), node),
                None => false,
            };
            if here {
                let copy = self.sessions[i].clone();
                found.push(copy);
            }
            i = i + 1;
        }
        proof {
            assert(all.take(i as int) =~= all);
        }
        Indexed { value: found, index: self.index }
    }

    /// Reads one key. That there is no entry is a result like any other. The
    /// index that comes with the result is that of the last write to the
    /// entry, or that of the store where there is no entry.
    pub fn get(&self, key: &str) -> (read: Indexed<Option<KVPair>>)
        ensures
            entry_view(read.value) == self@.entry(key@),
            read.index == self@.read_index(key@),
    {
        let key = String::from_str(key);
        match self.place(&key) {
            Some(i) => {
                let entry = self.entries[i].clone();
                let index = match entry.modifyindex {
                    Some(modified) => modified,
                    None => self.index,
                };
                Indexed { value: Some(entry), index }
            },
            None => Indexed { value: None, index: self.index },
        }
    }

    /// Reads every key that begins with `prefix`, in the order in which the
    /// keys were created. The index that comes with the result is that of
    /// the store.
    pub fn list(&self, prefix: &str) -> (read: Indexed<Vec<KVPair>>)
        ensures
            entry_views(read.value@) == self@.list(prefix@),
            read.index == self@.index,
    {
        let ghost keep = |entry: KeyValueEntry| prefix@.is_prefix_of(entry.key);
        let ghost all = self@.entries;
        let mut found: Vec<KVPair> = Vec::new();
        let mut i: usize = 0;
        proof {
            reveal(Seq::filter);
        }
        while i < self.entries.len()
            invariant
                i <= self.entries.len(),
                all == self@.entries,
                all.len() == self.entries.len(),
                keep == |entry: KeyValueEntry| prefix@.is_prefix_of(entry.key),
                entry_views(found@) == all.take(i as int).filter(keep),
            decreases self.entries.len() - i,
        {
            proof {
                lemma_filter_step(all, keep, i as int);
            }
            if has_prefix(self.entries[i].key.as_str(), prefix) {
                let copy = self.entries[i].clone();
                found.push(copy);
            }
            i = i + 1;
        }
        proof {
            assert(all.take(i as int) =~= all);
        }
        Indexed { value: found, index: self.index }
    }
}

} // verus!
