//! The store as the client understands it: a mathematical model of the
//! key/value namespace and of the sessions, with the rules by which writes,
//! locks and the end of a session change them.
//!
//! The model is what the documented behavior of the store amounts to. It
//! has no clock: the end of a session by its time to live or by a failed
//! check is the same step as its destruction, and the delay after which a
//! lock can be taken again is not modelled.

use crate::kv::KeyValueEntry;
use crate::session::{Behavior, SessionRecord};
use crate::text::{decimal, lemma_parse_decimal_of_decimal};
use vstd::prelude::*;

verus! {

/// The state of a store.
pub struct StoreState {
    /// The entries, in the order in which their keys were created.
    pub entries: Seq<KeyValueEntry>,
    /// The sessions that are valid, in the order of their creation.
    pub sessions: Seq<SessionRecord>,
    /// The index of the last write; every write takes the next one.
    pub index: u64,
}

/// Whether an entry is about `key`: is the key itself or, where `below`,
/// begins with it.
pub open spec fn concerns(entry: KeyValueEntry, key: Seq<char>, below: bool) -> bool {
    if below {
        key.is_prefix_of(entry.key)
    } else {
        entry.key == key
    }
}

/// `entry` as it is once its lock is given back at index `now`.
pub open spec fn unlocked(entry: KeyValueEntry, now: u64) -> KeyValueEntry {
    KeyValueEntry { session: None, modify_index: Some(now), ..entry }
}

impl StoreState {
    /// The store before anything was written.
    pub open spec fn empty() -> StoreState {
        StoreState { entries: Seq::empty(), sessions: Seq::empty(), index: 0 }
    }

    /// Whether the store has run out of indices. Such a store takes no
    /// write.
    pub open spec fn full(self) -> bool {
        self.index == u64::MAX
    }

    /// The index that the next write takes.
    pub open spec fn next(self) -> u64 {
        (self.index + 1) as u64
    }

    /// Whether there is an entry under `key`.
    pub open spec fn has_key(self, key: Seq<char>) -> bool {
        exists|i: int| 0 <= i < self.entries.len() && (#[trigger] self.entries[i]).key == key
    }

    /// Where the entry under `key` stands.
    pub open spec fn place(self, key: Seq<char>) -> int {
        choose|i: int| 0 <= i < self.entries.len() && (#[trigger] self.entries[i]).key == key
    }

    /// The entry under `key`, if there is one.
    pub open spec fn entry(self, key: Seq<char>) -> Option<KeyValueEntry> {
        if self.has_key(key) {
            Some(self.entries[self.place(key)])
        } else {
            None
        }
    }

    /// Whether `id` names a session that is valid.
    pub open spec fn is_live(self, id: Seq<char>) -> bool {
        exists|i: int| 0 <= i < self.sessions.len() && (#[trigger] self.sessions[i]).id == Some(id)
    }

    /// Where the session `id` stands.
    pub open spec fn seat(self, id: Seq<char>) -> int {
        choose|i: int| 0 <= i < self.sessions.len() && (#[trigger] self.sessions[i]).id == Some(id)
    }

    /// The session `id`, if it is valid.
    pub open spec fn session(self, id: Seq<char>) -> Option<SessionRecord> {
        if self.is_live(id) {
            Some(self.sessions[self.seat(id)])
        } else {
            None
        }
    }

    /// What holds of each entry of a store.
    pub open spec fn entry_ok(self, entry: KeyValueEntry) -> bool {
        &&& entry.create_index matches Some(created)
        &&& entry.modify_index matches Some(modified)
        &&& entry.lock_index matches Some(locked)
        &&& entry.flags is Some
        &&& created <= modified <= self.index
        &&& locked <= modified
        &&& entry.session matches Some(holder) ==> self.is_live(holder)
    }

    /// What holds of each session of a store.
    pub open spec fn session_ok(self, session: SessionRecord) -> bool {
        &&& session.create_index matches Some(created)
        &&& 1 <= created <= self.index
        &&& session.id == Some(decimal(created as nat))
        &&& session.well_formed()
    }

    /// What holds of every store: no key and no session occurs twice, no
    /// entry was written before it was created or after the store's last
    /// write, every lock is held by a valid session, and every session is
    /// named by the index of its creation.
    pub open spec fn wf(self) -> bool {
        &&& forall|i: int, j: int|
            0 <= i < j < self.entries.len() ==> (#[trigger] self.entries[i]).key != (
            #[trigger] self.entries[j]).key
        &&& forall|i: int| 0 <= i < self.entries.len() ==> self.entry_ok(#[trigger] self.entries[i])
        &&& forall|i: int, j: int|
            0 <= i < j < self.sessions.len() ==> (#[trigger] self.sessions[i]).id != (
            #[trigger] self.sessions[j]).id
        &&& forall|i: int|
            0 <= i < self.sessions.len() ==> self.session_ok(#[trigger] self.sessions[i])
    }

    /// The index that the answer to a read of `key` carries: the index of
    /// the last write to the entry, or that of the store where there is no
    /// entry.
    pub open spec fn read_index(self, key: Seq<char>) -> u64 {
        match self.entry(key) {
            Some(entry) => entry.modify_index->0,
            None => self.index,
        }
    }

    /// The entries that begin with `prefix`, in the order of the store.
    pub open spec fn list(self, prefix: Seq<char>) -> Seq<KeyValueEntry> {
        self.entries.filter(|entry: KeyValueEntry| prefix.is_prefix_of(entry.key))
    }

    /// The store after `entry` was written at the next index: in place of
    /// the entry of the same key, or as the last entry where the key is new.
    pub open spec fn written(self, entry: KeyValueEntry) -> StoreState {
        let entries = if self.has_key(entry.key) {
            self.entries.update(self.place(entry.key), entry)
        } else {
            self.entries.push(entry)
        };
        StoreState { entries, index: self.next(), ..self }
    }

    /// The entry that a plain write of `value` and `flags` leaves under
    /// `key`. Who holds the lock stays as it is.
    pub open spec fn put_entry(self, key: Seq<char>, value: Seq<char>, flags: u64) -> KeyValueEntry {
        match self.entry(key) {
            Some(old) => KeyValueEntry {
                value,
                flags: Some(flags),
                modify_index: Some(self.next()),
                ..old
            },
            None => KeyValueEntry {
                key,
                create_index: Some(self.next()),
                modify_index: Some(self.next()),
                lock_index: Some(0),
                flags: Some(flags),
                value,
                session: None,
            },
        }
    }

    /// The store after `value` and `flags` were written under `key`.
    pub open spec fn put(self, key: Seq<char>, value: Seq<char>, flags: u64) -> StoreState {
        self.written(self.put_entry(key, value, flags))
    }

    /// Whether the session `id` can take the lock on `key`: it is valid, and
    /// no other session holds the lock.
    pub open spec fn can_acquire(self, key: Seq<char>, id: Seq<char>) -> bool {
        self.is_live(id) && match self.entry(key) {
            Some(entry) => entry.session is None || entry.session == Some(id),
            None => true,
        }
    }

    /// The entry that the session `id` leaves under `key` when it takes the
    /// lock and writes `value` and `flags` with it. The count of holders
    /// goes up where the lock was free.
    pub open spec fn acquire_entry(
        self,
        key: Seq<char>,
        value: Seq<char>,
        flags: u64,
        id: Seq<char>,
    ) -> KeyValueEntry {
        match self.entry(key) {
            Some(old) => KeyValueEntry {
                value,
                flags: Some(flags),
                modify_index: Some(self.next()),
                lock_index: if old.session is None {
                    Some((old.lock_index->0 + 1) as u64)
                } else {
                    old.lock_index
                },
                session: Some(id),
                ..old
            },
            None => KeyValueEntry {
                key,
                create_index: Some(self.next()),
                modify_index: Some(self.next()),
                lock_index: Some(1),
                flags: Some(flags),
                value,
                session: Some(id),
            },
        }
    }

    /// The store after the session `id` tried to take the lock on `key`,
    /// writing `value` and `flags` with it. Where it cannot take the lock
    /// nothing changes.
    pub open spec fn acquire(
        self,
        key: Seq<char>,
        value: Seq<char>,
        flags: u64,
        id: Seq<char>,
    ) -> StoreState {
        if self.can_acquire(key, id) {
            self.written(self.acquire_entry(key, value, flags, id))
        } else {
            self
        }
    }

    /// Whether the session `id` holds the lock on `key`.
    pub open spec fn holds(self, key: Seq<char>, id: Seq<char>) -> bool {
        self.entry(key) matches Some(entry) && entry.session == Some(id)
    }

    /// The entry that giving back the lock on `key` leaves there, `value`
    /// and `flags` being written with it; meaningful where there is an entry.
    pub open spec fn release_entry(self, key: Seq<char>, value: Seq<char>, flags: u64) -> KeyValueEntry {
        KeyValueEntry {
            value,
            flags: Some(flags),
            modify_index: Some(self.next()),
            session: None,
            ..self.entry(key)->0
        }
    }

    /// The store after the session `id` tried to give back the lock on
    /// `key`, writing `value` and `flags` with it. Where it does not hold
    /// the lock nothing changes.
    pub open spec fn release(
        self,
        key: Seq<char>,
        value: Seq<char>,
        flags: u64,
        id: Seq<char>,
    ) -> StoreState {
        if self.holds(key, id) {
            self.written(self.release_entry(key, value, flags))
        } else {
            self
        }
    }

    /// The store after a write that removed every entry but those to
    /// `keep`.
    pub open spec fn pruned(self, keep: spec_fn(KeyValueEntry) -> bool) -> StoreState {
        StoreState { entries: self.entries.filter(keep), index: self.next(), ..self }
    }

    /// The store after `key` was removed or, where `below`, every key that
    /// begins with it.
    pub open spec fn delete(self, key: Seq<char>, below: bool) -> StoreState {
        self.pruned(|entry: KeyValueEntry| !concerns(entry, key, below))
    }

    /// The session that the store makes of `wanted`: it is named by the
    /// index of its creation.
    pub open spec fn admitted(self, wanted: SessionRecord) -> SessionRecord {
        SessionRecord {
            id: Some(decimal(self.next() as nat)),
            create_index: Some(self.next()),
            ..wanted
        }
    }

    /// The store after a session was created as `wanted` asks.
    pub open spec fn create_session(self, wanted: SessionRecord) -> StoreState {
        StoreState {
            sessions: self.sessions.push(self.admitted(wanted)),
            index: self.next(),
            ..self
        }
    }

    /// The store after the session `id` ended: by being destroyed, by its
    /// time to live, or by a failed check. The entries that it held the lock
    /// on are unlocked or removed, as the session's behavior says. Where no
    /// such session is valid nothing changes.
    pub open spec fn end_session(self, id: Seq<char>) -> StoreState {
        if !self.is_live(id) {
            self
        } else {
            let now = self.next();
            let entries = match self.sessions[self.seat(id)].effective_behavior() {
                Behavior::Release => self.entries.map_values(
                    |entry: KeyValueEntry|
                        if entry.session == Some(id) {
                            unlocked(entry, now)
                        } else {
                            entry
                        },
                ),
                Behavior::Delete => self.entries.filter(
                    |entry: KeyValueEntry| entry.session != Some(id),
                ),
            };
            StoreState {
                entries,
                sessions: self.sessions.filter(|session: SessionRecord| session.id != Some(id)),
                index: now,
            }
        }
    }
}

/// Whether `kept[a]` and `kept[b]` are items of `all` that stand there in the
/// same order.
spec fn in_order<A>(all: Seq<A>, kept: Seq<A>, a: int, b: int) -> bool {
    exists|i: int, j: int|
        0 <= i < j < all.len() && #[trigger] all[i] == kept[a] && #[trigger] all[j] == kept[b]
}

/// What is kept of a sequence is made of its items, holds each item that was
/// to be kept, and holds them in their order.
proof fn lemma_kept<A>(all: Seq<A>, keep: spec_fn(A) -> bool)
    ensures
        forall|a: int|
            0 <= a < all.filter(keep).len() ==> keep(#[trigger] all.filter(keep)[a])
                && all.contains(all.filter(keep)[a]),
        forall|i: int|
            0 <= i < all.len() && keep(all[i]) ==> all.filter(keep).contains(#[trigger] all[i]),
        forall|a: int, b: int|
            0 <= a < b < all.filter(keep).len() ==> #[trigger] in_order(
                all,
                all.filter(keep),
                a,
                b,
            ),
    decreases all.len(),
{
    reveal(Seq::filter);
    let kept = all.filter(keep);
    if all.len() > 0 {
        let front = all.drop_last();
        let before = front.filter(keep);
        lemma_kept(front, keep);
        assert forall|a: int, b: int| 0 <= a < b < kept.len() implies #[trigger] in_order(
            all,
            kept,
            a,
            b,
        ) by {
            if b < before.len() {
                assert(in_order(front, before, a, b));
            }
        }
    }
}

/// Two numbers that are written alike are the same number.
pub proof fn lemma_decimal_is_one_to_one(a: nat, b: nat)
    requires
        decimal(a) == decimal(b),
    ensures
        a == b,
{
    lemma_parse_decimal_of_decimal(a);
    lemma_parse_decimal_of_decimal(b);
}

impl StoreState {
    /// In a store an entry is found where it stands.
    pub proof fn lemma_place(self, at: int)
        requires
            self.wf(),
            0 <= at < self.entries.len(),
        ensures
            self.has_key(self.entries[at].key),
            self.place(self.entries[at].key) == at,
            self.entry(self.entries[at].key) == Some(self.entries[at]),
    {
        let key = self.entries[at].key;
        let found = self.place(key);
        if found < at {
            assert(self.entries[found].key != self.entries[at].key);
        } else if at < found {
            assert(self.entries[at].key != self.entries[found].key);
        }
    }

    /// In a store a session is found where it stands.
    pub proof fn lemma_seat(self, at: int)
        requires
            self.wf(),
            0 <= at < self.sessions.len(),
        ensures
            self.sessions[at].id is Some,
            self.is_live(self.sessions[at].id->0),
            self.seat(self.sessions[at].id->0) == at,
            self.session(self.sessions[at].id->0) == Some(self.sessions[at]),
    {
    }

    /// The store as it is at the next index, with nothing else changed.
    pub open spec fn advanced(self) -> StoreState {
        StoreState { index: self.next(), ..self }
    }

    /// Writing an entry that is in order keeps the store in order, puts the
    /// entry under its key and leaves every other key as it was.
    pub proof fn lemma_written(self, entry: KeyValueEntry)
        requires
            self.wf(),
            !self.full(),
            self.advanced().entry_ok(entry),
        ensures
            self.written(entry).wf(),
            self.written(entry).index == self.index + 1,
            self.written(entry).sessions == self.sessions,
            self.written(entry).entry(entry.key) == Some(entry),
            forall|key: Seq<char>|
                key != entry.key ==> self.written(entry).entry(key) == self.entry(key),
    {
        let after = self.written(entry);
        let at = if self.has_key(entry.key) {
            self.place(entry.key)
        } else {
            self.entries.len() as int
        };
        after.lemma_place(at);
        assert forall|key: Seq<char>| key != entry.key implies after.entry(key) == self.entry(
            key,
        ) by {
            if self.has_key(key) {
                let i = self.place(key);
                after.lemma_place(i);
            }
        }
    }

    /// Removing entries keeps the store in order, and leaves under each key
    /// what was there, if it was to be kept.
    pub proof fn lemma_pruned(self, keep: spec_fn(KeyValueEntry) -> bool)
        requires
            self.wf(),
            !self.full(),
        ensures
            self.pruned(keep).wf(),
            forall|key: Seq<char>| #[trigger]
                self.pruned(keep).entry(key) == match self.entry(key) {
                    Some(entry) => if keep(entry) {
                        Some(entry)
                    } else {
                        None
                    },
                    None => None,
                },
    {
        let after = self.pruned(keep);
        let kept = after.entries;
        lemma_kept(self.entries, keep);
        assert forall|a: int, b: int| 0 <= a < b < kept.len() implies (#[trigger] kept[a]).key != (
        #[trigger] kept[b]).key by {
            assert(in_order(self.entries, kept, a, b));
            let (i, j) = choose|i: int, j: int|
                0 <= i < j < self.entries.len() && #[trigger] self.entries[i] == kept[a]
                    && #[trigger] self.entries[j] == kept[b];
            assert(self.entries[i].key != self.entries[j].key);
        }
        assert forall|key: Seq<char>| #[trigger]
            after.entry(key) == match self.entry(key) {
                Some(entry) => if keep(entry) {
                    Some(entry)
                } else {
                    None
                },
                None => None,
            } by {
            if after.has_key(key) {
                let a = after.place(key);
                let i = choose|i: int| 0 <= i < self.entries.len() && self.entries[i] == kept[a];
                self.lemma_place(i);
            }
        }
    }

    /// What the end of the session `id` leaves of `entry`: nothing, where
    /// the session held its lock and removes what it held; the entry
    /// unlocked, where the session held its lock and releases; else the
    /// entry as it was.
    pub open spec fn survivor(self, entry: KeyValueEntry, id: Seq<char>) -> Option<KeyValueEntry> {
        if entry.session == Some(id) {
            match self.sessions[self.seat(id)].effective_behavior() {
                Behavior::Release => Some(unlocked(entry, self.next())),
                Behavior::Delete => None,
            }
        } else {
            Some(entry)
        }
    }

    /// The end of a session keeps the store in order. The session is valid
    /// no longer, every other session is as it was, and each entry is what
    /// the session's behavior leaves of it.
    pub proof fn lemma_end_session(self, id: Seq<char>)
        requires
            self.wf(),
            !self.full(),
            self.is_live(id),
        ensures
            self.end_session(id).wf(),
            self.end_session(id).index == self.index + 1,
            !self.end_session(id).is_live(id),
            forall|other: Seq<char>|
                other != id ==> #[trigger] self.end_session(id).session(other) == self.session(
                    other,
                ),
            forall|key: Seq<char>| #[trigger]
                self.end_session(id).entry(key) == match self.entry(key) {
                    Some(entry) => self.survivor(entry, id),
                    None => None,
                },
    {
        let after = self.end_session(id);
        let stay = |session: SessionRecord| session.id != Some(id);
        let left = after.sessions;
        lemma_kept(self.sessions, stay);
        assert forall|a: int, b: int| 0 <= a < b < left.len() implies (#[trigger] left[a]).id != (
        #[trigger] left[b]).id by {
            assert(in_order(self.sessions, left, a, b));
            let (i, j) = choose|i: int, j: int|
                0 <= i < j < self.sessions.len() && #[trigger] self.sessions[i] == left[a]
                    && #[trigger] self.sessions[j] == left[b];
            assert(self.sessions[i].id != self.sessions[j].id);
        }
        match self.sessions[self.seat(id)].effective_behavior() {
            Behavior::Release => {
                assert forall|key: Seq<char>| #[trigger]
                    after.entry(key) == match self.entry(key) {
                        Some(entry) => self.survivor(entry, id),
                        None => None,
                    } by {
                    if self.has_key(key) {
                        let i = self.place(key);
                        after.lemma_place(i);
                    }
                }
            },
            Behavior::Delete => {
                let keep = |entry: KeyValueEntry| entry.session != Some(id);
                let pruned = self.pruned(keep);
                self.lemma_pruned(keep);
                assert forall|key: Seq<char>| #[trigger]
                    after.entry(key) == match self.entry(key) {
                        Some(entry) => self.survivor(entry, id),
                        None => None,
                    } by {
                    assert(after.entry(key) == pruned.entry(key));
                }
            },
        }
    }

    /// Creating a session keeps the store in order and touches no entry and
    /// no other session. The new session is valid, and its identifier is
    /// none that the store gave out before: every identifier is the index of
    /// a creation, and this one is the next index.
    pub proof fn lemma_create_session(self, wanted: SessionRecord)
        requires
            self.wf(),
            !self.full(),
            wanted.well_formed(),
        ensures
            self.create_session(wanted).wf(),
            self.create_session(wanted).index == self.index + 1,
            self.create_session(wanted).entries == self.entries,
            self.create_session(wanted).session(self.admitted(wanted).id->0) == Some(
                self.admitted(wanted),
            ),
            !self.is_live(self.admitted(wanted).id->0),
            forall|earlier: nat|
                earlier <= self.index ==> #[trigger] decimal(earlier) != self.admitted(wanted).id->0,
            forall|other: Seq<char>|
                other != self.admitted(wanted).id->0 ==> #[trigger] self.create_session(
                    wanted,
                ).session(other) == self.session(other),
    {
        let after = self.create_session(wanted);
        let made = self.admitted(wanted);
        let id = made.id->0;
        let at = self.sessions.len() as int;
        assert forall|earlier: nat| earlier <= self.index implies #[trigger] decimal(earlier)
            != id by {
            if decimal(earlier) == id {
                lemma_decimal_is_one_to_one(earlier, self.next() as nat);
            }
        }
        assert forall|other: Seq<char>| self.is_live(other) implies after.is_live(other) by {
            let i = self.seat(other);
            assert(after.sessions[i].id == Some(other));
        }
        after.lemma_seat(at);
    }

    /// A plain write keeps the store in order, leaves under the key what was
    /// written, and leaves every other key and every session as it was.
    pub proof fn lemma_put(self, key: Seq<char>, value: Seq<char>, flags: u64)
        requires
            self.wf(),
            !self.full(),
        ensures
            self.put(key, value, flags).wf(),
            self.put(key, value, flags).index == self.index + 1,
            self.put(key, value, flags).sessions == self.sessions,
            self.put(key, value, flags).entry(key) == Some(self.put_entry(key, value, flags)),
            self.put_entry(key, value, flags).key == key,
            forall|other: Seq<char>|
                other != key ==> self.put(key, value, flags).entry(other) == self.entry(other),
    {
        if self.has_key(key) {
            self.lemma_place(self.place(key));
        }
        self.lemma_written(self.put_entry(key, value, flags));
    }

    /// An attempt to take a lock keeps the store in order. Where the lock
    /// can be taken, the session holds it afterwards and every other key is
    /// as it was.
    pub proof fn lemma_acquire(self, key: Seq<char>, value: Seq<char>, flags: u64, id: Seq<char>)
        requires
            self.wf(),
            !self.full(),
        ensures
            self.acquire(key, value, flags, id).wf(),
            self.acquire(key, value, flags, id).sessions == self.sessions,
            self.acquire_entry(key, value, flags, id).key == key,
            self.can_acquire(key, id) ==> {
                &&& self.acquire(key, value, flags, id).index == self.index + 1
                &&& self.acquire(key, value, flags, id).entry(key) == Some(
                    self.acquire_entry(key, value, flags, id),
                )
                &&& forall|other: Seq<char>|
                    other != key ==> self.acquire(key, value, flags, id).entry(other)
                        == self.entry(other)
            },
            !self.can_acquire(key, id) ==> self.acquire(key, value, flags, id) == self,
    {
        if self.has_key(key) {
            self.lemma_place(self.place(key));
        }
        if self.can_acquire(key, id) {
            self.lemma_written(self.acquire_entry(key, value, flags, id));
        }
    }

    /// An attempt to give back a lock keeps the store in order. Where the
    /// session holds the lock, the entry is unlocked afterwards and every
    /// other key is as it was.
    pub proof fn lemma_release(self, key: Seq<char>, value: Seq<char>, flags: u64, id: Seq<char>)
        requires
            self.wf(),
            !self.full(),
        ensures
            self.release(key, value, flags, id).wf(),
            self.release(key, value, flags, id).sessions == self.sessions,
            self.holds(key, id) ==> {
                &&& self.release(key, value, flags, id).index == self.index + 1
                &&& self.release_entry(key, value, flags).key == key
                &&& self.release(key, value, flags, id).entry(key) == Some(
                    self.release_entry(key, value, flags),
                )
                &&& forall|other: Seq<char>|
                    other != key ==> self.release(key, value, flags, id).entry(other)
                        == self.entry(other)
            },
            !self.holds(key, id) ==> self.release(key, value, flags, id) == self,
    {
        if self.holds(key, id) {
            self.lemma_place(self.place(key));
            self.lemma_written(self.release_entry(key, value, flags));
        }
    }

    /// The store before anything was written is a store.
    pub proof fn lemma_empty_wf()
        ensures
            Self::empty().wf(),
            !Self::empty().full(),
    {
    }
}

} // verus!
