//! Histories: the steps that a store takes, and what holds of a store
//! whatever steps led to it.

use crate::kv::KeyValueEntry;
use crate::model::StoreState;
use crate::session::{Behavior, SessionRecord};
use crate::text::decimal;
use crate::watch::{after_answer, WatchState};
use vstd::prelude::*;

verus! {

/// One write to a store.
pub enum Step {
    /// A plain write of a value and a tag.
    Put { key: Seq<char>, value: Seq<char>, flags: u64 },
    /// The removal of a key or, where `below`, of all keys that begin with
    /// it.
    Delete { key: Seq<char>, below: bool },
    /// An attempt of the session `id` to take the lock on a key.
    Acquire { key: Seq<char>, value: Seq<char>, flags: u64, id: Seq<char> },
    /// An attempt of the session `id` to give back the lock on a key.
    Release { key: Seq<char>, value: Seq<char>, flags: u64, id: Seq<char> },
    /// The creation of a session.
    CreateSession { wanted: SessionRecord },
    /// The end of a session: its destruction, or its invalidation by the
    /// store.
    EndSession { id: Seq<char> },
}

impl Step {
    /// Whether the step can bring an entry under `key` into being.
    pub open spec fn writes(self, key: Seq<char>) -> bool {
        match self {
            Step::Put { key: written, .. } => written == key,
            Step::Acquire { key: written, .. } => written == key,
            _ => false,
        }
    }
}

impl StoreState {
    /// The store after one step. A store that has run out of indices stays
    /// as it is, and so does one that is asked for a session with a behavior
    /// that is none.
    pub open spec fn step(self, step: Step) -> StoreState {
        if self.full() {
            self
        } else {
            match step {
                Step::Put { key, value, flags } => self.put(key, value, flags),
                Step::Delete { key, below } => self.delete(key, below),
                Step::Acquire { key, value, flags, id } => self.acquire(key, value, flags, id),
                Step::Release { key, value, flags, id } => self.release(key, value, flags, id),
                Step::CreateSession { wanted } => if wanted.well_formed() {
                    self.create_session(wanted)
                } else {
                    self
                },
                Step::EndSession { id } => self.end_session(id),
            }
        }
    }

    /// The store after a sequence of steps.
    pub open spec fn run(self, steps: Seq<Step>) -> StoreState
        decreases steps.len(),
    {
        if steps.len() == 0 {
            self
        } else {
            self.run(steps.drop_last()).step(steps.last())
        }
    }

    /// A step keeps the store in order, never lowers its index, and brings
    /// no entry into being but under a key that it writes.
    pub proof fn lemma_step(self, step: Step)
        requires
            self.wf(),
        ensures
            self.step(step).wf(),
            self.index <= self.step(step).index,
            forall|key: Seq<char>|
                !step.writes(key) && self.entry(key) is None ==> self.step(step).entry(key)
                    is None,
    {
        if !self.full() {
            match step {
                Step::Put { key, value, flags } => {
                    self.lemma_put(key, value, flags);
                },
                Step::Delete { key, below } => {
                    let keep = |entry: KeyValueEntry| !crate::model::concerns(entry, key, below);
                    self.lemma_pruned(keep);
                },
                Step::Acquire { key, value, flags, id } => {
                    self.lemma_acquire(key, value, flags, id);
                },
                Step::Release { key, value, flags, id } => {
                    self.lemma_release(key, value, flags, id);
                },
                Step::CreateSession { wanted } => {
                    if wanted.well_formed() {
                        self.lemma_create_session(wanted);
                    }
                },
                Step::EndSession { id } => {
                    if self.is_live(id) {
                        self.lemma_end_session(id);
                    }
                },
            }
        }
    }

    /// Every store that steps lead to from a store is a store, and its index
    /// is no lower.
    pub proof fn lemma_run(self, steps: Seq<Step>)
        requires
            self.wf(),
        ensures
            self.run(steps).wf(),
            self.index <= self.run(steps).index,
        decreases steps.len(),
    {
        if steps.len() > 0 {
            self.lemma_run(steps.drop_last());
            self.run(steps.drop_last()).lemma_step(steps.last());
        }
    }
}

/// Whatever steps were taken since the store was empty, what it holds is in
/// order: no key twice, no entry last written before it was created, every
/// lock held by a session that is valid.
pub proof fn lemma_every_state_is_in_order(steps: Seq<Step>)
    ensures
        StoreState::empty().run(steps).wf(),
{
    StoreState::empty().lemma_run(steps);
}

/// A key that no step wrote has no entry: reading it finds nothing.
pub proof fn lemma_unwritten_key_is_absent(steps: Seq<Step>, key: Seq<char>)
    requires
        forall|i: int| 0 <= i < steps.len() ==> !(#[trigger] steps[i]).writes(key),
    ensures
        StoreState::empty().run(steps).entry(key) is None,
    decreases steps.len(),
{
    if steps.len() > 0 {
        let front = steps.drop_last();
        lemma_unwritten_key_is_absent(front, key);
        lemma_every_state_is_in_order(front);
        StoreState::empty().run(front).lemma_step(steps.last());
    }
}

/// After a write to a key, reading the key finds an index of last write
/// that is greater than every such index that could be seen before the
/// write: that of any entry of any store `before` from which steps led to
/// the store that was written to.
pub proof fn lemma_put_raises_the_index(
    before: StoreState,
    steps: Seq<Step>,
    seen: int,
    key: Seq<char>,
    value: Seq<char>,
    flags: u64,
)
    requires
        before.wf(),
        !before.run(steps).full(),
        0 <= seen < before.entries.len(),
    ensures
        before.run(steps).put(key, value, flags).entry(key) matches Some(entry)
            && entry.modify_index matches Some(modified) && before.entries[seen].modify_index
            matches Some(earlier) && earlier < modified,
{
    let now = before.run(steps);
    before.lemma_run(steps);
    now.lemma_put(key, value, flags);
}

/// Each write to an entry that is there raises its index of last write: a
/// plain write, a lock that is taken, a lock that is given back.
pub proof fn lemma_writes_raise_the_index(
    store: StoreState,
    key: Seq<char>,
    value: Seq<char>,
    flags: u64,
    id: Seq<char>,
)
    requires
        store.wf(),
        !store.full(),
        store.has_key(key),
    ensures
        store.entry(key)->0.modify_index->0 < store.put(key, value, flags).entry(
            key,
        )->0.modify_index->0,
        store.can_acquire(key, id) ==> store.entry(key)->0.modify_index->0 < store.acquire(
            key,
            value,
            flags,
            id,
        ).entry(key)->0.modify_index->0,
        store.holds(key, id) ==> store.entry(key)->0.modify_index->0 < store.release(
            key,
            value,
            flags,
            id,
        ).entry(key)->0.modify_index->0,
{
    store.lemma_place(store.place(key));
    store.lemma_put(key, value, flags);
    store.lemma_acquire(key, value, flags, id);
    store.lemma_release(key, value, flags, id);
}

/// A plain write changes the value and the tag and nothing else of an entry
/// that is there: who holds the lock, how often the lock changed hands and
/// when the entry was created all stay. A new entry is unlocked.
pub proof fn lemma_put_keeps_the_lock(
    store: StoreState,
    key: Seq<char>,
    value: Seq<char>,
    flags: u64,
)
    requires
        store.wf(),
        !store.full(),
    ensures
        store.put(key, value, flags).entry(key) matches Some(written) && written.value == value
            && written.flags == Some(flags) && match store.entry(key) {
            Some(entry) => written.session == entry.session && written.lock_index
                == entry.lock_index && written.create_index == entry.create_index,
            None => written.session is None,
        },
{
    store.lemma_put(key, value, flags);
}

/// After a removal nothing is left under the key or, where the removal went
/// below it, under any key that begins with it; every other entry is as it
/// was. To remove what is not there removes nothing.
pub proof fn lemma_delete_removes_just_that(
    store: StoreState,
    key: Seq<char>,
    below: bool,
    other: Seq<char>,
)
    requires
        store.wf(),
        !store.full(),
    ensures
        store.delete(key, below).entry(key) is None,
        below && key.is_prefix_of(other) ==> store.delete(key, below).entry(other) is None,
        !(below && key.is_prefix_of(other)) && other != key ==> store.delete(key, below).entry(
            other,
        ) == store.entry(other),
        store.delete(key, below).sessions == store.sessions,
{
    let keep = |entry: KeyValueEntry| !crate::model::concerns(entry, key, below);
    store.lemma_pruned(keep);
    if store.has_key(other) {
        store.lemma_place(store.place(other));
    }
}

/// Of two valid sessions that try, one after the other, to take a lock that
/// nobody holds, the first wins and the second is declined; afterwards the
/// first holds the lock. Whichever of two callers the store serves first is
/// the winner, and there is exactly one.
pub proof fn lemma_one_of_two_wins(
    store: StoreState,
    key: Seq<char>,
    first: Seq<char>,
    first_value: Seq<char>,
    first_flags: u64,
    second: Seq<char>,
    second_value: Seq<char>,
    second_flags: u64,
)
    requires
        store.wf(),
        store.index < u64::MAX - 1,
        store.is_live(first),
        store.is_live(second),
        first != second,
        store.entry(key) matches Some(entry) ==> entry.session is None,
    ensures
        store.can_acquire(key, first),
        !store.acquire(key, first_value, first_flags, first).can_acquire(key, second),
        store.acquire(key, first_value, first_flags, first).acquire(
            key,
            second_value,
            second_flags,
            second,
        ) == store.acquire(key, first_value, first_flags, first),
        store.acquire(key, first_value, first_flags, first).acquire(
            key,
            second_value,
            second_flags,
            second,
        ).entry(key) matches Some(entry) && entry.session == Some(first),
{
    store.lemma_acquire(key, first_value, first_flags, first);
    let won = store.acquire(key, first_value, first_flags, first);
    won.lemma_acquire(key, second_value, second_flags, second);
}

/// A session that does not hold the lock on a key gives nothing back: the
/// store stays exactly as it is, and with it who holds the lock.
pub proof fn lemma_release_by_another_changes_nothing(
    store: StoreState,
    key: Seq<char>,
    value: Seq<char>,
    flags: u64,
    id: Seq<char>,
)
    requires
        !store.holds(key, id),
    ensures
        store.release(key, value, flags, id) == store,
{
}

/// A wait on the index that a read of the key carries ends as timed out
/// while nothing is written, and as changed, with the new index, once the
/// key was written.
pub proof fn lemma_wait_ends_with_the_next_write(
    store: StoreState,
    key: Seq<char>,
    value: Seq<char>,
    flags: u64,
)
    requires
        store.wf(),
        !store.full(),
    ensures
        after_answer(WatchState::Waiting, store.read_index(key), Some(store.read_index(key))) == (
            WatchState::TimedOut,
            store.read_index(key),
        ),
        after_answer(
            WatchState::Waiting,
            store.read_index(key),
            Some(store.put(key, value, flags).read_index(key)),
        ) == (WatchState::Changed, store.put(key, value, flags).read_index(key)),
        store.read_index(key) < store.put(key, value, flags).read_index(key),
{
    store.lemma_put(key, value, flags);
    if store.has_key(key) {
        store.lemma_place(store.place(key));
    }
}

/// Ending a session that is not valid, because it never was or because it
/// has ended already, changes nothing; so ending a session twice is the same
/// as ending it once.
pub proof fn lemma_ending_twice_is_ending_once(store: StoreState, id: Seq<char>)
    requires
        store.wf(),
        store.index < u64::MAX - 1,
    ensures
        !store.is_live(id) ==> store.end_session(id) == store,
        store.end_session(id).end_session(id) == store.end_session(id),
{
    if store.is_live(id) {
        store.lemma_end_session(id);
    }
}

/// When a session ends, each entry that it held the lock on is unlocked and
/// stays, where the session releases, and is gone, where it deletes. No
/// other entry is touched.
pub proof fn lemma_end_resolves_locks(store: StoreState, id: Seq<char>, key: Seq<char>)
    requires
        store.wf(),
        !store.full(),
        store.is_live(id),
    ensures
        store.session(id) matches Some(session) && match store.entry(key) {
            Some(entry) => if entry.session == Some(id) {
                match session.effective_behavior() {
                    Behavior::Release => store.end_session(id).entry(key) matches Some(left)
                        && left.session is None && left.key == key && left.value == entry.value
                        && left.flags == entry.flags,
                    Behavior::Delete => store.end_session(id).entry(key) is None,
                }
            } else {
                store.end_session(id).entry(key) == Some(entry)
            },
            None => store.end_session(id).entry(key) is None,
        },
{
    store.lemma_end_session(id);
    if store.has_key(key) {
        store.lemma_place(store.place(key));
    }
}

/// The identifier of a new session is none that any session had before,
/// whether that session is still valid or not: identifiers are never used
/// again.
pub proof fn lemma_identifiers_are_not_reused(
    before: StoreState,
    gone: int,
    steps: Seq<Step>,
    wanted: SessionRecord,
)
    requires
        before.wf(),
        0 <= gone < before.sessions.len(),
        !before.run(steps).full(),
        wanted.well_formed(),
    ensures
        before.run(steps).admitted(wanted).id != before.sessions[gone].id,
{
    let now = before.run(steps);
    before.lemma_run(steps);
    now.lemma_create_session(wanted);
}

} // verus!
