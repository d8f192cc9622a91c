//! Blocking queries: waiting for a change by asking the store to hold a read
//! until its index differs from the one last seen.
//!
//! A [`Watch`] decides; the caller performs. [`Watch::start`] says what to
//! ask, the caller sends the read and parks until the answer is there, and
//! [`Watch::complete`] says what the answer means. Between the two the
//! caller may [`Watch::cancel`], which abandons the wait on this side only:
//! the store knows of no cancellation.

use crate::error::Error;
use crate::kv::Indexed;
use crate::options::{Consistency, QueryOptions};
use vstd::prelude::*;

verus! {

/// Where a watch stands.
#[derive(Clone, Copy, Debug, PartialEq, Eq, Structural)]
pub enum WatchState {
    /// No wait is in flight and none has ended yet.
    Idle,
    /// A read was handed out and its answer is awaited.
    Waiting,
    /// The last wait ended with an index other than the one it waited on.
    Changed,
    /// The last wait ended with the index it waited on: nothing was written
    /// in time. This is the normal end of a quiet wait.
    TimedOut,
    /// The caller abandoned the last wait.
    Cancelled,
    /// The last wait ended with an error of the transport or of decoding.
    Failed,
}

/// How a wait ended.
#[derive(Debug, PartialEq, Eq)]
pub enum Outcome<T> {
    /// The store's index moved: here is what the read returned and the index
    /// to wait on next.
    Changed { value: T, index: u64 },
    /// The store's index did not move within the time allowed. Waiting again
    /// on the same index is the thing to do.
    TimedOut,
    /// The wait had been abandoned; its answer was dropped.
    Cancelled,
    /// The read failed. Nothing is tried again by itself.
    Failed(Error),
}

/// One watcher's state: where it stands and the index it last saw.
#[derive(Debug)]
pub struct Watch {
    state: WatchState,
    index: u64,
}

/// What a watch is after the answer to its wait arrived. `answer` is the
/// index that the answer carried, `None` where the read failed.
pub open spec fn after_answer(state: WatchState, index: u64, answer: Option<u64>) -> (
    WatchState,
    u64,
) {
    match state {
        WatchState::Waiting => match answer {
            Some(seen) => if seen != index {
                (WatchState::Changed, seen)
            } else {
                (WatchState::TimedOut, index)
            },
            None => (WatchState::Failed, index),
        },
        _ => (state, index),
    }
}

/// The index that an answer carried, `None` where the read failed.
pub open spec fn answer_index<T>(answer: Result<Indexed<T>, Error>) -> Option<u64> {
    match answer {
        Ok(read) => Some(read.index),
        Err(_) => None,
    }
}

impl Watch {
    /// Where the watch stands.
    pub closed spec fn state(&self) -> WatchState {
        self.state
    }

    /// The index that the watch last saw, and waits on next.
    pub closed spec fn index(&self) -> u64 {
        self.index
    }

    /// An idle watch that last saw `index`. With zero, for nothing seen yet,
    /// the first read returns at once with the store's current state.
    pub fn new(index: u64) -> (watch: Self)
        ensures
            watch.state() == WatchState::Idle,
            watch.index() == index,
    {
        Watch { state: WatchState::Idle, index }
    }

    /// Where the watch stands.
    pub fn current_state(&self) -> (state: WatchState)
        ensures
            state == self.state(),
    {
        self.state
    }

    /// The index that the watch last saw.
    pub fn last_index(&self) -> (index: u64)
        ensures
            index == self.index(),
    {
        self.index
    }

    /// Starts a wait of at most `wait_time` milliseconds and returns the
    /// options of the read to send: they ask the store to hold the read
    /// until its index differs from the one last seen. While a wait is in
    /// flight no other is started, and nothing is returned.
    pub fn start(&mut self, wait_time: Option<u64>) -> (options: Option<QueryOptions>)
        ensures
            final(self).index() == old(self).index(),
            match old(self).state() {
                WatchState::Waiting => options is None && final(self).state()
                    == WatchState::Waiting,
                _ => options matches Some(asked) && final(self).state() == WatchState::Waiting
                    && asked.consistency == Consistency::Default && asked.wait_index == Some(
                    old(self).index(),
                ) && asked.wait_time == wait_time && asked.token is None && asked.datacenter
                    is None && asked.namespace is None,
            },
    {
        match self.state {
            WatchState::Waiting => None,
            _ => {
                self.state = WatchState::Waiting;
                Some(QueryOptions::watching(self.index, wait_time))
            },
        }
    }

    /// Abandons the wait in flight, if there is one. The answer to it, should
    /// it still arrive, is dropped by [`Watch::complete`].
    pub fn cancel(&mut self)
        ensures
            final(self).index() == old(self).index(),
            final(self).state() == if old(self).state() == WatchState::Waiting {
                WatchState::Cancelled
            } else {
                old(self).state()
            },
    {
        match self.state {
            WatchState::Waiting => {
                self.state = WatchState::Cancelled;
            },
            _ => {},
        }
    }

    /// Takes the answer to the wait in flight and says how the wait ended.
    ///
    /// An answer with another index than the one waited on is a change: its
    /// value is handed on and its index is the one to wait on next. An answer
    /// with the same index means that the time ran out. A failed read fails
    /// the wait. Where the wait had been cancelled the answer is dropped;
    /// where no wait was started there is nothing to end, and nothing is
    /// returned.
    pub fn complete<T>(&mut self, answer: Result<Indexed<T>, Error>) -> (outcome: Option<
        Outcome<T>,
    >)
        ensures
            (final(self).state(), final(self).index()) == after_answer(
                old(self).state(),
                old(self).index(),
                answer_index(answer),
            ),
            match old(self).state() {
                WatchState::Waiting => match answer {
                    Ok(read) => if read.index != old(self).index() {
                        outcome == Some(Outcome::Changed { value: read.value, index: read.index })
                    } else {
                        outcome == Some(Outcome::<T>::TimedOut)
                    },
                    Err(error) => outcome == Some(Outcome::<T>::Failed(error)),
                },
                WatchState::Cancelled => outcome == Some(Outcome::<T>::Cancelled),
                _ => outcome is None,
            },
    {
        match self.state {
            WatchState::Waiting => match answer {
                Ok(read) => {
                    if read.index != self.index {
                        self.state = WatchState::Changed;
                        self.index = read.index;
                        Some(Outcome::Changed { value: read.value, index: read.index })
                    } else {
                        self.state = WatchState::TimedOut;
                        Some(Outcome::TimedOut)
                    }
                },
                Err(error) => {
                    self.state = WatchState::Failed;
                    Some(Outcome::Failed(error))
                },
            },
            WatchState::Cancelled => Some(Outcome::Cancelled),
            _ => None,
        }
    }
}

/// A wait that ended on the index that it waited on leaves the watch with
/// that index: the next wait is the same wait again, however often that is
/// done.
pub proof fn lemma_wait_again_is_the_same_wait(index: u64)
    ensures
        after_answer(WatchState::Waiting, index, Some(index)) == (WatchState::TimedOut, index),
{
}

/// A wait ends as changed exactly when the answer carries another index than
/// the one waited on, and the watch then holds the answer's index.
pub proof fn lemma_changed_iff_index_moved(index: u64, seen: u64)
    ensures
        after_answer(WatchState::Waiting, index, Some(seen)).0 == WatchState::Changed <==> seen
            != index,
        after_answer(WatchState::Waiting, index, Some(seen)).0 == WatchState::TimedOut <==> seen
            == index,
        after_answer(WatchState::Waiting, index, Some(seen)).1 == seen,
{
}

} // verus!
