//! The keyed table of signals that a runtime owns.

use std::collections::VecDeque;
use std::task::Waker;
use vstd::prelude::*;

use crate::signal::Signal;
use crate::signal::SignalKey;
use crate::signal::WaitListView;
use crate::signal::WaitingSignal;
use crate::utils::assoc::content;
use crate::utils::assoc::distinct;
use crate::utils::assoc::lemma_found;
use crate::utils::assoc::lemma_missing;
use crate::utils::assoc::lemma_push;
use crate::utils::assoc::lemma_swap_remove;

verus! {

/// Signals registered under keys, at most one per key.
#[derive(Debug)]
pub struct SignalTable {
    entries: Vec<(SignalKey, Signal)>,
}

/// The key of an entry.
spec fn key_of() -> spec_fn((SignalKey, Signal)) -> Seq<u8> {
    |entry: (SignalKey, Signal)| entry.0@
}

/// The content of the signal of an entry.
spec fn value_of() -> spec_fn((SignalKey, Signal)) -> WaitListView {
    |entry: (SignalKey, Signal)| entry.1@
}

/// No key occurs twice among `entries`.
spec fn distinct_keys(entries: Seq<(SignalKey, Signal)>) -> bool {
    distinct(entries, key_of())
}

/// The signals of `entries` by their keys.
spec fn content_of(entries: Seq<(SignalKey, Signal)>) -> Map<Seq<u8>, WaitListView> {
    content(entries, key_of(), value_of())
}

impl SignalTable {
    /// No key is registered twice.
    pub closed spec fn wf(&self) -> bool {
        distinct_keys(self.entries@)
    }
}

impl View for SignalTable {
    type V = Map<Seq<u8>, WaitListView>;

    closed spec fn view(&self) -> Map<Seq<u8>, WaitListView> {
        content_of(self.entries@)
    }
}

impl SignalTable {
    /// An empty table.
    pub fn new() -> (table: SignalTable)
        ensures
            table.wf(),
            table@ == Map::<Seq<u8>, WaitListView>::empty(),
    {
        let table = SignalTable { entries: Vec::new() };
        assert(table@ =~= Map::<Seq<u8>, WaitListView>::empty());
        table
    }

    /// Where `key` is registered, if it is.
    fn find(&self, key: &SignalKey) -> (at: Option<usize>)
        requires
            self.wf(),
        ensures
            match at {
                Some(i) => i < self.entries@.len() && self.entries@[i as int].0@ == key@
                    && self@.contains_key(key@) && self@[key@] == self.entries@[i as int].1@,
                None => !self@.contains_key(key@),
            },
    {
        let mut i: usize = 0;
        while i < self.entries.len()
            invariant
                self.wf(),
                i <= self.entries@.len(),
                forall|j: int| 0 <= j < i ==> self.entries@[j].0@ != key@,
            decreases self.entries@.len() - i,
        {
            if self.entries[i].0.same_as(key) {
                proof {
                    lemma_found(self.entries@, key_of(), value_of(), i as int);
                }
                return Some(i);
            }
            i = i + 1;
        }
        proof {
            lemma_missing(self.entries@, key_of(), value_of(), key@);
        }
        None
    }

    /// Whether a signal is registered under `key`.
    pub fn has(&self, key: &SignalKey) -> (present: bool)
        requires
            self.wf(),
        ensures
            present == self@.contains_key(key@),
    {
        self.find(key).is_some()
    }

    /// The signal registered under `key`, borrowed.
    pub fn get(&self, key: &SignalKey) -> (found: Option<&Signal>)
        requires
            self.wf(),
        ensures
            match found {
                Some(signal) => self@.contains_key(key@) && signal@ == self@[key@],
                None => !self@.contains_key(key@),
            },
    {
        match self.find(key) {
            Some(i) => Some(&self.entries[i].1),
            None => None,
        }
    }

    /// Registers `signal` under `key` and returns the signal that it
    /// replaces.
    pub fn set(&mut self, key: SignalKey, signal: Signal) -> (replaced: Option<Signal>)
        requires
            old(self).wf(),
        ensures
            final(self).wf(),
            final(self)@ == old(self)@.insert(key@, signal@),
            match replaced {
                Some(previous) => old(self)@.contains_key(key@) && previous@ == old(self)@[key@],
                None => !old(self)@.contains_key(key@),
            },
    {
        let ghost before = self.entries@;
        match self.find(&key) {
            Some(i) => {
                let (_, previous) = self.entries.swap_remove(i);
                let ghost between = self.entries@;
                self.entries.push((key, signal));
                proof {
                    lemma_swap_remove(before, key_of(), value_of(), i as int);
                    lemma_push(between, key_of(), value_of(), (key, signal));
                    assert(content_of(before).remove(key@).insert(key@, signal@) =~= content_of(
                        before,
                    ).insert(key@, signal@));
                }
                Some(previous)
            },
            None => {
                self.entries.push((key, signal));
                proof {
                    lemma_push(before, key_of(), value_of(), (key, signal));
                }
                None
            },
        }
    }

    /// Takes out the signal registered under `key`.
    pub fn remove(&mut self, key: &SignalKey) -> (removed: Option<Signal>)
        requires
            old(self).wf(),
        ensures
            final(self).wf(),
            final(self)@ == old(self)@.remove(key@),
            match removed {
                Some(signal) => old(self)@.contains_key(key@) && signal@ == old(self)@[key@],
                None => !old(self)@.contains_key(key@),
            },
    {
        let ghost before = self.entries@;
        match self.find(key) {
            Some(i) => {
                let (_, signal) = self.entries.swap_remove(i);
                proof {
                    lemma_swap_remove(before, key_of(), value_of(), i as int);
                }
                Some(signal)
            },
            None => {
                assert(self@ =~= old(self)@.remove(key@));
                None
            },
        }
    }

    /// Subscribes to the signal registered under `key`, if there is one.
    pub fn recv(&self, key: &SignalKey) -> (waiting: Option<WaitingSignal>)
        requires
            self.wf(),
        ensures
            match waiting {
                Some(waiting) => self@.contains_key(key@) && waiting@ == self@[key@].version,
                None => !self@.contains_key(key@),
            },
    {
        match self.get(key) {
            Some(signal) => Some(signal.recv()),
            None => None,
        }
    }

    /// Polls a subscription against the signal registered under `key`, if
    /// there is one, and says whether the subscription resolves.
    pub fn poll(&mut self, key: &SignalKey, waiting: &mut WaitingSignal, waker: Waker) -> (ready:
        Option<bool>)
        requires
            old(self).wf(),
        ensures
            final(self).wf(),
            match ready {
                Some(ready) => {
                    let polled = old(self)@[key@].polled(old(waiting)@, waker);
                    &&& old(self)@.contains_key(key@)
                    &&& final(self)@ == old(self)@.insert(key@, polled.0)
                    &&& final(waiting)@ == polled.1
                    &&& ready == polled.2
                },
                None => {
                    &&& !old(self)@.contains_key(key@)
                    &&& final(self)@ == old(self)@
                    &&& final(waiting)@ == old(waiting)@
                },
            },
    {
        match self.remove(key) {
            Some(signal) => {
                let mut signal = signal;
                let ready = waiting.poll(&mut signal, waker);
                let _ = self.set(key.clone(), signal);
                proof {
                    assert(old(self)@.remove(key@).insert(key@, signal@) =~= old(self)@.insert(
                        key@,
                        signal@,
                    ));
                }
                Some(ready)
            },
            None => None,
        }
    }

    /// Triggers the signal registered under `key`, if there is one, and
    /// says whether there was. Every waker queued on it is handed back for
    /// waking, oldest first.
    pub fn trigger_deferred(&mut self, key: &SignalKey) -> (woken: Option<VecDeque<Waker>>)
        requires
            old(self).wf(),
        ensures
            final(self).wf(),
            match woken {
                Some(wakers) => old(self)@.contains_key(key@) && final(self)@ == old(self)@.insert(
                    key@,
                    old(self)@[key@].triggered().0,
                ) && wakers@ == old(self)@[key@].triggered().1,
                None => !old(self)@.contains_key(key@) && final(self)@ == old(self)@,
            },
    {
        match self.remove(key) {
            Some(signal) => {
                let mut signal = signal;
                let wakers = signal.send_deferred();
                let _ = self.set(key.clone(), signal);
                proof {
                    assert(old(self)@.remove(key@).insert(key@, signal@) =~= old(self)@.insert(
                        key@,
                        signal@,
                    ));
                }
                Some(wakers)
            },
            None => None,
        }
    }

    /// Triggers the signal registered under `key`, if there is one, and
    /// says whether there was: every waker queued on it is woken, oldest
    /// first, and its version moves on.
    pub fn trigger(&mut self, key: &SignalKey) -> (found: bool)
        requires
            old(self).wf(),
        ensures
            final(self).wf(),
            found == old(self)@.contains_key(key@),
            final(self)@ == (if found {
                old(self)@.insert(key@, old(self)@[key@].triggered().0)
            } else {
                old(self)@
            }),
    {
        match self.trigger_deferred(key) {
            Some(wakers) => {
                crate::signal::wake_all(wakers);
                true
            },
            None => false,
        }
    }
}

} // verus!
