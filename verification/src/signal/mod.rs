//! Broadcast signals: any number of waiters suspend until a producer
//! triggers, and one trigger wakes all of them.
//!
//! A signal is edge-triggered with a version counter. A subscription captures
//! the version when it is taken and resolves once the version has moved past
//! it. A trigger hands every queued waker over for waking and bumps the
//! version.

use std::collections::VecDeque;
use std::task::Waker;
use vstd::prelude::*;
use vstd::string::StringSliceAdditionalSpecFns;

use crate::utils::bytes::bytes_eq;
use crate::utils::bytes::spec_u64_to_be_bytes;
use crate::utils::bytes::u64_to_be_bytes;
use crate::utils::TypeTag;

pub mod broadcast;
pub mod table;

verus! {

/// `std::task::Waker`, carried through as an opaque value.
#[verifier::external_type_specification]
#[verifier::external_body]
pub struct ExWaker(Waker);

/// Calls `std::task::Waker::wake`, which wakes the task that the waker
/// belongs to. The effect lies outside of what the contracts speak of.
#[verifier::external_body]
fn wake(waker: Waker) {
    waker.wake()
}

/// The mathematical content of a wait list: the wakers queued since the last
/// trigger, oldest first, and the number of triggers so far.
pub ghost struct WaitListView {
    pub waiters: Seq<Waker>,
    pub version: u64,
}

impl WaitListView {
    /// A wait list that nobody has touched.
    pub open spec fn fresh() -> WaitListView {
        WaitListView { waiters: Seq::empty(), version: 0 }
    }

    /// The list with one more waker queued.
    pub open spec fn pushed(self, waker: Waker) -> WaitListView {
        WaitListView { waiters: self.waiters.push(waker), ..self }
    }

    /// A trigger: the list afterwards, and the wakers it hands over for
    /// waking, oldest first.
    pub open spec fn triggered(self) -> (WaitListView, Seq<Waker>) {
        (
            WaitListView {
                waiters: Seq::empty(),
                version: vstd::wrapping::u64_specs::wrapping_add(self.version, 1u64),
            },
            self.waiters,
        )
    }

    /// One poll of a subscription that has seen the triggers up to `latest`:
    /// the list afterwards, what the subscription has seen afterwards, and
    /// whether it resolves.
    pub open spec fn polled(self, latest: u64, waker: Waker) -> (WaitListView, u64, bool) {
        if self.version > latest {
            (self.pushed(waker), (latest + 1) as u64, true)
        } else {
            (self.pushed(waker), latest, false)
        }
    }
}

/// The queue of pending waiters and the version counter behind a signal.
#[derive(Debug)]
pub struct WaitList {
    queue: VecDeque<Waker>,
    version: u64,
}

impl View for WaitList {
    type V = WaitListView;

    closed spec fn view(&self) -> WaitListView {
        WaitListView { waiters: self.queue@, version: self.version }
    }
}

/// Wakes every waker of `wakers`, oldest first.
pub(crate) fn wake_all(wakers: VecDeque<Waker>) {
    let mut wakers = wakers;
    while wakers.len() > 0
        decreases wakers@.len(),
    {
        match wakers.pop_front() {
            Some(waker) => wake(waker),
            None => {},
        }
    }
}

impl WaitList {
    /// An empty wait list at version zero.
    pub fn new() -> (list: WaitList)
        ensures
            list@ == WaitListView::fresh(),
    {
        WaitList { queue: VecDeque::new(), version: 0 }
    }

    /// The number of triggers so far.
    pub fn version(&self) -> (version: u64)
        ensures
            version == self@.version,
    {
        self.version
    }

    /// The number of wakers queued since the last trigger.
    pub fn pending(&self) -> (count: usize)
        ensures
            count == self@.waiters.len(),
    {
        self.queue.len()
    }

    /// Queues a waker behind those already waiting.
    pub fn push(&mut self, waker: Waker)
        ensures
            final(self)@ == old(self)@.pushed(waker),
    {
        self.queue.push_back(waker);
    }

    /// Triggers without waking: empties the queue, bumps the version and
    /// returns the wakers that were queued, oldest first.
    pub fn take_waiters(&mut self) -> (woken: VecDeque<Waker>)
        ensures
            (final(self)@, woken@) == old(self)@.triggered(),
    {
        let mut woken: VecDeque<Waker> = VecDeque::new();
        std::mem::swap(&mut self.queue, &mut woken);
        self.version = self.version.wrapping_add(1);
        woken
    }

    /// Triggers: empties the queue, bumps the version and wakes every waker
    /// that was queued, oldest first.
    pub fn consume(&mut self)
        ensures
            final(self)@ == old(self)@.triggered().0,
    {
        let woken = self.take_waiters();
        wake_all(woken);
    }
}

/// A broadcast channel without payload.
#[derive(Debug)]
pub struct Signal {
    inner: WaitList,
}

impl View for Signal {
    type V = WaitListView;

    closed spec fn view(&self) -> WaitListView {
        self.inner@
    }
}

impl Signal {
    /// A signal that nobody waits on and that was never triggered.
    pub fn new() -> (signal: Signal)
        ensures
            signal@ == WaitListView::fresh(),
    {
        Signal { inner: WaitList::new() }
    }

    /// Subscribes: the subscription has seen every trigger so far and
    /// resolves at the next one.
    pub fn recv(&self) -> (waiting: WaitingSignal)
        ensures
            waiting@ == self@.version,
    {
        WaitingSignal { latest: self.inner.version() }
    }

    /// Triggers the signal: every waker queued so far is woken, oldest
    /// first, and the version moves on. With nobody queued only the version
    /// moves.
    pub fn send(&mut self)
        ensures
            final(self)@ == old(self)@.triggered().0,
    {
        self.inner.consume();
    }

    /// Borrows the capability to trigger the signal.
    pub fn get_sender(&mut self) -> (sender: SignalSender<'_>)
        ensures
            sender.inner@ == old(self)@,
            final(self)@ == final(sender.inner)@,
    {
        SignalSender { inner: &mut self.inner }
    }

    /// Triggers the signal as [`Signal::send`] does, but leaves the waking to
    /// the caller: the wakers that were queued are returned, oldest first.
    pub fn send_deferred(&mut self) -> (woken: VecDeque<Waker>)
        ensures
            (final(self)@, woken@) == old(self)@.triggered(),
    {
        self.inner.take_waiters()
    }
}

/// The capability to trigger a signal, borrowed from it.
#[derive(Debug)]
pub struct SignalSender<'a> {
    /// The wait list of the signal that the sender was taken from.
    pub inner: &'a mut WaitList,
}

impl<'a> SignalSender<'a> {
    /// Triggers the signal.
    pub fn send(self)
        ensures
            final(self.inner)@ == old(self.inner)@.triggered().0,
    {
        self.inner.consume();
    }
}

/// One subscription to a signal.
#[derive(Debug, Clone, Copy)]
pub struct WaitingSignal {
    latest: u64,
}

impl View for WaitingSignal {
    type V = u64;

    /// The number of triggers that the subscription has seen.
    closed spec fn view(&self) -> u64 {
        self.latest
    }
}

impl WaitingSignal {
    /// Polls the subscription against the signal it was taken from. The
    /// waker is queued in any case. The subscription resolves if the signal
    /// was triggered since what it has seen, and then counts one trigger as
    /// seen.
    pub fn poll(&mut self, signal: &mut Signal, waker: Waker) -> (ready: bool)
        ensures
            (final(signal)@, final(self)@, ready) == old(signal)@.polled(old(self)@, waker),
    {
        let version = signal.inner.version();
        signal.inner.push(waker);
        if version > self.latest {
            self.latest = self.latest + 1;
            true
        } else {
            false
        }
    }
}

/// Identifies a signal in the runtime's signal table: a byte string, derived
/// from a type or given by name.
#[derive(Debug)]
pub struct SignalKey {
    id: Vec<u8>,
}

impl Clone for SignalKey {
    fn clone(&self) -> (copy: Self)
        ensures
            copy@ == self@,
    {
        SignalKey { id: vstd::slice::slice_to_vec(self.id.as_slice()) }
    }
}

impl View for SignalKey {
    type V = Seq<u8>;

    closed spec fn view(&self) -> Seq<u8> {
        self.id@
    }
}

impl SignalKey {
    /// The key that stands for the type with the given tag: the tag's eight
    /// bytes, most significant first.
    pub fn from_type_tag(tag: TypeTag) -> (key: SignalKey)
        ensures
            key@ == spec_u64_to_be_bytes(tag.id),
    {
        SignalKey { id: u64_to_be_bytes(tag.raw()) }
    }

    /// The key that stands for the type `T`.
    pub fn from_type<T: 'static>() -> (key: SignalKey)
        ensures
            exists|tag: TypeTag| key@ == spec_u64_to_be_bytes(tag.id),
    {
        SignalKey::from_type_tag(TypeTag::of::<T>())
    }

    /// The key named by a string: its UTF-8 bytes.
    pub fn from_static_str(id: &'static str) -> (key: SignalKey)
        ensures
            key@ == id.spec_bytes(),
    {
        SignalKey { id: vstd::slice::slice_to_vec(id.as_bytes()) }
    }

    /// The key named by a byte string.
    pub fn from_static_bytes(id: &'static [u8]) -> (key: SignalKey)
        ensures
            key@ == id@,
    {
        SignalKey { id: vstd::slice::slice_to_vec(id) }
    }

    /// The key named by a byte string.
    pub fn new(id: &[u8]) -> (key: SignalKey)
        ensures
            key@ == id@,
    {
        SignalKey { id: vstd::slice::slice_to_vec(id) }
    }

    /// The bytes of the key.
    pub fn as_bytes(&self) -> (bytes: &[u8])
        ensures
            bytes@ == self@,
    {
        self.id.as_slice()
    }

    /// Whether two keys are the same.
    pub fn same_as(&self, other: &SignalKey) -> (same: bool)
        ensures
            same == (self@ == other@),
    {
        bytes_eq(self.id.as_slice(), other.id.as_slice())
    }
}

/// A signal that is addressed by a type rather than by a name.
#[derive(Debug)]
pub struct TypedSignal<T> {
    marker: std::marker::PhantomData<T>,
    signal: Signal,
}

impl<T: 'static> TypedSignal<T> {
    /// The key under which the signal of type `T` is registered.
    pub fn key() -> (key: SignalKey)
        ensures
            exists|tag: TypeTag| key@ == spec_u64_to_be_bytes(tag.id),
    {
        SignalKey::from_type::<T>()
    }

    /// A fresh signal for the type `T`.
    pub fn new() -> (typed: TypedSignal<T>)
        ensures
            typed@ == WaitListView::fresh(),
    {
        TypedSignal { marker: std::marker::PhantomData, signal: Signal::new() }
    }

    /// Gives up the type and hands out the signal.
    pub fn into_signal(self) -> (signal: Signal)
        ensures
            signal@ == self@,
    {
        self.signal
    }
}

impl<T> View for TypedSignal<T> {
    type V = WaitListView;

    closed spec fn view(&self) -> WaitListView {
        self.signal@
    }
}

} // verus!
