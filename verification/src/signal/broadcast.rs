//! What holds of every signal: a trigger reaches all who registered before
//! it, and none who come after.

use std::task::Waker;
use vstd::prelude::*;

use crate::signal::WaitListView;

verus! {

/// The list after one waiter per waker of `wakers` has subscribed to it and
/// polled once, in the order of `wakers`, with no trigger in between.
pub open spec fn registered(list: WaitListView, wakers: Seq<Waker>) -> WaitListView
    decreases wakers.len(),
{
    if wakers.len() == 0 {
        list
    } else {
        registered(list, wakers.drop_last()).polled(list.version, wakers.last()).0
    }
}

/// Registering queues the wakers in order and lets every waiter pend: the
/// version stands still, so no poll resolves.
pub proof fn registering_queues_in_order(list: WaitListView, wakers: Seq<Waker>)
    ensures
        registered(list, wakers) == (WaitListView {
            waiters: list.waiters + wakers,
            version: list.version,
        }),
        forall|waker: Waker| !(#[trigger] registered(list, wakers).polled(list.version, waker)).2,
    decreases wakers.len(),
{
    if wakers.len() == 0 {
        assert(list.waiters + wakers =~= list.waiters);
    } else {
        registering_queues_in_order(list, wakers.drop_last());
        assert(list.waiters + wakers =~= (list.waiters + wakers.drop_last()).push(
            wakers.last(),
        ));
    }
}

/// One trigger reaches every waiter that registered before it: the wakers of
/// all of them are handed over for waking, none is left queued, and each of
/// their subscriptions resolves at its next poll.
///
/// The version counter has 64 bits and wraps; the one trigger that wraps it
/// is left out.
pub proof fn trigger_reaches_all_registered(list: WaitListView, wakers: Seq<Waker>)
    requires
        list.version < u64::MAX,
    ensures
        ({
            let (after, woken) = registered(list, wakers).triggered();
            &&& woken == list.waiters + wakers
            &&& forall|i: int| 0 <= i < wakers.len() ==> woken.contains(#[trigger] wakers[i])
            &&& after.waiters.len() == 0
            &&& forall|waker: Waker|
                (#[trigger] after.polled(list.version, waker)).2 && after.polled(
                    list.version,
                    waker,
                ).1 == after.version
        }),
{
    registering_queues_in_order(list, wakers);
    let woken = list.waiters + wakers;
    assert forall|i: int| 0 <= i < wakers.len() implies woken.contains(#[trigger] wakers[i]) by {
        assert(woken[list.waiters.len() + i] == wakers[i]);
    }
}

/// A waiter that subscribes after a trigger is not reached by it: its first
/// poll pends and queues its waker, and the next trigger hands that waker
/// over and lets the subscription resolve.
pub proof fn late_waiter_waits_for_next_trigger(list: WaitListView, waker: Waker)
    requires
        list.version < u64::MAX - 1,
    ensures
        ({
            let after = list.triggered().0;
            let (queued, seen, ready) = after.polled(after.version, waker);
            let (next, woken) = queued.triggered();
            &&& !ready
            &&& seen == after.version
            &&& queued == after.pushed(waker)
            &&& woken == seq![waker]
            &&& next.polled(seen, waker).2
        }),
{
    let after = list.triggered().0;
    assert(after.pushed(waker).waiters =~= seq![waker]);
}

/// Triggering a signal that nobody waits on wakes nobody and only moves the
/// version.
pub proof fn trigger_without_waiters(list: WaitListView)
    requires
        list.waiters.len() == 0,
    ensures
        list.triggered().1 == Seq::<Waker>::empty(),
        list.triggered().0.waiters == list.waiters,
{
    assert(list.waiters =~= Seq::<Waker>::empty());
}

} // verus!
