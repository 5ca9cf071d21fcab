use moonbase::signal::table::SignalTable;
use moonbase::signal::Signal;
use moonbase::signal::SignalKey;
use moonbase::signal::TypedSignal;
use moonbase::signal::WaitList;
use moonbase::utils::TypeTag;
use std::sync::atomic::AtomicUsize;
use std::sync::atomic::Ordering;
use std::sync::Arc;
use std::task::Wake;
use std::task::Waker;

/// Counts how often it is woken.
struct Counter {
    woken: AtomicUsize,
}

impl Wake for Counter {
    fn wake(self: Arc<Self>) {
        self.woken.fetch_add(1, Ordering::SeqCst);
    }
}

fn counter() -> (Arc<Counter>, Waker) {
    let counter = Arc::new(Counter { woken: AtomicUsize::new(0) });
    (counter.clone(), Waker::from(counter))
}

fn woken(counter: &Arc<Counter>) -> usize {
    counter.woken.load(Ordering::SeqCst)
}

#[test]
fn wait_list_queues_and_consumes() {
    let mut list = WaitList::new();
    assert_eq!(list.version(), 0);
    assert_eq!(list.pending(), 0);
    let (first, first_waker) = counter();
    let (second, second_waker) = counter();
    list.push(first_waker);
    list.push(second_waker);
    assert_eq!(list.pending(), 2);
    assert_eq!(woken(&first), 0);
    list.consume();
    assert_eq!(list.version(), 1);
    assert_eq!(list.pending(), 0);
    assert_eq!(woken(&first), 1);
    assert_eq!(woken(&second), 1);
    list.consume();
    assert_eq!(list.version(), 2);
    assert_eq!(woken(&first), 1);
}

#[test]
fn take_waiters_hands_over_in_order_without_waking() {
    let mut list = WaitList::new();
    let (first, first_waker) = counter();
    let (second, second_waker) = counter();
    list.push(first_waker.clone());
    list.push(second_waker.clone());
    let taken = list.take_waiters();
    assert_eq!(list.version(), 1);
    assert_eq!(list.pending(), 0);
    assert_eq!(taken.len(), 2);
    assert!(taken[0].will_wake(&first_waker));
    assert!(taken[1].will_wake(&second_waker));
    assert_eq!(woken(&first), 0);
    assert_eq!(woken(&second), 0);
}

#[test]
fn one_trigger_resolves_all_registered_waiters() {
    let mut signal = Signal::new();
    let mut waiters = Vec::new();
    for _ in 0..5 {
        let (count, waker) = counter();
        let mut waiting = signal.recv();
        assert!(!waiting.poll(&mut signal, waker.clone()));
        waiters.push((count, waker, waiting));
    }
    signal.send();
    for (count, waker, waiting) in waiters.iter_mut() {
        assert_eq!(woken(count), 1);
        assert!(waiting.poll(&mut signal, waker.clone()));
    }
}

#[test]
fn late_waiter_waits_for_the_next_trigger() {
    let mut signal = Signal::new();
    signal.send();
    let (count, waker) = counter();
    let mut waiting = signal.recv();
    assert!(!waiting.poll(&mut signal, waker.clone()));
    assert_eq!(woken(&count), 0);
    signal.send();
    assert_eq!(woken(&count), 1);
    assert!(waiting.poll(&mut signal, waker.clone()));
    assert!(!waiting.poll(&mut signal, waker));
}

#[test]
fn resolved_subscription_counts_one_trigger() {
    let mut signal = Signal::new();
    let (_, waker) = counter();
    let mut waiting = signal.recv();
    signal.send();
    signal.send();
    assert!(waiting.poll(&mut signal, waker.clone()));
    assert!(waiting.poll(&mut signal, waker.clone()));
    assert!(!waiting.poll(&mut signal, waker.clone()));
    let mut fresh = signal.recv();
    assert!(!fresh.poll(&mut signal, waker));
}

#[test]
fn trigger_without_waiters_is_a_no_op() {
    let mut signal = Signal::new();
    signal.send();
    assert!(signal.send_deferred().is_empty());
    let (count, waker) = counter();
    let mut waiting = signal.recv();
    assert!(!waiting.poll(&mut signal, waker));
    assert_eq!(woken(&count), 0);
}

#[test]
fn deferred_send_leaves_the_waking_to_the_caller() {
    let mut signal = Signal::new();
    let (count, waker) = counter();
    let mut waiting = signal.recv();
    assert!(!waiting.poll(&mut signal, waker.clone()));
    let handed = signal.send_deferred();
    assert_eq!(handed.len(), 1);
    assert_eq!(woken(&count), 0);
    for waker in handed {
        waker.wake();
    }
    assert_eq!(woken(&count), 1);
    assert!(waiting.poll(&mut signal, waker));
}

#[test]
fn borrowed_sender_triggers_the_signal() {
    let mut signal = Signal::new();
    let (count, waker) = counter();
    let mut waiting = signal.recv();
    assert!(!waiting.poll(&mut signal, waker.clone()));
    signal.get_sender().send();
    assert_eq!(woken(&count), 1);
    assert!(waiting.poll(&mut signal, waker.clone()));
    signal.get_sender().send();
    assert_eq!(woken(&count), 2);
    assert!(waiting.poll(&mut signal, waker));
}

struct Shutdown;

struct Reload;

#[test]
fn signal_keys_are_their_bytes() {
    assert_eq!(SignalKey::new(b"stop").as_bytes(), b"stop");
    assert_eq!(SignalKey::from_static_str("stop").as_bytes(), b"stop");
    assert_eq!(SignalKey::from_static_bytes(b"\x00\x01").as_bytes(), &[0, 1]);
    assert!(SignalKey::new(b"stop").same_as(&SignalKey::from_static_str("stop")));
    assert!(!SignalKey::new(b"stop").same_as(&SignalKey::new(b"go")));
    let tag = TypeTag::from_raw(0x0102030405060708);
    assert_eq!(SignalKey::from_type_tag(tag).as_bytes(), &[1, 2, 3, 4, 5, 6, 7, 8]);
    assert_eq!(
        SignalKey::from_type::<Shutdown>().as_bytes(),
        TypeTag::of::<Shutdown>().raw().to_be_bytes()
    );
    assert!(SignalKey::from_type::<Shutdown>().same_as(&TypedSignal::<Shutdown>::key()));
    assert!(!SignalKey::from_type::<Shutdown>().same_as(&SignalKey::from_type::<Reload>()));
    let key = SignalKey::new(b"copy");
    assert!(key.clone().same_as(&key));
}

#[test]
fn typed_signal_gives_up_its_type() {
    let typed = TypedSignal::<Shutdown>::new();
    let mut signal = typed.into_signal();
    let (count, waker) = counter();
    let mut waiting = signal.recv();
    assert!(!waiting.poll(&mut signal, waker.clone()));
    signal.send();
    assert_eq!(woken(&count), 1);
    assert!(waiting.poll(&mut signal, waker));
}

#[test]
fn table_registers_one_signal_per_key() {
    let mut table = SignalTable::new();
    let stop = SignalKey::from_static_str("stop");
    let go = SignalKey::from_static_str("go");
    assert!(!table.has(&stop));
    assert!(table.get(&stop).is_none());
    assert!(table.set(stop.clone(), Signal::new()).is_none());
    assert!(table.set(go.clone(), Signal::new()).is_none());
    assert!(table.has(&stop));
    assert!(table.has(&go));

    let (count, waker) = counter();
    let mut waiting = table.recv(&stop).expect("registered");
    assert_eq!(table.poll(&stop, &mut waiting, waker.clone()), Some(false));
    assert!(table.trigger(&go));
    assert_eq!(woken(&count), 0);
    assert_eq!(table.poll(&stop, &mut waiting, waker.clone()), Some(false));
    assert!(table.trigger(&stop));
    assert_eq!(woken(&count), 2);
    assert_eq!(table.poll(&stop, &mut waiting, waker.clone()), Some(true));

    let replaced = table.set(stop.clone(), Signal::new()).expect("replaced");
    assert_eq!(replaced.recv().poll(&mut Signal::new(), waker.clone()), false);
    let mut after = table.recv(&stop).expect("registered");
    assert_eq!(table.poll(&stop, &mut after, waker.clone()), Some(false));

    assert!(table.remove(&stop).is_some());
    assert!(!table.has(&stop));
    assert!(table.has(&go));
    assert!(table.remove(&stop).is_none());
    assert!(!table.trigger(&stop));
    assert!(table.trigger_deferred(&stop).is_none());
    assert!(table.recv(&stop).is_none());
    assert_eq!(table.poll(&stop, &mut after, waker), None);
    assert_eq!(table.trigger_deferred(&go).expect("registered").len(), 0);
}
