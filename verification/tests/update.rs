use moonbase::resource::update::EffectMap;
use moonbase::resource::update::ResourceUpdateNotifier;
use moonbase::utils::TypeTag;
use std::collections::HashSet;
use std::sync::atomic::AtomicUsize;
use std::sync::atomic::Ordering;
use std::sync::Arc;
use std::task::Wake;
use std::task::Waker;

struct Counter {
    woken: AtomicUsize,
}

impl Wake for Counter {
    fn wake(self: Arc<Self>) {
        self.woken.fetch_add(1, Ordering::SeqCst);
    }
}

fn counter() -> (Arc<Counter>, Waker) {
    let counter = Arc::new(Counter { woken: AtomicUsize::new(0) });
    (counter.clone(), Waker::from(counter))
}

fn woken(counter: &Arc<Counter>) -> usize {
    counter.woken.load(Ordering::SeqCst)
}

fn tags(raw: &[u64]) -> HashSet<u64> {
    raw.iter().copied().collect()
}

#[test]
fn subscriber_resolves_once_per_wait() {
    let mut notifier = ResourceUpdateNotifier::new();
    assert_eq!(notifier.version(), 0);
    let mut subscriber = notifier.subscribe();
    let (count, waker) = counter();
    assert_eq!(subscriber.poll_next(&mut notifier, waker.clone()), None);
    assert_eq!(subscriber.poll_next(&mut notifier, waker.clone()), None);
    notifier.notify();
    assert_eq!(notifier.version(), 1);
    assert_eq!(woken(&count), 1);
    assert_eq!(subscriber.poll_next(&mut notifier, waker.clone()), Some(1));
    subscriber.begin_next();
    assert_eq!(subscriber.poll_next(&mut notifier, waker.clone()), None);
    notifier.notify();
    notifier.notify();
    assert_eq!(woken(&count), 2);
    assert_eq!(subscriber.poll_next(&mut notifier, waker.clone()), Some(3));
    subscriber.begin_next();
    assert_eq!(subscriber.poll_next(&mut notifier, waker), None);
}

#[test]
fn notifier_wakes_every_queued_waiter_in_order() {
    let mut notifier = ResourceUpdateNotifier::new();
    let (first, first_waker) = counter();
    let (second, second_waker) = counter();
    let mut one = notifier.subscribe();
    let mut two = notifier.subscribe();
    assert_eq!(one.poll_next(&mut notifier, first_waker.clone()), None);
    assert_eq!(two.poll_next(&mut notifier, second_waker.clone()), None);
    let taken = notifier.take_waiters();
    assert_eq!(notifier.version(), 1);
    assert_eq!(taken.len(), 2);
    assert!(taken[0].will_wake(&first_waker));
    assert!(taken[1].will_wake(&second_waker));
    assert_eq!(woken(&first), 0);
    assert_eq!(woken(&second), 0);
    assert!(notifier.take_waiters().is_empty());
    assert_eq!(notifier.version(), 2);
    assert_eq!(one.poll_next(&mut notifier, first_waker), Some(2));
}

#[test]
fn effects_carry_over_what_the_effect_carries() {
    let a = TypeTag::from_raw(1);
    let b = TypeTag::from_raw(2);
    let c = TypeTag::from_raw(3);
    let mut map = EffectMap::new();
    assert_eq!(map.effected(a), tags(&[]));
    map.add(a, b);
    assert_eq!(map.effected(a), tags(&[]));
    assert_eq!(map.effected(b), tags(&[]));

    let mut seeded = EffectMap::new();
    seeded.add(b, b);
    assert_eq!(seeded.effected(b), tags(&[]));
    assert!(!seeded.circular(a, b));
}

#[test]
fn circle_is_detected_before_it_is_added() {
    let a = TypeTag::from_raw(1);
    let b = TypeTag::from_raw(2);
    let mut map = EffectMap::new();
    assert!(!map.circular(a, b));
    map.add(a, b);
    assert!(!map.circular(b, a));
    assert!(!map.circular(a, a));
}

#[test]
fn update_reaches_the_notifiers_of_effected_types() {
    let a = TypeTag::from_raw(1);
    let b = TypeTag::from_raw(2);
    let mut map = EffectMap::new();
    assert!(map.set_notifier(a, ResourceUpdateNotifier::new()).is_none());
    assert!(map.set_notifier(b, ResourceUpdateNotifier::new()).is_none());
    assert_eq!(map.notifier_version(a), Some(0));
    assert_eq!(map.notifier_version(TypeTag::from_raw(9)), None);
    map.add(a, b);
    map.notify_update(a);
    assert_eq!(map.notifier_version(a), Some(0));
    assert_eq!(map.notifier_version(b), Some(0));
    let mut used = ResourceUpdateNotifier::new();
    used.notify();
    let replaced = map.set_notifier(a, used).expect("replaced");
    assert_eq!(replaced.version(), 0);
    assert_eq!(map.notifier_version(a), Some(1));
}
