//! Notification of resource updates: a notifier counts the updates of a
//! resource and wakes who waits for the next one, and an effect map records
//! which resources an update carries over to.

use std::collections::HashMap;
use std::collections::HashSet;
use std::collections::VecDeque;
use std::task::Waker;
use vstd::prelude::*;
use vstd::std_specs::iter::IteratorSpec;

use crate::utils::TypeTag;

use crate::signal::wake_all;

verus! {

/// The mathematical content of a notifier: the number of updates so far and
/// the wakers queued since the last one, oldest first.
pub ghost struct NotifierView {
    pub version: usize,
    pub waiters: Seq<Waker>,
}

impl NotifierView {
    /// A notifier that has seen no update and has nobody waiting.
    pub open spec fn fresh() -> NotifierView {
        NotifierView { version: 0, waiters: Seq::empty() }
    }

    /// An update: the notifier afterwards, and the wakers it hands over for
    /// waking, oldest first.
    pub open spec fn notified(self) -> (NotifierView, Seq<Waker>) {
        (
            NotifierView {
                version: vstd::wrapping::usize_specs::wrapping_add(self.version, 1usize),
                waiters: Seq::empty(),
            },
            self.waiters,
        )
    }

    /// One poll of a subscriber: the notifier afterwards, the subscriber
    /// afterwards, and the version that the subscriber is told of if it
    /// resolves.
    ///
    /// The waker is queued at the first poll of a wait only. The subscriber
    /// resolves if the notifier's version differs from the one it saw last,
    /// and has then seen the notifier's.
    pub open spec fn polled(self, subscriber: SubscriberView, waker: Waker) -> (
        NotifierView,
        SubscriberView,
        Option<usize>,
    ) {
        let queued = if subscriber.subscribed {
            self
        } else {
            NotifierView { waiters: self.waiters.push(waker), ..self }
        };
        if subscriber.local_version != self.version {
            (
                queued,
                SubscriberView { local_version: self.version, subscribed: true },
                Some(self.version),
            )
        } else {
            (queued, SubscriberView { subscribed: true, ..subscriber }, None)
        }
    }
}

/// The mathematical content of a subscriber.
pub ghost struct SubscriberView {
    /// The version that the subscriber saw last.
    pub local_version: usize,
    /// Whether the current wait has queued its waker already.
    pub subscribed: bool,
}

/// Counts the updates of one resource and wakes who waits for the next.
#[derive(Debug)]
pub struct ResourceUpdateNotifier {
    version: usize,
    waiting_list: VecDeque<Waker>,
}

impl View for ResourceUpdateNotifier {
    type V = NotifierView;

    closed spec fn view(&self) -> NotifierView {
        NotifierView { version: self.version, waiters: self.waiting_list@ }
    }
}

impl ResourceUpdateNotifier {
    /// A notifier that has seen no update.
    pub fn new() -> (notifier: ResourceUpdateNotifier)
        ensures
            notifier@ == NotifierView::fresh(),
    {
        ResourceUpdateNotifier { version: 0, waiting_list: VecDeque::new() }
    }

    /// The number of updates so far.
    pub fn version(&self) -> (version: usize)
        ensures
            version == self@.version,
    {
        self.version
    }

    /// A subscriber that has seen every update so far.
    pub fn subscribe(&self) -> (subscriber: ResourceUpdateSubscriber)
        ensures
            subscriber@ == (SubscriberView { local_version: self@.version, subscribed: false }),
    {
        ResourceUpdateSubscriber { local_version: self.version, subscribed: false }
    }

    /// Records an update without waking: bumps the version, empties the
    /// queue and returns the wakers that were queued, oldest first.
    pub fn take_waiters(&mut self) -> (woken: VecDeque<Waker>)
        ensures
            (final(self)@, woken@) == old(self)@.notified(),
    {
        self.version = self.version.wrapping_add(1);
        let mut woken: VecDeque<Waker> = VecDeque::new();
        std::mem::swap(&mut woken, &mut self.waiting_list);
        woken
    }

    /// Records an update: bumps the version, empties the queue and wakes
    /// every waker that was queued, oldest first.
    pub fn notify(&mut self)
        ensures
            final(self)@ == old(self)@.notified().0,
    {
        let woken = self.take_waiters();
        wake_all(woken);
    }
}

/// Waits for the updates of one resource, one at a time.
#[derive(Debug, Clone, Copy)]
pub struct ResourceUpdateSubscriber {
    local_version: usize,
    subscribed: bool,
}

impl View for ResourceUpdateSubscriber {
    type V = SubscriberView;

    closed spec fn view(&self) -> SubscriberView {
        SubscriberView { local_version: self.local_version, subscribed: self.subscribed }
    }
}

impl ResourceUpdateSubscriber {
    /// Starts a new wait for the next update: the first poll of it will queue
    /// its waker.
    pub fn begin_next(&mut self)
        ensures
            final(self)@ == (SubscriberView { subscribed: false, ..old(self)@ }),
    {
        self.subscribed = false;
    }

    /// Polls the current wait against the notifier that the subscriber was
    /// taken from. `Some` carries the version that the wait resolves with;
    /// `None` says that it pends.
    pub fn poll_next(&mut self, notifier: &mut ResourceUpdateNotifier, waker: Waker) -> (update:
        Option<usize>)
        ensures
            (final(notifier)@, final(self)@, update) == old(notifier)@.polled(old(self)@, waker),
    {
        if !self.subscribed {
            notifier.waiting_list.push_back(waker);
            self.subscribed = true;
        }
        let notifier_version = notifier.version;
        if self.local_version != notifier_version {
            self.local_version = notifier_version;
            Some(notifier_version)
        } else {
            None
        }
    }
}

/// The members of a set, each once and in no particular order.
fn members(set: &HashSet<u64>) -> (list: Vec<u64>)
    ensures
        list@.no_duplicates(),
        list@.to_set() == set@,
{
    let mut list: Vec<u64> = Vec::new();
    let ghost all = vstd::std_specs::hash::spec_hash_keys_iter(set).remaining();
    for member in entries: set.iter()
        invariant
            entries.seq() == all,
            all.no_duplicates(),
            all.unref().to_set() == set@,
            list@.len() == entries.index(),
            forall|i: int| 0 <= i < list@.len() ==> list@[i] == *(#[trigger] all[i]),
    {
        list.push(*member);
    }
    proof {
        assert(list@ =~= all.unref());
        assert forall|i: int, j: int|
            0 <= i < list@.len() && 0 <= j < list@.len() && i != j implies list@[i] != list@[j] by {
            assert(all[i] != all[j]);
        }
    }
    list
}

/// Adds every member of `list` to `target`.
fn add_all(target: &mut HashSet<u64>, list: &Vec<u64>)
    ensures
        final(target)@ == old(target)@.union(list@.to_set()),
{
    let mut i: usize = 0;
    while i < list.len()
        invariant
            i <= list@.len(),
            target@ == old(target)@.union(list@.take(i as int).to_set()),
        decreases list@.len() - i,
    {
        let _ = target.insert(list[i]);
        proof {
            assert(list@.take(i + 1) =~= list@.take(i as int).push(list@[i as int]));
            assert(list@.take(i + 1).to_set() =~= list@.take(i as int).to_set().insert(
                list@[i as int],
            )) by {
                let shorter = list@.take(i as int);
                let longer = list@.take(i + 1);
                assert forall|k: u64| longer.to_set().contains(k) <==> shorter.to_set().insert(
                    list@[i as int],
                ).contains(k) by {
                    if longer.contains(k) {
                        let at = choose|at: int| 0 <= at < longer.len() && longer[at] == k;
                        if at < i {
                            assert(shorter[at] == k);
                        }
                    }
                    if shorter.contains(k) {
                        let at = choose|at: int| 0 <= at < shorter.len() && shorter[at] == k;
                        assert(longer[at] == k);
                    }
                    if k == list@[i as int] {
                        assert(longer[i as int] == k);
                    }
                }
            }
            assert(target@ =~= old(target)@.union(list@.take(i + 1).to_set()));
        }
        i = i + 1;
    }
    proof {
        assert(list@.take(list@.len() as int) =~= list@);
    }
}

/// The mathematical content of an effect map.
pub ghost struct EffectMapView {
    /// For each resource type that has an entry, the types that an update of
    /// it carries over to.
    pub effects: Map<u64, Set<u64>>,
    /// The notifiers of the resource types that have one.
    pub notifiers: Map<u64, NotifierView>,
}

impl EffectMapView {
    /// The types that an update of `id` carries over to.
    pub open spec fn effected(self, id: TypeTag) -> Set<u64> {
        if self.effects.contains_key(id.id) {
            self.effects[id.id]
        } else {
            Set::empty()
        }
    }

    /// Whether recording that `id` affects `effect` would close a circle:
    /// `effect` already carries over to `id`.
    pub open spec fn circular(self, id: TypeTag, effect: TypeTag) -> bool {
        self.effected(effect).contains(id.id)
    }

    /// The map after it has been recorded that an update of `id` carries
    /// over to what `effect` carries over to. `effect` gets an entry if it
    /// had none.
    pub open spec fn added(self, id: TypeTag, effect: TypeTag) -> EffectMapView {
        let with_effect = if self.effects.contains_key(effect.id) {
            self.effects
        } else {
            self.effects.insert(effect.id, Set::empty())
        };
        let union = (if with_effect.contains_key(id.id) {
            with_effect[id.id]
        } else {
            Set::empty()
        }).union(with_effect[effect.id]);
        EffectMapView { effects: with_effect.insert(id.id, union), ..self }
    }

    /// The map after an update of `id` has been announced: every notifier of
    /// a type that the update carries over to has recorded an update.
    pub open spec fn updated(self, id: TypeTag) -> EffectMapView {
        EffectMapView {
            notifiers: Map::new(
                |k: u64| self.notifiers.contains_key(k),
                |k: u64|
                    if self.effected(id).contains(k) {
                        self.notifiers[k].notified().0
                    } else {
                        self.notifiers[k]
                    },
            ),
            ..self
        }
    }
}

/// Records which resources an update of a resource carries over to, and
/// holds the notifiers of resources.
#[derive(Debug)]
pub struct EffectMap {
    effect: HashMap<u64, HashSet<u64>>,
    notifier: HashMap<u64, ResourceUpdateNotifier>,
}

impl View for EffectMap {
    type V = EffectMapView;

    closed spec fn view(&self) -> EffectMapView {
        EffectMapView {
            effects: self.effect@.map_values(|set: HashSet<u64>| set@),
            notifiers: self.notifier@.map_values(|notifier: ResourceUpdateNotifier| notifier@),
        }
    }
}

impl EffectMap {
    /// An effect map without entries.
    pub fn new() -> (map: EffectMap)
        ensures
            map@.effects == Map::<u64, Set<u64>>::empty(),
            map@.notifiers == Map::<u64, NotifierView>::empty(),
    {
        let map = EffectMap { effect: HashMap::new(), notifier: HashMap::new() };
        proof {
            assert(map@.effects =~= Map::<u64, Set<u64>>::empty());
            assert(map@.notifiers =~= Map::<u64, NotifierView>::empty());
        }
        map
    }

    /// The types that an update of `id` carries over to.
    pub fn effected(&self, id: TypeTag) -> (types: HashSet<u64>)
        ensures
            types@ == self@.effected(id),
    {
        let key = id.raw();
        let mut types: HashSet<u64> = HashSet::new();
        match self.effect.get(&key) {
            Some(set) => {
                let list = members(set);
                add_all(&mut types, &list);
                assert(types@ =~= set@);
            },
            None => {},
        }
        types
    }

    /// Whether recording that `id` affects `effect` would close a circle.
    pub fn circular(&self, id: TypeTag, effect: TypeTag) -> (circle: bool)
        ensures
            circle == self@.circular(id, effect),
    {
        let key = effect.raw();
        let member = id.raw();
        match self.effect.get(&key) {
            Some(set) => set.contains(&member),
            None => false,
        }
    }

    /// Records that an update of `id` carries over to what `effect` carries
    /// over to. A circle is a programming error and is left out.
    pub fn add(&mut self, id: TypeTag, effect: TypeTag)
        requires
            !old(self)@.circular(id, effect),
        ensures
            final(self)@ == old(self)@.added(id, effect),
    {
        let secondary = self.effected(effect);
        let list = members(&secondary);
        let effect_key = effect.raw();
        let id_key = id.raw();
        if !self.effect.contains_key(&effect_key) {
            self.effect.insert(effect_key, HashSet::new());
        }
        let ghost with_effect = self.effect@.map_values(|set: HashSet<u64>| set@);
        let mut target = match self.effect.remove(&id_key) {
            Some(set) => set,
            None => HashSet::new(),
        };
        add_all(&mut target, &list);
        self.effect.insert(id_key, target);
        proof {
            let expected = old(self)@.added(id, effect);
            assert(with_effect =~= (if old(self)@.effects.contains_key(effect.id) {
                old(self)@.effects
            } else {
                old(self)@.effects.insert(effect.id, Set::empty())
            }));
            assert(self@.effects =~= expected.effects);
            assert(self@.notifiers == expected.notifiers);
        }
    }

    /// Gives the resource type `id` a notifier and returns the one that it
    /// replaces.
    pub fn set_notifier(&mut self, id: TypeTag, notifier: ResourceUpdateNotifier) -> (replaced:
        Option<ResourceUpdateNotifier>)
        ensures
            final(self)@ == (EffectMapView {
                notifiers: old(self)@.notifiers.insert(id.id, notifier@),
                ..old(self)@
            }),
            replaced is Some == old(self)@.notifiers.contains_key(id.id),
            replaced matches Some(previous) ==> previous@ == old(self)@.notifiers[id.id],
    {
        let replaced = self.notifier.insert(id.raw(), notifier);
        proof {
            assert(self@.notifiers =~= old(self)@.notifiers.insert(id.id, notifier@));
        }
        replaced
    }

    /// The number of updates that the notifier of `id` has recorded, if it
    /// has a notifier.
    pub fn notifier_version(&self, id: TypeTag) -> (version: Option<usize>)
        ensures
            version == (if self@.notifiers.contains_key(id.id) {
                Some(self@.notifiers[id.id].version)
            } else {
                None
            }),
    {
        let key = id.raw();
        match self.notifier.get(&key) {
            Some(notifier) => Some(notifier.version()),
            None => None,
        }
    }

    /// Announces an update of `id`: every notifier of a type that the update
    /// carries over to records an update and wakes who waits on it.
    pub fn notify_update(&mut self, id: TypeTag)
        ensures
            final(self)@ == old(self)@.updated(id),
    {
        let effected = self.effected(id);
        let list = members(&effected);
        let mut i: usize = 0;
        while i < list.len()
            invariant
                i <= list@.len(),
                list@.no_duplicates(),
                list@.to_set() == old(self)@.effected(id),
                self@.effects == old(self)@.effects,
                self@.notifiers.dom() == old(self)@.notifiers.dom(),
                forall|k: u64| #[trigger]
                    self@.notifiers.contains_key(k) ==> self@.notifiers[k] == (if list@.take(
                        i as int,
                    ).contains(k) {
                        old(self)@.notifiers[k].notified().0
                    } else {
                        old(self)@.notifiers[k]
                    }),
            decreases list@.len() - i,
        {
            let key = list[i];
            let ghost before = self@;
            match self.notifier.remove(&key) {
                Some(notifier) => {
                    let mut notifier = notifier;
                    notifier.notify();
                    self.notifier.insert(key, notifier);
                },
                None => {},
            }
            proof {
                let shorter = list@.take(i as int);
                let longer = list@.take(i + 1);
                assert(longer =~= shorter.push(key));
                assert(!shorter.contains(key)) by {
                    if shorter.contains(key) {
                        let at = choose|at: int| 0 <= at < shorter.len() && shorter[at] == key;
                        assert(list@[at] == list@[i as int]);
                    }
                }
                assert(self@.notifiers.dom() =~= before.notifiers.dom());
                assert(self@.effects =~= before.effects);
                assert forall|k: u64| #[trigger] self@.notifiers.contains_key(k) implies self@.notifiers[k]
                    == (if longer.contains(k) {
                    old(self)@.notifiers[k].notified().0
                } else {
                    old(self)@.notifiers[k]
                }) by {
                    if k == key {
                        assert(longer[i as int] == k);
                    } else {
                        assert(before.notifiers.contains_key(k));
                        if longer.contains(k) {
                            let at = choose|at: int| 0 <= at < longer.len() && longer[at] == k;
                            assert(shorter[at] == k);
                        }
                        if shorter.contains(k) {
                            let at = choose|at: int| 0 <= at < shorter.len() && shorter[at] == k;
                            assert(longer[at] == k);
                        }
                    }
                }
            }
            i = i + 1;
        }
        proof {
            assert(list@.take(list@.len() as int) =~= list@);
            assert(self@.notifiers =~= old(self)@.updated(id).notifiers);
        }
    }
}

} // verus!
