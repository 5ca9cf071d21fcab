//! An in-process application runtime: typed registries, supervised daemons and
//! broadcast signals.
//!
//! Everything here is sequential: a runtime is a value with one owner. Who
//! wants to share it among tasks puts it behind a lock and holds the lock for
//! one call at a time.

pub mod cluster;
pub mod components;
pub mod config;
pub mod context;
pub mod daemon;
pub mod prelude;
pub mod registry;
pub mod resource;
pub mod runtime;
pub mod service;
pub mod signal;
pub mod utils;

use futures::channel::oneshot::Receiver;
use std::task::Waker;
use vstd::prelude::*;

use crate::components::stored_under;
use crate::components::table::lists_keys_of_type;
use crate::components::ComponentKey;
use crate::components::ComponentName;
use crate::components::ComponentRepositoryInner;
use crate::components::MoonbaseComponent;
use crate::daemon::registry::started;
use crate::daemon::registry::DaemonRegistry;
use crate::daemon::registry::DaemonStart;
use crate::daemon::DaemonAction;
use crate::daemon::DaemonError;
use crate::daemon::DaemonEvent;
use crate::daemon::DaemonHandle;
use crate::daemon::DaemonHandleView;
use crate::daemon::DaemonStatus;
use crate::daemon::RestartPolicy;
use crate::resource::stored_for;
use crate::resource::MoonbaseResource;
use crate::resource::ResourceRepositoryInner;
use crate::signal::table::SignalTable;
use crate::signal::Signal;
use crate::signal::SignalKey;
use crate::signal::WaitListView;
use crate::signal::WaitingSignal;
use crate::utils::TypeTag;

verus! {

/// The mathematical content of a runtime.
pub ghost struct MoonbaseView<R, C> {
    pub id: u64,
    /// The resources by the raw tag of their type.
    pub resources: Map<u64, R>,
    /// The components by the key of their name.
    pub components: Map<ComponentKey, C>,
    /// The handles of the started daemons by the key of the name that the
    /// daemon type is registered under.
    pub daemons: Map<ComponentKey, DaemonHandleView>,
    /// The signals by their key.
    pub signals: Map<Seq<u8>, WaitListView>,
}

/// The runtime that an application holds: its resources, its components and
/// its signals.
#[derive(Debug)]
pub struct Moonbase<R, C> {
    id: u64,
    resources: ResourceRepositoryInner<R>,
    components: ComponentRepositoryInner<C>,
    daemons: DaemonRegistry,
    signals: SignalTable,
}

pub type AppContext<R, C> = Moonbase<R, C>;

impl<R, C> View for Moonbase<R, C> {
    type V = MoonbaseView<R, C>;

    closed spec fn view(&self) -> MoonbaseView<R, C> {
        MoonbaseView {
            id: self.id,
            resources: self.resources@,
            components: self.components@,
            daemons: self.daemons@,
            signals: self.signals@,
        }
    }
}

impl<R: MoonbaseResource, C: MoonbaseComponent> Moonbase<R, C> {
    /// The runtime's internal invariant: no signal key is registered twice.
    pub closed spec fn wf(&self) -> bool {
        self.signals.wf()
    }

    /// An empty runtime with the identifier zero.
    pub fn new() -> (runtime: Self)
        ensures
            runtime.wf(),
            runtime@ == (MoonbaseView::<R, C> {
                id: 0,
                resources: Map::empty(),
                components: Map::empty(),
                daemons: Map::empty(),
                signals: Map::empty(),
            }),
    {
        Moonbase {
            id: 0,
            resources: ResourceRepositoryInner::new(),
            components: ComponentRepositoryInner::new(),
            daemons: DaemonRegistry::new(),
            signals: SignalTable::new(),
        }
    }

    /// The runtime's identifier.
    pub fn id(&self) -> (id: u64)
        ensures
            id == self@.id,
    {
        self.id
    }

    /// Stores `resource` as the resource of its type, in place of any that
    /// was stored for the type.
    pub fn set_resource(&mut self, type_tag: TypeTag, resource: R)
        ensures
            final(self).wf() == old(self).wf(),
            final(self)@ == (MoonbaseView {
                resources: old(self)@.resources.insert(type_tag.id, resource),
                ..old(self)@
            }),
    {
        let _ = self.resources.insert(type_tag, resource);
    }

    /// A clone of the resource of a type.
    pub fn get_resource(&self, type_tag: TypeTag) -> (found: Option<R>)
        ensures
            match (stored_for(self@.resources, type_tag), found) {
                (Some(value), Some(copy)) => cloned(value, copy),
                (None, None) => true,
                _ => false,
            },
    {
        self.resources.get(type_tag)
    }

    /// Removes the resource of a type and returns it.
    pub fn remove_resource(&mut self, type_tag: TypeTag) -> (removed: Option<R>)
        ensures
            final(self).wf() == old(self).wf(),
            final(self)@ == (MoonbaseView {
                resources: old(self)@.resources.remove(type_tag.id),
                ..old(self)@
            }),
            removed == stored_for(old(self)@.resources, type_tag),
    {
        self.resources.remove(type_tag)
    }

    /// Whether a resource of the type is stored.
    pub fn has_resource(&self, type_tag: TypeTag) -> (present: bool)
        ensures
            present == self@.resources.contains_key(type_tag.id),
    {
        self.resources.has(type_tag)
    }

    /// Stores `component` under `name`, in place of any that was stored
    /// there.
    pub fn set_component<T>(&mut self, name: &ComponentName<T>, component: C)
        ensures
            final(self).wf() == old(self).wf(),
            final(self)@ == (MoonbaseView {
                components: old(self)@.components.insert(name@.key(), component),
                ..old(self)@
            }),
    {
        let _ = self.components.insert(name, component);
    }

    /// A clone of the component stored under `name`.
    pub fn get_component<T>(&self, name: &ComponentName<T>) -> (found: Option<C>)
        ensures
            match (stored_under(self@.components, name@), found) {
                (Some(value), Some(copy)) => cloned(value, copy),
                (None, None) => true,
                _ => false,
            },
    {
        self.components.get(name)
    }

    /// Removes the component stored under `name` and returns it.
    pub fn remove_component<T>(&mut self, name: &ComponentName<T>) -> (removed: Option<C>)
        ensures
            final(self).wf() == old(self).wf(),
            final(self)@ == (MoonbaseView {
                components: old(self)@.components.remove(name@.key()),
                ..old(self)@
            }),
            removed == stored_under(old(self)@.components, name@),
    {
        self.components.remove(name)
    }

    /// Whether a component is stored under `name`.
    pub fn has_component<T>(&self, name: &ComponentName<T>) -> (present: bool)
        ensures
            present == self@.components.contains_key(name@.key()),
    {
        self.components.contains(name)
    }

    /// A snapshot of all components stored as the type `type_tag`, borrowed,
    /// each once and in no particular order.
    pub fn iter_components(&self, type_tag: TypeTag) -> (found: Vec<&C>)
        ensures
            exists|keys: Seq<ComponentKey>|
                {
                    &&& lists_keys_of_type(self@.components, type_tag, keys)
                    &&& found@.len() == keys.len()
                    &&& forall|n: int|
                        0 <= n < keys.len() ==> *(#[trigger] found@[n]) == self@.components[keys[n]]
                },
    {
        self.components.iter(type_tag)
    }

    /// Registers `signal` under `key`, in place of any that was registered
    /// there.
    pub fn set_signal(&mut self, key: SignalKey, signal: Signal)
        requires
            old(self).wf(),
        ensures
            final(self).wf(),
            final(self)@ == (MoonbaseView {
                signals: old(self)@.signals.insert(key@, signal@),
                ..old(self)@
            }),
    {
        let _ = self.signals.set(key, signal);
    }

    /// The signal registered under `key`, borrowed.
    pub fn get_signal(&self, key: &SignalKey) -> (found: Option<&Signal>)
        requires
            self.wf(),
        ensures
            match found {
                Some(signal) => self@.signals.contains_key(key@) && signal@ == self@.signals[key@],
                None => !self@.signals.contains_key(key@),
            },
    {
        self.signals.get(key)
    }

    /// Takes out the signal registered under `key`.
    pub fn remove_signal(&mut self, key: &SignalKey) -> (removed: Option<Signal>)
        requires
            old(self).wf(),
        ensures
            final(self).wf(),
            final(self)@ == (MoonbaseView {
                signals: old(self)@.signals.remove(key@),
                ..old(self)@
            }),
            match removed {
                Some(signal) => old(self)@.signals.contains_key(key@) && signal@ == old(
                    self,
                )@.signals[key@],
                None => !old(self)@.signals.contains_key(key@),
            },
    {
        self.signals.remove(key)
    }

    /// Whether a signal is registered under `key`.
    pub fn has_signal(&self, key: &SignalKey) -> (present: bool)
        requires
            self.wf(),
        ensures
            present == self@.signals.contains_key(key@),
    {
        self.signals.has(key)
    }

    /// Triggers the signal registered under `key`: every waker queued on it
    /// is woken, oldest first, and its version moves on. Without a signal
    /// under `key` nothing happens.
    pub fn trigger_signal(&mut self, key: &SignalKey)
        requires
            old(self).wf(),
        ensures
            final(self).wf(),
            final(self)@ == (if old(self)@.signals.contains_key(key@) {
                MoonbaseView {
                    signals: old(self)@.signals.insert(
                        key@,
                        old(self)@.signals[key@].triggered().0,
                    ),
                    ..old(self)@
                }
            } else {
                old(self)@
            }),
    {
        let _ = self.signals.trigger(key);
    }

    /// Subscribes to the signal registered under `key`, if there is one.
    pub fn recv_signal(&self, key: &SignalKey) -> (waiting: Option<WaitingSignal>)
        requires
            self.wf(),
        ensures
            match waiting {
                Some(waiting) => self@.signals.contains_key(key@) && waiting@
                    == self@.signals[key@].version,
                None => !self@.signals.contains_key(key@),
            },
    {
        self.signals.recv(key)
    }

    /// Polls a subscription against the signal registered under `key`, if
    /// there is one, and says whether the subscription resolves.
    pub fn poll_signal(&mut self, key: &SignalKey, waiting: &mut WaitingSignal, waker: Waker) -> (ready:
        Option<bool>)
        requires
            old(self).wf(),
        ensures
            final(self).wf(),
            match ready {
                Some(ready) => {
                    let polled = old(self)@.signals[key@].polled(old(waiting)@, waker);
                    &&& old(self)@.signals.contains_key(key@)
                    &&& final(self)@ == (MoonbaseView {
                        signals: old(self)@.signals.insert(key@, polled.0),
                        ..old(self)@
                    })
                    &&& final(waiting)@ == polled.1
                    &&& ready == polled.2
                },
                None => {
                    &&& !old(self)@.signals.contains_key(key@)
                    &&& final(self)@ == old(self)@
                    &&& final(waiting)@ == old(waiting)@
                },
            },
    {
        self.signals.poll(key, waiting, waker)
    }

    /// Starts a daemon: decides whether it may start and, if so, registers
    /// its handle under `name` and returns the ends of its channels that the
    /// supervising loop needs.
    ///
    /// `policy` is the policy of the freshly constructed instance, or `None`
    /// if it could not be constructed. A guarded predecessor that has not
    /// terminated refuses the start. Any other predecessor is cancelled and
    /// discarded, also when the construction has failed.
    ///
    /// A daemon needs an executor to run on: the resource of the type
    /// `runtime` has to be registered. Starting a daemon without one is a
    /// programming error that the runtime does not recover from.
    pub fn run_daemon(
        &mut self,
        name: &ComponentName<DaemonHandle>,
        policy: Option<&RestartPolicy>,
        runtime: TypeTag,
    ) -> (verdict: Result<DaemonStart, DaemonError>)
        requires
            old(self)@.resources.contains_key(runtime.id),
        ensures
            final(self).wf() == old(self).wf(),
            ({
                let decided = started(
                    old(self)@.daemons,
                    name@.key(),
                    match policy {
                        Some(policy) => Some(*policy),
                        None => None,
                    },
                );
                &&& final(self)@ == (MoonbaseView { daemons: decided.0, ..old(self)@ })
                &&& match verdict {
                    Ok(_) => decided.1 is Ok,
                    Err(error) => decided.1 == Err::<(), DaemonError>(error),
                }
            }),
    {
        self.daemons.start(name, policy)
    }

    /// The first half of starting a daemon, for a caller that has to wait
    /// for a discarded predecessor before it constructs the new instance:
    /// refuses the start or discards the predecessor, whose completion
    /// receiver is handed out if nobody has taken it before.
    pub fn discard_stale_daemon(&mut self, name: &ComponentName<DaemonHandle>) -> (verdict: Result<
        Option<Receiver<()>>,
        DaemonError,
    >)
        ensures
            final(self).wf() == old(self).wf(),
            match verdict {
                Ok(completion) => {
                    &&& !(old(self)@.daemons.contains_key(name@.key()) && old(
                        self,
                    )@.daemons[name@.key()].blocks_restart())
                    &&& final(self)@ == (MoonbaseView {
                        daemons: old(self)@.daemons.remove(name@.key()),
                        ..old(self)@
                    })
                    &&& completion.is_some() == (old(self)@.daemons.contains_key(name@.key()) && old(
                        self,
                    )@.daemons[name@.key()].can_wait)
                },
                Err(error) => {
                    &&& error == DaemonError::AlreadyRunning
                    &&& old(self)@.daemons.contains_key(name@.key()) && old(
                        self,
                    )@.daemons[name@.key()].blocks_restart()
                    &&& final(self)@ == old(self)@
                },
            },
    {
        self.daemons.discard_stale(name)
    }

    /// The second half of starting a daemon: registers the handle of a
    /// daemon that is about to be supervised under `policy`, in place of any
    /// handle registered under `name`. The resource of the type `runtime`,
    /// the executor that the daemon will run on, has to be registered.
    pub fn launch_daemon(
        &mut self,
        name: &ComponentName<DaemonHandle>,
        policy: &RestartPolicy,
        runtime: TypeTag,
    ) -> (start: DaemonStart)
        requires
            old(self)@.resources.contains_key(runtime.id),
        ensures
            final(self).wf() == old(self).wf(),
            final(self)@ == (MoonbaseView {
                daemons: old(self)@.daemons.insert(
                    name@.key(),
                    DaemonHandleView::launched(*policy),
                ),
                ..old(self)@
            }),
    {
        self.daemons.launch(name, policy)
    }

    /// The handle of the daemon registered under `name`, borrowed.
    pub fn get_daemon_handle(&self, name: &ComponentName<DaemonHandle>) -> (found: Option<
        &DaemonHandle,
    >)
        ensures
            match found {
                Some(handle) => self@.daemons.contains_key(name@.key()) && handle@
                    == self@.daemons[name@.key()],
                None => !self@.daemons.contains_key(name@.key()),
            },
    {
        self.daemons.get(name)
    }

    /// Reports `event` to the handle of the daemon registered under `name`,
    /// if there is one, and returns what the supervising loop has to do
    /// next.
    pub fn step_daemon(
        &mut self,
        name: &ComponentName<DaemonHandle>,
        policy: &RestartPolicy,
        event: DaemonEvent,
    ) -> (action: Option<DaemonAction>)
        ensures
            final(self).wf() == old(self).wf(),
            match action {
                Some(action) => {
                    let stepped = old(self)@.daemons[name@.key()].step(*policy, event);
                    &&& old(self)@.daemons.contains_key(name@.key())
                    &&& final(self)@ == (MoonbaseView {
                        daemons: old(self)@.daemons.insert(name@.key(), stepped.0),
                        ..old(self)@
                    })
                    &&& action == stepped.1
                },
                None => !old(self)@.daemons.contains_key(name@.key()) && final(self)@ == old(self)@,
            },
    {
        self.daemons.step(name, policy, event)
    }

    /// Requests cancellation of the daemon registered under `name`, if there
    /// is one, and says whether this call sent the message.
    pub fn kill_daemon(&mut self, name: &ComponentName<DaemonHandle>) -> (sent: Option<bool>)
        ensures
            final(self).wf() == old(self).wf(),
            match sent {
                Some(sent) => {
                    let killed = old(self)@.daemons[name@.key()].kill_guard();
                    &&& old(self)@.daemons.contains_key(name@.key())
                    &&& final(self)@ == (MoonbaseView {
                        daemons: old(self)@.daemons.insert(name@.key(), killed.0),
                        ..old(self)@
                    })
                    &&& sent == killed.1
                },
                None => !old(self)@.daemons.contains_key(name@.key()) && final(self)@ == old(self)@,
            },
    {
        self.daemons.kill_guard(name)
    }

    /// Hands out the completion receiver of the daemon registered under
    /// `name` for the caller to await: to the first who asks, if there is
    /// such a daemon.
    pub fn wait_daemon(&mut self, name: &ComponentName<DaemonHandle>) -> (completion: Option<
        Receiver<()>,
    >)
        ensures
            final(self).wf() == old(self).wf(),
            completion.is_some() == (old(self)@.daemons.contains_key(name@.key()) && old(
                self,
            )@.daemons[name@.key()].can_wait),
            final(self)@ == (if old(self)@.daemons.contains_key(name@.key()) {
                MoonbaseView {
                    daemons: old(self)@.daemons.insert(
                        name@.key(),
                        DaemonHandleView { can_wait: false, ..old(self)@.daemons[name@.key()] },
                    ),
                    ..old(self)@
                }
            } else {
                old(self)@
            }),
    {
        self.daemons.wait(name)
    }

    /// The safety net for a handle that goes away: when the last owner of
    /// the daemon registered under `name` lets go and the daemon has not
    /// terminated, cancellation is requested. The result says whether a
    /// message was sent.
    pub fn release_daemon(&mut self, name: &ComponentName<DaemonHandle>, last_owner: bool) -> (sent:
        bool)
        ensures
            final(self).wf() == old(self).wf(),
            ({
                let live = last_owner && old(self)@.daemons.contains_key(name@.key()) && old(
                    self,
                )@.daemons[name@.key()].state != DaemonStatus::Terminated;
                &&& sent == (live && old(self)@.daemons[name@.key()].can_kill)
                &&& final(self)@ == (if live {
                    MoonbaseView {
                        daemons: old(self)@.daemons.insert(
                            name@.key(),
                            old(self)@.daemons[name@.key()].kill_guard().0,
                        ),
                        ..old(self)@
                    }
                } else {
                    old(self)@
                })
            }),
    {
        self.daemons.release(name, last_owner)
    }
}

} // verus!
