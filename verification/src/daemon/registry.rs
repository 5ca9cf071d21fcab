//! The handles of the daemons that a runtime has started, by the key of the
//! name that each daemon type is registered under.

use futures::channel::oneshot::Receiver;
use futures::channel::oneshot::Sender;
use vstd::prelude::*;

use crate::components::index::KeyIndex;
use crate::components::ComponentKey;
use crate::components::ComponentName;

use crate::daemon::DaemonAction;
use crate::daemon::DaemonError;
use crate::daemon::DaemonEvent;
use crate::daemon::DaemonHandle;
use crate::daemon::DaemonHandleView;
use crate::daemon::RestartPolicy;

verus! {

/// What starting a daemon hands to the caller.
#[derive(Debug)]
pub struct DaemonStart {
    /// Resolves once cancellation has been requested through the handle;
    /// the supervising loop races the daemon's body against it.
    pub cancel: Receiver<()>,
    /// Signals completion to whoever waits on the handle; the supervising
    /// loop sends on it when it leaves.
    pub done: Sender<()>,
}

/// The registry's content after the start of a daemon under `key` has been
/// decided, and the verdict.
///
/// A guarded predecessor that has not terminated refuses the start and stays.
/// Any other predecessor is discarded. If then no instance could be
/// constructed (`policy` is `None`) the start fails and nothing is
/// registered; else the handle of the new daemon is.
pub open spec fn started(
    before: Map<ComponentKey, DaemonHandleView>,
    key: ComponentKey,
    policy: Option<RestartPolicy>,
) -> (Map<ComponentKey, DaemonHandleView>, Result<(), DaemonError>) {
    if before.contains_key(key) && before[key].blocks_restart() {
        (before, Err(DaemonError::AlreadyRunning))
    } else {
        match policy {
            Some(policy) => (before.insert(key, DaemonHandleView::launched(policy)), Ok(())),
            None => (before.remove(key), Err(DaemonError::ConstructionFailed)),
        }
    }
}

/// The handles of the started daemons.
#[derive(Debug)]
pub struct DaemonRegistry {
    handles: KeyIndex<DaemonHandle>,
}

impl View for DaemonRegistry {
    type V = Map<ComponentKey, DaemonHandleView>;

    closed spec fn view(&self) -> Map<ComponentKey, DaemonHandleView> {
        self.handles@.map_values(|handle: DaemonHandle| handle@)
    }
}

impl DaemonRegistry {
    /// A registry without handles.
    pub fn new() -> (registry: Self)
        ensures
            registry@ == Map::<ComponentKey, DaemonHandleView>::empty(),
    {
        let registry = DaemonRegistry { handles: KeyIndex::new() };
        assert(registry@ =~= Map::<ComponentKey, DaemonHandleView>::empty());
        registry
    }

    /// The handle registered under `name`, borrowed.
    pub fn get(&self, name: &ComponentName<DaemonHandle>) -> (found: Option<&DaemonHandle>)
        ensures
            match found {
                Some(handle) => self@.contains_key(name@.key()) && handle@ == self@[name@.key()],
                None => !self@.contains_key(name@.key()),
            },
    {
        self.handles.get_ref(name)
    }

    /// Discards the handle registered under `name` unless it refuses a new
    /// start. A discarded handle is cancelled first, and its completion
    /// receiver is handed out for the caller to await, if nobody has taken
    /// it before.
    pub fn discard_stale(&mut self, name: &ComponentName<DaemonHandle>) -> (verdict: Result<
        Option<Receiver<()>>,
        DaemonError,
    >)
        ensures
            match verdict {
                Ok(completion) => {
                    &&& !(old(self)@.contains_key(name@.key()) && old(self)@[name@.key()].blocks_restart())
                    &&& final(self)@ == old(self)@.remove(name@.key())
                    &&& completion.is_some() == (old(self)@.contains_key(name@.key()) && old(
                        self,
                    )@[name@.key()].can_wait)
                },
                Err(error) => {
                    &&& error == DaemonError::AlreadyRunning
                    &&& old(self)@.contains_key(name@.key()) && old(self)@[name@.key()].blocks_restart()
                    &&& final(self)@ == old(self)@
                },
            },
    {
        let blocked = match self.handles.get_ref(name) {
            Some(handle) => handle.blocks_restart(),
            None => false,
        };
        if blocked {
            return Err(DaemonError::AlreadyRunning);
        }
        let completion = match self.handles.remove(name) {
            Some(stale) => {
                let mut stale = stale;
                stale.kill_guard_and_wait()
            },
            None => None,
        };
        assert(self@ =~= old(self)@.remove(name@.key()));
        Ok(completion)
    }

    /// Registers the handle of a daemon that is about to be supervised under
    /// `policy`, in place of any handle registered under `name`, and returns
    /// the loop's ends of its channels.
    pub fn launch(&mut self, name: &ComponentName<DaemonHandle>, policy: &RestartPolicy) -> (start: DaemonStart)
        ensures
            final(self)@ == old(self)@.insert(name@.key(), DaemonHandleView::launched(*policy)),
    {
        let launch = DaemonHandle::launch(policy);
        let _ = self.handles.insert(name, launch.handle);
        assert(self@ =~= old(self)@.insert(name@.key(), DaemonHandleView::launched(*policy)));
        DaemonStart { cancel: launch.cancel, done: launch.done }
    }

    /// Decides the start of a daemon under `name` and carries it out.
    /// `policy` is the policy of the freshly constructed instance, or `None`
    /// if it could not be constructed.
    pub fn start(&mut self, name: &ComponentName<DaemonHandle>, policy: Option<&RestartPolicy>) -> (verdict: Result<
        DaemonStart,
        DaemonError,
    >)
        ensures
            ({
                let decided = started(
                    old(self)@,
                    name@.key(),
                    match policy {
                        Some(policy) => Some(*policy),
                        None => None,
                    },
                );
                &&& final(self)@ == decided.0
                &&& match verdict {
                    Ok(_) => decided.1 is Ok,
                    Err(error) => decided.1 == Err::<(), DaemonError>(error),
                }
            }),
    {
        match self.discard_stale(name) {
            Err(error) => Err(error),
            Ok(_) => match policy {
                Some(policy) => {
                    let start = self.launch(name, policy);
                    assert(old(self)@.remove(name@.key()).insert(name@.key(), DaemonHandleView::launched(*policy))
                        =~= old(self)@.insert(name@.key(), DaemonHandleView::launched(*policy)));
                    Ok(start)
                },
                None => Err(DaemonError::ConstructionFailed),
            },
        }
    }

    /// Reports `event` to the handle registered under `name`, if there is
    /// one, and returns what the supervising loop has to do next.
    pub fn step(&mut self, name: &ComponentName<DaemonHandle>, policy: &RestartPolicy, event: DaemonEvent) -> (action: Option<
        DaemonAction,
    >)
        ensures
            match action {
                Some(action) => {
                    &&& old(self)@.contains_key(name@.key())
                    &&& final(self)@ == old(self)@.insert(name@.key(), old(self)@[name@.key()].step(*policy, event).0)
                    &&& action == old(self)@[name@.key()].step(*policy, event).1
                },
                None => !old(self)@.contains_key(name@.key()) && final(self)@ == old(self)@,
            },
    {
        match self.handles.remove(name) {
            Some(handle) => {
                let mut handle = handle;
                let action = handle.step(policy, event);
                let _ = self.handles.insert(name, handle);
                assert(self@ =~= old(self)@.insert(name@.key(), old(self)@[name@.key()].step(*policy, event).0));
                Some(action)
            },
            None => {
                assert(self@ =~= old(self)@);
                None
            },
        }
    }

    /// Requests cancellation of the daemon registered under `name`, if there
    /// is one, and says whether this call sent the message.
    pub fn kill_guard(&mut self, name: &ComponentName<DaemonHandle>) -> (sent: Option<bool>)
        ensures
            match sent {
                Some(sent) => {
                    &&& old(self)@.contains_key(name@.key())
                    &&& final(self)@ == old(self)@.insert(name@.key(), old(self)@[name@.key()].kill_guard().0)
                    &&& sent == old(self)@[name@.key()].kill_guard().1
                },
                None => !old(self)@.contains_key(name@.key()) && final(self)@ == old(self)@,
            },
    {
        match self.handles.remove(name) {
            Some(handle) => {
                let mut handle = handle;
                let sent = handle.kill_guard();
                let _ = self.handles.insert(name, handle);
                assert(self@ =~= old(self)@.insert(name@.key(), old(self)@[name@.key()].kill_guard().0));
                Some(sent)
            },
            None => {
                assert(self@ =~= old(self)@);
                None
            },
        }
    }

    /// Hands out the completion receiver of the daemon registered under
    /// `name` for the caller to await: to the first who asks, if there is
    /// such a daemon.
    pub fn wait(&mut self, name: &ComponentName<DaemonHandle>) -> (completion: Option<Receiver<()>>)
        ensures
            completion.is_some() == (old(self)@.contains_key(name@.key()) && old(self)@[name@.key()].can_wait),
            final(self)@ == (if old(self)@.contains_key(name@.key()) {
                old(self)@.insert(name@.key(), DaemonHandleView { can_wait: false, ..old(self)@[name@.key()] })
            } else {
                old(self)@
            }),
    {
        match self.handles.remove(name) {
            Some(handle) => {
                let mut handle = handle;
                let completion = handle.wait();
                let _ = self.handles.insert(name, handle);
                assert(self@ =~= old(self)@.insert(
                    name@.key(),
                    DaemonHandleView { can_wait: false, ..old(self)@[name@.key()] },
                ));
                completion
            },
            None => {
                assert(self@ =~= old(self)@);
                None
            },
        }
    }

    /// Removes the handle registered under `name` and returns it.
    pub fn remove(&mut self, name: &ComponentName<DaemonHandle>) -> (removed: Option<DaemonHandle>)
        ensures
            final(self)@ == old(self)@.remove(name@.key()),
            match removed {
                Some(handle) => old(self)@.contains_key(name@.key()) && handle@ == old(self)@[name@.key()],
                None => !old(self)@.contains_key(name@.key()),
            },
    {
        let removed = self.handles.remove(name);
        assert(self@ =~= old(self)@.remove(name@.key()));
        removed
    }

    /// The safety net for a handle that goes away: when the last owner of
    /// the daemon registered under `name` lets go and the daemon has not
    /// terminated, cancellation is requested. The result says whether a
    /// message was sent.
    pub fn release(&mut self, name: &ComponentName<DaemonHandle>, last_owner: bool) -> (sent: bool)
        ensures
            ({
                let live = last_owner && old(self)@.contains_key(name@.key()) && old(
                    self,
                )@[name@.key()].state != crate::daemon::DaemonStatus::Terminated;
                &&& sent == (live && old(self)@[name@.key()].can_kill)
                &&& final(self)@ == (if live {
                    old(self)@.insert(name@.key(), old(self)@[name@.key()].kill_guard().0)
                } else {
                    old(self)@
                })
            }),
    {
        match self.handles.remove(name) {
            Some(handle) => {
                let mut handle = handle;
                let sent = handle.release(last_owner);
                let _ = self.handles.insert(name, handle);
                assert(self@ =~= (if last_owner && old(self)@[name@.key()].state
                    != crate::daemon::DaemonStatus::Terminated {
                    old(self)@.insert(name@.key(), old(self)@[name@.key()].kill_guard().0)
                } else {
                    old(self)@
                }));
                sent
            },
            None => {
                assert(self@ =~= old(self)@);
                false
            },
        }
    }
}

} // verus!
