//! The daemon supervisor: a restartable, cancellable unit of background work
//! and the decisions of the loop that runs it.
//!
//! The loop itself suspends (it races the daemon's body against a
//! cancellation message and sleeps between runs), so it lives with the
//! caller. Every decision it takes is a method here: the caller reports what
//! happened and is told what to do next.

use futures::channel::oneshot::Canceled;
use futures::channel::oneshot::Receiver;
use futures::channel::oneshot::Sender;
use std::time::Duration;
use vstd::prelude::*;

use crate::utils::TypeTag;

pub mod registry;
pub mod supervision;

verus! {

/// `futures::channel::oneshot::Sender`, carried through as an opaque value.
#[verifier::external_type_specification]
#[verifier::external_body]
#[verifier::reject_recursive_types(T)]
pub struct ExSender<T>(Sender<T>);

/// `futures::channel::oneshot::Receiver`, carried through as an opaque
/// value.
#[verifier::external_type_specification]
#[verifier::external_body]
#[verifier::reject_recursive_types(T)]
pub struct ExReceiver<T>(Receiver<T>);

/// `futures::channel::oneshot::Canceled`, the error that a receiver
/// resolves with when its sender was dropped. No signature here names it,
/// but `Receiver` is a future with this error in its output, and Verus reads
/// that impl as soon as `Receiver` is declared: without this declaration it
/// stops with "`Canceled` is not supported".
#[verifier::external_type_specification]
#[verifier::external_body]
pub struct ExCanceled(Canceled);

/// Calls `futures::channel::oneshot::channel::<()>`, which creates the two
/// connected halves of a one-shot channel. Nothing is claimed about them.
#[verifier::external_body]
pub(crate) fn unit_channel() -> (Sender<()>, Receiver<()>) {
    futures::channel::oneshot::channel::<()>()
}

/// Calls `futures::channel::oneshot::Sender::send` with the unit value,
/// which uses the sender up. Whether the message arrives depends on whether
/// the receiving half is still alive, which this side cannot know: the
/// answer is dropped and nothing is claimed.
#[verifier::external_body]
pub(crate) fn send_unit(tx: Sender<()>) {
    let _ = tx.send(());
}

/// Identifies a daemon type.
#[derive(Debug, Clone, Copy)]
pub struct DaemonDescriptor {
    pub type_tag: TypeTag,
}

/// Lifecycle status of a supervised daemon.
///
/// `Starting` and `Running` alternate while the daemon is restarted;
/// `Terminated` is absorbing.
#[derive(Debug, Clone, Copy, PartialEq, Eq, Hash, Structural)]
pub enum DaemonStatus {
    Starting,
    Running,
    Terminated,
}

/// One pass of a long-lived background job, with its restart policy.
pub trait Daemon: Sized + Send + 'static {
    /// Identifies the daemon type. Unless a daemon says otherwise, by the
    /// tag of its own type.
    fn descriptor() -> (descriptor: DaemonDescriptor)
        default_ensures
            call_ensures(TypeTag::of::<Self>, (), descriptor.type_tag),
    {
        DaemonDescriptor { type_tag: TypeTag::of::<Self>() }
    }

    /// `None` restarts without limit; `Some(n)` allows `n` restarts after
    /// the first run. Unless a daemon says otherwise, it is restarted
    /// without limit.
    fn max_restart_time(&self) -> (max: Option<usize>)
        default_ensures
            max == None::<usize>,
    {
        None
    }

    /// The pause between two runs, if any. Unless a daemon says otherwise,
    /// there is none.
    fn cool_down_time(&self) -> (pause: Option<Duration>)
        default_ensures
            pause == None::<Duration>,
    {
        None
    }
}

/// What a daemon instance asks of its supervisor.
#[derive(Debug, Clone, Copy)]
pub struct RestartPolicy {
    /// `None` restarts without limit; `Some(n)` ends supervision once the
    /// attempt counter has passed `n`.
    pub max_restart_time: Option<usize>,
    /// The pause between two runs, if any.
    pub cool_down_time: Option<Duration>,
}

impl RestartPolicy {
    /// Reads the policy from a daemon instance: what its two policy methods
    /// return.
    pub fn of<D: Daemon>(daemon: &D) -> (policy: RestartPolicy)
        ensures
            call_ensures(D::max_restart_time, (daemon,), policy.max_restart_time),
            call_ensures(D::cool_down_time, (daemon,), policy.cool_down_time),
    {
        RestartPolicy {
            max_restart_time: daemon.max_restart_time(),
            cool_down_time: daemon.cool_down_time(),
        }
    }

    /// Whether a daemon with this policy is restarted at all, rather than
    /// run exactly once.
    pub open spec fn guards(&self) -> bool {
        self.max_restart_time != Some(0usize)
    }

    /// Whether the attempt numbered `attempt` (counted from zero) is still
    /// within the restart budget.
    pub open spec fn allows(&self, attempt: usize) -> bool {
        match self.max_restart_time {
            Some(max) => attempt <= max,
            None => true,
        }
    }
}

/// What the supervising loop reports to the handle.
#[derive(Debug, Clone, Copy, PartialEq, Eq, Structural)]
pub enum DaemonEvent {
    /// The loop is about to start another run.
    Attempt,
    /// The body ran to completion before any cancellation arrived.
    Completed,
    /// A cancellation arrived while the body was in flight.
    Cancelled,
}

/// What the supervising loop has to do next.
#[derive(Debug, Clone, Copy)]
pub enum DaemonAction {
    /// Race the daemon's body against the cancellation receiver.
    Race,
    /// Sleep for the given time, then attempt the next run.
    CoolDown(Duration),
    /// Attempt the next run at once.
    Restart,
    /// Leave the loop and signal completion.
    Finish,
    /// The event does not apply in the current status; nothing changed.
    Ignore,
}

/// Why a daemon could not be started.
#[derive(Debug, Clone, Copy, PartialEq, Eq, Structural)]
pub enum DaemonError {
    /// A guarded instance of the same daemon is still running; it has to be
    /// cancelled and waited for first.
    AlreadyRunning,
    /// The daemon instance could not be constructed; nothing was spawned.
    ConstructionFailed,
}

/// The mathematical content of a [`DaemonHandle`].
pub ghost struct DaemonHandleView {
    /// The cancellation sender has not been used yet.
    pub can_kill: bool,
    /// The completion receiver has not been handed out yet.
    pub can_wait: bool,
    pub state: DaemonStatus,
    pub is_guarded: bool,
    pub restarted: usize,
}

impl DaemonHandleView {
    /// The handle of a daemon that has just been launched under `policy`.
    pub open spec fn launched(policy: RestartPolicy) -> DaemonHandleView {
        DaemonHandleView {
            can_kill: true,
            can_wait: true,
            state: DaemonStatus::Starting,
            is_guarded: policy.guards(),
            restarted: 0,
        }
    }

    /// The handle with another status.
    pub open spec fn with_state(self, state: DaemonStatus) -> DaemonHandleView {
        DaemonHandleView { state, ..self }
    }

    /// One transition of the supervisor: the next content of the handle and
    /// the action handed to the loop.
    ///
    /// Cancellation wins: once it has been requested through the handle, no
    /// run is started and no completed run is followed by another. The next
    /// report of the loop, whichever it is, terminates the daemon.
    pub open spec fn step(self, policy: RestartPolicy, event: DaemonEvent) -> (
        DaemonHandleView,
        DaemonAction,
    ) {
        match (self.state, event) {
            (DaemonStatus::Starting, DaemonEvent::Attempt) => {
                let counted = DaemonHandleView {
                    restarted: vstd::wrapping::usize_specs::wrapping_add(self.restarted, 1usize),
                    ..self
                };
                if self.can_kill && policy.allows(self.restarted) {
                    (counted.with_state(DaemonStatus::Running), DaemonAction::Race)
                } else {
                    (counted.with_state(DaemonStatus::Terminated), DaemonAction::Finish)
                }
            },
            (DaemonStatus::Running, DaemonEvent::Completed) => {
                if !self.can_kill {
                    (self.with_state(DaemonStatus::Terminated), DaemonAction::Finish)
                } else {
                    match policy.cool_down_time {
                        Some(pause) => (
                            self.with_state(DaemonStatus::Starting),
                            DaemonAction::CoolDown(pause),
                        ),
                        None => (self.with_state(DaemonStatus::Starting), DaemonAction::Restart),
                    }
                }
            },
            (DaemonStatus::Running, DaemonEvent::Cancelled) => {
                (self.with_state(DaemonStatus::Terminated), DaemonAction::Finish)
            },
            _ => (self, DaemonAction::Ignore),
        }
    }

    /// What requesting cancellation does to the handle, and whether a
    /// message is sent.
    pub open spec fn kill_guard(self) -> (DaemonHandleView, bool) {
        (DaemonHandleView { can_kill: false, ..self }, self.can_kill)
    }

    /// Whether a new instance of the same daemon must not be started while
    /// this handle is registered.
    pub open spec fn blocks_restart(self) -> bool {
        self.is_guarded && self.state != DaemonStatus::Terminated
    }
}

/// One supervised daemon, as seen by whoever started it and by the loop
/// that runs it.
#[derive(Debug)]
pub struct DaemonHandle {
    kill: Option<Sender<()>>,
    finish: Option<Receiver<()>>,
    state: DaemonStatus,
    is_guarded: bool,
    restarted: usize,
}

/// A freshly launched daemon: its handle, and the two channel halves that the
/// supervising loop keeps.
#[derive(Debug)]
pub struct Launch {
    pub handle: DaemonHandle,
    /// Resolves once cancellation has been requested through the handle.
    pub cancel: Receiver<()>,
    /// Signals completion to whoever waits on the handle.
    pub done: Sender<()>,
}

impl View for DaemonHandle {
    type V = DaemonHandleView;

    closed spec fn view(&self) -> DaemonHandleView {
        DaemonHandleView {
            can_kill: self.kill.is_some(),
            can_wait: self.finish.is_some(),
            state: self.state,
            is_guarded: self.is_guarded,
            restarted: self.restarted,
        }
    }
}

impl DaemonHandle {
    /// Creates the handle of a daemon about to be supervised under `policy`,
    /// together with the loop's ends of its two channels.
    pub fn launch(policy: &RestartPolicy) -> (out: Launch)
        ensures
            out.handle@ == DaemonHandleView::launched(*policy),
    {
        let (done, finish) = unit_channel();
        let (kill, cancel) = unit_channel();
        let is_guarded = match policy.max_restart_time {
            Some(max) => max != 0,
            None => true,
        };
        let handle = DaemonHandle {
            kill: Some(kill),
            finish: Some(finish),
            state: DaemonStatus::Starting,
            is_guarded,
            restarted: 0,
        };
        Launch { handle, cancel, done }
    }

    /// How many run attempts the supervisor has counted so far.
    pub fn restarted_times(&self) -> (n: usize)
        ensures
            n == self@.restarted,
    {
        self.restarted
    }

    /// The current status.
    pub fn state(&self) -> (status: DaemonStatus)
        ensures
            status == self@.state,
    {
        self.state
    }

    /// Whether the daemon is restarted after it completes.
    pub fn is_guarded(&self) -> (guarded: bool)
        ensures
            guarded == self@.is_guarded,
    {
        self.is_guarded
    }

    /// Whether a new instance of the same daemon must be refused while this
    /// handle is registered.
    pub fn blocks_restart(&self) -> (blocks: bool)
        ensures
            blocks == self@.blocks_restart(),
    {
        self.is_guarded && !matches!(self.state, DaemonStatus::Terminated)
    }

    /// Requests cancellation. Only the first call sends the message; the
    /// result says whether this call did.
    pub fn kill_guard(&mut self) -> (sent: bool)
        ensures
            (final(self)@, sent) == old(self)@.kill_guard(),
    {
        match self.kill.take() {
            Some(tx) => {
                send_unit(tx);
                true
            },
            None => false,
        }
    }

    /// Hands out the completion receiver for the caller to await. Only the
    /// first call gets it; afterwards there is nothing left to wait for.
    pub fn wait(&mut self) -> (completion: Option<Receiver<()>>)
        ensures
            completion.is_some() == old(self)@.can_wait,
            final(self)@ == (DaemonHandleView { can_wait: false, ..old(self)@ }),
    {
        self.finish.take()
    }

    /// Requests cancellation, then hands out the completion receiver.
    pub fn kill_guard_and_wait(&mut self) -> (completion: Option<Receiver<()>>)
        ensures
            completion.is_some() == old(self)@.can_wait,
            final(self)@ == (DaemonHandleView { can_kill: false, can_wait: false, ..old(self)@ }),
    {
        let _ = self.kill_guard();
        self.wait()
    }

    /// The safety net for a handle that goes away: when its last owner lets
    /// go of a daemon that has not terminated, cancellation is requested.
    /// The result says whether a message was sent.
    pub fn release(&mut self, last_owner: bool) -> (sent: bool)
        ensures
            sent == (last_owner && old(self)@.state != DaemonStatus::Terminated && old(
                self,
            )@.can_kill),
            final(self)@ == (if last_owner && old(self)@.state != DaemonStatus::Terminated {
                DaemonHandleView { can_kill: false, ..old(self)@ }
            } else {
                old(self)@
            }),
    {
        if last_owner && !matches!(self.state, DaemonStatus::Terminated) {
            self.kill_guard()
        } else {
            false
        }
    }

    /// Takes one transition of the supervisor: records `event` and tells the
    /// loop what to do next.
    pub fn step(&mut self, policy: &RestartPolicy, event: DaemonEvent) -> (action: DaemonAction)
        ensures
            (final(self)@, action) == old(self)@.step(*policy, event),
    {
        match (self.state, event) {
            (DaemonStatus::Starting, DaemonEvent::Attempt) => {
                let current = self.restarted;
                self.restarted = current.wrapping_add(1);
                let within_budget = match policy.max_restart_time {
                    Some(max) => current <= max,
                    None => true,
                };
                if self.kill.is_some() && within_budget {
                    self.state = DaemonStatus::Running;
                    DaemonAction::Race
                } else {
                    self.state = DaemonStatus::Terminated;
                    DaemonAction::Finish
                }
            },
            (DaemonStatus::Running, DaemonEvent::Completed) => {
                if self.kill.is_none() {
                    self.state = DaemonStatus::Terminated;
                    DaemonAction::Finish
                } else {
                    self.state = DaemonStatus::Starting;
                    match policy.cool_down_time {
                        Some(pause) => DaemonAction::CoolDown(pause),
                        None => DaemonAction::Restart,
                    }
                }
            },
            (DaemonStatus::Running, DaemonEvent::Cancelled) => {
                self.state = DaemonStatus::Terminated;
                DaemonAction::Finish
            },
            _ => DaemonAction::Ignore,
        }
    }
}

} // verus!
