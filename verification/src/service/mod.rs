//! Services: units that answer requests from a stream until they are told to
//! stop.

use futures::channel::oneshot::Receiver;
use futures::channel::oneshot::Sender;
use vstd::prelude::*;

use crate::daemon::send_unit;
use crate::daemon::unit_channel;
use crate::utils::assoc::content;
use crate::utils::assoc::distinct;
use crate::utils::assoc::lemma_found;
use crate::utils::assoc::lemma_missing;
use crate::utils::assoc::lemma_push;
use crate::utils::assoc::lemma_swap_remove;

verus! {

/// Where a service is in its life.
#[derive(Debug, Clone, Copy, PartialEq, Eq, Hash, Structural)]
pub enum ServiceStatusKind {
    Ready,
    Starting,
    Running,
    Stopping,
    Stopped,
}

impl Default for ServiceStatusKind {
    fn default() -> (kind: Self)
        ensures
            kind == ServiceStatusKind::Ready,
    {
        ServiceStatusKind::Ready
    }
}

/// Whether a service is run once or kept running.
#[derive(Debug, Clone, Copy, PartialEq, Eq, Hash, Structural)]
pub enum ServicePolicy {
    OneShot,
    Guarded,
}

impl Default for ServicePolicy {
    fn default() -> (policy: Self)
        ensures
            policy == ServicePolicy::OneShot,
    {
        ServicePolicy::OneShot
    }
}

impl ServicePolicy {
    /// Whether a service with this policy is kept running.
    pub fn is_guarded(self) -> (guarded: bool)
        ensures
            guarded == (self == ServicePolicy::Guarded),
    {
        matches!(self, ServicePolicy::Guarded)
    }
}

/// Names a service.
#[derive(Debug)]
pub struct ServiceDescriptor {
    pub name: String,
}

impl ServiceDescriptor {
    /// The descriptor of the service type `T`, named by the description of
    /// that type.
    pub fn from_type<T>(description: &str) -> (descriptor: Self)
        ensures
            descriptor.name@ == description@,
    {
        ServiceDescriptor { name: description.to_owned() }
    }

    /// The descriptor with the given name.
    pub fn from_static(name: &'static str) -> (descriptor: Self)
        ensures
            descriptor.name@ == name@,
    {
        ServiceDescriptor { name: name.to_owned() }
    }

    /// The descriptor with the given name.
    pub fn new(name: &str) -> (descriptor: Self)
        ensures
            descriptor.name@ == name@,
    {
        ServiceDescriptor { name: name.to_owned() }
    }

    /// Whether two descriptors name the same service.
    pub fn same_as(&self, other: &ServiceDescriptor) -> (same: bool)
        ensures
            same == (self.name@ == other.name@),
    {
        self.name == other.name
    }
}

/// The mathematical content of a [`ServiceHandle`].
pub ghost struct ServiceHandleView {
    /// The stop sender has not been used yet.
    pub can_kill: bool,
    /// The completion receiver has not been handed out yet.
    pub can_wait: bool,
    pub is_guarded: bool,
}

/// One running service, as seen by whoever started it.
#[derive(Debug)]
pub struct ServiceHandle {
    kill: Option<Sender<()>>,
    finish: Option<Receiver<()>>,
    is_guarded: bool,
}

/// A freshly started service: its handle, and the two channel halves that
/// the task running the service keeps.
#[derive(Debug)]
pub struct ServiceLaunch {
    pub handle: ServiceHandle,
    /// Resolves once the service has been told to stop through the handle.
    pub stop: Receiver<()>,
    /// Signals completion to whoever waits on the handle.
    pub done: Sender<()>,
}

impl View for ServiceHandle {
    type V = ServiceHandleView;

    closed spec fn view(&self) -> ServiceHandleView {
        ServiceHandleView {
            can_kill: self.kill.is_some(),
            can_wait: self.finish.is_some(),
            is_guarded: self.is_guarded,
        }
    }
}

impl ServiceHandle {
    /// Creates the handle of a service about to run under `policy`.
    pub fn launch(policy: ServicePolicy) -> (out: ServiceLaunch)
        ensures
            out.handle@ == (ServiceHandleView {
                can_kill: true,
                can_wait: true,
                is_guarded: policy == ServicePolicy::Guarded,
            }),
    {
        let (done, finish) = unit_channel();
        let (kill, stop) = unit_channel();
        let handle = ServiceHandle {
            kill: Some(kill),
            finish: Some(finish),
            is_guarded: policy.is_guarded(),
        };
        ServiceLaunch { handle, stop, done }
    }

    /// Whether the service is kept running.
    pub fn is_guarded(&self) -> (guarded: bool)
        ensures
            guarded == self@.is_guarded,
    {
        self.is_guarded
    }

    /// Tells the service to stop. Only the first call sends the message; the
    /// result says whether this call did.
    pub fn kill_guard(&mut self) -> (sent: bool)
        ensures
            sent == old(self)@.can_kill,
            final(self)@ == (ServiceHandleView { can_kill: false, ..old(self)@ }),
    {
        match self.kill.take() {
            Some(tx) => {
                send_unit(tx);
                true
            },
            None => false,
        }
    }

    /// Hands out the completion receiver for the caller to await. Only the
    /// first call gets it.
    pub fn wait(&mut self) -> (completion: Option<Receiver<()>>)
        ensures
            completion.is_some() == old(self)@.can_wait,
            final(self)@ == (ServiceHandleView { can_wait: false, ..old(self)@ }),
    {
        self.finish.take()
    }

    /// Tells the service to stop, then hands out the completion receiver.
    pub fn kill_guard_and_wait(&mut self) -> (completion: Option<Receiver<()>>)
        ensures
            completion.is_some() == old(self)@.can_wait,
            final(self)@ == (ServiceHandleView { can_kill: false, can_wait: false, ..old(self)@ }),
    {
        let _ = self.kill_guard();
        self.wait()
    }

    /// The safety net for a handle that goes away: when its last owner lets
    /// go, the service is told to stop. The result says whether a message
    /// was sent.
    pub fn release(&mut self, last_owner: bool) -> (sent: bool)
        ensures
            sent == (last_owner && old(self)@.can_kill),
            final(self)@ == (if last_owner {
                ServiceHandleView { can_kill: false, ..old(self)@ }
            } else {
                old(self)@
            }),
    {
        if last_owner {
            self.kill_guard()
        } else {
            false
        }
    }
}

/// What the task that runs a service observes while it waits for work.
#[derive(Debug, Clone, Copy, PartialEq, Eq, Structural)]
pub enum RunnerEvent {
    /// The stream handed over a request.
    Request,
    /// The stream has ended.
    StreamEnded,
    /// The stop signal resolved.
    Stopped,
}

/// What the task that runs a service does next.
#[derive(Debug, Clone, Copy, PartialEq, Eq, Structural)]
pub enum RunnerAction {
    /// Call the service with the request, hand an error to the service's
    /// error handler, and wait for work again.
    Serve,
    /// Leave the loop and give the service, stream and signal back.
    Leave,
}

/// Decides what the task that runs a service does after `event`: it serves
/// every request and leaves at the end of the stream or on the stop signal.
pub fn runner_step(event: RunnerEvent) -> (action: RunnerAction)
    ensures
        action == (match event {
            RunnerEvent::Request => RunnerAction::Serve,
            RunnerEvent::StreamEnded => RunnerAction::Leave,
            RunnerEvent::Stopped => RunnerAction::Leave,
        }),
{
    match event {
        RunnerEvent::Request => RunnerAction::Serve,
        RunnerEvent::StreamEnded => RunnerAction::Leave,
        RunnerEvent::Stopped => RunnerAction::Leave,
    }
}

/// The services of one runtime by their descriptors, at most one per name.
#[derive(Debug)]
pub struct ServiceRepository<S> {
    services: Vec<(ServiceDescriptor, S)>,
}

/// The name of an entry.
spec fn name_of<S>() -> spec_fn((ServiceDescriptor, S)) -> Seq<char> {
    |entry: (ServiceDescriptor, S)| entry.0.name@
}

/// The service of an entry.
spec fn service_of<S>() -> spec_fn((ServiceDescriptor, S)) -> S {
    |entry: (ServiceDescriptor, S)| entry.1
}

impl<S> View for ServiceRepository<S> {
    type V = Map<Seq<char>, S>;

    closed spec fn view(&self) -> Map<Seq<char>, S> {
        content(self.services@, name_of(), service_of())
    }
}

impl<S> ServiceRepository<S> {
    /// No name is registered twice.
    pub closed spec fn wf(&self) -> bool {
        distinct(self.services@, name_of::<S>())
    }

    /// A repository without services.
    pub fn new() -> (repository: Self)
        ensures
            repository.wf(),
            repository@ == Map::<Seq<char>, S>::empty(),
    {
        let repository = ServiceRepository { services: Vec::new() };
        assert(repository@ =~= Map::<Seq<char>, S>::empty());
        repository
    }

    /// Where the service named by `descriptor` is registered, if it is.
    fn find(&self, descriptor: &ServiceDescriptor) -> (at: Option<usize>)
        requires
            self.wf(),
        ensures
            match at {
                Some(i) => i < self.services@.len() && self.services@[i as int].0.name@
                    == descriptor.name@ && self@.contains_key(descriptor.name@),
                None => !self@.contains_key(descriptor.name@),
            },
    {
        let mut i: usize = 0;
        while i < self.services.len()
            invariant
                self.wf(),
                i <= self.services@.len(),
                forall|j: int| 0 <= j < i ==> self.services@[j].0.name@ != descriptor.name@,
            decreases self.services@.len() - i,
        {
            if self.services[i].0.same_as(descriptor) {
                proof {
                    lemma_found(self.services@, name_of(), service_of(), i as int);
                }
                return Some(i);
            }
            i = i + 1;
        }
        proof {
            lemma_missing(self.services@, name_of(), service_of(), descriptor.name@);
        }
        None
    }

    /// Whether a service is registered under the name of `descriptor`.
    pub fn contains(&self, descriptor: &ServiceDescriptor) -> (present: bool)
        requires
            self.wf(),
        ensures
            present == self@.contains_key(descriptor.name@),
    {
        self.find(descriptor).is_some()
    }

    /// Registers `service` under the name of `descriptor`, in place of any
    /// service registered under that name before.
    pub fn insert(&mut self, descriptor: ServiceDescriptor, service: S)
        requires
            old(self).wf(),
        ensures
            final(self).wf(),
            final(self)@ == old(self)@.insert(descriptor.name@, service),
    {
        let ghost before = self.services@;
        match self.find(&descriptor) {
            Some(i) => {
                let _ = self.services.swap_remove(i);
                let ghost between = self.services@;
                self.services.push((descriptor, service));
                proof {
                    lemma_swap_remove(before, name_of(), service_of(), i as int);
                    lemma_push(between, name_of(), service_of(), (descriptor, service));
                    assert(old(self)@.remove(descriptor.name@).insert(descriptor.name@, service)
                        =~= old(self)@.insert(descriptor.name@, service));
                }
            },
            None => {
                self.services.push((descriptor, service));
                proof {
                    lemma_push(before, name_of(), service_of(), (descriptor, service));
                }
            },
        }
    }
}

} // verus!
