use moonbase::components::ComponentName;
use moonbase::components::MoonbaseComponent;
use moonbase::daemon::DaemonAction;
use moonbase::daemon::DaemonError;
use moonbase::daemon::DaemonEvent;
use moonbase::daemon::DaemonHandle;
use moonbase::daemon::DaemonStatus;
use moonbase::daemon::RestartPolicy;
use moonbase::resource::MoonbaseResource;
use moonbase::signal::Signal;
use moonbase::signal::SignalKey;
use moonbase::utils::TypeTag;
use moonbase::Moonbase;
use std::sync::atomic::AtomicUsize;
use std::sync::atomic::Ordering;
use std::sync::Arc;
use std::task::Wake;
use std::task::Waker;

#[derive(Debug, Clone, PartialEq, Eq)]
struct ConfigV1 {
    port: u16,
}

impl MoonbaseResource for ConfigV1 {}

#[derive(Debug, Clone, PartialEq, Eq)]
struct Router(&'static str);

impl MoonbaseComponent for Router {}

struct Worker;

struct Counter {
    woken: AtomicUsize,
}

impl Wake for Counter {
    fn wake(self: Arc<Self>) {
        self.woken.fetch_add(1, Ordering::SeqCst);
    }
}

fn runtime() -> Moonbase<ConfigV1, Router> {
    Moonbase::new()
}

/// The tag of the resource that stands for the executor in these tests.
fn executor() -> TypeTag {
    TypeTag::of::<Executor>()
}

struct Executor;

/// A runtime with an executor registered, so that daemons can be started.
fn runtime_with_executor() -> Moonbase<ConfigV1, Router> {
    let mut moonbase = runtime();
    moonbase.set_resource(executor(), ConfigV1 { port: 0 });
    moonbase
}

fn worker_name() -> ComponentName<DaemonHandle> {
    ComponentName::new_daemon_handle::<Worker>("Worker")
}

#[test]
fn registered_resource_is_found_until_removed() {
    let mut moonbase = runtime();
    assert_eq!(moonbase.id(), 0);
    let tag = TypeTag::of::<ConfigV1>();
    assert!(!moonbase.has_resource(tag));
    moonbase.set_resource(tag, ConfigV1 { port: 8080 });
    assert!(moonbase.has_resource(tag));
    assert_eq!(moonbase.get_resource(tag), Some(ConfigV1 { port: 8080 }));
    assert_eq!(moonbase.remove_resource(tag), Some(ConfigV1 { port: 8080 }));
    assert_eq!(moonbase.get_resource(tag), None);
    assert_eq!(moonbase.remove_resource(tag), None);
}

#[test]
fn components_a_and_b_do_not_overwrite_each_other() {
    let mut moonbase = runtime();
    let a = ComponentName::<Router>::new("a");
    let b = ComponentName::<Router>::new("b");
    moonbase.set_component(&a, Router("/a"));
    moonbase.set_component(&b, Router("/b"));
    assert_eq!(moonbase.get_component(&a), Some(Router("/a")));
    assert_eq!(moonbase.get_component(&b), Some(Router("/b")));
    assert!(moonbase.has_component(&a));
    assert_eq!(moonbase.remove_component(&a), Some(Router("/a")));
    assert!(!moonbase.has_component(&a));
    assert_eq!(moonbase.get_component(&a), None);
    assert_eq!(moonbase.get_component(&b), Some(Router("/b")));
}

#[test]
fn two_runtimes_do_not_share_state() {
    let mut one = runtime();
    let other = runtime();
    let tag = TypeTag::of::<ConfigV1>();
    one.set_resource(tag, ConfigV1 { port: 1 });
    one.set_signal(SignalKey::new(b"stop"), Signal::new());
    assert_eq!(other.get_resource(tag), None);
    assert!(!other.has_signal(&SignalKey::new(b"stop")));
}

#[test]
fn signals_are_triggered_by_key() {
    let mut moonbase = runtime();
    let stop = SignalKey::from_static_str("stop");
    assert!(!moonbase.has_signal(&stop));
    moonbase.trigger_signal(&stop);
    assert!(moonbase.recv_signal(&stop).is_none());
    moonbase.set_signal(stop.clone(), Signal::new());
    assert!(moonbase.has_signal(&stop));
    assert!(moonbase.get_signal(&stop).is_some());

    let count = Arc::new(Counter { woken: AtomicUsize::new(0) });
    let waker = Waker::from(count.clone());
    let mut waiting = moonbase.recv_signal(&stop).expect("registered");
    assert_eq!(moonbase.poll_signal(&stop, &mut waiting, waker.clone()), Some(false));
    moonbase.trigger_signal(&stop);
    assert_eq!(count.woken.load(Ordering::SeqCst), 1);
    assert_eq!(moonbase.poll_signal(&stop, &mut waiting, waker.clone()), Some(true));
    assert!(moonbase.remove_signal(&stop).is_some());
    assert!(moonbase.remove_signal(&stop).is_none());
    assert_eq!(moonbase.poll_signal(&stop, &mut waiting, waker), None);
}

#[test]
fn daemon_is_started_supervised_and_found() {
    let mut moonbase = runtime_with_executor();
    let name = worker_name();
    assert!(moonbase.get_daemon_handle(&name).is_none());
    let policy = RestartPolicy { max_restart_time: Some(2), cool_down_time: None };
    let mut start = moonbase.run_daemon(&name, Some(&policy), executor()).expect("started");
    {
        let handle = moonbase.get_daemon_handle(&name).expect("registered");
        assert_eq!(handle.state(), DaemonStatus::Starting);
        assert!(handle.is_guarded());
    }
    let mut counter = 0;
    loop {
        match moonbase.step_daemon(&name, &policy, DaemonEvent::Attempt).expect("registered") {
            DaemonAction::Race => {
                counter += 1;
                moonbase.step_daemon(&name, &policy, DaemonEvent::Completed);
            }
            DaemonAction::Finish => break,
            other => panic!("unexpected action {:?}", other),
        }
    }
    start.done.send(()).expect("receiver alive");
    let mut completion = moonbase.wait_daemon(&name).expect("first wait");
    assert_eq!(completion.try_recv(), Ok(Some(())));
    assert!(moonbase.wait_daemon(&name).is_none());
    assert_eq!(counter, 3);
    assert_eq!(
        moonbase.get_daemon_handle(&name).expect("registered").state(),
        DaemonStatus::Terminated
    );
    assert_eq!(start.cancel.try_recv(), Ok(None));
}

#[test]
fn running_guarded_daemon_refuses_a_second_start() {
    let mut moonbase = runtime_with_executor();
    let name = worker_name();
    let policy = RestartPolicy { max_restart_time: None, cool_down_time: None };
    let mut first = moonbase.run_daemon(&name, Some(&policy), executor()).expect("started");
    assert_eq!(
        moonbase.run_daemon(&name, Some(&policy), executor()).err(),
        Some(DaemonError::AlreadyRunning)
    );
    assert_eq!(moonbase.discard_stale_daemon(&name).err(), Some(DaemonError::AlreadyRunning));
    assert_eq!(first.cancel.try_recv(), Ok(None));

    assert_eq!(moonbase.kill_daemon(&name), Some(true));
    assert_eq!(moonbase.kill_daemon(&name), Some(false));
    assert_eq!(first.cancel.try_recv(), Ok(Some(())));
    assert!(matches!(
        moonbase.step_daemon(&name, &policy, DaemonEvent::Attempt),
        Some(DaemonAction::Finish)
    ));
    assert!(matches!(
        moonbase.step_daemon(&name, &policy, DaemonEvent::Cancelled),
        Some(DaemonAction::Ignore)
    ));
    assert!(moonbase.run_daemon(&name, Some(&policy), executor()).is_ok());
    assert_eq!(
        moonbase.get_daemon_handle(&name).expect("registered").state(),
        DaemonStatus::Starting
    );
}

#[test]
fn stale_one_shot_daemon_is_cancelled_and_replaced() {
    let mut moonbase = runtime_with_executor();
    let name = worker_name();
    let one_shot = RestartPolicy { max_restart_time: Some(0), cool_down_time: None };
    let mut first = moonbase.run_daemon(&name, Some(&one_shot), executor()).expect("started");
    let completion = moonbase.discard_stale_daemon(&name).expect("stale");
    assert!(completion.is_some());
    assert_eq!(first.cancel.try_recv(), Ok(Some(())));
    assert!(moonbase.get_daemon_handle(&name).is_none());
    assert_eq!(moonbase.discard_stale_daemon(&name).map(|c| c.is_some()), Ok(false));
    let guarded = RestartPolicy { max_restart_time: Some(5), cool_down_time: None };
    let _second = moonbase.launch_daemon(&name, &guarded, executor());
    assert!(moonbase.get_daemon_handle(&name).expect("registered").is_guarded());
}

#[test]
fn failed_construction_registers_nothing() {
    let mut moonbase = runtime_with_executor();
    let name = worker_name();
    assert_eq!(moonbase.run_daemon(&name, None, executor()).err(), Some(DaemonError::ConstructionFailed));
    assert!(moonbase.get_daemon_handle(&name).is_none());
    assert_eq!(moonbase.kill_daemon(&name), None);
    assert!(moonbase.wait_daemon(&name).is_none());
    let policy = RestartPolicy { max_restart_time: None, cool_down_time: None };
    assert_eq!(moonbase.step_daemon(&name, &policy, DaemonEvent::Attempt).is_none(), true);
}

#[test]
fn daemons_of_different_types_have_handles_of_their_own() {
    struct Other;
    let mut moonbase = runtime_with_executor();
    let worker = worker_name();
    let other: ComponentName<DaemonHandle> = ComponentName::new_daemon_handle::<Other>("Other");
    let policy = RestartPolicy { max_restart_time: None, cool_down_time: None };
    let _first = moonbase.run_daemon(&worker, Some(&policy), executor()).expect("started");
    assert!(moonbase.get_daemon_handle(&other).is_none());
    let _second = moonbase.run_daemon(&other, Some(&policy), executor()).expect("started");
    assert_eq!(moonbase.kill_daemon(&worker), Some(true));
    assert_eq!(moonbase.kill_daemon(&other), Some(true));
}

#[test]
fn releasing_the_last_owner_cancels_a_live_daemon() {
    let mut moonbase = runtime_with_executor();
    let name = worker_name();
    assert!(!moonbase.release_daemon(&name, true));
    let policy = RestartPolicy { max_restart_time: None, cool_down_time: None };
    let mut start = moonbase.run_daemon(&name, Some(&policy), executor()).expect("started");
    assert!(!moonbase.release_daemon(&name, false));
    assert_eq!(start.cancel.try_recv(), Ok(None));
    assert!(moonbase.release_daemon(&name, true));
    assert_eq!(start.cancel.try_recv(), Ok(Some(())));
    assert!(!moonbase.release_daemon(&name, true));
    assert_eq!(moonbase.kill_daemon(&name), Some(false));
}

#[test]
fn cancellation_requested_between_runs_stops_the_next_attempt() {
    let mut moonbase = runtime_with_executor();
    let name = worker_name();
    let policy = RestartPolicy { max_restart_time: None, cool_down_time: None };
    let _start = moonbase.run_daemon(&name, Some(&policy), executor()).expect("started");
    moonbase.step_daemon(&name, &policy, DaemonEvent::Attempt);
    moonbase.step_daemon(&name, &policy, DaemonEvent::Completed);
    assert_eq!(moonbase.kill_daemon(&name), Some(true));
    assert!(matches!(
        moonbase.step_daemon(&name, &policy, DaemonEvent::Attempt),
        Some(DaemonAction::Finish)
    ));
    assert_eq!(
        moonbase.get_daemon_handle(&name).expect("registered").state(),
        DaemonStatus::Terminated
    );
}
