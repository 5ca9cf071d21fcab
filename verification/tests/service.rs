use moonbase::cluster::EndpointId;
use moonbase::cluster::EndpointLocation;
use moonbase::cluster::RemoteEndpoint;
use moonbase::config::ConfigResolver;
use moonbase::context::FromContext;
use moonbase::service::runner_step;
use moonbase::service::RunnerAction;
use moonbase::service::RunnerEvent;
use moonbase::service::ServiceDescriptor;
use moonbase::service::ServiceHandle;
use moonbase::service::ServicePolicy;
use moonbase::service::ServiceRepository;
use moonbase::service::ServiceStatusKind;

struct Echo;

#[test]
fn descriptors_carry_their_name() {
    assert_eq!(ServiceDescriptor::new("echo").name, "echo");
    assert_eq!(ServiceDescriptor::from_static("echo").name, "echo");
    assert_eq!(ServiceDescriptor::from_type::<Echo>("app::Echo").name, "app::Echo");
    assert!(ServiceDescriptor::new("echo").same_as(&ServiceDescriptor::from_static("echo")));
    assert!(!ServiceDescriptor::new("echo").same_as(&ServiceDescriptor::new("other")));
}

#[test]
fn defaults_are_ready_and_one_shot() {
    assert_eq!(ServiceStatusKind::default(), ServiceStatusKind::Ready);
    assert_eq!(ServicePolicy::default(), ServicePolicy::OneShot);
    assert!(ServicePolicy::Guarded.is_guarded());
    assert!(!ServicePolicy::OneShot.is_guarded());
}

#[test]
fn repository_holds_one_service_per_name() {
    let mut repository: ServiceRepository<u32> = ServiceRepository::new();
    assert!(!repository.contains(&ServiceDescriptor::new("echo")));
    repository.insert(ServiceDescriptor::new("echo"), 1);
    repository.insert(ServiceDescriptor::new("other"), 2);
    repository.insert(ServiceDescriptor::new("echo"), 3);
    assert!(repository.contains(&ServiceDescriptor::new("echo")));
    assert!(repository.contains(&ServiceDescriptor::new("other")));
    assert!(!repository.contains(&ServiceDescriptor::new("missing")));
}

#[test]
fn service_handle_stops_and_waits_once() {
    let mut launch = ServiceHandle::launch(ServicePolicy::Guarded);
    assert!(launch.handle.is_guarded());
    assert_eq!(launch.stop.try_recv(), Ok(None));
    assert!(launch.handle.kill_guard());
    assert_eq!(launch.stop.try_recv(), Ok(Some(())));
    assert!(!launch.handle.kill_guard());
    let mut completion = launch.handle.wait().expect("first wait");
    assert!(launch.handle.wait().is_none());
    launch.done.send(()).expect("receiver alive");
    assert_eq!(completion.try_recv(), Ok(Some(())));

    let mut one_shot = ServiceHandle::launch(ServicePolicy::OneShot);
    assert!(!one_shot.handle.is_guarded());
    assert!(!one_shot.handle.release(false));
    assert_eq!(one_shot.stop.try_recv(), Ok(None));
    assert!(one_shot.handle.release(true));
    assert_eq!(one_shot.stop.try_recv(), Ok(Some(())));
    assert!(!one_shot.handle.release(true));
    assert!(one_shot.handle.kill_guard_and_wait().is_some());
    assert!(one_shot.handle.kill_guard_and_wait().is_none());
}

#[test]
fn runner_serves_until_the_stream_ends_or_it_is_stopped() {
    assert_eq!(runner_step(RunnerEvent::Request), RunnerAction::Serve);
    assert_eq!(runner_step(RunnerEvent::StreamEnded), RunnerAction::Leave);
    assert_eq!(runner_step(RunnerEvent::Stopped), RunnerAction::Leave);
}

#[test]
fn plain_data_is_held_as_given() {
    assert_eq!(EndpointId(7), EndpointId(7));
    assert_ne!(EndpointId(7), EndpointId(8));
    let remote = EndpointLocation::Remote(RemoteEndpoint::Tcp("10.0.0.1:80".to_string()));
    match remote {
        EndpointLocation::Remote(RemoteEndpoint::Tcp(address)) => assert_eq!(address, "10.0.0.1:80"),
        _ => unreachable!(),
    }
    let taken: FromContext<u32, ()> = FromContext::new(5);
    assert_eq!(taken.data, 5);
    assert_eq!(taken.into_inner(), 5);
    let resolver: ConfigResolver<u32, ()> =
        ConfigResolver { hash: 1, context: (), config: None, raw: vec![1, 2] };
    assert_eq!(resolver.raw, vec![1, 2]);
    assert_eq!(resolver.config, None);
    assert_eq!(resolver.hash, 1);
}
