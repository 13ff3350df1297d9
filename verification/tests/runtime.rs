use service_sdk::settings::catalogue::SettingsTrait;
use service_sdk::{
    AppStates, BuilderError, Capability, CapabilitySet, ChainEntry, Collaborators,
    ConstructionError, ConstructionStep, IpAddress, LifecycleError, LifecyclePhase,
    ListenEndpoint, Numbered, RuntimePhase, ServiceContext, ServiceIdentity, StartupStep,
    SubsystemState,
};
use std::time::Duration;

struct Parts;

impl Collaborators for Parts {
    type Middleware = &'static str;
    type Action = &'static str;
    type Authorization = u32;
    type AuthErrorFactory = u32;
    type RpcRouter = &'static str;
    type TimerCallback = u32;
}

fn context(enabled: &[Capability]) -> ServiceContext<Parts> {
    ServiceContext::with_identity(
        "orders".to_string(),
        "2.0".to_string(),
        CapabilitySet::from_list(&enabled.to_vec()),
    )
}

fn describe(plan: &[StartupStep<Parts>]) -> Vec<String> {
    plan.iter()
        .map(|s| match s {
            StartupStep::MarkRunning => "mark-running".to_string(),
            StartupStep::StartTimer(t) => {
                format!("timer:{}:{}:{}", t.name, t.interval.as_secs(), t.callback)
            }
            StartupStep::StartSubsystem(c) => format!("subsystem:{:?}", c),
            StartupStep::StartHttp { server, http2 } => {
                format!("http:{}:{}:{}", server.listen_address.port, server.chain.len(), http2)
            }
            StartupStep::StartGrpc(serving) => {
                format!("grpc:{}:{}", serving.service.get_ref(), serving.listen_address.port)
            }
            StartupStep::AwaitShutdown => "await-shutdown".to_string(),
        })
        .collect()
}

#[test]
fn lifecycle_signal_is_tri_state() {
    let mut signal = AppStates::create_un_initialized();
    assert_eq!(signal.current(), LifecyclePhase::Uninitialized);
    assert!(!signal.is_initialized());
    assert!(!signal.is_shutting_down());
    assert!(signal.wait_until_shutdown());
    signal.set_initialized();
    assert_eq!(signal.current(), LifecyclePhase::Running);
    assert!(signal.is_initialized());
    assert!(signal.wait_until_shutdown());
    signal.set_shutting_down();
    assert_eq!(signal.current(), LifecyclePhase::ShutdownRequested);
    assert!(signal.is_shutting_down());
    assert!(!signal.is_initialized());
    assert!(!signal.wait_until_shutdown());
    signal.set_initialized();
    assert_eq!(signal.current(), LifecyclePhase::ShutdownRequested);
}

#[test]
fn construction_from_settings() {
    let settings = ServiceIdentity { name: "orders".to_string(), version: "2.0".to_string() };
    let ctx: ServiceContext<Parts> =
        ServiceContext::new(&settings, CapabilitySet::from_list(&vec![Capability::CacheReader]));
    assert_eq!(ctx.app_name(), "orders");
    assert_eq!(ctx.app_version(), "2.0");
    assert_eq!(ctx.phase(), RuntimePhase::Created);
    assert_eq!(ctx.app_states().current(), LifecyclePhase::Uninitialized);
    assert_eq!(ctx.timer_count(), 0);
    assert!(ctx.capabilities().contains(Capability::CacheReader));
    assert_eq!(ctx.subsystem_state(Capability::CacheReader), SubsystemState::Constructed);
    assert_eq!(ctx.subsystem_state(Capability::MessageBus), SubsystemState::Absent);
    assert_eq!(
        ctx.construction_steps(),
        vec![
            ConstructionStep::InstallMetricsRecorder,
            ConstructionStep::PopulateLogIdentity,
            ConstructionStep::EnableRemoteLogSink,
            ConstructionStep::ConstructSubsystem(Capability::CacheReader),
        ]
    );
}

#[test]
fn construction_steps_follow_canonical_order() {
    let ctx = context(&[Capability::Rpc, Capability::MessageBus, Capability::Telemetry]);
    assert_eq!(
        ctx.construction_steps()[3..],
        [
            ConstructionStep::ConstructSubsystem(Capability::Telemetry),
            ConstructionStep::ConstructSubsystem(Capability::MessageBus),
            ConstructionStep::ConstructSubsystem(Capability::Rpc),
        ]
    );
}

#[test]
fn message_bus_service_starts_and_stops() {
    let mut ctx = context(&[Capability::MessageBus]);
    let plan = ctx.start_application(false, None).ok().unwrap();
    assert_eq!(
        describe(&plan),
        vec![
            "mark-running",
            "subsystem:MessageBus",
            "http:8000:2:false",
            "await-shutdown",
        ]
    );
    match &plan[2] {
        StartupStep::StartHttp { server, .. } => {
            assert!(matches!(server.chain[0], ChainEntry::IsAlive { .. }));
            assert!(matches!(server.chain[1], ChainEntry::Metrics));
            assert_eq!(
                server.listen_address,
                ListenEndpoint { ip: IpAddress::V4(0, 0, 0, 0), port: 8000 }
            );
        }
        _ => panic!("the HTTP listener was expected"),
    }
    assert_eq!(ctx.phase(), RuntimePhase::Started);
    assert!(ctx.app_states().is_initialized());
    assert!(ctx.app_states().wait_until_shutdown());
    assert_eq!(ctx.subsystem_started(Capability::MessageBus, true), SubsystemState::Running);
    ctx.request_shutdown();
    assert_eq!(ctx.phase(), RuntimePhase::ShuttingDown);
    assert!(!ctx.app_states().wait_until_shutdown());
    ctx.shutdown_observed();
    assert_eq!(ctx.phase(), RuntimePhase::Stopped);
}

#[test]
fn full_plan_is_ordered() {
    let mut ctx = context(&[Capability::Rpc, Capability::CacheReader, Capability::MessageBus]);
    assert_eq!(ctx.register_timer(Duration::from_secs(5), "flush".to_string(), 1), Ok(()));
    assert_eq!(ctx.phase(), RuntimePhase::Configuring);
    assert_eq!(ctx.register_timer(Duration::from_secs(60), "report".to_string(), 2), Ok(()));
    assert_eq!(ctx.timer_count(), 2);
    {
        let http = ctx.configure_http_server().ok().unwrap();
        http.add_middleware("A").unwrap();
        http.register_get("list").unwrap();
        http.add_middleware("B").unwrap();
    }
    {
        let grpc = ctx.configure_grpc_server().ok().unwrap();
        grpc.add_grpc_service("router").unwrap();
    }
    let plan = ctx.start_application(true, Some("7001")).ok().unwrap();
    assert_eq!(
        describe(&plan),
        vec![
            "mark-running",
            "timer:flush:5:1",
            "timer:report:60:2",
            "subsystem:MessageBus",
            "subsystem:CacheReader",
            "subsystem:Rpc",
            "http:8000:6:true",
            "grpc:router:7001",
            "await-shutdown",
        ]
    );
    assert_eq!(ctx.timer_count(), 0);
}

#[test]
fn service_starts_once() {
    let mut ctx = context(&[]);
    assert!(ctx.start_application(false, None).is_ok());
    assert!(matches!(
        ctx.start_application(false, None),
        Err(LifecycleError::AlreadyStarted)
    ));
    ctx.request_shutdown();
    assert!(matches!(
        ctx.start_application(false, None),
        Err(LifecycleError::AlreadyStarted)
    ));
    ctx.shutdown_observed();
    assert!(matches!(ctx.start_application(false, None), Err(LifecycleError::Stopped)));
}

#[test]
fn nothing_is_registered_after_start() {
    let mut ctx = context(&[]);
    ctx.start_application(false, None).ok().unwrap();
    assert_eq!(
        ctx.register_timer(Duration::from_secs(1), "late".to_string(), 1),
        Err(LifecycleError::AlreadyStarted)
    );
    assert_eq!(ctx.timer_count(), 0);
    assert!(matches!(ctx.configure_http_server(), Err(LifecycleError::AlreadyStarted)));
    assert!(matches!(ctx.configure_grpc_server(), Err(LifecycleError::AlreadyStarted)));
    assert_eq!(ctx.phase(), RuntimePhase::Started);
}

#[test]
fn start_is_refused_when_a_builder_cannot_be_built() {
    let mut used = context(&[]);
    used.configure_http_server().ok().unwrap().build().ok().unwrap();
    assert!(matches!(
        used.start_application(false, None),
        Err(LifecycleError::Http(BuilderError::Consumed))
    ));
    assert_eq!(used.phase(), RuntimePhase::Configuring);
    assert_eq!(used.app_states().current(), LifecyclePhase::Uninitialized);

    let mut empty = context(&[Capability::Rpc]);
    empty.configure_grpc_server().ok().unwrap();
    assert_eq!(empty.register_timer(Duration::from_secs(1), "t".to_string(), 1), Ok(()));
    assert!(matches!(
        empty.start_application(false, None),
        Err(LifecycleError::Grpc(BuilderError::NoService))
    ));
    assert_eq!(empty.timer_count(), 1);
    empty.configure_grpc_server().ok().unwrap().add_grpc_service("svc").unwrap();
    assert!(empty.start_application(false, None).is_ok());
}

#[test]
fn failed_subsystem_is_disabled_alone() {
    let mut ctx = context(&[Capability::MessageBus, Capability::CacheReader]);
    assert_eq!(ctx.subsystem_started(Capability::MessageBus, false), SubsystemState::Constructed);
    ctx.start_application(false, None).ok().unwrap();
    assert_eq!(ctx.subsystem_started(Capability::MessageBus, false), SubsystemState::Failed);
    assert_eq!(ctx.subsystem_state(Capability::CacheReader), SubsystemState::Constructed);
    assert_eq!(ctx.subsystem_started(Capability::CacheReader, true), SubsystemState::Running);
    assert_eq!(ctx.subsystem_state(Capability::MessageBus), SubsystemState::Failed);
    assert_eq!(ctx.subsystem_started(Capability::MessageBus, true), SubsystemState::Failed);
    assert_eq!(ctx.subsystem_started(Capability::Rpc, true), SubsystemState::Absent);
    assert!(ctx.is_available(Capability::CacheReader));
    assert!(!ctx.is_available(Capability::MessageBus));
    assert!(!ctx.is_available(Capability::Rpc));
    assert_eq!(ctx.phase(), RuntimePhase::Started);
}

#[test]
fn subscription_queue_names() {
    let ctx = context(&[Capability::MessageBus]);
    assert_eq!(ctx.register_sb_subscribe(), Ok("orders".to_string()));
    assert_eq!(ctx.register_sb_subscriber_with_suffix("-audit"), Ok("orders-audit".to_string()));
    assert_eq!(ctx.register_sb_subscriber_with_suffix(""), Ok("orders".to_string()));
    let without = context(&[Capability::CacheReader]);
    assert_eq!(
        without.register_sb_subscribe(),
        Err(LifecycleError::Unavailable(Capability::MessageBus))
    );
    assert_eq!(
        without.register_sb_subscriber_with_suffix("x"),
        Err(LifecycleError::Unavailable(Capability::MessageBus))
    );
}

#[test]
fn aborted_construction_never_starts() {
    let mut ctx = context(&[Capability::MessageBus]);
    ctx.abort_construction();
    assert_eq!(ctx.phase(), RuntimePhase::Stopped);
    assert!(matches!(ctx.start_application(false, None), Err(LifecycleError::Stopped)));
    assert_eq!(
        ctx.register_timer(Duration::from_secs(1), "t".to_string(), 1),
        Err(LifecycleError::Stopped)
    );
    let mut started = context(&[]);
    started.start_application(false, None).ok().unwrap();
    started.abort_construction();
    assert_eq!(started.phase(), RuntimePhase::Started);
}

#[test]
fn shutdown_before_start_is_remembered() {
    let mut ctx = context(&[]);
    ctx.request_shutdown();
    assert_eq!(ctx.phase(), RuntimePhase::Created);
    ctx.shutdown_observed();
    assert_eq!(ctx.phase(), RuntimePhase::Created);
    ctx.start_application(false, None).ok().unwrap();
    assert_eq!(ctx.phase(), RuntimePhase::Started);
    assert!(!ctx.app_states().wait_until_shutdown());
}

#[test]
fn configuring_the_rpc_listener_again_starts_afresh() {
    let mut ctx = context(&[Capability::Rpc]);
    ctx.configure_grpc_server().ok().unwrap().add_grpc_service("first").unwrap();
    ctx.configure_grpc_server().ok().unwrap().add_grpc_service("second").unwrap();
    let plan = ctx.start_application(false, None).ok().unwrap();
    assert_eq!(describe(&plan)[3], "grpc:second:8888");
}

#[test]
fn setup_http_replaces_the_builder() {
    let mut ctx = context(&[]);
    {
        let http = ctx.configure_http_server().ok().unwrap();
        http.add_middleware("gone").unwrap();
        http.update_listen_endpoint(IpAddress::V4(127, 0, 0, 1), 9000).unwrap();
    }
    assert_eq!(ctx.setup_http(Some(5), Some(6)), Ok(()));
    ctx.configure_http_server().ok().unwrap().add_middleware("kept").unwrap();
    let plan = ctx.start_application(false, None).ok().unwrap();
    match &plan[1] {
        StartupStep::StartHttp { server, .. } => {
            assert_eq!(
                server.listen_address,
                ListenEndpoint { ip: IpAddress::V4(127, 0, 0, 1), port: 8000 }
            );
            assert_eq!(server.chain.len(), 5);
            match &server.chain[3] {
                ChainEntry::Controllers(c) => {
                    assert_eq!(c.authorization, Some(5));
                    assert_eq!(c.auth_error_factory, Some(6));
                }
                _ => panic!("controllers expected"),
            }
            assert!(matches!(server.chain[4], ChainEntry::Custom("kept")));
        }
        _ => panic!("the HTTP listener was expected"),
    }
    assert_eq!(ctx.setup_http(None, None), Err(LifecycleError::AlreadyStarted));
}

#[test]
fn construction_is_refused_for_an_incomplete_provider() {
    let settings = ServiceIdentity { name: "orders".to_string(), version: "2.0".to_string() };
    let enabled = CapabilitySet::from_list(&vec![Capability::MessageBus]);
    let universal = vec![
        SettingsTrait::ServiceInfo,
        SettingsTrait::MyTelemetrySettings,
        SettingsTrait::SeqSettings,
    ];
    let refused = ServiceContext::<Parts>::try_new(&settings, enabled, &universal);
    assert!(matches!(
        refused,
        Err(ConstructionError::MissingInterface(SettingsTrait::MyServiceBusSettings))
    ));
    let mut complete = universal.clone();
    complete.push(SettingsTrait::MyServiceBusSettings);
    let ctx = ServiceContext::<Parts>::try_new(&settings, enabled, &complete).ok().unwrap();
    assert_eq!(ctx.phase(), RuntimePhase::Created);
    assert_eq!(ctx.subsystem_state(Capability::MessageBus), SubsystemState::Constructed);
    assert!(ServiceContext::<Parts>::try_new(&settings, CapabilitySet::empty(), &universal).is_ok());
    assert!(matches!(
        ServiceContext::<Parts>::try_new(&settings, CapabilitySet::empty(), &Vec::new()),
        Err(ConstructionError::MissingInterface(SettingsTrait::ServiceInfo))
    ));
}

#[test]
fn start_is_planned_for_numbered_collaborators() {
    let mut ctx: ServiceContext<Numbered> = ServiceContext::with_identity(
        "orders".to_string(),
        "2.0".to_string(),
        CapabilitySet::from_list(&vec![Capability::CacheWriter]),
    );
    ctx.configure_http_server().ok().unwrap().add_middleware(11).unwrap();
    ctx.configure_http_server().ok().unwrap().add_middleware(12).unwrap();
    ctx.register_timer(Duration::from_secs(3), "tick".to_string(), 7).unwrap();
    let plan = ctx.start_application(false, None).ok().unwrap();
    assert_eq!(plan.len(), 5);
    assert!(matches!(plan[0], StartupStep::MarkRunning));
    assert!(matches!(&plan[1], StartupStep::StartTimer(t) if t.callback == 7 && t.name == "tick"));
    assert!(matches!(plan[2], StartupStep::StartSubsystem(Capability::CacheWriter)));
    match &plan[3] {
        StartupStep::StartHttp { server, http2 } => {
            assert!(!http2);
            assert!(matches!(server.chain[2], ChainEntry::Custom(11)));
            assert!(matches!(server.chain[3], ChainEntry::Custom(12)));
        }
        _ => panic!("the HTTP listener was expected"),
    }
    assert!(matches!(plan[4], StartupStep::AwaitShutdown));
}
