//! The service runtime.

use crate::builders::consts::{ListenEndpoint, DEFAULT_HTTP_PORT};
use crate::builders::grpc_server_builder::{
    grpc_address, GrpcServerBuilder, GrpcServerBuilderView, GrpcServing,
};
use crate::builders::http_server_builder::{
    chain_of, consumed_builder, fresh_http_builder, BuilderError, ControllersView, HttpServer,
    HttpServerBuilder, HttpServerBuilderView, HttpServerView,
};
use crate::capability::{all_capabilities, Capability, CapabilitySet, CAPABILITY_COUNT};
use crate::collaborators::Collaborators;
use crate::service_context::app_states::{AppStates, LifecyclePhase};
use crate::service_info::{optional_text, ServiceInfo};
use crate::settings::catalogue::{SettingsMethod, SettingsTrait};
use crate::settings::contract::{contract_methods, first_missing, required_methods};
use crate::settings::synthesis::generate_settings_signature;
use std::time::Duration;
use vstd::prelude::*;
use vstd::string::*;

verus! {

/// Where the runtime stands.
#[derive(Clone, Copy, PartialEq, Eq, Debug, Structural)]
pub enum RuntimePhase {
    /// Constructed; nothing was registered yet.
    Created,
    /// Something was registered; more may follow.
    Configuring,
    /// The service was started.
    Started,
    /// The service was asked to stop.
    ShuttingDown,
    /// The wait for the shutdown returned, or construction was given up.
    Stopped,
}

/// Why the runtime refused a call.
#[derive(Clone, Copy, PartialEq, Eq, Debug, Structural)]
pub enum LifecycleError {
    /// The service was started before: it starts once, and takes no
    /// registration afterwards.
    AlreadyStarted,
    /// The service has stopped.
    Stopped,
    /// The builder of the HTTP listener refused.
    Http(BuilderError),
    /// The builder of the RPC listener refused.
    Grpc(BuilderError),
    /// The build does not enable the capability, or the start of its
    /// client failed.
    Unavailable(Capability),
}

/// Why a service could not be constructed. Such a failure is fatal: there
/// is no runtime, and nothing starts.
#[derive(Clone, Copy, PartialEq, Eq, Debug, Structural)]
pub enum ConstructionError {
    /// The settings provider lacks an interface that the contract of the
    /// build asks for.
    MissingInterface(SettingsTrait),
}

/// The state of the subsystem of one capability.
#[derive(Clone, Copy, PartialEq, Eq, Debug, Structural)]
pub enum SubsystemState {
    /// The build does not enable the capability.
    Absent,
    /// The client was constructed and waits to be started.
    Constructed,
    /// The client was started.
    Running,
    /// The start of the client failed; the subsystem is out of use.
    Failed,
}

/// A background job: what to call, under which name, and how often.
pub struct BackgroundTimer<C: Collaborators> {
    pub interval: Duration,
    pub name: String,
    pub callback: C::TimerCallback,
}

/// One step of the construction of a service.
#[derive(Clone, Copy, PartialEq, Eq, Debug, Structural)]
pub enum ConstructionStep {
    /// Install the recorder that exports the metrics.
    InstallMetricsRecorder,
    /// Tell the log sink the name and version of the service.
    PopulateLogIdentity,
    /// Enable the remote log sink, if the settings configure one.
    EnableRemoteLogSink,
    /// Construct, and not start, the client of a capability.
    ConstructSubsystem(Capability),
}

/// One step of the start of a service.
pub enum StartupStep<C: Collaborators> {
    /// Mark the lifecycle signal as running.
    MarkRunning,
    /// Start the loop of a background job.
    StartTimer(BackgroundTimer<C>),
    /// Start the client of a capability. A failure is logged under the
    /// name of the capability and reported back; the start goes on.
    StartSubsystem(Capability),
    /// Start the HTTP listener.
    StartHttp { server: HttpServer<C>, http2: bool },
    /// Start the accept loop of the RPC listener.
    StartGrpc(GrpcServing<C::RpcRouter>),
    /// Block until the lifecycle signal asks to stop.
    AwaitShutdown,
}

/// A step of a start as contracts speak of it.
pub enum StartupStepView<C: Collaborators> {
    MarkRunning,
    StartTimer(BackgroundTimer<C>),
    StartSubsystem(Capability),
    StartHttp { server: HttpServerView<C>, http2: bool },
    StartGrpc { service: C::RpcRouter, listen_address: ListenEndpoint },
    AwaitShutdown,
}

impl<C: Collaborators> View for StartupStep<C> {
    type V = StartupStepView<C>;

    open spec fn view(&self) -> StartupStepView<C> {
        match self {
            StartupStep::MarkRunning => StartupStepView::MarkRunning,
            StartupStep::StartTimer(timer) => StartupStepView::StartTimer(*timer),
            StartupStep::StartSubsystem(c) => StartupStepView::StartSubsystem(*c),
            StartupStep::StartHttp { server, http2 } => StartupStepView::StartHttp {
                server: server@,
                http2: *http2,
            },
            StartupStep::StartGrpc(serving) => StartupStepView::StartGrpc {
                service: serving.service.service(),
                listen_address: serving.listen_address,
            },
            StartupStep::AwaitShutdown => StartupStepView::AwaitShutdown,
        }
    }
}

/// The views of the steps of a start.
pub open spec fn step_views<C: Collaborators>(steps: Seq<StartupStep<C>>) -> Seq<
    StartupStepView<C>,
> {
    steps.map_values(|s: StartupStep<C>| s@)
}

/// The runtime of a service.
pub struct ServiceContext<C: Collaborators> {
    http_server_builder: HttpServerBuilder<C>,
    app_states: AppStates,
    app_name: String,
    app_version: String,
    background_timers: Vec<BackgroundTimer<C>>,
    capabilities: CapabilitySet,
    subsystems: Vec<SubsystemState>,
    grpc_server_builder: Option<GrpcServerBuilder<C::RpcRouter>>,
    phase: RuntimePhase,
}

/// The runtime of a service as contracts speak of it.
pub struct ServiceContextView<C: Collaborators> {
    pub http_server_builder: HttpServerBuilderView<C>,
    pub signal: LifecyclePhase,
    pub app_name: Seq<char>,
    pub app_version: Seq<char>,
    /// The background jobs, first registered first.
    pub background_timers: Seq<BackgroundTimer<C>>,
    pub capabilities: CapabilitySet,
    /// The state of the subsystem of each capability, in canonical order.
    pub subsystems: Seq<SubsystemState>,
    /// The builder of the RPC listener, once one was configured.
    pub grpc_server_builder: Option<GrpcServerBuilderView<C::RpcRouter>>,
    pub phase: RuntimePhase,
}

/// The view of an optional builder of the RPC listener.
pub open spec fn grpc_builder_view<R>(builder: Option<GrpcServerBuilder<R>>) -> Option<
    GrpcServerBuilderView<R>,
> {
    match builder {
        Some(b) => Some(b@),
        None => None,
    }
}

impl<C: Collaborators> View for ServiceContext<C> {
    type V = ServiceContextView<C>;

    closed spec fn view(&self) -> ServiceContextView<C> {
        ServiceContextView {
            http_server_builder: self.http_server_builder@,
            signal: self.app_states.phase(),
            app_name: self.app_name@,
            app_version: self.app_version@,
            background_timers: self.background_timers@,
            capabilities: self.capabilities,
            subsystems: self.subsystems@,
            grpc_server_builder: grpc_builder_view(self.grpc_server_builder),
            phase: self.phase,
        }
    }
}

impl SubsystemState {
    /// Whether the subsystem can be used: it was constructed, and its
    /// start did not fail.
    pub open spec fn spec_is_usable(self) -> bool {
        self == SubsystemState::Constructed || self == SubsystemState::Running
    }

    /// Whether the subsystem can be used.
    pub fn is_usable(self) -> (b: bool)
        ensures
            b == self.spec_is_usable(),
    {
        match self {
            SubsystemState::Constructed => true,
            SubsystemState::Running => true,
            _ => false,
        }
    }
}

impl RuntimePhase {
    /// Whether registrations are still taken and the service can start.
    pub open spec fn spec_accepts_registration(self) -> bool {
        self == RuntimePhase::Created || self == RuntimePhase::Configuring
    }

    /// Whether registrations are still taken and the service can start.
    pub fn accepts_registration(self) -> (b: bool)
        ensures
            b == self.spec_accepts_registration(),
    {
        match self {
            RuntimePhase::Created => true,
            RuntimePhase::Configuring => true,
            _ => false,
        }
    }

    /// Why a runtime in this phase refuses a registration or a start, if
    /// it does.
    pub open spec fn spec_refusal(self) -> Option<LifecycleError> {
        match self {
            RuntimePhase::Created => None,
            RuntimePhase::Configuring => None,
            RuntimePhase::Started => Some(LifecycleError::AlreadyStarted),
            RuntimePhase::ShuttingDown => Some(LifecycleError::AlreadyStarted),
            RuntimePhase::Stopped => Some(LifecycleError::Stopped),
        }
    }

    /// Why a runtime in this phase refuses a registration or a start, if
    /// it does.
    pub fn refusal(self) -> (e: Option<LifecycleError>)
        ensures
            e == self.spec_refusal(),
            e is None <==> self.spec_accepts_registration(),
    {
        match self {
            RuntimePhase::Created => None,
            RuntimePhase::Configuring => None,
            RuntimePhase::Started => Some(LifecycleError::AlreadyStarted),
            RuntimePhase::ShuttingDown => Some(LifecycleError::AlreadyStarted),
            RuntimePhase::Stopped => Some(LifecycleError::Stopped),
        }
    }
}

/// The state in which the subsystem of each capability is constructed:
/// constructed where the build enables the capability, absent elsewhere.
pub open spec fn constructed_subsystems(enabled: CapabilitySet) -> Seq<SubsystemState> {
    Seq::new(
        CAPABILITY_COUNT as nat,
        |i: int|
            if enabled.has(all_capabilities()[i]) {
                SubsystemState::Constructed
            } else {
                SubsystemState::Absent
            },
    )
}

/// Whether `subsystems` gives a state for every capability, and the
/// state of an absent subsystem exactly for the capabilities that
/// `enabled` leaves out.
pub open spec fn subsystems_match(subsystems: Seq<SubsystemState>, enabled: CapabilitySet) -> bool {
    &&& subsystems.len() == CAPABILITY_COUNT
    &&& forall|c: Capability|
        (#[trigger] subsystems[c.spec_index()] == SubsystemState::Absent) == !enabled.has(c)
}

/// The enabled capabilities among the first `n` of the canonical order,
/// in that order.
pub open spec fn enabled_upto(enabled: CapabilitySet, n: nat) -> Seq<Capability>
    decreases n,
{
    if n == 0 {
        Seq::empty()
    } else if enabled.has(all_capabilities()[n - 1]) {
        enabled_upto(enabled, (n - 1) as nat).push(all_capabilities()[n - 1])
    } else {
        enabled_upto(enabled, (n - 1) as nat)
    }
}

/// The enabled capabilities in canonical order.
pub open spec fn enabled_list(enabled: CapabilitySet) -> Seq<Capability> {
    enabled_upto(enabled, CAPABILITY_COUNT as nat)
}

/// The steps of the construction of a service: the recorder of the
/// metrics, the identity and the remote sink of the log, then the client
/// of every enabled capability in canonical order.
pub open spec fn construction_plan(enabled: CapabilitySet) -> Seq<ConstructionStep> {
    seq![
        ConstructionStep::InstallMetricsRecorder,
        ConstructionStep::PopulateLogIdentity,
        ConstructionStep::EnableRemoteLogSink,
    ] + construct_all(enabled_list(enabled))
}

/// The construction of the client of each of `capabilities`.
pub open spec fn construct_all(capabilities: Seq<Capability>) -> Seq<ConstructionStep> {
    capabilities.map_values(|c: Capability| ConstructionStep::ConstructSubsystem(c))
}

/// The runtime as it is constructed for a service of the given name and
/// version with the given capabilities.
pub open spec fn created_context<C: Collaborators>(
    app_name: Seq<char>,
    app_version: Seq<char>,
    enabled: CapabilitySet,
) -> ServiceContextView<C> {
    ServiceContextView {
        http_server_builder: fresh_http_builder::<C>(app_name, app_version),
        signal: LifecyclePhase::Uninitialized,
        app_name,
        app_version,
        background_timers: Seq::empty(),
        capabilities: enabled,
        subsystems: constructed_subsystems(enabled),
        grpc_server_builder: None,
        phase: RuntimePhase::Created,
    }
}

/// A runtime that took a registration.
pub open spec fn configuring<C: Collaborators>(ctx: ServiceContextView<C>) -> ServiceContextView<C> {
    ServiceContextView { phase: RuntimePhase::Configuring, ..ctx }
}

impl<C: Collaborators> ServiceContext<C> {
    /// Constructs the runtime of the service that `settings` describes,
    /// with the capabilities of the build. Whatever name and version the
    /// settings report, the runtime is the one that `with_identity` gives
    /// for them.
    pub fn new<S: ServiceInfo>(settings: &S, enabled: CapabilitySet) -> (ctx: Self)
        ensures
            ctx.wf(),
            ctx@ == created_context::<C>(ctx@.app_name, ctx@.app_version, enabled),
    {
        let app_name = settings.get_service_name();
        let app_version = settings.get_service_version();
        Self::with_identity(app_name, app_version, enabled)
    }

    /// Constructs the runtime of the service that `settings` describes,
    /// after holding the provider to the contract of the build.
    /// `provided` names the interfaces that the provider implements. Where
    /// the provider lacks the interface of a required method, the first
    /// such interface is reported and no runtime comes into being.
    pub fn try_new<S: ServiceInfo>(
        settings: &S,
        enabled: CapabilitySet,
        provided: &Vec<SettingsTrait>,
    ) -> (r: Result<Self, ConstructionError>)
        ensures
            match first_missing(contract_methods(enabled), provided@) {
                Some(t) => r matches Err(e) && e == ConstructionError::MissingInterface(t),
                None => r matches Ok(ctx) && ctx.wf() && ctx@ == created_context::<C>(
                    ctx@.app_name,
                    ctx@.app_version,
                    enabled,
                ),
            },
            r is Ok <==> forall|m: SettingsMethod|
                required_methods(enabled@).contains(m) ==> provided@.contains(#[trigger] m.owner),
    {
        let contract = generate_settings_signature(&enabled);
        match contract.first_unsatisfied(provided) {
            Some(t) => Err(ConstructionError::MissingInterface(t)),
            None => Ok(Self::new(settings, enabled)),
        }
    }

    /// Constructs the runtime of a service of the given name and version
    /// with the capabilities of the build: nothing is registered, nothing
    /// runs, the HTTP builder is fresh, and the subsystem of every enabled
    /// capability counts as constructed.
    pub fn with_identity(app_name: String, app_version: String, enabled: CapabilitySet) -> (ctx:
        Self)
        ensures
            ctx.wf(),
            ctx@ == created_context::<C>(app_name@, app_version@, enabled),
    {
        let mut subsystems: Vec<SubsystemState> = Vec::new();
        let mut i: usize = 0;
        while i < CAPABILITY_COUNT
            invariant
                i <= CAPABILITY_COUNT,
                subsystems@.len() == i,
                forall|k: int|
                    0 <= k < i ==> subsystems@[k] == constructed_subsystems(enabled)[k],
            decreases CAPABILITY_COUNT - i,
        {
            let c = Capability::from_index(i).unwrap();
            if enabled.contains(c) {
                subsystems.push(SubsystemState::Constructed);
            } else {
                subsystems.push(SubsystemState::Absent);
            }
            i += 1;
        }
        assert(subsystems@ =~= constructed_subsystems(enabled));
        assert forall|c: Capability|
            (#[trigger] subsystems@[c.spec_index()] == SubsystemState::Absent) == !enabled.has(
                c,
            ) by {
            assert(all_capabilities()[c.spec_index()] == c);
        }
        ServiceContext {
            http_server_builder: HttpServerBuilder::new(app_name.clone(), app_version.clone()),
            app_states: AppStates::create_un_initialized(),
            app_name,
            app_version,
            background_timers: Vec::new(),
            capabilities: enabled,
            subsystems,
            grpc_server_builder: None,
            phase: RuntimePhase::Created,
        }
    }

    /// A runtime knows the state of the subsystem of every capability,
    /// and holds a subsystem for a capability exactly where the build
    /// enables that capability.
    pub closed spec fn wf(&self) -> bool {
        subsystems_match(self.subsystems@, self.capabilities)
    }

    /// The steps by which the service is constructed.
    pub fn construction_steps(&self) -> (steps: Vec<ConstructionStep>)
        ensures
            steps@ == construction_plan(self@.capabilities),
    {
        let mut steps: Vec<ConstructionStep> = Vec::new();
        steps.push(ConstructionStep::InstallMetricsRecorder);
        steps.push(ConstructionStep::PopulateLogIdentity);
        steps.push(ConstructionStep::EnableRemoteLogSink);
        let ghost fixed = steps@;
        assert(steps@ =~= fixed + construct_all(enabled_upto(self.capabilities, 0)));
        let mut i: usize = 0;
        while i < CAPABILITY_COUNT
            invariant
                i <= CAPABILITY_COUNT,
                steps@ == fixed + construct_all(enabled_upto(self.capabilities, i as nat)),
            decreases CAPABILITY_COUNT - i,
        {
            let c = Capability::from_index(i).unwrap();
            if self.capabilities.contains(c) {
                steps.push(ConstructionStep::ConstructSubsystem(c));
                proof {
                    let before = enabled_upto(self.capabilities, i as nat);
                    assert(enabled_upto(self.capabilities, (i + 1) as nat) == before.push(c));
                    assert(construct_all(before.push(c)) =~= construct_all(before).push(
                        ConstructionStep::ConstructSubsystem(c),
                    ));
                    assert(steps@ =~= fixed + construct_all(before.push(c)));
                }
            }
            i += 1;
        }
        assert(steps@ =~= construction_plan(self@.capabilities));
        steps
    }

    /// Where the runtime stands.
    pub fn phase(&self) -> (phase: RuntimePhase)
        ensures
            phase == self@.phase,
    {
        self.phase
    }

    /// The lifecycle signal.
    pub fn app_states(&self) -> (signal: AppStates)
        ensures
            signal.phase() == self@.signal,
    {
        self.app_states
    }

    /// The capabilities of the build.
    pub fn capabilities(&self) -> (enabled: CapabilitySet)
        ensures
            enabled == self@.capabilities,
    {
        self.capabilities
    }

    /// The name of the service.
    pub fn app_name(&self) -> (name: &String)
        ensures
            name@ == self@.app_name,
    {
        &self.app_name
    }

    /// The version of the service.
    pub fn app_version(&self) -> (version: &String)
        ensures
            version@ == self@.app_version,
    {
        &self.app_version
    }

    /// Number of background jobs that wait to be started.
    pub fn timer_count(&self) -> (n: usize)
        ensures
            n == self@.background_timers.len(),
    {
        self.background_timers.len()
    }

    /// The state of the subsystem of a capability. There is a subsystem
    /// exactly where the build enables the capability.
    pub fn subsystem_state(&self, capability: Capability) -> (state: SubsystemState)
        requires
            self.wf(),
        ensures
            state == self@.subsystems[capability.spec_index()],
            subsystems_match(self@.subsystems, self@.capabilities),
            (state == SubsystemState::Absent) == !self@.capabilities.has(capability),
    {
        self.subsystems[capability.index()]
    }

    /// Registers a background job behind those that were registered
    /// before. A runtime that was started or has stopped refuses, and
    /// stays as it is.
    pub fn register_timer(
        &mut self,
        interval: Duration,
        name: String,
        callback: C::TimerCallback,
    ) -> (r: Result<(), LifecycleError>)
        ensures
            final(self).wf() == old(self).wf(),
            match old(self)@.phase.spec_refusal() {
                Some(e) => r == Err::<(), LifecycleError>(e) && final(self)@ == old(self)@,
                None => r is Ok && final(self)@ == (ServiceContextView {
                    background_timers: old(self)@.background_timers.push(
                        BackgroundTimer { interval, name, callback },
                    ),
                    phase: RuntimePhase::Configuring,
                    ..old(self)@
                }),
            },
    {
        match self.phase.refusal() {
            Some(e) => Err(e),
            None => {
                self.background_timers.push(BackgroundTimer { interval, name, callback });
                self.phase = RuntimePhase::Configuring;
                Ok(())
            },
        }
    }

    /// Hands out the builder of the HTTP listener for registrations. A
    /// runtime that was started or has stopped refuses.
    pub fn configure_http_server(&mut self) -> (r: Result<
        &mut HttpServerBuilder<C>,
        LifecycleError,
    >)
        ensures
            final(self).wf() == old(self).wf(),
            match old(self)@.phase.spec_refusal() {
                Some(e) => r matches Err(f) && f == e && final(self)@ == old(self)@,
                None => r matches Ok(builder) && builder@ == old(self)@.http_server_builder
                    && final(self)@ == (ServiceContextView {
                    http_server_builder: final(builder)@,
                    phase: RuntimePhase::Configuring,
                    ..old(self)@
                }),
            },
    {
        match self.phase.refusal() {
            Some(e) => Err(e),
            None => {
                self.phase = RuntimePhase::Configuring;
                Ok(&mut self.http_server_builder)
            },
        }
    }

    /// Puts a fresh builder of the HTTP listener, whose handlers authorize
    /// as given, in place of the one that there was; what was registered
    /// with that one is gone. The new builder binds the address of the
    /// old one. A runtime that was started or has stopped refuses.
    pub fn setup_http(
        &mut self,
        authorization: Option<C::Authorization>,
        auth_error_factory: Option<C::AuthErrorFactory>,
    ) -> (r: Result<(), LifecycleError>)
        ensures
            final(self).wf() == old(self).wf(),
            match old(self)@.phase.spec_refusal() {
                Some(e) => r == Err::<(), LifecycleError>(e) && final(self)@ == old(self)@,
                None => r is Ok && final(self)@ == (ServiceContextView {
                    http_server_builder: HttpServerBuilderView {
                        listen_address: ListenEndpoint {
                            ip: old(self)@.http_server_builder.listen_address.ip,
                            port: DEFAULT_HTTP_PORT,
                        },
                        controllers: Some(
                            ControllersView {
                                authorization,
                                auth_error_factory,
                                routes: Seq::empty(),
                            },
                        ),
                        ..fresh_http_builder::<C>(old(self)@.app_name, old(self)@.app_version)
                    },
                    phase: RuntimePhase::Configuring,
                    ..old(self)@
                }),
            },
    {
        match self.phase.refusal() {
            Some(e) => Err(e),
            None => {
                let ip = self.http_server_builder.listen_address().ip;
                self.http_server_builder = HttpServerBuilder::with_controllers(
                    self.app_name.clone(),
                    self.app_version.clone(),
                    authorization,
                    auth_error_factory,
                    ip,
                );
                self.phase = RuntimePhase::Configuring;
                Ok(())
            },
        }
    }

    /// Puts a fresh builder of the RPC listener in place of the one that
    /// there was, if there was one, and hands it out for registrations. A
    /// runtime that was started or has stopped refuses.
    pub fn configure_grpc_server(&mut self) -> (r: Result<
        &mut GrpcServerBuilder<C::RpcRouter>,
        LifecycleError,
    >)
        ensures
            final(self).wf() == old(self).wf(),
            match old(self)@.phase.spec_refusal() {
                Some(e) => r matches Err(f) && f == e && final(self)@ == old(self)@,
                None => r matches Ok(builder) && builder@ == (GrpcServerBuilderView::<
                    C::RpcRouter,
                > { service: None, listen_address: None, consumed: false }) && final(self)@ == (
                ServiceContextView {
                    grpc_server_builder: Some(final(builder)@),
                    phase: RuntimePhase::Configuring,
                    ..old(self)@
                }),
            },
    {
        match self.phase.refusal() {
            Some(e) => Err(e),
            None => {
                self.phase = RuntimePhase::Configuring;
                self.grpc_server_builder = Some(GrpcServerBuilder::new());
                Ok(self.grpc_server_builder.as_mut().unwrap())
            },
        }
    }
}

/// The start of each of `timers`.
pub open spec fn start_timers<C: Collaborators>(timers: Seq<BackgroundTimer<C>>) -> Seq<
    StartupStepView<C>,
> {
    timers.map_values(|t: BackgroundTimer<C>| StartupStepView::StartTimer(t))
}

/// The start of the client of each of `capabilities`.
pub open spec fn start_subsystems<C: Collaborators>(capabilities: Seq<Capability>) -> Seq<
    StartupStepView<C>,
> {
    capabilities.map_values(|c: Capability| StartupStepView::StartSubsystem(c))
}

/// The start of the RPC listener, where a builder was configured.
pub open spec fn start_grpc<C: Collaborators>(
    builder: Option<GrpcServerBuilderView<C::RpcRouter>>,
    configured: Option<Seq<char>>,
) -> Seq<StartupStepView<C>> {
    match builder {
        Some(b) => seq![
            StartupStepView::StartGrpc {
                service: b.service->Some_0,
                listen_address: grpc_address(b.listen_address, configured),
            },
        ],
        None => Seq::empty(),
    }
}

/// The steps of a start, in the order in which they are to be taken:
/// mark the signal as running; start every background job in the order
/// of registration; start the client of every enabled capability in
/// canonical order; start the HTTP listener as its builder builds it;
/// start the RPC listener if one was configured; wait for the shutdown.
pub open spec fn startup_plan<C: Collaborators>(
    ctx: ServiceContextView<C>,
    http2: bool,
    configured_grpc_port: Option<Seq<char>>,
) -> Seq<StartupStepView<C>> {
    seq![StartupStepView::MarkRunning] + start_timers(ctx.background_timers) + start_subsystems(
        enabled_list(ctx.capabilities),
    ) + seq![
        StartupStepView::StartHttp {
            server: HttpServerView {
                listen_address: ctx.http_server_builder.listen_address,
                chain: chain_of(ctx.http_server_builder),
            },
            http2,
        },
    ] + start_grpc(ctx.grpc_server_builder, configured_grpc_port) + seq![
        StartupStepView::AwaitShutdown,
    ]
}

/// Why a start is refused, if it is: the runtime was started or has
/// stopped, or one of its builders was built behind its back, or the
/// builder of the RPC listener holds no service.
pub open spec fn start_refusal<C: Collaborators>(ctx: ServiceContextView<C>) -> Option<
    LifecycleError,
> {
    if ctx.phase.spec_refusal() is Some {
        ctx.phase.spec_refusal()
    } else if ctx.http_server_builder.consumed {
        Some(LifecycleError::Http(BuilderError::Consumed))
    } else {
        match ctx.grpc_server_builder {
            Some(b) => if b.consumed {
                Some(LifecycleError::Grpc(BuilderError::Consumed))
            } else if b.service is None {
                Some(LifecycleError::Grpc(BuilderError::NoService))
            } else {
                None
            },
            None => None,
        }
    }
}

/// The runtime after a start: the signal is marked as running, the
/// builders are used up, the background jobs are handed over.
pub open spec fn started<C: Collaborators>(ctx: ServiceContextView<C>) -> ServiceContextView<C> {
    ServiceContextView {
        http_server_builder: consumed_builder(ctx.http_server_builder),
        signal: ctx.signal.marked_running(),
        background_timers: Seq::empty(),
        grpc_server_builder: None,
        phase: RuntimePhase::Started,
        ..ctx
    }
}

/// What a start returned, as contracts speak of it.
pub open spec fn plan_view<C: Collaborators>(
    r: Result<Vec<StartupStep<C>>, LifecycleError>,
) -> Result<Seq<StartupStepView<C>>, LifecycleError> {
    match r {
        Ok(plan) => Ok(step_views(plan@)),
        Err(e) => Err(e),
    }
}

/// What a start makes of a runtime: its plan, or its refusal.
pub open spec fn start_result<C: Collaborators>(
    ctx: ServiceContextView<C>,
    http2: bool,
    configured_grpc_port: Option<Seq<char>>,
) -> Result<Seq<StartupStepView<C>>, LifecycleError> {
    match start_refusal(ctx) {
        Some(e) => Err(e),
        None => Ok(startup_plan(ctx, http2, configured_grpc_port)),
    }
}

/// What a start leaves of a runtime: a runtime that refused stays as it is.
pub open spec fn after_start<C: Collaborators>(ctx: ServiceContextView<C>) -> ServiceContextView<
    C,
> {
    if start_refusal(ctx) is Some {
        ctx
    } else {
        started(ctx)
    }
}

fn push_timers<C: Collaborators>(
    plan: &mut Vec<StartupStep<C>>,
    timers: Vec<BackgroundTimer<C>>,
)
    ensures
        step_views(final(plan)@) == step_views(old(plan)@) + start_timers(timers@),
{
    let mut rest = timers;
    let ghost all = rest@;
    let ghost fixed = step_views(plan@);
    assert(step_views(plan@) =~= fixed + start_timers::<C>(all.take(0)));
    while rest.len() > 0
        invariant
            rest@.len() <= all.len(),
            rest@ == all.skip(all.len() - rest@.len()),
            step_views(plan@) == fixed + start_timers::<C>(all.take(all.len() - rest@.len())),
        decreases rest.len(),
    {
        let ghost done = all.len() - rest@.len();
        let ghost before = step_views(plan@);
        let timer = rest.remove(0);
        plan.push(StartupStep::StartTimer(timer));
        proof {
            assert(timer == all[done]);
            assert(rest@ =~= all.skip(done + 1));
            assert(all.take(done + 1) =~= all.take(done).push(all[done]));
            assert(step_views(plan@) =~= before.push(StartupStepView::StartTimer(timer)));
            assert(step_views(plan@) =~= fixed + start_timers::<C>(all.take(done + 1)));
        }
    }
    assert(all.take(all.len() as int) =~= all);
}

fn push_subsystems<C: Collaborators>(plan: &mut Vec<StartupStep<C>>, enabled: &CapabilitySet)
    ensures
        step_views(final(plan)@) == step_views(old(plan)@) + start_subsystems::<C>(
            enabled_list(*enabled),
        ),
{
    let ghost fixed = step_views(plan@);
    assert(step_views(plan@) =~= fixed + start_subsystems::<C>(enabled_upto(*enabled, 0)));
    let mut i: usize = 0;
    while i < CAPABILITY_COUNT
        invariant
            i <= CAPABILITY_COUNT,
            step_views(plan@) == fixed + start_subsystems::<C>(enabled_upto(*enabled, i as nat)),
        decreases CAPABILITY_COUNT - i,
    {
        let c = Capability::from_index(i).unwrap();
        if enabled.contains(c) {
            let ghost before = step_views(plan@);
            plan.push(StartupStep::StartSubsystem(c));
            proof {
                let listed = enabled_upto(*enabled, i as nat);
                assert(enabled_upto(*enabled, (i + 1) as nat) == listed.push(c));
                assert(step_views(plan@) =~= before.push(StartupStepView::StartSubsystem(c)));
                assert(start_subsystems::<C>(listed.push(c)) =~= start_subsystems::<C>(listed).push(
                    StartupStepView::StartSubsystem(c),
                ));
                assert(step_views(plan@) =~= fixed + start_subsystems::<C>(listed.push(c)));
            }
        }
        i += 1;
    }
}

/// The state of a subsystem after the start of its client was reported:
/// a constructed subsystem of a started service runs if the start
/// succeeded and is out of use if it failed; any other report changes
/// nothing.
pub open spec fn subsystem_after_start(
    phase: RuntimePhase,
    current: SubsystemState,
    succeeded: bool,
) -> SubsystemState {
    if current == SubsystemState::Constructed && (phase == RuntimePhase::Started || phase
        == RuntimePhase::ShuttingDown) {
        if succeeded {
            SubsystemState::Running
        } else {
            SubsystemState::Failed
        }
    } else {
        current
    }
}

/// The phase after a request to stop: a started service shuts down; the
/// request changes no other phase.
pub open spec fn phase_after_shutdown_request(phase: RuntimePhase) -> RuntimePhase {
    match phase {
        RuntimePhase::Started => RuntimePhase::ShuttingDown,
        other => other,
    }
}

/// The phase after the wait for the shutdown returned: a service that
/// shuts down has stopped; the return changes no other phase.
pub open spec fn phase_after_wait(phase: RuntimePhase) -> RuntimePhase {
    match phase {
        RuntimePhase::ShuttingDown => RuntimePhase::Stopped,
        other => other,
    }
}

/// The phase after construction was given up: a service that was not
/// started has stopped; giving up changes no other phase.
pub open spec fn phase_after_abort(phase: RuntimePhase) -> RuntimePhase {
    match phase {
        RuntimePhase::Created => RuntimePhase::Stopped,
        RuntimePhase::Configuring => RuntimePhase::Stopped,
        other => other,
    }
}

impl<C: Collaborators> ServiceContext<C> {
    /// Starts the service: returns the steps to take, in order, and
    /// counts as started from then on. `http2` says whether the HTTP
    /// listener speaks HTTP/2; `configured_grpc_port` is the text that the
    /// environment configures as the port of the RPC listener, if any.
    ///
    /// A service starts once. A runtime that was started or has stopped,
    /// or whose builders cannot be built, refuses and stays as it is.
    pub fn start_application(&mut self, http2: bool, configured_grpc_port: Option<&str>) -> (r:
        Result<Vec<StartupStep<C>>, LifecycleError>)
        ensures
            final(self).wf() == old(self).wf(),
            plan_view(r) == start_result(old(self)@, http2, optional_text(configured_grpc_port)),
            final(self)@ == after_start(old(self)@),
    {
        match self.phase.refusal() {
            Some(e) => {
                return Err(e);
            },
            None => {},
        }
        if self.http_server_builder.is_consumed() {
            return Err(LifecycleError::Http(BuilderError::Consumed));
        }
        match &self.grpc_server_builder {
            Some(builder) => {
                if builder.is_consumed() {
                    return Err(LifecycleError::Grpc(BuilderError::Consumed));
                }
                if !builder.has_service() {
                    return Err(LifecycleError::Grpc(BuilderError::NoService));
                }
            },
            None => {},
        }
        let ghost before = self@;
        let ghost configured = optional_text(configured_grpc_port);
        self.app_states.set_initialized();
        let mut plan: Vec<StartupStep<C>> = Vec::new();
        plan.push(StartupStep::MarkRunning);
        assert(step_views(plan@) =~= seq![StartupStepView::<C>::MarkRunning]);
        let mut timers: Vec<BackgroundTimer<C>> = Vec::new();
        core::mem::swap(&mut self.background_timers, &mut timers);
        push_timers(&mut plan, timers);
        push_subsystems(&mut plan, &self.capabilities);
        let ghost upto_subsystems = step_views(plan@);
        match self.http_server_builder.build() {
            Ok(server) => {
                plan.push(StartupStep::StartHttp { server, http2 });
            },
            Err(e) => {
                return Err(LifecycleError::Http(e));
            },
        }
        let ghost upto_http = step_views(plan@);
        proof {
            assert(upto_http =~= upto_subsystems.push(
                StartupStepView::StartHttp {
                    server: HttpServerView {
                        listen_address: before.http_server_builder.listen_address,
                        chain: chain_of(before.http_server_builder),
                    },
                    http2,
                },
            ));
        }
        match self.grpc_server_builder.take() {
            Some(builder) => {
                let mut builder = builder;
                match builder.build(configured_grpc_port) {
                    Ok(built) => {
                        plan.push(StartupStep::StartGrpc(built.serving));
                    },
                    Err(e) => {
                        return Err(LifecycleError::Grpc(e));
                    },
                }
            },
            None => {},
        }
        let ghost upto_grpc = step_views(plan@);
        proof {
            assert(upto_grpc =~= upto_http + start_grpc::<C>(before.grpc_server_builder, configured));
        }
        plan.push(StartupStep::AwaitShutdown);
        self.phase = RuntimePhase::Started;
        proof {
            assert(step_views(plan@) =~= upto_grpc.push(StartupStepView::AwaitShutdown));
            assert(step_views(plan@) =~= startup_plan(before, http2, configured));
            assert(self@.background_timers =~= Seq::empty());
        }
        Ok(plan)
    }

    /// Takes note of how the start of the client of a capability went. A
    /// failure puts that one subsystem out of use and touches nothing else.
    pub fn subsystem_started(&mut self, capability: Capability, succeeded: bool) -> (state:
        SubsystemState)
        requires
            old(self).wf(),
        ensures
            final(self).wf(),
            state == subsystem_after_start(
                old(self)@.phase,
                old(self)@.subsystems[capability.spec_index()],
                succeeded,
            ),
            final(self)@ == (ServiceContextView {
                subsystems: old(self)@.subsystems.update(capability.spec_index(), state),
                ..old(self)@
            }),
    {
        let index = capability.index();
        let current = self.subsystems[index];
        let ghost before = self.subsystems@;
        let reportable = match self.phase {
            RuntimePhase::Started => true,
            RuntimePhase::ShuttingDown => true,
            _ => false,
        };
        let state = match current {
            SubsystemState::Constructed => if reportable {
                if succeeded {
                    SubsystemState::Running
                } else {
                    SubsystemState::Failed
                }
            } else {
                current
            },
            _ => current,
        };
        self.subsystems.set(index, state);
        proof {
            assert forall|c: Capability|
                (#[trigger] self.subsystems@[c.spec_index()] == SubsystemState::Absent)
                    == !self.capabilities.has(c) by {
                assert((before[c.spec_index()] == SubsystemState::Absent) == !self.capabilities.has(
                    c,
                ));
            }
        }
        state
    }

    /// Takes note that the service was asked to stop: the signal says so
    /// from now on, and a started service shuts down.
    pub fn request_shutdown(&mut self)
        ensures
            final(self).wf() == old(self).wf(),
            final(self)@ == (ServiceContextView {
                signal: LifecyclePhase::ShutdownRequested,
                phase: phase_after_shutdown_request(old(self)@.phase),
                ..old(self)@
            }),
    {
        self.app_states.set_shutting_down();
        match self.phase {
            RuntimePhase::Started => {
                self.phase = RuntimePhase::ShuttingDown;
            },
            _ => {},
        }
    }

    /// Takes note that the wait for the shutdown returned.
    pub fn shutdown_observed(&mut self)
        ensures
            final(self).wf() == old(self).wf(),
            final(self)@ == (ServiceContextView {
                phase: phase_after_wait(old(self)@.phase),
                ..old(self)@
            }),
    {
        match self.phase {
            RuntimePhase::ShuttingDown => {
                self.phase = RuntimePhase::Stopped;
            },
            _ => {},
        }
    }

    /// Gives up a service that cannot be constructed: it will never start.
    pub fn abort_construction(&mut self)
        ensures
            final(self).wf() == old(self).wf(),
            final(self)@ == (ServiceContextView {
                phase: phase_after_abort(old(self)@.phase),
                ..old(self)@
            }),
    {
        match self.phase {
            RuntimePhase::Created => {
                self.phase = RuntimePhase::Stopped;
            },
            RuntimePhase::Configuring => {
                self.phase = RuntimePhase::Stopped;
            },
            _ => {},
        }
    }
}

/// A service starts once: whatever the runtime held, a start that
/// follows a start is refused, and leaves the runtime as the first start
/// left it.
pub proof fn lemma_second_start_fails<C: Collaborators>(
    ctx: ServiceContextView<C>,
    http2: bool,
    first_port: Option<Seq<char>>,
    second_port: Option<Seq<char>>,
)
    ensures
        start_result(after_start(ctx), http2, second_port) is Err,
        after_start(after_start(ctx)) == after_start(ctx),
        start_result(ctx, http2, first_port) is Ok ==> start_result(
            after_start(ctx),
            http2,
            second_port,
        ) == Err::<Seq<StartupStepView<C>>, LifecycleError>(LifecycleError::AlreadyStarted),
{
}

/// A started service takes no registration: in every phase from the
/// start on, a background job and the builders are refused, and the HTTP
/// builder that the start used up refuses on its own.
pub proof fn lemma_no_registration_after_start<C: Collaborators>(ctx: ServiceContextView<C>)
    requires
        start_refusal(ctx) is None,
    ensures
        started(ctx).phase.spec_refusal() == Some(LifecycleError::AlreadyStarted),
        phase_after_shutdown_request(started(ctx).phase).spec_refusal() == Some(
            LifecycleError::AlreadyStarted,
        ),
        phase_after_wait(phase_after_shutdown_request(started(ctx).phase)).spec_refusal() is Some,
        started(ctx).http_server_builder.consumed,
        started(ctx).grpc_server_builder is None,
{
}

/// A start that fails in one subsystem leaves the others alone: the
/// report of one capability changes the state of that capability and of
/// no other.
pub proof fn lemma_failure_is_contained(
    subsystems: Seq<SubsystemState>,
    phase: RuntimePhase,
    failed: Capability,
    other: Capability,
)
    requires
        subsystems.len() == CAPABILITY_COUNT,
        failed != other,
    ensures
        subsystems.update(
            failed.spec_index(),
            subsystem_after_start(phase, subsystems[failed.spec_index()], false),
        )[other.spec_index()] == subsystems[other.spec_index()],
{
}

/// The name of the queue under which a service subscribes to a topic: its
/// own name, directly followed by the suffix.
pub open spec fn subscriber_queue_id(app_name: Seq<char>, suffix: Seq<char>) -> Seq<char> {
    app_name + suffix
}

impl<C: Collaborators> ServiceContext<C> {
    /// Whether the subsystem of a capability can be used.
    pub fn is_available(&self, capability: Capability) -> (b: bool)
        requires
            self.wf(),
        ensures
            b == self@.subsystems[capability.spec_index()].spec_is_usable(),
    {
        self.subsystem_state(capability).is_usable()
    }

    /// The queue under which the service subscribes to a topic of the
    /// message bus: its own name. Without a usable message bus there is
    /// no subscription.
    pub fn register_sb_subscribe(&self) -> (r: Result<String, LifecycleError>)
        requires
            self.wf(),
        ensures
            self@.subsystems[Capability::MessageBus.spec_index()].spec_is_usable() ==> (r matches Ok(
                queue_id,
            ) && queue_id@ == self@.app_name),
            !self@.subsystems[Capability::MessageBus.spec_index()].spec_is_usable() ==> (
            r matches Err(e) && e == LifecycleError::Unavailable(Capability::MessageBus)),
    {
        if self.is_available(Capability::MessageBus) {
            Ok(self.app_name.clone())
        } else {
            Err(LifecycleError::Unavailable(Capability::MessageBus))
        }
    }

    /// The queue under which the service subscribes to a topic of the
    /// message bus when it subscribes more than once: its own name,
    /// directly followed by `suffix`. Without a usable message bus there
    /// is no subscription.
    pub fn register_sb_subscriber_with_suffix(&self, suffix: &str) -> (r: Result<
        String,
        LifecycleError,
    >)
        requires
            self.wf(),
        ensures
            self@.subsystems[Capability::MessageBus.spec_index()].spec_is_usable() ==> (r matches Ok(
                queue_id,
            ) && queue_id@ == subscriber_queue_id(self@.app_name, suffix@)),
            !self@.subsystems[Capability::MessageBus.spec_index()].spec_is_usable() ==> (
            r matches Err(e) && e == LifecycleError::Unavailable(Capability::MessageBus)),
    {
        if self.is_available(Capability::MessageBus) {
            let mut queue_id = self.app_name.clone();
            queue_id.append(suffix);
            Ok(queue_id)
        } else {
            Err(LifecycleError::Unavailable(Capability::MessageBus))
        }
    }
}

impl RuntimePhase {
    /// How far the phase is into the life of a service.
    pub open spec fn rank(self) -> nat {
        match self {
            RuntimePhase::Created => 0,
            RuntimePhase::Configuring => 1,
            RuntimePhase::Started => 2,
            RuntimePhase::ShuttingDown => 3,
            RuntimePhase::Stopped => 4,
        }
    }
}

/// A runtime only moves forward: whatever happens to it, its phase is
/// afterwards the phase that it was, or a later one, and the lifecycle
/// signal never goes back either.
pub proof fn lemma_runtime_moves_forward<C: Collaborators>(ctx: ServiceContextView<C>)
    ensures
        ctx.phase.spec_accepts_registration() ==> ctx.phase.rank() <= configuring(ctx).phase.rank(),
        ctx.phase.rank() <= after_start(ctx).phase.rank(),
        ctx.phase.rank() <= phase_after_shutdown_request(ctx.phase).rank(),
        ctx.phase.rank() <= phase_after_wait(ctx.phase).rank(),
        ctx.phase.rank() <= phase_after_abort(ctx.phase).rank(),
        ctx.signal.leads_to(after_start(ctx).signal),
        ctx.signal.leads_to(LifecyclePhase::ShutdownRequested),
        ctx.signal.leads_to(ctx.signal.marked_running()),
{
}

/// A service that was started can only be started while it takes
/// registrations: a plan is handed out in the first two phases and in no
/// other, and it begins by marking the signal as running and ends with
/// the wait for the shutdown.
pub proof fn lemma_plan_frames_the_start<C: Collaborators>(
    ctx: ServiceContextView<C>,
    http2: bool,
    configured_grpc_port: Option<Seq<char>>,
)
    requires
        start_result(ctx, http2, configured_grpc_port) is Ok,
    ensures
        ctx.phase.spec_accepts_registration(),
        ({
            let plan = start_result(ctx, http2, configured_grpc_port)->Ok_0;
            &&& plan.len() >= 3
            &&& plan.first() == StartupStepView::<C>::MarkRunning
            &&& plan.last() == StartupStepView::<C>::AwaitShutdown
        }),
        after_start(ctx).phase == RuntimePhase::Started,
        after_start(ctx).signal != LifecyclePhase::Uninitialized,
{
}

} // verus!
