//! A composition root for backend services.
//!
//! The crate derives, from the set of optional subsystems that a build
//! enables, the exact contract that a settings provider has to satisfy,
//! assembles the HTTP and RPC listeners through single-use builders,
//! instruments every inbound request, and drives the lifecycle of the
//! service around one shared signal.
//!
//! Everything in this crate is a decision: which interfaces are required,
//! in which order a middleware chain runs, which metrics a request emits,
//! which steps a start consists of. Performing those steps (binding
//! sockets, connecting clients, recording metrics) is left to the caller.

pub mod builders;
pub mod capability;
pub mod collaborators;
pub mod sdk_metrics;
pub mod service_context;
pub mod service_info;
pub mod settings;

pub use builders::consts::{
    get_default_ip_address, IpAddress, ListenEndpoint, DEFAULT_GRPC_PORT, DEFAULT_HTTP_PORT,
};
pub use builders::grpc_server_builder::{
    BuiltGrpcServer, GrpcServer, GrpcServerBuilder, GrpcServing, ListenerError,
};
pub use builders::http_server_builder::{
    BuilderError, ChainEntry, Controllers, HttpMethod, HttpServer, HttpServerBuilder, Route,
};
pub use capability::{Capability, CapabilitySet};
pub use collaborators::{Collaborators, Numbered};
pub use sdk_metrics::exposition::TextOutput;
pub use sdk_metrics::grpc_metrics_middleware::{
    GrpcMetricsMiddleware, GrpcMetricsMiddlewareLayer, HandledCall, RpcAnswer,
};
pub use sdk_metrics::http_metrics_middleware::{
    Handled, HandlerFailure, MetricsMiddleware, MiddlewareResponse, RequestFlow,
};
pub use sdk_metrics::instrumentation::{
    record_request, MetricLabels, MetricName, MetricUpdate, MetricValue, RequestOutcome,
    Transport,
};
pub use sdk_metrics::timing::RequestTimer;
pub use service_context::app_states::{AppStates, LifecyclePhase};
pub use service_context::service_context::{
    BackgroundTimer, ConstructionError, ConstructionStep, LifecycleError, RuntimePhase,
    ServiceContext, StartupStep, SubsystemState,
};
pub use service_info::{generate_sdk_settings_traits, ServiceIdentity, ServiceInfo};
pub use settings::catalogue::{MethodName, SettingsField, SettingsMethod, SettingsTrait};
pub use settings::contract::{ContractConflict, SettingsContract};
pub use settings::synthesis::{
    auto_generate_settings_traits, generate_settings_signature, use_settings,
};
