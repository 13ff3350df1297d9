//! Instrumentation of inbound requests: what is recorded for a request,
//! and the middleware of each transport that records it.

pub mod exposition;
pub mod grpc_metrics_middleware;
pub mod http_metrics_middleware;
pub mod instrumentation;
pub mod timing;
