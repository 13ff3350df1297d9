//! The runtime of a service: what it owns, what may be registered with
//! it, and what a start consists of.

pub mod app_states;
pub mod service_context;
