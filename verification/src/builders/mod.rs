//! The builders of the listeners. A builder collects registrations and is
//! built into a listener once; after that it accepts nothing.

pub mod consts;
pub mod grpc_server_builder;
pub mod http_server_builder;
