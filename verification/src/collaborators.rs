//! The types of what the service is composed of but does not look into.

use vstd::prelude::*;

verus! {

/// The types of the values that an application hands to the runtime and
/// that the runtime stores, orders and hands back without reading them.
pub trait Collaborators {
    /// A middleware of the HTTP transport.
    type Middleware;

    /// The handler of one HTTP route.
    type Action;

    /// How the HTTP handlers authorize a request.
    type Authorization;

    /// What turns a failed authorization into a response.
    type AuthErrorFactory;

    /// The services of the RPC transport, assembled.
    type RpcRouter;

    /// What a background job calls at every tick.
    type TimerCallback;
}

/// Collaborators that are known by number only. With them a runtime can
/// be configured and its start planned where nothing is to be run.
pub struct Numbered;

impl Collaborators for Numbered {
    type Middleware = u64;

    type Action = u64;

    type Authorization = u64;

    type AuthErrorFactory = u64;

    type RpcRouter = u64;

    type TimerCallback = u64;
}

} // verus!
