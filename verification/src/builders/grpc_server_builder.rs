//! The builder of the RPC listener.

use crate::builders::consts::{
    all_interfaces, configured_port, get_default_ip_address, resolve_port, IpAddress,
    ListenEndpoint, DEFAULT_GRPC_PORT,
};
use crate::builders::http_server_builder::BuilderError;
use crate::sdk_metrics::grpc_metrics_middleware::{GrpcMetricsMiddleware, GrpcMetricsMiddlewareLayer};
use crate::service_info::optional_text;
use vstd::prelude::*;

verus! {

/// Why a listener refused a call.
#[derive(Clone, Copy, PartialEq, Eq, Debug, Structural)]
pub enum ListenerError {
    /// The listener was started before.
    AlreadyStarted,
}

/// The builder of the RPC listener. `R` is the type of the assembled services.
pub struct GrpcServerBuilder<R> {
    server: Option<GrpcMetricsMiddleware<R>>,
    listen_address: Option<ListenEndpoint>,
    consumed: bool,
}

/// The builder of the RPC listener as contracts speak of it.
pub struct GrpcServerBuilderView<R> {
    /// The services that were added, if any.
    pub service: Option<R>,
    /// Where the listener will bind, if that was said.
    pub listen_address: Option<ListenEndpoint>,
    /// Whether the builder was built.
    pub consumed: bool,
}

/// The services inside an optional instrumentation.
pub open spec fn instrumented<R>(server: Option<GrpcMetricsMiddleware<R>>) -> Option<R> {
    match server {
        Some(middleware) => Some(middleware.service()),
        None => None,
    }
}

impl<R> View for GrpcServerBuilder<R> {
    type V = GrpcServerBuilderView<R>;

    closed spec fn view(&self) -> GrpcServerBuilderView<R> {
        GrpcServerBuilderView {
            service: instrumented(self.server),
            listen_address: self.listen_address,
            consumed: self.consumed,
        }
    }
}

/// An RPC listener: the instrumented services until it is started, and
/// where it serves once it is.
pub struct GrpcServer<R> {
    server: Option<GrpcMetricsMiddleware<R>>,
    serving_at: Option<ListenEndpoint>,
}

/// An RPC listener as contracts speak of it.
pub struct GrpcServerView<R> {
    /// The services that it will serve; none once it serves them.
    pub service: Option<R>,
    /// Where it serves; nothing until it is started.
    pub serving_at: Option<ListenEndpoint>,
}

impl<R> View for GrpcServer<R> {
    type V = GrpcServerView<R>;

    closed spec fn view(&self) -> GrpcServerView<R> {
        GrpcServerView { service: instrumented(self.server), serving_at: self.serving_at }
    }
}

/// What the accept loop of an RPC listener is started with.
pub struct GrpcServing<R> {
    /// The services, with the instrumentation around them.
    pub service: GrpcMetricsMiddleware<R>,
    pub listen_address: ListenEndpoint,
}

/// A started RPC listener and what its accept loop is started with.
pub struct BuiltGrpcServer<R> {
    pub server: GrpcServer<R>,
    pub serving: GrpcServing<R>,
}

/// What a successful build hands out, as contracts speak of it.
pub struct BuiltGrpcServerView<R> {
    /// The listener, which is started.
    pub server: GrpcServerView<R>,
    /// The services that its accept loop is started with.
    pub service: R,
    /// Where its accept loop is started.
    pub listen_address: ListenEndpoint,
}

/// Where the RPC listener binds: where it was told to, or else all
/// interfaces on the configured port, or on port 8888 where no port is
/// configured or the configured text is no port.
pub open spec fn grpc_address(
    listen_address: Option<ListenEndpoint>,
    configured: Option<Seq<char>>,
) -> ListenEndpoint {
    match listen_address {
        Some(endpoint) => endpoint,
        None => ListenEndpoint {
            ip: all_interfaces(),
            port: configured_port(configured, DEFAULT_GRPC_PORT),
        },
    }
}

/// What building makes of a builder: the services and where to serve
/// them, or the refusal of a builder that was built before or holds no
/// service.
pub open spec fn grpc_build_result<R>(
    builder: GrpcServerBuilderView<R>,
    configured: Option<Seq<char>>,
) -> Result<BuiltGrpcServerView<R>, BuilderError> {
    if builder.consumed {
        Err(BuilderError::Consumed)
    } else {
        match builder.service {
            None => Err(BuilderError::NoService),
            Some(service) => Ok(
                BuiltGrpcServerView {
                    server: GrpcServerView {
                        service: None,
                        serving_at: Some(grpc_address(builder.listen_address, configured)),
                    },
                    service,
                    listen_address: grpc_address(builder.listen_address, configured),
                },
            ),
        }
    }
}

/// What building leaves of a builder: a builder that was refused stays
/// as it is, and a builder that was built holds no service and is consumed.
pub open spec fn grpc_after_build<R>(builder: GrpcServerBuilderView<R>) -> GrpcServerBuilderView<
    R,
> {
    if builder.consumed || builder.service is None {
        builder
    } else {
        GrpcServerBuilderView { service: None, consumed: true, ..builder }
    }
}

/// The view of what a build returned.
pub open spec fn grpc_built_view<R>(r: Result<BuiltGrpcServer<R>, BuilderError>) -> Result<
    BuiltGrpcServerView<R>,
    BuilderError,
> {
    match r {
        Ok(built) => Ok(
            BuiltGrpcServerView {
                server: built.server@,
                service: built.serving.service.service(),
                listen_address: built.serving.listen_address,
            },
        ),
        Err(e) => Err(e),
    }
}

/// A builder builds once: whatever a builder held and whatever port is
/// configured, building what a successful build left of it is refused.
pub proof fn lemma_second_grpc_build_fails<R>(
    builder: GrpcServerBuilderView<R>,
    first: Option<Seq<char>>,
    second: Option<Seq<char>>,
)
    requires
        grpc_build_result(builder, first) is Ok,
    ensures
        grpc_build_result(grpc_after_build(builder), second) == Err::<
            BuiltGrpcServerView<R>,
            BuilderError,
        >(BuilderError::Consumed),
        grpc_after_build(grpc_after_build(builder)) == grpc_after_build(builder),
{
}

impl<R> GrpcServer<R> {
    /// A listener that holds its services and waits to be started.
    pub fn new(server: GrpcMetricsMiddleware<R>) -> (listener: Self)
        ensures
            listener@ == (GrpcServerView { service: Some(server.service()), serving_at: None }),
    {
        GrpcServer { server: Some(server), serving_at: None }
    }

    /// Whether the listener was started.
    pub fn is_started(&self) -> (b: bool)
        ensures
            b == self@.service is None,
    {
        self.server.is_none()
    }

    /// Where the listener serves, once it was started.
    pub fn serving_at(&self) -> (endpoint: Option<ListenEndpoint>)
        ensures
            endpoint == self@.serving_at,
    {
        self.serving_at
    }

    /// Starts the listener at `grpc_addr`: hands out what its accept loop
    /// is to be started with. A listener starts once; a second start is
    /// refused and leaves the listener as it is.
    pub fn start(&mut self, grpc_addr: ListenEndpoint) -> (r: Result<GrpcServing<R>, ListenerError>)
        ensures
            match old(self)@.service {
                Some(service) => r matches Ok(serving) && serving.service.service() == service
                    && serving.listen_address == grpc_addr && final(self)@ == (GrpcServerView::<R> {
                    service: None,
                    serving_at: Some(grpc_addr),
                }),
                None => r == Err::<GrpcServing<R>, ListenerError>(ListenerError::AlreadyStarted)
                    && final(self)@ == old(self)@,
            },
    {
        match self.server.take() {
            Some(service) => {
                self.serving_at = Some(grpc_addr);
                Ok(GrpcServing { service, listen_address: grpc_addr })
            },
            None => Err(ListenerError::AlreadyStarted),
        }
    }
}

impl<R> GrpcServerBuilder<R> {
    /// A builder that holds no service and accepts registrations.
    pub fn new() -> (builder: Self)
        ensures
            builder@ == (GrpcServerBuilderView::<R> {
                service: None,
                listen_address: None,
                consumed: false,
            }),
    {
        GrpcServerBuilder { server: None, listen_address: None, consumed: false }
    }

    /// Whether the builder was built.
    pub fn is_consumed(&self) -> (b: bool)
        ensures
            b == self@.consumed,
    {
        self.consumed
    }

    /// Whether the builder holds a service.
    pub fn has_service(&self) -> (b: bool)
        ensures
            b == self@.service is Some,
    {
        self.server.is_some()
    }

    /// Says where the listener will bind.
    pub fn update_listen_endpoint(&mut self, ip: IpAddress, port: u16) -> (r: Result<
        (),
        BuilderError,
    >)
        ensures
            old(self)@.consumed ==> r == Err::<(), BuilderError>(BuilderError::Consumed)
                && final(self)@ == old(self)@,
            !old(self)@.consumed ==> r is Ok && final(self)@ == (GrpcServerBuilderView {
                listen_address: Some(ListenEndpoint { ip, port }),
                ..old(self)@
            }),
    {
        if self.consumed {
            return Err(BuilderError::Consumed);
        }
        self.listen_address = Some(ListenEndpoint { ip, port });
        Ok(())
    }

    /// Adds the service of the listener, with the instrumentation around
    /// it. A builder takes one service this way; a second one is refused.
    pub fn add_grpc_service(&mut self, svc: R) -> (r: Result<(), BuilderError>)
        ensures
            old(self)@.consumed ==> r == Err::<(), BuilderError>(BuilderError::Consumed),
            !old(self)@.consumed && old(self)@.service is Some ==> r == Err::<(), BuilderError>(
                BuilderError::ServiceAlreadyAdded,
            ),
            r is Err ==> final(self)@ == old(self)@,
            !old(self)@.consumed && old(self)@.service is None ==> r is Ok && final(self)@ == (
            GrpcServerBuilderView { service: Some(svc), ..old(self)@ }),
    {
        if self.consumed {
            return Err(BuilderError::Consumed);
        }
        if self.server.is_some() {
            return Err(BuilderError::ServiceAlreadyAdded);
        }
        let layer = GrpcMetricsMiddlewareLayer;
        self.server = Some(layer.layer(svc));
        Ok(())
    }

    /// Sets the services of the listener to an assembly of several, with
    /// the instrumentation around it, in place of what the builder held.
    pub fn add_grpc_services(&mut self, router: R) -> (r: Result<(), BuilderError>)
        ensures
            old(self)@.consumed ==> r == Err::<(), BuilderError>(BuilderError::Consumed)
                && final(self)@ == old(self)@,
            !old(self)@.consumed ==> r is Ok && final(self)@ == (GrpcServerBuilderView {
                service: Some(router),
                ..old(self)@
            }),
    {
        if self.consumed {
            return Err(BuilderError::Consumed);
        }
        let layer = GrpcMetricsMiddlewareLayer;
        self.server = Some(layer.layer(router));
        Ok(())
    }

    /// Builds the listener and starts it. `configured_port` is the text
    /// that the environment configures as the port, if it configures one;
    /// it counts only where the builder was not told where to bind.
    ///
    /// The builder hands over its service and is consumed. A builder that
    /// was built before, or that holds no service, builds nothing and
    /// stays as it is.
    pub fn build(&mut self, configured_port: Option<&str>) -> (r: Result<
        BuiltGrpcServer<R>,
        BuilderError,
    >)
        ensures
            grpc_built_view(r) == grpc_build_result(old(self)@, optional_text(configured_port)),
            final(self)@ == grpc_after_build(old(self)@),
    {
        if self.consumed {
            return Err(BuilderError::Consumed);
        }
        let grpc_addr = match self.listen_address {
            Some(taken) => taken,
            None => ListenEndpoint {
                ip: get_default_ip_address(),
                port: resolve_port(configured_port, DEFAULT_GRPC_PORT),
            },
        };
        match self.server.take() {
            None => Err(BuilderError::NoService),
            Some(service) => {
                self.consumed = true;
                let mut grpc_server = GrpcServer::new(service);
                match grpc_server.start(grpc_addr) {
                    Ok(serving) => Ok(BuiltGrpcServer { server: grpc_server, serving }),
                    Err(_) => Err(BuilderError::NoService),
                }
            },
        }
    }
}

} // verus!
