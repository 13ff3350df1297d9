//! The builder of the HTTP listener and the order of its middleware chain.

use crate::builders::consts::{all_interfaces, IpAddress, ListenEndpoint, DEFAULT_HTTP_PORT};
use crate::collaborators::Collaborators;
use vstd::prelude::*;

verus! {

/// Why a builder refused a call.
#[derive(Clone, Copy, PartialEq, Eq, Debug, Structural)]
pub enum BuilderError {
    /// The builder was built before: it accepts nothing and builds nothing.
    Consumed,
    /// The builder already holds an RPC service.
    ServiceAlreadyAdded,
    /// The builder holds no RPC service to serve.
    NoService,
}

/// The method of a route.
#[derive(Clone, Copy, PartialEq, Eq, Debug, Structural)]
pub enum HttpMethod {
    Get,
    Post,
    Put,
    Delete,
}

/// A handler and the method that it answers.
pub struct Route<C: Collaborators> {
    pub method: HttpMethod,
    pub action: C::Action,
}

/// The handlers of the routes, and how they authorize.
pub struct Controllers<C: Collaborators> {
    pub authorization: Option<C::Authorization>,
    pub auth_error_factory: Option<C::AuthErrorFactory>,
    pub routes: Vec<Route<C>>,
}

/// The handlers of the routes as contracts speak of them.
pub struct ControllersView<C: Collaborators> {
    pub authorization: Option<C::Authorization>,
    pub auth_error_factory: Option<C::AuthErrorFactory>,
    pub routes: Seq<Route<C>>,
}

impl<C: Collaborators> View for Controllers<C> {
    type V = ControllersView<C>;

    open spec fn view(&self) -> ControllersView<C> {
        ControllersView {
            authorization: self.authorization,
            auth_error_factory: self.auth_error_factory,
            routes: self.routes@,
        }
    }
}

/// The handlers of no route, with nothing said on authorization.
pub open spec fn no_controllers<C: Collaborators>() -> ControllersView<C> {
    ControllersView { authorization: None, auth_error_factory: None, routes: Seq::empty() }
}

/// The view of optional controllers.
pub open spec fn controllers_view<C: Collaborators>(
    controllers: Option<Controllers<C>>,
) -> Option<ControllersView<C>> {
    match controllers {
        Some(c) => Some(c@),
        None => None,
    }
}

/// The controllers that there are, or those of no route where there are none.
pub open spec fn controllers_or_new<C: Collaborators>(
    controllers: Option<ControllersView<C>>,
) -> ControllersView<C> {
    match controllers {
        Some(c) => c,
        None => no_controllers(),
    }
}

/// One member of the middleware chain of an HTTP listener.
pub enum ChainEntry<C: Collaborators> {
    /// The health probe.
    IsAlive { app_name: String, app_version: String },
    /// The documentation that the service gives of its own routes.
    Swagger { app_name: String, app_version: String },
    /// The request instrumentation, which also serves the metrics.
    Metrics,
    /// The handlers of the routes.
    Controllers(Controllers<C>),
    /// A middleware that the application registered.
    Custom(C::Middleware),
}

/// A member of a middleware chain as contracts speak of it.
pub enum ChainEntryView<C: Collaborators> {
    IsAlive { app_name: Seq<char>, app_version: Seq<char> },
    Swagger { app_name: Seq<char>, app_version: Seq<char> },
    Metrics,
    Controllers(ControllersView<C>),
    Custom(C::Middleware),
}

impl<C: Collaborators> View for ChainEntry<C> {
    type V = ChainEntryView<C>;

    open spec fn view(&self) -> ChainEntryView<C> {
        match self {
            ChainEntry::IsAlive { app_name, app_version } => ChainEntryView::IsAlive {
                app_name: app_name@,
                app_version: app_version@,
            },
            ChainEntry::Swagger { app_name, app_version } => ChainEntryView::Swagger {
                app_name: app_name@,
                app_version: app_version@,
            },
            ChainEntry::Metrics => ChainEntryView::Metrics,
            ChainEntry::Controllers(c) => ChainEntryView::Controllers(c@),
            ChainEntry::Custom(m) => ChainEntryView::Custom(*m),
        }
    }
}

/// An HTTP listener as it left its builder: where it binds, and its
/// middleware chain, the member closest to the request first.
pub struct HttpServer<C: Collaborators> {
    pub listen_address: ListenEndpoint,
    pub chain: Vec<ChainEntry<C>>,
}

/// An HTTP listener as contracts speak of it.
pub struct HttpServerView<C: Collaborators> {
    pub listen_address: ListenEndpoint,
    pub chain: Seq<ChainEntryView<C>>,
}

impl<C: Collaborators> View for HttpServer<C> {
    type V = HttpServerView<C>;

    open spec fn view(&self) -> HttpServerView<C> {
        HttpServerView {
            listen_address: self.listen_address,
            chain: self.chain@.map_values(|e: ChainEntry<C>| e@),
        }
    }
}

/// The builder of the HTTP listener.
pub struct HttpServerBuilder<C: Collaborators> {
    listen_address: ListenEndpoint,
    middlewares: Vec<C::Middleware>,
    app_name: String,
    app_version: String,
    controllers: Option<Controllers<C>>,
    consumed: bool,
}

/// The builder of the HTTP listener as contracts speak of it.
pub struct HttpServerBuilderView<C: Collaborators> {
    pub listen_address: ListenEndpoint,
    /// The middlewares that the application registered, first registered first.
    pub middlewares: Seq<C::Middleware>,
    pub app_name: Seq<char>,
    pub app_version: Seq<char>,
    /// The handlers of the routes; none until something is said of them.
    pub controllers: Option<ControllersView<C>>,
    /// Whether the builder was built.
    pub consumed: bool,
}

impl<C: Collaborators> View for HttpServerBuilder<C> {
    type V = HttpServerBuilderView<C>;

    closed spec fn view(&self) -> HttpServerBuilderView<C> {
        HttpServerBuilderView {
            listen_address: self.listen_address,
            middlewares: self.middlewares@,
            app_name: self.app_name@,
            app_version: self.app_version@,
            controllers: controllers_view(self.controllers),
            consumed: self.consumed,
        }
    }
}

/// The members that every chain starts with: the health probe, then the
/// documentation if there are handlers to document, then the
/// instrumentation, then the handlers if there are any.
pub open spec fn built_in_chain<C: Collaborators>(builder: HttpServerBuilderView<C>) -> Seq<
    ChainEntryView<C>,
> {
    let health = ChainEntryView::IsAlive {
        app_name: builder.app_name,
        app_version: builder.app_version,
    };
    match builder.controllers {
        Some(controllers) => seq![
            health,
            ChainEntryView::Swagger {
                app_name: builder.app_name,
                app_version: builder.app_version,
            },
            ChainEntryView::Metrics,
            ChainEntryView::Controllers(controllers),
        ],
        None => seq![health, ChainEntryView::Metrics],
    }
}

/// The middlewares of the application as members of a chain.
pub open spec fn custom_chain<C: Collaborators>(middlewares: Seq<C::Middleware>) -> Seq<
    ChainEntryView<C>,
> {
    middlewares.map_values(|m: C::Middleware| ChainEntryView::Custom(m))
}

/// The chain that a builder is built into: the built-in members, then the
/// middlewares of the application in the order of their registration.
pub open spec fn chain_of<C: Collaborators>(builder: HttpServerBuilderView<C>) -> Seq<
    ChainEntryView<C>,
> {
    built_in_chain(builder) + custom_chain(builder.middlewares)
}

/// A builder that nothing was registered with: its listener will bind
/// all interfaces on port 8000.
pub open spec fn fresh_http_builder<C: Collaborators>(
    app_name: Seq<char>,
    app_version: Seq<char>,
) -> HttpServerBuilderView<C> {
    HttpServerBuilderView {
        listen_address: ListenEndpoint { ip: all_interfaces(), port: DEFAULT_HTTP_PORT },
        middlewares: Seq::empty(),
        app_name,
        app_version,
        controllers: None,
        consumed: false,
    }
}

/// A builder after it was built: nothing is left in it.
pub open spec fn consumed_builder<C: Collaborators>(
    builder: HttpServerBuilderView<C>,
) -> HttpServerBuilderView<C> {
    HttpServerBuilderView {
        middlewares: Seq::empty(),
        controllers: None,
        consumed: true,
        ..builder
    }
}

/// What building makes of a builder: the listener, or the refusal of a
/// builder that was built before.
pub open spec fn build_result<C: Collaborators>(builder: HttpServerBuilderView<C>) -> Result<
    HttpServerView<C>,
    BuilderError,
> {
    if builder.consumed {
        Err(BuilderError::Consumed)
    } else {
        Ok(HttpServerView { listen_address: builder.listen_address, chain: chain_of(builder) })
    }
}

/// What building leaves of a builder.
pub open spec fn after_build<C: Collaborators>(
    builder: HttpServerBuilderView<C>,
) -> HttpServerBuilderView<C> {
    if builder.consumed {
        builder
    } else {
        consumed_builder(builder)
    }
}

/// The view of what a build returned.
pub open spec fn built_view<C: Collaborators>(r: Result<HttpServer<C>, BuilderError>) -> Result<
    HttpServerView<C>,
    BuilderError,
> {
    match r {
        Ok(server) => Ok(server@),
        Err(e) => Err(e),
    }
}

/// A builder builds once: whatever a builder held, building what the
/// first build left of it is refused, and leaves it as it is.
pub proof fn lemma_second_build_fails<C: Collaborators>(builder: HttpServerBuilderView<C>)
    ensures
        build_result(after_build(builder)) == Err::<HttpServerView<C>, BuilderError>(
            BuilderError::Consumed,
        ),
        after_build(after_build(builder)) == after_build(builder),
{
}

/// The built-in members of a chain come before every middleware of the
/// application, the health probe first of all, and the middlewares of
/// the application follow in the order of their registration.
pub proof fn lemma_built_ins_precede_registered<C: Collaborators>(
    builder: HttpServerBuilderView<C>,
)
    ensures
        ({
            let chain = chain_of(builder);
            let fixed = built_in_chain(builder).len();
            &&& chain.len() == fixed + builder.middlewares.len()
            &&& chain[0] is IsAlive
            &&& builder.controllers is Some ==> chain[1] is Swagger
            &&& forall|i: int| 0 <= i < fixed ==> !((#[trigger] chain[i]) is Custom)
            &&& forall|k: int|
                0 <= k < builder.middlewares.len() ==> #[trigger] chain[fixed + k]
                    == ChainEntryView::<C>::Custom(builder.middlewares[k])
            &&& forall|i: int, j: int|
                0 <= i < chain.len() && 0 <= j < chain.len() && !((#[trigger] chain[i]) is Custom)
                    && (#[trigger] chain[j]) is Custom ==> i < j
        }),
{
    let chain = chain_of(builder);
    let fixed = built_in_chain(builder).len();
    assert forall|k: int| 0 <= k < builder.middlewares.len() implies #[trigger] chain[fixed + k]
        == ChainEntryView::<C>::Custom(builder.middlewares[k]) by {
        assert(chain[fixed + k] == custom_chain::<C>(builder.middlewares)[k]);
    }
    assert forall|i: int, j: int|
        0 <= i < chain.len() && 0 <= j < chain.len() && !((#[trigger] chain[i]) is Custom) && (
        #[trigger] chain[j]) is Custom implies i < j by {
        if i >= fixed {
            assert(chain[fixed + (i - fixed)] == ChainEntryView::<C>::Custom(
                builder.middlewares[i - fixed],
            ));
        }
    }
}

impl<C: Collaborators> HttpServerBuilder<C> {
    /// A builder that accepts registrations. Its listener will bind all
    /// interfaces on port 8000 unless it is told otherwise.
    pub fn new(app_name: String, app_version: String) -> (builder: Self)
        ensures
            builder@ == fresh_http_builder::<C>(app_name@, app_version@),
    {
        HttpServerBuilder {
            listen_address: ListenEndpoint {
                ip: IpAddress::V4(0, 0, 0, 0),
                port: DEFAULT_HTTP_PORT,
            },
            middlewares: Vec::new(),
            app_name,
            app_version,
            controllers: None,
            consumed: false,
        }
    }

    /// A builder whose handlers exist from the start and authorize as
    /// given. Its listener will bind `ip` on port 8000 unless it is told
    /// otherwise.
    pub fn with_controllers(
        app_name: String,
        app_version: String,
        authorization: Option<C::Authorization>,
        auth_error_factory: Option<C::AuthErrorFactory>,
        ip: IpAddress,
    ) -> (builder: Self)
        ensures
            builder@ == (HttpServerBuilderView::<C> {
                listen_address: ListenEndpoint { ip, port: DEFAULT_HTTP_PORT },
                controllers: Some(
                    ControllersView { authorization, auth_error_factory, routes: Seq::empty() },
                ),
                ..fresh_http_builder::<C>(app_name@, app_version@)
            }),
    {
        HttpServerBuilder {
            listen_address: ListenEndpoint { ip, port: DEFAULT_HTTP_PORT },
            middlewares: Vec::new(),
            app_name,
            app_version,
            controllers: Some(Controllers { authorization, auth_error_factory, routes: Vec::new() }),
            consumed: false,
        }
    }

    /// Says which address the listener will bind, on port 8000.
    pub fn update_ip(&mut self, ip: IpAddress) -> (r: Result<(), BuilderError>)
        ensures
            old(self)@.consumed ==> r == Err::<(), BuilderError>(BuilderError::Consumed) && final(self)@
                == old(self)@,
            !old(self)@.consumed ==> r is Ok && final(self)@ == (HttpServerBuilderView {
                listen_address: ListenEndpoint { ip, port: DEFAULT_HTTP_PORT },
                ..old(self)@
            }),
    {
        self.update_listen_endpoint(ip, DEFAULT_HTTP_PORT)
    }

    /// Whether the builder was built.
    pub fn is_consumed(&self) -> (b: bool)
        ensures
            b == self@.consumed,
    {
        self.consumed
    }

    /// Where the listener will bind.
    pub fn listen_address(&self) -> (endpoint: ListenEndpoint)
        ensures
            endpoint == self@.listen_address,
    {
        self.listen_address
    }

    /// Number of middlewares that the application registered.
    pub fn middleware_count(&self) -> (n: usize)
        ensures
            n == self@.middlewares.len(),
    {
        self.middlewares.len()
    }

    /// Number of routes that were registered.
    pub fn route_count(&self) -> (n: usize)
        ensures
            n == controllers_or_new(self@.controllers).routes.len(),
    {
        match &self.controllers {
            Some(c) => c.routes.len(),
            None => 0,
        }
    }

    fn controllers_mut(&mut self) -> (controllers: &mut Controllers<C>)
        ensures
            controllers@ == controllers_or_new(old(self)@.controllers),
            final(self)@ == (HttpServerBuilderView {
                controllers: Some(final(controllers)@),
                ..old(self)@
            }),
    {
        if self.controllers.is_none() {
            self.controllers = Some(
                Controllers { authorization: None, auth_error_factory: None, routes: Vec::new() },
            );
        }
        self.controllers.as_mut().unwrap()
    }

    /// Says how the handlers authorize. Handlers of no route come into
    /// being where there were none.
    pub fn set_authorization(&mut self, authorization: C::Authorization) -> (r: Result<
        (),
        BuilderError,
    >)
        ensures
            old(self)@.consumed ==> r == Err::<(), BuilderError>(BuilderError::Consumed) && final(self)@ == old(self)@,
            !old(self)@.consumed ==> r is Ok && final(self)@ == (HttpServerBuilderView {
                controllers: Some(
                    ControllersView {
                        authorization: Some(authorization),
                        ..controllers_or_new(old(self)@.controllers)
                    },
                ),
                ..old(self)@
            }),
    {
        if self.consumed {
            return Err(BuilderError::Consumed);
        }
        let controllers = self.controllers_mut();
        controllers.authorization = Some(authorization);
        Ok(())
    }

    /// Says what turns a failed authorization into a response. Handlers
    /// of no route come into being where there were none.
    pub fn set_auth_error_factory(&mut self, value: C::AuthErrorFactory) -> (r: Result<
        (),
        BuilderError,
    >)
        ensures
            old(self)@.consumed ==> r == Err::<(), BuilderError>(BuilderError::Consumed) && final(self)@ == old(self)@,
            !old(self)@.consumed ==> r is Ok && final(self)@ == (HttpServerBuilderView {
                controllers: Some(
                    ControllersView {
                        auth_error_factory: Some(value),
                        ..controllers_or_new(old(self)@.controllers)
                    },
                ),
                ..old(self)@
            }),
    {
        if self.consumed {
            return Err(BuilderError::Consumed);
        }
        let controllers = self.controllers_mut();
        controllers.auth_error_factory = Some(value);
        Ok(())
    }

    /// Says where the listener will bind.
    pub fn update_listen_endpoint(&mut self, ip: IpAddress, port: u16) -> (r: Result<
        (),
        BuilderError,
    >)
        ensures
            old(self)@.consumed ==> r == Err::<(), BuilderError>(BuilderError::Consumed) && final(self)@ == old(self)@,
            !old(self)@.consumed ==> r is Ok && final(self)@ == (HttpServerBuilderView {
                listen_address: ListenEndpoint { ip, port },
                ..old(self)@
            }),
    {
        if self.consumed {
            return Err(BuilderError::Consumed);
        }
        self.listen_address = ListenEndpoint { ip, port };
        Ok(())
    }

    /// Registers a middleware behind those that were registered before.
    pub fn add_middleware(&mut self, middleware: C::Middleware) -> (r: Result<(), BuilderError>)
        ensures
            old(self)@.consumed ==> r == Err::<(), BuilderError>(BuilderError::Consumed) && final(self)@ == old(self)@,
            !old(self)@.consumed ==> r is Ok && final(self)@ == (HttpServerBuilderView {
                middlewares: old(self)@.middlewares.push(middleware),
                ..old(self)@
            }),
    {
        if self.consumed {
            return Err(BuilderError::Consumed);
        }
        self.middlewares.push(middleware);
        Ok(())
    }

    /// Registers the handler of a route behind those that were registered
    /// before. Handlers come into being where there were none.
    pub fn register(&mut self, method: HttpMethod, action: C::Action) -> (r: Result<
        (),
        BuilderError,
    >)
        ensures
            old(self)@.consumed ==> r == Err::<(), BuilderError>(BuilderError::Consumed) && final(self)@ == old(self)@,
            !old(self)@.consumed ==> r is Ok && final(self)@ == (HttpServerBuilderView {
                controllers: Some(
                    ControllersView {
                        routes: controllers_or_new(old(self)@.controllers).routes.push(
                            Route { method, action },
                        ),
                        ..controllers_or_new(old(self)@.controllers)
                    },
                ),
                ..old(self)@
            }),
    {
        if self.consumed {
            return Err(BuilderError::Consumed);
        }
        let controllers = self.controllers_mut();
        controllers.routes.push(Route { method, action });
        Ok(())
    }

    /// Registers the handler of a route that answers GET.
    pub fn register_get(&mut self, action: C::Action) -> (r: Result<(), BuilderError>)
        ensures
            old(self)@.consumed ==> r == Err::<(), BuilderError>(BuilderError::Consumed) && final(self)@ == old(self)@,
            !old(self)@.consumed ==> r is Ok && final(self)@ == (HttpServerBuilderView {
                controllers: Some(
                    ControllersView {
                        routes: controllers_or_new(old(self)@.controllers).routes.push(
                            Route { method: HttpMethod::Get, action },
                        ),
                        ..controllers_or_new(old(self)@.controllers)
                    },
                ),
                ..old(self)@
            }),
    {
        self.register(HttpMethod::Get, action)
    }

    /// Registers the handler of a route that answers POST.
    pub fn register_post(&mut self, action: C::Action) -> (r: Result<(), BuilderError>)
        ensures
            old(self)@.consumed ==> r == Err::<(), BuilderError>(BuilderError::Consumed) && final(self)@ == old(self)@,
            !old(self)@.consumed ==> r is Ok && final(self)@ == (HttpServerBuilderView {
                controllers: Some(
                    ControllersView {
                        routes: controllers_or_new(old(self)@.controllers).routes.push(
                            Route { method: HttpMethod::Post, action },
                        ),
                        ..controllers_or_new(old(self)@.controllers)
                    },
                ),
                ..old(self)@
            }),
    {
        self.register(HttpMethod::Post, action)
    }

    /// Registers the handler of a route that answers PUT.
    pub fn register_put(&mut self, action: C::Action) -> (r: Result<(), BuilderError>)
        ensures
            old(self)@.consumed ==> r == Err::<(), BuilderError>(BuilderError::Consumed) && final(self)@ == old(self)@,
            !old(self)@.consumed ==> r is Ok && final(self)@ == (HttpServerBuilderView {
                controllers: Some(
                    ControllersView {
                        routes: controllers_or_new(old(self)@.controllers).routes.push(
                            Route { method: HttpMethod::Put, action },
                        ),
                        ..controllers_or_new(old(self)@.controllers)
                    },
                ),
                ..old(self)@
            }),
    {
        self.register(HttpMethod::Put, action)
    }

    /// Registers the handler of a route that answers DELETE.
    pub fn register_delete(&mut self, action: C::Action) -> (r: Result<(), BuilderError>)
        ensures
            old(self)@.consumed ==> r == Err::<(), BuilderError>(BuilderError::Consumed) && final(self)@ == old(self)@,
            !old(self)@.consumed ==> r is Ok && final(self)@ == (HttpServerBuilderView {
                controllers: Some(
                    ControllersView {
                        routes: controllers_or_new(old(self)@.controllers).routes.push(
                            Route { method: HttpMethod::Delete, action },
                        ),
                        ..controllers_or_new(old(self)@.controllers)
                    },
                ),
                ..old(self)@
            }),
    {
        self.register(HttpMethod::Delete, action)
    }

    /// Builds the listener. The builder hands over everything that it
    /// holds and is consumed; a builder that was built before builds
    /// nothing and stays as it is.
    pub fn build(&mut self) -> (r: Result<HttpServer<C>, BuilderError>)
        ensures
            built_view(r) == build_result(old(self)@),
            final(self)@ == after_build(old(self)@),
            r is Err <==> old(self)@.consumed,
    {
        if self.consumed {
            return Err(BuilderError::Consumed);
        }
        let mut chain: Vec<ChainEntry<C>> = Vec::new();
        chain.push(
            ChainEntry::IsAlive {
                app_name: self.app_name.clone(),
                app_version: self.app_version.clone(),
            },
        );
        match self.controllers.take() {
            Some(controllers) => {
                chain.push(
                    ChainEntry::Swagger {
                        app_name: self.app_name.clone(),
                        app_version: self.app_version.clone(),
                    },
                );
                chain.push(ChainEntry::Metrics);
                chain.push(ChainEntry::Controllers(controllers));
            },
            None => {
                chain.push(ChainEntry::Metrics);
            },
        }
        let mut middlewares: Vec<C::Middleware> = Vec::new();
        core::mem::swap(&mut self.middlewares, &mut middlewares);
        let ghost registered = middlewares@;
        let ghost fixed = chain@.map_values(|e: ChainEntry<C>| e@);
        assert(fixed =~= built_in_chain(old(self)@));
        while middlewares.len() > 0
            invariant
                middlewares@.len() <= registered.len(),
                middlewares@ == registered.skip(registered.len() - middlewares@.len()),
                chain@.map_values(|e: ChainEntry<C>| e@) == fixed + custom_chain::<C>(
                    registered.take(registered.len() - middlewares@.len()),
                ),
            decreases middlewares.len(),
        {
            let ghost done = registered.len() - middlewares@.len();
            let ghost before = chain@.map_values(|e: ChainEntry<C>| e@);
            let middleware = middlewares.remove(0);
            chain.push(ChainEntry::Custom(middleware));
            proof {
                assert(middleware == registered[done]);
                assert(middlewares@ =~= registered.skip(done + 1));
                assert(registered.take(done + 1) =~= registered.take(done).push(registered[done]));
                assert(chain@.map_values(|e: ChainEntry<C>| e@) =~= before.push(
                    ChainEntryView::Custom(middleware),
                ));
                assert(chain@.map_values(|e: ChainEntry<C>| e@) =~= fixed + custom_chain::<C>(
                    registered.take(done + 1),
                ));
            }
        }
        self.consumed = true;
        proof {
            assert(registered.take(registered.len() as int) =~= registered);
            assert(self@.middlewares =~= Seq::empty());
        }
        Ok(HttpServer { listen_address: self.listen_address, chain })
    }
}

} // verus!
