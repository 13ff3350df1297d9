use service_sdk::builders::consts::{port_or_default, resolve_port};
use service_sdk::{
    get_default_ip_address, BuilderError, ChainEntry, Collaborators, GrpcMetricsMiddlewareLayer,
    GrpcServer, GrpcServerBuilder, HttpMethod, HttpServerBuilder, IpAddress, ListenEndpoint,
    ListenerError, DEFAULT_GRPC_PORT, DEFAULT_HTTP_PORT,
};

struct Parts;

impl Collaborators for Parts {
    type Middleware = &'static str;
    type Action = &'static str;
    type Authorization = u32;
    type AuthErrorFactory = u32;
    type RpcRouter = &'static str;
    type TimerCallback = u32;
}

fn builder() -> HttpServerBuilder<Parts> {
    HttpServerBuilder::new("orders".to_string(), "2.0".to_string())
}

fn kinds(chain: &[ChainEntry<Parts>]) -> Vec<String> {
    chain
        .iter()
        .map(|e| match e {
            ChainEntry::IsAlive { app_name, app_version } => {
                format!("health:{}:{}", app_name, app_version)
            }
            ChainEntry::Swagger { app_name, app_version } => {
                format!("docs:{}:{}", app_name, app_version)
            }
            ChainEntry::Metrics => "metrics".to_string(),
            ChainEntry::Controllers(c) => format!("controllers:{}", c.routes.len()),
            ChainEntry::Custom(m) => format!("custom:{}", m),
        })
        .collect()
}

#[test]
fn default_endpoints() {
    assert_eq!(get_default_ip_address(), IpAddress::V4(0, 0, 0, 0));
    assert_eq!(DEFAULT_HTTP_PORT, 8000);
    assert_eq!(DEFAULT_GRPC_PORT, 8888);
    assert_eq!(
        builder().listen_address(),
        ListenEndpoint { ip: IpAddress::V4(0, 0, 0, 0), port: 8000 }
    );
}

#[test]
fn http_chain_without_routes_is_health_and_metrics() {
    let mut b = builder();
    let server = b.build().ok().unwrap();
    assert_eq!(kinds(&server.chain), vec!["health:orders:2.0", "metrics"]);
    assert_eq!(server.listen_address, ListenEndpoint { ip: IpAddress::V4(0, 0, 0, 0), port: 8000 });
}

#[test]
fn built_ins_precede_middlewares_in_registration_order() {
    let mut b = builder();
    assert_eq!(b.add_middleware("A"), Ok(()));
    assert_eq!(b.register_get("list"), Ok(()));
    assert_eq!(b.add_middleware("B"), Ok(()));
    assert_eq!(b.register_post("create"), Ok(()));
    assert_eq!(b.add_middleware("C"), Ok(()));
    assert_eq!(b.middleware_count(), 3);
    assert_eq!(b.route_count(), 2);
    let server = b.build().ok().unwrap();
    assert_eq!(
        kinds(&server.chain),
        vec![
            "health:orders:2.0",
            "docs:orders:2.0",
            "metrics",
            "controllers:2",
            "custom:A",
            "custom:B",
            "custom:C",
        ]
    );
}

#[test]
fn routes_keep_method_and_order() {
    let mut b = builder();
    b.register_put("p").unwrap();
    b.register_delete("d").unwrap();
    b.register_get("g").unwrap();
    b.register(HttpMethod::Post, "o").unwrap();
    let server = b.build().ok().unwrap();
    match &server.chain[3] {
        ChainEntry::Controllers(c) => {
            let routes: Vec<(HttpMethod, &str)> =
                c.routes.iter().map(|r| (r.method, r.action)).collect();
            assert_eq!(
                routes,
                vec![
                    (HttpMethod::Put, "p"),
                    (HttpMethod::Delete, "d"),
                    (HttpMethod::Get, "g"),
                    (HttpMethod::Post, "o"),
                ]
            );
            assert_eq!(c.authorization, None);
        }
        _ => panic!("controllers expected"),
    }
}

#[test]
fn authorization_creates_controllers() {
    let mut b = builder();
    b.set_authorization(7).unwrap();
    b.set_auth_error_factory(9).unwrap();
    b.set_authorization(8).unwrap();
    let server = b.build().ok().unwrap();
    assert_eq!(server.chain.len(), 4);
    match &server.chain[3] {
        ChainEntry::Controllers(c) => {
            assert_eq!(c.authorization, Some(8));
            assert_eq!(c.auth_error_factory, Some(9));
            assert_eq!(c.routes.len(), 0);
        }
        _ => panic!("controllers expected"),
    }
}

#[test]
fn http_builder_builds_once() {
    let mut b = builder();
    b.add_middleware("A").unwrap();
    b.update_listen_endpoint(IpAddress::V4(127, 0, 0, 1), 8080).unwrap();
    assert!(!b.is_consumed());
    let first = b.build();
    assert!(first.is_ok());
    assert_eq!(
        first.ok().unwrap().listen_address,
        ListenEndpoint { ip: IpAddress::V4(127, 0, 0, 1), port: 8080 }
    );
    assert!(b.is_consumed());
    assert!(matches!(b.build(), Err(BuilderError::Consumed)));
    assert!(matches!(b.build(), Err(BuilderError::Consumed)));
}

#[test]
fn consumed_http_builder_takes_nothing() {
    let mut b = builder();
    b.build().ok().unwrap();
    assert_eq!(b.add_middleware("late"), Err(BuilderError::Consumed));
    assert_eq!(b.register_get("late"), Err(BuilderError::Consumed));
    assert_eq!(b.register_post("late"), Err(BuilderError::Consumed));
    assert_eq!(b.register_put("late"), Err(BuilderError::Consumed));
    assert_eq!(b.register_delete("late"), Err(BuilderError::Consumed));
    assert_eq!(b.set_authorization(1), Err(BuilderError::Consumed));
    assert_eq!(b.set_auth_error_factory(1), Err(BuilderError::Consumed));
    assert_eq!(
        b.update_listen_endpoint(IpAddress::V4(1, 1, 1, 1), 1),
        Err(BuilderError::Consumed)
    );
    assert_eq!(b.middleware_count(), 0);
    assert_eq!(b.route_count(), 0);
}

#[test]
fn port_configuration() {
    assert_eq!(resolve_port(None, 8888), 8888);
    assert_eq!(resolve_port(Some("9000"), 8888), 9000);
    assert_eq!(resolve_port(Some("0"), 8888), 0);
    assert_eq!(resolve_port(Some("65535"), 8888), 65535);
    assert_eq!(resolve_port(Some("65536"), 8888), 8888);
    assert_eq!(resolve_port(Some("abc"), 8888), 8888);
    assert_eq!(resolve_port(Some(""), 8888), 8888);
    assert_eq!(resolve_port(Some("-1"), 8888), 8888);
    assert_eq!(resolve_port(Some("+80"), 8888), 80);
    assert_eq!(resolve_port(Some("+"), 8888), 8888);
    assert_eq!(resolve_port(Some("++1"), 8888), 8888);
    assert_eq!(resolve_port(Some("-0"), 8888), 8888);
    assert_eq!(resolve_port(Some("0080"), 8888), 80);
    assert_eq!(resolve_port(Some(" 80"), 8888), 8888);
    assert_eq!(resolve_port(Some("80 "), 8888), 8888);
    assert_eq!(resolve_port(Some("8_0"), 8888), 8888);
    assert_eq!(resolve_port(Some("\u{663}"), 8888), 8888);
    assert_eq!(resolve_port(Some("99999999999999999999999999"), 8888), 8888);
    assert_eq!(port_or_default(Some(1), 2), 1);
    assert_eq!(port_or_default(None, 2), 2);
}

#[test]
fn grpc_builder_builds_once() {
    let mut b: GrpcServerBuilder<&'static str> = GrpcServerBuilder::new();
    assert!(!b.has_service());
    assert_eq!(b.add_grpc_service("svc"), Ok(()));
    assert!(b.has_service());
    let built = b.build(None).ok().unwrap();
    assert_eq!(*built.serving.service.get_ref(), "svc");
    assert_eq!(
        built.serving.listen_address,
        ListenEndpoint { ip: IpAddress::V4(0, 0, 0, 0), port: 8888 }
    );
    assert!(built.server.is_started());
    assert_eq!(built.server.serving_at(), Some(built.serving.listen_address));
    assert!(b.is_consumed());
    assert!(!b.has_service());
    assert!(matches!(b.build(None), Err(BuilderError::Consumed)));
    assert_eq!(b.add_grpc_service("late"), Err(BuilderError::Consumed));
    assert_eq!(b.add_grpc_services("late"), Err(BuilderError::Consumed));
    assert_eq!(
        b.update_listen_endpoint(IpAddress::V4(1, 1, 1, 1), 1),
        Err(BuilderError::Consumed)
    );
}

#[test]
fn grpc_builder_without_service_builds_nothing() {
    let mut b: GrpcServerBuilder<&'static str> = GrpcServerBuilder::new();
    assert!(matches!(b.build(None), Err(BuilderError::NoService)));
    assert!(!b.is_consumed());
    assert_eq!(b.add_grpc_service("svc"), Ok(()));
    assert!(b.build(Some("7001")).is_ok());
}

#[test]
fn grpc_builder_takes_one_service() {
    let mut b: GrpcServerBuilder<&'static str> = GrpcServerBuilder::new();
    assert_eq!(b.add_grpc_service("one"), Ok(()));
    assert_eq!(b.add_grpc_service("two"), Err(BuilderError::ServiceAlreadyAdded));
    assert_eq!(b.add_grpc_services("router"), Ok(()));
    let built = b.build(None).ok().unwrap();
    assert_eq!(built.serving.service.into_inner(), "router");
}

#[test]
fn grpc_address_resolution() {
    let mut from_env: GrpcServerBuilder<&'static str> = GrpcServerBuilder::new();
    from_env.add_grpc_service("svc").unwrap();
    assert_eq!(
        from_env.build(Some("7001")).ok().unwrap().serving.listen_address,
        ListenEndpoint { ip: IpAddress::V4(0, 0, 0, 0), port: 7001 }
    );
    let mut bad_env: GrpcServerBuilder<&'static str> = GrpcServerBuilder::new();
    bad_env.add_grpc_service("svc").unwrap();
    assert_eq!(bad_env.build(Some("port")).ok().unwrap().serving.listen_address.port, 8888);
    let mut explicit: GrpcServerBuilder<&'static str> = GrpcServerBuilder::new();
    explicit.add_grpc_service("svc").unwrap();
    explicit.update_listen_endpoint(IpAddress::V6(0, 0, 0, 0, 0, 0, 0, 1), 5000).unwrap();
    assert_eq!(
        explicit.build(Some("7001")).ok().unwrap().serving.listen_address,
        ListenEndpoint { ip: IpAddress::V6(0, 0, 0, 0, 0, 0, 0, 1), port: 5000 }
    );
}

#[test]
fn grpc_server_starts_once() {
    let mut server = GrpcServer::new(GrpcMetricsMiddlewareLayer.layer("svc"));
    assert!(!server.is_started());
    assert_eq!(server.serving_at(), None);
    let at = ListenEndpoint { ip: IpAddress::V4(0, 0, 0, 0), port: 8888 };
    let serving = server.start(at).ok().unwrap();
    assert_eq!(serving.listen_address, at);
    assert_eq!(*serving.service.get_ref(), "svc");
    assert!(server.is_started());
    assert!(matches!(server.start(at), Err(ListenerError::AlreadyStarted)));
    assert_eq!(server.serving_at(), Some(at));
}

#[test]
fn builder_with_controllers_from_the_start() {
    let mut b: HttpServerBuilder<Parts> = HttpServerBuilder::with_controllers(
        "orders".to_string(),
        "2.0".to_string(),
        Some(3),
        None,
        IpAddress::V4(10, 0, 0, 1),
    );
    assert_eq!(b.listen_address(), ListenEndpoint { ip: IpAddress::V4(10, 0, 0, 1), port: 8000 });
    assert_eq!(b.route_count(), 0);
    b.add_middleware("A").unwrap();
    let server = b.build().ok().unwrap();
    assert_eq!(
        kinds(&server.chain),
        vec!["health:orders:2.0", "docs:orders:2.0", "metrics", "controllers:0", "custom:A"]
    );
    match &server.chain[3] {
        ChainEntry::Controllers(c) => {
            assert_eq!(c.authorization, Some(3));
            assert_eq!(c.auth_error_factory, None);
        }
        _ => panic!("controllers expected"),
    }
}

#[test]
fn update_ip_keeps_the_default_port() {
    let mut b = builder();
    b.update_listen_endpoint(IpAddress::V4(127, 0, 0, 1), 9999).unwrap();
    b.update_ip(IpAddress::V4(192, 168, 0, 1)).unwrap();
    assert_eq!(b.listen_address(), ListenEndpoint { ip: IpAddress::V4(192, 168, 0, 1), port: 8000 });
    b.build().ok().unwrap();
    assert_eq!(b.update_ip(IpAddress::V4(1, 1, 1, 1)), Err(BuilderError::Consumed));
}
