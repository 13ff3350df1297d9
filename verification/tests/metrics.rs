use service_sdk::sdk_metrics::exposition::{
    exposition_response, expose_default_registry, has_untyped, is_metrics_path,
    render_exposition,
};
use service_sdk::sdk_metrics::instrumentation::whole_millis;
use service_sdk::{
    record_request, GrpcMetricsMiddlewareLayer, HandlerFailure, MetricName, MetricUpdate,
    MetricValue, MetricsMiddleware, MiddlewareResponse, RequestFlow, RequestOutcome,
    RequestTimer, RpcAnswer, Transport,
};

fn flat(updates: &[MetricUpdate]) -> Vec<(&'static str, String, String, Option<u16>, MetricValue)> {
    updates
        .iter()
        .map(|u| {
            (
                u.full_name(),
                u.labels.method.clone(),
                u.labels.path.clone(),
                u.labels.status_code,
                u.value,
            )
        })
        .collect()
}

fn row(
    name: &'static str,
    status: Option<u16>,
    value: MetricValue,
) -> (&'static str, String, String, Option<u16>, MetricValue) {
    (name, "GET".to_string(), "/orders".to_string(), status, value)
}

#[test]
fn success_records_success_metrics_only() {
    let updates =
        record_request(Transport::Http, "GET", "/orders", RequestOutcome::Success, 2_500_000_000);
    assert_eq!(
        flat(&updates),
        vec![
            row("http_request_duration_sec", None, MetricValue::Duration { nanos: 2_500_000_000 }),
            row("http_request_duration_millis_sum", None, MetricValue::Increment(2500)),
            row("http_request_count", None, MetricValue::Increment(1)),
        ]
    );
    assert!(updates.iter().all(|u| !u.name.is_failure_metric()));
}

#[test]
fn failure_with_status_500_counts_one_failure_and_no_success() {
    let updates = record_request(
        Transport::Http,
        "GET",
        "/orders",
        RequestOutcome::Failure { status_code: 500 },
        1_999_999,
    );
    assert_eq!(
        flat(&updates),
        vec![
            row("http_failed_request_count", Some(500), MetricValue::Increment(1)),
            row("http_failed_request_duration_millis_sum", Some(500), MetricValue::Increment(1)),
            row(
                "http_failed_request_duration_sec",
                Some(500),
                MetricValue::Duration { nanos: 1_999_999 }
            ),
        ]
    );
    assert!(updates.iter().all(|u| u.name.is_failure_metric()));
    assert_eq!(updates.iter().filter(|u| u.name == MetricName::RequestCount).count(), 0);
}

#[test]
fn one_success_and_one_failure_through_the_middleware() {
    let middleware = MetricsMiddleware::new();
    let ok = middleware.handle_request("GET", "/orders", || Ok::<u32, HandlerFailure<String>>(7));
    let failed = middleware.handle_request("GET", "/orders", || {
        Err::<u32, HandlerFailure<String>>(HandlerFailure {
            status_code: 500,
            content: "boom".to_string(),
        })
    });
    assert!(matches!(ok.response, MiddlewareResponse::Handler(Ok(7))));
    match &failed.response {
        MiddlewareResponse::Handler(Err(f)) => {
            assert_eq!(f.status_code, 500);
            assert_eq!(f.content, "boom");
        }
        _ => panic!("the failure of the handler was not handed on"),
    }
    let all: Vec<&MetricUpdate> = ok.updates.iter().chain(failed.updates.iter()).collect();
    let failures: u64 = all
        .iter()
        .filter(|u| u.name == MetricName::FailedRequestCount && u.labels.status_code == Some(500))
        .map(|u| match u.value {
            MetricValue::Increment(n) => n,
            MetricValue::Duration { .. } => 0,
        })
        .sum();
    let successes: u64 = all
        .iter()
        .filter(|u| u.name == MetricName::RequestCount)
        .map(|u| match u.value {
            MetricValue::Increment(n) => n,
            MetricValue::Duration { .. } => 0,
        })
        .sum();
    assert_eq!(failures, 1);
    assert_eq!(successes, 1);
    assert_eq!(failed.updates.len(), 3);
    assert!(failed.updates.iter().all(|u| u.name.is_failure_metric()));
    assert_eq!(
        failed.updates[2].value,
        MetricValue::Duration { nanos: failed.elapsed_nanos }
    );
    assert_eq!(
        failed.updates[1].value,
        MetricValue::Increment(whole_millis(failed.elapsed_nanos))
    );
}

#[test]
fn unmatched_route_records_nothing() {
    assert!(record_request(Transport::Http, "GET", "/nowhere", RequestOutcome::NotFound, 5)
        .is_empty());
    assert!(record_request(Transport::Grpc, "POST", "/nowhere", RequestOutcome::NotFound, 5)
        .is_empty());
    let middleware = MetricsMiddleware::new();
    let handled = middleware.handle_request("GET", "/nowhere", || {
        Err::<u32, HandlerFailure<u8>>(HandlerFailure { status_code: 404, content: 0 })
    });
    assert!(handled.updates.is_empty());
    assert!(matches!(handled.response, MiddlewareResponse::Handler(Err(_))));
}

#[test]
fn metrics_path_never_reaches_the_handler() {
    let middleware = MetricsMiddleware::new();
    let mut called = false;
    let handled = middleware.handle_request("GET", "/metrics", || {
        called = true;
        Ok::<u32, HandlerFailure<u8>>(1)
    });
    assert!(!called);
    assert!(handled.updates.is_empty());
    assert_eq!(handled.elapsed_nanos, 0);
    match handled.response {
        MiddlewareResponse::Exposition(Ok(output)) => assert_eq!(output.status_code, 200),
        MiddlewareResponse::Exposition(Err(output)) => assert_eq!(output.status_code, 502),
        MiddlewareResponse::Handler(_) => panic!("the handler was reached"),
    }
    assert!(matches!(middleware.begin_request("/metrics"), RequestFlow::Exposition(_)));
    assert!(matches!(middleware.begin_request("/metrics/"), RequestFlow::Forward(_)));
    assert!(matches!(middleware.begin_request("/Metrics"), RequestFlow::Forward(_)));
    assert!(matches!(middleware.begin_request(""), RequestFlow::Forward(_)));
}

#[test]
fn metrics_path_is_exact() {
    assert!(is_metrics_path("/metrics"));
    assert!(!is_metrics_path("metrics"));
    assert!(!is_metrics_path("/metrics?x=1"));
    assert!(!is_metrics_path("/api/metrics"));
}

#[test]
fn exposition_has_one_shape_for_empty_and_populated_registry() {
    let empty = exposition_response(Ok(String::new())).ok().unwrap();
    let populated =
        exposition_response(Ok("http_request_count{method=\"GET\"} 1\n".to_string())).ok().unwrap();
    assert_eq!(empty.status_code, 200);
    assert_eq!(populated.status_code, 200);
    assert_eq!(empty.text, "");
    assert_eq!(populated.text, "http_request_count{method=\"GET\"} 1\n");
    let failed = exposition_response(Err("no name".to_string())).err().unwrap();
    assert_eq!(failed.status_code, 502);
    assert_eq!(failed.text, "no name");
}

#[test]
fn no_metric_family_renders_as_empty_success() {
    let rendered = render_exposition(&Vec::new()).ok().unwrap();
    assert_eq!(rendered.status_code, 200);
    assert_eq!(rendered.text, "");
}

#[test]
fn registered_counter_is_rendered_in_exposition_format() {
    let counter =
        prometheus::IntCounter::new("exposition_test_total", "counts test requests").unwrap();
    counter.inc_by(3);
    let registry = prometheus::Registry::new();
    registry.register(Box::new(counter)).unwrap();
    let rendered = render_exposition(&registry.gather()).ok().unwrap();
    assert_eq!(rendered.status_code, 200);
    assert!(rendered.text.contains("exposition_test_total 3"));
}

#[test]
fn malformed_metric_family_is_a_failure_with_status_502() {
    let family = prometheus::proto::MetricFamily::new();
    let rendered = render_exposition(&vec![family]).err().unwrap();
    assert_eq!(rendered.status_code, 502);
    assert!(!rendered.text.is_empty());
}

#[test]
fn default_registry_is_exposed() {
    let response = expose_default_registry();
    match response {
        Ok(output) => assert_eq!(output.status_code, 200),
        Err(output) => assert_eq!(output.status_code, 502),
    }
}

#[test]
fn outcome_of_a_status() {
    assert_eq!(RequestOutcome::from_status_code(200), RequestOutcome::Success);
    assert_eq!(RequestOutcome::from_status_code(399), RequestOutcome::Success);
    assert_eq!(
        RequestOutcome::from_status_code(400),
        RequestOutcome::Failure { status_code: 400 }
    );
    assert_eq!(RequestOutcome::from_status_code(404), RequestOutcome::NotFound);
    assert_eq!(
        RequestOutcome::from_status_code(500),
        RequestOutcome::Failure { status_code: 500 }
    );
    assert_eq!(RequestOutcome::from_failure(None), RequestOutcome::Success);
    assert_eq!(RequestOutcome::from_failure(Some(404)), RequestOutcome::NotFound);
    assert_eq!(
        RequestOutcome::from_failure(Some(200)),
        RequestOutcome::Failure { status_code: 200 }
    );
}

#[test]
fn whole_milliseconds() {
    assert_eq!(whole_millis(0), 0);
    assert_eq!(whole_millis(999_999), 0);
    assert_eq!(whole_millis(1_000_000), 1);
    assert_eq!(whole_millis(1_500_000_000), 1500);
    assert_eq!(whole_millis(u64::MAX as u128 * 1_000_000), u64::MAX);
    assert_eq!(whole_millis((u64::MAX as u128 + 1) * 1_000_000), 0);
    assert_eq!(whole_millis((u64::MAX as u128 + 6) * 1_000_000 + 17), 5);
}

#[test]
fn metric_names_per_transport() {
    let names: Vec<&'static str> = record_request(
        Transport::Grpc,
        "POST",
        "/pkg.Service/Call",
        RequestOutcome::Success,
        1,
    )
    .iter()
    .chain(
        record_request(
            Transport::Grpc,
            "POST",
            "/pkg.Service/Call",
            RequestOutcome::Failure { status_code: 503 },
            1,
        )
        .iter(),
    )
    .map(|u| u.full_name())
    .collect();
    assert_eq!(
        names,
        vec![
            "grpc_request_duration_sec",
            "grpc_request_duration_millis_sum",
            "grpc_request_count",
            "grpc_failed_request_count",
            "grpc_failed_request_duration_millis_sum",
            "grpc_failed_request_duration_sec",
        ]
    );
    assert!(MetricName::RequestDurationSec.is_histogram());
    assert!(MetricName::FailedRequestDurationSec.is_histogram());
    assert!(!MetricName::RequestCount.is_histogram());
}

#[test]
fn transports_record_alike() {
    for outcome in [
        RequestOutcome::Success,
        RequestOutcome::NotFound,
        RequestOutcome::Failure { status_code: 500 },
    ] {
        let http = record_request(Transport::Http, "GET", "/x", outcome, 42_000_000);
        let grpc = record_request(Transport::Grpc, "GET", "/x", outcome, 42_000_000);
        assert_eq!(http.len(), grpc.len());
        for (h, g) in http.iter().zip(grpc.iter()) {
            assert_eq!(h.transport, Transport::Http);
            assert_eq!(g.transport, Transport::Grpc);
            assert_eq!(h.name, g.name);
            assert_eq!(h.value, g.value);
            assert_eq!(h.labels.status_code, g.labels.status_code);
            assert_eq!(h.labels.method, g.labels.method);
            assert_eq!(h.labels.path, g.labels.path);
        }
    }
}

#[test]
fn rpc_call_through_the_instrumentation() {
    let middleware = GrpcMetricsMiddlewareLayer.layer("service");
    assert_eq!(*middleware.get_ref(), "service");
    let ok = middleware.call("POST", "/pkg.Service/Call", || {
        Ok::<RpcAnswer<&str>, String>(RpcAnswer { status_code: 200, content: "pong" })
    });
    assert_eq!(ok.response.as_ref().ok().unwrap().content, "pong");
    let names: Vec<&str> = ok.updates.iter().map(|u| u.full_name()).collect();
    assert_eq!(
        names,
        vec!["grpc_request_duration_sec", "grpc_request_duration_millis_sum", "grpc_request_count"]
    );
    assert!(ok.updates.iter().all(|u| u.labels.status_code.is_none()));
    let failed = middleware.call("POST", "/pkg.Service/Call", || {
        Ok::<RpcAnswer<&str>, String>(RpcAnswer { status_code: 500, content: "" })
    });
    assert_eq!(failed.updates.len(), 3);
    assert!(failed.updates.iter().all(|u| u.labels.status_code == Some(500)));
    let missing = middleware.call("POST", "/pkg.Service/Nope", || {
        Ok::<RpcAnswer<&str>, String>(RpcAnswer { status_code: 404, content: "" })
    });
    assert!(missing.updates.is_empty());
    let broken = middleware
        .call("POST", "/pkg.Service/Call", || Err::<RpcAnswer<&str>, String>("reset".to_string()));
    assert_eq!(broken.response.err(), Some("reset".to_string()));
    assert!(broken.updates.is_empty());
    assert_eq!(middleware.clone().into_inner(), "service");
}

fn spin_for(span: std::time::Duration) {
    let begin = std::time::Instant::now();
    while begin.elapsed() < span {
        std::hint::spin_loop();
    }
}

#[test]
fn timer_measures_elapsed_time() {
    let timer = RequestTimer::start();
    spin_for(std::time::Duration::from_millis(20));
    let nanos = timer.stop();
    assert!(nanos >= 20_000_000);
    let middleware = MetricsMiddleware::new();
    match middleware.begin_request("/slow") {
        RequestFlow::Forward(timer) => {
            spin_for(std::time::Duration::from_millis(10));
            let (updates, nanos) = middleware.finish_request(timer, "GET", "/slow", None);
            assert!(nanos >= 10_000_000);
            assert_eq!(updates[0].value, MetricValue::Duration { nanos });
            assert_eq!(updates[1].value, MetricValue::Increment((nanos / 1_000_000) as u64));
        }
        RequestFlow::Exposition(_) => panic!("not the metrics path"),
    }
}

fn counter_family(name: &str, value: u64) -> Vec<prometheus::proto::MetricFamily> {
    let counter = prometheus::IntCounter::new(name, "counts").unwrap();
    counter.inc_by(value);
    let registry = prometheus::Registry::new();
    registry.register(Box::new(counter)).unwrap();
    registry.gather()
}

#[test]
fn exposition_is_what_the_encoder_renders() {
    let families = counter_family("rendered_total", 7);
    let expected = prometheus::TextEncoder::new().encode_to_string(&families).unwrap();
    let rendered = render_exposition(&families).ok().unwrap();
    assert_eq!(rendered.text, expected);
    assert_eq!(
        rendered.text,
        "# HELP rendered_total counts\n# TYPE rendered_total counter\nrendered_total 7\n"
    );
    let failed = vec![prometheus::proto::MetricFamily::new()];
    let message = prometheus::TextEncoder::new().encode_to_string(&failed).err().unwrap();
    assert_eq!(render_exposition(&failed).err().unwrap().text, message.to_string());
}

#[test]
fn untyped_family_is_answered_with_502_and_not_encoded() {
    let mut family = prometheus::proto::MetricFamily::new();
    family.set_name("legacy_value".to_string());
    family.set_field_type(prometheus::proto::MetricType::UNTYPED);
    family.mut_metric().push(prometheus::proto::Metric::new());
    let mut families = counter_family("typed_total", 1);
    assert!(!has_untyped(&families));
    assert!(!has_untyped(&Vec::new()));
    families.push(family);
    assert!(has_untyped(&families));
    let rendered = render_exposition(&families).err().unwrap();
    assert_eq!(rendered.status_code, 502);
    assert_eq!(rendered.text, "MetricFamily is untyped");
}

#[test]
fn metrics_path_needs_no_handler() {
    let middleware = MetricsMiddleware::new();
    let handled = middleware.handle_request("GET", "/metrics", || -> Result<
        u32,
        HandlerFailure<u8>,
    > {
        panic!("the handler was reached")
    });
    assert!(matches!(handled.response, MiddlewareResponse::Exposition(_)));
}
