//! The instrumentation of the HTTP transport. It also serves the metrics
//! endpoint, ahead of every handler.

use crate::sdk_metrics::exposition::{
    expose_default_registry, is_metrics_path, metrics_path, rendered_exposition, response_view,
    TextOutput, EXPOSITION_FAILED, EXPOSITION_OK,
};
use crate::sdk_metrics::instrumentation::{
    record_request, request_metrics, update_views, MetricUpdate, RequestOutcome, Transport,
};
use crate::sdk_metrics::timing::RequestTimer;
use vstd::prelude::*;

verus! {

/// A failure with which a handler answers a request.
pub struct HandlerFailure<E> {
    pub status_code: u16,
    pub content: E,
}

/// What the middleware decides when a request comes in.
pub enum RequestFlow {
    /// The request asked for the metrics: it is answered at once and
    /// reaches no handler.
    Exposition(Result<TextOutput, TextOutput>),
    /// The request goes on to the handlers and is timed from now on.
    Forward(RequestTimer),
}

/// The answer to a request that went through the middleware.
pub enum MiddlewareResponse<T, E> {
    /// The metrics, rendered by the middleware itself.
    Exposition(Result<TextOutput, TextOutput>),
    /// What the handlers answered, handed on as it came.
    Handler(Result<T, HandlerFailure<E>>),
}

/// A request that went through the middleware.
pub struct Handled<T, E> {
    pub response: MiddlewareResponse<T, E>,
    /// What the request adds to the metrics.
    pub updates: Vec<MetricUpdate>,
    /// The nanoseconds that the handlers took; zero for the metrics endpoint.
    pub elapsed_nanos: u128,
}

/// The status with which a handler failed, if it failed.
pub open spec fn failure_status<T, E>(result: Result<T, HandlerFailure<E>>) -> Option<u16> {
    match result {
        Ok(_) => None,
        Err(failure) => Some(failure.status_code),
    }
}

/// The status with which a handler failed, if it failed.
pub fn failure_status_of<T, E>(result: &Result<T, HandlerFailure<E>>) -> (status: Option<u16>)
    ensures
        status == failure_status(*result),
{
    match result {
        Ok(_) => None,
        Err(failure) => Some(failure.status_code),
    }
}

/// The middleware that instruments the HTTP transport.
pub struct MetricsMiddleware;

impl MetricsMiddleware {
    pub fn new() -> (middleware: Self) {
        MetricsMiddleware
    }

    /// Decides what becomes of a request for `path`. A request for the
    /// metrics is answered here and goes no further; every other request
    /// goes on to the handlers, timed.
    pub fn begin_request(&self, path: &str) -> (flow: RequestFlow)
        ensures
            path@ == metrics_path() <==> flow is Exposition,
            path@ != metrics_path() <==> flow is Forward,
            flow matches RequestFlow::Exposition(response) ==> exists|
                families: Seq<prometheus::proto::MetricFamily>,
            | response_view(response) == #[trigger] rendered_exposition(families),
            flow matches RequestFlow::Exposition(Ok(output)) ==> output.status_code == EXPOSITION_OK,
            flow matches RequestFlow::Exposition(Err(output)) ==> output.status_code
                == EXPOSITION_FAILED,
    {
        if is_metrics_path(path) {
            RequestFlow::Exposition(expose_default_registry())
        } else {
            RequestFlow::Forward(RequestTimer::start())
        }
    }

    /// Ends the timing of a request that the handlers answered, and says
    /// what the request adds to the metrics and how long it took.
    pub fn finish_request(
        &self,
        timer: RequestTimer,
        method: &str,
        path: &str,
        failure_status: Option<u16>,
    ) -> (recorded: (Vec<MetricUpdate>, u128))
        ensures
            update_views(recorded.0@) == request_metrics(
                Transport::Http,
                method@,
                path@,
                RequestOutcome::spec_from_failure(failure_status),
                recorded.1,
            ),
    {
        let nanos = timer.stop();
        let outcome = RequestOutcome::from_failure(failure_status);
        (record_request(Transport::Http, method, path, outcome, nanos), nanos)
    }

    /// Takes one request through the middleware.
    ///
    /// A request for the metrics is answered with the rendered registry:
    /// `get_next` is not called and nothing is recorded. For every other
    /// request `get_next` is called once, its answer is handed on as it
    /// came, and the request is recorded by its outcome and by the time
    /// that `get_next` took.
    pub fn handle_request<T, E, F: FnOnce() -> Result<T, HandlerFailure<E>>>(
        &self,
        method: &str,
        path: &str,
        get_next: F,
    ) -> (handled: Handled<T, E>)
        requires
            path@ != metrics_path() ==> call_requires(get_next, ()),
        ensures
            path@ == metrics_path() ==> handled.response is Exposition && handled.updates@.len()
                == 0 && handled.elapsed_nanos == 0,
            handled.response matches MiddlewareResponse::Exposition(response) ==> exists|
                families: Seq<prometheus::proto::MetricFamily>,
            | response_view(response) == #[trigger] rendered_exposition(families),
            path@ != metrics_path() ==> (handled.response matches MiddlewareResponse::Handler(result)
                && call_ensures(get_next, (), result) && update_views(handled.updates@)
                == request_metrics(
                Transport::Http,
                method@,
                path@,
                RequestOutcome::spec_from_failure(failure_status(result)),
                handled.elapsed_nanos,
            )),
            handled.response matches MiddlewareResponse::Exposition(Ok(output))
                ==> output.status_code == EXPOSITION_OK,
            handled.response matches MiddlewareResponse::Exposition(Err(output))
                ==> output.status_code == EXPOSITION_FAILED,
    {
        match self.begin_request(path) {
            RequestFlow::Exposition(response) => Handled {
                response: MiddlewareResponse::Exposition(response),
                updates: Vec::new(),
                elapsed_nanos: 0,
            },
            RequestFlow::Forward(timer) => {
                let result = get_next();
                let status = failure_status_of(&result);
                let (updates, elapsed_nanos) = self.finish_request(timer, method, path, status);
                Handled { response: MiddlewareResponse::Handler(result), updates, elapsed_nanos }
            },
        }
    }
}

} // verus!
