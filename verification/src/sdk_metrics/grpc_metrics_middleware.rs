//! The instrumentation of the RPC transport.

use crate::sdk_metrics::instrumentation::{
    record_request, request_metrics, update_views, MetricUpdate, RequestOutcome, Transport,
};
use crate::sdk_metrics::timing::RequestTimer;
use vstd::prelude::*;

verus! {

/// Wraps an RPC service into its instrumentation.
#[derive(Debug, Clone, Copy, Default)]
pub struct GrpcMetricsMiddlewareLayer;

/// An RPC service with the instrumentation around it.
#[derive(Debug)]
pub struct GrpcMetricsMiddleware<S> {
    inner: S,
}

impl<S: Clone> Clone for GrpcMetricsMiddleware<S> {
    fn clone(&self) -> (copy: Self) {
        GrpcMetricsMiddleware { inner: self.inner.clone() }
    }
}

/// The answer of an RPC service: a status and what goes with it.
pub struct RpcAnswer<T> {
    pub status_code: u16,
    pub content: T,
}

/// A call that went through the instrumentation.
pub struct HandledCall<T, E> {
    /// What the service answered, handed on as it came.
    pub response: Result<RpcAnswer<T>, E>,
    /// What the call adds to the metrics.
    pub updates: Vec<MetricUpdate>,
    /// The nanoseconds that the service took.
    pub elapsed_nanos: u128,
}

impl GrpcMetricsMiddlewareLayer {
    /// Puts the instrumentation around `service`.
    pub fn layer<S>(&self, service: S) -> (middleware: GrpcMetricsMiddleware<S>)
        ensures
            middleware.service() == service,
    {
        GrpcMetricsMiddleware { inner: service }
    }
}

impl<S> GrpcMetricsMiddleware<S> {
    /// The service that the instrumentation is around.
    pub closed spec fn service(self) -> S {
        self.inner
    }

    /// The service that the instrumentation is around.
    pub fn get_ref(&self) -> (service: &S)
        ensures
            *service == self.service(),
    {
        &self.inner
    }

    /// The service that the instrumentation is around, to call it.
    pub fn get_mut(&mut self) -> (service: &mut S)
        ensures
            *service == old(self).service(),
            final(self).service() == *final(service),
    {
        &mut self.inner
    }

    /// Takes the instrumentation off again.
    pub fn into_inner(self) -> (service: S)
        ensures
            service == self.service(),
    {
        self.inner
    }

    /// Starts the timing of a call.
    pub fn begin_call(&self) -> (timer: RequestTimer) {
        RequestTimer::start()
    }

    /// Ends the timing of a call that the service answered with
    /// `status_code`, and says what the call adds to the metrics and how
    /// long it took.
    pub fn finish_call(
        &self,
        timer: RequestTimer,
        method: &str,
        path: &str,
        status_code: u16,
    ) -> (recorded: (Vec<MetricUpdate>, u128))
        ensures
            update_views(recorded.0@) == request_metrics(
                Transport::Grpc,
                method@,
                path@,
                RequestOutcome::spec_from_status_code(status_code),
                recorded.1,
            ),
    {
        let nanos = timer.stop();
        let outcome = RequestOutcome::from_status_code(status_code);
        (record_request(Transport::Grpc, method, path, outcome, nanos), nanos)
    }

    /// Takes one call through the instrumentation: `invoke` is called
    /// once and its answer is handed on as it came. An answer is recorded
    /// by its status and by the time that `invoke` took. An error of the
    /// transport itself has no status and records nothing.
    pub fn call<T, E, F: FnOnce() -> Result<RpcAnswer<T>, E>>(
        &self,
        method: &str,
        path: &str,
        invoke: F,
    ) -> (handled: HandledCall<T, E>)
        requires
            call_requires(invoke, ()),
        ensures
            call_ensures(invoke, (), handled.response),
            handled.response matches Ok(answer) ==> update_views(handled.updates@)
                == request_metrics(
                Transport::Grpc,
                method@,
                path@,
                RequestOutcome::spec_from_status_code(answer.status_code),
                handled.elapsed_nanos,
            ),
            handled.response is Err ==> handled.updates@.len() == 0,
    {
        let timer = self.begin_call();
        let response = invoke();
        match &response {
            Ok(answer) => {
                let (updates, elapsed_nanos) = self.finish_call(
                    timer,
                    method,
                    path,
                    answer.status_code,
                );
                HandledCall { response, updates, elapsed_nanos }
            },
            Err(_) => {
                let elapsed_nanos = timer.stop();
                HandledCall { response, updates: Vec::new(), elapsed_nanos }
            },
        }
    }
}

} // verus!
