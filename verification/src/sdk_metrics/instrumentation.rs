//! What is recorded for a request. The rules are the same for every
//! transport; only the names of the metrics carry the transport.

use vstd::prelude::*;
use vstd::string::*;

verus! {

/// A transport that carries requests into the service.
#[derive(Clone, Copy, PartialEq, Eq, Debug, Structural)]
pub enum Transport {
    Http,
    Grpc,
}

/// How a request ended.
#[derive(Clone, Copy, PartialEq, Eq, Debug, Structural)]
pub enum RequestOutcome {
    /// A handler answered the request.
    Success,
    /// No route matched the request.
    NotFound,
    /// A handler failed the request with the given status.
    Failure { status_code: u16 },
}

/// The status with which a request is answered that no route matches.
pub const STATUS_NOT_FOUND: u16 = 404;

/// The first status that reports a failure.
pub const STATUS_FIRST_FAILURE: u16 = 400;

/// A metric of a transport, without the transport's prefix.
#[derive(Clone, Copy, PartialEq, Eq, Debug, Structural)]
pub enum MetricName {
    /// Counter of the requests that succeeded.
    RequestCount,
    /// Histogram of the seconds that successful requests took.
    RequestDurationSec,
    /// Counter of the milliseconds that successful requests took in sum.
    RequestDurationMillisSum,
    /// Counter of the requests that failed.
    FailedRequestCount,
    /// Histogram of the seconds that failed requests took.
    FailedRequestDurationSec,
    /// Counter of the milliseconds that failed requests took in sum.
    FailedRequestDurationMillisSum,
}

/// What an update does to its metric.
#[derive(Clone, Copy, PartialEq, Eq, Debug, Structural)]
pub enum MetricValue {
    /// Add the amount to a counter.
    Increment(u64),
    /// Record a duration, given in nanoseconds, in a histogram of seconds.
    Duration { nanos: u128 },
}

/// The labels of an update.
pub struct MetricLabels {
    pub method: String,
    pub path: String,
    /// The status of the failure; absent on the metrics of successes.
    pub status_code: Option<u16>,
}

/// One update of one metric.
pub struct MetricUpdate {
    pub transport: Transport,
    pub name: MetricName,
    pub labels: MetricLabels,
    pub value: MetricValue,
}

/// An update as contracts speak of it.
pub struct MetricUpdateView {
    pub transport: Transport,
    pub name: MetricName,
    pub method: Seq<char>,
    pub path: Seq<char>,
    pub status_code: Option<u16>,
    pub value: MetricValue,
}

impl View for MetricUpdate {
    type V = MetricUpdateView;

    open spec fn view(&self) -> MetricUpdateView {
        MetricUpdateView {
            transport: self.transport,
            name: self.name,
            method: self.labels.method@,
            path: self.labels.path@,
            status_code: self.labels.status_code,
            value: self.value,
        }
    }
}

/// The views of a list of updates.
pub open spec fn update_views(updates: Seq<MetricUpdate>) -> Seq<MetricUpdateView> {
    updates.map_values(|u: MetricUpdate| u@)
}

impl MetricName {
    /// Whether the metric belongs to the requests that failed.
    pub open spec fn spec_is_failure_metric(self) -> bool {
        self == MetricName::FailedRequestCount || self == MetricName::FailedRequestDurationSec
            || self == MetricName::FailedRequestDurationMillisSum
    }

    /// Whether the metric belongs to the requests that failed.
    pub fn is_failure_metric(self) -> (b: bool)
        ensures
            b == self.spec_is_failure_metric(),
    {
        match self {
            MetricName::FailedRequestCount => true,
            MetricName::FailedRequestDurationSec => true,
            MetricName::FailedRequestDurationMillisSum => true,
            _ => false,
        }
    }

    /// Whether the metric is a histogram; the others are counters.
    pub open spec fn spec_is_histogram(self) -> bool {
        self == MetricName::RequestDurationSec || self == MetricName::FailedRequestDurationSec
    }

    /// Whether the metric is a histogram; the others are counters.
    pub fn is_histogram(self) -> (b: bool)
        ensures
            b == self.spec_is_histogram(),
    {
        match self {
            MetricName::RequestDurationSec => true,
            MetricName::FailedRequestDurationSec => true,
            _ => false,
        }
    }
}

/// The name under which a metric of a transport is emitted.
pub open spec fn metric_name(transport: Transport, name: MetricName) -> Seq<char> {
    match (transport, name) {
        (Transport::Http, MetricName::RequestCount) => "http_request_count"@,
        (Transport::Http, MetricName::RequestDurationSec) => "http_request_duration_sec"@,
        (Transport::Http, MetricName::RequestDurationMillisSum) => "http_request_duration_millis_sum"@,
        (Transport::Http, MetricName::FailedRequestCount) => "http_failed_request_count"@,
        (Transport::Http, MetricName::FailedRequestDurationSec) => "http_failed_request_duration_sec"@,
        (Transport::Http, MetricName::FailedRequestDurationMillisSum) => "http_failed_request_duration_millis_sum"@,
        (Transport::Grpc, MetricName::RequestCount) => "grpc_request_count"@,
        (Transport::Grpc, MetricName::RequestDurationSec) => "grpc_request_duration_sec"@,
        (Transport::Grpc, MetricName::RequestDurationMillisSum) => "grpc_request_duration_millis_sum"@,
        (Transport::Grpc, MetricName::FailedRequestCount) => "grpc_failed_request_count"@,
        (Transport::Grpc, MetricName::FailedRequestDurationSec) => "grpc_failed_request_duration_sec"@,
        (Transport::Grpc, MetricName::FailedRequestDurationMillisSum) => "grpc_failed_request_duration_millis_sum"@,
    }
}

impl MetricUpdate {
    /// The name under which the update's metric is emitted.
    pub fn full_name(&self) -> (name: &'static str)
        ensures
            name@ == metric_name(self.transport, self.name),
    {
        match (self.transport, self.name) {
            (Transport::Http, MetricName::RequestCount) => "http_request_count",
            (Transport::Http, MetricName::RequestDurationSec) => "http_request_duration_sec",
            (Transport::Http, MetricName::RequestDurationMillisSum) => "http_request_duration_millis_sum",
            (Transport::Http, MetricName::FailedRequestCount) => "http_failed_request_count",
            (Transport::Http, MetricName::FailedRequestDurationSec) => "http_failed_request_duration_sec",
            (Transport::Http, MetricName::FailedRequestDurationMillisSum) => "http_failed_request_duration_millis_sum",
            (Transport::Grpc, MetricName::RequestCount) => "grpc_request_count",
            (Transport::Grpc, MetricName::RequestDurationSec) => "grpc_request_duration_sec",
            (Transport::Grpc, MetricName::RequestDurationMillisSum) => "grpc_request_duration_millis_sum",
            (Transport::Grpc, MetricName::FailedRequestCount) => "grpc_failed_request_count",
            (Transport::Grpc, MetricName::FailedRequestDurationSec) => "grpc_failed_request_duration_sec",
            (Transport::Grpc, MetricName::FailedRequestDurationMillisSum) => "grpc_failed_request_duration_millis_sum",
        }
    }
}

/// The whole milliseconds of a duration given in nanoseconds, as a counter
/// takes them: the low 64 bits of the quotient.
pub open spec fn millis_of(nanos: u128) -> u64 {
    (nanos / 1_000_000) as u64
}

/// The whole milliseconds of a duration given in nanoseconds, as a counter
/// takes them.
pub fn whole_millis(nanos: u128) -> (millis: u64)
    ensures
        millis == millis_of(nanos),
        nanos / 1_000_000 <= u64::MAX ==> millis == nanos / 1_000_000,
{
    #[verifier::truncate]
    ((nanos / 1_000_000) as u64)
}

impl RequestOutcome {
    /// The outcome that a status alone stands for: 404 says that no route
    /// matched, every other status from 400 on says that the request
    /// failed, and every status below says that it succeeded.
    pub open spec fn spec_from_status_code(status_code: u16) -> RequestOutcome {
        if status_code == STATUS_NOT_FOUND {
            RequestOutcome::NotFound
        } else if status_code >= STATUS_FIRST_FAILURE {
            RequestOutcome::Failure { status_code }
        } else {
            RequestOutcome::Success
        }
    }

    /// The outcome that a status alone stands for.
    pub fn from_status_code(status_code: u16) -> (outcome: RequestOutcome)
        ensures
            outcome == Self::spec_from_status_code(status_code),
    {
        if status_code == STATUS_NOT_FOUND {
            RequestOutcome::NotFound
        } else if status_code >= STATUS_FIRST_FAILURE {
            RequestOutcome::Failure { status_code }
        } else {
            RequestOutcome::Success
        }
    }

    /// The outcome of a handler that either answered or failed with a
    /// status: an answer is a success, a failure with status 404 says that
    /// no route matched, and every other failure is a failure with its status.
    pub open spec fn spec_from_failure(failure_status: Option<u16>) -> RequestOutcome {
        match failure_status {
            None => RequestOutcome::Success,
            Some(status_code) => if status_code == STATUS_NOT_FOUND {
                RequestOutcome::NotFound
            } else {
                RequestOutcome::Failure { status_code }
            },
        }
    }

    /// The outcome of a handler that either answered or failed with a status.
    pub fn from_failure(failure_status: Option<u16>) -> (outcome: RequestOutcome)
        ensures
            outcome == Self::spec_from_failure(failure_status),
    {
        match failure_status {
            None => RequestOutcome::Success,
            Some(status_code) => if status_code == STATUS_NOT_FOUND {
                RequestOutcome::NotFound
            } else {
                RequestOutcome::Failure { status_code }
            },
        }
    }
}

/// One update as contracts speak of it.
pub open spec fn update(
    transport: Transport,
    name: MetricName,
    method: Seq<char>,
    path: Seq<char>,
    status_code: Option<u16>,
    value: MetricValue,
) -> MetricUpdateView {
    MetricUpdateView { transport, name, method, path, status_code, value }
}

/// What is recorded for one request.
///
/// A request that no route matched records nothing. A request that failed
/// adds one to the counter of failures, its milliseconds to their sum and
/// its duration to their histogram, each labeled with method, path and
/// status, and touches no metric of the successes. A request that
/// succeeded records its duration, its milliseconds and one more request
/// in the metrics of the successes, labeled with method and path.
pub open spec fn request_metrics(
    transport: Transport,
    method: Seq<char>,
    path: Seq<char>,
    outcome: RequestOutcome,
    nanos: u128,
) -> Seq<MetricUpdateView> {
    match outcome {
        RequestOutcome::NotFound => Seq::empty(),
        RequestOutcome::Failure { status_code } => seq![
            update(
                transport,
                MetricName::FailedRequestCount,
                method,
                path,
                Some(status_code),
                MetricValue::Increment(1),
            ),
            update(
                transport,
                MetricName::FailedRequestDurationMillisSum,
                method,
                path,
                Some(status_code),
                MetricValue::Increment(millis_of(nanos)),
            ),
            update(
                transport,
                MetricName::FailedRequestDurationSec,
                method,
                path,
                Some(status_code),
                MetricValue::Duration { nanos },
            ),
        ],
        RequestOutcome::Success => seq![
            update(
                transport,
                MetricName::RequestDurationSec,
                method,
                path,
                None,
                MetricValue::Duration { nanos },
            ),
            update(
                transport,
                MetricName::RequestDurationMillisSum,
                method,
                path,
                None,
                MetricValue::Increment(millis_of(nanos)),
            ),
            update(
                transport,
                MetricName::RequestCount,
                method,
                path,
                None,
                MetricValue::Increment(1),
            ),
        ],
    }
}

fn labelled(
    transport: Transport,
    name: MetricName,
    method: &str,
    path: &str,
    status_code: Option<u16>,
    value: MetricValue,
) -> (u: MetricUpdate)
    ensures
        u@ == update(transport, name, method@, path@, status_code, value),
{
    MetricUpdate {
        transport,
        name,
        labels: MetricLabels {
            method: String::from_str(method),
            path: String::from_str(path),
            status_code,
        },
        value,
    }
}

/// The updates to record for one request that took `nanos` nanoseconds.
pub fn record_request(
    transport: Transport,
    method: &str,
    path: &str,
    outcome: RequestOutcome,
    nanos: u128,
) -> (updates: Vec<MetricUpdate>)
    ensures
        update_views(updates@) == request_metrics(transport, method@, path@, outcome, nanos),
{
    let mut updates: Vec<MetricUpdate> = Vec::new();
    match outcome {
        RequestOutcome::NotFound => {},
        RequestOutcome::Failure { status_code } => {
            let status = Some(status_code);
            updates.push(
                labelled(
                    transport,
                    MetricName::FailedRequestCount,
                    method,
                    path,
                    status,
                    MetricValue::Increment(1),
                ),
            );
            updates.push(
                labelled(
                    transport,
                    MetricName::FailedRequestDurationMillisSum,
                    method,
                    path,
                    status,
                    MetricValue::Increment(whole_millis(nanos)),
                ),
            );
            updates.push(
                labelled(
                    transport,
                    MetricName::FailedRequestDurationSec,
                    method,
                    path,
                    status,
                    MetricValue::Duration { nanos },
                ),
            );
        },
        RequestOutcome::Success => {
            updates.push(
                labelled(
                    transport,
                    MetricName::RequestDurationSec,
                    method,
                    path,
                    None,
                    MetricValue::Duration { nanos },
                ),
            );
            updates.push(
                labelled(
                    transport,
                    MetricName::RequestDurationMillisSum,
                    method,
                    path,
                    None,
                    MetricValue::Increment(whole_millis(nanos)),
                ),
            );
            updates.push(
                labelled(
                    transport,
                    MetricName::RequestCount,
                    method,
                    path,
                    None,
                    MetricValue::Increment(1),
                ),
            );
        },
    }
    assert(update_views(updates@) =~= request_metrics(transport, method@, path@, outcome, nanos));
    updates
}

/// Whether `updates` holds an update of a metric of the successes.
pub open spec fn touches_success_metrics(updates: Seq<MetricUpdateView>) -> bool {
    exists|i: int| 0 <= i < updates.len() && !(#[trigger] updates[i]).name.spec_is_failure_metric()
}

/// Whether `updates` holds an update of a metric of the failures.
pub open spec fn touches_failure_metrics(updates: Seq<MetricUpdateView>) -> bool {
    exists|i: int| 0 <= i < updates.len() && (#[trigger] updates[i]).name.spec_is_failure_metric()
}

/// What `updates` adds to the counter `name` under the labels given: the
/// sum of the increments of the updates that name that counter with
/// those labels.
pub open spec fn counter_increase(
    updates: Seq<MetricUpdateView>,
    name: MetricName,
    method: Seq<char>,
    path: Seq<char>,
    status_code: Option<u16>,
) -> int
    decreases updates.len(),
{
    if updates.len() == 0 {
        0
    } else {
        let last = updates.last();
        let rest = counter_increase(updates.drop_last(), name, method, path, status_code);
        if last.name == name && last.method == method && last.path == path && last.status_code
            == status_code {
            match last.value {
                MetricValue::Increment(amount) => rest + amount,
                MetricValue::Duration { .. } => rest,
            }
        } else {
            rest
        }
    }
}

/// A request that no route matched records nothing: it adds to no counter
/// and to no histogram, on whatever transport and however long it took.
pub proof fn lemma_not_found_is_silent(
    transport: Transport,
    method: Seq<char>,
    path: Seq<char>,
    nanos: u128,
)
    ensures
        request_metrics(transport, method, path, RequestOutcome::NotFound, nanos).len() == 0,
        request_metrics(
            transport,
            method,
            path,
            RequestOutcome::spec_from_failure(Some(STATUS_NOT_FOUND)),
            nanos,
        ).len() == 0,
        request_metrics(
            transport,
            method,
            path,
            RequestOutcome::spec_from_status_code(STATUS_NOT_FOUND),
            nanos,
        ).len() == 0,
{
}

/// A request that failed adds exactly one to the counter of failures
/// under its method, path and status, labels each of its updates with
/// that status, and leaves every metric of the successes alone.
pub proof fn lemma_failure_counts_once(
    transport: Transport,
    method: Seq<char>,
    path: Seq<char>,
    status_code: u16,
    nanos: u128,
)
    ensures
        ({
            let updates = request_metrics(
                transport,
                method,
                path,
                RequestOutcome::Failure { status_code },
                nanos,
            );
            &&& counter_increase(
                updates,
                MetricName::FailedRequestCount,
                method,
                path,
                Some(status_code),
            ) == 1
            &&& counter_increase(updates, MetricName::RequestCount, method, path, None) == 0
            &&& !touches_success_metrics(updates)
            &&& forall|i: int|
                0 <= i < updates.len() ==> (#[trigger] updates[i]).status_code == Some(status_code)
                    && updates[i].transport == transport && updates[i].method == method
                    && updates[i].path == path
        }),
{
    let updates = request_metrics(
        transport,
        method,
        path,
        RequestOutcome::Failure { status_code },
        nanos,
    );
    let two = updates.drop_last();
    let one = two.drop_last();
    let none = one.drop_last();
    assert(none.len() == 0);
    assert(one.last() == updates[0]);
    assert(two.last() == updates[1]);
    assert(updates.last() == updates[2]);
    let failed = MetricName::FailedRequestCount;
    assert(counter_increase(none, failed, method, path, Some(status_code)) == 0);
    assert(counter_increase(one, failed, method, path, Some(status_code)) == 1);
    assert(counter_increase(two, failed, method, path, Some(status_code)) == 1);
    let succeeded = MetricName::RequestCount;
    assert(counter_increase(none, succeeded, method, path, None) == 0);
    assert(counter_increase(one, succeeded, method, path, None) == 0);
    assert(counter_increase(two, succeeded, method, path, None) == 0);
}

/// A request that succeeded adds exactly one to the counter of requests
/// under its method and path, labels none of its updates with a status,
/// and leaves every metric of the failures alone.
pub proof fn lemma_success_counts_once(
    transport: Transport,
    method: Seq<char>,
    path: Seq<char>,
    nanos: u128,
)
    ensures
        ({
            let updates = request_metrics(transport, method, path, RequestOutcome::Success, nanos);
            &&& counter_increase(updates, MetricName::RequestCount, method, path, None) == 1
            &&& !touches_failure_metrics(updates)
            &&& forall|i: int|
                0 <= i < updates.len() ==> (#[trigger] updates[i]).status_code == None::<u16>
                    && updates[i].transport == transport && updates[i].method == method
                    && updates[i].path == path
        }),
{
    let updates = request_metrics(transport, method, path, RequestOutcome::Success, nanos);
    let two = updates.drop_last();
    let one = two.drop_last();
    let none = one.drop_last();
    assert(none.len() == 0);
    assert(one.last() == updates[0]);
    assert(two.last() == updates[1]);
    assert(updates.last() == updates[2]);
    let succeeded = MetricName::RequestCount;
    assert(counter_increase(none, succeeded, method, path, None) == 0);
    assert(counter_increase(one, succeeded, method, path, None) == 0);
    assert(counter_increase(two, succeeded, method, path, None) == 0);
}

/// The transports record by the same rules: what a request adds on one
/// transport differs from what it adds on the other in the transport of
/// each update and in nothing else.
pub proof fn lemma_transports_record_alike(
    method: Seq<char>,
    path: Seq<char>,
    outcome: RequestOutcome,
    nanos: u128,
)
    ensures
        ({
            let http = request_metrics(Transport::Http, method, path, outcome, nanos);
            let grpc = request_metrics(Transport::Grpc, method, path, outcome, nanos);
            &&& http.len() == grpc.len()
            &&& forall|i: int|
                0 <= i < http.len() ==> (#[trigger] http[i]) == (MetricUpdateView {
                    transport: Transport::Http,
                    ..grpc[i]
                })
        }),
{
}

} // verus!
