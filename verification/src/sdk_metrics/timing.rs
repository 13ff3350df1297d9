//! Timing of a request with a stopwatch.

use vstd::prelude::*;

verus! {

/// `stopwatch::Stopwatch`, carried through as it is: nothing is known of
/// what it holds.
#[verifier::external_type_specification]
#[verifier::external_body]
pub struct ExStopwatch(stopwatch::Stopwatch);

/// `stopwatch::Stopwatch::start_new`: a stopwatch that runs from now on.
/// Nothing is claimed of it.
#[verifier::external_body]
pub(crate) fn start_stopwatch() -> (watch: stopwatch::Stopwatch) {
    stopwatch::Stopwatch::start_new()
}

/// `stopwatch::Stopwatch::stop`: the stopwatch no longer runs and keeps
/// the time that it measured. Nothing is claimed of that time.
#[verifier::external_body]
pub(crate) fn stop_stopwatch(watch: &mut stopwatch::Stopwatch) {
    watch.stop();
}

/// `stopwatch::Stopwatch::elapsed`, in nanoseconds: the time that the
/// stopwatch measured. It depends on the clock, so nothing is claimed of it.
#[verifier::external_body]
pub(crate) fn elapsed_nanos(watch: &stopwatch::Stopwatch) -> (nanos: u128) {
    watch.elapsed().as_nanos()
}

/// The stopwatch of one request, running since the request came in.
pub struct RequestTimer {
    watch: stopwatch::Stopwatch,
}

impl RequestTimer {
    /// Starts timing a request.
    pub fn start() -> (timer: RequestTimer) {
        RequestTimer { watch: start_stopwatch() }
    }

    /// Stops timing and returns the nanoseconds that the request took.
    pub fn stop(self) -> (nanos: u128) {
        let mut watch = self.watch;
        stop_stopwatch(&mut watch);
        elapsed_nanos(&watch)
    }
}

} // verus!
