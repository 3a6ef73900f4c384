use vstd::prelude::*;

verus! {

/// A snapshot of the two counters.
#[derive(Clone, Copy, Debug, PartialEq, Eq, Structural)]
pub struct MetricsStats {
    pub requests: u64,
    pub error: u64,
}

/// Counts the requests handled and the store failures among them.
///
/// Both counters only grow; they saturate at `u64::MAX` rather than wrap.
/// Methods that change a counter take `&mut self`: callers that share one
/// collector between tasks put it behind a lock, which gives each increment
/// to exactly one caller.
pub struct MetricsCollector {
    request_count: u64,
    error_count: u64,
}

impl View for MetricsCollector {
    type V = MetricsStats;

    closed spec fn view(&self) -> MetricsStats {
        MetricsStats { requests: self.request_count, error: self.error_count }
    }
}

/// One step of a counter: add one, stopping at the largest value.
pub open spec fn bump(n: u64) -> u64 {
    if n == u64::MAX {
        n
    } else {
        (n + 1) as u64
    }
}

impl MetricsCollector {
    /// A collector with both counters at zero.
    pub fn new() -> (r: Self)
        ensures
            r@ == (MetricsStats { requests: 0, error: 0 }),
    {
        MetricsCollector { request_count: 0, error_count: 0 }
    }

    /// Counts one more request.
    pub fn record_request(&mut self)
        ensures
            final(self)@.requests == bump(old(self)@.requests),
            final(self)@.error == old(self)@.error,
    {
        self.request_count = self.request_count.saturating_add(1);
    }

    /// Counts one more store failure.
    pub fn record_error(&mut self)
        ensures
            final(self)@.error == bump(old(self)@.error),
            final(self)@.requests == old(self)@.requests,
    {
        self.error_count = self.error_count.saturating_add(1);
    }

    /// The current value of both counters.
    pub fn get_stats(&self) -> (r: MetricsStats)
        ensures
            r == self@,
    {
        MetricsStats { requests: self.request_count, error: self.error_count }
    }
}

} // verus!
