//! Concurrency-admission bookkeeping: the counters behind the
//! rate-limiting layer and the metrics it reports.

use vstd::prelude::*;

verus! {

/// The rate limiter's state: how many requests arrived, how many were
/// turned away, and how many permits remain.
#[derive(Debug, Clone)]
pub struct RateLimitState {
    pub total_requests: u64,
    pub rejected_requests: u64,
    pub available_permits: usize,
}

impl RateLimitState {
    pub fn new(max_concurrent: usize) -> (r: RateLimitState)
        ensures
            r.total_requests == 0,
            r.rejected_requests == 0,
            r.available_permits == max_concurrent,
    {
        RateLimitState { total_requests: 0, rejected_requests: 0, available_permits: max_concurrent }
    }

    /// Admit a request when a permit is free; every request counts,
    /// and a turned-away one counts as rejected.
    pub fn try_acquire(&mut self) -> (r: bool)
        requires
            old(self).total_requests < u64::MAX,
            old(self).rejected_requests < u64::MAX,
        ensures
            r == (old(self).available_permits > 0),
            final(self).total_requests == old(self).total_requests + 1,
            r ==> final(self).available_permits == old(self).available_permits - 1,
            r ==> final(self).rejected_requests == old(self).rejected_requests,
            !r ==> final(self).available_permits == old(self).available_permits,
            !r ==> final(self).rejected_requests == old(self).rejected_requests + 1,
    {
        self.total_requests = self.total_requests + 1;
        if self.available_permits > 0 {
            self.available_permits = self.available_permits - 1;
            true
        } else {
            self.rejected_requests = self.rejected_requests + 1;
            false
        }
    }

    /// Hand a permit back when its request finishes.
    pub fn release(&mut self)
        requires
            old(self).available_permits < usize::MAX,
        ensures
            final(self).available_permits == old(self).available_permits + 1,
            final(self).total_requests == old(self).total_requests,
            final(self).rejected_requests == old(self).rejected_requests,
    {
        self.available_permits = self.available_permits + 1;
    }
}

/// The rate-limiting metrics: total requests, rejected requests,
/// permits still available.
pub fn get_rate_limit_metrics(state: &RateLimitState) -> (r: (u64, u64, usize))
    ensures
        r.0 == state.total_requests,
        r.1 == state.rejected_requests,
        r.2 == state.available_permits,
{
    (state.total_requests, state.rejected_requests, state.available_permits)
}

} // verus!
