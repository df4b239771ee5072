//! Rate-limit settings for tool calls.

use vstd::prelude::*;

verus! {

/// How many requests per second are allowed, and how many at once.
#[derive(Debug, Clone, Copy, PartialEq, Eq)]
pub struct RateLimitConfig {
    pub requests_per_second: u32,
    pub burst_size: u32,
}

impl RateLimitConfig {
    pub fn new(requests_per_second: u32, burst_size: u32) -> (r: Self)
        ensures
            r.requests_per_second == requests_per_second,
            r.burst_size == burst_size,
    {
        RateLimitConfig { requests_per_second, burst_size }
    }

    /// High throughput: 100 per second, bursts of 200.
    pub fn permissive() -> (r: Self)
        ensures
            r.requests_per_second == 100,
            r.burst_size == 200,
    {
        RateLimitConfig { requests_per_second: 100, burst_size: 200 }
    }

    /// Low throughput: 5 per second, bursts of 10.
    pub fn strict() -> (r: Self)
        ensures
            r.requests_per_second == 5,
            r.burst_size == 10,
    {
        RateLimitConfig { requests_per_second: 5, burst_size: 10 }
    }

    /// The quota a limiter enforces: zero rates and bursts are raised to one.
    pub fn effective_quota(&self) -> (r: (u32, u32))
        ensures
            r.0 == if self.requests_per_second == 0 { 1 } else { self.requests_per_second },
            r.1 == if self.burst_size == 0 { 1 } else { self.burst_size },
    {
        let rate = if self.requests_per_second == 0 { 1 } else { self.requests_per_second };
        let burst = if self.burst_size == 0 { 1 } else { self.burst_size };
        (rate, burst)
    }
}

impl Default for RateLimitConfig {
    /// 10 per second, bursts of 20.
    fn default() -> (r: Self)
        ensures
            r.requests_per_second == 10,
            r.burst_size == 20,
    {
        RateLimitConfig { requests_per_second: 10, burst_size: 20 }
    }
}

} // verus!
