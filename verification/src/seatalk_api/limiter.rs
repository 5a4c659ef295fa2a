//! The rate-limit model: one admission per fixed interval, system-wide.
//! Callers ask for a grant time; the transport sleeps until that time
//! before sending.

use vstd::prelude::*;

verus! {

/// The spacing enforced between two outbound calls, in milliseconds.
pub const CALL_INTERVAL_MILLIS: u64 = 2000;

/// The pacing state: no call may go before `next_free_at`.
#[derive(Debug, Clone)]
pub struct RateLimiter {
    pub interval: u64,
    pub next_free_at: u64,
}

impl RateLimiter {
    /// A limiter spacing grants `interval` ticks apart; the first call goes
    /// immediately.
    pub fn new(interval: u64) -> (r: Self)
        ensures
            r.interval == interval,
            r.next_free_at == 0,
    {
        RateLimiter { interval, next_free_at: 0 }
    }

    /// Grants one call at time `now`: the call goes at `now` if the limiter
    /// is free, else exactly when it becomes free, and the next call goes no
    /// sooner than one interval later.
    pub fn acquire(&mut self, now: u64) -> (t: u64)
        requires
            old(self).next_free_at <= u64::MAX - old(self).interval,
            now <= u64::MAX - old(self).interval,
        ensures
            final(self).interval == old(self).interval,
            t == if now >= old(self).next_free_at {
                now
            } else {
                old(self).next_free_at
            },
            t >= old(self).next_free_at,
            t >= now,
            final(self).next_free_at == t + final(self).interval,
    {
        let t = if now >= self.next_free_at {
            now
        } else {
            self.next_free_at
        };
        self.next_free_at = t + self.interval;
        t
    }
}

proof fn lemma_spacing_pair(times: Seq<int>, interval: int, i: int, j: int)
    requires
        interval >= 0,
        0 <= i <= j < times.len(),
        forall|k: int| 0 <= k < times.len() - 1 ==> #[trigger] times[k + 1] >= times[k] + interval,
    ensures
        times[j] >= times[i] + (j - i) * interval,
    decreases j - i,
{
    if i < j {
        lemma_spacing_pair(times, interval, i, j - 1);
        assert(times[(j - 1) + 1] >= times[j - 1] + interval);
        assert((j - i) * interval == (j - 1 - i) * interval + interval) by (nonlinear_arith);
    } else {
        assert((j - i) * interval == 0) by (nonlinear_arith)
            requires
                i == j,
        ;
    }
}

/// Grant times spaced at least one interval apart accumulate: the i-th and
/// j-th calls lie at least (j - i) intervals apart, so issuing N calls takes
/// at least (N - 1) intervals from the first to the last.
pub proof fn lemma_calls_spaced(times: Seq<int>, interval: int)
    requires
        interval >= 0,
        forall|k: int| 0 <= k < times.len() - 1 ==> #[trigger] times[k + 1] >= times[k] + interval,
    ensures
        forall|i: int, j: int|
            #![trigger times[i], times[j]]
            0 <= i <= j < times.len() ==> times[j] >= times[i] + (j - i) * interval,
{
    assert forall|i: int, j: int| #![trigger times[i], times[j]] 0 <= i <= j < times.len() implies times[j] >= times[i]
        + (j - i) * interval by {
        lemma_spacing_pair(times, interval, i, j);
    }
}

} // verus!
