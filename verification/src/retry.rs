//! Bounded retry with exponential backoff: the delay schedule that wraps one
//! fallible operation, independent of what the operation does. The driver
//! sleeps for the stated delay between attempts.

use vstd::prelude::*;

verus! {

/// A bounded exponential backoff schedule: delays start at `base_delay_ms`,
/// multiply by `factor` per retry, and are capped at `max_delay_ms`; at most
/// `max_retries` retries happen.
#[derive(Debug, Clone, Copy)]
pub struct BackoffPolicy {
    pub base_delay_ms: u64,
    pub factor: u64,
    pub max_delay_ms: u64,
    pub max_retries: u64,
}

impl BackoffPolicy {
    /// Bounds under which the schedule cannot overflow.
    pub open spec fn wf(&self) -> bool {
        &&& 1 <= self.factor <= 1000
        &&& self.base_delay_ms <= self.max_delay_ms
        &&& self.max_delay_ms <= 0xffff_ffff
    }

    /// The delay before retry `attempt` (counted from 0): the base delay
    /// grown by `factor` per retry, capped at the maximum.
    pub open spec fn spec_delay(&self, attempt: nat) -> nat
        decreases attempt,
    {
        if attempt == 0 {
            self.base_delay_ms as nat
        } else {
            let grown = self.spec_delay((attempt - 1) as nat) * self.factor;
            if grown <= self.max_delay_ms {
                grown as nat
            } else {
                self.max_delay_ms as nat
            }
        }
    }

    /// Whether one more retry happens after `attempt` failed tries.
    pub fn should_retry(&self, attempt: u64) -> (r: bool)
        ensures
            r == (attempt < self.max_retries),
    {
        attempt < self.max_retries
    }

    /// The delay before retry `attempt`, in milliseconds.
    pub fn delay_ms(&self, attempt: u64) -> (d: u64)
        requires
            self.wf(),
        ensures
            d as nat == self.spec_delay(attempt as nat),
            d <= self.max_delay_ms,
    {
        let mut d = self.base_delay_ms;
        let mut k: u64 = 0;
        while k < attempt
            invariant
                self.wf(),
                k <= attempt,
                d as nat == self.spec_delay(k as nat),
                d <= self.max_delay_ms,
            decreases attempt - k,
        {
            proof {
                assert(d * self.factor <= 0xffff_ffff * 1000) by (nonlinear_arith)
                    requires
                        d <= 0xffff_ffff,
                        self.factor <= 1000,
                ;
            }
            let grown = d * self.factor;
            d = if grown <= self.max_delay_ms {
                grown
            } else {
                self.max_delay_ms
            };
            k += 1;
        }
        d
    }
}

/// The schedule the per-item downloads retry under: one second base delay,
/// doubling per retry, capped at a minute, at most three retries.
pub fn download_backoff() -> (r: BackoffPolicy)
    ensures
        r.wf(),
        r.base_delay_ms == 1000,
        r.factor == 2,
        r.max_delay_ms == 60000,
        r.max_retries == 3,
{
    BackoffPolicy { base_delay_ms: 1000, factor: 2, max_delay_ms: 60000, max_retries: 3 }
}

} // verus!
