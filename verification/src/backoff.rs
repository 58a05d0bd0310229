//! Exponential backoff schedule with an optional overall deadline.
//!
//! The policy hands out growing retry delays until the total delay granted
//! reaches the configured budget; with no budget it grants delays forever.
//! All amounts are integer milliseconds.
use vstd::prelude::*;

verus! {

/// First retry delay, in milliseconds.
pub const INITIAL_INTERVAL_MS: u64 = 500;

/// Longest single retry delay, in milliseconds.
pub const MAX_INTERVAL_MS: u64 = 60_000;

/// An exponential backoff schedule: each granted delay is 1.5 times the
/// previous one, capped at [`MAX_INTERVAL_MS`], until the optional overall
/// budget is spent.
#[derive(Clone, Debug, PartialEq, Eq)]
pub struct BackoffPolicy {
    pub current_interval_ms: u64,
    pub elapsed_ms: u64,
    pub max_elapsed_ms: Option<u64>,
}

impl BackoffPolicy {
    /// Total delay granted so far, in milliseconds.
    pub open spec fn elapsed(&self) -> u64 {
        self.elapsed_ms
    }

    /// The delay the next grant will hand out, in milliseconds.
    pub open spec fn interval(&self) -> u64 {
        self.current_interval_ms
    }

    /// The overall delay budget, if any.
    pub open spec fn budget(&self) -> Option<u64> {
        self.max_elapsed_ms
    }

    /// The delay interval stays within its configured band.
    pub open spec fn wf(&self) -> bool {
        INITIAL_INTERVAL_MS <= self.interval() <= MAX_INTERVAL_MS
    }

    /// The policy grants no further delay: a finite budget is configured and
    /// the delay granted so far has reached it.
    pub open spec fn is_exhausted(&self) -> bool {
        match self.budget() {
            Some(t) => self.elapsed() >= t,
            None => false,
        }
    }
}

/// Elapsed time after granting a delay of `d`, saturating at the integer
/// limit.
pub open spec fn spec_add_elapsed(e: u64, d: u64) -> u64 {
    if e + d <= u64::MAX {
        (e + d) as u64
    } else {
        u64::MAX
    }
}

/// The next delay interval: half again as long, capped at
/// [`MAX_INTERVAL_MS`].
pub open spec fn spec_grow_interval(c: u64) -> u64 {
    if c * 3 / 2 >= MAX_INTERVAL_MS {
        MAX_INTERVAL_MS
    } else {
        (c * 3 / 2) as u64
    }
}

/// The policy state after one granted delay.
pub open spec fn spec_step(p: BackoffPolicy) -> BackoffPolicy {
    BackoffPolicy {
        current_interval_ms: spec_grow_interval(p.interval()),
        elapsed_ms: spec_add_elapsed(p.elapsed(), p.interval()),
        max_elapsed_ms: p.budget(),
    }
}

/// The policy state after `n` granted delays.
pub open spec fn spec_iterate(p: BackoffPolicy, n: nat) -> BackoffPolicy
    decreases n,
{
    if n == 0 {
        p
    } else {
        spec_iterate(spec_step(p), (n - 1) as nat)
    }
}

/// A fresh policy with the given overall budget in milliseconds; `None`
/// retries indefinitely.
pub fn backoff(timeout_ms: Option<u64>) -> (p: BackoffPolicy)
    ensures
        p.wf(),
        p.elapsed() == 0,
        p.interval() == INITIAL_INTERVAL_MS,
        p.budget() == timeout_ms,
{
    BackoffPolicy { current_interval_ms: INITIAL_INTERVAL_MS, elapsed_ms: 0, max_elapsed_ms: timeout_ms }
}

impl BackoffPolicy {
    /// Grants the next retry delay, or `None` exactly when the budget is
    /// exhausted.  A delay is refused only once the total granted delay has
    /// reached the budget, never earlier.
    pub fn next_delay(&mut self) -> (r: Option<u64>)
        requires
            old(self).wf(),
        ensures
            final(self).wf(),
            r is None <==> old(self).is_exhausted(),
            r is None ==> *final(self) == *old(self),
            r is Some ==> r->0 == old(self).interval() && *final(self) == spec_step(*old(self)),
    {
        match self.max_elapsed_ms {
            Some(t) => {
                if self.elapsed_ms >= t {
                    return None;
                }
            },
            None => {},
        }
        let d = self.current_interval_ms;
        self.elapsed_ms = if self.elapsed_ms <= u64::MAX - d {
            self.elapsed_ms + d
        } else {
            u64::MAX
        };
        let grown = d / 2 + d;
        self.current_interval_ms = if grown >= MAX_INTERVAL_MS {
            MAX_INTERVAL_MS
        } else {
            grown
        };
        proof {
            assert(d / 2 + d == d * 3 / 2) by (nonlinear_arith);
        }
        Some(d)
    }
}

/// One granted delay moves the elapsed total strictly forward, by at least
/// the full current interval (or up to the integer limit).
pub proof fn lemma_step_advances(p: BackoffPolicy)
    requires
        p.wf(),
    ensures
        spec_step(p).wf(),
        spec_step(p).budget() == p.budget(),
        spec_step(p).elapsed() > p.elapsed() || spec_step(p).elapsed() == u64::MAX,
        spec_step(p).elapsed() >= spec_add_elapsed(p.elapsed(), INITIAL_INTERVAL_MS),
{
    assert(p.interval() * 3 / 2 >= p.interval()) by (nonlinear_arith)
        requires
            p.interval() >= 0,
    ;
}

/// Backoff termination: a policy with a finite budget refuses a delay after
/// finitely many grants, and by then the total granted delay is at least the
/// budget while overshooting it by less than one delay step.
pub proof fn lemma_backoff_terminates(p: BackoffPolicy)
    requires
        p.wf(),
        p.budget() is Some,
    ensures
        exists|n: nat|
            {
                let q = #[trigger] spec_iterate(p, n);
                &&& q.is_exhausted()
                &&& q.elapsed() >= p.budget()->0
                &&& p.elapsed() < p.budget()->0 + MAX_INTERVAL_MS ==> q.elapsed() < p.budget()->0
                    + MAX_INTERVAL_MS
            },
    decreases (if p.budget()->0 > p.elapsed() {
        p.budget()->0 - p.elapsed()
    } else {
        0
    }),
{
    let t = p.budget()->0;
    if p.is_exhausted() {
        assert(spec_iterate(p, 0) == p);
    } else {
        lemma_step_advances(p);
        let q = spec_step(p);
        // The recursion is well-founded because each step closes the gap to
        // the budget by at least the smallest delay interval.
        assert(q.elapsed() > p.elapsed() || q.elapsed() == u64::MAX);
        lemma_backoff_terminates(q);
        let m = choose|m: nat|
            {
                let r = #[trigger] spec_iterate(q, m);
                &&& r.is_exhausted()
                &&& r.elapsed() >= t
                &&& q.elapsed() < t + MAX_INTERVAL_MS ==> r.elapsed() < t + MAX_INTERVAL_MS
            };
        assert(spec_iterate(p, m + 1) == spec_iterate(q, m));
        assert(q.elapsed() < t + MAX_INTERVAL_MS);
    }
}

} // verus!
