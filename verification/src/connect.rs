//! Connection manager: decides when to retry a failed connect attempt and
//! when to give up, under the backoff policy.
//!
//! The actual connect call is asynchronous transport work and lives in the
//! runtime around this library; the runtime reports each failed attempt here
//! and performs the delay or gives up as instructed.
use crate::backoff::{backoff, spec_step, BackoffPolicy};
use crate::{join_addresses, spec_join_addresses, InternalError, NatsClientSettings};
use vstd::prelude::*;

verus! {

/// What the caller of a failed connect attempt must do next.
#[derive(Clone, Debug, PartialEq, Eq)]
pub enum RetryDecision {
    /// Sleep this many milliseconds, then attempt to connect again.
    RetryAfter(u64),
    /// Stop retrying and surface this error.
    GiveUp(InternalError),
}

/// The retrying side of `connect_with_retry`: one value of this machine is
/// created per connect operation, and asked after every failed attempt
/// whether to retry or give up.
#[derive(Clone, Debug)]
pub struct ConnectWithRetry {
    /// The joined `,`-separated connection string the attempts dial.
    pub address: String,
    /// The backoff schedule governing the retries.
    pub policy: BackoffPolicy,
}

impl NatsClientSettings {
    /// The configured addresses joined into the single connection string the
    /// underlying client expects.
    pub fn connection_string(&self) -> (r: String)
        ensures
            r@ == spec_join_addresses(self.addresses@.map_values(|a: String| a@)),
    {
        join_addresses(&self.addresses)
    }
}

impl ConnectWithRetry {
    /// The backoff schedule is in its configured band.
    pub open spec fn wf(&self) -> bool {
        self.policy.wf()
    }

    /// Starts a connect operation for the given settings: the connection
    /// string is the joined address list and the backoff budget is the
    /// configured retry timeout.
    pub fn new(settings: &NatsClientSettings) -> (m: ConnectWithRetry)
        ensures
            m.wf(),
            m.address@ == spec_join_addresses(settings.addresses@.map_values(|a: String| a@)),
            m.policy.elapsed() == 0,
            m.policy.budget() == settings.retry_timeout_ms,
    {
        ConnectWithRetry {
            address: join_addresses(&settings.addresses),
            policy: backoff(settings.retry_timeout_ms),
        }
    }

    /// Decides after a failed attempt: retry after the next backoff delay,
    /// or — exactly when the backoff budget is exhausted — give up with a
    /// connection error naming the dialed addresses.
    pub fn on_attempt_failed(&mut self) -> (d: RetryDecision)
        requires
            old(self).wf(),
        ensures
            final(self).wf(),
            final(self).address@ == old(self).address@,
            final(self).policy.budget() == old(self).policy.budget(),
            d is GiveUp <==> old(self).policy.is_exhausted(),
            d matches RetryDecision::GiveUp(e) ==> {
                &&& e matches InternalError::NatsServerConnectionError { address }
                    && address@ == old(self).address@
                &&& final(self).policy == old(self).policy
            },
            d matches RetryDecision::RetryAfter(ms) ==> ms == old(self).policy.interval()
                && final(self).policy == spec_step(old(self).policy),
    {
        match self.policy.next_delay() {
            Some(ms) => RetryDecision::RetryAfter(ms),
            None => RetryDecision::GiveUp(
                InternalError::NatsServerConnectionError { address: self.address.clone() },
            ),
        }
    }

    /// Backoff termination at the connection manager: with a retry timeout
    /// configured and every attempt failing, the manager reaches the give-up
    /// decision after finitely many retries; by then the waiting granted is
    /// at least the timeout — never less — and overshoots it by less than
    /// one backoff step.
    pub proof fn lemma_retry_terminates(&self)
        requires
            self.wf(),
            self.policy.budget() is Some,
        ensures
            exists|n: nat|
                {
                    let q = #[trigger] crate::backoff::spec_iterate(self.policy, n);
                    &&& q.is_exhausted()
                    &&& q.elapsed() >= self.policy.budget()->0
                    &&& self.policy.elapsed() < self.policy.budget()->0
                        + crate::backoff::MAX_INTERVAL_MS ==> q.elapsed() < self.policy.budget()->0
                        + crate::backoff::MAX_INTERVAL_MS
                },
    {
        crate::backoff::lemma_backoff_terminates(self.policy);
    }

    /// The error a single-attempt `connect` (no retry) surfaces when the one
    /// attempt fails.
    pub fn attempt_error(&self) -> (e: InternalError)
        ensures
            e matches InternalError::NatsServerConnectionError { address } && address@
                == self.address@,
    {
        InternalError::NatsServerConnectionError { address: self.address.clone() }
    }
}

} // verus!
