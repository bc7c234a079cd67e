//! The resilience envelope wrapped around every node-agent call: a circuit
//! breaker checked once per call, then bounded retries of per-attempt
//! timeouts with equal-jitter backoff.
//!
//! [`ResilientNodeAgent`] decides; the caller performs each attempt against
//! the inner agent under [`ResilientNodeAgent::op_timeout`] and reports how it
//! ended.

use vstd::prelude::*;

use crate::breaker::{
    admits_call, after_acquire, after_failure, after_success, breaker_state_text, refreshed, BreakerState, BreakerView,
    CircuitBreaker,
};
use crate::clock::SystemClock;
use crate::config::OpsConfig;
use crate::core_error::{port_error_retryable, PortError};
use crate::retry::{backoff_defined, capped_backoff, jittered_backoff, RetryPolicy};
use crate::time::Delay;
use vstd::string::StringExecFns;

verus! {

/// How one attempt of a guarded call ended.
#[derive(Debug, PartialEq, Eq)]
pub enum AttemptOutcome {
    /// The inner call succeeded.
    Succeeded,
    /// The inner call failed with this error.
    Failed(PortError),
    /// The inner call did not finish within the per-attempt timeout.
    TimedOut,
}

/// What to do after an attempt.
#[derive(Debug, PartialEq, Eq)]
pub enum GuardDecision {
    /// The call succeeded.
    Done,
    /// Back off for retry `index` (zero-based), then attempt again.
    Retry { index: u32 },
    /// Stop and return this error.
    GiveUp(PortError),
}

/// One guarded call in progress.
#[derive(Debug)]
pub struct GuardedCall {
    label: String,
    attempts: u32,
}

impl GuardedCall {
    pub closed spec fn spec_label(&self) -> Seq<char> {
        self.label@
    }

    /// Attempts made so far.
    pub closed spec fn spec_attempts(&self) -> nat {
        self.attempts as nat
    }

    /// Attempts made so far.
    pub fn attempts(&self) -> (n: u32)
        ensures
            n == self.spec_attempts(),
    {
        self.attempts
    }
}

/// The error a timed-out attempt of the call labelled `label` reports.
pub open spec fn is_timeout_error(e: PortError, label: Seq<char>) -> bool {
    e matches PortError::Timeout(m) && m@ == label
}

/// Decorator state adding resilience to node-agent calls: one breaker shared
/// by every call, a retry policy and a per-attempt timeout.
pub struct ResilientNodeAgent {
    breaker: CircuitBreaker<SystemClock>,
    retry: RetryPolicy,
    op_timeout: Delay,
}

impl ResilientNodeAgent {
    pub closed spec fn spec_breaker(&self) -> BreakerView {
        self.breaker.view()
    }

    pub closed spec fn spec_retry(&self) -> RetryPolicy {
        self.retry
    }

    pub closed spec fn spec_op_timeout(&self) -> Delay {
        self.op_timeout
    }

    /// Derive the resilience envelope from `cfg`.
    pub fn new(cfg: &OpsConfig) -> (a: ResilientNodeAgent)
        ensures
            a.spec_breaker() == (BreakerView {
                state: BreakerState::Closed,
                failures: 0,
                opened_at: 0,
                threshold: if cfg.breaker_threshold >= 1 {
                    cfg.breaker_threshold
                } else {
                    1
                },
                cooldown: cfg.breaker_cooldown_ms,
                probing: false,
            }),
            a.spec_retry().max_attempts == if cfg.max_attempts >= 1 {
                cfg.max_attempts
            } else {
                1
            },
            a.spec_retry().base_delay == cfg.retry_base,
            a.spec_retry().max_delay == cfg.retry_max,
            a.spec_op_timeout() == cfg.op_timeout,
    {
        ResilientNodeAgent {
            breaker: CircuitBreaker::new(
                SystemClock::new(),
                cfg.breaker_threshold,
                cfg.breaker_cooldown_ms,
            ),
            retry: RetryPolicy::new(cfg.max_attempts, cfg.retry_base, cfg.retry_max),
            op_timeout: cfg.op_timeout,
        }
    }

    /// The per-attempt deadline.
    pub fn op_timeout(&self) -> (d: Delay)
        ensures
            d == self.spec_op_timeout(),
    {
        self.op_timeout
    }

    /// The retry policy.
    pub fn retry_policy(&self) -> (p: RetryPolicy)
        ensures
            p == self.spec_retry(),
    {
        self.retry
    }

    /// Current breaker state name, for metrics/observability.
    pub fn breaker_state(&mut self) -> (n: &'static str)
        ensures
            exists|now: u64| final(self).spec_breaker() == refreshed(old(self).spec_breaker(), now),
            n == breaker_state_text(final(self).spec_breaker().state),
            final(self).spec_retry() == old(self).spec_retry(),
            final(self).spec_op_timeout() == old(self).spec_op_timeout(),
    {
        self.breaker.state_name()
    }

    /// Start a call labelled `label`: refused with
    /// `Unavailable("circuit open for <label>")` when the breaker refuses it
    /// (open, or its half-open probe already out), otherwise a call with no
    /// attempts made yet.
    pub fn begin(&mut self, label: &str) -> (r: Result<GuardedCall, PortError>)
        ensures
            exists|now: u64|
                {
                    &&& final(self).spec_breaker() == after_acquire(
                        refreshed(old(self).spec_breaker(), now),
                    )
                    &&& (r is Ok <==> admits_call(refreshed(old(self).spec_breaker(), now)))
                },
            final(self).spec_retry() == old(self).spec_retry(),
            final(self).spec_op_timeout() == old(self).spec_op_timeout(),
            r is Err ==> (r->Err_0 matches PortError::Unavailable(m) && m@ == "circuit open for "@
                + label@),
            r is Ok ==> r->Ok_0.spec_attempts() == 0 && r->Ok_0.spec_label() == label@,
    {
        match self.breaker.acquire() {
            Err(_) => {
                let mut msg = String::from_str("circuit open for ");
                msg.append(label);
                Err(PortError::Unavailable(msg))
            },
            Ok(()) => Ok(GuardedCall { label: String::from_str(label), attempts: 0 }),
        }
    }

    /// Record how an attempt of `call` ended and decide what follows.
    ///
    /// A success closes the breaker and ends the call. A failure or a timeout
    /// (reported as `Timeout(<label>)`) counts against the breaker; the call
    /// is retried only while attempts remain and the error is retryable, and
    /// otherwise gives up with that error.
    pub fn on_attempt(&mut self, call: &mut GuardedCall, outcome: AttemptOutcome) -> (d:
        GuardDecision)
        requires
            old(call).spec_attempts() < old(self).spec_retry().max_attempts,
        ensures
            final(self).spec_retry() == old(self).spec_retry(),
            final(self).spec_op_timeout() == old(self).spec_op_timeout(),
            final(call).spec_label() == old(call).spec_label(),
            outcome is Succeeded ==> final(self).spec_breaker() == after_success(
                old(self).spec_breaker(),
            ) && d is Done && final(call).spec_attempts() == old(call).spec_attempts(),
            !(outcome is Succeeded) ==> {
                let attempts = old(call).spec_attempts() + 1;
                &&& final(call).spec_attempts() == attempts
                &&& exists|now: u64|
                    final(self).spec_breaker() == after_failure(old(self).spec_breaker(), now)
                &&& match d {
                    GuardDecision::Done => false,
                    GuardDecision::Retry { index } => {
                        &&& index == old(call).spec_attempts()
                        &&& attempts < old(self).spec_retry().max_attempts
                        &&& match outcome {
                            AttemptOutcome::Failed(e) => port_error_retryable(e),
                            _ => true,
                        }
                    },
                    GuardDecision::GiveUp(e) => {
                        &&& (attempts >= old(self).spec_retry().max_attempts
                            || !port_error_retryable(e))
                        &&& match outcome {
                            AttemptOutcome::Failed(f) => e == f,
                            _ => is_timeout_error(e, old(call).spec_label()),
                        }
                    },
                }
            },
    {
        let err = match outcome {
            AttemptOutcome::Succeeded => {
                self.breaker.on_success();
                return GuardDecision::Done;
            },
            AttemptOutcome::Failed(e) => {
                self.breaker.on_failure();
                e
            },
            AttemptOutcome::TimedOut => {
                self.breaker.on_failure();
                PortError::Timeout(call.label.clone())
            },
        };
        call.attempts = call.attempts + 1;
        match self.retry.next_retry(call.attempts, err.is_retryable()) {
            None => GuardDecision::GiveUp(err),
            Some(index) => GuardDecision::Retry { index },
        }
    }

    /// The backoff before retry `index`: the policy's equal-jitter backoff
    /// for that index, between half the capped exponential backoff and all
    /// of it (so at most the policy's maximum delay), the jitter coming from
    /// the system clock's sub-second nanoseconds.
    pub fn retry_delay(&self, index: u32) -> (d: Delay)
        requires
            backoff_defined(self.spec_retry(), index),
        ensures
            exists|entropy: u32|
                entropy < 1_000_000_000 && d.spec_nanos() == jittered_backoff(
                    self.spec_retry(),
                    index,
                    entropy,
                ),
            capped_backoff(self.spec_retry(), index) / 2 <= d.spec_nanos() <= capped_backoff(
                self.spec_retry(),
                index,
            ),
            d.spec_nanos() <= self.spec_retry().max_delay.spec_nanos(),
    {
        self.retry.backoff_for(index)
    }
}

} // verus!
