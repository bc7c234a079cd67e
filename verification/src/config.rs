//! Tunable configuration for the ops engine and its resilience envelope.

use vstd::prelude::*;

use crate::time::Delay;

verus! {

/// Health classification thresholds and resilience knobs.
#[derive(Debug, Clone, Copy, PartialEq, Eq, Structural)]
pub struct OpsConfig {
    /// Slot lag at which a node is considered `Lagging`.
    pub lag_warn: u64,
    /// Slot lag at which a node is considered `Delinquent`.
    pub lag_crit: u64,
    /// Skip rate, in parts per million, at which a node is considered
    /// `Delinquent`.
    pub skip_crit: i64,
    /// A health snapshot older than this many seconds is `Unknown`.
    pub freshness_secs: i64,
    /// Per-agent-call timeout.
    pub op_timeout: Delay,
    /// Total attempts per agent call (including the first).
    pub max_attempts: u32,
    /// Base retry backoff.
    pub retry_base: Delay,
    /// Max retry backoff.
    pub retry_max: Delay,
    /// Consecutive failures before the breaker trips open.
    pub breaker_threshold: u32,
    /// Breaker open cooldown, in milliseconds.
    pub breaker_cooldown_ms: u64,
    /// Admission rate-limit burst capacity (deployments).
    pub rate_capacity: u64,
    /// Admission rate-limit steady rate (deployments per second).
    pub rate_per_sec: u64,
    /// Max concurrent in-flight deployments (bulkhead).
    pub max_concurrent_deploys: usize,
}

impl Default for OpsConfig {
    fn default() -> (c: OpsConfig)
        ensures
            c.lag_warn == 32,
            c.lag_crit == 128,
            c.skip_crit == 500_000,
            c.freshness_secs == 60,
            c.op_timeout.spec_nanos() == 30_000_000_000,
            c.max_attempts == 3,
            c.retry_base.spec_nanos() == 50_000_000,
            c.retry_max.spec_nanos() == 5_000_000_000,
            c.breaker_threshold == 5,
            c.breaker_cooldown_ms == 10_000,
            c.rate_capacity == 16,
            c.rate_per_sec == 4,
            c.max_concurrent_deploys == 8,
    {
        OpsConfig {
            lag_warn: 32,
            lag_crit: 128,
            skip_crit: 500_000,
            freshness_secs: 60,
            op_timeout: Delay::from_secs(30),
            max_attempts: 3,
            retry_base: Delay::from_millis(50),
            retry_max: Delay::from_secs(5),
            breaker_threshold: 5,
            breaker_cooldown_ms: 10_000,
            rate_capacity: 16,
            rate_per_sec: 4,
            max_concurrent_deploys: 8,
        }
    }
}

} // verus!
