//! Health snapshots reported by node agents and folded into ops decisions.
//!
//! Rates are fixed-point: the skip rate is in parts per million
//! (`1_000_000` = every leader slot skipped) and the CPU load in thousandths
//! of a load unit per core.

use vstd::prelude::*;

use crate::ids::Slot;
use crate::time::{trunc_div, Timestamp};

verus! {

/// The skip rate meaning "every slot skipped", in parts per million.
pub const SKIP_RATE_ONE_PPM: u32 = 1_000_000;

/// A coarse health classification derived from a [`HealthSnapshot`].
#[derive(Debug, Clone, Copy, PartialEq, Eq, Structural)]
pub enum HealthStatus {
    /// Caught up and voting within tolerances.
    Healthy,
    /// Falling behind but not yet delinquent (warning band).
    Lagging,
    /// Delinquent: slot lag or skip rate beyond the critical threshold.
    Delinquent,
    /// No fresh sample within the freshness window.
    Unknown,
}

pub open spec fn health_status_text(s: HealthStatus) -> &'static str {
    match s {
        HealthStatus::Healthy => "healthy",
        HealthStatus::Lagging => "lagging",
        HealthStatus::Delinquent => "delinquent",
        HealthStatus::Unknown => "unknown",
    }
}

impl HealthStatus {
    /// Stable wire string (also the display form).
    pub fn as_str(self) -> (s: &'static str)
        ensures
            s == health_status_text(self),
    {
        match self {
            HealthStatus::Healthy => "healthy",
            HealthStatus::Lagging => "lagging",
            HealthStatus::Delinquent => "delinquent",
            HealthStatus::Unknown => "unknown",
        }
    }
}

/// A point-in-time health reading for one node.
#[derive(Debug, Clone, Copy, PartialEq, Eq, Structural)]
pub struct HealthSnapshot {
    tip_slot: Slot,
    node_slot: Slot,
    skip_rate_ppm: u32,
    cpu_load_milli: u64,
    observed_at: Timestamp,
}

/// Slots behind the tip, saturating at zero.
pub open spec fn lag_of(tip: Slot, node: Slot) -> nat {
    if tip.0 >= node.0 {
        (tip.0 - node.0) as nat
    } else {
        0
    }
}

/// The classification rule: stale (older than `freshness_secs` whole
/// seconds) is `Unknown`; otherwise lag at or above `lag_crit`, or a skip rate
/// at or above `skip_crit_ppm`, is `Delinquent`; lag at or above `lag_warn` is
/// `Lagging`; anything else is `Healthy`.
pub open spec fn classify_spec(
    lag: nat,
    skip_rate_ppm: int,
    age_secs: int,
    lag_warn: nat,
    lag_crit: nat,
    skip_crit_ppm: int,
    freshness_secs: int,
) -> HealthStatus {
    if age_secs > freshness_secs {
        HealthStatus::Unknown
    } else if lag >= lag_crit || skip_rate_ppm >= skip_crit_ppm {
        HealthStatus::Delinquent
    } else if lag >= lag_warn {
        HealthStatus::Lagging
    } else {
        HealthStatus::Healthy
    }
}

impl HealthSnapshot {
    #[verifier::type_invariant]
    closed spec fn rate_in_range(self) -> bool {
        self.skip_rate_ppm <= SKIP_RATE_ONE_PPM
    }

    pub closed spec fn spec_tip(self) -> Slot {
        self.tip_slot
    }

    pub closed spec fn spec_node(self) -> Slot {
        self.node_slot
    }

    pub closed spec fn spec_skip_rate(self) -> u32 {
        self.skip_rate_ppm
    }

    pub closed spec fn spec_cpu_load(self) -> u64 {
        self.cpu_load_milli
    }

    pub closed spec fn spec_observed_at(self) -> Timestamp {
        self.observed_at
    }

    /// Build a snapshot, clamping the skip rate to `0..=1_000_000` ppm and the
    /// CPU load to be non-negative.
    pub fn new(
        tip_slot: Slot,
        node_slot: Slot,
        skip_rate_ppm: i64,
        cpu_load_milli: i64,
        observed_at: Timestamp,
    ) -> (s: HealthSnapshot)
        ensures
            s.spec_tip() == tip_slot,
            s.spec_node() == node_slot,
            s.spec_skip_rate() == if skip_rate_ppm < 0 {
                0
            } else if skip_rate_ppm > SKIP_RATE_ONE_PPM {
                SKIP_RATE_ONE_PPM as int
            } else {
                skip_rate_ppm as int
            },
            s.spec_cpu_load() == if cpu_load_milli < 0 {
                0
            } else {
                cpu_load_milli as int
            },
            s.spec_observed_at() == observed_at,
    {
        let skip: u32 = if skip_rate_ppm < 0 {
            0
        } else if skip_rate_ppm > (SKIP_RATE_ONE_PPM as i64) {
            SKIP_RATE_ONE_PPM
        } else {
            skip_rate_ppm as u32
        };
        let cpu: u64 = if cpu_load_milli < 0 {
            0
        } else {
            cpu_load_milli as u64
        };
        HealthSnapshot {
            tip_slot,
            node_slot,
            skip_rate_ppm: skip,
            cpu_load_milli: cpu,
            observed_at,
        }
    }

    /// Slots behind the cluster tip (saturating; never negative).
    pub fn slot_lag(&self) -> (l: u64)
        ensures
            l == lag_of(self.spec_tip(), self.spec_node()),
    {
        self.tip_slot.value().saturating_sub(self.node_slot.value())
    }

    /// Fraction of recent leader slots skipped, in parts per million.
    pub fn skip_rate(&self) -> (r: u32)
        ensures
            r == self.spec_skip_rate(),
            r <= SKIP_RATE_ONE_PPM,
    {
        proof {
            use_type_invariant(self);
        }
        self.skip_rate_ppm
    }

    /// Normalised CPU load, in thousandths.
    pub fn cpu_load(&self) -> (r: u64)
        ensures
            r == self.spec_cpu_load(),
    {
        self.cpu_load_milli
    }

    /// When the snapshot was observed.
    pub fn observed_at(&self) -> (t: Timestamp)
        ensures
            t == self.spec_observed_at(),
    {
        self.observed_at
    }

    /// Classify health given the warning/critical thresholds at time `now`.
    pub fn classify(
        &self,
        now: Timestamp,
        lag_warn: u64,
        lag_crit: u64,
        skip_crit_ppm: i64,
        freshness_secs: i64,
    ) -> (st: HealthStatus)
        ensures
            st == classify_spec(
                lag_of(self.spec_tip(), self.spec_node()),
                self.spec_skip_rate() as int,
                trunc_div(now.nanos() - self.spec_observed_at().nanos(), 1_000_000_000),
                lag_warn as nat,
                lag_crit as nat,
                skip_crit_ppm as int,
                freshness_secs as int,
            ),
    {
        let age: i128 = now.whole_seconds_since(self.observed_at);
        if age > (freshness_secs as i128) {
            return HealthStatus::Unknown;
        }
        let lag: u64 = self.slot_lag();
        if lag >= lag_crit || (self.skip_rate_ppm as i64) >= skip_crit_ppm {
            HealthStatus::Delinquent
        } else if lag >= lag_warn {
            HealthStatus::Lagging
        } else {
            HealthStatus::Healthy
        }
    }
}

/// Severity order of the fresh classifications.
pub open spec fn severity(s: HealthStatus) -> int {
    match s {
        HealthStatus::Healthy => 0,
        HealthStatus::Lagging => 1,
        HealthStatus::Delinquent => 2,
        HealthStatus::Unknown => 3,
    }
}

/// More slot lag or a higher skip rate never yields a healthier
/// classification of a fresh snapshot, and a fresh snapshot is never
/// `Unknown`.
pub proof fn lemma_classify_monotone(
    lag1: nat,
    lag2: nat,
    skip1: int,
    skip2: int,
    age: int,
    lag_warn: nat,
    lag_crit: nat,
    skip_crit: int,
    freshness: int,
)
    requires
        lag1 <= lag2,
        skip1 <= skip2,
        age <= freshness,
    ensures
        classify_spec(lag1, skip1, age, lag_warn, lag_crit, skip_crit, freshness)
            != HealthStatus::Unknown,
        severity(classify_spec(lag1, skip1, age, lag_warn, lag_crit, skip_crit, freshness))
            <= severity(classify_spec(lag2, skip2, age, lag_warn, lag_crit, skip_crit, freshness)),
{
}

/// How a snapshot is judged: a sample older than the freshness window is
/// `Unknown` whatever its lag or skip rate; a fresh one is never `Unknown`,
/// and is `Delinquent` when its lag reaches the critical mark or its skip
/// rate the critical rate, `Lagging` when its lag only reaches the warning
/// mark, and `Healthy` otherwise.
pub proof fn lemma_classify_rules(
    lag: nat,
    skip_rate_ppm: int,
    age_secs: int,
    lag_warn: nat,
    lag_crit: nat,
    skip_crit_ppm: int,
    freshness_secs: int,
)
    ensures
        age_secs > freshness_secs ==> classify_spec(
            lag,
            skip_rate_ppm,
            age_secs,
            lag_warn,
            lag_crit,
            skip_crit_ppm,
            freshness_secs,
        ) == HealthStatus::Unknown,
        age_secs <= freshness_secs ==> classify_spec(
            lag,
            skip_rate_ppm,
            age_secs,
            lag_warn,
            lag_crit,
            skip_crit_ppm,
            freshness_secs,
        ) != HealthStatus::Unknown,
        age_secs <= freshness_secs && (lag >= lag_crit || skip_rate_ppm >= skip_crit_ppm)
            ==> classify_spec(
            lag,
            skip_rate_ppm,
            age_secs,
            lag_warn,
            lag_crit,
            skip_crit_ppm,
            freshness_secs,
        ) == HealthStatus::Delinquent,
        age_secs <= freshness_secs && lag < lag_crit && skip_rate_ppm < skip_crit_ppm && lag
            >= lag_warn ==> classify_spec(
            lag,
            skip_rate_ppm,
            age_secs,
            lag_warn,
            lag_crit,
            skip_crit_ppm,
            freshness_secs,
        ) == HealthStatus::Lagging,
        age_secs <= freshness_secs && lag < lag_crit && skip_rate_ppm < skip_crit_ppm && lag
            < lag_warn ==> classify_spec(
            lag,
            skip_rate_ppm,
            age_secs,
            lag_warn,
            lag_crit,
            skip_crit_ppm,
            freshness_secs,
        ) == HealthStatus::Healthy,
{
}

/// The slot lag is how far the node trails the cluster tip, and zero when
/// the node is not behind.
pub proof fn lemma_lag_is_distance_behind(tip: Slot, node: Slot)
    ensures
        tip.0 >= node.0 ==> lag_of(tip, node) + node.0 == tip.0,
        tip.0 <= node.0 ==> lag_of(tip, node) == 0,
{
}

} // verus!
