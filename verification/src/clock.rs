//! Injectable monotonic clock abstraction.
//!
//! Timing-sensitive primitives (breaker cooldown, token-bucket refill) read
//! time through [`Clock`] so tests can drive time by hand with
//! [`ManualClock`]. Readings are only meaningful relative to each other.

use std::sync::atomic::AtomicU64;
use std::sync::Arc;
use std::time::{Duration, Instant};

use vstd::prelude::*;

verus! {

#[verifier::external_type_specification]
#[verifier::external_body]
pub struct ExInstant(Instant);

/// A source of monotonic milliseconds since an arbitrary, fixed epoch.
pub trait Clock {
    /// Monotonic milliseconds since the clock's epoch.
    fn now_millis(&self) -> u64;
}

/// `Instant::now`.
#[verifier::external_body]
fn instant_now() -> Instant {
    Instant::now()
}

/// `Instant::elapsed`; what it returns depends on the time of the call.
#[verifier::external_body]
fn instant_elapsed(base: &Instant) -> Duration {
    base.elapsed()
}

/// `Duration::as_millis`.
#[verifier::external_body]
fn duration_whole_millis(d: &Duration) -> u128 {
    d.as_millis()
}

/// Real monotonic clock whose epoch is its creation.
pub struct SystemClock {
    base: Instant,
}

impl SystemClock {
    /// Create a clock whose epoch is "now".
    pub fn new() -> SystemClock {
        SystemClock { base: instant_now() }
    }
}

impl Default for SystemClock {
    fn default() -> SystemClock {
        SystemClock::new()
    }
}

impl Clock for SystemClock {
    /// Whole milliseconds since the clock was created, truncated to 64 bits.
    fn now_millis(&self) -> u64 {
        let elapsed = instant_elapsed(&self.base);
        let millis: u128 = duration_whole_millis(&elapsed);
        #[verifier::truncate]
        (millis as u64)
    }
}

/// A hand-driven clock. Clones share the same counter, so a clock handed to a
/// primitive can still be advanced by whoever kept a clone.
#[derive(Debug, Clone)]
pub struct ManualClock {
    millis: Arc<AtomicU64>,
}

impl Default for ManualClock {
    fn default() -> ManualClock {
        ManualClock::new(0)
    }
}

impl ManualClock {
    /// Create a manual clock reading `start_millis`.
    pub fn new(start_millis: u64) -> ManualClock {
        ManualClock { millis: Arc::new(AtomicU64::new(start_millis)) }
    }

    /// Advance the clock (and every clone of it) by `delta_millis`, wrapping
    /// at `u64::MAX`.
    pub fn advance(&self, delta_millis: u64) {
        self.millis.fetch_add(delta_millis, std::sync::atomic::Ordering::SeqCst);
    }

    /// Set the clock (and every clone of it) to `millis`.
    pub fn set(&self, millis: u64) {
        self.millis.store(millis, std::sync::atomic::Ordering::SeqCst);
    }
}

impl Clock for ManualClock {
    fn now_millis(&self) -> u64 {
        self.millis.load(std::sync::atomic::Ordering::SeqCst)
    }
}

} // verus!
