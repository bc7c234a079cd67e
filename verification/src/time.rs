//! Time values used by the domain: wall-clock instants and spans of time.
//!
//! Instants are nanoseconds since the Unix epoch; spans are non-negative
//! nanosecond counts bounded like `std::time::Duration` (at most
//! `u64::MAX` seconds plus 999 999 999 nanoseconds).

use vstd::prelude::*;

verus! {

/// Nanoseconds in one second.
pub const NANOS_PER_SEC: u128 = 1_000_000_000;

/// The largest span: `u64::MAX` seconds and 999 999 999 nanoseconds.
pub const MAX_DELAY_NANOS: u128 = 18_446_744_073_709_551_615_999_999_999;

/// Division truncating toward zero, as integer division does in Rust.
pub open spec fn trunc_div(a: int, b: int) -> int
    recommends
        b > 0,
{
    if a >= 0 {
        a / b
    } else {
        -((-a) / b)
    }
}

/// The magnitude bound on a [`Timestamp`] (2^100 nanoseconds, far beyond any
/// calendar date a clock reports).
pub const MAX_ABS_TIMESTAMP_NANOS: i128 = 1_267_650_600_228_229_401_496_703_205_376;

/// A wall-clock instant, in nanoseconds since the Unix epoch (UTC).
#[derive(Debug, Clone, Copy, PartialEq, Eq, PartialOrd, Ord, Hash, Structural)]
pub struct Timestamp {
    unix_nanos: i128,
}

impl Timestamp {
    /// Nanoseconds since 1970-01-01T00:00:00Z (negative before it).
    pub closed spec fn nanos(self) -> int {
        self.unix_nanos as int
    }

    #[verifier::type_invariant]
    closed spec fn in_range(self) -> bool {
        -MAX_ABS_TIMESTAMP_NANOS <= self.unix_nanos <= MAX_ABS_TIMESTAMP_NANOS
    }

    /// The instant `secs` seconds and `subsec_nanos` nanoseconds after the
    /// epoch.
    pub fn from_unix_parts(secs: i64, subsec_nanos: u32) -> (t: Timestamp)
        ensures
            t.nanos() == secs * 1_000_000_000 + subsec_nanos,
    {
        Timestamp { unix_nanos: (secs as i128) * 1_000_000_000 + (subsec_nanos as i128) }
    }

    /// The instant `secs` seconds and `subsec_nanos` nanoseconds away from
    /// the epoch: before it when `before_epoch`, after it otherwise.
    pub fn from_epoch_offset(before_epoch: bool, secs: u64, subsec_nanos: u32) -> (t: Timestamp)
        requires
            subsec_nanos < 1_000_000_000,
        ensures
            t.nanos() == if before_epoch {
                -(secs * 1_000_000_000 + subsec_nanos)
            } else {
                secs * 1_000_000_000 + subsec_nanos
            },
    {
        assert(secs * 1_000_000_000 <= 18_446_744_073_709_551_615 * 1_000_000_000) by (
        nonlinear_arith)
            requires
                secs <= 18_446_744_073_709_551_615u64,
        ;
        let offset: i128 = (secs as i128) * 1_000_000_000 + (subsec_nanos as i128);
        if before_epoch {
            Timestamp { unix_nanos: 0 - offset }
        } else {
            Timestamp { unix_nanos: offset }
        }
    }

    /// The instant `secs` seconds after the epoch.
    pub fn from_unix_secs(secs: i64) -> (t: Timestamp)
        ensures
            t.nanos() == secs * 1_000_000_000,
    {
        Timestamp { unix_nanos: (secs as i128) * 1_000_000_000 }
    }

    /// The instant `millis` milliseconds after the epoch.
    pub fn from_unix_millis(millis: i64) -> (t: Timestamp)
        ensures
            t.nanos() == millis * 1_000_000,
    {
        Timestamp { unix_nanos: (millis as i128) * 1_000_000 }
    }

    /// Nanoseconds since the epoch.
    pub fn unix_nanos(self) -> (n: i128)
        ensures
            n == self.nanos(),
            -MAX_ABS_TIMESTAMP_NANOS <= n <= MAX_ABS_TIMESTAMP_NANOS,
    {
        proof {
            use_type_invariant(self);
        }
        self.unix_nanos
    }

    /// Whole seconds elapsed from `earlier` to `self`, truncated toward zero
    /// (negative when `earlier` is later).
    pub fn whole_seconds_since(self, earlier: Timestamp) -> (s: i128)
        ensures
            s == trunc_div(self.nanos() - earlier.nanos(), 1_000_000_000),
    {
        proof {
            use_type_invariant(self);
            use_type_invariant(earlier);
        }
        let diff: i128 = self.unix_nanos - earlier.unix_nanos;
        if diff >= 0 {
            diff / 1_000_000_000
        } else {
            let neg: i128 = 0 - diff;
            0 - (neg / 1_000_000_000)
        }
    }
}

/// A non-negative span of time with nanosecond precision.
#[derive(Debug, Clone, Copy, PartialEq, Eq, PartialOrd, Ord, Hash, Structural)]
pub struct Delay {
    nanos: u128,
}

impl Delay {
    /// The span's length in nanoseconds.
    pub closed spec fn spec_nanos(self) -> nat {
        self.nanos as nat
    }

    #[verifier::type_invariant]
    closed spec fn bounded(self) -> bool {
        self.nanos <= MAX_DELAY_NANOS
    }

    /// The empty span.
    pub fn zero() -> (d: Delay)
        ensures
            d.spec_nanos() == 0,
    {
        Delay { nanos: 0 }
    }

    /// A span of `nanos` nanoseconds.
    pub fn from_nanos(nanos: u64) -> (d: Delay)
        ensures
            d.spec_nanos() == nanos,
    {
        Delay { nanos: nanos as u128 }
    }

    /// A span of `millis` milliseconds.
    pub fn from_millis(millis: u64) -> (d: Delay)
        ensures
            d.spec_nanos() == millis * 1_000_000,
    {
        Delay { nanos: (millis as u128) * 1_000_000 }
    }

    /// A span of `secs` seconds.
    pub fn from_secs(secs: u64) -> (d: Delay)
        ensures
            d.spec_nanos() == secs * 1_000_000_000,
    {
        Delay { nanos: (secs as u128) * 1_000_000_000 }
    }

    /// A span of `nanos` nanoseconds, where `nanos` may exceed `u64::MAX`.
    pub fn from_nanos_u128(nanos: u128) -> (d: Delay)
        requires
            nanos <= MAX_DELAY_NANOS,
        ensures
            d.spec_nanos() == nanos,
    {
        Delay { nanos }
    }

    /// The span's length in nanoseconds.
    pub fn as_nanos(&self) -> (n: u128)
        ensures
            n == self.spec_nanos(),
            n <= MAX_DELAY_NANOS,
    {
        proof {
            use_type_invariant(self);
        }
        self.nanos
    }

    /// Whether the span is empty.
    pub fn is_zero(&self) -> (b: bool)
        ensures
            b == (self.spec_nanos() == 0),
    {
        self.nanos == 0
    }

    /// The whole milliseconds in the span (saturating at `u64::MAX`).
    pub fn as_millis_saturating(&self) -> (m: u64)
        ensures
            m == if self.spec_nanos() / 1_000_000 > u64::MAX {
                u64::MAX as nat
            } else {
                self.spec_nanos() / 1_000_000
            },
    {
        let m: u128 = self.nanos / 1_000_000;
        if m > (u64::MAX as u128) {
            u64::MAX
        } else {
            m as u64
        }
    }
}

} // verus!
