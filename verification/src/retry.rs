//! Bounded retry with equal-jitter exponential backoff.
//!
//! Jitter is derived from the sub-second nanoseconds of the system clock
//! rather than a random-number generator.

use vstd::arithmetic::power2::pow2;
use vstd::prelude::*;

use crate::systime::{duration_subsec_nanos, since_unix_epoch, system_time_now};
use crate::time::{Delay, MAX_DELAY_NANOS};

verus! {

/// Configuration for a retry loop.
#[derive(Debug, Clone, Copy, PartialEq, Eq, Structural)]
pub struct RetryPolicy {
    /// Total attempts including the first (so `3` means 1 try + 2 retries).
    pub max_attempts: u32,
    /// Base backoff before the first retry.
    pub base_delay: Delay,
    /// Upper bound on any single backoff.
    pub max_delay: Delay,
}

impl Default for RetryPolicy {
    fn default() -> (p: RetryPolicy)
        ensures
            p.max_attempts == 3,
            p.base_delay.spec_nanos() == 50_000_000,
            p.max_delay.spec_nanos() == 5_000_000_000,
    {
        RetryPolicy {
            max_attempts: 3,
            base_delay: Delay::from_millis(50),
            max_delay: Delay::from_secs(5),
        }
    }
}

/// The factor applied to the base delay for retry `index`: `2^index` while
/// that fits in 32 bits, `u32::MAX` beyond.
pub open spec fn backoff_factor(index: u32) -> nat {
    if index < 32 {
        pow2(index as nat)
    } else {
        u32::MAX as nat
    }
}

/// The capped exponential backoff for retry `index`, before jitter:
/// `min(base * factor, max_delay)` (the product saturating at the largest
/// span).
pub open spec fn capped_backoff(p: RetryPolicy, index: u32) -> nat {
    let raw = p.base_delay.spec_nanos() * backoff_factor(index);
    let raw = if raw <= MAX_DELAY_NANOS {
        raw
    } else {
        MAX_DELAY_NANOS as nat
    };
    if raw <= p.max_delay.spec_nanos() {
        raw
    } else {
        p.max_delay.spec_nanos()
    }
}

/// The jitter window of retry `index`: the upper half of the capped backoff.
pub open spec fn jitter_span(p: RetryPolicy, index: u32) -> nat {
    (capped_backoff(p, index) - capped_backoff(p, index) / 2) as nat
}

/// The window length used as a modulus, truncated to 64 bits.
pub open spec fn jitter_modulus(p: RetryPolicy, index: u32) -> nat {
    jitter_span(p, index) % 0x1_0000_0000_0000_0000
}

/// The backoff is computable: a non-empty jitter window does not truncate to
/// a zero modulus (which only windows of a multiple of 2^64 ns, over 584
/// years, would).
pub open spec fn backoff_defined(p: RetryPolicy, index: u32) -> bool {
    jitter_span(p, index) == 0 || jitter_modulus(p, index) != 0
}

/// The equal-jitter backoff for retry `index` given `entropy` nanoseconds:
/// half the capped backoff plus `entropy` reduced into the jitter window.
pub open spec fn jittered_backoff(p: RetryPolicy, index: u32, entropy: u32) -> nat {
    let half = capped_backoff(p, index) / 2;
    if jitter_span(p, index) == 0 {
        half
    } else {
        half + (entropy as nat) % jitter_modulus(p, index)
    }
}

impl RetryPolicy {
    /// Construct a policy with at least one attempt.
    pub fn new(max_attempts: u32, base_delay: Delay, max_delay: Delay) -> (p: RetryPolicy)
        ensures
            p.max_attempts == if max_attempts >= 1 {
                max_attempts
            } else {
                1
            },
            p.base_delay == base_delay,
            p.max_delay == max_delay,
    {
        RetryPolicy {
            max_attempts: if max_attempts >= 1 {
                max_attempts
            } else {
                1
            },
            base_delay,
            max_delay,
        }
    }

    fn factor(index: u32) -> (f: u128)
        ensures
            f == backoff_factor(index),
            f <= u32::MAX,
    {
        if index >= 32 {
            return 4_294_967_295;
        }
        let mut f: u128 = 1;
        let mut i: u32 = 0;
        proof {
            vstd::arithmetic::power2::lemma2_to64();
        }
        while i < index
            invariant
                i <= index < 32,
                f == pow2(i as nat),
                f <= 0x8000_0000,
            decreases index - i,
        {
            proof {
                vstd::arithmetic::power2::lemma_pow2_unfold((i + 1) as nat);
                vstd::arithmetic::power2::lemma_pow2_strictly_increases(i as nat, 31);
                vstd::arithmetic::power2::lemma2_to64();
            }
            f = f * 2;
            i = i + 1;
        }
        proof {
            vstd::arithmetic::power2::lemma2_to64();
            if index < 31 {
                vstd::arithmetic::power2::lemma_pow2_strictly_increases(index as nat, 31);
            }
        }
        f
    }

    fn capped_nanos(&self, retry_index: u32) -> (c: u128)
        ensures
            c == capped_backoff(*self, retry_index),
    {
        let factor: u128 = Self::factor(retry_index);
        let base: u128 = self.base_delay.as_nanos();
        let cap_at: u128 = self.max_delay.as_nanos();
        let raw: u128 = if factor == 0 || base <= MAX_DELAY_NANOS / factor {
            assert(base * factor <= MAX_DELAY_NANOS) by (nonlinear_arith)
                requires
                    factor == 0 || base <= MAX_DELAY_NANOS / factor,
            ;
            base * factor
        } else {
            assert(base * factor > MAX_DELAY_NANOS) by (nonlinear_arith)
                requires
                    factor > 0,
                    base > MAX_DELAY_NANOS / factor,
            ;
            MAX_DELAY_NANOS
        };
        let capped: u128 = if raw <= cap_at {
            raw
        } else {
            cap_at
        };
        capped
    }

    /// Whether the backoff for retry `retry_index` can be computed (see
    /// [`backoff_defined`]).
    pub fn backoff_is_defined(&self, retry_index: u32) -> (b: bool)
        ensures
            b == backoff_defined(*self, retry_index),
    {
        let capped: u128 = self.capped_nanos(retry_index);
        let span: u128 = capped - capped / 2;
        span == 0 || span % 0x1_0000_0000_0000_0000 != 0
    }

    /// The backoff for retry `retry_index` (zero-based) with the jitter drawn
    /// from `entropy_nanos`: `half + entropy % window`, where `half` is half
    /// the capped exponential backoff and `window` its other half.
    pub fn backoff_with_entropy(&self, retry_index: u32, entropy_nanos: u32) -> (d: Delay)
        requires
            backoff_defined(*self, retry_index),
        ensures
            d.spec_nanos() == jittered_backoff(*self, retry_index, entropy_nanos),
            capped_backoff(*self, retry_index) / 2 <= d.spec_nanos() <= capped_backoff(
                *self,
                retry_index,
            ),
    {
        let capped: u128 = self.capped_nanos(retry_index);
        let half: u128 = capped / 2;
        let span: u128 = capped - half;
        let jitter: u128 = if span == 0 {
            0
        } else {
            let modulus: u128 = span % 0x1_0000_0000_0000_0000;
            let m: u64 = modulus as u64;
            ((entropy_nanos as u64) % m) as u128
        };
        proof {
            if span > 0 {
                let m: nat = (span % 0x1_0000_0000_0000_0000) as nat;
                assert((entropy_nanos as nat) % m < m);
                assert(m <= span);
            }
        }
        Delay::from_nanos_u128(half + jitter)
    }

    /// Equal-jitter backoff for the given zero-based retry index: at least
    /// half the capped exponential backoff and at most all of it, the jitter
    /// coming from the system clock's sub-second nanoseconds.
    pub fn backoff_for(&self, retry_index: u32) -> (d: Delay)
        requires
            backoff_defined(*self, retry_index),
        ensures
            exists|entropy: u32|
                entropy < 1_000_000_000 && d.spec_nanos() == jittered_backoff(
                    *self,
                    retry_index,
                    entropy,
                ),
            capped_backoff(*self, retry_index) / 2 <= d.spec_nanos() <= capped_backoff(
                *self,
                retry_index,
            ),
            d.spec_nanos() <= self.max_delay.spec_nanos(),
    {
        let now = system_time_now();
        let entropy: u32 = match since_unix_epoch(&now) {
            Some(d) => duration_subsec_nanos(&d),
            None => 0,
        };
        self.backoff_with_entropy(retry_index, entropy)
    }

    /// Whether a failed attempt is followed by another: only while attempts
    /// remain and the failure is retryable. `attempts` counts the attempts
    /// made so far, this failed one included. Returns the zero-based index of
    /// the retry to back off for.
    pub fn next_retry(&self, attempts: u32, retryable: bool) -> (r: Option<u32>)
        requires
            attempts >= 1,
        ensures
            r == if attempts >= self.max_attempts || !retryable {
                None
            } else {
                Some((attempts - 1) as u32)
            },
    {
        if attempts >= self.max_attempts || !retryable {
            None
        } else {
            Some(attempts - 1)
        }
    }
}

/// The capped backoff never exceeds the policy's maximum, never shrinks from
/// one retry to a later one, starts at the base delay, and doubles from one
/// retry to the next while the doubled value stays within the maximum.
pub proof fn lemma_backoff_grows(p: RetryPolicy, i: u32, j: u32)
    ensures
        capped_backoff(p, i) <= p.max_delay.spec_nanos(),
        i <= j ==> capped_backoff(p, i) <= capped_backoff(p, j),
        p.base_delay.spec_nanos() <= p.max_delay.spec_nanos() && p.base_delay.spec_nanos()
            <= MAX_DELAY_NANOS ==> capped_backoff(p, 0) == p.base_delay.spec_nanos(),
        i < 31 && p.base_delay.spec_nanos() * pow2(i as nat + 1) <= p.max_delay.spec_nanos()
            && p.base_delay.spec_nanos() * pow2(i as nat + 1) <= MAX_DELAY_NANOS ==> capped_backoff(
            p,
            (i + 1) as u32,
        ) == 2 * capped_backoff(p, i),
{
    let b = p.base_delay.spec_nanos();
    vstd::arithmetic::power2::lemma2_to64();
    if i <= j {
        let fi = backoff_factor(i);
        let fj = backoff_factor(j);
        if i < j && j < 32 {
            vstd::arithmetic::power2::lemma_pow2_strictly_increases(i as nat, j as nat);
        } else if i < 32 && j >= 32 && i < 31 {
            vstd::arithmetic::power2::lemma_pow2_strictly_increases(i as nat, 31);
        }
        assert(fi <= fj);
        assert(b * fi <= b * fj) by (nonlinear_arith)
            requires
                fi <= fj,
        ;
    }
    assert(b * pow2(0) == b) by {
        assert(pow2(0) == 1);
    }
    if i < 31 {
        vstd::arithmetic::power2::lemma_pow2_unfold(i as nat + 1);
        let e: nat = i as nat;
        assert(pow2(e + 1) == 2 * pow2(e));
        assert(b * pow2(e + 1) == 2 * (b * pow2(e))) by (nonlinear_arith)
            requires
                pow2(e + 1) == 2 * pow2(e),
        ;
        assert(b * pow2(e) <= b * pow2(e + 1)) by (nonlinear_arith)
            requires
                pow2(e + 1) == 2 * pow2(e),
        ;
    }
}

} // verus!
