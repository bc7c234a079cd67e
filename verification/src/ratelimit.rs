//! Token-bucket rate limiter generic over a [`Clock`].
//!
//! Tokens are counted in thousandths (milli-tokens), which makes refill exact:
//! `elapsed_millis * refill_per_sec` milli-tokens accrue over `elapsed_millis`
//! milliseconds.

use vstd::prelude::*;

use crate::breaker::sat_sub;
use crate::clock::{Clock, SystemClock};

verus! {

/// Milli-tokens per token.
pub const MILLI_PER_TOKEN: u128 = 1000;

/// The abstract state of a bucket.
pub struct BucketView {
    /// Burst size, in tokens.
    pub capacity: u64,
    /// Steady admission rate, in tokens per second.
    pub refill_per_sec: u64,
    /// Available milli-tokens.
    pub tokens: nat,
    /// Clock reading of the last refill.
    pub last_refill: u64,
}

/// Bring the bucket up to date at time `now`: the elapsed milliseconds times
/// the rate accrue as milli-tokens, capped at the capacity.
pub open spec fn refilled(v: BucketView, now: u64) -> BucketView {
    let elapsed = sat_sub(now, v.last_refill);
    if elapsed > 0 {
        let sum = v.tokens + elapsed * v.refill_per_sec;
        let cap = v.capacity * 1000;
        BucketView { tokens: if sum <= cap { sum as nat } else { cap as nat }, last_refill: now, ..v }
    } else {
        v
    }
}

/// Whether `n` tokens are admitted at time `now`.
pub open spec fn admits(v: BucketView, now: u64, n: u64) -> bool {
    refilled(v, now).tokens >= n * 1000
}

/// The bucket after a request for `n` tokens at time `now`: refilled, and
/// debited when admitted.
pub open spec fn after_request(v: BucketView, now: u64, n: u64) -> BucketView {
    let r = refilled(v, now);
    if admits(v, now, n) {
        BucketView { tokens: (r.tokens - n * 1000) as nat, ..r }
    } else {
        r
    }
}

/// A token-bucket rate limiter. `capacity` is the burst size;
/// `refill_per_sec` is the steady-state admission rate.
pub struct RateLimiter<C: Clock = SystemClock> {
    clock: C,
    capacity: u64,
    refill_per_sec: u64,
    tokens_milli: u128,
    last_refill_millis: u64,
}

impl<C: Clock> RateLimiter<C> {
    pub closed spec fn view(&self) -> BucketView {
        BucketView {
            capacity: self.capacity,
            refill_per_sec: self.refill_per_sec,
            tokens: self.tokens_milli as nat,
            last_refill: self.last_refill_millis,
        }
    }

    pub closed spec fn spec_clock(&self) -> C {
        self.clock
    }

    /// Never more tokens than the capacity.
    pub closed spec fn wf(&self) -> bool {
        self.tokens_milli <= (self.capacity as u128) * MILLI_PER_TOKEN
    }

    /// Create a limiter pre-filled to `capacity`, whose refill clock starts at
    /// `clock`'s current reading.
    pub fn new(clock: C, capacity: u64, refill_per_sec: u64) -> (l: Self)
        ensures
            l.wf(),
            l.view().capacity == capacity,
            l.view().refill_per_sec == refill_per_sec,
            l.view().tokens == capacity * 1000,
    {
        let now: u64 = clock.now_millis();
        RateLimiter {
            clock,
            capacity,
            refill_per_sec,
            tokens_milli: (capacity as u128) * MILLI_PER_TOKEN,
            last_refill_millis: now,
        }
    }

    fn refill_at(&mut self, now_millis: u64)
        requires
            old(self).wf(),
        ensures
            final(self).wf(),
            final(self).view() == refilled(old(self).view(), now_millis),
            final(self).spec_clock() == old(self).spec_clock(),
    {
        let elapsed: u64 = now_millis.saturating_sub(self.last_refill_millis);
        if elapsed > 0 {
            assert((elapsed as u128) * (self.refill_per_sec as u128) <= u128::MAX) by (nonlinear_arith)
                requires
                    elapsed <= u64::MAX,
                    self.refill_per_sec <= u64::MAX,
            ;
            let added: u128 = (elapsed as u128) * (self.refill_per_sec as u128);
            let cap: u128 = (self.capacity as u128) * MILLI_PER_TOKEN;
            let sum: u128 = self.tokens_milli.saturating_add(added);
            self.tokens_milli = if sum <= cap {
                sum
            } else {
                cap
            };
            self.last_refill_millis = now_millis;
        }
    }

    /// Try to consume `n` tokens at time `now_millis`; `true` if admitted.
    pub fn try_acquire_n_at(&mut self, now_millis: u64, n: u64) -> (admitted: bool)
        requires
            old(self).wf(),
        ensures
            final(self).wf(),
            admitted == admits(old(self).view(), now_millis, n),
            final(self).view() == after_request(old(self).view(), now_millis, n),
            final(self).spec_clock() == old(self).spec_clock(),
    {
        self.refill_at(now_millis);
        let need: u128 = (n as u128) * MILLI_PER_TOKEN;
        if self.tokens_milli >= need {
            self.tokens_milli = self.tokens_milli - need;
            true
        } else {
            false
        }
    }

    /// Try to consume `n` tokens at the clock's current reading.
    pub fn try_acquire_n(&mut self, n: u64) -> (admitted: bool)
        requires
            old(self).wf(),
        ensures
            final(self).wf(),
            exists|now: u64|
                admitted == admits(old(self).view(), now, n) && final(self).view()
                    == after_request(old(self).view(), now, n),
            final(self).spec_clock() == old(self).spec_clock(),
    {
        let now: u64 = self.clock.now_millis();
        self.try_acquire_n_at(now, n)
    }

    /// Try to consume one token at the clock's current reading.
    pub fn try_acquire(&mut self) -> (admitted: bool)
        requires
            old(self).wf(),
        ensures
            final(self).wf(),
            exists|now: u64|
                admitted == admits(old(self).view(), now, 1) && final(self).view()
                    == after_request(old(self).view(), now, 1),
            final(self).spec_clock() == old(self).spec_clock(),
    {
        self.try_acquire_n(1)
    }

    /// Available milli-tokens at time `now_millis` (after refill).
    pub fn available_at(&mut self, now_millis: u64) -> (milli_tokens: u128)
        requires
            old(self).wf(),
        ensures
            final(self).wf(),
            final(self).view() == refilled(old(self).view(), now_millis),
            milli_tokens == final(self).view().tokens,
            milli_tokens <= final(self).view().capacity * 1000,
            final(self).spec_clock() == old(self).spec_clock(),
    {
        self.refill_at(now_millis);
        self.tokens_milli
    }

    /// Available milli-tokens at the clock's current reading (after refill),
    /// for observability.
    pub fn available(&mut self) -> (milli_tokens: u128)
        requires
            old(self).wf(),
        ensures
            final(self).wf(),
            exists|now: u64| final(self).view() == refilled(old(self).view(), now),
            milli_tokens == final(self).view().tokens,
            milli_tokens <= final(self).view().capacity * 1000,
            final(self).spec_clock() == old(self).spec_clock(),
    {
        let now: u64 = self.clock.now_millis();
        self.available_at(now)
    }
}

/// Replay requests for `n` tokens at the given times; returns the final
/// bucket and how many requests were admitted.
pub open spec fn replay(v: BucketView, times: Seq<u64>, n: u64) -> (BucketView, nat)
    decreases times.len(),
{
    if times.len() == 0 {
        (v, 0)
    } else {
        let (w, k) = replay(v, times.drop_last(), n);
        let admitted: nat = if admits(w, times.last(), n) {
            1
        } else {
            0
        };
        (after_request(w, times.last(), n), k + admitted)
    }
}

/// Times that never go backwards and start no earlier than `from`.
pub open spec fn monotone_from(times: Seq<u64>, from: u64) -> bool {
    &&& forall|i: int| 0 <= i < times.len() ==> from <= #[trigger] times[i]
    &&& forall|i: int, j: int| 0 <= i <= j < times.len() ==> times[i] <= times[j]
}

/// The token-bucket guarantee: over requests at non-decreasing times
/// starting from a bucket holding `tokens` milli-tokens refilled last at
/// `last_refill`, the tokens admitted never exceed what the bucket held plus
/// what the rate accrues until the last request.
pub proof fn lemma_admissions_bounded(v: BucketView, times: Seq<u64>, n: u64)
    requires
        times.len() > 0,
        monotone_from(times, v.last_refill),
    ensures
        replay(v, times, n).1 * (n * 1000) + replay(v, times, n).0.tokens <= v.tokens + (
        times.last() - v.last_refill) * v.refill_per_sec,
        replay(v, times, n).0.last_refill == times.last(),
    decreases times.len(),
{
    let prefix = times.drop_last();
    let t = times.last();
    let r = v.refill_per_sec;
    if prefix.len() == 0 {
        let (w, k) = replay(v, prefix, n);
        assert(w == v && k == 0);
        lemma_request_accounting(v, t, n);
    } else {
        assert(monotone_from(prefix, v.last_refill)) by {
            assert forall|i: int, j: int| 0 <= i <= j < prefix.len() implies prefix[i]
                <= prefix[j] by {
                assert(prefix[i] == times[i] && prefix[j] == times[j]);
            }
            assert forall|i: int| 0 <= i < prefix.len() implies v.last_refill
                <= #[trigger] prefix[i] by {
                assert(prefix[i] == times[i]);
            }
        }
        lemma_admissions_bounded(v, prefix, n);
        let (w, k) = replay(v, prefix, n);
        let p = prefix.last();
        assert(p == times[times.len() - 2]);
        assert(p <= t);
        assert(v.last_refill <= p) by {
            assert(v.last_refill <= times[times.len() - 2]);
        }
        assert(w.last_refill == p);
        lemma_request_accounting(w, t, n);
        assert(w.refill_per_sec == r) by {
            lemma_replay_keeps_config(v, prefix, n);
        }
        assert((p - v.last_refill) * r + (t - p) * r == (t - v.last_refill) * r)
            by (nonlinear_arith)
            requires
                v.last_refill <= p <= t,
        ;
        let a: nat = if admits(w, t, n) {
            1
        } else {
            0
        };
        assert(replay(v, times, n) == (after_request(w, t, n), k + a));
        assert((k + a) * (n * 1000) == k * (n * 1000) + a * (n * 1000)) by (nonlinear_arith);
        assert(a * (n * 1000) == if admits(w, t, n) {
            n * 1000
        } else {
            0
        });
    }
}

/// One request's accounting: what it admits plus what remains is at most what
/// was held plus what accrued since the last refill, and the request becomes
/// the last refill.
proof fn lemma_request_accounting(v: BucketView, now: u64, n: u64)
    requires
        v.last_refill <= now,
    ensures
        (if admits(v, now, n) {
            n * 1000
        } else {
            0
        }) + after_request(v, now, n).tokens <= v.tokens + (now - v.last_refill)
            * v.refill_per_sec,
        after_request(v, now, n).last_refill == now,
        after_request(v, now, n).refill_per_sec == v.refill_per_sec,
{
    assert(0 <= (now - v.last_refill) * v.refill_per_sec) by (nonlinear_arith)
        requires
            v.last_refill <= now,
    ;
}

proof fn lemma_replay_keeps_config(v: BucketView, times: Seq<u64>, n: u64)
    ensures
        replay(v, times, n).0.refill_per_sec == v.refill_per_sec,
        replay(v, times, n).0.capacity == v.capacity,
    decreases times.len(),
{
    if times.len() > 0 {
        lemma_replay_keeps_config(v, times.drop_last(), n);
    }
}

} // verus!
