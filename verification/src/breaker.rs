//! Circuit breaker generic over a [`Clock`].
//!
//! Trips `Open` after `failure_threshold` consecutive failures, stays open for
//! `cooldown`, then allows a single `HalfOpen` probe whose result decides
//! whether to close again or re-open. While that probe is in flight, further
//! calls are refused.

use vstd::prelude::*;

use crate::clock::{Clock, SystemClock};

verus! {

/// Public view of the breaker's state.
#[derive(Debug, Clone, Copy, PartialEq, Eq, Structural)]
pub enum BreakerState {
    /// Calls pass through; failures are counted.
    Closed,
    /// Calls are rejected until the cooldown elapses.
    Open,
    /// A single probe call is permitted.
    HalfOpen,
}

pub open spec fn breaker_state_text(s: BreakerState) -> &'static str {
    match s {
        BreakerState::Closed => "closed",
        BreakerState::Open => "open",
        BreakerState::HalfOpen => "half_open",
    }
}

impl BreakerState {
    /// Stable wire string.
    pub fn as_str(self) -> (s: &'static str)
        ensures
            s == breaker_state_text(self),
    {
        match self {
            BreakerState::Closed => "closed",
            BreakerState::Open => "open",
            BreakerState::HalfOpen => "half_open",
        }
    }
}

/// Returned when the breaker rejects a call: it is open, or its half-open
/// probe is already in flight.
#[derive(Debug, Clone, Copy, PartialEq, Eq, Structural)]
pub struct BreakerError;

impl BreakerError {
    /// The human-readable message (what `Display` would print).
    pub fn message(&self) -> (m: &'static str)
        ensures
            m@ == "circuit breaker is open"@,
    {
        "circuit breaker is open"
    }
}

/// The abstract state of a breaker.
pub struct BreakerView {
    pub state: BreakerState,
    pub failures: u32,
    pub opened_at: u64,
    pub threshold: u32,
    pub cooldown: u64,
    /// The half-open probe has been admitted and its outcome not yet recorded.
    pub probing: bool,
}

/// `a - b`, or zero when `b > a`.
pub open spec fn sat_sub(a: u64, b: u64) -> u64 {
    if a >= b {
        (a - b) as u64
    } else {
        0
    }
}

/// Apply the pending `Open -> HalfOpen` move once the cooldown has elapsed at
/// time `now`; no probe is in flight yet.
pub open spec fn refreshed(v: BreakerView, now: u64) -> BreakerView {
    if v.state == BreakerState::Open && sat_sub(now, v.opened_at) >= v.cooldown {
        BreakerView { state: BreakerState::HalfOpen, probing: false, ..v }
    } else {
        v
    }
}

/// A call is admitted when the breaker is closed, or half-open with its single
/// probe not yet handed out.
pub open spec fn admits_call(v: BreakerView) -> bool {
    v.state == BreakerState::Closed || (v.state == BreakerState::HalfOpen && !v.probing)
}

/// Admitting a call in `HalfOpen` hands out the probe; nothing else changes.
pub open spec fn after_acquire(v: BreakerView) -> BreakerView {
    if v.state == BreakerState::HalfOpen && !v.probing {
        BreakerView { probing: true, ..v }
    } else {
        v
    }
}

/// Record a failed call at time `now`: a failed probe re-opens the breaker;
/// otherwise the failure count grows and reaching the threshold opens it.
pub open spec fn after_failure(v: BreakerView, now: u64) -> BreakerView {
    if v.state == BreakerState::HalfOpen {
        BreakerView {
            state: BreakerState::Open,
            opened_at: now,
            failures: v.threshold,
            probing: false,
            ..v
        }
    } else {
        let f: u32 = if v.failures < u32::MAX {
            (v.failures + 1) as u32
        } else {
            u32::MAX
        };
        if f >= v.threshold {
            BreakerView {
                state: BreakerState::Open,
                opened_at: now,
                failures: f,
                probing: false,
                ..v
            }
        } else {
            BreakerView { failures: f, ..v }
        }
    }
}

/// Record a successful call: the breaker closes and the count resets.
pub open spec fn after_success(v: BreakerView) -> BreakerView {
    BreakerView { state: BreakerState::Closed, failures: 0, probing: false, ..v }
}

/// A circuit breaker.
pub struct CircuitBreaker<C: Clock = SystemClock> {
    clock: C,
    failure_threshold: u32,
    cooldown_millis: u64,
    state: BreakerState,
    consecutive_failures: u32,
    opened_at_millis: u64,
    probe_in_flight: bool,
}

impl<C: Clock> CircuitBreaker<C> {
    pub closed spec fn view(&self) -> BreakerView {
        BreakerView {
            state: self.state,
            failures: self.consecutive_failures,
            opened_at: self.opened_at_millis,
            threshold: self.failure_threshold,
            cooldown: self.cooldown_millis,
            probing: self.probe_in_flight,
        }
    }

    pub closed spec fn spec_clock(&self) -> C {
        self.clock
    }

    /// Create a closed breaker with the given clock, failure threshold (at
    /// least one) and cooldown.
    pub fn new(clock: C, failure_threshold: u32, cooldown_millis: u64) -> (b: Self)
        ensures
            b.view() == (BreakerView {
                state: BreakerState::Closed,
                failures: 0,
                opened_at: 0,
                threshold: if failure_threshold >= 1 {
                    failure_threshold
                } else {
                    1
                },
                cooldown: cooldown_millis,
                probing: false,
            }),
            b.spec_clock() == clock,
    {
        CircuitBreaker {
            clock,
            failure_threshold: if failure_threshold >= 1 {
                failure_threshold
            } else {
                1
            },
            cooldown_millis,
            state: BreakerState::Closed,
            consecutive_failures: 0,
            opened_at_millis: 0,
            probe_in_flight: false,
        }
    }

    fn refresh_at(&mut self, now_millis: u64)
        ensures
            final(self).view() == refreshed(old(self).view(), now_millis),
            final(self).spec_clock() == old(self).spec_clock(),
    {
        if self.state == BreakerState::Open {
            if now_millis.saturating_sub(self.opened_at_millis) >= self.cooldown_millis {
                self.state = BreakerState::HalfOpen;
                self.probe_in_flight = false;
            }
        }
    }

    /// Current state at time `now_millis`, applying any pending
    /// `Open -> HalfOpen` move.
    pub fn state_at(&mut self, now_millis: u64) -> (s: BreakerState)
        ensures
            final(self).view() == refreshed(old(self).view(), now_millis),
            final(self).spec_clock() == old(self).spec_clock(),
            s == final(self).view().state,
    {
        self.refresh_at(now_millis);
        self.state
    }

    /// Current state, applying any pending `Open -> HalfOpen` move at the
    /// clock's current reading.
    pub fn state(&mut self) -> (s: BreakerState)
        ensures
            exists|now: u64| final(self).view() == refreshed(old(self).view(), now),
            final(self).spec_clock() == old(self).spec_clock(),
            s == final(self).view().state,
    {
        let now: u64 = self.clock.now_millis();
        self.state_at(now)
    }

    /// Stable string of the current state, for metrics/labels.
    pub fn state_name(&mut self) -> (n: &'static str)
        ensures
            exists|now: u64| final(self).view() == refreshed(old(self).view(), now),
            final(self).spec_clock() == old(self).spec_clock(),
            n == breaker_state_text(final(self).view().state),
    {
        self.state().as_str()
    }

    /// Ask permission to make a call at time `now_millis`: admitted when the
    /// breaker is closed, or half-open with no probe in flight (the call then
    /// becomes the probe); refused while open or while the probe is out.
    pub fn acquire_at(&mut self, now_millis: u64) -> (r: Result<(), BreakerError>)
        ensures
            final(self).view() == after_acquire(refreshed(old(self).view(), now_millis)),
            final(self).spec_clock() == old(self).spec_clock(),
            r is Ok <==> admits_call(refreshed(old(self).view(), now_millis)),
    {
        self.refresh_at(now_millis);
        match self.state {
            BreakerState::Open => Err(BreakerError),
            BreakerState::Closed => Ok(()),
            BreakerState::HalfOpen => {
                if self.probe_in_flight {
                    Err(BreakerError)
                } else {
                    self.probe_in_flight = true;
                    Ok(())
                }
            },
        }
    }

    /// Ask permission to make a call at the clock's current reading.
    pub fn acquire(&mut self) -> (r: Result<(), BreakerError>)
        ensures
            exists|now: u64|
                {
                    &&& final(self).view() == after_acquire(refreshed(old(self).view(), now))
                    &&& (r is Ok <==> admits_call(refreshed(old(self).view(), now)))
                },
            final(self).spec_clock() == old(self).spec_clock(),
    {
        let now: u64 = self.clock.now_millis();
        self.acquire_at(now)
    }

    /// Record a successful call.
    pub fn on_success(&mut self)
        ensures
            final(self).view() == after_success(old(self).view()),
            final(self).spec_clock() == old(self).spec_clock(),
    {
        self.consecutive_failures = 0;
        self.state = BreakerState::Closed;
        self.probe_in_flight = false;
    }

    /// Record a failed call at time `now_millis`, possibly tripping the
    /// breaker open.
    pub fn on_failure_at(&mut self, now_millis: u64)
        ensures
            final(self).view() == after_failure(old(self).view(), now_millis),
            final(self).spec_clock() == old(self).spec_clock(),
    {
        match self.state {
            BreakerState::HalfOpen => {
                self.state = BreakerState::Open;
                self.opened_at_millis = now_millis;
                self.consecutive_failures = self.failure_threshold;
                self.probe_in_flight = false;
            },
            _ => {
                self.consecutive_failures = self.consecutive_failures.saturating_add(1);
                if self.consecutive_failures >= self.failure_threshold {
                    self.state = BreakerState::Open;
                    self.opened_at_millis = now_millis;
                    self.probe_in_flight = false;
                }
            },
        }
    }

    /// Record a failed call at the clock's current reading.
    pub fn on_failure(&mut self)
        ensures
            exists|now: u64| final(self).view() == after_failure(old(self).view(), now),
            final(self).spec_clock() == old(self).spec_clock(),
    {
        let now: u64 = self.clock.now_millis();
        self.on_failure_at(now)
    }
}

/// `n` failed calls in a row, all at time `now`.
pub open spec fn failures_in_a_row(v: BreakerView, n: nat, now: u64) -> BreakerView
    decreases n,
{
    if n == 0 {
        v
    } else {
        after_failure(failures_in_a_row(v, (n - 1) as nat, now), now)
    }
}

/// A closed breaker with no recorded failures stays closed through fewer than
/// `threshold` consecutive failures and is open after exactly `threshold` of
/// them.
pub proof fn lemma_trips_after_threshold(v: BreakerView, n: nat, now: u64)
    requires
        v.state == BreakerState::Closed,
        v.failures == 0,
        v.threshold >= 1,
        n <= v.threshold,
    ensures
        n < v.threshold ==> failures_in_a_row(v, n, now).state == BreakerState::Closed
            && failures_in_a_row(v, n, now).failures == n,
        n == v.threshold ==> failures_in_a_row(v, n, now).state == BreakerState::Open
            && failures_in_a_row(v, n, now).opened_at == now,
    decreases n,
{
    if n > 0 {
        lemma_trips_after_threshold(v, (n - 1) as nat, now);
        let prev = failures_in_a_row(v, (n - 1) as nat, now);
        assert(prev.state == BreakerState::Closed && prev.failures == n - 1);
        assert(prev.threshold == v.threshold) by {
            lemma_failures_keep_config(v, (n - 1) as nat, now);
        }
        assert(failures_in_a_row(v, n, now) == after_failure(prev, now));
    }
}

/// Failures never change the threshold or the cooldown.
proof fn lemma_failures_keep_config(v: BreakerView, n: nat, now: u64)
    ensures
        failures_in_a_row(v, n, now).threshold == v.threshold,
        failures_in_a_row(v, n, now).cooldown == v.cooldown,
    decreases n,
{
    if n > 0 {
        lemma_failures_keep_config(v, (n - 1) as nat, now);
    }
}

/// An open breaker keeps refusing calls until its cooldown has elapsed, and
/// admits a probe once it has.
pub proof fn lemma_open_until_cooldown(v: BreakerView, now: u64)
    requires
        v.state == BreakerState::Open,
    ensures
        sat_sub(now, v.opened_at) < v.cooldown ==> refreshed(v, now).state == BreakerState::Open,
        sat_sub(now, v.opened_at) >= v.cooldown ==> refreshed(v, now).state
            == BreakerState::HalfOpen,
{
}

/// The probe decides: from `HalfOpen` a success closes the breaker with a
/// fresh count, and a failure re-opens it with the cooldown restarting at the
/// failure's time.
pub proof fn lemma_probe_decides(v: BreakerView, now: u64)
    requires
        v.state == BreakerState::HalfOpen,
    ensures
        after_success(v).state == BreakerState::Closed && after_success(v).failures == 0,
        after_failure(v, now).state == BreakerState::Open && after_failure(v, now).opened_at
            == now,
{
}

/// Once an open breaker's cooldown has elapsed, exactly one call is admitted,
/// as the probe. Every later request is refused, whatever the time, and leaves
/// the breaker as it is, until the probe's outcome is recorded; a recorded
/// success admits calls again.
pub proof fn lemma_single_probe(v: BreakerView, now: u64)
    requires
        v.state == BreakerState::Open,
        sat_sub(now, v.opened_at) >= v.cooldown,
    ensures
        admits_call(refreshed(v, now)),
        after_acquire(refreshed(v, now)).state == BreakerState::HalfOpen,
        forall|later: u64|
            {
                &&& !admits_call(#[trigger] refreshed(after_acquire(refreshed(v, now)), later))
                &&& after_acquire(refreshed(after_acquire(refreshed(v, now)), later))
                    == after_acquire(refreshed(v, now))
            },
        admits_call(after_success(after_acquire(refreshed(v, now)))),
{
}

/// A success resets the count: after it, fewer than `threshold` failures
/// leave the breaker closed again.
pub proof fn lemma_success_resets(v: BreakerView, n: nat, now: u64)
    requires
        v.threshold >= 1,
        n < v.threshold,
    ensures
        failures_in_a_row(after_success(v), n, now).state == BreakerState::Closed,
{
    lemma_trips_after_threshold(after_success(v), n, now);
}

} // verus!
