use validatorforge::breaker::{BreakerState, CircuitBreaker};
use validatorforge::bulkhead::Bulkhead;
use validatorforge::clock::{Clock, ManualClock, SystemClock};
use validatorforge::ratelimit::RateLimiter;
use validatorforge::retry::RetryPolicy;
use validatorforge::time::Delay;
use validatorforge::timeout::TimeoutError;
use validatorforge::wall_clock::{Clock as WallClock, UtcClock};

fn breaker(clock: ManualClock) -> CircuitBreaker<ManualClock> {
    CircuitBreaker::new(clock, 3, 1000)
}

// ---- clock ----

#[test]
fn manual_clock_advances() {
    let c = ManualClock::new(100);
    assert_eq!(c.now_millis(), 100);
    c.advance(50);
    assert_eq!(c.now_millis(), 150);
    c.set(0);
    assert_eq!(c.now_millis(), 0);
}

#[test]
fn manual_clock_clones_share_state() {
    let a = ManualClock::new(0);
    let b = a.clone();
    a.advance(10);
    assert_eq!(b.now_millis(), 10);
}

#[test]
fn system_clock_is_monotonic() {
    let c = SystemClock::new();
    let t0 = c.now_millis();
    let t1 = c.now_millis();
    assert!(t1 >= t0);
}

// ---- breaker ----

#[test]
fn opens_after_threshold() {
    let clock = ManualClock::new(0);
    let mut b = breaker(clock);
    assert!(b.acquire().is_ok());
    b.on_failure();
    b.on_failure();
    assert_eq!(b.state(), BreakerState::Closed);
    b.on_failure();
    assert_eq!(b.state(), BreakerState::Open);
    assert!(b.acquire().is_err());
}

#[test]
fn half_open_after_cooldown_then_close_on_success() {
    let clock = ManualClock::new(0);
    let mut b = breaker(clock.clone());
    for _ in 0..3 {
        b.on_failure();
    }
    assert_eq!(b.state(), BreakerState::Open);
    clock.advance(1000);
    assert_eq!(b.state(), BreakerState::HalfOpen);
    assert!(b.acquire().is_ok());
    b.on_success();
    assert_eq!(b.state(), BreakerState::Closed);
}

#[test]
fn half_open_admits_a_single_probe() {
    let clock = ManualClock::new(0);
    let mut b = breaker(clock.clone());
    for _ in 0..3 {
        b.on_failure();
    }
    clock.advance(1000);
    assert!(b.acquire().is_ok());
    assert!(b.acquire().is_err());
    clock.advance(5000);
    assert!(b.acquire().is_err());
    assert_eq!(b.state(), BreakerState::HalfOpen);
    b.on_success();
    assert!(b.acquire().is_ok());
    assert!(b.acquire().is_ok());
}

#[test]
fn failed_probe_reopens_then_admits_a_new_probe() {
    let clock = ManualClock::new(0);
    let mut b = breaker(clock.clone());
    for _ in 0..3 {
        b.on_failure();
    }
    clock.advance(1000);
    assert!(b.acquire().is_ok());
    b.on_failure();
    assert!(b.acquire().is_err());
    clock.advance(1000);
    assert!(b.acquire().is_ok());
    assert!(b.acquire().is_err());
}

#[test]
fn half_open_failure_reopens() {
    let clock = ManualClock::new(0);
    let mut b = breaker(clock.clone());
    for _ in 0..3 {
        b.on_failure();
    }
    clock.advance(1000);
    assert_eq!(b.state(), BreakerState::HalfOpen);
    b.on_failure();
    assert_eq!(b.state(), BreakerState::Open);
}

#[test]
fn success_resets_failure_count() {
    let clock = ManualClock::new(0);
    let mut b = breaker(clock);
    b.on_failure();
    b.on_failure();
    b.on_success();
    b.on_failure();
    b.on_failure();
    assert_eq!(b.state(), BreakerState::Closed);
}

#[test]
fn state_names() {
    assert_eq!(BreakerState::HalfOpen.as_str(), "half_open");
}

#[test]
fn breaker_stays_open_until_the_cooldown_ends() {
    let clock = ManualClock::new(5_000);
    let mut b = breaker(clock.clone());
    for _ in 0..3 {
        b.on_failure();
    }
    clock.advance(999);
    assert_eq!(b.state(), BreakerState::Open);
    assert_eq!(b.acquire().unwrap_err().message(), "circuit breaker is open");
    clock.advance(1);
    assert_eq!(b.state_name(), "half_open");
    // A zero threshold behaves as one.
    let mut single = CircuitBreaker::new(ManualClock::new(0), 0, 10);
    single.on_failure();
    assert_eq!(single.state(), BreakerState::Open);
}

// ---- rate limiter (tokens are counted in thousandths) ----

#[test]
fn admits_up_to_capacity_then_throttles() {
    let clock = ManualClock::new(0);
    let mut rl = RateLimiter::new(clock, 3, 1);
    assert!(rl.try_acquire());
    assert!(rl.try_acquire());
    assert!(rl.try_acquire());
    assert!(!rl.try_acquire());
}

#[test]
fn refills_over_time() {
    let clock = ManualClock::new(0);
    let mut rl = RateLimiter::new(clock.clone(), 2, 10);
    assert!(rl.try_acquire());
    assert!(rl.try_acquire());
    assert!(!rl.try_acquire());
    // 10 tokens/sec => 100ms yields 1 token.
    clock.advance(100);
    assert!(rl.try_acquire());
    assert!(!rl.try_acquire());
}

#[test]
fn never_exceeds_capacity() {
    let clock = ManualClock::new(0);
    let mut rl = RateLimiter::new(clock.clone(), 5, 1000);
    clock.advance(10_000);
    assert_eq!(rl.available(), 5_000);
}

#[test]
fn acquire_n() {
    let clock = ManualClock::new(0);
    let mut rl = RateLimiter::new(clock, 10, 1);
    assert!(rl.try_acquire_n(7));
    assert!(!rl.try_acquire_n(7));
    assert!(rl.try_acquire_n(3));
}

#[test]
fn partial_refill_is_kept_in_thousandths() {
    let clock = ManualClock::new(0);
    let mut rl = RateLimiter::new(clock.clone(), 1, 1);
    assert!(rl.try_acquire());
    clock.advance(250);
    assert_eq!(rl.available(), 250);
    assert!(!rl.try_acquire());
    clock.advance(750);
    assert!(rl.try_acquire());
    assert_eq!(rl.available(), 0);
}

// ---- retry ----

#[test]
fn backoff_is_capped() {
    let p = RetryPolicy::new(10, Delay::from_millis(100), Delay::from_millis(400));
    for i in 0..10 {
        assert!(p.backoff_is_defined(i));
        assert!(p.backoff_for(i) <= Delay::from_millis(400));
    }
}

#[test]
fn backoff_with_entropy_is_equal_jitter() {
    let p = RetryPolicy::new(5, Delay::from_millis(100), Delay::from_millis(400));
    // Retry 0: capped backoff 100 ms, so between 50 and 100 ms.
    assert_eq!(p.backoff_with_entropy(0, 0), Delay::from_millis(50));
    assert_eq!(p.backoff_with_entropy(0, 7), Delay::from_nanos(50_000_007));
    assert_eq!(p.backoff_with_entropy(0, 50_000_000), Delay::from_millis(50));
    // Retry 3: 800 ms capped to 400 ms.
    assert_eq!(p.backoff_with_entropy(3, 1), Delay::from_nanos(200_000_001));
    let d = p.backoff_for(1);
    assert!(Delay::from_millis(100) <= d && d <= Delay::from_millis(200));
}

#[test]
fn next_retry_respects_attempts_and_retryability() {
    let p = RetryPolicy::new(3, Delay::from_millis(1), Delay::from_millis(2));
    assert_eq!(p.next_retry(1, true), Some(0));
    assert_eq!(p.next_retry(2, true), Some(1));
    assert_eq!(p.next_retry(3, true), None);
    assert_eq!(p.next_retry(1, false), None);
    let at_least_one = RetryPolicy::new(0, Delay::zero(), Delay::zero());
    assert_eq!(at_least_one.max_attempts, 1);
    assert_eq!(RetryPolicy::default().max_attempts, 3);
}

// ---- bulkhead and timeout ----

#[test]
fn limits_concurrency() {
    let b = Bulkhead::new(2);
    assert_eq!(b.capacity(), 2);
    let g1 = b.try_acquire().expect("slot 1");
    let _g2 = b.try_acquire().expect("slot 2");
    assert!(b.try_acquire().is_none());
    assert_eq!(b.available(), 0);
    drop(g1);
    assert_eq!(b.available(), 1);
    assert!(b.try_acquire().is_some());
}

#[test]
fn zero_capacity_bulkhead_allows_one() {
    let b = Bulkhead::new(0);
    assert_eq!(b.capacity(), 1);
    let _g = b.try_acquire().expect("one slot");
    assert!(b.try_acquire().is_none());
}

#[test]
fn timeout_error_reports_its_deadline() {
    let e = TimeoutError(Delay::from_millis(10));
    assert_eq!(e.deadline(), Delay::from_millis(10));
    assert_eq!(e.deadline().as_millis_saturating(), 10);
}

// ---- the retry loop's decisions, driven synchronously ----

/// Run `op` under `policy` as a retry loop does (without sleeping): the
/// result and the number of attempts made.
fn run_retry<T, E>(
    policy: &RetryPolicy,
    mut op: impl FnMut(u32) -> Result<T, E>,
    retryable: impl Fn(&E) -> bool,
) -> (Result<T, E>, u32) {
    let mut attempts: u32 = 0;
    loop {
        match op(attempts) {
            Ok(v) => return (Ok(v), attempts + 1),
            Err(e) => {
                attempts += 1;
                match policy.next_retry(attempts, retryable(&e)) {
                    None => return (Err(e), attempts),
                    Some(index) => {
                        assert!(policy.backoff_is_defined(index));
                        assert!(policy.backoff_for(index) <= policy.max_delay);
                    }
                }
            }
        }
    }
}

#[test]
fn succeeds_first_try() {
    let p = RetryPolicy::default();
    let (r, calls) = run_retry(&p, |_| Ok::<u32, ()>(1), |_| true);
    assert_eq!(r, Ok(1));
    assert_eq!(calls, 1);
}

#[test]
fn retries_until_success() {
    let p = RetryPolicy::new(5, Delay::from_millis(1), Delay::from_millis(4));
    let (r, calls) = run_retry(&p, |n| if n >= 2 { Ok(n) } else { Err("transient") }, |_| true);
    assert_eq!(r, Ok(2));
    assert_eq!(calls, 3);
}

#[test]
fn stops_on_non_retryable() {
    let p = RetryPolicy::default();
    let (r, calls) = run_retry(&p, |_| Err::<u32, &str>("fatal"), |_| false);
    assert_eq!(r, Err("fatal"));
    assert_eq!(calls, 1);
}

#[test]
fn exhausts_attempts() {
    let p = RetryPolicy::new(3, Delay::from_millis(1), Delay::from_millis(2));
    let (r, calls) = run_retry(&p, |_| Err::<u32, &str>("always"), |_| true);
    assert_eq!(r, Err("always"));
    assert_eq!(calls, 3);
}

#[test]
fn now_is_monotonic_enough() {
    let c = UtcClock::new();
    let a = c.now();
    let b = c.now();
    assert!(b >= a);
    assert!(a.unix_nanos() > 1_600_000_000_000_000_000);
}
