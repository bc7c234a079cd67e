//! Wall-clock source for domain timestamps, separate from the monotonic
//! resilience clock so domain time can be frozen independently of backoff
//! timing.

use vstd::prelude::*;

use crate::systime::{
    duration_subsec_nanos, duration_whole_secs, since_unix_epoch, system_time_now,
    until_unix_epoch,
};
use crate::time::Timestamp;

verus! {

/// Wall-clock source (domain timestamps).
pub trait Clock {
    /// The current wall-clock time.
    fn now(&self) -> Timestamp;
}

/// A [`Clock`] backed by the system UTC wall clock.
#[derive(Debug, Clone, Copy, Default)]
pub struct UtcClock;

impl UtcClock {
    /// Construct the clock.
    pub fn new() -> UtcClock {
        UtcClock
    }
}

impl Clock for UtcClock {
    /// The system clock's reading, as an offset from the Unix epoch; a clock
    /// set before the epoch reads as an instant before it.
    fn now(&self) -> Timestamp {
        let reading = system_time_now();
        match since_unix_epoch(&reading) {
            Some(after) => Timestamp::from_epoch_offset(
                false,
                duration_whole_secs(&after),
                duration_subsec_nanos(&after),
            ),
            None => match until_unix_epoch(&reading) {
                Some(before) => Timestamp::from_epoch_offset(
                    true,
                    duration_whole_secs(&before),
                    duration_subsec_nanos(&before),
                ),
                None => Timestamp::from_unix_secs(0),
            },
        }
    }
}

} // verus!
