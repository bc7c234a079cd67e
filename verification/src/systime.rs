//! Readings of the system's real-time clock (`std::time::SystemTime`), as
//! offsets from the Unix epoch.

use std::time::{Duration, SystemTime};

use vstd::prelude::*;

verus! {

#[verifier::external_type_specification]
#[verifier::external_body]
pub struct ExSystemTime(SystemTime);

/// `SystemTime::now`: what it returns depends on the moment of the call.
#[verifier::external_body]
pub(crate) fn system_time_now() -> SystemTime {
    SystemTime::now()
}

/// `t.duration_since(UNIX_EPOCH)`: how far `t` lies after the epoch, `None`
/// when it lies before it.
#[verifier::external_body]
pub(crate) fn since_unix_epoch(t: &SystemTime) -> Option<Duration> {
    t.duration_since(std::time::UNIX_EPOCH).ok()
}

/// `UNIX_EPOCH.duration_since(t)`: how far `t` lies before the epoch, `None`
/// when it lies after it.
#[verifier::external_body]
pub(crate) fn until_unix_epoch(t: &SystemTime) -> Option<Duration> {
    std::time::UNIX_EPOCH.duration_since(*t).ok()
}

/// `Duration::as_secs`: the whole seconds of the span.
#[verifier::external_body]
pub(crate) fn duration_whole_secs(d: &Duration) -> u64 {
    d.as_secs()
}

/// `Duration::subsec_nanos`, which is always below one billion.
#[verifier::external_body]
pub(crate) fn duration_subsec_nanos(d: &Duration) -> (n: u32)
    ensures
        n < 1_000_000_000,
{
    d.subsec_nanos()
}

} // verus!
