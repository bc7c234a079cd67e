//! The error of a single attempt that outlived its deadline.

use vstd::prelude::*;

use crate::time::Delay;

verus! {

/// Returned when an operation does not complete within its deadline.
#[derive(Debug, Clone, Copy, PartialEq, Eq, Structural)]
pub struct TimeoutError(pub Delay);

impl TimeoutError {
    /// The deadline that elapsed.
    pub fn deadline(&self) -> (d: Delay)
        ensures
            d == self.0,
    {
        self.0
    }
}

} // verus!
