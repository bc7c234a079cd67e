//! Bulkhead: cap the number of concurrent in-flight operations.

use std::sync::Arc;

use tokio::sync::{OwnedSemaphorePermit, Semaphore};
use vstd::prelude::*;

verus! {

#[verifier::external_type_specification]
#[verifier::external_body]
pub struct ExSemaphore(Semaphore);

#[verifier::external_type_specification]
#[verifier::external_body]
pub struct ExOwnedSemaphorePermit(OwnedSemaphorePermit);

/// The most permits a semaphore can hold (`Semaphore::MAX_PERMITS`,
/// `usize::MAX >> 3`).
pub const MAX_BULKHEAD_CAPACITY: usize = usize::MAX / 8;

/// `Semaphore::new`, which panics above [`MAX_BULKHEAD_CAPACITY`] permits.
#[verifier::external_body]
fn semaphore_new(permits: usize) -> Semaphore
    requires
        permits <= MAX_BULKHEAD_CAPACITY,
{
    Semaphore::new(permits)
}

/// `Semaphore::try_acquire_owned`: a permit if one is free right now. Other
/// holders of the shared semaphore may take or release permits at any time,
/// so nothing is promised about which outcome occurs.
#[verifier::external_body]
fn semaphore_try_take(sem: &Arc<Semaphore>) -> Option<OwnedSemaphorePermit> {
    sem.clone().try_acquire_owned().ok()
}

/// `Semaphore::available_permits`: a reading of shared, concurrently changing
/// state, so nothing is promised about it.
#[verifier::external_body]
fn semaphore_available(sem: &Semaphore) -> usize {
    sem.available_permits()
}

/// A concurrency limiter backed by a semaphore. Holding a [`BulkheadGuard`]
/// occupies one slot; dropping it frees the slot. Clones share the slots.
#[derive(Debug, Clone)]
pub struct Bulkhead {
    sem: Arc<Semaphore>,
    capacity: usize,
}

/// One occupied bulkhead slot, released when dropped.
#[derive(Debug)]
pub struct BulkheadGuard {
    permit: OwnedSemaphorePermit,
}

impl Bulkhead {
    /// The configured number of slots.
    pub closed spec fn spec_capacity(&self) -> usize {
        self.capacity
    }

    /// The semaphore whose permits are this bulkhead's slots.
    pub closed spec fn spec_semaphore(&self) -> Arc<Semaphore> {
        self.sem
    }

    /// Create a bulkhead allowing `capacity` (at least one) concurrent
    /// operations.
    pub fn new(capacity: usize) -> (b: Bulkhead)
        requires
            capacity <= MAX_BULKHEAD_CAPACITY,
        ensures
            b.spec_capacity() == if capacity >= 1 {
                capacity
            } else {
                1
            },
    {
        let capacity: usize = if capacity >= 1 {
            capacity
        } else {
            1
        };
        Bulkhead { sem: Arc::new(semaphore_new(capacity)), capacity }
    }

    /// Try to claim a slot without waiting; `None` if all are taken.
    pub fn try_acquire(&self) -> Option<BulkheadGuard> {
        match semaphore_try_take(&self.sem) {
            Some(permit) => Some(BulkheadGuard { permit }),
            None => None,
        }
    }

    /// Slots currently free.
    pub fn available(&self) -> usize {
        semaphore_available(&self.sem)
    }

    /// Total configured capacity.
    pub fn capacity(&self) -> (c: usize)
        ensures
            c == self.spec_capacity(),
    {
        self.capacity
    }

    /// The shared semaphore, for callers that wait for a slot.
    pub fn semaphore(&self) -> (s: &Arc<Semaphore>)
        ensures
            *s == self.spec_semaphore(),
    {
        &self.sem
    }
}

impl BulkheadGuard {
    /// The permit this guard holds; dropping the guard returns it.
    pub closed spec fn spec_permit(&self) -> OwnedSemaphorePermit {
        self.permit
    }

    /// Wrap a permit taken from a bulkhead's semaphore.
    pub fn from_permit(permit: OwnedSemaphorePermit) -> (g: BulkheadGuard)
        ensures
            g.spec_permit() == permit,
    {
        BulkheadGuard { permit }
    }
}

} // verus!
