//! The handle that threads share: cloning it joins the group, dropping it
//! leaves the group, and `wait` leaves and blocks until the group is empty.

use vstd::prelude::*;
use std::sync::Arc;
use crate::lock::{
    join, leave, lock_at_zero, lock_count, new_count, new_signal, read_count, wake_all, Inner,
};

verus! {

/// Enables threads to synchronize the beginning or end of some computation.
pub struct WaitGroup {
    inner: Arc<Inner>,
}

/// Relies on `Arc::clone`: another pointer to the same allocation.
#[verifier::external_body]
fn share(a: &Arc<Inner>) -> (r: Arc<Inner>)
    ensures
        r == *a,
{
    Arc::clone(a)
}

impl WaitGroup {
    /// Whether two handles belong to one group: they share its count.
    pub closed spec fn same_group(&self, other: &WaitGroup) -> bool {
        self.inner == other.inner
    }

    /// Creates a new wait group and returns the single reference to it.
    pub fn new() -> Self {
        WaitGroup { inner: Arc::new(Inner { cvar: new_signal(), count: new_count(1) }) }
    }

    /// Drops this reference and waits until all other references are dropped.
    pub fn wait(self) {
        let sole = {
            let g = lock_count(&self.inner.count);
            read_count(&g) == 1
        };
        if sole {
            // No other handle is left: dropping this one on return empties the group.
            return;
        }
        let inner = share(&self.inner);
        {
            // Dropping this handle counts it out, and may wake the waiters.
            let _released = self;
        }
        let _held = lock_at_zero(&inner);
    }

    /// The count of live handles, as it stood when the lock was taken. Other
    /// threads may change it at any moment after.
    pub fn count(&self) -> usize {
        let g = lock_count(&self.inner.count);
        read_count(&g)
    }
}

impl Drop for WaitGroup {
    fn drop(&mut self)
        opens_invariants none
        no_unwind
    {
        let mut g = lock_count(&self.inner.count);
        if leave(&mut g) {
            wake_all(&self.inner.cvar);
        }
    }
}

impl Clone for WaitGroup {
    fn clone(&self) -> (r: Self)
        ensures
            r.same_group(self),
    {
        let mut g = lock_count(&self.inner.count);
        join(&mut g);
        WaitGroup { inner: share(&self.inner) }
    }
}

impl Default for WaitGroup {
    fn default() -> Self {
        WaitGroup::new()
    }
}

} // verus!
