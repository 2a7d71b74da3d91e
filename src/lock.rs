//! The parking_lot types that hold a wait group's count, and the calls the
//! library makes on them.

use vstd::prelude::*;
use parking_lot::{Condvar, Mutex, MutexGuard};
use crate::counter::{count_after_duplicate, count_after_release, must_block, step_count, wakes, Step};

verus! {

#[verifier::external_type_specification]
#[verifier::external_body]
#[verifier::reject_recursive_types(R)]
#[verifier::reject_recursive_types(T)]
pub struct ExMutex<R, T: ?Sized>(parking_lot::lock_api::Mutex<R, T>);

#[verifier::external_type_specification]
#[verifier::external_body]
pub struct ExRawMutex(parking_lot::RawMutex);

#[verifier::external_type_specification]
#[verifier::external_body]
pub struct ExCondvar(parking_lot::Condvar);

/// The lock on a count, held for as long as this value lives. Verus cannot
/// take lock_api's `MutexGuard` as a declared type (its `RawMutex` bound is an
/// outside trait), so the guard stays in a field that Verus does not read.
#[verifier::external_body]
pub struct CountGuard<'a> {
    guard: MutexGuard<'a, usize>,
}

/// The count that a held lock gives access to.
pub uninterp spec fn held_count(g: CountGuard<'_>) -> usize;

/// The state that every handle of one group shares: its count, and the
/// condition variable on which its waiters block, used with that count's
/// mutex alone.
pub(crate) struct Inner {
    pub(crate) cvar: Condvar,
    pub(crate) count: Mutex<usize>,
}

/// Relies on lock_api's `Mutex::new`: an unlocked mutex that holds `v`.
#[verifier::external_body]
pub(crate) fn new_count(v: usize) -> Mutex<usize> {
    Mutex::new(v)
}

/// Relies on lock_api's `Mutex::lock`: blocks until this thread holds the
/// lock. parking_lot's mutex has no poisoning, and `lock` does not panic.
#[verifier::external_body]
pub(crate) fn lock_count(m: &Mutex<usize>) -> CountGuard<'_>
    opens_invariants none
    no_unwind
{
    CountGuard { guard: m.lock() }
}

/// Relies on `Deref` of lock_api's `MutexGuard`: reads the held value.
#[verifier::external_body]
pub(crate) fn read_count(g: &CountGuard<'_>) -> (r: usize)
    ensures
        r == held_count(*g),
    opens_invariants none
    no_unwind
{
    *g.guard
}

/// Relies on `DerefMut` of lock_api's `MutexGuard`: stores into the held value.
#[verifier::external_body]
pub(crate) fn write_count(g: &mut CountGuard<'_>, v: usize)
    ensures
        held_count(*final(g)) == v,
    opens_invariants none
    no_unwind
{
    *g.guard = v;
}

/// Relies on parking_lot's `Condvar::new`: a condition variable with no waiter.
#[verifier::external_body]
pub(crate) fn new_signal() -> Condvar {
    Condvar::new()
}

/// Relies on parking_lot's `Condvar::notify_all`: wakes every thread blocked
/// on `c`. The number of threads woken is not used.
#[verifier::external_body]
pub(crate) fn wake_all(c: &Condvar)
    opens_invariants none
    no_unwind
{
    c.notify_all();
}

/// Relies on lock_api's `Mutex::lock` and parking_lot's `Condvar::wait_while`:
/// locks the group's count, then, while `must_block` holds of it, releases
/// the lock, blocks on the group's condition variable and takes the lock
/// again. It returns holding the lock, once `must_block` is false of the
/// count. The condition variable is only ever waited on with this one mutex,
/// so `wait_while` does not panic.
#[verifier::external_body]
pub(crate) fn lock_at_zero(inner: &Inner) -> (g: CountGuard<'_>)
    ensures
        held_count(g) == 0,
{
    let mut guard = inner.count.lock();
    inner.cvar.wait_while(&mut guard, |n: &mut usize| must_block(*n));
    CountGuard { guard }
}

/// Counts one more handle on the held count. The count stays at
/// `usize::MAX` rather than wrap round.
pub fn join(g: &mut CountGuard<'_>)
    ensures
        held_count(*old(g)) < usize::MAX ==> held_count(*final(g)) == step_count(
            held_count(*old(g)) as nat,
            Step::Duplicate,
        ),
        held_count(*old(g)) == usize::MAX ==> held_count(*final(g)) == usize::MAX,
{
    let c = read_count(g);
    write_count(g, count_after_duplicate(c));
}

/// Counts one handle fewer on the held count, and says whether the waiters
/// must be woken: only when this takes the count from one to zero.
pub fn leave(g: &mut CountGuard<'_>) -> (wake: bool)
    ensures
        held_count(*final(g)) == step_count(held_count(*old(g)) as nat, Step::Release),
        wake == wakes(held_count(*old(g)) as nat, Step::Release),
        wake <==> (held_count(*old(g)) == 1),
    opens_invariants none
    no_unwind
{
    let c = read_count(g);
    let (next, wake) = count_after_release(c);
    write_count(g, next);
    wake
}

} // verus!
