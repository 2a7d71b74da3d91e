//! The arithmetic of a wait group's count, as a model over `nat` and as the
//! executable steps that the handles take while they hold the count's lock.

use vstd::prelude::*;

verus! {

/// One action that a live handle takes on the shared count.
#[derive(PartialEq, Eq, Structural, Clone, Copy, Debug)]
pub enum Step {
    /// The handle is cloned: one more live handle.
    Duplicate,
    /// The handle is dropped, or consumed by `wait`: one fewer live handle.
    Release,
}

/// The count after one step taken on count `c`.
pub open spec fn step_count(c: nat, s: Step) -> nat {
    match s {
        Step::Duplicate => c + 1,
        Step::Release => if c == 0 { 0 } else { (c - 1) as nat },
    }
}

/// The count after the steps, in order, starting from `c`.
pub open spec fn count_after(c: nat, steps: Seq<Step>) -> nat
    decreases steps.len(),
{
    if steps.len() == 0 {
        c
    } else {
        step_count(count_after(c, steps.drop_last()), steps.last())
    }
}

/// The count after the first `i` of the steps.
pub open spec fn count_at(c: nat, steps: Seq<Step>, i: int) -> nat {
    count_after(c, steps.take(i))
}

/// Every step is taken by a live handle: before each of them the count is
/// positive.
pub open spec fn taken_by_live_handles(c: nat, steps: Seq<Step>) -> bool {
    forall|i: int| 0 <= i < steps.len() ==> #[trigger] count_at(c, steps, i) > 0
}

/// Whether a step taken on count `c` wakes the blocked waiters: only the
/// release that takes the count from one to zero does.
pub open spec fn wakes(c: nat, s: Step) -> bool {
    s == Step::Release && c == 1
}

/// The count after a duplicate of one of the handles. A count cannot reach
/// `usize::MAX` while every handle holds a share of the same allocation; the
/// count stays there rather than wrapping round.
pub fn count_after_duplicate(count: usize) -> (r: usize)
    ensures
        count < usize::MAX ==> r == step_count(count as nat, Step::Duplicate),
        count == usize::MAX ==> r == count,
{
    if count < usize::MAX {
        count + 1
    } else {
        count
    }
}

/// The count after a release of one handle, and whether the release must
/// wake every blocked waiter. A count of zero stays zero and wakes nobody.
pub fn count_after_release(count: usize) -> (r: (usize, bool))
    ensures
        r.0 == step_count(count as nat, Step::Release),
        r.1 == wakes(count as nat, Step::Release),
        r.1 <==> (count > 0 && r.0 == 0),
    opens_invariants none
    no_unwind
{
    if count == 0 {
        (0, false)
    } else {
        let next = count - 1;
        (next, next == 0)
    }
}

/// Whether a waiter that sees `count` under the lock must go on blocking.
pub fn must_block(count: usize) -> (r: bool)
    ensures
        r == (count > 0),
{
    count > 0
}

/// Starting from a single handle, `n` duplicates leave a count of `n + 1`.
pub proof fn lemma_duplicates_count(n: nat)
    ensures
        count_after(1, Seq::new(n, |i: int| Step::Duplicate)) == n + 1,
    decreases n,
{
    let steps = Seq::new(n, |i: int| Step::Duplicate);
    if n > 0 {
        lemma_duplicates_count((n - 1) as nat);
        assert(steps.drop_last() =~= Seq::new((n - 1) as nat, |i: int| Step::Duplicate));
    }
}

proof fn lemma_take_all(steps: Seq<Step>)
    ensures
        steps.take(steps.len() as int) == steps,
{
    assert(steps.take(steps.len() as int) =~= steps);
}

proof fn lemma_count_at_next(c: nat, steps: Seq<Step>, i: int)
    requires
        0 <= i < steps.len(),
    ensures
        count_at(c, steps, i + 1) == step_count(count_at(c, steps, i), steps[i]),
{
    assert(steps.take(i + 1).drop_last() =~= steps.take(i));
}

/// When every step is taken by a live handle, a count of zero is final:
/// once the count is zero no later point of the run sees it otherwise. The
/// count only reaches zero after the last step.
pub proof fn lemma_zero_is_final(c: nat, steps: Seq<Step>, i: int, j: int)
    requires
        taken_by_live_handles(c, steps),
        0 <= i <= j <= steps.len(),
        count_at(c, steps, i) == 0,
    ensures
        i == steps.len(),
        count_at(c, steps, j) == 0,
{
    if i < steps.len() {
        assert(count_at(c, steps, i) > 0);
    }
}

/// When every step is taken by a live handle, exactly the release that
/// brings the count to zero wakes the waiters: a step wakes them if and only
/// if it is the last one and the run ends at zero.
pub proof fn lemma_single_wake(c: nat, steps: Seq<Step>, k: int)
    requires
        taken_by_live_handles(c, steps),
        0 <= k < steps.len(),
    ensures
        wakes(count_at(c, steps, k), steps[k]) <==> (k == steps.len() - 1 && count_after(
            c,
            steps,
        ) == 0),
{
    lemma_count_at_next(c, steps, k);
    lemma_take_all(steps);
    let before = count_at(c, steps, k);
    let after = count_at(c, steps, k + 1);
    assert(before > 0);
    if k + 1 < steps.len() {
        assert(after > 0);
    }
    if after == 0 {
        assert(steps[k] == Step::Release && before == 1);
    }
}

} // verus!
