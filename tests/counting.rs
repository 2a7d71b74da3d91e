use sync_wait_group::{count_after_duplicate, count_after_release, must_block, WaitGroup};

#[test]
fn new_group_counts_one() {
    let wg = WaitGroup::new();
    assert_eq!(wg.count(), 1);
}

#[test]
fn default_group_counts_one() {
    let wg = WaitGroup::default();
    assert_eq!(wg.count(), 1);
}

#[test]
fn duplicates_add_one_each() {
    let wg = WaitGroup::new();
    let mut handles = Vec::new();
    for n in 0..10usize {
        assert_eq!(wg.count(), n + 1);
        handles.push(wg.clone());
    }
    assert_eq!(wg.count(), 11);
    for h in handles.iter() {
        assert_eq!(h.count(), 11);
    }
}

#[test]
fn release_removes_exactly_one() {
    let wg = WaitGroup::new();
    let a = wg.clone();
    let b = a.clone();
    assert_eq!(wg.count(), 3);
    drop(a);
    assert_eq!(wg.count(), 2);
    drop(b);
    assert_eq!(wg.count(), 1);
}

#[test]
fn wait_on_sole_handle_returns_at_once() {
    let wg = WaitGroup::new();
    wg.wait();
}

#[test]
fn wait_after_all_others_released_returns() {
    let wg = WaitGroup::new();
    let others: Vec<WaitGroup> = (0..10).map(|_| wg.clone()).collect();
    assert_eq!(wg.count(), 11);
    drop(others);
    assert_eq!(wg.count(), 1);
    wg.wait();
}

#[test]
fn handles_share_one_count() {
    let wg = WaitGroup::new();
    let other = wg.clone();
    let third = other.clone();
    assert_eq!(third.count(), 3);
    drop(wg);
    assert_eq!(other.count(), 2);
    assert_eq!(third.count(), 2);
    drop(other);
    third.wait();
}

#[test]
fn duplicate_step_adds_one() {
    assert_eq!(count_after_duplicate(0), 1);
    assert_eq!(count_after_duplicate(1), 2);
    assert_eq!(count_after_duplicate(41), 42);
}

#[test]
fn duplicate_step_stays_at_largest_count() {
    assert_eq!(count_after_duplicate(usize::MAX - 1), usize::MAX);
    assert_eq!(count_after_duplicate(usize::MAX), usize::MAX);
}

#[test]
fn release_step_wakes_only_on_last() {
    assert_eq!(count_after_release(1), (0, true));
    assert_eq!(count_after_release(2), (1, false));
    assert_eq!(count_after_release(11), (10, false));
    assert_eq!(count_after_release(usize::MAX), (usize::MAX - 1, false));
}

#[test]
fn release_step_never_goes_below_zero() {
    assert_eq!(count_after_release(0), (0, false));
}

#[test]
fn release_run_wakes_once() {
    let mut count = 5usize;
    let mut wakes = 0usize;
    while count > 0 {
        let (next, wake) = count_after_release(count);
        assert_eq!(next, count - 1);
        if wake {
            wakes += 1;
            assert_eq!(next, 0);
        }
        count = next;
    }
    assert_eq!(wakes, 1);
}

#[test]
fn waiters_block_while_count_is_positive() {
    assert!(!must_block(0));
    assert!(must_block(1));
    assert!(must_block(usize::MAX));
}
