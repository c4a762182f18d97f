use bern_test::store::{RunState, SENTINEL_MAGIC};

fn cold_garbage() -> RunState {
    RunState { sentinel: 0xDEAD_BEEF, next_index: 42, success_count: 17 }
}

#[test]
fn activate_sets_sentinel_and_resets_successes() {
    let mut s = cold_garbage();
    s.activate();
    assert_eq!(s.sentinel, SENTINEL_MAGIC);
    assert!(s.is_active());
    assert_eq!(s.get_success_count(), 0);
    // activate leaves the next-test index alone
    assert_eq!(s.get_next_test(), 42);
}

#[test]
fn deactivate_clears_sentinel_only() {
    let mut s = cold_garbage();
    s.activate();
    s.set_next_test(3);
    s.test_succeeded();
    s.deactivate();
    assert!(!s.is_active());
    assert_eq!(s.get_next_test(), 3);
    assert_eq!(s.get_success_count(), 1);
}

#[test]
fn garbage_sentinel_reads_as_no_active_run() {
    let s = cold_garbage();
    assert!(!s.is_active());
    let zeroed = RunState { sentinel: 0, next_index: 0, success_count: 0 };
    assert!(!zeroed.is_active());
}

#[test]
fn counters_round_trip() {
    let mut s = cold_garbage();
    s.activate();
    s.set_next_test(7);
    assert_eq!(s.get_next_test(), 7);
    s.test_succeeded();
    s.test_succeeded();
    assert_eq!(s.get_success_count(), 2);
    assert!(s.is_active());
}
