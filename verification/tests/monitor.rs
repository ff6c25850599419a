//! The error-rate monitors.

use mtp2::monitor::{
    Aerm, Suerm, AERM_THRESHOLD_EMERGENCY, AERM_THRESHOLD_NORMAL, SUERM_DECREMENT_INTERVAL,
    SUERM_THRESHOLD,
};

#[test]
fn aerm_trips_at_normal_threshold() {
    let mut aerm = Aerm::new(AERM_THRESHOLD_NORMAL);
    assert!(!aerm.record_error()); // 1
    assert!(!aerm.record_error()); // 2
    assert!(!aerm.record_error()); // 3
    assert!(aerm.record_error()); // 4 → trips
    assert!(aerm.is_tripped());
    assert_eq!(aerm.count(), 4);
}

#[test]
fn aerm_emergency_trips_on_first_error() {
    let mut aerm = Aerm::new(AERM_THRESHOLD_EMERGENCY);
    assert!(aerm.record_error());
}

#[test]
fn aerm_restart_clears_count_and_threshold() {
    let mut aerm = Aerm::new(AERM_THRESHOLD_NORMAL);
    aerm.record_error();
    aerm.restart(AERM_THRESHOLD_EMERGENCY);
    assert_eq!(aerm.count(), 0);
    assert_eq!(aerm.threshold(), AERM_THRESHOLD_EMERGENCY);
}

#[test]
fn suerm_trips_after_threshold_errors() {
    let mut suerm = Suerm::new(SUERM_THRESHOLD, SUERM_DECREMENT_INTERVAL);
    // 63 consecutive errored SUs: not failed (leak interval not reached).
    for _ in 0..63 {
        assert!(!suerm.record(true));
    }
    assert!(suerm.record(true)); // 64th error → failure
    assert!(suerm.is_failed());
}

#[test]
fn suerm_leaks_one_per_interval() {
    let mut suerm = Suerm::new(SUERM_THRESHOLD, 4); // small D for the test
    assert!(!suerm.record(true)); // count 1, received 1
    assert!(!suerm.record(false)); // count 1, received 2
    assert!(!suerm.record(false)); // count 1, received 3
    assert!(!suerm.record(false)); // received 4 → leak → count 0
    assert_eq!(suerm.count(), 0);
}

#[test]
fn suerm_error_rate_below_leak_never_trips() {
    let mut suerm = Suerm::new(8, 4);
    // One error then three good SUs, repeated: each error is leaked away.
    for _ in 0..1000 {
        assert!(!suerm.record(true));
        assert!(!suerm.record(false));
        assert!(!suerm.record(false));
        assert!(!suerm.record(false));
    }
    assert!(!suerm.is_failed());
}

#[test]
fn suerm_reset_clears_failure() {
    let mut suerm = Suerm::new(2, 256);
    suerm.record(true);
    suerm.record(true);
    assert!(suerm.is_failed());
    suerm.reset();
    assert!(!suerm.is_failed());
    assert_eq!(suerm.count(), 0);
}
