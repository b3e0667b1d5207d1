use bouncer::stats::{wait_or_default, DEFAULT_WAIT_MILLIS};
use bouncer::{BouncerStats, WaitTime};

fn stats(allowed: bool, old: u64, current: u64, since: u64, wait: WaitTime) -> BouncerStats {
    BouncerStats { allowed, old, current, since, wait }
}

#[test]
fn allowed_flag_admits_whatever_the_counters() {
    assert!(stats(true, 0, 0, 0, WaitTime::zero()).is_allowed());
    assert!(stats(true, 7, 3, 2, WaitTime::from_millis(50)).is_allowed());
    assert!(stats(true, u64::MAX, u64::MAX, u64::MAX, WaitTime { secs: u64::MAX, nanos: 999_999_999 }).is_allowed());
}

#[test]
fn all_zero_without_flag_admits() {
    assert!(stats(false, 0, 0, 0, WaitTime::zero()).is_allowed());
    assert!(BouncerStats::zero().is_allowed());
    assert!(BouncerStats::default().is_allowed());
}

#[test]
fn pending_counter_or_wait_refuses() {
    assert!(!stats(false, 1, 0, 0, WaitTime::zero()).is_allowed());
    assert!(!stats(false, 0, 1, 0, WaitTime::zero()).is_allowed());
    assert!(!stats(false, 0, 0, 1, WaitTime::zero()).is_allowed());
    assert!(!stats(false, 0, 0, 0, WaitTime { secs: 0, nanos: 1 }).is_allowed());
    assert!(!stats(false, 0, 0, 0, WaitTime::from_millis(50)).is_allowed());
}

#[test]
fn default_is_the_zero_verdict() {
    let d = BouncerStats::default();
    assert_eq!(d, stats(false, 0, 0, 0, WaitTime { secs: 0, nanos: 0 }));
}

#[test]
fn millis_split_into_seconds_and_nanos() {
    assert_eq!(WaitTime::from_millis(50), WaitTime { secs: 0, nanos: 50_000_000 });
    assert_eq!(WaitTime::from_millis(2_500), WaitTime { secs: 2, nanos: 500_000_000 });
    assert_eq!(WaitTime::from_millis(0), WaitTime::zero());
    assert!(WaitTime::from_millis(0).is_zero());
    assert!(!WaitTime::from_millis(1).is_zero());
}

#[test]
fn missing_wait_defaults_to_a_short_wait() {
    assert_eq!(DEFAULT_WAIT_MILLIS, 100);
    assert_eq!(wait_or_default(None), WaitTime { secs: 0, nanos: 100_000_000 });
    assert_eq!(wait_or_default(Some(WaitTime::zero())), WaitTime::zero());
    assert_eq!(wait_or_default(Some(WaitTime::from_millis(50))), WaitTime::from_millis(50));
}
