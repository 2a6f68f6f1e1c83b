//! The plain-value time arithmetic behind timeout accounting.

use futex_sync::time::Duration;
use futex_sync::time::Timespec;
use futex_sync::time::NANOS_PER_SEC;

#[test]
fn from_millis_splits_exactly() {
    let d = Duration::from_millis(2500);
    assert_eq!(d.secs, 2);
    assert_eq!(d.nanos, 500_000_000);
    let d = Duration::from_millis(0);
    assert_eq!(d.secs, 0);
    assert_eq!(d.nanos, 0);
    let d = Duration::from_millis(999);
    assert_eq!(d.secs, 0);
    assert_eq!(d.nanos, 999_000_000);
}

#[test]
fn checked_sub_borrows_across_the_second() {
    let a = Duration::new(2, 100_000_000);
    let b = Duration::new(1, 600_000_000);
    let r = a.checked_sub(b).unwrap();
    assert_eq!(r.secs, 0);
    assert_eq!(r.nanos, 500_000_000);
    // The longer span cannot be taken from the shorter one.
    assert!(b.checked_sub(a).is_none());
    // Equal spans leave the zero span.
    let z = a.checked_sub(a).unwrap();
    assert_eq!(z.secs, 0);
    assert_eq!(z.nanos, 0);
}

#[test]
fn deadline_addition_carries_and_overflows() {
    let now = Timespec { tv_sec: 1, tv_nsec: 900_000_000 };
    let d = Duration::new(0, 200_000_000);
    let deadline = now.checked_add_duration(d).unwrap();
    assert_eq!(deadline.tv_sec, 2);
    assert_eq!(deadline.tv_nsec, 100_000_000);
    // A deadline past the representable range is reported, so timed
    // waits can round it up to an infinite timeout.
    let late = Timespec { tv_sec: i64::MAX, tv_nsec: 0 };
    assert!(late.checked_add_duration(Duration::new(1, 0)).is_none());
}

#[test]
fn elapsed_time_saturates_at_zero() {
    let start = Timespec { tv_sec: 5, tv_nsec: 800_000_000 };
    let now = Timespec { tv_sec: 7, tv_nsec: 200_000_000 };
    let e = now.saturating_sub(start);
    assert_eq!(e.secs, 1);
    assert_eq!(e.nanos, 400_000_000);
    // A clock that appears to run backwards yields the zero span.
    let z = start.saturating_sub(now);
    assert_eq!(z.secs, 0);
    assert_eq!(z.nanos, 0);
}

#[test]
fn nanos_stay_normalized() {
    let d = Duration::new(3, NANOS_PER_SEC - 1);
    assert_eq!(d.secs, 3);
    assert_eq!(d.nanos, NANOS_PER_SEC - 1);
}
