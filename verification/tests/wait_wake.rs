//! The raw wait/wake substrate: the single atomic observe-and-block
//! check, timeouts, and wakes with no waiter.

use core::sync::atomic::AtomicU32;
use futex_sync::time::Duration;
use futex_sync::time::Timespec;
use futex_sync::wait_wake::futex_wait;
use futex_sync::wait_wake::futex_wait_timespec;
use futex_sync::wait_wake::futex_wake;
use futex_sync::wait_wake::futex_wake_all;

#[test]
fn wait_returns_directly_when_value_differs() {
    // The kernel's check collapses the observe/block race: the word no
    // longer holds the expected value, so the wait does not block at all,
    // even with no timeout.
    let word = AtomicU32::new(5);
    assert!(futex_wait::<false>(&word, 4, None));
}

#[test]
fn wait_times_out_when_nothing_changes() {
    let word = AtomicU32::new(5);
    let start = std::time::Instant::now();
    let woken = futex_wait::<false>(&word, 5, Some(Duration::from_millis(10)));
    assert!(!woken);
    assert!(start.elapsed() >= std::time::Duration::from_millis(10));
}

#[test]
fn wait_timespec_past_deadline_times_out() {
    // An absolute deadline already in the past: an immediate timeout.
    let word = AtomicU32::new(5);
    let deadline = Timespec { tv_sec: 0, tv_nsec: 1 };
    assert!(!futex_wait_timespec::<false>(&word, 5, Some(deadline)));
}

#[test]
fn wake_with_no_waiter_wakes_nobody() {
    let word = AtomicU32::new(0);
    assert!(!futex_wake::<false>(&word));
    futex_wake_all::<false>(&word);
}

#[test]
fn shared_scope_wait_behaves_alike() {
    let word = AtomicU32::new(1);
    assert!(futex_wait::<true>(&word, 2, None));
    assert!(!futex_wait::<true>(&word, 1, Some(Duration::from_millis(5))));
    assert!(!futex_wake::<true>(&word));
}
