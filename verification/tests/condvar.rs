//! The condition variable: notification smoke, predicate waits, and the
//! timeout path with the mutex held again on return.

use futex_sync::lock_api::RawMutex as _;
use futex_sync::time::Duration;
use futex_sync::Condvar;
use futex_sync::RawMutex;

#[test]
fn sync_condvar_smoke() {
    let c = Condvar::new();
    c.notify_one();
    c.notify_all();
}

#[test]
fn default_condvar_is_usable() {
    let c: Condvar = Default::default();
    c.notify_all();
}

#[test]
fn wait_timeout_times_out_with_mutex_reacquired() {
    let m = RawMutex::new();
    let c = Condvar::new();
    m.lock();
    let start = std::time::Instant::now();
    let result = c.wait_timeout(&m, Duration::from_millis(10));
    let elapsed = start.elapsed();
    // No notifier: the wait reports a timeout, after roughly the budget.
    assert!(result.timed_out());
    assert!(elapsed >= std::time::Duration::from_millis(10));
    // The mutex is held again on return.
    assert!(!m.try_lock());
    m.unlock();
}

#[test]
fn wait_timeout_ms_reports_elapsed_timeout() {
    let m = RawMutex::new();
    let c = Condvar::new();
    m.lock();
    // The deprecated-style variant returns false only on a known timeout.
    assert!(!c.wait_timeout_ms(&m, 10));
    assert!(!m.try_lock());
    m.unlock();
}

#[test]
fn wait_while_returns_once_condition_clears() {
    let m = RawMutex::new();
    let c = Condvar::new();
    m.lock();
    // The condition is already false: no sleeping at all.
    assert!(c.wait_while(&m, || false));
    assert!(!m.try_lock());
    m.unlock();
}

#[test]
fn wait_timeout_while_times_out_while_condition_holds() {
    let m = RawMutex::new();
    let c = Condvar::new();
    m.lock();
    let result = c.wait_timeout_while(&m, Duration::from_millis(10), || true);
    assert!(result.timed_out());
    assert!(!m.try_lock());
    m.unlock();
}

#[test]
fn wait_timeout_while_instantly_satisfied() {
    let m = RawMutex::new();
    let c = Condvar::new();
    m.lock();
    // The condition is false from the start: no timeout even with a zero
    // budget.
    let result = c.wait_timeout_while(&m, Duration::from_millis(0), || false);
    assert!(!result.timed_out());
    assert!(!m.try_lock());
    m.unlock();
}

#[test]
fn notification_before_snapshot_is_not_consumed() {
    // A notification with nobody waiting is not buffered: a later timed
    // wait still runs its full budget.
    let m = RawMutex::new();
    let c = Condvar::new();
    c.notify_one();
    m.lock();
    let result = c.wait_timeout(&m, Duration::from_millis(10));
    assert!(result.timed_out());
    m.unlock();
}
