//! One-time initialization: the initializer runs exactly once, completion
//! is observable, and a reported failure lets a later caller retry.

use core::cell::Cell;
use futex_sync::CallOutcome;
use futex_sync::Once;
use futex_sync::OnceState;

#[test]
fn call_once_runs_exactly_once() {
    let once = Once::new();
    let runs: Cell<u32> = Cell::new(0);
    assert!(!once.is_completed());
    let r = once.call_once(|| {
        runs.set(runs.get() + 1);
    });
    assert_eq!(r, CallOutcome::Finished);
    assert!(once.is_completed());
    assert_eq!(runs.get(), 1);
    // A second call observes completion and does not run its closure.
    let r2 = once.call_once(|| {
        runs.set(runs.get() + 100);
    });
    assert_eq!(r2, CallOutcome::Finished);
    assert_eq!(runs.get(), 1);
    assert!(once.is_completed());
}

#[test]
fn is_completed_false_during_initializer() {
    let once = Once::new();
    let seen_inside: Cell<bool> = Cell::new(true);
    once.call_once(|| {
        seen_inside.set(once.is_completed());
    });
    // During the winning call, completion is not yet observable.
    assert!(!seen_inside.get());
    assert!(once.is_completed());
}

#[test]
fn failed_initializer_releases_and_allows_retry() {
    let once = Once::new();
    // The forced initializer reports failure: the word returns to the
    // incomplete state rather than completing.
    let r = once.call_once_force(|s: OnceState| {
        let mut s = s;
        s.set_incomplete();
        s
    });
    assert_eq!(r, CallOutcome::Finished);
    assert!(!once.is_completed());
    // A subsequent call runs a fresh initializer.
    let runs: Cell<u32> = Cell::new(0);
    let r2 = once.call_once(|| {
        runs.set(runs.get() + 1);
    });
    assert_eq!(r2, CallOutcome::Finished);
    assert_eq!(runs.get(), 1);
    assert!(once.is_completed());
}

#[test]
fn call_once_force_completes_by_default() {
    let once = Once::new();
    let r = once.call_once_force(|s: OnceState| s);
    assert_eq!(r, CallOutcome::Finished);
    assert!(once.is_completed());
    // Once completed, the forced variant does not run its closure either.
    let runs: Cell<u32> = Cell::new(0);
    once.call_once_force(|s: OnceState| {
        runs.set(runs.get() + 1);
        s
    });
    assert_eq!(runs.get(), 0);
}

#[test]
fn shared_scope_once_behaves_alike() {
    let once = futex_sync::shm::Once::new();
    assert!(!once.is_completed());
    let r = once.call_once(|| {});
    assert_eq!(r, CallOutcome::Finished);
    assert!(once.is_completed());
}
