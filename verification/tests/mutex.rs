//! The mutual-exclusion lock, exercised through the futex-level type
//! (which surfaces the acquire indicator) and through the capability
//! trait.

use futex_sync::futex_mutex::Mutex;
use futex_sync::lock_api::RawMutex as _;

#[test]
fn fresh_mutex_is_immediately_lockable() {
    // A new mutex's word is zero, the unlocked state: the very first
    // try-acquire succeeds with no prior construction ceremony.
    let m: Mutex<false> = Mutex::new();
    assert!(m.try_lock());
    m.unlock();
}

#[test]
fn try_lock_excludes_and_unlock_releases() {
    let m: Mutex<false> = Mutex::new();
    assert!(m.try_lock());
    // Held: a second try-acquire must fail.
    assert!(!m.try_lock());
    m.unlock();
    // Released: acquirable again.
    assert!(m.try_lock());
    m.unlock();
}

#[test]
fn lock_uncontended_acquires() {
    let m: Mutex<false> = Mutex::new();
    assert!(m.lock());
    assert!(!m.try_lock());
    m.unlock();
    assert!(m.lock());
    m.unlock();
}

#[test]
fn raw_mutex_through_capability_trait() {
    let m: futex_sync::RawMutex = futex_sync::RawMutex::new();
    assert!(!m.is_locked());
    m.lock();
    assert!(m.is_locked());
    assert!(!m.try_lock());
    m.unlock();
    assert!(!m.is_locked());
    assert!(m.try_lock());
    m.unlock();
}

#[test]
fn shared_scope_mutex_behaves_alike() {
    let m: Mutex<true> = Mutex::new();
    assert!(m.try_lock());
    assert!(!m.try_lock());
    m.unlock();
    assert!(m.try_lock());
    m.unlock();
}
