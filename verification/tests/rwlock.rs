//! The reader-writer lock: readers coexist, a writer excludes everyone.

use futex_sync::futex_rwlock::RwLock;
use futex_sync::lock_api::RawRwLock as _;

#[test]
fn readers_coexist_and_exclude_writers() {
    let l: RwLock<false> = RwLock::new();
    // Several readers may hold the lock at once.
    assert!(l.try_read());
    assert!(l.try_read());
    assert!(l.try_read());
    // No write-acquire succeeds while any reader holds it.
    assert!(!l.try_write());
    l.read_unlock();
    l.read_unlock();
    // Still one reader left.
    assert!(!l.try_write());
    l.read_unlock();
    // All readers gone: the writer may proceed.
    assert!(l.try_write());
    l.write_unlock();
}

#[test]
fn writer_excludes_readers_and_writers() {
    let l: RwLock<false> = RwLock::new();
    assert!(l.write());
    assert!(!l.try_read());
    assert!(!l.try_write());
    l.write_unlock();
    assert!(l.try_read());
    l.read_unlock();
}

#[test]
fn read_and_write_alternate() {
    let l: RwLock<false> = RwLock::new();
    assert!(l.read());
    l.read_unlock();
    assert!(l.write());
    l.write_unlock();
    assert!(l.read());
    l.read_unlock();
}

#[test]
fn raw_rwlock_through_capability_trait() {
    let l: futex_sync::RawRwLock = futex_sync::RawRwLock::new();
    assert!(!l.is_locked());
    l.lock_shared();
    assert!(l.is_locked());
    assert!(!l.is_locked_exclusive());
    assert!(l.try_lock_shared());
    l.unlock_shared();
    l.unlock_shared();
    l.lock_exclusive();
    assert!(l.is_locked());
    assert!(l.is_locked_exclusive());
    assert!(!l.try_lock_shared());
    assert!(!l.try_lock_exclusive());
    l.unlock_exclusive();
    assert!(!l.is_locked());
}

#[test]
fn shared_scope_rwlock_behaves_alike() {
    let l: RwLock<true> = RwLock::new();
    assert!(l.try_read());
    assert!(!l.try_write());
    l.read_unlock();
    assert!(l.try_write());
    l.write_unlock();
}
