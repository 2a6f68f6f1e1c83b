//! Capability interfaces for the raw locks, mirroring the shape of the
//! common locking-abstraction traits so that the primitives can be used
//! without such a library. A typed guard layer built on these traits is an
//! external collaborator and contributes no concurrency behavior of its
//! own.
//!
//! Differences from the usual shape: there is no `INIT` associated
//! constant (implementors offer a `new` constructor instead), and the
//! unlock methods are ordinary safe functions whose misuse — releasing a
//! lock the caller does not hold — is a protocol violation rather than a
//! memory-safety hazard at this level.

use vstd::prelude::*;

verus! {

/// Marker type for guards that must stay on the thread that acquired the
/// lock.
pub struct GuardNoSend(());

/// The capability interface of a raw mutual-exclusion lock.
pub trait RawMutex {
    /// Marker type for the guards a wrapper layer would hand out.
    type GuardMarker;

    /// Acquires the lock, blocking the calling thread until it is able to
    /// do so.
    fn lock(&self);

    /// Attempts to acquire the lock without blocking; `true` on success.
    fn try_lock(&self) -> bool;

    /// Releases the lock. The caller must hold it.
    fn unlock(&self);

    /// Whether the lock is currently held by anyone, as a snapshot probed
    /// by a try-acquire.
    fn is_locked(&self) -> bool {
        let acquired_lock = self.try_lock();
        if acquired_lock {
            self.unlock();
        }
        !acquired_lock
    }
}

/// The capability interface of a raw reader-writer lock.
pub trait RawRwLock {
    /// Marker type for the guards a wrapper layer would hand out.
    type GuardMarker;

    /// Acquires a shared lock, blocking until it is able to do so.
    fn lock_shared(&self);

    /// Attempts to acquire a shared lock without blocking.
    fn try_lock_shared(&self) -> bool;

    /// Releases a shared lock. The caller must hold one.
    fn unlock_shared(&self);

    /// Acquires the exclusive lock, blocking until it is able to do so.
    fn lock_exclusive(&self);

    /// Attempts to acquire the exclusive lock without blocking.
    fn try_lock_exclusive(&self) -> bool;

    /// Releases the exclusive lock. The caller must hold it.
    fn unlock_exclusive(&self);

    /// Whether the lock is held in any way, as a snapshot probed by an
    /// exclusive try-acquire.
    fn is_locked(&self) -> bool {
        let acquired_lock = self.try_lock_exclusive();
        if acquired_lock {
            self.unlock_exclusive();
        }
        !acquired_lock
    }

    /// Whether the lock is held exclusively, as a snapshot probed by a
    /// shared try-acquire.
    fn is_locked_exclusive(&self) -> bool {
        let acquired_lock = self.try_lock_shared();
        if acquired_lock {
            self.unlock_shared();
        }
        !acquired_lock
    }
}

} // verus!
