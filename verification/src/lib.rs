//! Blocking synchronization primitives — a mutual-exclusion lock, a
//! reader-writer lock, a condition variable, a one-time-initialization
//! primitive and a lazily-initialized value cell — built directly on the
//! kernel's word-blocking facility (futex) rather than on a pre-existing
//! locking library.
//!
//! Each lock is one or two 32-bit words, so that a zero-filled, correctly
//! aligned region of memory is a valid, ready-to-use instance, and so
//! that instances can live in memory shared with other processes. A
//! boolean type parameter, fixed per instance, selects whether the
//! kernel's private (single address space) or shared (cross-process)
//! wait queue is consulted; the types at the crate's top level use the
//! private scope, those under [`shm`] the shared one.

use vstd::prelude::*;

mod atomics;
pub mod condvar;
pub mod futex_condvar;
pub mod futex_mutex;
pub mod futex_once;
pub mod futex_rwlock;
pub mod generic;
pub mod lock_api;
pub mod once;
pub mod once_lock;
pub mod raw_mutex;
pub mod raw_rwlock;
pub mod shm;
pub mod time;
pub mod wait_wake;

pub use condvar::WaitTimeoutResult;
pub use futex_once::CallOutcome;
pub use once::OnceState;

verus! {

pub type Once = crate::generic::Once<false>;

pub type Condvar = crate::generic::Condvar<false>;

pub type RawCondvar = crate::generic::RawCondvar<false>;

pub type RawMutex = crate::generic::RawMutex<false>;

pub type RawRwLock = crate::generic::RawRwLock<false>;

pub type OnceLock<T> = crate::generic::OnceLock<T>;

} // verus!
