//! The types parameterized on the private/shared wait-wake scope.
//!
//! These carry a `const SHM: bool` parameter selecting which kernel queue
//! the instance's waits and wakes consult. They are aliased as
//! non-parameterized types at the top level of the crate and in the
//! [`crate::shm`] module for better ergonomics.

pub use crate::condvar::Condvar;
pub use crate::futex_condvar::Condvar as RawCondvar;
pub use crate::once::Once;
pub use crate::once_lock::OnceLock;
pub use crate::raw_mutex::RawMutex;
pub use crate::raw_rwlock::RawRwLock;
