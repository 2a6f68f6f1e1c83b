//! An implementation of the [`crate::lock_api::RawRwLock`] capability
//! interface over the futex-based reader-writer lock.
//!
//! All of this `RawRwLock`'s methods are in its implementation of that
//! trait. To import the trait without conflicting with this `RawRwLock`
//! type, use `use futex_sync::lock_api::RawRwLock as _;`.

use vstd::prelude::*;

verus! {

/// A raw reader-writer lock: two 32-bit words; a zero-filled pair is a
/// valid unlocked instance.
pub struct RawRwLock<const SHM: bool>(pub crate::futex_rwlock::RwLock<SHM>);

impl<const SHM: bool> RawRwLock<SHM> {
    /// A new unlocked raw reader-writer lock: both words are zero.
    pub fn new() -> RawRwLock<SHM> {
        RawRwLock(crate::futex_rwlock::RwLock::new())
    }
}

impl<const SHM: bool> crate::lock_api::RawRwLock for RawRwLock<SHM> {
    type GuardMarker = crate::lock_api::GuardNoSend;

    fn lock_shared(&self) {
        // `false` here means the astronomically large retry budget ran
        // out; this interface has no channel to surface that, so callers
        // needing the indicator use the futex-level lock directly.
        let _ = self.0.read();
    }

    fn try_lock_shared(&self) -> bool {
        self.0.try_read()
    }

    fn unlock_shared(&self) {
        self.0.read_unlock()
    }

    fn lock_exclusive(&self) {
        // As in `lock_shared`, budget exhaustion cannot be surfaced here.
        let _ = self.0.write();
    }

    fn try_lock_exclusive(&self) -> bool {
        self.0.try_write()
    }

    fn unlock_exclusive(&self) {
        self.0.write_unlock()
    }
}

} // verus!
