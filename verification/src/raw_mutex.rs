//! An implementation of the [`crate::lock_api::RawMutex`] capability
//! interface over the futex-based mutex.
//!
//! All of this `RawMutex`'s methods are in its implementation of that
//! trait. To import the trait without conflicting with this `RawMutex`
//! type, use `use futex_sync::lock_api::RawMutex as _;`.

use vstd::prelude::*;

verus! {

/// A raw mutual-exclusion lock: a single 32-bit word; a zero-filled word
/// is a valid unlocked instance.
pub struct RawMutex<const SHM: bool>(pub crate::futex_mutex::Mutex<SHM>);

impl<const SHM: bool> RawMutex<SHM> {
    /// A new unlocked raw mutex: its word is zero.
    pub fn new() -> RawMutex<SHM> {
        RawMutex(crate::futex_mutex::Mutex::new())
    }
}

impl<const SHM: bool> crate::lock_api::RawMutex for RawMutex<SHM> {
    type GuardMarker = crate::lock_api::GuardNoSend;

    fn lock(&self) {
        // `false` here means the astronomically large retry budget ran
        // out; this interface has no channel to surface that, so callers
        // needing the indicator use the futex-level mutex directly.
        let _ = self.0.lock();
    }

    fn try_lock(&self) -> bool {
        self.0.try_lock()
    }

    fn unlock(&self) {
        self.0.unlock()
    }
}

} // verus!
