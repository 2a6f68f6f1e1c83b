//! The raw condition variable: one 32-bit generation word, incremented on
//! every notification.
//!
//! The word carries no identity, only a detectable change. A waiter
//! snapshots it before releasing its mutex, and the wait/wake substrate
//! then parks the waiter only while the word still holds the snapshot —
//! one atomic observe-and-block check. A notifier increments the word
//! before waking, so a notification issued at any point after the waiter's
//! unlock either changes the word before the park (and the park refuses)
//! or finds the waiter already parked (and wakes it): "unlock, sleep,
//! reacquire" is atomic from the caller's perspective without a
//! third-party serializer. [`lemma_no_missed_wakeup`] proves the
//! refused-park half of that argument.

use core::sync::atomic::AtomicU32;
use core::sync::atomic::Ordering;
use crate::lock_api::RawMutex as _;
use crate::raw_mutex::RawMutex;
use crate::time::Duration;
use crate::wait_wake::futex_wait;
use crate::wait_wake::futex_wake;
use crate::wait_wake::futex_wake_all;
use vstd::prelude::*;

verus! {

/// A raw condition variable: a single 32-bit generation word; a
/// zero-filled word is a valid instance.
///
/// The memory orderings on the word are all relaxed: synchronization is
/// established by the mutex the waiters hold, not by the word itself.
pub struct Condvar<const SHM: bool> {
    futex: AtomicU32,
}

impl<const SHM: bool> Condvar<SHM> {
    /// A new condition variable: its word is zero.
    pub fn new() -> Condvar<SHM> {
        Condvar { futex: AtomicU32::new(0) }
    }

    /// Wakes one thread blocked on this condition variable, after
    /// incrementing the generation word so that a waiter between its
    /// unlock and its park cannot miss the notification.
    pub fn notify_one(&self) {
        self.futex.fetch_add(1, Ordering::Relaxed);
        let _ = futex_wake::<SHM>(&self.futex);
    }

    /// Wakes all threads blocked on this condition variable, after
    /// incrementing the generation word.
    pub fn notify_all(&self) {
        self.futex.fetch_add(1, Ordering::Relaxed);
        futex_wake_all::<SHM>(&self.futex);
    }

    /// Atomically releases `mutex` and blocks until a notification
    /// arrives, then reacquires `mutex` before returning. Subject to
    /// spurious wakeups: the caller always re-checks its predicate.
    pub fn wait(&self, mutex: &RawMutex<SHM>) {
        let _ = self.wait_optional_timeout(mutex, None);
    }

    /// Like [`Self::wait`], but gives up after roughly `timeout`. Returns
    /// `false` only when the wait timed out; `mutex` is reacquired before
    /// returning either way.
    pub fn wait_timeout(&self, mutex: &RawMutex<SHM>, timeout: Duration) -> (r: bool)
        requires
            timeout.wf(),
    {
        self.wait_optional_timeout(mutex, Some(timeout))
    }

    fn wait_optional_timeout(&self, mutex: &RawMutex<SHM>, timeout: Option<Duration>) -> (r: bool)
        requires
            timeout is Some ==> timeout->0.wf(),
        ensures
            !r ==> timeout is Some,
    {
        // Examine the notification counter _before_ unlocking the mutex.
        let futex_value = self.futex.load(Ordering::Relaxed);
        // Unlock the mutex before going to sleep, opening the window a
        // notifier may race into.
        mutex.unlock();
        // Wait, but only if there has been no notification since we
        // unlocked the mutex.
        let r = futex_wait::<SHM>(&self.futex, futex_value, timeout);
        // Lock the mutex again, regardless of the wake reason.
        mutex.lock();
        r
    }
}

// ------------------------------------------------------------------
// Missed-wakeup freedom over the generation word.
// ------------------------------------------------------------------

/// What the generation word reads after `notifications` increments from
/// `snapshot`: each notification adds one, wrapping at 2^32.
pub open spec fn generation_after(snapshot: u32, notifications: nat) -> u32 {
    (((snapshot + notifications) % 0x1_0000_0000) as u32)
}

/// The kernel's single atomic observe-and-block check: a waiter is parked
/// only while the generation word still holds its snapshot.
pub open spec fn would_park(current: u32, snapshot: u32) -> bool {
    current == snapshot
}

/// Missed-wakeup freedom: a notifier that increments the generation word
/// strictly after a waiter snapshots it — anywhere in the window between
/// the waiter's unlock and its park — leaves the word different from the
/// snapshot, so the waiter's park is refused and it returns to re-check
/// its predicate instead of sleeping through the notification. This holds
/// for any number of intervening notifications short of wrapping the
/// 32-bit word all the way around.
pub proof fn lemma_no_missed_wakeup(snapshot: u32, notifications: nat)
    requires
        0 < notifications < 0x1_0000_0000,
    ensures
        !would_park(generation_after(snapshot, notifications), snapshot),
{
    let m: int = 0x1_0000_0000;
    let sum: int = snapshot + notifications;
    if sum < m {
        vstd::arithmetic::div_mod::lemma_small_mod(sum as nat, m as nat);
    } else {
        vstd::arithmetic::div_mod::lemma_mod_sub_multiples_vanish(sum, m);
        vstd::arithmetic::div_mod::lemma_small_mod((sum - m) as nat, m as nat);
    }
}

} // verus!
