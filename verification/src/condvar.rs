//! The condition variable: "release the lock, sleep, reacquire the lock"
//! as one operation from the caller's perspective, with predicate-looping
//! wait variants whose remaining time budget is recomputed against elapsed
//! monotonic time, so a predicate re-check never resets the caller's total
//! budget.
//!
//! Waits are associated with a raw mutex rather than a typed guard: the
//! guard layer is an external collaborator, and the caller's predicate is
//! a closure re-checked under the reacquired mutex on every return.

use crate::futex_condvar::Condvar as RawCondvar;
use crate::raw_mutex::RawMutex;
use crate::time::Duration;
use crate::wait_wake::monotonic_now;
use crate::wait_wake::RETRY_BUDGET;
use vstd::prelude::*;

verus! {

/// Whether a timed wait on a condition variable returned because its time
/// budget ran out rather than because of a notification (or, for the
/// predicate variants, because the predicate turned false).
#[derive(Debug, PartialEq, Eq, Structural, Copy, Clone)]
pub struct WaitTimeoutResult(bool);

impl WaitTimeoutResult {
    /// Whether the wait is known to have timed out.
    pub closed spec fn timed_out_spec(self) -> bool {
        self.0
    }

    /// Returns `true` if the wait was known to have timed out.
    pub fn timed_out(&self) -> (r: bool)
        ensures
            r == self.timed_out_spec(),
    {
        self.0
    }
}

/// A condition variable over a raw generation word.
///
/// `SHM` selects the private or shared kernel queue, as everywhere; all
/// callers sharing one instance's memory must agree on it, and must wait
/// with the same mutex.
pub struct Condvar<const SHM: bool> {
    inner: RawCondvar<SHM>,
}

impl<const SHM: bool> Condvar<SHM> {
    /// A new condition variable, ready to be waited on and notified: its
    /// word is zero.
    pub fn new() -> Condvar<SHM> {
        Condvar { inner: RawCondvar::new() }
    }

    /// Atomically releases `mutex` and blocks the calling thread until a
    /// notification arrives, then reacquires `mutex`. Susceptible to
    /// spurious wakeups: callers re-check their predicate on every return,
    /// or use [`Self::wait_while`].
    pub fn wait(&self, mutex: &RawMutex<SHM>) {
        self.inner.wait(mutex);
    }

    /// Waits until `condition` returns false, re-checking it under the
    /// reacquired mutex after every wakeup.
    ///
    /// Returns `true` when the condition was observed false — every case
    /// but the exhaustion of [`RETRY_BUDGET`] — and then the last call of
    /// `condition` returned false; a `false` result means the budget ran
    /// out with the last call of `condition` still returning true.
    pub fn wait_while<F: Fn() -> bool>(&self, mutex: &RawMutex<SHM>, condition: F) -> (r: bool)
        requires
            call_requires(condition, ()),
        ensures
            r ==> call_ensures(condition, (), false),
            !r ==> call_ensures(condition, (), true),
    {
        let mut fuel: u64 = RETRY_BUDGET;
        while fuel > 0
            invariant
                call_requires(condition, ()),
                fuel < RETRY_BUDGET ==> call_ensures(condition, (), true),
            decreases fuel,
        {
            if !condition() {
                return true;
            }
            self.inner.wait(mutex);
            fuel = fuel - 1;
        }
        false
    }

    /// Waits for a notification, giving up after roughly `ms`
    /// milliseconds. Returns `false` only if the timeout is known to have
    /// elapsed; the mutex is reacquired before returning either way.
    pub fn wait_timeout_ms(&self, mutex: &RawMutex<SHM>, ms: u32) -> (r: bool) {
        let res = self.wait_timeout(mutex, Duration::from_millis(ms as u64));
        !res.timed_out()
    }

    /// Waits for a notification, giving up after roughly `dur`. The
    /// result says whether the timeout is known to have elapsed; the
    /// mutex is reacquired before returning either way.
    pub fn wait_timeout(&self, mutex: &RawMutex<SHM>, dur: Duration) -> (r: WaitTimeoutResult)
        requires
            dur.wf(),
    {
        let notified = self.inner.wait_timeout(mutex, dur);
        WaitTimeoutResult(!notified)
    }

    /// Waits until `condition` returns false or a total time budget of
    /// `dur` has elapsed, re-checking the condition under the reacquired
    /// mutex after every wakeup. The remaining budget is recomputed from
    /// elapsed monotonic time each iteration, so re-checks never extend
    /// the total wait.
    ///
    /// A result that did not time out means the last call of `condition`
    /// returned false; a timed-out result means it returned true.
    pub fn wait_timeout_while<F: Fn() -> bool>(
        &self,
        mutex: &RawMutex<SHM>,
        dur: Duration,
        condition: F,
    ) -> (r: WaitTimeoutResult)
        requires
            dur.wf(),
            call_requires(condition, ()),
        ensures
            !r.timed_out_spec() ==> call_ensures(condition, (), false),
            r.timed_out_spec() ==> call_ensures(condition, (), true),
    {
        let start = monotonic_now();
        let mut fuel: u64 = RETRY_BUDGET;
        while fuel > 0
            invariant
                dur.wf(),
                start.wf(),
                call_requires(condition, ()),
                fuel < RETRY_BUDGET ==> call_ensures(condition, (), true),
            decreases fuel,
        {
            if !condition() {
                return WaitTimeoutResult(false);
            }
            let now = monotonic_now();
            let elapsed = now.saturating_sub(start);
            match dur.checked_sub(elapsed) {
                Some(remaining) => {
                    let _ = self.inner.wait_timeout(mutex, remaining);
                },
                None => {
                    // The budget is spent without the condition turning
                    // false.
                    return WaitTimeoutResult(true);
                },
            }
            fuel = fuel - 1;
        }
        // The retry budget ran out with the condition still holding.
        WaitTimeoutResult(true)
    }

    /// Wakes one thread blocked on this condition variable.
    pub fn notify_one(&self) {
        self.inner.notify_one()
    }

    /// Wakes all threads blocked on this condition variable.
    pub fn notify_all(&self) {
        self.inner.notify_all()
    }
}

impl<const SHM: bool> Default for Condvar<SHM> {
    /// A condition variable ready to be waited on and notified.
    fn default() -> Condvar<SHM> {
        Condvar::new()
    }
}

} // verus!
