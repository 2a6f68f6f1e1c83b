//! The wait/wake substrate: blocking a thread on a 32-bit word until the
//! word's value changes or a deadline elapses, and waking threads blocked
//! on a word.
//!
//! Waiters are keyed by the word's memory address (plus the private/shared
//! scope flag) by the kernel itself, so no registration step is needed.
//! The kernel blocks the caller only if the word still holds the expected
//! value at the instant it checks — collapsing the observe/block race into
//! one atomic check. The only failure surfaced is a timeout.

use core::sync::atomic::AtomicU32;
use core::sync::atomic::Ordering;
use rustix::thread::futex as kernel_futex;
use crate::time::Duration;
use crate::time::Timespec;
use vstd::prelude::*;

verus! {

/// The bound on retry loops around kernel waits and compare-and-swap
/// races. One unit is spent only on a wakeup or a lost race, each of which
/// costs at least one system call or contended atomic operation, so
/// exhausting the budget would take centuries of continuous contention;
/// still, every loop in this crate is finite, and what a function does on
/// an exhausted budget is part of its description.
pub const RETRY_BUDGET: u64 = u64::MAX;

/// What one attempt to block on a word came to.
pub(crate) enum WaitOutcome {
    /// The word no longer held the expected value, or a wake arrived.
    Woken,
    /// A signal interrupted the sleep; the caller retries transparently.
    Interrupted,
    /// The absolute deadline elapsed first.
    TimedOut,
}

/// Reads the monotonic clock, which is immune to wall-clock adjustment.
///
/// Relies on rustix::time::clock_gettime with ClockId::Monotonic: the
/// kernel returns a normalized timespec (nanoseconds in [0, 1e9)) on a
/// clock counting from an unspecified past point no later than boot, so
/// both fields are non-negative.
#[verifier::external_body]
pub(crate) fn monotonic_now() -> (r: Timespec)
    ensures
        r.wf(),
{
    let now = rustix::time::clock_gettime(rustix::time::ClockId::Monotonic);
    Timespec { tv_sec: now.tv_sec, tv_nsec: now.tv_nsec }
}

/// Relies on rustix::thread::futex::wait_bitset (FUTEX_WAIT_BITSET with a
/// full mask, so it behaves as a plain FUTEX_WAIT that takes an absolute
/// monotonic-clock deadline): the caller is put to sleep only while the
/// word still equals `expected`; ETIMEDOUT is reported only when a deadline
/// was given and elapsed, and EINTR reports interruption by a signal.
#[verifier::external_body]
fn futex_wait_raw(
    futex: &AtomicU32,
    shared: bool,
    expected: u32,
    deadline: Option<Timespec>,
) -> (r: WaitOutcome)
    ensures
        r is TimedOut ==> deadline is Some,
{
    let ts = deadline.map(|t| rustix::time::Timespec { tv_sec: t.tv_sec, tv_nsec: t.tv_nsec });
    let flags = if shared { kernel_futex::Flags::empty() } else { kernel_futex::Flags::PRIVATE };
    match kernel_futex::wait_bitset(futex, flags, expected, ts.as_ref(), core::num::NonZeroU32::MAX) {
        Err(rustix::io::Errno::TIMEDOUT) => WaitOutcome::TimedOut,
        Err(rustix::io::Errno::INTR) => WaitOutcome::Interrupted,
        _ => WaitOutcome::Woken,
    }
}

/// Relies on rustix::thread::futex::wake (FUTEX_WAKE): at most `count`
/// threads blocked on the word are woken, and the result counts the
/// threads actually woken; `None` reports a kernel error.
#[verifier::external_body]
fn futex_wake_raw(futex: &AtomicU32, shared: bool, count: u32) -> (r: Option<usize>) {
    let flags = if shared { kernel_futex::Flags::empty() } else { kernel_futex::Flags::PRIVATE };
    kernel_futex::wake(futex, flags, count).ok()
}

/// Waits for a wake operation on `futex`, with an optional relative
/// timeout, on the private or shared kernel queue as `SHM` selects.
///
/// Returns directly if the word no longer holds the expected value.
/// Returns `false` on timeout, and `true` in all other cases; with no
/// timeout given it never reports a timeout. An overflowing deadline is
/// rounded up to an infinite timeout.
pub fn futex_wait<const SHM: bool>(
    futex: &AtomicU32,
    expected: u32,
    timeout: Option<Duration>,
) -> (r: bool)
    requires
        timeout is Some ==> timeout->0.wf(),
    ensures
        !r ==> timeout is Some,
{
    // Calculate the timeout as an absolute timespec on the monotonic clock.
    let timespec: Option<Timespec> = match timeout {
        Some(d) => {
            let now = monotonic_now();
            now.checked_add_duration(d)
        },
        None => None,
    };
    futex_wait_timespec::<SHM>(futex, expected, timespec)
}

/// Like [`futex_wait`], but takes an optional absolute monotonic-clock
/// time to wake up at. Callers that need no timeout pass `None` and avoid
/// consulting the clock.
pub fn futex_wait_timespec<const SHM: bool>(
    futex: &AtomicU32,
    expected: u32,
    timespec: Option<Timespec>,
) -> (r: bool)
    ensures
        !r ==> timespec is Some,
{
    let mut fuel: u64 = RETRY_BUDGET;
    while fuel > 0
        decreases fuel,
    {
        // No need to wait if the value already changed.
        if futex.load(Ordering::Relaxed) != expected {
            return true;
        }
        match futex_wait_raw(futex, SHM, expected, timespec) {
            WaitOutcome::TimedOut => {
                return false;
            },
            WaitOutcome::Interrupted => {
            },
            WaitOutcome::Woken => {
                return true;
            },
        }
        fuel = fuel - 1;
    }
    // The retry budget ran out: report a wake. To a caller this is one more
    // spurious wakeup, and every caller re-checks its condition on return.
    true
}

/// Wakes up one thread blocked in [`futex_wait`] on this word.
///
/// Returns `true` if this actually woke up such a thread, or `false` if no
/// thread was waiting on the word.
pub fn futex_wake<const SHM: bool>(futex: &AtomicU32) -> (r: bool) {
    match futex_wake_raw(futex, SHM, 1) {
        None => false,
        Some(n) => n > 0,
    }
}

/// Wakes up all threads blocked in [`futex_wait`] on this word.
pub fn futex_wake_all<const SHM: bool>(futex: &AtomicU32) {
    let _ = futex_wake_raw(futex, SHM, 0x7fff_ffff);
}

} // verus!
