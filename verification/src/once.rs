//! The public one-time-initialization primitive: exactly-once execution
//! of an initializer, with other callers blocking until it finishes.
//!
//! A caller that merely observes a POISONED word fails outright unless it
//! uses the forced entry point, which also lets the initializer reset the
//! word to INCOMPLETE to report failure, so one initializer's failure
//! never blocks a later retry.

use crate::futex_once as sys;
use crate::futex_once::CallOutcome;
use vstd::prelude::*;

verus! {

/// State yielded to a forced caller's initializer. It chooses the word
/// published when the initializer returns: COMPLETE unless the
/// initializer reports failure through [`OnceState::set_incomplete`].
pub struct OnceState {
    set_state_to: u32,
}

impl OnceState {
    /// The word this token will publish when the initializer returns.
    pub closed spec fn word_to_publish(self) -> u32 {
        self.set_state_to
    }

    /// Whether the initializer has reported failure through this token.
    pub open spec fn reports_failure(self) -> bool {
        self.word_to_publish() == sys::INCOMPLETE
    }

    /// A fresh token, set to publish COMPLETE.
    pub(crate) fn new_completing() -> (r: OnceState)
        ensures
            r.word_to_publish() == sys::COMPLETE,
    {
        OnceState { set_state_to: sys::COMPLETE }
    }

    /// Marks the associated one-time initialization as incomplete: the
    /// current initializer reports failure, and a later caller will run a
    /// new initializer.
    pub fn set_incomplete(&mut self)
        ensures
            final(self).reports_failure(),
    {
        self.set_state_to = sys::INCOMPLETE;
    }

    pub(crate) fn into_word(self) -> (r: u32)
        ensures
            r == self.word_to_publish(),
    {
        self.set_state_to
    }
}

/// A synchronization primitive for running a one-time global
/// initialization: a single 32-bit word; a zero-filled word is a valid
/// instance in the INCOMPLETE state.
pub struct Once<const SHM: bool> {
    inner: sys::Once<SHM>,
}

impl<const SHM: bool> Once<SHM> {
    /// A new instance in the INCOMPLETE state: its word is zero.
    pub fn new() -> Once<SHM> {
        Once { inner: sys::Once::new() }
    }

    /// Runs `f` if no initialization has completed yet, blocking while
    /// another caller's initializer is running. On return with
    /// [`CallOutcome::Finished`], some initialization has run and
    /// completed (not necessarily `f`), and its writes are visible to
    /// this thread.
    ///
    /// Observing a POISONED word makes the call fail outright with
    /// [`CallOutcome::Poisoned`]; see [`Self::call_once_force`].
    pub fn call_once<F: FnOnce()>(&self, f: F) -> (r: CallOutcome)
        requires
            call_requires(f, ()),
    {
        // Fast path check.
        if self.inner.is_completed() {
            return CallOutcome::Finished;
        }
        self.inner.call(
            false,
            (|s: OnceState| -> (r: OnceState)
                requires
                    call_requires(f, ()),
                {
                    f();
                    s
                }),
        )
    }

    /// Like [`Self::call_once`], but ignores a POISONED word, and yields
    /// the initializer a [`OnceState`] token through which it may report
    /// failure: the word is then reset to INCOMPLETE rather than
    /// COMPLETE, so a later call runs a new initializer.
    pub fn call_once_force<F: FnOnce(OnceState) -> OnceState>(&self, f: F) -> (r: CallOutcome)
        requires
            forall|s: OnceState| call_requires(f, (s,)),
        ensures
            !(r is Poisoned),
    {
        // Fast path check.
        if self.inner.is_completed() {
            return CallOutcome::Finished;
        }
        self.inner.call(true, f)
    }

    /// Whether some initialization has completed successfully: false
    /// before any call, while an initializer is running, and after a
    /// failed forced initialization; true after a completed one. The
    /// snapshot may be stale by the time the caller looks at it.
    pub fn is_completed(&self) -> bool {
        self.inner.is_completed()
    }
}

} // verus!
