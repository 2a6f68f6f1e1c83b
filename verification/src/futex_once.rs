//! The one-time-initialization state machine: one 32-bit word with five
//! states, and the kernel's waiter queue doing the queue-keeping.
//!
//! INCOMPLETE and POISONED are at-rest states a caller may start an
//! initialization from; RUNNING means some caller won the race and is the
//! sole initializer; QUEUED is RUNNING with at least one waiter parked or
//! about to park; COMPLETE is final. Threads wait by setting the word to
//! QUEUED and parking on it; the initializer's completion step publishes
//! the outcome with one swap and wakes all waiters only when the prior
//! word was QUEUED — no system call on the uncontended path.
//!
//! The second half of this file states the word's transition system and
//! proves that at most one initialization is ever published when no
//! initializer fails, and that a failure returns the word to INCOMPLETE
//! with every waiter released and a new initializer able to start.

use core::sync::atomic::AtomicU32;
use core::sync::atomic::Ordering;
use crate::atomics::cas_acquire_acquire;
use crate::atomics::cas_relaxed_acquire;
use crate::once::OnceState;
use crate::wait_wake::futex_wait;
use crate::wait_wake::futex_wake_all;
use crate::wait_wake::RETRY_BUDGET;
use vstd::prelude::*;

verus! {

/// No initialization has run yet, and no thread is currently using the
/// word: all zero, so a zero-filled region is a valid instance.
pub const INCOMPLETE: u32 = 0;

/// An earlier initialization attempt was abandoned in a way that should
/// make later non-forced callers fail outright.
pub const POISONED: u32 = 1;

/// Some thread is currently running the initializer; all later callers
/// wait for it to finish.
pub const RUNNING: u32 = 2;

/// Like RUNNING, and at least one waiting thread exists, so the finishing
/// step must wake.
pub const QUEUED: u32 = 3;

/// Initialization has completed; every future call finishes immediately.
pub const COMPLETE: u32 = 4;

/// How one drive of the protocol ended.
#[derive(Debug, PartialEq, Eq, Structural, Copy, Clone)]
pub enum CallOutcome {
    /// Completion was observed, or this caller ran the initializer and
    /// published its outcome (COMPLETE, or INCOMPLETE on reported
    /// failure).
    Finished,
    /// The word held POISONED and the caller did not ask to ignore it:
    /// the call fails outright rather than proceed.
    Poisoned,
    /// The retry budget ran out before either of the above.
    GaveUp,
}

/// A one-time-initialization word.
///
/// `SHM` selects the private or shared kernel queue, fixed per instance.
pub struct Once<const SHM: bool> {
    state: AtomicU32,
}

impl<const SHM: bool> Once<SHM> {
    /// A new instance in the INCOMPLETE state: its word is zero.
    pub fn new() -> Once<SHM> {
        Once { state: AtomicU32::new(INCOMPLETE) }
    }

    /// Whether some initialization has completed successfully, as an
    /// acquire-ordered snapshot: observing `true` makes the initializer's
    /// writes visible to this thread.
    pub fn is_completed(&self) -> bool {
        self.state.load(Ordering::Acquire) == COMPLETE
    }

    /// Drives the protocol: returns once COMPLETE is observed, running
    /// `f` as the sole initializer if this caller wins the race to start
    /// one. `f` receives a completion token set to publish COMPLETE and
    /// returns it, possibly switched to report failure; the publish-and-
    /// wake step runs as soon as `f` returns (a verified initializer has
    /// no abnormal exit).
    ///
    /// A POISONED word makes the call fail outright unless
    /// `ignore_poisoning` is set.
    pub fn call<F: FnOnce(OnceState) -> OnceState>(
        &self,
        ignore_poisoning: bool,
        f: F,
    ) -> (r: CallOutcome)
        requires
            forall|s: OnceState| call_requires(f, (s,)),
        ensures
            r is Poisoned ==> !ignore_poisoning,
    {
        let mut state = self.state.load(Ordering::Acquire);
        let mut fuel: u64 = RETRY_BUDGET;
        let mut became_runner = false;
        while fuel > 0 && !became_runner
            decreases fuel,
        {
            if state == COMPLETE {
                return CallOutcome::Finished;
            }
            if state == POISONED && !ignore_poisoning {
                // Fail outright rather than proceed past a poisoned word.
                return CallOutcome::Poisoned;
            }
            if state == INCOMPLETE || state == POISONED {
                // Try to register this thread as the sole initializer.
                match cas_acquire_acquire(&self.state, state, RUNNING) {
                    Ok(_) => {
                        became_runner = true;
                    },
                    Err(new) => {
                        state = new;
                    },
                }
            } else {
                // RUNNING or QUEUED (or a foreign value, which is a
                // protocol violation by whoever wrote it): mark that at
                // least one waiter exists, then sleep while the word
                // reads QUEUED.
                if state == RUNNING {
                    if let Err(new) = cas_relaxed_acquire(&self.state, RUNNING, QUEUED) {
                        state = new;
                        fuel = fuel - 1;
                        continue;
                    }
                }
                let _ = futex_wait::<SHM>(&self.state, QUEUED, None);
                state = self.state.load(Ordering::Acquire);
            }
            fuel = fuel - 1;
        }
        if !became_runner {
            return CallOutcome::GaveUp;
        }
        // This thread won the compare-and-swap and is the sole
        // initializer. Run the initializer with a completion token that
        // publishes COMPLETE unless the initializer reports failure.
        let token = f(OnceState::new_completing());
        // Publish the outcome with one swap; wake all waiters only if the
        // prior word was QUEUED, so the uncontended path makes no system
        // call. Release ordering propagates the initializer's writes to
        // every thread that observes the new word with acquire ordering.
        if self.state.swap(token.into_word(), Ordering::Release) == QUEUED {
            futex_wake_all::<SHM>(&self.state);
        }
        CallOutcome::Finished
    }
}

// ------------------------------------------------------------------
// The word's transition system: exactly-once and failure-retry.
// ------------------------------------------------------------------

/// A state of one word: the word itself, the threads currently running an
/// initializer (never more than one), the threads parked on the word, and
/// how many successful initializations have been published.
pub struct OnceModel {
    pub word: u32,
    pub runners: Set<nat>,
    pub parked: Set<nat>,
    pub completions: nat,
}

/// The atomic events threads perform on one word; `t` names the thread.
pub enum OnceEvent {
    /// A caller won the compare-and-swap from INCOMPLETE or POISONED to
    /// RUNNING and became the sole initializer.
    BeginInit { t: nat },
    /// A later caller that observed RUNNING set the word to QUEUED before
    /// parking, marking that at least one waiter exists.
    MarkQueued { t: nat },
    /// A caller parked on the word; the kernel admits this only while the
    /// word still reads QUEUED — one atomic observe-and-block check.
    Park { t: nat },
    /// The sole initializer's completion step published COMPLETE and
    /// released every parked waiter.
    FinishSuccess { t: nat },
    /// The completion step published INCOMPLETE — the initializer
    /// reported failure — and released every parked waiter.
    FinishFailure { t: nat },
}

/// The initial state: a zero word, nobody running or parked, nothing
/// published.
pub open spec fn once_init(s: OnceModel) -> bool {
    &&& s.word == INCOMPLETE
    &&& s.runners == Set::<nat>::empty()
    &&& s.parked == Set::<nat>::empty()
    &&& s.completions == 0
}

/// One legal step of the protocol.
pub open spec fn once_step(pre: OnceModel, ev: OnceEvent, post: OnceModel) -> bool {
    match ev {
        OnceEvent::BeginInit { t } => {
            &&& (pre.word == INCOMPLETE || pre.word == POISONED)
            &&& !pre.runners.contains(t)
            &&& post == OnceModel { word: RUNNING, runners: pre.runners.insert(t), ..pre }
        },
        OnceEvent::MarkQueued { t } => {
            &&& pre.word == RUNNING
            &&& post == OnceModel { word: QUEUED, ..pre }
        },
        OnceEvent::Park { t } => {
            &&& pre.word == QUEUED
            &&& post == OnceModel { parked: pre.parked.insert(t), ..pre }
        },
        OnceEvent::FinishSuccess { t } => {
            &&& pre.runners.contains(t)
            &&& post == OnceModel {
                word: COMPLETE,
                runners: pre.runners.remove(t),
                parked: Set::<nat>::empty(),
                completions: pre.completions + 1,
            }
        },
        OnceEvent::FinishFailure { t } => {
            &&& pre.runners.contains(t)
            &&& post == OnceModel {
                word: INCOMPLETE,
                runners: pre.runners.remove(t),
                parked: Set::<nat>::empty(),
                completions: pre.completions,
            }
        },
    }
}

/// The invariant: at most one runner, the word names whether a runner
/// exists, and waiters are parked only under a QUEUED word — which is why
/// a completion step that wakes only on a prior QUEUED word still never
/// leaves a waiter parked.
pub open spec fn once_inv(s: OnceModel) -> bool {
    &&& s.runners.finite()
    &&& s.parked.finite()
    &&& (s.word == INCOMPLETE || s.word == POISONED || s.word == RUNNING || s.word == QUEUED
        || s.word == COMPLETE)
    &&& (s.word == RUNNING || s.word == QUEUED <==> s.runners.len() == 1)
    &&& s.runners.len() <= 1
    &&& (s.parked.len() != 0 ==> s.word == QUEUED)
}

/// A run: an interleaving of events by any number of threads, starting
/// from a fresh (zero-word) instance, each step legal.
pub open spec fn once_run(states: Seq<OnceModel>, events: Seq<OnceEvent>) -> bool {
    &&& states.len() == events.len() + 1
    &&& once_init(states[0])
    &&& forall|i: int|
        0 <= i < events.len() ==> once_step(#[trigger] states[i], events[i], states[i + 1])
}

/// Every legal step preserves the invariant.
pub proof fn lemma_once_step_preserves_inv(pre: OnceModel, ev: OnceEvent, post: OnceModel)
    requires
        once_inv(pre),
        once_step(pre, ev, post),
    ensures
        once_inv(post),
{
    broadcast use vstd::set::group_set_axioms;

}

/// The invariant holds in every reachable state of every run.
pub proof fn lemma_once_inv_at(states: Seq<OnceModel>, events: Seq<OnceEvent>, i: int)
    requires
        once_run(states, events),
        0 <= i < states.len(),
    ensures
        once_inv(states[i]),
    decreases i,
{
    broadcast use vstd::set::group_set_axioms;

    if i > 0 {
        lemma_once_inv_at(states, events, i - 1);
        lemma_once_step_preserves_inv(states[i - 1], events[i - 1], states[i]);
    }
}

/// Exactly-once: in any interleaving of concurrent callers in which no
/// initializer reports failure, at most one initialization is ever
/// published, and the word reads COMPLETE exactly from that publish on.
/// So, for every racer, `is_completed` is false before and during the
/// winning call and true after it, and exactly one initializer's effect
/// is observed.
pub proof fn lemma_once_at_most_one_initialization(
    states: Seq<OnceModel>,
    events: Seq<OnceEvent>,
    i: int,
)
    requires
        once_run(states, events),
        forall|j: int| 0 <= j < events.len() ==> !(#[trigger] events[j] is FinishFailure),
        0 <= i < states.len(),
    ensures
        states[i].completions <= 1,
        states[i].word == COMPLETE <==> states[i].completions == 1,
    decreases i,
{
    if i > 0 {
        lemma_once_at_most_one_initialization(states, events, i - 1);
        lemma_once_inv_at(states, events, i - 1);
        broadcast use vstd::set::group_set_axioms;

    }
}

/// Failure and retry: when the sole initializer reports failure, the word
/// returns to INCOMPLETE, every parked waiter is released rather than
/// left hanging, and any thread can immediately become the next
/// initializer.
pub proof fn lemma_once_failure_releases_and_retries(
    pre: OnceModel,
    t: nat,
    post: OnceModel,
    u: nat,
)
    requires
        once_inv(pre),
        once_step(pre, OnceEvent::FinishFailure { t }, post),
    ensures
        post.word == INCOMPLETE,
        post.parked.len() == 0,
        once_step(
            post,
            OnceEvent::BeginInit { t: u },
            OnceModel { word: RUNNING, runners: post.runners.insert(u), ..post },
        ),
{
    broadcast use vstd::set::group_set_axioms;

    assert(pre.runners.len() == 1);
    assert(post.runners.len() == 0);
    assert(!post.runners.contains(u));
}

/// The completion step wakes only when the prior word was QUEUED, and
/// that suffices: whenever any waiter is parked, the word is QUEUED.
pub proof fn lemma_once_parked_implies_queued(s: OnceModel)
    requires
        once_inv(s),
        s.parked.len() != 0,
    ensures
        s.word == QUEUED,
{
}

} // verus!
