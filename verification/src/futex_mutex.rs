//! The mutual-exclusion lock: one 32-bit word, sleeping contenders via the
//! wait/wake substrate instead of spinning.
//!
//! The word moves between three values: UNLOCKED, LOCKED (held, no
//! contention observed) and CONTENDED (held, and some acquirer has been or
//! is about to be put to sleep). Acquirers take the fast path with a single
//! compare-and-swap; on failure they swap the word to CONTENDED — which
//! acquires the lock if the word was UNLOCKED at that instant — and
//! otherwise sleep while the word still reads CONTENDED. Release swaps the
//! word to UNLOCKED and wakes one sleeper only if the prior value was
//! CONTENDED, so the common uncontended path makes no system call.
//!
//! The second half of this file states the word's transition system as a
//! specification and proves mutual exclusion over every run of it: the
//! steps are exactly the atomic operations the executable code performs,
//! and no interleaving of them admits two threads inside the critical
//! section at once.

use core::sync::atomic::AtomicU32;
use core::sync::atomic::Ordering;
use crate::atomics::cas_acquire_relaxed;
use crate::wait_wake::futex_wait;
use crate::wait_wake::futex_wake;
use crate::wait_wake::RETRY_BUDGET;
use vstd::prelude::*;

verus! {

/// The word of an unlocked mutex: all zero, so a zero-filled region is a
/// valid unlocked mutex with no construction step.
pub const UNLOCKED: u32 = 0;

/// The word of a held mutex with no contention observed.
pub const LOCKED: u32 = 1;

/// The word of a held mutex on which some acquirer has been, or is about
/// to be, put to sleep.
pub const CONTENDED: u32 = 2;

/// A futex-based mutual-exclusion lock: a single 32-bit word.
///
/// `SHM` fixes, per instance, whether wait/wake calls target the private
/// (single address space) or the shared (cross-process) kernel queue; it
/// changes no algorithm, only which queue is consulted, and must be the
/// same for every thread and process sharing this word's memory.
pub struct Mutex<const SHM: bool> {
    futex: AtomicU32,
}

impl<const SHM: bool> Mutex<SHM> {
    /// A new mutex in the unlocked state: its word is zero.
    pub fn new() -> Mutex<SHM> {
        Mutex { futex: AtomicU32::new(UNLOCKED) }
    }

    /// Tries to acquire the lock with a single compare-and-swap, without
    /// blocking. Returns `true` if the lock was acquired.
    pub fn try_lock(&self) -> bool {
        cas_acquire_relaxed(&self.futex, UNLOCKED, LOCKED).is_ok()
    }

    /// Acquires the lock, sleeping via the wait/wake substrate while it is
    /// held elsewhere.
    ///
    /// Returns `true` when the lock was acquired — every case except the
    /// exhaustion of [`RETRY_BUDGET`], on which it gives up and returns
    /// `false` with the lock not held.
    pub fn lock(&self) -> bool {
        if cas_acquire_relaxed(&self.futex, UNLOCKED, LOCKED).is_ok() {
            true
        } else {
            self.lock_contended()
        }
    }

    fn lock_contended(&self) -> bool {
        let mut fuel: u64 = RETRY_BUDGET;
        while fuel > 0
            decreases fuel,
        {
            // Mark the lock contended; the swap acquires it if it was free
            // at that instant.
            let prev = self.futex.swap(CONTENDED, Ordering::Acquire);
            if prev == UNLOCKED {
                return true;
            }
            // Sleep while the word still reads CONTENDED.
            let _ = futex_wait::<SHM>(&self.futex, CONTENDED, None);
            fuel = fuel - 1;
        }
        false
    }

    /// Releases the lock. If the prior word was CONTENDED, wakes one
    /// sleeper so that it rechecks the word; an uncontended release makes
    /// no system call.
    ///
    /// Calling this without holding the lock is a precondition violation
    /// of the protocol; the word is reset to UNLOCKED regardless.
    pub fn unlock(&self) {
        if self.futex.swap(UNLOCKED, Ordering::Release) == CONTENDED {
            // Only a contended word can have sleepers.
            let _ = futex_wake::<SHM>(&self.futex);
        }
    }
}

// ------------------------------------------------------------------
// The word's transition system, and mutual exclusion over its runs.
// ------------------------------------------------------------------

/// A state of one mutex: the word, and the set of threads currently inside
/// the critical section (between a successful acquire and the matching
/// release).
pub struct MutexModel {
    pub word: u32,
    pub inside: Set<nat>,
}

/// The atomic events threads perform on one mutex word. Each constructor
/// is one atomic instruction of the executable code above; `t` names the
/// thread performing it. Reentrant acquisition by a thread already inside
/// is unsupported (its accepted outcome is deadlock), so acquire events
/// are steps of threads not inside.
pub enum MutexEvent {
    /// The fast path: a compare-and-swap from UNLOCKED to LOCKED succeeded.
    AcquireCas { t: nat },
    /// The contended path: a swap of the word to CONTENDED, which acquires
    /// the lock exactly when the previous value `prev` was UNLOCKED.
    SwapContended { t: nat, prev: u32 },
    /// Release: a swap of the word to UNLOCKED by the thread inside.
    Unlock { t: nat },
}

/// The initial state: a zero word and nobody inside.
pub open spec fn mutex_init(s: MutexModel) -> bool {
    s.word == UNLOCKED && s.inside == Set::<nat>::empty()
}

/// One legal step: what each atomic event requires of the state it runs
/// from, and how it changes the state.
pub open spec fn mutex_step(pre: MutexModel, ev: MutexEvent, post: MutexModel) -> bool {
    match ev {
        MutexEvent::AcquireCas { t } => {
            &&& pre.word == UNLOCKED
            &&& !pre.inside.contains(t)
            &&& post.word == LOCKED
            &&& post.inside == pre.inside.insert(t)
        },
        MutexEvent::SwapContended { t, prev } => {
            &&& prev == pre.word
            &&& !pre.inside.contains(t)
            &&& post.word == CONTENDED
            &&& post.inside == if prev == UNLOCKED {
                pre.inside.insert(t)
            } else {
                pre.inside
            }
        },
        MutexEvent::Unlock { t } => {
            &&& pre.inside.contains(t)
            &&& post.word == UNLOCKED
            &&& post.inside == pre.inside.remove(t)
        },
    }
}

/// The invariant tying the word to the threads inside: an UNLOCKED word
/// means nobody is inside, and a held word means exactly one thread is.
pub open spec fn mutex_inv(s: MutexModel) -> bool {
    &&& s.inside.finite()
    &&& s.word == UNLOCKED || s.word == LOCKED || s.word == CONTENDED
    &&& (s.word == UNLOCKED ==> s.inside.len() == 0)
    &&& (s.word == LOCKED || s.word == CONTENDED ==> s.inside.len() == 1)
}

/// A run: an interleaving of atomic events by any number of threads,
/// starting from a fresh (zero-word) mutex, each step legal.
pub open spec fn mutex_run(states: Seq<MutexModel>, events: Seq<MutexEvent>) -> bool {
    &&& states.len() == events.len() + 1
    &&& mutex_init(states[0])
    &&& forall|i: int|
        0 <= i < events.len() ==> mutex_step(#[trigger] states[i], events[i], states[i + 1])
}

/// Every legal step preserves the invariant.
pub proof fn lemma_mutex_step_preserves_inv(pre: MutexModel, ev: MutexEvent, post: MutexModel)
    requires
        mutex_inv(pre),
        mutex_step(pre, ev, post),
    ensures
        mutex_inv(post),
{
    broadcast use vstd::set::group_set_axioms;

}

proof fn lemma_mutex_inv_at(states: Seq<MutexModel>, events: Seq<MutexEvent>, i: int)
    requires
        mutex_run(states, events),
        0 <= i < states.len(),
    ensures
        mutex_inv(states[i]),
    decreases i,
{
    broadcast use vstd::set::group_set_axioms;

    if i > 0 {
        lemma_mutex_inv_at(states, events, i - 1);
        lemma_mutex_step_preserves_inv(states[i - 1], events[i - 1], states[i]);
    }
}

/// Mutual exclusion: in any interleaving of any number of threads
/// acquiring and releasing one mutex, no reachable state has more than one
/// thread inside the critical section — a counter incremented on entry and
/// decremented on exit never exceeds one. Moreover an acquire step only
/// ever runs from a state with nobody inside.
pub proof fn lemma_mutual_exclusion(states: Seq<MutexModel>, events: Seq<MutexEvent>, i: int)
    requires
        mutex_run(states, events),
        0 <= i < states.len(),
    ensures
        states[i].inside.len() <= 1,
{
    lemma_mutex_inv_at(states, events, i);
}

/// Zero-initialization: a zero-filled word is a valid, ready-to-use
/// unlocked mutex — it satisfies the initial-state predicate with no
/// construction step, and a single compare-and-swap from it acquires the
/// lock.
pub proof fn lemma_zero_word_is_unlocked(t: nat)
    ensures
        mutex_init(MutexModel { word: 0, inside: Set::<nat>::empty() }),
        mutex_step(
            MutexModel { word: 0, inside: Set::<nat>::empty() },
            MutexEvent::AcquireCas { t },
            MutexModel { word: LOCKED, inside: Set::<nat>::empty().insert(t) },
        ),
{
    broadcast use vstd::set::group_set_axioms;

}

} // verus!
