//! The reader-writer lock: shared or exclusive locking over two 32-bit
//! words.
//!
//! The primary word packs the whole state: its low 30 bits count active
//! readers, with the all-ones value of those bits meaning write-locked;
//! bit 30 records that readers are waiting and bit 31 that writers are.
//! The second word only counts writer notifications, so a pending writer
//! can snapshot it before re-checking the state and park without missing
//! a wakeup — the same snapshot-then-park discipline the condition
//! variable uses.
//!
//! Writers are preferred: a set writers-waiting bit makes the word not
//! read-lockable, so arriving readers queue instead of starving a pending
//! writer; a reader releasing last hands off to a writer with a single
//! wake, and a writer releasing wakes all queued readers at once. Under
//! this policy a steady stream of writers can delay readers; what cannot
//! happen is a write lock coexisting with any other lock, proved over
//! every interleaving at the end of this file.

use core::sync::atomic::AtomicU32;
use core::sync::atomic::Ordering;
use crate::atomics::cas_acquire_relaxed;
use crate::atomics::cas_relaxed_relaxed;
use crate::wait_wake::futex_wait;
use crate::wait_wake::futex_wake;
use crate::wait_wake::futex_wake_all;
use crate::wait_wake::RETRY_BUDGET;
use vstd::prelude::*;

verus! {

/// One reader in the low bits of the primary word.
pub const READ_LOCKED: u32 = 1;

/// The low 30 bits of the primary word: the reader count, or, at its
/// all-ones value, the write-locked marker.
pub const MASK: u32 = 0x3fff_ffff;

/// The reader-count field at its all-ones value: write-locked.
pub const WRITE_LOCKED: u32 = 0x3fff_ffff;

/// The largest representable count of simultaneous readers.
pub const MAX_READERS: u32 = 0x3fff_fffe;

/// Bit 30: at least one reader is waiting.
pub const READERS_WAITING: u32 = 0x4000_0000;

/// Bit 31: at least one writer is waiting.
pub const WRITERS_WAITING: u32 = 0x8000_0000;

/// Neither read- nor write-locked.
pub open spec fn is_unlocked(s: u32) -> bool {
    s & MASK == 0
}

/// Write-locked: the reader-count field at its all-ones value.
pub open spec fn is_write_locked(s: u32) -> bool {
    s & MASK == WRITE_LOCKED
}

/// The number of active readers a word encodes: the count field, except
/// that the write-locked marker means no readers at all. Thus a word
/// never encodes both a write lock and a positive reader count.
pub open spec fn readers_of(s: u32) -> u32 {
    if is_write_locked(s) {
        0
    } else {
        s & MASK
    }
}

pub open spec fn has_readers_waiting(s: u32) -> bool {
    s & READERS_WAITING != 0
}

pub open spec fn has_writers_waiting(s: u32) -> bool {
    s & WRITERS_WAITING != 0
}

/// A reader may join: capacity remains and nobody waits — arriving
/// readers defer to queued writers (and queued readers) rather than
/// overtake them.
pub open spec fn is_read_lockable(s: u32) -> bool {
    s & MASK < MAX_READERS && !has_readers_waiting(s) && !has_writers_waiting(s)
}

/// The data-model invariant of the encoding itself: a positive reader
/// count and the write-locked marker exclude each other, in both
/// directions, because they share one field.
pub proof fn lemma_word_encoding_exclusive(s: u32)
    ensures
        readers_of(s) > 0 ==> !is_write_locked(s),
        is_write_locked(s) ==> readers_of(s) == 0,
{
}

fn read_lockable(s: u32) -> (r: bool)
    ensures
        r == is_read_lockable(s),
{
    s & MASK < MAX_READERS && s & READERS_WAITING == 0 && s & WRITERS_WAITING == 0
}

fn unlocked(s: u32) -> (r: bool)
    ensures
        r == is_unlocked(s),
{
    s & MASK == 0
}

proof fn lemma_read_lockable_no_overflow(s: u32)
    requires
        is_read_lockable(s),
    ensures
        s < 0xffff_ffffu32,
{
    assert(s & 0x3fff_ffffu32 < 0x3fff_fffeu32 ==> s < 0xffff_ffffu32) by (bit_vector);
}

/// A futex-based reader-writer lock: a state word and a writer-notify
/// word. A zero-filled pair is a valid unlocked instance.
///
/// `SHM` selects the private or shared kernel queue, fixed per instance.
pub struct RwLock<const SHM: bool> {
    state: AtomicU32,
    writer_notify: AtomicU32,
}

impl<const SHM: bool> RwLock<SHM> {
    /// A new unlocked lock: both words are zero.
    pub fn new() -> RwLock<SHM> {
        RwLock { state: AtomicU32::new(0), writer_notify: AtomicU32::new(0) }
    }

    /// Tries once to acquire a shared lock without blocking; may fail
    /// spuriously when racing another state change.
    pub fn try_read(&self) -> bool {
        let s = self.state.load(Ordering::Relaxed);
        if read_lockable(s) {
            proof {
                lemma_read_lockable_no_overflow(s);
            }
            cas_acquire_relaxed(&self.state, s, s + READ_LOCKED).is_ok()
        } else {
            false
        }
    }

    /// Acquires a shared lock, sleeping while a writer holds the lock or
    /// a waiting bit defers arriving readers.
    ///
    /// Returns `true` when the shared lock was acquired — every case but
    /// the exhaustion of [`RETRY_BUDGET`].
    pub fn read(&self) -> bool {
        let s = self.state.load(Ordering::Relaxed);
        if read_lockable(s) {
            proof {
                lemma_read_lockable_no_overflow(s);
            }
            if cas_acquire_relaxed(&self.state, s, s + READ_LOCKED).is_ok() {
                return true;
            }
        }
        self.read_contended()
    }

    fn read_contended(&self) -> bool {
        let mut state = self.state.load(Ordering::Relaxed);
        let mut fuel: u64 = RETRY_BUDGET;
        while fuel > 0
            decreases fuel,
        {
            fuel = fuel - 1;
            // If we can lock it, lock it.
            if read_lockable(state) {
                proof {
                    lemma_read_lockable_no_overflow(state);
                }
                match cas_acquire_relaxed(&self.state, state, state + READ_LOCKED) {
                    Ok(_) => {
                        return true;
                    },
                    Err(new) => {
                        state = new;
                        continue;
                    },
                }
            }
            // A full reader-count field (a protocol violation: more
            // simultaneous readers than the word can count) is treated as
            // not lockable and waits like everyone else.
            // Make sure the readers-waiting bit is set before parking.
            if state & READERS_WAITING == 0 {
                if let Err(new) = cas_relaxed_relaxed(&self.state, state, state | READERS_WAITING) {
                    state = new;
                    continue;
                }
                state = state | READERS_WAITING;
            }
            // Sleep while the word is unchanged.
            let _ = futex_wait::<SHM>(&self.state, state, None);
            state = self.state.load(Ordering::Relaxed);
        }
        false
    }

    /// Releases a shared lock. The last reader leaving hands off to a
    /// waiting writer with a single wake.
    pub fn read_unlock(&self) {
        let prev = self.state.fetch_sub(READ_LOCKED, Ordering::Release);
        let state = prev.wrapping_sub(READ_LOCKED);
        // Wake a writer if we were the last reader and a writer waits.
        if unlocked(state) && state & WRITERS_WAITING != 0 {
            self.wake_writer_or_readers(state);
        }
    }

    /// Tries once to acquire the exclusive lock without blocking; may
    /// fail spuriously when racing another state change.
    pub fn try_write(&self) -> bool {
        let s = self.state.load(Ordering::Relaxed);
        if unlocked(s) {
            cas_acquire_relaxed(&self.state, s, s | WRITE_LOCKED).is_ok()
        } else {
            false
        }
    }

    /// Acquires the exclusive lock, sleeping while any lock is held.
    ///
    /// Returns `true` when the exclusive lock was acquired — every case
    /// but the exhaustion of [`RETRY_BUDGET`].
    pub fn write(&self) -> bool {
        let s = self.state.load(Ordering::Relaxed);
        if unlocked(s) {
            if cas_acquire_relaxed(&self.state, s, s | WRITE_LOCKED).is_ok() {
                return true;
            }
        }
        self.write_contended()
    }

    fn write_contended(&self) -> bool {
        let mut state = self.state.load(Ordering::Relaxed);
        // Once this thread has set the writers-waiting bit, other writers
        // may be queuing behind it, so the bit is kept set on acquisition.
        let mut other_writers_waiting: u32 = 0;
        let mut fuel: u64 = RETRY_BUDGET;
        while fuel > 0
            invariant
                other_writers_waiting == 0 || other_writers_waiting == WRITERS_WAITING,
            decreases fuel,
        {
            fuel = fuel - 1;
            // If it's unlocked, try to lock it, keeping the waiting bit
            // for the writers possibly queued behind this one.
            if unlocked(state) {
                match cas_acquire_relaxed(
                    &self.state,
                    state,
                    state | WRITE_LOCKED | other_writers_waiting,
                ) {
                    Ok(_) => {
                        return true;
                    },
                    Err(new) => {
                        state = new;
                        continue;
                    },
                }
            }
            // Set the waiting bit indicating that this writer is waiting.
            if state & WRITERS_WAITING == 0 {
                if let Err(new) = cas_relaxed_relaxed(&self.state, state, state | WRITERS_WAITING) {
                    state = new;
                    continue;
                }
                other_writers_waiting = WRITERS_WAITING;
            }
            // Snapshot the notification counter before re-checking the
            // state, so a notification in between is not missed.
            let seq = self.writer_notify.load(Ordering::Acquire);
            // Don't go to sleep if the lock has become available, or if
            // the writers-waiting bit is no longer set.
            state = self.state.load(Ordering::Relaxed);
            if unlocked(state) || state & WRITERS_WAITING == 0 {
                continue;
            }
            // Sleep until a writer notification arrives.
            let _ = futex_wait::<SHM>(&self.writer_notify, seq, None);
            state = self.state.load(Ordering::Relaxed);
        }
        false
    }

    /// Releases the exclusive lock, waking the class of waiters that can
    /// now proceed: one writer for handoff, or all queued readers.
    pub fn write_unlock(&self) {
        let prev = self.state.fetch_sub(WRITE_LOCKED, Ordering::Release);
        let state = prev.wrapping_sub(WRITE_LOCKED);
        if unlocked(state) && (state & READERS_WAITING != 0 || state & WRITERS_WAITING != 0) {
            self.wake_writer_or_readers(state);
        }
    }

    fn wake_writer_or_readers(&self, state: u32)
        requires
            is_unlocked(state),
    {
        let mut s = state;
        // Both classes are waiting: prefer the writer, and leave the
        // readers-waiting bit set for it to hand over on its release.
        if s == READERS_WAITING + WRITERS_WAITING {
            if cas_relaxed_relaxed(&self.state, s, READERS_WAITING).is_err() {
                // The lock got locked in between: whoever did will wake.
                return;
            }
            if self.wake_writer() {
                return;
            }
            // No writer was actually parked yet (it is between setting
            // its bit and parking, and will re-check): wake the readers.
            s = READERS_WAITING;
        }
        if s == READERS_WAITING {
            if cas_relaxed_relaxed(&self.state, s, 0).is_ok() {
                futex_wake_all::<SHM>(&self.state);
            }
            return;
        }
        if s == WRITERS_WAITING {
            if cas_relaxed_relaxed(&self.state, s, 0).is_ok() {
                let _ = self.wake_writer();
            }
        }
    }

    /// Bumps the writer-notification word and wakes one pending writer.
    /// Returns whether a writer was actually woken.
    fn wake_writer(&self) -> bool {
        self.writer_notify.fetch_add(1, Ordering::Release);
        futex_wake::<SHM>(&self.writer_notify)
    }
}

// ------------------------------------------------------------------
// The word's transition system: reader-writer exclusivity.
// ------------------------------------------------------------------

/// A state of one lock: the reader-count field of the word (`n`, with the
/// all-ones value meaning write-locked), the set of threads holding a
/// shared lock, and the set holding the exclusive lock.
pub struct RwLockModel {
    pub n: u32,
    pub readers: Set<nat>,
    pub writers: Set<nat>,
}

/// The atomic events threads perform on the count field; the waiting bits
/// only defer acquisitions and never change who holds what, so they do
/// not appear here. `t` names the thread; reentrant acquisition is
/// unsupported, so acquire events are steps of threads not already
/// holding.
pub enum RwLockEvent {
    /// A compare-and-swap incremented the reader count from a
    /// read-lockable word.
    AcquireRead { t: nat },
    /// A reader's release decremented the count.
    ReleaseRead { t: nat },
    /// A compare-and-swap moved the count field from zero to all-ones.
    AcquireWrite { t: nat },
    /// The writer's release moved the count field back to zero.
    ReleaseWrite { t: nat },
    /// Downgrade: one atomic transition from write-locked to exactly one
    /// reader, never releasing in between, so no other writer can
    /// intervene.
    Downgrade { t: nat },
}

/// The initial state: a zero word, nobody holding anything.
pub open spec fn rw_init(s: RwLockModel) -> bool {
    &&& s.n == 0
    &&& s.readers == Set::<nat>::empty()
    &&& s.writers == Set::<nat>::empty()
}

/// One legal step.
pub open spec fn rw_step(pre: RwLockModel, ev: RwLockEvent, post: RwLockModel) -> bool {
    match ev {
        RwLockEvent::AcquireRead { t } => {
            &&& pre.n < MAX_READERS
            &&& !pre.readers.contains(t)
            &&& post == RwLockModel { n: (pre.n + 1) as u32, readers: pre.readers.insert(t), ..pre }
        },
        RwLockEvent::ReleaseRead { t } => {
            &&& pre.readers.contains(t)
            &&& pre.n >= 1
            &&& post == RwLockModel { n: (pre.n - 1) as u32, readers: pre.readers.remove(t), ..pre }
        },
        RwLockEvent::AcquireWrite { t } => {
            &&& pre.n == 0
            &&& !pre.writers.contains(t)
            &&& post == RwLockModel { n: WRITE_LOCKED, writers: pre.writers.insert(t), ..pre }
        },
        RwLockEvent::ReleaseWrite { t } => {
            &&& pre.writers.contains(t)
            &&& post == RwLockModel { n: 0, writers: pre.writers.remove(t), ..pre }
        },
        RwLockEvent::Downgrade { t } => {
            &&& pre.writers.contains(t)
            &&& post == RwLockModel {
                n: READ_LOCKED,
                readers: pre.readers.insert(t),
                writers: pre.writers.remove(t),
            }
        },
    }
}

/// The invariant tying the count field to the holders: the field counts
/// the readers exactly, and its all-ones value stands for exactly one
/// writer and no readers.
pub open spec fn rw_inv(s: RwLockModel) -> bool {
    &&& s.readers.finite()
    &&& s.writers.finite()
    &&& s.n <= MASK
    &&& s.writers.len() <= 1
    &&& (s.n == WRITE_LOCKED <==> s.writers.len() == 1)
    &&& (s.n != WRITE_LOCKED ==> s.readers.len() == s.n)
    &&& (s.n == WRITE_LOCKED ==> s.readers.len() == 0)
}

/// A run: an interleaving of events by any number of threads, starting
/// from a fresh (zero-word) lock, each step legal.
pub open spec fn rw_run(states: Seq<RwLockModel>, events: Seq<RwLockEvent>) -> bool {
    &&& states.len() == events.len() + 1
    &&& rw_init(states[0])
    &&& forall|i: int|
        0 <= i < events.len() ==> rw_step(#[trigger] states[i], events[i], states[i + 1])
}

/// Every legal step preserves the invariant.
pub proof fn lemma_rw_step_preserves_inv(pre: RwLockModel, ev: RwLockEvent, post: RwLockModel)
    requires
        rw_inv(pre),
        rw_step(pre, ev, post),
    ensures
        rw_inv(post),
{
    broadcast use vstd::set::group_set_axioms;

}

proof fn lemma_rw_inv_at(states: Seq<RwLockModel>, events: Seq<RwLockEvent>, i: int)
    requires
        rw_run(states, events),
        0 <= i < states.len(),
    ensures
        rw_inv(states[i]),
    decreases i,
{
    broadcast use vstd::set::group_set_axioms;

    if i > 0 {
        lemma_rw_inv_at(states, events, i - 1);
        lemma_rw_step_preserves_inv(states[i - 1], events[i - 1], states[i]);
    }
}

/// Reader-writer exclusivity: in any interleaving, no reachable state has
/// a successful write-acquire coexisting with any read- or write-acquire
/// — a held write lock means exactly one writer and no readers at all.
pub proof fn lemma_rw_exclusivity(states: Seq<RwLockModel>, events: Seq<RwLockEvent>, i: int)
    requires
        rw_run(states, events),
        0 <= i < states.len(),
    ensures
        states[i].writers.len() <= 1,
        states[i].writers.len() == 1 ==> states[i].readers.len() == 0,
{
    lemma_rw_inv_at(states, events, i);
}

/// The first `k` thread names.
pub open spec fn first_threads(k: nat) -> Set<nat> {
    Set::new(|x: nat| x < k)
}

proof fn lemma_first_threads(k: nat)
    ensures
        first_threads(k).finite(),
        first_threads(k).len() == k,
    decreases k,
{
    broadcast use vstd::set::group_set_axioms;

    if k == 0 {
        assert(first_threads(0) =~= Set::<nat>::empty());
    } else {
        let j = (k - 1) as nat;
        lemma_first_threads(j);
        assert(first_threads(k) =~= first_threads(j).insert(j));
    }
}

/// The run in which threads `0 .. n` each acquire a shared lock and
/// nobody releases: after `i` steps, `i` readers hold the lock at once.
pub open spec fn reader_pileup_states(n: nat) -> Seq<RwLockModel> {
    Seq::new(
        n + 1,
        |i: int|
            RwLockModel {
                n: i as u32,
                readers: first_threads(i as nat),
                writers: Set::<nat>::empty(),
            },
    )
}

pub open spec fn reader_pileup_events(n: nat) -> Seq<RwLockEvent> {
    Seq::new(n, |i: int| RwLockEvent::AcquireRead { t: i as nat })
}

/// Readers coexist, constructively: for any count up to the capacity,
/// the interleaving in which that many threads acquire shared locks is a
/// legal run, and it ends with all of them holding the lock at once.
pub proof fn lemma_n_readers_reachable(n: nat)
    requires
        n <= MAX_READERS,
    ensures
        rw_run(reader_pileup_states(n), reader_pileup_events(n)),
        reader_pileup_states(n)[n as int].readers.len() == n,
{
    broadcast use vstd::set::group_set_axioms;

    let states = reader_pileup_states(n);
    let events = reader_pileup_events(n);
    assert(states[0] =~= RwLockModel {
        n: 0,
        readers: Set::<nat>::empty(),
        writers: Set::<nat>::empty(),
    }) by {
        assert(first_threads(0) =~= Set::<nat>::empty());
    }
    assert forall|i: int| 0 <= i < events.len() implies rw_step(
        #[trigger] states[i],
        events[i],
        states[i + 1],
    ) by {
        let k = i as nat;
        lemma_first_threads(k);
        assert(!first_threads(k).contains(k));
        assert(first_threads(k + 1) =~= first_threads(k).insert(k));
    }
    lemma_first_threads(n);
}

/// Readers coexist: from any state satisfying the invariant with no
/// writer and reader capacity left, one more reader can always join, so
/// any number of concurrent readers up to the capacity can hold the lock
/// at once.
pub proof fn lemma_readers_can_coexist(s: RwLockModel, t: nat)
    requires
        rw_inv(s),
        s.writers.len() == 0,
        s.n < MAX_READERS,
        !s.readers.contains(t),
    ensures
        rw_step(
            s,
            RwLockEvent::AcquireRead { t },
            RwLockModel { n: (s.n + 1) as u32, readers: s.readers.insert(t), ..s },
        ),
{
}

} // verus!
