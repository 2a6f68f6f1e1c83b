//! Atomic compare-and-swap with its documented contract.
//!
//! The plain atomic operations (`load`, `store`, `swap`, `fetch_add`,
//! `fetch_sub`) are used directly: nothing is assumed of the values they
//! see, since other threads mutate the word concurrently. Compare-and-swap
//! is the one operation whose result carries a documented fact worth
//! stating: the returned previous value relates to the expected one.
//!
//! `compare_exchange` panics when its failure ordering is `Release` or
//! `AcqRel`, and orderings are opaque to specifications, so a single
//! wrapper taking the orderings as parameters could not exclude the
//! panicking inputs. Instead there is one wrapper per (success, failure)
//! ordering pair this crate uses, each pair baked in and none panicking.
//! All four share the same contract, which is what the documentation
//! promises of `compare_exchange` for every ordering: the result holds the
//! previous value of the word; on success that value is the expected one,
//! and on failure it is the value that made the exchange fail, which is
//! different from the expected one.

use core::sync::atomic::AtomicU32;
use core::sync::atomic::Ordering;
use vstd::prelude::*;

verus! {

/// Relies on core::sync::atomic::AtomicU32::compare_exchange with
/// `Acquire` success and `Relaxed` failure ordering: the lock-acquire
/// pair.
#[verifier::external_body]
pub(crate) fn cas_acquire_relaxed(word: &AtomicU32, current: u32, new: u32) -> (r: Result<
    u32,
    u32,
>)
    ensures
        r is Ok ==> r->Ok_0 == current,
        r is Err ==> r->Err_0 != current,
{
    word.compare_exchange(current, new, Ordering::Acquire, Ordering::Relaxed)
}

/// Relies on core::sync::atomic::AtomicU32::compare_exchange with
/// `Relaxed` orderings on both sides: for control bits whose
/// synchronization the kernel's wait/wake provides.
#[verifier::external_body]
pub(crate) fn cas_relaxed_relaxed(word: &AtomicU32, current: u32, new: u32) -> (r: Result<
    u32,
    u32,
>)
    ensures
        r is Ok ==> r->Ok_0 == current,
        r is Err ==> r->Err_0 != current,
{
    word.compare_exchange(current, new, Ordering::Relaxed, Ordering::Relaxed)
}

/// Relies on core::sync::atomic::AtomicU32::compare_exchange with
/// `Acquire` ordering on both sides: for a state read that must observe an
/// earlier publish whichever way the exchange goes.
#[verifier::external_body]
pub(crate) fn cas_acquire_acquire(word: &AtomicU32, current: u32, new: u32) -> (r: Result<
    u32,
    u32,
>)
    ensures
        r is Ok ==> r->Ok_0 == current,
        r is Err ==> r->Err_0 != current,
{
    word.compare_exchange(current, new, Ordering::Acquire, Ordering::Acquire)
}

/// Relies on core::sync::atomic::AtomicU32::compare_exchange with
/// `Relaxed` success and `Acquire` failure ordering: a control-bit write
/// whose failure path re-reads a possibly published state.
#[verifier::external_body]
pub(crate) fn cas_relaxed_acquire(word: &AtomicU32, current: u32, new: u32) -> (r: Result<
    u32,
    u32,
>)
    ensures
        r is Ok ==> r->Ok_0 == current,
        r is Err ==> r->Err_0 != current,
{
    word.compare_exchange(current, new, Ordering::Relaxed, Ordering::Acquire)
}

} // verus!
