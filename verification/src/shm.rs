//! The shared-memory variants.
//!
//! The types here behave exactly as the ones at the top level of the
//! crate, except that their wait and wake calls target the kernel's
//! shared (cross-process) queue rather than the private one, so they can
//! be used on memory shared with other processes. Every thread and
//! process sharing one instance's memory must use the same scope.

use vstd::prelude::*;

verus! {

pub type Once = crate::generic::Once<true>;

pub type Condvar = crate::generic::Condvar<true>;

pub type RawCondvar = crate::generic::RawCondvar<true>;

pub type RawMutex = crate::generic::RawMutex<true>;

pub type RawRwLock = crate::generic::RawRwLock<true>;

} // verus!
