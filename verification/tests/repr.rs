//! The crate documents some details of the representation of its public
//! types: each primitive is one 32-bit word (two for the reader-writer
//! lock), so instances can interoperate across processes over shared
//! memory.

use core::mem::align_of;
use core::mem::size_of;
use futex_sync::shm::Condvar;
use futex_sync::shm::Once;
use futex_sync::shm::RawCondvar;
use futex_sync::shm::RawMutex;
use futex_sync::shm::RawRwLock;

#[test]
fn repr_raw_mutex() {
    assert_eq!(size_of::<RawMutex>(), size_of::<u32>());
    assert_eq!(align_of::<RawMutex>(), align_of::<u32>());
}

#[test]
fn repr_raw_condvar() {
    assert_eq!(size_of::<RawCondvar>(), size_of::<u32>());
    assert_eq!(align_of::<RawCondvar>(), align_of::<u32>());
}

#[test]
fn repr_condvar() {
    assert_eq!(size_of::<Condvar>(), size_of::<u32>());
    assert_eq!(align_of::<Condvar>(), align_of::<u32>());
}

#[test]
fn repr_once() {
    assert_eq!(size_of::<Once>(), size_of::<u32>());
    assert_eq!(align_of::<Once>(), align_of::<u32>());
}

#[test]
fn repr_raw_rwlock() {
    assert_eq!(size_of::<RawRwLock>(), size_of::<[u32; 2]>());
    assert_eq!(align_of::<RawRwLock>(), align_of::<[u32; 2]>());
}

#[test]
fn repr_private_types_match_shared() {
    assert_eq!(size_of::<futex_sync::RawMutex>(), size_of::<u32>());
    assert_eq!(size_of::<futex_sync::RawCondvar>(), size_of::<u32>());
    assert_eq!(size_of::<futex_sync::Once>(), size_of::<u32>());
    assert_eq!(size_of::<futex_sync::RawRwLock>(), size_of::<[u32; 2]>());
}
