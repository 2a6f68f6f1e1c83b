//! The lazily-initialized value cell: its full round trip, and failed
//! initializers leaving it empty for a retry.

use futex_sync::OnceLock;

#[test]
fn round_trip_set_get_take() {
    let mut cell: OnceLock<i32> = OnceLock::new();
    // Empty before any set.
    assert!(cell.get().is_none());
    assert!(!cell.is_initialized());
    // The first set succeeds and every later get sees exactly that value.
    assert_eq!(cell.set(92), Ok(()));
    assert_eq!(cell.get(), Some(&92));
    assert_eq!(cell.get(), Some(&92));
    // A second set fails, hands the rejected value back, and leaves the
    // first one intact.
    assert_eq!(cell.set(62), Err(62));
    assert_eq!(cell.get(), Some(&92));
    // Taking the value empties the cell again.
    assert_eq!(cell.take(), Some(92));
    assert!(cell.get().is_none());
    assert_eq!(cell.take(), None);
}

#[test]
fn get_or_init_runs_once() {
    let mut cell = OnceLock::new();
    let value = *cell.get_or_init(|| 92);
    assert_eq!(value, 92);
    // The second initializer does not run; the first value stays.
    let value = *cell.get_or_init(|| 1000);
    assert_eq!(value, 92);
}

#[test]
fn get_or_try_init_failure_leaves_cell_empty() {
    let mut cell: OnceLock<i32> = OnceLock::new();
    assert_eq!(cell.get_or_try_init(|| Err(())), Err(()));
    assert!(cell.get().is_none());
    let value: Result<&i32, ()> = cell.get_or_try_init(|| Ok(92));
    assert_eq!(value, Ok(&92));
    assert_eq!(cell.get(), Some(&92));
}

#[test]
fn get_mut_or_try_init_failure_then_success() {
    let mut cell: OnceLock<u32> = OnceLock::new();
    // Failed initializers do not change the value.
    assert!(cell.get_mut_or_try_init(|| "not a number!".parse::<u32>()).is_err());
    assert!(cell.get().is_none());
    {
        let value = cell.get_mut_or_try_init(|| "1234".parse::<u32>());
        assert_eq!(value, Ok(&mut 1234));
        *value.unwrap() += 2;
    }
    assert_eq!(cell.get(), Some(&1236));
}

#[test]
fn get_mut_or_init_allows_mutation() {
    let mut cell = OnceLock::new();
    {
        let value = cell.get_mut_or_init(|| 92);
        assert_eq!(*value, 92);
        *value += 2;
    }
    assert_eq!(cell.get(), Some(&94));
    let value = cell.get_mut_or_init(|| 1000);
    assert_eq!(*value, 94);
}

#[test]
fn get_mut_reaches_the_stored_value() {
    let mut cell: OnceLock<String> = OnceLock::new();
    assert!(cell.get_mut().is_none());
    cell.set("hello".to_string()).unwrap();
    cell.get_mut().unwrap().push_str(", world");
    assert_eq!(cell.get(), Some(&"hello, world".to_string()));
}

#[test]
fn try_insert_borrows_either_way() {
    let mut cell: OnceLock<i32> = OnceLock::new();
    assert_eq!(cell.try_insert(92), Ok(&92));
    match cell.try_insert(62) {
        Ok(_) => panic!("a full cell accepted a second insert"),
        Err((present, rejected)) => {
            assert_eq!(*present, 92);
            assert_eq!(rejected, 62);
        },
    }
}

#[test]
fn into_inner_returns_the_contents() {
    let cell: OnceLock<String> = OnceLock::new();
    assert_eq!(cell.into_inner(), None);
    let mut cell = OnceLock::new();
    cell.set("hello".to_string()).unwrap();
    assert_eq!(cell.into_inner(), Some("hello".to_string()));
}

#[test]
fn default_is_empty() {
    let cell: OnceLock<u8> = OnceLock::default();
    assert!(cell.get().is_none());
}

#[test]
fn from_value_is_full() {
    let a = OnceLock::from(3);
    assert_eq!(a.get(), Some(&3));
    let mut b = OnceLock::new();
    assert_eq!(b.set(3), Ok(()));
    assert_eq!(a.get(), b.get());
}

#[test]
fn clone_copies_the_contents() {
    let mut cell = OnceLock::new();
    cell.set(5u64).unwrap();
    let copy = cell.clone();
    assert_eq!(copy.get(), Some(&5));
    assert_eq!(cell.take(), Some(5));
    // The copy is its own cell.
    assert_eq!(copy.get(), Some(&5));
}
