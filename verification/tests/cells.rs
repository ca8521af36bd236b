use shared_prims::cell::MutableCell;
use shared_prims::errors::BorrowConflict;

#[test]
fn shared_borrow_blocks_exclusive_until_released() {
    let mut cell = MutableCell::new(10u32);
    let shared = cell.borrow_shared().ok().unwrap();
    assert_eq!(*cell.read(&shared), 10);

    // While the shared borrow is held, an exclusive request fails.
    match cell.borrow_exclusive() {
        Err(BorrowConflict) => {},
        Ok(_) => panic!("exclusive borrow granted beside a shared one"),
    }

    // After the shared borrow is released, the same request succeeds.
    cell.release_shared(shared);
    let exclusive = cell.borrow_exclusive().ok().unwrap();
    cell.write(&exclusive, 11);
    assert_eq!(*cell.read_exclusive(&exclusive), 11);
    cell.release_exclusive(exclusive);
}

#[test]
fn shared_borrows_coexist() {
    let mut cell = MutableCell::new(5i32);
    let first = cell.borrow_shared().ok().unwrap();
    // A second shared borrow never fails while no exclusive one is out.
    let second = cell.borrow_shared().ok().unwrap();
    let third = cell.borrow_shared().ok().unwrap();
    assert_eq!(cell.reader_count(), 3);
    assert_eq!(*cell.read(&first), 5);
    assert_eq!(*cell.read(&second), 5);
    cell.release_shared(third);
    cell.release_shared(second);
    assert_eq!(cell.reader_count(), 1);
    cell.release_shared(first);
    assert_eq!(cell.reader_count(), 0);
}

#[test]
fn exclusive_borrow_blocks_everything() {
    let mut cell = MutableCell::new(0u8);
    let guard = cell.borrow_exclusive().ok().unwrap();
    assert!(cell.is_exclusive());
    assert!(cell.borrow_shared().is_err());
    assert!(cell.borrow_exclusive().is_err());
    let old = cell.replace(&guard, 200);
    assert_eq!(old, 0);
    cell.release_exclusive(guard);
    assert!(!cell.is_exclusive());
    let shared = cell.borrow_shared().ok().unwrap();
    assert_eq!(*cell.read(&shared), 200);
    cell.release_shared(shared);
}
