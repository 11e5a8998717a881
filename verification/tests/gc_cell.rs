use shreduler::gc_cell::{BorrowError, GcCell};

#[test]
fn test_it_allows_multiple_immutable_borrows() {
    let mut cell = GcCell::new(1);
    let ref1 = cell.try_borrow().unwrap();
    let ref2 = cell.try_borrow().unwrap();
    assert_eq!(*ref1.deref(&cell), 1);
    assert_eq!(*ref2.deref(&cell), 1);
    ref1.release(&mut cell);
    ref2.release(&mut cell);
}

#[test]
fn test_it_disallows_multiple_mut_borrows() {
    let mut cell = GcCell::new(1);
    let ref1 = cell.try_borrow_mut().unwrap();
    assert!(cell.try_borrow_mut().is_err());
    ref1.release(&mut cell);
    let ref2 = cell.try_borrow_mut().unwrap();
    assert!(cell.try_borrow_mut().is_err());
    ref2.release(&mut cell);
}

#[test]
fn test_it_disallows_mixed_borrows() {
    let mut cell = GcCell::new(1);
    let ref1 = cell.try_borrow().unwrap();
    assert!(cell.try_borrow_mut().is_err());
    ref1.release(&mut cell);
    let ref2 = cell.try_borrow_mut().unwrap();
    assert!(cell.try_borrow().is_err());
    ref2.release(&mut cell);
}

#[test]
fn test_it_allows_borrow_after_drop() {
    let mut cell = GcCell::new(1);
    {
        let ref1 = cell.try_borrow().unwrap();
        ref1.release(&mut cell);
    }
    assert!(cell.try_borrow().is_ok());
}

#[test]
fn test_it_allows_mutable_borrow_after_drop() {
    let mut cell = GcCell::new(1);
    {
        let ref1 = cell.try_borrow_mut().unwrap();
        ref1.release(&mut cell);
    }
    assert!(cell.try_borrow_mut().is_ok());
}

#[test]
fn refusals_name_the_outstanding_borrow() {
    let mut cell = GcCell::new(String::from("x"));
    let w = cell.try_borrow_mut().unwrap();
    assert_eq!(cell.try_borrow().err(), Some(BorrowError::AlreadyMutablyBorrowed));
    assert_eq!(cell.try_borrow_mut().err(), Some(BorrowError::AlreadyBorrowed));
    w.release(&mut cell);
    let r = cell.try_borrow().unwrap();
    assert_eq!(cell.try_borrow_mut().err(), Some(BorrowError::AlreadyBorrowed));
    r.release(&mut cell);
}

#[test]
fn mutable_borrow_writes_through() {
    let mut cell = GcCell::new(vec![1u8, 2]);
    let w = cell.try_borrow_mut().unwrap();
    w.deref_mut(&mut cell).push(3);
    assert_eq!(w.deref(&cell), &vec![1u8, 2, 3]);
    w.release(&mut cell);
    let r = cell.try_borrow().unwrap();
    assert_eq!(r.deref(&cell), &vec![1u8, 2, 3]);
    r.release(&mut cell);
}

#[test]
fn release_restores_an_unborrowed_cell() {
    let mut cell = GcCell::new(0u32);
    for _ in 0..3 {
        let r = cell.try_borrow().unwrap();
        r.release(&mut cell);
        let w = cell.try_borrow_mut().unwrap();
        w.release(&mut cell);
    }
    assert!(cell.try_borrow_mut().is_ok());
}

#[test]
fn borrow_for_gc_reads_while_mutably_borrowed() {
    let mut cell = GcCell::new(7i64);
    let w = cell.try_borrow_mut().unwrap();
    assert_eq!(*cell.borrow_for_gc(true), 7);
    w.release(&mut cell);
}

#[test]
fn default_cell_is_unborrowed() {
    let mut cell: GcCell<Vec<u8>> = GcCell::default();
    let w = cell.try_borrow_mut().unwrap();
    assert!(w.deref(&cell).is_empty());
    w.release(&mut cell);
}
