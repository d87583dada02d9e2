use borrow_cell::cell::Cell;
use borrow_cell::ref_cell::RefCell;

#[test]
fn write_guard_shuts_readers_out_until_released() {
    let mut cell = RefCell::new(5);
    let g1 = cell.borrow_mut();
    assert!(g1.is_some());
    assert!(cell.borrow().is_none());
    g1.unwrap().release(&mut cell);
    assert!(cell.borrow().is_some());
}

#[test]
fn read_guards_shut_the_writer_out_until_all_released() {
    let mut cell = RefCell::new(5);
    let g1 = cell.borrow().unwrap();
    let g2 = cell.borrow().unwrap();
    assert_eq!(*g1.get(&cell), 5);
    assert_eq!(*g2.get(&cell), 5);
    assert!(cell.borrow_mut().is_none());
    g1.release(&mut cell);
    assert!(cell.borrow_mut().is_none());
    g2.release(&mut cell);
    assert!(cell.borrow_mut().is_some());
}

#[test]
fn value_written_through_write_guard_is_read_afterwards() {
    let mut cell = RefCell::new(5);
    let writer = cell.borrow_mut().unwrap();
    *writer.get(&mut cell) = 42;
    writer.release(&mut cell);
    let reader = cell.borrow().unwrap();
    assert_eq!(*reader.get(&cell), 42);
}

#[test]
fn single_cell_returns_what_was_set_last() {
    let mut cell = Cell::new(0);
    cell.set(7);
    assert_eq!(cell.get(), 7);
    cell.set(9);
    assert_eq!(cell.get(), 9);
}
