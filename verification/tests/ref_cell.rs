use borrow_cell::ref_cell::{Ref, RefCell, RefMut};

#[test]
fn new_cell_grants_a_reader() {
    let mut cell = RefCell::new(String::from("payload"));
    let guard = cell.borrow().unwrap();
    assert_eq!(guard.get(&cell).as_str(), "payload");
}

#[test]
fn new_cell_grants_the_writer() {
    let mut cell = RefCell::new(3u32);
    let guard = cell.borrow_mut().unwrap();
    assert_eq!(*guard.get(&mut cell), 3);
}

#[test]
fn writer_excludes_second_writer_and_readers() {
    let mut cell = RefCell::new(1);
    let writer = cell.borrow_mut().unwrap();
    assert!(cell.borrow_mut().is_none());
    assert!(cell.borrow().is_none());
    assert!(cell.borrow_mut().is_none());
    writer.release(&mut cell);
    let second = cell.borrow_mut();
    assert!(second.is_some());
    assert!(cell.borrow().is_none());
}

#[test]
fn any_reader_excludes_the_writer() {
    let mut cell = RefCell::new(1);
    let mut guards: Vec<Ref<i32>> = Vec::new();
    for _ in 0..3 {
        guards.push(cell.borrow().unwrap());
        assert!(cell.borrow_mut().is_none());
    }
    while let Some(guard) = guards.pop() {
        assert!(cell.borrow_mut().is_none());
        guard.release(&mut cell);
    }
    assert!(cell.borrow_mut().is_some());
}

#[test]
fn a_thousand_readers_are_alive_together() {
    let mut cell = RefCell::new(77u16);
    let mut guards: Vec<Ref<u16>> = Vec::new();
    for _ in 0..1000 {
        guards.push(cell.borrow().unwrap());
    }
    assert_eq!(guards.len(), 1000);
    for guard in guards.iter() {
        assert_eq!(*guard.get(&cell), 77);
    }
    let last = guards.pop().unwrap();
    for guard in guards {
        guard.release(&mut cell);
        assert!(cell.borrow_mut().is_none());
    }
    last.release(&mut cell);
    assert!(cell.borrow_mut().is_some());
}

#[test]
fn readers_may_be_released_in_any_order() {
    let mut cell = RefCell::new(0u8);
    let a = cell.borrow().unwrap();
    let b = cell.borrow().unwrap();
    let c = cell.borrow().unwrap();
    b.release(&mut cell);
    assert!(cell.borrow_mut().is_none());
    a.release(&mut cell);
    assert!(cell.borrow_mut().is_none());
    c.release(&mut cell);
    assert!(cell.borrow_mut().is_some());
}

#[test]
fn releasing_every_guard_makes_both_requests_succeed_again() {
    let mut cell = RefCell::new(8);
    let a = cell.borrow().unwrap();
    let b = cell.borrow().unwrap();
    a.release(&mut cell);
    b.release(&mut cell);
    let reader = cell.borrow();
    assert!(reader.is_some());
    reader.unwrap().release(&mut cell);
    let writer = cell.borrow_mut();
    assert!(writer.is_some());
    writer.unwrap().release(&mut cell);
    assert!(cell.borrow().is_some());
}

#[test]
fn cell_is_reusable_over_many_rounds() {
    let mut cell = RefCell::new(0u32);
    for round in 0..50u32 {
        let writer = cell.borrow_mut().unwrap();
        *writer.get(&mut cell) = round;
        writer.release(&mut cell);
        let reader = cell.borrow().unwrap();
        assert_eq!(*reader.get(&cell), round);
        reader.release(&mut cell);
    }
}

#[test]
fn denied_reader_changes_neither_state_nor_payload() {
    let mut cell = RefCell::new(11);
    let writer = cell.borrow_mut().unwrap();
    for _ in 0..4 {
        assert!(cell.borrow().is_none());
    }
    assert_eq!(*writer.get(&mut cell), 11);
    assert!(cell.borrow_mut().is_none());
    writer.release(&mut cell);
    let regained: Option<RefMut<i32>> = cell.borrow_mut();
    assert!(regained.is_some());
    assert_eq!(*regained.unwrap().get(&mut cell), 11);
}

#[test]
fn denied_writer_changes_neither_state_nor_payload() {
    let mut cell = RefCell::new(11);
    let first = cell.borrow().unwrap();
    let second = cell.borrow().unwrap();
    for _ in 0..4 {
        assert!(cell.borrow_mut().is_none());
    }
    assert_eq!(*first.get(&cell), 11);
    first.release(&mut cell);
    assert!(cell.borrow_mut().is_none());
    assert_eq!(*second.get(&cell), 11);
    second.release(&mut cell);
    assert!(cell.borrow_mut().is_some());
}

#[test]
fn writes_through_the_guard_accumulate() {
    let mut cell = RefCell::new(vec![1, 2]);
    let writer = cell.borrow_mut().unwrap();
    writer.get(&mut cell).push(3);
    writer.get(&mut cell).push(4);
    assert_eq!(writer.get(&mut cell).len(), 4);
    writer.release(&mut cell);
    let reader = cell.borrow().unwrap();
    assert_eq!(*reader.get(&cell), vec![1, 2, 3, 4]);
}

#[test]
fn guard_reads_the_payload_in_place() {
    let mut cell = RefCell::new([9u8; 64]);
    let a = cell.borrow().unwrap();
    let b = cell.borrow().unwrap();
    assert!(std::ptr::eq(a.get(&cell), b.get(&cell)));
}
