use design_patterns::cell::Cell;
use std::rc::Rc;

#[test]
fn new_then_get_returns_initial_value() {
    assert_eq!(Cell::new(42).get(), 42);
    assert_eq!(Cell::new(-7i64).get(), -7);
    assert_eq!(Cell::new('x').get(), 'x');
    assert_eq!(Cell::new((1u8, true)).get(), (1u8, true));
}

#[test]
fn set_then_get_returns_written_value() {
    let mut c = Cell::new(42);
    c.set(43);
    assert_eq!(c.get(), 43);
    c.set(44);
    assert_eq!(c.get(), 44);
    c.set(44);
    assert_eq!(c.get(), 44);
}

#[test]
fn set_to_the_same_value_keeps_it() {
    let mut c = Cell::new(u64::MAX);
    c.set(u64::MAX);
    assert_eq!(c.get(), u64::MAX);
}

#[test]
fn get_leaves_the_value_in_place() {
    let c = Cell::new(5u32);
    assert_eq!(c.get(), 5);
    assert_eq!(c.get(), 5);
}

#[test]
fn set_accepts_values_that_cannot_be_copied() {
    let mut c = Cell::new(String::from("first"));
    c.set(String::from("second"));
    let mut probe = Cell::new(0usize);
    probe.set(1);
    assert_eq!(probe.get(), 1);
}

#[test]
fn every_handle_reads_what_was_written() {
    let mut owner = Rc::new(Cell::new(1));
    Rc::get_mut(&mut owner).unwrap().set(99);
    let h1 = Rc::clone(&owner);
    let h2 = Rc::clone(&owner);
    assert_eq!(h1.get(), 99);
    assert_eq!(h2.get(), 99);
    assert_eq!(owner.get(), 99);
}

#[test]
fn write_through_one_reference_is_seen_by_later_ones() {
    let mut c = Cell::new(0);
    {
        let h1 = &mut c;
        h1.set(99);
    }
    let h2 = &c;
    let h3 = &c;
    assert_eq!(h2.get(), 99);
    assert_eq!(h3.get(), 99);
}

#[test]
fn value_outlives_all_but_the_last_handle() {
    let first = Rc::new(Cell::new(7u8));
    let second = Rc::clone(&first);
    let third = Rc::clone(&second);
    assert_eq!(Rc::strong_count(&first), 3);
    drop(first);
    assert_eq!(second.get(), 7);
    drop(second);
    assert_eq!(Rc::strong_count(&third), 1);
    assert_eq!(third.get(), 7);
    let mut last = third;
    Rc::get_mut(&mut last).unwrap().set(8);
    assert_eq!(last.get(), 8);
}
