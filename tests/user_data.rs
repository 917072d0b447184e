use std::rc::Rc;
use weston_rs::desktop::DesktopSurfaceRef;
use weston_rs::user_data::UserDataTable;

#[derive(Debug, PartialEq)]
struct Payload {
    focus_count: i16,
    name: String,
}

fn payload(n: i16, name: &str) -> Payload {
    Payload { focus_count: n, name: name.to_string() }
}

#[test]
fn set_then_get_round_trip() {
    let mut table = UserDataTable::new();
    let dsurf = DesktopSurfaceRef::from_ptr(0x5000).unwrap();
    assert!(dsurf.set_user_data(&mut table, payload(1, "term")).is_none());
    assert_eq!(dsurf.get_user_data(&mut table), Some(payload(1, "term")));
    assert_eq!(dsurf.get_user_data(&mut table), None);
    assert!(!table.has_user_data(0x5000));
}

#[test]
fn set_twice_returns_first_payload() {
    let mut table = UserDataTable::new();
    assert_eq!(table.set_user_data(0x5000, payload(1, "first")), None);
    assert_eq!(table.set_user_data(0x5000, payload(2, "second")), Some(payload(1, "first")));
    assert_eq!(table.borrow_user_data(0x5000), Some(&payload(2, "second")));
    assert_eq!(table.get_user_data(0x5000), Some(payload(2, "second")));
}

#[test]
fn borrow_does_not_take() {
    let mut table = UserDataTable::new();
    let dsurf = DesktopSurfaceRef::from_ptr(0x7000).unwrap();
    assert!(dsurf.borrow_user_data(&table).is_none());
    dsurf.set_user_data(&mut table, payload(3, "x"));
    assert_eq!(dsurf.borrow_user_data(&table).map(|p| p.focus_count), Some(3));
    assert_eq!(dsurf.borrow_user_data(&table).map(|p| p.focus_count), Some(3));
    assert!(table.has_user_data(0x7000));
}

#[test]
fn unset_clears_only_its_slot() {
    let mut table = UserDataTable::new();
    table.set_user_data(0x1000, payload(1, "a"));
    table.set_user_data(0x2000, payload(2, "b"));
    table.unset_user_data(0x1000);
    assert_eq!(table.borrow_user_data(0x1000), None);
    assert_eq!(table.borrow_user_data(0x2000), Some(&payload(2, "b")));
    table.unset_user_data(0x3000);
    assert_eq!(table.get_user_data(0x2000), Some(payload(2, "b")));
}

#[test]
fn unset_drops_payload_once() {
    let marker = Rc::new(());
    let mut table = UserDataTable::new();
    table.set_user_data(0x1000, Rc::clone(&marker));
    assert_eq!(Rc::strong_count(&marker), 2);
    table.unset_user_data(0x1000);
    assert_eq!(Rc::strong_count(&marker), 1);
    table.unset_user_data(0x1000);
    assert_eq!(Rc::strong_count(&marker), 1);
}
