use weston_rs::accessor::{optional_field, required_field, scalar_field, DEVICE_FOCUS, SURFACE_WIDTH, VIEW_SURFACE};
use weston_rs::handle::{ForeignHeap, Handle, ObjectKind, Ref, NULL_ADDR, OBJECT_STRIDE};

#[test]
fn owned_handle_destroys_exactly_once() {
    let mut heap = ForeignHeap::new();
    let surface = heap.create(ObjectKind::Surface).expect("create");
    let addr = surface.as_ptr();
    assert_eq!(addr, OBJECT_STRIDE);
    assert!(heap.is_live(addr));
    assert_eq!(heap.destroy_count(addr), 0);
    // A second owning handle to the same object is refused.
    assert!(heap.adopt(addr).is_none());
    assert!(heap.release(surface));
    assert_eq!(heap.destroy_count(addr), 1);
    assert!(!heap.is_live(addr));
    // Nothing can take ownership of it again either.
    assert!(heap.adopt(addr).is_none());
    assert_eq!(heap.destroy_count(addr), 1);
}

#[test]
fn release_touches_only_its_object() {
    let mut heap = ForeignHeap::new();
    let a = heap.create(ObjectKind::View).unwrap();
    let b = heap.create(ObjectKind::View).unwrap();
    let b_addr = b.as_ptr();
    let a_addr = a.as_ptr();
    assert_eq!(b_addr, 2 * OBJECT_STRIDE);
    assert!(heap.release(a));
    assert_eq!(heap.destroy_count(a_addr), 1);
    assert_eq!(heap.destroy_count(b_addr), 0);
    assert!(heap.is_live(b_addr));
    assert!(heap.release(b));
    assert_eq!(heap.destroy_count(b_addr), 1);
}

#[test]
fn adopt_takes_ownership_of_foreign_object_once() {
    let mut heap = ForeignHeap::new();
    let r = heap.create_foreign(ObjectKind::Output).unwrap();
    let owned = heap.adopt(r.as_ptr()).expect("first adopt");
    assert_eq!(owned.as_ptr(), r.as_ptr());
    assert_eq!(owned.kind(), ObjectKind::Output);
    assert!(heap.adopt(r.as_ptr()).is_none());
    assert!(heap.release(owned));
    assert_eq!(heap.destroy_count(r.as_ptr()), 1);
}

#[test]
fn adopt_refuses_unknown_addresses() {
    let mut heap = ForeignHeap::new();
    assert!(heap.adopt(NULL_ADDR).is_none());
    assert!(heap.adopt(OBJECT_STRIDE).is_none());
    let _ = heap.create_foreign(ObjectKind::Seat).unwrap();
    assert!(heap.adopt(OBJECT_STRIDE + 8).is_none());
}

#[test]
fn borrowed_handles_never_destroy() {
    let mut heap = ForeignHeap::new();
    let owned = heap.create(ObjectKind::Surface).unwrap();
    let addr = owned.as_ptr();
    for _ in 0..5 {
        let r = owned.borrow();
        let r2 = r.temp_clone();
        assert_eq!(r2.as_ptr(), addr);
        heap.drop_handle(Handle::Borrowed(r));
        heap.drop_handle(Handle::Borrowed(r2));
        assert_eq!(heap.destroy_count(addr), 0);
    }
    let many: Vec<Handle> = (0..10).map(|_| Handle::Borrowed(owned.borrow())).collect();
    heap.drop_all(many);
    assert_eq!(heap.destroy_count(addr), 0);
    assert!(heap.is_live(addr));
    heap.drop_handle(Handle::Owned(owned));
    assert_eq!(heap.destroy_count(addr), 1);
}

#[test]
fn drop_all_destroys_each_owned_handle_once() {
    let mut heap = ForeignHeap::new();
    let a = heap.create(ObjectKind::View).unwrap();
    let b = heap.create(ObjectKind::View).unwrap();
    let (pa, pb) = (a.as_ptr(), b.as_ptr());
    let ra = a.borrow();
    heap.drop_all(vec![Handle::Borrowed(ra), Handle::Owned(a), Handle::Borrowed(ra), Handle::Owned(b)]);
    assert_eq!(heap.destroy_count(pa), 1);
    assert_eq!(heap.destroy_count(pb), 1);
}

#[test]
fn forget_stales_borrowed_handles_without_destroy() {
    let mut heap = ForeignHeap::new();
    let seat = heap.create_foreign(ObjectKind::Seat).unwrap();
    assert!(heap.forget(seat.as_ptr()));
    assert!(!heap.is_live(seat.as_ptr()));
    assert_eq!(heap.destroy_count(seat.as_ptr()), 0);
    assert!(!heap.forget(seat.as_ptr()));
    let owned = heap.create(ObjectKind::View).unwrap();
    assert!(!heap.forget(owned.as_ptr()));
}

#[test]
fn from_borrowed_ptr_rejects_null() {
    assert!(Ref::from_borrowed_ptr(NULL_ADDR, ObjectKind::View).is_none());
    let r = Ref::from_borrowed_ptr(0x2000, ObjectKind::View).unwrap();
    assert_eq!(r.as_ptr(), 0x2000);
    assert_eq!(r.kind(), ObjectKind::View);
}

#[test]
fn optional_field_round_trip() {
    let mut heap = ForeignHeap::new();
    let pointer = heap.create_foreign(ObjectKind::Pointer).unwrap();
    let view = heap.create(ObjectKind::View).unwrap();
    assert!(optional_field(&heap, pointer, DEVICE_FOCUS, ObjectKind::View).is_none());
    heap.write_field(pointer.as_ptr(), DEVICE_FOCUS, view.as_ptr());
    let focus = optional_field(&heap, pointer, DEVICE_FOCUS, ObjectKind::View).expect("focus");
    assert_eq!(focus.as_ptr(), view.as_ptr());
    assert_eq!(focus.kind(), ObjectKind::View);
    heap.write_field(pointer.as_ptr(), DEVICE_FOCUS, NULL_ADDR);
    assert!(optional_field(&heap, pointer, DEVICE_FOCUS, ObjectKind::View).is_none());
}

#[test]
fn required_and_scalar_fields() {
    let mut heap = ForeignHeap::new();
    let surface = heap.create(ObjectKind::Surface).unwrap();
    let view = heap.create(ObjectKind::View).unwrap();
    heap.write_field(view.as_ptr(), VIEW_SURFACE, surface.as_ptr());
    heap.write_field(surface.as_ptr(), SURFACE_WIDTH, 8096);
    let s = required_field(&heap, view.borrow(), VIEW_SURFACE, ObjectKind::Surface);
    assert_eq!(s.as_ptr(), surface.as_ptr());
    assert_eq!(scalar_field(&heap, s, SURFACE_WIDTH), 8096);
}

#[test]
fn kind_of_reports_objects() {
    let mut heap = ForeignHeap::new();
    let c = heap.create(ObjectKind::Compositor).unwrap();
    assert_eq!(heap.kind_of(c.as_ptr()), Some(ObjectKind::Compositor));
    assert_eq!(heap.kind_of(NULL_ADDR), None);
    assert_eq!(heap.kind_of(c.as_ptr() + OBJECT_STRIDE), None);
}
