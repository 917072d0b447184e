use weston_rs::accessor::{DESKTOP_SURFACE_CLIENT, DESKTOP_SURFACE_SURFACE, SURFACE_DESKTOP};
use weston_rs::desktop::{DesktopCall, DesktopCallArgs, DesktopClient, DesktopEvent, DesktopSurface, DesktopSurfaceRef};
use weston_rs::handle::{ForeignHeap, ObjectKind, NULL_ADDR};
use weston_rs::protocol::{RESIZE_BOTTOM, RESIZE_NONE, RESIZE_RIGHT};

fn args(object: u64, other: u64, a: u32, b: u32) -> DesktopCallArgs {
    DesktopCallArgs { object, other, a, b, flag: false }
}

#[test]
fn plain_handles_keep_their_address() {
    assert_eq!(DesktopClient::from_ptr(0x4000).ptr(), 0x4000);
    assert_eq!(DesktopSurface::from_ptr(0x8000).ptr(), 0x8000);
    assert!(DesktopSurfaceRef::from_ptr(NULL_ADDR).is_none());
}

#[test]
fn desktop_surface_from_surface() {
    let mut heap = ForeignHeap::new();
    let surface = heap.create(ObjectKind::Surface).unwrap();
    assert!(DesktopSurfaceRef::from_surface(&heap, surface.borrow()).is_none());
    let dsurf = heap.create_foreign(ObjectKind::DesktopSurface).unwrap();
    let client = heap.create_foreign(ObjectKind::DesktopClient).unwrap();
    heap.write_field(surface.as_ptr(), SURFACE_DESKTOP, dsurf.as_ptr());
    heap.write_field(dsurf.as_ptr(), DESKTOP_SURFACE_SURFACE, surface.as_ptr());
    heap.write_field(dsurf.as_ptr(), DESKTOP_SURFACE_CLIENT, client.as_ptr());
    let d = DesktopSurfaceRef::from_surface(&heap, surface.borrow()).unwrap();
    assert_eq!(d.as_ptr(), dsurf.as_ptr());
    assert_eq!(d.get_surface(&heap).map(|s| s.as_ptr()), Some(surface.as_ptr()));
    assert_eq!(d.get_client(&heap).map(|c| c.as_ptr()), Some(client.as_ptr()));
    assert!(DesktopSurfaceRef::from_surface(&heap, client).is_none());
}

#[test]
fn desktop_surface_state_flags() {
    let mut heap = ForeignHeap::new();
    let dsurf = heap.create_foreign(ObjectKind::DesktopSurface).unwrap();
    let d = DesktopSurfaceRef::from_ptr(dsurf.as_ptr()).unwrap();
    assert!(!d.get_activated(&heap));
    d.set_activated(&mut heap, true);
    d.set_maximized(&mut heap, true);
    assert!(d.get_activated(&heap));
    assert!(d.get_maximized(&heap));
    assert!(!d.get_fullscreen(&heap));
    d.set_fullscreen(&mut heap, true);
    d.set_resizing(&mut heap, true);
    d.set_activated(&mut heap, false);
    assert!(!d.get_activated(&heap));
    assert!(d.get_fullscreen(&heap));
    assert!(d.get_resizing(&heap));
}

#[test]
fn desktop_calls_decode_arguments() {
    match DesktopEvent::decode(DesktopCall::Committed, args(0x8000, 0, (-3i32) as u32, 7)) {
        Some(DesktopEvent::Committed { surface, sx, sy }) => {
            assert_eq!(surface.as_ptr(), 0x8000);
            assert_eq!((sx, sy), (-3, 7));
        }
        other => panic!("unexpected {:?}", other),
    }
    match DesktopEvent::decode(DesktopCall::Resize, args(0x8000, 0x9000, 42, RESIZE_BOTTOM | RESIZE_RIGHT)) {
        Some(DesktopEvent::Resize { surface, seat, serial, edges }) => {
            assert_eq!(surface.as_ptr(), 0x8000);
            assert_eq!(seat.as_ptr(), 0x9000);
            assert_eq!(seat.kind(), ObjectKind::Seat);
            assert_eq!(serial, 42);
            assert_eq!(edges.bits(), 10);
        }
        other => panic!("unexpected {:?}", other),
    }
    match DesktopEvent::decode(DesktopCall::Resize, args(0x8000, 0x9000, 1, 0x100)) {
        Some(DesktopEvent::Resize { edges, .. }) => assert_eq!(edges.bits(), RESIZE_NONE),
        other => panic!("unexpected {:?}", other),
    }
    match DesktopEvent::decode(DesktopCall::PingTimeout, args(0x4000, 0, 0, 0)) {
        Some(DesktopEvent::PingTimeout { client }) => {
            assert_eq!(client.as_ptr(), 0x4000);
            assert_eq!(client.kind(), ObjectKind::DesktopClient);
        }
        other => panic!("unexpected {:?}", other),
    }
    match DesktopEvent::decode(DesktopCall::SetParent, args(0x8000, NULL_ADDR, 0, 0)) {
        Some(DesktopEvent::SetParent { parent, .. }) => assert!(parent.is_none()),
        other => panic!("unexpected {:?}", other),
    }
}

#[test]
fn desktop_calls_with_missing_objects_are_dropped() {
    assert!(DesktopEvent::decode(DesktopCall::SurfaceAdded, args(NULL_ADDR, 0, 0, 0)).is_none());
    assert!(DesktopEvent::decode(DesktopCall::Move, args(0x8000, NULL_ADDR, 1, 0)).is_none());
    assert!(DesktopEvent::decode(DesktopCall::ShowWindowMenu, args(0x8000, NULL_ADDR, 1, 2)).is_none());
    assert!(DesktopEvent::decode(DesktopCall::MinimizedRequested, args(0x8000, NULL_ADDR, 0, 0)).is_some());
}
