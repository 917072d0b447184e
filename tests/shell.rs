use weston_rs::accessor::{DESKTOP_SURFACE_ACTIVATED, DESKTOP_SURFACE_SURFACE, VIEW_SURFACE};
use weston_rs::desktop::DesktopSurfaceRef;
use weston_rs::handle::{ForeignHeap, ObjectKind};
use weston_rs::layer::{Scene, POSITION_NORMAL};
use weston_rs::protocol::{wl_fixed_from_int, wl_fixed_to_int, Resize, RESIZE_BOTTOM, RESIZE_LEFT, RESIZE_RIGHT, RESIZE_TOP};
use weston_rs::shell::{resize_size, DesktopShell, Size};

#[test]
fn window_lifecycle_owns_and_destroys_its_view() {
    let mut heap = ForeignHeap::new();
    let mut scene = Scene::new();
    let layer = heap.create(ObjectKind::Layer).unwrap();
    scene.add_layer(layer.as_ptr(), POSITION_NORMAL);
    let mut shell = DesktopShell::new(layer.as_ptr());

    let surface = heap.create(ObjectKind::Surface).unwrap();
    let ds = heap.create_foreign(ObjectKind::DesktopSurface).unwrap();
    heap.write_field(ds.as_ptr(), DESKTOP_SURFACE_SURFACE, surface.as_ptr());
    let dsurf = DesktopSurfaceRef::from_ptr(ds.as_ptr()).unwrap();

    let displaced = shell.surface_added(&mut heap, &mut scene, dsurf).expect("view created");
    assert!(displaced.is_none());
    let view = shell.windows.borrow_user_data(ds.as_ptr()).map(|w| w.view.as_ptr()).unwrap();
    assert_eq!(shell.windows.borrow_user_data(ds.as_ptr()).map(|w| w.focus_count), Some(1));
    assert_eq!(heap.kind_of(view), Some(ObjectKind::View));
    assert_eq!(heap.read_field(view, VIEW_SURFACE), surface.as_ptr());
    assert_eq!(heap.read_field(ds.as_ptr(), DESKTOP_SURFACE_ACTIVATED), 1);
    assert_eq!(scene.views(layer.as_ptr()), vec![view]);
    assert!(scene.is_activated(view));

    assert!(shell.surface_removed(&mut heap, &mut scene, dsurf));
    assert!(scene.views(layer.as_ptr()).is_empty());
    assert_eq!(heap.destroy_count(view), 1);
    assert!(!heap.is_live(view));
    assert!(!shell.surface_removed(&mut heap, &mut scene, dsurf));
    assert_eq!(heap.destroy_count(view), 1);
}

#[test]
fn re_added_window_hands_back_previous_state() {
    let mut heap = ForeignHeap::new();
    let mut scene = Scene::new();
    let layer = heap.create(ObjectKind::Layer).unwrap();
    scene.add_layer(layer.as_ptr(), POSITION_NORMAL);
    let mut shell = DesktopShell::new(layer.as_ptr());
    let ds = heap.create_foreign(ObjectKind::DesktopSurface).unwrap();
    let dsurf = DesktopSurfaceRef::from_ptr(ds.as_ptr()).unwrap();
    shell.surface_added(&mut heap, &mut scene, dsurf).unwrap();
    let first = shell.windows.borrow_user_data(ds.as_ptr()).map(|w| w.view.as_ptr()).unwrap();
    let displaced = shell.surface_added(&mut heap, &mut scene, dsurf).unwrap().expect("previous state");
    assert_eq!(displaced.view.as_ptr(), first);
    let second = shell.windows.borrow_user_data(ds.as_ptr()).map(|w| w.view.as_ptr()).unwrap();
    assert_ne!(first, second);
    assert_eq!(scene.views(layer.as_ptr()), vec![second, first]);
    // The caller decides the fate of the displaced view.
    assert!(scene.entry_remove(first));
    assert!(heap.release(displaced.view));
    assert_eq!(heap.destroy_count(first), 1);
    assert!(heap.is_live(second));
}

#[test]
fn focus_count_drives_activation() {
    let mut heap = ForeignHeap::new();
    let mut scene = Scene::new();
    let layer = heap.create(ObjectKind::Layer).unwrap();
    scene.add_layer(layer.as_ptr(), POSITION_NORMAL);
    let mut shell = DesktopShell::new(layer.as_ptr());
    let ds = heap.create_foreign(ObjectKind::DesktopSurface).unwrap();
    let dsurf = DesktopSurfaceRef::from_ptr(ds.as_ptr()).unwrap();
    shell.surface_added(&mut heap, &mut scene, dsurf).unwrap();
    // A second seat focuses the window, then both leave.
    shell.focus_gained(&mut heap, dsurf);
    assert_eq!(shell.windows.borrow_user_data(ds.as_ptr()).map(|w| w.focus_count), Some(2));
    shell.focus_lost(&mut heap, dsurf);
    assert_eq!(heap.read_field(ds.as_ptr(), DESKTOP_SURFACE_ACTIVATED), 1);
    shell.focus_lost(&mut heap, dsurf);
    assert_eq!(shell.windows.borrow_user_data(ds.as_ptr()).map(|w| w.focus_count), Some(0));
    assert_eq!(heap.read_field(ds.as_ptr(), DESKTOP_SURFACE_ACTIVATED), 0);
    shell.focus_lost(&mut heap, dsurf);
    assert_eq!(shell.windows.borrow_user_data(ds.as_ptr()).map(|w| w.focus_count), Some(0));
    shell.focus_gained(&mut heap, dsurf);
    assert_eq!(heap.read_field(ds.as_ptr(), DESKTOP_SURFACE_ACTIVATED), 1);
    // An unknown window is left alone.
    let other = heap.create_foreign(ObjectKind::DesktopSurface).unwrap();
    let other_ref = DesktopSurfaceRef::from_ptr(other.as_ptr()).unwrap();
    shell.focus_gained(&mut heap, other_ref);
    assert_eq!(heap.read_field(other.as_ptr(), DESKTOP_SURFACE_ACTIVATED), 0);
    assert!(shell.windows.borrow_user_data(other.as_ptr()).is_none());
}

#[test]
fn resize_follows_dragged_edges_and_clamps() {
    let start = Size { width: 400, height: 300 };
    let min = Size { width: 0, height: 50 };
    let max = Size { width: 0, height: 0 };
    let br = Resize::from_raw(RESIZE_BOTTOM | RESIZE_RIGHT);
    // Dragging the bottom-right corner 10.5 right and 20 down.
    let r = resize_size(br, start, 0, 0, wl_fixed_from_int(10) + 128, wl_fixed_from_int(20), min, max);
    assert_eq!(r, Size { width: 410, height: 320 });
    // Dragging the left edge right shrinks the window, not below 1.
    let left = Resize::from_raw(RESIZE_LEFT);
    let r = resize_size(left, start, 0, 0, wl_fixed_from_int(1000), 0, min, max);
    assert_eq!(r, Size { width: 1, height: 300 });
    // The top edge dragged down past the minimum height.
    let top = Resize::from_raw(RESIZE_TOP);
    let r = resize_size(top, start, 0, 0, 0, wl_fixed_from_int(290), min, max);
    assert_eq!(r, Size { width: 400, height: 50 });
    // A positive maximum caps each dimension by its own bound.
    let max = Size { width: 500, height: 350 };
    let r = resize_size(br, start, 0, 0, wl_fixed_from_int(300), wl_fixed_from_int(300), min, max);
    assert_eq!(r, Size { width: 500, height: 350 });
    // Fractions round toward zero in both directions.
    assert_eq!(wl_fixed_to_int(-384), -1);
    assert_eq!(wl_fixed_to_int(384), 1);
    assert_eq!(wl_fixed_to_int(-255), 0);
    assert_eq!(wl_fixed_from_int(-3), -768);
}
