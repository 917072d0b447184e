use weston_rs::accessor::{DEVICE_FOCUS, DEVICE_SEAT, SURFACE_DESKTOP, VIEW_SURFACE, COMPOSITOR_FIRST_SEAT};
use weston_rs::binding::{BindingTable, BTN_LEFT, BTN_RIGHT};
use weston_rs::compositor::CompositorRef;
use weston_rs::grab::GrabTable;
use weston_rs::handle::{ForeignHeap, ObjectKind, Owned};
use weston_rs::layer::{Scene, POSITION_BACKGROUND, POSITION_NORMAL};
use weston_rs::output::OutputRef;
use weston_rs::output_api::{PluginApi, PluginRegistry, WindowedOutput, WINDOWED_OUTPUT_API_SIZE};
use weston_rs::protocol::{ButtonState, KeyboardModifier, MODIFIER_CTRL};
use weston_rs::shell::{click_activate, ClickOutcome};
use weston_rs::surface::SurfaceRef;

/// A desktop window: its surface, desktop surface and view.
fn window(heap: &mut ForeignHeap) -> (Owned, Owned) {
    let surface = heap.create(ObjectKind::Surface).unwrap();
    let dsurf = heap.create_foreign(ObjectKind::DesktopSurface).unwrap();
    heap.write_field(surface.as_ptr(), SURFACE_DESKTOP, dsurf.as_ptr());
    let view = heap.create(ObjectKind::View).unwrap();
    heap.write_field(view.as_ptr(), VIEW_SURFACE, surface.as_ptr());
    (surface, view)
}

#[test]
fn click_raises_and_activates_window() {
    let mut heap = ForeignHeap::new();
    let compositor = heap.create(ObjectKind::Compositor).unwrap();
    let comp = CompositorRef::from_ref(&heap, compositor.borrow()).unwrap();

    // One output of 1280x720.
    let mut registry = PluginRegistry::new();
    assert!(registry.register(PluginApi::WindowedOutput, 0x7000_0000, WINDOWED_OUTPUT_API_SIZE));
    let windowed = WindowedOutput::new(&registry).expect("windowed output api");
    let head = heap.create_foreign(ObjectKind::Head).unwrap();
    let output = comp.create_output_with_head(&mut heap, head).expect("output");
    assert!(windowed.output_set_size(&mut heap, output.borrow(), 1280, 720));
    let out = OutputRef::from_ref(&heap, output.borrow()).unwrap();
    out.enable(&mut heap);
    assert_eq!((out.width(&heap), out.height(&heap)), (1280, 720));
    assert!(out.is_enabled(&heap));

    // Background colour in the background layer.
    let mut scene = Scene::new();
    let bg_layer = heap.create(ObjectKind::Layer).unwrap();
    assert!(scene.add_layer(bg_layer.as_ptr(), POSITION_BACKGROUND));
    let bg_surf = heap.create(ObjectKind::Surface).unwrap();
    let bg = SurfaceRef::from_ref(&heap, bg_surf.borrow()).unwrap();
    bg.set_size(&mut heap, 8096, 8096);
    bg.set_color(&mut heap, 0.1f32.to_bits(), 0.3f32.to_bits(), 0.6f32.to_bits(), 1.0f32.to_bits());
    assert_eq!((bg.width(&heap), bg.height(&heap)), (8096, 8096));
    let (r, g, b, a) = bg.color(&heap);
    assert_eq!([f32::from_bits(r), f32::from_bits(g), f32::from_bits(b), f32::from_bits(a)], [0.1, 0.3, 0.6, 1.0]);
    let bg_view = heap.create(ObjectKind::View).unwrap();
    heap.write_field(bg_view.as_ptr(), VIEW_SURFACE, bg_surf.as_ptr());
    assert!(scene.entry_insert(bg_layer.as_ptr(), bg_view.as_ptr()));

    // Window layer above it.
    let windows = heap.create(ObjectKind::Layer).unwrap();
    assert!(scene.add_layer(windows.as_ptr(), POSITION_NORMAL));
    assert!(scene.layer_position(windows.as_ptr()).unwrap() > scene.layer_position(bg_layer.as_ptr()).unwrap());

    // Two windows; the second one lands on top.
    let (_s1, v1) = window(&mut heap);
    let (_s2, v2) = window(&mut heap);
    assert!(scene.entry_insert(windows.as_ptr(), v1.as_ptr()));
    assert!(scene.entry_insert(windows.as_ptr(), v2.as_ptr()));
    assert_eq!(scene.views(windows.as_ptr()), vec![v2.as_ptr(), v1.as_ptr()]);

    // Seat with a pointer over the lower window.
    let seat = heap.create_foreign(ObjectKind::Seat).unwrap();
    heap.write_field(compositor.as_ptr(), COMPOSITOR_FIRST_SEAT, seat.as_ptr());
    let pointer = heap.create_foreign(ObjectKind::Pointer).unwrap();
    heap.write_field(pointer.as_ptr(), DEVICE_SEAT, seat.as_ptr());
    GrabTable::install_default_grab(&mut heap, pointer);
    heap.write_field(pointer.as_ptr(), DEVICE_FOCUS, v1.as_ptr());
    assert_eq!(comp.first_seat(&heap).map(|s| s.as_ptr()), Some(seat.as_ptr()));

    // Left click activates the focused view.
    let mut bindings = BindingTable::new();
    let left = bindings.add_button_binding(BTN_LEFT, KeyboardModifier::empty()).unwrap();
    let fired = bindings.run_button_binding(BTN_LEFT, ButtonState::Pressed, KeyboardModifier::empty());
    assert_eq!(fired, vec![left]);
    for _ in &fired {
        let outcome = click_activate(&mut scene, &heap, pointer, windows.as_ptr());
        assert_eq!(outcome, ClickOutcome::Activated { raised: true });
    }
    assert_eq!(scene.views(windows.as_ptr()), vec![v1.as_ptr(), v2.as_ptr()]);
    assert!(scene.is_activated(v1.as_ptr()));
    assert!(!scene.is_activated(v2.as_ptr()));
    assert_eq!(scene.views(bg_layer.as_ptr()), vec![bg_view.as_ptr()]);

    // Releasing the button, or another button, runs nothing.
    assert!(bindings.run_button_binding(BTN_LEFT, ButtonState::Released, KeyboardModifier::empty()).is_empty());
    assert!(bindings.run_button_binding(BTN_RIGHT, ButtonState::Pressed, KeyboardModifier::empty()).is_empty());
    let ctrl = KeyboardModifier::from_bits_truncate(MODIFIER_CTRL);
    assert!(bindings.run_button_binding(BTN_LEFT, ButtonState::Pressed, ctrl).is_empty());

    // Owned objects are destroyed once each when dropped.
    for o in [v1, v2, bg_view, output] {
        let addr = o.as_ptr();
        assert!(heap.release(o));
        assert_eq!(heap.destroy_count(addr), 1);
    }
}

#[test]
fn click_is_ignored_during_grab_or_without_focus() {
    let mut heap = ForeignHeap::new();
    let mut scene = Scene::new();
    let windows = heap.create(ObjectKind::Layer).unwrap();
    scene.add_layer(windows.as_ptr(), POSITION_NORMAL);
    let (_s, v) = window(&mut heap);
    scene.entry_insert(windows.as_ptr(), v.as_ptr());
    let pointer = heap.create_foreign(ObjectKind::Pointer).unwrap();
    GrabTable::install_default_grab(&mut heap, pointer);
    assert_eq!(click_activate(&mut scene, &heap, pointer, windows.as_ptr()), ClickOutcome::NoFocus);
    heap.write_field(pointer.as_ptr(), DEVICE_FOCUS, v.as_ptr());
    let mut grabs = GrabTable::new();
    grabs.start_grab(&mut heap, pointer).unwrap();
    assert_eq!(click_activate(&mut scene, &heap, pointer, windows.as_ptr()), ClickOutcome::GrabActive);
    assert!(!scene.is_activated(v.as_ptr()));
    grabs.end_grab(&mut heap, pointer);
    assert_eq!(
        click_activate(&mut scene, &heap, pointer, windows.as_ptr()),
        ClickOutcome::Activated { raised: true }
    );
}

#[test]
fn click_on_non_window_or_unstacked_view() {
    let mut heap = ForeignHeap::new();
    let mut scene = Scene::new();
    let windows = heap.create(ObjectKind::Layer).unwrap();
    scene.add_layer(windows.as_ptr(), POSITION_NORMAL);
    let plain_surface = heap.create(ObjectKind::Surface).unwrap();
    let plain_view = heap.create(ObjectKind::View).unwrap();
    heap.write_field(plain_view.as_ptr(), VIEW_SURFACE, plain_surface.as_ptr());
    let pointer = heap.create_foreign(ObjectKind::Pointer).unwrap();
    GrabTable::install_default_grab(&mut heap, pointer);
    heap.write_field(pointer.as_ptr(), DEVICE_FOCUS, plain_view.as_ptr());
    assert_eq!(click_activate(&mut scene, &heap, pointer, windows.as_ptr()), ClickOutcome::NotDesktop);
    // A window that was never stacked gets focus but is not raised.
    let (_s, fresh) = window(&mut heap);
    heap.write_field(pointer.as_ptr(), DEVICE_FOCUS, fresh.as_ptr());
    assert_eq!(
        click_activate(&mut scene, &heap, pointer, windows.as_ptr()),
        ClickOutcome::Activated { raised: false }
    );
    assert!(scene.is_activated(fresh.as_ptr()));
    assert!(scene.views(windows.as_ptr()).is_empty());
}
