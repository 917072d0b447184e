use weston_rs::accessor::HEAD_OUTPUT;
use weston_rs::compositor::CompositorRef;
use weston_rs::handle::{ForeignHeap, ObjectKind, NULL_ADDR};
use weston_rs::output::OutputRef;
use weston_rs::output_api::{
    DrmOutput, PluginApi, PluginRegistry, WindowedOutput, DRM_OUTPUT_API_SIZE, WINDOWED_OUTPUT_API_SIZE,
};
use weston_rs::accessor::OUTPUT_MODE;
use weston_rs::protocol::DrmBackendOutputMode;

#[test]
fn missing_capability_is_none() {
    let mut registry = PluginRegistry::new();
    assert!(WindowedOutput::new(&registry).is_none());
    assert!(DrmOutput::new(&registry).is_none());
    assert!(registry.register(PluginApi::DrmOutput, 0x5000, DRM_OUTPUT_API_SIZE));
    assert!(!registry.register(PluginApi::DrmOutput, 0x6000, DRM_OUTPUT_API_SIZE));
    assert!(WindowedOutput::new(&registry).is_none());
    assert_eq!(DrmOutput::new(&registry).map(|d| d.ptr()), Some(0x5000));
}

#[test]
fn capability_older_than_expected_is_none() {
    let mut registry = PluginRegistry::new();
    assert!(registry.register(PluginApi::WindowedOutput, 0x5000, WINDOWED_OUTPUT_API_SIZE - 8));
    assert!(WindowedOutput::new(&registry).is_none());
    assert_eq!(registry.get(PluginApi::WindowedOutput, 8), Some(0x5000));
    assert_eq!(registry.get(PluginApi::DrmOutput, 8), None);
}

#[test]
fn windowed_output_size_and_drm_mode() {
    let mut heap = ForeignHeap::new();
    let mut registry = PluginRegistry::new();
    registry.register(PluginApi::WindowedOutput, 0x5000, WINDOWED_OUTPUT_API_SIZE);
    registry.register(PluginApi::DrmOutput, 0x6000, DRM_OUTPUT_API_SIZE);
    let windowed = WindowedOutput::new(&registry).unwrap();
    assert_eq!(windowed.ptr(), 0x5000);
    let output = heap.create(ObjectKind::Output).unwrap();
    assert!(windowed.output_set_size(&mut heap, output.borrow(), 1024, 768));
    assert!(!windowed.output_set_size(&mut heap, output.borrow(), u32::MAX, 768));
    let out = OutputRef::from_ref(&heap, output.borrow()).unwrap();
    assert_eq!(out.width(&heap), 1024);
    assert_eq!(out.height(&heap), 768);
    let head = heap.create_foreign(ObjectKind::Head).unwrap();
    assert!(!windowed.output_set_size(&mut heap, head, 10, 10));
    let drm = DrmOutput::new(&registry).unwrap();
    assert!(drm.set_mode(&mut heap, output.borrow(), DrmBackendOutputMode::Preferred));
    assert_eq!(heap.read_field(output.as_ptr(), OUTPUT_MODE), 2);
    out.disable(&mut heap);
    assert!(!out.is_enabled(&heap));
}

#[test]
fn heads_iterate_in_creation_order() {
    let mut heap = ForeignHeap::new();
    let compositor = heap.create(ObjectKind::Compositor).unwrap();
    let comp = CompositorRef::from_ref(&heap, compositor.borrow()).unwrap();
    let h1 = heap.create_foreign(ObjectKind::Head).unwrap();
    let _other = heap.create_foreign(ObjectKind::Seat).unwrap();
    let h2 = heap.create_foreign(ObjectKind::Head).unwrap();
    let h3 = heap.create_foreign(ObjectKind::Head).unwrap();
    assert!(heap.forget(h2.as_ptr()));
    let mut it = comp.iterate_heads();
    assert_eq!(it.next(&heap).map(|h| h.as_ptr()), Some(h1.as_ptr()));
    assert_eq!(it.next(&heap).map(|h| h.as_ptr()), Some(h3.as_ptr()));
    assert_eq!(it.next(&heap), None);
    // The walk starts over after its end.
    assert_eq!(it.next(&heap).map(|h| h.as_ptr()), Some(h1.as_ptr()));
}

#[test]
fn output_heads_are_those_attached() {
    let mut heap = ForeignHeap::new();
    let compositor = heap.create(ObjectKind::Compositor).unwrap();
    let comp = CompositorRef::from_ref(&heap, compositor.borrow()).unwrap();
    let h1 = heap.create_foreign(ObjectKind::Head).unwrap();
    let h2 = heap.create_foreign(ObjectKind::Head).unwrap();
    let output = comp.create_output_with_head(&mut heap, h2).unwrap();
    assert_eq!(heap.read_field(h2.as_ptr(), HEAD_OUTPUT), output.as_ptr());
    assert_eq!(heap.read_field(h1.as_ptr(), HEAD_OUTPUT), NULL_ADDR);
    // A head drives one output at most.
    assert!(comp.create_output_with_head(&mut heap, h2).is_none());
    assert!(comp.create_output_with_head(&mut heap, compositor.borrow()).is_none());
    let out = OutputRef::from_ref(&heap, output.borrow()).unwrap();
    let mut it = out.iterate_heads();
    assert_eq!(it.next(&heap).map(|h| h.as_ptr()), Some(h2.as_ptr()));
    assert_eq!(it.next(&heap), None);
    assert!(OutputRef::from_ref(&heap, h1).is_none());
}
