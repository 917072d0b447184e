use weston_rs::accessor::DEVICE_GRAB;
use weston_rs::grab::{GrabTable, GrabTarget, DEFAULT_GRAB_OFFSET, GRAB_BASE, GRAB_STRUCT_OFFSET};
use weston_rs::handle::{ForeignHeap, ObjectKind};
use weston_rs::grab::{GrabCall, GrabEvent};
use weston_rs::protocol::{AxisSource, ButtonState, MODIFIER_ALT, MODIFIER_CTRL};

#[test]
fn grab_lifecycle_routes_events() {
    let mut heap = ForeignHeap::new();
    let pointer = heap.create_foreign(ObjectKind::Pointer).unwrap();
    GrabTable::install_default_grab(&mut heap, pointer);
    let default_addr = pointer.as_ptr() + DEFAULT_GRAB_OFFSET;
    assert_eq!(heap.read_field(pointer.as_ptr(), DEVICE_GRAB), default_addr);
    let mut grabs = GrabTable::new();
    let mut default_calls = 0;
    let mut grab_calls = 0;
    let mut deliver = |heap: &ForeignHeap| match GrabTable::route(heap, pointer) {
        GrabTarget::Default => default_calls += 1,
        GrabTarget::Grab(_) => grab_calls += 1,
    };
    deliver(&heap);
    let g = grabs.start_grab(&mut heap, pointer).expect("grab");
    assert_eq!(g, GRAB_BASE + GRAB_STRUCT_OFFSET);
    assert_eq!(heap.read_field(pointer.as_ptr(), DEVICE_GRAB), g);
    assert!(!GrabTable::is_default_grab(&heap, pointer));
    deliver(&heap);
    deliver(&heap);
    let ended = grabs.end_grab(&mut heap, pointer);
    assert_eq!(ended, g);
    assert_eq!(heap.read_field(pointer.as_ptr(), DEVICE_GRAB), default_addr);
    assert!(GrabTable::is_default_grab(&heap, pointer));
    deliver(&heap);
    assert_eq!(default_calls, 2);
    assert_eq!(grab_calls, 2);
    assert!(grabs.resolve(g).is_none());
}

#[test]
fn grab_trampoline_recovers_wrapper() {
    let mut heap = ForeignHeap::new();
    let keyboard = heap.create_foreign(ObjectKind::Keyboard).unwrap();
    GrabTable::install_default_grab(&mut heap, keyboard);
    let mut grabs = GrabTable::new();
    let g = grabs.start_grab(&mut heap, keyboard).unwrap();
    assert_eq!(grabs.resolve(g), Some(GRAB_BASE));
    assert_eq!(grabs.device_of(g), Some(keyboard.as_ptr()));
    assert_eq!(GrabTable::route(&heap, keyboard), GrabTarget::Grab(g));
    assert!(grabs.resolve(g + 1).is_none());
    assert!(grabs.resolve(0).is_none());
}

#[test]
fn move_grab_ends_itself_on_last_release() {
    // A move grab ends when the last button goes up, from inside its own
    // button callback.
    let mut heap = ForeignHeap::new();
    let pointer = heap.create_foreign(ObjectKind::Pointer).unwrap();
    GrabTable::install_default_grab(&mut heap, pointer);
    let mut grabs = GrabTable::new();
    let first = grabs.start_grab(&mut heap, pointer).unwrap();
    let button_count = 0;
    if let GrabTarget::Grab(g) = GrabTable::route(&heap, pointer) {
        assert_eq!(g, first);
        if button_count == 0 && ButtonState::from_raw(0) == ButtonState::Released {
            grabs.end_grab(&mut heap, pointer);
        }
    }
    assert_eq!(GrabTable::route(&heap, pointer), GrabTarget::Default);
    let second = grabs.start_grab(&mut heap, pointer).unwrap();
    assert_ne!(first, second);
    assert!(grabs.resolve(first).is_none());
    assert!(grabs.resolve(second).is_some());
}

#[test]
fn grab_dispatch_decodes_arguments() {
    let mut heap = ForeignHeap::new();
    let pointer = heap.create_foreign(ObjectKind::Pointer).unwrap();
    let keyboard = heap.create_foreign(ObjectKind::Keyboard).unwrap();
    GrabTable::install_default_grab(&mut heap, pointer);
    GrabTable::install_default_grab(&mut heap, keyboard);
    let mut grabs = GrabTable::new();
    let pg = grabs.start_grab(&mut heap, pointer).unwrap();
    let kg = grabs.start_grab(&mut heap, keyboard).unwrap();

    let inv = grabs.dispatch(pg, GrabCall::PointerButton { button: 0x110, state: 7 }).unwrap();
    assert_eq!(inv.wrapper, GRAB_BASE);
    assert_eq!(inv.device.as_ptr(), pointer.as_ptr());
    assert_eq!(inv.device.kind(), ObjectKind::Pointer);
    assert_eq!(inv.event, GrabEvent::PointerButton { button: 0x110, state: ButtonState::Released });

    let inv = grabs.dispatch(pg, GrabCall::PointerAxisSource { source: 9 }).unwrap();
    assert_eq!(inv.event, GrabEvent::PointerAxisSource(AxisSource::Wheel));

    let value = 2.5f64.to_bits();
    match grabs.dispatch(pg, GrabCall::PointerAxis { axis: 5, value, has_discrete: true, discrete: -1 }).unwrap().event {
        GrabEvent::PointerAxis(e) => {
            assert_eq!(e.axis, weston_rs::protocol::Axis::VerticalScroll);
            assert_eq!(f64::from_bits(e.value), 2.5);
            assert_eq!(e.discrete, -1);
        }
        other => panic!("unexpected {:?}", other),
    }

    let inv = grabs
        .dispatch(kg, GrabCall::Modifiers { serial: 3, depressed: MODIFIER_CTRL | 0x100, latched: 0, locked: MODIFIER_ALT, group: 1 })
        .unwrap();
    assert_eq!(inv.wrapper, GRAB_BASE + weston_rs::grab::GRAB_RECORD_SIZE);
    match inv.event {
        GrabEvent::Modifiers { serial, depressed, latched, locked, group } => {
            assert_eq!((serial, group), (3, 1));
            assert_eq!(depressed.bits(), MODIFIER_CTRL);
            assert_eq!(latched.bits(), 0);
            assert_eq!(locked.bits(), MODIFIER_ALT);
        }
        other => panic!("unexpected {:?}", other),
    }

    // A keyboard call on a pointer grab, or a call on an ended grab, goes nowhere.
    assert!(grabs.dispatch(pg, GrabCall::Key { key: 1, state: 1 }).is_none());
    grabs.end_grab(&mut heap, pointer);
    assert!(grabs.dispatch(pg, GrabCall::PointerCancel).is_none());
    assert!(grabs.dispatch(kg, GrabCall::KeyboardCancel).is_some());
}
