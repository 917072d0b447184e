use weston_rs::binding::{BindingKind, BindingTable, BTN_LEFT, KEY_ENTER};
use weston_rs::protocol::{ButtonState, KeyState, KeyboardModifier, MODIFIER_CTRL, MODIFIER_SHIFT};

#[test]
fn bindings_fire_in_registration_order_with_exact_modifiers() {
    let mut table = BindingTable::new();
    let ctrl = KeyboardModifier::from_bits_truncate(MODIFIER_CTRL);
    let a = table.add_key_binding(KEY_ENTER, ctrl).unwrap();
    let b = table.add_key_binding(KEY_ENTER, KeyboardModifier::empty()).unwrap();
    let c = table.add_key_binding(KEY_ENTER, ctrl).unwrap();
    let _d = table.add_button_binding(BTN_LEFT, ctrl).unwrap();
    assert_eq!(table.run_key_binding(KEY_ENTER, KeyState::Pressed, ctrl), vec![a, c]);
    assert_eq!(table.run_key_binding(KEY_ENTER, KeyState::Pressed, KeyboardModifier::empty()), vec![b]);
    let ctrl_shift = KeyboardModifier::from_bits_truncate(MODIFIER_CTRL | MODIFIER_SHIFT);
    assert!(table.run_key_binding(KEY_ENTER, KeyState::Pressed, ctrl_shift).is_empty());
    assert!(table.run_key_binding(KEY_ENTER, KeyState::Released, ctrl).is_empty());
    assert_eq!(a.id(), 0);
    assert_eq!(c.id(), 2);
}

#[test]
fn destroyed_binding_no_longer_fires() {
    let mut table = BindingTable::new();
    let left = table.add_button_binding(BTN_LEFT, KeyboardModifier::empty()).unwrap();
    assert!(table.destroy(left));
    assert!(!table.destroy(left));
    assert!(table.run_button_binding(BTN_LEFT, ButtonState::Pressed, KeyboardModifier::empty()).is_empty());
}

#[test]
fn touch_bindings_ignore_code() {
    let mut table = BindingTable::new();
    let t = table.add(BindingKind::Touch, 0, KeyboardModifier::empty()).unwrap();
    assert_eq!(table.matching(BindingKind::Touch, 1234, KeyboardModifier::empty()), vec![t]);
    assert!(table.matching(BindingKind::Axis, 0, KeyboardModifier::empty()).is_empty());
}
