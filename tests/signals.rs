use weston_rs::handle::{ObjectKind, NULL_ADDR};
use weston_rs::signal::{SignalHub, LISTENER_BASE, LISTENER_NODE_OFFSET, LISTENER_RECORD_SIZE};
use weston_rs::trampoline::{container_of, member_of};

#[test]
fn trampoline_recovers_record_and_event_data() {
    let mut hub = SignalHub::new();
    let output_pending = hub.new_signal();
    let rec = hub.add_listener(output_pending, ObjectKind::Output).expect("listener");
    assert_eq!(rec, LISTENER_BASE);
    let node = member_of(rec, LISTENER_NODE_OFFSET);
    let event_data = 0x3000;
    let inv = hub.notify(node, event_data).expect("registered node");
    assert_eq!(inv.record, rec);
    let arg = inv.arg.expect("event data");
    assert_eq!(arg.as_ptr(), event_data);
    assert_eq!(arg.kind(), ObjectKind::Output);
    assert_eq!(container_of(node, LISTENER_NODE_OFFSET), rec);
}

#[test]
fn trampoline_ignores_foreign_nodes_and_null_data() {
    let mut hub = SignalHub::new();
    let s = hub.new_signal();
    let rec = hub.add_listener(s, ObjectKind::Keyboard).unwrap();
    assert!(hub.notify(rec, 0x1000).is_none());
    assert!(hub.notify(rec + LISTENER_NODE_OFFSET + 1, 0x1000).is_none());
    assert!(hub.notify(rec + LISTENER_RECORD_SIZE + LISTENER_NODE_OFFSET, 0x1000).is_none());
    assert!(hub.notify(12, 0x1000).is_none());
    let inv = hub.notify(rec + LISTENER_NODE_OFFSET, NULL_ADDR).unwrap();
    assert_eq!(inv.record, rec);
    assert!(inv.arg.is_none());
}

#[test]
fn emit_reaches_listeners_in_link_order() {
    let mut hub = SignalHub::new();
    let a = hub.new_signal();
    let b = hub.new_signal();
    let r1 = hub.add_listener(a, ObjectKind::Output).unwrap();
    let r2 = hub.add_listener(b, ObjectKind::Keyboard).unwrap();
    let r3 = hub.add_listener(a, ObjectKind::Output).unwrap();
    let calls = hub.emit(a, 0x9000);
    let records: Vec<u64> = calls.iter().map(|c| c.record).collect();
    assert_eq!(records, vec![r1, r3]);
    assert!(calls.iter().all(|c| c.arg.map(|h| h.as_ptr()) == Some(0x9000)));
    let calls_b = hub.emit(b, 0x4000);
    assert_eq!(calls_b.len(), 1);
    assert_eq!(calls_b[0].record, r2);
    assert_eq!(calls_b[0].arg.unwrap().kind(), ObjectKind::Keyboard);
}

#[test]
fn detached_listener_is_never_reached() {
    let mut hub = SignalHub::new();
    let s = hub.new_signal();
    let r1 = hub.add_listener(s, ObjectKind::Output).unwrap();
    let r2 = hub.add_listener(s, ObjectKind::Output).unwrap();
    assert!(hub.remove_listener(r1));
    assert!(!hub.remove_listener(r1));
    assert!(hub.notify(r1 + LISTENER_NODE_OFFSET, 0x1000).is_none());
    let calls = hub.emit(s, 0x1000);
    assert_eq!(calls.len(), 1);
    assert_eq!(calls[0].record, r2);
    assert!(!hub.remove_listener(u64::MAX));
}

#[test]
fn listener_on_unknown_signal_is_refused() {
    let mut hub = SignalHub::new();
    assert!(hub.add_listener(0, ObjectKind::Output).is_none());
    let s = hub.new_signal();
    assert!(hub.add_listener(s + 1, ObjectKind::Output).is_none());
    assert!(hub.emit(s, 0x1000).is_empty());
}
