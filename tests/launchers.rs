use weston_rs::launcher::{bool_status, LauncherTable, CONNECT_FAILED, CONNECT_OK, LAUNCHER_BASE, LAUNCHER_RECORD_SIZE};
use weston_rs::handle::NULL_ADDR;

#[test]
fn connect_installs_on_success_only() {
    let mut table = LauncherTable::new();
    assert_eq!(table.connect(false), (CONNECT_FAILED, NULL_ADDR));
    let (status, addr) = table.connect(true);
    assert_eq!(status, CONNECT_OK);
    assert_eq!(addr, LAUNCHER_BASE);
    assert_eq!(table.resolve(addr), Some(LAUNCHER_BASE));
    let (_, second) = table.connect(true);
    assert_eq!(second, LAUNCHER_BASE + LAUNCHER_RECORD_SIZE);
}

#[test]
fn launcher_is_destroyed_once() {
    let mut table = LauncherTable::new();
    let a = table.install().unwrap();
    let b = table.install().unwrap();
    assert!(table.destroy(a));
    assert!(!table.destroy(a));
    assert!(table.resolve(a).is_none());
    assert_eq!(table.resolve(b), Some(b));
    assert!(table.resolve(a + 1).is_none());
    assert!(table.resolve(12).is_none());
}

#[test]
fn boolean_answers_become_one_or_zero() {
    assert_eq!(bool_status(true), 1);
    assert_eq!(bool_status(false), 0);
}
