use weston_rs::layer::{Scene, POSITION_BACKGROUND, POSITION_FADE, POSITION_NORMAL, POSITION_UI};
use weston_rs::shell::activate;
use weston_rs::NULL_ADDR;

#[test]
fn layers_refuse_duplicates_and_null() {
    let mut scene = Scene::new();
    assert!(scene.add_layer(0x1000, POSITION_NORMAL));
    assert!(!scene.add_layer(0x1000, POSITION_UI));
    assert!(!scene.add_layer(NULL_ADDR, POSITION_UI));
    assert_eq!(scene.layer_position(0x1000), Some(POSITION_NORMAL));
    assert!(scene.set_position(0x1000, POSITION_FADE));
    assert_eq!(scene.layer_position(0x1000), Some(0xffff_ffff));
    assert!(!scene.set_position(0x2000, POSITION_FADE));
    assert_eq!(scene.layer_position(0x2000), None);
}

#[test]
fn insert_puts_view_on_top_once() {
    let mut scene = Scene::new();
    scene.add_layer(0x1000, POSITION_BACKGROUND);
    scene.add_layer(0x2000, POSITION_NORMAL);
    assert!(scene.entry_insert(0x1000, 0xa000));
    assert!(scene.entry_insert(0x1000, 0xb000));
    assert_eq!(scene.views(0x1000), vec![0xb000, 0xa000]);
    assert!(!scene.entry_insert(0x2000, 0xa000));
    assert!(!scene.entry_insert(0x3000, 0xc000));
    assert!(!scene.entry_insert(0x2000, NULL_ADDR));
    assert_eq!(scene.layer_of(0xa000), Some(0x1000));
    assert_eq!(scene.layer_of(0xc000), None);
}

#[test]
fn remove_takes_view_out() {
    let mut scene = Scene::new();
    scene.add_layer(0x1000, POSITION_NORMAL);
    scene.entry_insert(0x1000, 0xa000);
    scene.entry_insert(0x1000, 0xb000);
    scene.entry_insert(0x1000, 0xc000);
    assert!(scene.entry_remove(0xb000));
    assert!(!scene.entry_remove(0xb000));
    assert_eq!(scene.views(0x1000), vec![0xc000, 0xa000]);
    assert_eq!(scene.layer_of(0xb000), None);
}

#[test]
fn activate_moves_view_to_windows_layer_top() {
    let mut scene = Scene::new();
    scene.add_layer(0x1000, POSITION_NORMAL);
    scene.add_layer(0x2000, POSITION_UI);
    scene.entry_insert(0x1000, 0xa000);
    scene.entry_insert(0x1000, 0xb000);
    scene.entry_insert(0x2000, 0xc000);
    assert!(activate(&mut scene, 0xc000, 0x1000));
    assert_eq!(scene.views(0x1000), vec![0xc000, 0xb000, 0xa000]);
    assert!(scene.views(0x2000).is_empty());
    assert_eq!(scene.focus(), Some(0xc000));
    // An unknown windows layer leaves the stack alone.
    assert!(!activate(&mut scene, 0xa000, 0x9000));
    assert_eq!(scene.views(0x1000), vec![0xc000, 0xb000, 0xa000]);
    assert!(scene.is_activated(0xa000));
    assert!(!scene.is_activated(0xc000));
}
