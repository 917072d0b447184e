use weston_rs::backend::{
    check_header, BackendConfigHeader, DrmBackendConfig, WaylandBackendConfig, DRM_BACKEND_CONFIG_SIZE,
    DRM_BACKEND_CONFIG_VERSION, WAYLAND_BACKEND_CONFIG_SIZE, WAYLAND_BACKEND_CONFIG_VERSION,
};

#[test]
fn wayland_config_defaults() {
    let c = WaylandBackendConfig::default();
    assert!(!c.use_pixman && !c.sprawl && !c.fullscreen);
    assert_eq!(c.display_name, None);
    assert_eq!(c.cursor_theme, "default");
    assert_eq!(c.cursor_size, 16);
    let h = c.header();
    assert_eq!(h.struct_version, 2);
    assert!(check_header(h, WAYLAND_BACKEND_CONFIG_VERSION, WAYLAND_BACKEND_CONFIG_SIZE));
}

#[test]
fn drm_config_defaults() {
    let c = DrmBackendConfig::default();
    assert_eq!((c.tty, c.use_pixman, c.pageflip_timeout), (0, false, 0));
    assert!(c.seat_id.is_none() && c.gbm_format.is_none());
    let h = c.header();
    assert_eq!(h.struct_version, 3);
    assert!(check_header(h, DRM_BACKEND_CONFIG_VERSION, DRM_BACKEND_CONFIG_SIZE));
}

#[test]
fn backend_refuses_foreign_record_versions() {
    let newer = BackendConfigHeader { struct_version: 3, struct_size: WAYLAND_BACKEND_CONFIG_SIZE };
    assert!(!check_header(newer, WAYLAND_BACKEND_CONFIG_VERSION, WAYLAND_BACKEND_CONFIG_SIZE));
    let grown = BackendConfigHeader { struct_version: 2, struct_size: WAYLAND_BACKEND_CONFIG_SIZE + 8 };
    assert!(!check_header(grown, WAYLAND_BACKEND_CONFIG_VERSION, WAYLAND_BACKEND_CONFIG_SIZE));
    let smaller = BackendConfigHeader { struct_version: 2, struct_size: 16 };
    assert!(check_header(smaller, WAYLAND_BACKEND_CONFIG_VERSION, WAYLAND_BACKEND_CONFIG_SIZE));
}
