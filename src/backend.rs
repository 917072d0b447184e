//! Backend configuration records.
//!
//! A backend reads its configuration from a record that starts with a
//! version and the record's size. The backend refuses a record of another
//! version or one larger than it knows, instead of reading past its end.
use vstd::prelude::*;

verus! {

/// Version of the Wayland-backend record this crate fills.
pub const WAYLAND_BACKEND_CONFIG_VERSION: u32 = 2;

/// Version of the DRM-backend record this crate fills.
pub const DRM_BACKEND_CONFIG_VERSION: u32 = 3;

/// Size of the Wayland-backend record this crate fills.
pub const WAYLAND_BACKEND_CONFIG_SIZE: usize = 56;

/// Size of the DRM-backend record this crate fills.
pub const DRM_BACKEND_CONFIG_SIZE: usize = 56;

/// Cursor size of a Wayland backend unless set otherwise.
pub const DEFAULT_CURSOR_SIZE: i32 = 16;

/// The start of every backend configuration record.
#[derive(Debug, Clone, Copy, PartialEq, Eq, Structural)]
pub struct BackendConfigHeader {
    pub struct_version: u32,
    pub struct_size: usize,
}

/// Whether a backend that knows `version` records of `known_size` bytes
/// accepts a record with header `h`.
pub open spec fn header_accepted(h: BackendConfigHeader, version: u32, known_size: usize) -> bool {
    h.struct_version == version && h.struct_size <= known_size
}

/// The check a backend makes before it reads a configuration record.
pub fn check_header(h: BackendConfigHeader, version: u32, known_size: usize) -> (r: bool)
    ensures
        r == header_accepted(h, version, known_size),
{
    h.struct_version == version && h.struct_size <= known_size
}

/// Configuration of the backend that runs inside another Wayland session.
#[derive(Debug)]
pub struct WaylandBackendConfig {
    pub use_pixman: bool,
    pub sprawl: bool,
    pub display_name: Option<String>,
    pub fullscreen: bool,
    pub cursor_theme: String,
    pub cursor_size: i32,
}

impl WaylandBackendConfig {
    /// The default configuration: GL renderer, one window, the host's
    /// default display, "default" cursor theme at size 16.
    pub fn new() -> (r: WaylandBackendConfig)
        ensures
            !r.use_pixman && !r.sprawl && !r.fullscreen,
            r.display_name is None,
            r.cursor_theme@ == "default"@,
            r.cursor_size == DEFAULT_CURSOR_SIZE,
    {
        WaylandBackendConfig {
            use_pixman: false,
            sprawl: false,
            display_name: None,
            fullscreen: false,
            cursor_theme: "default".to_owned(),
            cursor_size: DEFAULT_CURSOR_SIZE,
        }
    }

    /// Header of the record this configuration is handed over in.
    pub fn header(&self) -> (r: BackendConfigHeader)
        ensures
            r == (BackendConfigHeader {
                struct_version: WAYLAND_BACKEND_CONFIG_VERSION,
                struct_size: WAYLAND_BACKEND_CONFIG_SIZE,
            }),
    {
        BackendConfigHeader {
            struct_version: WAYLAND_BACKEND_CONFIG_VERSION,
            struct_size: WAYLAND_BACKEND_CONFIG_SIZE,
        }
    }
}

impl Default for WaylandBackendConfig {
    fn default() -> (r: WaylandBackendConfig)
        ensures
            !r.use_pixman && !r.sprawl && !r.fullscreen,
            r.display_name is None,
            r.cursor_theme@ == "default"@,
            r.cursor_size == DEFAULT_CURSOR_SIZE,
    {
        WaylandBackendConfig::new()
    }
}

/// Configuration of the backend that drives the hardware through DRM.
#[derive(Debug)]
pub struct DrmBackendConfig {
    pub tty: i32,
    pub use_pixman: bool,
    /// `None` lets the backend pick its default seat.
    pub seat_id: Option<String>,
    /// `None` lets the backend pick its default format.
    pub gbm_format: Option<String>,
    pub pageflip_timeout: u32,
}

impl DrmBackendConfig {
    /// The default configuration: current tty, GL renderer, backend defaults
    /// for seat and format, no page-flip timeout.
    pub fn new() -> (r: DrmBackendConfig)
        ensures
            r.tty == 0 && !r.use_pixman && r.pageflip_timeout == 0,
            r.seat_id is None && r.gbm_format is None,
    {
        DrmBackendConfig { tty: 0, use_pixman: false, seat_id: None, gbm_format: None, pageflip_timeout: 0 }
    }

    /// Header of the record this configuration is handed over in.
    pub fn header(&self) -> (r: BackendConfigHeader)
        ensures
            r == (BackendConfigHeader {
                struct_version: DRM_BACKEND_CONFIG_VERSION,
                struct_size: DRM_BACKEND_CONFIG_SIZE,
            }),
    {
        BackendConfigHeader {
            struct_version: DRM_BACKEND_CONFIG_VERSION,
            struct_size: DRM_BACKEND_CONFIG_SIZE,
        }
    }
}

impl Default for DrmBackendConfig {
    fn default() -> (r: DrmBackendConfig)
        ensures
            r.tty == 0 && !r.use_pixman && r.pageflip_timeout == 0,
            r.seat_id is None && r.gbm_format is None,
    {
        DrmBackendConfig::new()
    }
}

} // verus!
