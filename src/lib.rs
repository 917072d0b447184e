//! A verified model of safe bindings to a compositor's foreign object graph.
//!
//! Foreign objects are known by address and reached through handles of two
//! flavours: [`handle::Owned`], which destroys its object exactly once, and
//! [`handle::Ref`], which only aliases it. Fields are projected into handles
//! (`None` for a null pointer), per-object payloads move in and out of
//! [`user_data::UserDataTable`], and foreign callbacks reach user code through
//! registration tables: [`signal::SignalHub`] for listeners and
//! [`grab::GrabTable`] for input grabs. Raw enumerations from the foreign side
//! decode totally ([`protocol`]). [`layer::Scene`] and [`shell`] hold the
//! stacking and click-to-focus policy of a simple desktop shell.
use vstd::prelude::*;

pub mod accessor;
pub mod backend;
pub mod binding;
pub mod compositor;
pub mod desktop;
pub mod grab;
pub mod handle;
pub mod launcher;
pub mod layer;
pub mod matrix;
pub mod output;
pub mod output_api;
pub mod protocol;
pub mod seat;
pub mod shell;
pub mod signal;
pub mod surface;
pub mod trampoline;
pub mod user_data;

pub use binding::{Binding, BindingKind, BindingTable};
pub use compositor::CompositorRef;
pub use desktop::{DesktopClient, DesktopEvent, DesktopSurface, DesktopSurfaceRef};
pub use grab::{GrabTable, GrabTarget};
pub use handle::{ForeignHeap, Handle, ObjectKind, Owned, Ref, NULL_ADDR};
pub use layer::Scene;
pub use matrix::{Matrix, TransformType};
pub use output::OutputRef;
pub use output_api::{DrmOutput, PluginApi, PluginRegistry, WindowedOutput};
pub use protocol::{
    ActivateFlag, Axis, AxisSource, ButtonState, DrmBackendOutputMode, KeyState, KeyboardLed,
    KeyboardLock, KeyboardModifier, PointerMotionMask, Resize, SurfaceEdge,
};
pub use seat::{DeviceRef, SeatRef};
pub use shell::{ClickOutcome, DesktopShell, ShellError, WindowState};
pub use signal::SignalHub;
pub use surface::SurfaceRef;
pub use user_data::UserDataTable;

verus! {

} // verus!
