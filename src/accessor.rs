//! Field projection: reading a field of a foreign object and wrapping it.
//!
//! One helper per shape of field: a scalar is copied out, a pointer that is
//! always set becomes a [`Ref`], a nullable pointer becomes `Option<Ref>`.
use vstd::prelude::*;
use crate::handle::{ForeignHeap, ObjectKind, Ref, FIELD_COUNT, NULL_ADDR};

verus! {

pub const COMPOSITOR_FIRST_SEAT: usize = 0;

pub const SEAT_POINTER: usize = 0;
pub const SEAT_KEYBOARD: usize = 1;
pub const SEAT_TOUCH: usize = 2;

/// Fields shared by pointer, keyboard and touch devices.
pub const DEVICE_SEAT: usize = 0;
pub const DEVICE_FOCUS: usize = 1;
pub const DEVICE_GRAB: usize = 4;
pub const DEVICE_GRAB_SERIAL: usize = 6;

pub const POINTER_BUTTON_COUNT: usize = 3;

pub const VIEW_SURFACE: usize = 0;

pub const SURFACE_COMPOSITOR: usize = 0;
pub const SURFACE_DESKTOP: usize = 3;
pub const SURFACE_WIDTH: usize = 4;
pub const SURFACE_HEIGHT: usize = 5;
/// Red and green of the solid colour, as `f32` bit patterns (red high).
pub const SURFACE_COLOR_RG: usize = 6;
/// Blue and alpha of the solid colour, as `f32` bit patterns (blue high).
pub const SURFACE_COLOR_BA: usize = 7;

pub const HEAD_OUTPUT: usize = 0;

pub const OUTPUT_WIDTH: usize = 2;
pub const OUTPUT_HEIGHT: usize = 3;
pub const OUTPUT_ENABLED: usize = 4;
pub const OUTPUT_MODE: usize = 5;

pub const DESKTOP_SURFACE_SURFACE: usize = 0;
pub const DESKTOP_SURFACE_CLIENT: usize = 1;
pub const DESKTOP_SURFACE_ACTIVATED: usize = 2;
pub const DESKTOP_SURFACE_MAXIMIZED: usize = 3;
pub const DESKTOP_SURFACE_FULLSCREEN: usize = 4;
pub const DESKTOP_SURFACE_RESIZING: usize = 5;

/// Copies out a scalar field.
pub fn scalar_field(heap: &ForeignHeap, obj: Ref, f: usize) -> (r: u64)
    requires
        heap@.wf(),
        heap@.contains(obj.addr_spec()),
        f < FIELD_COUNT,
    ensures
        r == heap@.field(obj.addr_spec(), f as int),
{
    heap.read_field(obj.as_ptr(), f)
}

/// Projects a pointer field that the foreign library always sets.
pub fn required_field(heap: &ForeignHeap, obj: Ref, f: usize, kind: ObjectKind) -> (r: Ref)
    requires
        heap@.wf(),
        heap@.contains(obj.addr_spec()),
        f < FIELD_COUNT,
        heap@.field(obj.addr_spec(), f as int) != NULL_ADDR,
    ensures
        r.addr_spec() == heap@.field(obj.addr_spec(), f as int),
        r.kind_spec() == kind,
{
    Ref::from_parts(heap.read_field(obj.as_ptr(), f), kind)
}

/// Projects a nullable pointer field: `None` exactly when it holds the null
/// address, else a borrowed handle to exactly the address it holds.
pub fn optional_field(heap: &ForeignHeap, obj: Ref, f: usize, kind: ObjectKind) -> (r: Option<Ref>)
    requires
        heap@.wf(),
        heap@.contains(obj.addr_spec()),
        f < FIELD_COUNT,
    ensures
        r is None <==> heap@.field(obj.addr_spec(), f as int) == NULL_ADDR,
        r matches Some(h) ==> h.addr_spec() == heap@.field(obj.addr_spec(), f as int)
            && h.kind_spec() == kind,
{
    Ref::from_borrowed_ptr(heap.read_field(obj.as_ptr(), f), kind)
}

} // verus!
