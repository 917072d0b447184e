//! Seats and their input devices.
use vstd::prelude::*;
use crate::accessor::{
    optional_field, scalar_field, DEVICE_FOCUS, DEVICE_GRAB_SERIAL, DEVICE_SEAT,
    POINTER_BUTTON_COUNT, SEAT_KEYBOARD, SEAT_POINTER, SEAT_TOUCH,
};
use crate::handle::{ForeignHeap, ObjectKind, Ref, NULL_ADDR};

verus! {

/// Borrowed handle to a seat: a group of input devices used by one person.
#[derive(Debug, Clone, Copy, PartialEq, Eq, Structural)]
pub struct SeatRef {
    handle: Ref,
}

impl SeatRef {
    pub closed spec fn addr_spec(&self) -> u64 {
        self.handle.addr_spec()
    }

    /// A seat handle for `h`, when it names a seat.
    pub fn from_ref(heap: &ForeignHeap, h: Ref) -> (r: Option<SeatRef>)
        requires
            heap@.wf(),
        ensures
            r is Some <==> heap@.contains(h.addr_spec()) && heap@.record(h.addr_spec()).kind
                == ObjectKind::Seat,
            r matches Some(s) ==> s.addr_spec() == h.addr_spec(),
    {
        match heap.kind_of(h.as_ptr()) {
            Some(ObjectKind::Seat) => Some(SeatRef { handle: h }),
            _ => None,
        }
    }

    pub fn as_ptr(&self) -> (r: u64)
        ensures
            r == self.addr_spec(),
    {
        self.handle.as_ptr()
    }

    /// The seat's pointer, if it has one.
    pub fn get_pointer(&self, heap: &ForeignHeap) -> (r: Option<Ref>)
        requires
            heap@.wf(),
            heap@.contains(self.addr_spec()),
        ensures
            r is None <==> heap@.field(self.addr_spec(), SEAT_POINTER as int) == NULL_ADDR,
            r matches Some(p) ==> p.addr_spec() == heap@.field(self.addr_spec(), SEAT_POINTER as int)
                && p.kind_spec() == ObjectKind::Pointer,
    {
        optional_field(heap, self.handle, SEAT_POINTER, ObjectKind::Pointer)
    }

    /// The seat's keyboard, if it has one.
    pub fn get_keyboard(&self, heap: &ForeignHeap) -> (r: Option<Ref>)
        requires
            heap@.wf(),
            heap@.contains(self.addr_spec()),
        ensures
            r is None <==> heap@.field(self.addr_spec(), SEAT_KEYBOARD as int) == NULL_ADDR,
            r matches Some(k) ==> k.addr_spec() == heap@.field(self.addr_spec(), SEAT_KEYBOARD as int)
                && k.kind_spec() == ObjectKind::Keyboard,
    {
        optional_field(heap, self.handle, SEAT_KEYBOARD, ObjectKind::Keyboard)
    }

    /// The seat's touch device, if it has one.
    pub fn get_touch(&self, heap: &ForeignHeap) -> (r: Option<Ref>)
        requires
            heap@.wf(),
            heap@.contains(self.addr_spec()),
        ensures
            r is None <==> heap@.field(self.addr_spec(), SEAT_TOUCH as int) == NULL_ADDR,
            r matches Some(t) ==> t.addr_spec() == heap@.field(self.addr_spec(), SEAT_TOUCH as int)
                && t.kind_spec() == ObjectKind::Touch,
    {
        optional_field(heap, self.handle, SEAT_TOUCH, ObjectKind::Touch)
    }
}

/// Borrowed handle to a pointer, keyboard or touch device.
#[derive(Debug, Clone, Copy, PartialEq, Eq, Structural)]
pub struct DeviceRef {
    handle: Ref,
}

impl DeviceRef {
    pub closed spec fn addr_spec(&self) -> u64 {
        self.handle.addr_spec()
    }

    /// A device handle for `h`, when it names a pointer, keyboard or touch
    /// device.
    pub fn from_ref(heap: &ForeignHeap, h: Ref) -> (r: Option<DeviceRef>)
        requires
            heap@.wf(),
        ensures
            r is Some <==> heap@.contains(h.addr_spec()) && crate::grab::is_device_kind(
                heap@.record(h.addr_spec()).kind,
            ),
            r matches Some(d) ==> d.addr_spec() == h.addr_spec(),
    {
        match heap.kind_of(h.as_ptr()) {
            Some(ObjectKind::Pointer) | Some(ObjectKind::Keyboard) | Some(ObjectKind::Touch) => Some(
                DeviceRef { handle: h },
            ),
            _ => None,
        }
    }

    pub fn as_ptr(&self) -> (r: u64)
        ensures
            r == self.addr_spec(),
    {
        self.handle.as_ptr()
    }

    /// The seat the device belongs to.
    pub fn seat(&self, heap: &ForeignHeap) -> (r: Option<Ref>)
        requires
            heap@.wf(),
            heap@.contains(self.addr_spec()),
        ensures
            r is None <==> heap@.field(self.addr_spec(), DEVICE_SEAT as int) == NULL_ADDR,
            r matches Some(s) ==> s.addr_spec() == heap@.field(self.addr_spec(), DEVICE_SEAT as int)
                && s.kind_spec() == ObjectKind::Seat,
    {
        optional_field(heap, self.handle, DEVICE_SEAT, ObjectKind::Seat)
    }

    /// What the device is focused on, if anything: a view for a pointer or
    /// touch device, a surface for a keyboard (`kind` says which).
    pub fn focus(&self, heap: &ForeignHeap, kind: ObjectKind) -> (r: Option<Ref>)
        requires
            heap@.wf(),
            heap@.contains(self.addr_spec()),
        ensures
            r is None <==> heap@.field(self.addr_spec(), DEVICE_FOCUS as int) == NULL_ADDR,
            r matches Some(f) ==> f.addr_spec() == heap@.field(self.addr_spec(), DEVICE_FOCUS as int)
                && f.kind_spec() == kind,
    {
        optional_field(heap, self.handle, DEVICE_FOCUS, kind)
    }

    /// Number of buttons held down on a pointer.
    pub fn button_count(&self, heap: &ForeignHeap) -> (r: u64)
        requires
            heap@.wf(),
            heap@.contains(self.addr_spec()),
        ensures
            r == heap@.field(self.addr_spec(), POINTER_BUTTON_COUNT as int),
    {
        scalar_field(heap, self.handle, POINTER_BUTTON_COUNT)
    }

    /// Serial of the event that last pressed a button or key.
    pub fn grab_serial(&self, heap: &ForeignHeap) -> (r: u64)
        requires
            heap@.wf(),
            heap@.contains(self.addr_spec()),
        ensures
            r == heap@.field(self.addr_spec(), DEVICE_GRAB_SERIAL as int),
    {
        scalar_field(heap, self.handle, DEVICE_GRAB_SERIAL)
    }
}

} // verus!
