//! Grabs: swapping the receiver of a device's input events.
//!
//! Each pointer, keyboard or touch device embeds a default grab at a fixed
//! offset and keeps, in a field, the address of the grab that receives its
//! events. Starting a grab allocates a wrapper record that places the
//! interface table first and the grab structure after it, and points the
//! device at that grab structure; ending it points the device back at its
//! default grab and retires the wrapper, exactly once.
use vstd::prelude::*;
use crate::accessor::DEVICE_GRAB;
use crate::handle::{ForeignHeap, HeapModel, ObjectKind, Ref, OBJECT_STRIDE};
use crate::protocol::{
    Axis, AxisSource, ButtonState, KeyState, KeyboardModifier, PointerMotionMask, MODIFIER_ALL,
    MOTION_ALL,
};
use crate::trampoline::{container_of, container_of_spec};

verus! {

/// Offset of the default grab embedded in a device.
pub const DEFAULT_GRAB_OFFSET: u64 = 512;

/// Address of the first grab wrapper.
pub const GRAB_BASE: u64 = 0x2_0000_0000_0000;

/// Size of one grab wrapper.
pub const GRAB_RECORD_SIZE: u64 = 128;

/// Offset of the grab structure inside its wrapper; the interface table is
/// at offset zero.
pub const GRAB_STRUCT_OFFSET: u64 = 64;

/// Most grabs one table can hold over its lifetime.
pub const MAX_GRABS: usize = 0x10_0000;

pub open spec fn is_device_kind(kind: ObjectKind) -> bool {
    kind == ObjectKind::Pointer || kind == ObjectKind::Keyboard || kind == ObjectKind::Touch
}

/// Address of the default grab embedded in the device at `dev`.
pub open spec fn default_grab_addr(dev: u64) -> int {
    dev as int + DEFAULT_GRAB_OFFSET as int
}

/// Address of wrapper `i`.
pub open spec fn wrapper_addr(i: int) -> int {
    GRAB_BASE as int + i * (GRAB_RECORD_SIZE as int)
}

/// Address of the grab structure of wrapper `i`.
pub open spec fn grab_struct_addr(i: int) -> int {
    wrapper_addr(i) + GRAB_STRUCT_OFFSET as int
}

pub open spec fn grab_index(g: u64) -> int {
    (g as int - GRAB_STRUCT_OFFSET as int - GRAB_BASE as int) / (GRAB_RECORD_SIZE as int)
}

pub open spec fn is_grab_shape(g: u64) -> bool {
    &&& g as int >= GRAB_BASE as int + GRAB_STRUCT_OFFSET as int
    &&& (g as int - GRAB_STRUCT_OFFSET as int - GRAB_BASE as int) % (GRAB_RECORD_SIZE as int) == 0
}

/// Who receives the next event of a device.
#[derive(Debug, Clone, Copy, PartialEq, Eq, Structural)]
pub enum GrabTarget {
    /// The device's default handler.
    Default,
    /// The grab whose grab structure is at this address.
    Grab(u64),
}

/// A device is ready for grabs: the object exists, is a device, and its
/// address leaves room for the embedded default grab.
pub open spec fn is_device(h: HeapModel, dev: u64) -> bool {
    &&& h.contains(dev)
    &&& is_device_kind(h.record(dev).kind)
    &&& dev as int + DEFAULT_GRAB_OFFSET as int <= u64::MAX
}

/// Where the events of `dev` go in table state `h`.
pub open spec fn route_spec(h: HeapModel, dev: u64) -> GrabTarget {
    if h.field(dev, DEVICE_GRAB as int) as int == default_grab_addr(dev) {
        GrabTarget::Default
    } else {
        GrabTarget::Grab(h.field(dev, DEVICE_GRAB as int))
    }
}

/// `after` is `before` with the active grab of `dev` set to `g`.
pub open spec fn grab_set(before: HeapModel, after: HeapModel, dev: u64, g: u64) -> bool {
    &&& after.wf()
    &&& after.records == before.records
    &&& after.fields == before.fields.update(
        crate::handle::index_of(dev) * (crate::handle::FIELD_COUNT as int) + DEVICE_GRAB as int,
        g,
    )
}

/// Lifecycle of a grab wrapper.
#[derive(Debug, Clone, Copy, PartialEq, Eq, Structural)]
pub enum GrabState {
    /// Installed on its device; trampolines may reach it.
    Active,
    /// Ended; its wrapper has been retired and no trampoline reaches it.
    Ended,
}

#[derive(Debug, Clone, Copy, PartialEq, Eq, Structural)]
pub struct GrabRecord {
    pub device: u64,
    /// Kind of the device: pointer, keyboard or touch.
    pub kind: ObjectKind,
    pub state: GrabState,
}

/// Every grab wrapper allocated so far.
pub struct GrabTable {
    records: Vec<GrabRecord>,
}

impl GrabTable {
    pub closed spec fn len(&self) -> nat {
        self.records.len() as nat
    }

    pub closed spec fn record(&self, i: int) -> GrabRecord {
        self.records@[i]
    }

    pub closed spec fn wf(&self) -> bool {
        self.records.len() <= MAX_GRABS
    }

    /// `g` is the grab structure of an active grab.
    pub open spec fn is_active(&self, g: u64) -> bool {
        &&& is_grab_shape(g)
        &&& grab_index(g) < self.len()
        &&& self.record(grab_index(g)).state == GrabState::Active
    }

    pub fn new() -> (r: GrabTable)
        ensures
            r.wf(),
            r.len() == 0,
    {
        GrabTable { records: Vec::new() }
    }

    /// Points `dev` at its default grab, as the foreign library does when it
    /// creates a device.
    pub fn install_default_grab(heap: &mut ForeignHeap, dev: Ref)
        requires
            old(heap)@.wf(),
            is_device(old(heap)@, dev.addr_spec()),
        ensures
            grab_set(old(heap)@, final(heap)@, dev.addr_spec(), default_grab_addr(dev.addr_spec()) as u64),
            route_spec(final(heap)@, dev.addr_spec()) == GrabTarget::Default,
    {
        let d = dev.as_ptr();
        heap.write_field(d, DEVICE_GRAB, d + DEFAULT_GRAB_OFFSET);
    }

    /// Whether the events of `dev` go to its default handler.
    pub fn is_default_grab(heap: &ForeignHeap, dev: Ref) -> (r: bool)
        requires
            heap@.wf(),
            is_device(heap@, dev.addr_spec()),
        ensures
            r == (route_spec(heap@, dev.addr_spec()) == GrabTarget::Default),
    {
        let d = dev.as_ptr();
        heap.read_field(d, DEVICE_GRAB) == d + DEFAULT_GRAB_OFFSET
    }

    /// Where the next event of `dev` goes.
    pub fn route(heap: &ForeignHeap, dev: Ref) -> (r: GrabTarget)
        requires
            heap@.wf(),
            is_device(heap@, dev.addr_spec()),
        ensures
            r == route_spec(heap@, dev.addr_spec()),
    {
        let d = dev.as_ptr();
        let g = heap.read_field(d, DEVICE_GRAB);
        if g == d + DEFAULT_GRAB_OFFSET {
            GrabTarget::Default
        } else {
            GrabTarget::Grab(g)
        }
    }

    /// Starts a grab on `dev`, which must be in its default grab. Returns the
    /// address of the new grab structure, now the device's active grab, or
    /// `None` when the table is full.
    pub fn start_grab(&mut self, heap: &mut ForeignHeap, dev: Ref) -> (r: Option<u64>)
        requires
            old(self).wf(),
            old(heap)@.wf(),
            is_device(old(heap)@, dev.addr_spec()),
            route_spec(old(heap)@, dev.addr_spec()) == GrabTarget::Default,
        ensures
            final(self).wf(),
            r is None <==> old(self).len() >= MAX_GRABS,
            r is None ==> *final(self) == *old(self) && final(heap)@ == old(heap)@,
            r matches Some(g) ==> {
                &&& g == grab_struct_addr(old(self).len() as int)
                &&& grab_index(g) == old(self).len()
                &&& final(self).is_active(g)
                &&& final(self).record(grab_index(g)).device == dev.addr_spec()
                &&& final(self).record(grab_index(g)).kind == old(heap)@.record(dev.addr_spec()).kind
                &&& grab_set(old(heap)@, final(heap)@, dev.addr_spec(), g)
                &&& route_spec(final(heap)@, dev.addr_spec()) == GrabTarget::Grab(g)
            },
            final(self).len() >= old(self).len(),
            forall|i: int| 0 <= i < old(self).len() ==> final(self).record(i) == old(self).record(i),
    {
        if self.records.len() >= MAX_GRABS {
            return None;
        }
        let i = self.records.len();
        let g = GRAB_BASE + (i as u64) * GRAB_RECORD_SIZE + GRAB_STRUCT_OFFSET;
        assert(grab_index(g) == i as int);
        let d = dev.as_ptr();
        let kind = match heap.kind_of(d) {
            Some(k) => k,
            None => ObjectKind::Pointer,
        };
        self.records.push(GrabRecord { device: d, kind, state: GrabState::Active });
        heap.write_field(d, DEVICE_GRAB, g);
        assert(g as int != default_grab_addr(d)) by {
            assert(d as int <= 0x10_0000 * OBJECT_STRIDE as int);
        }
        Some(g)
    }

    /// Ends the active grab of `dev`: the device goes back to its default
    /// grab and the wrapper is retired. Returns the grab structure that was
    /// ended.
    pub fn end_grab(&mut self, heap: &mut ForeignHeap, dev: Ref) -> (r: u64)
        requires
            old(self).wf(),
            old(heap)@.wf(),
            is_device(old(heap)@, dev.addr_spec()),
            old(self).is_active(old(heap)@.field(dev.addr_spec(), DEVICE_GRAB as int)),
        ensures
            final(self).wf(),
            r == old(heap)@.field(dev.addr_spec(), DEVICE_GRAB as int),
            grab_set(old(heap)@, final(heap)@, dev.addr_spec(), default_grab_addr(dev.addr_spec()) as u64),
            route_spec(final(heap)@, dev.addr_spec()) == GrabTarget::Default,
            !final(self).is_active(r),
            final(self).len() == old(self).len(),
            forall|g: u64| g != r ==> (final(self).is_active(g) <==> old(self).is_active(g)),
    {
        let d = dev.as_ptr();
        let g = heap.read_field(d, DEVICE_GRAB);
        let i = ((g - GRAB_STRUCT_OFFSET - GRAB_BASE) / GRAB_RECORD_SIZE) as usize;
        let rec = self.records[i];
        self.records.set(i, GrabRecord { state: GrabState::Ended, ..rec });
        heap.write_field(d, DEVICE_GRAB, d + DEFAULT_GRAB_OFFSET);
        assert forall|h: u64| h != g implies (self.is_active(h) <==> old(self).is_active(h)) by {
            if is_grab_shape(h) && grab_index(h) == i as int {
                assert(h == g);
            }
        }
        g
    }

    /// The trampoline of the interface shape: from the grab structure that
    /// the foreign side passes, recovers the wrapper (whose interface table
    /// is its first member). `None` for anything that is not an active grab.
    pub fn resolve(&self, g: u64) -> (r: Option<u64>)
        requires
            self.wf(),
        ensures
            r is Some <==> self.is_active(g),
            r matches Some(w) ==> w == container_of_spec(g, GRAB_STRUCT_OFFSET) && w
                == wrapper_addr(grab_index(g)),
    {
        if g < GRAB_BASE + GRAB_STRUCT_OFFSET {
            return None;
        }
        let off = g - GRAB_STRUCT_OFFSET - GRAB_BASE;
        if off % GRAB_RECORD_SIZE != 0 {
            return None;
        }
        let i = off / GRAB_RECORD_SIZE;
        if i >= self.records.len() as u64 {
            return None;
        }
        match self.records[i as usize].state {
            GrabState::Active => Some(container_of(g, GRAB_STRUCT_OFFSET)),
            GrabState::Ended => None,
        }
    }

    /// Device that the grab with structure `g` was started on.
    pub fn device_of(&self, g: u64) -> (r: Option<u64>)
        requires
            self.wf(),
        ensures
            r is Some <==> (is_grab_shape(g) && grab_index(g) < self.len()),
            r matches Some(d) ==> d == self.record(grab_index(g)).device,
    {
        if g < GRAB_BASE + GRAB_STRUCT_OFFSET {
            return None;
        }
        let off = g - GRAB_STRUCT_OFFSET - GRAB_BASE;
        if off % GRAB_RECORD_SIZE != 0 {
            return None;
        }
        let i = off / GRAB_RECORD_SIZE;
        if i >= self.records.len() as u64 {
            return None;
        }
        Some(self.records[i as usize].device)
    }
}

/// Pointer motion as the foreign side reports it; the coordinates are the
/// bit patterns of `f64` values and pass through untouched.
#[derive(Debug, Clone, Copy, PartialEq, Eq, Structural)]
pub struct MotionEvent {
    pub mask: PointerMotionMask,
    pub x: u64,
    pub y: u64,
    pub dx: u64,
    pub dy: u64,
    pub dx_unaccel: u64,
    pub dy_unaccel: u64,
}

/// Pointer scrolling as the foreign side reports it; `value` is the bit
/// pattern of an `f64`.
#[derive(Debug, Clone, Copy, PartialEq, Eq, Structural)]
pub struct AxisEvent {
    pub axis: Axis,
    pub value: u64,
    pub has_discrete: bool,
    pub discrete: i32,
}

/// A call into a grab's interface table, arguments still raw.
#[derive(Debug, Clone, Copy, PartialEq, Eq, Structural)]
pub enum GrabCall {
    PointerFocus,
    PointerMotion { mask: u32, x: u64, y: u64, dx: u64, dy: u64, dx_unaccel: u64, dy_unaccel: u64 },
    PointerButton { button: u32, state: u32 },
    PointerAxis { axis: u32, value: u64, has_discrete: bool, discrete: i32 },
    PointerAxisSource { source: u32 },
    PointerFrame,
    PointerCancel,
    Key { key: u32, state: u32 },
    Modifiers { serial: u32, depressed: u32, latched: u32, locked: u32, group: u32 },
    KeyboardCancel,
    TouchDown { touch_id: i32, sx: i32, sy: i32 },
    TouchUp { touch_id: i32 },
    TouchMotion { touch_id: i32, sx: i32, sy: i32 },
    TouchFrame,
    TouchCancel,
}

/// A grab call with its arguments decoded.
#[derive(Debug, Clone, Copy, PartialEq, Eq, Structural)]
#[allow(inconsistent_fields)]
pub enum GrabEvent {
    PointerFocus,
    PointerMotion(MotionEvent),
    PointerButton { button: u32, state: ButtonState },
    PointerAxis(AxisEvent),
    PointerAxisSource(AxisSource),
    PointerFrame,
    PointerCancel,
    Key { key: u32, state: KeyState },
    Modifiers {
        serial: u32,
        depressed: KeyboardModifier,
        latched: KeyboardModifier,
        locked: KeyboardModifier,
        group: u32,
    },
    KeyboardCancel,
    TouchDown { touch_id: i32, sx: i32, sy: i32 },
    TouchUp { touch_id: i32 },
    TouchMotion { touch_id: i32, sx: i32, sy: i32 },
    TouchFrame,
    TouchCancel,
}

/// One call a grab trampoline makes into user code.
#[derive(Debug, Clone, Copy, PartialEq, Eq, Structural)]
pub struct GrabInvocation {
    /// Address of the grab's wrapper, where the user state lives.
    pub wrapper: u64,
    /// The device the grab is on.
    pub device: Ref,
    pub event: GrabEvent,
}

/// Kind of device a call is meant for.
pub open spec fn call_kind(call: GrabCall) -> ObjectKind {
    match call {
        GrabCall::Key { .. } | GrabCall::Modifiers { .. } | GrabCall::KeyboardCancel => ObjectKind::Keyboard,
        GrabCall::TouchDown { .. } | GrabCall::TouchUp { .. } | GrabCall::TouchMotion { .. }
        | GrabCall::TouchFrame | GrabCall::TouchCancel => ObjectKind::Touch,
        _ => ObjectKind::Pointer,
    }
}

/// Decoding of one call's arguments; unknown enumeration values take their
/// fallback and unknown flag bits are dropped.
pub open spec fn decode_spec(call: GrabCall) -> GrabEvent {
    match call {
        GrabCall::PointerFocus => GrabEvent::PointerFocus,
        GrabCall::PointerMotion { mask, x, y, dx, dy, dx_unaccel, dy_unaccel } => GrabEvent::PointerMotion(
            MotionEvent {
                mask: PointerMotionMask::from_bits_spec(mask & MOTION_ALL),
                x,
                y,
                dx,
                dy,
                dx_unaccel,
                dy_unaccel,
            },
        ),
        GrabCall::PointerButton { button, state } => GrabEvent::PointerButton {
            button,
            state: if state == 1 { ButtonState::Pressed } else { ButtonState::Released },
        },
        GrabCall::PointerAxis { axis, value, has_discrete, discrete } => GrabEvent::PointerAxis(
            AxisEvent {
                axis: if axis == 1 { Axis::HorizontalScroll } else { Axis::VerticalScroll },
                value,
                has_discrete,
                discrete,
            },
        ),
        GrabCall::PointerAxisSource { source } => GrabEvent::PointerAxisSource(
            if source == 1 {
                AxisSource::Finger
            } else if source == 2 {
                AxisSource::Continuous
            } else if source == 3 {
                AxisSource::WheelTilt
            } else {
                AxisSource::Wheel
            },
        ),
        GrabCall::PointerFrame => GrabEvent::PointerFrame,
        GrabCall::PointerCancel => GrabEvent::PointerCancel,
        GrabCall::Key { key, state } => GrabEvent::Key {
            key,
            state: if state == 1 { KeyState::Pressed } else { KeyState::Released },
        },
        GrabCall::Modifiers { serial, depressed, latched, locked, group } => GrabEvent::Modifiers {
            serial,
            depressed: KeyboardModifier::from_bits_spec(depressed & MODIFIER_ALL),
            latched: KeyboardModifier::from_bits_spec(latched & MODIFIER_ALL),
            locked: KeyboardModifier::from_bits_spec(locked & MODIFIER_ALL),
            group,
        },
        GrabCall::KeyboardCancel => GrabEvent::KeyboardCancel,
        GrabCall::TouchDown { touch_id, sx, sy } => GrabEvent::TouchDown { touch_id, sx, sy },
        GrabCall::TouchUp { touch_id } => GrabEvent::TouchUp { touch_id },
        GrabCall::TouchMotion { touch_id, sx, sy } => GrabEvent::TouchMotion { touch_id, sx, sy },
        GrabCall::TouchFrame => GrabEvent::TouchFrame,
        GrabCall::TouchCancel => GrabEvent::TouchCancel,
    }
}

/// Decodes the raw arguments of a grab call.
pub fn decode_grab_call(call: GrabCall) -> (r: GrabEvent)
    ensures
        r == decode_spec(call),
{
    match call {
        GrabCall::PointerFocus => GrabEvent::PointerFocus,
        GrabCall::PointerMotion { mask, x, y, dx, dy, dx_unaccel, dy_unaccel } => GrabEvent::PointerMotion(
            MotionEvent {
                mask: PointerMotionMask::from_bits_truncate(mask),
                x,
                y,
                dx,
                dy,
                dx_unaccel,
                dy_unaccel,
            },
        ),
        GrabCall::PointerButton { button, state } => GrabEvent::PointerButton {
            button,
            state: ButtonState::from_raw(state),
        },
        GrabCall::PointerAxis { axis, value, has_discrete, discrete } => GrabEvent::PointerAxis(
            AxisEvent { axis: Axis::from_raw(axis), value, has_discrete, discrete },
        ),
        GrabCall::PointerAxisSource { source } => GrabEvent::PointerAxisSource(
            AxisSource::from_raw(source),
        ),
        GrabCall::PointerFrame => GrabEvent::PointerFrame,
        GrabCall::PointerCancel => GrabEvent::PointerCancel,
        GrabCall::Key { key, state } => GrabEvent::Key { key, state: KeyState::from_raw(state) },
        GrabCall::Modifiers { serial, depressed, latched, locked, group } => GrabEvent::Modifiers {
            serial,
            depressed: KeyboardModifier::from_bits_truncate(depressed),
            latched: KeyboardModifier::from_bits_truncate(latched),
            locked: KeyboardModifier::from_bits_truncate(locked),
            group,
        },
        GrabCall::KeyboardCancel => GrabEvent::KeyboardCancel,
        GrabCall::TouchDown { touch_id, sx, sy } => GrabEvent::TouchDown { touch_id, sx, sy },
        GrabCall::TouchUp { touch_id } => GrabEvent::TouchUp { touch_id },
        GrabCall::TouchMotion { touch_id, sx, sy } => GrabEvent::TouchMotion { touch_id, sx, sy },
        GrabCall::TouchFrame => GrabEvent::TouchFrame,
        GrabCall::TouchCancel => GrabEvent::TouchCancel,
    }
}

impl GrabTable {
    /// The trampoline of every grab interface slot: from the grab structure
    /// `g` that the foreign side passes, recovers the wrapper and the device,
    /// and decodes the call. `None` when `g` is no active grab or the call is
    /// for another kind of device.
    pub fn dispatch(&self, g: u64, call: GrabCall) -> (r: Option<GrabInvocation>)
        requires
            self.wf(),
        ensures
            r is Some <==> (self.is_active(g) && self.record(grab_index(g)).kind == call_kind(call)),
            r matches Some(inv) ==> {
                &&& inv.wrapper == container_of_spec(g, GRAB_STRUCT_OFFSET)
                &&& inv.wrapper == wrapper_addr(grab_index(g))
                &&& inv.device.addr_spec() == self.record(grab_index(g)).device
                &&& inv.device.kind_spec() == call_kind(call)
                &&& inv.event == decode_spec(call)
            },
    {
        let w = match self.resolve(g) {
            Some(w) => w,
            None => return None,
        };
        let i = ((g - GRAB_STRUCT_OFFSET - GRAB_BASE) / GRAB_RECORD_SIZE) as usize;
        let rec = self.records[i];
        let kind = match call {
            GrabCall::Key { .. } | GrabCall::Modifiers { .. } | GrabCall::KeyboardCancel => ObjectKind::Keyboard,
            GrabCall::TouchDown { .. } | GrabCall::TouchUp { .. } | GrabCall::TouchMotion { .. }
            | GrabCall::TouchFrame | GrabCall::TouchCancel => ObjectKind::Touch,
            _ => ObjectKind::Pointer,
        };
        if rec.kind != kind {
            return None;
        }
        Some(
            GrabInvocation {
                wrapper: w,
                device: Ref::from_parts(rec.device, kind),
                event: decode_grab_call(call),
            },
        )
    }
}

/// Starting a grab sends the device's events to it; ending it sends them to
/// the default handler again, at the very default grab address the device
/// had before, and the ended grab is never reached again.
pub proof fn lemma_grab_lifecycle(
    h0: HeapModel,
    h1: HeapModel,
    h2: HeapModel,
    t1: GrabTable,
    t2: GrabTable,
    dev: u64,
    g: u64,
    ended: u64,
)
    requires
        h0.wf(),
        is_device(h0, dev),
        route_spec(h0, dev) == GrabTarget::Default,
        grab_set(h0, h1, dev, g),
        is_grab_shape(g),
        t1.is_active(g),
        grab_set(h1, h2, dev, default_grab_addr(dev) as u64),
        ended == h1.field(dev, DEVICE_GRAB as int),
        !t2.is_active(ended),
    ensures
        route_spec(h1, dev) == GrabTarget::Grab(g),
        route_spec(h2, dev) == GrabTarget::Default,
        h2.field(dev, DEVICE_GRAB as int) == h0.field(dev, DEVICE_GRAB as int),
        ended == g,
        !t2.is_active(g),
{
    crate::handle::lemma_addr_index(h0, dev);
    assert(dev as int <= 0x10_0000 * OBJECT_STRIDE as int);
}

} // verus!
