//! Enumerations and flag sets that arrive from the foreign side as raw integers.
//!
//! The foreign value space is a superset of what this crate knows (it grows
//! across library versions), so every decoder is total: an unknown value maps
//! to a documented fallback variant instead of failing.
use vstd::prelude::*;

verus! {

/// State of a pointer button (`wl_pointer.button_state`).
#[derive(Debug, Clone, Copy, PartialEq, Eq, Structural)]
pub enum ButtonState {
    Released,
    Pressed,
}

impl ButtonState {
    pub open spec fn raw_spec(self) -> u32 {
        match self {
            ButtonState::Released => 0,
            ButtonState::Pressed => 1,
        }
    }

    /// Decodes a raw value; anything unknown reads as `Released`.
    pub fn from_raw(raw: u32) -> (r: ButtonState)
        ensures
            raw == 1 ==> r == ButtonState::Pressed,
            raw != 1 ==> r == ButtonState::Released,
    {
        if raw == 1 {
            ButtonState::Pressed
        } else {
            ButtonState::Released
        }
    }

    pub fn to_raw(self) -> (r: u32)
        ensures
            r == self.raw_spec(),
    {
        match self {
            ButtonState::Released => 0,
            ButtonState::Pressed => 1,
        }
    }
}

/// State of a keyboard key (`wl_keyboard.key_state`).
#[derive(Debug, Clone, Copy, PartialEq, Eq, Structural)]
pub enum KeyState {
    Released,
    Pressed,
}

impl KeyState {
    pub open spec fn raw_spec(self) -> u32 {
        match self {
            KeyState::Released => 0,
            KeyState::Pressed => 1,
        }
    }

    /// Decodes a raw value; anything unknown reads as `Released`.
    pub fn from_raw(raw: u32) -> (r: KeyState)
        ensures
            raw == 1 ==> r == KeyState::Pressed,
            raw != 1 ==> r == KeyState::Released,
    {
        if raw == 1 {
            KeyState::Pressed
        } else {
            KeyState::Released
        }
    }

    pub fn to_raw(self) -> (r: u32)
        ensures
            r == self.raw_spec(),
    {
        match self {
            KeyState::Released => 0,
            KeyState::Pressed => 1,
        }
    }
}

/// Scroll axis (`wl_pointer.axis`).
#[derive(Debug, Clone, Copy, PartialEq, Eq, Structural)]
pub enum Axis {
    VerticalScroll,
    HorizontalScroll,
}

impl Axis {
    pub open spec fn raw_spec(self) -> u32 {
        match self {
            Axis::VerticalScroll => 0,
            Axis::HorizontalScroll => 1,
        }
    }

    /// Decodes a raw value; anything unknown reads as `VerticalScroll`.
    pub fn from_raw(raw: u32) -> (r: Axis)
        ensures
            raw == 1 ==> r == Axis::HorizontalScroll,
            raw != 1 ==> r == Axis::VerticalScroll,
    {
        if raw == 1 {
            Axis::HorizontalScroll
        } else {
            Axis::VerticalScroll
        }
    }

    pub fn to_raw(self) -> (r: u32)
        ensures
            r == self.raw_spec(),
    {
        match self {
            Axis::VerticalScroll => 0,
            Axis::HorizontalScroll => 1,
        }
    }
}

/// Source of a scroll event (`wl_pointer.axis_source`).
#[derive(Debug, Clone, Copy, PartialEq, Eq, Structural)]
pub enum AxisSource {
    Wheel,
    Finger,
    Continuous,
    WheelTilt,
}

impl AxisSource {
    pub open spec fn raw_spec(self) -> u32 {
        match self {
            AxisSource::Wheel => 0,
            AxisSource::Finger => 1,
            AxisSource::Continuous => 2,
            AxisSource::WheelTilt => 3,
        }
    }

    /// Decodes a raw value; anything unknown reads as `Wheel`.
    pub fn from_raw(raw: u32) -> (r: AxisSource)
        ensures
            raw <= 3 ==> r.raw_spec() == raw,
            raw > 3 ==> r == AxisSource::Wheel,
    {
        if raw == 1 {
            AxisSource::Finger
        } else if raw == 2 {
            AxisSource::Continuous
        } else if raw == 3 {
            AxisSource::WheelTilt
        } else {
            AxisSource::Wheel
        }
    }

    pub fn to_raw(self) -> (r: u32)
        ensures
            r == self.raw_spec(),
    {
        match self {
            AxisSource::Wheel => 0,
            AxisSource::Finger => 1,
            AxisSource::Continuous => 2,
            AxisSource::WheelTilt => 3,
        }
    }
}

/// Edge of a desktop surface that an interactive resize drags.
#[derive(Debug, Clone, Copy, PartialEq, Eq, Structural)]
pub enum SurfaceEdge {
    NoEdge,
    Top,
    Bottom,
    Left,
    TopLeft,
    BottomLeft,
    Right,
    TopRight,
    BottomRight,
}

impl SurfaceEdge {
    pub open spec fn raw_spec(self) -> u32 {
        match self {
            SurfaceEdge::NoEdge => 0,
            SurfaceEdge::Top => 1,
            SurfaceEdge::Bottom => 2,
            SurfaceEdge::Left => 4,
            SurfaceEdge::TopLeft => 5,
            SurfaceEdge::BottomLeft => 6,
            SurfaceEdge::Right => 8,
            SurfaceEdge::TopRight => 9,
            SurfaceEdge::BottomRight => 10,
        }
    }

    pub open spec fn is_known_raw(raw: u32) -> bool {
        raw == 0 || raw == 1 || raw == 2 || raw == 4 || raw == 5 || raw == 6 || raw == 8
            || raw == 9 || raw == 10
    }

    /// Decodes a raw value; anything unknown reads as `NoEdge`.
    pub fn from_raw(raw: u32) -> (r: SurfaceEdge)
        ensures
            Self::is_known_raw(raw) ==> r.raw_spec() == raw,
            !Self::is_known_raw(raw) ==> r == SurfaceEdge::NoEdge,
    {
        match raw {
            1 => SurfaceEdge::Top,
            2 => SurfaceEdge::Bottom,
            4 => SurfaceEdge::Left,
            5 => SurfaceEdge::TopLeft,
            6 => SurfaceEdge::BottomLeft,
            8 => SurfaceEdge::Right,
            9 => SurfaceEdge::TopRight,
            10 => SurfaceEdge::BottomRight,
            _ => SurfaceEdge::NoEdge,
        }
    }

    pub fn to_raw(self) -> (r: u32)
        ensures
            r == self.raw_spec(),
    {
        match self {
            SurfaceEdge::NoEdge => 0,
            SurfaceEdge::Top => 1,
            SurfaceEdge::Bottom => 2,
            SurfaceEdge::Left => 4,
            SurfaceEdge::TopLeft => 5,
            SurfaceEdge::BottomLeft => 6,
            SurfaceEdge::Right => 8,
            SurfaceEdge::TopRight => 9,
            SurfaceEdge::BottomRight => 10,
        }
    }
}

/// Output mode asked of the DRM backend.
#[derive(Debug, Clone, Copy, PartialEq, Eq, Structural)]
pub enum DrmBackendOutputMode {
    Off,
    Current,
    Preferred,
}

impl DrmBackendOutputMode {
    pub open spec fn raw_spec(self) -> u32 {
        match self {
            DrmBackendOutputMode::Off => 0,
            DrmBackendOutputMode::Current => 1,
            DrmBackendOutputMode::Preferred => 2,
        }
    }

    pub fn to_raw(self) -> (r: u32)
        ensures
            r == self.raw_spec(),
    {
        match self {
            DrmBackendOutputMode::Off => 0,
            DrmBackendOutputMode::Current => 1,
            DrmBackendOutputMode::Preferred => 2,
        }
    }
}

pub const MODIFIER_CTRL: u32 = 1;
pub const MODIFIER_ALT: u32 = 2;
pub const MODIFIER_SUPER: u32 = 4;
pub const MODIFIER_SHIFT: u32 = 8;
pub const MODIFIER_ALL: u32 = 15;

/// Set of keyboard modifiers held down.
#[derive(Debug, Clone, Copy, PartialEq, Eq, Structural)]
pub struct KeyboardModifier {
    bits: u32,
}

impl KeyboardModifier {
    pub closed spec fn bits_spec(self) -> u32 {
        self.bits
    }

    /// The set whose bits are exactly `bits`.
    pub closed spec fn from_bits_spec(bits: u32) -> KeyboardModifier {
        KeyboardModifier { bits }
    }

    /// Keeps the known modifier bits of `raw` and drops the others.
    pub fn from_bits_truncate(raw: u32) -> (r: KeyboardModifier)
        ensures
            r == Self::from_bits_spec(r.bits_spec()),
            r.bits_spec() == raw & MODIFIER_ALL,
    {
        KeyboardModifier { bits: raw & MODIFIER_ALL }
    }

    pub fn empty() -> (r: KeyboardModifier)
        ensures
            r.bits_spec() == 0,
    {
        KeyboardModifier { bits: 0 }
    }

    pub fn bits(&self) -> (r: u32)
        ensures
            r == self.bits_spec(),
    {
        self.bits
    }

    pub fn contains(&self, other: KeyboardModifier) -> (r: bool)
        ensures
            r == (self.bits_spec() & other.bits_spec() == other.bits_spec()),
    {
        self.bits & other.bits == other.bits
    }
}

pub const LOCK_NUM: u32 = 1;
pub const LOCK_CAPS: u32 = 2;
pub const LOCK_ALL: u32 = 3;

/// Set of keyboard locks (num lock, caps lock).
#[derive(Debug, Clone, Copy, PartialEq, Eq, Structural)]
pub struct KeyboardLock {
    bits: u32,
}

impl KeyboardLock {
    pub closed spec fn bits_spec(self) -> u32 {
        self.bits
    }

    /// Keeps the known lock bits of `raw` and drops the others.
    pub fn from_bits_truncate(raw: u32) -> (r: KeyboardLock)
        ensures
            r.bits_spec() == raw & LOCK_ALL,
    {
        KeyboardLock { bits: raw & LOCK_ALL }
    }

    pub fn bits(&self) -> (r: u32)
        ensures
            r == self.bits_spec(),
    {
        self.bits
    }
}

pub const LED_NUM: u32 = 1;
pub const LED_CAPS: u32 = 2;
pub const LED_SCROLL: u32 = 4;
pub const LED_ALL: u32 = 7;

/// Set of keyboard indicator lights.
#[derive(Debug, Clone, Copy, PartialEq, Eq, Structural)]
pub struct KeyboardLed {
    bits: u32,
}

impl KeyboardLed {
    pub closed spec fn bits_spec(self) -> u32 {
        self.bits
    }

    /// Keeps the known indicator bits of `raw` and drops the others.
    pub fn from_bits_truncate(raw: u32) -> (r: KeyboardLed)
        ensures
            r.bits_spec() == raw & LED_ALL,
    {
        KeyboardLed { bits: raw & LED_ALL }
    }

    pub fn bits(&self) -> (r: u32)
        ensures
            r == self.bits_spec(),
    {
        self.bits
    }
}

pub const MOTION_ABS: u32 = 1;
pub const MOTION_REL: u32 = 2;
pub const MOTION_REL_UNACCEL: u32 = 4;
pub const MOTION_ALL: u32 = 7;

/// Which parts of a pointer motion event are meaningful.
#[derive(Debug, Clone, Copy, PartialEq, Eq, Structural)]
pub struct PointerMotionMask {
    bits: u32,
}

impl PointerMotionMask {
    pub closed spec fn bits_spec(self) -> u32 {
        self.bits
    }

    /// The set whose bits are exactly `bits`.
    pub closed spec fn from_bits_spec(bits: u32) -> PointerMotionMask {
        PointerMotionMask { bits }
    }

    /// Keeps the known motion bits of `raw` and drops the others.
    pub fn from_bits_truncate(raw: u32) -> (r: PointerMotionMask)
        ensures
            r == Self::from_bits_spec(r.bits_spec()),
            r.bits_spec() == raw & MOTION_ALL,
    {
        PointerMotionMask { bits: raw & MOTION_ALL }
    }

    pub fn bits(&self) -> (r: u32)
        ensures
            r == self.bits_spec(),
    {
        self.bits
    }
}

pub const ACTIVATE_NONE: u32 = 0;
pub const ACTIVATE_CONFIGURE: u32 = 1;
pub const ACTIVATE_CLICKED: u32 = 2;
pub const ACTIVATE_ALL: u32 = 3;

/// Why a view is being activated.
#[derive(Debug, Clone, Copy, PartialEq, Eq, Structural)]
pub struct ActivateFlag {
    bits: u32,
}

impl ActivateFlag {
    pub closed spec fn bits_spec(self) -> u32 {
        self.bits
    }

    /// Keeps the known activation bits of `raw` and drops the others.
    pub fn from_bits_truncate(raw: u32) -> (r: ActivateFlag)
        ensures
            r.bits_spec() == raw & ACTIVATE_ALL,
    {
        ActivateFlag { bits: raw & ACTIVATE_ALL }
    }

    pub fn bits(&self) -> (r: u32)
        ensures
            r == self.bits_spec(),
    {
        self.bits
    }

    pub fn contains(&self, other: ActivateFlag) -> (r: bool)
        ensures
            r == (self.bits_spec() & other.bits_spec() == other.bits_spec()),
    {
        self.bits & other.bits == other.bits
    }
}

pub const RESIZE_NONE: u32 = 0;
pub const RESIZE_TOP: u32 = 1;
pub const RESIZE_BOTTOM: u32 = 2;
pub const RESIZE_LEFT: u32 = 4;
pub const RESIZE_RIGHT: u32 = 8;
pub const RESIZE_ALL: u32 = 15;

/// Edges named by an interactive resize request (`wl_shell_surface.resize`).
#[derive(Debug, Clone, Copy, PartialEq, Eq, Structural)]
pub struct Resize {
    bits: u32,
}

impl Resize {
    pub closed spec fn bits_spec(self) -> u32 {
        self.bits
    }

    /// Decoding of a raw edge set.
    pub closed spec fn from_raw_spec(raw: u32) -> Resize {
        if raw & !RESIZE_ALL == 0 {
            Resize { bits: raw }
        } else {
            Resize { bits: RESIZE_NONE }
        }
    }

    /// Decodes a raw edge set. A value with any unknown bit is not trusted at
    /// all and reads as no edge.
    pub fn from_raw(raw: u32) -> (r: Resize)
        ensures
            r == Self::from_raw_spec(raw),
            raw & !RESIZE_ALL == 0 ==> r.bits_spec() == raw,
            raw & !RESIZE_ALL != 0 ==> r.bits_spec() == RESIZE_NONE,
    {
        if raw & !RESIZE_ALL == 0 {
            Resize { bits: raw }
        } else {
            Resize { bits: RESIZE_NONE }
        }
    }

    pub fn bits(&self) -> (r: u32)
        ensures
            r == self.bits_spec(),
    {
        self.bits
    }

    pub fn contains(&self, edges: u32) -> (r: bool)
        ensures
            r == (self.bits_spec() & edges == edges),
    {
        self.bits & edges == edges
    }

    /// Whether the edge set can drive a resize: at least one edge, and never
    /// two opposite edges at once.
    pub fn is_usable(&self) -> (r: bool)
        ensures
            r == (self.bits_spec() != RESIZE_NONE && self.bits_spec() & (RESIZE_LEFT | RESIZE_RIGHT)
                != (RESIZE_LEFT | RESIZE_RIGHT) && self.bits_spec() & (RESIZE_TOP | RESIZE_BOTTOM)
                != (RESIZE_TOP | RESIZE_BOTTOM)),
    {
        self.bits != RESIZE_NONE && !self.contains(RESIZE_LEFT | RESIZE_RIGHT) && !self.contains(
            RESIZE_TOP | RESIZE_BOTTOM,
        )
    }
}

/// A 24.8 fixed-point number, as the wire protocol carries coordinates.
pub type Fixed = i32;

/// Integer part of a fixed-point value, rounded toward zero.
pub open spec fn fixed_to_int_spec(f: int) -> int {
    if f >= 0 {
        f / 256
    } else {
        -((-f) / 256)
    }
}

/// Integer part of a fixed-point value, rounded toward zero.
pub fn wl_fixed_to_int(f: Fixed) -> (r: i32)
    ensures
        r as int == fixed_to_int_spec(f as int),
{
    if f >= 0 {
        f / 256
    } else {
        let n = -(f as i64);
        -((n / 256) as i32)
    }
}

/// The fixed-point value of an integer.
pub fn wl_fixed_from_int(i: i32) -> (r: Fixed)
    requires
        -0x80_0000 <= i < 0x80_0000,
    ensures
        r as int == i as int * 256,
{
    i * 256
}

} // verus!
