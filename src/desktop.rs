//! Desktop shell objects: clients, their surfaces, and the calls the shell
//! receives about them.
use vstd::prelude::*;
use crate::accessor::{
    optional_field, scalar_field, DESKTOP_SURFACE_ACTIVATED, DESKTOP_SURFACE_CLIENT,
    DESKTOP_SURFACE_FULLSCREEN, DESKTOP_SURFACE_MAXIMIZED, DESKTOP_SURFACE_RESIZING,
    DESKTOP_SURFACE_SURFACE, SURFACE_DESKTOP,
};
use crate::handle::{ForeignHeap, ObjectKind, Ref, FIELD_COUNT, NULL_ADDR};
use crate::protocol::Resize;
use crate::user_data::UserDataTable;

verus! {

/// A desktop client, by address.
#[derive(Debug, Clone, Copy, PartialEq, Eq, Structural)]
pub struct DesktopClient {
    ptr: u64,
}

impl DesktopClient {
    pub closed spec fn ptr_spec(&self) -> u64 {
        self.ptr
    }

    pub fn from_ptr(ptr: u64) -> (r: DesktopClient)
        ensures
            r.ptr_spec() == ptr,
    {
        DesktopClient { ptr }
    }

    pub fn ptr(&self) -> (r: u64)
        ensures
            r == self.ptr_spec(),
    {
        self.ptr
    }
}

/// A desktop surface, by address.
#[derive(Debug, Clone, Copy, PartialEq, Eq, Structural)]
pub struct DesktopSurface {
    ptr: u64,
}

impl DesktopSurface {
    pub closed spec fn ptr_spec(&self) -> u64 {
        self.ptr
    }

    pub fn from_ptr(ptr: u64) -> (r: DesktopSurface)
        ensures
            r.ptr_spec() == ptr,
    {
        DesktopSurface { ptr }
    }

    pub fn ptr(&self) -> (r: u64)
        ensures
            r == self.ptr_spec(),
    {
        self.ptr
    }
}

/// Borrowed handle to a desktop surface: the shell's view of a window.
#[derive(Debug, Clone, Copy, PartialEq, Eq, Structural)]
pub struct DesktopSurfaceRef {
    handle: Ref,
}

impl DesktopSurfaceRef {
    pub closed spec fn addr_spec(&self) -> u64 {
        self.handle.addr_spec()
    }

    /// The handle that wraps `addr`.
    pub closed spec fn from_addr_spec(addr: u64) -> DesktopSurfaceRef {
        DesktopSurfaceRef { handle: Ref::from_addr_spec(addr, ObjectKind::DesktopSurface) }
    }

    /// The handle of the null address is `None`, any other is wrapped.
    pub open spec fn from_ptr_spec(addr: u64) -> Option<DesktopSurfaceRef> {
        if addr == NULL_ADDR {
            None
        } else {
            Some(Self::from_addr_spec(addr))
        }
    }

    pub proof fn lemma_from_addr(addr: u64)
        ensures
            Self::from_addr_spec(addr).addr_spec() == addr,
    {
        Ref::lemma_from_addr(addr, ObjectKind::DesktopSurface);
    }

    /// Wraps a desktop-surface address; the null address gives `None`.
    pub fn from_ptr(addr: u64) -> (r: Option<DesktopSurfaceRef>)
        ensures
            r is None <==> addr == NULL_ADDR,
            r matches Some(d) ==> d.addr_spec() == addr,
            r == Self::from_ptr_spec(addr),
    {
        match Ref::from_borrowed_ptr(addr, ObjectKind::DesktopSurface) {
            Some(handle) => Some(DesktopSurfaceRef { handle }),
            None => None,
        }
    }

    /// The desktop surface of `surface`, when it is a window's surface.
    pub fn from_surface(heap: &ForeignHeap, surface: Ref) -> (r: Option<DesktopSurfaceRef>)
        requires
            heap@.wf(),
        ensures
            r is Some <==> (heap@.contains(surface.addr_spec()) && heap@.record(surface.addr_spec()).kind
                == ObjectKind::Surface && heap@.field(surface.addr_spec(), SURFACE_DESKTOP as int)
                != NULL_ADDR),
            r matches Some(d) ==> d.addr_spec() == heap@.field(surface.addr_spec(), SURFACE_DESKTOP as int),
    {
        match heap.kind_of(surface.as_ptr()) {
            Some(ObjectKind::Surface) => {
                match optional_field(heap, surface, SURFACE_DESKTOP, ObjectKind::DesktopSurface) {
                    Some(handle) => Some(DesktopSurfaceRef { handle }),
                    None => None,
                }
            },
            _ => None,
        }
    }

    pub fn as_ptr(&self) -> (r: u64)
        ensures
            r == self.addr_spec(),
    {
        self.handle.as_ptr()
    }

    /// The window's surface.
    pub fn get_surface(&self, heap: &ForeignHeap) -> (r: Option<Ref>)
        requires
            heap@.wf(),
            heap@.contains(self.addr_spec()),
        ensures
            r is None <==> heap@.field(self.addr_spec(), DESKTOP_SURFACE_SURFACE as int) == NULL_ADDR,
            r matches Some(s) ==> s.addr_spec() == heap@.field(self.addr_spec(), DESKTOP_SURFACE_SURFACE as int)
                && s.kind_spec() == ObjectKind::Surface,
    {
        optional_field(heap, self.handle, DESKTOP_SURFACE_SURFACE, ObjectKind::Surface)
    }

    /// The client the window belongs to.
    pub fn get_client(&self, heap: &ForeignHeap) -> (r: Option<Ref>)
        requires
            heap@.wf(),
            heap@.contains(self.addr_spec()),
        ensures
            r is None <==> heap@.field(self.addr_spec(), DESKTOP_SURFACE_CLIENT as int) == NULL_ADDR,
            r matches Some(c) ==> c.addr_spec() == heap@.field(self.addr_spec(), DESKTOP_SURFACE_CLIENT as int)
                && c.kind_spec() == ObjectKind::DesktopClient,
    {
        optional_field(heap, self.handle, DESKTOP_SURFACE_CLIENT, ObjectKind::DesktopClient)
    }

    /// Stores `data` as this window's payload and hands back the one it
    /// displaces.
    pub fn set_user_data<T>(&self, table: &mut UserDataTable<T>, data: T) -> (r: Option<T>)
        requires
            old(table).wf(),
        ensures
            final(table).wf(),
            r == old(table).slot(self.addr_spec()),
            final(table).slot(self.addr_spec()) == Some(data),
            forall|b: u64| b != self.addr_spec() ==> final(table).slot(b) == old(table).slot(b),
    {
        table.set_user_data(self.handle.as_ptr(), data)
    }

    /// Takes this window's payload out, leaving the slot empty.
    pub fn get_user_data<T>(&self, table: &mut UserDataTable<T>) -> (r: Option<T>)
        requires
            old(table).wf(),
        ensures
            final(table).wf(),
            r == old(table).slot(self.addr_spec()),
            final(table).slot(self.addr_spec()) is None,
            forall|b: u64| b != self.addr_spec() ==> final(table).slot(b) == old(table).slot(b),
    {
        table.get_user_data(self.handle.as_ptr())
    }

    /// Looks at this window's payload without taking it.
    pub fn borrow_user_data<'a, T>(&self, table: &'a UserDataTable<T>) -> (r: Option<&'a T>)
        requires
            table.wf(),
        ensures
            r is None <==> table.slot(self.addr_spec()) is None,
            r matches Some(p) ==> table.slot(self.addr_spec()) == Some(*p),
    {
        table.borrow_user_data(self.handle.as_ptr())
    }

    /// Empties this window's slot, dropping its payload.
    pub fn unset_user_data<T>(&self, table: &mut UserDataTable<T>)
        requires
            old(table).wf(),
        ensures
            final(table).wf(),
            final(table).slot(self.addr_spec()) is None,
            forall|b: u64| b != self.addr_spec() ==> final(table).slot(b) == old(table).slot(b),
    {
        table.unset_user_data(self.handle.as_ptr())
    }

    fn set_flag(&self, heap: &mut ForeignHeap, f: usize, on: bool)
        requires
            old(heap)@.wf(),
            old(heap)@.contains(self.addr_spec()),
            f < FIELD_COUNT,
        ensures
            final(heap)@.wf(),
            final(heap)@.records == old(heap)@.records,
            final(heap)@.field(self.addr_spec(), f as int) == (if on { 1u64 } else { 0u64 }),
            final(heap)@ == old(heap)@.set_field(self.addr_spec(), f as int, if on { 1u64 } else { 0u64 }),
    {
        heap.write_field(self.handle.as_ptr(), f, if on { 1 } else { 0 });
    }

    pub fn set_activated(&self, heap: &mut ForeignHeap, activated: bool)
        requires
            old(heap)@.wf(),
            old(heap)@.contains(self.addr_spec()),
        ensures
            final(heap)@.wf(),
            final(heap)@.records == old(heap)@.records,
            final(heap)@.field(self.addr_spec(), DESKTOP_SURFACE_ACTIVATED as int) == (if activated { 1u64 } else { 0u64 }),
            final(heap)@ == old(heap)@.set_field(
                self.addr_spec(),
                DESKTOP_SURFACE_ACTIVATED as int,
                if activated { 1u64 } else { 0u64 },
            ),
    {
        self.set_flag(heap, DESKTOP_SURFACE_ACTIVATED, activated)
    }

    pub fn get_activated(&self, heap: &ForeignHeap) -> (r: bool)
        requires
            heap@.wf(),
            heap@.contains(self.addr_spec()),
        ensures
            r == (heap@.field(self.addr_spec(), DESKTOP_SURFACE_ACTIVATED as int) != 0),
    {
        scalar_field(heap, self.handle, DESKTOP_SURFACE_ACTIVATED) != 0
    }

    pub fn set_maximized(&self, heap: &mut ForeignHeap, maximized: bool)
        requires
            old(heap)@.wf(),
            old(heap)@.contains(self.addr_spec()),
        ensures
            final(heap)@.wf(),
            final(heap)@.records == old(heap)@.records,
            final(heap)@.field(self.addr_spec(), DESKTOP_SURFACE_MAXIMIZED as int) == (if maximized { 1u64 } else { 0u64 }),
            final(heap)@ == old(heap)@.set_field(
                self.addr_spec(),
                DESKTOP_SURFACE_MAXIMIZED as int,
                if maximized { 1u64 } else { 0u64 },
            ),
    {
        self.set_flag(heap, DESKTOP_SURFACE_MAXIMIZED, maximized)
    }

    pub fn get_maximized(&self, heap: &ForeignHeap) -> (r: bool)
        requires
            heap@.wf(),
            heap@.contains(self.addr_spec()),
        ensures
            r == (heap@.field(self.addr_spec(), DESKTOP_SURFACE_MAXIMIZED as int) != 0),
    {
        scalar_field(heap, self.handle, DESKTOP_SURFACE_MAXIMIZED) != 0
    }

    pub fn set_fullscreen(&self, heap: &mut ForeignHeap, fullscreen: bool)
        requires
            old(heap)@.wf(),
            old(heap)@.contains(self.addr_spec()),
        ensures
            final(heap)@.wf(),
            final(heap)@.records == old(heap)@.records,
            final(heap)@.field(self.addr_spec(), DESKTOP_SURFACE_FULLSCREEN as int) == (if fullscreen { 1u64 } else { 0u64 }),
            final(heap)@ == old(heap)@.set_field(
                self.addr_spec(),
                DESKTOP_SURFACE_FULLSCREEN as int,
                if fullscreen { 1u64 } else { 0u64 },
            ),
    {
        self.set_flag(heap, DESKTOP_SURFACE_FULLSCREEN, fullscreen)
    }

    pub fn get_fullscreen(&self, heap: &ForeignHeap) -> (r: bool)
        requires
            heap@.wf(),
            heap@.contains(self.addr_spec()),
        ensures
            r == (heap@.field(self.addr_spec(), DESKTOP_SURFACE_FULLSCREEN as int) != 0),
    {
        scalar_field(heap, self.handle, DESKTOP_SURFACE_FULLSCREEN) != 0
    }

    pub fn set_resizing(&self, heap: &mut ForeignHeap, resizing: bool)
        requires
            old(heap)@.wf(),
            old(heap)@.contains(self.addr_spec()),
        ensures
            final(heap)@.wf(),
            final(heap)@.records == old(heap)@.records,
            final(heap)@.field(self.addr_spec(), DESKTOP_SURFACE_RESIZING as int) == (if resizing { 1u64 } else { 0u64 }),
            final(heap)@ == old(heap)@.set_field(
                self.addr_spec(),
                DESKTOP_SURFACE_RESIZING as int,
                if resizing { 1u64 } else { 0u64 },
            ),
    {
        self.set_flag(heap, DESKTOP_SURFACE_RESIZING, resizing)
    }

    pub fn get_resizing(&self, heap: &ForeignHeap) -> (r: bool)
        requires
            heap@.wf(),
            heap@.contains(self.addr_spec()),
        ensures
            r == (heap@.field(self.addr_spec(), DESKTOP_SURFACE_RESIZING as int) != 0),
    {
        scalar_field(heap, self.handle, DESKTOP_SURFACE_RESIZING) != 0
    }
}

/// Slots of the desktop shell's interface table.
#[derive(Debug, Clone, Copy, PartialEq, Eq, Structural)]
pub enum DesktopCall {
    PingTimeout,
    Pong,
    SurfaceAdded,
    SurfaceRemoved,
    Committed,
    ShowWindowMenu,
    SetParent,
    Move,
    Resize,
    FullscreenRequested,
    MaximizedRequested,
    MinimizedRequested,
    SetXwaylandPosition,
}

/// A call of the desktop shell's interface, with its arguments decoded.
#[derive(Debug, Clone, Copy, PartialEq, Eq, Structural)]
pub enum DesktopEvent {
    PingTimeout { client: Ref },
    Pong { client: Ref },
    SurfaceAdded { surface: DesktopSurfaceRef },
    SurfaceRemoved { surface: DesktopSurfaceRef },
    Committed { surface: DesktopSurfaceRef, sx: i32, sy: i32 },
    ShowWindowMenu { surface: DesktopSurfaceRef, seat: Ref, x: i32, y: i32 },
    SetParent { surface: DesktopSurfaceRef, parent: Option<DesktopSurfaceRef> },
    Move { surface: DesktopSurfaceRef, seat: Ref, serial: u32 },
    Resize { surface: DesktopSurfaceRef, seat: Ref, serial: u32, edges: Resize },
    FullscreenRequested { surface: DesktopSurfaceRef, fullscreen: bool, output: Option<Ref> },
    MaximizedRequested { surface: DesktopSurfaceRef, maximized: bool },
    MinimizedRequested { surface: DesktopSurfaceRef },
    SetXwaylandPosition { surface: DesktopSurfaceRef, x: i32, y: i32 },
}

/// Raw arguments of one interface call: the object it is about, a second
/// object (seat, parent or output), and up to three scalars.
#[derive(Debug, Clone, Copy, PartialEq, Eq, Structural)]
pub struct DesktopCallArgs {
    pub object: u64,
    pub other: u64,
    pub a: u32,
    pub b: u32,
    pub flag: bool,
}

impl DesktopEvent {
    /// The object the event is about, as an address.
    pub open spec fn object_spec(self) -> u64 {
        match self {
            DesktopEvent::PingTimeout { client } => client.addr_spec(),
            DesktopEvent::Pong { client } => client.addr_spec(),
            DesktopEvent::SurfaceAdded { surface } => surface.addr_spec(),
            DesktopEvent::SurfaceRemoved { surface } => surface.addr_spec(),
            DesktopEvent::Committed { surface, .. } => surface.addr_spec(),
            DesktopEvent::ShowWindowMenu { surface, .. } => surface.addr_spec(),
            DesktopEvent::SetParent { surface, .. } => surface.addr_spec(),
            DesktopEvent::Move { surface, .. } => surface.addr_spec(),
            DesktopEvent::Resize { surface, .. } => surface.addr_spec(),
            DesktopEvent::FullscreenRequested { surface, .. } => surface.addr_spec(),
            DesktopEvent::MaximizedRequested { surface, .. } => surface.addr_spec(),
            DesktopEvent::MinimizedRequested { surface } => surface.addr_spec(),
            DesktopEvent::SetXwaylandPosition { surface, .. } => surface.addr_spec(),
        }
    }

    /// Whether `call` needs a non-null second object.
    pub open spec fn needs_other(call: DesktopCall) -> bool {
        call == DesktopCall::ShowWindowMenu || call == DesktopCall::Move || call == DesktopCall::Resize
    }

    /// Decoding of a call whose objects are present.
    pub open spec fn decode_spec(call: DesktopCall, args: DesktopCallArgs) -> DesktopEvent {
        let surface = DesktopSurfaceRef::from_addr_spec(args.object);
        let client = Ref::from_addr_spec(args.object, ObjectKind::DesktopClient);
        let seat = Ref::from_addr_spec(args.other, ObjectKind::Seat);
        match call {
            DesktopCall::PingTimeout => DesktopEvent::PingTimeout { client },
            DesktopCall::Pong => DesktopEvent::Pong { client },
            DesktopCall::SurfaceAdded => DesktopEvent::SurfaceAdded { surface },
            DesktopCall::SurfaceRemoved => DesktopEvent::SurfaceRemoved { surface },
            DesktopCall::Committed => DesktopEvent::Committed {
                surface,
                sx: #[verifier::truncate] (args.a as i32),
                sy: #[verifier::truncate] (args.b as i32),
            },
            DesktopCall::ShowWindowMenu => DesktopEvent::ShowWindowMenu {
                surface,
                seat,
                x: #[verifier::truncate] (args.a as i32),
                y: #[verifier::truncate] (args.b as i32),
            },
            DesktopCall::SetParent => DesktopEvent::SetParent {
                surface,
                parent: DesktopSurfaceRef::from_ptr_spec(args.other),
            },
            DesktopCall::Move => DesktopEvent::Move { surface, seat, serial: args.a },
            DesktopCall::Resize => DesktopEvent::Resize {
                surface,
                seat,
                serial: args.a,
                edges: Resize::from_raw_spec(args.b),
            },
            DesktopCall::FullscreenRequested => DesktopEvent::FullscreenRequested {
                surface,
                fullscreen: args.flag,
                output: if args.other == NULL_ADDR {
                    None
                } else {
                    Some(Ref::from_addr_spec(args.other, ObjectKind::Output))
                },
            },
            DesktopCall::MaximizedRequested => DesktopEvent::MaximizedRequested {
                surface,
                maximized: args.flag,
            },
            DesktopCall::MinimizedRequested => DesktopEvent::MinimizedRequested { surface },
            DesktopCall::SetXwaylandPosition => DesktopEvent::SetXwaylandPosition {
                surface,
                x: #[verifier::truncate] (args.a as i32),
                y: #[verifier::truncate] (args.b as i32),
            },
        }
    }

    /// The trampoline of the desktop interface: decodes the raw arguments of
    /// `call`. `None` when an object that must be set is null.
    pub fn decode(call: DesktopCall, args: DesktopCallArgs) -> (r: Option<DesktopEvent>)
        ensures
            r is None <==> (args.object == NULL_ADDR || (Self::needs_other(call) && args.other
                == NULL_ADDR)),
            r matches Some(e) ==> e == Self::decode_spec(call, args) && e.object_spec() == args.object,
    {
        if args.object == NULL_ADDR {
            return None;
        }
        match call {
            DesktopCall::ShowWindowMenu | DesktopCall::Move | DesktopCall::Resize => {
                if args.other == NULL_ADDR {
                    return None;
                }
            },
            _ => {},
        }
        proof {
            DesktopSurfaceRef::lemma_from_addr(args.object);
        }
        let client = Ref::from_borrowed_ptr(args.object, ObjectKind::DesktopClient);
        let surface = match DesktopSurfaceRef::from_ptr(args.object) {
            Some(s) => s,
            None => return None,
        };
        let seat = Ref::from_parts(args.other, ObjectKind::Seat);
        let ev = match call {
            DesktopCall::PingTimeout => match client {
                Some(c) => DesktopEvent::PingTimeout { client: c },
                None => return None,
            },
            DesktopCall::Pong => match client {
                Some(c) => DesktopEvent::Pong { client: c },
                None => return None,
            },
            DesktopCall::SurfaceAdded => DesktopEvent::SurfaceAdded { surface },
            DesktopCall::SurfaceRemoved => DesktopEvent::SurfaceRemoved { surface },
            DesktopCall::Committed => DesktopEvent::Committed {
                surface,
                sx: #[verifier::truncate] (args.a as i32),
                sy: #[verifier::truncate] (args.b as i32),
            },
            DesktopCall::ShowWindowMenu => DesktopEvent::ShowWindowMenu {
                surface,
                seat,
                x: #[verifier::truncate] (args.a as i32),
                y: #[verifier::truncate] (args.b as i32),
            },
            DesktopCall::SetParent => DesktopEvent::SetParent {
                surface,
                parent: DesktopSurfaceRef::from_ptr(args.other),
            },
            DesktopCall::Move => DesktopEvent::Move { surface, seat, serial: args.a },
            DesktopCall::Resize => DesktopEvent::Resize {
                surface,
                seat,
                serial: args.a,
                edges: Resize::from_raw(args.b),
            },
            DesktopCall::FullscreenRequested => DesktopEvent::FullscreenRequested {
                surface,
                fullscreen: args.flag,
                output: Ref::from_borrowed_ptr(args.other, ObjectKind::Output),
            },
            DesktopCall::MaximizedRequested => DesktopEvent::MaximizedRequested {
                surface,
                maximized: args.flag,
            },
            DesktopCall::MinimizedRequested => DesktopEvent::MinimizedRequested { surface },
            DesktopCall::SetXwaylandPosition => DesktopEvent::SetXwaylandPosition {
                surface,
                x: #[verifier::truncate] (args.a as i32),
                y: #[verifier::truncate] (args.b as i32),
            },
        };
        Some(ev)
    }
}

} // verus!
