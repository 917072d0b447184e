//! Window-management policy of a simple desktop shell.
//!
//! New windows get a view on top of one windows layer; clicking a window
//! gives it keyboard focus and raises it; a window stays activated while some
//! seat focuses it; interactive resizes follow the dragged edge within the
//! window's size bounds.
use vstd::prelude::*;
use crate::accessor::{
    optional_field, DESKTOP_SURFACE_ACTIVATED, DESKTOP_SURFACE_SURFACE, DEVICE_FOCUS,
    DEVICE_GRAB_SERIAL, POINTER_BUTTON_COUNT, SEAT_POINTER, SURFACE_DESKTOP, VIEW_SURFACE,
};
use crate::seat::{DeviceRef, SeatRef};
use crate::desktop::DesktopSurfaceRef;
use crate::grab::{is_device, route_spec, GrabTable, GrabTarget};
use crate::handle::{ForeignHeap, HeapModel, ObjectKind, Owned, Ref, MAX_OBJECTS, NULL_ADDR};
use crate::layer::Scene;
use crate::protocol::{
    fixed_to_int_spec, Fixed, Resize, RESIZE_BOTTOM, RESIZE_LEFT, RESIZE_RIGHT, RESIZE_TOP,
};
use crate::user_data::UserDataTable;

verus! {

/// Width and height of a window.
#[derive(Debug, Clone, Copy, PartialEq, Eq, Structural)]
pub struct Size {
    pub width: i32,
    pub height: i32,
}

/// One dimension of an interactive resize: the start size grown by `delta`,
/// kept at least `min` (and at least 1), at most `max` when `max` is
/// positive, and at most `i32::MAX`.
pub open spec fn clamp_dimension(start: int, delta: int, min: int, max: int) -> int {
    let lo = if min < 1 { 1 } else { min };
    let v = start + delta;
    if v < lo {
        lo
    } else if max > 0 && v > max {
        max
    } else if v > i32::MAX {
        i32::MAX as int
    } else {
        v
    }
}

/// How far a resize grew one dimension: the pointer travel along the
/// dragged edge, in whole units. `grow_low` is set when the low edge (left
/// or top) is dragged, `grow_high` when the high one is.
pub open spec fn resize_delta(grow_low: bool, grow_high: bool, from: int, to: int) -> int {
    if grow_low {
        fixed_to_int_spec(from - to)
    } else if grow_high {
        fixed_to_int_spec(to - from)
    } else {
        0
    }
}

fn fixed_delta_to_int(d: i64) -> (r: i64)
    requires
        -0x1_0000_0000 <= d <= 0x1_0000_0000,
    ensures
        r as int == fixed_to_int_spec(d as int),
        -0x100_0000 <= r <= 0x100_0000,
{
    if d >= 0 {
        d / 256
    } else {
        -((-d) / 256)
    }
}

fn clamp_one(start: i32, delta: i64, min: i32, max: i32) -> (r: i32)
    requires
        -0x100_0000 <= delta <= 0x100_0000,
    ensures
        r as int == clamp_dimension(start as int, delta as int, min as int, max as int),
{
    let lo: i64 = if min < 1 { 1 } else { min as i64 };
    let v: i64 = start as i64 + delta;
    if v < lo {
        lo as i32
    } else if max > 0 && v > max as i64 {
        max
    } else if v > i32::MAX as i64 {
        i32::MAX
    } else {
        v as i32
    }
}

/// New size of a window under an interactive resize. `start` is its size
/// when the resize began; `from` and `to` are the pointer positions (in the
/// window's fixed-point coordinates) at the start and now. Each dimension
/// follows the dragged edge and is then held within `min` and `max`.
pub fn resize_size(
    edges: Resize,
    start: Size,
    from_x: Fixed,
    from_y: Fixed,
    to_x: Fixed,
    to_y: Fixed,
    min: Size,
    max: Size,
) -> (r: Size)
    ensures
        r.width as int == clamp_dimension(
            start.width as int,
            resize_delta(
                edges.bits_spec() & RESIZE_LEFT == RESIZE_LEFT,
                edges.bits_spec() & RESIZE_RIGHT == RESIZE_RIGHT,
                from_x as int,
                to_x as int,
            ),
            min.width as int,
            max.width as int,
        ),
        r.height as int == clamp_dimension(
            start.height as int,
            resize_delta(
                edges.bits_spec() & RESIZE_TOP == RESIZE_TOP,
                edges.bits_spec() & RESIZE_BOTTOM == RESIZE_BOTTOM,
                from_y as int,
                to_y as int,
            ),
            min.height as int,
            max.height as int,
        ),
{
    let dx: i64 = if edges.contains(RESIZE_LEFT) {
        fixed_delta_to_int(from_x as i64 - to_x as i64)
    } else if edges.contains(RESIZE_RIGHT) {
        fixed_delta_to_int(to_x as i64 - from_x as i64)
    } else {
        0
    };
    let dy: i64 = if edges.contains(RESIZE_TOP) {
        fixed_delta_to_int(from_y as i64 - to_y as i64)
    } else if edges.contains(RESIZE_BOTTOM) {
        fixed_delta_to_int(to_y as i64 - from_y as i64)
    } else {
        0
    };
    Size {
        width: clamp_one(start.width, dx, min.width, max.width),
        height: clamp_one(start.height, dy, min.height, max.height),
    }
}

/// The pointer of `seat` may start an interactive move or resize of the
/// window `dsurf` for a request with `serial`: a button is held, the request
/// answers the press that started the hold, and the pointer is over a view of
/// the window's own surface.
pub open spec fn may_grab_for(h: HeapModel, seat: u64, dsurf: u64, serial: u32) -> bool {
    let p = h.field(seat, SEAT_POINTER as int);
    let f = h.field(p, DEVICE_FOCUS as int);
    &&& p != NULL_ADDR
    &&& h.contains(p)
    &&& h.record(p).kind == ObjectKind::Pointer
    &&& f != NULL_ADDR
    &&& h.contains(f)
    &&& h.record(f).kind == ObjectKind::View
    &&& h.field(p, POINTER_BUTTON_COUNT as int) > 0
    &&& h.field(p, DEVICE_GRAB_SERIAL as int) == serial as u64
    &&& h.field(f, VIEW_SURFACE as int) == h.field(dsurf, DESKTOP_SURFACE_SURFACE as int)
}

/// The pointer that should drive a move or resize of `dsurf` requested with
/// `serial`, or `None` when the request does not come from a held button on
/// that window.
pub fn interactive_grab_pointer(heap: &ForeignHeap, seat: SeatRef, dsurf: DesktopSurfaceRef, serial: u32) -> (r: Option<Ref>)
    requires
        heap@.wf(),
        heap@.contains(seat.addr_spec()),
        heap@.contains(dsurf.addr_spec()),
    ensures
        r is Some <==> may_grab_for(heap@, seat.addr_spec(), dsurf.addr_spec(), serial),
        r matches Some(p) ==> p.addr_spec() == heap@.field(seat.addr_spec(), SEAT_POINTER as int)
            && p.kind_spec() == ObjectKind::Pointer,
{
    let p = match seat.get_pointer(heap) {
        Some(p) => p,
        None => return None,
    };
    match heap.kind_of(p.as_ptr()) {
        Some(ObjectKind::Pointer) => {},
        _ => return None,
    }
    let dev = match DeviceRef::from_ref(heap, p) {
        Some(d) => d,
        None => return None,
    };
    let f = match dev.focus(heap, ObjectKind::View) {
        Some(f) => f,
        None => return None,
    };
    match heap.kind_of(f.as_ptr()) {
        Some(ObjectKind::View) => {},
        _ => return None,
    }
    if dev.button_count(heap) == 0 || dev.grab_serial(heap) != serial as u64 {
        return None;
    }
    if heap.read_field(f.as_ptr(), VIEW_SURFACE) != heap.read_field(dsurf.as_ptr(), DESKTOP_SURFACE_SURFACE) {
        return None;
    }
    Some(p)
}

/// What a click did.
#[derive(Debug, Clone, Copy, PartialEq, Eq, Structural)]
pub enum ClickOutcome {
    /// A grab owns the pointer; clicks are its business.
    GrabActive,
    /// The pointer is over no view.
    NoFocus,
    /// The view under the pointer is not a desktop window.
    NotDesktop,
    /// The window got focus; `raised` tells whether it was moved to the top
    /// of the windows layer.
    Activated { raised: bool },
}

/// `view` is a view whose surface belongs to a desktop window.
pub open spec fn is_desktop_view(h: HeapModel, view: u64) -> bool {
    let s = h.field(view, VIEW_SURFACE as int);
    &&& h.contains(view)
    &&& h.record(view).kind == ObjectKind::View
    &&& h.contains(s)
    &&& h.record(s).kind == ObjectKind::Surface
    &&& h.field(s, SURFACE_DESKTOP as int) != NULL_ADDR
}

/// Whether `view` is a view of a desktop window.
pub fn desktop_view(heap: &ForeignHeap, view: u64) -> (r: bool)
    requires
        heap@.wf(),
    ensures
        r == is_desktop_view(heap@, view),
{
    match heap.kind_of(view) {
        Some(ObjectKind::View) => {
            let s = heap.read_field(view, VIEW_SURFACE);
            match heap.kind_of(s) {
                Some(ObjectKind::Surface) => heap.read_field(s, SURFACE_DESKTOP) != NULL_ADDR,
                _ => false,
            }
        },
        _ => false,
    }
}

/// Gives `view` keyboard focus and, when it already sits in a layer and
/// `windows_layer` is a layer, moves it to the top of `windows_layer`.
/// Returns whether it was moved.
pub fn activate(scene: &mut Scene, view: u64, windows_layer: u64) -> (raised: bool)
    requires
        old(scene).wf(),
        view != NULL_ADDR,
    ensures
        final(scene).wf(),
        final(scene).focus_spec() == view,
        raised == (old(scene).in_any_layer(view) && old(scene).has_layer(windows_layer)),
        raised ==> final(scene).views_of(windows_layer).len() > 0 && final(scene).views_of(
            windows_layer,
        )[0] == view,
        raised ==> forall|l: u64, w: u64|
            w != view ==> (#[trigger] final(scene).views_of(l).contains(w) <==> old(scene).views_of(
                l,
            ).contains(w)),
        !raised ==> final(scene).layers() == old(scene).layers(),
{
    scene.activate(view);
    if scene.layer_of(view).is_none() {
        // A window that was never put in a layer stays out of the stack.
        return false;
    }
    if scene.layer_position(windows_layer).is_none() {
        return false;
    }
    let ghost mid = *scene;
    scene.entry_remove(view);
    let ghost removed = *scene;
    let inserted = scene.entry_insert(windows_layer, view);
    proof {
        assert(removed.has_layer(windows_layer));
        assert(inserted);
        assert forall|l: u64, w: u64| w != view implies (#[trigger] scene.views_of(l).contains(w)
            <==> mid.views_of(l).contains(w)) by {
            assert(removed.views_of(l).contains(w) <==> mid.views_of(l).contains(w));
            if l == windows_layer {
                let s = scene.views_of(l);
                assert(s == seq![view] + removed.views_of(l));
                if removed.views_of(l).contains(w) {
                    let k = choose|k: int| 0 <= k < removed.views_of(l).len() && removed.views_of(l)[k] == w;
                    assert(s[k + 1] == w);
                }
                if s.contains(w) {
                    let k = choose|k: int| 0 <= k < s.len() && s[k] == w;
                    assert(k != 0);
                    assert(removed.views_of(l)[k - 1] == w);
                }
            }
        }
        assert(scene.views_of(windows_layer)[0] == view);
    }
    true
}

/// Click-to-focus: on a click, when the pointer is in its default grab and
/// over a desktop window, activates that window and raises it.
pub fn click_activate(scene: &mut Scene, heap: &ForeignHeap, pointer: Ref, windows_layer: u64) -> (r:
    ClickOutcome)
    requires
        old(scene).wf(),
        heap@.wf(),
        is_device(heap@, pointer.addr_spec()),
    ensures
        final(scene).wf(),
        ({
            let f = heap@.field(pointer.addr_spec(), DEVICE_FOCUS as int);
            if route_spec(heap@, pointer.addr_spec()) != GrabTarget::Default {
                r == ClickOutcome::GrabActive && *final(scene) == *old(scene)
            } else if f == NULL_ADDR {
                r == ClickOutcome::NoFocus && *final(scene) == *old(scene)
            } else if !is_desktop_view(heap@, f) {
                r == ClickOutcome::NotDesktop && *final(scene) == *old(scene)
            } else {
                &&& r == ClickOutcome::Activated {
                    raised: old(scene).in_any_layer(f) && old(scene).has_layer(windows_layer),
                }
                &&& final(scene).focus_spec() == f
                &&& (r == ClickOutcome::Activated { raised: true }) ==> final(scene).views_of(
                    windows_layer,
                ).len() > 0 && final(scene).views_of(windows_layer)[0] == f
            }
        }),
{
    if !GrabTable::is_default_grab(heap, pointer) {
        return ClickOutcome::GrabActive;
    }
    match optional_field(heap, pointer, DEVICE_FOCUS, ObjectKind::View) {
        None => ClickOutcome::NoFocus,
        Some(v) => {
            let view = v.as_ptr();
            if !desktop_view(heap, view) {
                return ClickOutcome::NotDesktop;
            }
            let raised = activate(scene, view, windows_layer);
            ClickOutcome::Activated { raised }
        },
    }
}


/// What the shell keeps for each window: its view, which it owns, and how
/// many seats have given it keyboard focus.
#[derive(Debug)]
pub struct WindowState {
    pub view: Owned,
    pub focus_count: u32,
}

/// Why the shell could not take a window in.
#[derive(Debug, Clone, Copy, PartialEq, Eq, Structural)]
pub enum ShellError {
    /// The foreign object table is full: no view could be created.
    OutOfObjects,
}

/// A simple desktop shell: every window goes on top of one windows layer.
pub struct DesktopShell {
    pub windows_layer: u64,
    pub windows: UserDataTable<WindowState>,
}

impl DesktopShell {
    pub open spec fn wf(&self) -> bool {
        self.windows.wf()
    }

    pub fn new(windows_layer: u64) -> (r: DesktopShell)
        ensures
            r.wf(),
            r.windows_layer == windows_layer,
            forall|a: u64| r.windows.slot(a) is None,
    {
        DesktopShell { windows_layer, windows: UserDataTable::new() }
    }

    /// A client mapped a new window: the shell creates a view of its surface,
    /// puts it on top of the windows layer, activates it and gives it focus.
    /// Fails, changing nothing, when no view can be created. State the shell
    /// held for the window before is handed back, not dropped.
    pub fn surface_added(
        &mut self,
        heap: &mut ForeignHeap,
        scene: &mut Scene,
        dsurf: DesktopSurfaceRef,
    ) -> (r: Result<Option<WindowState>, ShellError>)
        requires
            old(self).wf(),
            old(heap)@.wf(),
            old(scene).wf(),
            old(heap)@.contains(dsurf.addr_spec()),
        ensures
            final(self).wf(),
            final(heap)@.wf(),
            final(scene).wf(),
            final(self).windows_layer == old(self).windows_layer,
            r is Ok <==> old(heap)@.records.len() < MAX_OBJECTS,
            r is Err ==> r == Err::<Option<WindowState>, ShellError>(ShellError::OutOfObjects)
                && final(heap)@ == old(heap)@ && *final(scene) == *old(scene) && *final(self) == *old(self),
            r matches Ok(displaced) ==> displaced == old(self).windows.slot(dsurf.addr_spec()),
            r is Ok ==> {
                let v = old(heap)@.next_addr();
                &&& final(self).windows.slot(dsurf.addr_spec()) matches Some(w) && w.view.addr_spec() == v
                    && w.focus_count == 1
                &&& final(heap)@.is_live(v) && final(heap)@.is_owned(v)
                &&& final(heap)@.record(v).kind == ObjectKind::View
                &&& final(heap)@.field(v, VIEW_SURFACE as int) == old(heap)@.field(
                    dsurf.addr_spec(),
                    DESKTOP_SURFACE_SURFACE as int,
                )
                &&& final(heap)@.field(dsurf.addr_spec(), DESKTOP_SURFACE_ACTIVATED as int) == 1
                &&& final(scene).focus_spec() == v
                &&& (old(scene).has_layer(old(self).windows_layer) && !old(scene).in_any_layer(v))
                    ==> final(scene).views_of(old(self).windows_layer) == seq![v] + old(scene).views_of(
                    old(self).windows_layer,
                )
            },
            forall|b: u64| b != dsurf.addr_spec() ==> final(self).windows.slot(b) == old(self).windows.slot(b),
    {
        let ghost h0 = heap@;
        let view = match heap.create(ObjectKind::View) {
            Some(v) => v,
            None => return Err(ShellError::OutOfObjects),
        };
        let v = view.as_ptr();
        proof {
            crate::handle::lemma_index_of_addr(h0.records.len() as int);
            crate::handle::lemma_addr_index(h0, dsurf.addr_spec());
        }
        let surface = heap.read_field(dsurf.as_ptr(), DESKTOP_SURFACE_SURFACE);
        assert(surface == h0.field(dsurf.addr_spec(), DESKTOP_SURFACE_SURFACE as int));
        heap.write_field(v, VIEW_SURFACE, surface);
        let ghost h1 = heap@;
        scene.entry_insert(self.windows_layer, v);
        scene.activate(v);
        dsurf.set_activated(heap, true);
        proof {
            let iv = crate::handle::index_of(v);
            let id = crate::handle::index_of(dsurf.addr_spec());
            assert(iv == h0.records.len());
            assert(id < h0.records.len());
            assert(id * 8 + 2 != iv * 8 + 0);
            assert(heap@.fields[iv * 8 + 0] == h1.fields[iv * 8 + 0]);
        }
        let displaced = dsurf.set_user_data(&mut self.windows, WindowState { view, focus_count: 1 });
        Ok(displaced)
    }

    /// A seat's keyboard focus left the window `dsurf`: its focus count
    /// drops by one, and the window is deactivated when no seat focuses it
    /// any more. Windows the shell does not know are left alone.
    pub fn focus_lost(&mut self, heap: &mut ForeignHeap, dsurf: DesktopSurfaceRef)
        requires
            old(self).wf(),
            old(heap)@.wf(),
            old(heap)@.contains(dsurf.addr_spec()),
        ensures
            final(self).wf(),
            final(heap)@.wf(),
            final(self).windows_layer == old(self).windows_layer,
            forall|b: u64| b != dsurf.addr_spec() ==> final(self).windows.slot(b) == old(self).windows.slot(b),
            old(self).windows.slot(dsurf.addr_spec()) is None ==> final(self).windows.slot(dsurf.addr_spec())
                is None && final(heap)@ == old(heap)@,
            old(self).windows.slot(dsurf.addr_spec()) matches Some(w) ==> {
                let c = if w.focus_count > 0 { (w.focus_count - 1) as u32 } else { 0u32 };
                &&& final(self).windows.slot(dsurf.addr_spec()) matches Some(n) && n.focus_count == c
                    && n.view == w.view
                &&& c == 0 ==> final(heap)@ == old(heap)@.set_field(
                    dsurf.addr_spec(),
                    DESKTOP_SURFACE_ACTIVATED as int,
                    0,
                )
                &&& c != 0 ==> final(heap)@ == old(heap)@
            },
    {
        match dsurf.get_user_data(&mut self.windows) {
            Some(w) => {
                let c = if w.focus_count > 0 { w.focus_count - 1 } else { 0 };
                if c == 0 {
                    dsurf.set_activated(heap, false);
                }
                let _ = dsurf.set_user_data(&mut self.windows, WindowState { view: w.view, focus_count: c });
            },
            None => {},
        }
    }

    /// A seat's keyboard focus entered the window `dsurf`: the window is
    /// activated when it was focused by no seat, and its focus count grows by
    /// one. Windows the shell does not know are left alone.
    pub fn focus_gained(&mut self, heap: &mut ForeignHeap, dsurf: DesktopSurfaceRef)
        requires
            old(self).wf(),
            old(heap)@.wf(),
            old(heap)@.contains(dsurf.addr_spec()),
        ensures
            final(self).wf(),
            final(heap)@.wf(),
            final(self).windows_layer == old(self).windows_layer,
            forall|b: u64| b != dsurf.addr_spec() ==> final(self).windows.slot(b) == old(self).windows.slot(b),
            old(self).windows.slot(dsurf.addr_spec()) is None ==> final(self).windows.slot(dsurf.addr_spec())
                is None && final(heap)@ == old(heap)@,
            old(self).windows.slot(dsurf.addr_spec()) matches Some(w) ==> {
                let c = if w.focus_count < u32::MAX { (w.focus_count + 1) as u32 } else { u32::MAX };
                &&& final(self).windows.slot(dsurf.addr_spec()) matches Some(n) && n.focus_count == c
                    && n.view == w.view
                &&& w.focus_count == 0 ==> final(heap)@ == old(heap)@.set_field(
                    dsurf.addr_spec(),
                    DESKTOP_SURFACE_ACTIVATED as int,
                    1,
                )
                &&& w.focus_count != 0 ==> final(heap)@ == old(heap)@
            },
    {
        match dsurf.get_user_data(&mut self.windows) {
            Some(w) => {
                if w.focus_count == 0 {
                    dsurf.set_activated(heap, true);
                }
                let c = if w.focus_count < u32::MAX { w.focus_count + 1 } else { u32::MAX };
                let _ = dsurf.set_user_data(&mut self.windows, WindowState { view: w.view, focus_count: c });
            },
            None => {},
        }
    }

    /// A window went away: the shell takes its view out of the stack and
    /// destroys it. Returns `false`, changing nothing, when the shell holds
    /// nothing for the window.
    pub fn surface_removed(
        &mut self,
        heap: &mut ForeignHeap,
        scene: &mut Scene,
        dsurf: DesktopSurfaceRef,
    ) -> (r: bool)
        requires
            old(self).wf(),
            old(heap)@.wf(),
            old(scene).wf(),
        ensures
            final(self).wf(),
            final(heap)@.wf(),
            final(scene).wf(),
            final(self).windows_layer == old(self).windows_layer,
            r == old(self).windows.slot(dsurf.addr_spec()) is Some,
            !r ==> final(heap)@ == old(heap)@ && *final(scene) == *old(scene),
            final(self).windows.slot(dsurf.addr_spec()) is None,
            forall|b: u64| b != dsurf.addr_spec() ==> final(self).windows.slot(b) == old(self).windows.slot(b),
            r ==> {
                let v = old(self).windows.slot(dsurf.addr_spec())->0.view.addr_spec();
                &&& !final(scene).in_any_layer(v)
                &&& final(heap)@ == old(heap)@.release(v)
            },
    {
        match dsurf.get_user_data(&mut self.windows) {
            Some(state) => {
                scene.entry_remove(state.view.as_ptr());
                heap.release(state.view);
                true
            },
            None => false,
        }
    }
}

} // verus!
