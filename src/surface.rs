//! Surfaces: the content that views show.
use vstd::prelude::*;
use crate::accessor::{
    optional_field, scalar_field, SURFACE_COLOR_BA, SURFACE_COLOR_RG, SURFACE_COMPOSITOR,
    SURFACE_HEIGHT, SURFACE_WIDTH,
};
use crate::handle::{ForeignHeap, ObjectKind, Ref, NULL_ADDR};

verus! {

/// Borrowed handle to a surface.
#[derive(Debug, Clone, Copy, PartialEq, Eq, Structural)]
pub struct SurfaceRef {
    handle: Ref,
}

impl SurfaceRef {
    pub closed spec fn addr_spec(&self) -> u64 {
        self.handle.addr_spec()
    }

    /// A surface handle for `h`, when it names a surface.
    pub fn from_ref(heap: &ForeignHeap, h: Ref) -> (r: Option<SurfaceRef>)
        requires
            heap@.wf(),
        ensures
            r is Some <==> heap@.contains(h.addr_spec()) && heap@.record(h.addr_spec()).kind
                == ObjectKind::Surface,
            r matches Some(s) ==> s.addr_spec() == h.addr_spec(),
    {
        match heap.kind_of(h.as_ptr()) {
            Some(ObjectKind::Surface) => Some(SurfaceRef { handle: h }),
            _ => None,
        }
    }

    pub fn as_ptr(&self) -> (r: u64)
        ensures
            r == self.addr_spec(),
    {
        self.handle.as_ptr()
    }

    /// The compositor the surface belongs to.
    pub fn compositor(&self, heap: &ForeignHeap) -> (r: Option<Ref>)
        requires
            heap@.wf(),
            heap@.contains(self.addr_spec()),
        ensures
            r is None <==> heap@.field(self.addr_spec(), SURFACE_COMPOSITOR as int) == NULL_ADDR,
            r matches Some(c) ==> c.addr_spec() == heap@.field(self.addr_spec(), SURFACE_COMPOSITOR as int)
                && c.kind_spec() == ObjectKind::Compositor,
    {
        optional_field(heap, self.handle, SURFACE_COMPOSITOR, ObjectKind::Compositor)
    }

    pub fn set_size(&self, heap: &mut ForeignHeap, width: i32, height: i32)
        requires
            old(heap)@.wf(),
            old(heap)@.contains(self.addr_spec()),
        ensures
            final(heap)@.wf(),
            final(heap)@.records == old(heap)@.records,
            final(heap)@.field(self.addr_spec(), SURFACE_WIDTH as int) == width as u64,
            final(heap)@.field(self.addr_spec(), SURFACE_HEIGHT as int) == height as u64,
            final(heap)@ == old(heap)@.set_field(self.addr_spec(), SURFACE_WIDTH as int, width as u64).set_field(
                self.addr_spec(),
                SURFACE_HEIGHT as int,
                height as u64,
            ),
    {
        let a = self.handle.as_ptr();
        heap.write_field(a, SURFACE_WIDTH, width as u64);
        heap.write_field(a, SURFACE_HEIGHT, height as u64);
        proof { crate::handle::lemma_addr_index(heap@, a); }
    }

    pub fn width(&self, heap: &ForeignHeap) -> (r: i32)
        requires
            heap@.wf(),
            heap@.contains(self.addr_spec()),
        ensures
            r == heap@.field(self.addr_spec(), SURFACE_WIDTH as int) as i32,
    {
        scalar_field(heap, self.handle, SURFACE_WIDTH) as i32
    }

    pub fn height(&self, heap: &ForeignHeap) -> (r: i32)
        requires
            heap@.wf(),
            heap@.contains(self.addr_spec()),
        ensures
            r == heap@.field(self.addr_spec(), SURFACE_HEIGHT as int) as i32,
    {
        scalar_field(heap, self.handle, SURFACE_HEIGHT) as i32
    }

    /// Fills the surface with one colour, each channel given as the bit
    /// pattern of its `f32` value.
    pub fn set_color(&self, heap: &mut ForeignHeap, red: u32, green: u32, blue: u32, alpha: u32)
        requires
            old(heap)@.wf(),
            old(heap)@.contains(self.addr_spec()),
        ensures
            final(heap)@.wf(),
            final(heap)@.records == old(heap)@.records,
            final(heap)@.field(self.addr_spec(), SURFACE_COLOR_RG as int) == ((red as u64) << 32u64) | (
            green as u64),
            final(heap)@.field(self.addr_spec(), SURFACE_COLOR_BA as int) == ((blue as u64) << 32u64) | (
            alpha as u64),
    {
        let a = self.handle.as_ptr();
        heap.write_field(a, SURFACE_COLOR_RG, ((red as u64) << 32u64) | (green as u64));
        heap.write_field(a, SURFACE_COLOR_BA, ((blue as u64) << 32u64) | (alpha as u64));
        proof { crate::handle::lemma_addr_index(heap@, a); }
    }

    /// The surface's colour as `(red, green, blue, alpha)` bit patterns.
    pub fn color(&self, heap: &ForeignHeap) -> (r: (u32, u32, u32, u32))
        requires
            heap@.wf(),
            heap@.contains(self.addr_spec()),
        ensures
            r.0 == (heap@.field(self.addr_spec(), SURFACE_COLOR_RG as int) >> 32u64) as u32,
            r.1 == heap@.field(self.addr_spec(), SURFACE_COLOR_RG as int) as u32,
            r.2 == (heap@.field(self.addr_spec(), SURFACE_COLOR_BA as int) >> 32u64) as u32,
            r.3 == heap@.field(self.addr_spec(), SURFACE_COLOR_BA as int) as u32,
    {
        let rg = scalar_field(heap, self.handle, SURFACE_COLOR_RG);
        let ba = scalar_field(heap, self.handle, SURFACE_COLOR_BA);
        ((rg >> 32u64) as u32, rg as u32, (ba >> 32u64) as u32, ba as u32)
    }
}

/// Packing two channels into one field and reading them back gives the
/// same two channels: `color` returns what `set_color` stored.
pub proof fn lemma_color_round_trip(high: u32, low: u32)
    ensures
        ((((high as u64) << 32u64) | (low as u64)) >> 32u64) as u32 == high,
        (((high as u64) << 32u64) | (low as u64)) as u32 == low,
{
    assert(((((high as u64) << 32u64) | (low as u64)) >> 32u64) as u32 == high) by (bit_vector);
    assert((((high as u64) << 32u64) | (low as u64)) as u32 == low) by (bit_vector);
}

} // verus!
