//! Outputs: the screens a compositor draws on.
use vstd::prelude::*;
use crate::accessor::{scalar_field, HEAD_OUTPUT, OUTPUT_ENABLED, OUTPUT_HEIGHT, OUTPUT_WIDTH};
use crate::handle::{is_candidate, ForeignHeap, ObjectKind, Ref, NULL_ADDR};

verus! {

/// Borrowed handle to an output.
#[derive(Debug, Clone, Copy, PartialEq, Eq, Structural)]
pub struct OutputRef {
    handle: Ref,
}

/// Walks the heads attached to an output, in creation order.
#[derive(Debug, Clone, Copy, PartialEq, Eq, Structural)]
pub struct HeadIterator {
    output: u64,
    head: u64,
}

impl HeadIterator {
    /// The head last returned (`NULL_ADDR` before the first and after the last).
    pub closed spec fn cursor(&self) -> u64 {
        self.head
    }

    pub closed spec fn output_spec(&self) -> u64 {
        self.output
    }

    /// The next head of the output, if any. After the last one the walk
    /// starts over.
    pub fn next(&mut self, heap: &ForeignHeap) -> (r: Option<Ref>)
        requires
            heap@.wf(),
        ensures
            final(self).output_spec() == old(self).output_spec(),
            r matches Some(h) ==> h.addr_spec() > old(self).cursor() && h.kind_spec() == ObjectKind::Head
                && is_candidate(heap@, h.addr_spec(), ObjectKind::Head, Some((HEAD_OUTPUT, old(self).output_spec())))
                && final(self).cursor() == h.addr_spec(),
            r is None ==> final(self).cursor() == NULL_ADDR,
            forall|a: u64|
                old(self).cursor() < a && (r is None || a < r->0.addr_spec()) ==> !#[trigger] is_candidate(
                    heap@,
                    a,
                    ObjectKind::Head,
                    Some((HEAD_OUTPUT, old(self).output_spec())),
                ),
    {
        self.head = heap.next_live(self.head, ObjectKind::Head, Some((HEAD_OUTPUT, self.output)));
        Ref::from_borrowed_ptr(self.head, ObjectKind::Head)
    }
}

impl OutputRef {
    pub closed spec fn addr_spec(&self) -> u64 {
        self.handle.addr_spec()
    }

    /// An output handle for `h`, when it names an output.
    pub fn from_ref(heap: &ForeignHeap, h: Ref) -> (r: Option<OutputRef>)
        requires
            heap@.wf(),
        ensures
            r is Some <==> heap@.contains(h.addr_spec()) && heap@.record(h.addr_spec()).kind
                == ObjectKind::Output,
            r matches Some(o) ==> o.addr_spec() == h.addr_spec(),
    {
        match heap.kind_of(h.as_ptr()) {
            Some(ObjectKind::Output) => Some(OutputRef { handle: h }),
            _ => None,
        }
    }

    pub fn as_ptr(&self) -> (r: u64)
        ensures
            r == self.addr_spec(),
    {
        self.handle.as_ptr()
    }

    /// Starts a walk over the heads attached to this output.
    pub fn iterate_heads(&self) -> (r: HeadIterator)
        ensures
            r.output_spec() == self.addr_spec(),
            r.cursor() == NULL_ADDR,
    {
        HeadIterator { output: self.handle.as_ptr(), head: NULL_ADDR }
    }

    pub fn width(&self, heap: &ForeignHeap) -> (r: u64)
        requires
            heap@.wf(),
            heap@.contains(self.addr_spec()),
        ensures
            r == heap@.field(self.addr_spec(), OUTPUT_WIDTH as int),
    {
        scalar_field(heap, self.handle, OUTPUT_WIDTH)
    }

    pub fn height(&self, heap: &ForeignHeap) -> (r: u64)
        requires
            heap@.wf(),
            heap@.contains(self.addr_spec()),
        ensures
            r == heap@.field(self.addr_spec(), OUTPUT_HEIGHT as int),
    {
        scalar_field(heap, self.handle, OUTPUT_HEIGHT)
    }

    /// Turns the output on.
    pub fn enable(&self, heap: &mut ForeignHeap)
        requires
            old(heap)@.wf(),
            old(heap)@.contains(self.addr_spec()),
        ensures
            final(heap)@.wf(),
            final(heap)@.records == old(heap)@.records,
            final(heap)@.field(self.addr_spec(), OUTPUT_ENABLED as int) == 1,
            final(heap)@ == old(heap)@.set_field(self.addr_spec(), OUTPUT_ENABLED as int, 1),
    {
        heap.write_field(self.handle.as_ptr(), OUTPUT_ENABLED, 1);
    }

    /// Turns the output off.
    pub fn disable(&self, heap: &mut ForeignHeap)
        requires
            old(heap)@.wf(),
            old(heap)@.contains(self.addr_spec()),
        ensures
            final(heap)@.wf(),
            final(heap)@.records == old(heap)@.records,
            final(heap)@.field(self.addr_spec(), OUTPUT_ENABLED as int) == 0,
            final(heap)@ == old(heap)@.set_field(self.addr_spec(), OUTPUT_ENABLED as int, 0),
    {
        heap.write_field(self.handle.as_ptr(), OUTPUT_ENABLED, 0);
    }

    pub fn is_enabled(&self, heap: &ForeignHeap) -> (r: bool)
        requires
            heap@.wf(),
            heap@.contains(self.addr_spec()),
        ensures
            r == (heap@.field(self.addr_spec(), OUTPUT_ENABLED as int) != 0),
    {
        scalar_field(heap, self.handle, OUTPUT_ENABLED) != 0
    }
}

} // verus!
