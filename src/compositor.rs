//! The compositor object: its seats, heads and outputs.
use vstd::prelude::*;
use crate::accessor::{optional_field, COMPOSITOR_FIRST_SEAT, HEAD_OUTPUT};
use crate::handle::{
    is_candidate, ForeignHeap, HeapModel, ObjectKind, Owned, Ref, MAX_OBJECTS, NULL_ADDR,
};

verus! {

/// Borrowed handle to a compositor.
#[derive(Debug, Clone, Copy, PartialEq, Eq, Structural)]
pub struct CompositorRef {
    handle: Ref,
}

/// Walks the heads of a compositor in creation order.
#[derive(Debug, Clone, Copy, PartialEq, Eq, Structural)]
pub struct HeadIterator {
    compositor: u64,
    head: u64,
}

impl HeadIterator {
    /// The head last returned (`NULL_ADDR` before the first and after the last).
    pub closed spec fn cursor(&self) -> u64 {
        self.head
    }

    pub closed spec fn compositor_spec(&self) -> u64 {
        self.compositor
    }

    /// The next head, if any. After the last one the walk starts over.
    pub fn next(&mut self, heap: &ForeignHeap) -> (r: Option<Ref>)
        requires
            heap@.wf(),
        ensures
            final(self).compositor_spec() == old(self).compositor_spec(),
            r matches Some(h) ==> h.addr_spec() > old(self).cursor() && h.kind_spec() == ObjectKind::Head
                && is_candidate(heap@, h.addr_spec(), ObjectKind::Head, None) && final(self).cursor()
                == h.addr_spec(),
            r is None ==> final(self).cursor() == NULL_ADDR,
            forall|a: u64|
                old(self).cursor() < a && (r is None || a < r->0.addr_spec()) ==> !#[trigger] is_candidate(
                    heap@,
                    a,
                    ObjectKind::Head,
                    None,
                ),
    {
        self.head = heap.next_live(self.head, ObjectKind::Head, None);
        Ref::from_borrowed_ptr(self.head, ObjectKind::Head)
    }
}

impl CompositorRef {
    pub closed spec fn addr_spec(&self) -> u64 {
        self.handle.addr_spec()
    }

    /// A compositor handle for `h`, when it names a compositor.
    pub fn from_ref(heap: &ForeignHeap, h: Ref) -> (r: Option<CompositorRef>)
        requires
            heap@.wf(),
        ensures
            r is Some <==> heap@.contains(h.addr_spec()) && heap@.record(h.addr_spec()).kind
                == ObjectKind::Compositor,
            r matches Some(c) ==> c.addr_spec() == h.addr_spec(),
    {
        match heap.kind_of(h.as_ptr()) {
            Some(ObjectKind::Compositor) => Some(CompositorRef { handle: h }),
            _ => None,
        }
    }

    pub fn as_ptr(&self) -> (r: u64)
        ensures
            r == self.addr_spec(),
    {
        self.handle.as_ptr()
    }

    /// Starts a walk over the compositor's heads.
    pub fn iterate_heads(&self) -> (r: HeadIterator)
        ensures
            r.compositor_spec() == self.addr_spec(),
            r.cursor() == NULL_ADDR,
    {
        HeadIterator { compositor: self.handle.as_ptr(), head: NULL_ADDR }
    }

    /// The compositor's first seat, if it has one.
    pub fn first_seat(&self, heap: &ForeignHeap) -> (r: Option<Ref>)
        requires
            heap@.wf(),
            heap@.contains(self.addr_spec()),
        ensures
            r is None <==> heap@.field(self.addr_spec(), COMPOSITOR_FIRST_SEAT as int) == NULL_ADDR,
            r matches Some(s) ==> s.addr_spec() == heap@.field(self.addr_spec(), COMPOSITOR_FIRST_SEAT as int)
                && s.kind_spec() == ObjectKind::Seat,
    {
        optional_field(heap, self.handle, COMPOSITOR_FIRST_SEAT, ObjectKind::Seat)
    }

    /// Creates an output driven by `head`, owned by the caller. `None` when
    /// `head` is no live head, already drives an output, or the table is full.
    pub fn create_output_with_head(&self, heap: &mut ForeignHeap, head: Ref) -> (r: Option<Owned>)
        requires
            old(heap)@.wf(),
        ensures
            final(heap)@.wf(),
            r is Some <==> (old(heap)@.is_live(head.addr_spec()) && old(heap)@.record(
                head.addr_spec(),
            ).kind == ObjectKind::Head && old(heap)@.field(head.addr_spec(), HEAD_OUTPUT as int)
                == NULL_ADDR && old(heap)@.records.len() < MAX_OBJECTS),
            r is None ==> final(heap)@ == old(heap)@,
            r matches Some(o) ==> {
                &&& o.addr_spec() == old(heap)@.next_addr()
                &&& o.kind_spec() == ObjectKind::Output
                &&& final(heap)@.records == old(heap)@.create(ObjectKind::Output, true).records
                &&& final(heap)@.field(head.addr_spec(), HEAD_OUTPUT as int) == o.addr_spec()
                &&& final(heap)@.is_live(o.addr_spec()) && final(heap)@.is_owned(o.addr_spec())
            },
    {
        let h = head.as_ptr();
        if !heap.is_live(h) {
            return None;
        }
        match heap.kind_of(h) {
            Some(ObjectKind::Head) => {},
            _ => return None,
        }
        if heap.read_field(h, HEAD_OUTPUT) != NULL_ADDR {
            return None;
        }
        let ghost before = heap@;
        match heap.create(ObjectKind::Output) {
            Some(o) => {
                proof {
                    crate::handle::lemma_addr_index(before, h);
                    crate::handle::lemma_index_of_addr(before.records.len() as int);
                }
                heap.write_field(h, HEAD_OUTPUT, o.as_ptr());
                assert(heap@.field(h, HEAD_OUTPUT as int) == o.addr_spec());
                Some(o)
            },
            None => None,
        }
    }
}

} // verus!
