//! Owned and borrowed handles over the foreign object table.
//!
//! An object's identity is its address. The table hands out an [`Owned`]
//! handle at most once per object; releasing it calls the object's destroy
//! function exactly once. A [`Ref`] only aliases an address: making, copying
//! and dropping one never touches the table.
use vstd::prelude::*;

verus! {

/// The address that stands for "no object".
pub const NULL_ADDR: u64 = 0;

/// Distance between the addresses of two consecutive objects.
pub const OBJECT_STRIDE: u64 = 4096;

/// Number of raw fields each object carries.
pub const FIELD_COUNT: usize = 8;

/// Most objects one table can hold.
pub const MAX_OBJECTS: usize = 0x10_0000;

/// Kinds of foreign objects.
#[derive(Debug, Clone, Copy, PartialEq, Eq, Structural)]
pub enum ObjectKind {
    Compositor,
    Output,
    Head,
    Surface,
    View,
    Layer,
    Seat,
    Pointer,
    Keyboard,
    Touch,
    DesktopSurface,
    DesktopClient,
}

/// A handle that is responsible for destroying its object.
///
/// It is neither `Clone` nor `Copy`, and only [`ForeignHeap`] makes one, at
/// most once per object.
#[derive(Debug)]
pub struct Owned {
    pub(crate) addr: u64,
    pub(crate) kind: ObjectKind,
}

/// A handle that aliases an object owned elsewhere; dropping it does nothing.
#[derive(Debug, Clone, Copy, PartialEq, Eq, Structural)]
pub struct Ref {
    pub(crate) addr: u64,
    pub(crate) kind: ObjectKind,
}

/// Either flavour of handle.
#[derive(Debug)]
pub enum Handle {
    Owned(Owned),
    Borrowed(Ref),
}

impl Owned {
    pub closed spec fn addr_spec(&self) -> u64 {
        self.addr
    }

    pub closed spec fn kind_spec(&self) -> ObjectKind {
        self.kind
    }

    pub fn as_ptr(&self) -> (r: u64)
        ensures
            r == self.addr_spec(),
    {
        self.addr
    }

    pub fn kind(&self) -> (r: ObjectKind)
        ensures
            r == self.kind_spec(),
    {
        self.kind
    }

    /// A borrowed handle to the same object.
    pub fn borrow(&self) -> (r: Ref)
        ensures
            r.addr_spec() == self.addr_spec(),
            r.kind_spec() == self.kind_spec(),
    {
        Ref { addr: self.addr, kind: self.kind }
    }
}

impl Ref {
    pub closed spec fn addr_spec(&self) -> u64 {
        self.addr
    }

    pub closed spec fn kind_spec(&self) -> ObjectKind {
        self.kind
    }

    /// The handle that wraps `addr`.
    pub closed spec fn from_addr_spec(addr: u64, kind: ObjectKind) -> Ref {
        Ref { addr, kind }
    }

    pub proof fn lemma_from_addr(addr: u64, kind: ObjectKind)
        ensures
            Self::from_addr_spec(addr, kind).addr_spec() == addr,
            Self::from_addr_spec(addr, kind).kind_spec() == kind,
    {
    }

    /// Wraps an address that the crate knows names an object of `kind`.
    pub(crate) fn from_parts(addr: u64, kind: ObjectKind) -> (r: Ref)
        ensures
            r.addr_spec() == addr,
            r.kind_spec() == kind,
            r == Self::from_addr_spec(addr, kind),
    {
        Ref { addr, kind }
    }

    /// Wraps an address handed over by the foreign side; the null address
    /// gives no handle.
    pub fn from_borrowed_ptr(addr: u64, kind: ObjectKind) -> (r: Option<Ref>)
        ensures
            addr == NULL_ADDR <==> r is None,
            r matches Some(h) ==> h.addr_spec() == addr && h.kind_spec() == kind,
            addr != NULL_ADDR ==> r == Some(Self::from_addr_spec(addr, kind)),
    {
        if addr == NULL_ADDR {
            None
        } else {
            Some(Ref { addr, kind })
        }
    }

    pub fn as_ptr(&self) -> (r: u64)
        ensures
            r == self.addr_spec(),
    {
        self.addr
    }

    pub fn kind(&self) -> (r: ObjectKind)
        ensures
            r == self.kind_spec(),
    {
        self.kind
    }

    /// A second borrowed handle aliasing the same object.
    pub fn temp_clone(&self) -> (r: Ref)
        ensures
            r == *self,
    {
        Ref { addr: self.addr, kind: self.kind }
    }
}

/// What the table knows of one object.
#[derive(Debug, Clone, Copy, PartialEq, Eq, Structural)]
pub struct ObjectRecord {
    pub kind: ObjectKind,
    /// Not destroyed yet.
    pub live: bool,
    /// An `Owned` handle has been handed out for it.
    pub owned: bool,
    /// How many times its destroy function ran.
    pub destroy_calls: u64,
}

/// Address of the object at `index` in the table.
pub open spec fn addr_of(index: int) -> int {
    (index + 1) * (OBJECT_STRIDE as int)
}

/// Index in the table of the object at `addr`.
pub open spec fn index_of(addr: u64) -> int {
    addr as int / (OBJECT_STRIDE as int) - 1
}

/// Mathematical content of a [`ForeignHeap`].
pub ghost struct HeapModel {
    pub records: Seq<ObjectRecord>,
    /// `FIELD_COUNT` raw fields per object, object after object.
    pub fields: Seq<u64>,
}

impl HeapModel {
    pub open spec fn contains(self, addr: u64) -> bool {
        &&& addr as int % (OBJECT_STRIDE as int) == 0
        &&& addr >= OBJECT_STRIDE
        &&& index_of(addr) < self.records.len()
    }

    pub open spec fn record(self, addr: u64) -> ObjectRecord {
        self.records[index_of(addr)]
    }

    pub open spec fn is_live(self, addr: u64) -> bool {
        self.contains(addr) && self.record(addr).live
    }

    pub open spec fn is_owned(self, addr: u64) -> bool {
        self.contains(addr) && self.record(addr).owned
    }

    /// How many times the destroy function of the object at `addr` ran.
    pub open spec fn destroy_count(self, addr: u64) -> nat {
        if self.contains(addr) {
            self.record(addr).destroy_calls as nat
        } else {
            0
        }
    }

    pub open spec fn field(self, addr: u64, f: int) -> u64 {
        self.fields[index_of(addr) * (FIELD_COUNT as int) + f]
    }

    /// The table with raw field `f` of the object at `addr` set to `value`.
    pub open spec fn set_field(self, addr: u64, f: int, value: u64) -> HeapModel {
        HeapModel {
            records: self.records,
            fields: self.fields.update(index_of(addr) * (FIELD_COUNT as int) + f, value),
        }
    }

    /// The address the next created object gets.
    pub open spec fn next_addr(self) -> u64 {
        addr_of(self.records.len() as int) as u64
    }

    pub open spec fn wf(self) -> bool {
        &&& self.records.len() <= MAX_OBJECTS
        &&& self.fields.len() == self.records.len() * (FIELD_COUNT as int)
        &&& forall|i: int|
            0 <= i < self.records.len() ==> {
                &&& #[trigger] self.records[i].destroy_calls <= 1
                &&& self.records[i].destroy_calls == 1 ==> !self.records[i].live
            }
    }

    /// The table after creating an object of `kind`.
    pub open spec fn create(self, kind: ObjectKind, owned: bool) -> HeapModel {
        HeapModel {
            records: self.records.push(
                ObjectRecord { kind, live: true, owned, destroy_calls: 0 },
            ),
            fields: self.fields + Seq::new(FIELD_COUNT as nat, |i: int| 0u64),
        }
    }

    /// The table after handing out the owning handle of `addr`, when that
    /// is still possible.
    pub open spec fn adopt(self, addr: u64) -> HeapModel {
        if self.is_live(addr) && !self.is_owned(addr) {
            HeapModel {
                records: self.records.update(
                    index_of(addr),
                    ObjectRecord { owned: true, ..self.record(addr) },
                ),
                fields: self.fields,
            }
        } else {
            self
        }
    }

    /// The table after destroying the owned, live object at `addr`; any
    /// other address leaves it as it is.
    pub open spec fn release(self, addr: u64) -> HeapModel {
        if self.is_live(addr) && self.is_owned(addr) {
            HeapModel {
                records: self.records.update(
                    index_of(addr),
                    ObjectRecord {
                        live: false,
                        destroy_calls: (self.record(addr).destroy_calls + 1) as u64,
                        ..self.record(addr)
                    },
                ),
                fields: self.fields,
            }
        } else {
            self
        }
    }

    /// The table after the foreign library destroyed one of its own objects.
    pub open spec fn forget(self, addr: u64) -> HeapModel {
        if self.is_live(addr) && !self.is_owned(addr) {
            HeapModel {
                records: self.records.update(
                    index_of(addr),
                    ObjectRecord { live: false, ..self.record(addr) },
                ),
                fields: self.fields,
            }
        } else {
            self
        }
    }

    /// The table after dropping one handle.
    pub open spec fn drop_handle(self, h: Handle) -> HeapModel {
        match h {
            Handle::Owned(o) => self.release(o.addr_spec()),
            Handle::Borrowed(_) => self,
        }
    }

    /// The table after dropping handles one after the other.
    pub open spec fn drop_all(self, hs: Seq<Handle>) -> HeapModel
        decreases hs.len(),
    {
        if hs.len() == 0 {
            self
        } else {
            self.drop_handle(hs[0]).drop_all(hs.drop_first())
        }
    }
}


/// Facts about the address arithmetic of the table.
pub proof fn lemma_addr_index(h: HeapModel, addr: u64)
    requires
        h.contains(addr),
    ensures
        0 <= index_of(addr) < h.records.len(),
        addr_of(index_of(addr)) == addr,
{
}

/// Index of a freshly computed address.
pub proof fn lemma_index_of_addr(i: int)
    requires
        0 <= i,
        addr_of(i) <= u64::MAX,
    ensures
        index_of(addr_of(i) as u64) == i,
        addr_of(i) as u64 as int % (OBJECT_STRIDE as int) == 0,
{
}

/// The table of foreign objects: each object's kind, lifecycle, destroy
/// count and raw fields.
pub struct ForeignHeap {
    records: Vec<ObjectRecord>,
    fields: Vec<u64>,
}

impl View for ForeignHeap {
    type V = HeapModel;

    closed spec fn view(&self) -> HeapModel {
        HeapModel { records: self.records@, fields: self.fields@ }
    }
}

impl ForeignHeap {
    pub fn new() -> (r: ForeignHeap)
        ensures
            r@.wf(),
            r@.records.len() == 0,
    {
        let r = ForeignHeap { records: Vec::new(), fields: Vec::new() };
        assert(r@.fields.len() == 0);
        r
    }

    /// Index of `addr` when it names an object of the table.
    fn index(&self, addr: u64) -> (r: Option<usize>)
        requires
            self@.wf(),
        ensures
            r is Some <==> self@.contains(addr),
            r matches Some(i) ==> i == index_of(addr),
    {
        if addr % OBJECT_STRIDE == 0 && addr >= OBJECT_STRIDE && addr / OBJECT_STRIDE - 1 < self.records.len() as u64 {
            Some((addr / OBJECT_STRIDE - 1) as usize)
        } else {
            None
        }
    }

    fn push_record(&mut self, kind: ObjectKind, owned: bool) -> (r: Option<u64>)
        requires
            old(self)@.wf(),
        ensures
            final(self)@.wf(),
            old(self)@.records.len() < MAX_OBJECTS ==> r == Some(old(self)@.next_addr())
                && final(self)@ == old(self)@.create(kind, owned),
            old(self)@.records.len() >= MAX_OBJECTS ==> r is None && final(self)@ == old(self)@,
    {
        if self.records.len() >= MAX_OBJECTS {
            return None;
        }
        let ghost old_model = self@;
        let index = self.records.len();
        self.records.push(ObjectRecord { kind, live: true, owned, destroy_calls: 0 });
        let mut k: usize = 0;
        while k < FIELD_COUNT
            invariant
                k <= FIELD_COUNT,
                self.records@ == old_model.records.push(
                    ObjectRecord { kind, live: true, owned, destroy_calls: 0 },
                ),
                self.fields@ == old_model.fields + Seq::new(k as nat, |i: int| 0u64),
                old_model.wf(),
            decreases FIELD_COUNT - k,
        {
            self.fields.push(0);
            k = k + 1;
            assert(self.fields@ =~= old_model.fields + Seq::new(k as nat, |i: int| 0u64));
        }
        assert forall|i: int| 0 <= i < self@.records.len() implies #[trigger] self@.records[i].destroy_calls <= 1
            && (self@.records[i].destroy_calls == 1 ==> !self@.records[i].live) by {
            if i < old_model.records.len() {
                assert(self@.records[i] == old_model.records[i]);
            }
        }
        Some(((index + 1) as u64) * OBJECT_STRIDE)
    }

    /// Creates an object whose owner is the caller: the handle destroys it.
    /// Gives `None` when the table is full.
    pub fn create(&mut self, kind: ObjectKind) -> (r: Option<Owned>)
        requires
            old(self)@.wf(),
        ensures
            final(self)@.wf(),
            old(self)@.records.len() < MAX_OBJECTS ==> (r matches Some(o) && o.addr_spec()
                == old(self)@.next_addr() && o.kind_spec() == kind),
            old(self)@.records.len() < MAX_OBJECTS ==> final(self)@ == old(self)@.create(kind, true),
            old(self)@.records.len() >= MAX_OBJECTS ==> r is None && final(self)@ == old(self)@,
    {
        match self.push_record(kind, true) {
            Some(addr) => Some(Owned { addr, kind }),
            None => None,
        }
    }

    /// Creates an object that the foreign library keeps for itself: the
    /// caller only gets a borrowed handle. Gives `None` when the table is full.
    pub fn create_foreign(&mut self, kind: ObjectKind) -> (r: Option<Ref>)
        requires
            old(self)@.wf(),
        ensures
            final(self)@.wf(),
            old(self)@.records.len() < MAX_OBJECTS ==> (r matches Some(h) && h.addr_spec()
                == old(self)@.next_addr() && h.kind_spec() == kind),
            old(self)@.records.len() < MAX_OBJECTS ==> final(self)@ == old(self)@.create(kind, false),
            old(self)@.records.len() >= MAX_OBJECTS ==> r is None && final(self)@ == old(self)@,
    {
        match self.push_record(kind, false) {
            Some(addr) => Some(Ref { addr, kind }),
            None => None,
        }
    }

    /// Takes ownership of a live object that has no owner yet
    /// (`from_owning_ptr`). Any other address gives `None`, so no object ever
    /// has two owning handles.
    pub fn adopt(&mut self, addr: u64) -> (r: Option<Owned>)
        requires
            old(self)@.wf(),
        ensures
            final(self)@.wf(),
            final(self)@ == old(self)@.adopt(addr),
            r is Some <==> old(self)@.is_live(addr) && !old(self)@.is_owned(addr),
            r matches Some(o) ==> o.addr_spec() == addr && o.kind_spec() == old(self)@.record(
                addr,
            ).kind,
    {
        match self.index(addr) {
            Some(i) => {
                let rec = self.records[i];
                if rec.live && !rec.owned {
                    self.records.set(i, ObjectRecord { owned: true, ..rec });
                    proof { lemma_addr_index(old(self)@, addr); }
                    assert forall|j: int| 0 <= j < self@.records.len() implies #[trigger] self@.records[j].destroy_calls <= 1
                        && (self@.records[j].destroy_calls == 1 ==> !self@.records[j].live) by {
                        assert(old(self)@.records[j].destroy_calls <= 1);
                    }
                    assert(self@ =~= old(self)@.adopt(addr));
                    Some(Owned { addr, kind: rec.kind })
                } else {
                    None
                }
            },
            None => None,
        }
    }

    /// Drops an owning handle: runs the object's destroy function, once.
    /// Gives `false`, and does nothing, when the object is no longer live.
    pub fn release(&mut self, h: Owned) -> (r: bool)
        requires
            old(self)@.wf(),
        ensures
            final(self)@.wf(),
            final(self)@ == old(self)@.release(h.addr_spec()),
            r == (old(self)@.is_live(h.addr_spec()) && old(self)@.is_owned(h.addr_spec())),
    {
        let addr = h.addr;
        match self.index(addr) {
            Some(i) => {
                let rec = self.records[i];
                if rec.live && rec.owned {
                    assert(old(self)@.records[i as int].destroy_calls <= 1);
                    self.records.set(
                        i,
                        ObjectRecord { live: false, destroy_calls: rec.destroy_calls + 1, ..rec },
                    );
                    assert forall|j: int| 0 <= j < self@.records.len() implies #[trigger] self@.records[j].destroy_calls <= 1
                        && (self@.records[j].destroy_calls == 1 ==> !self@.records[j].live) by {
                        assert(old(self)@.records[j].destroy_calls <= 1);
                    }
                    assert(self@ =~= old(self)@.release(addr));
                    true
                } else {
                    false
                }
            },
            None => false,
        }
    }

    /// The foreign library destroys one of its own objects; borrowed handles
    /// to it go stale. Gives `false`, and does nothing, for an owned object
    /// or one that is not live.
    pub fn forget(&mut self, addr: u64) -> (r: bool)
        requires
            old(self)@.wf(),
        ensures
            final(self)@.wf(),
            final(self)@ == old(self)@.forget(addr),
            r == (old(self)@.is_live(addr) && !old(self)@.is_owned(addr)),
    {
        match self.index(addr) {
            Some(i) => {
                let rec = self.records[i];
                if rec.live && !rec.owned {
                    self.records.set(i, ObjectRecord { live: false, ..rec });
                    assert forall|j: int| 0 <= j < self@.records.len() implies #[trigger] self@.records[j].destroy_calls <= 1
                        && (self@.records[j].destroy_calls == 1 ==> !self@.records[j].live) by {
                        assert(old(self)@.records[j].destroy_calls <= 1);
                    }
                    assert(self@ =~= old(self)@.forget(addr));
                    true
                } else {
                    false
                }
            },
            None => false,
        }
    }

    /// Drops a handle of either flavour: an owning one destroys its object,
    /// a borrowed one does nothing.
    pub fn drop_handle(&mut self, h: Handle)
        requires
            old(self)@.wf(),
        ensures
            final(self)@.wf(),
            final(self)@ == old(self)@.drop_handle(h),
    {
        match h {
            Handle::Owned(o) => {
                self.release(o);
            },
            Handle::Borrowed(_) => {},
        }
    }

    /// Drops handles in order, as at the end of a callback's scope.
    pub fn drop_all(&mut self, hs: Vec<Handle>)
        requires
            old(self)@.wf(),
        ensures
            final(self)@.wf(),
            final(self)@ == old(self)@.drop_all(hs@),
    {
        let mut rest = hs;
        while rest.len() > 0
            invariant
                self@.wf(),
                self@.drop_all(rest@) == old(self)@.drop_all(hs@),
            decreases rest.len(),
        {
            let ghost before = rest@;
            let h = rest.remove(0);
            assert(rest@ =~= before.drop_first());
            self.drop_handle(h);
        }
    }

    pub fn is_live(&self, addr: u64) -> (r: bool)
        requires
            self@.wf(),
        ensures
            r == self@.is_live(addr),
    {
        match self.index(addr) {
            Some(i) => self.records[i].live,
            None => false,
        }
    }

    /// Kind of the object at `addr`, if there is one (live or not).
    pub fn kind_of(&self, addr: u64) -> (r: Option<ObjectKind>)
        requires
            self@.wf(),
        ensures
            r is Some <==> self@.contains(addr),
            r matches Some(k) ==> k == self@.record(addr).kind,
    {
        match self.index(addr) {
            Some(i) => Some(self.records[i].kind),
            None => None,
        }
    }

    /// How many times the destroy function of `addr` ran.
    pub fn destroy_count(&self, addr: u64) -> (r: u64)
        requires
            self@.wf(),
        ensures
            r == self@.destroy_count(addr),
    {
        match self.index(addr) {
            Some(i) => self.records[i].destroy_calls,
            None => 0,
        }
    }

    /// Reads raw field `f` of the object at `addr`.
    pub fn read_field(&self, addr: u64, f: usize) -> (r: u64)
        requires
            self@.wf(),
            self@.contains(addr),
            f < FIELD_COUNT,
        ensures
            r == self@.field(addr, f as int),
    {
        let i = (addr / OBJECT_STRIDE - 1) as usize;
        self.fields[i * FIELD_COUNT + f]
    }

    /// Writes raw field `f` of the object at `addr`.
    pub fn write_field(&mut self, addr: u64, f: usize, value: u64)
        requires
            old(self)@.wf(),
            old(self)@.contains(addr),
            f < FIELD_COUNT,
        ensures
            final(self)@.wf(),
            final(self)@ == old(self)@.set_field(addr, f as int, value),
            final(self)@.records == old(self)@.records,
            final(self)@.fields == old(self)@.fields.update(
                index_of(addr) * (FIELD_COUNT as int) + f,
                value,
            ),
    {
        let i = (addr / OBJECT_STRIDE - 1) as usize;
        self.fields.set(i * FIELD_COUNT + f, value);
    }
}

/// What [`ForeignHeap::next_live`] looks for: a live object of `kind` whose
/// field `f` holds `v`, when `filter` is `Some((f, v))`.
pub open spec fn is_candidate(h: HeapModel, addr: u64, kind: ObjectKind, filter: Option<(usize, u64)>) -> bool {
    &&& h.is_live(addr)
    &&& h.record(addr).kind == kind
    &&& (filter matches Some((f, v)) ==> f < FIELD_COUNT && h.field(addr, f as int) == v)
}

impl ForeignHeap {
    /// The first candidate object after address `after`, in address order,
    /// or `NULL_ADDR` when there is none. Walking from `NULL_ADDR` visits
    /// every candidate once, in creation order.
    pub fn next_live(&self, after: u64, kind: ObjectKind, filter: Option<(usize, u64)>) -> (r: u64)
        requires
            self@.wf(),
        ensures
            r != NULL_ADDR ==> r > after && is_candidate(self@, r, kind, filter),
            forall|a: u64|
                after < a && (r == NULL_ADDR || a < r) ==> !#[trigger] is_candidate(self@, a, kind, filter),
    {
        let q = after / OBJECT_STRIDE;
        if q >= self.records.len() as u64 {
            assert forall|b: u64| after < b implies !#[trigger] is_candidate(self@, b, kind, filter) by {
                if self@.contains(b) {
                    lemma_addr_index(self@, b);
                }
            }
            return NULL_ADDR;
        }
        let mut i: usize = q as usize;
        let start = i;
        assert forall|a: u64| after < a && self@.contains(a) implies index_of(a) >= start || start == self.records.len() by {
            lemma_addr_index(self@, a);
        }
        while i < self.records.len()
            invariant
                self@.wf(),
                start <= i <= self.records.len(),
                forall|a: u64| after < a && self@.contains(a) ==> index_of(a) >= start || start == self.records.len(),
                forall|a: u64|
                    after < a && self@.contains(a) && index_of(a) < i ==> !#[trigger] is_candidate(self@, a, kind, filter),
                start == self.records.len() || addr_of(start as int) > after,
            decreases self.records.len() - i,
        {
            let rec = self.records[i];
            let a = ((i + 1) as u64) * OBJECT_STRIDE;
            proof { lemma_index_of_addr(i as int); }
            let ok = rec.live && rec.kind == kind && match filter {
                Some((f, v)) => f < FIELD_COUNT && self.fields[i * FIELD_COUNT + f] == v,
                None => true,
            };
            if ok {
                assert(a > after);
                assert(is_candidate(self@, a, kind, filter));
                assert forall|b: u64| after < b && b < a implies !#[trigger] is_candidate(self@, b, kind, filter) by {
                    if self@.contains(b) {
                        lemma_addr_index(self@, b);
                    }
                }
                return a;
            }
            i = i + 1;
        }
        assert forall|b: u64| after < b implies !#[trigger] is_candidate(self@, b, kind, filter) by {
            if self@.contains(b) {
                lemma_addr_index(self@, b);
            }
        }
        NULL_ADDR
    }
}

/// An owning handle is handed out once per object, and releasing it runs the
/// object's destroy function exactly once: a second owning handle is refused,
/// and a second release finds nothing to destroy. No other object is touched.
pub proof fn lemma_owned_destroyed_once(h: HeapModel, kind: ObjectKind, other: u64)
    requires
        h.wf(),
        h.records.len() < MAX_OBJECTS,
        other != h.next_addr(),
    ensures
        ({
            let a = h.next_addr();
            let created = h.create(kind, true);
            let released = created.release(a);
            &&& created.is_live(a) && created.is_owned(a)
            &&& created.destroy_count(a) == 0
            &&& created.adopt(a) == created
            &&& released.destroy_count(a) == 1
            &&& !released.is_live(a)
            &&& released.release(a) == released
            &&& released.adopt(a) == released
            &&& released.destroy_count(other) == h.destroy_count(other)
        }),
{
    let a = h.next_addr();
    lemma_index_of_addr(h.records.len() as int);
    let created = h.create(kind, true);
    assert(created.contains(a));
    if h.contains(other) {
        assert(index_of(other) != index_of(a)) by {
            lemma_addr_index(h, other);
        }
    }
}

/// Dropping any number of borrowed handles leaves the table as it was: no
/// destroy function runs.
pub proof fn lemma_borrowed_drops_are_inert(h: HeapModel, hs: Seq<Handle>)
    requires
        forall|i: int| 0 <= i < hs.len() ==> #[trigger] hs[i] is Borrowed,
    ensures
        h.drop_all(hs) == h,
    decreases hs.len(),
{
    if hs.len() > 0 {
        assert(hs[0] is Borrowed);
        let rest = hs.drop_first();
        assert forall|i: int| 0 <= i < rest.len() implies #[trigger] rest[i] is Borrowed by {
            assert(rest[i] == hs[i + 1]);
        }
        lemma_borrowed_drops_are_inert(h, rest);
    }
}

} // verus!
