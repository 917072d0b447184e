//! Per-object user data: one payload slot per foreign object.
//!
//! A payload moves in and out by value. Setting a slot that is occupied hands
//! the previous payload back, so it is never dropped behind the caller's back.
use vstd::prelude::*;

verus! {

/// Payload slots keyed by object address.
pub struct UserDataTable<T> {
    addrs: Vec<u64>,
    payloads: Vec<Option<T>>,
}

impl<T> UserDataTable<T> {
    pub closed spec fn wf(&self) -> bool {
        &&& self.addrs.len() == self.payloads.len()
        &&& forall|i: int, j: int|
            0 <= i < self.addrs.len() && 0 <= j < self.addrs.len() && i != j ==> #[trigger] self.addrs@[i]
                != #[trigger] self.addrs@[j]
    }

    /// The payload held for `addr`, if any.
    pub closed spec fn slot(&self, addr: u64) -> Option<T> {
        if exists|i: int| 0 <= i < self.addrs.len() && self.addrs@[i] == addr {
            self.payloads@[choose|i: int| 0 <= i < self.addrs.len() && self.addrs@[i] == addr]
        } else {
            None
        }
    }

    proof fn lemma_slot_at(&self, i: int)
        requires
            self.wf(),
            0 <= i < self.addrs.len(),
        ensures
            self.slot(self.addrs@[i]) == self.payloads@[i],
    {
        let a = self.addrs@[i];
        assert(exists|k: int| 0 <= k < self.addrs.len() && self.addrs@[k] == a);
        let j = choose|k: int| 0 <= k < self.addrs.len() && self.addrs@[k] == a;
        assert(j == i);
    }

    pub fn new() -> (r: UserDataTable<T>)
        ensures
            r.wf(),
            forall|a: u64| r.slot(a) is None,
    {
        UserDataTable { addrs: Vec::new(), payloads: Vec::new() }
    }

    fn find(&self, addr: u64) -> (r: Option<usize>)
        requires
            self.wf(),
        ensures
            r is None ==> self.slot(addr) is None,
            r is None ==> forall|i: int| 0 <= i < self.addrs.len() ==> self.addrs@[i] != addr,
            r matches Some(i) ==> i < self.addrs.len() && self.addrs@[i as int] == addr,
    {
        let mut i: usize = 0;
        while i < self.addrs.len()
            invariant
                i <= self.addrs.len(),
                forall|k: int| 0 <= k < i ==> self.addrs@[k] != addr,
            decreases self.addrs.len() - i,
        {
            if self.addrs[i] == addr {
                return Some(i);
            }
            i = i + 1;
        }
        None
    }

    /// Puts `value` into slot `i` and gives back what it held.
    fn swap_at(&mut self, i: usize, value: Option<T>) -> (r: Option<T>)
        requires
            old(self).wf(),
            i < old(self).addrs.len(),
        ensures
            final(self).wf(),
            r == old(self).payloads@[i as int],
            final(self).slot(old(self).addrs@[i as int]) == value,
            forall|b: u64| b != old(self).addrs@[i as int] ==> final(self).slot(b) == old(self).slot(b),
    {
        let ghost before = *self;
        let prev = self.payloads.remove(i);
        self.payloads.insert(i, value);
        assert(self.payloads@ =~= before.payloads@.update(i as int, value));
        proof {
            self.lemma_slot_at(i as int);
            assert forall|b: u64| b != before.addrs@[i as int] implies self.slot(b) == before.slot(b) by {
                if exists|k: int| 0 <= k < self.addrs.len() && self.addrs@[k] == b {
                    let k = choose|k: int| 0 <= k < self.addrs.len() && self.addrs@[k] == b;
                    self.lemma_slot_at(k);
                    before.lemma_slot_at(k);
                }
            }
        }
        prev
    }

    /// Stores `data` for `addr` and returns the payload it displaces.
    pub fn set_user_data(&mut self, addr: u64, data: T) -> (r: Option<T>)
        requires
            old(self).wf(),
        ensures
            final(self).wf(),
            r == old(self).slot(addr),
            final(self).slot(addr) == Some(data),
            forall|b: u64| b != addr ==> final(self).slot(b) == old(self).slot(b),
    {
        match self.find(addr) {
            Some(i) => self.swap_at(i, Some(data)),
            None => {
                let ghost before = *self;
                self.addrs.push(addr);
                self.payloads.push(Some(data));
                proof {
                    let n = before.addrs.len() as int;
                    assert forall|i: int, j: int|
                        0 <= i < self.addrs.len() && 0 <= j < self.addrs.len() && i != j implies #[trigger] self.addrs@[i]
                        != #[trigger] self.addrs@[j] by {
                        if i < n && j < n {
                            assert(before.addrs@[i] != before.addrs@[j]);
                        }
                    }
                    self.lemma_slot_at(n);
                    assert forall|b: u64| b != addr implies self.slot(b) == before.slot(b) by {
                        if exists|k: int| 0 <= k < self.addrs.len() && self.addrs@[k] == b {
                            let k = choose|k: int| 0 <= k < self.addrs.len() && self.addrs@[k] == b;
                            self.lemma_slot_at(k);
                            before.lemma_slot_at(k);
                        } else {
                            assert forall|k: int| 0 <= k < before.addrs.len() implies before.addrs@[k] != b by {
                                assert(self.addrs@[k] == before.addrs@[k]);
                            }
                        }
                    }
                }
                None
            },
        }
    }

    /// Takes the payload of `addr` out, leaving its slot empty.
    pub fn get_user_data(&mut self, addr: u64) -> (r: Option<T>)
        requires
            old(self).wf(),
        ensures
            final(self).wf(),
            r == old(self).slot(addr),
            final(self).slot(addr) is None,
            forall|b: u64| b != addr ==> final(self).slot(b) == old(self).slot(b),
    {
        match self.find(addr) {
            Some(i) => {
                proof { self.lemma_slot_at(i as int); }
                self.swap_at(i, None)
            },
            None => None,
        }
    }

    /// Empties the slot of `addr`, dropping what it held.
    pub fn unset_user_data(&mut self, addr: u64)
        requires
            old(self).wf(),
        ensures
            final(self).wf(),
            final(self).slot(addr) is None,
            forall|b: u64| b != addr ==> final(self).slot(b) == old(self).slot(b),
    {
        let _ = self.get_user_data(addr);
    }

    /// Looks at the payload of `addr` without taking it.
    pub fn borrow_user_data(&self, addr: u64) -> (r: Option<&T>)
        requires
            self.wf(),
        ensures
            r is None <==> self.slot(addr) is None,
            r matches Some(p) ==> self.slot(addr) == Some(*p),
    {
        match self.find(addr) {
            Some(i) => {
                proof { self.lemma_slot_at(i as int); }
                self.payloads[i].as_ref()
            },
            None => None,
        }
    }

    pub fn has_user_data(&self, addr: u64) -> (r: bool)
        requires
            self.wf(),
        ensures
            r == self.slot(addr) is Some,
    {
        self.borrow_user_data(addr).is_some()
    }
}

/// Relation between a table before and after `set_user_data(addr, data)`
/// that returned `r`.
pub open spec fn set_post<T>(
    before: UserDataTable<T>,
    after: UserDataTable<T>,
    addr: u64,
    data: T,
    r: Option<T>,
) -> bool {
    &&& r == before.slot(addr)
    &&& after.slot(addr) == Some(data)
    &&& forall|b: u64| b != addr ==> after.slot(b) == before.slot(b)
}

/// Relation between a table before and after `get_user_data(addr)` that
/// returned `r`.
pub open spec fn get_post<T>(
    before: UserDataTable<T>,
    after: UserDataTable<T>,
    addr: u64,
    r: Option<T>,
) -> bool {
    &&& r == before.slot(addr)
    &&& after.slot(addr) is None
    &&& forall|b: u64| b != addr ==> after.slot(b) == before.slot(b)
}

/// Setting a payload and then taking it gives that payload back and leaves
/// the slot empty; taking again gives nothing.
pub proof fn lemma_set_then_get<T>(
    t0: UserDataTable<T>,
    t1: UserDataTable<T>,
    t2: UserDataTable<T>,
    t3: UserDataTable<T>,
    addr: u64,
    data: T,
    r1: Option<T>,
    r2: Option<T>,
    r3: Option<T>,
)
    requires
        set_post(t0, t1, addr, data, r1),
        get_post(t1, t2, addr, r2),
        get_post(t2, t3, addr, r3),
    ensures
        r2 == Some(data),
        t2.slot(addr) is None,
        r3 is None,
{
}

/// Setting twice hands the first payload back on the second call.
pub proof fn lemma_set_twice_returns_first<T>(
    t0: UserDataTable<T>,
    t1: UserDataTable<T>,
    t2: UserDataTable<T>,
    addr: u64,
    first: T,
    second: T,
    r1: Option<T>,
    r2: Option<T>,
)
    requires
        set_post(t0, t1, addr, first, r1),
        set_post(t1, t2, addr, second, r2),
    ensures
        r2 == Some(first),
        t2.slot(addr) == Some(second),
{
}

} // verus!
