//! Signals and listeners: the observer shape of foreign callbacks.
//!
//! A signal is an ordered list of listener nodes. Registering interest
//! allocates a registration record at a fixed address in the table and links
//! its node, which sits at a known offset inside the record. When the foreign
//! side emits, it hands each node's address and the event data to the
//! trampoline, which walks back from the node to the record and gives the
//! caller a borrowed handle to the event data.
use vstd::prelude::*;
use crate::handle::{ObjectKind, Ref, NULL_ADDR};
use crate::trampoline::{container_of, container_of_spec};

verus! {

/// Address of the first registration record.
pub const LISTENER_BASE: u64 = 0x1_0000_0000_0000;

/// Size of one registration record.
pub const LISTENER_RECORD_SIZE: u64 = 64;

/// Offset of the listener node inside its registration record.
pub const LISTENER_NODE_OFFSET: u64 = 16;

/// Most registrations one hub can hold.
pub const MAX_LISTENERS: usize = 0x10_0000;

/// Address of registration record `i`.
pub open spec fn record_addr(i: int) -> int {
    LISTENER_BASE as int + i * (LISTENER_RECORD_SIZE as int)
}

/// Address of the node of registration record `i`.
pub open spec fn node_addr(i: int) -> int {
    record_addr(i) + LISTENER_NODE_OFFSET as int
}

/// Registration that a node address belongs to, when it is one.
pub open spec fn node_index(node: u64) -> int {
    (node as int - LISTENER_NODE_OFFSET as int - LISTENER_BASE as int) / (LISTENER_RECORD_SIZE as int)
}

pub open spec fn is_node_shape(node: u64) -> bool {
    &&& node as int >= LISTENER_BASE as int + LISTENER_NODE_OFFSET as int
    &&& (node as int - LISTENER_NODE_OFFSET as int - LISTENER_BASE as int) % (
    LISTENER_RECORD_SIZE as int) == 0
}

/// One registration.
#[derive(Debug, Clone, Copy, PartialEq, Eq, Structural)]
pub struct ListenerRecord {
    /// Signal its node is linked into.
    pub signal: usize,
    /// Kind of object that the signal's event data points at.
    pub arg_kind: ObjectKind,
    /// Linked and not yet detached.
    pub active: bool,
}

/// One call that a trampoline makes into user code.
#[derive(Debug, Clone, Copy, PartialEq, Eq, Structural)]
pub struct Invocation {
    /// Address of the registration record the callback belongs to.
    pub record: u64,
    /// The event data, as a borrowed handle (`None` for null data).
    pub arg: Option<Ref>,
}

/// All signals and listener registrations.
pub struct SignalHub {
    signals: Vec<Vec<u64>>,
    listeners: Vec<ListenerRecord>,
}

impl SignalHub {
    pub closed spec fn nodes(&self, s: int) -> Seq<u64> {
        self.signals@[s]@
    }

    pub closed spec fn signal_count(&self) -> nat {
        self.signals.len() as nat
    }

    pub closed spec fn listener_count(&self) -> nat {
        self.listeners.len() as nat
    }

    pub closed spec fn listener(&self, i: int) -> ListenerRecord {
        self.listeners@[i]
    }

    /// `node` is the node of an active registration linked into signal `s`.
    pub open spec fn is_linked_node(&self, s: int, node: u64) -> bool {
        &&& is_node_shape(node)
        &&& node_index(node) < self.listener_count()
        &&& self.listener(node_index(node)).active
        &&& self.listener(node_index(node)).signal == s
    }

    /// `node` is the node of some active registration.
    pub open spec fn is_registered_node(&self, node: u64) -> bool {
        &&& is_node_shape(node)
        &&& node_index(node) < self.listener_count()
        &&& self.listener(node_index(node)).active
    }

    pub closed spec fn wf(&self) -> bool {
        &&& self.listeners.len() <= MAX_LISTENERS
        &&& forall|s: int, k: int|
            0 <= s < self.signals.len() && 0 <= k < self.signals@[s]@.len() ==> self.is_linked_node(
                s,
                #[trigger] self.signals@[s]@[k],
            )
        &&& forall|s: int, k1: int, k2: int|
            0 <= s < self.signals.len() && 0 <= k1 < self.signals@[s]@.len() && 0 <= k2
                < self.signals@[s]@.len() && k1 != k2 ==> #[trigger] self.signals@[s]@[k1]
                != #[trigger] self.signals@[s]@[k2]
        &&& forall|i: int|
            0 <= i < self.listeners.len() && (#[trigger] self.listeners@[i]).active ==> {
                &&& self.listeners@[i].signal < self.signals.len()
                &&& self.signals@[self.listeners@[i].signal as int]@.contains(node_addr(i) as u64)
            }
    }

    /// What the trampoline makes of a foreign call on `node` with `data`.
    pub open spec fn notify_spec(&self, node: u64, data: u64) -> Option<Invocation> {
        if self.is_registered_node(node) {
            Some(
                Invocation {
                    record: container_of_spec(node, LISTENER_NODE_OFFSET) as u64,
                    arg: if data == NULL_ADDR {
                        None
                    } else {
                        Some(Ref::from_addr_spec(data, self.listener(node_index(node)).arg_kind))
                    },
                },
            )
        } else {
            None
        }
    }

    pub fn new() -> (r: SignalHub)
        ensures
            r.wf(),
            r.signal_count() == 0,
            r.listener_count() == 0,
    {
        SignalHub { signals: Vec::new(), listeners: Vec::new() }
    }

    /// Adds an empty signal and returns its id.
    pub fn new_signal(&mut self) -> (r: usize)
        requires
            old(self).wf(),
            old(self).signal_count() < usize::MAX,
        ensures
            final(self).wf(),
            r == old(self).signal_count(),
            final(self).signal_count() == old(self).signal_count() + 1,
            final(self).nodes(r as int).len() == 0,
            forall|s: int| 0 <= s < old(self).signal_count() ==> final(self).nodes(s) == old(self).nodes(s),
            final(self).listener_count() == old(self).listener_count(),
            forall|i: int| 0 <= i < old(self).listener_count() ==> final(self).listener(i) == old(self).listener(i),
    {
        let ghost before = *self;
        let r = self.signals.len();
        self.signals.push(Vec::new());
        assert forall|i: int| 0 <= i < self.listeners.len() && (#[trigger] self.listeners@[i]).active implies {
            &&& self.listeners@[i].signal < self.signals.len()
            &&& self.signals@[self.listeners@[i].signal as int]@.contains(node_addr(i) as u64)
        } by {
            assert(self.signals@[self.listeners@[i].signal as int] == before.signals@[self.listeners@[i].signal as int]);
        }
        assert forall|s: int, k: int|
            0 <= s < self.signals.len() && 0 <= k < self.signals@[s]@.len() implies self.is_linked_node(
            s,
            #[trigger] self.signals@[s]@[k],
        ) by {
            assert(s < before.signals.len());
            assert(self.signals@[s] == before.signals@[s]);
        }
        assert forall|s: int, k1: int, k2: int|
            0 <= s < self.signals.len() && 0 <= k1 < self.signals@[s]@.len() && 0 <= k2
                < self.signals@[s]@.len() && k1 != k2 implies #[trigger] self.signals@[s]@[k1]
            != #[trigger] self.signals@[s]@[k2] by {
            assert(self.signals@[s] == before.signals@[s]);
        }
        r
    }

    /// Registers a listener on signal `s` (events carry objects of
    /// `arg_kind`) and links its node at the end of the signal's list.
    /// Returns the address of the registration record, or `None` when the
    /// hub is full or `s` is no signal.
    pub fn add_listener(&mut self, s: usize, arg_kind: ObjectKind) -> (r: Option<u64>)
        requires
            old(self).wf(),
        ensures
            final(self).wf(),
            final(self).signal_count() == old(self).signal_count(),
            (s < old(self).signal_count() && old(self).listener_count() < MAX_LISTENERS) <==> r is Some,
            r is None ==> *final(self) == *old(self),
            r matches Some(rec) ==> {
                &&& rec == record_addr(old(self).listener_count() as int)
                &&& final(self).nodes(s as int) == old(self).nodes(s as int).push(
                    (rec + LISTENER_NODE_OFFSET) as u64,
                )
                &&& final(self).is_registered_node((rec + LISTENER_NODE_OFFSET) as u64)
                &&& final(self).listener(node_index((rec + LISTENER_NODE_OFFSET) as u64)).arg_kind
                    == arg_kind
                &&& forall|t: int|
                    0 <= t < old(self).signal_count() && t != s ==> final(self).nodes(t) == old(
                        self,
                    ).nodes(t)
            },
    {
        if s >= self.signals.len() || self.listeners.len() >= MAX_LISTENERS {
            return None;
        }
        let ghost before = *self;
        let i = self.listeners.len();
        let rec = LISTENER_BASE + (i as u64) * LISTENER_RECORD_SIZE;
        let node = rec + LISTENER_NODE_OFFSET;
        assert(node_index(node) == i as int);
        assert(node == node_addr(i as int));
        self.listeners.push(ListenerRecord { signal: s, arg_kind, active: true });
        let mut list = self.signals.remove(s);
        list.push(node);
        self.signals.insert(s, list);
        assert(self.signals@ =~= before.signals@.update(s as int, self.signals@[s as int]));
        proof {
            let n = before.nodes(s as int);
            assert(self.signals@[s as int]@ == n.push(node));
            assert forall|t: int, k: int|
                0 <= t < self.signals.len() && 0 <= k < self.signals@[t]@.len() implies self.is_linked_node(
                t,
                #[trigger] self.signals@[t]@[k],
            ) by {
                let x = self.signals@[t]@[k];
                if t == s as int && k == n.len() {
                    assert(x == node);
                } else {
                    assert(x == before.signals@[t]@[k]);
                    assert(before.is_linked_node(t, x));
                    assert(self.listeners@[node_index(x)] == before.listeners@[node_index(x)]);
                }
            }
            assert forall|t: int, k1: int, k2: int|
                0 <= t < self.signals.len() && 0 <= k1 < self.signals@[t]@.len() && 0 <= k2
                    < self.signals@[t]@.len() && k1 != k2 implies #[trigger] self.signals@[t]@[k1]
                != #[trigger] self.signals@[t]@[k2] by {
                if t == s as int {
                    if k1 == n.len() {
                        assert(before.is_linked_node(t, n[k2]));
                    } else if k2 == n.len() {
                        assert(before.is_linked_node(t, n[k1]));
                    } else {
                        assert(n[k1] != n[k2]);
                    }
                } else {
                    assert(self.signals@[t] == before.signals@[t]);
                }
            }
            assert forall|j: int| 0 <= j < self.listeners.len() && (#[trigger] self.listeners@[j]).active implies {
                &&& self.listeners@[j].signal < self.signals.len()
                &&& self.signals@[self.listeners@[j].signal as int]@.contains(node_addr(j) as u64)
            } by {
                if j == i as int {
                    assert(self.signals@[s as int]@[n.len() as int] == node);
                } else {
                    assert(self.listeners@[j] == before.listeners@[j]);
                    let t = before.listeners@[j].signal as int;
                    let w = node_addr(j) as u64;
                    assert(before.signals@[t]@.contains(w));
                    let k = choose|k: int| 0 <= k < before.signals@[t]@.len() && before.signals@[t]@[k] == w;
                    if t == s as int {
                        assert(self.signals@[t]@[k] == w);
                    } else {
                        assert(self.signals@[t] == before.signals@[t]);
                    }
                }
            }
            assert forall|t: int| 0 <= t < before.signal_count() && t != s implies self.nodes(t) == before.nodes(t) by {
                assert(self.signals@[t] == before.signals@[t]);
            }
        }
        Some(rec)
    }

    /// The trampoline: turns a foreign call on `node` with `data` into an
    /// invocation of the registration the node belongs to.
    pub fn notify(&self, node: u64, data: u64) -> (r: Option<Invocation>)
        requires
            self.wf(),
        ensures
            r == self.notify_spec(node, data),
    {
        if node < LISTENER_BASE + LISTENER_NODE_OFFSET {
            return None;
        }
        let off = node - LISTENER_NODE_OFFSET - LISTENER_BASE;
        if off % LISTENER_RECORD_SIZE != 0 {
            return None;
        }
        let i = off / LISTENER_RECORD_SIZE;
        if i >= self.listeners.len() as u64 {
            return None;
        }
        let rec = self.listeners[i as usize];
        if !rec.active {
            return None;
        }
        Some(
            Invocation {
                record: container_of(node, LISTENER_NODE_OFFSET),
                arg: Ref::from_borrowed_ptr(data, rec.arg_kind),
            },
        )
    }

    /// Emits signal `s`: every linked listener, in link order, gets the
    /// event data.
    pub fn emit(&self, s: usize, data: u64) -> (r: Vec<Invocation>)
        requires
            self.wf(),
            s < self.signal_count(),
        ensures
            r@.len() == self.nodes(s as int).len(),
            forall|k: int|
                0 <= k < r@.len() ==> Some(#[trigger] r@[k]) == self.notify_spec(
                    self.nodes(s as int)[k],
                    data,
                ),
    {
        let list = &self.signals[s];
        let mut out: Vec<Invocation> = Vec::new();
        let mut k: usize = 0;
        while k < list.len()
            invariant
                self.wf(),
                s < self.signals.len(),
                list@ == self.nodes(s as int),
                k <= list.len(),
                out@.len() == k,
                forall|j: int|
                    0 <= j < k ==> Some(#[trigger] out@[j]) == self.notify_spec(
                        self.nodes(s as int)[j],
                        data,
                    ),
            decreases list.len() - k,
        {
            assert(self.is_linked_node(s as int, list@[k as int]));
            match self.notify(list[k], data) {
                Some(inv) => out.push(inv),
                None => {},
            }
            k = k + 1;
        }
        out
    }

    /// Detaches the registration whose record is at `rec`: unlinks its node
    /// first, then retires the record. After this no emission reaches it.
    /// Gives `false`, and does nothing, when `rec` is no active registration.
    pub fn remove_listener(&mut self, rec: u64) -> (r: bool)
        requires
            old(self).wf(),
        ensures
            final(self).wf(),
            final(self).signal_count() == old(self).signal_count(),
            r == (rec <= u64::MAX - LISTENER_NODE_OFFSET && old(self).is_registered_node(
                (rec + LISTENER_NODE_OFFSET) as u64,
            )),
            !r ==> *final(self) == *old(self),
            r ==> !final(self).is_registered_node((rec + LISTENER_NODE_OFFSET) as u64),
            r ==> forall|n: u64|
                n != rec + LISTENER_NODE_OFFSET ==> (final(self).is_registered_node(n)
                    <==> old(self).is_registered_node(n)),
    {
        if rec > u64::MAX - LISTENER_NODE_OFFSET {
            return false;
        }
        let node = rec + LISTENER_NODE_OFFSET;
        match self.notify(node, NULL_ADDR) {
            None => false,
            Some(_) => {
                let ghost before = *self;
                let i = ((node - LISTENER_NODE_OFFSET - LISTENER_BASE) / LISTENER_RECORD_SIZE) as usize;
                let lr = self.listeners[i];
                let s = lr.signal;
                assert(before.signals@[s as int]@.contains(node_addr(i as int) as u64));
                assert(node == node_addr(i as int));
                let mut list = self.signals.remove(s);
                let mut k: usize = 0;
                while k < list.len() && list[k] != node
                    invariant
                        k <= list.len(),
                        s < before.signals.len(),
                        list@ == before.signals@[s as int]@,
                        list@.contains(node),
                        forall|j: int| 0 <= j < k ==> list@[j] != node,
                    decreases list.len() - k,
                {
                    k = k + 1;
                }
                assert(k < list.len());
                let ghost old_list = list@;
                list.remove(k);
                self.signals.insert(s, list);
                assert(self.signals@ =~= before.signals@.update(s as int, self.signals@[s as int]));
                self.listeners.set(i, ListenerRecord { active: false, ..lr });
                proof {
                    let nl = self.signals@[s as int]@;
                    assert(nl =~= old_list.remove(k as int));
                    assert forall|t: int, q: int|
                        0 <= t < self.signals.len() && 0 <= q < self.signals@[t]@.len() implies self.is_linked_node(
                        t,
                        #[trigger] self.signals@[t]@[q],
                    ) by {
                        let x = self.signals@[t]@[q];
                        if t == s as int {
                            let q0 = if q < k { q } else { q + 1 };
                            assert(x == old_list[q0]);
                            assert(before.is_linked_node(t, x));
                            assert(x != node);
                            assert(node_index(x) != i as int);
                        } else {
                            assert(self.signals@[t] == before.signals@[t]);
                            assert(before.is_linked_node(t, x));
                            if node_index(x) == i as int {
                                assert(before.listeners@[i as int].signal == s);
                            }
                        }
                    }
                    assert forall|t: int, k1: int, k2: int|
                        0 <= t < self.signals.len() && 0 <= k1 < self.signals@[t]@.len() && 0 <= k2
                            < self.signals@[t]@.len() && k1 != k2 implies #[trigger] self.signals@[t]@[k1]
                        != #[trigger] self.signals@[t]@[k2] by {
                        if t == s as int {
                            let a = if k1 < k { k1 } else { k1 + 1 };
                            let b = if k2 < k { k2 } else { k2 + 1 };
                            assert(old_list[a] != old_list[b]);
                        } else {
                            assert(self.signals@[t] == before.signals@[t]);
                        }
                    }
                    assert forall|j: int| 0 <= j < self.listeners.len() && (#[trigger] self.listeners@[j]).active implies {
                        &&& self.listeners@[j].signal < self.signals.len()
                        &&& self.signals@[self.listeners@[j].signal as int]@.contains(node_addr(j) as u64)
                    } by {
                        assert(j != i as int);
                        assert(self.listeners@[j] == before.listeners@[j]);
                        let t = before.listeners@[j].signal as int;
                        let w = node_addr(j) as u64;
                        assert(before.signals@[t]@.contains(w));
                        let q = choose|q: int| 0 <= q < before.signals@[t]@.len() && before.signals@[t]@[q] == w;
                        if t == s as int {
                            assert(w != node);
                            assert(q != k);
                            let q1 = if q < k { q } else { q - 1 };
                            assert(self.signals@[t]@[q1] == w);
                        } else {
                            assert(self.signals@[t] == before.signals@[t]);
                        }
                    }
                    assert forall|n: u64| n != node implies (self.is_registered_node(n)
                        <==> before.is_registered_node(n)) by {
                        if is_node_shape(n) && is_node_shape(node) {
                            if node_index(n) == node_index(node) {
                                assert(n == node);
                            }
                        }
                    }
                }
                true
            },
        }
    }
}

/// The trampoline of a registration recovers exactly its record from its
/// node, and hands the user code the event data address unchanged.
pub proof fn lemma_notify_fidelity(hub: &SignalHub, i: int, data: u64)
    requires
        0 <= i < hub.listener_count(),
        hub.listener(i).active,
        node_addr(i) <= u64::MAX,
        data != NULL_ADDR,
    ensures
        ({
            let node = node_addr(i) as u64;
            let inv = hub.notify_spec(node, data);
            &&& inv is Some
            &&& inv->0.record == record_addr(i)
            &&& inv->0.arg matches Some(h) && h.addr_spec() == data && h.kind_spec()
                == hub.listener(i).arg_kind
        }),
{
    let node = node_addr(i) as u64;
    assert(node_index(node) == i);
    Ref::lemma_from_addr(data, hub.listener(i).arg_kind);
}

} // verus!
