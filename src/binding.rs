//! Input bindings: which handlers run for a key, button, axis or touch.
//!
//! Handlers are registered with a code and an exact modifier set. An event
//! runs, in registration order, every live binding of its kind whose code
//! matches and whose modifiers equal the seat's current modifiers.
use vstd::prelude::*;
use crate::protocol::KeyboardModifier;

verus! {

/// Linux input event code of the left mouse button.
pub const BTN_LEFT: u32 = 0x110;

/// Linux input event code of the right mouse button.
pub const BTN_RIGHT: u32 = 0x111;

/// Linux input event code of the Enter key.
pub const KEY_ENTER: u32 = 28;

/// Most bindings one table holds over its lifetime.
pub const MAX_BINDINGS: usize = 0x10_0000;

/// What a binding listens to.
#[derive(Debug, Clone, Copy, PartialEq, Eq, Structural)]
pub enum BindingKind {
    Key,
    Modifier,
    Button,
    Touch,
    Axis,
    Debug,
}

/// Opaque reference to a binding. Hold on to it to destroy the binding later.
#[derive(Debug, Clone, Copy, PartialEq, Eq, Structural)]
pub struct Binding {
    id: usize,
}

impl Binding {
    pub closed spec fn id_spec(self) -> usize {
        self.id
    }

    pub fn id(&self) -> (r: usize)
        ensures
            r == self.id_spec(),
    {
        self.id
    }
}

#[derive(Debug, Clone, Copy, PartialEq, Eq, Structural)]
pub struct BindingRecord {
    pub kind: BindingKind,
    /// Key, button or axis code; unused for touch and modifier bindings.
    pub code: u32,
    /// Modifier bits that must be held, exactly.
    pub modifier: u32,
    /// Not destroyed yet.
    pub live: bool,
}

/// Whether the binding `b` runs for an event of `kind` with `code` while the
/// seat holds `mods`.
pub open spec fn fires(b: BindingRecord, kind: BindingKind, code: u32, mods: u32) -> bool {
    &&& b.live
    &&& b.kind == kind
    &&& (kind == BindingKind::Touch || kind == BindingKind::Modifier || b.code == code)
    &&& b.modifier == mods
}

/// All bindings of a compositor.
pub struct BindingTable {
    records: Vec<BindingRecord>,
}

impl BindingTable {
    pub closed spec fn records(&self) -> Seq<BindingRecord> {
        self.records@
    }

    pub fn new() -> (r: BindingTable)
        ensures
            r.records().len() == 0,
    {
        BindingTable { records: Vec::new() }
    }

    /// Registers a binding; `None` when the table is full.
    pub fn add(&mut self, kind: BindingKind, code: u32, modifier: KeyboardModifier) -> (r: Option<
        Binding,
    >)
        ensures
            r is None <==> old(self).records().len() >= MAX_BINDINGS,
            r is None ==> final(self).records() == old(self).records(),
            r matches Some(b) ==> b.id_spec() == old(self).records().len() && final(self).records()
                == old(self).records().push(
                BindingRecord { kind, code, modifier: modifier.bits_spec(), live: true },
            ),
    {
        if self.records.len() >= MAX_BINDINGS {
            return None;
        }
        let id = self.records.len();
        self.records.push(BindingRecord { kind, code, modifier: modifier.bits(), live: true });
        Some(Binding { id })
    }

    pub fn add_key_binding(&mut self, key: u32, modifier: KeyboardModifier) -> (r: Option<Binding>)
        ensures
            r is None <==> old(self).records().len() >= MAX_BINDINGS,
            r is None ==> final(self).records() == old(self).records(),
            r matches Some(b) ==> b.id_spec() == old(self).records().len() && final(self).records()
                == old(self).records().push(
                BindingRecord {
                    kind: BindingKind::Key,
                    code: key,
                    modifier: modifier.bits_spec(),
                    live: true,
                },
            ),
    {
        self.add(BindingKind::Key, key, modifier)
    }

    pub fn add_button_binding(&mut self, button: u32, modifier: KeyboardModifier) -> (r: Option<
        Binding,
    >)
        ensures
            r is None <==> old(self).records().len() >= MAX_BINDINGS,
            r is None ==> final(self).records() == old(self).records(),
            r matches Some(b) ==> b.id_spec() == old(self).records().len() && final(self).records()
                == old(self).records().push(
                BindingRecord {
                    kind: BindingKind::Button,
                    code: button,
                    modifier: modifier.bits_spec(),
                    live: true,
                },
            ),
    {
        self.add(BindingKind::Button, button, modifier)
    }

    /// Destroys a binding; `false` when it was already gone.
    pub fn destroy(&mut self, b: Binding) -> (r: bool)
        ensures
            r == (b.id_spec() < old(self).records().len() && old(self).records()[b.id_spec() as int].live),
            r ==> final(self).records() == old(self).records().update(
                b.id_spec() as int,
                BindingRecord { live: false, ..old(self).records()[b.id_spec() as int] },
            ),
            !r ==> final(self).records() == old(self).records(),
    {
        if b.id < self.records.len() && self.records[b.id].live {
            let rec = self.records[b.id];
            self.records.set(b.id, BindingRecord { live: false, ..rec });
            true
        } else {
            false
        }
    }

    /// The bindings an event runs, in registration order: exactly those that
    /// fire for it.
    pub fn matching(&self, kind: BindingKind, code: u32, mods: KeyboardModifier) -> (r: Vec<Binding>)
        ensures
            forall|k: int|
                0 <= k < r@.len() ==> (#[trigger] r@[k]).id_spec() < self.records().len() && fires(
                    self.records()[r@[k].id_spec() as int],
                    kind,
                    code,
                    mods.bits_spec(),
                ),
            forall|k1: int, k2: int|
                0 <= k1 < k2 < r@.len() ==> (#[trigger] r@[k1]).id_spec() < (#[trigger] r@[k2]).id_spec(),
            forall|i: int|
                0 <= i < self.records().len() && fires(
                    #[trigger] self.records()[i],
                    kind,
                    code,
                    mods.bits_spec(),
                ) ==> exists|k: int| 0 <= k < r@.len() && r@[k].id_spec() == i,
    {
        let m = mods.bits();
        let mut out: Vec<Binding> = Vec::new();
        let mut i: usize = 0;
        while i < self.records.len()
            invariant
                i <= self.records.len(),
                m == mods.bits_spec(),
                forall|k: int|
                    0 <= k < out@.len() ==> (#[trigger] out@[k]).id_spec() < i && fires(
                        self.records()[out@[k].id_spec() as int],
                        kind,
                        code,
                        m,
                    ),
                forall|k1: int, k2: int|
                    0 <= k1 < k2 < out@.len() ==> (#[trigger] out@[k1]).id_spec() < (#[trigger] out@[k2]).id_spec(),
                forall|j: int|
                    0 <= j < i && fires(#[trigger] self.records()[j], kind, code, m) ==> exists|k: int|
                        0 <= k < out@.len() && out@[k].id_spec() == j,
            decreases self.records.len() - i,
        {
            let b = self.records[i];
            let code_ok = match kind {
                BindingKind::Touch => true,
                BindingKind::Modifier => true,
                _ => b.code == code,
            };
            if b.live && b.kind == kind && code_ok && b.modifier == m {
                let ghost before = out@;
                out.push(Binding { id: i });
                assert(out@[before.len() as int].id_spec() == i);
                assert forall|j: int|
                    0 <= j <= i && fires(#[trigger] self.records()[j], kind, code, m) implies exists|k: int|
                    0 <= k < out@.len() && out@[k].id_spec() == j by {
                    if j < i {
                        let k = choose|k: int| 0 <= k < before.len() && before[k].id_spec() == j;
                        assert(out@[k] == before[k]);
                    }
                }
            }
            i = i + 1;
        }
        out
    }

    /// The button bindings a button event runs: none on release.
    pub fn run_button_binding(&self, button: u32, state: crate::protocol::ButtonState, mods: KeyboardModifier) -> (r: Vec<Binding>)
        ensures
            state == crate::protocol::ButtonState::Released ==> r@.len() == 0,
            state == crate::protocol::ButtonState::Pressed ==> forall|k: int|
                0 <= k < r@.len() ==> (#[trigger] r@[k]).id_spec() < self.records().len() && fires(
                    self.records()[r@[k].id_spec() as int],
                    BindingKind::Button,
                    button,
                    mods.bits_spec(),
                ),
            state == crate::protocol::ButtonState::Pressed ==> forall|k1: int, k2: int|
                0 <= k1 < k2 < r@.len() ==> (#[trigger] r@[k1]).id_spec() < (#[trigger] r@[k2]).id_spec(),
            state == crate::protocol::ButtonState::Pressed ==> forall|i: int|
                0 <= i < self.records().len() && fires(
                    #[trigger] self.records()[i],
                    BindingKind::Button,
                    button,
                    mods.bits_spec(),
                ) ==> exists|k: int| 0 <= k < r@.len() && r@[k].id_spec() == i,
    {
        match state {
            crate::protocol::ButtonState::Released => Vec::new(),
            crate::protocol::ButtonState::Pressed => self.matching(BindingKind::Button, button, mods),
        }
    }

    /// The key bindings a key event runs: none on release.
    pub fn run_key_binding(&self, key: u32, state: crate::protocol::KeyState, mods: KeyboardModifier) -> (r: Vec<Binding>)
        ensures
            state == crate::protocol::KeyState::Released ==> r@.len() == 0,
            state == crate::protocol::KeyState::Pressed ==> forall|k: int|
                0 <= k < r@.len() ==> (#[trigger] r@[k]).id_spec() < self.records().len() && fires(
                    self.records()[r@[k].id_spec() as int],
                    BindingKind::Key,
                    key,
                    mods.bits_spec(),
                ),
            state == crate::protocol::KeyState::Pressed ==> forall|k1: int, k2: int|
                0 <= k1 < k2 < r@.len() ==> (#[trigger] r@[k1]).id_spec() < (#[trigger] r@[k2]).id_spec(),
            state == crate::protocol::KeyState::Pressed ==> forall|i: int|
                0 <= i < self.records().len() && fires(
                    #[trigger] self.records()[i],
                    BindingKind::Key,
                    key,
                    mods.bits_spec(),
                ) ==> exists|k: int| 0 <= k < r@.len() && r@[k].id_spec() == i,
    {
        match state {
            crate::protocol::KeyState::Released => Vec::new(),
            crate::protocol::KeyState::Pressed => self.matching(BindingKind::Key, key, mods),
        }
    }
}

} // verus!
