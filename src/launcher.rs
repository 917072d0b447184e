//! Session launchers: the interface the compositor uses to open devices
//! and switch virtual terminals.
//!
//! A launcher implementation is installed as a wrapper record whose first
//! member is what the compositor holds; every trampoline steps back from that
//! member to the wrapper. The compositor asks for a launcher through a
//! connect call and later destroys it, which frees the wrapper exactly once.
use vstd::prelude::*;
use crate::handle::NULL_ADDR;
use crate::trampoline::{container_of, container_of_spec};

verus! {

/// Address of the first launcher wrapper.
pub const LAUNCHER_BASE: u64 = 0x3_0000_0000_0000;

/// Size of one launcher wrapper.
pub const LAUNCHER_RECORD_SIZE: u64 = 64;

/// Offset of the member the compositor holds; it comes first.
pub const LAUNCHER_MEMBER_OFFSET: u64 = 0;

/// Most launchers one table can hold over its lifetime.
pub const MAX_LAUNCHERS: usize = 0x1000;

/// Status the connect call reports on success.
pub const CONNECT_OK: i32 = 0;

/// Status the connect call reports when no launcher could connect.
pub const CONNECT_FAILED: i32 = -1;

/// Address of launcher `i` as the compositor holds it.
pub open spec fn launcher_addr(i: int) -> int {
    LAUNCHER_BASE as int + i * (LAUNCHER_RECORD_SIZE as int) + LAUNCHER_MEMBER_OFFSET as int
}

pub open spec fn launcher_index(a: u64) -> int {
    (a as int - LAUNCHER_MEMBER_OFFSET as int - LAUNCHER_BASE as int) / (LAUNCHER_RECORD_SIZE as int)
}

pub open spec fn is_launcher_shape(a: u64) -> bool {
    &&& a as int >= LAUNCHER_BASE as int + LAUNCHER_MEMBER_OFFSET as int
    &&& (a as int - LAUNCHER_MEMBER_OFFSET as int - LAUNCHER_BASE as int) % (LAUNCHER_RECORD_SIZE as int)
        == 0
}

/// Every launcher wrapper allocated so far; `true` while installed.
pub struct LauncherTable {
    installed: Vec<bool>,
}

impl LauncherTable {
    pub closed spec fn len(&self) -> nat {
        self.installed.len() as nat
    }

    pub closed spec fn is_installed_at(&self, i: int) -> bool {
        self.installed@[i]
    }

    pub closed spec fn wf(&self) -> bool {
        self.installed.len() <= MAX_LAUNCHERS
    }

    /// `a` is the member address of an installed launcher.
    pub open spec fn is_installed(&self, a: u64) -> bool {
        &&& is_launcher_shape(a)
        &&& launcher_index(a) < self.len()
        &&& self.is_installed_at(launcher_index(a))
    }

    pub fn new() -> (r: LauncherTable)
        ensures
            r.wf(),
            r.len() == 0,
    {
        LauncherTable { installed: Vec::new() }
    }

    /// Installs a launcher and returns the address the compositor keeps;
    /// `None` when the table is full.
    pub fn install(&mut self) -> (r: Option<u64>)
        requires
            old(self).wf(),
        ensures
            final(self).wf(),
            r is None <==> old(self).len() >= MAX_LAUNCHERS,
            r is None ==> *final(self) == *old(self),
            r matches Some(a) ==> a == launcher_addr(old(self).len() as int) && final(self).is_installed(a)
                && final(self).len() == old(self).len() + 1,
            forall|b: u64| old(self).is_installed(b) ==> final(self).is_installed(b),
    {
        if self.installed.len() >= MAX_LAUNCHERS {
            return None;
        }
        let i = self.installed.len();
        self.installed.push(true);
        let a = LAUNCHER_BASE + (i as u64) * LAUNCHER_RECORD_SIZE + LAUNCHER_MEMBER_OFFSET;
        assert(launcher_index(a) == i as int);
        assert forall|b: u64| old(self).is_installed(b) implies self.is_installed(b) by {
            assert(self.installed@[launcher_index(b)] == old(self).installed@[launcher_index(b)]);
        }
        Some(a)
    }

    /// The trampoline: the wrapper of the installed launcher whose member is
    /// at `a`, or `None` for anything else.
    pub fn resolve(&self, a: u64) -> (r: Option<u64>)
        requires
            self.wf(),
        ensures
            r is Some <==> self.is_installed(a),
            r matches Some(w) ==> w == container_of_spec(a, LAUNCHER_MEMBER_OFFSET),
    {
        if a < LAUNCHER_BASE + LAUNCHER_MEMBER_OFFSET {
            return None;
        }
        let off = a - LAUNCHER_MEMBER_OFFSET - LAUNCHER_BASE;
        if off % LAUNCHER_RECORD_SIZE != 0 {
            return None;
        }
        let i = off / LAUNCHER_RECORD_SIZE;
        if i >= self.installed.len() as u64 {
            return None;
        }
        if self.installed[i as usize] {
            Some(container_of(a, LAUNCHER_MEMBER_OFFSET))
        } else {
            None
        }
    }

    /// Answers the compositor's connect call once the user's launcher has
    /// tried to connect: on success installs it and reports `CONNECT_OK` with
    /// the installed address, else `CONNECT_FAILED` and the null address.
    pub fn connect(&mut self, connected: bool) -> (r: (i32, u64))
        requires
            old(self).wf(),
        ensures
            final(self).wf(),
            (connected && old(self).len() < MAX_LAUNCHERS) ==> r.0 == CONNECT_OK && r.1 == launcher_addr(
                old(self).len() as int,
            ) && final(self).is_installed(r.1),
            !(connected && old(self).len() < MAX_LAUNCHERS) ==> r == (CONNECT_FAILED, NULL_ADDR)
                && *final(self) == *old(self),
    {
        if !connected {
            return (CONNECT_FAILED, NULL_ADDR);
        }
        match self.install() {
            Some(a) => (CONNECT_OK, a),
            None => (CONNECT_FAILED, NULL_ADDR),
        }
    }

    /// The compositor is done with the launcher at `a`: its wrapper is freed.
    /// Gives `false`, and does nothing, when `a` is no installed launcher, so
    /// no wrapper is freed twice.
    pub fn destroy(&mut self, a: u64) -> (r: bool)
        requires
            old(self).wf(),
        ensures
            final(self).wf(),
            r == old(self).is_installed(a),
            !final(self).is_installed(a),
            final(self).len() == old(self).len(),
            forall|b: u64| b != a ==> (final(self).is_installed(b) <==> old(self).is_installed(b)),
    {
        match self.resolve(a) {
            Some(_) => {
                let i = ((a - LAUNCHER_MEMBER_OFFSET - LAUNCHER_BASE) / LAUNCHER_RECORD_SIZE) as usize;
                self.installed.set(i, false);
                assert forall|b: u64| b != a implies (self.is_installed(b) <==> old(self).is_installed(b)) by {
                    if is_launcher_shape(b) && launcher_index(b) == i as int {
                        assert(b == a);
                    }
                }
                true
            },
            None => false,
        }
    }
}

/// How a boolean answer travels back to the foreign side.
pub fn bool_status(b: bool) -> (r: i32)
    ensures
        r == (if b { 1i32 } else { 0i32 }),
{
    if b {
        1
    } else {
        0
    }
}

} // verus!
