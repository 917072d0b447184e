//! Optional backend capabilities, looked up by name and version size.
//!
//! A backend registers a table of functions under a well-known name. A
//! caller asks for it with the table size it expects; an absent table, or
//! one smaller than expected (an older version), is reported as `None`, an
//! ordinary outcome rather than an error.
use vstd::prelude::*;
use crate::accessor::{OUTPUT_HEIGHT, OUTPUT_MODE, OUTPUT_WIDTH};
use crate::handle::{ForeignHeap, ObjectKind, Ref, NULL_ADDR};
use crate::protocol::DrmBackendOutputMode;

verus! {

/// Size of the windowed-output function table this crate expects.
pub const WINDOWED_OUTPUT_API_SIZE: usize = 24;

/// Size of the DRM-output function table this crate expects.
pub const DRM_OUTPUT_API_SIZE: usize = 24;

/// The capabilities a backend can offer.
#[derive(Debug, Clone, Copy, PartialEq, Eq, Structural)]
pub enum PluginApi {
    /// Sizing outputs that are windows of a host system.
    WindowedOutput,
    /// Mode setting on outputs driven through DRM.
    DrmOutput,
}

/// Function tables registered by the loaded backends.
pub struct PluginRegistry {
    windowed: Option<(u64, usize)>,
    drm: Option<(u64, usize)>,
}

impl PluginRegistry {
    /// Table address and size registered for `api`.
    pub closed spec fn entry(&self, api: PluginApi) -> Option<(u64, usize)> {
        match api {
            PluginApi::WindowedOutput => self.windowed,
            PluginApi::DrmOutput => self.drm,
        }
    }

    /// Address of the table registered for `api` (`NULL_ADDR` for none).
    pub open spec fn vtable_of(&self, api: PluginApi) -> u64 {
        match self.entry(api) {
            Some((v, _)) => v,
            None => NULL_ADDR,
        }
    }

    pub fn new() -> (r: PluginRegistry)
        ensures
            forall|api: PluginApi| r.entry(api) is None,
    {
        PluginRegistry { windowed: None, drm: None }
    }

    /// Registers the table at `vtable`, of `size` bytes, for `api`. Gives
    /// `false`, and changes nothing, when `api` already has a table.
    pub fn register(&mut self, api: PluginApi, vtable: u64, size: usize) -> (r: bool)
        requires
            vtable != NULL_ADDR,
            size > 0,
        ensures
            r == old(self).entry(api) is None,
            r ==> final(self).entry(api) == Some((vtable, size)),
            !r ==> final(self).entry(api) == old(self).entry(api),
            forall|other: PluginApi| other != api ==> final(self).entry(other) == old(self).entry(other),
    {
        match api {
            PluginApi::WindowedOutput => {
                if self.windowed.is_some() {
                    return false;
                }
                self.windowed = Some((vtable, size));
            },
            PluginApi::DrmOutput => {
                if self.drm.is_some() {
                    return false;
                }
                self.drm = Some((vtable, size));
            },
        }
        true
    }

    /// The table for `api`, when one is registered and is at least `size`
    /// bytes long.
    pub fn get(&self, api: PluginApi, size: usize) -> (r: Option<u64>)
        ensures
            r is Some <==> (self.entry(api) matches Some((_, n)) && size <= n),
            r matches Some(v) ==> v == self.vtable_of(api),
    {
        let e = match api {
            PluginApi::WindowedOutput => self.windowed,
            PluginApi::DrmOutput => self.drm,
        };
        match e {
            Some((v, n)) => if size <= n {
                Some(v)
            } else {
                None
            },
            None => None,
        }
    }
}

/// The windowed-output capability of the running backend.
#[derive(Debug, Clone, Copy, PartialEq, Eq, Structural)]
pub struct WindowedOutput {
    ptr: u64,
}

impl WindowedOutput {
    pub closed spec fn ptr_spec(&self) -> u64 {
        self.ptr
    }

    /// Looks the capability up; `None` when the backend lacks it.
    pub fn new(registry: &PluginRegistry) -> (r: Option<WindowedOutput>)
        ensures
            r is Some <==> (registry.entry(PluginApi::WindowedOutput) matches Some((_, n))
                && WINDOWED_OUTPUT_API_SIZE <= n),
            r matches Some(w) ==> w.ptr_spec() == registry.vtable_of(PluginApi::WindowedOutput),
    {
        match registry.get(PluginApi::WindowedOutput, WINDOWED_OUTPUT_API_SIZE) {
            Some(ptr) => Some(WindowedOutput { ptr }),
            None => None,
        }
    }

    pub fn ptr(&self) -> (r: u64)
        ensures
            r == self.ptr_spec(),
    {
        self.ptr
    }

    /// Sizes a windowed output. `false`, with nothing changed, when `output`
    /// is no live output or a dimension does not fit the foreign `int`.
    pub fn output_set_size(&self, heap: &mut ForeignHeap, output: Ref, width: u32, height: u32) -> (r:
        bool)
        requires
            old(heap)@.wf(),
        ensures
            final(heap)@.wf(),
            final(heap)@.records == old(heap)@.records,
            r == (old(heap)@.is_live(output.addr_spec()) && old(heap)@.record(output.addr_spec()).kind
                == ObjectKind::Output && width <= i32::MAX && height <= i32::MAX),
            !r ==> final(heap)@ == old(heap)@,
            r ==> final(heap)@.field(output.addr_spec(), OUTPUT_WIDTH as int) == width as u64
                && final(heap)@.field(output.addr_spec(), OUTPUT_HEIGHT as int) == height as u64,
            r ==> final(heap)@ == old(heap)@.set_field(output.addr_spec(), OUTPUT_WIDTH as int, width as u64).set_field(
                output.addr_spec(),
                OUTPUT_HEIGHT as int,
                height as u64,
            ),
    {
        let o = output.as_ptr();
        if !heap.is_live(o) || width > i32::MAX as u32 || height > i32::MAX as u32 {
            return false;
        }
        match heap.kind_of(o) {
            Some(ObjectKind::Output) => {},
            _ => return false,
        }
        heap.write_field(o, OUTPUT_WIDTH, width as u64);
        heap.write_field(o, OUTPUT_HEIGHT, height as u64);
        proof { crate::handle::lemma_addr_index(heap@, o); }
        true
    }
}

/// The DRM-output capability of the running backend.
#[derive(Debug, Clone, Copy, PartialEq, Eq, Structural)]
pub struct DrmOutput {
    ptr: u64,
}

impl DrmOutput {
    pub closed spec fn ptr_spec(&self) -> u64 {
        self.ptr
    }

    /// Looks the capability up; `None` when the backend lacks it.
    pub fn new(registry: &PluginRegistry) -> (r: Option<DrmOutput>)
        ensures
            r is Some <==> (registry.entry(PluginApi::DrmOutput) matches Some((_, n))
                && DRM_OUTPUT_API_SIZE <= n),
            r matches Some(d) ==> d.ptr_spec() == registry.vtable_of(PluginApi::DrmOutput),
    {
        match registry.get(PluginApi::DrmOutput, DRM_OUTPUT_API_SIZE) {
            Some(ptr) => Some(DrmOutput { ptr }),
            None => None,
        }
    }

    pub fn ptr(&self) -> (r: u64)
        ensures
            r == self.ptr_spec(),
    {
        self.ptr
    }

    /// Picks the mode of a DRM output. `false`, with nothing changed, when
    /// `output` is no live output.
    pub fn set_mode(&self, heap: &mut ForeignHeap, output: Ref, mode: DrmBackendOutputMode) -> (r:
        bool)
        requires
            old(heap)@.wf(),
        ensures
            final(heap)@.wf(),
            final(heap)@.records == old(heap)@.records,
            r == (old(heap)@.is_live(output.addr_spec()) && old(heap)@.record(output.addr_spec()).kind
                == ObjectKind::Output),
            !r ==> final(heap)@ == old(heap)@,
            r ==> final(heap)@.field(output.addr_spec(), OUTPUT_MODE as int) == mode.raw_spec() as u64,
            r ==> final(heap)@ == old(heap)@.set_field(
                output.addr_spec(),
                OUTPUT_MODE as int,
                mode.raw_spec() as u64,
            ),
    {
        let o = output.as_ptr();
        if !heap.is_live(o) {
            return false;
        }
        match heap.kind_of(o) {
            Some(ObjectKind::Output) => {},
            _ => return false,
        }
        heap.write_field(o, OUTPUT_MODE, mode.to_raw() as u64);
        true
    }
}

} // verus!
