//! Layers: ordered lists of views, stacked by position.
//!
//! Each layer keeps its views top first. A view sits in at most one layer,
//! at most once; inserting puts it on top of its layer.
use vstd::prelude::*;
use crate::handle::NULL_ADDR;

verus! {

/// Layer order (higher value means higher in the stack).
pub type LayerPosition = u32;

pub const POSITION_HIDDEN: LayerPosition = 0x0000_0000;
pub const POSITION_BACKGROUND: LayerPosition = 0x0000_0002;
pub const POSITION_BOTTOM_UI: LayerPosition = 0x3000_0000;
pub const POSITION_NORMAL: LayerPosition = 0x5000_0000;
pub const POSITION_UI: LayerPosition = 0x8000_0000;
pub const POSITION_FULLSCREEN: LayerPosition = 0xb000_0000;
pub const POSITION_TOP_UI: LayerPosition = 0xe000_0000;
pub const POSITION_LOCK: LayerPosition = 0xffff_0000;
pub const POSITION_CURSOR: LayerPosition = 0xffff_fffe;
pub const POSITION_FADE: LayerPosition = 0xffff_ffff;

/// One layer.
pub struct LayerEntry {
    addr: u64,
    position: LayerPosition,
    /// Views, top first.
    views: Vec<u64>,
}

/// Mathematical content of a layer.
pub ghost struct LayerModel {
    pub addr: u64,
    pub position: LayerPosition,
    pub views: Seq<u64>,
}

/// The layers of a compositor and which view has keyboard focus.
pub struct Scene {
    layers: Vec<LayerEntry>,
    focus: u64,
}

impl Scene {
    pub closed spec fn layers(&self) -> Seq<LayerModel> {
        self.layers@.map_values(
            |e: LayerEntry| LayerModel { addr: e.addr, position: e.position, views: e.views@ },
        )
    }

    /// The view that has keyboard focus (`NULL_ADDR` for none).
    pub closed spec fn focus_spec(&self) -> u64 {
        self.focus
    }

    pub open spec fn has_layer(&self, layer: u64) -> bool {
        exists|i: int| 0 <= i < self.layers().len() && self.layers()[i].addr == layer
    }

    pub open spec fn layer_index(&self, layer: u64) -> int {
        choose|i: int| 0 <= i < self.layers().len() && self.layers()[i].addr == layer
    }

    /// Views of `layer`, top first (empty for an unknown layer).
    pub open spec fn views_of(&self, layer: u64) -> Seq<u64> {
        if self.has_layer(layer) {
            self.layers()[self.layer_index(layer)].views
        } else {
            Seq::empty()
        }
    }

    pub open spec fn in_any_layer(&self, view: u64) -> bool {
        exists|i: int| 0 <= i < self.layers().len() && #[trigger] self.layers()[i].views.contains(view)
    }

    pub open spec fn wf(&self) -> bool {
        let ls = self.layers();
        &&& forall|i: int, j: int|
            0 <= i < ls.len() && 0 <= j < ls.len() && i != j ==> #[trigger] ls[i].addr
                != #[trigger] ls[j].addr
        &&& forall|i: int, j: int, a: int, b: int|
            0 <= i < ls.len() && 0 <= j < ls.len() && 0 <= a < ls[i].views.len() && 0 <= b
                < ls[j].views.len() && (i != j || a != b) ==> #[trigger] ls[i].views[a]
                != #[trigger] ls[j].views[b]
    }

    pub fn new() -> (r: Scene)
        ensures
            r.wf(),
            r.layers().len() == 0,
            r.focus_spec() == NULL_ADDR,
    {
        let r = Scene { layers: Vec::new(), focus: NULL_ADDR };
        assert(r.layers().len() == 0);
        r
    }

    fn find_layer(&self, layer: u64) -> (r: Option<usize>)
        ensures
            r is None <==> !self.has_layer(layer),
            r matches Some(i) ==> i < self.layers().len() && self.layers()[i as int].addr == layer,
    {
        let mut i: usize = 0;
        while i < self.layers.len()
            invariant
                i <= self.layers.len(),
                self.layers().len() == self.layers.len(),
                forall|k: int| 0 <= k < i ==> self.layers()[k].addr != layer,
            decreases self.layers.len() - i,
        {
            if self.layers[i].addr == layer {
                assert(self.layers()[i as int].addr == layer);
                return Some(i);
            }
            i = i + 1;
        }
        None
    }

    proof fn lemma_layer_index(&self, i: int)
        requires
            self.wf(),
            0 <= i < self.layers().len(),
        ensures
            self.has_layer(self.layers()[i].addr),
            self.layer_index(self.layers()[i].addr) == i,
            self.views_of(self.layers()[i].addr) == self.layers()[i].views,
    {
        let a = self.layers()[i].addr;
        assert(self.layers()[i].addr == a);
        let j = self.layer_index(a);
        assert(j == i);
    }

    proof fn lemma_same_addrs(a: &Scene, b: &Scene)
        requires
            a.layers().len() == b.layers().len(),
            forall|i: int| 0 <= i < a.layers().len() ==> a.layers()[i].addr == b.layers()[i].addr,
        ensures
            forall|l: u64| #[trigger] a.has_layer(l) == b.has_layer(l),
    {
        assert forall|l: u64| #[trigger] a.has_layer(l) == b.has_layer(l) by {
            if a.has_layer(l) {
                let k = a.layer_index(l);
                assert(b.layers()[k].addr == l);
            }
            if b.has_layer(l) {
                let k = b.layer_index(l);
                assert(a.layers()[k].addr == l);
            }
        }
    }

    /// Adds an empty layer at `position` (`Layer::new` then
    /// `set_position`). Gives `false`, and does nothing, for the null address
    /// or one that is already a layer.
    pub fn add_layer(&mut self, layer: u64, position: LayerPosition) -> (r: bool)
        requires
            old(self).wf(),
        ensures
            final(self).wf(),
            r == (layer != NULL_ADDR && !old(self).has_layer(layer)),
            r ==> final(self).layers() == old(self).layers().push(
                LayerModel { addr: layer, position, views: Seq::empty() },
            ),
            !r ==> final(self).layers() == old(self).layers(),
            final(self).focus_spec() == old(self).focus_spec(),
    {
        if layer == NULL_ADDR {
            return false;
        }
        if self.find_layer(layer).is_some() {
            return false;
        }
        let ghost before = self.layers();
        self.layers.push(LayerEntry { addr: layer, position, views: Vec::new() });
        assert(self.layers() =~= before.push(
            LayerModel { addr: layer, position, views: Seq::empty() },
        ));
        true
    }

    /// Position of `layer`, if it is one.
    pub fn layer_position(&self, layer: u64) -> (r: Option<LayerPosition>)
        requires
            self.wf(),
        ensures
            r is Some <==> self.has_layer(layer),
            r matches Some(p) ==> p == self.layers()[self.layer_index(layer)].position,
    {
        match self.find_layer(layer) {
            Some(i) => {
                proof { self.lemma_layer_index(i as int); }
                Some(self.layers[i].position)
            },
            None => None,
        }
    }

    /// Views of `layer`, top first.
    pub fn views(&self, layer: u64) -> (r: Vec<u64>)
        requires
            self.wf(),
        ensures
            r@ == self.views_of(layer),
    {
        match self.find_layer(layer) {
            Some(i) => {
                proof { self.lemma_layer_index(i as int); }
                self.layers[i].views.clone()
            },
            None => Vec::new(),
        }
    }

    /// The layer that holds `view`, if any.
    pub fn layer_of(&self, view: u64) -> (r: Option<u64>)
        requires
            self.wf(),
        ensures
            r is None <==> !self.in_any_layer(view),
            r matches Some(l) ==> self.has_layer(l) && self.views_of(l).contains(view),
    {
        match self.locate(view) {
            Some((i, k)) => {
                proof {
                    self.lemma_layer_index(i as int);
                    assert(self.layers()[i as int].views[k as int] == view);
                }
                Some(self.layers[i].addr)
            },
            None => None,
        }
    }

    /// Replaces the views of layer `i`.
    fn set_views(&mut self, i: usize, views: Vec<u64>)
        requires
            i < old(self).layers().len(),
        ensures
            final(self).layers() == old(self).layers().update(
                i as int,
                LayerModel { views: views@, ..old(self).layers()[i as int] },
            ),
            final(self).focus_spec() == old(self).focus_spec(),
    {
        let ghost before = self.layers();
        let e = self.layers.remove(i);
        self.layers.insert(i, LayerEntry { addr: e.addr, position: e.position, views });
        assert(self.layers() =~= before.update(
            i as int,
            LayerModel { views: views@, ..before[i as int] },
        ));
    }

    /// Moves `layer` to `position` in the stack.
    pub fn set_position(&mut self, layer: u64, position: LayerPosition) -> (r: bool)
        requires
            old(self).wf(),
        ensures
            final(self).wf(),
            r == old(self).has_layer(layer),
            forall|l: u64| #[trigger] final(self).views_of(l) == old(self).views_of(l),
            r ==> final(self).layers()[old(self).layer_index(layer)].position == position,
            final(self).focus_spec() == old(self).focus_spec(),
    {
        match self.find_layer(layer) {
            Some(i) => {
                let ghost before = *self;
                proof { before.lemma_layer_index(i as int); }
                let e = self.layers.remove(i);
                self.layers.insert(i, LayerEntry { addr: e.addr, position, views: e.views });
                assert(self.layers() =~= before.layers().update(
                    i as int,
                    LayerModel { position, ..before.layers()[i as int] },
                ));
                assert forall|l: u64| #[trigger] self.views_of(l) == before.views_of(l) by {
                    if before.has_layer(l) {
                        let k = before.layer_index(l);
                        before.lemma_layer_index(k);
                        assert(self.layers()[k].addr == l);
                        self.lemma_layer_index(k);
                    } else {
                        if self.has_layer(l) {
                            let k = self.layer_index(l);
                            assert(before.layers()[k].addr == l);
                        }
                    }
                }
                true
            },
            None => false,
        }
    }

    /// Puts `view` on top of `layer`. Gives `false`, and does nothing, when
    /// `layer` is no layer, `view` is null, or `view` already sits in a
    /// layer.
    pub fn entry_insert(&mut self, layer: u64, view: u64) -> (r: bool)
        requires
            old(self).wf(),
        ensures
            final(self).wf(),
            r == (old(self).has_layer(layer) && view != NULL_ADDR && !old(self).in_any_layer(view)),
            r ==> final(self).views_of(layer) == seq![view] + old(self).views_of(layer),
            r ==> forall|l: u64| l != layer ==> #[trigger] final(self).views_of(l) == old(self).views_of(l),
            r ==> final(self).in_any_layer(view),
            !r ==> final(self).layers() == old(self).layers(),
            final(self).focus_spec() == old(self).focus_spec(),
    {
        if view == NULL_ADDR {
            return false;
        }
        if self.layer_of(view).is_some() {
            return false;
        }
        match self.find_layer(layer) {
            Some(i) => {
                let ghost before = *self;
                proof { before.lemma_layer_index(i as int); }
                let mut vs = self.layers[i].views.clone();
                vs.insert(0, view);
                assert(vs@ =~= seq![view] + before.layers()[i as int].views);
                self.set_views(i, vs);
                proof {
                    let ls = self.layers();
                    let bs = before.layers();
                    assert forall|p: int, q: int, a: int, b: int|
                        0 <= p < ls.len() && 0 <= q < ls.len() && 0 <= a < ls[p].views.len() && 0 <= b
                            < ls[q].views.len() && (p != q || a != b) implies #[trigger] ls[p].views[a]
                        != #[trigger] ls[q].views[b] by {
                        let a0 = if p == i as int { a - 1 } else { a };
                        let b0 = if q == i as int { b - 1 } else { b };
                        if p == i as int && a == 0 {
                            if !(q == i as int && b == 0) {
                                assert(bs[q].views[b0] == ls[q].views[b]);
                                assert(bs[q].views.contains(ls[q].views[b]));
                            }
                        } else if q == i as int && b == 0 {
                            assert(bs[p].views[a0] == ls[p].views[a]);
                            assert(bs[p].views.contains(ls[p].views[a]));
                        } else {
                            assert(bs[p].views[a0] == ls[p].views[a]);
                            assert(bs[q].views[b0] == ls[q].views[b]);
                        }
                    }
                    assert(ls[i as int].addr == layer);
                    self.lemma_layer_index(i as int);
                    assert forall|l: u64| l != layer implies #[trigger] self.views_of(l) == before.views_of(l) by {
                        if before.has_layer(l) {
                            let k = before.layer_index(l);
                            before.lemma_layer_index(k);
                            assert(ls[k].addr == l);
                            self.lemma_layer_index(k);
                        } else if self.has_layer(l) {
                            let k = self.layer_index(l);
                            assert(bs[k].addr == l);
                        }
                    }
                    assert(ls[i as int].views[0] == view);
                    assert(ls[i as int].views.contains(view));
                }
                true
            },
            None => false,
        }
    }

    /// Takes `view` out of the layer that holds it. Gives `false`, and does
    /// nothing, when no layer holds it.
    pub fn entry_remove(&mut self, view: u64) -> (r: bool)
        requires
            old(self).wf(),
        ensures
            final(self).wf(),
            r == old(self).in_any_layer(view),
            !final(self).in_any_layer(view),
            forall|l: u64, w: u64|
                w != view ==> (#[trigger] final(self).views_of(l).contains(w) <==> old(self).views_of(
                    l,
                ).contains(w)),
            !r ==> final(self).layers() == old(self).layers(),
            forall|l: u64| #[trigger] final(self).has_layer(l) == old(self).has_layer(l),
            final(self).focus_spec() == old(self).focus_spec(),
    {
        match self.locate(view) {
            None => false,
            Some((i, k)) => {
                let ghost before = *self;
                let mut nv = self.layers[i].views.clone();
                nv.remove(k);
                self.set_views(i, nv);
                proof {
                    Scene::lemma_same_addrs(self, &before);
                    let ls = self.layers();
                    let bs = before.layers();
                    let old_vs = bs[i as int].views;
                    assert(ls[i as int].views =~= old_vs.remove(k as int));
                    assert forall|p: int, q: int, a: int, b: int|
                        0 <= p < ls.len() && 0 <= q < ls.len() && 0 <= a < ls[p].views.len() && 0 <= b
                            < ls[q].views.len() && (p != q || a != b) implies #[trigger] ls[p].views[a]
                        != #[trigger] ls[q].views[b] by {
                        let a0 = if p == i as int && a >= k { a + 1 } else { a };
                        let b0 = if q == i as int && b >= k { b + 1 } else { b };
                        assert(bs[p].views[a0] == ls[p].views[a]);
                        assert(bs[q].views[b0] == ls[q].views[b]);
                    }
                    assert forall|p: int| 0 <= p < ls.len() implies !(#[trigger] ls[p].views.contains(view)) by {
                        if ls[p].views.contains(view) {
                            let a = choose|a: int| 0 <= a < ls[p].views.len() && ls[p].views[a] == view;
                            let a0 = if p == i as int && a >= k { a + 1 } else { a };
                            assert(bs[p].views[a0] == view);
                            assert(bs[i as int].views[k as int] == view);
                        }
                    }
                    assert forall|l: u64, w: u64| w != view implies (#[trigger] self.views_of(l).contains(w)
                        <==> before.views_of(l).contains(w)) by {
                        if before.has_layer(l) {
                            let m = before.layer_index(l);
                            before.lemma_layer_index(m);
                            assert(ls[m].addr == l);
                            self.lemma_layer_index(m);
                            if m == i as int {
                                if old_vs.contains(w) {
                                    let a = choose|a: int| 0 <= a < old_vs.len() && old_vs[a] == w;
                                    assert(a != k);
                                    let a1 = if a < k { a } else { a - 1 };
                                    assert(ls[m].views[a1] == w);
                                }
                            }
                        } else if self.has_layer(l) {
                            let m = self.layer_index(l);
                            assert(bs[m].addr == l);
                        }
                    }
                }
                true
            },
        }
    }

    /// Layer index and position in it of `view`.
    fn locate(&self, view: u64) -> (r: Option<(usize, usize)>)
        requires
            self.wf(),
        ensures
            r is None <==> !self.in_any_layer(view),
            r matches Some((i, k)) ==> i < self.layers().len() && k < self.layers()[i as int].views.len()
                && self.layers()[i as int].views[k as int] == view,
    {
        let mut i: usize = 0;
        while i < self.layers.len()
            invariant
                self.wf(),
                i <= self.layers.len(),
                self.layers().len() == self.layers.len(),
                forall|k: int| 0 <= k < i ==> !(#[trigger] self.layers()[k].views.contains(view)),
            decreases self.layers.len() - i,
        {
            let vs = &self.layers[i].views;
            assert(vs@ == self.layers()[i as int].views);
            let mut k: usize = 0;
            while k < vs.len() && vs[k] != view
                invariant
                    k <= vs.len(),
                    i < self.layers.len(),
                    vs@ == self.layers()[i as int].views,
                    forall|q: int| 0 <= q < k ==> vs@[q] != view,
                decreases vs.len() - k,
            {
                k = k + 1;
            }
            if k < vs.len() {
                assert(self.layers()[i as int].views[k as int] == view);
                assert(self.layers()[i as int].views.contains(view));
                return Some((i, k));
            }
            assert(!vs@.contains(view));
            i = i + 1;
        }
        None
    }

    /// Gives `view` keyboard focus; the view that had it loses it.
    pub fn activate(&mut self, view: u64)
        ensures
            final(self).layers() == old(self).layers(),
            final(self).focus_spec() == view,
    {
        self.focus = view;
    }

    /// The view that has keyboard focus, if any.
    pub fn focus(&self) -> (r: Option<u64>)
        ensures
            r is None <==> self.focus_spec() == NULL_ADDR,
            r matches Some(v) ==> v == self.focus_spec(),
    {
        if self.focus == NULL_ADDR {
            None
        } else {
            Some(self.focus)
        }
    }

    /// Whether `view` has keyboard focus.
    pub fn is_activated(&self, view: u64) -> (r: bool)
        ensures
            r == (view != NULL_ADDR && self.focus_spec() == view),
    {
        view != NULL_ADDR && self.focus == view
    }
}

} // verus!
