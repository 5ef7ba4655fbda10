//! The artboard: the drawn mandalas, their rendered paths, and the order
//! of their layers.

use std::collections::HashMap;
use vstd::prelude::*;

verus! {

broadcast use vstd::std_specs::hash::group_hash_axioms;

/// Holds the root mandalas drawn on it, each under an id, with the paths
/// rendered for each, layered in the order in which they were drawn.
pub struct Artboard<B, M, P> {
    /// absolute bounds of the artboard
    bounds: B,
    /// all root level mandalas of the artboard, in layer order
    roots: Vec<M>,
    /// all rendered paths, by mandala id
    render: HashMap<u128, Vec<P>>,
    /// order of layers: the id of each root mandala
    layers: Vec<u128>,
}

/// The rendered paths of the layers, in layer order.
pub open spec fn layered_paths<P>(layers: Seq<u128>, rendered: Map<u128, Seq<P>>) -> Seq<P>
    decreases layers.len(),
{
    if layers.len() == 0 {
        Seq::empty()
    } else {
        layered_paths(layers.drop_last(), rendered) + rendered[layers.last()]
    }
}

impl<B, M, P> Artboard<B, M, P> {
    /// The ids of the drawn mandalas, bottom layer first.
    pub closed spec fn layer_ids(&self) -> Seq<u128> {
        self.layers@
    }

    /// The drawn mandalas, in layer order.
    pub closed spec fn mandalas(&self) -> Seq<M> {
        self.roots@
    }

    /// The rendered paths of each drawn mandala, by id.
    pub closed spec fn rendered(&self) -> Map<u128, Seq<P>> {
        self.render@.map_values(|v: Vec<P>| v@)
    }

    /// The bounds of the artboard.
    pub closed spec fn bounds_spec(&self) -> B {
        self.bounds
    }

    /// Each layer holds one mandala under an id of its own, and the paths
    /// rendered are those of the layers.
    pub closed spec fn wf(&self) -> bool {
        &&& self.layers@.len() == self.roots@.len()
        &&& self.layers@.no_duplicates()
        &&& forall|k: u128| #[trigger] self.render@.contains_key(k) <==> self.layers@.contains(k)
    }

    /// create new artboard with bounds
    pub fn new(bounds: B) -> (r: Self)
        ensures
            r.wf(),
            r.bounds_spec() == bounds,
            r.layer_ids() == Seq::<u128>::empty(),
            r.mandalas() == Seq::<M>::empty(),
            r.rendered() == Map::<u128, Seq<P>>::empty(),
    {
        let r = Artboard { bounds, roots: Vec::new(), render: HashMap::new(), layers: Vec::new() };
        assert(r.rendered() =~= Map::<u128, Seq<P>>::empty());
        r
    }

    /// The bounds of the artboard, in which mandalas are drawn.
    pub fn bounds(&self) -> (r: &B)
        ensures
            *r == self.bounds_spec(),
    {
        &self.bounds
    }

    /// Whether a mandala with this id is drawn.
    pub fn is_drawn(&self, id: u128) -> (r: bool)
        requires
            self.wf(),
        ensures
            r == self.layer_ids().contains(id),
    {
        self.render.contains_key(&id)
    }

    /// Add a mandala drawn under `id`, with its rendered paths, as the new
    /// top layer.
    pub fn add_mandala(&mut self, id: u128, mandala: M, paths: Vec<P>)
        requires
            old(self).wf(),
            !old(self).layer_ids().contains(id),
        ensures
            final(self).wf(),
            final(self).bounds_spec() == old(self).bounds_spec(),
            final(self).layer_ids() == old(self).layer_ids().push(id),
            final(self).mandalas() == old(self).mandalas().push(mandala),
            final(self).rendered() == old(self).rendered().insert(id, paths@),
    {
        let ghost old_layers = self.layers@;
        self.render.insert(id, paths);
        self.layers.push(id);
        self.roots.push(mandala);
        proof {
            assert forall|k: u128| #[trigger] self.layers@.contains(k) implies self.render@.contains_key(
                k,
            ) by {
                if k != id {
                    let i = choose|i: int| 0 <= i < self.layers@.len() && self.layers@[i] == k;
                    assert(old_layers[i] == k);
                }
            }
            assert forall|k: u128| #[trigger] self.render@.contains_key(k) implies self.layers@.contains(
                k,
            ) by {
                if k == id {
                    assert(self.layers@[self.layers@.len() - 1] == id);
                } else {
                    let i = choose|i: int| 0 <= i < old_layers.len() && old_layers[i] == k;
                    assert(self.layers@[i] == k);
                }
            }
            assert(self.rendered() =~= old(self).rendered().insert(id, paths@));
        }
    }

    /// The layer of the mandala drawn under `id`, if any.
    pub fn position(&self, id: u128) -> (r: Option<usize>)
        requires
            self.wf(),
        ensures
            match r {
                Some(i) => i < self.layer_ids().len() && self.layer_ids()[i as int] == id,
                None => !self.layer_ids().contains(id),
            },
    {
        let n = self.layers.len();
        let mut i: usize = 0;
        while i < n
            invariant
                i <= n,
                n == self.layers@.len(),
                forall|k: int| 0 <= k < i ==> self.layers@[k] != id,
            decreases n - i,
        {
            if self.layers[i] == id {
                return Some(i);
            }
            i = i + 1;
        }
        None
    }

    /// The mandala of a layer.
    pub fn mandala(&self, index: usize) -> (r: &M)
        requires
            self.wf(),
            index < self.mandalas().len(),
        ensures
            *r == self.mandalas()[index as int],
    {
        &self.roots[index]
    }

    /// Replace the mandala of a layer, and its rendered paths, keeping the
    /// layer order.
    pub fn replace(&mut self, index: usize, mandala: M, paths: Vec<P>)
        requires
            old(self).wf(),
            index < old(self).mandalas().len(),
        ensures
            final(self).wf(),
            final(self).bounds_spec() == old(self).bounds_spec(),
            final(self).layer_ids() == old(self).layer_ids(),
            final(self).mandalas() == old(self).mandalas().update(index as int, mandala),
            final(self).rendered() == old(self).rendered().insert(
                old(self).layer_ids()[index as int],
                paths@,
            ),
    {
        let id = self.layers[index];
        assert(self.layers@.contains(id));
        self.render.insert(id, paths);
        self.roots.set(index, mandala);
        proof {
            assert forall|k: u128| #[trigger] self.render@.contains_key(k) <==> self.layers@.contains(
                k,
            ) by {
                if k == id {
                    assert(self.layers@[index as int] == id);
                }
            }
            assert(self.rendered() =~= old(self).rendered().insert(id, paths@));
        }
    }
}

impl<B, M, P: Clone> Artboard<B, M, P> {
    /// get all rendered paths: those of each layer, bottom layer first,
    /// cloned
    pub fn view_paths(&self) -> (r: Vec<P>)
        requires
            self.wf(),
        ensures
            r@.len() == layered_paths(self.layer_ids(), self.rendered()).len(),
            forall|i: int|
                0 <= i < r@.len() ==> cloned::<P>(
                    layered_paths(self.layer_ids(), self.rendered())[i],
                    #[trigger] r@[i],
                ),
    {
        let mut out: Vec<P> = Vec::new();
        let n = self.layers.len();
        let mut i: usize = 0;
        while i < n
            invariant
                i <= n,
                n == self.layers@.len(),
                self.wf(),
                out@.len() == layered_paths(self.layers@.take(i as int), self.rendered()).len(),
                forall|k: int|
                    0 <= k < out@.len() ==> cloned::<P>(
                        layered_paths(self.layers@.take(i as int), self.rendered())[k],
                        #[trigger] out@[k],
                    ),
            decreases n - i,
        {
            let id = self.layers[i];
            assert(self.layers@.contains(id));
            let ghost before = layered_paths(self.layers@.take(i as int), self.rendered());
            let ghost base = out@.len();
            match self.render.get(&id) {
                Some(paths) => {
                    let m = paths.len();
                    let mut j: usize = 0;
                    while j < m
                        invariant
                            j <= m,
                            m == paths@.len(),
                            out@.len() == base + j,
                            base == before.len(),
                            forall|k: int|
                                0 <= k < base ==> cloned::<P>(before[k], #[trigger] out@[k]),
                            forall|k: int|
                                0 <= k < j ==> cloned::<P>(paths@[k], #[trigger] out@[base + k]),
                        decreases m - j,
                    {
                        let c = paths[j].clone();
                        out.push(c);
                        j = j + 1;
                    }
                    proof {
                        let next = layered_paths(self.layers@.take(i + 1), self.rendered());
                        assert(self.layers@.take(i + 1).drop_last() =~= self.layers@.take(i as int));
                        assert(self.rendered()[id] == paths@);
                        assert(next == before + paths@);
                        assert forall|k: int| 0 <= k < out@.len() implies cloned::<P>(
                            next[k],
                            #[trigger] out@[k],
                        ) by {
                            if k >= base {
                                assert(out@[base + (k - base)] == out@[k]);
                            }
                        }
                    }
                },
                None => {},
            }
            i = i + 1;
        }
        assert(self.layers@.take(n as int) =~= self.layers@);
        out
    }
}

/// Rendering a mandala under an id that no layer has leaves the paths of
/// the layers unchanged.
pub proof fn lemma_layered_paths_ignore_other_ids<P>(
    layers: Seq<u128>,
    rendered: Map<u128, Seq<P>>,
    id: u128,
    paths: Seq<P>,
)
    requires
        !layers.contains(id),
    ensures
        layered_paths(layers, rendered.insert(id, paths)) == layered_paths(layers, rendered),
    decreases layers.len(),
{
    if layers.len() > 0 {
        assert(layers.drop_last().len() < layers.len());
        assert(!layers.drop_last().contains(id)) by {
            if layers.drop_last().contains(id) {
                let i = choose|i: int| 0 <= i < layers.drop_last().len() && layers.drop_last()[i] == id;
                assert(layers[i] == id);
            }
        }
        lemma_layered_paths_ignore_other_ids(layers.drop_last(), rendered, id, paths);
        assert(layers[layers.len() - 1] != id);
    }
}

/// Drawing a new mandala puts its paths on top: the paths of all layers are
/// those from before, followed by the new mandala's.
pub proof fn lemma_new_layer_on_top<P>(
    layers: Seq<u128>,
    rendered: Map<u128, Seq<P>>,
    id: u128,
    paths: Seq<P>,
)
    requires
        !layers.contains(id),
    ensures
        layered_paths(layers.push(id), rendered.insert(id, paths)) == layered_paths(layers, rendered)
            + paths,
{
    lemma_layered_paths_ignore_other_ids(layers, rendered, id, paths);
    assert(layers.push(id).drop_last() =~= layers);
}

} // verus!
