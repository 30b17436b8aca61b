use vstd::prelude::*;

use crate::action::{KeyAction, Layer};

verus! {

/// The layer state machine, shared by every component that applies layer
/// effects: given the active layer, the fallback layer, the id of the key
/// that owns the last layer change, the number of layers, and one effect,
/// yield the new `(active, fallback, owner)` triple.
///
/// An out-of-range target layer is a keymap typo and deliberately a no-op
/// rather than a fault. An undo request applies only under a double guard:
/// the requesting key must still own the last layer change, and the layer it
/// set must still be active — a stale release from a key held across an
/// intervening change by another key must not revert a layer it did not set.
pub open spec fn layer_transition(
    current: usize,
    default: usize,
    modifier: usize,
    nlayers: usize,
    id: usize,
    la: Layer,
) -> (usize, usize, usize) {
    match la {
        Layer::Current(l) => if l < nlayers {
            (l, default, id)
        } else {
            (current, default, modifier)
        },
        Layer::Default(l) => if l < nlayers {
            (l, l, id)
        } else {
            (current, default, modifier)
        },
        Layer::Undo(l) => if modifier == id && current == l {
            (default, default, modifier)
        } else {
            (current, default, modifier)
        },
    }
}

/// Law: the layer-undo guard. If one key makes a momentary switch to a layer
/// and a second, different key then changes the layer state in any way, the
/// first key's eventual undo request is a no-op: the layer the second key
/// chose stays active, and the whole layer state is untouched.
pub proof fn lemma_layer_undo_guard(
    c: usize,
    d: usize,
    m: usize,
    n: usize,
    a: usize,
    b: usize,
    la: usize,
    lb: Layer,
)
    requires
        a != b,
        la < n,
        (lb matches Layer::Current(x) && x < n) || (lb matches Layer::Default(x) && x < n),
    ensures
        ({
            let s1 = layer_transition(c, d, m, n, a, Layer::Current(la));
            let s2 = layer_transition(s1.0, s1.1, s1.2, n, b, lb);
            let s3 = layer_transition(s2.0, s2.1, s2.2, n, a, Layer::Undo(la));
            &&& s3 == s2
            &&& lb matches Layer::Current(x) ==> s3.0 == x
            &&& lb matches Layer::Default(x) ==> s3.0 == x
        }),
{
}

/// The keymap grid — one row of bindings per layer — together with the layer
/// state it is read through.
pub struct Layers {
    pub layers: Vec<Vec<KeyAction>>,
    pub current_layer: usize,
    pub default_layer: usize,
    pub layer_modifier: usize,
}

impl Layers {
    /// Well-formed: at least one layer, a rectangular grid, and the active
    /// and fallback layers in range.
    pub open spec fn wf(self) -> bool {
        &&& self.layers@.len() >= 1
        &&& self.current_layer < self.layers@.len()
        &&& self.default_layer < self.layers@.len()
        &&& forall|i: int|
            0 <= i < self.layers@.len() ==> (#[trigger] self.layers@[i])@.len()
                == self.layers@[0]@.len()
    }

    pub fn new(layers: Vec<Vec<KeyAction>>) -> (r: Layers)
        requires
            layers@.len() >= 1,
            forall|i: int|
                0 <= i < layers@.len() ==> (#[trigger] layers@[i])@.len() == layers@[0]@.len(),
        ensures
            r == (Layers {
                layers,
                current_layer: 0usize,
                default_layer: 0usize,
                layer_modifier: 0usize,
            }),
            r.wf(),
    {
        Layers { layers, current_layer: 0, default_layer: 0, layer_modifier: 0 }
    }

    /// Apply one layer effect on behalf of key `id`, under the rules of
    /// `layer_transition`. The grid itself never changes.
    pub fn handle_layer_action(&mut self, id: usize, layer_action: Layer)
        ensures
            final(self).layers == old(self).layers,
            (final(self).current_layer, final(self).default_layer, final(self).layer_modifier)
                == layer_transition(
                old(self).current_layer,
                old(self).default_layer,
                old(self).layer_modifier,
                old(self).layers@.len() as usize,
                id,
                layer_action,
            ),
            old(self).wf() ==> final(self).wf(),
    {
        let nlayers = self.layers.len();
        match layer_action {
            Layer::Current(l) => {
                if l < nlayers {
                    self.current_layer = l;
                    self.layer_modifier = id;
                }
            }
            Layer::Default(l) => {
                if l < nlayers {
                    self.current_layer = l;
                    self.default_layer = l;
                    self.layer_modifier = id;
                }
            }
            Layer::Undo(l) => {
                if self.layer_modifier == id && self.current_layer == l {
                    self.current_layer = self.default_layer;
                }
            }
        }
    }

    pub fn current_layer(&self) -> (l: usize)
        ensures
            l == self.current_layer,
    {
        self.current_layer
    }

    /// The active layer's row of bindings.
    pub fn layer(&self) -> (row: &Vec<KeyAction>)
        requires
            self.wf(),
        ensures
            *row == self.layers@[self.current_layer as int],
    {
        &self.layers[self.current_layer]
    }
}

} // verus!
