use vstd::prelude::*;

use crate::action::KeyAction;
use crate::event::KeyState;

verus! {

/// KeyMap represents the stack of layers.
///
/// The keymap is bound to the actual PCB matrix definition by key position:
/// hardware key strokes are resolved through it, by (row, column), into the
/// action to execute.
pub struct KeyMap<const ROW: usize, const COL: usize, const NUM_LAYER: usize> {
    /// Layers of actions, fixed at construction.
    layers: [[[KeyAction; COL]; ROW]; NUM_LAYER],
    /// Current state of each layer.
    layer_state: Vec<bool>,
    /// Default layer number, reserved for external layer-switching policy;
    /// not consulted by the resolution algorithm.
    default_layer: u8,
    /// Per-position layer cache: which layer's action was last surfaced on a
    /// release at that position.
    layer_cache: Vec<Vec<u8>>,
}

impl<const ROW: usize, const COL: usize, const NUM_LAYER: usize> KeyMap<ROW, COL, NUM_LAYER> {
    /// The action layer `l` assigns to position (`r`, `c`).
    pub closed spec fn action_at(self, l: int, r: int, c: int) -> KeyAction {
        self.layers@[l]@[r]@[c]
    }

    /// Whether layer `l` is currently active.
    pub closed spec fn layer_active(self, l: int) -> bool {
        self.layer_state@[l]
    }

    /// The layer index cached at position (`r`, `c`).
    pub closed spec fn cached_layer(self, r: int, c: int) -> u8 {
        self.layer_cache@[r]@[c]
    }

    /// The reserved default layer number.
    pub closed spec fn spec_default_layer(self) -> u8 {
        self.default_layer
    }

    /// Well-formedness: the layer count fits the narrow index type used for
    /// layer numbers, the bookkeeping vectors match the grid dimensions, and
    /// every cached layer index is a real layer.
    pub closed spec fn wf(self) -> bool {
        &&& 1 <= NUM_LAYER <= 32
        &&& self.layer_state@.len() == NUM_LAYER
        &&& self.layer_cache@.len() == ROW
        &&& forall|r: int| 0 <= r < ROW ==> #[trigger] self.layer_cache@[r]@.len() == COL
        &&& forall|r: int, c: int|
            0 <= r < ROW && 0 <= c < COL ==> #[trigger] self.layer_cache@[r]@[c] < NUM_LAYER
    }

    /// Which layer resolves a release at (`r`, `c`) when scanning from layer
    /// `l` down to layer 0: the highest layer at or below `l` that is active
    /// and holds a concrete action there, if any.
    pub open spec fn resolve_from(self, l: int, r: int, c: int) -> Option<int>
        decreases l + 1,
    {
        if l < 0 {
            Option::None
        } else if self.layer_active(l) && !self.action_at(l, r, c).defers() {
            Option::Some(l)
        } else {
            self.resolve_from(l - 1, r, c)
        }
    }

    /// The two keymaps assign the same action to every position of every
    /// layer.
    pub open spec fn same_layers(pre: Self, post: Self) -> bool {
        forall|l: int, r: int, c: int|
            0 <= l < NUM_LAYER && 0 <= r < ROW && 0 <= c < COL ==> #[trigger] post.action_at(
                l,
                r,
                c,
            ) == pre.action_at(l, r, c)
    }

    /// The two keymaps agree on which layers are active.
    pub open spec fn same_flags(pre: Self, post: Self) -> bool {
        forall|l: int| 0 <= l < NUM_LAYER ==> #[trigger] post.layer_active(l) == pre.layer_active(l)
    }

    /// The two keymaps agree on the cached layer of every position.
    pub open spec fn same_cache(pre: Self, post: Self) -> bool {
        forall|r: int, c: int|
            0 <= r < ROW && 0 <= c < COL ==> #[trigger] post.cached_layer(r, c) == pre.cached_layer(
                r,
                c,
            )
    }

    /// Initialize a keymap from a matrix of actions: every layer starts
    /// active, the cache holds layer 0 everywhere, and the default layer is 0.
    pub fn new(action_map: [[[KeyAction; COL]; ROW]; NUM_LAYER]) -> (r: Self)
        requires
            1 <= NUM_LAYER <= 32,
        ensures
            r.wf(),
            forall|l: int, row: int, c: int|
                0 <= l < NUM_LAYER && 0 <= row < ROW && 0 <= c < COL ==> #[trigger] r.action_at(
                    l,
                    row,
                    c,
                ) == action_map@[l]@[row]@[c],
            forall|l: int| 0 <= l < NUM_LAYER ==> #[trigger] r.layer_active(l),
            forall|row: int, c: int|
                0 <= row < ROW && 0 <= c < COL ==> #[trigger] r.cached_layer(row, c) == 0,
            r.spec_default_layer() == 0,
    {
        let mut layer_state: Vec<bool> = Vec::new();
        let mut i: usize = 0;
        while i < NUM_LAYER
            invariant
                i <= NUM_LAYER,
                layer_state@.len() == i,
                forall|j: int| 0 <= j < i ==> #[trigger] layer_state@[j] == true,
            decreases NUM_LAYER - i,
        {
            layer_state.push(true);
            i += 1;
        }
        let mut layer_cache: Vec<Vec<u8>> = Vec::new();
        let mut r: usize = 0;
        while r < ROW
            invariant
                r <= ROW,
                layer_cache@.len() == r,
                forall|x: int| 0 <= x < r ==> #[trigger] layer_cache@[x]@.len() == COL,
                forall|x: int, y: int|
                    0 <= x < r && 0 <= y < COL ==> #[trigger] layer_cache@[x]@[y] == 0,
            decreases ROW - r,
        {
            let mut row: Vec<u8> = Vec::new();
            let mut c: usize = 0;
            while c < COL
                invariant
                    c <= COL,
                    row@.len() == c,
                    forall|y: int| 0 <= y < c ==> #[trigger] row@[y] == 0,
                decreases COL - c,
            {
                row.push(0);
                c += 1;
            }
            layer_cache.push(row);
            r += 1;
        }
        KeyMap { layers: action_map, layer_state, default_layer: 0, layer_cache }
    }

    /// Fetch the action in the keymap.
    ///
    /// A press reuses whatever layer was last cached at the position, without
    /// scanning and without touching the cache. A release scans the layers
    /// from the highest index down: an inactive layer is skipped, and so is a
    /// `Transparent` or `No` action; the first concrete action found is
    /// recorded in the cache and returned. A scan that exhausts all layers
    /// yields `KeyAction::No` and leaves the keymap unchanged.
    pub fn get_action(&mut self, row: usize, col: usize, key_state: KeyState) -> (action:
        KeyAction)
        requires
            old(self).wf(),
            row < ROW,
            col < COL,
        ensures
            final(self).wf(),
            key_state.pressed ==> {
                &&& *final(self) == *old(self)
                &&& action == old(self).action_at(
                    old(self).cached_layer(row as int, col as int) as int,
                    row as int,
                    col as int,
                )
            },
            !key_state.pressed ==> match old(self).resolve_from(
                NUM_LAYER as int - 1,
                row as int,
                col as int,
            ) {
                Option::Some(l) => {
                    &&& action == old(self).action_at(l, row as int, col as int)
                    &&& final(self).cached_layer(row as int, col as int) == l
                    &&& forall|r2: int, c2: int|
                        0 <= r2 < ROW && 0 <= c2 < COL && !(r2 == row && c2 == col)
                            ==> #[trigger] final(self).cached_layer(r2, c2) == old(
                            self,
                        ).cached_layer(r2, c2)
                    &&& Self::same_layers(*old(self), *final(self))
                    &&& Self::same_flags(*old(self), *final(self))
                    &&& final(self).spec_default_layer() == old(self).spec_default_layer()
                },
                Option::None => {
                    &&& *final(self) == *old(self)
                    &&& action == KeyAction::No
                },
            },
    {
        if key_state.pressed {
            // If the key is already pressed, check the layer cache
            let layer = self.get_layer_from_cache(row, col);
            return self.layers[layer as usize][row][col];
        } else {
            // Iterate from higher layer to lower layer
            let mut l: usize = NUM_LAYER;
            while l > 0
                invariant
                    !key_state.pressed,
                    *self == *old(self),
                    self.wf(),
                    row < ROW,
                    col < COL,
                    l <= NUM_LAYER,
                    self.resolve_from(NUM_LAYER as int - 1, row as int, col as int)
                        == self.resolve_from(l as int - 1, row as int, col as int),
                decreases l,
            {
                l -= 1;
                if self.layer_state[l] {
                    // This layer is activated
                    let action = self.layers[l][row][col];
                    if !action.is_deferring() {
                        // Cache the layer
                        self.save_layer_cache(row, col, l as u8);
                        return action;
                    }
                }
            }
        }

        KeyAction::No
    }

    /// An exhausted scan resolves nothing: if every active layer at or below
    /// `l` defers at (`r`, `c`), the release scan from `l` finds no layer, so
    /// a release there yields `KeyAction::No` and leaves the cache untouched.
    pub proof fn lemma_exhausted_scan(self, l: int, r: int, c: int)
        requires
            forall|i: int|
                0 <= i <= l && #[trigger] self.layer_active(i) ==> self.action_at(i, r, c).defers(),
        ensures
            self.resolve_from(l, r, c) is None,
        decreases l + 1,
    {
        if l >= 0 {
            self.lemma_exhausted_scan(l - 1, r, c);
        }
    }

    fn get_layer_from_cache(&self, row: usize, col: usize) -> (l: u8)
        requires
            self.wf(),
            row < ROW,
            col < COL,
        ensures
            l == self.cached_layer(row as int, col as int),
    {
        self.layer_cache[row][col]
    }

    fn save_layer_cache(&mut self, row: usize, col: usize, layer_num: u8)
        requires
            old(self).wf(),
            row < ROW,
            col < COL,
            layer_num < NUM_LAYER,
        ensures
            final(self).wf(),
            final(self).cached_layer(row as int, col as int) == layer_num,
            forall|r2: int, c2: int|
                0 <= r2 < ROW && 0 <= c2 < COL && !(r2 == row && c2 == col)
                    ==> #[trigger] final(self).cached_layer(r2, c2) == old(self).cached_layer(
                    r2,
                    c2,
                ),
            Self::same_layers(*old(self), *final(self)),
            Self::same_flags(*old(self), *final(self)),
            final(self).spec_default_layer() == old(self).spec_default_layer(),
    {
        self.layer_cache[row][col] = layer_num;
    }

    /// Activate the given layer. An out-of-range layer index is ignored: the
    /// call mutates nothing.
    pub fn activate_layer(&mut self, layer_num: u8)
        requires
            old(self).wf(),
        ensures
            final(self).wf(),
            layer_num < NUM_LAYER ==> {
                &&& final(self).layer_active(layer_num as int)
                &&& forall|l: int|
                    0 <= l < NUM_LAYER && l != layer_num ==> #[trigger] final(self).layer_active(l)
                        == old(self).layer_active(l)
                &&& Self::same_layers(*old(self), *final(self))
                &&& Self::same_cache(*old(self), *final(self))
                &&& final(self).spec_default_layer() == old(self).spec_default_layer()
            },
            layer_num >= NUM_LAYER ==> *final(self) == *old(self),
    {
        if layer_num as usize >= NUM_LAYER {
            return ;
        }
        self.layer_state[layer_num as usize] = true;
    }

    /// Deactivate the given layer. An out-of-range layer index is ignored:
    /// the call mutates nothing.
    pub fn deactivate_layer(&mut self, layer_num: u8)
        requires
            old(self).wf(),
        ensures
            final(self).wf(),
            layer_num < NUM_LAYER ==> {
                &&& !final(self).layer_active(layer_num as int)
                &&& forall|l: int|
                    0 <= l < NUM_LAYER && l != layer_num ==> #[trigger] final(self).layer_active(l)
                        == old(self).layer_active(l)
                &&& Self::same_layers(*old(self), *final(self))
                &&& Self::same_cache(*old(self), *final(self))
                &&& final(self).spec_default_layer() == old(self).spec_default_layer()
            },
            layer_num >= NUM_LAYER ==> *final(self) == *old(self),
    {
        if layer_num as usize >= NUM_LAYER {
            return ;
        }
        self.layer_state[layer_num as usize] = false;
    }
}

} // verus!
