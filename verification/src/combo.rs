//! Combos: a chord of inputs that together produce one output.
//!
//! A combo names its inputs either by key action or by matrix position. Its
//! runtime state is a bitmask of the inputs pressed so far (so a combo has at
//! most [`COMBO_MAX_LENGTH`] inputs) and whether its output was dispatched.
use vstd::prelude::*;
use crate::event::{KeyboardEvent, KeyboardEventPos};

verus! {

/// Most inputs of one combo: its state is a 16-bit mask.
pub const COMBO_MAX_LENGTH: usize = 16;

/// A key action, by its code; code 0 is "no action".
#[derive(Clone, Copy, Debug, Eq, PartialEq, Structural)]
pub struct KeyAction(pub u32);

/// A matrix position.
#[derive(Clone, Copy, Debug, Eq, PartialEq, Structural)]
pub struct MatrixPosition {
    pub row: u8,
    pub col: u8,
}

/// A combo named by key actions.
#[derive(Clone, Debug)]
pub struct ComboConfig {
    pub actions: Vec<KeyAction>,
    pub output: KeyAction,
    /// The only layer the combo records on, if scoped.
    pub layer: Option<u8>,
}

/// A combo named by matrix positions.
#[derive(Clone, Debug)]
pub struct PositionComboConfig {
    pub positions: Vec<MatrixPosition>,
    pub output: KeyAction,
    pub layer: Option<u8>,
}

impl ComboConfig {
    /// A combo of `actions` producing `output`.
    pub fn new(actions: Vec<KeyAction>, output: KeyAction, layer: Option<u8>) -> (r: Self)
        requires
            actions@.len() <= COMBO_MAX_LENGTH,
        ensures
            r.actions@ == actions@ && r.output == output && r.layer == layer,
    {
        ComboConfig { actions, output, layer }
    }

    /// The combo with no inputs.
    pub fn empty() -> (r: Self)
        ensures
            r.actions@.len() == 0 && r.output == KeyAction(0) && r.layer is None,
    {
        ComboConfig { actions: Vec::new(), output: KeyAction(0), layer: None }
    }
}

impl PositionComboConfig {
    /// A combo of `positions` producing `output`.
    pub fn new(positions: Vec<MatrixPosition>, output: KeyAction, layer: Option<u8>) -> (r: Self)
        requires
            positions@.len() <= COMBO_MAX_LENGTH,
        ensures
            r.positions@ == positions@ && r.output == output && r.layer == layer,
    {
        PositionComboConfig { positions, output, layer }
    }
}

/// A combo's inputs and output.
#[derive(Clone, Debug)]
pub enum ComboDefinition {
    Actions(ComboConfig),
    Positions(PositionComboConfig),
}

impl ComboDefinition {
    pub open spec fn spec_size(&self) -> nat {
        match self {
            ComboDefinition::Actions(c) => c.actions@.len(),
            ComboDefinition::Positions(c) => c.positions@.len(),
        }
    }

    pub open spec fn spec_output(&self) -> KeyAction {
        match self {
            ComboDefinition::Actions(c) => c.output,
            ComboDefinition::Positions(c) => c.output,
        }
    }

    pub open spec fn spec_layer(&self) -> Option<u8> {
        match self {
            ComboDefinition::Actions(c) => c.layer,
            ComboDefinition::Positions(c) => c.layer,
        }
    }

    /// Number of inputs.
    pub fn size(&self) -> (r: usize)
        ensures
            r == self.spec_size(),
    {
        match self {
            ComboDefinition::Actions(c) => c.actions.len(),
            ComboDefinition::Positions(c) => c.positions.len(),
        }
    }

    /// The combo's output.
    pub fn output(&self) -> (r: KeyAction)
        ensures
            r == self.spec_output(),
    {
        match self {
            ComboDefinition::Actions(c) => c.output,
            ComboDefinition::Positions(c) => c.output,
        }
    }

    /// The layer the combo is scoped to, if any.
    pub fn layer(&self) -> (r: Option<u8>)
        ensures
            r == self.spec_layer(),
    {
        match self {
            ComboDefinition::Actions(c) => c.layer,
            ComboDefinition::Positions(c) => c.layer,
        }
    }
}

/// `Some(i)` for the first `i` with `s[i] == x`, `None` if there is none.
pub open spec fn is_first_index<T>(s: Seq<T>, x: T, r: Option<usize>) -> bool {
    match r {
        Some(i) => i < s.len() && s[i as int] == x && forall|j: int| 0 <= j < i ==> s[j] != x,
        None => forall|j: int| 0 <= j < s.len() ==> s[j] != x,
    }
}

/// Which input of `definition` an event matches: by action for action
/// combos, by matrix position for position combos (an encoder matches none).
pub open spec fn spec_input_index(definition: ComboDefinition, key_action: KeyAction, position: KeyboardEventPos, r: Option<usize>) -> bool {
    match definition {
        ComboDefinition::Actions(c) => is_first_index(c.actions@, key_action, r),
        ComboDefinition::Positions(c) => match position {
            KeyboardEventPos::Key(p) => is_first_index(c.positions@, MatrixPosition { row: p.row, col: p.col }, r),
            KeyboardEventPos::RotaryEncoder(_) => r is None,
        },
    }
}

fn first_action_index(s: &Vec<KeyAction>, x: KeyAction) -> (r: Option<usize>)
    ensures
        is_first_index(s@, x, r),
{
    let mut i: usize = 0;
    while i < s.len()
        invariant
            i <= s@.len(),
            forall|j: int| 0 <= j < i ==> s@[j] != x,
        decreases s@.len() - i,
    {
        if s[i] == x {
            return Some(i);
        }
        i = i + 1;
    }
    None
}

fn first_position_index(s: &Vec<MatrixPosition>, x: MatrixPosition) -> (r: Option<usize>)
    ensures
        is_first_index(s@, x, r),
{
    let mut i: usize = 0;
    while i < s.len()
        invariant
            i <= s@.len(),
            forall|j: int| 0 <= j < i ==> s@[j] != x,
        decreases s@.len() - i,
    {
        if s[i] == x {
            return Some(i);
        }
        i = i + 1;
    }
    None
}

/// Bit `i` of `x`.
pub open spec fn bit16(x: u16, i: nat) -> bool {
    (x >> i) & 1 == 1
}

/// Number of set bits among the lowest `n` bits of `x`.
pub open spec fn popcount(x: u16, n: nat) -> nat
    decreases n,
{
    if n == 0 {
        0
    } else {
        popcount(x, (n - 1) as nat) + if bit16(x, (n - 1) as nat) { 1nat } else { 0nat }
    }
}

/// Runtime combo: definition, pressed-input bitmask, and whether it fired.
#[derive(Clone, Debug)]
pub struct Combo {
    definition: ComboDefinition,
    state: u16,
    is_triggered: bool,
}

impl Combo {
    /// The combo's invariant: no more inputs than state bits.
    pub closed spec fn wf(&self) -> bool {
        self.definition.spec_size() <= COMBO_MAX_LENGTH
    }

    /// The combo's inputs and output.
    pub closed spec fn spec_definition(&self) -> ComboDefinition {
        self.definition
    }

    /// Bitmask of the inputs pressed so far.
    pub closed spec fn state_bits(&self) -> u16 {
        self.state
    }

    /// The combo's output was dispatched.
    pub closed spec fn triggered(&self) -> bool {
        self.is_triggered
    }

    /// All inputs are held.
    pub closed spec fn all_pressed(&self) -> bool {
        self.definition.spec_size() > 0 && popcount(self.state_bits(), 16) == self.spec_definition().spec_size()
    }

    /// An action combo.
    pub fn new(config: ComboConfig) -> (r: Self)
        requires
            config.actions@.len() <= COMBO_MAX_LENGTH,
        ensures
            r.wf(),
            r.spec_definition() == ComboDefinition::Actions(config),
            r.state_bits() == 0 && !r.triggered(),
    {
        Self::from_definition(ComboDefinition::Actions(config))
    }

    /// A position combo.
    pub fn new_positions(config: PositionComboConfig) -> (r: Self)
        requires
            config.positions@.len() <= COMBO_MAX_LENGTH,
        ensures
            r.wf(),
            r.spec_definition() == ComboDefinition::Positions(config),
            r.state_bits() == 0 && !r.triggered(),
    {
        Self::from_definition(ComboDefinition::Positions(config))
    }

    /// A combo over `definition`, nothing pressed.
    pub fn from_definition(definition: ComboDefinition) -> (r: Self)
        requires
            definition.spec_size() <= COMBO_MAX_LENGTH,
        ensures
            r.wf(),
            r.spec_definition() == definition,
            r.state_bits() == 0 && !r.triggered(),
    {
        Combo { definition, state: 0, is_triggered: false }
    }

    /// The combo with no inputs, which never records a press.
    pub fn empty() -> (r: Self)
        ensures
            r.wf(),
            r.spec_definition().spec_size() == 0,
            r.spec_definition().spec_output() == KeyAction(0),
            r.state_bits() == 0 && !r.triggered(),
    {
        Self::new(ComboConfig::empty())
    }

    /// A copy of the definition.
    pub fn definition(&self) -> (r: ComboDefinition)
        ensures
            r.spec_size() == self.spec_definition().spec_size(),
            r.spec_output() == self.spec_definition().spec_output(),
            r.spec_layer() == self.spec_definition().spec_layer(),
            (match (r, self.spec_definition()) {
                (ComboDefinition::Actions(a), ComboDefinition::Actions(b)) => a.actions@ == b.actions@,
                (ComboDefinition::Positions(a), ComboDefinition::Positions(b)) => a.positions@ == b.positions@,
                _ => false,
            }),
    {
        match &self.definition {
            ComboDefinition::Actions(c) => ComboDefinition::Actions(
                ComboConfig { actions: c.actions.clone(), output: c.output, layer: c.layer },
            ),
            ComboDefinition::Positions(c) => ComboDefinition::Positions(
                PositionComboConfig { positions: c.positions.clone(), output: c.output, layer: c.layer },
            ),
        }
    }

    /// The action configuration, for an action combo.
    pub fn legacy_config(&self) -> (r: Option<&ComboConfig>)
        ensures
            (match self.spec_definition() {
                ComboDefinition::Actions(c) => r == Some(&c),
                ComboDefinition::Positions(_) => r is None,
            }),
    {
        match &self.definition {
            ComboDefinition::Actions(config) => Some(config),
            ComboDefinition::Positions(_) => None,
        }
    }

    /// The combo's output.
    pub fn output(&self) -> (r: KeyAction)
        ensures
            r == self.spec_definition().spec_output(),
    {
        self.definition.output()
    }

    /// Which input of `definition` an event matches.
    pub fn definition_input_index(definition: &ComboDefinition, key_action: &KeyAction, position: KeyboardEventPos) -> (r: Option<usize>)
        ensures
            spec_input_index(*definition, *key_action, position, r),
    {
        match definition {
            ComboDefinition::Actions(config) => first_action_index(&config.actions, *key_action),
            ComboDefinition::Positions(config) => match position {
                KeyboardEventPos::Key(p) => first_position_index(
                    &config.positions,
                    MatrixPosition { row: p.row, col: p.col },
                ),
                KeyboardEventPos::RotaryEncoder(_) => None,
            },
        }
    }

    /// Whether an event matches an input of `definition`.
    pub fn definition_contains_input(definition: &ComboDefinition, key_action: &KeyAction, position: KeyboardEventPos) -> (r: bool)
        ensures
            r <==> exists|i: usize| spec_input_index(*definition, *key_action, position, Some(i)),
    {
        let idx = Self::definition_input_index(definition, key_action, position);
        proof {
            lemma_input_index_unique(*definition, *key_action, position, idx);
        }
        idx.is_some()
    }

    /// Whether an event matches one of this combo's inputs.
    pub fn contains_input(&self, key_action: &KeyAction, position: KeyboardEventPos) -> (r: bool)
        ensures
            r <==> exists|i: usize| spec_input_index(self.spec_definition(), *key_action, position, Some(i)),
    {
        Self::definition_contains_input(&self.definition, key_action, position)
    }

    /// Record a key press. Returns whether the press belongs to this combo.
    /// Releases, empty combos, fired combos and presses on another layer
    /// (for a scoped combo) change nothing; a press that is not one of the
    /// inputs resets a combo that is not yet complete.
    pub fn update(&mut self, key_action: &KeyAction, key_event: KeyboardEvent, active_layer: u8) -> (r: bool)
        requires
            old(self).wf(),
        ensures
            final(self).wf(),
            final(self).spec_definition() == old(self).spec_definition(),
            final(self).triggered() == old(self).triggered(),
            ({
                let ignored = !key_event.pressed || old(self).spec_definition().spec_size() == 0 || old(self).triggered()
                    || (old(self).spec_definition().spec_layer() matches Some(l) && l != active_layer);
                if ignored {
                    !r && final(self).state_bits() == old(self).state_bits()
                } else {
                    exists|idx: Option<usize>| {
                        &&& #[trigger] spec_input_index(old(self).spec_definition(), *key_action, key_event.pos, idx)
                        &&& r == idx is Some
                        &&& final(self).state_bits() == match idx {
                            Some(i) => old(self).state_bits() | (1u16 << i as u16),
                            None => if old(self).all_pressed() { old(self).state_bits() } else { 0u16 },
                        }
                    }
                }
            }),
    {
        if !key_event.pressed || self.size() == 0 || self.is_triggered {
            return false;
        }
        match self.definition.layer() {
            Some(layer) => {
                if layer != active_layer {
                    return false;
                }
            },
            None => {},
        }
        let action_idx = Self::definition_input_index(&self.definition, key_action, key_event.pos);
        match action_idx {
            Some(i) => {
                self.state = self.state | (1u16 << i as u16);
            },
            None => {
                if !self.is_all_pressed() {
                    self.state = 0;
                }
            },
        }
        action_idx.is_some()
    }

    /// Re-assert an input of an already fired combo that was released and
    /// pressed again while the chord is held. Returns whether the press
    /// belongs to this fired combo (and must be swallowed).
    pub fn reassert_if_triggered(&mut self, key_action: &KeyAction, position: KeyboardEventPos) -> (r: bool)
        requires
            old(self).wf(),
        ensures
            final(self).wf(),
            final(self).spec_definition() == old(self).spec_definition(),
            final(self).triggered() == old(self).triggered(),
            !old(self).triggered() ==> !r && final(self).state_bits() == old(self).state_bits(),
            old(self).triggered() ==> exists|idx: Option<usize>| {
                &&& #[trigger] spec_input_index(old(self).spec_definition(), *key_action, position, idx)
                &&& r == idx is Some
                &&& final(self).state_bits() == match idx {
                    Some(i) => old(self).state_bits() | (1u16 << i as u16),
                    None => old(self).state_bits(),
                }
            },
    {
        if !self.is_triggered {
            return false;
        }
        match Self::definition_input_index(&self.definition, key_action, position) {
            Some(i) => {
                self.state = self.state | (1u16 << i as u16);
                true
            },
            None => false,
        }
    }

    /// Record a key release. Returns true exactly when this release
    /// completes the release of a fired combo; a combo whose inputs are all
    /// released is reset.
    pub fn update_released(&mut self, key_action: &KeyAction, position: KeyboardEventPos) -> (r: bool)
        requires
            old(self).wf(),
        ensures
            final(self).wf(),
            final(self).spec_definition() == old(self).spec_definition(),
            exists|idx: Option<usize>| {
                &&& #[trigger] spec_input_index(old(self).spec_definition(), *key_action, position, idx)
                &&& ({
                    let bits = match idx {
                        Some(i) => old(self).state_bits() & !(1u16 << i as u16),
                        None => old(self).state_bits(),
                    };
                    &&& final(self).state_bits() == bits
                    &&& final(self).triggered() == (bits != 0 && old(self).triggered())
                    &&& r == (bits == 0 && old(self).triggered())
                })
            },
    {
        match Self::definition_input_index(&self.definition, key_action, position) {
            Some(i) => {
                self.state = self.state & !(1u16 << i as u16);
            },
            None => {},
        }
        if self.state == 0 {
            if self.is_triggered {
                self.reset();
                return true;
            }
            self.reset();
        }
        false
    }

    /// Fire the combo if all its inputs are held; returns its output.
    pub fn trigger(&mut self) -> (r: KeyAction)
        requires
            old(self).wf(),
        ensures
            final(self).wf(),
            r == old(self).spec_definition().spec_output(),
            final(self).spec_definition() == old(self).spec_definition(),
            final(self).state_bits() == old(self).state_bits(),
            final(self).triggered() == (old(self).triggered() || old(self).all_pressed()),
    {
        if self.is_triggered() {
            return self.output();
        }
        if self.is_all_pressed() {
            self.is_triggered = true;
        }
        self.output()
    }

    /// Whether the combo's output was dispatched.
    pub fn is_triggered(&self) -> (r: bool)
        ensures
            r == self.triggered(),
    {
        self.is_triggered
    }

    /// Whether all inputs are held (the output may not be sent yet).
    pub fn is_all_pressed(&self) -> (r: bool)
        ensures
            r == self.all_pressed(),
    {
        let cnt = self.size();
        cnt > 0 && self.keys_pressed() as usize == cnt
    }

    /// Number of inputs.
    pub fn size(&self) -> (r: usize)
        ensures
            r == self.spec_definition().spec_size(),
    {
        self.definition.size()
    }

    /// Number of inputs held.
    pub fn keys_pressed(&self) -> (r: u32)
        ensures
            r == popcount(self.state_bits(), 16),
    {
        let mut count: u32 = 0;
        let mut i: u16 = 0;
        while i < 16
            invariant
                i <= 16,
                count == popcount(self.state, i as nat),
                count <= i,
            decreases 16 - i,
        {
            if (self.state >> i) & 1 == 1 {
                count = count + 1;
            }
            i = i + 1;
        }
        count
    }

    /// Forget every pressed input and the trigger.
    pub fn reset(&mut self)
        ensures
            final(self).spec_definition() == old(self).spec_definition(),
            final(self).state_bits() == 0 && !final(self).triggered(),
    {
        self.state = 0;
        self.is_triggered = false;
    }
}

/// The first match is unique, so "some index matches" is decided by it.
proof fn lemma_input_index_unique(d: ComboDefinition, a: KeyAction, p: KeyboardEventPos, idx: Option<usize>)
    requires
        spec_input_index(d, a, p, idx),
    ensures
        idx is Some <==> exists|i: usize| spec_input_index(d, a, p, Some(i)),
{
    if let Some(i) = idx {
        assert(spec_input_index(d, a, p, Some(i)));
    } else {
        if exists|i: usize| spec_input_index(d, a, p, Some(i)) {
            let i = choose|i: usize| spec_input_index(d, a, p, Some(i));
            match d {
                ComboDefinition::Actions(c) => {
                    assert(c.actions@[i as int] == a);
                },
                ComboDefinition::Positions(c) => {
                    match p {
                        KeyboardEventPos::Key(k) => {
                            assert(c.positions@[i as int] == MatrixPosition { row: k.row, col: k.col });
                        },
                        _ => {},
                    }
                },
            }
        }
    }
}

} // verus!
