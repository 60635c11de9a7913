//! Snapshots of authoritative RMK state for lighting renderers.
//!
//! Layer-change events are only wakeups: every render reads a fresh snapshot,
//! so startup and coalesced events cannot leave lighting with a reconstructed
//! or stale active-layer set.
use vstd::prelude::*;
use crate::selector::{SelectorState, SelectorView, FORCE_WIRED, FORCE_BLE, spec_wired_selected, wired_selected, auto_enabled, forced_mode};

verus! {

/// Layers a lighting snapshot can describe: one bit each in a `u64`.
pub const LAYER_CAPACITY: usize = 64;

/// The keymap has more layers than a snapshot can describe.
#[derive(Clone, Copy, Debug, Eq, PartialEq, Structural)]
pub struct TooManyLayers {
    pub configured: usize,
    pub supported: usize,
}

/// What lighting reads of the live keymap.
pub struct LayerView {
    /// Topmost active layer.
    pub activated_layer: u8,
    pub default_layer: u8,
    /// Whether each layer is active, one entry per configured layer.
    pub layer_active: Vec<bool>,
}

impl LayerView {
    pub open spec fn wf(&self) -> bool {
        self.default_layer < self.layer_active@.len()
    }
}

/// Layer part of a snapshot: `active` has bit `l` set for each active layer.
#[derive(Clone, Copy, Debug, Eq, PartialEq, Structural)]
pub struct LayerState {
    pub effective: u8,
    pub default: u8,
    pub active: u64,
}

/// Host keyboard LED indicators.
#[derive(Clone, Copy, Debug, Eq, PartialEq, Structural)]
pub struct IndicatorState {
    pub num_lock: bool,
    pub caps_lock: bool,
    pub scroll_lock: bool,
    pub compose: bool,
    pub kana: bool,
}

/// The split transport force.
#[derive(Clone, Copy, Debug, Eq, PartialEq, Structural)]
pub enum SplitForce {
    Auto,
    Wired,
    Ble,
}

/// Split transport as lighting shows it.
#[derive(Clone, Copy, Debug, Eq, PartialEq, Structural)]
pub struct SplitTransportState {
    pub auto: bool,
    pub force: SplitForce,
    pub wired: bool,
}

/// Everything a renderer reads of RMK state.
#[derive(Clone, Copy, Debug, Eq, PartialEq, Structural)]
pub struct LightingSnapshot {
    pub layers: LayerState,
    pub indicators: IndicatorState,
    pub powered: bool,
    pub local_powered: bool,
    pub bonded_slots: u8,
    pub maintenance_unlocked: bool,
    pub split_transport: SplitTransportState,
}

/// Bit `l` of `x`.
pub open spec fn bit(x: u64, l: u64) -> bool {
    (x >> l) & 1 == 1
}

/// A layer is in the active set: the default layer, or one the keymap marks active.
pub open spec fn layer_in_set(view: LayerView, l: int) -> bool {
    l == view.default_layer || (0 <= l < view.layer_active@.len() && view.layer_active@[l])
}

/// Snapshot provider backed by the live keymap.
pub struct KeymapLightingState<'k> {
    keymap: &'k LayerView,
}

impl<'k> KeymapLightingState<'k> {
    pub closed spec fn view_of(&self) -> &'k LayerView {
        self.keymap
    }

    /// A provider over `keymap`, refused when it has more layers than a
    /// snapshot can describe.
    pub fn new(keymap: &'k LayerView) -> (r: Result<Self, TooManyLayers>)
        ensures
            keymap.layer_active@.len() > LAYER_CAPACITY <==> r is Err,
            r matches Ok(s) ==> s.view_of() == keymap,
            r matches Err(e) ==> e == (TooManyLayers {
                configured: keymap.layer_active@.len() as usize,
                supported: LAYER_CAPACITY,
            }),
    {
        let configured = keymap.layer_active.len();
        if configured > LAYER_CAPACITY {
            return Err(TooManyLayers { configured, supported: LAYER_CAPACITY });
        }
        Ok(KeymapLightingState { keymap })
    }

    /// The keymap this provider reads.
    pub fn keymap(&self) -> (r: &'k LayerView)
        ensures
            r == self.view_of(),
    {
        self.keymap
    }

    /// The layer state now: effective and default layer, and every active
    /// layer (the default one included) as a bit.
    pub fn layers(&self) -> (r: LayerState)
        requires
            self.view_of().wf(),
            self.view_of().layer_active@.len() <= LAYER_CAPACITY,
        ensures
            r.effective == self.view_of().activated_layer,
            r.default == self.view_of().default_layer,
            forall|l: u64| l < 64 ==> (#[trigger] bit(r.active, l) <==> layer_in_set(*self.view_of(), l as int)),
    {
        let view = self.keymap;
        let default = view.default_layer;
        let n = view.layer_active.len();
        let mut active: u64 = 1u64 << (default as u64);
        proof {
            assert forall|l: u64| l < 64 implies (#[trigger] bit(active, l) <==> l == default) by {
                lemma_single_bit(default as u64, l);
            }
        }
        let mut layer: usize = 0;
        while layer < n
            invariant
                n == view.layer_active@.len(),
                n <= 64,
                default < n,
                layer <= n,
                forall|l: u64| l < 64 ==> (#[trigger] bit(active, l) <==> (l == default || (l < layer
                    && view.layer_active@[l as int]))),
            decreases n - layer,
        {
            if view.layer_active[layer] {
                let ghost before = active;
                active = active | (1u64 << (layer as u64));
                proof {
                    assert forall|l: u64| l < 64 implies (#[trigger] bit(active, l) <==> (bit(before, l)
                        || l == layer)) by {
                        lemma_set_bit(before, layer as u64, l);
                    }
                }
            }
            layer = layer + 1;
        }
        LayerState { effective: view.activated_layer, default, active }
    }

    /// A full snapshot: layers from the keymap, the rest from the current
    /// indicator bits, power, bonds, maintenance gate and split selection.
    pub fn snapshot(
        &self,
        indicator_bits: u8,
        powered: bool,
        bonded: u8,
        maintenance_unlocked: bool,
        selector: &SelectorState,
    ) -> (r: LightingSnapshot)
        requires
            self.view_of().wf(),
            self.view_of().layer_active@.len() <= LAYER_CAPACITY,
        ensures
            r.layers.effective == self.view_of().activated_layer,
            r.layers.default == self.view_of().default_layer,
            forall|l: u64| l < 64 ==> (#[trigger] bit(r.layers.active, l) <==> layer_in_set(*self.view_of(), l as int)),
            r.indicators == spec_indicator_state(indicator_bits),
            r.powered == powered,
            r.local_powered == powered,
            r.bonded_slots == bonded,
            r.maintenance_unlocked == maintenance_unlocked,
            r.split_transport == spec_split_transport_state(selector@),
    {
        LightingSnapshot {
            layers: self.layers(),
            indicators: indicator_state(indicator_bits),
            powered,
            local_powered: powered,
            bonded_slots: bonded,
            maintenance_unlocked,
            split_transport: split_transport_state(selector),
        }
    }
}

proof fn lemma_single_bit(d: u64, l: u64)
    requires
        d < 64,
        l < 64,
    ensures
        bit(1u64 << d, l) <==> l == d,
{
    assert(((1u64 << d) >> l) & 1 == 1 <==> l == d) by (bit_vector)
        requires
            d < 64,
            l < 64,
    ;
}

proof fn lemma_set_bit(a: u64, i: u64, l: u64)
    requires
        i < 64,
        l < 64,
    ensures
        bit(a | (1u64 << i), l) <==> (bit(a, l) || l == i),
{
    assert((((a | (1u64 << i)) >> l) & 1 == 1) <==> (((a >> l) & 1 == 1) || l == i)) by (bit_vector)
        requires
            i < 64,
            l < 64,
    ;
}

/// Indicators from HID LED bits: num lock, caps lock, scroll lock, compose,
/// kana from the lowest bit up.
pub open spec fn spec_indicator_state(bits: u8) -> IndicatorState {
    IndicatorState {
        num_lock: bits & 1 != 0,
        caps_lock: bits & 2 != 0,
        scroll_lock: bits & 4 != 0,
        compose: bits & 8 != 0,
        kana: bits & 16 != 0,
    }
}

/// Each indicator is the HID LED bit of its own position, counted from the
/// lowest: num lock 0, caps lock 1, scroll lock 2, compose 3, kana 4. Setting
/// one LED bit lights exactly its own indicator.
pub proof fn lemma_indicators_follow_led_bits(bits: u8)
    ensures
        spec_indicator_state(bits).num_lock == ((bits >> 0u8) & 1 == 1),
        spec_indicator_state(bits).caps_lock == ((bits >> 1u8) & 1 == 1),
        spec_indicator_state(bits).scroll_lock == ((bits >> 2u8) & 1 == 1),
        spec_indicator_state(bits).compose == ((bits >> 3u8) & 1 == 1),
        spec_indicator_state(bits).kana == ((bits >> 4u8) & 1 == 1),
        spec_indicator_state(4u8) == (IndicatorState {
            num_lock: false,
            caps_lock: false,
            scroll_lock: true,
            compose: false,
            kana: false,
        }),
        spec_indicator_state(8u8) == (IndicatorState {
            num_lock: false,
            caps_lock: false,
            scroll_lock: false,
            compose: true,
            kana: false,
        }),
{
    let i = spec_indicator_state(bits);
    let (n, c, sc, co, k) = (i.num_lock, i.caps_lock, i.scroll_lock, i.compose, i.kana);
    assert(n == (bits & 1 != 0));
    assert(c == (bits & 2 != 0));
    assert(sc == (bits & 4 != 0));
    assert(co == (bits & 8 != 0));
    assert(k == (bits & 16 != 0));
    assert(((bits & 1 != 0) == ((bits >> 0u8) & 1 == 1)) && ((bits & 2 != 0) == ((bits >> 1u8) & 1 == 1))
        && ((bits & 4 != 0) == ((bits >> 2u8) & 1 == 1)) && ((bits & 8 != 0) == ((bits >> 3u8) & 1 == 1))
        && ((bits & 16 != 0) == ((bits >> 4u8) & 1 == 1))) by (bit_vector);
    let f = spec_indicator_state(4u8);
    assert(f.scroll_lock == (4u8 & 4 != 0));
    assert(4u8 & 1 == 0 && 4u8 & 2 == 0 && 4u8 & 4 != 0 && 4u8 & 8 == 0 && 4u8 & 16 == 0) by (bit_vector);
    assert(8u8 & 1 == 0 && 8u8 & 2 == 0 && 8u8 & 4 == 0 && 8u8 & 8 != 0 && 8u8 & 16 == 0) by (bit_vector);
}

/// The indicator state of the current HID LED bits.
pub fn indicator_state(bits: u8) -> (r: IndicatorState)
    ensures
        r == spec_indicator_state(bits),
{
    IndicatorState {
        num_lock: bits & 1 != 0,
        caps_lock: bits & 2 != 0,
        scroll_lock: bits & 4 != 0,
        compose: bits & 8 != 0,
        kana: bits & 16 != 0,
    }
}

pub open spec fn spec_split_transport_state(s: SelectorView) -> SplitTransportState {
    SplitTransportState {
        auto: s.auto_enabled,
        force: if s.forced == FORCE_WIRED {
            SplitForce::Wired
        } else if s.forced == FORCE_BLE {
            SplitForce::Ble
        } else {
            SplitForce::Auto
        },
        wired: s.auto_enabled && spec_wired_selected(s),
    }
}

/// The split transport as the selector has it: automatic or not, the force,
/// and whether automatic selection chose the wired link.
pub fn split_transport_state(s: &SelectorState) -> (r: SplitTransportState)
    ensures
        r == spec_split_transport_state(s@),
{
    let auto = auto_enabled(s);
    let forced = forced_mode(s);
    let force = if forced == FORCE_WIRED {
        SplitForce::Wired
    } else if forced == FORCE_BLE {
        SplitForce::Ble
    } else {
        SplitForce::Auto
    };
    SplitTransportState { auto, force, wired: auto && wired_selected(s) }
}

/// Bonded-slot bitmap, or zero on builds with no BLE stack to bond with.
pub fn bonded_slots(ble_stack: bool, bonded: u8) -> (r: u8)
    ensures
        r == if ble_stack { bonded } else { 0 },
{
    if ble_stack { bonded } else { 0 }
}

} // verus!
