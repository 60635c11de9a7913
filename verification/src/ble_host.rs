//! Host-profile bookkeeping of the BLE connection loop.
//!
//! Each BLE profile slot has a generation (bumped whenever the slot's bond is
//! cleared or rejected, so late updates for the old bond are ignored) and
//! pending-clear / pending-rejection flags that hold while a connection on
//! the slot is being torn down. The loop picks what to advertise from this
//! state: visible pairing for an unbonded active slot (or one the user just
//! cleared), otherwise hidden reconnection to bonded slots that are not
//! connected.
use vstd::prelude::*;
use crate::bond_table::PeerIdentity;

verus! {

/// How long after a hidden reconnect starts it uses the fast interval (ms).
pub const HIDDEN_RECONNECT_FAST_MS: u64 = 5_000;
/// Advertising gives up and the keyboard sleeps after this long (ms).
pub const ADVERTISING_TIMEOUT_MS: u64 = 300_000;
/// How long reports captured to wake a host are kept (ms).
pub const WAKE_REPORT_CAPTURE_MS: u64 = 2_000;

/// Per-slot state of the connection loop.
#[derive(Clone, Copy, Debug)]
pub struct SlotState {
    pub generation: u32,
    pub pending_clear: bool,
    pub pending_rejection: bool,
    /// The profile intent that asked for visible pairing once the slot's
    /// connection is gone.
    pub visible_intent: Option<u32>,
    /// A bond identity to drop from the stack once the connection is gone.
    pub bond_removal: Option<PeerIdentity>,
}

/// What to advertise.
#[derive(Clone, Debug)]
pub enum AdvMode {
    /// Discoverable and bondable, for a new host on `slot`.
    VisiblePairing { slot: u8 },
    /// Undiscoverable, for the bonded hosts of `slots` to reconnect.
    HiddenReconnect { slots: Vec<u8>, fast: bool },
}

impl AdvMode {
    /// Whether the advertisement is discoverable.
    pub fn is_visible(&self) -> (r: bool)
        ensures
            r == (*self is VisiblePairing),
    {
        match self {
            AdvMode::VisiblePairing { .. } => true,
            AdvMode::HiddenReconnect { .. } => false,
        }
    }
}

/// What the loop does with a connection on a slot being cleared.
#[derive(Clone, Copy, Debug, PartialEq, Eq, Structural)]
pub enum ClearAction {
    /// Release and disconnect it; the bond is cleared once it is gone.
    Disconnect,
    /// No connection: clear the stored bond now.
    ClearBondNow,
}

/// What the loop does once a slot's connection is gone.
#[derive(Clone, Copy, Debug)]
pub enum DisconnectAction {
    /// The slot was being cleared: drop `removal` (a rejected identity) and
    /// the peer's identity from the stack, then clear the stored bond.
    ClearBond { removal: Option<PeerIdentity> },
    /// The slot's bond was rejected: drop `removal` from the stack.
    DropRejected { removal: Option<PeerIdentity> },
    /// An ordinary disconnect.
    Forget,
}

/// How an incoming connection is placed.
#[derive(Clone, Copy, Debug, PartialEq, Eq, Structural)]
pub enum Placement {
    /// Attach it to `slot`.
    Slot(u8),
    /// A bonded peer of a slot this advertisement did not target.
    RejectNonTarget,
    /// An unknown peer during hidden reconnection.
    RejectUnknown,
    /// A slot outside the configured profiles.
    RejectInvalid,
    /// The slot already has a connection.
    RejectDuplicate,
}

/// The bookkeeping of all profile slots.
pub struct HostSlots {
    slots: Vec<SlotState>,
    forced_visible: Option<u8>,
    intent_generation: u32,
}

pub open spec fn bump(g: u32) -> u32 {
    if g == u32::MAX { 0 } else { (g + 1) as u32 }
}

/// A slot's generation always moves on when it is bumped, so a late update
/// tagged with the generation before a clear or rejection never matches the
/// slot again until the counter wraps all the way round.
pub proof fn lemma_bump_moves_on(g: u32)
    ensures
        bump(g) != g,
{
}

impl HostSlots {
    pub closed spec fn spec_slots(&self) -> Seq<SlotState> {
        self.slots@
    }

    pub closed spec fn spec_forced_visible(&self) -> Option<u8> {
        self.forced_visible
    }

    pub closed spec fn spec_intent_generation(&self) -> u32 {
        self.intent_generation
    }

    /// `num_profiles` slots at generation 0, nothing pending.
    pub fn new(num_profiles: usize) -> (r: Self)
        ensures
            r.spec_slots().len() == num_profiles,
            forall|i: int| 0 <= i < num_profiles ==> #[trigger] r.spec_slots()[i].generation == 0
                && !r.spec_slots()[i].pending_clear && !r.spec_slots()[i].pending_rejection
                && r.spec_slots()[i].visible_intent is None && r.spec_slots()[i].bond_removal is None,
            r.spec_forced_visible() is None,
            r.spec_intent_generation() == 0,
    {
        let mut slots: Vec<SlotState> = Vec::new();
        let mut i: usize = 0;
        while i < num_profiles
            invariant
                i <= num_profiles,
                slots@.len() == i,
                forall|j: int| 0 <= j < i ==> #[trigger] slots@[j].generation == 0 && !slots@[j].pending_clear
                    && !slots@[j].pending_rejection && slots@[j].visible_intent is None
                    && slots@[j].bond_removal is None,
            decreases num_profiles - i,
        {
            slots.push(
                SlotState {
                    generation: 0,
                    pending_clear: false,
                    pending_rejection: false,
                    visible_intent: None,
                    bond_removal: None,
                },
            );
            i = i + 1;
        }
        let r = HostSlots { slots, forced_visible: None, intent_generation: 0 };
        assert(r.spec_slots() == r.slots@);
        r
    }

    /// The slot's current generation.
    pub fn generation(&self, slot: u8) -> (r: u32)
        requires
            (slot as int) < self.spec_slots().len(),
        ensures
            r == self.spec_slots()[slot as int].generation,
    {
        self.slots[slot as usize].generation
    }

    /// The generation of every slot, in slot order.
    pub fn generations(&self) -> (r: Vec<u32>)
        ensures
            r@.len() == self.spec_slots().len(),
            forall|i: int| 0 <= i < r@.len() ==> #[trigger] r@[i] == self.spec_slots()[i].generation,
    {
        let mut out: Vec<u32> = Vec::new();
        let mut i: usize = 0;
        while i < self.slots.len()
            invariant
                i <= self.slots@.len(),
                out@.len() == i,
                forall|j: int| 0 <= j < i ==> #[trigger] out@[j] == self.slots@[j].generation,
            decreases self.slots@.len() - i,
        {
            out.push(self.slots[i].generation);
            i = i + 1;
        }
        out
    }

    /// The slot is being cleared or rejected.
    pub fn is_pending(&self, slot: u8) -> (r: bool)
        requires
            (slot as int) < self.spec_slots().len(),
        ensures
            r == (self.spec_slots()[slot as int].pending_clear || self.spec_slots()[slot as int].pending_rejection),
    {
        self.slots[slot as usize].pending_clear || self.slots[slot as usize].pending_rejection
    }

    /// The slot is being cleared.
    pub fn is_pending_clear(&self, slot: u8) -> (r: bool)
        requires
            (slot as int) < self.spec_slots().len(),
        ensures
            r == self.spec_slots()[slot as int].pending_clear,
    {
        self.slots[slot as usize].pending_clear
    }

    /// A profile selection or clear was requested: later intents supersede
    /// earlier ones.
    pub fn note_intent(&mut self)
        ensures
            final(self).spec_intent_generation() == bump(old(self).spec_intent_generation()),
            final(self).spec_slots() == old(self).spec_slots(),
            final(self).spec_forced_visible() == old(self).spec_forced_visible(),
    {
        self.intent_generation = self.intent_generation.wrapping_add(1);
    }

    /// A profile was selected; unless the same request clears a slot, any
    /// forced visible pairing is dropped.
    pub fn on_select(&mut self, with_clear: bool)
        ensures
            final(self).spec_forced_visible() == if with_clear { old(self).spec_forced_visible() } else { None },
            final(self).spec_slots() == old(self).spec_slots(),
            final(self).spec_intent_generation() == old(self).spec_intent_generation(),
    {
        if !with_clear {
            self.forced_visible = None;
        }
    }

    /// Clear `slot`'s bond: its generation moves on so late updates are
    /// ignored. With a live connection the clear waits for the disconnect;
    /// without one the bond is cleared now and, if it is the active
    /// profile, visible pairing is forced.
    pub fn on_clear(&mut self, slot: u8, has_connection: bool, active_profile: u8) -> (r: ClearAction)
        requires
            (slot as int) < old(self).spec_slots().len(),
        ensures
            final(self).spec_intent_generation() == old(self).spec_intent_generation(),
            ({
                let s = old(self).spec_slots()[slot as int];
                if has_connection {
                    &&& r == ClearAction::Disconnect
                    &&& final(self).spec_slots() == old(self).spec_slots().update(slot as int, SlotState {
                        generation: bump(s.generation),
                        pending_clear: true,
                        pending_rejection: false,
                        visible_intent: Some(old(self).spec_intent_generation()),
                        ..s
                    })
                    &&& final(self).spec_forced_visible() is None
                } else {
                    &&& r == ClearAction::ClearBondNow
                    &&& final(self).spec_slots() == old(self).spec_slots().update(slot as int, SlotState {
                        generation: bump(s.generation),
                        pending_clear: false,
                        ..s
                    })
                    &&& final(self).spec_forced_visible() == if active_profile == slot { Some(slot) } else { None }
                }
            }),
    {
        let i = slot as usize;
        let mut s = self.slots[i];
        s.generation = s.generation.wrapping_add(1);
        self.forced_visible = None;
        if has_connection {
            s.pending_clear = true;
            s.pending_rejection = false;
            s.visible_intent = Some(self.intent_generation);
            self.slots.set(i, s);
            ClearAction::Disconnect
        } else {
            s.pending_clear = false;
            self.slots.set(i, s);
            if active_profile == slot {
                self.forced_visible = Some(slot);
            }
            ClearAction::ClearBondNow
        }
    }

    /// The stack refused a new bond on `slot`: its generation moves on; a
    /// live connection is torn down first, otherwise visible pairing is
    /// forced for the active profile. Returns whether to disconnect.
    pub fn on_reject(&mut self, slot: u8, has_connection: bool, active_profile: u8) -> (disconnect: bool)
        requires
            (slot as int) < old(self).spec_slots().len(),
        ensures
            disconnect == has_connection,
            final(self).spec_intent_generation() == old(self).spec_intent_generation(),
            ({
                let s = old(self).spec_slots()[slot as int];
                if has_connection {
                    &&& final(self).spec_slots() == old(self).spec_slots().update(slot as int, SlotState {
                        generation: bump(s.generation),
                        pending_rejection: true,
                        visible_intent: Some(old(self).spec_intent_generation()),
                        ..s
                    })
                    &&& final(self).spec_forced_visible() == old(self).spec_forced_visible()
                } else {
                    &&& final(self).spec_slots() == old(self).spec_slots().update(slot as int, SlotState {
                        generation: bump(s.generation),
                        ..s
                    })
                    &&& final(self).spec_forced_visible() == if active_profile == slot {
                        Some(slot)
                    } else {
                        old(self).spec_forced_visible()
                    }
                }
            }),
    {
        let i = slot as usize;
        let mut s = self.slots[i];
        s.generation = s.generation.wrapping_add(1);
        if has_connection {
            s.pending_rejection = true;
            s.visible_intent = Some(self.intent_generation);
            self.slots.set(i, s);
            true
        } else {
            self.slots.set(i, s);
            if active_profile == slot {
                self.forced_visible = Some(slot);
            }
            false
        }
    }

    /// Remember an identity the disconnecting peer presented, to drop it
    /// from the stack once the connection is gone.
    pub fn note_bond_removal(&mut self, slot: u8, identity: PeerIdentity)
        requires
            (slot as int) < old(self).spec_slots().len(),
        ensures
            final(self).spec_slots() == old(self).spec_slots().update(
                slot as int,
                SlotState { bond_removal: Some(identity), ..old(self).spec_slots()[slot as int] },
            ),
            final(self).spec_forced_visible() == old(self).spec_forced_visible(),
            final(self).spec_intent_generation() == old(self).spec_intent_generation(),
    {
        let i = slot as usize;
        let mut s = self.slots[i];
        s.bond_removal = Some(identity);
        self.slots.set(i, s);
    }

    /// A slot's connection is gone. A pending clear or rejection completes,
    /// and visible pairing is forced if no later intent superseded it.
    pub fn on_disconnected(&mut self, slot: u8) -> (r: DisconnectAction)
        requires
            (slot as int) < old(self).spec_slots().len(),
        ensures
            final(self).spec_intent_generation() == old(self).spec_intent_generation(),
            ({
                let s = old(self).spec_slots()[slot as int];
                let forced = if s.visible_intent == Some(old(self).spec_intent_generation()) {
                    Some(slot)
                } else {
                    old(self).spec_forced_visible()
                };
                let cleared = SlotState {
                    pending_clear: false,
                    pending_rejection: false,
                    visible_intent: None,
                    bond_removal: None,
                    ..s
                };
                &&& final(self).spec_slots() == old(self).spec_slots().update(slot as int, cleared)
                &&& if s.pending_clear {
                    r matches DisconnectAction::ClearBond { removal } && removal == s.bond_removal
                        && final(self).spec_forced_visible() == forced
                } else if s.pending_rejection {
                    r matches DisconnectAction::DropRejected { removal } && removal == s.bond_removal
                        && final(self).spec_forced_visible() == forced
                } else {
                    r is Forget && final(self).spec_forced_visible() == old(self).spec_forced_visible()
                }
            }),
    {
        let i = slot as usize;
        let s = self.slots[i];
        let cleared = SlotState {
            generation: s.generation,
            pending_clear: false,
            pending_rejection: false,
            visible_intent: None,
            bond_removal: None,
        };
        self.slots.set(i, cleared);
        if s.pending_clear || s.pending_rejection {
            if let Some(g) = s.visible_intent {
                if g == self.intent_generation {
                    self.forced_visible = Some(slot);
                }
            }
            if s.pending_clear {
                DisconnectAction::ClearBond { removal: s.bond_removal }
            } else {
                DisconnectAction::DropRejected { removal: s.bond_removal }
            }
        } else {
            DisconnectAction::Forget
        }
    }

    /// The host lost its bond on `slot` (connection of `generation`): unless
    /// already clearing, or the slot moved on, the slot is cleared once the
    /// connection is gone.
    pub fn on_bond_lost(&mut self, slot: u8, generation: u32)
        requires
            (slot as int) < old(self).spec_slots().len(),
        ensures
            final(self).spec_forced_visible() == old(self).spec_forced_visible(),
            final(self).spec_intent_generation() == old(self).spec_intent_generation(),
            ({
                let s = old(self).spec_slots()[slot as int];
                if !s.pending_clear && s.generation == generation {
                    final(self).spec_slots() == old(self).spec_slots().update(slot as int, SlotState {
                        generation: bump(s.generation),
                        pending_clear: true,
                        visible_intent: Some(old(self).spec_intent_generation()),
                        ..s
                    })
                } else {
                    final(self).spec_slots() == old(self).spec_slots()
                }
            }),
    {
        let i = slot as usize;
        let mut s = self.slots[i];
        if !s.pending_clear && s.generation == generation {
            s.generation = s.generation.wrapping_add(1);
            s.pending_clear = true;
            s.visible_intent = Some(self.intent_generation);
            self.slots.set(i, s);
        }
    }

    /// A peer paired with an identity that cannot persist: unless the slot is
    /// being cleared, the pairing is rejected and retried visibly. The
    /// identity is dropped from the stack once the connection is gone.
    /// Returns whether the connection is to be marked not ready.
    pub fn on_invalid_pairing(&mut self, slot: u8, generation: u32, identity: Option<PeerIdentity>) -> (unready: bool)
        requires
            (slot as int) < old(self).spec_slots().len(),
        ensures
            final(self).spec_forced_visible() == old(self).spec_forced_visible(),
            final(self).spec_intent_generation() == old(self).spec_intent_generation(),
            ({
                let s = old(self).spec_slots()[slot as int];
                if s.pending_clear {
                    !unready && final(self).spec_slots() == old(self).spec_slots().update(
                        slot as int,
                        SlotState { bond_removal: identity, ..s },
                    )
                } else {
                    unready && final(self).spec_slots() == old(self).spec_slots().update(slot as int, SlotState {
                        generation: if s.generation == generation { bump(s.generation) } else { s.generation },
                        pending_rejection: true,
                        bond_removal: identity,
                        visible_intent: Some(old(self).spec_intent_generation()),
                        ..s
                    })
                }
            }),
    {
        let i = slot as usize;
        let mut s = self.slots[i];
        if s.pending_clear {
            s.bond_removal = identity;
            self.slots.set(i, s);
            false
        } else {
            if s.generation == generation {
                s.generation = s.generation.wrapping_add(1);
            }
            s.pending_rejection = true;
            s.bond_removal = identity;
            s.visible_intent = Some(self.intent_generation);
            self.slots.set(i, s);
            true
        }
    }

    /// A connection attached from a visible advertisement for `slot`: the
    /// forced visible pairing is served.
    pub fn on_paired(&mut self)
        ensures
            final(self).spec_forced_visible() is None,
            final(self).spec_slots() == old(self).spec_slots(),
            final(self).spec_intent_generation() == old(self).spec_intent_generation(),
    {
        self.forced_visible = None;
    }

    /// Choose what to advertise. `connected[s]` tells whether slot `s` has a
    /// live connection, `bonded[s]` whether it holds a bond; `bonded_order`
    /// lists the bonded slots in table order. A forced visible pairing that
    /// is no longer needed is dropped.
    pub fn choose_mode(
        &mut self,
        active_profile: u8,
        connected: &[bool],
        bonded: &[bool],
        bonded_order: &[u8],
        hidden_fast: bool,
    ) -> (r: Option<AdvMode>)
        requires
            (active_profile as int) < old(self).spec_slots().len(),
            connected@.len() == old(self).spec_slots().len(),
            bonded@.len() == old(self).spec_slots().len(),
            forall|i: int| 0 <= i < bonded_order@.len() ==> (#[trigger] bonded_order@[i] as int) < old(self).spec_slots().len(),
            old(self).spec_forced_visible() matches Some(f) ==> (f as int) < old(self).spec_slots().len(),
        ensures
            final(self).spec_slots() == old(self).spec_slots(),
            final(self).spec_intent_generation() == old(self).spec_intent_generation(),
            ({
                let sl = old(self).spec_slots();
                let a = active_profile as int;
                let forced_pick = match old(self).spec_forced_visible() {
                    Some(f) => !sl[f as int].pending_clear && !sl[f as int].pending_rejection && !connected@[f as int]
                        && !bonded@[f as int],
                    None => false,
                };
                let forced_kept = match old(self).spec_forced_visible() {
                    Some(f) => forced_pick || sl[f as int].pending_clear || sl[f as int].pending_rejection,
                    None => true,
                };
                let active_free = !connected@[a] && !sl[a].pending_clear && !sl[a].pending_rejection;
                &&& final(self).spec_forced_visible() == if forced_kept {
                    old(self).spec_forced_visible()
                } else {
                    None
                }
                &&& if forced_pick {
                    r matches Some(AdvMode::VisiblePairing { slot }) && Some(slot) == old(self).spec_forced_visible()
                } else if active_free && !bonded@[a] {
                    r matches Some(AdvMode::VisiblePairing { slot }) && slot == active_profile
                } else {
                    match r {
                        Some(AdvMode::HiddenReconnect { slots, fast }) => {
                            &&& fast == hidden_fast
                            &&& slots@.len() > 0
                            &&& slots@ == reconnect_slots(active_profile, active_free && bonded@[a], sl, connected@, bonded_order@, sl.len())
                        },
                        Some(AdvMode::VisiblePairing { .. }) => false,
                        None => reconnect_slots(active_profile, active_free && bonded@[a], sl, connected@, bonded_order@, sl.len()).len() == 0,
                    }
                }
            }),
    {
        let a = active_profile as usize;
        let mut pick_forced = false;
        if let Some(f) = self.forced_visible {
            let s = self.slots[f as usize];
            if !s.pending_clear && !s.pending_rejection {
                if !connected[f as usize] && !bonded[f as usize] {
                    pick_forced = true;
                } else {
                    self.forced_visible = None;
                }
            }
        }
        if pick_forced {
            match self.forced_visible {
                Some(f) => {
                    return Some(AdvMode::VisiblePairing { slot: f });
                },
                None => {},
            }
        }
        let sa = self.slots[a];
        let active_free = !connected[a] && !sa.pending_clear && !sa.pending_rejection;
        if active_free && !bonded[a] {
            return Some(AdvMode::VisiblePairing { slot: active_profile });
        }
        let slots = self.reconnect_candidates(active_profile, active_free && bonded[a], connected, bonded_order);
        if slots.len() == 0 {
            None
        } else {
            Some(AdvMode::HiddenReconnect { slots, fast: hidden_fast })
        }
    }

    fn reconnect_candidates(&self, active_profile: u8, include_active: bool, connected: &[bool], bonded_order: &[u8]) -> (r: Vec<u8>)
        requires
            connected@.len() == self.spec_slots().len(),
            forall|i: int| 0 <= i < bonded_order@.len() ==> (#[trigger] bonded_order@[i] as int) < self.spec_slots().len(),
        ensures
            r@ == reconnect_slots(active_profile, include_active, self.spec_slots(), connected@, bonded_order@, self.spec_slots().len()),
    {
        let cap = self.slots.len();
        let mut out: Vec<u8> = Vec::new();
        if include_active && cap > 0 {
            out.push(active_profile);
        }
        let ghost start = out@;
        let mut i: usize = 0;
        assert(bonded_order@.take(0) =~= Seq::<u8>::empty());
        while i < bonded_order.len()
            invariant
                cap == self.spec_slots().len(),
                connected@.len() == cap,
                forall|k: int| 0 <= k < bonded_order@.len() ==> (#[trigger] bonded_order@[k] as int) < cap,
                i <= bonded_order@.len(),
                start == if include_active && cap > 0 { seq![active_profile] } else { Seq::<u8>::empty() },
                out@ == fill_slots(start, active_profile, self.spec_slots(), connected@, bonded_order@.take(i as int), cap as nat),
            decreases bonded_order@.len() - i,
        {
            let s = bonded_order[i];
            assert(bonded_order@.take(i + 1) =~= bonded_order@.take(i as int).push(s));
            assert(bonded_order@.take(i + 1).drop_last() =~= bonded_order@.take(i as int));
            assert(bonded_order@.take(i + 1).last() == s);
            let st = self.slots[s as usize];
            assert(st == self.spec_slots()[s as int]);
            let done = out.len() >= cap;
            proof {
                lemma_fill_full(start, active_profile, self.spec_slots(), connected@, bonded_order@.take(i as int), cap as nat);
            }
            if !done && s != active_profile && !st.pending_clear && !st.pending_rejection && !connected[s as usize] {
                out.push(s);
            }
            i = i + 1;
        }
        assert(bonded_order@.take(i as int) =~= bonded_order@);
        out
    }
}

/// The reconnect candidates: the active slot first when it qualifies, then
/// every other bonded slot that is not pending and not connected, in table
/// order, at most `cap` in all.
pub open spec fn reconnect_slots(
    active: u8,
    include_active: bool,
    sl: Seq<SlotState>,
    connected: Seq<bool>,
    order: Seq<u8>,
    cap: nat,
) -> Seq<u8> {
    let start = if include_active && cap > 0 { seq![active] } else { Seq::<u8>::empty() };
    fill_slots(start, active, sl, connected, order, cap)
}

pub open spec fn fill_slots(
    start: Seq<u8>,
    active: u8,
    sl: Seq<SlotState>,
    connected: Seq<bool>,
    order: Seq<u8>,
    cap: nat,
) -> Seq<u8>
    decreases order.len(),
{
    if order.len() == 0 {
        start
    } else {
        let prev = fill_slots(start, active, sl, connected, order.drop_last(), cap);
        let s = order.last();
        if prev.len() < cap && s != active && !sl[s as int].pending_clear && !sl[s as int].pending_rejection
            && !connected[s as int] {
            prev.push(s)
        } else {
            prev
        }
    }
}

proof fn lemma_fill_full(start: Seq<u8>, active: u8, sl: Seq<SlotState>, connected: Seq<bool>, order: Seq<u8>, cap: nat)
    ensures
        fill_slots(start, active, sl, connected, order, cap).len() >= start.len(),
    decreases order.len(),
{
    if order.len() > 0 {
        lemma_fill_full(start, active, sl, connected, order.drop_last(), cap);
    }
}

/// Place an incoming connection. A visible pairing takes its target slot
/// unless the peer is already bonded on another (`known_slot`); a hidden
/// reconnect only accepts bonded peers of the slots it targeted.
pub fn place_connection(mode: &AdvMode, known_slot: Option<u8>, num_profiles: usize, connected: &[bool]) -> (r: Placement)
    requires
        connected@.len() == num_profiles,
    ensures
        ({
            let target = match *mode {
                AdvMode::VisiblePairing { slot } => Some(match known_slot {
                    Some(k) => k,
                    None => slot,
                }),
                AdvMode::HiddenReconnect { slots, .. } => match known_slot {
                    Some(k) => if slots@.contains(k) { Some(k) } else { None },
                    None => None,
                },
            };
            match target {
                None => if known_slot is Some { r == Placement::RejectNonTarget } else { r == Placement::RejectUnknown },
                Some(s) => if s as int >= num_profiles {
                    r == Placement::RejectInvalid
                } else if connected@[s as int] {
                    r == Placement::RejectDuplicate
                } else {
                    r == Placement::Slot(s)
                },
            }
        }),
{
    let target = match mode {
        AdvMode::VisiblePairing { slot } => match known_slot {
            Some(k) => k,
            None => *slot,
        },
        AdvMode::HiddenReconnect { slots, .. } => match known_slot {
            Some(k) => {
                let mut found = false;
                let mut i: usize = 0;
                while i < slots.len()
                    invariant
                        i <= slots@.len(),
                        found <==> exists|j: int| 0 <= j < i && slots@[j] == k,
                    decreases slots@.len() - i,
                {
                    if slots[i] == k {
                        found = true;
                    }
                    i = i + 1;
                }
                if !found {
                    return Placement::RejectNonTarget;
                }
                k
            },
            None => {
                return Placement::RejectUnknown;
            },
        },
    };
    if target as usize >= num_profiles {
        Placement::RejectInvalid
    } else if connected[target as usize] {
        Placement::RejectDuplicate
    } else {
        Placement::Slot(target)
    }
}

/// BLE link state shown to the rest of the firmware.
#[derive(Clone, Copy, Debug, PartialEq, Eq, Structural)]
pub enum BleState {
    Inactive,
    Advertising,
    Connected,
}

/// Connected when the active profile's connection is ready, advertising
/// while an advertisement runs, inactive otherwise.
pub fn ble_state(active_ready: bool, advertising: bool) -> (r: BleState)
    ensures
        r == if active_ready {
            BleState::Connected
        } else if advertising {
            BleState::Advertising
        } else {
            BleState::Inactive
        },
{
    if active_ready {
        BleState::Connected
    } else if advertising {
        BleState::Advertising
    } else {
        BleState::Inactive
    }
}

/// A routed report still belongs on the link: it targets the active
/// profile under the current route generation, the route is BLE, and the
/// profile is not being cleared.
pub fn routed_report_current(
    report_slot: u8,
    report_generation: u32,
    active_profile: u8,
    route_generation: u32,
    route_is_ble: bool,
    active_pending_clear: bool,
) -> (r: bool)
    ensures
        r == (report_slot == active_profile && report_generation == route_generation && route_is_ble
            && !active_pending_clear),
{
    report_slot == active_profile && report_generation == route_generation && route_is_ble && !active_pending_clear
}

/// Whether the advertisement started at `started_ms` has run out at `now_ms`.
pub fn advertising_timed_out(started_ms: u64, now_ms: u64) -> (r: bool)
    ensures
        r == (now_ms >= started_ms && now_ms - started_ms >= ADVERTISING_TIMEOUT_MS),
{
    now_ms >= started_ms && now_ms - started_ms >= ADVERTISING_TIMEOUT_MS
}

/// Whether a hidden reconnect started at `started_ms` still uses the fast
/// interval at `now_ms` (a reconnect not yet started does).
pub fn hidden_reconnect_fast(started_ms: Option<u64>, now_ms: u64) -> (r: bool)
    ensures
        r == match started_ms {
            Some(s) => !(now_ms >= s && now_ms - s >= HIDDEN_RECONNECT_FAST_MS),
            None => true,
        },
{
    match started_ms {
        Some(s) => !(now_ms >= s && now_ms - s >= HIDDEN_RECONNECT_FAST_MS),
        None => true,
    }
}

} // verus!
