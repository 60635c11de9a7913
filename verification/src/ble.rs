//! BLE policy: profile actions, bond identities, RMK advertisements, and the
//! split-central latency policy.
use vstd::prelude::*;

verus! {

/// A BLE profile switch action.
#[derive(Debug, Clone, Copy, PartialEq, Eq, Structural)]
pub enum BleProfileAction {
    Switch(u8),
    Previous,
    Next,
    ClearAndSwitch(u8),
    ClearBond,
}

/// Changes requested by a processed profile action. Clearing is deferred to
/// the connection loop so it can tear down the matching connection first.
#[derive(Debug, Clone, Copy, PartialEq, Eq, Structural)]
pub struct ProfileActionEffect {
    pub select_slot: Option<u8>,
    pub profile_changed: bool,
    pub clear_slot: Option<u8>,
    pub reject_slot: Option<u8>,
}

/// The effect that changes nothing.
pub open spec fn no_effect() -> ProfileActionEffect {
    ProfileActionEffect { select_slot: None, profile_changed: false, clear_slot: None, reject_slot: None }
}

pub open spec fn spec_profile_action_effect(action: BleProfileAction, current: u8, num_profiles: u8) -> ProfileActionEffect {
    let (select, clear): (Option<u8>, Option<u8>) = match action {
        BleProfileAction::Switch(p) => (Some(p), None),
        BleProfileAction::Previous => (Some(if current == 0 { (num_profiles - 1) as u8 } else { (current - 1) as u8 }), None),
        BleProfileAction::Next => (Some(((current + 1) % (num_profiles as int)) as u8), None),
        BleProfileAction::ClearAndSwitch(p) => (Some(p), Some(p)),
        BleProfileAction::ClearBond => (None, Some(current)),
    };
    ProfileActionEffect {
        select_slot: select,
        profile_changed: select matches Some(p) && p != current,
        clear_slot: clear,
        reject_slot: None,
    }
}

/// What a profile action asks for, given the current profile and the number
/// of profiles: previous/next wrap around, clearing keeps the selection.
pub fn profile_action_effect(action: BleProfileAction, current: u8, num_profiles: u8) -> (r: ProfileActionEffect)
    requires
        num_profiles >= 1,
        current < 255,
    ensures
        r == spec_profile_action_effect(action, current, num_profiles),
{
    let (select_slot, clear_slot) = match action {
        BleProfileAction::Switch(profile) => (Some(profile), None),
        BleProfileAction::Previous => (Some(if current == 0 { num_profiles - 1 } else { current - 1 }), None),
        BleProfileAction::Next => (Some((current + 1) % num_profiles), None),
        BleProfileAction::ClearAndSwitch(profile) => (Some(profile), Some(profile)),
        BleProfileAction::ClearBond => (None, Some(current)),
    };
    let profile_changed = match select_slot {
        Some(profile) => profile != current,
        None => false,
    };
    ProfileActionEffect { select_slot, profile_changed, clear_slot, reject_slot: None }
}

/// Apply an action: a selection outside the configured profiles is ignored.
pub fn apply_profile_action(action: BleProfileAction, current: u8, num_profiles: u8) -> (r: ProfileActionEffect)
    requires
        num_profiles >= 1,
        current < 255,
    ensures
        ({
            let e = spec_profile_action_effect(action, current, num_profiles);
            r == if e.select_slot matches Some(p) && p >= num_profiles {
                no_effect()
            } else {
                e
            }
        }),
{
    let effect = profile_action_effect(action, current, num_profiles);
    match effect.select_slot {
        Some(p) if p >= num_profiles => ProfileActionEffect {
            select_slot: None,
            profile_changed: false,
            clear_slot: None,
            reject_slot: None,
        },
        _ => effect,
    }
}

/// Clearing targets the profile it names: `ClearAndSwitch(p)` clears and
/// selects `p` whatever the current profile, and changes the profile exactly
/// when `p` is not the current one; `ClearBond` clears the current profile
/// and selects nothing; a plain `Switch(p)` selects `p` and clears nothing.
pub proof fn lemma_clear_targets_named_profile(p: u8, current: u8, num_profiles: u8)
    ensures
        ({
            let e = spec_profile_action_effect(BleProfileAction::ClearAndSwitch(p), current, num_profiles);
            &&& e.clear_slot == Some(p)
            &&& e.select_slot == Some(p)
            &&& e.profile_changed == (p != current)
            &&& e.reject_slot is None
        }),
        ({
            let e = spec_profile_action_effect(BleProfileAction::ClearBond, current, num_profiles);
            &&& e.clear_slot == Some(current)
            &&& e.select_slot is None
            &&& !e.profile_changed
        }),
        ({
            let e = spec_profile_action_effect(BleProfileAction::Switch(p), current, num_profiles);
            &&& e.clear_slot is None
            &&& e.select_slot == Some(p)
            &&& e.profile_changed == (p != current)
        }),
{
}

/// Next and Previous undo each other, and both stay within the profiles.
pub proof fn lemma_next_previous_inverse(current: u8, num_profiles: u8)
    requires
        1 <= num_profiles,
        current < num_profiles,
    ensures
        ({
            let n = spec_profile_action_effect(BleProfileAction::Next, current, num_profiles).select_slot->0;
            &&& n < num_profiles
            &&& spec_profile_action_effect(BleProfileAction::Previous, n, num_profiles).select_slot == Some(current)
        }),
        ({
            let p = spec_profile_action_effect(BleProfileAction::Previous, current, num_profiles).select_slot->0;
            &&& p < num_profiles
            &&& spec_profile_action_effect(BleProfileAction::Next, p, num_profiles).select_slot == Some(current)
        }),
{
    let n = num_profiles as int;
    if current + 1 < num_profiles {
        vstd::arithmetic::div_mod::lemma_small_mod((current + 1) as nat, n as nat);
    } else {
        vstd::arithmetic::div_mod::lemma_mod_self_0(n);
    }
    if current > 0 {
        vstd::arithmetic::div_mod::lemma_small_mod(current as nat, n as nat);
    } else {
        vstd::arithmetic::div_mod::lemma_mod_self_0(n);
    }
}

/// A bond identity can survive an encrypted reconnect: a public address, a
/// static random address, or a resolvable private address with its IRK.
pub open spec fn spec_usable_bond_identity(addr_kind: u8, addr: [u8; 6], has_irk: bool) -> bool {
    if addr_kind & 1 == 0 {
        true
    } else {
        let top = addr[5] & 0xC0;
        top == 0xC0 || (top == 0x40 && has_irk)
    }
}

/// Whether a peer identity is usable as a persistent bond.
pub fn is_usable_bond_identity(addr_kind: u8, addr: [u8; 6], has_irk: bool) -> (r: bool)
    ensures
        r == spec_usable_bond_identity(addr_kind, addr, has_irk),
{
    if addr_kind & 1 == 0 {
        return true;
    }
    let top = addr[5] & 0xC0;
    if top == 0xC0 {
        true
    } else if top == 0x40 {
        has_irk
    } else {
        false
    }
}

/// Maximum number of bytes a varint encoding of a value of `size` bytes takes.
pub fn varint_max(size: usize) -> (r: usize)
    requires
        size * 8 + 6 <= usize::MAX,
    ensures
        r == (size * 8 + 6) / 7,
{
    (size * 8 + 6) / 7
}

/// A remembered split peer.
#[derive(Debug, Clone, Copy)]
pub struct PeerAddress {
    pub peer_id: u8,
    pub is_valid: bool,
    pub address: [u8; 6],
}

impl PeerAddress {
    pub fn new(peer_id: u8, is_valid: bool, address: [u8; 6]) -> (r: Self)
        ensures
            r.peer_id == peer_id,
            r.is_valid == is_valid,
            r.address == address,
    {
        PeerAddress { peer_id, is_valid, address }
    }
}

/// Company identifier marking an advertisement as RMK's own.
pub const RMK_ADV_COMPANY_ID: u16 = 0x5253;
/// First payload byte of an RMK advertisement: a split peripheral.
pub const SPLIT_PERIPHERAL: u8 = 0;
/// First payload byte of an RMK advertisement: a dongle seeking a keyboard.
pub const DONGLE_SEEKING: u8 = 1;

/// An advertisement, named for the peer meant to answer it.
#[derive(Debug, Clone, Copy, PartialEq, Eq, Structural)]
pub enum AdvKind {
    /// A peer that already knows us (directed; carries no data).
    Directed,
    /// Any BLE host, which finds us as a standard HID keyboard.
    Host,
    /// The split central that owns peripheral `id`.
    SplitPeripheral { id: u8 },
    /// An RMK dongle whose pairing window is open.
    DongleSeeking,
}

/// The RMK kind named by a manufacturer-data payload, if this firmware knows it.
pub open spec fn spec_rmk_payload(payload: Seq<u8>) -> Option<AdvKind> {
    if payload.len() == 2 && payload[0] == SPLIT_PERIPHERAL {
        Some(AdvKind::SplitPeripheral { id: payload[1] })
    } else if payload.len() == 1 && payload[0] == DONGLE_SEEKING {
        Some(AdvKind::DongleSeeking)
    } else {
        None
    }
}

/// Read an RMK advertisement out of scan-report AD structures: each is a
/// length byte covering type and data. The first manufacturer-specific
/// structure (type 0xFF) with RMK's company id decides; others are skipped.
pub open spec fn spec_decode_adv(data: Seq<u8>) -> Option<AdvKind>
    decreases data.len(),
{
    if data.len() == 0 {
        None
    } else {
        let len = data[0] as int;
        if len > data.len() - 1 {
            None
        } else {
            let structure = data.subrange(1, 1 + len);
            if structure.len() >= 3 && structure[0] == 0xFF && structure[1] == 0x53 && structure[2]
                == 0x52 {
                spec_rmk_payload(structure.skip(3))
            } else {
                spec_decode_adv(data.skip(1 + len))
            }
        }
    }
}

/// Read an RMK advertisement out of a scan report, or `None` if the report is
/// not one of ours (foreign company, unknown kind, or malformed).
pub fn decode_adv(adv_data: &[u8]) -> (r: Option<AdvKind>)
    ensures
        r == spec_decode_adv(adv_data@),
{
    let mut pos: usize = 0;
    assert(adv_data@.skip(0) =~= adv_data@);
    while pos < adv_data.len()
        invariant
            pos <= adv_data@.len(),
            spec_decode_adv(adv_data@) == spec_decode_adv(adv_data@.skip(pos as int)),
        decreases adv_data@.len() - pos,
    {
        let ghost rest = adv_data@.skip(pos as int);
        let len = adv_data[pos] as usize;
        if len > adv_data.len() - pos - 1 {
            return None;
        }
        let start = pos + 1;
        assert(rest.subrange(1, 1 + len) =~= adv_data@.subrange(start as int, start + len));
        if len >= 3 && adv_data[start] == 0xFF && adv_data[start + 1] == 0x53 && adv_data[start + 2] == 0x52 {
            let plen = len - 3;
            let p = start + 3;
            assert(rest.subrange(1, 1 + len).skip(3) =~= adv_data@.subrange(p as int, p + plen));
            if plen == 2 && adv_data[p] == SPLIT_PERIPHERAL {
                return Some(AdvKind::SplitPeripheral { id: adv_data[p + 1] });
            } else if plen == 1 && adv_data[p] == DONGLE_SEEKING {
                return Some(AdvKind::DongleSeeking);
            } else {
                return None;
            }
        }
        assert(rest.skip(1 + len) =~= adv_data@.skip(start + len));
        pos = start + len;
    }
    assert(adv_data@.skip(pos as int) =~= Seq::<u8>::empty());
    None
}

/// Advertising radio parameters.
#[derive(Debug, Clone, Copy, PartialEq, Eq, Structural)]
pub enum Phy {
    Le1M,
    Le2M,
}

/// Interval parameters of one advertising phase (all times in milliseconds).
#[derive(Debug, Clone, Copy, PartialEq, Eq, Structural)]
pub struct AdvPhase {
    pub phy: Phy,
    pub interval_ms: u64,
    /// Time left in this phase.
    pub remaining_ms: u64,
}

/// Configured advertising intervals for hosts.
#[derive(Debug, Clone, Copy, PartialEq, Eq, Structural)]
pub struct AdvIntervals {
    pub fast_ms: u16,
    pub slow_ms: u16,
}

pub open spec fn spec_phase(kind: AdvKind, iv: AdvIntervals, elapsed: u64, timeout: u64, fast_timeout: u64) -> Option<AdvPhase> {
    if elapsed >= timeout {
        None
    } else {
        let fast = kind == AdvKind::Host && iv.fast_ms != iv.slow_ms && elapsed < fast_timeout;
        let end = if fast {
            if fast_timeout < timeout { fast_timeout } else { timeout }
        } else {
            timeout
        };
        Some(AdvPhase {
            phy: if kind == AdvKind::Host { Phy::Le2M } else { Phy::Le1M },
            interval_ms: if kind == AdvKind::Host {
                if fast { iv.fast_ms as u64 } else { iv.slow_ms as u64 }
            } else {
                50
            },
            remaining_ms: (end - elapsed) as u64,
        })
    }
}

/// The advertising phase after `elapsed` of a `timeout`-long attempt: hosts
/// get the fast interval during the fast window, then back off to the slow
/// one without extending the deadline; RMK peers always use 50 ms.
pub fn phase(kind: AdvKind, iv: AdvIntervals, elapsed: u64, timeout: u64, fast_timeout: u64) -> (r: Option<AdvPhase>)
    ensures
        r == spec_phase(kind, iv, elapsed, timeout, fast_timeout),
        r matches Some(p) ==> elapsed + p.remaining_ms <= timeout,
{
    if elapsed >= timeout {
        return None;
    }
    let host = match kind {
        AdvKind::Host => true,
        _ => false,
    };
    let fast = host && iv.fast_ms != iv.slow_ms && elapsed < fast_timeout;
    let end = if fast {
        if fast_timeout < timeout { fast_timeout } else { timeout }
    } else {
        timeout
    };
    let (phy, interval_ms) = if host {
        (Phy::Le2M, if fast { iv.fast_ms as u64 } else { iv.slow_ms as u64 })
    } else {
        (Phy::Le1M, 50u64)
    };
    Some(AdvPhase { phy, interval_ms, remaining_ms: end - elapsed })
}

/// Runtime active-mode split BLE latency policy.
#[derive(Debug, Clone, Copy, PartialEq, Eq, Structural)]
pub struct LatencyPolicy {
    pub powered: u16,
    pub battery: u16,
    pub override_latency: Option<u16>,
}

/// Current policy inputs and selected active-mode latency.
#[derive(Debug, Clone, Copy, PartialEq, Eq, Structural)]
pub struct LatencyState {
    pub policy: LatencyPolicy,
    pub powered: bool,
    pub effective: u16,
}

/// A latency at or above the BLE limit was requested.
#[derive(Debug, Clone, Copy, PartialEq, Eq, Structural)]
pub struct InvalidLatency;

pub open spec fn spec_effective(p: LatencyPolicy, powered: bool) -> u16 {
    match p.override_latency {
        Some(v) => v,
        None => if powered { p.powered } else { p.battery },
    }
}

pub open spec fn spec_valid(p: LatencyPolicy) -> bool {
    p.powered < 500 && p.battery < 500 && (p.override_latency matches Some(v) ==> v < 500)
}

impl LatencyPolicy {
    /// The override if any, else the value for the current power source.
    pub fn effective(self, powered: bool) -> (r: u16)
        ensures
            r == spec_effective(self, powered),
    {
        match self.override_latency {
            Some(v) => v,
            None => if powered { self.powered } else { self.battery },
        }
    }

    /// Every latency is below the BLE limit of 500.
    pub fn is_valid(self) -> (r: bool)
        ensures
            r == spec_valid(self),
    {
        self.powered < 500 && self.battery < 500 && match self.override_latency {
            Some(v) => v < 500,
            None => true,
        }
    }
}

/// The latency state for `policy` while externally powered or not.
pub fn latency_state(policy: LatencyPolicy, powered: bool) -> (r: LatencyState)
    ensures
        r == (LatencyState { policy, powered, effective: spec_effective(policy, powered) }),
{
    LatencyState { policy, powered, effective: policy.effective(powered) }
}

/// Replace the volatile latency policy; a policy with a value at or above the
/// BLE limit is refused and the current one kept.
pub fn set_latency_policy(current: &mut LatencyPolicy, policy: LatencyPolicy) -> (r: Result<(), InvalidLatency>)
    ensures
        r is Ok <==> spec_valid(policy),
        r is Ok ==> *final(current) == policy,
        r is Err ==> *final(current) == *old(current),
{
    if !policy.is_valid() {
        return Err(InvalidLatency);
    }
    *current = policy;
    Ok(())
}

/// Every policy the setter accepts yields a latency below the BLE limit.
pub proof fn lemma_valid_policy_effective_in_range(p: LatencyPolicy, powered: bool)
    requires
        spec_valid(p),
    ensures
        spec_effective(p, powered) < 500,
{
}

} // verus!
