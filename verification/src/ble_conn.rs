//! Decisions of one host connection: advertising parameters and the
//! filter-accept list for reconnection, the pairing verdict, GATT writes,
//! the connection-parameter schedule and battery notifications.
use vstd::prelude::*;
use crate::ble::spec_usable_bond_identity;
use crate::ble::is_usable_bond_identity;
use crate::bond_table::PeerIdentity;

verus! {

/// Advertising interval of visible pairing (ms).
pub const VISIBLE_INTERVAL_MS: u64 = 200;
/// Advertising interval of a fast hidden reconnect (ms).
pub const HIDDEN_FAST_INTERVAL_MS: u64 = 20;
/// Advertising interval of a slow hidden reconnect (ms).
pub const HIDDEN_SLOW_INTERVAL_MS: u64 = 1000;
/// Delay before each connection-parameter request (ms).
pub const CONN_PARAM_DELAY_MS: u64 = 5_000;
/// Delay before the first battery report (ms).
pub const FIRST_BATTERY_REPORT_MS: u64 = 2_000;
/// Period of unsolicited battery reports (ms).
pub const BATTERY_REPORT_PERIOD_MS: u64 = 1_800_000;
/// A key press this recent (s) lets a battery change be reported at once.
pub const RECENT_KEY_SECS: u32 = 60;

/// Interval (ms) and whether only the filter-accept list may connect.
pub fn advertising_params(visible: bool, fast: bool) -> (r: (u64, bool))
    ensures
        r == if visible {
            (VISIBLE_INTERVAL_MS, false)
        } else if fast {
            (HIDDEN_FAST_INTERVAL_MS, true)
        } else {
            (HIDDEN_SLOW_INTERVAL_MS, true)
        },
{
    if visible {
        (VISIBLE_INTERVAL_MS, false)
    } else if fast {
        (HIDDEN_FAST_INTERVAL_MS, true)
    } else {
        (HIDDEN_SLOW_INTERVAL_MS, true)
    }
}

pub open spec fn usable(id: PeerIdentity) -> bool {
    spec_usable_bond_identity(id.addr_kind, id.addr, id.irk is Some)
}

/// The filter-accept list for a hidden reconnect: the usable bond
/// identities of the target slots in order (`bonds[i]` is the bond of
/// `slots[i]`), at most `list_size` (the controller's) and `capacity` entries.
pub open spec fn spec_accept_list(bonds: Seq<Option<PeerIdentity>>, list_size: nat, capacity: nat) -> Seq<PeerIdentity>
    decreases bonds.len(),
{
    if bonds.len() == 0 {
        Seq::empty()
    } else {
        let prev = spec_accept_list(bonds.drop_last(), list_size, capacity);
        match bonds.last() {
            Some(id) => if prev.len() < list_size && prev.len() < capacity && usable(id) {
                prev.push(id)
            } else {
                prev
            },
            None => prev,
        }
    }
}

/// Build the filter-accept list of a hidden reconnect.
pub fn accept_list(bonds: &[Option<PeerIdentity>], list_size: u8, capacity: usize) -> (r: Vec<PeerIdentity>)
    ensures
        r@ == spec_accept_list(bonds@, list_size as nat, capacity as nat),
{
    let mut out: Vec<PeerIdentity> = Vec::new();
    let mut i: usize = 0;
    assert(bonds@.take(0) =~= Seq::<Option<PeerIdentity>>::empty());
    while i < bonds.len()
        invariant
            i <= bonds@.len(),
            out@ == spec_accept_list(bonds@.take(i as int), list_size as nat, capacity as nat),
        decreases bonds@.len() - i,
    {
        assert(bonds@.take(i + 1).drop_last() =~= bonds@.take(i as int));
        assert(bonds@.take(i + 1).last() == bonds@[i as int]);
        match bonds[i] {
            Some(id) => {
                if out.len() < list_size as usize && out.len() < capacity && is_usable_bond_identity(
                    id.addr_kind,
                    id.addr,
                    id.irk.is_some(),
                ) {
                    out.push(id);
                }
            },
            None => {},
        }
        i = i + 1;
    }
    assert(bonds@.take(i as int) =~= bonds@);
    out
}

/// What the bond of a completed pairing permits.
#[derive(Clone, Copy, Debug)]
pub enum PairingVerdict {
    /// Store the bond for the slot.
    Store,
    /// The bond cannot support encrypted reconnection: disconnect and
    /// retry visible pairing, dropping this identity.
    Invalid(PeerIdentity),
    /// Pairing completed without a persistent bond.
    NoBond,
}

/// The facts of a pairing bond the verdict reads.
#[derive(Clone, Copy, Debug)]
pub struct PairingBond {
    pub identity: PeerIdentity,
    pub encrypted: bool,
    pub is_bonded: bool,
}

/// Judge a completed pairing: the link and the bond must be encrypted, the
/// bond persistent, and the identity usable after reconnect.
pub fn pairing_verdict(link_encrypted: bool, bond: Option<PairingBond>) -> (r: PairingVerdict)
    ensures
        (match bond {
            None => r is NoBond,
            Some(b) => if link_encrypted && b.encrypted && b.is_bonded && usable(b.identity) {
                r is Store
            } else {
                r matches PairingVerdict::Invalid(id) && id == b.identity
            },
        }),
{
    match bond {
        None => PairingVerdict::NoBond,
        Some(b) => {
            if link_encrypted && b.encrypted && b.is_bonded && is_usable_bond_identity(
                b.identity.addr_kind,
                b.identity.addr,
                b.identity.irk.is_some(),
            ) {
                PairingVerdict::Store
            } else {
                PairingVerdict::Invalid(b.identity)
            }
        },
    }
}

/// Which attribute a GATT write targets.
#[derive(Clone, Copy, Debug, PartialEq, Eq, Structural)]
pub enum WriteTarget {
    /// The keyboard output report (LED indicators).
    KeyboardOutput,
    /// A client characteristic configuration descriptor.
    Cccd,
    /// A HID control point.
    ControlPoint,
    /// The host-protocol output characteristic.
    HostOutput,
    Other,
}

/// What a GATT write does.
#[derive(Clone, Copy, Debug, PartialEq, Eq, Structural)]
pub enum WriteEffect {
    /// Refused: the link is not encrypted.
    InsufficientEncryption,
    /// New LED indicator bits.
    Led(u8),
    /// A notification subscription changed.
    CccdUpdated,
    /// The host asked the keyboard to suspend (`true`) or resume.
    Sleep(bool),
    /// A host-protocol packet from the active profile.
    HostPacket,
    /// Accepted and ignored.
    Ignored,
}

/// Size of a host-protocol packet.
pub const HOST_PACKET_LEN: usize = 32;

/// Decide a GATT write of `data` (its full length) to `target` on the
/// connection of `slot` while `active_profile` is selected. Only the active
/// profile's control point suspends or resumes the split halves.
pub fn gatt_write_effect(target: WriteTarget, encrypted: bool, data: &[u8], slot: u8, active_profile: u8) -> (r: WriteEffect)
    ensures
        r == if !encrypted {
            WriteEffect::InsufficientEncryption
        } else {
            match target {
                WriteTarget::KeyboardOutput => if data@.len() == 1 { WriteEffect::Led(data@[0]) } else { WriteEffect::Ignored },
                WriteTarget::Cccd => WriteEffect::CccdUpdated,
                WriteTarget::ControlPoint => if data@.len() == 1 && active_profile == slot && data@[0] <= 1 {
                    WriteEffect::Sleep(data@[0] == 0)
                } else {
                    WriteEffect::Ignored
                },
                WriteTarget::HostOutput => if data@.len() == HOST_PACKET_LEN && active_profile == slot {
                    WriteEffect::HostPacket
                } else {
                    WriteEffect::Ignored
                },
                WriteTarget::Other => WriteEffect::Ignored,
            }
        },
{
    if !encrypted {
        return WriteEffect::InsufficientEncryption;
    }
    match target {
        WriteTarget::KeyboardOutput => if data.len() == 1 { WriteEffect::Led(data[0]) } else { WriteEffect::Ignored },
        WriteTarget::Cccd => WriteEffect::CccdUpdated,
        WriteTarget::ControlPoint => if data.len() == 1 && active_profile == slot && data[0] <= 1 {
            WriteEffect::Sleep(data[0] == 0)
        } else {
            WriteEffect::Ignored
        },
        WriteTarget::HostOutput => if data.len() == HOST_PACKET_LEN && active_profile == slot {
            WriteEffect::HostPacket
        } else {
            WriteEffect::Ignored
        },
        WriteTarget::Other => WriteEffect::Ignored,
    }
}

/// A stored CCCD value enables notifications: at least two bytes, bit 0 of
/// the little-endian value set.
pub fn cccd_notify_enabled(value: &[u8]) -> (r: bool)
    ensures
        r == (value@.len() >= 2 && value@[0] & 1 == 1),
{
    value.len() >= 2 && value[0] & 1 == 1
}

pub open spec fn spec_conn_params_interval_us(stage: u8) -> Option<u64> {
    if stage == 0 { Some(15_000u64) } else if stage == 1 { Some(7_500u64) } else { None }
}

/// The connection parameters requested at each stage: 15 ms, then 7.5 ms
/// (both in microseconds), latency 30, supervision timeout 5 s.
pub fn conn_params_interval_us(stage: u8) -> (r: Option<u64>)
    ensures
        r == spec_conn_params_interval_us(stage),
{
    if stage == 0 {
        Some(15_000)
    } else if stage == 1 {
        Some(7_500)
    } else {
        None
    }
}

/// The connection-parameter schedule of one connection.
#[derive(Clone, Copy, Debug, PartialEq, Eq, Structural)]
pub struct ConnParamSchedule {
    pub stage: u8,
    pub next_at_ms: u64,
}

impl ConnParamSchedule {
    /// A fresh connection: the first request is due five seconds after connecting.
    pub fn new(now_ms: u64) -> (r: Self)
        requires
            now_ms + CONN_PARAM_DELAY_MS <= u64::MAX,
        ensures
            r == (ConnParamSchedule { stage: 0, next_at_ms: (now_ms + CONN_PARAM_DELAY_MS) as u64 }),
    {
        ConnParamSchedule { stage: 0, next_at_ms: now_ms + CONN_PARAM_DELAY_MS }
    }

    /// The interval to request now, if one is due; the next one follows
    /// five seconds later, and after two stages none.
    pub fn due(&mut self, now_ms: u64) -> (r: Option<u64>)
        requires
            now_ms + CONN_PARAM_DELAY_MS <= u64::MAX,
        ensures
            old(self).stage >= 2 || now_ms < old(self).next_at_ms ==> r is None && *final(self) == *old(self),
            !(old(self).stage >= 2 || now_ms < old(self).next_at_ms) ==> r == spec_conn_params_interval_us(
                old(self).stage,
            ) && *final(self) == (ConnParamSchedule {
                stage: (old(self).stage + 1) as u8,
                next_at_ms: (now_ms + CONN_PARAM_DELAY_MS) as u64,
            }),
    {
        if self.stage >= 2 || now_ms < self.next_at_ms {
            return None;
        }
        let r = conn_params_interval_us(self.stage);
        self.stage = self.stage + 1;
        self.next_at_ms = now_ms + CONN_PARAM_DELAY_MS;
        r
    }
}

/// When a connection reports its battery level.
#[derive(Clone, Copy, Debug, PartialEq, Eq, Structural)]
pub struct BatteryNotifier {
    pub first_report_at_ms: u64,
    pub first_report_sent: bool,
    pub next_timeout_report_at_ms: u64,
}

impl BatteryNotifier {
    /// A notifier for a connection made at `now_ms`.
    pub fn new(now_ms: u64) -> (r: Self)
        requires
            now_ms + BATTERY_REPORT_PERIOD_MS <= u64::MAX,
        ensures
            r == (BatteryNotifier {
                first_report_at_ms: (now_ms + FIRST_BATTERY_REPORT_MS) as u64,
                first_report_sent: false,
                next_timeout_report_at_ms: (now_ms + BATTERY_REPORT_PERIOD_MS) as u64,
            }),
    {
        BatteryNotifier {
            first_report_at_ms: now_ms + FIRST_BATTERY_REPORT_MS,
            first_report_sent: false,
            next_timeout_report_at_ms: now_ms + BATTERY_REPORT_PERIOD_MS,
        }
    }

    /// Decide a poll at `now_ms`. `latest` is the newest battery change since
    /// the last poll, `current` the battery's level now (`None` when not
    /// known), `last_key_secs` the time of the last key press. Returns the
    /// level to notify. The first report waits two seconds and is retried
    /// until a level is known; after it, a change is reported while keys
    /// were pressed within a minute, and a report is forced every half
    /// hour unless the keyboard sleeps.
    pub fn poll(&mut self, now_ms: u64, latest: Option<Option<u8>>, current: Option<u8>, last_key_secs: Option<u32>, sleeping: bool) -> (r: Option<u8>)
        requires
            now_ms + BATTERY_REPORT_PERIOD_MS <= u64::MAX,
        ensures
            !old(self).first_report_sent ==> {
                if now_ms < old(self).first_report_at_ms {
                    r is None && *final(self) == *old(self)
                } else {
                    let level = match latest {
                        Some(l) => l,
                        None => current,
                    };
                    r == level && *final(self) == (BatteryNotifier { first_report_sent: level is Some, ..*old(self) })
                }
            },
            old(self).first_report_sent ==> {
                let timeout_due = now_ms >= old(self).next_timeout_report_at_ms && !sleeping;
                let recent = match last_key_secs {
                    Some(t) => ((now_ms / 1000) as u32 as int) - t < RECENT_KEY_SECS,
                    None => false,
                };
                &&& final(self).next_timeout_report_at_ms == if timeout_due {
                    (now_ms + BATTERY_REPORT_PERIOD_MS) as u64
                } else {
                    old(self).next_timeout_report_at_ms
                }
                &&& final(self).first_report_sent == old(self).first_report_sent
                &&& final(self).first_report_at_ms == old(self).first_report_at_ms
                &&& r == if (latest is Some && recent) || timeout_due {
                    match latest {
                        Some(l) => l,
                        None => current,
                    }
                } else {
                    None
                }
            },
    {
        if !self.first_report_sent {
            if now_ms < self.first_report_at_ms {
                return None;
            }
            let level = match latest {
                Some(l) => l,
                None => current,
            };
            if level.is_some() {
                self.first_report_sent = true;
            }
            return level;
        }
        let timeout_due = now_ms >= self.next_timeout_report_at_ms && !sleeping;
        if timeout_due {
            self.next_timeout_report_at_ms = now_ms + BATTERY_REPORT_PERIOD_MS;
        }
        let now_secs = (now_ms / 1000) as u32;
        let recent = match last_key_secs {
            Some(t) => now_secs.saturating_sub(t) < RECENT_KEY_SECS,
            None => false,
        };
        if (latest.is_some() && recent) || timeout_due {
            match latest {
                Some(l) => l,
                None => current,
            }
        } else {
            None
        }
    }
}

} // verus!
