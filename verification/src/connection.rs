//! Transport state transitions: which queue to release when the active
//! transport changes, and the preferred transport.
use vstd::prelude::*;
use crate::report_channel::Transport;
use crate::ble_host::BleState;

verus! {

/// The effects of a committed connection-status change: the previously
/// active transport's queue is released when the active transport changed,
/// and the change is published.
pub fn status_change_release(prev_active: Option<Transport>, new_active: Option<Transport>) -> (r: Option<Transport>)
    ensures
        r == if prev_active != new_active { prev_active } else { None },
{
    match (prev_active, new_active) {
        (Some(Transport::Usb), Some(Transport::Usb)) => None,
        (Some(Transport::Ble), Some(Transport::Ble)) => None,
        (p, _) => p,
    }
}

/// The other transport, for the preference toggle.
pub fn toggled_preference(t: Transport) -> (r: Transport)
    ensures
        r != t,
{
    match t {
        Transport::Usb => Transport::Ble,
        Transport::Ble => Transport::Usb,
    }
}

/// The preferred transport at startup: the stored one, else BLE on boards
/// without USB and USB otherwise.
pub fn preferred_at_startup(stored: Option<Transport>, no_usb: bool) -> (r: Transport)
    ensures
        r == match stored {
            Some(t) => t,
            None => if no_usb { Transport::Ble } else { Transport::Usb },
        },
{
    match stored {
        Some(t) => t,
        None => if no_usb { Transport::Ble } else { Transport::Usb },
    }
}

/// BLE status: the selected profile and its link state.
#[derive(Clone, Copy, Debug, PartialEq, Eq, Structural)]
pub struct BleStatus {
    pub profile: u8,
    pub state: BleState,
}

/// Switching profiles always drops the link state back to inactive; the
/// connection loop re-advertises and updates it from there.
pub fn switch_profile(status: &mut BleStatus, profile: u8)
    ensures
        *final(status) == (BleStatus { profile, state: BleState::Inactive }),
{
    status.profile = profile;
    status.state = BleState::Inactive;
}

/// Setting the link state keeps the selected profile.
pub fn set_ble_state(status: &mut BleStatus, state: BleState)
    ensures
        *final(status) == (BleStatus { state, ..*old(status) }),
{
    status.state = state;
}

} // verus!
