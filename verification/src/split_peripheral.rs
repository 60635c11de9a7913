//! What a split peripheral does with the messages its central sends.
use vstd::prelude::*;

verus! {

/// A message from the central, as far as the peripheral acts on it.
#[derive(Clone, Copy, Debug, PartialEq, Eq, Structural)]
pub enum CentralMessage {
    /// The central's connection status, by its encoded bits.
    ConnectionStatus(u32),
    /// Forget the stored central address.
    ClearPeer,
    /// Host LED indicator bits.
    KeyboardIndicator(u8),
    /// The active layer.
    Layer(u8),
    /// Words per minute, for a display.
    Wpm(u16),
    /// Modifier bits, for a display.
    Modifier(u8),
    /// The central's sleep state, for a display.
    SleepState(bool),
    /// Anything else.
    Other,
}

/// What the peripheral does.
#[derive(Clone, Copy, Debug, PartialEq, Eq, Structural)]
pub enum PeripheralAction {
    /// Adopt the central's connection status.
    SetStatus(u32),
    /// Store an invalid (cleared) peer address.
    ClearPeerAddress,
    /// Publish an LED indicator event.
    PublishIndicator(u8),
    /// Publish a layer change.
    PublishLayer(u8),
    PublishWpm(u16),
    PublishModifier(u8),
    PublishSleep(bool),
    Ignore,
}

/// Decide a message. Clearing the peer needs BLE with storage; the display
/// messages need a display.
pub fn peripheral_action(message: CentralMessage, ble_storage: bool, display: bool) -> (r: PeripheralAction)
    ensures
        r == match message {
            CentralMessage::ConnectionStatus(s) => PeripheralAction::SetStatus(s),
            CentralMessage::ClearPeer => if ble_storage { PeripheralAction::ClearPeerAddress } else { PeripheralAction::Ignore },
            CentralMessage::KeyboardIndicator(b) => PeripheralAction::PublishIndicator(b),
            CentralMessage::Layer(l) => PeripheralAction::PublishLayer(l),
            CentralMessage::Wpm(w) => if display { PeripheralAction::PublishWpm(w) } else { PeripheralAction::Ignore },
            CentralMessage::Modifier(m) => if display { PeripheralAction::PublishModifier(m) } else { PeripheralAction::Ignore },
            CentralMessage::SleepState(s) => if display { PeripheralAction::PublishSleep(s) } else { PeripheralAction::Ignore },
            CentralMessage::Other => PeripheralAction::Ignore,
        },
{
    match message {
        CentralMessage::ConnectionStatus(s) => PeripheralAction::SetStatus(s),
        CentralMessage::ClearPeer => if ble_storage { PeripheralAction::ClearPeerAddress } else { PeripheralAction::Ignore },
        CentralMessage::KeyboardIndicator(b) => PeripheralAction::PublishIndicator(b),
        CentralMessage::Layer(l) => PeripheralAction::PublishLayer(l),
        CentralMessage::Wpm(w) => if display { PeripheralAction::PublishWpm(w) } else { PeripheralAction::Ignore },
        CentralMessage::Modifier(m) => if display { PeripheralAction::PublishModifier(m) } else { PeripheralAction::Ignore },
        CentralMessage::SleepState(s) => if display { PeripheralAction::PublishSleep(s) } else { PeripheralAction::Ignore },
        CentralMessage::Other => PeripheralAction::Ignore,
    }
}

} // verus!
