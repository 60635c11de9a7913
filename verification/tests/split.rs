use rmk::split_ble::{
    all_found, central_conn_params, on_peripheral_found, sleep_step, split_peripheral_from_report, FoundPeer,
    LinkParams, SleepEvent, MIN_SUPERVISION_US, SPLIT_INTERVAL_US,
};
use rmk::split_peripheral::{peripheral_action, CentralMessage, PeripheralAction};

fn report(id: u8) -> Vec<u8> {
    let mut r = vec![0x02, 0x01, 0x06, 0x11, 0x07];
    r.extend_from_slice(&[70, 153, 101, 152, 54, 53, 10, 191, 7, 75, 229, 24, 170, 251, 213, 77]);
    r.extend_from_slice(&[0x04, 0xFF, 0x18, 0xE1, id]);
    r
}

#[test]
fn scan_reports_name_their_peripheral() {
    assert_eq!(split_peripheral_from_report(&report(1)), Some(1));
    let mut other = report(1);
    other[7] ^= 1;
    assert_eq!(split_peripheral_from_report(&other), None);
    assert_eq!(split_peripheral_from_report(&report(1)[..20]), None);
}

#[test]
fn found_peripherals_fill_empty_slots_once() {
    let mut addrs = vec![None, None];
    assert_eq!(on_peripheral_found(&mut addrs, 0, [1; 6]), FoundPeer::Stored);
    assert!(!all_found(&addrs));
    assert_eq!(on_peripheral_found(&mut addrs, 0, [1; 6]), FoundPeer::Known);
    assert_eq!(on_peripheral_found(&mut addrs, 0, [2; 6]), FoundPeer::Ignored);
    assert_eq!(on_peripheral_found(&mut addrs, 5, [2; 6]), FoundPeer::Ignored);
    assert_eq!(on_peripheral_found(&mut addrs, 1, [2; 6]), FoundPeer::Stored);
    assert!(all_found(&addrs));
    assert_eq!(addrs, vec![Some([1; 6]), Some([2; 6])]);
}

#[test]
fn supervision_outlasts_the_longest_silence() {
    let p = central_conn_params(0);
    assert_eq!((p.interval_us, p.max_latency, p.supervision_timeout_us), (SPLIT_INTERVAL_US, 0, MIN_SUPERVISION_US));
    let p = central_conn_params(400);
    assert_eq!(p.supervision_timeout_us, 3 * 7_500 * 401);
    assert!(p.supervision_timeout_us > SPLIT_INTERVAL_US * 401);
}

#[test]
fn sleep_manager_steps() {
    assert_eq!(sleep_step(true, false, SleepEvent::Timeout), (true, Some(LinkParams::Sleep)));
    assert_eq!(sleep_step(true, false, SleepEvent::Signal(true)), (true, Some(LinkParams::Sleep)));
    assert_eq!(sleep_step(true, false, SleepEvent::Signal(false)), (false, None));
    assert_eq!(sleep_step(true, false, SleepEvent::LatencyChanged), (false, Some(LinkParams::Active)));
    assert_eq!(sleep_step(true, true, SleepEvent::Signal(false)), (false, Some(LinkParams::Active)));
    assert_eq!(sleep_step(true, true, SleepEvent::Timeout), (true, None));
    assert_eq!(sleep_step(true, true, SleepEvent::LatencyChanged), (true, None));
    assert_eq!(sleep_step(false, false, SleepEvent::Timeout), (false, None));
    assert_eq!(sleep_step(false, false, SleepEvent::LatencyChanged), (false, Some(LinkParams::Active)));
}

#[test]
fn peripheral_acts_on_central_messages() {
    assert_eq!(peripheral_action(CentralMessage::ConnectionStatus(7), false, false), PeripheralAction::SetStatus(7));
    assert_eq!(peripheral_action(CentralMessage::ClearPeer, true, false), PeripheralAction::ClearPeerAddress);
    assert_eq!(peripheral_action(CentralMessage::ClearPeer, false, false), PeripheralAction::Ignore);
    assert_eq!(peripheral_action(CentralMessage::Layer(2), false, false), PeripheralAction::PublishLayer(2));
    assert_eq!(peripheral_action(CentralMessage::KeyboardIndicator(2), false, false), PeripheralAction::PublishIndicator(2));
    assert_eq!(peripheral_action(CentralMessage::Wpm(60), false, true), PeripheralAction::PublishWpm(60));
    assert_eq!(peripheral_action(CentralMessage::Wpm(60), false, false), PeripheralAction::Ignore);
    assert_eq!(peripheral_action(CentralMessage::SleepState(true), false, true), PeripheralAction::PublishSleep(true));
    assert_eq!(peripheral_action(CentralMessage::Modifier(3), false, true), PeripheralAction::PublishModifier(3));
    assert_eq!(peripheral_action(CentralMessage::Other, true, true), PeripheralAction::Ignore);
}
