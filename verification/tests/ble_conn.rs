use rmk::ble_conn::{
    accept_list, advertising_params, cccd_notify_enabled, conn_params_interval_us, gatt_write_effect, pairing_verdict,
    BatteryNotifier, ConnParamSchedule, PairingBond, PairingVerdict, WriteEffect, WriteTarget,
    BATTERY_REPORT_PERIOD_MS, HIDDEN_FAST_INTERVAL_MS, HIDDEN_SLOW_INTERVAL_MS, VISIBLE_INTERVAL_MS,
};
use rmk::bond_table::PeerIdentity;

fn public(last: u8) -> PeerIdentity {
    PeerIdentity { addr_kind: 0, addr: [1, 2, 3, 4, 5, last], irk: None }
}

fn private_without_irk() -> PeerIdentity {
    PeerIdentity { addr_kind: 1, addr: [1, 2, 3, 4, 5, 0x40], irk: None }
}

#[test]
fn advertising_parameters_by_mode() {
    assert_eq!(advertising_params(true, true), (VISIBLE_INTERVAL_MS, false));
    assert_eq!(advertising_params(false, true), (HIDDEN_FAST_INTERVAL_MS, true));
    assert_eq!(advertising_params(false, false), (HIDDEN_SLOW_INTERVAL_MS, true));
}

#[test]
fn accept_list_takes_usable_identities_up_to_the_limits() {
    let bonds = [Some(public(1)), None, Some(private_without_irk()), Some(public(2)), Some(public(3))];
    assert_eq!(accept_list(&bonds, 8, 8), vec![public(1), public(2), public(3)]);
    assert_eq!(accept_list(&bonds, 2, 8), vec![public(1), public(2)]);
    assert_eq!(accept_list(&bonds, 8, 1), vec![public(1)]);
}

#[test]
fn pairing_verdicts() {
    let good = PairingBond { identity: public(1), encrypted: true, is_bonded: true };
    assert!(matches!(pairing_verdict(true, Some(good)), PairingVerdict::Store));
    assert!(matches!(pairing_verdict(false, Some(good)), PairingVerdict::Invalid(id) if id == public(1)));
    let unusable = PairingBond { identity: private_without_irk(), ..good };
    assert!(matches!(pairing_verdict(true, Some(unusable)), PairingVerdict::Invalid(_)));
    let transient = PairingBond { is_bonded: false, ..good };
    assert!(matches!(pairing_verdict(true, Some(transient)), PairingVerdict::Invalid(_)));
    assert!(matches!(pairing_verdict(true, None), PairingVerdict::NoBond));
}

#[test]
fn gatt_writes() {
    assert_eq!(gatt_write_effect(WriteTarget::KeyboardOutput, false, &[2], 0, 0), WriteEffect::InsufficientEncryption);
    assert_eq!(gatt_write_effect(WriteTarget::KeyboardOutput, true, &[2], 0, 0), WriteEffect::Led(2));
    assert_eq!(gatt_write_effect(WriteTarget::KeyboardOutput, true, &[2, 3], 0, 0), WriteEffect::Ignored);
    assert_eq!(gatt_write_effect(WriteTarget::Cccd, true, &[1, 0], 1, 0), WriteEffect::CccdUpdated);
    assert_eq!(gatt_write_effect(WriteTarget::ControlPoint, true, &[0], 1, 1), WriteEffect::Sleep(true));
    assert_eq!(gatt_write_effect(WriteTarget::ControlPoint, true, &[1], 1, 1), WriteEffect::Sleep(false));
    assert_eq!(gatt_write_effect(WriteTarget::ControlPoint, true, &[0], 1, 0), WriteEffect::Ignored);
    assert_eq!(gatt_write_effect(WriteTarget::ControlPoint, true, &[2], 1, 1), WriteEffect::Ignored);
    assert_eq!(gatt_write_effect(WriteTarget::HostOutput, true, &[0; 32], 2, 2), WriteEffect::HostPacket);
    assert_eq!(gatt_write_effect(WriteTarget::HostOutput, true, &[0; 32], 2, 1), WriteEffect::Ignored);
    assert_eq!(gatt_write_effect(WriteTarget::HostOutput, true, &[0; 31], 2, 2), WriteEffect::Ignored);
    assert_eq!(gatt_write_effect(WriteTarget::Other, true, &[], 0, 0), WriteEffect::Ignored);
}

#[test]
fn cccd_values() {
    assert!(cccd_notify_enabled(&[1, 0]));
    assert!(!cccd_notify_enabled(&[2, 0]));
    assert!(!cccd_notify_enabled(&[1]));
}

#[test]
fn connection_parameters_are_requested_in_two_stages() {
    assert_eq!(conn_params_interval_us(2), None);
    let mut s = ConnParamSchedule::new(1_000);
    assert_eq!(s.due(5_999), None);
    assert_eq!(s.due(6_000), Some(15_000));
    assert_eq!(s.due(6_001), None);
    assert_eq!(s.due(11_000), Some(7_500));
    assert_eq!(s.due(100_000), None);
    assert_eq!(s.stage, 2);
}

#[test]
fn battery_reports() {
    let mut n = BatteryNotifier::new(0);
    // Nothing before two seconds; then the first known level.
    assert_eq!(n.poll(1_999, Some(Some(80)), Some(80), None, false), None);
    assert_eq!(n.poll(2_000, None, None, None, false), None);
    assert!(!n.first_report_sent);
    assert_eq!(n.poll(2_100, None, Some(79), None, false), Some(79));
    // A change is reported while keys were pressed recently.
    assert_eq!(n.poll(10_000, Some(Some(78)), Some(78), Some(5), false), Some(78));
    assert_eq!(n.poll(100_000, Some(Some(77)), Some(77), Some(5), false), None);
    // The periodic report, unless asleep.
    assert_eq!(n.poll(BATTERY_REPORT_PERIOD_MS, None, Some(70), None, true), None);
    assert_eq!(n.poll(BATTERY_REPORT_PERIOD_MS, None, Some(70), None, false), Some(70));
    assert_eq!(n.next_timeout_report_at_ms, 2 * BATTERY_REPORT_PERIOD_MS);
}
