use rmk::ad::{build_adv, host_advertisement, AdvPayload, LEGACY_ADV_LEN};
use rmk::ble::{
    apply_profile_action, decode_adv, is_usable_bond_identity, latency_state, phase, profile_action_effect,
    set_latency_policy, varint_max, AdvIntervals, AdvKind, BleProfileAction, InvalidLatency, LatencyPolicy, Phy,
};
use rmk::ble_host::BleState;
use rmk::ble_name::{render, BleNameStore};
use rmk::connection::{set_ble_state, switch_profile, BleStatus};

const NUM_PROFILES: u8 = 4;
const INTERVALS: AdvIntervals = AdvIntervals { fast_ms: 30, slow_ms: 200 };

fn fits(kind: AdvKind, name: &str) -> bool {
    matches!(build_adv(kind, name.as_bytes()), AdvPayload::Data(_) | AdvPayload::Directed)
}

fn bytes(kind: AdvKind) -> Vec<u8> {
    match build_adv(kind, b"") {
        AdvPayload::Data(v) => v,
        _ => panic!("no data"),
    }
}

#[test]
fn host_backs_off_without_extending_the_deadline() {
    let total = 300_000;
    let fast = 5_000;
    let p = phase(AdvKind::Host, INTERVALS, 2_000, total, fast).unwrap();
    assert_eq!(p.interval_ms, 30);
    assert_eq!(p.phy, Phy::Le2M);
    assert_eq!(p.remaining_ms, 3_000);
    let p = phase(AdvKind::Host, INTERVALS, fast, total, fast).unwrap();
    assert_eq!(p.interval_ms, 200);
    assert_eq!(p.remaining_ms, 295_000);
    assert!(phase(AdvKind::Host, INTERVALS, total, total, fast).is_none());
    assert!(phase(AdvKind::Host, INTERVALS, total + fast, total, fast).is_none());
}

#[test]
fn short_deadlines_and_disabled_fast_window() {
    let total = 2_000;
    let p = phase(AdvKind::Host, INTERVALS, 1_000, total, 5_000).unwrap();
    assert_eq!(p.remaining_ms, 1_000);
    let p = phase(AdvKind::Host, INTERVALS, 0, total, 0).unwrap();
    assert_eq!(p.interval_ms, 200);
    assert_eq!(p.remaining_ms, total);
    assert!(phase(AdvKind::Host, INTERVALS, 0, 0, 5_000).is_none());
}

#[test]
fn equal_intervals_skip_the_fast_window() {
    let same = AdvIntervals { fast_ms: 100, slow_ms: 100 };
    let p = phase(AdvKind::Host, same, 0, 10_000, 5_000).unwrap();
    assert_eq!((p.interval_ms, p.remaining_ms), (100, 10_000));
}

#[test]
fn split_and_dongle_do_not_back_off() {
    for kind in [AdvKind::SplitPeripheral { id: 0 }, AdvKind::DongleSeeking, AdvKind::Directed] {
        for elapsed in [0u64, 5_000] {
            let total = 30_000;
            let p = phase(kind, INTERVALS, elapsed, total, 5_000).unwrap();
            assert_eq!(p.interval_ms, 50);
            assert_eq!(p.phy, Phy::Le1M);
            assert_eq!(p.remaining_ms, total - elapsed);
        }
    }
}

#[test]
fn every_advertisement_fits_the_legacy_budget() {
    assert!(fits(AdvKind::SplitPeripheral { id: 0xFF }, ""));
    assert!(fits(AdvKind::DongleSeeking, ""));
    // Flags, UUIDs and appearance leave 16 bytes for the name.
    assert!(fits(AdvKind::Host, "0123456789abcdef"));
    assert!(!fits(AdvKind::Host, "0123456789abcdefg"));
}

#[test]
fn every_rmk_kind_round_trips_through_an_advertisement() {
    for kind in [AdvKind::SplitPeripheral { id: 2 }, AdvKind::DongleSeeking] {
        let mut buf = bytes(kind);
        assert!(buf.len() <= LEGACY_ADV_LEN);
        buf.resize(31, 0);
        assert_eq!(decode_adv(&buf), Some(kind));
    }
}

#[test]
fn decode_skips_preceding_structures() {
    // An 18-byte 128-bit service UUID list sits between the flags and the MSD.
    let mut data = [0u8; 27];
    data[..5].copy_from_slice(&[0x02, 0x01, 0x06, 0x11, 0x07]);
    data[21..].copy_from_slice(&[0x05, 0xFF, 0x53, 0x52, 0x00, 0x02]);
    assert_eq!(decode_adv(&data), Some(AdvKind::SplitPeripheral { id: 2 }));
}

#[test]
fn decode_rejects_foreign_unknown_and_malformed_reports() {
    // Another vendor's company id.
    assert_eq!(decode_adv(&[0x02, 0x01, 0x04, 0x05, 0xFF, 0x4C, 0x00, 0x00, 0x02]), None);
    // A kind a newer firmware knows and this one does not.
    assert_eq!(decode_adv(&[0x04, 0xFF, 0x53, 0x52, 0x7F]), None);
    // A length running past the end of the report.
    assert_eq!(decode_adv(&[0x02, 0x01, 0x04, 0x09, 0xFF, 0x53]), None);
}

#[test]
fn split_advertisement_bytes_are_exact() {
    assert_eq!(
        bytes(AdvKind::SplitPeripheral { id: 3 }),
        vec![2, 1, 0x04, 5, 0xFF, 0x53, 0x52, 0, 3]
    );
    assert_eq!(bytes(AdvKind::DongleSeeking), vec![2, 1, 0x04, 4, 0xFF, 0x53, 0x52, 1]);
    assert!(matches!(build_adv(AdvKind::Directed, b"x"), AdvPayload::Directed));
}

#[test]
fn host_advertisement_names_the_keyboard_or_moves_the_name() {
    let short = host_advertisement(b"RMK", true);
    assert_eq!(
        short.adv_data,
        vec![2, 1, 0x06, 5, 3, 0x0F, 0x18, 0x12, 0x18, 4, 9, b'R', b'M', b'K', 3, 0x19, 0xC1, 0x03]
    );
    assert!(short.scan_data.is_empty());

    let long = host_advertisement(b"0123456789abcdefg", true);
    assert_eq!(long.adv_data, vec![2, 1, 0x06, 5, 3, 0x0F, 0x18, 0x12, 0x18, 3, 0x19, 0xC1, 0x03]);
    let mut expected = vec![18, 9];
    expected.extend_from_slice(b"0123456789abcdefg");
    assert_eq!(long.scan_data, expected);

    let very_long = [b'x'; 40];
    let a = host_advertisement(&very_long, true);
    assert_eq!(a.scan_data.len(), 31);
    assert_eq!(&a.scan_data[..2], &[30, 8]);

    let hidden = host_advertisement(b"RMK", false);
    assert_eq!(hidden.adv_data, vec![2, 1, 0x04]);
    assert!(hidden.scan_data.is_empty());
}

#[test]
fn set_ble_state_preserves_current_profile() {
    let mut status = BleStatus { profile: 0, state: BleState::Inactive };
    switch_profile(&mut status, 2);
    set_ble_state(&mut status, BleState::Advertising);
    assert_eq!(status, BleStatus { profile: 2, state: BleState::Advertising });
}

#[test]
fn set_ble_profile_clears_unknown_slot_state() {
    let mut status = BleStatus { profile: 0, state: BleState::Inactive };
    switch_profile(&mut status, 1);
    set_ble_state(&mut status, BleState::Connected);
    switch_profile(&mut status, 3);
    assert_eq!(status, BleStatus { profile: 3, state: BleState::Inactive });
}

fn identity(kind: u8, random_type: u8) -> [u8; 6] {
    let _ = kind;
    let mut address = [0u8; 6];
    address[5] = random_type;
    address
}

#[test]
fn bond_identity_requires_a_stable_or_resolvable_address() {
    const PUBLIC: u8 = 0;
    const RANDOM: u8 = 1;
    assert!(is_usable_bond_identity(PUBLIC, identity(PUBLIC, 0), false));
    assert!(is_usable_bond_identity(RANDOM, identity(RANDOM, 0b1100_0000), false));
    assert!(!is_usable_bond_identity(RANDOM, identity(RANDOM, 0b0100_0000), false));
    assert!(is_usable_bond_identity(RANDOM, identity(RANDOM, 0b0100_0000), true));
    assert!(!is_usable_bond_identity(RANDOM, identity(RANDOM, 0), true));
    assert!(!is_usable_bond_identity(RANDOM, identity(RANDOM, 0b1000_0000), true));
}

#[test]
fn selecting_current_profile_does_not_report_a_change() {
    let effect = profile_action_effect(BleProfileAction::Switch(2), 2, NUM_PROFILES);
    assert_eq!(effect.select_slot, Some(2));
    assert!(!effect.profile_changed);
    assert_eq!(effect.clear_slot, None);
}

#[test]
fn clearing_current_profile_still_requests_a_clear() {
    let effect = profile_action_effect(BleProfileAction::ClearAndSwitch(2), 2, NUM_PROFILES);
    assert_eq!(effect.select_slot, Some(2));
    assert!(!effect.profile_changed);
    assert_eq!(effect.clear_slot, Some(2));
}

#[test]
fn next_and_previous_wrap_and_undo_each_other() {
    for current in 0..NUM_PROFILES {
        let next = profile_action_effect(BleProfileAction::Next, current, NUM_PROFILES).select_slot.unwrap();
        assert!(next < NUM_PROFILES);
        assert_eq!(profile_action_effect(BleProfileAction::Previous, next, NUM_PROFILES).select_slot, Some(current));
    }
    assert_eq!(profile_action_effect(BleProfileAction::Next, 3, NUM_PROFILES).select_slot, Some(0));
    assert_eq!(profile_action_effect(BleProfileAction::Previous, 0, NUM_PROFILES).select_slot, Some(3));
    let clear = profile_action_effect(BleProfileAction::ClearBond, 1, NUM_PROFILES);
    assert_eq!((clear.select_slot, clear.clear_slot, clear.profile_changed), (None, Some(1), false));
}

#[test]
fn switching_beyond_the_profiles_is_ignored() {
    let e = apply_profile_action(BleProfileAction::Switch(7), 1, NUM_PROFILES);
    assert_eq!((e.select_slot, e.clear_slot, e.profile_changed, e.reject_slot), (None, None, false, None));
    let e = apply_profile_action(BleProfileAction::Switch(3), 1, NUM_PROFILES);
    assert_eq!((e.select_slot, e.profile_changed), (Some(3), true));
}

#[test]
fn renders_one_based_slot_tokens() {
    let mut store = BleNameStore::new(32);
    store.replace(b"G{slot}-{slot}".to_vec());
    assert_eq!(store.render(0), b"G1-1".to_vec());
    assert_eq!(store.render(3), b"G4-4".to_vec());
}

#[test]
fn leaves_fixed_names_unchanged() {
    let mut store = BleNameStore::new(32);
    store.replace(b"Glove80".to_vec());
    assert_eq!(store.render(2), b"Glove80".to_vec());
}

#[test]
fn rejects_empty_runtime_name() {
    let mut store = BleNameStore::new(32);
    assert!(store.set(Vec::new()).is_err());
}

#[test]
fn name_store_seeds_once_and_reports_changes() {
    let mut store = BleNameStore::new(4);
    assert_eq!(store.current(), b"RMK".to_vec());
    // Cut at the last whole character that fits: "é" is two bytes.
    store.initialize("abcé".as_bytes());
    assert_eq!(store.current(), b"abc".to_vec());
    store.initialize(b"zz");
    assert_eq!(store.current(), b"abc".to_vec());
    assert_eq!(store.set(b"abc".to_vec()), Ok(false));
    assert_eq!(store.set(b"k{slot}".to_vec()), Ok(true));
    assert_eq!(store.render(9), b"k10".to_vec());
    store.restore(Vec::new());
    assert_eq!(store.current(), b"k{slot}".to_vec());
    assert_eq!(render(b"{slot}{slo", 254), b"255{slo".to_vec());
}

#[test]
fn policy_selects_power_source_unless_overridden() {
    let policy = LatencyPolicy { powered: 0, battery: 4, override_latency: None };
    assert_eq!(policy.effective(true), 0);
    assert_eq!(policy.effective(false), 4);
    assert_eq!(LatencyPolicy { override_latency: Some(2), ..policy }.effective(true), 2);
    assert_eq!(LatencyPolicy { override_latency: Some(2), ..policy }.effective(false), 2);
}

#[test]
fn policy_rejects_values_outside_the_ble_limit() {
    let valid = LatencyPolicy { powered: 499, battery: 499, override_latency: Some(499) };
    assert!(valid.is_valid());
    assert!(!LatencyPolicy { powered: 500, ..valid }.is_valid());
    assert!(!LatencyPolicy { battery: 500, ..valid }.is_valid());
    assert!(!LatencyPolicy { override_latency: Some(500), ..valid }.is_valid());
}

#[test]
fn refused_policies_keep_the_current_one() {
    let mut current = LatencyPolicy { powered: 0, battery: 4, override_latency: None };
    let bad = LatencyPolicy { powered: 500, battery: 4, override_latency: None };
    assert_eq!(set_latency_policy(&mut current, bad), Err(InvalidLatency));
    assert_eq!(current.battery, 4);
    let good = LatencyPolicy { powered: 10, battery: 20, override_latency: None };
    assert_eq!(set_latency_policy(&mut current, good), Ok(()));
    assert_eq!(latency_state(current, false).effective, 20);
    assert_eq!(latency_state(current, true).effective, 10);
}

#[test]
fn varint_length_bound() {
    assert_eq!(varint_max(1), 2);
    assert_eq!(varint_max(2), 3);
    assert_eq!(varint_max(4), 5);
}
