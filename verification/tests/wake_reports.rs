use rmk::ble_host::WAKE_REPORT_CAPTURE_MS;
use rmk::wake_reports::{arm_capture, capture_live, PendingReport, WakeCapture, WakeReports, PENDING_WAKE_REPORTS};

fn held(slot: u8, generation: u32, expires_at_ms: u64, report: u8) -> PendingReport<u8> {
    PendingReport { slot, generation, expires_at_ms, report }
}

#[test]
fn capture_is_armed_only_for_a_bonded_profile() {
    let c = arm_capture(2, true, 7, 1_000).unwrap();
    assert_eq!(c, WakeCapture { slot: 2, generation: 7, expires_at_ms: 1_000 + WAKE_REPORT_CAPTURE_MS });
    assert!(arm_capture(2, false, 7, 1_000).is_none());
}

#[test]
fn capture_lives_for_its_slot_and_generation_until_it_expires() {
    let c = arm_capture(1, true, 3, 0);
    assert!(capture_live(c, 1, 3, 0));
    assert!(capture_live(c, 1, 3, WAKE_REPORT_CAPTURE_MS - 1));
    assert!(!capture_live(c, 1, 3, WAKE_REPORT_CAPTURE_MS));
    assert!(!capture_live(c, 0, 3, 10));
    assert!(!capture_live(c, 1, 4, 10));
    assert!(!capture_live(None, 1, 3, 10));
}

#[test]
fn captured_report_expires_with_the_earlier_deadline() {
    let mut w: WakeReports<u8> = WakeReports::new();
    let c = arm_capture(0, true, 5, 0);
    let generations = [5u32, 0, 0];
    // Captured at 500: its own lifetime ends at 2500, the window at 2000.
    assert!(w.take_captured(c, 0, &generations, 600, 500, 9));
    assert_eq!(w.len(), 1);
    let p = w.take_next_for(0, 5).unwrap();
    assert_eq!(p.expires_at_ms, WAKE_REPORT_CAPTURE_MS);
    assert_eq!(p.report, 9);
    assert_eq!(w.len(), 0);
}

#[test]
fn captured_report_is_refused_when_out_of_window() {
    let mut w: WakeReports<u8> = WakeReports::new();
    let c = arm_capture(0, true, 5, 0);
    // Another profile is active now.
    assert!(!w.take_captured(c, 1, &[5, 5], 10, 10, 1));
    // The profile's generation moved on.
    assert!(!w.take_captured(c, 0, &[6, 5], 10, 10, 1));
    // The window closed.
    assert!(!w.take_captured(c, 0, &[5, 5], WAKE_REPORT_CAPTURE_MS, 10, 1));
    // The report outlived itself while the window is still open.
    let later = arm_capture(0, true, 5, 1_000);
    assert!(capture_live(later, 0, 5, 2_500));
    assert!(!w.take_captured(later, 0, &[5], 2_500, 0, 1));
    // No capture at all.
    assert!(!w.take_captured(None, 0, &[5], 10, 10, 1));
}

#[test]
fn oldest_report_gives_way_when_full() {
    let mut w: WakeReports<u8> = WakeReports::new();
    for i in 0..(PENDING_WAKE_REPORTS as u8 + 2) {
        w.hold(held(0, 1, 100, i));
    }
    assert_eq!(w.len(), PENDING_WAKE_REPORTS);
    let mut out = Vec::new();
    while let Some(p) = w.take_next_for(0, 1) {
        out.push(p.report);
    }
    assert_eq!(out, vec![2, 3, 4, 5]);
}

#[test]
fn expired_reports_are_dropped_in_order() {
    let mut w: WakeReports<u8> = WakeReports::new();
    w.hold(held(0, 1, 50, 1));
    w.hold(held(0, 1, 200, 2));
    w.hold(held(0, 1, 100, 3));
    w.hold(held(0, 1, 300, 4));
    w.retain_unexpired(100);
    assert_eq!(w.len(), 2);
    assert_eq!(w.take_next_for(0, 1).unwrap().report, 2);
    assert_eq!(w.take_next_for(0, 1).unwrap().report, 4);
    assert!(w.take_next_for(0, 1).is_none());
}

#[test]
fn reports_are_flushed_only_to_their_own_host() {
    let mut w: WakeReports<u8> = WakeReports::new();
    w.hold(held(0, 1, 100, 1));
    w.hold(held(1, 1, 100, 2));
    w.hold(held(0, 2, 100, 3));
    w.hold(held(0, 1, 100, 4));
    assert!(w.has_pending_for(0, 1));
    assert!(w.has_pending_for(1, 1));
    assert!(!w.has_pending_for(1, 2));
    assert_eq!(w.take_next_for(0, 1).unwrap().report, 1);
    assert_eq!(w.take_next_for(0, 1).unwrap().report, 4);
    assert!(w.take_next_for(0, 1).is_none());
    assert!(!w.has_pending_for(0, 1));
    assert_eq!(w.len(), 2);
    w.clear();
    assert_eq!(w.len(), 0);
    assert!(!w.has_pending_for(1, 1));
}
