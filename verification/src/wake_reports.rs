//! Reports that wake a sleeping BLE host.
//!
//! While the active profile's bonded host is not connected, a capture window
//! is armed for that profile and its current generation. Reports produced
//! meanwhile are held (the newest few, each until both the window and its own
//! lifetime run out) and flushed in order once the host reconnects under the
//! same generation.
use vstd::prelude::*;
use crate::ble_host::WAKE_REPORT_CAPTURE_MS;

verus! {

/// Reports held at once; a new one displaces the oldest.
pub const PENDING_WAKE_REPORTS: usize = 4;

/// A capture window armed for `slot` at `generation`.
#[derive(Clone, Copy, Debug, PartialEq, Eq, Structural)]
pub struct WakeCapture {
    pub slot: u8,
    pub generation: u32,
    pub expires_at_ms: u64,
}

/// A held report, for the host of `slot` at `generation`.
#[derive(Clone, Copy, Debug)]
pub struct PendingReport<R> {
    pub slot: u8,
    pub generation: u32,
    pub expires_at_ms: u64,
    pub report: R,
}

/// The capture armed when the active profile's host is not connected: only
/// for a bonded profile, for [`WAKE_REPORT_CAPTURE_MS`].
pub fn arm_capture(active_profile: u8, bonded: bool, generation: u32, now_ms: u64) -> (r: Option<WakeCapture>)
    requires
        now_ms + WAKE_REPORT_CAPTURE_MS <= u64::MAX,
    ensures
        r == if bonded {
            Some(WakeCapture { slot: active_profile, generation, expires_at_ms: (now_ms + WAKE_REPORT_CAPTURE_MS) as u64 })
        } else {
            None
        },
{
    if bonded {
        Some(WakeCapture { slot: active_profile, generation, expires_at_ms: now_ms + WAKE_REPORT_CAPTURE_MS })
    } else {
        None
    }
}

/// The capture is still open for `slot` at `generation`.
pub open spec fn spec_capture_live(capture: Option<WakeCapture>, slot: u8, generation: u32, now_ms: u64) -> bool {
    capture matches Some(c) && c.slot == slot && c.generation == generation && now_ms < c.expires_at_ms
}

/// Whether the capture is still open for `slot` at `generation`.
pub fn capture_live(capture: Option<WakeCapture>, slot: u8, generation: u32, now_ms: u64) -> (r: bool)
    ensures
        r == spec_capture_live(capture, slot, generation, now_ms),
{
    match capture {
        Some(c) => c.slot == slot && c.generation == generation && now_ms < c.expires_at_ms,
        None => false,
    }
}

/// `s` without the reports expired at `now_ms`, in order.
pub open spec fn unexpired<R>(s: Seq<PendingReport<R>>, now_ms: u64) -> Seq<PendingReport<R>>
    decreases s.len(),
{
    if s.len() == 0 {
        s
    } else if now_ms < s.last().expires_at_ms {
        unexpired(s.drop_last(), now_ms).push(s.last())
    } else {
        unexpired(s.drop_last(), now_ms)
    }
}

/// The position of the first report for `slot` at `generation`.
pub open spec fn first_for<R>(s: Seq<PendingReport<R>>, slot: u8, generation: u32, r: Option<usize>) -> bool {
    match r {
        Some(i) => i < s.len() && s[i as int].slot == slot && s[i as int].generation == generation
            && forall|j: int| 0 <= j < i ==> !(s[j].slot == slot && s[j].generation == generation),
        None => forall|j: int| 0 <= j < s.len() ==> !(s[j].slot == slot && s[j].generation == generation),
    }
}

/// The reports held for a host that is not connected yet.
pub struct WakeReports<R> {
    pending: Vec<PendingReport<R>>,
}

impl<R: Copy> WakeReports<R> {
    pub closed spec fn spec_pending(&self) -> Seq<PendingReport<R>> {
        self.pending@
    }

    pub open spec fn wf(&self) -> bool {
        self.spec_pending().len() <= PENDING_WAKE_REPORTS
    }

    /// Nothing held.
    pub fn new() -> (r: Self)
        ensures
            r.wf(),
            r.spec_pending() == Seq::<PendingReport<R>>::empty(),
    {
        WakeReports { pending: Vec::new() }
    }

    /// Hold `report`; when full, the oldest gives way.
    pub fn hold(&mut self, report: PendingReport<R>)
        requires
            old(self).wf(),
        ensures
            final(self).wf(),
            final(self).spec_pending() == if old(self).spec_pending().len() >= PENDING_WAKE_REPORTS {
                old(self).spec_pending().skip(1).push(report)
            } else {
                old(self).spec_pending().push(report)
            },
    {
        if self.pending.len() >= PENDING_WAKE_REPORTS {
            let ghost before = self.pending@;
            let _ = self.pending.remove(0);
            assert(self.pending@ =~= before.skip(1));
        }
        self.pending.push(report);
    }

    /// Take a report captured at `captured_at_ms` while no transport was
    /// active: it is held when the capture is open for the current profile at
    /// that profile's current generation and the report has not outlived
    /// its own lifetime; it then expires with the earlier of the two.
    pub fn take_captured(
        &mut self,
        capture: Option<WakeCapture>,
        current_profile: u8,
        slot_generations: &[u32],
        now_ms: u64,
        captured_at_ms: u64,
        report: R,
    ) -> (held: bool)
        requires
            old(self).wf(),
            captured_at_ms + WAKE_REPORT_CAPTURE_MS <= u64::MAX,
            capture matches Some(c) ==> (c.slot as int) < slot_generations@.len(),
        ensures
            final(self).wf(),
            ({
                let report_expires = (captured_at_ms + WAKE_REPORT_CAPTURE_MS) as u64;
                let ok = capture matches Some(c) && c.slot == current_profile && c.generation
                    == slot_generations@[c.slot as int] && now_ms < c.expires_at_ms && now_ms < report_expires;
                &&& held == ok
                &&& !ok ==> final(self).spec_pending() == old(self).spec_pending()
                &&& ok ==> ({
                    let c = capture->0;
                    let held = PendingReport {
                        slot: c.slot,
                        generation: c.generation,
                        expires_at_ms: if c.expires_at_ms < report_expires { c.expires_at_ms } else { report_expires },
                        report,
                    };
                    final(self).spec_pending() == if old(self).spec_pending().len() >= PENDING_WAKE_REPORTS {
                        old(self).spec_pending().skip(1).push(held)
                    } else {
                        old(self).spec_pending().push(held)
                    }
                })
            }),
    {
        let report_expires = captured_at_ms + WAKE_REPORT_CAPTURE_MS;
        match capture {
            Some(c) => {
                if c.slot == current_profile && c.generation == slot_generations[c.slot as usize]
                    && now_ms < c.expires_at_ms && now_ms < report_expires {
                    let expires_at_ms = if c.expires_at_ms < report_expires { c.expires_at_ms } else { report_expires };
                    self.hold(PendingReport { slot: c.slot, generation: c.generation, expires_at_ms, report });
                    true
                } else {
                    false
                }
            },
            None => false,
        }
    }

    /// Drop every report expired at `now_ms`, keeping the rest in order.
    pub fn retain_unexpired(&mut self, now_ms: u64)
        requires
            old(self).wf(),
        ensures
            final(self).wf(),
            final(self).spec_pending() == unexpired(old(self).spec_pending(), now_ms),
    {
        let ghost s = self.pending@;
        let mut kept: Vec<PendingReport<R>> = Vec::new();
        let mut i: usize = 0;
        proof {
            assert(s.take(0) =~= Seq::<PendingReport<R>>::empty());
        }
        while i < self.pending.len()
            invariant
                s == self.pending@,
                s.len() <= PENDING_WAKE_REPORTS,
                i <= s.len(),
                kept@ == unexpired(s.take(i as int), now_ms),
                kept@.len() <= i,
            decreases s.len() - i,
        {
            let p = self.pending[i];
            proof {
                assert(s.take(i + 1).drop_last() =~= s.take(i as int));
                assert(s.take(i + 1).last() == p);
            }
            if now_ms < p.expires_at_ms {
                kept.push(p);
            }
            i = i + 1;
        }
        proof {
            assert(s.take(i as int) =~= s);
        }
        self.pending = kept;
    }

    /// Remove and return the oldest report for `slot` at `generation`.
    pub fn take_next_for(&mut self, slot: u8, generation: u32) -> (r: Option<PendingReport<R>>)
        requires
            old(self).wf(),
        ensures
            final(self).wf(),
            exists|idx: Option<usize>| {
                &&& #[trigger] first_for(old(self).spec_pending(), slot, generation, idx)
                &&& match idx {
                    Some(i) => r == Some(old(self).spec_pending()[i as int]) && final(self).spec_pending()
                        == old(self).spec_pending().remove(i as int),
                    None => r is None && final(self).spec_pending() == old(self).spec_pending(),
                }
            },
    {
        let mut i: usize = 0;
        while i < self.pending.len()
            invariant
                self.pending@ == old(self).spec_pending(),
                old(self).spec_pending().len() <= PENDING_WAKE_REPORTS,
                i <= self.pending@.len(),
                forall|j: int| 0 <= j < i ==> !(self.pending@[j].slot == slot && self.pending@[j].generation
                    == generation),
            decreases self.pending@.len() - i,
        {
            if self.pending[i].slot == slot && self.pending[i].generation == generation {
                let p = self.pending.remove(i);
                assert(first_for(old(self).spec_pending(), slot, generation, Some(i)));
                return Some(p);
            }
            i = i + 1;
        }
        assert(first_for(old(self).spec_pending(), slot, generation, None));
        None
    }

    /// Whether any report is held for `slot` at `generation`.
    pub fn has_pending_for(&self, slot: u8, generation: u32) -> (r: bool)
        ensures
            r == exists|j: int| 0 <= j < self.spec_pending().len() && (#[trigger] self.spec_pending()[j]).slot == slot
                && self.spec_pending()[j].generation == generation,
    {
        let mut i: usize = 0;
        while i < self.pending.len()
            invariant
                i <= self.pending@.len(),
                forall|j: int| 0 <= j < i ==> !(self.pending@[j].slot == slot && self.pending@[j].generation
                    == generation),
            decreases self.pending@.len() - i,
        {
            if self.pending[i].slot == slot && self.pending[i].generation == generation {
                assert(self.spec_pending()[i as int].slot == slot);
                return true;
            }
            i = i + 1;
        }
        false
    }

    /// Drop everything held.
    pub fn clear(&mut self)
        ensures
            final(self).wf(),
            final(self).spec_pending() == Seq::<PendingReport<R>>::empty(),
    {
        self.pending.clear();
    }

    /// Number of reports held.
    pub fn len(&self) -> (r: usize)
        ensures
            r == self.spec_pending().len(),
    {
        self.pending.len()
    }
}

} // verus!
