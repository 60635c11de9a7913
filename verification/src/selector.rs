//! Wired/BLE split-transport selection.
//!
//! The board's cable-detect input chooses between the wired link and BLE
//! unless a volatile force pins one of them; boards without automatic
//! selection run both.
use vstd::prelude::*;

verus! {

/// No force: follow the debounced cable-detect input.
pub const FORCE_AUTO: u8 = 0;
/// Pin the split transport to the wired link.
pub const FORCE_WIRED: u8 = 1;
/// Pin the split transport to BLE.
pub const FORCE_BLE: u8 = 2;

/// Selection state of one half. The force never exceeds [`FORCE_BLE`].
#[derive(Clone, Copy, Debug)]
pub struct SelectorState {
    auto_enabled: bool,
    wired_selected: bool,
    forced: u8,
    wired_entries: u32,
}

/// The selection state as values.
pub struct SelectorView {
    /// The board runs the automatic wired/BLE policy.
    pub auto_enabled: bool,
    /// The debounced cable-detect input.
    pub wired_selected: bool,
    /// One of the `FORCE_*` modes.
    pub forced: u8,
    /// Times the effective selection entered the wired state.
    pub wired_entries: u32,
}

impl SelectorState {
    pub closed spec fn view(&self) -> SelectorView {
        SelectorView {
            auto_enabled: self.auto_enabled,
            wired_selected: self.wired_selected,
            forced: self.forced,
            wired_entries: self.wired_entries,
        }
    }

    #[verifier::type_invariant]
    closed spec fn force_known(&self) -> bool {
        self.forced <= FORCE_BLE
    }
}

/// A state every selector value is in: the force is one of the known modes.
pub open spec fn wf(s: SelectorView) -> bool {
    s.forced <= FORCE_BLE
}

/// Whether the effective selection is wired: the force if any, else the detect input.
pub open spec fn spec_effective_wired(s: SelectorView) -> bool {
    if s.forced == FORCE_WIRED {
        true
    } else if s.forced == FORCE_BLE {
        false
    } else {
        s.wired_selected
    }
}

/// The wired link is in use: always without automatic selection.
pub open spec fn spec_wired_selected(s: SelectorView) -> bool {
    !s.auto_enabled || spec_effective_wired(s)
}

/// BLE is in use: always without automatic selection.
pub open spec fn spec_wireless_selected(s: SelectorView) -> bool {
    !s.auto_enabled || !spec_effective_wired(s)
}

/// Count one more wired entry when the effective selection turned wired.
pub open spec fn count_entry(entries: u32, was: bool, now: bool) -> u32 {
    if !was && now {
        if entries == u32::MAX {
            0
        } else {
            (entries + 1) as u32
        }
    } else {
        entries
    }
}

/// State after the detect input reports `wired`.
pub open spec fn after_update(s: SelectorView, wired: bool) -> SelectorView {
    let next = SelectorView { wired_selected: wired, ..s };
    SelectorView {
        wired_entries: count_entry(s.wired_entries, spec_effective_wired(s), spec_effective_wired(next)),
        ..next
    }
}

/// State after forcing `mode` (clamped to the known modes).
pub open spec fn after_force(s: SelectorView, mode: u8) -> SelectorView {
    let next = SelectorView { forced: if mode < FORCE_BLE { mode } else { FORCE_BLE }, ..s };
    SelectorView {
        wired_entries: count_entry(s.wired_entries, spec_effective_wired(s), spec_effective_wired(next)),
        ..next
    }
}

/// State after automatic selection is enabled with the detect input at `wired`.
pub open spec fn after_initialize(s: SelectorView, wired: bool) -> SelectorView {
    let next = SelectorView { auto_enabled: true, wired_selected: wired, ..s };
    SelectorView {
        wired_entries: count_entry(s.wired_entries, spec_effective_wired(s), spec_effective_wired(next)),
        ..next
    }
}

/// Selection at boot: no automatic policy, no force, nothing detected.
pub fn new() -> (r: SelectorState)
    ensures
        r@ == (SelectorView { auto_enabled: false, wired_selected: false, forced: FORCE_AUTO, wired_entries: 0 }),
{
    SelectorState { auto_enabled: false, wired_selected: false, forced: FORCE_AUTO, wired_entries: 0 }
}

/// Enable automatic selection with the first detected cable state; a wired
/// entry is counted when the effective selection turns wired. Returns the
/// detected state to broadcast to waiters.
pub fn initialize(s: &mut SelectorState, wired: bool) -> (announce: bool)
    ensures
        announce == wired,
        final(s)@ == after_initialize(old(s)@, wired),
        wf(final(s)@),
{
    proof {
        use_type_invariant(&*s);
    }
    let was = effective_wired(s);
    let now = if s.forced == FORCE_WIRED {
        true
    } else if s.forced == FORCE_BLE {
        false
    } else {
        wired
    };
    let entries = if !was && now { s.wired_entries.wrapping_add(1) } else { s.wired_entries };
    *s = SelectorState { auto_enabled: true, wired_selected: wired, forced: s.forced, wired_entries: entries };
    wired
}

/// How many times the effective selection entered the wired state.
pub fn wired_entries(s: &SelectorState) -> (r: u32)
    ensures
        r == s@.wired_entries,
{
    s.wired_entries
}

/// Whether the effective selection is wired.
pub fn effective_wired(s: &SelectorState) -> (r: bool)
    ensures
        r == spec_effective_wired(s@),
{
    if s.forced == FORCE_WIRED {
        true
    } else if s.forced == FORCE_BLE {
        false
    } else {
        s.wired_selected
    }
}

/// Record a new debounced detect state. Returns the new effective selection
/// when it changed (to broadcast), `None` otherwise.
pub fn update(s: &mut SelectorState, wired: bool) -> (changed: Option<bool>)
    ensures
        final(s)@ == after_update(old(s)@, wired),
        wf(final(s)@),
        changed == if spec_effective_wired(old(s)@) != spec_effective_wired(final(s)@) {
            Some(spec_effective_wired(final(s)@))
        } else {
            None
        },
{
    proof {
        use_type_invariant(&*s);
    }
    let was = effective_wired(s);
    let now = if s.forced == FORCE_WIRED {
        true
    } else if s.forced == FORCE_BLE {
        false
    } else {
        wired
    };
    let entries = if !was && now { s.wired_entries.wrapping_add(1) } else { s.wired_entries };
    *s = SelectorState { auto_enabled: s.auto_enabled, wired_selected: wired, forced: s.forced, wired_entries: entries };
    if now != was {
        Some(now)
    } else {
        None
    }
}

/// Set the volatile transport force (clamped to `FORCE_BLE`). It masks the
/// detect input until the next force; the input keeps updating underneath.
/// Returns the new effective selection when it changed.
pub fn set_forced(s: &mut SelectorState, mode: u8) -> (changed: Option<bool>)
    ensures
        final(s)@ == after_force(old(s)@, mode),
        wf(final(s)@),
        changed == if spec_effective_wired(old(s)@) != spec_effective_wired(final(s)@) {
            Some(spec_effective_wired(final(s)@))
        } else {
            None
        },
{
    let was = effective_wired(s);
    let forced = if mode < FORCE_BLE { mode } else { FORCE_BLE };
    let now = if forced == FORCE_WIRED {
        true
    } else if forced == FORCE_BLE {
        false
    } else {
        s.wired_selected
    };
    let entries = if !was && now { s.wired_entries.wrapping_add(1) } else { s.wired_entries };
    *s = SelectorState { auto_enabled: s.auto_enabled, wired_selected: s.wired_selected, forced, wired_entries: entries };
    if now != was {
        Some(now)
    } else {
        None
    }
}

/// The current force mode, always one of the known modes.
pub fn forced_mode(s: &SelectorState) -> (r: u8)
    ensures
        r == s@.forced,
        r <= FORCE_BLE,
{
    proof {
        use_type_invariant(s);
    }
    s.forced
}

/// The board runs an automatic wired/BLE selection policy.
pub fn auto_enabled(s: &SelectorState) -> (r: bool)
    ensures
        r == s@.auto_enabled,
{
    s.auto_enabled
}

/// The debounced cable-detect input, independent of any force.
pub fn detected_wired(s: &SelectorState) -> (r: bool)
    ensures
        r == s@.wired_selected,
{
    s.wired_selected
}

/// The wired transport should run.
pub fn wired_selected(s: &SelectorState) -> (r: bool)
    ensures
        r == spec_wired_selected(s@),
{
    !s.auto_enabled || effective_wired(s)
}

/// The wireless transport should run.
pub fn wireless_selected(s: &SelectorState) -> (r: bool)
    ensures
        r == spec_wireless_selected(s@),
{
    !s.auto_enabled || !effective_wired(s)
}

/// Under automatic selection exactly one transport runs; without it, both do.
pub proof fn lemma_selection_exclusive(s: SelectorView)
    ensures
        s.auto_enabled ==> spec_wired_selected(s) != spec_wireless_selected(s),
        !s.auto_enabled ==> spec_wired_selected(s) && spec_wireless_selected(s),
{
}

/// A force masks the detect input in both directions: while forced, detect
/// updates leave the effective selection alone, yet are still recorded.
pub proof fn lemma_force_masks_detect(s: SelectorView, wired: bool)
    requires
        s.forced == FORCE_WIRED || s.forced == FORCE_BLE,
    ensures
        spec_effective_wired(after_update(s, wired)) == spec_effective_wired(s),
        after_update(s, wired).wired_selected == wired,
{
}

/// Releasing the force returns control to the detect input.
pub proof fn lemma_release_follows_detect(s: SelectorView)
    ensures
        spec_effective_wired(after_force(s, FORCE_AUTO)) == s.wired_selected,
        after_force(s, FORCE_AUTO).wired_selected == s.wired_selected,
{
}

/// With a known force, the effective selection is wired exactly when the
/// wired link is forced, or nothing is forced and the cable is detected.
pub proof fn lemma_effective_wired_cases(s: SelectorView)
    requires
        wf(s),
    ensures
        spec_effective_wired(s) == (s.forced == FORCE_WIRED || (s.forced == FORCE_AUTO && s.wired_selected)),
{
}

/// Every step keeps the force among the known modes; the detect input and
/// the automatic policy change only through their own steps, and the force
/// only through `set_forced`.
pub proof fn lemma_steps_keep_state(s: SelectorView, wired: bool, mode: u8)
    requires
        wf(s),
    ensures
        wf(after_initialize(s, wired)),
        wf(after_update(s, wired)),
        wf(after_force(s, mode)),
        after_initialize(s, wired).auto_enabled,
        after_initialize(s, wired).forced == s.forced,
        after_update(s, wired).auto_enabled == s.auto_enabled,
        after_update(s, wired).forced == s.forced,
        after_force(s, mode).auto_enabled == s.auto_enabled,
        after_force(s, mode).wired_selected == s.wired_selected,
        after_force(s, mode).forced == if mode < FORCE_BLE { mode } else { FORCE_BLE },
{
}

/// The entry counter moves exactly when the effective selection turns wired.
pub proof fn lemma_entries_count_wired_transitions(s: SelectorView, wired: bool, mode: u8)
    ensures
        after_initialize(s, wired).wired_entries != s.wired_entries <==> (!spec_effective_wired(s)
            && spec_effective_wired(after_initialize(s, wired))),
        after_update(s, wired).wired_entries != s.wired_entries <==> (!spec_effective_wired(s)
            && spec_effective_wired(after_update(s, wired))),
        after_force(s, mode).wired_entries != s.wired_entries <==> (!spec_effective_wired(s)
            && spec_effective_wired(after_force(s, mode))),
{
}

} // verus!
