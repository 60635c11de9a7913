//! The host-maintenance mode: default and live state in one byte.
//!
//! Keeping initialization in the same byte as the state lets concurrent host
//! transports never observe a partially initialized policy.
use vstd::prelude::*;

verus! {

pub const MAINTENANCE_MODE_INITIALIZED: u8 = 4;
pub const MAINTENANCE_MODE_DEFAULT: u8 = 2;
pub const MAINTENANCE_MODE_ENABLED: u8 = 1;

/// The maintenance byte; zero until initialized.
#[derive(Clone, Copy, Debug)]
pub struct MaintenanceMode {
    pub raw: u8,
}

/// The byte as read: an uninitialized gate reads as initialized, default on, enabled.
pub open spec fn spec_bits(raw: u8) -> u8 {
    if raw == 0 {
        7
    } else {
        raw
    }
}

pub open spec fn spec_enabled(raw: u8) -> bool {
    spec_bits(raw) & 1 != 0
}

pub open spec fn spec_default(raw: u8) -> bool {
    spec_bits(raw) & 2 != 0
}

/// The byte after initialization with `default_enabled` (only a zero byte changes).
pub open spec fn spec_initialized(raw: u8, default_enabled: bool) -> u8 {
    if raw == 0 {
        if default_enabled {
            7
        } else {
            4
        }
    } else {
        raw
    }
}

/// The byte after setting the live mode.
pub open spec fn spec_set(raw: u8, enabled: bool) -> u8 {
    let cur = spec_bits(spec_initialized(raw, true));
    if enabled {
        cur | 1
    } else {
        cur & 0xfe
    }
}

/// Result of changing the mode.
pub struct MaintenanceUpdate {
    /// The resulting state.
    pub enabled: bool,
    /// The state changed, so observers are notified.
    pub changed: bool,
}

impl MaintenanceMode {
    /// Every byte the mode can hold: zero, or initialized.
    pub open spec fn wf(self) -> bool {
        self.raw == 0 || self.raw & 4 != 0
    }

    pub fn new() -> (r: Self)
        ensures
            r.raw == 0,
            r.wf(),
    {
        MaintenanceMode { raw: 0 }
    }
}

/// Seed the mode from the configured default; a no-op once initialized.
pub fn initialize_maintenance_mode(m: &mut MaintenanceMode, default_enabled: bool)
    requires
        old(m).wf(),
    ensures
        final(m).wf(),
        final(m).raw == spec_initialized(old(m).raw, default_enabled),
{
    assert((4u8 | (2u8 | 1u8)) == 7u8 && (4u8 | 0u8) == 4u8 && 7u8 & 4u8 != 0 && 4u8 & 4u8 != 0)
        by (bit_vector);
    if m.raw == 0 {
        m.raw = MAINTENANCE_MODE_INITIALIZED | if default_enabled {
            MAINTENANCE_MODE_DEFAULT | MAINTENANCE_MODE_ENABLED
        } else {
            0
        };
    }
}

/// The byte as read.
pub fn maintenance_mode_bits(m: &MaintenanceMode) -> (r: u8)
    ensures
        r == spec_bits(m.raw),
{
    assert((4u8 | 2u8 | 1u8) == 7u8) by (bit_vector);
    if m.raw == 0 {
        MAINTENANCE_MODE_INITIALIZED | MAINTENANCE_MODE_DEFAULT | MAINTENANCE_MODE_ENABLED
    } else {
        m.raw
    }
}

/// Whether host maintenance operations are currently allowed.
pub fn maintenance_mode_enabled(m: &MaintenanceMode) -> (r: bool)
    requires
        m.wf(),
    ensures
        r == spec_enabled(m.raw),
{
    maintenance_mode_bits(m) & MAINTENANCE_MODE_ENABLED != 0
}

/// The configured value restored at application startup.
pub fn maintenance_mode_default(m: &MaintenanceMode) -> (r: bool)
    requires
        m.wf(),
    ensures
        r == spec_default(m.raw),
{
    maintenance_mode_bits(m) & MAINTENANCE_MODE_DEFAULT != 0
}

/// Change the live mode, returning the resulting state and whether it changed.
pub fn set_maintenance_mode(m: &mut MaintenanceMode, enabled: bool) -> (r: MaintenanceUpdate)
    requires
        old(m).wf(),
    ensures
        final(m).wf(),
        final(m).raw == spec_set(old(m).raw, enabled),
        r.enabled == enabled,
        r.changed == (spec_set(old(m).raw, enabled) != spec_bits(spec_initialized(old(m).raw, true))),
{
    initialize_maintenance_mode(m, true);
    let current = maintenance_mode_bits(m);
    let next = if enabled {
        current | MAINTENANCE_MODE_ENABLED
    } else {
        current & !MAINTENANCE_MODE_ENABLED
    };
    assert(!1u8 == 0xfeu8) by (bit_vector);
    if next == current {
        assert(m.raw == spec_bits(m.raw));
        return MaintenanceUpdate { enabled, changed: false };
    }
    proof {
        let c = current;
        assert(c & 4 != 0 ==> (c | 1) & 4 != 0 && (c & 0xfe) & 4 != 0) by (bit_vector);
    }
    m.raw = next;
    MaintenanceUpdate { enabled, changed: true }
}

/// Flip the live mode, returning the resulting state.
pub fn toggle_maintenance_mode(m: &mut MaintenanceMode) -> (r: MaintenanceUpdate)
    requires
        old(m).wf(),
    ensures
        final(m).wf(),
        r.enabled == !spec_enabled(old(m).raw),
        final(m).raw == spec_set(old(m).raw, !spec_enabled(old(m).raw)),
{
    let enabled = !maintenance_mode_enabled(m);
    set_maintenance_mode(m, enabled)
}

/// Setting the mode makes it read back as set, keeps the configured default and
/// initialization, and setting it again changes nothing.
pub proof fn lemma_set_reads_back(raw: u8, enabled: bool)
    requires
        (MaintenanceMode { raw }).wf(),
    ensures
        (MaintenanceMode { raw: spec_set(raw, enabled) }).wf(),
        spec_enabled(spec_set(raw, enabled)) == enabled,
        spec_default(spec_set(raw, enabled)) == spec_default(spec_initialized(raw, true)),
        spec_set(raw, enabled) & 4 != 0 || raw & 4 == 0,
        spec_set(spec_set(raw, enabled), enabled) == spec_set(raw, enabled),
{
    let cur = spec_bits(spec_initialized(raw, true));
    assert(cur & 4 != 0) by (bit_vector)
        requires
            cur == 7 || (cur == raw && raw & 4 != 0),
    ;
    assert(cur & 4 != 0 ==> (cur | 1) & 4 != 0 && (cur & 0xfe) & 4 != 0 && (cur & 0xfe) != 0)
        by (bit_vector);
    assert((cur | 1) & 1 != 0 && (cur & 0xfe) & 1 == 0) by (bit_vector);
    assert((cur | 1) & 2 == cur & 2 && (cur & 0xfe) & 2 == cur & 2) by (bit_vector);
    assert(raw != 0 ==> (((raw | 1) & 4 != 0) || raw & 4 == 0) && (((raw & 0xfe) & 4 != 0) || raw & 4 == 0))
        by (bit_vector);
    assert(((cur | 1) | 1) == (cur | 1) && ((cur & 0xfe) & 0xfe) == (cur & 0xfe)) by (bit_vector);
    assert((cur | 1) != 0) by (bit_vector);
    assert(cur & 2 != 0 ==> (cur & 0xfe) != 0) by (bit_vector);
}

/// Toggling twice restores the live state.
pub proof fn lemma_toggle_twice(raw: u8)
    requires
        (MaintenanceMode { raw }).wf(),
    ensures
        spec_enabled(spec_set(spec_set(raw, !spec_enabled(raw)), !spec_enabled(spec_set(raw, !spec_enabled(raw)))))
            == spec_enabled(raw),
{
    lemma_set_reads_back(raw, !spec_enabled(raw));
    lemma_set_reads_back(spec_set(raw, !spec_enabled(raw)), spec_enabled(raw));
}

} // verus!
