//! Cirque Pinnacle (1CA027) touchpad: register values, the initialization
//! program, and relative-mode packet decoding.
//!
//! The pad runs in relative mode: it streams PS/2-style delta packets and
//! (unless taps are disabled) synthesizes button presses from taps. Touch
//! presence is published on the Z axis; the pad sends a few all-zero packets
//! after a finger lifts and stays silent while a resting finger stops moving,
//! so an all-zero packet with no buttons is itself the liftoff signal.
use vstd::prelude::*;

verus! {

/// Command bit of a register write.
pub const WRITE: u8 = 0x80;
/// Command bits of a register read.
pub const READ: u8 = 0xA0;
/// Byte clocked out while auto-increment reading.
pub const AUTOINC: u8 = 0xFC;
/// Byte the pad echoes during a register write.
pub const FILLER: u8 = 0xFB;
pub const REG_ERA_VALUE: u8 = 0x1B;
pub const REG_ERA_HIGH_BYTE: u8 = 0x1C;
pub const REG_ERA_LOW_BYTE: u8 = 0x1D;
pub const REG_ERA_CONTROL: u8 = 0x1E;
pub const ERA_CONTROL_READ: u8 = 0x01;
pub const ERA_CONTROL_WRITE: u8 = 0x02;
/// Polls of the extended-access state machine before giving up.
pub const ERA_POLLS: u32 = 100;
/// Polls of a forced calibration before giving up.
pub const CALIBRATION_POLLS: u32 = 200;
pub const REG_FW_ID: u8 = 0x00;
pub const REG_STATUS1: u8 = 0x02;
pub const STATUS1_SW_DR: u8 = 4;
pub const REG_SYS_CFG: u8 = 0x03;
pub const SYS_CFG_EN_SLEEP: u8 = 4;
pub const SYS_CFG_RESET: u8 = 1;
pub const REG_FEED_CFG1: u8 = 0x04;
pub const FEED_CFG1_EN_FEED: u8 = 1;
pub const FEED_CFG1_INV_X: u8 = 0x40;
pub const FEED_CFG1_INV_Y: u8 = 0x80;
pub const REG_FEED_CFG2: u8 = 0x05;
pub const FEED_CFG2_EN_IM: u8 = 1;
pub const FEED_CFG2_DIS_TAP: u8 = 2;
pub const FEED_CFG2_DIS_SEC: u8 = 4;
pub const FEED_CFG2_EN_BTN_SCRL: u8 = 0x40;
pub const FEED_CFG2_ROTATE_90: u8 = 0x80;
pub const REG_CAL_CFG: u8 = 0x07;
pub const CAL_CFG_CALIBRATE: u8 = 1;
pub const REG_Z_IDLE: u8 = 0x0A;
pub const REG_SLEEP_INTERVAL: u8 = 0x0C;
pub const REG_PACKET0: u8 = 0x12;
pub const ERA_REG_X_AXIS_WIDE_Z_MIN: u16 = 0x0149;
pub const ERA_REG_Y_AXIS_WIDE_Z_MIN: u16 = 0x0168;
pub const ERA_REG_TRACKING_ADC_CONFIG: u16 = 0x0187;
pub const PACKET0_BTN_MASK: u8 = 0x07;
pub const PACKET0_X_SIGN: u8 = 0x10;
pub const PACKET0_Y_SIGN: u8 = 0x20;
/// Number of Z=0 packets the pad sends after a finger lifts.
pub const Z_IDLE_COUNT: u8 = 5;

/// ADC attenuation. `X1` is the most sensitive, `X4` the least.
#[derive(Debug, Clone, Copy, PartialEq, Eq, Structural)]
pub enum PinnacleSensitivity {
    X1,
    X2,
    X3,
    X4,
}

pub open spec fn spec_adc_bits(s: PinnacleSensitivity) -> u8 {
    match s {
        PinnacleSensitivity::X1 => 0x00,
        PinnacleSensitivity::X2 => 0x40,
        PinnacleSensitivity::X3 => 0x80,
        PinnacleSensitivity::X4 => 0xC0,
    }
}

impl PinnacleSensitivity {
    /// Attenuation bits of the tracking ADC configuration.
    pub fn adc_config_bits(self) -> (r: u8)
        ensures
            r == spec_adc_bits(self),
    {
        match self {
            PinnacleSensitivity::X1 => 0x00,
            PinnacleSensitivity::X2 => 0x40,
            PinnacleSensitivity::X3 => 0x80,
            PinnacleSensitivity::X4 => 0xC0,
        }
    }
}

/// Pad configuration, applied once during initialization.
#[derive(Debug, Clone, Copy)]
pub struct PinnacleConfig {
    pub sensitivity: PinnacleSensitivity,
    /// Swap the X and Y axes in hardware (pad mounted rotated 90°).
    pub rotate_90: bool,
    /// Invert the X axis in hardware.
    pub x_invert: bool,
    /// Invert the Y axis in hardware.
    pub y_invert: bool,
    /// Disable all tap gestures.
    pub no_taps: bool,
    /// Disable only the secondary tap.
    pub no_secondary_tap: bool,
    /// Let the pad drop into its low-power state.
    pub sleep: bool,
    /// Minimum Z for X-axis touch detection at the pad edge.
    pub x_axis_z_min: u8,
    /// Minimum Z for Y-axis touch detection at the pad edge.
    pub y_axis_z_min: u8,
}

impl PinnacleConfig {
    /// The default configuration: most sensitive, no rotation or inversion,
    /// taps enabled, no sleep, edge thresholds 5 and 4.
    pub fn default() -> (r: Self)
        ensures
            r.sensitivity == PinnacleSensitivity::X1,
            !r.rotate_90 && !r.x_invert && !r.y_invert,
            !r.no_taps && !r.no_secondary_tap && !r.sleep,
            r.x_axis_z_min == 5,
            r.y_axis_z_min == 4,
    {
        PinnacleConfig {
            sensitivity: PinnacleSensitivity::X1,
            rotate_90: false,
            x_invert: false,
            y_invert: false,
            no_taps: false,
            no_secondary_tap: false,
            sleep: false,
            x_axis_z_min: 5,
            y_axis_z_min: 4,
        }
    }
}

#[derive(Debug, Clone, Copy, PartialEq, Eq, Structural)]
pub enum PinnacleError {
    /// SPI bus or CS pin failure
    Spi,
    /// A register write was not acknowledged with the filler byte
    BadWriteEcho,
    /// The extended register access did not finish
    EraTimeout,
    /// Forced recalibration did not complete
    CalibrationTimeout,
}

/// Feed config 2: intellimouse mode and button scroll always, plus the tap and
/// rotation options.
pub open spec fn spec_feed_cfg2(c: PinnacleConfig) -> u8 {
    (0x41u8 | if c.no_taps {
        2u8
    } else {
        0u8
    } | if c.no_secondary_tap {
        4u8
    } else {
        0u8
    } | if c.rotate_90 {
        0x80u8
    } else {
        0u8
    }) as u8
}

/// Feed config 1: feed enabled, plus the inversions.
pub open spec fn spec_feed_cfg1(c: PinnacleConfig) -> u8 {
    (1u8 | if c.x_invert {
        0x40u8
    } else {
        0u8
    } | if c.y_invert {
        0x80u8
    } else {
        0u8
    }) as u8
}

pub fn feed_cfg2(config: &PinnacleConfig) -> (r: u8)
    ensures
        r == spec_feed_cfg2(*config),
{
    let mut v = FEED_CFG2_EN_IM | FEED_CFG2_EN_BTN_SCRL;
    assert(1u8 | 0x40u8 == 0x41u8) by (bit_vector);
    let a: u8 = if config.no_taps { FEED_CFG2_DIS_TAP } else { 0 };
    let b: u8 = if config.no_secondary_tap { FEED_CFG2_DIS_SEC } else { 0 };
    let c: u8 = if config.rotate_90 { FEED_CFG2_ROTATE_90 } else { 0 };
    v = v | a;
    v = v | b;
    v = v | c;
    v
}

pub fn feed_cfg1(config: &PinnacleConfig) -> (r: u8)
    ensures
        r == spec_feed_cfg1(*config),
{
    let a: u8 = if config.x_invert { FEED_CFG1_INV_X } else { 0 };
    let b: u8 = if config.y_invert { FEED_CFG1_INV_Y } else { 0 };
    let mut v = FEED_CFG1_EN_FEED;
    v = v | a;
    v = v | b;
    v
}

/// The tracking ADC configuration with the attenuation bits replaced.
pub open spec fn spec_adc_config(current: u8, s: PinnacleSensitivity) -> u8 {
    (current & 0x3f) | spec_adc_bits(s)
}

pub fn adc_config(current: u8, sensitivity: PinnacleSensitivity) -> (r: u8)
    ensures
        r == spec_adc_config(current, sensitivity),
{
    (current & 0x3F) | sensitivity.adc_config_bits()
}

/// One step of the pad's initialization.
#[derive(Debug, Clone, Copy, PartialEq, Eq, Structural)]
pub enum InitStep {
    /// Read and log the ASIC id and firmware version.
    ReadFirmwareId,
    /// Wait this many milliseconds.
    DelayMs(u32),
    /// Write a register (the pad echoes the filler byte).
    Write(u8, u8),
    /// Read the tracking ADC configuration through the extended window and
    /// write it back with these attenuation bits.
    SetAdcAttenuation(u8),
    /// Write an extended register.
    EraWrite(u16, u8),
    /// Force a recalibration and wait for it.
    Recalibrate,
    /// Read the system configuration and write it back with sleep enabled.
    EnableSleep,
}

/// The initialization program for `c`: reset, idle count, ADC attenuation,
/// edge thresholds, recalibration, optional sleep, feed configuration.
pub open spec fn spec_init_program(c: PinnacleConfig) -> Seq<InitStep> {
    let head = seq![
        InitStep::ReadFirmwareId,
        InitStep::DelayMs(10),
        InitStep::Write(REG_STATUS1, 0),
        InitStep::Write(REG_SYS_CFG, SYS_CFG_RESET),
        InitStep::DelayMs(20),
        InitStep::Write(REG_Z_IDLE, Z_IDLE_COUNT),
        InitStep::SetAdcAttenuation(spec_adc_bits(c.sensitivity)),
        InitStep::EraWrite(ERA_REG_X_AXIS_WIDE_Z_MIN, c.x_axis_z_min),
        InitStep::EraWrite(ERA_REG_Y_AXIS_WIDE_Z_MIN, c.y_axis_z_min),
        InitStep::Recalibrate,
    ];
    let sleep = if c.sleep {
        seq![InitStep::EnableSleep]
    } else {
        Seq::empty()
    };
    head + sleep + seq![
        InitStep::Write(REG_SLEEP_INTERVAL, 255),
        InitStep::Write(REG_FEED_CFG2, spec_feed_cfg2(c)),
        InitStep::Write(REG_FEED_CFG1, spec_feed_cfg1(c)),
        InitStep::Write(REG_STATUS1, 0),
    ]
}

/// The initialization program for `config`, to be run in order.
pub fn init_program(config: &PinnacleConfig) -> (r: Vec<InitStep>)
    ensures
        r@ == spec_init_program(*config),
{
    let mut p: Vec<InitStep> = Vec::new();
    p.push(InitStep::ReadFirmwareId);
    p.push(InitStep::DelayMs(10));
    p.push(InitStep::Write(REG_STATUS1, 0));
    p.push(InitStep::Write(REG_SYS_CFG, SYS_CFG_RESET));
    p.push(InitStep::DelayMs(20));
    p.push(InitStep::Write(REG_Z_IDLE, Z_IDLE_COUNT));
    p.push(InitStep::SetAdcAttenuation(config.sensitivity.adc_config_bits()));
    p.push(InitStep::EraWrite(ERA_REG_X_AXIS_WIDE_Z_MIN, config.x_axis_z_min));
    p.push(InitStep::EraWrite(ERA_REG_Y_AXIS_WIDE_Z_MIN, config.y_axis_z_min));
    p.push(InitStep::Recalibrate);
    if config.sleep {
        p.push(InitStep::EnableSleep);
    }
    p.push(InitStep::Write(REG_SLEEP_INTERVAL, 255));
    p.push(InitStep::Write(REG_FEED_CFG2, feed_cfg2(config)));
    p.push(InitStep::Write(REG_FEED_CFG1, feed_cfg1(config)));
    p.push(InitStep::Write(REG_STATUS1, 0));
    assert(p@ =~= spec_init_program(*config));
    p
}

/// A 9-bit two's complement delta: magnitude byte plus sign bit.
pub open spec fn delta(magnitude: u8, negative: bool) -> int {
    if negative {
        magnitude - 256
    } else {
        magnitude as int
    }
}

/// Decode a 3-byte relative-mode packet into (dx, dy, buttons). Buttons are
/// the low three bits of byte 0, in HID order.
pub fn decode_relative_packet(packet: [u8; 3]) -> (r: (i16, i16, u8))
    ensures
        r.0 == delta(packet[1], packet[0] & PACKET0_X_SIGN != 0),
        r.1 == delta(packet[2], packet[0] & PACKET0_Y_SIGN != 0),
        r.2 == packet[0] & PACKET0_BTN_MASK,
{
    let mut dx = packet[1] as i16;
    if packet[0] & PACKET0_X_SIGN != 0 {
        dx = dx - 256;
    }
    let mut dy = packet[2] as i16;
    if packet[0] & PACKET0_Y_SIGN != 0 {
        dy = dy - 256;
    }
    (dx, dy, packet[0] & PACKET0_BTN_MASK)
}

/// The bytes clocked out for a register write.
pub fn write_reg_frame(addr: u8, val: u8) -> (r: [u8; 2])
    ensures
        r@ == seq![WRITE | addr, val],
{
    let r = [WRITE | addr, val];
    assert(r@ =~= seq![WRITE | addr, val]);
    r
}

/// A register write is acknowledged when the pad echoes the filler byte
/// in the second byte.
pub fn check_write_echo(rx: [u8; 2]) -> (r: Result<(), PinnacleError>)
    ensures
        r is Ok <==> rx@[1] == FILLER,
        r matches Err(e) ==> e == PinnacleError::BadWriteEcho,
{
    if rx[1] != FILLER {
        Err(PinnacleError::BadWriteEcho)
    } else {
        Ok(())
    }
}

/// The bytes clocked out to read `len` registers from `addr`: the read
/// command, then auto-increment bytes; the data arrives from the fourth byte.
pub fn seq_read_frame(addr: u8, len: usize) -> (r: Vec<u8>)
    requires
        len + 3 <= 8,
    ensures
        r@.len() == len + 3,
        r@[0] == READ | addr,
        forall|i: int| 1 <= i < len + 3 ==> r@[i] == AUTOINC,
{
    let mut r: Vec<u8> = Vec::new();
    r.push(READ | addr);
    let mut i: usize = 1;
    while i < len + 3
        invariant
            len + 3 <= 8,
            1 <= i <= len + 3,
            r@.len() == i,
            r@[0] == READ | addr,
            forall|k: int| 1 <= k < i ==> r@[k] == AUTOINC,
        decreases len + 3 - i,
    {
        r.push(AUTOINC);
        i = i + 1;
    }
    r
}

/// Register writes that store `val` at extended register `addr`: value,
/// address high and low byte, then the write command.
pub fn era_write_steps(addr: u16, val: u8) -> (r: Vec<(u8, u8)>)
    ensures
        r@ == seq![
            (REG_ERA_VALUE, val),
            (REG_ERA_HIGH_BYTE, (addr / 256) as u8),
            (REG_ERA_LOW_BYTE, (addr % 256) as u8),
            (REG_ERA_CONTROL, ERA_CONTROL_WRITE),
        ],
{
    let mut r: Vec<(u8, u8)> = Vec::new();
    r.push((REG_ERA_VALUE, val));
    r.push((REG_ERA_HIGH_BYTE, (addr / 256) as u8));
    r.push((REG_ERA_LOW_BYTE, (addr % 256) as u8));
    r.push((REG_ERA_CONTROL, ERA_CONTROL_WRITE));
    assert(r@ =~= seq![
        (REG_ERA_VALUE, val),
        (REG_ERA_HIGH_BYTE, (addr / 256) as u8),
        (REG_ERA_LOW_BYTE, (addr % 256) as u8),
        (REG_ERA_CONTROL, ERA_CONTROL_WRITE),
    ]);
    r
}

/// Register writes that start a read of extended register `addr`; the
/// value is read from the value register once the access is idle.
pub fn era_read_steps(addr: u16) -> (r: Vec<(u8, u8)>)
    ensures
        r@ == seq![
            (REG_ERA_HIGH_BYTE, (addr / 256) as u8),
            (REG_ERA_LOW_BYTE, (addr % 256) as u8),
            (REG_ERA_CONTROL, ERA_CONTROL_READ),
        ],
{
    let mut r: Vec<(u8, u8)> = Vec::new();
    r.push((REG_ERA_HIGH_BYTE, (addr / 256) as u8));
    r.push((REG_ERA_LOW_BYTE, (addr % 256) as u8));
    r.push((REG_ERA_CONTROL, ERA_CONTROL_READ));
    assert(r@ =~= seq![
        (REG_ERA_HIGH_BYTE, (addr / 256) as u8),
        (REG_ERA_LOW_BYTE, (addr % 256) as u8),
        (REG_ERA_CONTROL, ERA_CONTROL_READ),
    ]);
    r
}

/// The calibration configuration that starts a forced recalibration.
pub fn calibrate_request(cal: u8) -> (r: u8)
    ensures
        r == cal | CAL_CFG_CALIBRATE,
{
    cal | CAL_CFG_CALIBRATE
}

/// A forced recalibration finished: the pad cleared the calibrate bit.
pub fn calibration_done(cal: u8) -> (r: bool)
    ensures
        r == (cal & CAL_CFG_CALIBRATE == 0),
{
    cal & CAL_CFG_CALIBRATE == 0
}

/// The extended-access state machine is idle.
pub fn era_idle(control: u8) -> (r: bool)
    ensures
        r == (control == 0),
{
    control == 0
}

/// The system configuration with sleep enabled.
pub fn enable_sleep(sys_cfg: u8) -> (r: u8)
    ensures
        r == sys_cfg | SYS_CFG_EN_SLEEP,
{
    sys_cfg | SYS_CFG_EN_SLEEP
}

/// The status byte says a fresh packet is waiting: 0xFF means the pad did not
/// drive MISO, and without SW_DR the packet registers hold stale data.
pub fn status_has_packet(status: u8) -> (r: bool)
    ensures
        r == (status != 0xFF && status & STATUS1_SW_DR != 0),
{
    status != 0xFF && status & STATUS1_SW_DR != 0
}

/// One pointing report: relative X/Y, absolute Z (1 while touching), buttons.
#[derive(Debug, Clone, Copy, PartialEq, Eq, Structural)]
pub struct PointingReport {
    pub device_id: u8,
    pub buttons: u8,
    pub dx: i16,
    pub dy: i16,
    pub z: i16,
}

/// Touch and button state carried between packets.
#[derive(Debug, Clone, Copy, PartialEq, Eq, Structural)]
pub struct PacketTracker {
    pub id: u8,
    pub buttons: u8,
    pub touching: bool,
}

/// Tracker state and report for one decoded packet.
pub open spec fn spec_on_packet(t: PacketTracker, dx: int, dy: int, buttons: u8) -> (
    PacketTracker,
    Option<PointingReport>,
) {
    let moving = dx != 0 || dy != 0;
    let lifted = !moving && buttons == 0 && t.touching;
    let touching = if moving {
        true
    } else if buttons == 0 {
        false
    } else {
        t.touching
    };
    if !moving && buttons == t.buttons && !lifted {
        (PacketTracker { touching, ..t }, None)
    } else {
        (
            PacketTracker { touching, buttons, ..t },
            Some(
                PointingReport {
                    device_id: t.id,
                    buttons,
                    dx: dx as i16,
                    dy: dy as i16,
                    z: if touching {
                        1
                    } else {
                        0
                    },
                },
            ),
        )
    }
}

impl PacketTracker {
    pub fn new(id: u8) -> (r: Self)
        ensures
            r == (PacketTracker { id, buttons: 0, touching: false }),
    {
        PacketTracker { id, buttons: 0, touching: false }
    }

    /// Turn one packet into a report, or `None` when it carries no change:
    /// motion marks a touch, an all-zero packet is the liftoff (reported
    /// once), and a button edge is always reported.
    pub fn on_packet(&mut self, packet: [u8; 3]) -> (r: Option<PointingReport>)
        ensures
            ({
                let (t, rep) = spec_on_packet(
                    *old(self),
                    delta(packet[1], packet[0] & PACKET0_X_SIGN != 0),
                    delta(packet[2], packet[0] & PACKET0_Y_SIGN != 0),
                    packet[0] & PACKET0_BTN_MASK,
                );
                *final(self) == t && r == rep
            }),
    {
        let (dx, dy, buttons) = decode_relative_packet(packet);
        let mut lifted = false;
        if dx != 0 || dy != 0 {
            self.touching = true;
        } else if buttons == 0 {
            lifted = self.touching;
            self.touching = false;
        }
        if dx == 0 && dy == 0 && buttons == self.buttons && !lifted {
            return None;
        }
        self.buttons = buttons;
        Some(
            PointingReport {
                device_id: self.id,
                buttons,
                dx,
                dy,
                z: if self.touching {
                    1
                } else {
                    0
                },
            },
        )
    }
}

/// Feed config 1 always enables the feed, sets bit 0x40 exactly when the X
/// axis is inverted and bit 0x80 exactly when the Y axis is, and nothing else.
pub proof fn lemma_feed_cfg1_bits(c: PinnacleConfig)
    ensures
        spec_feed_cfg1(c) & 0x01 == 0x01,
        (spec_feed_cfg1(c) & 0x40 != 0) == c.x_invert,
        (spec_feed_cfg1(c) & 0x80 != 0) == c.y_invert,
        spec_feed_cfg1(c) & 0x3e == 0,
{
    let a: u8 = if c.x_invert { 0x40u8 } else { 0u8 };
    let b: u8 = if c.y_invert { 0x80u8 } else { 0u8 };
    let v: u8 = spec_feed_cfg1(c);
    assert(v == (1u8 | a | b) as u8);
    assert(v & 0x01 == 0x01 && ((v & 0x40 != 0) == (a == 0x40)) && ((v & 0x80 != 0) == (b == 0x80)) && v & 0x3e == 0)
        by (bit_vector)
        requires
            v == (1u8 | a | b) as u8,
            a == 0x40u8 || a == 0u8,
            b == 0x80u8 || b == 0u8,
    ;
}

/// Feed config 2 always enables intellimouse mode and button scroll, sets
/// bit 0x02 exactly when taps are disabled, 0x04 exactly when the secondary
/// tap is, 0x80 exactly when the pad is rotated, and nothing else.
pub proof fn lemma_feed_cfg2_bits(c: PinnacleConfig)
    ensures
        spec_feed_cfg2(c) & 0x41 == 0x41,
        (spec_feed_cfg2(c) & 0x02 != 0) == c.no_taps,
        (spec_feed_cfg2(c) & 0x04 != 0) == c.no_secondary_tap,
        (spec_feed_cfg2(c) & 0x80 != 0) == c.rotate_90,
        spec_feed_cfg2(c) & 0x38 == 0,
{
    let a: u8 = if c.no_taps { 2u8 } else { 0u8 };
    let b: u8 = if c.no_secondary_tap { 4u8 } else { 0u8 };
    let d: u8 = if c.rotate_90 { 0x80u8 } else { 0u8 };
    let v: u8 = spec_feed_cfg2(c);
    assert(v == (0x41u8 | a | b | d) as u8);
    assert(v & 0x41 == 0x41 && ((v & 0x02 != 0) == (a == 2)) && ((v & 0x04 != 0) == (b == 4)) && ((v & 0x80
        != 0) == (d == 0x80)) && v & 0x38 == 0) by (bit_vector)
        requires
            v == (0x41u8 | a | b | d) as u8,
            a == 2u8 || a == 0u8,
            b == 4u8 || b == 0u8,
            d == 0x80u8 || d == 0u8,
    ;
}

/// The ADC configuration keeps the low six bits of the current value and
/// takes its top two bits from the sensitivity, most sensitive lowest.
pub proof fn lemma_adc_config_bits(current: u8, s: PinnacleSensitivity)
    ensures
        spec_adc_config(current, s) & 0x3f == current & 0x3f,
        spec_adc_config(current, s) >> 6 == match s {
            PinnacleSensitivity::X1 => 0u8,
            PinnacleSensitivity::X2 => 1u8,
            PinnacleSensitivity::X3 => 2u8,
            PinnacleSensitivity::X4 => 3u8,
        },
{
    let k: u8 = match s {
        PinnacleSensitivity::X1 => 0u8,
        PinnacleSensitivity::X2 => 1u8,
        PinnacleSensitivity::X3 => 2u8,
        PinnacleSensitivity::X4 => 3u8,
    };
    let bits: u8 = spec_adc_bits(s);
    let v: u8 = spec_adc_config(current, s);
    assert(bits == (k * 0x40) as u8);
    assert(v & 0x3f == current & 0x3f && v >> 6 == k) by (bit_vector)
        requires
            v == (current & 0x3f) | bits,
            bits == (k * 0x40) as u8,
            k <= 3,
    ;
}

/// A liftoff is reported exactly once: after a report with the finger down,
/// the first all-zero packet reports Z = 0 and any further one reports nothing.
pub proof fn lemma_liftoff_reported_once(t: PacketTracker)
    requires
        t.touching,
        t.buttons == 0,
    ensures
        spec_on_packet(t, 0, 0, 0).1 == Some(
            PointingReport { device_id: t.id, buttons: 0, dx: 0, dy: 0, z: 0 },
        ),
        spec_on_packet(spec_on_packet(t, 0, 0, 0).0, 0, 0, 0).1 is None,
{
}

/// Motion is always reported, and reports Z = 1.
pub proof fn lemma_motion_is_reported(t: PacketTracker, dx: int, dy: int, buttons: u8)
    requires
        dx != 0 || dy != 0,
    ensures
        spec_on_packet(t, dx, dy, buttons).1 matches Some(r) && r.z == 1 && r.buttons == buttons,
{
}

} // verus!
