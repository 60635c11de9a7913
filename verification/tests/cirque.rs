use std::collections::HashMap;

use rmk::cirque::{
    adc_config, calibrate_request, calibration_done, check_write_echo, decode_relative_packet,
    enable_sleep, era_idle, era_read_steps, era_write_steps, feed_cfg1, feed_cfg2, init_program,
    seq_read_frame, status_has_packet, write_reg_frame, InitStep, PacketTracker, PinnacleConfig,
    PinnacleError, PinnacleSensitivity, AUTOINC, CAL_CFG_CALIBRATE, ERA_CONTROL_WRITE,
    ERA_REG_TRACKING_ADC_CONFIG, ERA_REG_X_AXIS_WIDE_Z_MIN, ERA_REG_Y_AXIS_WIDE_Z_MIN,
    FEED_CFG1_EN_FEED, FEED_CFG1_INV_Y, FEED_CFG2_DIS_SEC, FEED_CFG2_EN_BTN_SCRL, FEED_CFG2_EN_IM,
    FEED_CFG2_ROTATE_90, FILLER, PACKET0_X_SIGN, PACKET0_Y_SIGN, READ, REG_ERA_CONTROL,
    REG_ERA_HIGH_BYTE, REG_ERA_LOW_BYTE, REG_ERA_VALUE, REG_FEED_CFG1, REG_FEED_CFG2,
    REG_SLEEP_INTERVAL, REG_SYS_CFG, REG_Z_IDLE, STATUS1_SW_DR, SYS_CFG_EN_SLEEP, SYS_CFG_RESET,
    WRITE, Z_IDLE_COUNT,
};

/// A register-level model of the pad that runs an initialization program.
struct FakePinnacle {
    regs: [u8; 256],
    era_mem: HashMap<u16, u8>,
    write_log: Vec<(u8, u8)>,
}

impl FakePinnacle {
    fn new() -> Self {
        FakePinnacle { regs: [0; 256], era_mem: HashMap::new(), write_log: Vec::new() }
    }

    fn write(&mut self, addr: u8, val: u8) {
        self.write_log.push((addr, val));
        self.regs[addr as usize] = val;
        if addr == REG_ERA_CONTROL {
            let era = ((self.regs[REG_ERA_HIGH_BYTE as usize] as u16) << 8)
                | self.regs[REG_ERA_LOW_BYTE as usize] as u16;
            if val == ERA_CONTROL_WRITE {
                self.era_mem.insert(era, self.regs[REG_ERA_VALUE as usize]);
            } else {
                self.regs[REG_ERA_VALUE as usize] = *self.era_mem.get(&era).unwrap_or(&0);
            }
            self.regs[REG_ERA_CONTROL as usize] = 0;
        }
    }

    fn run(&mut self, program: &[InitStep]) {
        for step in program {
            match *step {
                InitStep::ReadFirmwareId | InitStep::DelayMs(_) | InitStep::Recalibrate => {}
                InitStep::Write(addr, val) => self.write(addr, val),
                InitStep::SetAdcAttenuation(bits) => {
                    for (a, v) in era_read_steps(ERA_REG_TRACKING_ADC_CONFIG) {
                        self.write(a, v);
                    }
                    assert!(era_idle(self.regs[REG_ERA_CONTROL as usize]));
                    let current = self.regs[REG_ERA_VALUE as usize];
                    for (a, v) in era_write_steps(ERA_REG_TRACKING_ADC_CONFIG, (current & 0x3F) | bits) {
                        self.write(a, v);
                    }
                }
                InitStep::EraWrite(addr, val) => {
                    for (a, v) in era_write_steps(addr, val) {
                        self.write(a, v);
                    }
                }
                InitStep::EnableSleep => {
                    let v = enable_sleep(self.regs[REG_SYS_CFG as usize]);
                    self.write(REG_SYS_CFG, v);
                }
            }
        }
    }
}

#[test]
fn decode_sign_extends_nine_bit_deltas_and_extracts_buttons() {
    assert_eq!(decode_relative_packet([0x00, 0x7F, 0x02]), (127, 2, 0));
    assert_eq!(decode_relative_packet([PACKET0_X_SIGN, 0xFF, 0x00]), (-1, 0, 0));
    assert_eq!(decode_relative_packet([PACKET0_Y_SIGN, 0x00, 0x80]), (0, -128, 0));
    assert_eq!(
        decode_relative_packet([PACKET0_X_SIGN | PACKET0_Y_SIGN, 0x01, 0x01]),
        (-255, -255, 0)
    );
    assert_eq!(decode_relative_packet([0x03, 0x00, 0x00]), (0, 0, 0x03));
}

#[test]
fn init_configures_the_pad_like_the_go60_zmk_definition() {
    // The Go60 board definition: sensitivity 1x, rotate-90, y-invert,
    // no-secondary-tap.
    let config = PinnacleConfig {
        rotate_90: true,
        y_invert: true,
        no_secondary_tap: true,
        ..PinnacleConfig::default()
    };
    let mut pad = FakePinnacle::new();
    pad.run(&init_program(&config));

    assert_eq!(pad.regs[REG_Z_IDLE as usize], Z_IDLE_COUNT);
    assert_eq!(pad.regs[REG_SLEEP_INTERVAL as usize], 255);
    assert_eq!(pad.era_mem[&ERA_REG_TRACKING_ADC_CONFIG], 0x00, "1x attenuation");
    assert_eq!(pad.era_mem[&ERA_REG_X_AXIS_WIDE_Z_MIN], 5);
    assert_eq!(pad.era_mem[&ERA_REG_Y_AXIS_WIDE_Z_MIN], 4);
    assert_eq!(
        pad.regs[REG_FEED_CFG2 as usize],
        FEED_CFG2_EN_IM | FEED_CFG2_EN_BTN_SCRL | FEED_CFG2_DIS_SEC | FEED_CFG2_ROTATE_90
    );
    assert_eq!(pad.regs[REG_FEED_CFG1 as usize], FEED_CFG1_EN_FEED | FEED_CFG1_INV_Y);
    assert!(
        pad.write_log.contains(&(REG_SYS_CFG, SYS_CFG_RESET)),
        "the pad must be reset before configuration"
    );
    // Sleep was not requested, so EN_SLEEP must never have been set.
    assert!(!pad
        .write_log
        .iter()
        .any(|&(addr, val)| addr == REG_SYS_CFG && val & SYS_CFG_EN_SLEEP != 0));
}

#[test]
fn packets_become_pointing_events_and_idle_packets_are_suppressed() {
    let mut tracker = PacketTracker::new(7);
    // A movement packet with the primary button tapped.
    assert!(status_has_packet(STATUS1_SW_DR));
    let event = tracker.on_packet([0x01 | PACKET0_X_SIGN, 0xFE, 0x03]).expect("event");
    assert_eq!(event.device_id, 7);
    assert_eq!(event.buttons, 0x01);
    assert_eq!(event.dx, -2);
    assert_eq!(event.dy, 3);
    assert_eq!(event.z, 1, "motion means a finger is present");

    // Button released with no motion: still an event (button edge).
    let event = tracker.on_packet([0, 0, 0]).expect("release event");
    assert_eq!(event.buttons, 0);
    assert_eq!(event.dx, 0);
    assert_eq!(event.z, 0, "an all-zero packet is the liftoff");

    // The next idle packet carries no change and is suppressed.
    assert!(tracker.on_packet([0, 0, 0]).is_none());

    // Stale DR without SW_DR is ignored.
    assert!(!status_has_packet(0));
}

#[test]
fn liftoff_without_a_button_edge_is_reported_exactly_once() {
    let mut tracker = PacketTracker::new(7);
    // Motion with no buttons: presence rides the Z axis.
    let event = tracker.on_packet([0, 0x01, 0]).expect("motion event");
    assert_eq!(event.buttons, 0);
    assert_eq!(event.z, 1);

    // The first Z-idle packet is the liftoff.
    let event = tracker.on_packet([0, 0, 0]).expect("liftoff event");
    assert_eq!(event.dx, 0);
    assert_eq!(event.dy, 0);
    assert_eq!(event.z, 0);

    // The rest of the Z-idle burst is suppressed.
    assert!(tracker.on_packet([0, 0, 0]).is_none());
}

#[test]
fn sleep_is_enabled_before_the_feed_is_configured() {
    let config = PinnacleConfig { sleep: true, ..PinnacleConfig::default() };
    let program = init_program(&config);
    let sleep_at = program.iter().position(|s| *s == InitStep::EnableSleep).unwrap();
    let feed_at = program
        .iter()
        .position(|s| *s == InitStep::Write(REG_FEED_CFG1, feed_cfg1(&config)))
        .unwrap();
    assert!(sleep_at < feed_at);
    let mut pad = FakePinnacle::new();
    pad.run(&program);
    assert_ne!(pad.regs[REG_SYS_CFG as usize] & SYS_CFG_EN_SLEEP, 0);
}

#[test]
fn default_feed_configuration_and_attenuation() {
    let config = PinnacleConfig::default();
    assert_eq!(feed_cfg2(&config), FEED_CFG2_EN_IM | FEED_CFG2_EN_BTN_SCRL);
    assert_eq!(feed_cfg1(&config), FEED_CFG1_EN_FEED);
    assert_eq!(adc_config(0xFF, PinnacleSensitivity::X4), 0xFF);
    assert_eq!(adc_config(0xFF, PinnacleSensitivity::X1), 0x3F);
    assert_eq!(adc_config(0x05, PinnacleSensitivity::X2), 0x45);
    assert_eq!(PinnacleSensitivity::X3.adc_config_bits(), 0x80);
}

#[test]
fn spi_frames_and_write_echo() {
    assert_eq!(write_reg_frame(REG_Z_IDLE, 5), [WRITE | REG_Z_IDLE, 5]);
    assert_eq!(check_write_echo([0, FILLER]), Ok(()));
    assert_eq!(check_write_echo([0, 0x00]), Err(PinnacleError::BadWriteEcho));
    assert_eq!(seq_read_frame(0x12, 3), vec![READ | 0x12, AUTOINC, AUTOINC, AUTOINC, AUTOINC, AUTOINC]);
}

#[test]
fn era_access_splits_the_address() {
    assert_eq!(
        era_write_steps(0x0187, 0x40),
        vec![
            (REG_ERA_VALUE, 0x40),
            (REG_ERA_HIGH_BYTE, 0x01),
            (REG_ERA_LOW_BYTE, 0x87),
            (REG_ERA_CONTROL, ERA_CONTROL_WRITE)
        ]
    );
    assert_eq!(era_read_steps(0x0149)[0], (REG_ERA_HIGH_BYTE, 0x01));
    assert!(era_idle(0));
    assert!(!era_idle(1));
}

#[test]
fn calibration_handshake() {
    assert_eq!(calibrate_request(0x1E), 0x1E | CAL_CFG_CALIBRATE);
    assert!(!calibration_done(0x1F));
    assert!(calibration_done(0x1E));
}

#[test]
fn floating_miso_is_not_a_packet() {
    assert!(!status_has_packet(0xFF));
    assert!(status_has_packet(STATUS1_SW_DR | 0x08));
}
