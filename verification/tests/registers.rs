use tps546::{
    AdcResolution, CompensationConfig, MarginMode, MiscOptions, OnOffConfig, Operation,
    PhaseCount, PinDetectOverride, PowerStageConfig, ReadAll, SimulateFaults, StackConfig,
    StatusAll, StatusPhase, SyncConfig, SyncDirection, TelemetryChannel, TelemetryConfig,
    TelemetryPriority, Vdd5Voltage,
};

#[test]
fn operation_round_trip() {
    let raw = 0x04u8;
    let op = Operation::from_raw(raw);
    assert!(!op.on);
    assert!(!op.soft_off);
    assert_eq!(op.to_raw(), raw);
}

#[test]
fn on_off_config_round_trip() {
    let raw = 0x17u8;
    let cfg = OnOffConfig::from_raw(raw);
    assert!(cfg.power_up_control);
    assert!(!cfg.cmd_enable);
    assert!(cfg.control_pin_enable);
    assert!(cfg.control_pin_active_high);
    assert!(cfg.immediate_off);
    assert_eq!(cfg.to_raw(), raw);
}

#[test]
fn sync_config_round_trip() {
    let raw = 0xF0u8;
    let cfg = SyncConfig::from_raw(raw);
    assert_eq!(cfg.direction as u8, SyncDirection::AutoDetect as u8);
    assert!(cfg.rising_edge);
    assert_eq!(cfg.to_raw(), raw);
}

#[test]
fn stack_config_round_trip() {
    let raw = 0x0000u16;
    let cfg = StackConfig::from_raw(raw);
    assert_eq!(cfg.phase_count as u8, PhaseCount::Single as u8);
    assert_eq!(cfg.to_raw(), raw);
}

#[test]
fn misc_options_round_trip() {
    let raw = 0x0000u16;
    let opts = MiscOptions::from_raw(raw);
    assert!(!opts.pin_detect_stack);
    assert!(!opts.pin_detect_sync);
    assert_eq!(opts.to_raw(), raw);
}

#[test]
fn pin_detect_override_round_trip() {
    let raw = 0x1F2Fu16;
    let pdo = PinDetectOverride::from_raw(raw);
    assert!(pdo.stack_config);
    assert!(pdo.sync_config);
    assert!(pdo.comp_config);
    assert!(pdo.address);
    assert!(pdo.interleave);
    assert!(pdo.vout);
    assert_eq!(pdo.to_raw(), raw);
}

#[test]
fn power_stage_config_round_trip() {
    let raw = 0x70u8;
    let cfg = PowerStageConfig::from_raw(raw);
    assert_eq!(cfg.vdd5 as u8, Vdd5Voltage::V5_3 as u8);
    assert_eq!(cfg.to_raw(), raw);
}

#[test]
fn read_all_parsing() {
    let mut data = [0u8; 14];
    // status_word = 0x0000
    data[0] = 0x00;
    data[1] = 0x00;
    // vout_raw = 0x0100 (ULinear16)
    data[2] = 0x00;
    data[3] = 0x01;
    // iout_raw = 0xD00A => Linear11
    data[4] = 0x0A;
    data[5] = 0xD0;
    // temperature_raw = 0x0C19 => Linear11
    data[6] = 0x19;
    data[7] = 0x0C;
    // vin_raw = 0xE860 => Linear11
    data[8] = 0x60;
    data[9] = 0xE8;

    let ra = ReadAll::from_bytes(data);
    assert_eq!(ra.status_word, 0x0000);
    assert_eq!(ra.vout_raw, 0x0100);
    assert_eq!(ra.iout_raw, 0xD00A);
    assert_eq!(ra.temperature_raw, 0x0C19);
    assert_eq!(ra.vin_raw, 0xE860);
}

#[test]
fn status_all_parsing() {
    let data = [0x01, 0x02, 0x03, 0x04, 0x05, 0x06, 0x07];
    let sa = StatusAll::from_bytes(data);
    assert_eq!(sa.vout, 0x01);
    assert_eq!(sa.iout, 0x02);
    assert_eq!(sa.input, 0x03);
    assert_eq!(sa.temperature, 0x04);
    assert_eq!(sa.cml, 0x05);
    assert_eq!(sa.other, 0x06);
    assert_eq!(sa.mfr, 0x07);
}

#[test]
fn telemetry_config_round_trip() {
    let data = [0x03, 0x03, 0x03, 0x03, 0x00, 0x00];
    let cfg = TelemetryConfig::from_bytes(data);
    assert_eq!(cfg.to_bytes(), data);
}
