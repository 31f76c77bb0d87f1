use tps546::{
    fit_block, slave_address_bits, AdcResolution, CompensationConfig, DriverState, MarginMode,
    MiscOptions, OnOffConfig, Operation, PhaseCount, PinDetectOverride, PowerStageConfig,
    ReadAll, SimulateFaults, StackConfig, StatusPhase, SyncConfig, SyncDirection,
    TelemetryChannel, TelemetryConfig, TelemetryPriority, Vdd5Voltage, VoutFormat, DEFAULT_ADDR,
    DEFAULT_VOUT_EXPONENT,
};

#[test]
fn margin_mode_codes_round_trip() {
    let modes = [
        MarginMode::Off,
        MarginMode::MarginLowIgnore,
        MarginMode::MarginLowAct,
        MarginMode::MarginHighIgnore,
        MarginMode::MarginHighAct,
    ];
    for m in modes {
        assert_eq!(MarginMode::from_bits(m.to_bits()), m);
    }
    assert_eq!(MarginMode::MarginHighAct.to_bits(), 0b1001);
    assert_eq!(MarginMode::from_bits(0x14), MarginMode::MarginLowIgnore);
    assert_eq!(MarginMode::from_bits(0x0F), MarginMode::Off);
    assert_eq!(MarginMode::from_bits(0x03), MarginMode::Off);
}

#[test]
fn enum_fields_round_trip() {
    for p in [TelemetryPriority::A, TelemetryPriority::B, TelemetryPriority::C, TelemetryPriority::Disabled] {
        assert_eq!(TelemetryPriority::from_bits(p.to_bits()), p);
    }
    for d in [SyncDirection::Disabled, SyncDirection::SyncOut, SyncDirection::SyncIn, SyncDirection::AutoDetect] {
        assert_eq!(SyncDirection::from_bits(d.to_bits()), d);
    }
    for a in [AdcResolution::Bit12, AdcResolution::Bit10, AdcResolution::Bit8, AdcResolution::Bit6] {
        assert_eq!(AdcResolution::from_bits(a.to_bits()), a);
    }
    for p in [PhaseCount::Single, PhaseCount::TwoPhase, PhaseCount::ThreePhase, PhaseCount::FourPhase] {
        assert_eq!(PhaseCount::from_bits(p.to_bits()), p);
    }
    for v in 0u8..=255 {
        assert_eq!(TelemetryPriority::from_bits(v).to_bits(), v & 0x03);
        assert_eq!(SyncDirection::from_bits(v).to_bits(), v & 0x03);
        assert_eq!(AdcResolution::from_bits(v).to_bits(), v & 0x03);
        let p = v & 0x0F;
        assert_eq!(PhaseCount::from_bits(v).to_bits(), if p < 4 { p } else { 0 });
        assert_eq!(Vdd5Voltage::from_bits(v).to_bits(), if v < 8 { v } else { 7 });
    }
    assert_eq!(Vdd5Voltage::from_bits(3), Vdd5Voltage::V4_5);
    assert_eq!(Vdd5Voltage::from_bits(200), Vdd5Voltage::V5_3);
}

#[test]
fn operation_raw_round_trip_every_byte() {
    for raw in 0u8..=255 {
        let op = Operation::from_raw(raw);
        assert_eq!(op.on, raw & 0x80 != 0);
        assert_eq!(op.soft_off, raw & 0x40 != 0);
        assert_eq!(op.margin, MarginMode::from_bits(raw >> 2));
        assert_eq!(op.to_raw(), raw);
    }
}

#[test]
fn operation_with_margin_updates_bits() {
    let op = Operation::from_raw(0x83);
    assert!(op.on);
    assert_eq!(op.margin, MarginMode::Off);
    let op2 = op.with_margin(MarginMode::MarginHighAct);
    assert_eq!(op2.margin, MarginMode::MarginHighAct);
    assert!(op2.on);
    assert!(!op2.soft_off);
    assert_eq!(op2.to_raw(), 0xA7);
    assert_eq!(Operation::from_raw(op2.to_raw()), op2);
    let op3 = op2.with_margin(MarginMode::Off);
    assert_eq!(op3.to_raw(), 0x83);
}

#[test]
fn on_off_config_raw_round_trip_every_byte() {
    for raw in 0u8..=255 {
        assert_eq!(OnOffConfig::from_raw(raw).to_raw(), raw & 0x1F);
    }
    let cfg = OnOffConfig {
        power_up_control: false,
        cmd_enable: true,
        control_pin_enable: false,
        control_pin_active_high: true,
        immediate_off: false,
    };
    assert_eq!(cfg.to_raw(), 0x0A);
    assert_eq!(OnOffConfig::from_raw(cfg.to_raw()), cfg);
}

#[test]
fn sync_config_raw_round_trip_every_byte() {
    for raw in 0u8..=255 {
        assert_eq!(SyncConfig::from_raw(raw).to_raw(), (raw & 0xE0) | 0x10);
    }
    let cfg = SyncConfig { direction: SyncDirection::SyncIn, rising_edge: false };
    assert_eq!(cfg.to_raw(), 0x90);
    assert_eq!(SyncConfig::from_raw(cfg.to_raw()), cfg);
}

#[test]
fn stack_config_phase_counts() {
    assert_eq!(StackConfig::from_raw(0x0003).phase_count, PhaseCount::FourPhase);
    assert_eq!(StackConfig::from_raw(0xFFF2).phase_count, PhaseCount::ThreePhase);
    assert_eq!(StackConfig::from_raw(0xFFF2).to_raw(), 2);
    assert_eq!(StackConfig::from_raw(0x0005).phase_count, PhaseCount::Single);
    assert_eq!(StackConfig::from_raw(0x0005).to_raw(), 0);
}

#[test]
fn misc_options_raw_round_trip_every_word() {
    for raw in 0u16..=0xFFFF {
        assert_eq!(MiscOptions::from_raw(raw).to_raw(), raw & 0x1B3F);
    }
    let o = MiscOptions::from_raw(0x1B3F);
    assert!(o.pin_detect_stack && o.pin_detect_sync && o.pin_detect_comp);
    assert!(o.pin_detect_address && o.pin_detect_interleave && o.fault_counter_reset);
    assert_eq!(o.pec, 3);
    assert_eq!(o.adc_resolution, AdcResolution::Bit6);
    let mut p = o;
    p.pec = 6;
    assert_eq!(p.to_raw(), 0x1B37);
}

#[test]
fn pin_detect_override_raw_round_trip_every_word() {
    for raw in 0u16..=0xFFFF {
        assert_eq!(PinDetectOverride::from_raw(raw).to_raw(), raw);
    }
    let mut pdo = PinDetectOverride::from_raw(0xC000);
    assert!(!pdo.vout);
    pdo.vout = true;
    pdo.address = true;
    assert_eq!(pdo.to_raw(), 0xC101);
    assert_eq!(PinDetectOverride::from_raw(pdo.to_raw()), pdo);
}

#[test]
fn power_stage_config_voltages() {
    assert_eq!(PowerStageConfig::from_raw(0x30).vdd5, Vdd5Voltage::V4_5);
    assert_eq!(PowerStageConfig::from_raw(0x3F).to_raw(), 0x30);
    assert_eq!(PowerStageConfig::from_raw(0x85).vdd5, Vdd5Voltage::V5_3);
    assert_eq!(PowerStageConfig::from_raw(0x85).to_raw(), 0x70);
    for raw in 0u8..=255 {
        let expect = if raw < 0x80 { raw & 0xF0 } else { 0x70 };
        assert_eq!(PowerStageConfig::from_raw(raw).to_raw(), expect);
    }
}

#[test]
fn telemetry_channel_fields() {
    let c = TelemetryChannel::from_raw(0xFF);
    assert_eq!(c.priority, TelemetryPriority::Disabled);
    assert_eq!(c.averaging, 7);
    assert_eq!(c.to_raw(), 0x1F);
    let d = TelemetryChannel { priority: TelemetryPriority::B, averaging: 0x0D };
    assert_eq!(d.to_raw(), 0x15);
}

#[test]
fn telemetry_config_canonical_bytes() {
    let cfg = TelemetryConfig::from_bytes([0xFF, 0x21, 0x06, 0x1F, 9, 9]);
    assert_eq!(cfg.iout.priority, TelemetryPriority::B);
    assert_eq!(cfg.temp.averaging, 1);
    assert_eq!(cfg.to_bytes(), [0x1F, 0x01, 0x06, 0x1F, 0, 0]);
    assert_eq!(TelemetryConfig::from_bytes(cfg.to_bytes()), cfg);
}

#[test]
fn read_all_little_endian_words() {
    let data = [0x34, 0x12, 0xFF, 0x00, 0x00, 0xFF, 1, 2, 3, 4, 9, 9, 9, 9];
    let ra = ReadAll::from_bytes(data);
    assert_eq!(ra.status_word, 0x1234);
    assert_eq!(ra.vout_raw, 0x00FF);
    assert_eq!(ra.iout_raw, 0xFF00);
    assert_eq!(ra.temperature_raw, 0x0201);
    assert_eq!(ra.vin_raw, 0x0403);
}

#[test]
fn status_phase_flags() {
    let s = StatusPhase::from_raw(0xFFFF);
    assert_eq!(s.to_raw(), 0x000F);
    assert!(s.contains(StatusPhase::PH0 | StatusPhase::PH3));
    let mut t = StatusPhase::from_raw(StatusPhase::PH1);
    assert!(!t.contains(StatusPhase::PH2));
    t.insert(StatusPhase::PH2 | 0x0100);
    assert_eq!(t.bits(), 0x0006);
    t.remove(StatusPhase::PH1);
    assert_eq!(t.bits(), StatusPhase::PH2);
    assert_eq!(StatusPhase::from_raw(t.to_raw()), t);
}

#[test]
fn simulate_faults_flags() {
    let s = SimulateFaults::from_raw(0xFFFF);
    assert_eq!(s.to_raw(), 0xDFBE);
    assert!(!SimulateFaults::from_raw(0x2041).contains(0x0001));
    assert_eq!(SimulateFaults::from_raw(0x2041).to_raw(), 0x0000);
    let mut f = SimulateFaults::from_raw(SimulateFaults::VOUT_OVF);
    f.insert(SimulateFaults::FAULT_PERSIST);
    assert!(f.contains(SimulateFaults::VOUT_OVF | SimulateFaults::FAULT_PERSIST));
    assert_eq!(f.to_raw(), 0x8200);
}

#[test]
fn compensation_config_bytes() {
    let data = [1, 2, 3, 4, 5];
    let c = CompensationConfig::from_bytes(data);
    assert_eq!(c.0, data);
    assert_eq!(c.to_bytes(), data);
}

#[test]
fn fit_block_pads_and_truncates() {
    let short: [u8; 6] = fit_block(&[7, 8, 9]);
    assert_eq!(short, [7, 8, 9, 0, 0, 0]);
    let long: [u8; 5] = fit_block(&[1, 2, 3, 4, 5, 6, 7]);
    assert_eq!(long, [1, 2, 3, 4, 5]);
    let empty: [u8; 7] = fit_block(&[]);
    assert_eq!(empty, [0; 7]);
    let exact: [u8; 14] = fit_block(&[3; 14]);
    assert_eq!(exact, [3; 14]);
}

#[test]
fn slave_address_keeps_seven_bits() {
    assert_eq!(slave_address_bits(0xA4), 0x24);
    assert_eq!(slave_address_bits(0x24), 0x24);
    assert_eq!(slave_address_bits(0xFF), 0x7F);
}

#[test]
fn driver_state_tracks_vout_exponent() {
    let mut st = DriverState::new(DEFAULT_ADDR);
    assert_eq!(st.addr(), 0x24);
    assert_eq!(st.vout_exponent(), DEFAULT_VOUT_EXPONENT);
    assert_eq!(st.vout_exponent(), -9);
    st.note_vout_mode(VoutFormat::ULinear16 { exponent: -12 });
    assert_eq!(st.vout_exponent(), -12);
    st.note_vout_mode(VoutFormat::Vid { code: 1 });
    assert_eq!(st.vout_exponent(), -12);
    st.note_vout_mode(VoutFormat::Direct);
    st.note_vout_mode(VoutFormat::IeeeHalf);
    assert_eq!(st.vout_exponent(), -12);
    st.set_vout_exponent(3);
    assert_eq!(st.vout_exponent(), 3);
    assert_eq!(st.addr(), 0x24);
}

#[test]
fn unrepresentable_value_is_written_as_zero() {
    assert_eq!(tps546::word_or_zero(Some(0x0200)), 0x0200);
    assert_eq!(tps546::word_or_zero(None), 0);
}

#[test]
fn status_phase_set_operations() {
    assert!(StatusPhase::empty().is_empty());
    assert_eq!(StatusPhase::empty().bits(), 0);
    assert!(StatusPhase::all().is_all());
    assert_eq!(StatusPhase::all().bits(), 0x000F);
    assert_eq!(StatusPhase::from_bits(0x0005).map(|s| s.bits()), Some(0x0005));
    assert!(StatusPhase::from_bits(0x0015).is_none());
    let a = StatusPhase::from_raw(StatusPhase::PH0 | StatusPhase::PH1);
    let b = StatusPhase::from_raw(StatusPhase::PH1 | StatusPhase::PH2);
    assert_eq!(a.union(b).bits(), 0x0007);
    assert_eq!(a.intersection(b).bits(), 0x0002);
    assert_eq!(a.difference(b).bits(), 0x0001);
    assert_eq!(a.symmetric_difference(b).bits(), 0x0005);
    assert_eq!(a.complement().bits(), 0x000C);
    assert!(a.intersects(StatusPhase::PH1 | StatusPhase::PH3));
    assert!(!a.intersects(StatusPhase::PH3));
    let mut c = a;
    c.toggle(StatusPhase::PH0 | StatusPhase::PH3 | 0x0100);
    assert_eq!(c.bits(), 0x000A);
    c.set(StatusPhase::PH2, true);
    assert_eq!(c.bits(), 0x000E);
    c.set(StatusPhase::PH1 | StatusPhase::PH3, false);
    assert_eq!(c.bits(), StatusPhase::PH2);
    assert!(!a.is_empty());
    assert!(!a.is_all());
}

#[test]
fn simulate_faults_set_operations() {
    assert_eq!(SimulateFaults::all().to_raw(), 0xDFBE);
    assert_eq!(SimulateFaults::empty().complement().to_raw(), 0xDFBE);
    assert!(SimulateFaults::from_bits(0x0001).is_none());
    let f = SimulateFaults::from_bits(SimulateFaults::TEMP_OTW | SimulateFaults::IOUT_OCW).unwrap();
    assert_eq!(f.bits(), 0x0022);
    let g = SimulateFaults::from_raw(SimulateFaults::IOUT_OCW | SimulateFaults::VIN_OFF);
    assert_eq!(f.union(g).bits(), 0x0822);
    assert_eq!(f.intersection(g).bits(), 0x0002);
    assert_eq!(f.difference(g).bits(), 0x0020);
    assert_eq!(f.symmetric_difference(g).bits(), 0x0820);
    assert_eq!(SimulateFaults::all().difference(f).complement(), f);
}

#[test]
fn operation_with_margin_keeps_other_bits() {
    for raw in 0u8..=255 {
        let op = Operation::from_raw(raw);
        for m in [MarginMode::Off, MarginMode::MarginLowAct, MarginMode::MarginHighIgnore] {
            assert_eq!(op.with_margin(m).to_raw(), (raw & 0xC3) | (m.to_bits() << 2));
        }
    }
}

#[test]
fn flag_operators_and_truncation() {
    let a = StatusPhase::from_bits_truncate(0xFF03);
    assert_eq!(a.bits(), 0x0003);
    let b = StatusPhase::from_raw(StatusPhase::PH1 | StatusPhase::PH2);
    assert_eq!((a | b).bits(), 0x0007);
    assert_eq!((a & b).bits(), 0x0002);
    assert_eq!((a ^ b).bits(), 0x0005);
    assert_eq!((a - b).bits(), 0x0001);
    assert_eq!((!a).bits(), 0x000C);
    let f = SimulateFaults::from_bits_truncate(0xFFFF);
    assert_eq!((!f).bits(), 0);
    assert_eq!((f - SimulateFaults::from_raw(SimulateFaults::TEMP_OTF)).bits(), 0x9FBE);
}

#[test]
fn operation_field_setters() {
    for raw in 0u8..=255 {
        for b in [false, true] {
            let mut op = Operation::from_raw(raw);
            op.set_on(b);
            assert_eq!(op.on(), b);
            assert_eq!(op.to_raw(), (raw & 0x7F) | ((b as u8) << 7));
            let mut op = Operation::from_raw(raw);
            op.set_soft_off(b);
            assert_eq!(op.soft_off(), b);
            assert_eq!(op.margin(), op.margin);
            assert_eq!(op.to_raw(), (raw & 0xBF) | ((b as u8) << 6));
        }
    }
}

#[test]
fn pin_detect_override_field_setters() {
    let raw = 0xC4A2u16;
    for b in [false, true] {
        let bit = |k: u16| (raw & !(1u16 << k)) | ((b as u16) << k);
        let mut p = PinDetectOverride::from_raw(raw);
        p.set_stack_config(b);
        assert_eq!(p.stack_config(), b);
        assert_eq!(p.to_raw(), bit(12));
        let mut p = PinDetectOverride::from_raw(raw);
        p.set_sync_config(b);
        assert_eq!(p.sync_config(), b);
        assert_eq!(p.to_raw(), bit(11));
        let mut p = PinDetectOverride::from_raw(raw);
        p.set_comp_config(b);
        assert_eq!(p.comp_config(), b);
        assert_eq!(p.to_raw(), bit(9));
        let mut p = PinDetectOverride::from_raw(raw);
        p.set_address(b);
        assert_eq!(p.address(), b);
        assert_eq!(p.to_raw(), bit(8));
        let mut p = PinDetectOverride::from_raw(raw);
        p.set_interleave(b);
        assert_eq!(p.interleave(), b);
        assert_eq!(p.to_raw(), bit(5));
        let mut p = PinDetectOverride::from_raw(raw);
        p.set_vout(b);
        assert_eq!(p.vout(), b);
        assert_eq!(p.to_raw(), bit(0));
    }
}
