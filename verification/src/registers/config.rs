//! Manufacturer configuration registers: SYNC_CONFIG (E4h), STACK_CONFIG
//! (ECh), MISC_OPTIONS (EDh), PIN_DETECT_OVERRIDE (EEh),
//! POWER_STAGE_CONFIG (B5h) and COMPENSATION_CONFIG (B1h).

use vstd::prelude::*;
use crate::bits::{bit_u16, bit_u8, flag16, flag8, flag_u16, flag_u8, lemma_low_masks_u8};

verus! {

// ---------------------------------------------------------------------------
// SYNC_CONFIG
// ---------------------------------------------------------------------------

/// The direction of the SYNC pin.
#[derive(Debug, Clone, Copy, PartialEq, Eq)]
pub enum SyncDirection {
    Disabled,
    SyncOut,
    SyncIn,
    AutoDetect,
}

impl SyncDirection {
    /// The 2-bit field value that selects this direction.
    pub open spec fn code(self) -> u8 {
        match self {
            SyncDirection::Disabled => 0,
            SyncDirection::SyncOut => 1,
            SyncDirection::SyncIn => 2,
            SyncDirection::AutoDetect => 3,
        }
    }

    /// The direction that the low two bits of `val` select.
    pub open spec fn decode(val: u8) -> SyncDirection {
        let v = val & 0x03;
        if v == 0 {
            SyncDirection::Disabled
        } else if v == 1 {
            SyncDirection::SyncOut
        } else if v == 2 {
            SyncDirection::SyncIn
        } else {
            SyncDirection::AutoDetect
        }
    }

    pub fn from_bits(val: u8) -> (r: Self)
        ensures
            r == Self::decode(val),
            (r == SyncDirection::Disabled) <==> (val & 0x03 == 0),
            (r == SyncDirection::SyncOut) <==> (val & 0x03 == 1),
            (r == SyncDirection::SyncIn) <==> (val & 0x03 == 2),
            (r == SyncDirection::AutoDetect) <==> (val & 0x03 == 3),
    {
        proof {
            lemma_low_masks_u8();
            assert(val & 0x03 < 4);
        }
        match val & 0x03 {
            0 => SyncDirection::Disabled,
            1 => SyncDirection::SyncOut,
            2 => SyncDirection::SyncIn,
            _ => SyncDirection::AutoDetect,
        }
    }

    pub fn to_bits(self) -> (r: u8)
        ensures
            r == self.code(),
            self == SyncDirection::Disabled ==> r == 0,
            self == SyncDirection::SyncOut ==> r == 1,
            self == SyncDirection::SyncIn ==> r == 2,
            self == SyncDirection::AutoDetect ==> r == 3,
    {
        match self {
            SyncDirection::Disabled => 0,
            SyncDirection::SyncOut => 1,
            SyncDirection::SyncIn => 2,
            SyncDirection::AutoDetect => 3,
        }
    }
}

/// Decoding a direction's field value gives that direction back, and
/// re-encoding a decoded field keeps its low two bits.
pub proof fn lemma_sync_direction_round_trip(d: SyncDirection, val: u8)
    ensures
        SyncDirection::decode(d.code()) == d,
        SyncDirection::decode(val).code() == val & 0x03,
        d.code() < 4,
{
    lemma_low_masks_u8();
    assert(d.code() & 0x03 == d.code());
    assert(val & 0x03 < 4);
}

/// The SYNC_CONFIG direction field values (bits [7:6]): Disabled is 0,
/// SyncOut 1, SyncIn 2 and AutoDetect 3. A field value, and a raw
/// SYNC_CONFIG byte, reads as a direction exactly when the field holds that
/// direction's value, and a configuration encodes its direction there
/// (0x00, 0x40, 0x80 or 0xC0 in bits [7:6]).
pub proof fn lemma_sync_direction_field_values(val: u8, raw: u8, c: SyncConfig)
    ensures
        SyncDirection::Disabled.code() == 0,
        SyncDirection::SyncOut.code() == 1,
        SyncDirection::SyncIn.code() == 2,
        SyncDirection::AutoDetect.code() == 3,
        (SyncDirection::decode(val) == SyncDirection::Disabled) <==> (val & 0x03 == 0),
        (SyncDirection::decode(val) == SyncDirection::SyncOut) <==> (val & 0x03 == 1),
        (SyncDirection::decode(val) == SyncDirection::SyncIn) <==> (val & 0x03 == 2),
        (SyncDirection::decode(val) == SyncDirection::AutoDetect) <==> (val & 0x03 == 3),
        (SyncConfig::decode(raw).direction == SyncDirection::Disabled) <==> (raw >> 6 == 0),
        (SyncConfig::decode(raw).direction == SyncDirection::SyncOut) <==> (raw >> 6 == 1),
        (SyncConfig::decode(raw).direction == SyncDirection::SyncIn) <==> (raw >> 6 == 2),
        (SyncConfig::decode(raw).direction == SyncDirection::AutoDetect) <==> (raw >> 6 == 3),
        c.direction == SyncDirection::Disabled ==> c.encode() & 0xC0 == 0x00,
        c.direction == SyncDirection::SyncOut ==> c.encode() & 0xC0 == 0x40,
        c.direction == SyncDirection::SyncIn ==> c.encode() & 0xC0 == 0x80,
        c.direction == SyncDirection::AutoDetect ==> c.encode() & 0xC0 == 0xC0,
{
    lemma_low_masks_u8();
    assert(val & 0x03 < 4);
    let d = c.direction.code();
    let e = c.rising_edge;
    assert({
        &&& ((raw >> 6) & 0x03) & 0x03 == raw >> 6
        &&& (d < 4 ==> ((d << 6) | (if e { 1u8 << 5 } else { 0 }) | 0x10) & 0xC0 == d << 6)
        &&& 0u8 << 6 == 0x00 && 1u8 << 6 == 0x40 && 2u8 << 6 == 0x80 && 3u8 << 6 == 0xC0
    }) by (bit_vector);
}

/// SYNC_CONFIG (E4h): SYNC pin direction in bits [7:6] and the clock edge
/// in bit 5. Bit 4 is written as one.
#[derive(Debug, Clone, Copy, PartialEq, Eq)]
pub struct SyncConfig {
    pub direction: SyncDirection,
    pub rising_edge: bool,
}

impl SyncConfig {
    /// What a raw SYNC_CONFIG byte decodes to.
    pub open spec fn decode(raw: u8) -> SyncConfig {
        SyncConfig {
            direction: SyncDirection::decode((raw >> 6) & 0x03),
            rising_edge: bit_u8(raw, 5),
        }
    }

    /// The raw SYNC_CONFIG byte that this value encodes to.
    pub open spec fn encode(self) -> u8 {
        (self.direction.code() << 6) | flag_u8(self.rising_edge, 5) | 0x10
    }

    pub fn from_raw(raw: u8) -> (r: Self)
        ensures
            r == Self::decode(raw),
    {
        SyncConfig {
            direction: SyncDirection::from_bits((raw >> 6) & 0x03),
            rising_edge: (raw >> 5) & 1 != 0,
        }
    }

    pub fn to_raw(self) -> (r: u8)
        ensures
            r == self.encode(),
    {
        (self.direction.to_bits() << 6) | flag8(self.rising_edge, 5) | 0x10
    }
}

/// The SYNC_CONFIG bit map below the direction: the rising edge is bit 5
/// (0x20); a configuration encodes bit 4 (0x10) set and bits [3:0] clear.
pub proof fn lemma_sync_config_layout(raw: u8, c: SyncConfig)
    ensures
        SyncConfig::decode(raw).rising_edge <==> raw & 0x20 != 0,
        (c.encode() & 0x20 != 0) <==> c.rising_edge,
        c.encode() & 0x1F == 0x10,
{
    let d = c.direction.code();
    let e = c.rising_edge;
    lemma_sync_direction_round_trip(c.direction, 0);
    assert(((raw >> 5) & 1 != 0 <==> raw & 0x20 != 0) && (d < 4 ==> ((((d << 6) | (if e {
        1u8 << 5
    } else {
        0
    }) | 0x10) & 0x20 != 0) <==> e) && ((d << 6) | (if e { 1u8 << 5 } else { 0 }) | 0x10) & 0x1F
        == 0x10)) by (bit_vector);
}

/// Reading SYNC_CONFIG and writing it back keeps bits [7:5], sets bit 4 and
/// clears bits [3:0].
pub proof fn lemma_sync_config_raw_round_trip(raw: u8)
    ensures
        SyncConfig::decode(raw).encode() == (raw & 0xE0) | 0x10,
{
    lemma_sync_direction_round_trip(SyncDirection::Disabled, (raw >> 6) & 0x03);
    assert(((((raw >> 6) & 0x03) & 0x03) << 6) | (if (raw >> 5) & 1 != 0 { 1u8 << 5 } else { 0 })
        | 0x10 == (raw & 0xE0) | 0x10) by (bit_vector);
}

/// Every SYNC_CONFIG value decodes back from its encoding.
pub proof fn lemma_sync_config_value_round_trip(c: SyncConfig)
    ensures
        SyncConfig::decode(c.encode()) == c,
{
    lemma_sync_direction_round_trip(c.direction, 0);
    let d = c.direction.code();
    let e = c.rising_edge;
    assert({
        let r = (d << 6) | (if e { 1u8 << 5 } else { 0 }) | 0x10;
        &&& (r >> 6) & 0x03 == d
        &&& ((r >> 5) & 1 != 0) == e
    }) by (bit_vector)
        requires
            d < 4,
    ;
}

// ---------------------------------------------------------------------------
// STACK_CONFIG
// ---------------------------------------------------------------------------

/// The number of phases in a stack.
#[derive(Debug, Clone, Copy, PartialEq, Eq)]
pub enum PhaseCount {
    Single,
    TwoPhase,
    ThreePhase,
    FourPhase,
}

impl PhaseCount {
    /// The 4-bit field value that selects this phase count.
    pub open spec fn code(self) -> u8 {
        match self {
            PhaseCount::Single => 0,
            PhaseCount::TwoPhase => 1,
            PhaseCount::ThreePhase => 2,
            PhaseCount::FourPhase => 3,
        }
    }

    /// The phase count that the low four bits of `val` select; a field value
    /// above 3 reads as `Single`.
    pub open spec fn decode(val: u8) -> PhaseCount {
        let v = val & 0x0F;
        if v == 1 {
            PhaseCount::TwoPhase
        } else if v == 2 {
            PhaseCount::ThreePhase
        } else if v == 3 {
            PhaseCount::FourPhase
        } else {
            PhaseCount::Single
        }
    }

    pub fn from_bits(val: u8) -> (r: Self)
        ensures
            r == Self::decode(val),
            (r == PhaseCount::TwoPhase) <==> (val & 0x0F == 1),
            (r == PhaseCount::ThreePhase) <==> (val & 0x0F == 2),
            (r == PhaseCount::FourPhase) <==> (val & 0x0F == 3),
            (r == PhaseCount::Single) <==> (val & 0x0F == 0 || val & 0x0F > 3),
    {
        match val & 0x0F {
            0 => PhaseCount::Single,
            1 => PhaseCount::TwoPhase,
            2 => PhaseCount::ThreePhase,
            3 => PhaseCount::FourPhase,
            _ => PhaseCount::Single,
        }
    }

    pub fn to_bits(self) -> (r: u8)
        ensures
            r == self.code(),
            self == PhaseCount::Single ==> r == 0,
            self == PhaseCount::TwoPhase ==> r == 1,
            self == PhaseCount::ThreePhase ==> r == 2,
            self == PhaseCount::FourPhase ==> r == 3,
    {
        match self {
            PhaseCount::Single => 0,
            PhaseCount::TwoPhase => 1,
            PhaseCount::ThreePhase => 2,
            PhaseCount::FourPhase => 3,
        }
    }
}

/// Decoding a phase count's field value gives it back; re-encoding a decoded
/// field keeps its low four bits when they are at most 3, and gives 0 otherwise.
pub proof fn lemma_phase_count_round_trip(p: PhaseCount, val: u8)
    ensures
        PhaseCount::decode(p.code()) == p,
        PhaseCount::decode(val).code() == (if val & 0x0F < 4 {
            val & 0x0F
        } else {
            0
        }),
        p.code() < 4,
{
    lemma_low_masks_u8();
    assert(p.code() & 0x0F == p.code());
}

/// The STACK_CONFIG phase-count field values (bits [3:0]): one phase is 0,
/// two phases 1, three 2 and four 3; a value above 3 reads as one phase. A
/// raw STACK_CONFIG word reads as a phase count exactly when bits [3:0] hold
/// its value, and a configuration encodes as that value alone.
pub proof fn lemma_phase_count_field_values(val: u8, raw: u16, c: StackConfig)
    ensures
        PhaseCount::Single.code() == 0,
        PhaseCount::TwoPhase.code() == 1,
        PhaseCount::ThreePhase.code() == 2,
        PhaseCount::FourPhase.code() == 3,
        (PhaseCount::decode(val) == PhaseCount::TwoPhase) <==> (val & 0x0F == 1),
        (PhaseCount::decode(val) == PhaseCount::ThreePhase) <==> (val & 0x0F == 2),
        (PhaseCount::decode(val) == PhaseCount::FourPhase) <==> (val & 0x0F == 3),
        (PhaseCount::decode(val) == PhaseCount::Single) <==> (val & 0x0F == 0 || val & 0x0F > 3),
        (StackConfig::decode(raw).phase_count == PhaseCount::TwoPhase) <==> (raw & 0x0F == 1),
        (StackConfig::decode(raw).phase_count == PhaseCount::ThreePhase) <==> (raw & 0x0F == 2),
        (StackConfig::decode(raw).phase_count == PhaseCount::FourPhase) <==> (raw & 0x0F == 3),
        (StackConfig::decode(raw).phase_count == PhaseCount::Single) <==> (raw & 0x0F == 0 || raw
            & 0x0F > 3),
        c.phase_count == PhaseCount::Single ==> c.encode() == 0,
        c.phase_count == PhaseCount::TwoPhase ==> c.encode() == 1,
        c.phase_count == PhaseCount::ThreePhase ==> c.encode() == 2,
        c.phase_count == PhaseCount::FourPhase ==> c.encode() == 3,
{
    let v = (raw & 0x0F) as u8;
    assert(v & 0x0F == v && v as u16 == raw & 0x0F) by (bit_vector)
        requires
            v == (raw & 0x0F) as u8,
    ;
}

/// STACK_CONFIG (ECh): the phase count in bits [3:0].
#[derive(Debug, Clone, Copy, PartialEq, Eq)]
pub struct StackConfig {
    pub phase_count: PhaseCount,
}

impl StackConfig {
    /// What a raw STACK_CONFIG word decodes to.
    pub open spec fn decode(raw: u16) -> StackConfig {
        StackConfig { phase_count: PhaseCount::decode((raw & 0x0F) as u8) }
    }

    /// The raw STACK_CONFIG word that this value encodes to.
    pub open spec fn encode(self) -> u16 {
        self.phase_count.code() as u16
    }

    pub fn from_raw(raw: u16) -> (r: Self)
        ensures
            r == Self::decode(raw),
    {
        StackConfig { phase_count: PhaseCount::from_bits((raw & 0x0F) as u8) }
    }

    pub fn to_raw(self) -> (r: u16)
        ensures
            r == self.encode(),
    {
        self.phase_count.to_bits() as u16
    }
}

/// Reading STACK_CONFIG and writing it back keeps bits [3:0] when they name
/// a phase count and gives 0 otherwise; all other bits are cleared.
pub proof fn lemma_stack_config_raw_round_trip(raw: u16)
    ensures
        StackConfig::decode(raw).encode() == (if raw & 0x0F < 4 {
            raw & 0x0F
        } else {
            0
        }),
{
    let v = (raw & 0x0F) as u8;
    lemma_phase_count_round_trip(PhaseCount::Single, v);
    assert(v & 0x0F == v && v as u16 == raw & 0x0F) by (bit_vector)
        requires
            v == (raw & 0x0F) as u8,
    ;
}

/// Every STACK_CONFIG value decodes back from its encoding.
pub proof fn lemma_stack_config_value_round_trip(c: StackConfig)
    ensures
        StackConfig::decode(c.encode()) == c,
{
    lemma_phase_count_round_trip(c.phase_count, 0);
    let p = c.phase_count.code();
    assert(((p as u16) & 0x0F) as u8 == p) by (bit_vector)
        requires
            p < 4,
    ;
}

// ---------------------------------------------------------------------------
// MISC_OPTIONS
// ---------------------------------------------------------------------------

/// The telemetry ADC resolution.
#[derive(Debug, Clone, Copy, PartialEq, Eq)]
pub enum AdcResolution {
    Bit12,
    Bit10,
    Bit8,
    Bit6,
}

impl AdcResolution {
    /// The 2-bit field value that selects this resolution.
    pub open spec fn code(self) -> u8 {
        match self {
            AdcResolution::Bit12 => 0,
            AdcResolution::Bit10 => 1,
            AdcResolution::Bit8 => 2,
            AdcResolution::Bit6 => 3,
        }
    }

    /// The resolution that the low two bits of `val` select.
    pub open spec fn decode(val: u8) -> AdcResolution {
        let v = val & 0x03;
        if v == 0 {
            AdcResolution::Bit12
        } else if v == 1 {
            AdcResolution::Bit10
        } else if v == 2 {
            AdcResolution::Bit8
        } else {
            AdcResolution::Bit6
        }
    }

    pub fn from_bits(val: u8) -> (r: Self)
        ensures
            r == Self::decode(val),
            (r == AdcResolution::Bit12) <==> (val & 0x03 == 0),
            (r == AdcResolution::Bit10) <==> (val & 0x03 == 1),
            (r == AdcResolution::Bit8) <==> (val & 0x03 == 2),
            (r == AdcResolution::Bit6) <==> (val & 0x03 == 3),
    {
        proof {
            lemma_low_masks_u8();
            assert(val & 0x03 < 4);
        }
        match val & 0x03 {
            0 => AdcResolution::Bit12,
            1 => AdcResolution::Bit10,
            2 => AdcResolution::Bit8,
            _ => AdcResolution::Bit6,
        }
    }

    pub fn to_bits(self) -> (r: u8)
        ensures
            r == self.code(),
            self == AdcResolution::Bit12 ==> r == 0,
            self == AdcResolution::Bit10 ==> r == 1,
            self == AdcResolution::Bit8 ==> r == 2,
            self == AdcResolution::Bit6 ==> r == 3,
    {
        match self {
            AdcResolution::Bit12 => 0,
            AdcResolution::Bit10 => 1,
            AdcResolution::Bit8 => 2,
            AdcResolution::Bit6 => 3,
        }
    }
}

/// Decoding a resolution's field value gives it back, and re-encoding a
/// decoded field keeps its low two bits.
pub proof fn lemma_adc_resolution_round_trip(a: AdcResolution, val: u8)
    ensures
        AdcResolution::decode(a.code()) == a,
        AdcResolution::decode(val).code() == val & 0x03,
        a.code() < 4,
{
    lemma_low_masks_u8();
    assert(a.code() & 0x03 == a.code());
    assert(val & 0x03 < 4);
}

/// The MISC_OPTIONS ADC resolution field values (bits [1:0]): 12-bit is 0,
/// 10-bit 1, 8-bit 2 and 6-bit 3. A field value, and a raw MISC_OPTIONS word,
/// reads as a resolution exactly when bits [1:0] hold that resolution's
/// value, and an options value encodes its resolution there.
pub proof fn lemma_adc_resolution_field_values(val: u8, raw: u16, o: MiscOptions)
    ensures
        AdcResolution::Bit12.code() == 0,
        AdcResolution::Bit10.code() == 1,
        AdcResolution::Bit8.code() == 2,
        AdcResolution::Bit6.code() == 3,
        (AdcResolution::decode(val) == AdcResolution::Bit12) <==> (val & 0x03 == 0),
        (AdcResolution::decode(val) == AdcResolution::Bit10) <==> (val & 0x03 == 1),
        (AdcResolution::decode(val) == AdcResolution::Bit8) <==> (val & 0x03 == 2),
        (AdcResolution::decode(val) == AdcResolution::Bit6) <==> (val & 0x03 == 3),
        (MiscOptions::decode(raw).adc_resolution == AdcResolution::Bit12) <==> (raw & 0x03 == 0),
        (MiscOptions::decode(raw).adc_resolution == AdcResolution::Bit10) <==> (raw & 0x03 == 1),
        (MiscOptions::decode(raw).adc_resolution == AdcResolution::Bit8) <==> (raw & 0x03 == 2),
        (MiscOptions::decode(raw).adc_resolution == AdcResolution::Bit6) <==> (raw & 0x03 == 3),
        o.adc_resolution == AdcResolution::Bit12 ==> o.encode() & 0x03 == 0,
        o.adc_resolution == AdcResolution::Bit10 ==> o.encode() & 0x03 == 1,
        o.adc_resolution == AdcResolution::Bit8 ==> o.encode() & 0x03 == 2,
        o.adc_resolution == AdcResolution::Bit6 ==> o.encode() & 0x03 == 3,
{
    lemma_low_masks_u8();
    assert(val & 0x03 < 4);
    let s = o.pin_detect_stack;
    let y = o.pin_detect_sync;
    let c = o.pin_detect_comp;
    let d = o.pin_detect_address;
    let i = o.pin_detect_interleave;
    let p = o.pec;
    let f = o.fault_counter_reset;
    let a = o.adc_resolution.code();
    assert({
        &&& ((raw & 0x03) as u8) & 0x03 == (raw & 0x03) as u8
        &&& ((raw & 0x03) as u8) as u16 == raw & 0x03
        &&& (a < 4 ==> ((if s { 1u16 << 12 } else { 0 }) | (if y { 1u16 << 11 } else { 0 }) | (
        if c {
            1u16 << 9
        } else {
            0
        }) | (if d { 1u16 << 8 } else { 0 }) | (if i { 1u16 << 5 } else { 0 }) | (((p & 0x03)
            as u16) << 3) | (if f { 1u16 << 2 } else { 0 }) | (a as u16)) & 0x03 == a as u16)
    }) by (bit_vector);
}

/// MISC_OPTIONS (EDh).
#[derive(Debug, Clone, Copy, PartialEq, Eq)]
pub struct MiscOptions {
    pub pin_detect_stack: bool,
    pub pin_detect_sync: bool,
    pub pin_detect_comp: bool,
    pub pin_detect_address: bool,
    pub pin_detect_interleave: bool,
    pub pec: u8,
    pub fault_counter_reset: bool,
    pub adc_resolution: AdcResolution,
}

/// The bits of MISC_OPTIONS that `MiscOptions` names: 12, 11, 9, 8, 5, [4:3],
/// 2 and [1:0].
pub const MISC_OPTIONS_KNOWN_MASK: u16 = 0x1B3F;

impl MiscOptions {
    /// What a raw MISC_OPTIONS word decodes to.
    pub open spec fn decode(raw: u16) -> MiscOptions {
        MiscOptions {
            pin_detect_stack: bit_u16(raw, 12),
            pin_detect_sync: bit_u16(raw, 11),
            pin_detect_comp: bit_u16(raw, 9),
            pin_detect_address: bit_u16(raw, 8),
            pin_detect_interleave: bit_u16(raw, 5),
            pec: ((raw >> 3) & 0x03) as u8,
            fault_counter_reset: bit_u16(raw, 2),
            adc_resolution: AdcResolution::decode((raw & 0x03) as u8),
        }
    }

    /// The raw MISC_OPTIONS word that this value encodes to; only the low two
    /// bits of `pec` are kept.
    pub open spec fn encode(self) -> u16 {
        flag_u16(self.pin_detect_stack, 12) | flag_u16(self.pin_detect_sync, 11) | flag_u16(
            self.pin_detect_comp,
            9,
        ) | flag_u16(self.pin_detect_address, 8) | flag_u16(self.pin_detect_interleave, 5) | (((
        self.pec & 0x03) as u16) << 3) | flag_u16(self.fault_counter_reset, 2)
            | (self.adc_resolution.code() as u16)
    }

    /// `pec` fits its 2-bit field.
    pub open spec fn wf(self) -> bool {
        self.pec < 4
    }

    pub fn from_raw(raw: u16) -> (r: Self)
        ensures
            r == Self::decode(raw),
            r.wf(),
    {
        proof {
            let p = ((raw >> 3) & 0x03) as u8;
            assert(p < 4) by (bit_vector)
                requires
                    p == ((raw >> 3) & 0x03) as u8,
            ;
        }
        MiscOptions {
            pin_detect_stack: (raw >> 12) & 1 != 0,
            pin_detect_sync: (raw >> 11) & 1 != 0,
            pin_detect_comp: (raw >> 9) & 1 != 0,
            pin_detect_address: (raw >> 8) & 1 != 0,
            pin_detect_interleave: (raw >> 5) & 1 != 0,
            pec: ((raw >> 3) & 0x03) as u8,
            fault_counter_reset: (raw >> 2) & 1 != 0,
            adc_resolution: AdcResolution::from_bits((raw & 0x03) as u8),
        }
    }

    pub fn to_raw(self) -> (r: u16)
        ensures
            r == self.encode(),
    {
        proof {
            lemma_low_masks_u8();
            assert(self.pec & 0x03 < 4);
            lemma_adc_resolution_round_trip(self.adc_resolution, 0);
        }
        flag16(self.pin_detect_stack, 12) | flag16(self.pin_detect_sync, 11) | flag16(
            self.pin_detect_comp,
            9,
        ) | flag16(self.pin_detect_address, 8) | flag16(self.pin_detect_interleave, 5) | (((
        self.pec & 0x03) as u16) << 3) | flag16(self.fault_counter_reset, 2)
            | (self.adc_resolution.to_bits() as u16)
    }
}

/// The MISC_OPTIONS bit map: stack pin detect is bit 12 (0x1000), sync bit
/// 11 (0x0800), compensation bit 9 (0x0200), address bit 8 (0x0100),
/// interleave bit 5 (0x0020), PEC bits [4:3] (0x0018) and fault counter
/// reset bit 2 (0x0004); an options value encodes each field there and sets
/// no other bit above bit 1.
pub proof fn lemma_misc_options_layout(raw: u16, o: MiscOptions)
    ensures
        MiscOptions::decode(raw).pin_detect_stack <==> raw & 0x1000 != 0,
        MiscOptions::decode(raw).pin_detect_sync <==> raw & 0x0800 != 0,
        MiscOptions::decode(raw).pin_detect_comp <==> raw & 0x0200 != 0,
        MiscOptions::decode(raw).pin_detect_address <==> raw & 0x0100 != 0,
        MiscOptions::decode(raw).pin_detect_interleave <==> raw & 0x0020 != 0,
        MiscOptions::decode(raw).pec as u16 == (raw & 0x0018) >> 3,
        MiscOptions::decode(raw).fault_counter_reset <==> raw & 0x0004 != 0,
        (o.encode() & 0x1000 != 0) <==> o.pin_detect_stack,
        (o.encode() & 0x0800 != 0) <==> o.pin_detect_sync,
        (o.encode() & 0x0200 != 0) <==> o.pin_detect_comp,
        (o.encode() & 0x0100 != 0) <==> o.pin_detect_address,
        (o.encode() & 0x0020 != 0) <==> o.pin_detect_interleave,
        (o.encode() & 0x0018) >> 3 == (o.pec & 0x03) as u16,
        (o.encode() & 0x0004 != 0) <==> o.fault_counter_reset,
        o.encode() & !0x1B3Fu16 == 0,
{
    lemma_adc_resolution_round_trip(o.adc_resolution, 0);
    let s = o.pin_detect_stack;
    let y = o.pin_detect_sync;
    let c = o.pin_detect_comp;
    let d = o.pin_detect_address;
    let i = o.pin_detect_interleave;
    let p = o.pec;
    let f = o.fault_counter_reset;
    let a = o.adc_resolution.code();
    assert({
        let r = (if s { 1u16 << 12 } else { 0 }) | (if y { 1u16 << 11 } else { 0 }) | (if c {
            1u16 << 9
        } else {
            0
        }) | (if d { 1u16 << 8 } else { 0 }) | (if i { 1u16 << 5 } else { 0 }) | (((p & 0x03)
            as u16) << 3) | (if f { 1u16 << 2 } else { 0 }) | (a as u16);
        &&& ((raw >> 12) & 1 != 0 <==> raw & 0x1000 != 0)
        &&& ((raw >> 11) & 1 != 0 <==> raw & 0x0800 != 0)
        &&& ((raw >> 9) & 1 != 0 <==> raw & 0x0200 != 0)
        &&& ((raw >> 8) & 1 != 0 <==> raw & 0x0100 != 0)
        &&& ((raw >> 5) & 1 != 0 <==> raw & 0x0020 != 0)
        &&& (((raw >> 3) & 0x03) as u8) as u16 == (raw & 0x0018) >> 3
        &&& ((raw >> 2) & 1 != 0 <==> raw & 0x0004 != 0)
        &&& (a < 4 ==> {
            &&& (r & 0x1000 != 0) == s
            &&& (r & 0x0800 != 0) == y
            &&& (r & 0x0200 != 0) == c
            &&& (r & 0x0100 != 0) == d
            &&& (r & 0x0020 != 0) == i
            &&& (r & 0x0018) >> 3 == (p & 0x03) as u16
            &&& (r & 0x0004 != 0) == f
            &&& r & !0x1B3Fu16 == 0
        })
    }) by (bit_vector);
}

/// Reading MISC_OPTIONS and writing it back keeps the named bits and clears
/// the others.
pub proof fn lemma_misc_options_raw_round_trip(raw: u16)
    ensures
        MiscOptions::decode(raw).encode() == raw & MISC_OPTIONS_KNOWN_MASK,
{
    let a = (raw & 0x03) as u8;
    lemma_adc_resolution_round_trip(AdcResolution::Bit12, a);
    assert((if (raw >> 12) & 1 != 0 { 1u16 << 12 } else { 0 }) | (if (raw >> 11) & 1 != 0 {
        1u16 << 11
    } else {
        0
    }) | (if (raw >> 9) & 1 != 0 { 1u16 << 9 } else { 0 }) | (if (raw >> 8) & 1 != 0 {
        1u16 << 8
    } else {
        0
    }) | (if (raw >> 5) & 1 != 0 { 1u16 << 5 } else { 0 }) | (((((raw >> 3) & 0x03) as u8
        & 0x03) as u16) << 3) | (if (raw >> 2) & 1 != 0 { 1u16 << 2 } else { 0 }) | ((a & 0x03) as u16)
        == raw & 0x1B3F) by (bit_vector)
        requires
            a == (raw & 0x03) as u8,
    ;
}

/// A MISC_OPTIONS value whose `pec` fits its field decodes back from its
/// encoding.
pub proof fn lemma_misc_options_value_round_trip(o: MiscOptions)
    requires
        o.wf(),
    ensures
        MiscOptions::decode(o.encode()) == o,
{
    lemma_adc_resolution_round_trip(o.adc_resolution, 0);
    let s = o.pin_detect_stack;
    let y = o.pin_detect_sync;
    let c = o.pin_detect_comp;
    let d = o.pin_detect_address;
    let i = o.pin_detect_interleave;
    let p = o.pec;
    let f = o.fault_counter_reset;
    let a = o.adc_resolution.code();
    assert({
        let r = (if s { 1u16 << 12 } else { 0 }) | (if y { 1u16 << 11 } else { 0 }) | (if c {
            1u16 << 9
        } else {
            0
        }) | (if d { 1u16 << 8 } else { 0 }) | (if i { 1u16 << 5 } else { 0 }) | (((p & 0x03)
            as u16) << 3) | (if f { 1u16 << 2 } else { 0 }) | (a as u16);
        &&& ((r >> 12) & 1 != 0) == s
        &&& ((r >> 11) & 1 != 0) == y
        &&& ((r >> 9) & 1 != 0) == c
        &&& ((r >> 8) & 1 != 0) == d
        &&& ((r >> 5) & 1 != 0) == i
        &&& ((r >> 3) & 0x03) as u8 == p
        &&& ((r >> 2) & 1 != 0) == f
        &&& (r & 0x03) as u8 == a
    }) by (bit_vector)
        requires
            p < 4,
            a < 4,
    ;
}

// ---------------------------------------------------------------------------
// PIN_DETECT_OVERRIDE
// ---------------------------------------------------------------------------

/// The bits of PIN_DETECT_OVERRIDE that `PinDetectOverride` names: 12, 11,
/// 9, 8, 5 and 0.
pub const PDO_KNOWN_MASK: u16 = 0x1B21;

/// PIN_DETECT_OVERRIDE (EEh). The bits it does not name are held as read,
/// so that they survive a read and a write back.
#[derive(Debug, Clone, Copy, PartialEq, Eq)]
pub struct PinDetectOverride {
    pub stack_config: bool,
    pub sync_config: bool,
    pub comp_config: bool,
    pub address: bool,
    pub interleave: bool,
    pub vout: bool,
    raw_spare: u16,
}

/// What a `PinDetectOverride` holds: its named fields and the other bits as held.
pub struct PinDetectOverrideView {
    pub stack_config: bool,
    pub sync_config: bool,
    pub comp_config: bool,
    pub address: bool,
    pub interleave: bool,
    pub vout: bool,
    pub spare: u16,
}

impl PinDetectOverrideView {
    /// The raw PIN_DETECT_OVERRIDE word that this value encodes to.
    pub open spec fn encode(self) -> u16 {
        flag_u16(self.stack_config, 12) | flag_u16(self.sync_config, 11) | flag_u16(
            self.comp_config,
            9,
        ) | flag_u16(self.address, 8) | flag_u16(self.interleave, 5) | flag_u16(self.vout, 0)
            | self.spare
    }

    /// The held bits overlap no named bit; every value this module hands out
    /// has this property.
    pub open spec fn wf(self) -> bool {
        self.spare & PDO_KNOWN_MASK == 0
    }
}

impl View for PinDetectOverride {
    type V = PinDetectOverrideView;

    closed spec fn view(&self) -> PinDetectOverrideView {
        PinDetectOverrideView {
            stack_config: self.stack_config,
            sync_config: self.sync_config,
            comp_config: self.comp_config,
            address: self.address,
            interleave: self.interleave,
            vout: self.vout,
            spare: self.raw_spare,
        }
    }
}

impl PinDetectOverride {
    /// Every `PinDetectOverride` holds spare bits that miss the named ones.
    #[verifier::type_invariant]
    spec fn spare_bits_unnamed(self) -> bool {
        self@.wf()
    }

    /// What a raw PIN_DETECT_OVERRIDE word decodes to.
    pub open spec fn decode(raw: u16) -> PinDetectOverrideView {
        PinDetectOverrideView {
            stack_config: bit_u16(raw, 12),
            sync_config: bit_u16(raw, 11),
            comp_config: bit_u16(raw, 9),
            address: bit_u16(raw, 8),
            interleave: bit_u16(raw, 5),
            vout: raw & 1 != 0,
            spare: raw & !PDO_KNOWN_MASK,
        }
    }

    pub fn from_raw(raw: u16) -> (r: Self)
        ensures
            r@ == Self::decode(raw),
            r@.wf(),
    {
        proof {
            assert((raw & !0x1B21u16) & 0x1B21 == 0) by (bit_vector);
        }
        PinDetectOverride {
            stack_config: (raw >> 12) & 1 != 0,
            sync_config: (raw >> 11) & 1 != 0,
            comp_config: (raw >> 9) & 1 != 0,
            address: (raw >> 8) & 1 != 0,
            interleave: (raw >> 5) & 1 != 0,
            vout: raw & 1 != 0,
            raw_spare: raw & !PDO_KNOWN_MASK,
        }
    }

    pub fn to_raw(self) -> (r: u16)
        ensures
            r == self@.encode(),
            self@.wf(),
    {
        proof {
            use_type_invariant(&self);
        }
        flag16(self.stack_config, 12) | flag16(self.sync_config, 11) | flag16(self.comp_config, 9)
            | flag16(self.address, 8) | flag16(self.interleave, 5) | flag16(self.vout, 0)
            | self.raw_spare
    }

    pub fn stack_config(&self) -> (r: bool)
        ensures
            r == self@.stack_config,
    {
        self.stack_config
    }

    /// Writes the `stack_config` flag: bit 12 of the encoding becomes `b`, and the
    /// other bits stay.
    pub fn set_stack_config(&mut self, b: bool)
        ensures
            final(self)@ == (PinDetectOverrideView { stack_config: b, ..old(self)@ }),
            final(self)@.encode() == (old(self)@.encode() & !(1u16 << 12u16)) | flag_u16(b, 12),
    {
        proof {
            use_type_invariant(&*self);
            lemma_pin_detect_override_field_writes(self@, b);
        }
        self.stack_config = b;
    }

    pub fn sync_config(&self) -> (r: bool)
        ensures
            r == self@.sync_config,
    {
        self.sync_config
    }

    /// Writes the `sync_config` flag: bit 11 of the encoding becomes `b`, and the
    /// other bits stay.
    pub fn set_sync_config(&mut self, b: bool)
        ensures
            final(self)@ == (PinDetectOverrideView { sync_config: b, ..old(self)@ }),
            final(self)@.encode() == (old(self)@.encode() & !(1u16 << 11u16)) | flag_u16(b, 11),
    {
        proof {
            use_type_invariant(&*self);
            lemma_pin_detect_override_field_writes(self@, b);
        }
        self.sync_config = b;
    }

    pub fn comp_config(&self) -> (r: bool)
        ensures
            r == self@.comp_config,
    {
        self.comp_config
    }

    /// Writes the `comp_config` flag: bit 9 of the encoding becomes `b`, and the
    /// other bits stay.
    pub fn set_comp_config(&mut self, b: bool)
        ensures
            final(self)@ == (PinDetectOverrideView { comp_config: b, ..old(self)@ }),
            final(self)@.encode() == (old(self)@.encode() & !(1u16 << 9u16)) | flag_u16(b, 9),
    {
        proof {
            use_type_invariant(&*self);
            lemma_pin_detect_override_field_writes(self@, b);
        }
        self.comp_config = b;
    }

    pub fn address(&self) -> (r: bool)
        ensures
            r == self@.address,
    {
        self.address
    }

    /// Writes the `address` flag: bit 8 of the encoding becomes `b`, and the
    /// other bits stay.
    pub fn set_address(&mut self, b: bool)
        ensures
            final(self)@ == (PinDetectOverrideView { address: b, ..old(self)@ }),
            final(self)@.encode() == (old(self)@.encode() & !(1u16 << 8u16)) | flag_u16(b, 8),
    {
        proof {
            use_type_invariant(&*self);
            lemma_pin_detect_override_field_writes(self@, b);
        }
        self.address = b;
    }

    pub fn interleave(&self) -> (r: bool)
        ensures
            r == self@.interleave,
    {
        self.interleave
    }

    /// Writes the `interleave` flag: bit 5 of the encoding becomes `b`, and the
    /// other bits stay.
    pub fn set_interleave(&mut self, b: bool)
        ensures
            final(self)@ == (PinDetectOverrideView { interleave: b, ..old(self)@ }),
            final(self)@.encode() == (old(self)@.encode() & !(1u16 << 5u16)) | flag_u16(b, 5),
    {
        proof {
            use_type_invariant(&*self);
            lemma_pin_detect_override_field_writes(self@, b);
        }
        self.interleave = b;
    }

    pub fn vout(&self) -> (r: bool)
        ensures
            r == self@.vout,
    {
        self.vout
    }

    /// Writes the `vout` flag: bit 0 of the encoding becomes `b`, and the
    /// other bits stay.
    pub fn set_vout(&mut self, b: bool)
        ensures
            final(self)@ == (PinDetectOverrideView { vout: b, ..old(self)@ }),
            final(self)@.encode() == (old(self)@.encode() & !(1u16 << 0u16)) | flag_u16(b, 0),
    {
        proof {
            use_type_invariant(&*self);
            lemma_pin_detect_override_field_writes(self@, b);
        }
        self.vout = b;
    }
}

/// Writing one named flag of a well-formed value replaces that flag's bit of
/// the encoding and keeps every other bit.
pub proof fn lemma_pin_detect_override_field_writes(p: PinDetectOverrideView, b: bool)
    requires
        p.wf(),
    ensures
        (PinDetectOverrideView { stack_config: b, ..p }).encode() == (p.encode() & !(1u16 << 12u16))
            | flag_u16(b, 12),
        (PinDetectOverrideView { sync_config: b, ..p }).encode() == (p.encode() & !(1u16 << 11u16))
            | flag_u16(b, 11),
        (PinDetectOverrideView { comp_config: b, ..p }).encode() == (p.encode() & !(1u16 << 9u16))
            | flag_u16(b, 9),
        (PinDetectOverrideView { address: b, ..p }).encode() == (p.encode() & !(1u16 << 8u16))
            | flag_u16(b, 8),
        (PinDetectOverrideView { interleave: b, ..p }).encode() == (p.encode() & !(1u16 << 5u16))
            | flag_u16(b, 5),
        (PinDetectOverrideView { vout: b, ..p }).encode() == (p.encode() & !(1u16 << 0u16))
            | flag_u16(b, 0),
{
    let s = p.stack_config;
    let y = p.sync_config;
    let c = p.comp_config;
    let d = p.address;
    let i = p.interleave;
    let v = p.vout;
    let sp = p.spare;
    assert({
        let h12 = if s { 1u16 << 12u16 } else { 0 };
        let nb12 = if b { 1u16 << 12u16 } else { 0 };
        let h11 = if y { 1u16 << 11u16 } else { 0 };
        let nb11 = if b { 1u16 << 11u16 } else { 0 };
        let h9 = if c { 1u16 << 9u16 } else { 0 };
        let nb9 = if b { 1u16 << 9u16 } else { 0 };
        let h8 = if d { 1u16 << 8u16 } else { 0 };
        let nb8 = if b { 1u16 << 8u16 } else { 0 };
        let h5 = if i { 1u16 << 5u16 } else { 0 };
        let nb5 = if b { 1u16 << 5u16 } else { 0 };
        let h0 = if v { 1u16 << 0u16 } else { 0 };
        let nb0 = if b { 1u16 << 0u16 } else { 0 };
        let w = h12 | h11 | h9 | h8 | h5 | h0 | sp;
        &&& (nb12 | h11 | h9 | h8 | h5 | h0 | sp) == (w & !(1u16 << 12u16)) | nb12
        &&& (h12 | nb11 | h9 | h8 | h5 | h0 | sp) == (w & !(1u16 << 11u16)) | nb11
        &&& (h12 | h11 | nb9 | h8 | h5 | h0 | sp) == (w & !(1u16 << 9u16)) | nb9
        &&& (h12 | h11 | h9 | nb8 | h5 | h0 | sp) == (w & !(1u16 << 8u16)) | nb8
        &&& (h12 | h11 | h9 | h8 | nb5 | h0 | sp) == (w & !(1u16 << 5u16)) | nb5
        &&& (h12 | h11 | h9 | h8 | h5 | nb0 | sp) == (w & !(1u16 << 0u16)) | nb0
    }) by (bit_vector)
        requires
            sp & 0x1B21 == 0,
    ;
}

/// The PIN_DETECT_OVERRIDE bit map: stack config is bit 12 (0x1000), sync
/// config bit 11 (0x0800), compensation config bit 9 (0x0200), address bit 8
/// (0x0100), interleave bit 5 (0x0020) and VOUT bit 0 (0x0001); every other
/// bit (0xE4DE) is held as read. A well-formed value encodes each flag
/// there and its held bits in the rest.
pub proof fn lemma_pin_detect_override_layout(raw: u16, p: PinDetectOverrideView)
    requires
        p.wf(),
    ensures
        PinDetectOverride::decode(raw).stack_config <==> raw & 0x1000 != 0,
        PinDetectOverride::decode(raw).sync_config <==> raw & 0x0800 != 0,
        PinDetectOverride::decode(raw).comp_config <==> raw & 0x0200 != 0,
        PinDetectOverride::decode(raw).address <==> raw & 0x0100 != 0,
        PinDetectOverride::decode(raw).interleave <==> raw & 0x0020 != 0,
        PinDetectOverride::decode(raw).vout <==> raw & 0x0001 != 0,
        PinDetectOverride::decode(raw).spare == raw & 0xE4DE,
        (p.encode() & 0x1000 != 0) <==> p.stack_config,
        (p.encode() & 0x0800 != 0) <==> p.sync_config,
        (p.encode() & 0x0200 != 0) <==> p.comp_config,
        (p.encode() & 0x0100 != 0) <==> p.address,
        (p.encode() & 0x0020 != 0) <==> p.interleave,
        (p.encode() & 0x0001 != 0) <==> p.vout,
        p.encode() & 0xE4DE == p.spare,
{
    let s = p.stack_config;
    let y = p.sync_config;
    let c = p.comp_config;
    let d = p.address;
    let i = p.interleave;
    let v = p.vout;
    let sp = p.spare;
    assert({
        let r = (if s { 1u16 << 12 } else { 0 }) | (if y { 1u16 << 11 } else { 0 }) | (if c {
            1u16 << 9
        } else {
            0
        }) | (if d { 1u16 << 8 } else { 0 }) | (if i { 1u16 << 5 } else { 0 }) | (if v {
            1u16 << 0
        } else {
            0
        }) | sp;
        &&& ((raw >> 12) & 1 != 0 <==> raw & 0x1000 != 0)
        &&& ((raw >> 11) & 1 != 0 <==> raw & 0x0800 != 0)
        &&& ((raw >> 9) & 1 != 0 <==> raw & 0x0200 != 0)
        &&& ((raw >> 8) & 1 != 0 <==> raw & 0x0100 != 0)
        &&& ((raw >> 5) & 1 != 0 <==> raw & 0x0020 != 0)
        &&& raw & !0x1B21u16 == raw & 0xE4DE
        &&& (sp & 0x1B21 == 0 ==> {
            &&& (r & 0x1000 != 0) == s
            &&& (r & 0x0800 != 0) == y
            &&& (r & 0x0200 != 0) == c
            &&& (r & 0x0100 != 0) == d
            &&& (r & 0x0020 != 0) == i
            &&& (r & 0x0001 != 0) == v
            &&& r & 0xE4DE == sp
        })
    }) by (bit_vector);
}

/// Reading PIN_DETECT_OVERRIDE and writing it back reproduces the raw word.
pub proof fn lemma_pin_detect_override_raw_round_trip(raw: u16)
    ensures
        PinDetectOverride::decode(raw).encode() == raw,
{
    assert((if (raw >> 12) & 1 != 0 { 1u16 << 12 } else { 0 }) | (if (raw >> 11) & 1 != 0 {
        1u16 << 11
    } else {
        0
    }) | (if (raw >> 9) & 1 != 0 { 1u16 << 9 } else { 0 }) | (if (raw >> 8) & 1 != 0 {
        1u16 << 8
    } else {
        0
    }) | (if (raw >> 5) & 1 != 0 { 1u16 << 5 } else { 0 }) | (if raw & 1 != 0 {
        1u16 << 0
    } else {
        0
    }) | (raw & !0x1B21u16) == raw) by (bit_vector);
}

/// A well-formed value decodes back from its encoding.
pub proof fn lemma_pin_detect_override_value_round_trip(p: PinDetectOverrideView)
    requires
        p.wf(),
    ensures
        PinDetectOverride::decode(p.encode()) == p,
{
    let s = p.stack_config;
    let y = p.sync_config;
    let c = p.comp_config;
    let d = p.address;
    let i = p.interleave;
    let v = p.vout;
    let sp = p.spare;
    assert({
        let r = (if s { 1u16 << 12 } else { 0 }) | (if y { 1u16 << 11 } else { 0 }) | (if c {
            1u16 << 9
        } else {
            0
        }) | (if d { 1u16 << 8 } else { 0 }) | (if i { 1u16 << 5 } else { 0 }) | (if v {
            1u16 << 0
        } else {
            0
        }) | sp;
        &&& ((r >> 12) & 1 != 0) == s
        &&& ((r >> 11) & 1 != 0) == y
        &&& ((r >> 9) & 1 != 0) == c
        &&& ((r >> 8) & 1 != 0) == d
        &&& ((r >> 5) & 1 != 0) == i
        &&& (r & 1 != 0) == v
        &&& r & !0x1B21u16 == sp
    }) by (bit_vector)
        requires
            sp & 0x1B21 == 0,
    ;
}

// ---------------------------------------------------------------------------
// POWER_STAGE_CONFIG
// ---------------------------------------------------------------------------

/// The VDD5 regulator output voltage.
#[derive(Debug, Clone, Copy, PartialEq, Eq)]
pub enum Vdd5Voltage {
    V3_9,
    V4_1,
    V4_3,
    V4_5,
    V4_7,
    V4_9,
    V5_1,
    V5_3,
}

impl Vdd5Voltage {
    /// The field value that selects this voltage.
    pub open spec fn code(self) -> u8 {
        match self {
            Vdd5Voltage::V3_9 => 0,
            Vdd5Voltage::V4_1 => 1,
            Vdd5Voltage::V4_3 => 2,
            Vdd5Voltage::V4_5 => 3,
            Vdd5Voltage::V4_7 => 4,
            Vdd5Voltage::V4_9 => 5,
            Vdd5Voltage::V5_1 => 6,
            Vdd5Voltage::V5_3 => 7,
        }
    }

    /// The regulator voltage this setting names, in millivolts.
    pub open spec fn millivolts(self) -> int {
        match self {
            Vdd5Voltage::V3_9 => 3900,
            Vdd5Voltage::V4_1 => 4100,
            Vdd5Voltage::V4_3 => 4300,
            Vdd5Voltage::V4_5 => 4500,
            Vdd5Voltage::V4_7 => 4700,
            Vdd5Voltage::V4_9 => 4900,
            Vdd5Voltage::V5_1 => 5100,
            Vdd5Voltage::V5_3 => 5300,
        }
    }

    /// The voltage that `val` selects; any value above 7 reads as `V5_3`.
    pub open spec fn decode(val: u8) -> Vdd5Voltage {
        if val == 0 {
            Vdd5Voltage::V3_9
        } else if val == 1 {
            Vdd5Voltage::V4_1
        } else if val == 2 {
            Vdd5Voltage::V4_3
        } else if val == 3 {
            Vdd5Voltage::V4_5
        } else if val == 4 {
            Vdd5Voltage::V4_7
        } else if val == 5 {
            Vdd5Voltage::V4_9
        } else if val == 6 {
            Vdd5Voltage::V5_1
        } else {
            Vdd5Voltage::V5_3
        }
    }

    pub fn from_bits(val: u8) -> (r: Self)
        ensures
            r == Self::decode(val),
            (r == Vdd5Voltage::V3_9) <==> (val == 0),
            (r == Vdd5Voltage::V4_1) <==> (val == 1),
            (r == Vdd5Voltage::V4_3) <==> (val == 2),
            (r == Vdd5Voltage::V4_5) <==> (val == 3),
            (r == Vdd5Voltage::V4_7) <==> (val == 4),
            (r == Vdd5Voltage::V4_9) <==> (val == 5),
            (r == Vdd5Voltage::V5_1) <==> (val == 6),
            (r == Vdd5Voltage::V5_3) <==> (val >= 7),
    {
        match val {
            0 => Vdd5Voltage::V3_9,
            1 => Vdd5Voltage::V4_1,
            2 => Vdd5Voltage::V4_3,
            3 => Vdd5Voltage::V4_5,
            4 => Vdd5Voltage::V4_7,
            5 => Vdd5Voltage::V4_9,
            6 => Vdd5Voltage::V5_1,
            7 => Vdd5Voltage::V5_3,
            _ => Vdd5Voltage::V5_3,
        }
    }

    pub fn to_bits(self) -> (r: u8)
        ensures
            r == self.code(),
            self == Vdd5Voltage::V3_9 ==> r == 0,
            self == Vdd5Voltage::V4_1 ==> r == 1,
            self == Vdd5Voltage::V4_3 ==> r == 2,
            self == Vdd5Voltage::V4_5 ==> r == 3,
            self == Vdd5Voltage::V4_7 ==> r == 4,
            self == Vdd5Voltage::V4_9 ==> r == 5,
            self == Vdd5Voltage::V5_1 ==> r == 6,
            self == Vdd5Voltage::V5_3 ==> r == 7,
    {
        match self {
            Vdd5Voltage::V3_9 => 0,
            Vdd5Voltage::V4_1 => 1,
            Vdd5Voltage::V4_3 => 2,
            Vdd5Voltage::V4_5 => 3,
            Vdd5Voltage::V4_7 => 4,
            Vdd5Voltage::V4_9 => 5,
            Vdd5Voltage::V5_1 => 6,
            Vdd5Voltage::V5_3 => 7,
        }
    }
}

/// Decoding a voltage's field value gives it back; re-encoding a decoded
/// value keeps it when it is at most 7 and gives 7 otherwise.
pub proof fn lemma_vdd5_voltage_round_trip(v: Vdd5Voltage, val: u8)
    ensures
        Vdd5Voltage::decode(v.code()) == v,
        Vdd5Voltage::decode(val).code() == (if val < 8 {
            val
        } else {
            7
        }),
        v.code() < 8,
{
}

/// The VDD5 field value of each voltage rises with the voltage in 200 mV
/// steps from 0 for 3.9 V to 7 for 5.3 V; a field value reads as a voltage
/// exactly when it is that voltage's value, and any value above 7 reads as
/// 5.3 V. A raw POWER_STAGE_CONFIG byte selects its voltage in bits [7:4],
/// and a configuration encodes its voltage's value there.
pub proof fn lemma_vdd5_voltage_field_values(
    a: Vdd5Voltage,
    b: Vdd5Voltage,
    val: u8,
    raw: u8,
    p: PowerStageConfig,
)
    ensures
        a.code() * 200 + 3900 == a.millivolts(),
        (a.millivolts() < b.millivolts()) <==> (a.code() < b.code()),
        Vdd5Voltage::decode(val).millivolts() == (if val < 8 {
            3900 + 200 * val
        } else {
            5300
        }),
        (Vdd5Voltage::decode(val) == a) <==> (val == a.code() || (val > 7 && a
            == Vdd5Voltage::V5_3)),
        PowerStageConfig::decode(raw).vdd5.millivolts() == (if raw < 0x80 {
            3900 + 200 * (raw >> 4)
        } else {
            5300
        }),
        p.encode() == (p.vdd5.code() << 4),
        p.encode() as int == 16 * ((p.vdd5.millivolts() - 3900) / 200),
{
    let v = (raw >> 4) & 0x0F;
    let c = p.vdd5.code();
    assert((raw < 0x80 <==> v < 8) && (raw >> 4) == v && (c < 8 ==> (c << 4) as int == 16 * c))
        by (bit_vector)
        requires
            v == (raw >> 4) & 0x0F,
    ;
}

/// POWER_STAGE_CONFIG (B5h): the VDD5 voltage in bits [7:4].
#[derive(Debug, Clone, Copy, PartialEq, Eq)]
pub struct PowerStageConfig {
    pub vdd5: Vdd5Voltage,
}

impl PowerStageConfig {
    /// What a raw POWER_STAGE_CONFIG byte decodes to.
    pub open spec fn decode(raw: u8) -> PowerStageConfig {
        PowerStageConfig { vdd5: Vdd5Voltage::decode((raw >> 4) & 0x0F) }
    }

    /// The raw POWER_STAGE_CONFIG byte that this value encodes to.
    pub open spec fn encode(self) -> u8 {
        self.vdd5.code() << 4
    }

    pub fn from_raw(raw: u8) -> (r: Self)
        ensures
            r == Self::decode(raw),
    {
        PowerStageConfig { vdd5: Vdd5Voltage::from_bits((raw >> 4) & 0x0F) }
    }

    pub fn to_raw(self) -> (r: u8)
        ensures
            r == self.encode(),
    {
        self.vdd5.to_bits() << 4
    }
}

/// Reading POWER_STAGE_CONFIG and writing it back keeps bits [7:4] when bit
/// 7 is clear, writes 7 there when it is set, and clears bits [3:0].
pub proof fn lemma_power_stage_config_raw_round_trip(raw: u8)
    ensures
        PowerStageConfig::decode(raw).encode() == (if raw < 0x80 {
            raw & 0xF0
        } else {
            0x70
        }),
{
    let v = (raw >> 4) & 0x0F;
    lemma_vdd5_voltage_round_trip(Vdd5Voltage::V3_9, v);
    assert((raw < 0x80 <==> v < 8) && (v < 8 ==> v << 4 == raw & 0xF0) && 7u8 << 4 == 0x70)
        by (bit_vector)
        requires
            v == (raw >> 4) & 0x0F,
    ;
}

/// Every POWER_STAGE_CONFIG value decodes back from its encoding.
pub proof fn lemma_power_stage_config_value_round_trip(c: PowerStageConfig)
    ensures
        PowerStageConfig::decode(c.encode()) == c,
{
    lemma_vdd5_voltage_round_trip(c.vdd5, 0);
    let v = c.vdd5.code();
    assert(((v << 4) >> 4) & 0x0F == v) by (bit_vector)
        requires
            v < 8,
    ;
}

// ---------------------------------------------------------------------------
// COMPENSATION_CONFIG
// ---------------------------------------------------------------------------

/// COMPENSATION_CONFIG (B1h): the five compensation bytes, held as read.
#[derive(Debug, Clone, Copy, PartialEq, Eq)]
pub struct CompensationConfig(pub [u8; 5]);

impl CompensationConfig {
    pub fn from_bytes(data: [u8; 5]) -> (r: Self)
        ensures
            r.0 == data,
    {
        CompensationConfig(data)
    }

    pub fn to_bytes(self) -> (r: [u8; 5])
        ensures
            r == self.0,
    {
        self.0
    }
}

} // verus!
