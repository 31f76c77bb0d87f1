//! OPERATION (01h) and ON_OFF_CONFIG (02h).

use vstd::prelude::*;
use crate::bits::{bit_u8, flag8, flag_u8};

verus! {

/// The margin selection held in OPERATION bits [5:2].
#[derive(Debug, Clone, Copy, PartialEq, Eq)]
pub enum MarginMode {
    Off,
    MarginLowIgnore,
    MarginLowAct,
    MarginHighIgnore,
    MarginHighAct,
}

impl MarginMode {
    /// The 4-bit field value that selects this mode.
    pub open spec fn code(self) -> u8 {
        match self {
            MarginMode::Off => 0b0000,
            MarginMode::MarginLowIgnore => 0b0100,
            MarginMode::MarginLowAct => 0b0101,
            MarginMode::MarginHighIgnore => 0b1000,
            MarginMode::MarginHighAct => 0b1001,
        }
    }

    /// The mode that the low four bits of `val` select; a field value that
    /// no mode uses reads as `Off`.
    pub open spec fn decode(val: u8) -> MarginMode {
        let v = val & 0x0F;
        if v == 0b0100 {
            MarginMode::MarginLowIgnore
        } else if v == 0b0101 {
            MarginMode::MarginLowAct
        } else if v == 0b1000 {
            MarginMode::MarginHighIgnore
        } else if v == 0b1001 {
            MarginMode::MarginHighAct
        } else {
            MarginMode::Off
        }
    }

    pub fn from_bits(val: u8) -> (r: Self)
        ensures
            r == Self::decode(val),
            (r == MarginMode::MarginLowIgnore) <==> (val & 0x0F == 0b0100),
            (r == MarginMode::MarginLowAct) <==> (val & 0x0F == 0b0101),
            (r == MarginMode::MarginHighIgnore) <==> (val & 0x0F == 0b1000),
            (r == MarginMode::MarginHighAct) <==> (val & 0x0F == 0b1001),
    {
        match val & 0x0F {
            0b0100 => MarginMode::MarginLowIgnore,
            0b0101 => MarginMode::MarginLowAct,
            0b1000 => MarginMode::MarginHighIgnore,
            0b1001 => MarginMode::MarginHighAct,
            _ => MarginMode::Off,
        }
    }

    pub fn to_bits(self) -> (r: u8)
        ensures
            r == self.code(),
            self == MarginMode::Off ==> r == 0b0000,
            self == MarginMode::MarginLowIgnore ==> r == 0b0100,
            self == MarginMode::MarginLowAct ==> r == 0b0101,
            self == MarginMode::MarginHighIgnore ==> r == 0b1000,
            self == MarginMode::MarginHighAct ==> r == 0b1001,
    {
        match self {
            MarginMode::Off => 0b0000,
            MarginMode::MarginLowIgnore => 0b0100,
            MarginMode::MarginLowAct => 0b0101,
            MarginMode::MarginHighIgnore => 0b1000,
            MarginMode::MarginHighAct => 0b1001,
        }
    }
}

/// Decoding the field value of a mode gives that mode back.
pub proof fn lemma_margin_mode_round_trip(m: MarginMode)
    ensures
        MarginMode::decode(m.code()) == m,
        m.code() < 16,
{
    assert(0b0100u8 & 0x0F == 0b0100 && 0b0101u8 & 0x0F == 0b0101 && 0b1000u8 & 0x0F == 0b1000
        && 0b1001u8 & 0x0F == 0b1001 && 0u8 & 0x0F == 0) by (bit_vector);
}

/// The OPERATION field values of the margin modes (bits [5:2]): Off is
/// 0b0000, low margin ignoring faults 0b0100, low margin acting on faults
/// 0b0101, high margin ignoring faults 0b1000 and high margin acting on
/// faults 0b1001. A field value reads as a mode exactly when it is that
/// mode's value, and as `Off` when it is no mode's value.
pub proof fn lemma_margin_mode_field_values(val: u8)
    ensures
        MarginMode::Off.code() == 0b0000,
        MarginMode::MarginLowIgnore.code() == 0b0100,
        MarginMode::MarginLowAct.code() == 0b0101,
        MarginMode::MarginHighIgnore.code() == 0b1000,
        MarginMode::MarginHighAct.code() == 0b1001,
        (MarginMode::decode(val) == MarginMode::MarginLowIgnore) <==> (val & 0x0F == 0b0100),
        (MarginMode::decode(val) == MarginMode::MarginLowAct) <==> (val & 0x0F == 0b0101),
        (MarginMode::decode(val) == MarginMode::MarginHighIgnore) <==> (val & 0x0F == 0b1000),
        (MarginMode::decode(val) == MarginMode::MarginHighAct) <==> (val & 0x0F == 0b1001),
        (MarginMode::decode(val) == MarginMode::Off) <==> !(val & 0x0F == 0b0100 || val & 0x0F
            == 0b0101 || val & 0x0F == 0b1000 || val & 0x0F == 0b1001),
{
}

/// Re-encoding a decoded field keeps its low four bits when they name a mode,
/// and gives `Off`'s field value otherwise.
pub proof fn lemma_margin_mode_canonical(val: u8)
    ensures
        MarginMode::decode(val).code() == (if (val & 0x0F) == 0b0100 || (val & 0x0F) == 0b0101
            || (val & 0x0F) == 0b1000 || (val & 0x0F) == 0b1001 {
            val & 0x0F
        } else {
            0
        }),
{
}

/// OPERATION (01h): output on/off control and margin selection.
///
/// Bits [5:0] are held as read, so that a layout this type does not name
/// survives a read and a write back.
#[derive(Debug, Clone, Copy, PartialEq, Eq)]
pub struct Operation {
    pub on: bool,
    pub soft_off: bool,
    pub margin: MarginMode,
    raw_lower: u8,
}

/// What an `Operation` holds: its three named fields and bits [5:0] as held.
pub struct OperationView {
    pub on: bool,
    pub soft_off: bool,
    pub margin: MarginMode,
    pub lower: u8,
}

impl OperationView {
    /// The raw OPERATION byte that this value encodes to: `on` at bit 7,
    /// `soft_off` at bit 6 and the held bits [5:0]; `margin` takes no part.
    pub open spec fn encode(self) -> u8 {
        flag_u8(self.on, 7) | flag_u8(self.soft_off, 6) | self.lower
    }

    /// The held lower bits fit in bits [5:0]; every value this module hands
    /// out has this property.
    pub open spec fn wf(self) -> bool {
        self.lower < 64
    }

    /// The `margin` field names the margin that the held bits [5:2] select.
    pub open spec fn margin_agrees(self) -> bool {
        self.margin == MarginMode::decode(self.lower >> 2)
    }
}

impl View for Operation {
    type V = OperationView;

    closed spec fn view(&self) -> OperationView {
        OperationView {
            on: self.on,
            soft_off: self.soft_off,
            margin: self.margin,
            lower: self.raw_lower,
        }
    }
}

impl Operation {
    /// Every `Operation` holds lower bits that fit in bits [5:0].
    #[verifier::type_invariant]
    spec fn lower_bits_fit(self) -> bool {
        self@.wf()
    }

    /// What a raw OPERATION byte decodes to.
    pub open spec fn decode(raw: u8) -> OperationView {
        OperationView {
            on: bit_u8(raw, 7),
            soft_off: bit_u8(raw, 6),
            margin: MarginMode::decode((raw >> 2) & 0x0F),
            lower: raw & 0x3F,
        }
    }

    pub fn from_raw(raw: u8) -> (r: Self)
        ensures
            r@ == Self::decode(raw),
            r@.wf(),
            r@.margin_agrees(),
    {
        proof {
            lemma_operation_lower_bits(raw);
        }
        Operation {
            on: (raw >> 7) & 1 != 0,
            soft_off: (raw >> 6) & 1 != 0,
            margin: MarginMode::from_bits((raw >> 2) & 0x0F),
            raw_lower: raw & 0x3F,
        }
    }

    pub fn to_raw(self) -> (r: u8)
        ensures
            r == self@.encode(),
            self@.wf(),
    {
        proof {
            use_type_invariant(&self);
        }
        flag8(self.on, 7) | flag8(self.soft_off, 6) | self.raw_lower
    }

    /// Set the margin mode, updating the lower bits accordingly.
    pub fn with_margin(self, margin: MarginMode) -> (r: Self)
        ensures
            r@ == (OperationView {
                margin,
                lower: (self@.lower & 0x03) | (margin.code() << 2),
                ..self@
            }),
            r@.wf(),
            r@.margin_agrees(),
            r@.encode() == (self@.encode() & 0xC3) | (margin.code() << 2),
    {
        let mut op = self;
        let bits = margin.to_bits();
        let low = op.raw_lower & 0x03;
        proof {
            use_type_invariant(&self);
            lemma_operation_with_margin_encoding(self@, margin);
            lemma_margin_mode_round_trip(margin);
            lemma_margin_field_fits(op.raw_lower, bits);
        }
        op.raw_lower = low | (bits << 2);
        op.margin = margin;
        op
    }

    pub fn on(&self) -> (r: bool)
        ensures
            r == self@.on,
    {
        self.on
    }

    pub fn soft_off(&self) -> (r: bool)
        ensures
            r == self@.soft_off,
    {
        self.soft_off
    }

    pub fn margin(&self) -> (r: MarginMode)
        ensures
            r == self@.margin,
    {
        self.margin
    }

    /// Writes the `on` field: bit 7 of the encoding becomes `b`, and the
    /// other bits stay.
    pub fn set_on(&mut self, b: bool)
        ensures
            final(self)@ == (OperationView { on: b, ..old(self)@ }),
            final(self)@.encode() == (old(self)@.encode() & 0x7F) | flag_u8(b, 7),
    {
        proof {
            use_type_invariant(&*self);
            lemma_operation_field_writes(self@, b);
        }
        self.on = b;
    }

    /// Writes the `soft_off` field: bit 6 of the encoding becomes `b`, and
    /// the other bits stay.
    pub fn set_soft_off(&mut self, b: bool)
        ensures
            final(self)@ == (OperationView { soft_off: b, ..old(self)@ }),
            final(self)@.encode() == (old(self)@.encode() & 0xBF) | flag_u8(b, 6),
    {
        proof {
            use_type_invariant(&*self);
            lemma_operation_field_writes(self@, b);
        }
        self.soft_off = b;
    }
}

/// Writing `on` or `soft_off` of a well-formed value replaces bit 7 or bit 6
/// of its encoding and keeps every other bit.
pub proof fn lemma_operation_field_writes(op: OperationView, b: bool)
    requires
        op.wf(),
    ensures
        (OperationView { on: b, ..op }).encode() == (op.encode() & 0x7F) | flag_u8(b, 7),
        (OperationView { soft_off: b, ..op }).encode() == (op.encode() & 0xBF) | flag_u8(b, 6),
{
    let lo = op.lower;
    let on = op.on;
    let soft = op.soft_off;
    assert({
        let hi_on = if on { 1u8 << 7 } else { 0 };
        let hi_soft = if soft { 1u8 << 6 } else { 0 };
        let new_b7 = if b { 1u8 << 7 } else { 0 };
        let new_b6 = if b { 1u8 << 6 } else { 0 };
        &&& (new_b7 | hi_soft | lo) == ((hi_on | hi_soft | lo) & 0x7F) | new_b7
        &&& (hi_on | new_b6 | lo) == ((hi_on | hi_soft | lo) & 0xBF) | new_b6
    }) by (bit_vector)
        requires
            lo < 64,
    ;
}

proof fn lemma_operation_lower_bits(raw: u8)
    ensures
        (raw & 0x3F) < 64,
        (raw & 0x3F) >> 2 == (raw >> 2) & 0x0F,
{
    assert((raw & 0x3F) < 64 && (raw & 0x3F) >> 2 == (raw >> 2) & 0x0F) by (bit_vector);
}

proof fn lemma_margin_field_fits(lower: u8, bits: u8)
    requires
        bits < 16,
    ensures
        ((lower & 0x03) | (bits << 2)) < 64,
        ((lower & 0x03) | (bits << 2)) >> 2 == bits,
{
    assert(((lower & 0x03) | (bits << 2)) < 64 && ((lower & 0x03) | (bits << 2)) >> 2 == bits)
        by (bit_vector)
        requires
            bits < 16,
    ;
}

/// Reading OPERATION and writing the value back reproduces the raw byte.
pub proof fn lemma_operation_raw_round_trip(raw: u8)
    ensures
        Operation::decode(raw).encode() == raw,
{
    assert((if (raw >> 7) & 1 != 0 { 1u8 << 7 } else { 0 }) | (if (raw >> 6) & 1 != 0 {
        1u8 << 6
    } else {
        0
    }) | (raw & 0x3F) == raw) by (bit_vector);
}

/// A well-formed value whose margin agrees with its held bits decodes back
/// from its encoding.
pub proof fn lemma_operation_value_round_trip(op: OperationView)
    requires
        op.wf(),
        op.margin_agrees(),
    ensures
        Operation::decode(op.encode()) == op,
{
    let lo = op.lower;
    let on = op.on;
    let soft = op.soft_off;
    assert({
        let r = (if on { 1u8 << 7 } else { 0 }) | (if soft { 1u8 << 6 } else { 0 }) | lo;
        &&& ((r >> 7) & 1 != 0) == on
        &&& ((r >> 6) & 1 != 0) == soft
        &&& (r & 0x3F) == lo
        &&& ((r >> 2) & 0x0F) == lo >> 2
    }) by (bit_vector)
        requires
            lo < 64,
    ;
}

/// The margin that a raw OPERATION byte reads as is fixed by bits [5:2]:
/// low margin acting on faults exactly when they are 0b0101, and so on for
/// each mode. Setting a margin on a well-formed value writes that mode's
/// field value into bits [5:2] (0x00, 0x10, 0x14, 0x20 or 0x24 there) and
/// keeps bits 7, 6, 1 and 0.
pub proof fn lemma_operation_margin_field(raw: u8, op: OperationView, m: MarginMode)
    requires
        op.wf(),
    ensures
        (Operation::decode(raw).margin == MarginMode::MarginLowIgnore) <==> ((raw >> 2) & 0x0F
            == 0b0100),
        (Operation::decode(raw).margin == MarginMode::MarginLowAct) <==> ((raw >> 2) & 0x0F
            == 0b0101),
        (Operation::decode(raw).margin == MarginMode::MarginHighIgnore) <==> ((raw >> 2) & 0x0F
            == 0b1000),
        (Operation::decode(raw).margin == MarginMode::MarginHighAct) <==> ((raw >> 2) & 0x0F
            == 0b1001),
        (OperationView { margin: m, lower: (op.lower & 0x03) | (m.code() << 2), ..op }).encode()
            == (op.encode() & 0xC3) | (match m {
            MarginMode::Off => 0x00u8,
            MarginMode::MarginLowIgnore => 0x10u8,
            MarginMode::MarginLowAct => 0x14u8,
            MarginMode::MarginHighIgnore => 0x20u8,
            MarginMode::MarginHighAct => 0x24u8,
        }),
{
    lemma_margin_mode_field_values((raw >> 2) & 0x0F);
    assert(((raw >> 2) & 0x0F) & 0x0F == (raw >> 2) & 0x0F) by (bit_vector);
    lemma_operation_with_margin_encoding(op, m);
    assert(0b0100u8 << 2 == 0x10 && 0b0101u8 << 2 == 0x14 && 0b1000u8 << 2 == 0x20 && 0b1001u8
        << 2 == 0x24 && 0u8 << 2 == 0) by (bit_vector);
}

/// The OPERATION bit map: the output is on when bit 7 (0x80) is set, soft
/// off is bit 6 (0x40), and bits [5:0] (0x3F) are held as read; a value
/// encodes as those bits again.
pub proof fn lemma_operation_layout(raw: u8, op: OperationView)
    ensures
        Operation::decode(raw).on <==> raw & 0x80 != 0,
        Operation::decode(raw).soft_off <==> raw & 0x40 != 0,
        Operation::decode(raw).lower == raw & 0x3F,
        op.encode() == (if op.on { 0x80u8 } else { 0 }) | (if op.soft_off { 0x40u8 } else { 0 })
            | op.lower,
{
    assert(((raw >> 7) & 1 != 0 <==> raw & 0x80 != 0) && ((raw >> 6) & 1 != 0 <==> raw & 0x40
        != 0) && 1u8 << 7 == 0x80 && 1u8 << 6 == 0x40) by (bit_vector);
}

/// Setting a margin on a well-formed value changes only bits [5:2] of its
/// encoding, which then hold the margin's field value.
pub proof fn lemma_operation_with_margin_encoding(op: OperationView, m: MarginMode)
    requires
        op.wf(),
    ensures
        (OperationView { margin: m, lower: (op.lower & 0x03) | (m.code() << 2), ..op }).encode()
            == (op.encode() & 0xC3) | (m.code() << 2),
        MarginMode::decode(
            ((OperationView { margin: m, lower: (op.lower & 0x03) | (m.code() << 2), ..op }).encode()
                >> 2) & 0x0F,
        ) == m,
{
    lemma_margin_mode_round_trip(m);
    let lo = op.lower;
    let c = m.code();
    let on = op.on;
    let soft = op.soft_off;
    assert({
        let hi = (if on { 1u8 << 7 } else { 0 }) | (if soft { 1u8 << 6 } else { 0 });
        &&& (hi | ((lo & 0x03) | (c << 2))) == ((hi | lo) & 0xC3) | (c << 2)
        &&& ((hi | ((lo & 0x03) | (c << 2))) >> 2) & 0x0F == c
    }) by (bit_vector)
        requires
            lo < 64,
            c < 16,
    ;
}

/// ON_OFF_CONFIG (02h): how the output is turned on and off.
#[derive(Debug, Clone, Copy, PartialEq, Eq)]
pub struct OnOffConfig {
    pub power_up_control: bool,
    pub cmd_enable: bool,
    pub control_pin_enable: bool,
    pub control_pin_active_high: bool,
    pub immediate_off: bool,
}

impl OnOffConfig {
    /// The value that a raw ON_OFF_CONFIG byte decodes to: bits 4 to 0.
    pub open spec fn decode(raw: u8) -> OnOffConfig {
        OnOffConfig {
            power_up_control: bit_u8(raw, 4),
            cmd_enable: bit_u8(raw, 3),
            control_pin_enable: bit_u8(raw, 2),
            control_pin_active_high: bit_u8(raw, 1),
            immediate_off: bit_u8(raw, 0),
        }
    }

    /// The raw ON_OFF_CONFIG byte that this value encodes to.
    pub open spec fn encode(self) -> u8 {
        flag_u8(self.power_up_control, 4) | flag_u8(self.cmd_enable, 3) | flag_u8(
            self.control_pin_enable,
            2,
        ) | flag_u8(self.control_pin_active_high, 1) | flag_u8(self.immediate_off, 0)
    }

    pub fn from_raw(raw: u8) -> (r: Self)
        ensures
            r == Self::decode(raw),
    {
        OnOffConfig {
            power_up_control: (raw >> 4) & 1 != 0,
            cmd_enable: (raw >> 3) & 1 != 0,
            control_pin_enable: (raw >> 2) & 1 != 0,
            control_pin_active_high: (raw >> 1) & 1 != 0,
            immediate_off: (raw >> 0) & 1 != 0,
        }
    }

    pub fn to_raw(self) -> (r: u8)
        ensures
            r == self.encode(),
    {
        flag8(self.power_up_control, 4) | flag8(self.cmd_enable, 3) | flag8(
            self.control_pin_enable,
            2,
        ) | flag8(self.control_pin_active_high, 1) | flag8(self.immediate_off, 0)
    }
}

/// The ON_OFF_CONFIG bit map: power-up control is bit 4 (0x10), command
/// enable bit 3 (0x08), control pin enable bit 2 (0x04), control pin active
/// high bit 1 (0x02) and immediate off bit 0 (0x01); a value encodes as
/// exactly those bits.
pub proof fn lemma_on_off_config_layout(raw: u8, c: OnOffConfig)
    ensures
        OnOffConfig::decode(raw).power_up_control <==> raw & 0x10 != 0,
        OnOffConfig::decode(raw).cmd_enable <==> raw & 0x08 != 0,
        OnOffConfig::decode(raw).control_pin_enable <==> raw & 0x04 != 0,
        OnOffConfig::decode(raw).control_pin_active_high <==> raw & 0x02 != 0,
        OnOffConfig::decode(raw).immediate_off <==> raw & 0x01 != 0,
        c.encode() == (if c.power_up_control { 0x10u8 } else { 0 }) | (if c.cmd_enable {
            0x08u8
        } else {
            0
        }) | (if c.control_pin_enable { 0x04u8 } else { 0 }) | (if c.control_pin_active_high {
            0x02u8
        } else {
            0
        }) | (if c.immediate_off { 0x01u8 } else { 0 }),
{
    assert(((raw >> 4) & 1 != 0 <==> raw & 0x10 != 0) && ((raw >> 3) & 1 != 0 <==> raw & 0x08
        != 0) && ((raw >> 2) & 1 != 0 <==> raw & 0x04 != 0) && ((raw >> 1) & 1 != 0 <==> raw
        & 0x02 != 0) && ((raw >> 0) & 1 != 0 <==> raw & 0x01 != 0) && 1u8 << 4 == 0x10 && 1u8
        << 3 == 0x08 && 1u8 << 2 == 0x04 && 1u8 << 1 == 0x02 && 1u8 << 0 == 0x01) by (bit_vector);
}

/// Reading ON_OFF_CONFIG and writing it back keeps bits 4 to 0 and clears
/// bits 7 to 5.
pub proof fn lemma_on_off_config_raw_round_trip(raw: u8)
    ensures
        OnOffConfig::decode(raw).encode() == raw & 0x1F,
{
    assert((if (raw >> 4) & 1 != 0 { 1u8 << 4 } else { 0 }) | (if (raw >> 3) & 1 != 0 {
        1u8 << 3
    } else {
        0
    }) | (if (raw >> 2) & 1 != 0 { 1u8 << 2 } else { 0 }) | (if (raw >> 1) & 1 != 0 {
        1u8 << 1
    } else {
        0
    }) | (if (raw >> 0) & 1 != 0 { 1u8 << 0 } else { 0 }) == raw & 0x1F) by (bit_vector);
}

/// Every ON_OFF_CONFIG value decodes back from its encoding.
pub proof fn lemma_on_off_config_value_round_trip(c: OnOffConfig)
    ensures
        OnOffConfig::decode(c.encode()) == c,
{
    let a = c.power_up_control;
    let b = c.cmd_enable;
    let d = c.control_pin_enable;
    let e = c.control_pin_active_high;
    let f = c.immediate_off;
    assert({
        let r = (if a { 1u8 << 4 } else { 0 }) | (if b { 1u8 << 3 } else { 0 }) | (if d {
            1u8 << 2
        } else {
            0
        }) | (if e { 1u8 << 1 } else { 0 }) | (if f { 1u8 << 0 } else { 0 });
        &&& ((r >> 4) & 1 != 0) == a
        &&& ((r >> 3) & 1 != 0) == b
        &&& ((r >> 2) & 1 != 0) == d
        &&& ((r >> 1) & 1 != 0) == e
        &&& ((r >> 0) & 1 != 0) == f
    }) by (bit_vector);
}

} // verus!
