//! TELEMETRY_CONFIG (D0h), READ_ALL (DAh) and STATUS_ALL (DBh).

use vstd::prelude::*;
use crate::bits::lemma_low_masks_u8;

verus! {

/// The conversion priority of one telemetry channel.
#[derive(Debug, Clone, Copy, PartialEq, Eq)]
pub enum TelemetryPriority {
    A,
    B,
    C,
    Disabled,
}

impl TelemetryPriority {
    /// The 2-bit field value that selects this priority.
    pub open spec fn code(self) -> u8 {
        match self {
            TelemetryPriority::A => 0,
            TelemetryPriority::B => 1,
            TelemetryPriority::C => 2,
            TelemetryPriority::Disabled => 3,
        }
    }

    /// The priority that the low two bits of `val` select.
    pub open spec fn decode(val: u8) -> TelemetryPriority {
        let v = val & 0x03;
        if v == 0 {
            TelemetryPriority::A
        } else if v == 1 {
            TelemetryPriority::B
        } else if v == 2 {
            TelemetryPriority::C
        } else {
            TelemetryPriority::Disabled
        }
    }

    pub fn from_bits(val: u8) -> (r: Self)
        ensures
            r == Self::decode(val),
            (r == TelemetryPriority::A) <==> (val & 0x03 == 0),
            (r == TelemetryPriority::B) <==> (val & 0x03 == 1),
            (r == TelemetryPriority::C) <==> (val & 0x03 == 2),
            (r == TelemetryPriority::Disabled) <==> (val & 0x03 == 3),
    {
        proof {
            lemma_low_masks_u8();
            assert(val & 0x03 < 4);
        }
        match val & 0x03 {
            0 => TelemetryPriority::A,
            1 => TelemetryPriority::B,
            2 => TelemetryPriority::C,
            _ => TelemetryPriority::Disabled,
        }
    }

    pub fn to_bits(self) -> (r: u8)
        ensures
            r == self.code(),
            self == TelemetryPriority::A ==> r == 0,
            self == TelemetryPriority::B ==> r == 1,
            self == TelemetryPriority::C ==> r == 2,
            self == TelemetryPriority::Disabled ==> r == 3,
    {
        match self {
            TelemetryPriority::A => 0,
            TelemetryPriority::B => 1,
            TelemetryPriority::C => 2,
            TelemetryPriority::Disabled => 3,
        }
    }
}

/// Decoding a priority's field value gives that priority back, and
/// re-encoding a decoded field keeps its low two bits.
pub proof fn lemma_telemetry_priority_round_trip(p: TelemetryPriority, val: u8)
    ensures
        TelemetryPriority::decode(p.code()) == p,
        TelemetryPriority::decode(val).code() == val & 0x03,
        p.code() < 4,
{
    lemma_low_masks_u8();
    assert(p.code() & 0x03 == p.code());
    assert(val & 0x03 < 4);
}

/// The TELEMETRY_CONFIG priority field values (bits [1:0] of each channel
/// byte): A is 0, B is 1, C is 2 and Disabled is 3. A field value, and a
/// channel byte, reads as a priority exactly when its low two bits are that
/// priority's value, and a channel encodes its priority there.
pub proof fn lemma_telemetry_priority_field_values(val: u8, c: TelemetryChannel)
    ensures
        TelemetryPriority::A.code() == 0,
        TelemetryPriority::B.code() == 1,
        TelemetryPriority::C.code() == 2,
        TelemetryPriority::Disabled.code() == 3,
        (TelemetryPriority::decode(val) == TelemetryPriority::A) <==> (val & 0x03 == 0),
        (TelemetryPriority::decode(val) == TelemetryPriority::B) <==> (val & 0x03 == 1),
        (TelemetryPriority::decode(val) == TelemetryPriority::C) <==> (val & 0x03 == 2),
        (TelemetryPriority::decode(val) == TelemetryPriority::Disabled) <==> (val & 0x03 == 3),
        (TelemetryChannel::decode(val).priority == TelemetryPriority::A) <==> (val & 0x03 == 0),
        (TelemetryChannel::decode(val).priority == TelemetryPriority::B) <==> (val & 0x03 == 1),
        (TelemetryChannel::decode(val).priority == TelemetryPriority::C) <==> (val & 0x03 == 2),
        (TelemetryChannel::decode(val).priority == TelemetryPriority::Disabled) <==> (val & 0x03
            == 3),
        c.priority == TelemetryPriority::A ==> c.encode() & 0x03 == 0,
        c.priority == TelemetryPriority::B ==> c.encode() & 0x03 == 1,
        c.priority == TelemetryPriority::C ==> c.encode() & 0x03 == 2,
        c.priority == TelemetryPriority::Disabled ==> c.encode() & 0x03 == 3,
{
    lemma_low_masks_u8();
    assert(val & 0x03 < 4);
    assert((val & 0x03) & 0x03 == val & 0x03);
    let a = c.averaging;
    let p = c.priority.code();
    assert(p < 4 ==> (((a & 0x07) << 2) | p) & 0x03 == p) by (bit_vector);
}

/// The settings of one telemetry channel: conversion priority in bits
/// [1:0] and averaging in bits [4:2].
#[derive(Debug, Clone, Copy, PartialEq, Eq)]
pub struct TelemetryChannel {
    pub priority: TelemetryPriority,
    pub averaging: u8,
}

impl TelemetryChannel {
    /// What a raw channel byte decodes to.
    pub open spec fn decode(val: u8) -> TelemetryChannel {
        TelemetryChannel {
            priority: TelemetryPriority::decode(val & 0x03),
            averaging: (val >> 2) & 0x07,
        }
    }

    /// The raw channel byte that this value encodes to; only the low three
    /// bits of `averaging` are kept.
    pub open spec fn encode(self) -> u8 {
        ((self.averaging & 0x07) << 2) | self.priority.code()
    }

    /// `averaging` fits its 3-bit field.
    pub open spec fn wf(self) -> bool {
        self.averaging < 8
    }

    pub fn from_raw(val: u8) -> (r: Self)
        ensures
            r == Self::decode(val),
            r.wf(),
    {
        proof {
            lemma_low_masks_u8();
            assert(((val >> 2) & 0x07) < 8);
        }
        TelemetryChannel {
            priority: TelemetryPriority::from_bits(val & 0x03),
            averaging: (val >> 2) & 0x07,
        }
    }

    pub fn to_raw(self) -> (r: u8)
        ensures
            r == self.encode(),
    {
        proof {
            lemma_low_masks_u8();
            assert((self.averaging & 0x07) < 8);
        }
        ((self.averaging & 0x07) << 2) | self.priority.to_bits()
    }
}

/// Reading a channel byte and writing it back keeps bits [4:0] and clears
/// bits [7:5].
pub proof fn lemma_telemetry_channel_raw_round_trip(val: u8)
    ensures
        TelemetryChannel::decode(val).encode() == val & 0x1F,
{
    lemma_telemetry_priority_round_trip(TelemetryPriority::A, val & 0x03);
    assert(((((val >> 2) & 0x07) & 0x07) << 2) | ((val & 0x03) & 0x03) == val & 0x1F)
        by (bit_vector);
}

/// A channel whose averaging fits its field decodes back from its encoding.
pub proof fn lemma_telemetry_channel_value_round_trip(c: TelemetryChannel)
    requires
        c.wf(),
    ensures
        TelemetryChannel::decode(c.encode()) == c,
{
    let a = c.averaging;
    let p = c.priority.code();
    lemma_telemetry_priority_round_trip(c.priority, 0);
    assert({
        let r = ((a & 0x07) << 2) | p;
        &&& r & 0x03 == p
        &&& (r >> 2) & 0x07 == a
    }) by (bit_vector)
        requires
            a < 8,
            p < 4,
    ;
}

/// The channel byte bit map: averaging is bits [4:2] (0x1C) and priority
/// bits [1:0]; a channel encodes its averaging's low three bits there and
/// leaves bits [7:5] clear.
pub proof fn lemma_telemetry_channel_layout(val: u8, c: TelemetryChannel)
    ensures
        TelemetryChannel::decode(val).averaging == (val & 0x1C) >> 2,
        c.encode() & 0x1C == (c.averaging & 0x07) << 2,
        c.encode() & 0xE0 == 0,
{
    let a = c.averaging;
    let p = c.priority.code();
    assert({
        let r = ((a & 0x07) << 2) | p;
        &&& (val >> 2) & 0x07 == (val & 0x1C) >> 2
        &&& (p < 4 ==> r & 0x1C == (a & 0x07) << 2 && r & 0xE0 == 0)
    }) by (bit_vector);
}

/// TELEMETRY_CONFIG (D0h): the settings of the four telemetry channels.
#[derive(Debug, Clone, Copy, PartialEq, Eq)]
pub struct TelemetryConfig {
    pub vout: TelemetryChannel,
    pub iout: TelemetryChannel,
    pub temp: TelemetryChannel,
    pub vin: TelemetryChannel,
}

impl TelemetryConfig {
    /// What a 6-byte TELEMETRY_CONFIG block decodes to: bytes 0 to 3 are
    /// the VOUT, IOUT, temperature and VIN channels; bytes 4 and 5 are not read.
    pub open spec fn decode(data: Seq<u8>) -> TelemetryConfig {
        TelemetryConfig {
            vout: TelemetryChannel::decode(data[0]),
            iout: TelemetryChannel::decode(data[1]),
            temp: TelemetryChannel::decode(data[2]),
            vin: TelemetryChannel::decode(data[3]),
        }
    }

    /// The 6-byte block that this value encodes to; the last two bytes are zero.
    pub open spec fn encode(self) -> Seq<u8> {
        seq![self.vout.encode(), self.iout.encode(), self.temp.encode(), self.vin.encode(), 0u8, 0u8]
    }

    /// Every channel is well formed.
    pub open spec fn wf(self) -> bool {
        self.vout.wf() && self.iout.wf() && self.temp.wf() && self.vin.wf()
    }

    pub fn from_bytes(data: [u8; 6]) -> (r: Self)
        ensures
            r == Self::decode(data@),
            r.wf(),
    {
        TelemetryConfig {
            vout: TelemetryChannel::from_raw(data[0]),
            iout: TelemetryChannel::from_raw(data[1]),
            temp: TelemetryChannel::from_raw(data[2]),
            vin: TelemetryChannel::from_raw(data[3]),
        }
    }

    pub fn to_bytes(self) -> (r: [u8; 6])
        ensures
            r@ == self.encode(),
    {
        let r = [self.vout.to_raw(), self.iout.to_raw(), self.temp.to_raw(), self.vin.to_raw(), 0, 0];
        assert(r@ =~= self.encode());
        r
    }
}

/// A well-formed configuration decodes back from its encoding.
pub proof fn lemma_telemetry_config_value_round_trip(c: TelemetryConfig)
    requires
        c.wf(),
    ensures
        TelemetryConfig::decode(c.encode()) == c,
{
    lemma_telemetry_channel_value_round_trip(c.vout);
    lemma_telemetry_channel_value_round_trip(c.iout);
    lemma_telemetry_channel_value_round_trip(c.temp);
    lemma_telemetry_channel_value_round_trip(c.vin);
}

/// Reading a block and writing it back keeps bits [4:0] of the four channel
/// bytes and clears everything else.
pub proof fn lemma_telemetry_config_raw_round_trip(data: Seq<u8>)
    requires
        data.len() == 6,
    ensures
        TelemetryConfig::decode(data).encode() == seq![
            data[0] & 0x1F,
            data[1] & 0x1F,
            data[2] & 0x1F,
            data[3] & 0x1F,
            0u8,
            0u8,
        ],
{
    lemma_telemetry_channel_raw_round_trip(data[0]);
    lemma_telemetry_channel_raw_round_trip(data[1]);
    lemma_telemetry_channel_raw_round_trip(data[2]);
    lemma_telemetry_channel_raw_round_trip(data[3]);
    assert(TelemetryConfig::decode(data).encode() =~= seq![
        data[0] & 0x1F,
        data[1] & 0x1F,
        data[2] & 0x1F,
        data[3] & 0x1F,
        0u8,
        0u8,
    ]);
}

/// The value of a little-endian 16-bit word from its low and high bytes.
pub open spec fn le_word(lo: u8, hi: u8) -> int {
    lo + 256 * hi
}

/// `u16::from_le_bytes`: per its documentation, the integer whose
/// little-endian byte representation is `bytes`, that is `bytes[0]` plus
/// 256 times `bytes[1]`.
#[verifier::external_body]
fn u16_from_le_bytes(bytes: [u8; 2]) -> (r: u16)
    ensures
        r == le_word(bytes[0], bytes[1]),
{
    u16::from_le_bytes(bytes)
}

/// READ_ALL (DAh): one block with the status word and the raw telemetry
/// words, each little-endian.
#[derive(Debug, Clone, Copy, PartialEq, Eq)]
pub struct ReadAll {
    pub status_word: u16,
    pub vout_raw: u16,
    pub iout_raw: u16,
    pub temperature_raw: u16,
    pub vin_raw: u16,
}

impl ReadAll {
    /// What a 14-byte READ_ALL block decodes to: five little-endian words
    /// from bytes 0 to 9; bytes 10 to 13 are not read.
    pub open spec fn decode(data: Seq<u8>) -> ReadAll {
        ReadAll {
            status_word: le_word(data[0], data[1]) as u16,
            vout_raw: le_word(data[2], data[3]) as u16,
            iout_raw: le_word(data[4], data[5]) as u16,
            temperature_raw: le_word(data[6], data[7]) as u16,
            vin_raw: le_word(data[8], data[9]) as u16,
        }
    }

    pub fn from_bytes(data: [u8; 14]) -> (r: Self)
        ensures
            r == Self::decode(data@),
            r.status_word == le_word(data[0], data[1]),
            r.vout_raw == le_word(data[2], data[3]),
            r.iout_raw == le_word(data[4], data[5]),
            r.temperature_raw == le_word(data[6], data[7]),
            r.vin_raw == le_word(data[8], data[9]),
    {
        ReadAll {
            status_word: u16_from_le_bytes([data[0], data[1]]),
            vout_raw: u16_from_le_bytes([data[2], data[3]]),
            iout_raw: u16_from_le_bytes([data[4], data[5]]),
            temperature_raw: u16_from_le_bytes([data[6], data[7]]),
            vin_raw: u16_from_le_bytes([data[8], data[9]]),
        }
    }
}

/// STATUS_ALL (DBh): the seven status bytes in one block.
#[derive(Debug, Clone, Copy, PartialEq, Eq)]
pub struct StatusAll {
    pub vout: u8,
    pub iout: u8,
    pub input: u8,
    pub temperature: u8,
    pub cml: u8,
    pub other: u8,
    pub mfr: u8,
}

impl StatusAll {
    /// What a 7-byte STATUS_ALL block decodes to: one status byte each, in order.
    pub open spec fn decode(data: Seq<u8>) -> StatusAll {
        StatusAll {
            vout: data[0],
            iout: data[1],
            input: data[2],
            temperature: data[3],
            cml: data[4],
            other: data[5],
            mfr: data[6],
        }
    }

    pub fn from_bytes(data: [u8; 7]) -> (r: Self)
        ensures
            r == Self::decode(data@),
    {
        StatusAll {
            vout: data[0],
            iout: data[1],
            input: data[2],
            temperature: data[3],
            cml: data[4],
            other: data[5],
            mfr: data[6],
        }
    }
}

} // verus!
