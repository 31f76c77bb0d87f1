//! Bit-field vocabulary shared by the register contracts.

use vstd::prelude::*;

verus! {

/// Whether bit `i` of the byte `v` is set.
pub open spec fn bit_u8(v: u8, i: u8) -> bool {
    (v >> i) & 1 != 0
}

/// Whether bit `i` of the word `v` is set.
pub open spec fn bit_u16(v: u16, i: u16) -> bool {
    (v >> i) & 1 != 0
}

/// The byte that has bit `i` set exactly when `b` holds, and no other bit.
pub open spec fn flag_u8(b: bool, i: u8) -> u8 {
    if b {
        1u8 << i
    } else {
        0
    }
}

/// The word that has bit `i` set exactly when `b` holds, and no other bit.
pub open spec fn flag_u16(b: bool, i: u16) -> u16 {
    if b {
        1u16 << i
    } else {
        0
    }
}

/// Places `b` at bit `i` of a byte.
pub fn flag8(b: bool, i: u8) -> (r: u8)
    requires
        i < 8,
    ensures
        r == flag_u8(b, i),
{
    if b {
        1u8 << i
    } else {
        0
    }
}

/// Places `b` at bit `i` of a word.
pub fn flag16(b: bool, i: u16) -> (r: u16)
    requires
        i < 16,
    ensures
        r == flag_u16(b, i),
{
    if b {
        1u16 << i
    } else {
        0
    }
}

/// Facts about the low-bit masks that field decoders apply: a masked value
/// fits the field, and a value that already fits is unchanged by the mask.
pub proof fn lemma_low_masks_u8()
    by (bit_vector)
    ensures
        forall|v: u8| #![trigger v & 0x03] (v & 0x03) < 4 && (v < 4 ==> v & 0x03 == v),
        forall|v: u8| #![trigger v & 0x07] (v & 0x07) < 8 && (v < 8 ==> v & 0x07 == v),
        forall|v: u8| #![trigger v & 0x0F] (v & 0x0F) < 16 && (v < 16 ==> v & 0x0F == v),
        forall|v: u8| #![trigger v & 0x1F] (v & 0x1F) < 32 && (v < 32 ==> v & 0x1F == v),
        forall|v: u8| #![trigger v & 0x7F] (v & 0x7F) < 128 && (v < 128 ==> v & 0x7F == v),
{
}

} // verus!
