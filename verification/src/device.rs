//! What the driver decides between bus transactions: the device address,
//! the cached VOUT_MODE exponent, the manufacturer command codes, and how a
//! block read is fitted to a register's fixed size.

use vstd::prelude::*;
use crate::bits::lemma_low_masks_u8;

verus! {

/// The factory-default 7-bit bus address of the TPS546D24A.
pub const DEFAULT_ADDR: u8 = 0x24;

/// The VOUT_MODE exponent assumed until VOUT_MODE has been read.
pub const DEFAULT_VOUT_EXPONENT: i8 = -9;

/// COMPENSATION_CONFIG, a 5-byte block.
pub const CMD_COMPENSATION_CONFIG: u8 = 0xB1;
/// POWER_STAGE_CONFIG, a byte.
pub const CMD_POWER_STAGE_CONFIG: u8 = 0xB5;
/// TELEMETRY_CONFIG, a 6-byte block.
pub const CMD_TELEMETRY_CONFIG: u8 = 0xD0;
/// READ_ALL, a 14-byte block, read only.
pub const CMD_READ_ALL: u8 = 0xDA;
/// STATUS_ALL, a 7-byte block, read only.
pub const CMD_STATUS_ALL: u8 = 0xDB;
/// STATUS_PHASE, a word.
pub const CMD_STATUS_PHASE: u8 = 0xDC;
/// SYNC_CONFIG, a byte.
pub const CMD_SYNC_CONFIG: u8 = 0xE4;
/// STACK_CONFIG, a word.
pub const CMD_STACK_CONFIG: u8 = 0xEC;
/// MISC_OPTIONS, a word.
pub const CMD_MISC_OPTIONS: u8 = 0xED;
/// PIN_DETECT_OVERRIDE, a word.
pub const CMD_PIN_DETECT_OVERRIDE: u8 = 0xEE;
/// SLAVE_ADDRESS, a byte.
pub const CMD_SLAVE_ADDRESS: u8 = 0xEF;
/// NVM_CHECKSUM, a word, read only.
pub const CMD_NVM_CHECKSUM: u8 = 0xF0;
/// SIMULATE_FAULTS, a word.
pub const CMD_SIMULATE_FAULTS: u8 = 0xF1;
/// FUSION_ID0, a word, read only.
pub const CMD_FUSION_ID0: u8 = 0xFC;
/// FUSION_ID1, a 6-byte block, read only.
pub const CMD_FUSION_ID1: u8 = 0xFD;

/// The data format that VOUT_MODE selects for the output voltage commands.
#[derive(Debug, Clone, Copy, PartialEq, Eq)]
pub enum VoutFormat {
    /// ULINEAR16 with the given exponent.
    ULinear16 { exponent: i8 },
    /// VID codes from the given table.
    Vid { code: u8 },
    /// DIRECT format with coefficients.
    Direct,
    /// IEEE 754 half precision.
    IeeeHalf,
}

/// The driver's own state: the bus address it talks to and the exponent
/// with which it scales ULINEAR16 voltages.
#[derive(Debug, Clone, Copy, PartialEq, Eq)]
pub struct DriverState {
    addr: u8,
    vout_exponent: i8,
}

/// What a `DriverState` holds.
pub struct DriverStateView {
    pub addr: u8,
    pub vout_exponent: i8,
}

impl View for DriverState {
    type V = DriverStateView;

    closed spec fn view(&self) -> DriverStateView {
        DriverStateView { addr: self.addr, vout_exponent: self.vout_exponent }
    }
}

impl DriverState {
    /// A driver for the device at `addr`, with the default exponent.
    pub fn new(addr: u8) -> (r: Self)
        ensures
            r@ == (DriverStateView { addr, vout_exponent: DEFAULT_VOUT_EXPONENT }),
    {
        DriverState { addr, vout_exponent: DEFAULT_VOUT_EXPONENT }
    }

    pub fn addr(&self) -> (r: u8)
        ensures
            r == self@.addr,
    {
        self.addr
    }

    pub fn vout_exponent(&self) -> (r: i8)
        ensures
            r == self@.vout_exponent,
    {
        self.vout_exponent
    }

    pub fn set_vout_exponent(&mut self, exp: i8)
        ensures
            final(self)@ == (DriverStateView { vout_exponent: exp, ..old(self)@ }),
    {
        self.vout_exponent = exp;
    }

    /// Takes note of a VOUT_MODE value that was read from the device or
    /// written to it: a ULINEAR16 mode sets the cached exponent; any other
    /// mode leaves the state as it was.
    pub fn note_vout_mode(&mut self, mode: VoutFormat)
        ensures
            final(self)@ == (match mode {
                VoutFormat::ULinear16 { exponent } => DriverStateView {
                    vout_exponent: exponent,
                    ..old(self)@
                },
                _ => old(self)@,
            }),
    {
        if let VoutFormat::ULinear16 { exponent } = mode {
            self.vout_exponent = exponent;
        }
    }
}

/// The first `n` bytes of a block as read: byte `i` of the block where the
/// block has one, and zero past its end.
pub open spec fn block_prefix(data: Seq<u8>, n: nat) -> Seq<u8> {
    Seq::new(n, |i: int| if i < data.len() { data[i] } else { 0u8 })
}

/// Fits a block read of any length to a register of `N` bytes: the bytes
/// the block has are copied, and those it lacks are zero.
pub fn fit_block<const N: usize>(data: &[u8]) -> (r: [u8; N])
    ensures
        r@ == block_prefix(data@, N as nat),
{
    let mut buf = [0u8; N];
    let len = if data.len() < N {
        data.len()
    } else {
        N
    };
    let mut i: usize = 0;
    while i < len
        invariant
            len <= N,
            len <= data@.len(),
            i <= len,
            buf@.len() == N,
            forall|j: int| 0 <= j < i ==> buf@[j] == data@[j],
            forall|j: int| i <= j < N ==> buf@[j] == 0u8,
        decreases len - i,
    {
        buf[i] = data[i];
        i = i + 1;
    }
    assert(buf@ =~= block_prefix(data@, N as nat));
    buf
}

/// The word written for a value that was encoded into a data format: the
/// encoded word, or zero when the value could not be represented.
pub fn word_or_zero(encoded: Option<u16>) -> (r: u16)
    ensures
        r == (match encoded {
            Some(w) => w,
            None => 0u16,
        }),
{
    match encoded {
        Some(w) => w,
        None => 0,
    }
}

/// The 7-bit bus address that a SLAVE_ADDRESS byte holds, and the byte that
/// is written for an address: bit 7 is always clear.
pub fn slave_address_bits(v: u8) -> (r: u8)
    ensures
        r == v & 0x7F,
        r < 128,
        v < 128 ==> r == v,
{
    proof {
        lemma_low_masks_u8();
    }
    v & 0x7F
}

} // verus!
