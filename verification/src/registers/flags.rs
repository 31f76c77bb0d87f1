//! Flag words: STATUS_PHASE (DCh) and SIMULATE_FAULTS (F1h).
//!
//! Each is a set of named bits of a 16-bit word. A value holds only named
//! bits, which its type invariant states: decoding a raw word drops the
//! others, and every operation keeps them dropped. Flag arguments given as a
//! word count only through the bits they have.

use vstd::prelude::*;

verus! {

/// The bits that STATUS_PHASE names: PH0 to PH3.
pub const STATUS_PHASE_ALL: u16 = 0x000F;

/// The bits that SIMULATE_FAULTS names: 15, 14, 12 to 7 and 5 to 1.
pub const SIMULATE_FAULTS_ALL: u16 = 0xDFBE;

/// Facts about combining words that hold only the bits of a mask `m`.
proof fn lemma_flag_word_ops(a: u16, b: u16, m: u16)
    by (bit_vector)
    ensures
        (a & m) & !m == 0,
        a & !m == 0 && b & !m == 0 ==> (a | b) & !m == 0,
        a & !m == 0 ==> (a & b) & !m == 0,
        a & !m == 0 ==> (a & !b) & !m == 0,
        a & !m == 0 && b & !m == 0 ==> (a ^ b) & !m == 0,
        a & !m == 0 ==> a & m == a,
        ((a | b) & b) == b,
        ((a & !b) & b) == 0,
        m & !m == 0,
        0u16 & !m == 0,
{
}

/// After `insert(flags)` the value contains the named bits of `flags`; after
/// `remove(flags)` it contains none of the bits of `flags`. Stated over the
/// held word `bits` and the named bits `all`.
pub proof fn lemma_insert_contains_remove(bits: u16, flags: u16, all: u16)
    ensures
        (bits | (flags & all)) & (flags & all) == flags & all,
        (bits & !flags) & flags == 0,
{
    lemma_flag_word_ops(bits, flags & all, all);
    lemma_flag_word_ops(bits, flags, all);
}

/// STATUS_PHASE (DCh): which phases of the stack report a fault.
#[derive(Debug, Clone, Copy, PartialEq, Eq)]
pub struct StatusPhase {
    bits: u16,
}

impl View for StatusPhase {
    type V = u16;

    closed spec fn view(&self) -> u16 {
        self.bits
    }
}

impl StatusPhase {
    pub const PH0: u16 = 1 << 0;
    pub const PH1: u16 = 1 << 1;
    pub const PH2: u16 = 1 << 2;
    pub const PH3: u16 = 1 << 3;

    /// The value has no bit set outside the named ones; every value of the
    /// type has this property.
    #[verifier::type_invariant]
    pub open spec fn wf(self) -> bool {
        self@ & !STATUS_PHASE_ALL == 0
    }

    /// The value with no bit set.
    pub fn empty() -> (r: Self)
        ensures
            r@ == 0,
    {
        proof {
            lemma_flag_word_ops(0, 0, STATUS_PHASE_ALL);
        }
        StatusPhase { bits: 0 }
    }

    /// The value with every named bit set.
    pub fn all() -> (r: Self)
        ensures
            r@ == STATUS_PHASE_ALL,
    {
        proof {
            lemma_flag_word_ops(0, 0, STATUS_PHASE_ALL);
        }
        StatusPhase { bits: STATUS_PHASE_ALL }
    }

    /// The value that holds `bits`, when `bits` has no bit outside the named
    /// ones; `None` otherwise.
    pub fn from_bits(bits: u16) -> (r: Option<Self>)
        ensures
            r is Some <==> bits & !STATUS_PHASE_ALL == 0,
            r matches Some(f) ==> f@ == bits,
    {
        if bits & !STATUS_PHASE_ALL == 0 {
            Some(StatusPhase { bits })
        } else {
            None
        }
    }

    /// The value that holds the named bits of `raw` and drops the others.
    pub fn from_raw(raw: u16) -> (r: Self)
        ensures
            r@ == raw & STATUS_PHASE_ALL,
    {
        proof {
            lemma_flag_word_ops(raw, 0, STATUS_PHASE_ALL);
        }
        StatusPhase { bits: raw & STATUS_PHASE_ALL }
    }

    /// The value that holds the named bits of `bits` and drops the others;
    /// the same as `from_raw`.
    pub fn from_bits_truncate(bits: u16) -> (r: Self)
        ensures
            r@ == bits & STATUS_PHASE_ALL,
    {
        Self::from_raw(bits)
    }

    pub fn to_raw(self) -> (r: u16)
        ensures
            r == self@,
            self.wf(),
    {
        proof {
            use_type_invariant(&self);
        }
        self.bits
    }

    /// The word that holds the set bits.
    pub fn bits(&self) -> (r: u16)
        ensures
            r == self@,
            self.wf(),
    {
        proof {
            use_type_invariant(self);
        }
        self.bits
    }

    /// Whether no bit is set.
    pub fn is_empty(&self) -> (r: bool)
        ensures
            r == (self@ == 0),
    {
        self.bits == 0
    }

    /// Whether every named bit is set.
    pub fn is_all(&self) -> (r: bool)
        ensures
            r == (self@ == STATUS_PHASE_ALL),
    {
        self.bits == STATUS_PHASE_ALL
    }

    /// Whether every bit of `flags` is set in this value.
    pub fn contains(&self, flags: u16) -> (r: bool)
        ensures
            r == (self@ & flags == flags),
    {
        self.bits & flags == flags
    }

    /// Whether some bit of `flags` is set in this value.
    pub fn intersects(&self, flags: u16) -> (r: bool)
        ensures
            r == (self@ & flags != 0),
    {
        self.bits & flags != 0
    }

    /// Sets the named bits of `flags`.
    pub fn insert(&mut self, flags: u16)
        ensures
            final(self)@ == old(self)@ | (flags & STATUS_PHASE_ALL),
    {
        proof {
            use_type_invariant(&*self);
            lemma_flag_word_ops(flags, 0, STATUS_PHASE_ALL);
            lemma_flag_word_ops(self.bits, flags & STATUS_PHASE_ALL, STATUS_PHASE_ALL);
        }
        self.bits = self.bits | (flags & STATUS_PHASE_ALL);
    }

    /// Clears the bits of `flags`.
    pub fn remove(&mut self, flags: u16)
        ensures
            final(self)@ == old(self)@ & !flags,
    {
        proof {
            use_type_invariant(&*self);
            lemma_flag_word_ops(self.bits, flags, STATUS_PHASE_ALL);
        }
        self.bits = self.bits & !flags;
    }

    /// Flips the named bits of `flags`.
    pub fn toggle(&mut self, flags: u16)
        ensures
            final(self)@ == old(self)@ ^ (flags & STATUS_PHASE_ALL),
    {
        proof {
            use_type_invariant(&*self);
            lemma_flag_word_ops(flags, 0, STATUS_PHASE_ALL);
            lemma_flag_word_ops(self.bits, flags & STATUS_PHASE_ALL, STATUS_PHASE_ALL);
        }
        self.bits = self.bits ^ (flags & STATUS_PHASE_ALL);
    }

    /// Sets the named bits of `flags` when `value` holds, and clears the
    /// bits of `flags` otherwise.
    pub fn set(&mut self, flags: u16, value: bool)
        ensures
            final(self)@ == (if value {
                old(self)@ | (flags & STATUS_PHASE_ALL)
            } else {
                old(self)@ & !flags
            }),
    {
        if value {
            self.insert(flags);
        } else {
            self.remove(flags);
        }
    }

    /// The bits set in either value.
    pub fn union(self, other: Self) -> (r: Self)
        ensures
            r@ == self@ | other@,
    {
        proof {
            use_type_invariant(&self);
            use_type_invariant(&other);
            lemma_flag_word_ops(self.bits, other.bits, STATUS_PHASE_ALL);
        }
        StatusPhase { bits: self.bits | other.bits }
    }

    /// The bits set in both values.
    pub fn intersection(self, other: Self) -> (r: Self)
        ensures
            r@ == self@ & other@,
    {
        proof {
            use_type_invariant(&self);
            lemma_flag_word_ops(self.bits, other.bits, STATUS_PHASE_ALL);
        }
        StatusPhase { bits: self.bits & other.bits }
    }

    /// The bits set in this value and not in `other`.
    pub fn difference(self, other: Self) -> (r: Self)
        ensures
            r@ == self@ & !other@,
    {
        proof {
            use_type_invariant(&self);
            lemma_flag_word_ops(self.bits, other.bits, STATUS_PHASE_ALL);
        }
        StatusPhase { bits: self.bits & !other.bits }
    }

    /// The bits set in exactly one of the two values.
    pub fn symmetric_difference(self, other: Self) -> (r: Self)
        ensures
            r@ == self@ ^ other@,
    {
        proof {
            use_type_invariant(&self);
            use_type_invariant(&other);
            lemma_flag_word_ops(self.bits, other.bits, STATUS_PHASE_ALL);
        }
        StatusPhase { bits: self.bits ^ other.bits }
    }

    /// The named bits that this value does not set.
    pub fn complement(self) -> (r: Self)
        ensures
            r@ == !self@ & STATUS_PHASE_ALL,
    {
        proof {
            lemma_flag_word_ops(!self.bits, 0, STATUS_PHASE_ALL);
        }
        StatusPhase { bits: !self.bits & STATUS_PHASE_ALL }
    }
}

impl core::ops::BitOr for StatusPhase {
    type Output = StatusPhase;

    fn bitor(self, rhs: StatusPhase) -> (r: StatusPhase)
        ensures
            r@ == self@ | rhs@,
    {
        self.union(rhs)
    }
}

impl vstd::std_specs::ops::BitOrSpecImpl for StatusPhase {
    open spec fn obeys_bitor_spec() -> bool {
        true
    }

    open spec fn bitor_req(self, rhs: StatusPhase) -> bool {
        true
    }

    closed spec fn bitor_spec(self, rhs: StatusPhase) -> StatusPhase {
        StatusPhase { bits: self.bits | rhs.bits }
    }
}

impl core::ops::BitAnd for StatusPhase {
    type Output = StatusPhase;

    fn bitand(self, rhs: StatusPhase) -> (r: StatusPhase)
        ensures
            r@ == self@ & rhs@,
    {
        self.intersection(rhs)
    }
}

impl vstd::std_specs::ops::BitAndSpecImpl for StatusPhase {
    open spec fn obeys_bitand_spec() -> bool {
        true
    }

    open spec fn bitand_req(self, rhs: StatusPhase) -> bool {
        true
    }

    closed spec fn bitand_spec(self, rhs: StatusPhase) -> StatusPhase {
        StatusPhase { bits: self.bits & rhs.bits }
    }
}

impl core::ops::BitXor for StatusPhase {
    type Output = StatusPhase;

    fn bitxor(self, rhs: StatusPhase) -> (r: StatusPhase)
        ensures
            r@ == self@ ^ rhs@,
    {
        self.symmetric_difference(rhs)
    }
}

impl vstd::std_specs::ops::BitXorSpecImpl for StatusPhase {
    open spec fn obeys_bitxor_spec() -> bool {
        true
    }

    open spec fn bitxor_req(self, rhs: StatusPhase) -> bool {
        true
    }

    closed spec fn bitxor_spec(self, rhs: StatusPhase) -> StatusPhase {
        StatusPhase { bits: self.bits ^ rhs.bits }
    }
}

impl core::ops::Sub for StatusPhase {
    type Output = StatusPhase;

    fn sub(self, rhs: StatusPhase) -> (r: StatusPhase)
        ensures
            r@ == self@ & !rhs@,
    {
        self.difference(rhs)
    }
}

impl vstd::std_specs::ops::SubSpecImpl for StatusPhase {
    open spec fn obeys_sub_spec() -> bool {
        true
    }

    open spec fn sub_req(self, rhs: StatusPhase) -> bool {
        true
    }

    closed spec fn sub_spec(self, rhs: StatusPhase) -> StatusPhase {
        StatusPhase { bits: self.bits & !rhs.bits }
    }
}

impl core::ops::Not for StatusPhase {
    type Output = StatusPhase;

    fn not(self) -> (r: StatusPhase)
        ensures
            r@ == !self@ & STATUS_PHASE_ALL,
    {
        self.complement()
    }
}

impl vstd::std_specs::ops::NotSpecImpl for StatusPhase {
    open spec fn obeys_not_spec() -> bool {
        true
    }

    open spec fn not_req(self) -> bool {
        true
    }

    closed spec fn not_spec(self) -> StatusPhase {
        StatusPhase { bits: !self.bits & STATUS_PHASE_ALL }
    }
}

/// The named bits of STATUS_PHASE are exactly PH0 to PH3, bits 0 to 3.
pub proof fn lemma_status_phase_named_bits()
    ensures
        STATUS_PHASE_ALL == StatusPhase::PH0 | StatusPhase::PH1 | StatusPhase::PH2
            | StatusPhase::PH3,
        StatusPhase::PH0 == 0x0001 && StatusPhase::PH1 == 0x0002 && StatusPhase::PH2 == 0x0004
            && StatusPhase::PH3 == 0x0008,
{
    assert(1u16 << 0 == 0x0001 && 1u16 << 1 == 0x0002 && 1u16 << 2 == 0x0004 && 1u16 << 3
        == 0x0008 && (0x0001u16 | 0x0002u16 | 0x0004u16 | 0x0008u16) == 0x000F) by (bit_vector);
}

/// Decoding a raw STATUS_PHASE word a second time changes nothing, and a
/// value written and read back is unchanged: decoding its word keeps every
/// bit it holds.
pub proof fn lemma_status_phase_round_trip(raw: u16, s: StatusPhase)
    requires
        s.wf(),
    ensures
        (raw & STATUS_PHASE_ALL) & STATUS_PHASE_ALL == raw & STATUS_PHASE_ALL,
        s@ & STATUS_PHASE_ALL == s@,
{
    lemma_flag_word_ops(raw, 0, STATUS_PHASE_ALL);
    lemma_flag_word_ops(s@, 0, STATUS_PHASE_ALL);
    lemma_flag_word_ops(raw & STATUS_PHASE_ALL, 0, STATUS_PHASE_ALL);
}

/// SIMULATE_FAULTS (F1h): which faults and warnings the device simulates.
#[derive(Debug, Clone, Copy, PartialEq, Eq)]
pub struct SimulateFaults {
    bits: u16,
}

impl View for SimulateFaults {
    type V = u16;

    closed spec fn view(&self) -> u16 {
        self.bits
    }
}

impl SimulateFaults {
    pub const FAULT_PERSIST: u16 = 1 << 15;
    pub const TEMP_OTF: u16 = 1 << 14;
    pub const VIN_OVF: u16 = 1 << 12;
    pub const VIN_OFF: u16 = 1 << 11;
    pub const VOUT_UVF: u16 = 1 << 10;
    pub const VOUT_OVF: u16 = 1 << 9;
    pub const IOUT_OCF: u16 = 1 << 8;
    pub const WARN_PERSIST: u16 = 1 << 7;
    pub const TEMP_OTW: u16 = 1 << 5;
    pub const VIN_UVW: u16 = 1 << 4;
    pub const VOUT_UVW: u16 = 1 << 3;
    pub const VOUT_OVW: u16 = 1 << 2;
    pub const IOUT_OCW: u16 = 1 << 1;

    /// The value has no bit set outside the named ones; every value of the
    /// type has this property.
    #[verifier::type_invariant]
    pub open spec fn wf(self) -> bool {
        self@ & !SIMULATE_FAULTS_ALL == 0
    }

    /// The value with no bit set.
    pub fn empty() -> (r: Self)
        ensures
            r@ == 0,
    {
        proof {
            lemma_flag_word_ops(0, 0, SIMULATE_FAULTS_ALL);
        }
        SimulateFaults { bits: 0 }
    }

    /// The value with every named bit set.
    pub fn all() -> (r: Self)
        ensures
            r@ == SIMULATE_FAULTS_ALL,
    {
        proof {
            lemma_flag_word_ops(0, 0, SIMULATE_FAULTS_ALL);
        }
        SimulateFaults { bits: SIMULATE_FAULTS_ALL }
    }

    /// The value that holds `bits`, when `bits` has no bit outside the named
    /// ones; `None` otherwise.
    pub fn from_bits(bits: u16) -> (r: Option<Self>)
        ensures
            r is Some <==> bits & !SIMULATE_FAULTS_ALL == 0,
            r matches Some(f) ==> f@ == bits,
    {
        if bits & !SIMULATE_FAULTS_ALL == 0 {
            Some(SimulateFaults { bits })
        } else {
            None
        }
    }

    /// The value that holds the named bits of `raw` and drops the others.
    pub fn from_raw(raw: u16) -> (r: Self)
        ensures
            r@ == raw & SIMULATE_FAULTS_ALL,
    {
        proof {
            lemma_flag_word_ops(raw, 0, SIMULATE_FAULTS_ALL);
        }
        SimulateFaults { bits: raw & SIMULATE_FAULTS_ALL }
    }

    /// The value that holds the named bits of `bits` and drops the others;
    /// the same as `from_raw`.
    pub fn from_bits_truncate(bits: u16) -> (r: Self)
        ensures
            r@ == bits & SIMULATE_FAULTS_ALL,
    {
        Self::from_raw(bits)
    }

    pub fn to_raw(self) -> (r: u16)
        ensures
            r == self@,
            self.wf(),
    {
        proof {
            use_type_invariant(&self);
        }
        self.bits
    }

    /// The word that holds the set bits.
    pub fn bits(&self) -> (r: u16)
        ensures
            r == self@,
            self.wf(),
    {
        proof {
            use_type_invariant(self);
        }
        self.bits
    }

    /// Whether no bit is set.
    pub fn is_empty(&self) -> (r: bool)
        ensures
            r == (self@ == 0),
    {
        self.bits == 0
    }

    /// Whether every named bit is set.
    pub fn is_all(&self) -> (r: bool)
        ensures
            r == (self@ == SIMULATE_FAULTS_ALL),
    {
        self.bits == SIMULATE_FAULTS_ALL
    }

    /// Whether every bit of `flags` is set in this value.
    pub fn contains(&self, flags: u16) -> (r: bool)
        ensures
            r == (self@ & flags == flags),
    {
        self.bits & flags == flags
    }

    /// Whether some bit of `flags` is set in this value.
    pub fn intersects(&self, flags: u16) -> (r: bool)
        ensures
            r == (self@ & flags != 0),
    {
        self.bits & flags != 0
    }

    /// Sets the named bits of `flags`.
    pub fn insert(&mut self, flags: u16)
        ensures
            final(self)@ == old(self)@ | (flags & SIMULATE_FAULTS_ALL),
    {
        proof {
            use_type_invariant(&*self);
            lemma_flag_word_ops(flags, 0, SIMULATE_FAULTS_ALL);
            lemma_flag_word_ops(self.bits, flags & SIMULATE_FAULTS_ALL, SIMULATE_FAULTS_ALL);
        }
        self.bits = self.bits | (flags & SIMULATE_FAULTS_ALL);
    }

    /// Clears the bits of `flags`.
    pub fn remove(&mut self, flags: u16)
        ensures
            final(self)@ == old(self)@ & !flags,
    {
        proof {
            use_type_invariant(&*self);
            lemma_flag_word_ops(self.bits, flags, SIMULATE_FAULTS_ALL);
        }
        self.bits = self.bits & !flags;
    }

    /// Flips the named bits of `flags`.
    pub fn toggle(&mut self, flags: u16)
        ensures
            final(self)@ == old(self)@ ^ (flags & SIMULATE_FAULTS_ALL),
    {
        proof {
            use_type_invariant(&*self);
            lemma_flag_word_ops(flags, 0, SIMULATE_FAULTS_ALL);
            lemma_flag_word_ops(self.bits, flags & SIMULATE_FAULTS_ALL, SIMULATE_FAULTS_ALL);
        }
        self.bits = self.bits ^ (flags & SIMULATE_FAULTS_ALL);
    }

    /// Sets the named bits of `flags` when `value` holds, and clears the
    /// bits of `flags` otherwise.
    pub fn set(&mut self, flags: u16, value: bool)
        ensures
            final(self)@ == (if value {
                old(self)@ | (flags & SIMULATE_FAULTS_ALL)
            } else {
                old(self)@ & !flags
            }),
    {
        if value {
            self.insert(flags);
        } else {
            self.remove(flags);
        }
    }

    /// The bits set in either value.
    pub fn union(self, other: Self) -> (r: Self)
        ensures
            r@ == self@ | other@,
    {
        proof {
            use_type_invariant(&self);
            use_type_invariant(&other);
            lemma_flag_word_ops(self.bits, other.bits, SIMULATE_FAULTS_ALL);
        }
        SimulateFaults { bits: self.bits | other.bits }
    }

    /// The bits set in both values.
    pub fn intersection(self, other: Self) -> (r: Self)
        ensures
            r@ == self@ & other@,
    {
        proof {
            use_type_invariant(&self);
            lemma_flag_word_ops(self.bits, other.bits, SIMULATE_FAULTS_ALL);
        }
        SimulateFaults { bits: self.bits & other.bits }
    }

    /// The bits set in this value and not in `other`.
    pub fn difference(self, other: Self) -> (r: Self)
        ensures
            r@ == self@ & !other@,
    {
        proof {
            use_type_invariant(&self);
            lemma_flag_word_ops(self.bits, other.bits, SIMULATE_FAULTS_ALL);
        }
        SimulateFaults { bits: self.bits & !other.bits }
    }

    /// The bits set in exactly one of the two values.
    pub fn symmetric_difference(self, other: Self) -> (r: Self)
        ensures
            r@ == self@ ^ other@,
    {
        proof {
            use_type_invariant(&self);
            use_type_invariant(&other);
            lemma_flag_word_ops(self.bits, other.bits, SIMULATE_FAULTS_ALL);
        }
        SimulateFaults { bits: self.bits ^ other.bits }
    }

    /// The named bits that this value does not set.
    pub fn complement(self) -> (r: Self)
        ensures
            r@ == !self@ & SIMULATE_FAULTS_ALL,
    {
        proof {
            lemma_flag_word_ops(!self.bits, 0, SIMULATE_FAULTS_ALL);
        }
        SimulateFaults { bits: !self.bits & SIMULATE_FAULTS_ALL }
    }
}

impl core::ops::BitOr for SimulateFaults {
    type Output = SimulateFaults;

    fn bitor(self, rhs: SimulateFaults) -> (r: SimulateFaults)
        ensures
            r@ == self@ | rhs@,
    {
        self.union(rhs)
    }
}

impl vstd::std_specs::ops::BitOrSpecImpl for SimulateFaults {
    open spec fn obeys_bitor_spec() -> bool {
        true
    }

    open spec fn bitor_req(self, rhs: SimulateFaults) -> bool {
        true
    }

    closed spec fn bitor_spec(self, rhs: SimulateFaults) -> SimulateFaults {
        SimulateFaults { bits: self.bits | rhs.bits }
    }
}

impl core::ops::BitAnd for SimulateFaults {
    type Output = SimulateFaults;

    fn bitand(self, rhs: SimulateFaults) -> (r: SimulateFaults)
        ensures
            r@ == self@ & rhs@,
    {
        self.intersection(rhs)
    }
}

impl vstd::std_specs::ops::BitAndSpecImpl for SimulateFaults {
    open spec fn obeys_bitand_spec() -> bool {
        true
    }

    open spec fn bitand_req(self, rhs: SimulateFaults) -> bool {
        true
    }

    closed spec fn bitand_spec(self, rhs: SimulateFaults) -> SimulateFaults {
        SimulateFaults { bits: self.bits & rhs.bits }
    }
}

impl core::ops::BitXor for SimulateFaults {
    type Output = SimulateFaults;

    fn bitxor(self, rhs: SimulateFaults) -> (r: SimulateFaults)
        ensures
            r@ == self@ ^ rhs@,
    {
        self.symmetric_difference(rhs)
    }
}

impl vstd::std_specs::ops::BitXorSpecImpl for SimulateFaults {
    open spec fn obeys_bitxor_spec() -> bool {
        true
    }

    open spec fn bitxor_req(self, rhs: SimulateFaults) -> bool {
        true
    }

    closed spec fn bitxor_spec(self, rhs: SimulateFaults) -> SimulateFaults {
        SimulateFaults { bits: self.bits ^ rhs.bits }
    }
}

impl core::ops::Sub for SimulateFaults {
    type Output = SimulateFaults;

    fn sub(self, rhs: SimulateFaults) -> (r: SimulateFaults)
        ensures
            r@ == self@ & !rhs@,
    {
        self.difference(rhs)
    }
}

impl vstd::std_specs::ops::SubSpecImpl for SimulateFaults {
    open spec fn obeys_sub_spec() -> bool {
        true
    }

    open spec fn sub_req(self, rhs: SimulateFaults) -> bool {
        true
    }

    closed spec fn sub_spec(self, rhs: SimulateFaults) -> SimulateFaults {
        SimulateFaults { bits: self.bits & !rhs.bits }
    }
}

impl core::ops::Not for SimulateFaults {
    type Output = SimulateFaults;

    fn not(self) -> (r: SimulateFaults)
        ensures
            r@ == !self@ & SIMULATE_FAULTS_ALL,
    {
        self.complement()
    }
}

impl vstd::std_specs::ops::NotSpecImpl for SimulateFaults {
    open spec fn obeys_not_spec() -> bool {
        true
    }

    open spec fn not_req(self) -> bool {
        true
    }

    closed spec fn not_spec(self) -> SimulateFaults {
        SimulateFaults { bits: !self.bits & SIMULATE_FAULTS_ALL }
    }
}

/// The named bits of SIMULATE_FAULTS are exactly its thirteen fault and
/// warning flags, each at its own bit.
pub proof fn lemma_simulate_faults_named_bits()
    ensures
        SIMULATE_FAULTS_ALL == SimulateFaults::FAULT_PERSIST
            | SimulateFaults::TEMP_OTF
            | SimulateFaults::VIN_OVF
            | SimulateFaults::VIN_OFF
            | SimulateFaults::VOUT_UVF
            | SimulateFaults::VOUT_OVF
            | SimulateFaults::IOUT_OCF
            | SimulateFaults::WARN_PERSIST
            | SimulateFaults::TEMP_OTW
            | SimulateFaults::VIN_UVW
            | SimulateFaults::VOUT_UVW
            | SimulateFaults::VOUT_OVW
            | SimulateFaults::IOUT_OCW,
        SimulateFaults::FAULT_PERSIST == 0x8000,
        SimulateFaults::TEMP_OTF == 0x4000,
        SimulateFaults::VIN_OVF == 0x1000,
        SimulateFaults::VIN_OFF == 0x0800,
        SimulateFaults::VOUT_UVF == 0x0400,
        SimulateFaults::VOUT_OVF == 0x0200,
        SimulateFaults::IOUT_OCF == 0x0100,
        SimulateFaults::WARN_PERSIST == 0x0080,
        SimulateFaults::TEMP_OTW == 0x0020,
        SimulateFaults::VIN_UVW == 0x0010,
        SimulateFaults::VOUT_UVW == 0x0008,
        SimulateFaults::VOUT_OVW == 0x0004,
        SimulateFaults::IOUT_OCW == 0x0002,
{
    assert({
        &&& 1u16 << 15 == 0x8000
        &&& 1u16 << 14 == 0x4000
        &&& 1u16 << 12 == 0x1000
        &&& 1u16 << 11 == 0x0800
        &&& 1u16 << 10 == 0x0400
        &&& 1u16 << 9 == 0x0200
        &&& 1u16 << 8 == 0x0100
        &&& 1u16 << 7 == 0x0080
        &&& 1u16 << 5 == 0x0020
        &&& 1u16 << 4 == 0x0010
        &&& 1u16 << 3 == 0x0008
        &&& 1u16 << 2 == 0x0004
        &&& 1u16 << 1 == 0x0002
        &&& (0x8000u16 | 0x4000u16 | 0x1000u16 | 0x0800u16 | 0x0400u16 | 0x0200u16 | 0x0100u16
            | 0x0080u16 | 0x0020u16 | 0x0010u16 | 0x0008u16 | 0x0004u16 | 0x0002u16) == 0xDFBE
    }) by (bit_vector);
}

/// Decoding a raw SIMULATE_FAULTS word a second time changes nothing, and a
/// value written and read back is unchanged: decoding its word keeps every
/// bit it holds.
pub proof fn lemma_simulate_faults_round_trip(raw: u16, s: SimulateFaults)
    requires
        s.wf(),
    ensures
        (raw & SIMULATE_FAULTS_ALL) & SIMULATE_FAULTS_ALL == raw & SIMULATE_FAULTS_ALL,
        s@ & SIMULATE_FAULTS_ALL == s@,
{
    lemma_flag_word_ops(raw, 0, SIMULATE_FAULTS_ALL);
    lemma_flag_word_ops(s@, 0, SIMULATE_FAULTS_ALL);
    lemma_flag_word_ops(raw & SIMULATE_FAULTS_ALL, 0, SIMULATE_FAULTS_ALL);
}

} // verus!
