//! The flags register: four condition flags packed into the high nibble of a
//! byte.

use vstd::prelude::*;

verus! {

/// Bit position of the zero flag in the packed byte.
pub const ZERO_FLAG_BYTE_POSITION: u8 = 7;

/// Bit position of the subtract flag in the packed byte.
pub const SUBTRACT_FLAG_BYTE_POSITION: u8 = 6;

/// Bit position of the half-carry flag in the packed byte.
pub const HALF_CARRY_FLAG_BYTE_POSITION: u8 = 5;

/// Bit position of the carry flag in the packed byte.
pub const CARRY_FLAG_BYTE_POSITION: u8 = 4;

/// The four condition flags of the processor.
#[derive(Clone, Copy, Debug, PartialEq, Eq, Structural)]
pub struct FlagsRegister {
    /// Set when the result of an operation was zero.
    pub zero: bool,
    /// Set when the previous operation was a subtraction.
    pub subtract: bool,
    /// Set when an operation carried out of bit 3 into bit 4.
    pub half_carry: bool,
    /// Set when an operation carried out of bit 7.
    pub carry: bool,
}

/// Whether the bit of `byte` whose place value is `weight` (a power of two) is
/// set.
pub open spec fn has_bit(byte: u8, weight: int) -> bool {
    (byte as int / weight) % 2 == 1
}

impl FlagsRegister {
    /// The byte that packs these flags: bit 7 is zero, bit 6 subtract, bit 5
    /// half-carry, bit 4 carry, and the low nibble is clear.
    pub open spec fn spec_to_byte(self) -> u8 {
        ((if self.zero { 0x80int } else { 0 }) + (if self.subtract { 0x40int } else { 0 }) + (
        if self.half_carry { 0x20int } else { 0 }) + (if self.carry { 0x10int } else { 0 })) as u8
    }

    /// The flags that `byte` packs in its high nibble; the low nibble is
    /// ignored.
    pub open spec fn spec_from_byte(byte: u8) -> FlagsRegister {
        FlagsRegister {
            zero: has_bit(byte, 0x80),
            subtract: has_bit(byte, 0x40),
            half_carry: has_bit(byte, 0x20),
            carry: has_bit(byte, 0x10),
        }
    }

    /// The register with every flag clear.
    pub open spec fn spec_new() -> FlagsRegister {
        FlagsRegister { zero: false, subtract: false, half_carry: false, carry: false }
    }

    /// A register with every flag clear.
    #[verifier::when_used_as_spec(spec_new)]
    pub fn new() -> (flags: FlagsRegister)
        ensures
            flags == FlagsRegister::spec_new(),
    {
        FlagsRegister { zero: false, subtract: false, half_carry: false, carry: false }
    }

    /// Packs the flags into a byte.
    pub fn to_byte(self) -> (byte: u8)
        ensures
            byte == self.spec_to_byte(),
    {
        let z: u8 = if self.zero { 1 } else { 0 };
        let n: u8 = if self.subtract { 1 } else { 0 };
        let h: u8 = if self.half_carry { 1 } else { 0 };
        let c: u8 = if self.carry { 1 } else { 0 };
        assert(z << 7u8 | n << 6u8 | h << 5u8 | c << 4u8 == z * 0x80 + n * 0x40 + h * 0x20 + c
            * 0x10) by (bit_vector)
            requires
                z <= 1,
                n <= 1,
                h <= 1,
                c <= 1,
        ;
        z << ZERO_FLAG_BYTE_POSITION | n << SUBTRACT_FLAG_BYTE_POSITION | h
            << HALF_CARRY_FLAG_BYTE_POSITION | c << CARRY_FLAG_BYTE_POSITION
    }

    /// Unpacks the flags from the high nibble of a byte.
    pub fn from_byte(byte: u8) -> (flags: FlagsRegister)
        ensures
            flags == FlagsRegister::spec_from_byte(byte),
    {
        assert(((byte >> 7u8) & 1 == 1) == ((byte / 0x80) % 2 == 1)) by (bit_vector);
        assert(((byte >> 6u8) & 1 == 1) == ((byte / 0x40) % 2 == 1)) by (bit_vector);
        assert(((byte >> 5u8) & 1 == 1) == ((byte / 0x20) % 2 == 1)) by (bit_vector);
        assert(((byte >> 4u8) & 1 == 1) == ((byte / 0x10) % 2 == 1)) by (bit_vector);
        FlagsRegister {
            zero: (byte >> ZERO_FLAG_BYTE_POSITION) & 1 == 1,
            subtract: (byte >> SUBTRACT_FLAG_BYTE_POSITION) & 1 == 1,
            half_carry: (byte >> HALF_CARRY_FLAG_BYTE_POSITION) & 1 == 1,
            carry: (byte >> CARRY_FLAG_BYTE_POSITION) & 1 == 1,
        }
    }

    /// Packing flags and unpacking the byte gives the same flags back.
    pub proof fn lemma_flags_round_trip(self)
        ensures
            FlagsRegister::spec_from_byte(self.spec_to_byte()) == self,
    {
    }

    /// Unpacking a byte and packing the flags keeps the high nibble of the
    /// byte and clears its low nibble.
    pub proof fn lemma_byte_round_trip(byte: u8)
        ensures
            FlagsRegister::spec_from_byte(byte).spec_to_byte() == byte & 0xF0,
    {
        assert(byte & 0xF0 == (byte / 0x80) % 2 * 0x80 + (byte / 0x40) % 2 * 0x40 + (byte / 0x20)
            % 2 * 0x20 + (byte / 0x10) % 2 * 0x10) by (bit_vector);
    }

    /// The low nibble of a packed flags byte is always zero.
    pub proof fn lemma_low_nibble_clear(self)
        ensures
            self.spec_to_byte() & 0x0F == 0,
    {
        let byte = self.spec_to_byte();
        assert(byte % 0x10 == 0);
        assert(byte % 0x10 == 0 ==> byte & 0x0F == 0) by (bit_vector);
    }
}

impl From<FlagsRegister> for u8 {
    fn from(flag: FlagsRegister) -> (byte: u8) {
        flag.to_byte()
    }
}

impl vstd::std_specs::convert::FromSpecImpl<FlagsRegister> for u8 {
    open spec fn obeys_from_spec() -> bool {
        true
    }

    open spec fn from_spec(flag: FlagsRegister) -> u8 {
        flag.spec_to_byte()
    }
}

impl From<u8> for FlagsRegister {
    fn from(byte: u8) -> (flags: FlagsRegister) {
        FlagsRegister::from_byte(byte)
    }
}

impl vstd::std_specs::convert::FromSpecImpl<u8> for FlagsRegister {
    open spec fn obeys_from_spec() -> bool {
        true
    }

    open spec fn from_spec(byte: u8) -> FlagsRegister {
        FlagsRegister::spec_from_byte(byte)
    }
}

} // verus!
