//! The register file: seven byte registers, the flags register, and the four
//! register pairs that view two of them as one word.

use vstd::prelude::*;
use crate::flags_register::FlagsRegister;
use crate::instructions::PushPopTarget;
use crate::word::{high_byte, join, low_byte, split, word};

verus! {

/// The registers of the processor. The pairs AF, BC, DE and HL are not
/// stored: each is computed from its two registers, the first one high.
#[derive(Clone, Copy, Debug, PartialEq, Eq, Structural)]
pub struct Registers {
    pub a: u8,
    pub b: u8,
    pub c: u8,
    pub d: u8,
    pub e: u8,
    pub f: FlagsRegister,
    pub h: u8,
    pub l: u8,
}

impl Registers {
    /// The pair AF: the accumulator high, the packed flags low.
    pub open spec fn spec_get_af(self) -> u16 {
        word(self.a, self.f.spec_to_byte())
    }

    /// The pair BC.
    pub open spec fn spec_get_bc(self) -> u16 {
        word(self.b, self.c)
    }

    /// The pair DE.
    pub open spec fn spec_get_de(self) -> u16 {
        word(self.d, self.e)
    }

    /// The pair HL.
    pub open spec fn spec_get_hl(self) -> u16 {
        word(self.h, self.l)
    }

    /// The registers after AF is set to `value`: the flags are unpacked from
    /// the low byte, whose low nibble is lost.
    pub open spec fn spec_set_af(self, value: u16) -> Registers {
        Registers {
            a: high_byte(value),
            f: FlagsRegister::spec_from_byte(low_byte(value)),
            ..self
        }
    }

    /// The registers after BC is set to `value`.
    pub open spec fn spec_set_bc(self, value: u16) -> Registers {
        Registers { b: high_byte(value), c: low_byte(value), ..self }
    }

    /// The registers after DE is set to `value`.
    pub open spec fn spec_set_de(self, value: u16) -> Registers {
        Registers { d: high_byte(value), e: low_byte(value), ..self }
    }

    /// The registers after HL is set to `value`.
    pub open spec fn spec_set_hl(self, value: u16) -> Registers {
        Registers { h: high_byte(value), l: low_byte(value), ..self }
    }

    /// The value of the pair that `pair` names.
    pub open spec fn get_pair(self, pair: PushPopTarget) -> u16 {
        match pair {
            PushPopTarget::AF => self.spec_get_af(),
            PushPopTarget::BC => self.spec_get_bc(),
            PushPopTarget::DE => self.spec_get_de(),
            PushPopTarget::HL => self.spec_get_hl(),
        }
    }

    /// The registers after the pair that `pair` names is set to `value`.
    pub open spec fn set_pair(self, pair: PushPopTarget, value: u16) -> Registers {
        match pair {
            PushPopTarget::AF => self.spec_set_af(value),
            PushPopTarget::BC => self.spec_set_bc(value),
            PushPopTarget::DE => self.spec_set_de(value),
            PushPopTarget::HL => self.spec_set_hl(value),
        }
    }

    /// The register file with every register zero and every flag clear.
    pub open spec fn spec_new() -> Registers {
        Registers { a: 0, b: 0, c: 0, d: 0, e: 0, f: FlagsRegister::spec_new(), h: 0, l: 0 }
    }

    /// A register file with every register zero and every flag clear.
    #[verifier::when_used_as_spec(spec_new)]
    pub fn new() -> (registers: Registers)
        ensures
            registers == Registers::spec_new(),
    {
        Registers { a: 0, b: 0, c: 0, d: 0, e: 0, f: FlagsRegister::new(), h: 0, l: 0 }
    }

    /// Reads the pair AF.
    pub fn get_af(&self) -> (value: u16)
        ensures
            value == self.spec_get_af(),
    {
        join(self.a, self.f.to_byte())
    }

    /// Writes the pair AF.
    pub fn set_af(&mut self, value: u16)
        ensures
            *final(self) == old(self).spec_set_af(value),
    {
        let (high, low) = split(value);
        self.a = high;
        self.f = FlagsRegister::from_byte(low);
    }

    /// Reads the pair BC.
    pub fn get_bc(&self) -> (value: u16)
        ensures
            value == self.spec_get_bc(),
    {
        join(self.b, self.c)
    }

    /// Writes the pair BC.
    pub fn set_bc(&mut self, value: u16)
        ensures
            *final(self) == old(self).spec_set_bc(value),
    {
        let (high, low) = split(value);
        self.b = high;
        self.c = low;
    }

    /// Reads the pair DE.
    pub fn get_de(&self) -> (value: u16)
        ensures
            value == self.spec_get_de(),
    {
        join(self.d, self.e)
    }

    /// Writes the pair DE.
    pub fn set_de(&mut self, value: u16)
        ensures
            *final(self) == old(self).spec_set_de(value),
    {
        let (high, low) = split(value);
        self.d = high;
        self.e = low;
    }

    /// Reads the pair HL.
    pub fn get_hl(&self) -> (value: u16)
        ensures
            value == self.spec_get_hl(),
    {
        join(self.h, self.l)
    }

    /// Writes the pair HL.
    pub fn set_hl(&mut self, value: u16)
        ensures
            *final(self) == old(self).spec_set_hl(value),
    {
        let (high, low) = split(value);
        self.h = high;
        self.l = low;
    }

    /// A pair that was set reads back as the value it was set to; AF reads
    /// back without the low nibble, which the flags do not hold.
    pub proof fn lemma_set_then_get(self, pair: PushPopTarget, value: u16)
        ensures
            !(pair is AF) ==> self.set_pair(pair, value).get_pair(pair) == value,
            pair is AF ==> self.set_pair(pair, value).get_pair(pair) == value & 0xFFF0,
    {
        if pair is AF {
            let low = low_byte(value);
            FlagsRegister::lemma_byte_round_trip(low);
            assert(value & 0xFFF0 == (value / 0x100) * 0x100 + ((value % 0x100) as u8 & 0xF0))
                by (bit_vector);
        }
    }

    /// Setting a pair to the value it has changes nothing.
    pub proof fn lemma_get_then_set(self, pair: PushPopTarget)
        ensures
            self.set_pair(pair, self.get_pair(pair)) == self,
    {
        self.f.lemma_flags_round_trip();
    }

    /// Setting a pair leaves the other three pairs as they were.
    pub proof fn lemma_set_keeps_others(self, pair: PushPopTarget, other: PushPopTarget, value: u16)
        requires
            pair != other,
        ensures
            self.set_pair(pair, value).get_pair(other) == self.get_pair(other),
    {
    }
}

} // verus!
