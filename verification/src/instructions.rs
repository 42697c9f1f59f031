//! The instruction vocabulary and the opcode decoder.

use vstd::prelude::*;
use crate::flags_register::FlagsRegister;

verus! {

/// A decoded instruction, with the operands that it needs.
#[derive(Clone, Copy, Debug, PartialEq, Eq, Structural)]
pub enum Instruction {
    /// Load a byte from a source into a target.
    LD(LoadType),
    /// Push a register pair onto the stack.
    PUSH(PushPopTarget),
    /// Pop the top of the stack into a register pair.
    POP(PushPopTarget),
    /// Add a register to the accumulator.
    ADD(ArithmeticTarget),
    /// Do nothing.
    NOP(),
    /// Halt the processor.
    HALT(),
    /// Jump to an absolute address if the test holds.
    JP(JumpTest),
    /// Call the subroutine at an absolute address if the test holds.
    CALL(JumpTest),
    /// Return from a subroutine if the test holds.
    RET(JumpTest),
}

/// A register pair that can be pushed and popped.
#[derive(Clone, Copy, Debug, PartialEq, Eq, Structural)]
pub enum PushPopTarget {
    AF,
    BC,
    DE,
    HL,
}

/// A register that can be added to the accumulator.
#[derive(Clone, Copy, Debug, PartialEq, Eq, Structural)]
pub enum ArithmeticTarget {
    A,
    B,
    C,
    D,
    E,
    H,
    L,
}

/// The condition of a jump, call or return.
#[derive(Clone, Copy, Debug, PartialEq, Eq, Structural)]
pub enum JumpTest {
    NotZero,
    Zero,
    NotCarry,
    Carry,
    Always,
}

/// Where a byte load writes: a register, or the memory cell that HL
/// addresses.
#[derive(Clone, Copy, Debug, PartialEq, Eq, Structural)]
pub enum LoadByteTarget {
    A,
    B,
    C,
    D,
    E,
    H,
    L,
    HLI,
}

/// Where a byte load reads: a register, the byte that follows the opcode, or
/// the memory cell that HL addresses.
#[derive(Clone, Copy, Debug, PartialEq, Eq, Structural)]
pub enum LoadByteSource {
    A,
    B,
    C,
    D,
    E,
    H,
    L,
    D8,
    HLI,
}

/// The kinds of load.
#[derive(Clone, Copy, Debug, PartialEq, Eq, Structural)]
pub enum LoadType {
    /// A byte moves from the source to the target.
    Byte(LoadByteTarget, LoadByteSource),
}

/// The lead byte that introduces a two-byte opcode.
pub const PREFIX_BYTE: u8 = 0xCB;

impl JumpTest {
    /// Whether the condition holds under the flags `f`.
    pub open spec fn holds(self, f: FlagsRegister) -> bool {
        match self {
            JumpTest::NotZero => !f.zero,
            JumpTest::Zero => f.zero,
            JumpTest::NotCarry => !f.carry,
            JumpTest::Carry => f.carry,
            JumpTest::Always => true,
        }
    }

    /// Evaluates the condition under the flags `f`.
    pub fn condition_depending_on_flags_reg(&self, f: FlagsRegister) -> (condition: bool)
        ensures
            condition == self.holds(f),
    {
        match self {
            JumpTest::NotZero => !f.zero,
            JumpTest::Zero => f.zero,
            JumpTest::NotCarry => !f.carry,
            JumpTest::Carry => f.carry,
            JumpTest::Always => true,
        }
    }
}

impl LoadByteTarget {
    /// The three-bit code of this target in an opcode of the load block.
    pub open spec fn code(self) -> int {
        match self {
            LoadByteTarget::B => 0,
            LoadByteTarget::C => 1,
            LoadByteTarget::D => 2,
            LoadByteTarget::E => 3,
            LoadByteTarget::H => 4,
            LoadByteTarget::L => 5,
            LoadByteTarget::HLI => 6,
            LoadByteTarget::A => 7,
        }
    }
}

impl LoadByteSource {
    /// The three-bit code of this source in an opcode of the load block. The
    /// immediate byte has none: no opcode of the block names it.
    pub open spec fn code(self) -> Option<int> {
        match self {
            LoadByteSource::B => Some(0),
            LoadByteSource::C => Some(1),
            LoadByteSource::D => Some(2),
            LoadByteSource::E => Some(3),
            LoadByteSource::H => Some(4),
            LoadByteSource::L => Some(5),
            LoadByteSource::HLI => Some(6),
            LoadByteSource::A => Some(7),
            LoadByteSource::D8 => None,
        }
    }
}

/// The load target that a three-bit register code selects, in the order of
/// the instruction set: B, C, D, E, H, L, the cell at HL, A.
pub open spec fn load_target_of(code: int) -> LoadByteTarget {
    if code == 0 {
        LoadByteTarget::B
    } else if code == 1 {
        LoadByteTarget::C
    } else if code == 2 {
        LoadByteTarget::D
    } else if code == 3 {
        LoadByteTarget::E
    } else if code == 4 {
        LoadByteTarget::H
    } else if code == 5 {
        LoadByteTarget::L
    } else if code == 6 {
        LoadByteTarget::HLI
    } else {
        LoadByteTarget::A
    }
}

/// The load source that a three-bit register code selects, in the same
/// order.
pub open spec fn load_source_of(code: int) -> LoadByteSource {
    if code == 0 {
        LoadByteSource::B
    } else if code == 1 {
        LoadByteSource::C
    } else if code == 2 {
        LoadByteSource::D
    } else if code == 3 {
        LoadByteSource::E
    } else if code == 4 {
        LoadByteSource::H
    } else if code == 5 {
        LoadByteSource::L
    } else if code == 6 {
        LoadByteSource::HLI
    } else {
        LoadByteSource::A
    }
}

/// Whether `byte` lies in the block of byte loads: 0x40 to 0x7F without the
/// halt opcode 0x76.
pub open spec fn is_load_opcode(byte: u8) -> bool {
    0x40 <= byte <= 0x7F && byte != 0x76
}

/// The load that an opcode of the load block stands for: bits 3 to 5 select
/// the target, bits 0 to 2 the source.
pub open spec fn load_of_opcode(byte: u8) -> Instruction {
    Instruction::LD(
        LoadType::Byte(load_target_of((byte - 0x40) / 8), load_source_of(byte as int % 8)),
    )
}

/// Whether `byte` is one of the opcodes outside the load block that the
/// decoder knows.
pub open spec fn is_control_opcode(byte: u8) -> bool {
    ||| byte == 0x00 || byte == 0x76
    ||| byte == 0xF5 || byte == 0xC5 || byte == 0xD5 || byte == 0xE5
    ||| byte == 0xF1 || byte == 0xC1 || byte == 0xD1 || byte == 0xE1
    ||| 0x80 <= byte <= 0x85 || byte == 0x87
    ||| byte == 0xC3 || byte == 0xC2 || byte == 0xCA || byte == 0xD2 || byte == 0xDA
    ||| byte == 0xCD || byte == 0xC4 || byte == 0xCC || byte == 0xD4 || byte == 0xDC
    ||| byte == 0xC9 || byte == 0xC0 || byte == 0xC8 || byte == 0xD0 || byte == 0xD8
}

impl Instruction {
    /// The instruction that an opcode of the secondary table stands for. No
    /// opcode of that table is known.
    pub open spec fn spec_from_byte_prefixed(byte: u8) -> Option<Instruction> {
        None
    }

    /// The instruction that an opcode of the primary table stands for, if it
    /// is known.
    pub open spec fn spec_from_byte_not_prefixed(byte: u8) -> Option<Instruction> {
        if is_load_opcode(byte) {
            Some(load_of_opcode(byte))
        } else {
            match byte {
                0xF5 => Some(Instruction::PUSH(PushPopTarget::AF)),
                0xC5 => Some(Instruction::PUSH(PushPopTarget::BC)),
                0xD5 => Some(Instruction::PUSH(PushPopTarget::DE)),
                0xE5 => Some(Instruction::PUSH(PushPopTarget::HL)),
                0xF1 => Some(Instruction::POP(PushPopTarget::AF)),
                0xC1 => Some(Instruction::POP(PushPopTarget::BC)),
                0xD1 => Some(Instruction::POP(PushPopTarget::DE)),
                0xE1 => Some(Instruction::POP(PushPopTarget::HL)),
                0x87 => Some(Instruction::ADD(ArithmeticTarget::A)),
                0x80 => Some(Instruction::ADD(ArithmeticTarget::B)),
                0x81 => Some(Instruction::ADD(ArithmeticTarget::C)),
                0x82 => Some(Instruction::ADD(ArithmeticTarget::D)),
                0x83 => Some(Instruction::ADD(ArithmeticTarget::E)),
                0x84 => Some(Instruction::ADD(ArithmeticTarget::H)),
                0x85 => Some(Instruction::ADD(ArithmeticTarget::L)),
                0x00 => Some(Instruction::NOP()),
                0x76 => Some(Instruction::HALT()),
                0xC3 => Some(Instruction::JP(JumpTest::Always)),
                0xC2 => Some(Instruction::JP(JumpTest::NotZero)),
                0xCA => Some(Instruction::JP(JumpTest::Zero)),
                0xD2 => Some(Instruction::JP(JumpTest::NotCarry)),
                0xDA => Some(Instruction::JP(JumpTest::Carry)),
                0xCD => Some(Instruction::CALL(JumpTest::Always)),
                0xC4 => Some(Instruction::CALL(JumpTest::NotZero)),
                0xCC => Some(Instruction::CALL(JumpTest::Zero)),
                0xD4 => Some(Instruction::CALL(JumpTest::NotCarry)),
                0xDC => Some(Instruction::CALL(JumpTest::Carry)),
                0xC9 => Some(Instruction::RET(JumpTest::Always)),
                0xC0 => Some(Instruction::RET(JumpTest::NotZero)),
                0xC8 => Some(Instruction::RET(JumpTest::Zero)),
                0xD0 => Some(Instruction::RET(JumpTest::NotCarry)),
                0xD8 => Some(Instruction::RET(JumpTest::Carry)),
                _ => None,
            }
        }
    }

    /// The instruction that an opcode stands for, if it is known. `prefixed`
    /// selects the secondary table.
    pub open spec fn spec_from_byte(byte: u8, prefixed: bool) -> Option<Instruction> {
        if prefixed {
            Instruction::spec_from_byte_prefixed(byte)
        } else {
            Instruction::spec_from_byte_not_prefixed(byte)
        }
    }

    /// Every opcode of the load block decodes to a byte load, and the codes
    /// of its target and source are the two three-bit fields of the opcode.
    pub proof fn lemma_load_block_decodes(byte: u8)
        requires
            is_load_opcode(byte),
        ensures
            Instruction::spec_from_byte(byte, false) matches Some(
                Instruction::LD(LoadType::Byte(target, source)),
            ) && target.code() == (byte - 0x40) / 8 && source.code() == Some(byte as int % 8),
    {
    }

    /// Every pair of a target and a source that has a code, but the pair of
    /// two memory cells, is decoded from the opcode that holds their codes.
    pub proof fn lemma_load_has_opcode(target: LoadByteTarget, source: LoadByteSource)
        requires
            source.code() is Some,
            !(target is HLI && source is HLI),
        ensures
            is_load_opcode((0x40 + 8 * target.code() + source.code().unwrap()) as u8),
            Instruction::spec_from_byte(
                (0x40 + 8 * target.code() + source.code().unwrap()) as u8,
                false,
            ) == Some(Instruction::LD(LoadType::Byte(target, source))),
    {
    }

    /// An opcode is recognized exactly when it belongs to the primary table
    /// and lies in the load block or among the control opcodes. Every other
    /// opcode, and every opcode of the secondary table, decodes to `None`.
    pub proof fn lemma_recognized_opcodes(byte: u8, prefixed: bool)
        ensures
            Instruction::spec_from_byte(byte, prefixed) is Some <==> !prefixed && (is_load_opcode(
                byte,
            ) || is_control_opcode(byte)),
    {
    }

    /// Decodes an opcode. `None` says that the opcode is not recognized.
    pub fn from_byte(byte: u8, prefixed: bool) -> (instruction: Option<Instruction>)
        ensures
            instruction == Instruction::spec_from_byte(byte, prefixed),
    {
        if prefixed {
            Self::from_byte_prefixed(byte)
        } else {
            Self::from_byte_not_prefixed(byte)
        }
    }

    /// Decodes an opcode of the secondary table, which is empty.
    pub fn from_byte_prefixed(byte: u8) -> (instruction: Option<Instruction>)
        ensures
            instruction == Instruction::spec_from_byte_prefixed(byte),
            instruction is None,
    {
        None
    }

    /// Decodes an opcode of the primary table.
    pub fn from_byte_not_prefixed(byte: u8) -> (instruction: Option<Instruction>)
        ensures
            instruction == Instruction::spec_from_byte_not_prefixed(byte),
    {
        match byte {
            // LD A,r
            0x7F => Some(Instruction::LD(LoadType::Byte(LoadByteTarget::A, LoadByteSource::A))),
            0x78 => Some(Instruction::LD(LoadType::Byte(LoadByteTarget::A, LoadByteSource::B))),
            0x79 => Some(Instruction::LD(LoadType::Byte(LoadByteTarget::A, LoadByteSource::C))),
            0x7A => Some(Instruction::LD(LoadType::Byte(LoadByteTarget::A, LoadByteSource::D))),
            0x7B => Some(Instruction::LD(LoadType::Byte(LoadByteTarget::A, LoadByteSource::E))),
            0x7C => Some(Instruction::LD(LoadType::Byte(LoadByteTarget::A, LoadByteSource::H))),
            0x7D => Some(Instruction::LD(LoadType::Byte(LoadByteTarget::A, LoadByteSource::L))),
            0x7E => Some(Instruction::LD(LoadType::Byte(LoadByteTarget::A, LoadByteSource::HLI))),
            // LD B,r
            0x47 => Some(Instruction::LD(LoadType::Byte(LoadByteTarget::B, LoadByteSource::A))),
            0x40 => Some(Instruction::LD(LoadType::Byte(LoadByteTarget::B, LoadByteSource::B))),
            0x41 => Some(Instruction::LD(LoadType::Byte(LoadByteTarget::B, LoadByteSource::C))),
            0x42 => Some(Instruction::LD(LoadType::Byte(LoadByteTarget::B, LoadByteSource::D))),
            0x43 => Some(Instruction::LD(LoadType::Byte(LoadByteTarget::B, LoadByteSource::E))),
            0x44 => Some(Instruction::LD(LoadType::Byte(LoadByteTarget::B, LoadByteSource::H))),
            0x45 => Some(Instruction::LD(LoadType::Byte(LoadByteTarget::B, LoadByteSource::L))),
            0x46 => Some(Instruction::LD(LoadType::Byte(LoadByteTarget::B, LoadByteSource::HLI))),
            // LD C,r
            0x4F => Some(Instruction::LD(LoadType::Byte(LoadByteTarget::C, LoadByteSource::A))),
            0x48 => Some(Instruction::LD(LoadType::Byte(LoadByteTarget::C, LoadByteSource::B))),
            0x49 => Some(Instruction::LD(LoadType::Byte(LoadByteTarget::C, LoadByteSource::C))),
            0x4A => Some(Instruction::LD(LoadType::Byte(LoadByteTarget::C, LoadByteSource::D))),
            0x4B => Some(Instruction::LD(LoadType::Byte(LoadByteTarget::C, LoadByteSource::E))),
            0x4C => Some(Instruction::LD(LoadType::Byte(LoadByteTarget::C, LoadByteSource::H))),
            0x4D => Some(Instruction::LD(LoadType::Byte(LoadByteTarget::C, LoadByteSource::L))),
            0x4E => Some(Instruction::LD(LoadType::Byte(LoadByteTarget::C, LoadByteSource::HLI))),
            // LD D,r
            0x57 => Some(Instruction::LD(LoadType::Byte(LoadByteTarget::D, LoadByteSource::A))),
            0x50 => Some(Instruction::LD(LoadType::Byte(LoadByteTarget::D, LoadByteSource::B))),
            0x51 => Some(Instruction::LD(LoadType::Byte(LoadByteTarget::D, LoadByteSource::C))),
            0x52 => Some(Instruction::LD(LoadType::Byte(LoadByteTarget::D, LoadByteSource::D))),
            0x53 => Some(Instruction::LD(LoadType::Byte(LoadByteTarget::D, LoadByteSource::E))),
            0x54 => Some(Instruction::LD(LoadType::Byte(LoadByteTarget::D, LoadByteSource::H))),
            0x55 => Some(Instruction::LD(LoadType::Byte(LoadByteTarget::D, LoadByteSource::L))),
            0x56 => Some(Instruction::LD(LoadType::Byte(LoadByteTarget::D, LoadByteSource::HLI))),
            // LD E,r
            0x5F => Some(Instruction::LD(LoadType::Byte(LoadByteTarget::E, LoadByteSource::A))),
            0x58 => Some(Instruction::LD(LoadType::Byte(LoadByteTarget::E, LoadByteSource::B))),
            0x59 => Some(Instruction::LD(LoadType::Byte(LoadByteTarget::E, LoadByteSource::C))),
            0x5A => Some(Instruction::LD(LoadType::Byte(LoadByteTarget::E, LoadByteSource::D))),
            0x5B => Some(Instruction::LD(LoadType::Byte(LoadByteTarget::E, LoadByteSource::E))),
            0x5C => Some(Instruction::LD(LoadType::Byte(LoadByteTarget::E, LoadByteSource::H))),
            0x5D => Some(Instruction::LD(LoadType::Byte(LoadByteTarget::E, LoadByteSource::L))),
            0x5E => Some(Instruction::LD(LoadType::Byte(LoadByteTarget::E, LoadByteSource::HLI))),
            // LD H,r
            0x67 => Some(Instruction::LD(LoadType::Byte(LoadByteTarget::H, LoadByteSource::A))),
            0x60 => Some(Instruction::LD(LoadType::Byte(LoadByteTarget::H, LoadByteSource::B))),
            0x61 => Some(Instruction::LD(LoadType::Byte(LoadByteTarget::H, LoadByteSource::C))),
            0x62 => Some(Instruction::LD(LoadType::Byte(LoadByteTarget::H, LoadByteSource::D))),
            0x63 => Some(Instruction::LD(LoadType::Byte(LoadByteTarget::H, LoadByteSource::E))),
            0x64 => Some(Instruction::LD(LoadType::Byte(LoadByteTarget::H, LoadByteSource::H))),
            0x65 => Some(Instruction::LD(LoadType::Byte(LoadByteTarget::H, LoadByteSource::L))),
            0x66 => Some(Instruction::LD(LoadType::Byte(LoadByteTarget::H, LoadByteSource::HLI))),
            // LD L,r
            0x6F => Some(Instruction::LD(LoadType::Byte(LoadByteTarget::L, LoadByteSource::A))),
            0x68 => Some(Instruction::LD(LoadType::Byte(LoadByteTarget::L, LoadByteSource::B))),
            0x69 => Some(Instruction::LD(LoadType::Byte(LoadByteTarget::L, LoadByteSource::C))),
            0x6A => Some(Instruction::LD(LoadType::Byte(LoadByteTarget::L, LoadByteSource::D))),
            0x6B => Some(Instruction::LD(LoadType::Byte(LoadByteTarget::L, LoadByteSource::E))),
            0x6C => Some(Instruction::LD(LoadType::Byte(LoadByteTarget::L, LoadByteSource::H))),
            0x6D => Some(Instruction::LD(LoadType::Byte(LoadByteTarget::L, LoadByteSource::L))),
            0x6E => Some(Instruction::LD(LoadType::Byte(LoadByteTarget::L, LoadByteSource::HLI))),
            // LD (HL),r
            0x77 => Some(Instruction::LD(LoadType::Byte(LoadByteTarget::HLI, LoadByteSource::A))),
            0x70 => Some(Instruction::LD(LoadType::Byte(LoadByteTarget::HLI, LoadByteSource::B))),
            0x71 => Some(Instruction::LD(LoadType::Byte(LoadByteTarget::HLI, LoadByteSource::C))),
            0x72 => Some(Instruction::LD(LoadType::Byte(LoadByteTarget::HLI, LoadByteSource::D))),
            0x73 => Some(Instruction::LD(LoadType::Byte(LoadByteTarget::HLI, LoadByteSource::E))),
            0x74 => Some(Instruction::LD(LoadType::Byte(LoadByteTarget::HLI, LoadByteSource::H))),
            0x75 => Some(Instruction::LD(LoadType::Byte(LoadByteTarget::HLI, LoadByteSource::L))),

            // PUSH rr
            0xF5 => Some(Instruction::PUSH(PushPopTarget::AF)),
            0xC5 => Some(Instruction::PUSH(PushPopTarget::BC)),
            0xD5 => Some(Instruction::PUSH(PushPopTarget::DE)),
            0xE5 => Some(Instruction::PUSH(PushPopTarget::HL)),

            // POP rr
            0xF1 => Some(Instruction::POP(PushPopTarget::AF)),
            0xC1 => Some(Instruction::POP(PushPopTarget::BC)),
            0xD1 => Some(Instruction::POP(PushPopTarget::DE)),
            0xE1 => Some(Instruction::POP(PushPopTarget::HL)),

            // ADD A,r
            0x87 => Some(Instruction::ADD(ArithmeticTarget::A)),
            0x80 => Some(Instruction::ADD(ArithmeticTarget::B)),
            0x81 => Some(Instruction::ADD(ArithmeticTarget::C)),
            0x82 => Some(Instruction::ADD(ArithmeticTarget::D)),
            0x83 => Some(Instruction::ADD(ArithmeticTarget::E)),
            0x84 => Some(Instruction::ADD(ArithmeticTarget::H)),
            0x85 => Some(Instruction::ADD(ArithmeticTarget::L)),

            // NOP
            0x00 => Some(Instruction::NOP()),

            // HALT
            0x76 => Some(Instruction::HALT()),

            // JP nn
            0xC3 => Some(Instruction::JP(JumpTest::Always)),

            // JP cc,nn
            0xC2 => Some(Instruction::JP(JumpTest::NotZero)),
            0xCA => Some(Instruction::JP(JumpTest::Zero)),
            0xD2 => Some(Instruction::JP(JumpTest::NotCarry)),
            0xDA => Some(Instruction::JP(JumpTest::Carry)),

            // CALL nn
            0xCD => Some(Instruction::CALL(JumpTest::Always)),

            // CALL cc,nn
            0xC4 => Some(Instruction::CALL(JumpTest::NotZero)),
            0xCC => Some(Instruction::CALL(JumpTest::Zero)),
            0xD4 => Some(Instruction::CALL(JumpTest::NotCarry)),
            0xDC => Some(Instruction::CALL(JumpTest::Carry)),

            // RET
            0xC9 => Some(Instruction::RET(JumpTest::Always)),

            // RET cc
            0xC0 => Some(Instruction::RET(JumpTest::NotZero)),
            0xC8 => Some(Instruction::RET(JumpTest::Zero)),
            0xD0 => Some(Instruction::RET(JumpTest::NotCarry)),
            0xD8 => Some(Instruction::RET(JumpTest::Carry)),

            _ => None,
        }
    }
}

} // verus!
