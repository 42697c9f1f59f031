//! The symbolic names of instructions and of their operands, as text for
//! diagnostics. An instruction is written as its mnemonic, with its operand
//! in brackets where it has one: `HALT`, `PUSH(BC)`, `LD(Byte(A, B))`.

use vstd::prelude::*;
use vstd::string::StringExecFns;
use crate::instructions::{
    ArithmeticTarget,
    Instruction,
    JumpTest,
    LoadByteSource,
    LoadByteTarget,
    LoadType,
    PushPopTarget,
};

verus! {

impl PushPopTarget {
    /// The name of the register pair, as text.
    pub open spec fn spec_name(self) -> Seq<char> {
        match self {
            PushPopTarget::AF => "AF"@,
            PushPopTarget::BC => "BC"@,
            PushPopTarget::DE => "DE"@,
            PushPopTarget::HL => "HL"@,
        }
    }

    /// Returns the name of the register pair.
    pub fn name(&self) -> (text: &'static str)
        ensures
            text@ == self.spec_name(),
    {
        match self {
            PushPopTarget::AF => "AF",
            PushPopTarget::BC => "BC",
            PushPopTarget::DE => "DE",
            PushPopTarget::HL => "HL",
        }
    }
}

impl ArithmeticTarget {
    /// The name of the register, as text.
    pub open spec fn spec_name(self) -> Seq<char> {
        match self {
            ArithmeticTarget::A => "A"@,
            ArithmeticTarget::B => "B"@,
            ArithmeticTarget::C => "C"@,
            ArithmeticTarget::D => "D"@,
            ArithmeticTarget::E => "E"@,
            ArithmeticTarget::H => "H"@,
            ArithmeticTarget::L => "L"@,
        }
    }

    /// Returns the name of the register.
    pub fn name(&self) -> (text: &'static str)
        ensures
            text@ == self.spec_name(),
    {
        match self {
            ArithmeticTarget::A => "A",
            ArithmeticTarget::B => "B",
            ArithmeticTarget::C => "C",
            ArithmeticTarget::D => "D",
            ArithmeticTarget::E => "E",
            ArithmeticTarget::H => "H",
            ArithmeticTarget::L => "L",
        }
    }
}

impl JumpTest {
    /// The name of the condition, as text.
    pub open spec fn spec_name(self) -> Seq<char> {
        match self {
            JumpTest::NotZero => "NotZero"@,
            JumpTest::Zero => "Zero"@,
            JumpTest::NotCarry => "NotCarry"@,
            JumpTest::Carry => "Carry"@,
            JumpTest::Always => "Always"@,
        }
    }

    /// Returns the name of the condition.
    pub fn name(&self) -> (text: &'static str)
        ensures
            text@ == self.spec_name(),
    {
        match self {
            JumpTest::NotZero => "NotZero",
            JumpTest::Zero => "Zero",
            JumpTest::NotCarry => "NotCarry",
            JumpTest::Carry => "Carry",
            JumpTest::Always => "Always",
        }
    }
}

impl LoadByteTarget {
    /// The name of the target, as text.
    pub open spec fn spec_name(self) -> Seq<char> {
        match self {
            LoadByteTarget::A => "A"@,
            LoadByteTarget::B => "B"@,
            LoadByteTarget::C => "C"@,
            LoadByteTarget::D => "D"@,
            LoadByteTarget::E => "E"@,
            LoadByteTarget::H => "H"@,
            LoadByteTarget::L => "L"@,
            LoadByteTarget::HLI => "HLI"@,
        }
    }

    /// Returns the name of the target.
    pub fn name(&self) -> (text: &'static str)
        ensures
            text@ == self.spec_name(),
    {
        match self {
            LoadByteTarget::A => "A",
            LoadByteTarget::B => "B",
            LoadByteTarget::C => "C",
            LoadByteTarget::D => "D",
            LoadByteTarget::E => "E",
            LoadByteTarget::H => "H",
            LoadByteTarget::L => "L",
            LoadByteTarget::HLI => "HLI",
        }
    }
}

impl LoadByteSource {
    /// The name of the source, as text.
    pub open spec fn spec_name(self) -> Seq<char> {
        match self {
            LoadByteSource::A => "A"@,
            LoadByteSource::B => "B"@,
            LoadByteSource::C => "C"@,
            LoadByteSource::D => "D"@,
            LoadByteSource::E => "E"@,
            LoadByteSource::H => "H"@,
            LoadByteSource::L => "L"@,
            LoadByteSource::D8 => "D8"@,
            LoadByteSource::HLI => "HLI"@,
        }
    }

    /// Returns the name of the source.
    pub fn name(&self) -> (text: &'static str)
        ensures
            text@ == self.spec_name(),
    {
        match self {
            LoadByteSource::A => "A",
            LoadByteSource::B => "B",
            LoadByteSource::C => "C",
            LoadByteSource::D => "D",
            LoadByteSource::E => "E",
            LoadByteSource::H => "H",
            LoadByteSource::L => "L",
            LoadByteSource::D8 => "D8",
            LoadByteSource::HLI => "HLI",
        }
    }
}

impl LoadType {
    /// The name of the load with its operands, as text: `Byte(A, B)` for a
    /// byte load from B into A.
    pub open spec fn spec_name(self) -> Seq<char> {
        match self {
            LoadType::Byte(target, source) => "Byte("@ + target.spec_name() + ", "@
                + source.spec_name() + ")"@,
        }
    }

    /// Returns the name of the load with its operands.
    pub fn name(&self) -> (text: String)
        ensures
            text@ == self.spec_name(),
    {
        match self {
            LoadType::Byte(target, source) => {
                let mut text = String::from_str("Byte(");
                text.append(target.name());
                text.append(", ");
                text.append(source.name());
                text.append(")");
                text
            },
        }
    }
}

/// The text of an instruction: its mnemonic, and its operand in brackets
/// where it has one.
pub open spec fn with_operand(mnemonic: Seq<char>, operand: Seq<char>) -> Seq<char> {
    mnemonic + "("@ + operand + ")"@
}

/// Builds the text of an instruction from its mnemonic and its operand.
fn name_with_operand(mnemonic: &str, operand: &str) -> (text: String)
    ensures
        text@ == with_operand(mnemonic@, operand@),
{
    let mut text = String::from_str(mnemonic);
    text.append("(");
    text.append(operand);
    text.append(")");
    text
}

impl Instruction {
    /// The symbolic name of the instruction with its operands, as text:
    /// `HALT`, `PUSH(BC)`, `LD(Byte(A, B))`.
    pub open spec fn spec_name(self) -> Seq<char> {
        match self {
            Instruction::LD(load_type) => with_operand("LD"@, load_type.spec_name()),
            Instruction::PUSH(pair) => with_operand("PUSH"@, pair.spec_name()),
            Instruction::POP(pair) => with_operand("POP"@, pair.spec_name()),
            Instruction::ADD(target) => with_operand("ADD"@, target.spec_name()),
            Instruction::NOP() => "NOP"@,
            Instruction::HALT() => "HALT"@,
            Instruction::JP(test) => with_operand("JP"@, test.spec_name()),
            Instruction::CALL(test) => with_operand("CALL"@, test.spec_name()),
            Instruction::RET(test) => with_operand("RET"@, test.spec_name()),
        }
    }

    /// Returns the symbolic name of the instruction with its operands.
    pub fn name(&self) -> (text: String)
        ensures
            text@ == self.spec_name(),
    {
        match self {
            Instruction::LD(load_type) => {
                let operand = load_type.name();
                name_with_operand("LD", operand.as_str())
            },
            Instruction::PUSH(pair) => name_with_operand("PUSH", pair.name()),
            Instruction::POP(pair) => name_with_operand("POP", pair.name()),
            Instruction::ADD(target) => name_with_operand("ADD", target.name()),
            Instruction::NOP() => String::from_str("NOP"),
            Instruction::HALT() => String::from_str("HALT"),
            Instruction::JP(test) => name_with_operand("JP", test.name()),
            Instruction::CALL(test) => name_with_operand("CALL", test.name()),
            Instruction::RET(test) => name_with_operand("RET", test.name()),
        }
    }
}

} // verus!
