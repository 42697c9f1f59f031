//! The conditions that end a run, and the text that reports them.

use vstd::prelude::*;
use vstd::string::StringExecFns;
use crate::instructions::Instruction;

verus! {

/// Why the processor cannot perform its next instruction. Each of them is
/// fatal: the run cannot go on.
#[derive(Clone, Copy, Debug, PartialEq, Eq, Structural)]
pub enum Fault {
    /// The decoder knows no instruction for the opcode `byte`; `prefixed`
    /// says whether the opcode followed the prefix byte.
    UnrecognizedOpcode { byte: u8, prefixed: bool },
    /// The opcode was decoded, but the engine has no handler for the
    /// instruction.
    UnimplementedInstruction { instruction: Instruction },
    /// The instruction reads or writes memory at `address`, which the store
    /// does not back.
    OutOfBounds { address: u32 },
}

/// The hexadecimal digit of a value below sixteen, in lower case.
pub open spec fn hex_char(digit: u8) -> char {
    match digit {
        0 => '0',
        1 => '1',
        2 => '2',
        3 => '3',
        4 => '4',
        5 => '5',
        6 => '6',
        7 => '7',
        8 => '8',
        9 => '9',
        10 => 'a',
        11 => 'b',
        12 => 'c',
        13 => 'd',
        14 => 'e',
        _ => 'f',
    }
}

/// The hexadecimal digits of `value`, the highest first, in lower case and
/// without leading zeros; zero is the one digit `0`.
pub open spec fn spec_hex(value: nat) -> Seq<char>
    decreases value,
{
    if value < 16 {
        seq![hex_char(value as u8)]
    } else {
        spec_hex(value / 16).push(hex_char((value % 16) as u8))
    }
}

/// Returns the hexadecimal digit of a value below sixteen.
fn hex_digit(digit: u32) -> (text: &'static str)
    requires
        digit < 16,
    ensures
        text@ == seq![hex_char(digit as u8)],
{
    proof {
        reveal_strlit("0");
        reveal_strlit("1");
        reveal_strlit("2");
        reveal_strlit("3");
        reveal_strlit("4");
        reveal_strlit("5");
        reveal_strlit("6");
        reveal_strlit("7");
        reveal_strlit("8");
        reveal_strlit("9");
        reveal_strlit("a");
        reveal_strlit("b");
        reveal_strlit("c");
        reveal_strlit("d");
        reveal_strlit("e");
        reveal_strlit("f");
    }
    let text = match digit {
        0 => "0",
        1 => "1",
        2 => "2",
        3 => "3",
        4 => "4",
        5 => "5",
        6 => "6",
        7 => "7",
        8 => "8",
        9 => "9",
        10 => "a",
        11 => "b",
        12 => "c",
        13 => "d",
        14 => "e",
        _ => "f",
    };
    assert(text@ =~= seq![hex_char(digit as u8)]);
    text
}

/// Writes `value` in hexadecimal.
pub fn hex(value: u32) -> (text: String)
    ensures
        text@ == spec_hex(value as nat),
    decreases value,
{
    if value < 16 {
        String::from_str(hex_digit(value))
    } else {
        let mut text = hex(value / 16);
        text.append(hex_digit(value % 16));
        assert(text@ =~= spec_hex(value as nat / 16).push(hex_char((value % 16) as u8)));
        text
    }
}

impl Fault {
    /// The text that reports the fault. An opcode is written in hexadecimal
    /// behind `0x`, with `cb` before its digits where it followed the prefix
    /// byte; an instruction is written by its symbolic name; an address is
    /// written in hexadecimal behind `0x`.
    pub open spec fn spec_message(self) -> Seq<char> {
        match self {
            Fault::UnrecognizedOpcode { byte, prefixed } => "Unknown instruction found for: 0x"@
                + (if prefixed {
                "cb"@
            } else {
                ""@
            }) + spec_hex(byte as nat),
            Fault::UnimplementedInstruction { instruction } => "Instruction: "@
                + instruction.spec_name() + " not implemented"@,
            Fault::OutOfBounds { address } => "Memory access out of bounds at: 0x"@ + spec_hex(
                address as nat,
            ),
        }
    }

    /// Returns the text that reports the fault.
    pub fn message(&self) -> (text: String)
        ensures
            text@ == self.spec_message(),
    {
        match self {
            Fault::UnrecognizedOpcode { byte, prefixed } => {
                let mut text = String::from_str("Unknown instruction found for: 0x");
                text.append(if *prefixed { "cb" } else { "" });
                let digits = hex(*byte as u32);
                text.append(digits.as_str());
                text
            },
            Fault::UnimplementedInstruction { instruction } => {
                let mut text = String::from_str("Instruction: ");
                let name = instruction.name();
                text.append(name.as_str());
                text.append(" not implemented");
                text
            },
            Fault::OutOfBounds { address } => {
                let mut text = String::from_str("Memory access out of bounds at: 0x");
                let digits = hex(*address);
                text.append(digits.as_str());
                text
            },
        }
    }
}

} // verus!
