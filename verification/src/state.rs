//! The mathematical model of the machine: its state as plain values, and
//! each transition of the execution engine as a function on states.

use vstd::prelude::*;
use crate::fault::Fault;
use crate::flags_register::FlagsRegister;
use crate::instructions::{
    is_control_opcode,
    is_load_opcode,
    ArithmeticTarget,
    Instruction,
    JumpTest,
    LoadByteSource,
    LoadByteTarget,
    LoadType,
    PREFIX_BYTE,
};
use crate::memorybus::{in_bounds, MEM_SIZE};
use crate::registers::Registers;
use crate::word::{high_byte, lemma_split_then_join, low_byte, word, wrap16};

verus! {

/// The state of the machine: the registers, the program counter, the stack
/// pointer and the bytes of memory.
#[verifier::ext_equal]
pub struct CpuState {
    pub registers: Registers,
    pub pc: u16,
    pub sp: u16,
    pub mem: Seq<u8>,
}

/// The fault of an access to memory at `address`, if it is one.
pub open spec fn access_fault(address: int) -> Option<Fault> {
    if in_bounds(address) {
        None
    } else {
        Some(Fault::OutOfBounds { address: address as u32 })
    }
}

/// The fault of two steps in a row: that of the first, or else that of the
/// second.
pub open spec fn first_fault(first: Option<Fault>, second: Option<Fault>) -> Option<Fault> {
    if first is Some {
        first
    } else {
        second
    }
}

impl CpuState {
    /// Whether the memory has the size of the store.
    pub open spec fn wf(self) -> bool {
        self.mem.len() == MEM_SIZE
    }

    /// The state at reset: registers, flags, program counter and stack
    /// pointer are zero, and so is every byte of memory.
    pub open spec fn reset() -> CpuState {
        CpuState {
            registers: Registers::spec_new(),
            pc: 0,
            sp: 0,
            mem: Seq::new(MEM_SIZE as nat, |i: int| 0u8),
        }
    }

    /// The byte that follows the opcode.
    pub open spec fn next_byte(self) -> u8 {
        self.mem[self.pc + 1]
    }

    /// The fault of reading the byte that follows the opcode.
    pub open spec fn next_byte_fault(self) -> Option<Fault> {
        access_fault(self.pc + 1)
    }

    /// The word that follows the opcode, low byte first.
    pub open spec fn next_word(self) -> u16 {
        word(self.mem[self.pc + 2], self.mem[self.pc + 1])
    }

    /// The fault of reading the word that follows the opcode.
    pub open spec fn next_word_fault(self) -> Option<Fault> {
        first_fault(access_fault(self.pc + 1), access_fault(self.pc + 2))
    }

    /// The state after `value` is added to the accumulator. The sum wraps to
    /// eight bits, and all four flags are set anew: zero if the wrapped sum
    /// is 0, carry if the sum did not fit in eight bits, half-carry if the
    /// sum of the two low nibbles did not fit in four bits; subtract is
    /// cleared.
    pub open spec fn add(self, value: u8) -> CpuState {
        let sum = self.registers.a + value;
        CpuState {
            registers: Registers {
                a: (sum % 0x100) as u8,
                f: FlagsRegister {
                    zero: sum % 0x100 == 0,
                    subtract: false,
                    half_carry: self.registers.a % 0x10 + value % 0x10 > 0xF,
                    carry: sum > 0xFF,
                },
                ..self.registers
            },
            ..self
        }
    }

    /// The next program counter of a jump: the word that follows the opcode
    /// if the jump is taken, or else the address behind the three bytes of
    /// the instruction.
    pub open spec fn jump(self, should_jump: bool) -> u16 {
        if should_jump {
            self.next_word()
        } else {
            wrap16(self.pc + 3)
        }
    }

    /// The fault of a jump: a jump that is not taken reads nothing.
    pub open spec fn jump_fault(self, should_jump: bool) -> Option<Fault> {
        if should_jump {
            self.next_word_fault()
        } else {
            None
        }
    }

    /// The value of the register that `target` names.
    pub open spec fn arithmetic_value(self, target: ArithmeticTarget) -> u8 {
        match target {
            ArithmeticTarget::A => self.registers.a,
            ArithmeticTarget::B => self.registers.b,
            ArithmeticTarget::C => self.registers.c,
            ArithmeticTarget::D => self.registers.d,
            ArithmeticTarget::E => self.registers.e,
            ArithmeticTarget::H => self.registers.h,
            ArithmeticTarget::L => self.registers.l,
        }
    }

    /// The byte that a load reads from `source`.
    pub open spec fn source_value(self, source: LoadByteSource) -> u8 {
        match source {
            LoadByteSource::A => self.registers.a,
            LoadByteSource::B => self.registers.b,
            LoadByteSource::C => self.registers.c,
            LoadByteSource::D => self.registers.d,
            LoadByteSource::E => self.registers.e,
            LoadByteSource::H => self.registers.h,
            LoadByteSource::L => self.registers.l,
            LoadByteSource::D8 => self.next_byte(),
            LoadByteSource::HLI => self.mem[self.registers.spec_get_hl() as int],
        }
    }

    /// The fault of reading `source`.
    pub open spec fn source_fault(self, source: LoadByteSource) -> Option<Fault> {
        match source {
            LoadByteSource::D8 => self.next_byte_fault(),
            LoadByteSource::HLI => access_fault(self.registers.spec_get_hl() as int),
            _ => None,
        }
    }

    /// The state after `value` is written to `target`.
    pub open spec fn store(self, target: LoadByteTarget, value: u8) -> CpuState {
        match target {
            LoadByteTarget::A => CpuState {
                registers: Registers { a: value, ..self.registers },
                ..self
            },
            LoadByteTarget::B => CpuState {
                registers: Registers { b: value, ..self.registers },
                ..self
            },
            LoadByteTarget::C => CpuState {
                registers: Registers { c: value, ..self.registers },
                ..self
            },
            LoadByteTarget::D => CpuState {
                registers: Registers { d: value, ..self.registers },
                ..self
            },
            LoadByteTarget::E => CpuState {
                registers: Registers { e: value, ..self.registers },
                ..self
            },
            LoadByteTarget::H => CpuState {
                registers: Registers { h: value, ..self.registers },
                ..self
            },
            LoadByteTarget::L => CpuState {
                registers: Registers { l: value, ..self.registers },
                ..self
            },
            LoadByteTarget::HLI => CpuState {
                mem: self.mem.update(self.registers.spec_get_hl() as int, value),
                ..self
            },
        }
    }

    /// The fault of writing to `target`.
    pub open spec fn target_fault(self, target: LoadByteTarget) -> Option<Fault> {
        match target {
            LoadByteTarget::HLI => access_fault(self.registers.spec_get_hl() as int),
            _ => None,
        }
    }

    /// The state after the byte at `source` is copied to `target`.
    pub open spec fn load(self, target: LoadByteTarget, source: LoadByteSource) -> CpuState {
        self.store(target, self.source_value(source))
    }

    /// The fault of a load: that of reading the source, or else that of
    /// writing the target.
    pub open spec fn load_fault(self, target: LoadByteTarget, source: LoadByteSource) -> Option<
        Fault,
    > {
        first_fault(self.source_fault(source), self.target_fault(target))
    }

    /// The state after `value` is pushed: the stack pointer is lowered by
    /// one and the high byte written there, then lowered again and the low
    /// byte written there.
    pub open spec fn push(self, value: u16) -> CpuState {
        CpuState {
            sp: wrap16(self.sp - 2),
            mem: self.mem.update(wrap16(self.sp - 1) as int, high_byte(value)).update(
                wrap16(self.sp - 2) as int,
                low_byte(value),
            ),
            ..self
        }
    }

    /// The fault of a push.
    pub open spec fn push_fault(self) -> Option<Fault> {
        first_fault(
            access_fault(wrap16(self.sp - 1) as int),
            access_fault(wrap16(self.sp - 2) as int),
        )
    }

    /// The word on top of the stack: its low byte at the stack pointer, its
    /// high byte one above.
    pub open spec fn top(self) -> u16 {
        word(self.mem[wrap16(self.sp + 1) as int], self.mem[self.sp as int])
    }

    /// The state after a word is popped: the stack pointer is raised by two.
    pub open spec fn pop(self) -> CpuState {
        CpuState { sp: wrap16(self.sp + 2), ..self }
    }

    /// The fault of a pop.
    pub open spec fn pop_fault(self) -> Option<Fault> {
        first_fault(access_fault(self.sp as int), access_fault(wrap16(self.sp + 1) as int))
    }

    /// The state after a call: a call that is taken pushes the address
    /// behind the three bytes of the instruction; one that is not taken
    /// changes nothing.
    pub open spec fn call(self, should_jump: bool) -> CpuState {
        if should_jump {
            self.push(wrap16(self.pc + 3))
        } else {
            self
        }
    }

    /// The next program counter of a call: the word that follows the opcode,
    /// read after the push, if the call is taken, or else the address behind
    /// the three bytes of the instruction.
    pub open spec fn call_target(self, should_jump: bool) -> u16 {
        if should_jump {
            self.call(true).next_word()
        } else {
            wrap16(self.pc + 3)
        }
    }

    /// The fault of a call: that of the push, or else that of reading the
    /// target.
    pub open spec fn call_fault(self, should_jump: bool) -> Option<Fault> {
        if should_jump {
            first_fault(self.push_fault(), self.next_word_fault())
        } else {
            None
        }
    }

    /// The state after a return: a return that is taken pops a word; one
    /// that is not taken changes nothing.
    pub open spec fn ret(self, should_jump: bool) -> CpuState {
        if should_jump {
            self.pop()
        } else {
            self
        }
    }

    /// The next program counter of a return: the word on top of the stack if
    /// the return is taken, or else the address behind the opcode.
    pub open spec fn return_target(self, should_jump: bool) -> u16 {
        if should_jump {
            self.top()
        } else {
            wrap16(self.pc + 1)
        }
    }

    /// The fault of a return.
    pub open spec fn return_fault(self, should_jump: bool) -> Option<Fault> {
        if should_jump {
            self.pop_fault()
        } else {
            None
        }
    }

    /// The state after the handler of `instruction` has run. The program
    /// counter is not yet moved.
    pub open spec fn execute(self, instruction: Instruction) -> CpuState {
        match instruction {
            Instruction::LD(LoadType::Byte(target, source)) => self.load(target, source),
            Instruction::PUSH(pair) => self.push(self.registers.get_pair(pair)),
            Instruction::POP(pair) => CpuState {
                registers: self.registers.set_pair(pair, self.top()),
                ..self.pop()
            },
            Instruction::ADD(target) => self.add(self.arithmetic_value(target)),
            Instruction::NOP() => self,
            Instruction::JP(test) => self,
            // No handler: `execute_fault` reports it.
            Instruction::HALT() => self,
            Instruction::CALL(test) => self.call(test.holds(self.registers.f)),
            Instruction::RET(test) => self.ret(test.holds(self.registers.f)),
        }
    }

    /// The program counter that follows `instruction`.
    pub open spec fn next_pc(self, instruction: Instruction) -> u16 {
        match instruction {
            Instruction::LD(LoadType::Byte(target, source)) => if source is D8 {
                wrap16(self.pc + 2)
            } else {
                wrap16(self.pc + 1)
            },
            Instruction::PUSH(pair) => wrap16(self.pc + 1),
            Instruction::POP(pair) => wrap16(self.pc + 1),
            Instruction::ADD(target) => wrap16(self.pc + 1),
            Instruction::NOP() => wrap16(self.pc + 1),
            Instruction::HALT() => self.pc,
            Instruction::JP(test) => self.jump(test.holds(self.registers.f)),
            Instruction::CALL(test) => self.call_target(test.holds(self.registers.f)),
            Instruction::RET(test) => self.return_target(test.holds(self.registers.f)),
        }
    }

    /// The fault of `instruction`: the engine has no handler for a halt, and
    /// the others fault where they reach outside the store.
    pub open spec fn execute_fault(self, instruction: Instruction) -> Option<Fault> {
        match instruction {
            Instruction::LD(LoadType::Byte(target, source)) => self.load_fault(target, source),
            Instruction::PUSH(pair) => self.push_fault(),
            Instruction::POP(pair) => self.pop_fault(),
            Instruction::ADD(target) => None,
            Instruction::NOP() => None,
            Instruction::HALT() => Some(Fault::UnimplementedInstruction { instruction }),
            Instruction::JP(test) => self.jump_fault(test.holds(self.registers.f)),
            Instruction::CALL(test) => self.call_fault(test.holds(self.registers.f)),
            Instruction::RET(test) => self.return_fault(test.holds(self.registers.f)),
        }
    }

    /// Whether the byte at the program counter is the prefix byte.
    pub open spec fn prefixed(self) -> bool {
        self.mem[self.pc as int] == PREFIX_BYTE
    }

    /// The opcode of the next instruction: the byte at the program counter,
    /// or the byte behind it where that one is the prefix byte.
    pub open spec fn opcode(self) -> u8 {
        if self.prefixed() {
            self.next_byte()
        } else {
            self.mem[self.pc as int]
        }
    }

    /// The fault of fetching the opcode.
    pub open spec fn fetch_fault(self) -> Option<Fault> {
        if !in_bounds(self.pc as int) {
            access_fault(self.pc as int)
        } else if self.prefixed() {
            self.next_byte_fault()
        } else {
            None
        }
    }

    /// The instruction that the opcode decodes to, if it is recognized.
    pub open spec fn decoded(self) -> Option<Instruction> {
        Instruction::spec_from_byte(self.opcode(), self.prefixed())
    }

    /// The fault of the next step: that of the fetch, or else an opcode
    /// that is not recognized, or else the fault of the instruction.
    pub open spec fn step_fault(self) -> Option<Fault> {
        if self.fetch_fault() is Some {
            self.fetch_fault()
        } else {
            match self.decoded() {
                None => Some(
                    Fault::UnrecognizedOpcode { byte: self.opcode(), prefixed: self.prefixed() },
                ),
                Some(instruction) => self.execute_fault(instruction),
            }
        }
    }

    /// The state after one step: the decoded instruction has run, and the
    /// program counter is the one that follows it.
    pub open spec fn step(self) -> CpuState {
        let instruction = self.decoded().unwrap();
        CpuState { pc: self.next_pc(instruction), ..self.execute(instruction) }
    }

    /// A step on the no-operation opcode meets no fault and changes nothing
    /// but the program counter, which moves on by exactly one.
    pub proof fn lemma_nop_step(self)
        requires
            self.wf(),
            in_bounds(self.pc as int),
            self.mem[self.pc as int] == 0x00,
        ensures
            self.step_fault() is None,
            self.step() == (CpuState { pc: (self.pc + 1) as u16, ..self }),
            self.step().pc == self.pc + 1,
    {
    }

    /// Where the fetch meets no fault and the opcode is not one that the
    /// decoder knows, the step faults with that opcode as unrecognized: no
    /// instruction stands in for it.
    pub proof fn lemma_unknown_opcode_faults(self)
        requires
            self.wf(),
            self.fetch_fault() is None,
            self.prefixed() || !(is_load_opcode(self.opcode()) || is_control_opcode(
                self.opcode(),
            )),
        ensures
            self.decoded() is None,
            self.step_fault() == Some(
                Fault::UnrecognizedOpcode { byte: self.opcode(), prefixed: self.prefixed() },
            ),
    {
        Instruction::lemma_recognized_opcodes(self.opcode(), self.prefixed());
    }

    /// A step faults with an unrecognized opcode only where the fetch met no
    /// fault and the decoder does not know the opcode, and with an
    /// unimplemented instruction only on a halt.
    pub proof fn lemma_fault_causes(self)
        requires
            self.wf(),
        ensures
            self.step_fault() matches Some(Fault::UnrecognizedOpcode { byte, prefixed })
                ==> self.fetch_fault() is None && self.decoded() is None && byte == self.opcode()
                && prefixed == self.prefixed(),
            self.step_fault() matches Some(Fault::UnimplementedInstruction { instruction })
                ==> self.decoded() == Some(instruction) && instruction == Instruction::HALT(),
            self.step_fault() matches Some(Fault::OutOfBounds { address }) ==> !in_bounds(
                address as int,
            ),
    {
    }

    /// A word that was pushed is the word on top of the stack, and popping
    /// it puts the stack pointer back where it was.
    pub proof fn lemma_push_then_pop(self, value: u16)
        requires
            self.wf(),
            self.push_fault() is None,
        ensures
            self.push(value).wf(),
            self.push(value).pop_fault() is None,
            self.push(value).top() == value,
            self.push(value).pop().sp == self.sp,
            self.push(value).pop().registers == self.registers,
            self.push(value).pop().pc == self.pc,
    {
        lemma_split_then_join(value);
    }

    /// A push writes the two cells below the stack pointer and no other.
    pub proof fn lemma_push_frame(self, value: u16, address: int)
        requires
            self.wf(),
            self.push_fault() is None,
            in_bounds(address),
            address != self.sp - 1,
            address != self.sp - 2,
        ensures
            self.push(value).mem[address] == self.mem[address],
    {
    }

    /// The stack gives back last what was pushed first: after two pushes,
    /// the first pop yields the second word and the next pop the first.
    pub proof fn lemma_stack_is_lifo(self, first: u16, second: u16)
        requires
            self.wf(),
            self.push_fault() is None,
            self.push(first).push_fault() is None,
        ensures
            self.push(first).push(second).pop_fault() is None,
            self.push(first).push(second).top() == second,
            self.push(first).push(second).pop().pop_fault() is None,
            self.push(first).push(second).pop().top() == first,
            self.push(first).push(second).pop().pop().sp == self.sp,
    {
        lemma_split_then_join(first);
        lemma_split_then_join(second);
    }

    /// A return that is taken after a call that was taken meets no fault,
    /// yields the address behind the call and puts the stack pointer back.
    pub proof fn lemma_call_then_return(self)
        requires
            self.wf(),
            self.call_fault(true) is None,
        ensures
            self.call(true).return_fault(true) is None,
            self.call(true).return_target(true) == wrap16(self.pc + 3),
            self.call(true).ret(true).sp == self.sp,
    {
        self.lemma_push_then_pop(wrap16(self.pc + 3));
    }

    /// A call and a return that are not taken change nothing, and yield the
    /// address behind the instruction.
    pub proof fn lemma_not_taken(self)
        ensures
            self.call_fault(false) is None && self.call(false) == self,
            self.return_fault(false) is None && self.ret(false) == self,
            self.jump_fault(false) is None,
            self.jump(false) == wrap16(self.pc + 3),
            self.call_target(false) == wrap16(self.pc + 3),
            self.return_target(false) == wrap16(self.pc + 1),
    {
    }

    /// An addition never leaves the subtract flag set, and sets the zero
    /// flag exactly when the accumulator comes out as zero.
    pub proof fn lemma_add_flags(self, value: u8)
        ensures
            !self.add(value).registers.f.subtract,
            self.add(value).registers.f.zero <==> self.add(value).registers.a == 0,
            self.add(value).registers.f.carry <==> self.registers.a + value
                != self.add(value).registers.a,
            self.add(value).registers.f.half_carry <==> (self.registers.a & 0xF) + (value & 0xF)
                > 0xF,
    {
        let a = self.registers.a;
        assert(a & 0xF == a % 0x10 && value & 0xF == value % 0x10) by (bit_vector);
    }
}

} // verus!
