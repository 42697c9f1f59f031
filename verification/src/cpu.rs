//! The execution engine: it fetches the opcode at the program counter,
//! decodes it, runs the instruction and moves the program counter.
//!
//! A halt, an opcode that the decoder does not know and an access outside the
//! store are fatal. `step` and `execute` rule them out by their
//! preconditions; `step_fault` and `execute_fault` tell beforehand which of
//! them is ahead, and `try_step` returns it and leaves the machine as it was.

use vstd::prelude::*;
use vstd::pervasive::unreached;
use crate::fault::Fault;
use crate::instructions::{
    ArithmeticTarget,
    Instruction,
    LoadByteSource,
    LoadByteTarget,
    LoadType,
    PushPopTarget,
    PREFIX_BYTE,
};
use crate::memorybus::{MemoryBus, MEM_SIZE};
use crate::registers::Registers;
use crate::state::{access_fault, CpuState};
use crate::word::{join, split};

verus! {

/// The processor: its registers, program counter, stack pointer and memory.
pub struct CPU {
    pub registers: Registers,
    pub pc: u16,
    pub sp: u16,
    pub mem: MemoryBus,
}

impl View for CPU {
    type V = CpuState;

    open spec fn view(&self) -> CpuState {
        CpuState { registers: self.registers, pc: self.pc, sp: self.sp, mem: self.mem@ }
    }
}

impl CPU {
    /// A processor at reset: registers, flags, program counter and stack
    /// pointer are zero, and so is every byte of memory.
    pub fn new() -> (cpu: CPU)
        ensures
            cpu@ == CpuState::reset(),
    {
        CPU { registers: Registers::new(), pc: 0, sp: 0, mem: MemoryBus::new() }
    }

    /// The model of a processor always has a memory of the store's size.
    pub proof fn lemma_wf(self)
        ensures
            self@.wf(),
    {
    }

    /// Reads the byte that follows the opcode.
    pub fn read_next_byte(&self) -> (byte: u8)
        requires
            self@.next_byte_fault() is None,
        ensures
            byte == self@.next_byte(),
    {
        self.mem.read_byte(self.pc + 1)
    }

    /// Reads the word that follows the opcode, low byte first.
    pub fn read_next_word(&self) -> (value: u16)
        requires
            self@.next_word_fault() is None,
        ensures
            value == self@.next_word(),
    {
        let lsb = self.mem.read_byte(self.pc + 1);
        let msb = self.mem.read_byte(self.pc + 2);
        join(msb, lsb)
    }

    /// Adds `value` to the accumulator and sets the four flags.
    pub fn add(&mut self, value: u8)
        ensures
            final(self)@ == old(self)@.add(value),
    {
        let a = self.registers.a;
        let new_value = a.wrapping_add(value);
        let did_overflow = a as u16 + value as u16 > 0xFF;
        assert(a & 0xF == a % 0x10 && value & 0xF == value % 0x10) by (bit_vector);

        self.registers.f.zero = new_value == 0;
        self.registers.f.subtract = false;
        self.registers.f.carry = did_overflow;
        self.registers.f.half_carry = (a & 0xF) + (value & 0xF) > 0xF;

        self.registers.a = new_value;
    }

    /// Computes the next program counter of a jump.
    pub fn jump(&self, should_jump: bool) -> (next_pc: u16)
        requires
            self@.jump_fault(should_jump) is None,
        ensures
            next_pc == self@.jump(should_jump),
    {
        if should_jump {
            self.read_next_word()
        } else {
            self.pc.wrapping_add(3)
        }
    }

    /// Copies the byte at `source` to `target`.
    pub fn load(&mut self, target: LoadByteTarget, source: LoadByteSource)
        requires
            old(self)@.load_fault(target, source) is None,
        ensures
            final(self)@ == old(self)@.load(target, source),
    {
        let source_value = match source {
            LoadByteSource::A => self.registers.a,
            LoadByteSource::B => self.registers.b,
            LoadByteSource::C => self.registers.c,
            LoadByteSource::D => self.registers.d,
            LoadByteSource::E => self.registers.e,
            LoadByteSource::H => self.registers.h,
            LoadByteSource::L => self.registers.l,
            LoadByteSource::D8 => self.read_next_byte(),
            LoadByteSource::HLI => self.mem.read_byte(self.registers.get_hl()),
        };
        match target {
            LoadByteTarget::A => self.registers.a = source_value,
            LoadByteTarget::B => self.registers.b = source_value,
            LoadByteTarget::C => self.registers.c = source_value,
            LoadByteTarget::D => self.registers.d = source_value,
            LoadByteTarget::E => self.registers.e = source_value,
            LoadByteTarget::H => self.registers.h = source_value,
            LoadByteTarget::L => self.registers.l = source_value,
            LoadByteTarget::HLI => self.mem.write_byte(self.registers.get_hl(), source_value),
        };
    }

    /// Pushes `value` onto the stack, high byte first.
    pub fn push(&mut self, value: u16)
        requires
            old(self)@.push_fault() is None,
        ensures
            final(self)@ == old(self)@.push(value),
    {
        let (high, low) = split(value);
        self.sp = self.sp.wrapping_sub(1);
        self.mem.write_byte(self.sp, high);

        self.sp = self.sp.wrapping_sub(1);
        self.mem.write_byte(self.sp, low);
    }

    /// Pops the word on top of the stack.
    pub fn pop(&mut self) -> (value: u16)
        requires
            old(self)@.pop_fault() is None,
        ensures
            value == old(self)@.top(),
            final(self)@ == old(self)@.pop(),
    {
        let lsb = self.mem.read_byte(self.sp);
        self.sp = self.sp.wrapping_add(1);

        let msb = self.mem.read_byte(self.sp);
        self.sp = self.sp.wrapping_add(1);

        join(msb, lsb)
    }

    /// Performs a call: if it is taken, pushes the return address and reads
    /// the target; returns the next program counter.
    pub fn call(&mut self, should_jump: bool) -> (next_pc: u16)
        requires
            old(self)@.call_fault(should_jump) is None,
        ensures
            next_pc == old(self)@.call_target(should_jump),
            final(self)@ == old(self)@.call(should_jump),
    {
        let next_pc = self.pc.wrapping_add(3);
        if should_jump {
            self.push(next_pc);
            self.read_next_word()
        } else {
            next_pc
        }
    }

    /// Performs a return: if it is taken, pops the return address; returns
    /// the next program counter.
    pub fn return_(&mut self, should_jump: bool) -> (next_pc: u16)
        requires
            old(self)@.return_fault(should_jump) is None,
        ensures
            next_pc == old(self)@.return_target(should_jump),
            final(self)@ == old(self)@.ret(should_jump),
    {
        if should_jump {
            self.pop()
        } else {
            self.pc.wrapping_add(1)
        }
    }

    /// Runs the handler of `instruction` and returns the program counter that
    /// follows it. The program counter itself is left to the caller.
    pub fn execute(&mut self, instruction: Instruction) -> (next_pc: u16)
        requires
            old(self)@.execute_fault(instruction) is None,
        ensures
            next_pc == old(self)@.next_pc(instruction),
            final(self)@ == old(self)@.execute(instruction),
    {
        match instruction {
            Instruction::LD(load_type) => {
                let LoadType::Byte(target, source) = load_type;
                self.load(target, source);

                match source {
                    LoadByteSource::D8 => self.pc.wrapping_add(2),
                    _ => self.pc.wrapping_add(1),
                }
            },
            Instruction::PUSH(target) => {
                match target {
                    PushPopTarget::AF => self.push(self.registers.get_af()),
                    PushPopTarget::BC => self.push(self.registers.get_bc()),
                    PushPopTarget::DE => self.push(self.registers.get_de()),
                    PushPopTarget::HL => self.push(self.registers.get_hl()),
                }
                self.pc.wrapping_add(1)
            },
            Instruction::POP(target) => {
                let popped_val = self.pop();
                match target {
                    PushPopTarget::AF => self.registers.set_af(popped_val),
                    PushPopTarget::BC => self.registers.set_bc(popped_val),
                    PushPopTarget::DE => self.registers.set_de(popped_val),
                    PushPopTarget::HL => self.registers.set_hl(popped_val),
                }
                self.pc.wrapping_add(1)
            },
            Instruction::ADD(target) => {
                match target {
                    ArithmeticTarget::A => self.add(self.registers.a),
                    ArithmeticTarget::B => self.add(self.registers.b),
                    ArithmeticTarget::C => self.add(self.registers.c),
                    ArithmeticTarget::D => self.add(self.registers.d),
                    ArithmeticTarget::E => self.add(self.registers.e),
                    ArithmeticTarget::H => self.add(self.registers.h),
                    ArithmeticTarget::L => self.add(self.registers.l),
                }
                self.pc.wrapping_add(1)
            },
            Instruction::NOP() => self.pc.wrapping_add(1),
            Instruction::JP(test) => {
                let condition = test.condition_depending_on_flags_reg(self.registers.f);
                self.jump(condition)
            },
            Instruction::CALL(test) => {
                let condition = test.condition_depending_on_flags_reg(self.registers.f);
                self.call(condition)
            },
            Instruction::RET(test) => {
                let condition = test.condition_depending_on_flags_reg(self.registers.f);
                self.return_(condition)
            },
            Instruction::HALT() => unreached(),
        }
    }

    /// Performs one instruction: fetches the opcode at the program counter,
    /// decodes it, runs the instruction and moves the program counter.
    pub fn step(&mut self)
        requires
            old(self)@.step_fault() is None,
        ensures
            final(self)@ == old(self)@.step(),
    {
        let mut instruction_byte = self.mem.read_byte(self.pc);
        let prefixed = instruction_byte == PREFIX_BYTE;
        if prefixed {
            instruction_byte = self.read_next_byte();
        }
        match Instruction::from_byte(instruction_byte, prefixed) {
            Some(instruction) => {
                let next_pc = self.execute(instruction);
                self.pc = next_pc;
            },
            None => unreached(),
        }
    }

    /// Tells whether memory backs `address`, and the fault if it does not.
    fn bounds_fault(address: u32) -> (fault: Option<Fault>)
        ensures
            fault == access_fault(address as int),
    {
        if address < MEM_SIZE as u32 {
            None
        } else {
            Some(Fault::OutOfBounds { address })
        }
    }

    /// Tells the fault of reading the word that follows the opcode.
    fn next_word_fault(&self) -> (fault: Option<Fault>)
        ensures
            fault == self@.next_word_fault(),
    {
        let first = CPU::bounds_fault(self.pc as u32 + 1);
        if first.is_some() {
            first
        } else {
            CPU::bounds_fault(self.pc as u32 + 2)
        }
    }

    /// Tells the fault of a push.
    fn push_fault(&self) -> (fault: Option<Fault>)
        ensures
            fault == self@.push_fault(),
    {
        let first = CPU::bounds_fault(self.sp.wrapping_sub(1) as u32);
        if first.is_some() {
            first
        } else {
            CPU::bounds_fault(self.sp.wrapping_sub(2) as u32)
        }
    }

    /// Tells the fault of a pop.
    fn pop_fault(&self) -> (fault: Option<Fault>)
        ensures
            fault == self@.pop_fault(),
    {
        let first = CPU::bounds_fault(self.sp as u32);
        if first.is_some() {
            first
        } else {
            CPU::bounds_fault(self.sp.wrapping_add(1) as u32)
        }
    }

    /// Tells the fault of a load.
    fn load_fault(&self, target: LoadByteTarget, source: LoadByteSource) -> (fault: Option<Fault>)
        ensures
            fault == self@.load_fault(target, source),
    {
        let first = match source {
            LoadByteSource::D8 => CPU::bounds_fault(self.pc as u32 + 1),
            LoadByteSource::HLI => CPU::bounds_fault(self.registers.get_hl() as u32),
            _ => None,
        };
        if first.is_some() {
            first
        } else {
            match target {
                LoadByteTarget::HLI => CPU::bounds_fault(self.registers.get_hl() as u32),
                _ => None,
            }
        }
    }

    /// Tells the fault that `execute` would meet on `instruction`, or `None`
    /// where `execute` can run it. Nothing is changed.
    pub fn execute_fault(&self, instruction: Instruction) -> (fault: Option<Fault>)
        ensures
            fault == self@.execute_fault(instruction),
    {
        match instruction {
            Instruction::LD(load_type) => {
                let LoadType::Byte(target, source) = load_type;
                self.load_fault(target, source)
            },
            Instruction::PUSH(_) => self.push_fault(),
            Instruction::POP(_) => self.pop_fault(),
            Instruction::ADD(_) => None,
            Instruction::NOP() => None,
            Instruction::HALT() => Some(Fault::UnimplementedInstruction { instruction }),
            Instruction::JP(test) => {
                if test.condition_depending_on_flags_reg(self.registers.f) {
                    self.next_word_fault()
                } else {
                    None
                }
            },
            Instruction::CALL(test) => {
                if test.condition_depending_on_flags_reg(self.registers.f) {
                    let first = self.push_fault();
                    if first.is_some() {
                        first
                    } else {
                        self.next_word_fault()
                    }
                } else {
                    None
                }
            },
            Instruction::RET(test) => {
                if test.condition_depending_on_flags_reg(self.registers.f) {
                    self.pop_fault()
                } else {
                    None
                }
            },
        }
    }

    /// Tells the fault that `step` would meet, or `None` where `step` can
    /// run. Nothing is changed.
    pub fn step_fault(&self) -> (fault: Option<Fault>)
        ensures
            fault == self@.step_fault(),
    {
        let fetched = CPU::bounds_fault(self.pc as u32);
        if fetched.is_some() {
            return fetched;
        }
        let mut instruction_byte = self.mem.read_byte(self.pc);
        let prefixed = instruction_byte == PREFIX_BYTE;
        if prefixed {
            let second = CPU::bounds_fault(self.pc as u32 + 1);
            if second.is_some() {
                return second;
            }
            instruction_byte = self.read_next_byte();
        }
        match Instruction::from_byte(instruction_byte, prefixed) {
            Some(instruction) => self.execute_fault(instruction),
            None => Some(Fault::UnrecognizedOpcode { byte: instruction_byte, prefixed }),
        }
    }

    /// Runs the handler of `instruction` as `execute` does and returns the
    /// next program counter, or returns the fault that stands in the way and
    /// changes nothing.
    pub fn try_execute(&mut self, instruction: Instruction) -> (outcome: Result<u16, Fault>)
        ensures
            match outcome {
                Ok(next_pc) => old(self)@.execute_fault(instruction) is None && next_pc == old(
                    self,
                )@.next_pc(instruction) && final(self)@ == old(self)@.execute(instruction),
                Err(fault) => old(self)@.execute_fault(instruction) == Some(fault) && final(self)@
                    == old(self)@,
            },
    {
        match self.execute_fault(instruction) {
            Some(fault) => Err(fault),
            None => Ok(self.execute(instruction)),
        }
    }

    /// Performs one instruction as `step` does, or returns the fault that
    /// stands in the way and changes nothing.
    pub fn try_step(&mut self) -> (outcome: Result<(), Fault>)
        ensures
            match outcome {
                Ok(_) => old(self)@.step_fault() is None && final(self)@ == old(self)@.step(),
                Err(fault) => old(self)@.step_fault() == Some(fault) && final(self)@ == old(
                    self,
                )@,
            },
    {
        match self.step_fault() {
            Some(fault) => Err(fault),
            None => {
                self.step();
                Ok(())
            },
        }
    }
}

} // verus!
