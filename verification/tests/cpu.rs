use gb_cpu::cpu::CPU;
use gb_cpu::fault::Fault;
use gb_cpu::flags_register::FlagsRegister;
use gb_cpu::instructions::{
    ArithmeticTarget, Instruction, JumpTest, LoadByteSource, LoadByteTarget, LoadType,
    PushPopTarget,
};

#[test]
fn read_next_byte() {
    let mut cpu = CPU::new();

    cpu.pc = 0x0000;
    cpu.mem.write_byte(0x0001, 0x8F);
    assert_eq!(cpu.read_next_byte(), 0x8F);
}

#[test]
fn read_next_word() {
    let mut cpu = CPU::new();

    cpu.pc = 0x0000;
    cpu.mem.write_byte(0x0001, 0xFF);
    cpu.mem.write_byte(0x0002, 0xAA);
    assert_eq!(cpu.read_next_word(), 0xAAFF);
}

#[test]
fn add() {
    let mut cpu = CPU::new();

    cpu.add(0xF);
    let mut expected_f = FlagsRegister::new();
    assert_eq!(cpu.registers.f, expected_f);
    assert_eq!(cpu.registers.a, 0xF);

    cpu.add(0xF0);
    assert_eq!(cpu.registers.f, expected_f);
    assert_eq!(cpu.registers.a, 0xFF);

    cpu.add(1);
    expected_f.zero = true;
    expected_f.carry = true;
    expected_f.half_carry = true;
    assert_eq!(cpu.registers.f, expected_f);
    assert_eq!(cpu.registers.a, 0x00);
}

#[test]
fn jump() {
    let mut cpu = CPU::new();

    cpu.pc = 0x0000;
    cpu.mem.write_byte(0x0001, 0xFF);
    cpu.mem.write_byte(0x0002, 0xAA);

    // false branch
    assert_eq!(cpu.jump(false), 0x0003);
    // true branch
    assert_eq!(cpu.jump(true), 0xAAFF);
}

#[test]
fn push() {
    let mut cpu = CPU::new();

    cpu.sp = 0x0002;
    cpu.push(0xAAFF);

    assert_eq!(cpu.sp, 0x0000);
    assert_eq!(cpu.mem.read_byte(0x0001), 0xAA);
    assert_eq!(cpu.mem.read_byte(0x0000), 0xFF);
}

#[test]
fn pop() {
    let mut cpu = CPU::new();

    cpu.mem.write_byte(0x0001, 0xAA);
    cpu.mem.write_byte(0x0000, 0xFF);
    cpu.sp = 0x0000;
    let actual = cpu.pop();

    assert_eq!(actual, 0xAAFF);
    assert_eq!(cpu.sp, 0x0002);
}

#[test]
fn call_shouldnt_jump() {
    let mut cpu = CPU::new();
    cpu.pc = 0x0000;
    assert_eq!(cpu.call(false), 0x0003);
}

#[test]
fn call_should_jump() {
    let mut cpu = CPU::new();

    cpu.pc = 0x0100;
    cpu.mem.write_byte(0x0101, 0xFF);
    cpu.mem.write_byte(0x0102, 0xAA);

    cpu.sp = 0x0010;

    let actual = cpu.call(true);

    assert_eq!(actual, 0xAAFF);
    assert_eq!(cpu.mem.read_byte(0x000F), 0x01);
    assert_eq!(cpu.mem.read_byte(0x000E), 0x03);
}

#[test]
fn return_shouldnt_jump() {
    let mut cpu = CPU::new();
    cpu.pc = 0x0000;
    assert_eq!(cpu.return_(false), 0x0001);
}

#[test]
fn return_should_jump() {
    let mut cpu = CPU::new();

    cpu.sp = 0x000E;
    cpu.mem.write_byte(0x000F, 0x01);
    cpu.mem.write_byte(0x000E, 0x03);

    assert_eq!(cpu.return_(true), 0x0103);
}

#[test]
fn new_cpu_is_at_reset() {
    let cpu = CPU::new();
    assert_eq!(cpu.pc, 0);
    assert_eq!(cpu.sp, 0);
    assert_eq!(cpu.registers.get_af(), 0);
    assert_eq!(cpu.registers.get_bc(), 0);
    assert_eq!(cpu.registers.get_de(), 0);
    assert_eq!(cpu.registers.get_hl(), 0);
    assert!(cpu.mem.memory.iter().all(|byte| *byte == 0));
}

#[test]
fn add_sets_half_carry_alone() {
    let mut cpu = CPU::new();
    cpu.registers.a = 0x08;
    cpu.add(0x08);
    assert_eq!(cpu.registers.a, 0x10);
    assert_eq!(
        cpu.registers.f,
        FlagsRegister { zero: false, subtract: false, half_carry: true, carry: false }
    );
}

#[test]
fn add_sets_carry_alone() {
    let mut cpu = CPU::new();
    cpu.registers.a = 0xF0;
    cpu.add(0x20);
    assert_eq!(cpu.registers.a, 0x10);
    assert_eq!(
        cpu.registers.f,
        FlagsRegister { zero: false, subtract: false, half_carry: false, carry: true }
    );
}

#[test]
fn add_overwrites_every_flag() {
    let mut cpu = CPU::new();
    cpu.registers.f = FlagsRegister { zero: true, subtract: true, half_carry: true, carry: true };
    cpu.registers.a = 0x01;
    cpu.add(0x01);
    assert_eq!(cpu.registers.a, 0x02);
    assert_eq!(cpu.registers.f, FlagsRegister::new());
}

#[test]
fn add_zero_to_zero_sets_zero_alone() {
    let mut cpu = CPU::new();
    cpu.add(0x00);
    assert_eq!(cpu.registers.a, 0x00);
    assert_eq!(
        cpu.registers.f,
        FlagsRegister { zero: true, subtract: false, half_carry: false, carry: false }
    );
}

#[test]
fn add_matches_the_formulas_for_every_pair() {
    let mut cpu = CPU::new();
    for a in 0u16..=255 {
        for v in 0u16..=255 {
            cpu.registers.a = a as u8;
            cpu.add(v as u8);
            assert_eq!(cpu.registers.a, ((a + v) % 256) as u8);
            assert_eq!(cpu.registers.f.zero, (a + v) % 256 == 0);
            assert_eq!(cpu.registers.f.subtract, false);
            assert_eq!(cpu.registers.f.carry, a + v > 255);
            assert_eq!(cpu.registers.f.half_carry, (a & 0xF) + (v & 0xF) > 0xF);
        }
    }
}

#[test]
fn jump_not_taken_wraps_the_program_counter() {
    let mut cpu = CPU::new();
    cpu.pc = 0xFFFE;
    assert_eq!(cpu.jump(false), 0x0001);
    assert_eq!(cpu.call(false), 0x0001);
    assert_eq!(cpu.return_(false), 0xFFFF);
}

#[test]
fn push_then_pop_round_trips() {
    let mut cpu = CPU::new();
    cpu.sp = 0x0002;
    cpu.push(0xAAFF);
    assert_eq!(cpu.sp, 0x0000);
    assert_eq!(cpu.pop(), 0xAAFF);
    assert_eq!(cpu.sp, 0x0002);
}

#[test]
fn stack_is_last_in_first_out() {
    let mut cpu = CPU::new();
    cpu.sp = 0x8000;
    cpu.push(0x1234);
    cpu.push(0x5678);
    assert_eq!(cpu.sp, 0x7FFC);
    assert_eq!(cpu.mem.read_byte(0x7FFF), 0x12);
    assert_eq!(cpu.mem.read_byte(0x7FFE), 0x34);
    assert_eq!(cpu.mem.read_byte(0x7FFD), 0x56);
    assert_eq!(cpu.mem.read_byte(0x7FFC), 0x78);
    assert_eq!(cpu.pop(), 0x5678);
    assert_eq!(cpu.pop(), 0x1234);
    assert_eq!(cpu.sp, 0x8000);
}

#[test]
fn push_from_the_top_of_the_address_space() {
    let mut cpu = CPU::new();
    cpu.sp = 0xFFFF;
    cpu.push(0xBEEF);
    assert_eq!(cpu.sp, 0xFFFD);
    assert_eq!(cpu.mem.read_byte(0xFFFE), 0xBE);
    assert_eq!(cpu.mem.read_byte(0xFFFD), 0xEF);
}

#[test]
fn call_does_not_touch_the_stack_when_not_taken() {
    let mut cpu = CPU::new();
    cpu.pc = 0x0100;
    cpu.mem.write_byte(0x0101, 0xFF);
    cpu.mem.write_byte(0x0102, 0xAA);
    cpu.sp = 0x0010;
    assert_eq!(cpu.call(false), 0x0103);
    assert_eq!(cpu.sp, 0x0010);
    assert_eq!(cpu.mem.read_byte(0x000F), 0x00);
    assert_eq!(cpu.mem.read_byte(0x000E), 0x00);
}

#[test]
fn return_pops_what_call_pushed() {
    let mut cpu = CPU::new();
    cpu.pc = 0x0100;
    cpu.mem.write_byte(0x0101, 0xFF);
    cpu.mem.write_byte(0x0102, 0xAA);
    cpu.sp = 0x0010;

    cpu.pc = cpu.call(true);
    assert_eq!(cpu.pc, 0xAAFF);
    assert_eq!(cpu.sp, 0x000E);

    assert_eq!(cpu.return_(true), 0x0103);
    assert_eq!(cpu.sp, 0x0010);
}

#[test]
fn call_reads_its_target_after_the_push() {
    let mut cpu = CPU::new();
    cpu.pc = 0x0100;
    cpu.mem.write_byte(0x0101, 0xFF);
    cpu.mem.write_byte(0x0102, 0xAA);
    cpu.sp = 0x0103;
    assert_eq!(cpu.call(true), 0x0103);
    assert_eq!(cpu.sp, 0x0101);
}

#[test]
fn load_between_registers() {
    let mut cpu = CPU::new();
    cpu.registers.b = 0x42;
    cpu.load(LoadByteTarget::A, LoadByteSource::B);
    assert_eq!(cpu.registers.a, 0x42);
    assert_eq!(cpu.registers.b, 0x42);
    cpu.load(LoadByteTarget::L, LoadByteSource::A);
    assert_eq!(cpu.registers.l, 0x42);
}

#[test]
fn load_immediate_byte() {
    let mut cpu = CPU::new();
    cpu.pc = 0x0200;
    cpu.mem.write_byte(0x0201, 0x99);
    cpu.load(LoadByteTarget::C, LoadByteSource::D8);
    assert_eq!(cpu.registers.c, 0x99);
}

#[test]
fn load_through_hl() {
    let mut cpu = CPU::new();
    cpu.registers.set_hl(0x1234);
    cpu.mem.write_byte(0x1234, 0x5A);
    cpu.load(LoadByteTarget::D, LoadByteSource::HLI);
    assert_eq!(cpu.registers.d, 0x5A);

    cpu.registers.e = 0xA5;
    cpu.load(LoadByteTarget::HLI, LoadByteSource::E);
    assert_eq!(cpu.mem.read_byte(0x1234), 0xA5);
}

#[test]
fn load_into_h_then_through_hl_uses_the_old_address() {
    let mut cpu = CPU::new();
    cpu.registers.set_hl(0x0010);
    cpu.mem.write_byte(0x0010, 0x20);
    cpu.load(LoadByteTarget::H, LoadByteSource::HLI);
    assert_eq!(cpu.registers.get_hl(), 0x2010);
}

#[test]
fn execute_load_advances_by_its_width() {
    let mut cpu = CPU::new();
    cpu.pc = 0x0010;
    cpu.registers.b = 7;
    let ld = Instruction::LD(LoadType::Byte(LoadByteTarget::A, LoadByteSource::B));
    assert_eq!(cpu.execute(ld), 0x0011);
    assert_eq!(cpu.registers.a, 7);
    assert_eq!(cpu.pc, 0x0010);

    cpu.mem.write_byte(0x0011, 0x33);
    let ld8 = Instruction::LD(LoadType::Byte(LoadByteTarget::A, LoadByteSource::D8));
    assert_eq!(cpu.execute(ld8), 0x0012);
    assert_eq!(cpu.registers.a, 0x33);
}

#[test]
fn execute_push_and_pop_pairs() {
    let mut cpu = CPU::new();
    cpu.sp = 0x0100;
    cpu.registers.set_bc(0x1234);
    assert_eq!(cpu.execute(Instruction::PUSH(PushPopTarget::BC)), 0x0001);
    assert_eq!(cpu.sp, 0x00FE);
    assert_eq!(cpu.mem.read_byte(0x00FF), 0x12);
    assert_eq!(cpu.mem.read_byte(0x00FE), 0x34);

    assert_eq!(cpu.execute(Instruction::POP(PushPopTarget::DE)), 0x0001);
    assert_eq!(cpu.registers.get_de(), 0x1234);
    assert_eq!(cpu.sp, 0x0100);

    cpu.registers.set_hl(0xBEEF);
    cpu.execute(Instruction::PUSH(PushPopTarget::HL));
    cpu.execute(Instruction::POP(PushPopTarget::AF));
    assert_eq!(cpu.registers.a, 0xBE);
    assert_eq!(cpu.registers.get_af(), 0xBEE0);

    cpu.execute(Instruction::PUSH(PushPopTarget::AF));
    cpu.execute(Instruction::POP(PushPopTarget::HL));
    assert_eq!(cpu.registers.get_hl(), 0xBEE0);
}

#[test]
fn execute_add_from_each_register() {
    let targets = [
        ArithmeticTarget::B,
        ArithmeticTarget::C,
        ArithmeticTarget::D,
        ArithmeticTarget::E,
        ArithmeticTarget::H,
        ArithmeticTarget::L,
    ];
    let mut cpu = CPU::new();
    cpu.registers.b = 1;
    cpu.registers.c = 2;
    cpu.registers.d = 4;
    cpu.registers.e = 8;
    cpu.registers.h = 16;
    cpu.registers.l = 32;
    let mut expected = 0u8;
    for (i, target) in targets.iter().enumerate() {
        expected += 1 << i;
        assert_eq!(cpu.execute(Instruction::ADD(*target)), 0x0001);
        assert_eq!(cpu.registers.a, expected);
    }
    assert_eq!(cpu.execute(Instruction::ADD(ArithmeticTarget::A)), 0x0001);
    assert_eq!(cpu.registers.a, 126);
}

#[test]
fn execute_jump_call_return_follow_the_flags() {
    let mut cpu = CPU::new();
    cpu.pc = 0x0100;
    cpu.sp = 0x0200;
    cpu.mem.write_byte(0x0101, 0x34);
    cpu.mem.write_byte(0x0102, 0x12);

    assert_eq!(cpu.execute(Instruction::JP(JumpTest::Always)), 0x1234);
    assert_eq!(cpu.execute(Instruction::JP(JumpTest::NotZero)), 0x1234);
    assert_eq!(cpu.execute(Instruction::JP(JumpTest::Zero)), 0x0103);
    assert_eq!(cpu.execute(Instruction::JP(JumpTest::NotCarry)), 0x1234);
    assert_eq!(cpu.execute(Instruction::JP(JumpTest::Carry)), 0x0103);

    cpu.registers.f.zero = true;
    assert_eq!(cpu.execute(Instruction::JP(JumpTest::Zero)), 0x1234);
    assert_eq!(cpu.execute(Instruction::CALL(JumpTest::NotZero)), 0x0103);
    assert_eq!(cpu.sp, 0x0200);
    assert_eq!(cpu.execute(Instruction::CALL(JumpTest::Zero)), 0x1234);
    assert_eq!(cpu.sp, 0x01FE);
    assert_eq!(cpu.execute(Instruction::RET(JumpTest::Carry)), 0x0101);
    assert_eq!(cpu.sp, 0x01FE);
    assert_eq!(cpu.execute(Instruction::RET(JumpTest::Zero)), 0x0103);
    assert_eq!(cpu.sp, 0x0200);
}

#[test]
fn step_on_nop_moves_the_program_counter_only() {
    let mut cpu = CPU::new();
    cpu.pc = 0x0040;
    cpu.sp = 0x1000;
    cpu.registers.set_af(0x12F0);
    cpu.registers.set_bc(0x3456);
    cpu.registers.set_de(0x789A);
    cpu.registers.set_hl(0xBCDE);
    cpu.mem.write_byte(0x0041, 0x55);
    let registers = cpu.registers;
    let memory = cpu.mem.memory;

    cpu.step();

    assert_eq!(cpu.pc, 0x0041);
    assert_eq!(cpu.sp, 0x1000);
    assert_eq!(cpu.registers, registers);
    assert!(cpu.mem.memory == memory);
}

#[test]
fn step_runs_a_small_program() {
    let mut cpu = CPU::new();
    let program: [u8; 12] = [
        0x00, // NOP
        0x78, // LD A,B
        0x81, // ADD A,C
        0xC5, // PUSH BC
        0xD1, // POP DE
        0xCD, 0x0A, 0x00, // CALL 0x000A
        0x77, // LD (HL),A
        0x00, // NOP
        0xC9, // RET
        0x00,
    ];
    for (address, byte) in program.iter().enumerate() {
        cpu.mem.write_byte(address as u16, *byte);
    }
    cpu.sp = 0x0100;
    cpu.registers.b = 0x0F;
    cpu.registers.c = 0x01;
    cpu.registers.set_hl(0x0080);

    cpu.step();
    assert_eq!(cpu.pc, 1);
    cpu.step();
    assert_eq!((cpu.pc, cpu.registers.a), (2, 0x0F));
    cpu.step();
    assert_eq!((cpu.pc, cpu.registers.a), (3, 0x10));
    assert!(cpu.registers.f.half_carry);
    cpu.step();
    assert_eq!((cpu.pc, cpu.sp), (4, 0x00FE));
    cpu.step();
    assert_eq!((cpu.pc, cpu.sp, cpu.registers.get_de()), (5, 0x0100, 0x0F01));
    cpu.step();
    assert_eq!((cpu.pc, cpu.sp), (0x000A, 0x00FE));
    cpu.step();
    assert_eq!((cpu.pc, cpu.sp), (0x0008, 0x0100));
    cpu.step();
    assert_eq!(cpu.pc, 0x0009);
    assert_eq!(cpu.mem.read_byte(0x0080), 0x10);
}

#[test]
fn step_fault_on_unrecognized_opcode() {
    let mut cpu = CPU::new();
    cpu.mem.write_byte(0x0000, 0x01);
    assert_eq!(
        cpu.step_fault(),
        Some(Fault::UnrecognizedOpcode { byte: 0x01, prefixed: false })
    );
    assert_eq!(
        cpu.try_step(),
        Err(Fault::UnrecognizedOpcode { byte: 0x01, prefixed: false })
    );
    assert_eq!(cpu.pc, 0);
}

#[test]
fn step_fault_on_every_unknown_opcode() {
    let mut cpu = CPU::new();
    cpu.sp = 0x0100;
    cpu.pc = 0x0010;
    for byte in 0u8..=255 {
        cpu.mem.write_byte(0x0010, byte);
        let fault = cpu.step_fault();
        if byte == 0xCB {
            assert_eq!(fault, Some(Fault::UnrecognizedOpcode { byte: 0x00, prefixed: true }));
        } else if Instruction::from_byte(byte, false).is_none() {
            assert_eq!(fault, Some(Fault::UnrecognizedOpcode { byte, prefixed: false }));
        } else if byte == 0x76 {
            assert_eq!(
                fault,
                Some(Fault::UnimplementedInstruction { instruction: Instruction::HALT() })
            );
        } else {
            assert_eq!(fault, None);
        }
    }
}

#[test]
fn step_fault_on_prefixed_opcode() {
    let mut cpu = CPU::new();
    cpu.pc = 0x0020;
    cpu.mem.write_byte(0x0020, 0xCB);
    cpu.mem.write_byte(0x0021, 0x3F);
    assert_eq!(
        cpu.try_step(),
        Err(Fault::UnrecognizedOpcode { byte: 0x3F, prefixed: true })
    );
    cpu.mem.write_byte(0x0021, 0x78);
    assert_eq!(
        cpu.try_step(),
        Err(Fault::UnrecognizedOpcode { byte: 0x78, prefixed: true })
    );
    assert_eq!(cpu.pc, 0x0020);
}

#[test]
fn step_fault_on_halt() {
    let mut cpu = CPU::new();
    cpu.mem.write_byte(0x0000, 0x76);
    assert_eq!(
        cpu.try_step(),
        Err(Fault::UnimplementedInstruction { instruction: Instruction::HALT() })
    );
    assert_eq!(
        cpu.execute_fault(Instruction::HALT()),
        Some(Fault::UnimplementedInstruction { instruction: Instruction::HALT() })
    );
    assert_eq!(
        cpu.try_execute(Instruction::HALT()),
        Err(Fault::UnimplementedInstruction { instruction: Instruction::HALT() })
    );
}

#[test]
fn step_fault_on_fetch_outside_the_store() {
    let mut cpu = CPU::new();
    cpu.pc = 0xFFFF;
    assert_eq!(cpu.try_step(), Err(Fault::OutOfBounds { address: 0xFFFF }));
    cpu.pc = 0xFFFE;
    cpu.mem.write_byte(0xFFFE, 0xCB);
    assert_eq!(cpu.try_step(), Err(Fault::OutOfBounds { address: 0xFFFF }));
    cpu.mem.write_byte(0xFFFE, 0x00);
    assert_eq!(cpu.try_step(), Ok(()));
    assert_eq!(cpu.pc, 0xFFFF);
}

#[test]
fn execute_fault_on_operands_outside_the_store() {
    let mut cpu = CPU::new();
    cpu.sp = 0x0100;
    cpu.pc = 0xFFFD;
    assert_eq!(
        cpu.execute_fault(Instruction::JP(JumpTest::Always)),
        Some(Fault::OutOfBounds { address: 0xFFFF })
    );
    assert_eq!(cpu.execute_fault(Instruction::JP(JumpTest::Zero)), None);
    cpu.pc = 0xFFFE;
    assert_eq!(
        cpu.execute_fault(Instruction::CALL(JumpTest::Always)),
        Some(Fault::OutOfBounds { address: 0xFFFF })
    );
    cpu.pc = 0xFFFF;
    assert_eq!(
        cpu.execute_fault(Instruction::JP(JumpTest::Always)),
        Some(Fault::OutOfBounds { address: 0x10000 })
    );
    assert_eq!(
        cpu.execute_fault(Instruction::LD(LoadType::Byte(
            LoadByteTarget::A,
            LoadByteSource::D8
        ))),
        Some(Fault::OutOfBounds { address: 0x10000 })
    );
    cpu.pc = 0xFFFC;
    assert_eq!(cpu.execute_fault(Instruction::JP(JumpTest::Always)), None);
}

#[test]
fn execute_fault_on_stack_outside_the_store() {
    let mut cpu = CPU::new();
    cpu.sp = 0x0000;
    assert_eq!(
        cpu.execute_fault(Instruction::PUSH(PushPopTarget::BC)),
        Some(Fault::OutOfBounds { address: 0xFFFF })
    );
    assert_eq!(cpu.execute_fault(Instruction::POP(PushPopTarget::BC)), None);
    cpu.sp = 0x0001;
    assert_eq!(
        cpu.execute_fault(Instruction::PUSH(PushPopTarget::BC)),
        Some(Fault::OutOfBounds { address: 0xFFFF })
    );
    assert_eq!(
        cpu.execute_fault(Instruction::CALL(JumpTest::Always)),
        Some(Fault::OutOfBounds { address: 0xFFFF })
    );
    assert_eq!(cpu.execute_fault(Instruction::CALL(JumpTest::Carry)), None);
    cpu.sp = 0x0002;
    assert_eq!(cpu.execute_fault(Instruction::PUSH(PushPopTarget::BC)), None);
    cpu.sp = 0xFFFE;
    assert_eq!(
        cpu.execute_fault(Instruction::POP(PushPopTarget::BC)),
        Some(Fault::OutOfBounds { address: 0xFFFF })
    );
    assert_eq!(
        cpu.execute_fault(Instruction::RET(JumpTest::Always)),
        Some(Fault::OutOfBounds { address: 0xFFFF })
    );
    assert_eq!(cpu.execute_fault(Instruction::RET(JumpTest::Zero)), None);
    cpu.sp = 0xFFFF;
    assert_eq!(
        cpu.execute_fault(Instruction::POP(PushPopTarget::BC)),
        Some(Fault::OutOfBounds { address: 0xFFFF })
    );
    cpu.sp = 0xFFFD;
    assert_eq!(cpu.execute_fault(Instruction::POP(PushPopTarget::BC)), None);
}

#[test]
fn execute_fault_on_hl_outside_the_store() {
    let mut cpu = CPU::new();
    cpu.registers.set_hl(0xFFFF);
    let read = Instruction::LD(LoadType::Byte(LoadByteTarget::A, LoadByteSource::HLI));
    let write = Instruction::LD(LoadType::Byte(LoadByteTarget::HLI, LoadByteSource::A));
    let plain = Instruction::LD(LoadType::Byte(LoadByteTarget::H, LoadByteSource::L));
    assert_eq!(cpu.execute_fault(read), Some(Fault::OutOfBounds { address: 0xFFFF }));
    assert_eq!(cpu.execute_fault(write), Some(Fault::OutOfBounds { address: 0xFFFF }));
    assert_eq!(cpu.execute_fault(plain), None);
    cpu.registers.set_hl(0xFFFE);
    assert_eq!(cpu.execute_fault(read), None);
    assert_eq!(cpu.execute_fault(write), None);
}

#[test]
fn try_step_leaves_the_machine_as_it_was_on_a_fault() {
    let mut cpu = CPU::new();
    cpu.pc = 0x0010;
    cpu.sp = 0x0001;
    cpu.registers.set_bc(0x1234);
    cpu.mem.write_byte(0x0010, 0xC5);
    let registers = cpu.registers;
    let memory = cpu.mem.memory;

    assert_eq!(cpu.try_step(), Err(Fault::OutOfBounds { address: 0xFFFF }));

    assert_eq!((cpu.pc, cpu.sp), (0x0010, 0x0001));
    assert_eq!(cpu.registers, registers);
    assert!(cpu.mem.memory == memory);
}

#[test]
fn try_step_and_try_execute_run_what_can_run() {
    let mut cpu = CPU::new();
    cpu.sp = 0x0100;
    cpu.registers.set_bc(0x1234);
    cpu.mem.write_byte(0x0000, 0xC5);
    assert_eq!(cpu.try_step(), Ok(()));
    assert_eq!((cpu.pc, cpu.sp), (0x0001, 0x00FE));
    assert_eq!(cpu.try_execute(Instruction::POP(PushPopTarget::HL)), Ok(0x0002));
    assert_eq!(cpu.registers.get_hl(), 0x1234);
    assert_eq!(cpu.pc, 0x0001);
}
