use emulator_6502::ops::{
    ADC_IMMEDIATE, BIT_ZERO_PAGE, BNE_RELATIVE, BRK_IMPLIED, JMP_INDIRECT, JSR_ABSOLUTE,
    LDA_ABSOLUTE_X, LDA_ABSOLUTE_Y, LDA_IMMEDIATE, LDX_IMMEDIATE, NOP_IMPLIED, PHA_IMPLIED,
    PHP_IMPLIED, PLP_IMPLIED, RTI_IMPLIED, RTS_IMPLIED, SBC_IMMEDIATE, SEC_IMPLIED, TXS_IMPLIED,
};
use emulator_6502::{
    AddressingMode, BasicMemory, Cpu, CpuStatusFlags, Flag, Instruction, Memory, Op,
    OperatingMode, Register,
};

#[test]
fn register_write_sets_zero_and_negative_for_every_value() {
    for v in 0..=255u8 {
        for register in [Register::A, Register::X, Register::Y] {
            let mut cpu = Cpu::new();
            cpu.flags = CpuStatusFlags::all();
            cpu.set_register(register, v);
            assert_eq!(cpu.flags.zero, v == 0);
            assert_eq!(cpu.flags.negative, v & 0x80 != 0);
            assert!(cpu.flags.carry && cpu.flags.overflow);
        }
    }
}

#[test]
fn stack_pointer_returns_after_256_pushes() {
    let mut cpu = Cpu::new();
    let mut memory = BasicMemory::new();
    for start in [0x00u8, 0x37, 0xFF] {
        cpu.stack_pointer = start;
        for i in 0..256u32 {
            cpu.program_counter = 0x0400;
            memory.write(0x0400, PHA_IMPLIED);
            cpu.register_accumulator = i as u8;
            assert_eq!(cpu.execute_single(&mut memory, 3), 0);
        }
        assert_eq!(cpu.stack_pointer, start);
    }
}

#[test]
fn subtract_matches_add_of_complement() {
    for a in (0..=255u8).step_by(7) {
        for v in 0..=255u8 {
            for carry in [false, true] {
                let mut memory = BasicMemory::new();
                let mut sub = Cpu::new();
                sub.register_accumulator = a;
                sub.flags.carry = carry;
                memory.write(0xFFFC, SBC_IMMEDIATE);
                memory.write(0xFFFD, v);
                assert_eq!(sub.execute_single(&mut memory, 2), 0);

                let mut add = Cpu::new();
                add.register_accumulator = a;
                add.flags.carry = carry;
                memory.write(0xFFFC, ADC_IMMEDIATE);
                memory.write(0xFFFD, !v);
                assert_eq!(add.execute_single(&mut memory, 2), 0);

                assert_eq!(sub.register_accumulator, add.register_accumulator);
                assert_eq!(sub.flags, add.flags);
            }
        }
    }
}

#[test]
fn add_with_carry_exact_results() {
    let cases: [(u8, u8, bool, u8, bool, bool); 5] = [
        (0x50, 0x50, false, 0xA0, false, true),
        (0xFF, 0x01, false, 0x00, true, false),
        (0x80, 0x80, false, 0x00, true, true),
        (0x01, 0x01, true, 0x03, false, false),
        (0x7F, 0x00, true, 0x80, false, true),
    ];
    for (a, v, carry_in, result, carry, overflow) in cases {
        let mut cpu = Cpu::new();
        let mut memory = BasicMemory::new();
        cpu.register_accumulator = a;
        cpu.flags.carry = carry_in;
        memory.write(0xFFFC, ADC_IMMEDIATE);
        memory.write(0xFFFD, v);
        assert_eq!(cpu.execute_single(&mut memory, 2), 0);
        assert_eq!(cpu.register_accumulator, result);
        assert_eq!(cpu.flags.carry, carry);
        assert_eq!(cpu.flags.overflow, overflow);
        assert_eq!(cpu.flags.zero, result == 0);
        assert_eq!(cpu.flags.negative, result >= 0x80);
    }
}

#[test]
fn subtract_with_carry_exact_results() {
    let cases: [(u8, u8, bool, u8, bool, bool); 4] = [
        (0x50, 0xF0, true, 0x60, false, false),
        (0x50, 0xB0, true, 0xA0, false, true),
        (0x05, 0x03, true, 0x02, true, false),
        (0x05, 0x05, false, 0xFF, false, false),
    ];
    for (a, v, carry_in, result, carry, overflow) in cases {
        let mut cpu = Cpu::new();
        let mut memory = BasicMemory::new();
        cpu.register_accumulator = a;
        cpu.flags.carry = carry_in;
        memory.write(0xFFFC, SBC_IMMEDIATE);
        memory.write(0xFFFD, v);
        assert_eq!(cpu.execute_single(&mut memory, 2), 0);
        assert_eq!(cpu.register_accumulator, result);
        assert_eq!(cpu.flags.carry, carry);
        assert_eq!(cpu.flags.overflow, overflow);
    }
}

#[test]
fn absolute_indexed_load_costs_four_or_five_cycles() {
    for (opcode, use_x) in [(LDA_ABSOLUTE_X, true), (LDA_ABSOLUTE_Y, false)] {
        // same page: 0x1020 + 0x10 = 0x1030
        let mut cpu = Cpu::new();
        let mut memory = BasicMemory::new();
        memory.write(0xFFFC, opcode);
        memory.write(0xFFFD, 0x20);
        memory.write(0xFFFE, 0x10);
        memory.write(0x1030, 0x55);
        if use_x {
            cpu.register_x = 0x10;
        } else {
            cpu.register_y = 0x10;
        }
        assert_eq!(cpu.execute_single(&mut memory, 10), 6);
        assert_eq!(cpu.register_accumulator, 0x55);

        // page crossed: 0x10F0 + 0x20 = 0x1110
        let mut cpu = Cpu::new();
        memory.write(0xFFFD, 0xF0);
        memory.write(0x1110, 0x66);
        if use_x {
            cpu.register_x = 0x20;
        } else {
            cpu.register_y = 0x20;
        }
        assert_eq!(cpu.execute_single(&mut memory, 10), 5);
        assert_eq!(cpu.register_accumulator, 0x66);
    }
}

#[test]
fn indirect_jump_page_end_defect() {
    // legacy part: the high byte comes from the start of the pointer's page
    let mut cpu = Cpu::with_mode(OperatingMode::Mos);
    let mut memory = BasicMemory::new();
    memory.write(0xFFFC, JMP_INDIRECT);
    memory.write(0xFFFD, 0xFF);
    memory.write(0xFFFE, 0x10);
    memory.write(0x10FF, 0x60);
    memory.write(0x1000, 0x70);
    memory.write(0x1100, 0x99);
    assert_eq!(cpu.execute_single(&mut memory, 5), 0);
    assert_eq!(cpu.program_counter, 0x7060);

    // fixed part: the same layout with the high byte in the next page
    let mut cpu = Cpu::with_mode(OperatingMode::Wdc);
    let mut memory = BasicMemory::new();
    memory.write(0xFFFC, JMP_INDIRECT);
    memory.write(0xFFFD, 0xFF);
    memory.write(0xFFFE, 0x10);
    memory.write(0x10FF, 0x60);
    memory.write(0x1000, 0x99);
    memory.write(0x1100, 0x70);
    assert_eq!(cpu.execute_single(&mut memory, 5), 0);
    assert_eq!(cpu.program_counter, 0x7060);
}

#[test]
fn legacy_indirect_jump_inside_a_page_is_normal() {
    let mut cpu = Cpu::with_mode(OperatingMode::Mos);
    let mut memory = BasicMemory::new();
    memory.write(0xFFFC, JMP_INDIRECT);
    memory.write(0xFFFD, 0x20);
    memory.write(0xFFFE, 0x40);
    memory.write(0x4020, 0x60);
    memory.write(0x4021, 0x70);
    memory.write(0x4000, 0x99);
    assert_eq!(cpu.execute_single(&mut memory, 5), 0);
    assert_eq!(cpu.program_counter, 0x7060);
}

#[test]
fn subroutine_round_trip() {
    let mut cpu = Cpu::new();
    let mut memory = BasicMemory::new();
    cpu.program_counter = 0x3000;
    cpu.stack_pointer = 0x80;
    memory.write(0x3000, JSR_ABSOLUTE);
    memory.write(0x3001, 0x40);
    memory.write(0x3002, 0x20);
    memory.write(0x2040, RTS_IMPLIED);
    assert_eq!(cpu.execute_single(&mut memory, 6), 0);
    assert_eq!(cpu.program_counter, 0x2040);
    assert_eq!(cpu.stack_pointer, 0x82);
    // the pushed address is that of the last byte of the call
    assert_eq!(memory.read(0x0180), 0x02);
    assert_eq!(memory.read(0x0181), 0x30);
    assert_eq!(cpu.execute_single(&mut memory, 6), 0);
    assert_eq!(cpu.program_counter, 0x3003);
    assert_eq!(cpu.stack_pointer, 0x80);
}

#[test]
fn load_immediate_end_to_end() {
    let mut cpu = Cpu::new();
    let mut memory = BasicMemory::new();
    memory.write(0xFFFC, 0xA9);
    memory.write(0xFFFD, 0x2A);
    let left = cpu.execute_single(&mut memory, 2);
    assert_eq!(cpu.register_accumulator, 0x2A);
    assert!(!cpu.flags.zero);
    assert!(!cpu.flags.negative);
    assert_eq!(left, 0);
}

#[test]
fn illegal_opcode_only_costs_its_fetch() {
    let mut cpu = Cpu::new();
    let mut memory = BasicMemory::new();
    memory.write(0xFFFC, 0x02);
    let before = cpu;
    assert_eq!(cpu.execute_single(&mut memory, 5), 4);
    assert_eq!(cpu.program_counter, 0xFFFD);
    assert_eq!(cpu.register_accumulator, before.register_accumulator);
    assert_eq!(cpu.stack_pointer, before.stack_pointer);
    assert_eq!(cpu.flags, before.flags);
}

#[test]
fn budget_may_go_below_zero() {
    let mut cpu = Cpu::new();
    let mut memory = BasicMemory::new();
    memory.write(0xFFFC, LDA_IMMEDIATE);
    memory.write(0xFFFD, 0x01);
    assert_eq!(cpu.execute_single(&mut memory, 1), -1);
    assert_eq!(cpu.register_accumulator, 0x01);
}

#[test]
fn execute_runs_until_the_budget_is_spent() {
    let mut cpu = Cpu::new();
    let mut memory = BasicMemory::new();
    cpu.program_counter = 0x0200;
    memory.write(0x0200, LDA_IMMEDIATE);
    memory.write(0x0201, 0x11);
    memory.write(0x0202, LDX_IMMEDIATE);
    memory.write(0x0203, 0x22);
    memory.write(0x0204, NOP_IMPLIED);
    memory.write(0x0205, LDA_IMMEDIATE);
    memory.write(0x0206, 0x33);
    // 2 + 2 + 2 cycles: stops after the no-op
    assert_eq!(cpu.execute(&mut memory, 6), 0);
    assert_eq!(cpu.register_accumulator, 0x11);
    assert_eq!(cpu.register_x, 0x22);
    assert_eq!(cpu.program_counter, 0x0205);
    // one cycle left still starts the next instruction
    assert_eq!(cpu.execute(&mut memory, 1), -1);
    assert_eq!(cpu.register_accumulator, 0x33);
    // nothing runs on an empty budget
    assert_eq!(cpu.execute(&mut memory, 0), 0);
    assert_eq!(cpu.program_counter, 0x0207);
}

#[test]
fn bit_test_zero_uses_and() {
    let mut cpu = Cpu::new();
    let mut memory = BasicMemory::new();
    memory.write(0xFFFC, BIT_ZERO_PAGE);
    memory.write(0xFFFD, 0x40);
    memory.write(0x40, 0b1100_0000);
    cpu.register_accumulator = 0b0011_1111;
    assert_eq!(cpu.execute_single(&mut memory, 3), 0);
    assert!(cpu.flags.zero);
    assert!(cpu.flags.negative);
    assert!(cpu.flags.overflow);
    assert_eq!(cpu.register_accumulator, 0b0011_1111);
}

#[test]
fn transfer_to_stack_pointer_keeps_flags() {
    let mut cpu = Cpu::new();
    let mut memory = BasicMemory::new();
    memory.write(0xFFFC, TXS_IMPLIED);
    cpu.register_x = 0x00;
    assert_eq!(cpu.execute_single(&mut memory, 2), 0);
    assert_eq!(cpu.stack_pointer, 0x00);
    assert!(!cpu.flags.zero);
    assert!(!cpu.flags.negative);
}

#[test]
fn branch_backwards_across_a_page() {
    let mut cpu = Cpu::new();
    let mut memory = BasicMemory::new();
    cpu.program_counter = 0x0300;
    memory.write(0x0300, BNE_RELATIVE);
    memory.write(0x0301, 0xF0); // -16 from 0x0302
    assert_eq!(cpu.execute_single(&mut memory, 4), 0);
    assert_eq!(cpu.program_counter, 0x02F2);

    // not taken: only the two fetches
    let mut cpu = Cpu::new();
    cpu.program_counter = 0x0300;
    cpu.flags.zero = true;
    assert_eq!(cpu.execute_single(&mut memory, 2), 0);
    assert_eq!(cpu.program_counter, 0x0302);
}

#[test]
fn status_survives_push_and_pull_without_the_unused_bit() {
    let mut cpu = Cpu::new();
    let mut memory = BasicMemory::new();
    cpu.program_counter = 0x0200;
    memory.write(0x0200, SEC_IMPLIED);
    memory.write(0x0201, PHP_IMPLIED);
    memory.write(0x0202, PLP_IMPLIED);
    assert_eq!(cpu.execute_single(&mut memory, 2), 0);
    assert_eq!(cpu.execute_single(&mut memory, 3), 0);
    assert_eq!(memory.read(0x01FF), 0b0000_0001);
    cpu.flags = CpuStatusFlags::empty();
    assert_eq!(cpu.execute_single(&mut memory, 4), 0);
    assert!(cpu.flags.carry);
    assert_eq!(cpu.flags.bits(), 0b0000_0001);

    assert_eq!(CpuStatusFlags::from_bits_truncate(0b0010_0000), CpuStatusFlags::empty());
    assert_eq!(CpuStatusFlags::all().bits(), 0b1101_1111);
    let mut flags = CpuStatusFlags::empty();
    flags.set(Flag::Overflow, true);
    flags.set(Flag::DecimalMode, true);
    assert!(flags.get(Flag::Overflow) && !flags.get(Flag::Carry));
    assert_eq!(flags.bits(), 0b0100_1000);
    assert_eq!(CpuStatusFlags::from_bits_truncate(flags.bits()), flags);
}

#[test]
fn opcode_table_lookup() {
    assert_eq!(
        Op::by_opcode(LDA_IMMEDIATE),
        Some(Op::Load(Register::A, AddressingMode::Immediate))
    );
    assert_eq!(Op::by_opcode(JMP_INDIRECT), Some(Op::Jump(AddressingMode::Indirect)));
    assert_eq!(Op::by_opcode(0x02), None);
    assert_eq!(Op::by_opcode(0xFF), None);
    let instruction = Instruction::by_opcode(RTS_IMPLIED).unwrap();
    assert_eq!(instruction, Instruction::new(RTS_IMPLIED, Op::ReturnFromSubroutine));
    assert_eq!(instruction.opcode, 0x60);
    let legal = (0..=255u8).filter(|&b| Instruction::by_opcode(b).is_some()).count();
    assert_eq!(legal, 151);
}

#[test]
fn reset_restores_the_defaults() {
    let mut cpu = Cpu::with_mode(OperatingMode::Mos);
    cpu.program_counter = 0x1234;
    cpu.stack_pointer = 0x10;
    cpu.register_accumulator = 1;
    cpu.register_x = 2;
    cpu.register_y = 3;
    cpu.flags = CpuStatusFlags::all();
    cpu.reset();
    assert_eq!(cpu, Cpu::default());
    assert_eq!(cpu.program_counter, 0xFFFC);
    assert_eq!(cpu.stack_pointer, 0xFF);
    assert_eq!(cpu.mode, OperatingMode::Wdc);
    assert_eq!(Cpu::with_mode(OperatingMode::Mos).mode, OperatingMode::Mos);
}

#[test]
fn memory_reset_clears_every_cell() {
    let mut memory = BasicMemory::default();
    memory.write(0x0000, 1);
    memory.write(0xFFFF, 2);
    assert_eq!(memory.read(0xFFFF), 2);
    memory.reset();
    assert_eq!(memory.read(0x0000), 0);
    assert_eq!(memory.read(0xFFFF), 0);
}

#[test]
fn break_then_return_from_interrupt() {
    let mut cpu = Cpu::new();
    let mut memory = BasicMemory::new();
    cpu.program_counter = 0x0600;
    cpu.stack_pointer = 0x40;
    cpu.flags.carry = true;
    cpu.flags.negative = true;
    memory.write(0x0600, BRK_IMPLIED);
    memory.write(0xFFFE, 0x00);
    memory.write(0xFFFF, 0x90);
    memory.write(0x9000, RTI_IMPLIED);
    assert_eq!(cpu.execute_single(&mut memory, 7), 0);
    assert_eq!(cpu.program_counter, 0x9000);
    assert!(cpu.flags.break_command);
    assert_eq!(cpu.stack_pointer, 0x43);
    assert_eq!(memory.read(0x0140), 0x01);
    assert_eq!(memory.read(0x0141), 0x06);
    assert_eq!(memory.read(0x0142), 0b1000_0001);
    assert_eq!(cpu.execute_single(&mut memory, 6), 0);
    assert_eq!(cpu.program_counter, 0x0601);
    assert_eq!(cpu.stack_pointer, 0x40);
    assert!(cpu.flags.carry && cpu.flags.negative && !cpu.flags.break_command);
}
