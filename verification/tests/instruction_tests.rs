//! Tests for the per-instruction handlers, driven directly with
//! hand-built descriptors.

use cpu6502::interpret_result::InstructionResult;
use cpu6502::mos6502::address_mode::AddressMode;
use cpu6502::mos6502::and::And;
use cpu6502::mos6502::asl::Asl;
use cpu6502::mos6502::bcc::Bcc;
use cpu6502::mos6502::brk::Brk;
use cpu6502::mos6502::cpu::{Mos6502, Registers};
use cpu6502::mos6502::helpers::Helpers;
use cpu6502::mos6502::instruction_set::InstructionSet;
use cpu6502::mos6502::inx::Inx;
use cpu6502::mos6502::lda::Lda;
use cpu6502::mos6502::memory::{Memory, MemoryAccess, MEMORY_SIZE};
use cpu6502::mos6502::ora::Ora;
use cpu6502::mos6502::tax::Tax;
use cpu6502::status::{Status, CARRY, NEGATIVE, ZERO};

#[test]
fn instruction_set_test_lda_immediate_load_data() {
    let mut bytes = vec![0u8; MEMORY_SIZE];
    bytes[0xAA] = 0x05;

    let mut cpu = Mos6502 {
        memory: Memory::new(bytes),
        program_counter: 0xAA,
        ..Default::default()
    };

    let opcode = Helpers::create_opcode(1, AddressMode::Immediate);

    InstructionSet::lda(&opcode, &mut cpu);

    assert_eq!(0x05, cpu.registers.a);
    assert_eq!(0, cpu.status.flags & ZERO);
    assert_eq!(0, cpu.status.flags & NEGATIVE);
}

#[test]
fn instruction_set_test_lda_zero_flag_set() {
    let mut bytes = vec![0u8; MEMORY_SIZE];
    bytes[0xAA] = 0x00;

    let mut cpu = Mos6502 {
        memory: Memory::new(bytes),
        program_counter: 0xAA,
        ..Default::default()
    };

    let opcode = Helpers::create_opcode(1, AddressMode::Immediate);

    InstructionSet::lda(&opcode, &mut cpu);

    assert_eq!(ZERO, cpu.status.flags & ZERO);
}

#[test]
fn instruction_set_test_tax_copies_accumulator_to_x_register() {
    let mut cpu = Mos6502::default();

    cpu.registers.a = 0x05;

    InstructionSet::tax(&mut cpu);

    assert_eq!(0x05, cpu.registers.x);
    assert_eq!(0, cpu.status.flags & (ZERO | NEGATIVE));
}

#[test]
fn instruction_set_test_tax_zero_flag_set() {
    let mut cpu = Mos6502::default();

    InstructionSet::tax(&mut cpu);

    assert_eq!(0x00, cpu.registers.x);
    assert_eq!(ZERO, cpu.status.flags);
}

#[test]
fn instruction_set_test_tax_negative_flag_set() {
    let mut cpu = Mos6502::default();

    cpu.registers.a = 0xF0;

    InstructionSet::tax(&mut cpu);

    assert_eq!(0xF0, cpu.registers.x);
    assert_eq!(NEGATIVE, cpu.status.flags);
}

#[test]
fn instruction_set_test_inx_overflows() {
    let mut cpu = Mos6502::default();

    cpu.registers.a = 0xFF;

    InstructionSet::inx(&mut cpu);

    assert_eq!(cpu.registers.x, 1)
}

#[test]
fn brk_returns_end_program() {
    assert_eq!(InstructionResult::EndProgram, Brk::brk());
}

#[test]
fn instruction_set_brk_returns_end_program() {
    assert_eq!(InstructionResult::EndProgram, InstructionSet::brk());
}

#[test]
fn test_and() {
    let mut bytes = vec![0u8; MEMORY_SIZE];
    bytes[0xAA] = 0xB;

    let mut cpu = Mos6502 {
        memory: Memory::new(bytes),
        program_counter: 0xAA,
        registers: Registers {
            a: 0x05,
            x: 0,
            y: 0,
        },
        ..Default::default()
    };

    let opcode = Helpers::create_opcode(1, AddressMode::Immediate);

    And::and(&opcode, &mut cpu);

    assert_eq!(0x01, cpu.registers.a);
    assert_eq!(0, cpu.status.flags);
}

#[test]
fn test_and_zero_flag_set() {
    let mut bytes = vec![0u8; MEMORY_SIZE];
    bytes[0xAA] = 0x00;

    let mut cpu = Mos6502 {
        memory: Memory::new(bytes),
        program_counter: 0xAA,
        registers: Registers {
            a: 0x04,
            x: 0,
            y: 0,
        },
        ..Default::default()
    };

    let opcode = Helpers::create_opcode(1, AddressMode::Immediate);

    And::and(&opcode, &mut cpu);

    assert_eq!(ZERO, cpu.status.flags & ZERO);
}

#[test]
fn test_ora_does_a_bitwise_or() {
    let mut bytes = vec![0u8; MEMORY_SIZE];
    bytes[0xAA] = 0x32;

    let mut cpu = Mos6502 {
        memory: Memory::new(bytes),
        program_counter: 0xAA,
        ..Default::default()
    };

    cpu.registers.a = 0x19;

    let opcode = Helpers::create_opcode(1, AddressMode::Immediate);

    Ora::ora(&opcode, &mut cpu);

    assert_eq!(0x3B, cpu.registers.a);
    assert_eq!(0, cpu.status.flags & ZERO);
    assert_eq!(0, cpu.status.flags & NEGATIVE);
}

#[test]
fn test_asl_with_accumulator_does_bitwise_shift() {
    let mut cpu = Mos6502 {
        registers: Registers { a: 0x2, x: 0, y: 0 },
        program_counter: 0xAA,
        ..Default::default()
    };

    Asl::asl_accumulator(&mut cpu);

    assert_eq!(cpu.registers.a, 0x04);
    assert_eq!(cpu.registers.x, 0);
    assert_eq!(cpu.registers.y, 0);
    assert_eq!(0, cpu.status.flags);
}

#[test]
fn test_asl_with_memory_does_bitwise_shift() {
    let mut cpu = Mos6502 {
        program_counter: 0x20,
        memory: Memory::new_with_bytes(vec![(0x20, 0xAA), (0xAA, 0x8)]),
        ..Default::default()
    };

    let opcode = Helpers::create_opcode(1, AddressMode::ZeroPage);

    Asl::asl_memory(&opcode, &mut cpu);

    assert_eq!(cpu.registers.a, 0);
    assert_eq!(cpu.registers.x, 0);
    assert_eq!(cpu.registers.y, 0);

    assert_eq!(0x10, cpu.memory.read(0xAA));
}

#[test]
fn asl_accumulator_sets_carry_and_zero_on_high_bit() {
    // Shifting 0x80 moves bit 7 into the carry and produces 0x00.
    let mut cpu = Mos6502::default();
    cpu.registers.a = 0x80;

    Asl::asl_accumulator(&mut cpu);

    assert_eq!(0x00, cpu.registers.a);
    assert_eq!(CARRY, cpu.status.flags & CARRY);
    assert_eq!(ZERO, cpu.status.flags & ZERO);
}

#[test]
fn test_bcc_branches_if_carry() {
    let mut cpu = Mos6502 {
        memory: Memory::new_with_bytes(vec![(0xAA, 0x02), (0xAB, 0x00)]),
        program_counter: 0xAA,
        status: Status { flags: CARRY },
        ..Default::default()
    };

    Bcc::bcc(&mut cpu);

    assert_eq!(0xAC, cpu.program_counter);
}

#[test]
fn bcc_leaves_pc_alone_without_carry() {
    let mut cpu = Mos6502 {
        memory: Memory::new_with_bytes(vec![(0xAA, 0x02)]),
        program_counter: 0xAA,
        ..Default::default()
    };

    Bcc::bcc(&mut cpu);

    assert_eq!(0xAA, cpu.program_counter);
}

#[test]
fn inx_test_inx_overflows() {
    let mut cpu = Mos6502::default();

    cpu.registers.a = 0xFF;

    Inx::inx(&mut cpu);

    assert_eq!(cpu.registers.x, 1)
}

#[test]
fn inx_wraps_x_to_zero_without_fatal_condition() {
    // X = 0xFF wraps to 0x00 after one INX; the handler keeps running.
    let mut cpu = Mos6502::default();
    cpu.registers.x = 0xFF;

    let result = Inx::inx(&mut cpu);

    assert_eq!(0x00, cpu.registers.x);
    assert_eq!(InstructionResult::Continue, result);
    assert_eq!(ZERO, cpu.status.flags & ZERO);
}

#[test]
fn lda_test_lda_immediate_load_data() {
    let mut bytes = vec![0u8; MEMORY_SIZE];
    bytes[0xAA] = 0x05;

    let mut cpu = Mos6502 {
        memory: Memory::new(bytes),
        program_counter: 0xAA,
        ..Default::default()
    };

    let opcode = Helpers::create_opcode(1, AddressMode::Immediate);

    Lda::lda(&opcode, &mut cpu);

    assert_eq!(0x05, cpu.registers.a);
    assert_eq!(0, cpu.status.flags & ZERO);
    assert_eq!(0, cpu.status.flags & NEGATIVE);
}

#[test]
fn lda_test_lda_zero_flag_set() {
    let mut bytes = vec![0u8; MEMORY_SIZE];
    bytes[0xAA] = 0x00;

    let mut cpu = Mos6502 {
        memory: Memory::new(bytes),
        program_counter: 0xAA,
        ..Default::default()
    };

    let opcode = Helpers::create_opcode(1, AddressMode::Immediate);

    Lda::lda(&opcode, &mut cpu);

    assert_eq!(ZERO, cpu.status.flags & ZERO);
}

#[test]
fn lda_negative_flag_set_for_high_bit_value() {
    let mut bytes = vec![0u8; MEMORY_SIZE];
    bytes[0xAA] = 0xFF;

    let mut cpu = Mos6502 {
        memory: Memory::new(bytes),
        program_counter: 0xAA,
        ..Default::default()
    };

    let opcode = Helpers::create_opcode(1, AddressMode::Immediate);

    Lda::lda(&opcode, &mut cpu);

    assert_eq!(0xFF, cpu.registers.a);
    assert_eq!(NEGATIVE, cpu.status.flags & NEGATIVE);
    assert_eq!(0, cpu.status.flags & ZERO);
}

#[test]
fn lda_with_unresolvable_mode_reports_invalid_addressing() {
    let mut cpu = Mos6502::default();

    let opcode = Helpers::create_opcode(1, AddressMode::Implied);

    let result = Lda::lda(&opcode, &mut cpu);

    assert_eq!(InstructionResult::InvalidAddressingMode, result);
    assert_eq!(0, cpu.registers.a);
}

#[test]
fn tax_test_tax_copies_accumulator_to_x_register() {
    let mut cpu = Mos6502::default();

    cpu.registers.a = 0x05;

    Tax::tax(&mut cpu);

    assert_eq!(0x05, cpu.registers.x);
    assert_eq!(0, cpu.status.flags & (ZERO | NEGATIVE));
}

#[test]
fn tax_test_tax_zero_flag_set() {
    let mut cpu = Mos6502::default();

    Tax::tax(&mut cpu);

    assert_eq!(0x00, cpu.registers.x);
    assert_eq!(ZERO, cpu.status.flags);
}

#[test]
fn tax_test_tax_negative_flag_set() {
    let mut cpu = Mos6502::default();

    cpu.registers.a = 0xF0;

    Tax::tax(&mut cpu);

    assert_eq!(0xF0, cpu.registers.x);
    assert_eq!(NEGATIVE, cpu.status.flags);
}

#[test]
fn tax_recomputes_flags_from_x_only() {
    // A = 0x00 transfers zero into X: the Zero flag reflects X's new
    // value even though other flags were set beforehand.
    let mut cpu = Mos6502::default();
    cpu.status.flags = CARRY | NEGATIVE;
    cpu.registers.a = 0x00;

    Tax::tax(&mut cpu);

    assert_eq!(0x00, cpu.registers.x);
    assert_eq!(ZERO, cpu.status.flags & ZERO);
    assert_eq!(0, cpu.status.flags & NEGATIVE);
    assert_eq!(CARRY, cpu.status.flags & CARRY);
}
