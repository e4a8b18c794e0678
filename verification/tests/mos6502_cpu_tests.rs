//! Tests for the full machine: reset behaviour and whole-program runs
//! through the execution loop.

use cpu6502::interpret_result::ProgramResult;
use cpu6502::mos6502::cpu::Mos6502;
use cpu6502::mos6502::memory::MemoryAccess;
use cpu6502::status::ALL_FLAGS;

#[test]
fn reset_resets_everything() {
    let mut cpu = Mos6502::default();
    cpu.registers.a = 1;
    cpu.registers.x = 2;
    cpu.registers.y = 3;
    cpu.status.flags = ALL_FLAGS;

    cpu.reset();

    assert_eq!(0, cpu.registers.a);
    assert_eq!(0, cpu.registers.x);
    assert_eq!(0, cpu.registers.y);

    assert_eq!(0, cpu.status.flags);

    assert_eq!(0, cpu.program_counter);
}

#[test]
fn reset_loads_pc_from_reset_vector() {
    // The program counter comes back as the little-endian word stored at
    // 0xFFFC/0xFFFD.
    let mut cpu = Mos6502::default();
    cpu.memory.write(0xFFFC, 0x34);
    cpu.memory.write(0xFFFD, 0x12);
    cpu.program_counter = 0xBEEF;

    cpu.reset();

    assert_eq!(0x1234, cpu.program_counter);
}

#[test]
fn load_program_writes_origin_into_reset_vector() {
    let mut cpu = Mos6502::default();

    cpu.load_program(&[0xA9, 0x05, 0x00]);

    assert_eq!(0xA9, cpu.memory.read(0x8000));
    assert_eq!(0x05, cpu.memory.read(0x8001));
    assert_eq!(0x00, cpu.memory.read(0x8002));
    assert_eq!(0x8000, cpu.memory.read_u16(0xFFFC));
}

#[test]
fn program_run_halts_success_via_brk() {
    // LDA #0xC0; TAX; INX; BRK.
    let mut cpu = Mos6502::create_cpu_with_program(&[0xA9, 0xC0, 0xAA, 0xE8, 0x00]);

    let result = cpu.run();

    assert_eq!(ProgramResult::Success, result);
    assert_eq!(0xC0, cpu.registers.a);
    assert_eq!(0xC1, cpu.registers.x);
}

#[test]
fn program_with_unassigned_opcode_halts_fatal() {
    // 0x02 is unassigned: the run halts there, fatally, and never
    // continues past it to the LDA that follows.
    let mut cpu = Mos6502::create_cpu_with_program(&[0xA9, 0x05, 0x02, 0xA9, 0xFF, 0x00]);

    let result = cpu.run();

    assert_eq!(ProgramResult::IllegalInstruction, result);
    assert_eq!(0x05, cpu.registers.a);
}

#[test]
fn ora_then_inx_advances_pc_exactly() {
    // ORA #0x32; INX; BRK.  Each instruction advances the program counter
    // by exactly its length, so the INX after the two-byte ORA executes.
    let mut cpu = Mos6502::create_cpu_with_program(&[0x09, 0x32, 0xE8, 0x00]);

    let result = cpu.run();

    assert_eq!(ProgramResult::Success, result);
    assert_eq!(0x32, cpu.registers.a);
    assert_eq!(0x01, cpu.registers.x);
}

#[test]
fn and_through_the_table_masks_accumulator() {
    // ORA #0x3C loads a value, AND #0x0F masks it, BRK ends the run.
    let mut cpu = Mos6502::create_cpu_with_program(&[0x09, 0x3C, 0x29, 0x0F, 0x00]);

    let result = cpu.run();

    assert_eq!(ProgramResult::Success, result);
    assert_eq!(0x0C, cpu.registers.a);
}

#[test]
fn asl_zero_page_through_the_table_shifts_memory() {
    // ASL on zero-page address 0x10, then BRK.
    let mut cpu = Mos6502::create_cpu_with_program(&[0x06, 0x10, 0x00]);
    cpu.memory.write(0x10, 0x08);

    let result = cpu.run();

    assert_eq!(ProgramResult::Success, result);
    assert_eq!(0x10, cpu.memory.read(0x10));
}
