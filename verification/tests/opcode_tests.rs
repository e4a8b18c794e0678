//! Tests for the opcode descriptors and the fixed dispatch table.

use cpu6502::mos6502::address_mode::AddressMode;
use cpu6502::mos6502::opcode::{Instruction, OpCode};

#[test]
fn test_new_creates_opcode() {
    let opcode = OpCode::new(0x00, "BRK", 1, 7, AddressMode::Implied, Instruction::Brk);

    assert_eq!(0x00, opcode.opcode);
    assert_eq!("BRK", opcode.mnemonic);
    assert_eq!(1, opcode.bytes);
    assert_eq!(7, opcode.cycles);
    assert_eq!(AddressMode::Implied, opcode.address_mode);
}

#[test]
fn lookup_returns_table_entry() {
    let opcode = OpCode::lookup(0xA9).unwrap();

    assert_eq!(0xA9, opcode.opcode);
    assert_eq!("LDA", opcode.mnemonic);
    assert_eq!(2, opcode.bytes);
    assert_eq!(2, opcode.cycles);
    assert_eq!(AddressMode::Immediate, opcode.address_mode);
    assert_eq!(Instruction::Lda, opcode.instruction);
}

#[test]
fn lookup_reports_unassigned_bytes() {
    assert!(OpCode::lookup(0x02).is_none());
    assert!(OpCode::lookup(0xFF).is_none());
    assert!(OpCode::lookup(0x00).is_some());
}
