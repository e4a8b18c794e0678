//! The opcode dispatch table: an immutable mapping from byte value to
//! instruction descriptor, constructed on demand and identical on every
//! lookup.

use crate::mos6502::address_mode::{resolvable, AddressMode};
use vstd::prelude::*;

verus! {

/// The instructions the full machine implements.  Dispatch is a single
/// match over this closed set, selected through the opcode table.
#[derive(Clone, Copy, Debug, PartialEq, Eq, Structural)]
pub enum Instruction {
    And,
    Asl,
    Brk,
    Lda,
    Ora,
    Tax,
    Inx,
}

/// An immutable instruction descriptor: the opcode byte it is keyed by,
/// a human-readable mnemonic, the instruction's total length in bytes
/// (opcode byte plus operands), its cycle count (carried as metadata
/// only), its addressing mode, and the instruction it dispatches to.
#[derive(Debug)]
pub struct OpCode {
    pub opcode: u8,
    pub mnemonic: &'static str,
    pub bytes: u8,
    pub cycles: u8,
    pub address_mode: AddressMode,
    pub instruction: Instruction,
}

/// The fixed dispatch table, as a function from opcode byte to
/// `(instruction, bytes, cycles, addressing mode)`: only the assigned
/// bytes map to a descriptor, and every unassigned byte is `None`,
/// distinguishable from a legitimate terminator.
pub open spec fn spec_table(byte: u8) -> Option<(Instruction, u8, u8, AddressMode)> {
    if byte == 0x29 {
        Some((Instruction::And, 2, 2, AddressMode::Immediate))
    } else if byte == 0x25 {
        Some((Instruction::And, 2, 3, AddressMode::ZeroPage))
    } else if byte == 0x35 {
        Some((Instruction::And, 2, 4, AddressMode::ZeroPageX))
    } else if byte == 0x2D {
        Some((Instruction::And, 3, 4, AddressMode::Absolute))
    } else if byte == 0x3D {
        Some((Instruction::And, 3, 4, AddressMode::AbsoluteX))
    } else if byte == 0x39 {
        Some((Instruction::And, 3, 4, AddressMode::AbsoluteY))
    } else if byte == 0x21 {
        Some((Instruction::And, 2, 6, AddressMode::IndirectX))
    } else if byte == 0x31 {
        Some((Instruction::And, 2, 5, AddressMode::IndirectX))
    } else if byte == 0x0A {
        Some((Instruction::Asl, 1, 2, AddressMode::Accumulator))
    } else if byte == 0x06 {
        Some((Instruction::Asl, 2, 5, AddressMode::ZeroPage))
    } else if byte == 0x16 {
        Some((Instruction::Asl, 2, 6, AddressMode::ZeroPageX))
    } else if byte == 0x0E {
        Some((Instruction::Asl, 3, 6, AddressMode::Absolute))
    } else if byte == 0x1E {
        Some((Instruction::Asl, 3, 7, AddressMode::AbsoluteX))
    } else if byte == 0x00 {
        Some((Instruction::Brk, 1, 7, AddressMode::Implied))
    } else if byte == 0x09 {
        Some((Instruction::Ora, 2, 2, AddressMode::Immediate))
    } else if byte == 0x05 {
        Some((Instruction::Ora, 2, 3, AddressMode::ZeroPage))
    } else if byte == 0x15 {
        Some((Instruction::Ora, 2, 4, AddressMode::ZeroPageX))
    } else if byte == 0x0D {
        Some((Instruction::Ora, 3, 4, AddressMode::Absolute))
    } else if byte == 0x1D {
        Some((Instruction::Ora, 3, 4, AddressMode::AbsoluteX))
    } else if byte == 0x19 {
        Some((Instruction::Ora, 3, 4, AddressMode::AbsoluteY))
    } else if byte == 0x01 {
        Some((Instruction::Ora, 2, 6, AddressMode::IndirectX))
    } else if byte == 0x11 {
        Some((Instruction::Ora, 2, 5, AddressMode::IndirectY))
    } else if byte == 0xA9 {
        Some((Instruction::Lda, 2, 2, AddressMode::Immediate))
    } else if byte == 0xAA {
        Some((Instruction::Tax, 1, 2, AddressMode::Implied))
    } else if byte == 0xE8 {
        Some((Instruction::Inx, 1, 2, AddressMode::Implied))
    } else {
        None
    }
}

/// Every descriptor in the table is well formed: its length covers the
/// opcode byte and at most two operands, and an instruction that routes
/// through the resolver is paired with a mode that carries an address, so
/// a table-dispatched handler never reports `InvalidAddressingMode`.
pub proof fn lemma_table_wf(byte: u8)
    ensures
        spec_table(byte) matches Some(d) ==> 1 <= d.1 <= 3,
        spec_table(byte) matches Some(d) ==> match d.0 {
            Instruction::Brk | Instruction::Tax | Instruction::Inx => true,
            Instruction::Asl => d.3 matches AddressMode::Accumulator || resolvable(d.3),
            _ => resolvable(d.3),
        },
{
}

impl OpCode {
    /// A descriptor holding exactly the given fields.
    pub fn new(
        opcode: u8,
        mnemonic: &'static str,
        bytes: u8,
        cycles: u8,
        address_mode: AddressMode,
        instruction: Instruction,
    ) -> (r: OpCode)
        ensures
            r.opcode == opcode,
            r.mnemonic == mnemonic,
            r.bytes == bytes,
            r.cycles == cycles,
            r.address_mode == address_mode,
            r.instruction == instruction,
    {
        OpCode { opcode, mnemonic, bytes, cycles, address_mode, instruction }
    }

    /// Look an opcode byte up in the fixed dispatch table.  The descriptor
    /// returned carries exactly the table's entry for that byte; an
    /// unassigned byte is reported as `None`, never silently ignored.
    pub fn lookup(byte: u8) -> (r: Option<OpCode>)
        ensures
            r is Some <==> spec_table(byte) is Some,
            r matches Some(op) ==> spec_table(byte) matches Some(d) && op.opcode == byte
                && op.instruction == d.0 && op.bytes == d.1 && op.cycles == d.2
                && op.address_mode == d.3,
    {
        match byte {
            0x29 => Some(OpCode::new(0x29, "AND", 2, 2, AddressMode::Immediate, Instruction::And)),
            0x25 => Some(OpCode::new(0x25, "AND", 2, 3, AddressMode::ZeroPage, Instruction::And)),
            0x35 => Some(OpCode::new(0x35, "AND", 2, 4, AddressMode::ZeroPageX, Instruction::And)),
            0x2D => Some(OpCode::new(0x2D, "AND", 3, 4, AddressMode::Absolute, Instruction::And)),
            0x3D => Some(OpCode::new(0x3D, "AND", 3, 4, AddressMode::AbsoluteX, Instruction::And)),
            0x39 => Some(OpCode::new(0x39, "AND", 3, 4, AddressMode::AbsoluteY, Instruction::And)),
            0x21 => Some(OpCode::new(0x21, "AND", 2, 6, AddressMode::IndirectX, Instruction::And)),
            0x31 => Some(OpCode::new(0x31, "AND", 2, 5, AddressMode::IndirectX, Instruction::And)),
            0x0A => Some(
                OpCode::new(0x0A, "ASL", 1, 2, AddressMode::Accumulator, Instruction::Asl),
            ),
            0x06 => Some(OpCode::new(0x06, "ASL", 2, 5, AddressMode::ZeroPage, Instruction::Asl)),
            0x16 => Some(OpCode::new(0x16, "ASL", 2, 6, AddressMode::ZeroPageX, Instruction::Asl)),
            0x0E => Some(OpCode::new(0x0E, "ASL", 3, 6, AddressMode::Absolute, Instruction::Asl)),
            0x1E => Some(OpCode::new(0x1E, "ASL", 3, 7, AddressMode::AbsoluteX, Instruction::Asl)),
            0x00 => Some(OpCode::new(0x00, "BRK", 1, 7, AddressMode::Implied, Instruction::Brk)),
            0x09 => Some(OpCode::new(0x09, "ORA", 2, 2, AddressMode::Immediate, Instruction::Ora)),
            0x05 => Some(OpCode::new(0x05, "ORA", 2, 3, AddressMode::ZeroPage, Instruction::Ora)),
            0x15 => Some(OpCode::new(0x15, "ORA", 2, 4, AddressMode::ZeroPageX, Instruction::Ora)),
            0x0D => Some(OpCode::new(0x0D, "ORA", 3, 4, AddressMode::Absolute, Instruction::Ora)),
            0x1D => Some(OpCode::new(0x1D, "ORA", 3, 4, AddressMode::AbsoluteX, Instruction::Ora)),
            0x19 => Some(OpCode::new(0x19, "ORA", 3, 4, AddressMode::AbsoluteY, Instruction::Ora)),
            0x01 => Some(OpCode::new(0x01, "ORA", 2, 6, AddressMode::IndirectX, Instruction::Ora)),
            0x11 => Some(OpCode::new(0x11, "ORA", 2, 5, AddressMode::IndirectY, Instruction::Ora)),
            0xA9 => Some(OpCode::new(0xA9, "LDA", 2, 2, AddressMode::Immediate, Instruction::Lda)),
            0xAA => Some(OpCode::new(0xAA, "TAX", 1, 2, AddressMode::Implied, Instruction::Tax)),
            0xE8 => Some(OpCode::new(0xE8, "INX", 1, 2, AddressMode::Implied, Instruction::Inx)),
            _ => None,
        }
    }
}

} // verus!
