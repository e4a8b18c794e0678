//! The instruction handlers gathered on one type, mirroring the
//! per-instruction modules.

use crate::interpret_result::InstructionResult;
use crate::machine::{inx_applied, tax_applied};
use crate::mos6502::address_mode::MemoryAddressing;
use crate::mos6502::cpu::Mos6502;
use crate::mos6502::memory::MemoryAccess;
use crate::mos6502::opcode::OpCode;
use crate::mos6502::semantics::lda_sem;
use vstd::prelude::*;

verus! {

/// The instruction handlers gathered on one type.
pub struct InstructionSet {}

impl InstructionSet {
    /// BRK — Force Interrupt: signal the end of the program.
    pub fn brk() -> (result: InstructionResult)
        ensures
            result == InstructionResult::EndProgram,
    {
        InstructionResult::EndProgram
    }

    /// LDA — Load Accumulator from the resolved address, recomputing
    /// Zero/Negative from the loaded value and advancing the program
    /// counter past the operand bytes.
    pub fn lda(opcode: &OpCode, cpu: &mut Mos6502) -> (result: InstructionResult)
        requires
            old(cpu)@.wf(),
            opcode.bytes >= 1,
        ensures
            final(cpu)@ == lda_sem(old(cpu)@, opcode.bytes, opcode.address_mode).0,
            result == lda_sem(old(cpu)@, opcode.bytes, opcode.address_mode).1,
    {
        match cpu.get_address(&opcode.address_mode) {
            Some(address) => {
                cpu.registers.a = cpu.memory.read(address);
                cpu.status.set_flags_for_result(cpu.registers.a);

                cpu.program_counter = cpu.program_counter.wrapping_add(
                    opcode.bytes as u16 - 1,
                );

                InstructionResult::Continue
            },
            None => InstructionResult::InvalidAddressingMode,
        }
    }

    /// TAX — Transfer Accumulator to X, recomputing Zero/Negative from
    /// X's new value only.
    pub fn tax(cpu: &mut Mos6502) -> (result: InstructionResult)
        ensures
            final(cpu)@ == tax_applied(old(cpu)@),
            result == InstructionResult::Continue,
    {
        cpu.registers.x = cpu.registers.a;
        cpu.status.set_flags_for_result(cpu.registers.x);

        InstructionResult::Continue
    }

    /// INX — Increment X Register, wrapping 0xFF to 0x00, recomputing
    /// Zero/Negative from the result.
    pub fn inx(cpu: &mut Mos6502) -> (result: InstructionResult)
        ensures
            final(cpu)@ == inx_applied(old(cpu)@),
            result == InstructionResult::Continue,
    {
        if cpu.registers.x < 0xFF {
            cpu.registers.x = cpu.registers.x + 1;
        } else {
            cpu.registers.x = 0;
        }

        cpu.status.set_flags_for_result(cpu.registers.x);

        InstructionResult::Continue
    }
}

} // verus!
