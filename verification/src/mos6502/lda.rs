//! LDA — Load Accumulator.

use crate::interpret_result::InstructionResult;
use crate::mos6502::address_mode::MemoryAddressing;
use crate::mos6502::cpu::Mos6502;
use crate::mos6502::memory::MemoryAccess;
use crate::mos6502::opcode::OpCode;
use crate::mos6502::semantics::lda_sem;
use vstd::prelude::*;

verus! {

/// LDA — Load Accumulator.
pub struct Lda {}

impl Lda {
    /// Load the accumulator from the resolved address, recompute
    /// Zero/Negative from the loaded value, and advance the program
    /// counter past the operand bytes.  A descriptor whose mode carries no
    /// address leaves the machine untouched and reports the configuration
    /// defect.
    pub fn lda(opcode: &OpCode, cpu: &mut Mos6502) -> (result: InstructionResult)
        requires
            old(cpu)@.wf(),
            opcode.bytes >= 1,
        ensures
            final(cpu)@ == lda_sem(old(cpu)@, opcode.bytes, opcode.address_mode).0,
            result == lda_sem(old(cpu)@, opcode.bytes, opcode.address_mode).1,
    {
        match cpu.get_address(&opcode.address_mode) {
            Some(address) => {
                cpu.registers.a = cpu.memory.read(address);
                cpu.status.set_flags_for_result(cpu.registers.a);

                cpu.program_counter = cpu.program_counter.wrapping_add(
                    opcode.bytes as u16 - 1,
                );

                InstructionResult::Continue
            },
            None => InstructionResult::InvalidAddressingMode,
        }
    }
}

} // verus!
