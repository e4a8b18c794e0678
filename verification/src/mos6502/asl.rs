//! ASL — Arithmetic Shift Left, on the accumulator or on a memory
//! operand.

use crate::interpret_result::InstructionResult;
use crate::machine::MachineState;
use crate::mos6502::address_mode::MemoryAddressing;
use crate::mos6502::cpu::Mos6502;
use crate::mos6502::memory::MemoryAccess;
use crate::mos6502::opcode::OpCode;
use crate::mos6502::semantics::{asl_acc_sem, asl_flags, asl_mem_sem};
use vstd::prelude::*;

verus! {

/// Mask of the most significant bit: the bit shifted out by ASL.
const MSB_MASK: u8 = 0b1000_0000;

/// ASL — Arithmetic Shift Left.
pub struct Asl {}

impl Asl {
    /// Shift `value` left by one bit; the carry flag is driven from the
    /// bit shifted out, then Zero/Negative are recomputed from the result.
    fn shift_and_set_flags(cpu: &mut Mos6502, value: u8) -> (shifted: u8)
        ensures
            shifted == value << 1,
            final(cpu)@ == (MachineState { flags: asl_flags(old(cpu)@.flags, value), ..old(cpu)@ }),
    {
        let shifted_result = value << 1;

        cpu.status.set_carry_flag(value & MSB_MASK != 0);
        cpu.status.set_flags_for_result(shifted_result);

        shifted_result
    }

    /// ASL on the accumulator: shift in place; the program counter is not
    /// moved beyond the opcode byte already consumed by the loop.
    pub fn asl_accumulator(cpu: &mut Mos6502) -> (result: InstructionResult)
        ensures
            final(cpu)@ == asl_acc_sem(old(cpu)@).0,
            result == asl_acc_sem(old(cpu)@).1,
    {
        let value = cpu.registers.a;
        cpu.registers.a = Asl::shift_and_set_flags(cpu, value);

        InstructionResult::Continue
    }

    /// ASL on a memory operand: shift the byte at the resolved address in
    /// place and advance the program counter past the operand bytes.
    pub fn asl_memory(opcode: &OpCode, cpu: &mut Mos6502) -> (result: InstructionResult)
        requires
            old(cpu)@.wf(),
            opcode.bytes >= 1,
        ensures
            final(cpu)@ == asl_mem_sem(old(cpu)@, opcode.bytes, opcode.address_mode).0,
            result == asl_mem_sem(old(cpu)@, opcode.bytes, opcode.address_mode).1,
    {
        match cpu.get_address(&opcode.address_mode) {
            Some(address) => {
                let address_value = cpu.memory.read(address);

                let shifted_result = Asl::shift_and_set_flags(cpu, address_value);

                cpu.memory.write(address, shifted_result);

                cpu.program_counter = cpu.program_counter.wrapping_add(
                    opcode.bytes as u16 - 1,
                );

                InstructionResult::Continue
            },
            None => InstructionResult::InvalidAddressingMode,
        }
    }
}

} // verus!
