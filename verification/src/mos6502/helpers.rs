//! The shared shape of the memory-operand accumulator instructions:
//! resolve the address, combine the accumulator with the operand,
//! recompute flags from the new accumulator value, and advance the
//! program counter past the operand bytes.

use crate::interpret_result::InstructionResult;
use crate::mos6502::address_mode::{resolve, AddressMode, MemoryAddressing};
use crate::mos6502::cpu::Mos6502;
use crate::mos6502::memory::MemoryAccess;
use crate::mos6502::opcode::{Instruction, OpCode};
use crate::mos6502::semantics::acc_applied;
use vstd::prelude::*;

verus! {

/// Helpers shared by the accumulator instructions.
pub struct Helpers {}

impl Helpers {
    /// The memory-operand ALU form: resolve the address, replace the
    /// accumulator with `operation(accumulator, operand)`, recompute
    /// Zero/Negative from the new value, and advance the program counter
    /// past the operand bytes.  A descriptor whose mode carries no address
    /// leaves the machine untouched and reports the configuration defect.
    pub fn accumulator_rule<F: Fn(u8, u8) -> u8>(
        opcode: &OpCode,
        cpu: &mut Mos6502,
        operation: F,
    ) -> (result: InstructionResult)
        requires
            old(cpu)@.wf(),
            opcode.bytes >= 1,
            forall|a: u8, operand: u8| #[trigger] call_requires(operation, (a, operand)),
        ensures
            match resolve(old(cpu)@, opcode.address_mode) {
                Some(addr) => exists|value: u8|
                    {
                        &&& #[trigger] call_ensures(
                            operation,
                            (old(cpu)@.a, old(cpu)@.mem[addr as int]),
                            value,
                        )
                        &&& final(cpu)@ == acc_applied(old(cpu)@, value, opcode.bytes)
                        &&& result == InstructionResult::Continue
                    },
                None => final(cpu)@ == old(cpu)@ && result
                    == InstructionResult::InvalidAddressingMode,
            },
    {
        match cpu.get_address(&opcode.address_mode) {
            Some(address) => {
                let operand = cpu.memory.read(address);
                let value = operation(cpu.registers.a, operand);

                cpu.registers.a = value;
                cpu.status.set_flags_for_result(cpu.registers.a);

                cpu.program_counter = cpu.program_counter.wrapping_add(
                    opcode.bytes as u16 - 1,
                );

                InstructionResult::Continue
            },
            None => InstructionResult::InvalidAddressingMode,
        }
    }

    /// A hand-built descriptor for driving a handler directly: keyed by an
    /// unassigned byte, with the given length and addressing mode.
    pub fn create_opcode(bytes: u8, address_mode: AddressMode) -> (r: OpCode)
        ensures
            r.opcode == 0xFF,
            r.bytes == bytes,
            r.cycles == 1,
            r.address_mode == address_mode,
            r.instruction == Instruction::Brk,
    {
        OpCode::new(0xFF, "TEST", bytes, 1, address_mode, Instruction::Brk)
    }
}

} // verus!
