//! AND — Logical AND of the accumulator with a memory operand.

use crate::interpret_result::InstructionResult;
use crate::mos6502::cpu::Mos6502;
use crate::mos6502::helpers::Helpers;
use crate::mos6502::opcode::OpCode;
use crate::mos6502::semantics::and_sem;
use vstd::prelude::*;

verus! {

/// The bitwise combination AND applies.
fn and_value(accumulator: u8, operand: u8) -> (r: u8)
    ensures
        r == accumulator & operand,
{
    accumulator & operand
}

/// AND — Logical AND.
pub struct And {}

impl And {
    /// Combine the accumulator with the operand at the resolved address by
    /// bitwise and, recompute Zero/Negative from the result, and advance
    /// the program counter past the operand bytes.
    pub fn and(opcode: &OpCode, cpu: &mut Mos6502) -> (result: InstructionResult)
        requires
            old(cpu)@.wf(),
            opcode.bytes >= 1,
        ensures
            final(cpu)@ == and_sem(old(cpu)@, opcode.bytes, opcode.address_mode).0,
            result == and_sem(old(cpu)@, opcode.bytes, opcode.address_mode).1,
    {
        Helpers::accumulator_rule(opcode, cpu, and_value)
    }
}

} // verus!
