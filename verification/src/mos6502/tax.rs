//! TAX — Transfer Accumulator to X.

use crate::interpret_result::InstructionResult;
use crate::machine::tax_applied;
use crate::mos6502::cpu::Mos6502;
use vstd::prelude::*;

verus! {

/// TAX — Transfer Accumulator to X.
pub struct Tax {}

impl Tax {
    /// Copy the accumulator into X and recompute Zero/Negative from X's
    /// new value only.  A 1-byte instruction: the program counter is not
    /// moved beyond the opcode byte already consumed by the loop.
    pub fn tax(cpu: &mut Mos6502) -> (result: InstructionResult)
        ensures
            final(cpu)@ == tax_applied(old(cpu)@),
            result == InstructionResult::Continue,
    {
        cpu.registers.x = cpu.registers.a;
        cpu.status.set_flags_for_result(cpu.registers.x);

        InstructionResult::Continue
    }
}

} // verus!
