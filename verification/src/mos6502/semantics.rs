//! The specification-level state machine of the full interpreter: the
//! transition of each instruction, the fetch-decode-execute step, and the
//! run predicates that the execution loop is proved against.

use crate::interpret_result::{InstructionResult, ProgramResult};
use crate::machine::{inx_applied, tax_applied, wrap_add16, MachineState};
use crate::mos6502::address_mode::{resolve, AddressMode};
use crate::mos6502::opcode::{spec_table, Instruction};
use crate::status::{
    flag_set, flags_for_result, flags_with_carry, lemma_flags_for_result, CARRY, ZERO,
};
use vstd::prelude::*;

verus! {

/// How far a handler advances the program counter past its operand bytes:
/// the whole instruction is `bytes` long and the loop has already consumed
/// the opcode byte.
pub open spec fn operand_advance(bytes: u8) -> u16 {
    if bytes >= 1 {
        (bytes - 1) as u16
    } else {
        0
    }
}

/// The state after a memory-operand instruction leaves `value` in the
/// accumulator: Zero/Negative recomputed from `value`, program counter
/// advanced past the operand bytes.
pub open spec fn acc_applied(s: MachineState, value: u8, bytes: u8) -> MachineState {
    MachineState {
        a: value,
        flags: flags_for_result(s.flags, value),
        pc: wrap_add16(s.pc, operand_advance(bytes)),
        ..s
    }
}

/// LDA: load the accumulator from the resolved address.
pub open spec fn lda_sem(s: MachineState, bytes: u8, mode: AddressMode) -> (
    MachineState,
    InstructionResult,
) {
    match resolve(s, mode) {
        Some(addr) => (acc_applied(s, s.mem[addr as int], bytes), InstructionResult::Continue),
        None => (s, InstructionResult::InvalidAddressingMode),
    }
}

/// AND: combine the accumulator with the operand by bitwise and.
pub open spec fn and_sem(s: MachineState, bytes: u8, mode: AddressMode) -> (
    MachineState,
    InstructionResult,
) {
    match resolve(s, mode) {
        Some(addr) => (
            acc_applied(s, s.a & s.mem[addr as int], bytes),
            InstructionResult::Continue,
        ),
        None => (s, InstructionResult::InvalidAddressingMode),
    }
}

/// ORA: combine the accumulator with the operand by bitwise inclusive or.
pub open spec fn ora_sem(s: MachineState, bytes: u8, mode: AddressMode) -> (
    MachineState,
    InstructionResult,
) {
    match resolve(s, mode) {
        Some(addr) => (
            acc_applied(s, s.a | s.mem[addr as int], bytes),
            InstructionResult::Continue,
        ),
        None => (s, InstructionResult::InvalidAddressingMode),
    }
}

/// The flags after an arithmetic shift left of `value`: the carry flag is
/// driven by the bit shifted out (bit 7 of the input), then Zero/Negative
/// are recomputed from the shifted result.
pub open spec fn asl_flags(flags: u8, value: u8) -> u8 {
    flags_for_result(flags_with_carry(flags, value & 0x80 != 0), value << 1)
}

/// An arithmetic shift left doubles the value modulo 256, drives the
/// carry flag from the bit shifted out — bit 7 of the input, never
/// inferred from the result — and sets the Zero flag exactly when the
/// shifted result is zero, which happens for the inputs 0x00 and 0x80.
pub proof fn lemma_asl_shifts_and_sets_carry(flags: u8, value: u8)
    ensures
        value << 1 == (2 * value) % 0x100,
        flag_set(asl_flags(flags, value), CARRY) <==> value & 0x80 != 0,
        flag_set(asl_flags(flags, value), ZERO) <==> (value == 0 || value == 0x80),
{
    let with_carry = flags_with_carry(flags, value & 0x80 != 0);
    let after = asl_flags(flags, value);
    lemma_flags_for_result(with_carry, value << 1);
    assert(((value << 1) as u16) == ((value as u16) * 2) % 0x100) by (bit_vector);
    assert(value << 1 == 0 <==> (value == 0 || value == 0x80)) by (bit_vector);
    assert(flag_set(with_carry, CARRY) <==> value & 0x80 != 0) by {
        if value & 0x80 != 0 {
            assert((flags | 0x01u8) & 0x01u8 == 0x01u8) by (bit_vector);
        } else {
            assert((flags & !0x01u8) & 0x01u8 != 0x01u8) by (bit_vector);
        }
    }
    assert(after & 0x01 == with_carry & 0x01) by (bit_vector)
        requires
            after & !(0x02u8 | 0x80u8) == with_carry & !(0x02u8 | 0x80u8),
    ;
    assert(flag_set(after, CARRY) <==> flag_set(with_carry, CARRY));
}

/// ASL on the accumulator: shift in place; the 1-byte opcode has already
/// been consumed by the loop, so the program counter does not move.
pub open spec fn asl_acc_sem(s: MachineState) -> (MachineState, InstructionResult) {
    (
        MachineState { a: s.a << 1, flags: asl_flags(s.flags, s.a), ..s },
        InstructionResult::Continue,
    )
}

/// ASL on a memory operand: shift the byte at the resolved address in
/// place and advance the program counter past the operand bytes.
pub open spec fn asl_mem_sem(s: MachineState, bytes: u8, mode: AddressMode) -> (
    MachineState,
    InstructionResult,
) {
    match resolve(s, mode) {
        Some(addr) => {
            let value = s.mem[addr as int];
            (
                MachineState {
                    flags: asl_flags(s.flags, value),
                    mem: s.mem.update(addr as int, value << 1),
                    pc: wrap_add16(s.pc, operand_advance(bytes)),
                    ..s
                },
                InstructionResult::Continue,
            )
        },
        None => (s, InstructionResult::InvalidAddressingMode),
    }
}

/// The branch instruction: when its condition (the carry flag) holds, the
/// offset byte at the program counter is added to the program counter,
/// wrapping at 16 bits; otherwise the program counter stays exactly where
/// the loop positioned it.
pub open spec fn bcc_sem(s: MachineState) -> (MachineState, InstructionResult) {
    if flag_set(s.flags, CARRY) {
        (
            MachineState { pc: wrap_add16(s.pc, s.mem[s.pc as int] as u16), ..s },
            InstructionResult::Continue,
        )
    } else {
        (s, InstructionResult::Continue)
    }
}

/// The transition of a table-dispatched instruction, given the state after
/// the loop consumed the opcode byte and the descriptor's length and mode.
pub open spec fn instr_sem(
    instruction: Instruction,
    bytes: u8,
    mode: AddressMode,
    s: MachineState,
) -> (MachineState, InstructionResult) {
    match instruction {
        Instruction::Brk => (s, InstructionResult::EndProgram),
        Instruction::Lda => lda_sem(s, bytes, mode),
        Instruction::And => and_sem(s, bytes, mode),
        Instruction::Ora => ora_sem(s, bytes, mode),
        Instruction::Asl => match mode {
            AddressMode::Accumulator => asl_acc_sem(s),
            _ => asl_mem_sem(s, bytes, mode),
        },
        Instruction::Tax => (tax_applied(s), InstructionResult::Continue),
        Instruction::Inx => (inx_applied(s), InstructionResult::Continue),
    }
}

/// One fetch-decode-execute step: read the byte at the program counter,
/// advance past it, and either halt on an unassigned byte or apply the
/// dispatched instruction's transition.
pub open spec fn step(s: MachineState) -> (MachineState, InstructionResult) {
    let byte = s.mem[s.pc as int];
    let s1 = MachineState { pc: wrap_add16(s.pc, 1), ..s };
    match spec_table(byte) {
        None => (s1, InstructionResult::IllegalInstruction),
        Some(d) => instr_sem(d.0, d.1, d.3, s1),
    }
}

/// The machine state after `n` steps, each of which kept the loop running.
pub open spec fn runs_to(s0: MachineState, n: nat) -> MachineState
    decreases n,
{
    if n == 0 {
        s0
    } else {
        step(runs_to(s0, (n - 1) as nat)).0
    }
}

/// Whether the first `n` steps from `s0` all keep the loop running.
pub open spec fn running_at(s0: MachineState, n: nat) -> bool
    decreases n,
{
    n == 0 || (running_at(s0, (n - 1) as nat) && step(runs_to(s0, (n - 1) as nat)).1
        == InstructionResult::Continue)
}

/// Composing two in-range wrapping advances is one wrapping advance by
/// the sum.
pub proof fn lemma_wrap_add16_chain(x: u16, y: u16, z: u16)
    requires
        y + z <= 0xFFFF,
    ensures
        wrap_add16(wrap_add16(x, y), z) == wrap_add16(x, (y + z) as u16),
{
}

/// The program-counter discipline: when a step keeps the loop running,
/// the program counter has advanced by exactly the dispatched
/// instruction's total length — opcode byte plus operands, never more,
/// never less — wrapping at 16 bits.  (No branch stands in the table, and
/// BRK halts the loop, so no table-dispatched instruction redirects
/// control flow.)
pub proof fn lemma_pc_advances_by_instruction_length(s: MachineState)
    ensures
        step(s).1 == InstructionResult::Continue ==> (spec_table(s.mem[s.pc as int]) matches Some(
            d,
        ) && step(s).0.pc == wrap_add16(s.pc, d.1 as u16)),
{
    if step(s).1 == InstructionResult::Continue {
        let d = spec_table(s.mem[s.pc as int]).unwrap();
        lemma_wrap_add16_chain(s.pc, 1, operand_advance(d.1));
    }
}

/// An unassigned opcode byte halts the step as a fatal, distinguishable
/// condition; the machine state does not run past it — only the program
/// counter has moved beyond the offending byte.
pub proof fn lemma_illegal_opcode_halts(s: MachineState)
    requires
        spec_table(s.mem[s.pc as int]) is None,
    ensures
        step(s).1 == InstructionResult::IllegalInstruction,
        step(s).0 == (MachineState { pc: wrap_add16(s.pc, 1), ..s }),
{
}

/// A correctly built dispatch table never routes `Accumulator`, `Implied`,
/// or `Unresolved` through the resolver, so no step of the loop can report
/// `InvalidAddressingMode`: that condition is reachable only by handing a
/// hand-built descriptor straight to a handler.
pub proof fn lemma_step_never_invalid_mode(s: MachineState)
    ensures
        step(s).1 != InstructionResult::InvalidAddressingMode,
{
    crate::mos6502::opcode::lemma_table_wf(s.mem[s.pc as int]);
}

/// The terminal outcome reported for the instruction result that halted
/// the loop.
pub open spec fn program_result_of(halt: InstructionResult) -> ProgramResult {
    match halt {
        InstructionResult::EndProgram => ProgramResult::Success,
        InstructionResult::InvalidAddressingMode => ProgramResult::InvalidAddressingMode,
        _ => ProgramResult::IllegalInstruction,
    }
}

/// After `n` running steps from `s0` the next step halts the loop, leaving
/// the machine in state `s` with terminal outcome `result`.
pub open spec fn run_ends(s0: MachineState, n: nat, s: MachineState, result: ProgramResult) -> bool {
    &&& running_at(s0, n)
    &&& step(runs_to(s0, n)).1 != InstructionResult::Continue
    &&& s == step(runs_to(s0, n)).0
    &&& result == program_result_of(step(runs_to(s0, n)).1)
}

} // verus!
