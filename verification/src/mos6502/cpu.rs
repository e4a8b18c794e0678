//! The full machine instance: registers, status, program counter and
//! memory, with reset-vector handling and the verified execution loop.

use crate::interpret_result::{InstructionResult, ProgramResult};
use crate::machine::{
    all_zero_mem, initial_state, lemma_word_round_trip, slice_written, word_at, word_written,
    MachineState,
};
use crate::mos6502::address_mode::AddressMode;
use crate::mos6502::and::And;
use crate::mos6502::asl::Asl;
use crate::mos6502::brk::Brk;
use crate::mos6502::inx::Inx;
use crate::mos6502::lda::Lda;
use crate::mos6502::memory::{Memory, MemoryAccess, MEMORY_SIZE, PROGRAM_ROM_START};
use crate::mos6502::opcode::{lemma_table_wf, Instruction, OpCode};
use crate::mos6502::ora::Ora;
use crate::mos6502::semantics::{
    lemma_step_never_invalid_mode, run_ends, running_at, runs_to, step,
};
use crate::mos6502::tax::Tax;
use crate::status::Status;
use vstd::prelude::*;

verus! {

/// The three 8-bit data registers.
pub struct Registers {
    pub a: u8,
    pub x: u8,
    pub y: u8,
}

impl Default for Registers {
    /// All registers zero.
    fn default() -> (r: Self)
        ensures
            r.a == 0 && r.x == 0 && r.y == 0,
    {
        Registers { a: 0, x: 0, y: 0 }
    }
}

/// Address of the two-byte little-endian reset vector read by `reset`.
pub const RESET_VECTOR: u16 = 0xFFFC;

/// A full machine instance, created once per emulated machine and mutated
/// in place by every executed instruction.
pub struct Mos6502 {
    pub registers: Registers,
    pub status: Status,
    pub program_counter: u16,
    pub memory: Memory,
}

impl View for Mos6502 {
    type V = MachineState;

    open spec fn view(&self) -> MachineState {
        MachineState {
            a: self.registers.a,
            x: self.registers.x,
            y: self.registers.y,
            flags: self.status.flags,
            pc: self.program_counter,
            mem: self.memory@,
        }
    }
}

impl Default for Mos6502 {
    /// A freshly powered-on machine: everything zero.
    fn default() -> (r: Self)
        ensures
            r@ == initial_state(),
            r@.wf(),
    {
        Mos6502 {
            registers: Registers::default(),
            status: Status::default(),
            program_counter: 0,
            memory: Memory::default(),
        }
    }
}

impl Mos6502 {
    /// Zero the registers and status and reload the program counter from
    /// the two little-endian bytes at the reset vector; memory is kept.
    pub fn reset(&mut self)
        requires
            old(self)@.wf(),
        ensures
            final(self)@ == (MachineState {
                a: 0,
                x: 0,
                y: 0,
                flags: 0,
                pc: word_at(old(self)@.mem, RESET_VECTOR),
                mem: old(self)@.mem,
            }),
            final(self)@.wf(),
    {
        self.registers = Registers::default();
        self.status = Status::default();
        self.program_counter = self.memory.read_u16(RESET_VECTOR);
    }

    /// Copy `program` into memory at the fixed program origin and write
    /// that origin into the reset vector, so that `reset` resumes there.
    pub fn load_program(&mut self, program: &[u8])
        requires
            old(self)@.wf(),
            PROGRAM_ROM_START as int + program@.len() <= MEMORY_SIZE,
        ensures
            final(self)@ == (MachineState {
                mem: word_written(
                    slice_written(old(self)@.mem, PROGRAM_ROM_START, program@),
                    RESET_VECTOR,
                    PROGRAM_ROM_START,
                ),
                ..old(self)@
            }),
            final(self)@.wf(),
    {
        self.memory.write_slice(PROGRAM_ROM_START, program);
        self.memory.write_u16(RESET_VECTOR, PROGRAM_ROM_START);
    }

    /// A machine holding `program` at the fixed program origin, reset and
    /// ready to run: registers and flags zero, and the program counter at
    /// the program origin, read back from the reset vector.
    pub fn create_cpu_with_program(program: &[u8]) -> (cpu: Mos6502)
        requires
            PROGRAM_ROM_START as int + program@.len() <= MEMORY_SIZE,
        ensures
            cpu@ == (MachineState {
                a: 0,
                x: 0,
                y: 0,
                flags: 0,
                pc: PROGRAM_ROM_START,
                mem: word_written(
                    slice_written(all_zero_mem(), PROGRAM_ROM_START, program@),
                    RESET_VECTOR,
                    PROGRAM_ROM_START,
                ),
            }),
            cpu@.wf(),
    {
        let mut cpu = Mos6502::default();
        cpu.load_program(program);
        cpu.reset();
        proof {
            lemma_word_round_trip(
                slice_written(all_zero_mem(), PROGRAM_ROM_START, program@),
                RESET_VECTOR,
                PROGRAM_ROM_START,
            );
        }
        cpu
    }

    /// Fetch, decode, and execute instructions starting at the current
    /// program counter until a BRK ends the program or an unassigned
    /// opcode byte halts the run as a fatal, distinguishable condition.
    ///
    /// The result and the final machine state are exactly those of the
    /// specification-level step function iterated to its first halt.  The
    /// loop runs unbounded, with no step limit of its own; bounding
    /// pathological programs is the caller's responsibility, so the
    /// caller owes a machine that eventually halts.
    ///
    /// Because every dispatch goes through the fixed table, which never
    /// routes an addressless mode to the resolver, the run can never end
    /// in `InvalidAddressingMode`.
    #[verifier::loop_isolation(false)]
    pub fn run(&mut self) -> (result: ProgramResult)
        requires
            old(self)@.wf(),
            exists|n: nat| !running_at(old(self)@, n),
        ensures
            exists|n: nat| #[trigger] run_ends(old(self)@, n, final(self)@, result),
            result != ProgramResult::InvalidAddressingMode,
    {
        let ghost s0 = self@;
        let ghost fuel = choose|n: nat| !running_at(s0, n);
        let ghost mut k: nat = 0;
        loop
            invariant
                s0.wf(),
                self@.wf(),
                running_at(s0, k),
                self@ == runs_to(s0, k),
                !running_at(s0, fuel),
                k <= fuel,
            decreases fuel - k,
        {
            proof {
                assert(k < fuel);
            }
            let ghost cur = self@;
            let opcode_byte = self.memory.read(self.program_counter);
            self.program_counter = self.program_counter.wrapping_add(1);

            match OpCode::lookup(opcode_byte) {
                None => {
                    proof {
                        assert(step(cur) == (self@, InstructionResult::IllegalInstruction));
                        assert(run_ends(s0, k, self@, ProgramResult::IllegalInstruction));
                    }
                    return ProgramResult::IllegalInstruction;
                },
                Some(opcode) => {
                    proof {
                        lemma_table_wf(opcode_byte);
                    }
                    let ghost fetched = self@;
                    let instruction_result = match opcode.instruction {
                        Instruction::Brk => Brk::brk(),
                        Instruction::Lda => Lda::lda(&opcode, self),
                        Instruction::And => And::and(&opcode, self),
                        Instruction::Ora => Ora::ora(&opcode, self),
                        Instruction::Asl => match opcode.address_mode {
                            AddressMode::Accumulator => Asl::asl_accumulator(self),
                            _ => Asl::asl_memory(&opcode, self),
                        },
                        Instruction::Tax => Tax::tax(self),
                        Instruction::Inx => Inx::inx(self),
                    };
                    proof {
                        assert(step(cur) == (self@, instruction_result));
                    }
                    match instruction_result {
                        InstructionResult::Continue => {
                            proof {
                                k = k + 1;
                            }
                        },
                        InstructionResult::EndProgram => {
                            proof {
                                assert(run_ends(s0, k, self@, ProgramResult::Success));
                            }
                            return ProgramResult::Success;
                        },
                        InstructionResult::IllegalInstruction => {
                            proof {
                                assert(run_ends(s0, k, self@, ProgramResult::IllegalInstruction));
                            }
                            return ProgramResult::IllegalInstruction;
                        },
                        InstructionResult::InvalidAddressingMode => {
                            proof {
                                lemma_step_never_invalid_mode(cur);
                                assert(false);
                            }
                            return ProgramResult::InvalidAddressingMode;
                        },
                    }
                },
            }
        }
    }
}

} // verus!
