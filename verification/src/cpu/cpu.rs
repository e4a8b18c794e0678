//! The minimal machine: registers, status, program counter and memory,
//! driven by a verified fetch-decode-execute loop over four instructions.

use crate::cpu::instruction_set::InstructionSet6502;
use crate::cpu::memory::{Memory, MemoryAccess, PROGRAM_ROM_START};
use crate::cpu::opcode::{spec_decode, OpCode};
use crate::interpret_result::InstructionResult;
use crate::machine::{
    initial_state, inx_applied, lda_applied, slice_written, tax_applied, wrap_add16,
    MachineState, MEMORY_SIZE,
};
use crate::status::Status;
use vstd::prelude::*;

verus! {

/// The three 8-bit data registers.
pub struct Registers {
    pub a: u8,
    pub x: u8,
    pub y: u8,
}

impl Default for Registers {
    /// All registers zero.
    fn default() -> (r: Self)
        ensures
            r.a == 0 && r.x == 0 && r.y == 0,
    {
        Registers { a: 0, x: 0, y: 0 }
    }
}

/// The minimal machine instance: mutated in place by every executed
/// instruction.
pub struct CPU {
    pub registers: Registers,
    pub status: Status,
    pub program_counter: u16,
    pub memory: Memory,
}

impl View for CPU {
    type V = MachineState;

    open spec fn view(&self) -> MachineState {
        MachineState {
            a: self.registers.a,
            x: self.registers.x,
            y: self.registers.y,
            flags: self.status.flags,
            pc: self.program_counter,
            mem: self.memory@,
        }
    }
}

/// The terminal outcome of a run of the minimal machine's loop.
///
/// `OK` is a successful halt through BRK; `IllegalInstruction` surfaces an
/// unassigned opcode byte.  `EmptyProgram` is reserved for callers that
/// want to name a load with nothing to execute; the loop itself always
/// fetches at least one byte, so it never reports it.
#[derive(Clone, Copy, Debug, PartialEq, Eq, Structural)]
pub enum InterpretResult {
    OK,
    EmptyProgram,
    IllegalInstruction,
}

/// One fetch-decode-execute step of the minimal machine: read the byte at
/// the program counter, advance past it, and either halt (BRK or an
/// unassigned byte) or apply the decoded instruction.
pub open spec fn step(s: MachineState) -> (MachineState, InstructionResult) {
    let byte = s.mem[s.pc as int];
    let s1 = MachineState { pc: wrap_add16(s.pc, 1), ..s };
    match spec_decode(byte) {
        None => (s1, InstructionResult::IllegalInstruction),
        Some(op) => match op {
            OpCode::Break => (s1, InstructionResult::EndProgram),
            OpCode::LoadAccumulator => {
                let param = s1.mem[s1.pc as int];
                let s2 = MachineState { pc: wrap_add16(s1.pc, 1), ..s1 };
                (lda_applied(s2, param), InstructionResult::Continue)
            },
            OpCode::TransferAccumulatorToX => (tax_applied(s1), InstructionResult::Continue),
            OpCode::IncrementX => (inx_applied(s1), InstructionResult::Continue),
        },
    }
}

/// The machine state after `n` steps, each of which kept the loop running.
pub open spec fn runs_to(s0: MachineState, n: nat) -> MachineState
    decreases n,
{
    if n == 0 {
        s0
    } else {
        step(runs_to(s0, (n - 1) as nat)).0
    }
}

/// Whether the first `n` steps from `s0` all keep the loop running.
pub open spec fn running_at(s0: MachineState, n: nat) -> bool
    decreases n,
{
    n == 0 || (running_at(s0, (n - 1) as nat) && step(runs_to(s0, (n - 1) as nat)).1
        == InstructionResult::Continue)
}

/// After `n` running steps from `s0` the next step halts the loop, leaving
/// the machine in state `s` with terminal outcome `result`: `OK` when a BRK
/// ended the program, `IllegalInstruction` when an unassigned opcode byte
/// was fetched.
pub open spec fn run_ends(s0: MachineState, n: nat, s: MachineState, result: InterpretResult) -> bool {
    &&& running_at(s0, n)
    &&& step(runs_to(s0, n)).1 != InstructionResult::Continue
    &&& s == step(runs_to(s0, n)).0
    &&& result == (if step(runs_to(s0, n)).1 == InstructionResult::EndProgram {
        InterpretResult::OK
    } else {
        InterpretResult::IllegalInstruction
    })
}

impl InstructionSet6502 for CPU {
    open spec fn isa_state(&self) -> MachineState {
        self@
    }

    fn lda(&mut self, param: u8) {
        self.registers.a = param;
        self.status.set_flags_for_result(self.registers.a);
    }

    fn tax(&mut self) {
        self.registers.x = self.registers.a;
        self.status.set_flags_for_result(self.registers.x);
    }

    fn inx(&mut self) {
        if self.registers.x < 0xFF {
            self.registers.x = self.registers.x + 1;
        } else {
            self.registers.x = 0;
        }

        self.status.set_flags_for_result(self.registers.x);
    }
}

impl Default for CPU {
    /// A freshly powered-on machine: everything zero.
    fn default() -> (r: Self)
        ensures
            r@ == initial_state(),
            r@.wf(),
    {
        CPU {
            registers: Registers::default(),
            status: Status::default(),
            program_counter: 0,
            memory: Memory::default(),
        }
    }
}

impl CPU {
    /// A freshly powered-on machine: everything zero.
    pub fn new() -> (r: Self)
        ensures
            r@ == initial_state(),
            r@.wf(),
    {
        CPU::default()
    }

    /// Copy `program` into memory at the fixed program origin and point the
    /// program counter there.
    pub fn load_program(&mut self, program: &[u8])
        requires
            old(self)@.wf(),
            PROGRAM_ROM_START as int + program@.len() <= MEMORY_SIZE,
        ensures
            final(self)@ == (MachineState {
                pc: PROGRAM_ROM_START,
                mem: slice_written(old(self)@.mem, PROGRAM_ROM_START, program@),
                ..old(self)@
            }),
            final(self)@.wf(),
    {
        self.memory.write_slice(PROGRAM_ROM_START, program);
        self.program_counter = PROGRAM_ROM_START;
    }

    /// Fetch, decode, and execute instructions starting at the current
    /// program counter until a BRK ends the program or an unassigned opcode
    /// byte halts the run as a fatal, distinguishable condition.
    ///
    /// The result and the final machine state are exactly those of the
    /// specification-level step function iterated to its first halt.  The
    /// loop runs unbounded; the caller owes a machine that eventually
    /// halts, since the loop itself has no step limit.
    #[verifier::loop_isolation(false)]
    pub fn run(&mut self) -> (result: InterpretResult)
        requires
            old(self)@.wf(),
            exists|n: nat| !running_at(old(self)@, n),
        ensures
            exists|n: nat| #[trigger] run_ends(old(self)@, n, final(self)@, result),
    {
        let ghost s0 = self@;
        let ghost fuel = choose|n: nat| !running_at(s0, n);
        let ghost mut k: nat = 0;
        loop
            invariant
                s0.wf(),
                self@.wf(),
                running_at(s0, k),
                self@ == runs_to(s0, k),
                !running_at(s0, fuel),
                k <= fuel,
            decreases fuel - k,
        {
            proof {
                assert(k < fuel);
            }
            let ghost cur = self@;
            let opcode_byte = self.memory.read(self.program_counter);
            self.program_counter = self.program_counter.wrapping_add(1);

            match OpCode::decode(opcode_byte) {
                None => {
                    proof {
                        assert(step(cur) == (self@, InstructionResult::IllegalInstruction));
                        assert(run_ends(s0, k, self@, InterpretResult::IllegalInstruction));
                    }
                    return InterpretResult::IllegalInstruction;
                },
                Some(opcode) => match opcode {
                    OpCode::Break => {
                        proof {
                            assert(step(cur) == (self@, InstructionResult::EndProgram));
                            assert(run_ends(s0, k, self@, InterpretResult::OK));
                        }
                        return InterpretResult::OK;
                    },
                    OpCode::LoadAccumulator => {
                        let param = self.memory.read(self.program_counter);
                        self.program_counter = self.program_counter.wrapping_add(1);
                        self.lda(param);
                        proof {
                            assert(step(cur).0 == self@ && step(cur).1
                                == InstructionResult::Continue);
                        }
                    },
                    OpCode::TransferAccumulatorToX => {
                        self.tax();
                        proof {
                            assert(step(cur).0 == self@ && step(cur).1
                                == InstructionResult::Continue);
                        }
                    },
                    OpCode::IncrementX => {
                        self.inx();
                        proof {
                            assert(step(cur).0 == self@ && step(cur).1
                                == InstructionResult::Continue);
                        }
                    },
                },
            }
            proof {
                k = k + 1;
            }
        }
    }
}

} // verus!
