//! Laws of the instruction set, proved over the machine model.
use vstd::prelude::*;

use crate::decode::{decode_spec, CpuError, Instruction};
use crate::machine::{
    execute_spec, opcode_at, run_spec, step_spec, CpuState, Flow, RunStatus, FLAG_REGISTER,
    MEMORY_SIZE, REGISTER_COUNT, STACK_SIZE,
};

verus! {

/// A model state that some machine has: memory, registers and stack at their
/// sizes, and the stack pointer within the stack.
pub open spec fn valid_state(s: CpuState) -> bool {
    &&& s.memory.len() == MEMORY_SIZE
    &&& s.registers.len() == REGISTER_COUNT
    &&& s.stack.len() == STACK_SIZE
    &&& 0 <= s.stack_pointer <= STACK_SIZE
    &&& 0 <= s.program_counter
}

/// Adding register `y` into register `x` sets the flag register to 1 exactly
/// when the sum of the two exceeds 255, and to 0 otherwise; unless `x` is the
/// flag register itself, `x` then holds the sum modulo 256.
pub proof fn lemma_add_reg_flag(s: CpuState, x: u8, y: u8)
    requires
        valid_state(s),
        x < 16,
        y < 16,
    ensures
        ({
            let (t, r) = execute_spec(s, Instruction::AddReg(x, y));
            let sum = s.registers[x as int] + s.registers[y as int];
            &&& r == Ok::<Flow, CpuError>(Flow::Continue)
            &&& (t.registers[FLAG_REGISTER as int] == 1) == (sum > 255)
            &&& (t.registers[FLAG_REGISTER as int] == 0) == (sum <= 255)
            &&& x != FLAG_REGISTER ==> t.registers[x as int] == sum % 256
        }),
{
}

/// After loading an immediate into a register, reading that register gives
/// the immediate.
pub proof fn lemma_load_then_read(s: CpuState, x: u8, kk: u8)
    requires
        valid_state(s),
        x < 16,
    ensures
        execute_spec(s, Instruction::LoadImm(x, kk)).0.registers[x as int] == kk,
{
}

/// A call followed by a return, with the stack as the call left it, comes
/// back to the address right after the call with the stack pointer it had
/// before the call.
pub proof fn lemma_call_then_return(s: CpuState, addr: u16, t: CpuState)
    requires
        valid_state(s),
        s.program_counter <= 0xFFFF,
        s.stack_pointer < STACK_SIZE,
        t.stack == execute_spec(s, Instruction::Call(addr)).0.stack,
        t.stack_pointer == execute_spec(s, Instruction::Call(addr)).0.stack_pointer,
    ensures
        execute_spec(s, Instruction::Call(addr)).1 is Ok,
        ({
            let (u, r) = execute_spec(t, Instruction::Return);
            &&& r is Ok
            &&& u.program_counter == s.program_counter
            &&& u.stack_pointer == s.stack_pointer
        }),
{
}

/// Skip-if-equal with an immediate skips the next instruction exactly when
/// the register equals the immediate, and otherwise changes nothing.
pub proof fn lemma_skip_eq_imm(s: CpuState, x: u8, kk: u8)
    requires
        valid_state(s),
        x < 16,
    ensures
        ({
            let (t, r) = execute_spec(s, Instruction::SkipEqImm(x, kk));
            &&& r is Ok
            &&& s.registers[x as int] == kk ==> t == s.with_pc(s.program_counter + 2)
            &&& s.registers[x as int] != kk ==> t == s
        }),
{
}

/// Fetching the opcode `0000` stops the run; the only change to the machine is
/// the program counter moving past it.
pub proof fn lemma_halt(s: CpuState, fuel: nat)
    requires
        valid_state(s),
        s.program_counter + 1 < MEMORY_SIZE,
        opcode_at(s.memory, s.program_counter) == 0,
        fuel > 0,
    ensures
        step_spec(s) == (s.with_pc(s.program_counter + 2), Ok::<
            Flow,
            CpuError,
        >(Flow::Halt)),
        run_spec(s, fuel) == (s.with_pc(s.program_counter + 2), Ok::<
            RunStatus,
            CpuError,
        >(RunStatus::Halted)),
{
    assert(decode_spec(0u16) == Some(Instruction::Halt));
}

} // verus!
