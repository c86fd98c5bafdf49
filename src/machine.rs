//! Machine state, instruction semantics and the fetch-decode-execute loop.
use vstd::prelude::*;

use crate::decode::{decode, decode_spec, operands_in_range, CpuError, Instruction};

verus! {

/// Size of memory in bytes.
pub const MEMORY_SIZE: usize = 0x1000;

/// Number of general-purpose registers.
pub const REGISTER_COUNT: usize = 16;

/// Number of return-address slots on the call stack.
pub const STACK_SIZE: usize = 16;

/// Index of the flag register.
pub const FLAG_REGISTER: usize = 0xF;

/// What the machine does after an instruction.
#[derive(Clone, Copy, Debug, PartialEq, Eq, Structural)]
pub enum Flow {
    /// Fetch the next instruction.
    Continue,
    /// A halt instruction was executed.
    Halt,
}

/// How a bounded run ended without a fault.
#[derive(Clone, Copy, Debug, PartialEq, Eq, Structural)]
pub enum RunStatus {
    /// A halt instruction was executed.
    Halted,
    /// The step budget ran out first; running again resumes the program.
    Paused,
}

/// The mathematical model of a machine.
pub struct CpuState {
    pub memory: Seq<u8>,
    pub program_counter: int,
    pub registers: Seq<u8>,
    pub stack: Seq<u16>,
    pub stack_pointer: int,
}

impl CpuState {
    /// `Vx = v`.
    pub open spec fn with_register(self, x: int, v: u8) -> CpuState {
        CpuState { registers: self.registers.update(x, v), ..self }
    }

    /// The program counter set to `pc`.
    pub open spec fn with_pc(self, pc: int) -> CpuState {
        CpuState { program_counter: pc, ..self }
    }

    /// Skips the next instruction when `cond` holds.
    pub open spec fn skip_if(self, cond: bool) -> CpuState {
        if cond {
            self.with_pc(self.program_counter + 2)
        } else {
            self
        }
    }

    /// Pushes the program counter and jumps to `addr`.
    pub open spec fn pushed(self, addr: int) -> CpuState {
        CpuState {
            stack: self.stack.update(self.stack_pointer, self.program_counter as u16),
            stack_pointer: self.stack_pointer + 1,
            program_counter: addr,
            ..self
        }
    }

    /// Pops the top return address into the program counter.
    pub open spec fn popped(self) -> CpuState {
        CpuState {
            stack_pointer: self.stack_pointer - 1,
            program_counter: self.stack[self.stack_pointer - 1] as int,
            ..self
        }
    }

    /// `Vx = Vx + Vy` modulo 256, then `VF` = 1 when the sum exceeds 255, else 0.
    pub open spec fn add_regs(self, x: int, y: int) -> CpuState {
        let sum = self.registers[x] + self.registers[y];
        self.with_register(x, (sum % 256) as u8).with_register(
            FLAG_REGISTER as int,
            if sum > 255 {
                1u8
            } else {
                0u8
            },
        )
    }
}

/// The effect of one decoded instruction, with the program counter already
/// past it: the new state and what comes next.
pub open spec fn execute_spec(s: CpuState, i: Instruction) -> (CpuState, Result<Flow, CpuError>) {
    let r = s.registers;
    match i {
        Instruction::Halt => (s, Ok(Flow::Halt)),
        Instruction::Clear => (s, Ok(Flow::Continue)),
        Instruction::Return => if s.stack_pointer == 0 {
            (s, Err(CpuError::StackUnderflow))
        } else {
            (s.popped(), Ok(Flow::Continue))
        },
        Instruction::Jump(a) => (s.with_pc(a as int), Ok(Flow::Continue)),
        Instruction::Call(a) => if s.stack_pointer >= STACK_SIZE {
            (s, Err(CpuError::StackOverflow))
        } else {
            (s.pushed(a as int), Ok(Flow::Continue))
        },
        Instruction::SkipEqImm(x, kk) => (s.skip_if(r[x as int] == kk), Ok(Flow::Continue)),
        Instruction::SkipNeqImm(x, kk) => (s.skip_if(r[x as int] != kk), Ok(Flow::Continue)),
        Instruction::SkipEqReg(x, y) => (
            s.skip_if(r[x as int] == r[y as int]),
            Ok(Flow::Continue),
        ),
        Instruction::LoadImm(x, kk) => (s.with_register(x as int, kk), Ok(Flow::Continue)),
        Instruction::AddImm(x, kk) => (
            s.with_register(x as int, ((r[x as int] + kk) % 256) as u8),
            Ok(Flow::Continue),
        ),
        Instruction::LoadReg(x, y) => (s.with_register(x as int, r[y as int]), Ok(Flow::Continue)),
        Instruction::Or(x, y) => (
            s.with_register(x as int, r[x as int] | r[y as int]),
            Ok(Flow::Continue),
        ),
        Instruction::And(x, y) => (
            s.with_register(x as int, r[x as int] & r[y as int]),
            Ok(Flow::Continue),
        ),
        Instruction::Xor(x, y) => (
            s.with_register(x as int, r[x as int] ^ r[y as int]),
            Ok(Flow::Continue),
        ),
        Instruction::AddReg(x, y) => (s.add_regs(x as int, y as int), Ok(Flow::Continue)),
    }
}

/// The big-endian opcode stored at `pc` and `pc + 1`.
pub open spec fn opcode_at(memory: Seq<u8>, pc: int) -> u16 {
    (memory[pc] as int * 256 + memory[pc + 1] as int) as u16
}

/// The program counter names a whole instruction inside memory.
pub open spec fn fetchable(s: CpuState) -> bool {
    0 <= s.program_counter && s.program_counter + 1 < MEMORY_SIZE
}

/// One fetch-decode-execute step: the new state and what comes next.
pub open spec fn step_spec(s: CpuState) -> (CpuState, Result<Flow, CpuError>) {
    if !fetchable(s) {
        (s, Err(CpuError::AddressOutOfBounds(s.program_counter as usize)))
    } else {
        let op = opcode_at(s.memory, s.program_counter);
        let next = s.with_pc(s.program_counter + 2);
        match decode_spec(op) {
            Some(i) => execute_spec(next, i),
            None => (next, Err(CpuError::UnsupportedOpcode(op))),
        }
    }
}

/// At most `fuel` steps from `s`: the state where they stop, and why.
pub open spec fn run_spec(s: CpuState, fuel: nat) -> (CpuState, Result<RunStatus, CpuError>)
    decreases fuel,
{
    if fuel == 0 {
        (s, Ok(RunStatus::Paused))
    } else {
        let (next, r) = step_spec(s);
        match r {
            Err(e) => (next, Err(e)),
            Ok(Flow::Halt) => (next, Ok(RunStatus::Halted)),
            Ok(Flow::Continue) => run_spec(next, (fuel - 1) as nat),
        }
    }
}

/// Packing two bytes big-endian is the opcode of `opcode_at`.
proof fn lemma_pack(b1: u8, b2: u8)
    ensures
        (((b1 as u16) << 8u16) | b2 as u16) as int == b1 as int * 256 + b2 as int,
{
    assert((((b1 as u16) << 8u16) | b2 as u16) == b1 as u16 * 256 + b2 as u16) by (bit_vector);
}

/// The machine: memory, registers, program counter and call stack.
pub struct CPU {
    pub memory: [u8; 0x1000],
    pub program_counter: usize,
    pub registers: [u8; 16],
    pub stack: [u16; 16],
    pub stack_pointer: usize,
}

impl View for CPU {
    type V = CpuState;

    open spec fn view(&self) -> CpuState {
        CpuState {
            memory: self.memory@,
            program_counter: self.program_counter as int,
            registers: self.registers@,
            stack: self.stack@,
            stack_pointer: self.stack_pointer as int,
        }
    }
}

impl CPU {
    /// The stack pointer is within the stack's capacity.
    pub open spec fn wf(&self) -> bool {
        self.stack_pointer <= STACK_SIZE
    }

    /// A machine with zeroed memory, registers and stack, ready to run from address 0.
    pub fn new() -> (r: CPU)
        ensures
            r.wf(),
            r@.program_counter == 0,
            r@.stack_pointer == 0,
            forall|i: int| 0 <= i < MEMORY_SIZE ==> r@.memory[i] == 0,
            forall|i: int| 0 <= i < REGISTER_COUNT ==> r@.registers[i] == 0,
            forall|i: int| 0 <= i < STACK_SIZE ==> r@.stack[i] == 0,
    {
        CPU {
            memory: [0u8; 0x1000],
            program_counter: 0,
            registers: [0u8; 16],
            stack: [0u16; 16],
            stack_pointer: 0,
        }
    }

    /// Runs at most `max_steps` fetch-decode-execute steps, stopping early at a
    /// halt instruction or a fault.
    pub fn run(&mut self, max_steps: u64) -> (r: Result<RunStatus, CpuError>)
        requires
            old(self).wf(),
        ensures
            final(self).wf(),
            (final(self)@, r) == run_spec(old(self)@, max_steps as nat),
    {
        let ghost start = self@;
        let mut left: u64 = max_steps;
        while left > 0
            invariant
                self.wf(),
                start == old(self)@,
                run_spec(self@, left as nat) == run_spec(start, max_steps as nat),
            decreases left,
        {
            let ghost before = self@;
            let r = self.step();
            assert(run_spec(before, left as nat) == match r {
                Err(e) => (self@, Err(e)),
                Ok(Flow::Halt) => (self@, Ok(RunStatus::Halted)),
                Ok(Flow::Continue) => run_spec(self@, (left - 1) as nat),
            });
            match r {
                Err(e) => {
                    return Err(e);
                },
                Ok(Flow::Halt) => {
                    return Ok(RunStatus::Halted);
                },
                Ok(Flow::Continue) => {},
            }
            left = left - 1;
        }
        Ok(RunStatus::Paused)
    }

    /// Fetches the opcode at the program counter, advances the program counter
    /// past it, then decodes and executes it.
    pub fn step(&mut self) -> (r: Result<Flow, CpuError>)
        requires
            old(self).wf(),
        ensures
            final(self).wf(),
            (final(self)@, r) == step_spec(old(self)@),
    {
        let pc = self.program_counter;
        if pc >= MEMORY_SIZE - 1 {
            return Err(CpuError::AddressOutOfBounds(pc));
        }
        let byte1 = self.memory[pc];
        let byte2 = self.memory[pc + 1];
        let opcode = ((byte1 as u16) << 8) | byte2 as u16;
        proof {
            lemma_pack(byte1, byte2);
        }
        self.program_counter = pc + 2;
        match decode(opcode) {
            Ok(i) => self.execute(i),
            Err(e) => Err(e),
        }
    }

    /// Carries out one decoded instruction; the program counter already points
    /// past it, and fits a 16-bit stack slot should the instruction be a call.
    pub fn execute(&mut self, i: Instruction) -> (r: Result<Flow, CpuError>)
        requires
            old(self).wf(),
            operands_in_range(i),
            old(self).program_counter <= 0xFFFF,
        ensures
            final(self).wf(),
            (final(self)@, r) == execute_spec(old(self)@, i),
    {
        match i {
            Instruction::Halt => {
                return Ok(Flow::Halt);
            },
            Instruction::Clear => {},
            Instruction::Return => {
                self.rtn()?;
            },
            Instruction::Jump(addr) => self.jmp(addr),
            Instruction::Call(addr) => {
                self.call(addr)?;
            },
            Instruction::SkipEqImm(x, kk) => self.se(self.registers[x as usize], kk),
            Instruction::SkipNeqImm(x, kk) => self.sne(self.registers[x as usize], kk),
            Instruction::SkipEqReg(x, y) => self.se(
                self.registers[x as usize],
                self.registers[y as usize],
            ),
            Instruction::LoadImm(x, kk) => self.ld(x, kk),
            Instruction::AddImm(x, kk) => self.add(x, kk),
            Instruction::LoadReg(x, y) => self.ld(x, self.registers[y as usize]),
            Instruction::Or(x, y) => self.or_xy(x, y),
            Instruction::And(x, y) => self.and_xy(x, y),
            Instruction::Xor(x, y) => self.xor_xy(x, y),
            Instruction::AddReg(x, y) => self.add_xy(x, y),
        }
        Ok(Flow::Continue)
    }

    /// `2nnn`: pushes the program counter, which fits a 16-bit stack slot, and
    /// jumps to `addr`; fails with `StackOverflow`, changing nothing, when the
    /// stack is full.
    pub fn call(&mut self, addr: u16) -> (r: Result<(), CpuError>)
        requires
            old(self).wf(),
            old(self).program_counter <= 0xFFFF,
        ensures
            final(self).wf(),
            old(self).stack_pointer >= STACK_SIZE ==> r == Err::<(), CpuError>(
                CpuError::StackOverflow,
            ) && final(self)@ == old(self)@,
            old(self).stack_pointer < STACK_SIZE ==> r == Ok::<(), CpuError>(()) && final(self)@
                == old(self)@.pushed(addr as int),
    {
        let sp = self.stack_pointer;
        if sp >= STACK_SIZE {
            return Err(CpuError::StackOverflow);
        }
        self.stack[sp] = self.program_counter as u16;
        self.stack_pointer = sp + 1;
        self.program_counter = addr as usize;
        assert(self@.stack =~= old(self)@.pushed(addr as int).stack);
        Ok(())
    }

    /// `00EE`: pops the top return address into the program counter; fails
    /// with `StackUnderflow`, changing nothing, when the stack is empty.
    pub fn rtn(&mut self) -> (r: Result<(), CpuError>)
        requires
            old(self).wf(),
        ensures
            final(self).wf(),
            old(self).stack_pointer == 0 ==> r == Err::<(), CpuError>(CpuError::StackUnderflow)
                && final(self)@ == old(self)@,
            old(self).stack_pointer > 0 ==> r == Ok::<(), CpuError>(()) && final(self)@
                == old(self)@.popped(),
    {
        if self.stack_pointer == 0 {
            return Err(CpuError::StackUnderflow);
        }
        self.stack_pointer = self.stack_pointer - 1;
        self.program_counter = self.stack[self.stack_pointer] as usize;
        Ok(())
    }

    /// `8xy4`: adds `Vy` into `Vx` modulo 256, then sets `VF` to 1 when the
    /// sum exceeds 255 and to 0 otherwise.
    pub fn add_xy(&mut self, x: u8, y: u8)
        requires
            x < 16,
            y < 16,
        ensures
            final(self)@ == old(self)@.add_regs(x as int, y as int),
    {
        let sum: u16 = self.registers[x as usize] as u16 + self.registers[y as usize] as u16;
        self.registers[x as usize] = (sum & 0xFF) as u8;
        self.registers[FLAG_REGISTER] = if sum > 0xFF {
            1
        } else {
            0
        };
        assert((sum & 0xFF) == sum % 256) by (bit_vector);
        assert(self@.registers =~= old(self)@.add_regs(x as int, y as int).registers);
    }

    /// `8xy2`: `Vx = Vx & Vy`.
    pub fn and_xy(&mut self, x: u8, y: u8)
        requires
            x < 16,
            y < 16,
        ensures
            final(self)@ == old(self)@.with_register(
                x as int,
                old(self).registers[x as int] & old(self).registers[y as int],
            ),
    {
        let x_ = self.registers[x as usize];
        let y_ = self.registers[y as usize];
        self.registers[x as usize] = x_ & y_;
        assert(self@.registers =~= old(self)@.with_register(x as int, x_ & y_).registers);
    }

    /// `8xy1`: `Vx = Vx | Vy`.
    pub fn or_xy(&mut self, x: u8, y: u8)
        requires
            x < 16,
            y < 16,
        ensures
            final(self)@ == old(self)@.with_register(
                x as int,
                old(self).registers[x as int] | old(self).registers[y as int],
            ),
    {
        let x_ = self.registers[x as usize];
        let y_ = self.registers[y as usize];
        self.registers[x as usize] = x_ | y_;
        assert(self@.registers =~= old(self)@.with_register(x as int, x_ | y_).registers);
    }

    /// `8xy3`: `Vx = Vx ^ Vy`.
    pub fn xor_xy(&mut self, x: u8, y: u8)
        requires
            x < 16,
            y < 16,
        ensures
            final(self)@ == old(self)@.with_register(
                x as int,
                old(self).registers[x as int] ^ old(self).registers[y as int],
            ),
    {
        let x_ = self.registers[x as usize];
        let y_ = self.registers[y as usize];
        self.registers[x as usize] = x_ ^ y_;
        assert(self@.registers =~= old(self)@.with_register(x as int, x_ ^ y_).registers);
    }

    /// `3xkk` and `5xy0`: skips the next instruction when `a == b`.
    pub fn se(&mut self, a: u8, b: u8)
        requires
            old(self).program_counter <= usize::MAX - 2,
        ensures
            final(self)@ == old(self)@.skip_if(a == b),
    {
        if a == b {
            self.program_counter = self.program_counter + 2;
        }
    }

    /// `4xkk`: skips the next instruction when `a != b`.
    pub fn sne(&mut self, a: u8, b: u8)
        requires
            old(self).program_counter <= usize::MAX - 2,
        ensures
            final(self)@ == old(self)@.skip_if(a != b),
    {
        if a != b {
            self.program_counter = self.program_counter + 2;
        }
    }

    /// `1nnn`: jumps to `addr`.
    pub fn jmp(&mut self, addr: u16)
        ensures
            final(self)@ == old(self)@.with_pc(addr as int),
    {
        self.program_counter = addr as usize;
    }

    /// `7xkk`: adds `kk` into register `vx`, wrapping; the flag register is
    /// left alone.
    pub fn add(&mut self, vx: u8, kk: u8)
        requires
            vx < 16,
        ensures
            final(self)@ == old(self)@.with_register(
                vx as int,
                ((old(self).registers[vx as int] + kk) % 256) as u8,
            ),
    {
        let v = self.registers[vx as usize].wrapping_add(kk);
        self.registers[vx as usize] = v;
        assert(self@.registers =~= old(self)@.with_register(vx as int, v).registers);
    }

    /// `6xkk`: loads `kk` into register `vx`.
    pub fn ld(&mut self, vx: u8, kk: u8)
        requires
            vx < 16,
        ensures
            final(self)@ == old(self)@.with_register(vx as int, kk),
    {
        self.registers[vx as usize] = kk;
        assert(self@.registers =~= old(self)@.with_register(vx as int, kk).registers);
    }
}

} // verus!
