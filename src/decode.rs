//! Opcode layout and decoding into instructions.
use vstd::prelude::*;

verus! {

/// A failure that stops the machine.
#[derive(Clone, Copy, Debug, PartialEq, Eq, Structural)]
pub enum CpuError {
    /// The fetched opcode is none of the supported instructions.
    UnsupportedOpcode(u16),
    /// CALL with every stack slot in use.
    StackOverflow,
    /// RETURN with an empty stack.
    StackUnderflow,
    /// The program counter does not name a whole instruction inside memory.
    AddressOutOfBounds(usize),
}

/// A decoded instruction. As `decode` builds them, register operands are
/// below 16 and addresses below 0x1000.
#[derive(Clone, Copy, Debug, PartialEq, Eq, Structural)]
pub enum Instruction {
    /// `0000`: stop the run loop.
    Halt,
    /// `00E0`: clear the screen; nothing to do in this core.
    Clear,
    /// `00EE`: pop a return address into the program counter.
    Return,
    /// `1nnn`: jump to `nnn`.
    Jump(u16),
    /// `2nnn`: push the program counter and jump to `nnn`.
    Call(u16),
    /// `3xkk`: skip the next instruction if `Vx == kk`.
    SkipEqImm(u8, u8),
    /// `4xkk`: skip the next instruction if `Vx != kk`.
    SkipNeqImm(u8, u8),
    /// `5xy0`: skip the next instruction if `Vx == Vy`.
    SkipEqReg(u8, u8),
    /// `6xkk`: `Vx = kk`.
    LoadImm(u8, u8),
    /// `7xkk`: `Vx = Vx + kk`, wrapping, flag untouched.
    AddImm(u8, u8),
    /// `8xy0`: `Vx = Vy`.
    LoadReg(u8, u8),
    /// `8xy1`: `Vx = Vx | Vy`.
    Or(u8, u8),
    /// `8xy2`: `Vx = Vx & Vy`.
    And(u8, u8),
    /// `8xy3`: `Vx = Vx ^ Vy`.
    Xor(u8, u8),
    /// `8xy4`: `Vx = Vx + Vy` modulo 256, `VF` = carry.
    AddReg(u8, u8),
}

/// Instruction class: bits 15..12.
pub open spec fn class_of(op: u16) -> int {
    op as int / 0x1000
}

/// First register operand: bits 11..8.
pub open spec fn x_of(op: u16) -> int {
    (op as int / 0x100) % 0x10
}

/// Second register operand: bits 7..4.
pub open spec fn y_of(op: u16) -> int {
    (op as int / 0x10) % 0x10
}

/// Low nibble: bits 3..0.
pub open spec fn minor_of(op: u16) -> int {
    op as int % 0x10
}

/// 8-bit immediate: bits 7..0.
pub open spec fn kk_of(op: u16) -> int {
    op as int % 0x100
}

/// 12-bit address: bits 11..0.
pub open spec fn addr_of(op: u16) -> int {
    op as int % 0x1000
}

/// The instruction an opcode stands for, or `None` when it is unsupported.
pub open spec fn decode_spec(op: u16) -> Option<Instruction> {
    let x = x_of(op) as u8;
    let y = y_of(op) as u8;
    let kk = kk_of(op) as u8;
    let addr = addr_of(op) as u16;
    if op == 0x0000 {
        Some(Instruction::Halt)
    } else if op == 0x00E0 {
        Some(Instruction::Clear)
    } else if op == 0x00EE {
        Some(Instruction::Return)
    } else if class_of(op) == 0x1 {
        Some(Instruction::Jump(addr))
    } else if class_of(op) == 0x2 {
        Some(Instruction::Call(addr))
    } else if class_of(op) == 0x3 {
        Some(Instruction::SkipEqImm(x, kk))
    } else if class_of(op) == 0x4 {
        Some(Instruction::SkipNeqImm(x, kk))
    } else if class_of(op) == 0x5 && minor_of(op) == 0 {
        Some(Instruction::SkipEqReg(x, y))
    } else if class_of(op) == 0x6 {
        Some(Instruction::LoadImm(x, kk))
    } else if class_of(op) == 0x7 {
        Some(Instruction::AddImm(x, kk))
    } else if class_of(op) == 0x8 && minor_of(op) == 0 {
        Some(Instruction::LoadReg(x, y))
    } else if class_of(op) == 0x8 && minor_of(op) == 1 {
        Some(Instruction::Or(x, y))
    } else if class_of(op) == 0x8 && minor_of(op) == 2 {
        Some(Instruction::And(x, y))
    } else if class_of(op) == 0x8 && minor_of(op) == 3 {
        Some(Instruction::Xor(x, y))
    } else if class_of(op) == 0x8 && minor_of(op) == 4 {
        Some(Instruction::AddReg(x, y))
    } else {
        None
    }
}

/// Every operand of the instruction is in range: registers below 16,
/// addresses below 0x1000.
pub open spec fn operands_in_range(i: Instruction) -> bool {
    match i {
        Instruction::Jump(a) | Instruction::Call(a) => a < 0x1000,
        Instruction::SkipEqImm(x, _) | Instruction::SkipNeqImm(x, _)
        | Instruction::LoadImm(x, _) | Instruction::AddImm(x, _) => x < 16,
        Instruction::SkipEqReg(x, y) | Instruction::LoadReg(x, y) | Instruction::Or(x, y)
        | Instruction::And(x, y) | Instruction::Xor(x, y) | Instruction::AddReg(x, y) => x < 16
            && y < 16,
        _ => true,
    }
}

/// The masks and shifts of the decoder compute the nibble and byte fields.
proof fn lemma_fields(op: u16)
    ensures
        (op >> 12u16) as int == class_of(op),
        ((op & 0x0F00u16) >> 8u16) as int == x_of(op),
        ((op & 0x00F0u16) >> 4u16) as int == y_of(op),
        (op & 0x000Fu16) as int == minor_of(op),
        (op & 0x00FFu16) as int == kk_of(op),
        (op & 0x0FFFu16) as int == addr_of(op),
{
    assert((op >> 12u16) == op / 0x1000) by (bit_vector);
    assert(((op & 0x0F00u16) >> 8u16) == (op / 0x100) % 0x10) by (bit_vector);
    assert(((op & 0x00F0u16) >> 4u16) == (op / 0x10) % 0x10) by (bit_vector);
    assert((op & 0x000Fu16) == op % 0x10) by (bit_vector);
    assert((op & 0x00FFu16) == op % 0x100) by (bit_vector);
    assert((op & 0x0FFFu16) == op % 0x1000) by (bit_vector);
}

/// Decodes a 16-bit opcode by its nibble fields.
pub fn decode(opcode: u16) -> (r: Result<Instruction, CpuError>)
    ensures
        match decode_spec(opcode) {
            Some(i) => r == Ok::<Instruction, CpuError>(i),
            None => r == Err::<Instruction, CpuError>(CpuError::UnsupportedOpcode(opcode)),
        },
        r is Ok ==> operands_in_range(r->Ok_0),
{
    proof {
        lemma_fields(opcode);
    }
    let c = opcode >> 12;
    let x = ((opcode & 0x0F00) >> 8) as u8;
    let y = ((opcode & 0x00F0) >> 4) as u8;
    let minor = opcode & 0x000F;
    let kk = (opcode & 0x00FF) as u8;
    let addr = opcode & 0x0FFF;
    if opcode == 0x0000 {
        Ok(Instruction::Halt)
    } else if opcode == 0x00E0 {
        Ok(Instruction::Clear)
    } else if opcode == 0x00EE {
        Ok(Instruction::Return)
    } else if c == 0x1 {
        Ok(Instruction::Jump(addr))
    } else if c == 0x2 {
        Ok(Instruction::Call(addr))
    } else if c == 0x3 {
        Ok(Instruction::SkipEqImm(x, kk))
    } else if c == 0x4 {
        Ok(Instruction::SkipNeqImm(x, kk))
    } else if c == 0x5 && minor == 0 {
        Ok(Instruction::SkipEqReg(x, y))
    } else if c == 0x6 {
        Ok(Instruction::LoadImm(x, kk))
    } else if c == 0x7 {
        Ok(Instruction::AddImm(x, kk))
    } else if c == 0x8 && minor == 0 {
        Ok(Instruction::LoadReg(x, y))
    } else if c == 0x8 && minor == 1 {
        Ok(Instruction::Or(x, y))
    } else if c == 0x8 && minor == 2 {
        Ok(Instruction::And(x, y))
    } else if c == 0x8 && minor == 3 {
        Ok(Instruction::Xor(x, y))
    } else if c == 0x8 && minor == 4 {
        Ok(Instruction::AddReg(x, y))
    } else {
        Err(CpuError::UnsupportedOpcode(opcode))
    }
}

} // verus!
