use chip8::decode::{decode, CpuError, Instruction};
use chip8::machine::{Flow, RunStatus, CPU};

fn load(cpu: &mut CPU, at: usize, program: &[u16]) {
    for (i, op) in program.iter().enumerate() {
        cpu.memory[at + 2 * i] = (op >> 8) as u8;
        cpu.memory[at + 2 * i + 1] = (op & 0xFF) as u8;
    }
}

#[test]
fn three_register_adds_without_overflow() {
    let mut cpu = CPU::new();
    cpu.registers[0] = 5;
    cpu.registers[1] = 10;
    cpu.registers[2] = 26;
    cpu.registers[3] = 20;
    load(&mut cpu, 0, &[0x8014, 0x8024, 0x8034, 0x0000]);
    assert_eq!(cpu.run(100), Ok(RunStatus::Halted));
    assert_eq!(cpu.registers[0], 61);
    assert_eq!(cpu.registers[0xF], 0);
}

#[test]
fn subroutine_called_twice() {
    let mut cpu = CPU::new();
    cpu.registers[0] = 5;
    cpu.registers[1] = 10;
    load(&mut cpu, 0x000, &[0x2100, 0x2100]);
    load(&mut cpu, 0x100, &[0x8014, 0x8014, 0x00EE]);
    assert_eq!(cpu.run(100), Ok(RunStatus::Halted));
    assert_eq!(cpu.registers[0], 45);
    assert_eq!(cpu.stack_pointer, 0);
    assert_eq!(cpu.program_counter, 6);
}

#[test]
fn seventeen_nested_calls_overflow() {
    let mut cpu = CPU::new();
    let calls: Vec<u16> = (0..17u16).map(|i| 0x2000 | (2 * i + 2)).collect();
    load(&mut cpu, 0, &calls);
    for _ in 0..16 {
        assert_eq!(cpu.step(), Ok(Flow::Continue));
    }
    assert_eq!(cpu.stack_pointer, 16);
    assert_eq!(cpu.step(), Err(CpuError::StackOverflow));
    assert_eq!(cpu.stack_pointer, 16);
}

#[test]
fn seventeen_calls_overflow_in_run() {
    let mut cpu = CPU::new();
    let calls: Vec<u16> = (0..17u16).map(|i| 0x2000 | (2 * i + 2)).collect();
    load(&mut cpu, 0, &calls);
    assert_eq!(cpu.run(1000), Err(CpuError::StackOverflow));
    assert_eq!(cpu.stack[15], 32);
}

#[test]
fn return_on_empty_stack_underflows() {
    let mut cpu = CPU::new();
    load(&mut cpu, 0, &[0x00EE]);
    assert_eq!(cpu.run(10), Err(CpuError::StackUnderflow));
    assert_eq!(cpu.stack_pointer, 0);
}

#[test]
fn unsupported_opcode_is_reported() {
    let mut cpu = CPU::new();
    load(&mut cpu, 0, &[0x9999]);
    assert_eq!(cpu.run(10), Err(CpuError::UnsupportedOpcode(0x9999)));
}

#[test]
fn add_reg_sets_flag_on_overflow() {
    let mut cpu = CPU::new();
    cpu.registers[2] = 200;
    cpu.registers[3] = 100;
    cpu.registers[0xF] = 7;
    cpu.add_xy(2, 3);
    assert_eq!(cpu.registers[2], 44);
    assert_eq!(cpu.registers[0xF], 1);
    cpu.add_xy(2, 3);
    assert_eq!(cpu.registers[2], 144);
    assert_eq!(cpu.registers[0xF], 0);
}

#[test]
fn add_reg_sum_of_exactly_255_does_not_overflow() {
    let mut cpu = CPU::new();
    cpu.registers[0] = 255;
    cpu.registers[0xF] = 9;
    cpu.add_xy(0, 1);
    assert_eq!(cpu.registers[0], 255);
    assert_eq!(cpu.registers[0xF], 0);
}

#[test]
fn add_reg_into_flag_register_keeps_flag() {
    let mut cpu = CPU::new();
    cpu.registers[0xF] = 250;
    cpu.registers[1] = 10;
    cpu.add_xy(0xF, 1);
    assert_eq!(cpu.registers[0xF], 1);
}

#[test]
fn add_reg_for_every_pair() {
    for a in 0..=255u16 {
        for b in [0u16, 1, 55, 56, 128, 254, 255] {
            let mut cpu = CPU::new();
            cpu.registers[4] = a as u8;
            cpu.registers[5] = b as u8;
            cpu.add_xy(4, 5);
            assert_eq!(cpu.registers[4] as u16, (a + b) % 256);
            assert_eq!(cpu.registers[0xF] == 1, a + b > 255);
        }
    }
}

#[test]
fn add_immediate_wraps_without_flag() {
    let mut cpu = CPU::new();
    cpu.registers[1] = 250;
    cpu.registers[0xF] = 3;
    load(&mut cpu, 0, &[0x710A, 0x0000]);
    assert_eq!(cpu.run(10), Ok(RunStatus::Halted));
    assert_eq!(cpu.registers[1], 4);
    assert_eq!(cpu.registers[0xF], 3);
}

#[test]
fn load_immediate_then_read() {
    let mut cpu = CPU::new();
    load(&mut cpu, 0, &[0x6A7F, 0x0000]);
    assert_eq!(cpu.run(10), Ok(RunStatus::Halted));
    assert_eq!(cpu.registers[0xA], 0x7F);
}

#[test]
fn load_register_copies_value() {
    let mut cpu = CPU::new();
    cpu.registers[6] = 0x42;
    load(&mut cpu, 0, &[0x8360, 0x0000]);
    assert_eq!(cpu.run(10), Ok(RunStatus::Halted));
    assert_eq!(cpu.registers[3], 0x42);
    assert_eq!(cpu.registers[6], 0x42);
}

#[test]
fn bitwise_register_operations() {
    let mut cpu = CPU::new();
    cpu.registers[0] = 0b1100;
    cpu.registers[1] = 0b1010;
    cpu.registers[2] = 0b1100;
    cpu.registers[3] = 0b1100;
    load(&mut cpu, 0, &[0x8011, 0x8212, 0x8313, 0x0000]);
    assert_eq!(cpu.run(10), Ok(RunStatus::Halted));
    assert_eq!(cpu.registers[0], 0b1110);
    assert_eq!(cpu.registers[2], 0b1000);
    assert_eq!(cpu.registers[3], 0b0110);
    assert_eq!(cpu.registers[1], 0b1010);
}

#[test]
fn skip_eq_imm_skips_when_equal() {
    let mut cpu = CPU::new();
    cpu.registers[2] = 9;
    load(&mut cpu, 0, &[0x3209, 0x6001, 0x0000]);
    assert_eq!(cpu.run(10), Ok(RunStatus::Halted));
    assert_eq!(cpu.registers[0], 0);
    assert_eq!(cpu.program_counter, 6);
}

#[test]
fn skip_eq_imm_falls_through_when_different() {
    let mut cpu = CPU::new();
    cpu.registers[2] = 8;
    load(&mut cpu, 0, &[0x3209, 0x6001, 0x0000]);
    assert_eq!(cpu.run(10), Ok(RunStatus::Halted));
    assert_eq!(cpu.registers[0], 1);
}

#[test]
fn skip_eq_imm_compares_register_value_not_index() {
    let mut cpu = CPU::new();
    cpu.registers[2] = 0;
    load(&mut cpu, 0, &[0x3202, 0x6001, 0x0000]);
    assert_eq!(cpu.run(10), Ok(RunStatus::Halted));
    assert_eq!(cpu.registers[0], 1);
}

#[test]
fn skip_neq_imm() {
    let mut cpu = CPU::new();
    cpu.registers[2] = 8;
    load(&mut cpu, 0, &[0x4209, 0x6001, 0x4208, 0x6101, 0x0000]);
    assert_eq!(cpu.run(10), Ok(RunStatus::Halted));
    assert_eq!(cpu.registers[0], 0);
    assert_eq!(cpu.registers[1], 1);
}

#[test]
fn skip_eq_reg() {
    let mut cpu = CPU::new();
    cpu.registers[4] = 3;
    cpu.registers[5] = 3;
    cpu.registers[6] = 4;
    load(&mut cpu, 0, &[0x5450, 0x6001, 0x5460, 0x6101, 0x0000]);
    assert_eq!(cpu.run(10), Ok(RunStatus::Halted));
    assert_eq!(cpu.registers[0], 0);
    assert_eq!(cpu.registers[1], 1);
}

#[test]
fn skip_eq_reg_needs_zero_low_nibble() {
    let mut cpu = CPU::new();
    load(&mut cpu, 0, &[0x5451]);
    assert_eq!(cpu.run(10), Err(CpuError::UnsupportedOpcode(0x5451)));
}

#[test]
fn unsupported_arithmetic_minor() {
    let mut cpu = CPU::new();
    load(&mut cpu, 0, &[0x8015]);
    assert_eq!(cpu.run(10), Err(CpuError::UnsupportedOpcode(0x8015)));
    assert_eq!(cpu.program_counter, 2);
}

#[test]
fn jump_moves_program_counter() {
    let mut cpu = CPU::new();
    load(&mut cpu, 0, &[0x1200]);
    load(&mut cpu, 0x200, &[0x6305, 0x0000]);
    assert_eq!(cpu.run(10), Ok(RunStatus::Halted));
    assert_eq!(cpu.registers[3], 5);
    assert_eq!(cpu.program_counter, 0x204);
}

#[test]
fn clear_is_a_no_op() {
    let mut cpu = CPU::new();
    load(&mut cpu, 0, &[0x00E0, 0x0000]);
    assert_eq!(cpu.run(10), Ok(RunStatus::Halted));
    assert_eq!(cpu.program_counter, 4);
    assert_eq!(cpu.registers, [0u8; 16]);
}

#[test]
fn halt_changes_only_program_counter() {
    let mut cpu = CPU::new();
    cpu.registers[7] = 77;
    assert_eq!(cpu.step(), Ok(Flow::Halt));
    assert_eq!(cpu.program_counter, 2);
    assert_eq!(cpu.registers[7], 77);
    assert_eq!(cpu.stack_pointer, 0);
}

#[test]
fn call_then_return_restores_pc_and_sp() {
    let mut cpu = CPU::new();
    cpu.program_counter = 0x20;
    load(&mut cpu, 0x20, &[0x2300]);
    load(&mut cpu, 0x300, &[0x00EE]);
    assert_eq!(cpu.step(), Ok(Flow::Continue));
    assert_eq!(cpu.program_counter, 0x300);
    assert_eq!(cpu.stack_pointer, 1);
    assert_eq!(cpu.stack[0], 0x22);
    assert_eq!(cpu.step(), Ok(Flow::Continue));
    assert_eq!(cpu.program_counter, 0x22);
    assert_eq!(cpu.stack_pointer, 0);
}

#[test]
fn endless_loop_pauses_at_step_budget() {
    let mut cpu = CPU::new();
    load(&mut cpu, 0, &[0x7001, 0x1000]);
    assert_eq!(cpu.run(10), Ok(RunStatus::Paused));
    assert_eq!(cpu.registers[0], 5);
    assert_eq!(cpu.run(0), Ok(RunStatus::Paused));
    assert_eq!(cpu.registers[0], 5);
}

#[test]
fn fetch_past_memory_end_fails() {
    let mut cpu = CPU::new();
    load(&mut cpu, 0, &[0x1FFF]);
    assert_eq!(cpu.run(10), Err(CpuError::AddressOutOfBounds(0xFFF)));
    cpu.program_counter = 0xFFE;
    assert_eq!(cpu.step(), Ok(Flow::Halt));
    assert_eq!(cpu.step(), Err(CpuError::AddressOutOfBounds(0x1000)));
}

#[test]
fn direct_instruction_methods() {
    let mut cpu = CPU::new();
    cpu.ld(1, 0xF0);
    cpu.add(1, 0x20);
    assert_eq!(cpu.registers[1], 0x10);
    cpu.se(1, 1);
    assert_eq!(cpu.program_counter, 2);
    cpu.sne(1, 1);
    assert_eq!(cpu.program_counter, 2);
    cpu.jmp(0x123);
    assert_eq!(cpu.program_counter, 0x123);
    assert_eq!(cpu.call(0x400), Ok(()));
    assert_eq!(cpu.rtn(), Ok(()));
    assert_eq!(cpu.program_counter, 0x123);
    assert_eq!(cpu.rtn(), Err(CpuError::StackUnderflow));
}

#[test]
fn execute_decoded_instruction() {
    let mut cpu = CPU::new();
    assert_eq!(cpu.execute(Instruction::LoadImm(2, 9)), Ok(Flow::Continue));
    assert_eq!(cpu.registers[2], 9);
    assert_eq!(cpu.execute(Instruction::Halt), Ok(Flow::Halt));
}

#[test]
fn decode_fields() {
    assert_eq!(decode(0x0000), Ok(Instruction::Halt));
    assert_eq!(decode(0x00E0), Ok(Instruction::Clear));
    assert_eq!(decode(0x00EE), Ok(Instruction::Return));
    assert_eq!(decode(0x0123), Err(CpuError::UnsupportedOpcode(0x0123)));
    assert_eq!(decode(0x1ABC), Ok(Instruction::Jump(0xABC)));
    assert_eq!(decode(0x2DEF), Ok(Instruction::Call(0xDEF)));
    assert_eq!(decode(0x3A5C), Ok(Instruction::SkipEqImm(0xA, 0x5C)));
    assert_eq!(decode(0x4B12), Ok(Instruction::SkipNeqImm(0xB, 0x12)));
    assert_eq!(decode(0x5CD0), Ok(Instruction::SkipEqReg(0xC, 0xD)));
    assert_eq!(decode(0x6E34), Ok(Instruction::LoadImm(0xE, 0x34)));
    assert_eq!(decode(0x7F56), Ok(Instruction::AddImm(0xF, 0x56)));
    assert_eq!(decode(0x8120), Ok(Instruction::LoadReg(1, 2)));
    assert_eq!(decode(0x8121), Ok(Instruction::Or(1, 2)));
    assert_eq!(decode(0x8122), Ok(Instruction::And(1, 2)));
    assert_eq!(decode(0x8123), Ok(Instruction::Xor(1, 2)));
    assert_eq!(decode(0x8124), Ok(Instruction::AddReg(1, 2)));
    assert_eq!(decode(0x812E), Err(CpuError::UnsupportedOpcode(0x812E)));
    assert_eq!(decode(0xA123), Err(CpuError::UnsupportedOpcode(0xA123)));
    assert_eq!(decode(0xFFFF), Err(CpuError::UnsupportedOpcode(0xFFFF)));
}
