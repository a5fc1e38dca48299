use iron_boy::cpu::{Cpu, CpuBus, CpuFault};
use iron_boy::flat_bus::FlatBus;
use iron_boy::instruction::{entry_for_opcode, entry_for_prefix_opcode, Instruction, Var8};
use iron_boy::regs::{Reg16, Reg8};

fn run(program: &[u8], cycles: usize) -> (Cpu, FlatBus) {
    let mut cpu = Cpu::new();
    let mut bus = FlatBus::new(program);
    cpu.regs.sp = 0xfffe;
    for _ in 0..cycles {
        cpu.execute(&mut bus).unwrap();
    }
    (cpu, bus)
}

#[test]
fn decode_regular_blocks() {
    assert_eq!(entry_for_opcode(0x41).instruction, Instruction::Ld(Var8::Reg(Reg8::B), iron_boy::instruction::Operand8::Var(Var8::Reg(Reg8::C))));
    assert_eq!(entry_for_opcode(0x76).instruction, Instruction::Halt);
    assert_eq!(entry_for_opcode(0xcb).instruction, Instruction::Illegal);
    assert_eq!(entry_for_prefix_opcode(0x7e).instruction, Instruction::Bit(7, Var8::MemHl));
    assert_eq!(entry_for_prefix_opcode(0x7e).cycles, 3);
    assert_eq!(entry_for_prefix_opcode(0xc6).cycles, 4);
    assert_eq!(entry_for_prefix_opcode(0x37).instruction, Instruction::Swap(Var8::Reg(Reg8::A)));
}

#[test]
fn load_and_add_program() {
    // LD A,5; LD B,7; ADD A,B
    let (cpu, _) = run(&[0x3e, 5, 0x06, 7, 0x80], 5);
    assert_eq!(cpu.regs.a, 12);
    assert_eq!(cpu.pc, 5);
}

#[test]
fn call_and_return() {
    // CALL 0x0010 ; at 0x10: RET
    let mut program = vec![0u8; 0x11];
    program[0] = 0xcd;
    program[1] = 0x10;
    program[2] = 0x00;
    program[0x10] = 0xc9;
    let (cpu, bus) = run(&program, 6);
    assert_eq!(cpu.pc, 0x10);
    assert_eq!(cpu.regs.sp, 0xfffc);
    assert_eq!(bus.read_8(0xfffc), 3);
    assert_eq!(bus.read_8(0xfffd), 0);
    let (cpu, _) = run(&program, 10);
    assert_eq!(cpu.pc, 3);
    assert_eq!(cpu.regs.sp, 0xfffe);
}

#[test]
fn push_pop_af_clears_low_nibble() {
    // LD BC,0x12ff; PUSH BC; POP AF
    let (cpu, _) = run(&[0x01, 0xff, 0x12, 0xc5, 0xf1], 10);
    assert_eq!(cpu.regs.read16(Reg16::AF), 0x12f0);
}

#[test]
fn illegal_opcode_faults() {
    let mut cpu = Cpu::new();
    let mut bus = FlatBus::new(&[0xd3]);
    assert_eq!(cpu.execute(&mut bus), Err(CpuFault::IllegalInstruction));
}

#[test]
fn stop_without_speed_switch_faults() {
    let mut cpu = Cpu::new();
    let mut bus = FlatBus::new(&[0x10, 0x00]);
    assert_eq!(cpu.execute(&mut bus), Err(CpuFault::LowPowerMode));
}

#[test]
fn ei_takes_effect_after_next_instruction() {
    // EI; NOP; NOP
    let mut cpu = Cpu::new();
    let mut bus = FlatBus::new(&[0xfb, 0x00, 0x00]);
    cpu.execute(&mut bus).unwrap();
    assert!(!cpu.interrupts_enabled);
    cpu.execute(&mut bus).unwrap();
    assert!(cpu.interrupts_enabled);
}

#[test]
fn conditional_jump_cycles() {
    // XOR A (Z set); JR NZ,+2 not taken costs 2 cycles; JR Z,+0 taken costs 3.
    let (cpu, _) = run(&[0xaf, 0x20, 0x02, 0x28, 0x00], 1 + 2);
    assert_eq!(cpu.pc, 3);
    let (cpu, _) = run(&[0xaf, 0x20, 0x02, 0x28, 0x00], 1 + 2 + 3);
    assert_eq!(cpu.pc, 5);
}
