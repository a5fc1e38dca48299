use iron_boy::cart::Cart;
use iron_boy::system::{CgbSystem, BOOT_ROM_BYTES};
use iron_boy::cpu::{Cpu, CpuBus};
use iron_boy::flat_bus::FlatBus;
use iron_boy::instruction::{HlIncDec, Test, Var8};
use iron_boy::regs::{Flag, Reg16, Reg8};

fn setup() -> (Cpu, FlatBus) {
    let mut cpu = Cpu::new();
    cpu.regs.sp = 0xfffe;
    (cpu, FlatBus::new(&[]))
}

#[test]
fn rotates_through_carry() {
    let (mut cpu, mut bus) = setup();
    cpu.regs.b = 0x80;
    cpu.rl(Var8::Reg(Reg8::B), &mut bus);
    assert_eq!(cpu.regs.b, 0x00);
    assert!(cpu.regs.get_flag(Flag::Carry));
    assert!(cpu.regs.get_flag(Flag::Zero));
    cpu.rl(Var8::Reg(Reg8::B), &mut bus);
    assert_eq!(cpu.regs.b, 0x01);
    assert!(!cpu.regs.get_flag(Flag::Carry));
    cpu.regs.c = 0x01;
    cpu.rr(Var8::Reg(Reg8::C), &mut bus);
    assert_eq!(cpu.regs.c, 0x00);
    assert!(cpu.regs.get_flag(Flag::Carry));
    cpu.rr(Var8::Reg(Reg8::C), &mut bus);
    assert_eq!(cpu.regs.c, 0x80);
}

#[test]
fn rotates_and_shifts() {
    let (mut cpu, mut bus) = setup();
    cpu.regs.d = 0x85;
    cpu.rlc(Var8::Reg(Reg8::D), &mut bus);
    assert_eq!(cpu.regs.d, 0x0b);
    assert!(cpu.regs.get_flag(Flag::Carry));
    cpu.rrc(Var8::Reg(Reg8::D), &mut bus);
    assert_eq!(cpu.regs.d, 0x85);
    cpu.sra(Var8::Reg(Reg8::D), &mut bus);
    assert_eq!(cpu.regs.d, 0xc2);
    assert!(cpu.regs.get_flag(Flag::Carry));
    cpu.srl(Var8::Reg(Reg8::D), &mut bus);
    assert_eq!(cpu.regs.d, 0x61);
    cpu.sla(Var8::Reg(Reg8::D), &mut bus);
    assert_eq!(cpu.regs.d, 0xc2);
    assert!(!cpu.regs.get_flag(Flag::Carry));
    cpu.swap(Var8::Reg(Reg8::D), &mut bus);
    assert_eq!(cpu.regs.d, 0x2c);
}

#[test]
fn accumulator_rotates_clear_zero() {
    let (mut cpu, mut bus) = setup();
    cpu.regs.a = 0x00;
    cpu.rla(&mut bus);
    assert!(!cpu.regs.get_flag(Flag::Zero));
    cpu.regs.a = 0x01;
    cpu.rrca(&mut bus);
    assert_eq!(cpu.regs.a, 0x80);
    assert!(cpu.regs.get_flag(Flag::Carry));
    assert!(!cpu.regs.get_flag(Flag::Zero));
}

#[test]
fn bit_operations_on_memory() {
    let (mut cpu, mut bus) = setup();
    cpu.regs.write16(Reg16::HL, 0xc000);
    bus.write_8(0xc000, 0x10);
    cpu.bit(4, Var8::MemHl, &bus);
    assert!(!cpu.regs.get_flag(Flag::Zero));
    assert!(cpu.regs.get_flag(Flag::HalfCarry));
    cpu.bit(3, Var8::MemHl, &bus);
    assert!(cpu.regs.get_flag(Flag::Zero));
    cpu.res(4, Var8::MemHl, &mut bus);
    assert_eq!(bus.read_8(0xc000), 0x00);
    cpu.set(7, Var8::MemHl, &mut bus);
    assert_eq!(bus.read_8(0xc000), 0x80);
}

#[test]
fn inc_dec_keep_carry() {
    let (mut cpu, mut bus) = setup();
    cpu.regs.set_flags(Flag::Carry, true);
    cpu.regs.e = 0x0f;
    cpu.inc(Var8::Reg(Reg8::E), &mut bus);
    assert_eq!(cpu.regs.e, 0x10);
    assert!(cpu.regs.get_flag(Flag::HalfCarry));
    assert!(cpu.regs.get_flag(Flag::Carry));
    cpu.dec(Var8::Reg(Reg8::E), &mut bus);
    assert_eq!(cpu.regs.e, 0x0f);
    assert!(cpu.regs.get_flag(Flag::HalfCarry));
    assert!(cpu.regs.get_flag(Flag::Sub));
    cpu.regs.e = 0x01;
    cpu.dec(Var8::Reg(Reg8::E), &mut bus);
    assert!(cpu.regs.get_flag(Flag::Zero));
}

#[test]
fn sixteen_bit_arithmetic() {
    let (mut cpu, _bus) = setup();
    cpu.regs.write16(Reg16::HL, 0x0fff);
    cpu.regs.write16(Reg16::BC, 0x0001);
    cpu.add_hl(Reg16::BC);
    assert_eq!(cpu.regs.read16(Reg16::HL), 0x1000);
    assert!(cpu.regs.get_flag(Flag::HalfCarry));
    assert!(!cpu.regs.get_flag(Flag::Carry));
    cpu.regs.write16(Reg16::HL, 0xffff);
    cpu.add_hl(Reg16::BC);
    assert_eq!(cpu.regs.read16(Reg16::HL), 0x0000);
    assert!(cpu.regs.get_flag(Flag::Carry));
    cpu.dec_16(Reg16::DE);
    assert_eq!(cpu.regs.read16(Reg16::DE), 0xffff);
    cpu.inc_16(Reg16::DE);
    assert_eq!(cpu.regs.read16(Reg16::DE), 0x0000);
}

#[test]
fn stack_pointer_offsets() {
    let mut cpu = Cpu::new();
    let bus = FlatBus::new(&[0xff, 0x01]);
    cpu.regs.sp = 0x0100;
    cpu.load_hl_sp_imm_inc(&bus);
    assert_eq!(cpu.regs.read16(Reg16::HL), 0x00ff);
    assert!(!cpu.regs.get_flag(Flag::Carry));
    cpu.add_sp(&bus);
    assert_eq!(cpu.regs.sp, 0x0101);
    assert_eq!(cpu.pc, 2);
}

#[test]
fn loads_with_hl_steps() {
    let (mut cpu, mut bus) = setup();
    cpu.regs.write16(Reg16::HL, 0xc000);
    cpu.regs.a = 0x77;
    cpu.load_inc_dec_a(HlIncDec::Inc, &mut bus);
    assert_eq!(bus.read_8(0xc000), 0x77);
    assert_eq!(cpu.regs.read16(Reg16::HL), 0xc001);
    cpu.load_a_inc_dec(HlIncDec::Dec, &mut bus);
    assert_eq!(cpu.regs.a, 0x00);
    assert_eq!(cpu.regs.read16(Reg16::HL), 0xc000);
    cpu.regs.c = 0x80;
    cpu.regs.a = 0x12;
    cpu.load_high_c_mem_a(&mut bus);
    assert_eq!(bus.read_8(0xff80), 0x12);
}

#[test]
fn conditional_return() {
    let (mut cpu, mut bus) = setup();
    cpu.pc = 0x1234;
    cpu.push(Reg16::BC, &mut bus);
    cpu.regs.write16(Reg16::BC, 0);
    cpu.regs.set_flags(Flag::Zero, false);
    cpu.ret_conditional(Test::Z, 2, &bus);
    assert_eq!(cpu.cycles_remaining, 2);
    assert_eq!(cpu.pc, 0x1234);
    cpu.ret_conditional(Test::Nz, 2, &bus);
    assert_eq!(cpu.pc, 0x0000);
    assert_eq!(cpu.regs.sp, 0xfffe);
}

#[test]
fn interrupt_service_jumps_to_vector() {
    let mut rom = vec![0u8; 0x8000];
    rom[0x147] = 0;
    let cart = Cart::from_rom(rom, 0).ok().unwrap();
    let mut system = CgbSystem::new(cart, vec![0u8; BOOT_ROM_BYTES]);
    system.cpu.regs.sp = 0xfffe;
    system.cpu.pc = 0x0150;
    system.cpu.interrupts_enabled = true;
    system.bus.interrupt.enable = 0x04;
    system.bus.interrupt.flags = 0x04;
    assert!(system.cpu.handle_interrupts(&mut system.bus));
    assert_eq!(system.cpu.pc, 0x50);
    assert_eq!(system.cpu.cycles_remaining, 5);
    assert!(!system.cpu.interrupts_enabled);
    assert_eq!(system.bus.interrupt.flags, 0);
    assert_eq!(system.bus.read_8(0xfffc), 0x50);
    assert_eq!(system.bus.read_8(0xfffd), 0x01);
}
