use iron_boy::cpu::{Cpu, CpuBus};
use iron_boy::flat_bus::FlatBus;
use iron_boy::instruction::Operand8;
use iron_boy::regs::{Flag, Reg8};

#[test]
fn adc() {
    let mut cpu = Cpu::new();
    let mut mem = FlatBus::new(&[2]);
    cpu.regs.a = 1;

    cpu.adc(Operand8::Imm, &mem);
    assert_eq!(cpu.regs.a, 3);
    assert!(!cpu.regs.get_flag(Flag::Carry));
    assert!(!cpu.regs.get_flag(Flag::HalfCarry));
    assert!(!cpu.regs.get_flag(Flag::Zero));

    cpu.regs.set_flags(Flag::Carry, true);
    cpu.adc(Operand8::Imm, &mem);
    assert_eq!(cpu.regs.a, 4);
    assert!(!cpu.regs.get_flag(Flag::Carry));
    assert!(!cpu.regs.get_flag(Flag::HalfCarry));
    assert!(!cpu.regs.get_flag(Flag::Zero));

    cpu.regs.set_flags(Flag::Carry, true);
    mem.write_8(2, 0xf - 4);
    cpu.adc(Operand8::Imm, &mem);
    assert_eq!(cpu.regs.a, 0x10);
    assert!(!cpu.regs.get_flag(Flag::Carry));
    assert!(cpu.regs.get_flag(Flag::HalfCarry));
    assert!(!cpu.regs.get_flag(Flag::Zero));

    cpu.regs.set_flags(Flag::Carry, true);
    mem.write_8(3, 0xff - 0x10);
    cpu.adc(Operand8::Imm, &mem);
    assert_eq!(cpu.regs.a, 0x0);
    assert!(cpu.regs.get_flag(Flag::Carry));
    assert!(cpu.regs.get_flag(Flag::HalfCarry));
    assert!(cpu.regs.get_flag(Flag::Zero));
}

#[test]
fn add() {
    let mut cpu = Cpu::new();
    let mut mem = FlatBus::new(&[2]);
    cpu.regs.a = 1;

    cpu.add(Operand8::Imm, &mem);
    assert_eq!(cpu.regs.a, 3);
    assert!(!cpu.regs.get_flag(Flag::Carry));
    assert!(!cpu.regs.get_flag(Flag::HalfCarry));
    assert!(!cpu.regs.get_flag(Flag::Zero));

    mem.write_8(1, 0xf - 3 + 1);
    cpu.add(Operand8::Imm, &mem);
    assert_eq!(cpu.regs.a, 0x10);
    assert!(!cpu.regs.get_flag(Flag::Carry));
    assert!(cpu.regs.get_flag(Flag::HalfCarry));
    assert!(!cpu.regs.get_flag(Flag::Zero));

    mem.write_8(2, 0xf0);
    cpu.add(Operand8::Imm, &mem);
    assert_eq!(cpu.regs.a, 0x0);
    assert!(cpu.regs.get_flag(Flag::Carry));
    assert!(!cpu.regs.get_flag(Flag::HalfCarry));
    assert!(cpu.regs.get_flag(Flag::Zero));
}

#[test]
fn sbc() {
    let mut cpu = Cpu::new();
    let mut mem = FlatBus::new(&[1]);
    cpu.regs.a = 0xff;

    cpu.regs.set_flags(Flag::Carry, true);
    cpu.sbc(Operand8::Imm, &mem);
    assert_eq!(cpu.regs.a, 0xfd);
    assert!(!cpu.regs.get_flag(Flag::Carry));
    assert!(!cpu.regs.get_flag(Flag::HalfCarry));
    assert!(!cpu.regs.get_flag(Flag::Zero));
    assert!(cpu.regs.get_flag(Flag::Sub));

    cpu.regs.set_flags(Flag::Carry, true);
    mem.write_8(1, 0x0d);
    cpu.sbc(Operand8::Imm, &mem);
    assert_eq!(cpu.regs.a, 0xef);
    assert!(!cpu.regs.get_flag(Flag::Carry));
    assert!(cpu.regs.get_flag(Flag::HalfCarry));
    assert!(!cpu.regs.get_flag(Flag::Zero));

    cpu.regs.set_flags(Flag::Carry, true);
    mem.write_8(2, 0xee);
    cpu.sbc(Operand8::Imm, &mem);
    assert_eq!(cpu.regs.a, 0x0);
    assert!(!cpu.regs.get_flag(Flag::Carry));
    assert!(!cpu.regs.get_flag(Flag::HalfCarry));
    assert!(cpu.regs.get_flag(Flag::Zero));

    cpu.regs.set_flags(Flag::Carry, true);
    mem.write_8(3, 0x0);
    cpu.sbc(Operand8::Imm, &mem);
    assert_eq!(cpu.regs.a, 0xff);
    assert!(cpu.regs.get_flag(Flag::Carry));
    assert!(cpu.regs.get_flag(Flag::HalfCarry));
    assert!(!cpu.regs.get_flag(Flag::Zero));
}

#[test]
fn sub() {
    let mut cpu = Cpu::new();
    let mut mem = FlatBus::new(&[2]);
    cpu.regs.a = 0xff;

    cpu.sub(Operand8::Imm, &mem);
    assert_eq!(cpu.regs.a, 0xfd);
    assert!(!cpu.regs.get_flag(Flag::Carry));
    assert!(!cpu.regs.get_flag(Flag::HalfCarry));
    assert!(!cpu.regs.get_flag(Flag::Zero));
    assert!(cpu.regs.get_flag(Flag::Sub));

    mem.write_8(1, 0x0e);
    cpu.sub(Operand8::Imm, &mem);
    assert_eq!(cpu.regs.a, 0xef);
    assert!(!cpu.regs.get_flag(Flag::Carry));
    assert!(cpu.regs.get_flag(Flag::HalfCarry));
    assert!(!cpu.regs.get_flag(Flag::Zero));

    mem.write_8(2, 0xef);
    cpu.sub(Operand8::Imm, &mem);
    assert_eq!(cpu.regs.a, 0x0);
    assert!(!cpu.regs.get_flag(Flag::Carry));
    assert!(!cpu.regs.get_flag(Flag::HalfCarry));
    assert!(cpu.regs.get_flag(Flag::Zero));

    mem.write_8(3, 0x1);
    cpu.sub(Operand8::Imm, &mem);
    assert_eq!(cpu.regs.a, 0xff);
    assert!(cpu.regs.get_flag(Flag::Carry));
    assert!(cpu.regs.get_flag(Flag::HalfCarry));
    assert!(!cpu.regs.get_flag(Flag::Zero));
}

#[test]
fn cp() {
    let mut cpu = Cpu::new();
    let mut mem = FlatBus::new(&[2]);
    cpu.regs.a = 0xff;

    cpu.cp(Operand8::Imm, &mem);
    cpu.regs.a = 0xfd;
    assert!(!cpu.regs.get_flag(Flag::Carry));
    assert!(!cpu.regs.get_flag(Flag::HalfCarry));
    assert!(!cpu.regs.get_flag(Flag::Zero));
    assert!(cpu.regs.get_flag(Flag::Sub));

    mem.write_8(1, 0x0e);
    cpu.cp(Operand8::Imm, &mem);
    cpu.regs.a = 0xef;
    assert!(!cpu.regs.get_flag(Flag::Carry));
    assert!(cpu.regs.get_flag(Flag::HalfCarry));
    assert!(!cpu.regs.get_flag(Flag::Zero));

    mem.write_8(2, 0xef);
    cpu.cp(Operand8::Imm, &mem);
    cpu.regs.a = 0x0;
    assert!(!cpu.regs.get_flag(Flag::Carry));
    assert!(!cpu.regs.get_flag(Flag::HalfCarry));
    assert!(cpu.regs.get_flag(Flag::Zero));

    mem.write_8(3, 0x1);
    cpu.cp(Operand8::Imm, &mem);
    cpu.regs.a = 0xff;
    assert!(cpu.regs.get_flag(Flag::Carry));
    assert!(cpu.regs.get_flag(Flag::HalfCarry));
    assert!(!cpu.regs.get_flag(Flag::Zero));
}

#[test]
fn xor() {
    let mut cpu = Cpu::new();
    let mem = FlatBus::new(&[1]);
    cpu.regs.a = 1;

    cpu.xor(Operand8::Imm, &mem);
    assert_eq!(cpu.regs.a, 0);
    assert!(cpu.regs.get_flag(Flag::Zero));
}

fn to_bcd(val: u8) -> u8 {
    (((val / 10) % 10) << 4) | (val % 10)
}

#[test]
fn daa() {
    let mut cpu = Cpu::new();
    let mem = FlatBus::new(&[]);

    for (a, a_bcd) in (0..100).map(to_bcd).enumerate() {
        for (b, b_bcd) in (0..100 - a as u8).map(to_bcd).enumerate() {
            cpu.regs.a = a_bcd;
            cpu.regs.b = b_bcd;
            cpu.add(Operand8::new_reg(Reg8::B), &mem);
            assert_eq!(cpu.regs.a, a_bcd.wrapping_add(b_bcd));
            cpu.daa();
            assert_eq!(cpu.regs.a, to_bcd((a + b) as u8));
        }
    }

    for (a, a_bcd) in (0..100).map(to_bcd).enumerate() {
        for (b, b_bcd) in (0..a as u8).map(to_bcd).enumerate() {
            cpu.regs.a = a_bcd;
            cpu.regs.b = b_bcd;
            cpu.sub(Operand8::new_reg(Reg8::B), &mem);
            assert_eq!(cpu.regs.a, a_bcd.wrapping_sub(b_bcd));
            cpu.daa();
            assert_eq!(cpu.regs.a, to_bcd((a - b) as u8));
        }
    }
}

#[test]
fn daa_single_cases() {
    let mut cpu = Cpu::new();
    let mem = FlatBus::new(&[]);
    // 19 + 28 = 47: the low digits overflow past 9 without a half-carry.
    cpu.regs.a = 0x19;
    cpu.regs.b = 0x28;
    cpu.add(Operand8::new_reg(Reg8::B), &mem);
    cpu.daa();
    assert_eq!(cpu.regs.a, 0x47);
    // 09 + 09 = 18: the half-carry is set.
    cpu.regs.a = 0x09;
    cpu.regs.b = 0x09;
    cpu.add(Operand8::new_reg(Reg8::B), &mem);
    assert!(cpu.regs.get_flag(Flag::HalfCarry));
    cpu.daa();
    assert_eq!(cpu.regs.a, 0x18);
    assert!(!cpu.regs.get_flag(Flag::HalfCarry));
    // 42 - 17 = 25.
    cpu.regs.a = 0x42;
    cpu.regs.b = 0x17;
    cpu.sub(Operand8::new_reg(Reg8::B), &mem);
    cpu.daa();
    assert_eq!(cpu.regs.a, 0x25);
}

#[test]
fn carry_boundaries() {
    let mut cpu = Cpu::new();
    let mem = FlatBus::new(&[]);
    // A=0x0e + 0x01 with carry in: crosses the nibble boundary, no carry out.
    cpu.regs.a = 0x0e;
    cpu.regs.b = 0x01;
    cpu.regs.set_flags(Flag::Carry, true);
    cpu.adc(Operand8::new_reg(Reg8::B), &mem);
    assert_eq!(cpu.regs.a, 0x10);
    assert!(cpu.regs.get_flag(Flag::HalfCarry));
    assert!(!cpu.regs.get_flag(Flag::Carry));
    // A=0xff + 0x00 with carry in: both carries, zero result.
    cpu.regs.a = 0xff;
    cpu.regs.b = 0x00;
    cpu.regs.set_flags(Flag::Carry, true);
    cpu.adc(Operand8::new_reg(Reg8::B), &mem);
    assert_eq!(cpu.regs.a, 0x00);
    assert!(cpu.regs.get_flag(Flag::HalfCarry));
    assert!(cpu.regs.get_flag(Flag::Carry));
    assert!(cpu.regs.get_flag(Flag::Zero));
    // A=0x10 - 0x00 with borrow in: borrows from bit 4 only.
    cpu.regs.a = 0x10;
    cpu.regs.set_flags(Flag::Carry, true);
    cpu.sbc(Operand8::new_reg(Reg8::B), &mem);
    assert_eq!(cpu.regs.a, 0x0f);
    assert!(cpu.regs.get_flag(Flag::HalfCarry));
    assert!(!cpu.regs.get_flag(Flag::Carry));
    // A=0x00 - 0x00 with borrow in: borrows out of both.
    cpu.regs.a = 0x00;
    cpu.regs.set_flags(Flag::Carry, true);
    cpu.sbc(Operand8::new_reg(Reg8::B), &mem);
    assert_eq!(cpu.regs.a, 0xff);
    assert!(cpu.regs.get_flag(Flag::HalfCarry));
    assert!(cpu.regs.get_flag(Flag::Carry));
}

#[test]
fn and_or_flags() {
    let mut cpu = Cpu::new();
    let mem = FlatBus::new(&[]);
    cpu.regs.a = 0xf0;
    cpu.regs.b = 0x0f;
    cpu.and(Operand8::new_reg(Reg8::B), &mem);
    assert_eq!(cpu.regs.a, 0);
    assert!(cpu.regs.get_flag(Flag::Zero));
    assert!(cpu.regs.get_flag(Flag::HalfCarry));
    cpu.or(Operand8::new_reg(Reg8::B), &mem);
    assert_eq!(cpu.regs.a, 0x0f);
    assert!(!cpu.regs.get_flag(Flag::Zero));
    assert!(!cpu.regs.get_flag(Flag::HalfCarry));
}
