use crate::alu::{
    add8, add_carry, add_impl, bit8, daa8, decimal_adjust, pow2, res8, rl8, rlc8, rr8, rrc8, set8,
    sla8, sra8, srl8, sub8, sub_carry, swap8,
};
use crate::cpu::{var_bus, var_regs, wrap16, Cpu, CpuBus};
use crate::instruction::{Instruction, Operand8, Var8};
use crate::regs::{flags_byte, Flag, Reg16, Reg8, RegisterSet};
use vstd::prelude::*;

verus! {

/// The signed value of an 8-bit two's complement offset.
pub open spec fn signed8(v: u8) -> int {
    if v >= 128 { v as int - 256 } else { v as int }
}

/// Whether an instruction is an 8-bit arithmetic or logic operation on A.
pub open spec fn is_alu8(i: Instruction) -> bool {
    match i {
        Instruction::Add(_) | Instruction::Adc(_) | Instruction::Sub(_) | Instruction::Sbc(_)
        | Instruction::And(_) | Instruction::Or(_) | Instruction::Xor(_) | Instruction::Cp(_) => true,
        _ => false,
    }
}

impl Cpu {
    /// The CPU after an 8-bit arithmetic or logic operation on A with its operand.
    pub open spec fn spec_alu8<B: CpuBus>(self, i: Instruction, bus: &B) -> Cpu {
        let a = self.regs.a;
        let carry = self.regs.flag(Flag::Carry);
        match i {
            Instruction::Add(src) => {
                let (r, h, c) = add8(a, self.operand_val(src, bus), false);
                Cpu { regs: RegisterSet { a: r, f: flags_byte(r == 0, false, h, c), ..self.regs }, pc: self.operand_pc(src), ..self }
            },
            Instruction::Adc(src) => {
                let (r, h, c) = add8(a, self.operand_val(src, bus), carry);
                Cpu { regs: RegisterSet { a: r, f: flags_byte(r == 0, false, h, c), ..self.regs }, pc: self.operand_pc(src), ..self }
            },
            Instruction::Sub(src) => {
                let (r, h, c) = sub8(a, self.operand_val(src, bus), false);
                Cpu { regs: RegisterSet { a: r, f: flags_byte(r == 0, true, h, c), ..self.regs }, pc: self.operand_pc(src), ..self }
            },
            Instruction::Sbc(src) => {
                let (r, h, c) = sub8(a, self.operand_val(src, bus), carry);
                Cpu { regs: RegisterSet { a: r, f: flags_byte(r == 0, true, h, c), ..self.regs }, pc: self.operand_pc(src), ..self }
            },
            Instruction::Cp(src) => {
                let (r, h, c) = sub8(a, self.operand_val(src, bus), false);
                Cpu { regs: RegisterSet { f: flags_byte(r == 0, true, h, c), ..self.regs }, pc: self.operand_pc(src), ..self }
            },
            Instruction::And(src) => {
                let r = a & self.operand_val(src, bus);
                Cpu { regs: RegisterSet { a: r, f: flags_byte(r == 0, false, true, false), ..self.regs }, pc: self.operand_pc(src), ..self }
            },
            Instruction::Or(src) => {
                let r = a | self.operand_val(src, bus);
                Cpu { regs: RegisterSet { a: r, f: flags_byte(r == 0, false, false, false), ..self.regs }, pc: self.operand_pc(src), ..self }
            },
            Instruction::Xor(src) => {
                let r = a ^ self.operand_val(src, bus);
                Cpu { regs: RegisterSet { a: r, f: flags_byte(r == 0, false, false, false), ..self.regs }, pc: self.operand_pc(src), ..self }
            },
            _ => self,
        }
    }

    /// A <- A + operand + carry.
    pub fn adc<B: CpuBus>(&mut self, src: Operand8, bus: &B)
        requires
            bus.bus_wf(),
            old(self).wf(),
        ensures
            final(self).wf(),
            ({
                let (r, h, c) = add8(old(self).regs.a, old(self).operand_val(src, bus), old(self).regs.flag(Flag::Carry));
                *final(self) == (Cpu {
                    regs: RegisterSet { a: r, f: flags_byte(r == 0, false, h, c), ..old(self).regs },
                    pc: old(self).operand_pc(src),
                    ..*old(self)
                })
            }),
    {
        let curr_carry = self.regs.get_flag(Flag::Carry);
        let v = self.read_operand(src, bus);
        let (r, h, c) = add_carry(self.regs.a, v, curr_carry);
        self.regs.a = r;
        self.regs.write_flags(r == 0, false, h, c);
    }

    /// A <- A + operand.
    pub fn add<B: CpuBus>(&mut self, src: Operand8, bus: &B)
        requires
            bus.bus_wf(),
            old(self).wf(),
        ensures
            final(self).wf(),
            ({
                let (r, h, c) = add8(old(self).regs.a, old(self).operand_val(src, bus), false);
                *final(self) == (Cpu {
                    regs: RegisterSet { a: r, f: flags_byte(r == 0, false, h, c), ..old(self).regs },
                    pc: old(self).operand_pc(src),
                    ..*old(self)
                })
            }),
    {
        let v = self.read_operand(src, bus);
        let mut a = self.regs.a;
        let (c, h) = add_impl(&mut a, v);
        self.regs.a = a;
        self.regs.write_flags(a == 0, false, h, c);
    }

    /// A <- A - operand - carry.
    pub fn sbc<B: CpuBus>(&mut self, src: Operand8, bus: &B)
        requires
            bus.bus_wf(),
            old(self).wf(),
        ensures
            final(self).wf(),
            ({
                let (r, h, c) = sub8(old(self).regs.a, old(self).operand_val(src, bus), old(self).regs.flag(Flag::Carry));
                *final(self) == (Cpu {
                    regs: RegisterSet { a: r, f: flags_byte(r == 0, true, h, c), ..old(self).regs },
                    pc: old(self).operand_pc(src),
                    ..*old(self)
                })
            }),
    {
        let curr_carry = self.regs.get_flag(Flag::Carry);
        let v = self.read_operand(src, bus);
        let (r, h, c) = sub_carry(self.regs.a, v, curr_carry);
        self.regs.a = r;
        self.regs.write_flags(r == 0, true, h, c);
    }

    /// A <- A - operand.
    pub fn sub<B: CpuBus>(&mut self, src: Operand8, bus: &B)
        requires
            bus.bus_wf(),
            old(self).wf(),
        ensures
            final(self).wf(),
            ({
                let (r, h, c) = sub8(old(self).regs.a, old(self).operand_val(src, bus), false);
                *final(self) == (Cpu {
                    regs: RegisterSet { a: r, f: flags_byte(r == 0, true, h, c), ..old(self).regs },
                    pc: old(self).operand_pc(src),
                    ..*old(self)
                })
            }),
    {
        let v = self.read_operand(src, bus);
        let mut a = self.regs.a;
        let (c, h) = crate::alu::sub_impl(&mut a, v);
        self.regs.a = a;
        self.regs.write_flags(a == 0, true, h, c);
    }

    /// Sets the flags as A - operand would, leaving A unchanged.
    pub fn cp<B: CpuBus>(&mut self, src: Operand8, bus: &B)
        requires
            bus.bus_wf(),
            old(self).wf(),
        ensures
            final(self).wf(),
            ({
                let (r, h, c) = sub8(old(self).regs.a, old(self).operand_val(src, bus), false);
                *final(self) == (Cpu {
                    regs: RegisterSet { f: flags_byte(r == 0, true, h, c), ..old(self).regs },
                    pc: old(self).operand_pc(src),
                    ..*old(self)
                })
            }),
    {
        let a = self.regs.a;
        self.sub(src, bus);
        self.regs.a = a;
    }

    /// A <- A & operand.
    pub fn and<B: CpuBus>(&mut self, src: Operand8, bus: &B)
        requires
            bus.bus_wf(),
            old(self).wf(),
        ensures
            final(self).wf(),
            ({
                let r = old(self).regs.a & old(self).operand_val(src, bus);
                *final(self) == (Cpu {
                    regs: RegisterSet { a: r, f: flags_byte(r == 0, false, true, false), ..old(self).regs },
                    pc: old(self).operand_pc(src),
                    ..*old(self)
                })
            }),
    {
        let v = self.read_operand(src, bus);
        let r = self.regs.a & v;
        self.regs.a = r;
        self.regs.write_flags(r == 0, false, true, false);
    }

    /// A <- A | operand.
    pub fn or<B: CpuBus>(&mut self, src: Operand8, bus: &B)
        requires
            bus.bus_wf(),
            old(self).wf(),
        ensures
            final(self).wf(),
            ({
                let r = old(self).regs.a | old(self).operand_val(src, bus);
                *final(self) == (Cpu {
                    regs: RegisterSet { a: r, f: flags_byte(r == 0, false, false, false), ..old(self).regs },
                    pc: old(self).operand_pc(src),
                    ..*old(self)
                })
            }),
    {
        let v = self.read_operand(src, bus);
        let r = self.regs.a | v;
        self.regs.a = r;
        self.regs.write_flags(r == 0, false, false, false);
    }

    /// A <- A ^ operand.
    pub fn xor<B: CpuBus>(&mut self, src: Operand8, bus: &B)
        requires
            bus.bus_wf(),
            old(self).wf(),
        ensures
            final(self).wf(),
            ({
                let r = old(self).regs.a ^ old(self).operand_val(src, bus);
                *final(self) == (Cpu {
                    regs: RegisterSet { a: r, f: flags_byte(r == 0, false, false, false), ..old(self).regs },
                    pc: old(self).operand_pc(src),
                    ..*old(self)
                })
            }),
    {
        let v = self.read_operand(src, bus);
        let r = self.regs.a ^ v;
        self.regs.a = r;
        self.regs.write_flags(r == 0, false, false, false);
    }

    /// Decimal adjust of A after a BCD addition or subtraction.
    pub fn daa(&mut self)
        requires
            old(self).wf(),
        ensures
            final(self).wf(),
            ({
                let n = old(self).regs.flag(Flag::Sub);
                let (r, c) = daa8(old(self).regs.a, n, old(self).regs.flag(Flag::HalfCarry), old(self).regs.flag(Flag::Carry));
                *final(self) == (Cpu {
                    regs: RegisterSet { a: r, f: flags_byte(r == 0, n, false, c), ..old(self).regs },
                    ..*old(self)
                })
            }),
    {
        let subtract = self.regs.get_flag(Flag::Sub);
        let carry = self.regs.get_flag(Flag::Carry);
        let half_carry = self.regs.get_flag(Flag::HalfCarry);
        let (a, c) = decimal_adjust(self.regs.a, subtract, half_carry, carry);
        self.regs.a = a;
        self.regs.write_flags(a == 0, subtract, false, c);
    }

    /// Increments a location; the carry flag is kept.
    pub fn inc<B: CpuBus>(&mut self, var: Var8, bus: &mut B)
        requires
            old(bus).bus_wf(),
            old(self).wf(),
        ensures
            final(bus).bus_wf(),
            final(self).wf(),
            ({
                let r = ((old(self).var_val(var, old(bus)) + 1) % 256) as u8;
                &&& var_bus(*old(bus), old(self).regs, var, r, *final(bus))
                &&& *final(self) == (Cpu {
                    regs: RegisterSet {
                        f: flags_byte(r == 0, false, r % 16 == 0, old(self).regs.flag(Flag::Carry)),
                        ..var_regs(old(self).regs, var, r)
                    },
                    ..*old(self)
                })
            }),
    {
        let c = self.regs.get_flag(Flag::Carry);
        let val = self.read_var(var, bus).wrapping_add(1);
        self.write_var(var, val, bus);
        self.regs.write_flags(val == 0, false, val % 16 == 0, c);
    }

    /// Decrements a location; the carry flag is kept.
    pub fn dec<B: CpuBus>(&mut self, var: Var8, bus: &mut B)
        requires
            old(bus).bus_wf(),
            old(self).wf(),
        ensures
            final(bus).bus_wf(),
            final(self).wf(),
            ({
                let r = ((old(self).var_val(var, old(bus)) + 255) % 256) as u8;
                &&& var_bus(*old(bus), old(self).regs, var, r, *final(bus))
                &&& *final(self) == (Cpu {
                    regs: RegisterSet {
                        f: flags_byte(r == 0, true, r % 16 == 15, old(self).regs.flag(Flag::Carry)),
                        ..var_regs(old(self).regs, var, r)
                    },
                    ..*old(self)
                })
            }),
    {
        let c = self.regs.get_flag(Flag::Carry);
        let val = self.read_var(var, bus).wrapping_sub(1);
        self.write_var(var, val, bus);
        self.regs.write_flags(val == 0, true, val % 16 == 15, c);
    }

    /// A <- !A.
    pub fn cpl(&mut self)
        requires
            old(self).wf(),
        ensures
            final(self).wf(),
            *final(self) == (Cpu {
                regs: RegisterSet {
                    a: (255 - old(self).regs.a) as u8,
                    f: flags_byte(old(self).regs.flag(Flag::Zero), true, true, old(self).regs.flag(Flag::Carry)),
                    ..old(self).regs
                },
                ..*old(self)
            }),
    {
        self.regs.a = 255 - self.regs.a;
        let z = self.regs.get_flag(Flag::Zero);
        let c = self.regs.get_flag(Flag::Carry);
        self.regs.write_flags(z, true, true, c);
    }

    /// Sets the zero flag when bit `bit` of the location is clear.
    pub fn bit<B: CpuBus>(&mut self, bit: u8, var: Var8, bus: &B)
        requires
            bus.bus_wf(),
            old(self).wf(),
            bit < 8,
        ensures
            final(self).wf(),
            *final(self) == (Cpu {
                regs: RegisterSet {
                    f: flags_byte(!bit8(old(self).var_val(var, bus), bit), false, true, old(self).regs.flag(Flag::Carry)),
                    ..old(self).regs
                },
                ..*old(self)
            }),
    {
        let v = self.read_var(var, bus);
        let zero = (v / pow2(bit)) % 2 == 0;
        let c = self.regs.get_flag(Flag::Carry);
        self.regs.write_flags(zero, false, true, c);
    }

    /// Clears bit `bit` of the location.
    pub fn res<B: CpuBus>(&mut self, bit: u8, var: Var8, bus: &mut B)
        requires
            old(bus).bus_wf(),
            old(self).wf(),
            bit < 8,
        ensures
            final(bus).bus_wf(),
            final(self).wf(),
            ({
                let r = res8(old(self).var_val(var, old(bus)), bit);
                &&& var_bus(*old(bus), old(self).regs, var, r, *final(bus))
                &&& *final(self) == (Cpu { regs: var_regs(old(self).regs, var, r), ..*old(self) })
            }),
    {
        let val = self.read_var(var, bus);
        let m = pow2(bit);
        let r = if (val / m) % 2 == 1 { val - m } else { val };
        self.write_var(var, r, bus);
    }

    /// Sets bit `bit` of the location.
    pub fn set<B: CpuBus>(&mut self, bit: u8, var: Var8, bus: &mut B)
        requires
            old(bus).bus_wf(),
            old(self).wf(),
            bit < 8,
        ensures
            final(bus).bus_wf(),
            final(self).wf(),
            ({
                let r = set8(old(self).var_val(var, old(bus)), bit);
                &&& var_bus(*old(bus), old(self).regs, var, r, *final(bus))
                &&& *final(self) == (Cpu { regs: var_regs(old(self).regs, var, r), ..*old(self) })
            }),
    {
        let val = self.read_var(var, bus);
        let m = pow2(bit);
        assert((val / m) % 2 == 0 ==> val + m < 256) by {
            assert(val == (val / m) * m + val % m) by (nonlinear_arith)
                requires
                    m > 0,
            ;
            assert(val % m < m);
            if (val / m) % 2 == 0 {
                let q = val / m;
                assert(q * m <= 256 - 2 * m) by (nonlinear_arith)
                    requires
                        q % 2 == 0,
                        q * m <= 255,
                        m == 1 || m == 2 || m == 4 || m == 8 || m == 16 || m == 32 || m == 64 || m == 128,
                        q >= 0,
                ;
            }
        }
        let r = if (val / m) % 2 == 0 { val + m } else { val };
        self.write_var(var, r, bus);
    }

    /// Stores a shifted or rotated value and sets Z and C from it.
    fn store_shifted<B: CpuBus>(&mut self, var: Var8, r: u8, c: bool, bus: &mut B)
        requires
            old(bus).bus_wf(),
            old(self).wf(),
        ensures
            final(bus).bus_wf(),
            final(self).wf(),
            var_bus(*old(bus), old(self).regs, var, r, *final(bus)),
            *final(self) == (Cpu {
                regs: var_regs(RegisterSet { f: flags_byte(r == 0, false, false, c), ..old(self).regs }, var, r),
                ..*old(self)
            }),
    {
        self.regs.write_flags(r == 0, false, false, c);
        self.write_var(var, r, bus);
    }

    /// Rotate left through the carry flag.
    pub fn rl<B: CpuBus>(&mut self, var: Var8, bus: &mut B)
        requires
            old(bus).bus_wf(),
            old(self).wf(),
        ensures
            final(bus).bus_wf(),
            final(self).wf(),
            ({
                let (r, c) = rl8(old(self).var_val(var, old(bus)), old(self).regs.flag(Flag::Carry));
                &&& var_bus(*old(bus), old(self).regs, var, r, *final(bus))
                &&& *final(self) == (Cpu {
                    regs: var_regs(RegisterSet { f: flags_byte(r == 0, false, false, c), ..old(self).regs }, var, r),
                    ..*old(self)
                })
            }),
    {
        let carry: u8 = if self.regs.get_flag(Flag::Carry) { 1 } else { 0 };
        let v = self.read_var(var, bus);
        let r = (v % 128) * 2 + carry;
        self.store_shifted(var, r, v >= 128, bus);
    }

    /// Rotate left.
    pub fn rlc<B: CpuBus>(&mut self, var: Var8, bus: &mut B)
        requires
            old(bus).bus_wf(),
            old(self).wf(),
        ensures
            final(bus).bus_wf(),
            final(self).wf(),
            ({
                let (r, c) = rlc8(old(self).var_val(var, old(bus)));
                &&& var_bus(*old(bus), old(self).regs, var, r, *final(bus))
                &&& *final(self) == (Cpu {
                    regs: var_regs(RegisterSet { f: flags_byte(r == 0, false, false, c), ..old(self).regs }, var, r),
                    ..*old(self)
                })
            }),
    {
        let v = self.read_var(var, bus);
        let r = (v % 128) * 2 + v / 128;
        self.store_shifted(var, r, v >= 128, bus);
    }

    /// Rotate right through the carry flag.
    pub fn rr<B: CpuBus>(&mut self, var: Var8, bus: &mut B)
        requires
            old(bus).bus_wf(),
            old(self).wf(),
        ensures
            final(bus).bus_wf(),
            final(self).wf(),
            ({
                let (r, c) = rr8(old(self).var_val(var, old(bus)), old(self).regs.flag(Flag::Carry));
                &&& var_bus(*old(bus), old(self).regs, var, r, *final(bus))
                &&& *final(self) == (Cpu {
                    regs: var_regs(RegisterSet { f: flags_byte(r == 0, false, false, c), ..old(self).regs }, var, r),
                    ..*old(self)
                })
            }),
    {
        let carry: u8 = if self.regs.get_flag(Flag::Carry) { 128 } else { 0 };
        let v = self.read_var(var, bus);
        let r = v / 2 + carry;
        self.store_shifted(var, r, v % 2 == 1, bus);
    }

    /// Rotate right.
    pub fn rrc<B: CpuBus>(&mut self, var: Var8, bus: &mut B)
        requires
            old(bus).bus_wf(),
            old(self).wf(),
        ensures
            final(bus).bus_wf(),
            final(self).wf(),
            ({
                let (r, c) = rrc8(old(self).var_val(var, old(bus)));
                &&& var_bus(*old(bus), old(self).regs, var, r, *final(bus))
                &&& *final(self) == (Cpu {
                    regs: var_regs(RegisterSet { f: flags_byte(r == 0, false, false, c), ..old(self).regs }, var, r),
                    ..*old(self)
                })
            }),
    {
        let v = self.read_var(var, bus);
        let r = v / 2 + (v % 2) * 128;
        self.store_shifted(var, r, v % 2 == 1, bus);
    }

    /// Shift left; bit 0 becomes zero.
    pub fn sla<B: CpuBus>(&mut self, var: Var8, bus: &mut B)
        requires
            old(bus).bus_wf(),
            old(self).wf(),
        ensures
            final(bus).bus_wf(),
            final(self).wf(),
            ({
                let (r, c) = sla8(old(self).var_val(var, old(bus)));
                &&& var_bus(*old(bus), old(self).regs, var, r, *final(bus))
                &&& *final(self) == (Cpu {
                    regs: var_regs(RegisterSet { f: flags_byte(r == 0, false, false, c), ..old(self).regs }, var, r),
                    ..*old(self)
                })
            }),
    {
        let v = self.read_var(var, bus);
        let r = (v % 128) * 2;
        self.store_shifted(var, r, v >= 128, bus);
    }

    /// Arithmetic shift right; bit 7 is kept.
    pub fn sra<B: CpuBus>(&mut self, var: Var8, bus: &mut B)
        requires
            old(bus).bus_wf(),
            old(self).wf(),
        ensures
            final(bus).bus_wf(),
            final(self).wf(),
            ({
                let (r, c) = sra8(old(self).var_val(var, old(bus)));
                &&& var_bus(*old(bus), old(self).regs, var, r, *final(bus))
                &&& *final(self) == (Cpu {
                    regs: var_regs(RegisterSet { f: flags_byte(r == 0, false, false, c), ..old(self).regs }, var, r),
                    ..*old(self)
                })
            }),
    {
        let v = self.read_var(var, bus);
        let r = v / 2 + (v / 128) * 128;
        self.store_shifted(var, r, v % 2 == 1, bus);
    }

    /// Logical shift right; bit 7 becomes zero.
    pub fn srl<B: CpuBus>(&mut self, var: Var8, bus: &mut B)
        requires
            old(bus).bus_wf(),
            old(self).wf(),
        ensures
            final(bus).bus_wf(),
            final(self).wf(),
            ({
                let (r, c) = srl8(old(self).var_val(var, old(bus)));
                &&& var_bus(*old(bus), old(self).regs, var, r, *final(bus))
                &&& *final(self) == (Cpu {
                    regs: var_regs(RegisterSet { f: flags_byte(r == 0, false, false, c), ..old(self).regs }, var, r),
                    ..*old(self)
                })
            }),
    {
        let v = self.read_var(var, bus);
        self.store_shifted(var, v / 2, v % 2 == 1, bus);
    }

    /// Exchanges the nibbles of a location.
    pub fn swap<B: CpuBus>(&mut self, var: Var8, bus: &mut B)
        requires
            old(bus).bus_wf(),
            old(self).wf(),
        ensures
            final(bus).bus_wf(),
            final(self).wf(),
            ({
                let r = swap8(old(self).var_val(var, old(bus)));
                &&& var_bus(*old(bus), old(self).regs, var, r, *final(bus))
                &&& *final(self) == (Cpu {
                    regs: var_regs(RegisterSet { f: flags_byte(r == 0, false, false, false), ..old(self).regs }, var, r),
                    ..*old(self)
                })
            }),
    {
        let v = self.read_var(var, bus);
        let r = (v % 16) * 16 + v / 16;
        self.store_shifted(var, r, false, bus);
    }

    /// Rotates A left through carry; the zero flag is cleared.
    pub fn rla<B: CpuBus>(&mut self, bus: &mut B)
        requires
            old(bus).bus_wf(),
            old(self).wf(),
        ensures
            final(bus).bus_wf(),
            final(self).wf(),
            *final(bus) == *old(bus),
            ({
                let (r, c) = rl8(old(self).regs.a, old(self).regs.flag(Flag::Carry));
                *final(self) == (Cpu {
                    regs: RegisterSet { a: r, f: flags_byte(false, false, false, c), ..old(self).regs },
                    ..*old(self)
                })
            }),
    {
        self.rl(Var8::Reg(Reg8::A), bus);
        let c = self.regs.get_flag(Flag::Carry);
        self.regs.write_flags(false, false, false, c);
    }

    /// Rotates A left; the zero flag is cleared.
    pub fn rlca<B: CpuBus>(&mut self, bus: &mut B)
        requires
            old(bus).bus_wf(),
            old(self).wf(),
        ensures
            final(bus).bus_wf(),
            final(self).wf(),
            *final(bus) == *old(bus),
            ({
                let (r, c) = rlc8(old(self).regs.a);
                *final(self) == (Cpu {
                    regs: RegisterSet { a: r, f: flags_byte(false, false, false, c), ..old(self).regs },
                    ..*old(self)
                })
            }),
    {
        self.rlc(Var8::Reg(Reg8::A), bus);
        let c = self.regs.get_flag(Flag::Carry);
        self.regs.write_flags(false, false, false, c);
    }

    /// Rotates A right through carry; the zero flag is cleared.
    pub fn rra<B: CpuBus>(&mut self, bus: &mut B)
        requires
            old(bus).bus_wf(),
            old(self).wf(),
        ensures
            final(bus).bus_wf(),
            final(self).wf(),
            *final(bus) == *old(bus),
            ({
                let (r, c) = rr8(old(self).regs.a, old(self).regs.flag(Flag::Carry));
                *final(self) == (Cpu {
                    regs: RegisterSet { a: r, f: flags_byte(false, false, false, c), ..old(self).regs },
                    ..*old(self)
                })
            }),
    {
        self.rr(Var8::Reg(Reg8::A), bus);
        let c = self.regs.get_flag(Flag::Carry);
        self.regs.write_flags(false, false, false, c);
    }

    /// Rotates A right; the zero flag is cleared.
    pub fn rrca<B: CpuBus>(&mut self, bus: &mut B)
        requires
            old(bus).bus_wf(),
            old(self).wf(),
        ensures
            final(bus).bus_wf(),
            final(self).wf(),
            *final(bus) == *old(bus),
            ({
                let (r, c) = rrc8(old(self).regs.a);
                *final(self) == (Cpu {
                    regs: RegisterSet { a: r, f: flags_byte(false, false, false, c), ..old(self).regs },
                    ..*old(self)
                })
            }),
    {
        self.rrc(Var8::Reg(Reg8::A), bus);
        let c = self.regs.get_flag(Flag::Carry);
        self.regs.write_flags(false, false, false, c);
    }

    pub fn inc_16(&mut self, reg: Reg16)
        requires
            old(self).wf(),
        ensures
            final(self).wf(),
            *final(self) == (Cpu {
                regs: old(self).regs.set16(reg, wrap16(old(self).regs.get16(reg) + 1)),
                ..*old(self)
            }),
    {
        let v = self.regs.read16(reg);
        self.regs.write16(reg, v.wrapping_add(1));
    }

    pub fn dec_16(&mut self, reg: Reg16)
        requires
            old(self).wf(),
        ensures
            final(self).wf(),
            *final(self) == (Cpu {
                regs: old(self).regs.set16(reg, wrap16(old(self).regs.get16(reg) - 1)),
                ..*old(self)
            }),
    {
        let v = self.regs.read16(reg);
        self.regs.write16(reg, v.wrapping_sub(1));
    }

    /// HL <- HL + reg, with carry out of bit 15 and half-carry out of bit 11.
    pub fn add_hl(&mut self, reg: Reg16)
        requires
            old(self).wf(),
        ensures
            final(self).wf(),
            ({
                let hl = old(self).regs.get16(Reg16::HL) as int;
                let v = old(self).regs.get16(reg) as int;
                *final(self) == (Cpu {
                    regs: RegisterSet {
                        f: flags_byte(old(self).regs.flag(Flag::Zero), false, hl % 4096 + v % 4096 >= 4096, hl + v >= 65536),
                        ..old(self).regs
                    }.set16(Reg16::HL, wrap16(hl + v)),
                    ..*old(self)
                })
            }),
    {
        let val = self.regs.read16(reg);
        let hl = self.regs.read16(Reg16::HL);
        let z = self.regs.get_flag(Flag::Zero);
        let carry = hl.checked_add(val).is_none();
        let half_carry = hl % 4096 + val % 4096 >= 4096;
        let sum = hl.wrapping_add(val);
        assert(sum == wrap16(hl + val));
        self.regs.write_flags(z, false, half_carry, carry);
        self.regs.write16(Reg16::HL, sum);
    }

    /// Complements the carry flag.
    pub fn ccf(&mut self)
        requires
            old(self).wf(),
        ensures
            final(self).wf(),
            *final(self) == (Cpu {
                regs: RegisterSet {
                    f: flags_byte(old(self).regs.flag(Flag::Zero), false, false, !old(self).regs.flag(Flag::Carry)),
                    ..old(self).regs
                },
                ..*old(self)
            }),
    {
        let z = self.regs.get_flag(Flag::Zero);
        let c = self.regs.get_flag(Flag::Carry);
        self.regs.write_flags(z, false, false, !c);
    }

    /// Sets the carry flag.
    pub fn scf(&mut self)
        requires
            old(self).wf(),
        ensures
            final(self).wf(),
            *final(self) == (Cpu {
                regs: RegisterSet { f: flags_byte(old(self).regs.flag(Flag::Zero), false, false, true), ..old(self).regs },
                ..*old(self)
            }),
    {
        let z = self.regs.get_flag(Flag::Zero);
        self.regs.write_flags(z, false, false, true);
    }

    /// SP plus a signed immediate byte, shared by two instructions. The flags
    /// come from an unsigned add of the byte to SP's low byte; Z and N are cleared.
    pub fn sp_imm_inc<B: CpuBus>(&mut self, bus: &B) -> (r: u16)
        requires
            bus.bus_wf(),
            old(self).wf(),
        ensures
            final(self).wf(),
            ({
                let sp = old(self).regs.sp;
                let imm = bus.peek(old(self).pc);
                let (_, h, c) = add8((sp % 256) as u8, imm, false);
                &&& r == wrap16(sp + signed8(imm) + 0x10000)
                &&& *final(self) == (Cpu {
                    regs: RegisterSet { f: flags_byte(false, false, h, c), ..old(self).regs },
                    pc: wrap16(old(self).pc + 1),
                    ..*old(self)
                })
            }),
    {
        let sp = self.regs.sp;
        let imm = self.read_immedate_8(bus);
        let mut low = (sp % 256) as u8;
        let (carry, half_carry) = add_impl(&mut low, imm);
        self.regs.write_flags(false, false, half_carry, carry);
        if imm >= 128 {
            sp.wrapping_sub(256 - imm as u16)
        } else {
            sp.wrapping_add(imm as u16)
        }
    }

    /// HL <- SP + signed immediate.
    pub fn load_hl_sp_imm_inc<B: CpuBus>(&mut self, bus: &B)
        requires
            bus.bus_wf(),
            old(self).wf(),
        ensures
            final(self).wf(),
            ({
                let sp = old(self).regs.sp;
                let imm = bus.peek(old(self).pc);
                let (_, h, c) = add8((sp % 256) as u8, imm, false);
                *final(self) == (Cpu {
                    regs: RegisterSet { f: flags_byte(false, false, h, c), ..old(self).regs }.set16(
                        Reg16::HL,
                        wrap16(sp + signed8(imm) + 0x10000),
                    ),
                    pc: wrap16(old(self).pc + 1),
                    ..*old(self)
                })
            }),
    {
        let v = self.sp_imm_inc(bus);
        self.regs.write16(Reg16::HL, v);
    }

    /// SP <- SP + signed immediate.
    pub fn add_sp<B: CpuBus>(&mut self, bus: &B)
        requires
            bus.bus_wf(),
            old(self).wf(),
        ensures
            final(self).wf(),
            ({
                let sp = old(self).regs.sp;
                let imm = bus.peek(old(self).pc);
                let (_, h, c) = add8((sp % 256) as u8, imm, false);
                *final(self) == (Cpu {
                    regs: RegisterSet { f: flags_byte(false, false, h, c), sp: wrap16(sp + signed8(imm) + 0x10000), ..old(self).regs },
                    pc: wrap16(old(self).pc + 1),
                    ..*old(self)
                })
            }),
    {
        let v = self.sp_imm_inc(bus);
        self.regs.sp = v;
    }
}

} // verus!
