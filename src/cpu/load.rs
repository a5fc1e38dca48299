use crate::cpu::{peek16, poke16, read_16, var_bus, var_regs, wrap16, write_16, Cpu, CpuBus};
use crate::instruction::{HlIncDec, Operand8, Var8};
use crate::regs::{Reg16, Reg8, RegisterSet};
use vstd::prelude::*;

verus! {

/// HL after a post-increment or post-decrement.
pub open spec fn hl_after(hl: u16, inc_dec: HlIncDec) -> u16 {
    match inc_dec {
        HlIncDec::Inc => wrap16(hl + 1),
        HlIncDec::Dec => wrap16(hl - 1 + 0x10000),
    }
}

impl Cpu {
    /// dst <- src.
    pub fn load<B: CpuBus>(&mut self, dst: Var8, src: Operand8, bus: &mut B)
        requires
            old(bus).bus_wf(),
            old(self).wf(),
        ensures
            final(bus).bus_wf(),
            final(self).wf(),
            ({
                let v = old(self).operand_val(src, old(bus));
                &&& var_bus(*old(bus), old(self).regs, dst, v, *final(bus))
                &&& *final(self) == (Cpu {
                    regs: var_regs(old(self).regs, dst, v),
                    pc: old(self).operand_pc(src),
                    ..*old(self)
                })
            }),
    {
        let val = self.read_operand(src, bus);
        self.write_var(dst, val, bus);
    }

    /// (reg) <- A.
    pub fn load_reg_mem_a<B: CpuBus>(&mut self, reg: Reg16, bus: &mut B)
        requires
            old(bus).bus_wf(),
        ensures
            final(bus).bus_wf(),
            *final(self) == *old(self),
            old(bus).poke(old(self).regs.get16(reg), old(self).regs.a, *final(bus)),
    {
        bus.write_8(self.regs.read16(reg), self.regs.a);
    }

    /// A <- (reg).
    pub fn load_a_reg_mem<B: CpuBus>(&mut self, reg: Reg16, bus: &B)
        requires
            bus.bus_wf(),
        ensures
            *final(self) == (Cpu {
                regs: RegisterSet { a: bus.peek(old(self).regs.get16(reg)), ..old(self).regs },
                ..*old(self)
            }),
    {
        self.regs.a = bus.read_8(self.regs.read16(reg));
    }

    /// (imm16) <- A.
    pub fn load_imm_mem_a<B: CpuBus>(&mut self, bus: &mut B)
        requires
            old(bus).bus_wf(),
        ensures
            final(bus).bus_wf(),
            *final(self) == (Cpu { pc: wrap16(old(self).pc + 2), ..*old(self) }),
            old(bus).poke(peek16(old(bus), old(self).pc), old(self).regs.a, *final(bus)),
    {
        let addr = self.read_immedate_16(bus);
        bus.write_8(addr, self.regs.a);
    }

    /// A <- (imm16).
    pub fn load_a_imm_mem<B: CpuBus>(&mut self, bus: &mut B)
        requires
            old(bus).bus_wf(),
        ensures
            final(bus).bus_wf(),
            *final(bus) == *old(bus),
            *final(self) == (Cpu {
                regs: RegisterSet { a: old(bus).peek(peek16(old(bus), old(self).pc)), ..old(self).regs },
                pc: wrap16(old(self).pc + 2),
                ..*old(self)
            }),
    {
        let addr = self.read_immedate_16(bus);
        self.regs.a = bus.read_8(addr);
    }

    /// (0xff00 + imm8) <- A.
    pub fn load_high_imm_mem_a<B: CpuBus>(&mut self, bus: &mut B)
        requires
            old(bus).bus_wf(),
        ensures
            final(bus).bus_wf(),
            *final(self) == (Cpu { pc: wrap16(old(self).pc + 1), ..*old(self) }),
            old(bus).poke((0xff00 + old(bus).peek(old(self).pc)) as u16, old(self).regs.a, *final(bus)),
    {
        let addr = 0xff00 + self.read_immedate_8(bus) as u16;
        bus.write_8(addr, self.regs.a);
    }

    /// A <- (0xff00 + imm8).
    pub fn load_high_a_imm_mem<B: CpuBus>(&mut self, bus: &B)
        requires
            bus.bus_wf(),
        ensures
            *final(self) == (Cpu {
                regs: RegisterSet { a: bus.peek((0xff00 + bus.peek(old(self).pc)) as u16), ..old(self).regs },
                pc: wrap16(old(self).pc + 1),
                ..*old(self)
            }),
    {
        let addr = 0xff00 + self.read_immedate_8(bus) as u16;
        self.regs.a = bus.read_8(addr);
    }

    /// (0xff00 + C) <- A.
    pub fn load_high_c_mem_a<B: CpuBus>(&mut self, bus: &mut B)
        requires
            old(bus).bus_wf(),
        ensures
            final(bus).bus_wf(),
            *final(self) == *old(self),
            old(bus).poke((0xff00 + old(self).regs.c) as u16, old(self).regs.a, *final(bus)),
    {
        let addr = 0xff00 + self.regs.c as u16;
        bus.write_8(addr, self.regs.a);
    }

    /// A <- (0xff00 + C).
    pub fn load_high_a_c_mem<B: CpuBus>(&mut self, bus: &B)
        requires
            bus.bus_wf(),
        ensures
            *final(self) == (Cpu {
                regs: RegisterSet { a: bus.peek((0xff00 + old(self).regs.c) as u16), ..old(self).regs },
                ..*old(self)
            }),
    {
        let addr = 0xff00 + self.regs.c as u16;
        self.regs.a = bus.read_8(addr);
    }

    /// HL <- HL + 1 or HL - 1.
    pub fn inc_dec(&mut self, inc_dec: HlIncDec)
        ensures
            *final(self) == (Cpu {
                regs: old(self).regs.set16(Reg16::HL, hl_after(old(self).regs.get16(Reg16::HL), inc_dec)),
                ..*old(self)
            }),
    {
        let hl = self.regs.read16(Reg16::HL);
        let v = match inc_dec {
            HlIncDec::Inc => hl.wrapping_add(1),
            HlIncDec::Dec => hl.wrapping_sub(1),
        };
        self.regs.write16(Reg16::HL, v);
    }

    /// (HL) <- A, then HL steps.
    pub fn load_inc_dec_a<B: CpuBus>(&mut self, inc_dec: HlIncDec, bus: &mut B)
        requires
            old(bus).bus_wf(),
        ensures
            final(bus).bus_wf(),
            old(bus).poke(old(self).regs.get16(Reg16::HL), old(self).regs.a, *final(bus)),
            *final(self) == (Cpu {
                regs: old(self).regs.set16(Reg16::HL, hl_after(old(self).regs.get16(Reg16::HL), inc_dec)),
                ..*old(self)
            }),
    {
        bus.write_8(self.regs.read16(Reg16::HL), self.regs.a);
        self.inc_dec(inc_dec);
    }

    /// A <- (HL), then HL steps.
    pub fn load_a_inc_dec<B: CpuBus>(&mut self, inc_dec: HlIncDec, bus: &mut B)
        requires
            old(bus).bus_wf(),
        ensures
            final(bus).bus_wf(),
            *final(bus) == *old(bus),
            *final(self) == (Cpu {
                regs: RegisterSet {
                    a: old(bus).peek(old(self).regs.get16(Reg16::HL)),
                    ..old(self).regs
                }.set16(Reg16::HL, hl_after(old(self).regs.get16(Reg16::HL), inc_dec)),
                ..*old(self)
            }),
    {
        self.regs.a = bus.read_8(self.regs.read16(Reg16::HL));
        self.inc_dec(inc_dec);
    }

    /// reg <- imm16.
    pub fn load_16<B: CpuBus>(&mut self, reg: Reg16, bus: &B)
        requires
            bus.bus_wf(),
        ensures
            *final(self) == (Cpu {
                regs: old(self).regs.set16(reg, peek16(bus, old(self).pc)),
                pc: wrap16(old(self).pc + 2),
                ..*old(self)
            }),
    {
        let v = self.read_immedate_16(bus);
        self.regs.write16(reg, v);
    }

    /// (imm16) <- SP, little-endian.
    pub fn load_imm_mem_sp<B: CpuBus>(&mut self, bus: &mut B)
        requires
            old(bus).bus_wf(),
        ensures
            final(bus).bus_wf(),
            *final(self) == (Cpu { pc: wrap16(old(self).pc + 2), ..*old(self) }),
            poke16(*old(bus), peek16(old(bus), old(self).pc), old(self).regs.sp, *final(bus)),
    {
        let addr = self.read_immedate_16(bus);
        write_16(bus, addr, self.regs.sp);
    }

    /// SP <- HL.
    pub fn load_sp_hl(&mut self)
        ensures
            *final(self) == (Cpu {
                regs: RegisterSet { sp: old(self).regs.get16(Reg16::HL), ..old(self).regs },
                ..*old(self)
            }),
    {
        self.regs.sp = self.regs.read16(Reg16::HL);
    }

    /// SP <- SP - 2, then (SP) <- reg.
    pub fn push<B: CpuBus>(&mut self, reg: Reg16, bus: &mut B)
        requires
            old(bus).bus_wf(),
        ensures
            final(bus).bus_wf(),
            ({
                let sp = wrap16(old(self).regs.sp - 2 + 0x10000);
                &&& poke16(*old(bus), sp, old(self).regs.get16(reg), *final(bus))
                &&& *final(self) == (Cpu { regs: RegisterSet { sp, ..old(self).regs }, ..*old(self) })
            }),
    {
        let val = self.regs.read16(reg);
        let sp = self.regs.sp.wrapping_sub(2);
        self.regs.sp = sp;
        write_16(bus, sp, val);
    }

    /// reg <- (SP), then SP <- SP + 2. Popping AF keeps the flag register's low
    /// nibble zero.
    pub fn pop<B: CpuBus>(&mut self, reg: Reg16, bus: &B)
        requires
            bus.bus_wf(),
            old(self).wf(),
        ensures
            final(self).wf(),
            *final(self) == (Cpu {
                regs: RegisterSet { sp: wrap16(old(self).regs.sp + 2), ..old(self).regs }.set16(
                    reg,
                    peek16(bus, old(self).regs.sp),
                ),
                ..*old(self)
            }),
    {
        let sp = self.regs.sp;
        let val = read_16(bus, sp);
        self.regs.sp = sp.wrapping_add(2);
        self.regs.write16(reg, val);
    }
}

} // verus!
