use crate::instruction::{
    spec_opcode_entry, spec_prefix_entry, is_undefined_opcode, spec_alu_op, spec_var8, bit_args_ok, entry_for_opcode, entry_for_prefix_opcode, entry_wf, is_conditional, Instruction,
    InstructionEntry, Operand8, Test, Var8, PREFIX_OPCODE,
};
use crate::alu::{add8, bit8, daa8, res8, rl8, rlc8, rr8, rrc8, set8, sla8, sra8, srl8, swap8};
use crate::cpu::arith::signed8;
use crate::cpu::load::hl_after;
use crate::regs::{flags_byte, Flag, Reg16, Reg8, RegisterSet};
use vstd::prelude::*;

pub mod arith;
pub mod control;
pub mod load;

verus! {

/// `x` reduced into the 16-bit range.
pub open spec fn wrap16(x: int) -> u16 {
    (x % 0x10000) as u16
}

/// `x` reduced into the 8-bit range.
pub open spec fn wrap8(x: int) -> u8 {
    (x % 0x100) as u8
}

/// The view of the address space that the CPU is given for one cycle.
pub trait CpuBus: Sized {
    /// What a read of `addr` returns.
    spec fn peek(&self, addr: u16) -> u8;

    /// Whether `after` is this bus once `val` was written to `addr`.
    spec fn poke(self, addr: u16, val: u8, after: Self) -> bool;

    /// Whether the bus's own invariant holds; every operation keeps it.
    spec fn bus_wf(&self) -> bool;

    /// Whether a DMA transfer stalls the CPU.
    spec fn dma_paused(&self) -> bool;

    /// The bus after the pending interrupt of highest priority is taken, and
    /// that interrupt's bit number, if one was pending.
    spec fn popped(self) -> (Self, Option<u8>);

    /// Whether an enabled interrupt is flagged.
    spec fn pending(&self) -> bool;

    fn read_8(&self, addr: u16) -> (r: u8)
        requires
            self.bus_wf(),
        ensures
            r == self.peek(addr),
    ;

    fn write_8(&mut self, addr: u16, val: u8)
        requires
            old(self).bus_wf(),
        ensures
            final(self).bus_wf(),
            old(self).poke(addr, val, *final(self)),
    ;

    fn cpu_dma_paused(&self) -> (r: bool)
        ensures
            r == self.dma_paused(),
    ;

    /// Takes the pending interrupt of highest priority, if any, as its bit number.
    fn pop_interrupt(&mut self) -> (r: Option<u8>)
        requires
            old(self).bus_wf(),
        ensures
            final(self).bus_wf(),
            (*final(self), r) == old(self).popped(),
            r matches Some(b) ==> b < 8,
    ;

    fn interrupt_pending(&self) -> (r: bool)
        ensures
            r == self.pending(),
    ;
}

/// The little-endian 16-bit value at `addr` and `addr + 1`.
pub open spec fn peek16<B: CpuBus>(bus: &B, addr: u16) -> u16 {
    (bus.peek(addr) as int + 256 * bus.peek(wrap16(addr + 1)) as int) as u16
}

/// Whether `after` is the bus once a little-endian 16-bit value was written at `addr`.
pub open spec fn poke16<B: CpuBus>(bus: B, addr: u16, val: u16, after: B) -> bool {
    exists|mid: B|
        #![trigger bus.poke(addr, (val % 256) as u8, mid)]
        bus.poke(addr, (val % 256) as u8, mid) && mid.poke(wrap16(addr + 1), (val / 256) as u8, after)
}

pub fn read_16<B: CpuBus>(bus: &B, addr: u16) -> (r: u16)
    requires
        bus.bus_wf(),
    ensures
        r == peek16(bus, addr),
{
    let low = bus.read_8(addr);
    let high = bus.read_8(addr.wrapping_add(1));
    low as u16 + 256 * high as u16
}

pub fn write_16<B: CpuBus>(bus: &mut B, addr: u16, val: u16)
    requires
        old(bus).bus_wf(),
    ensures
        final(bus).bus_wf(),
        poke16(*old(bus), addr, val, *final(bus)),
{
    bus.write_8(addr, (val % 256) as u8);
    let ghost mid = *bus;
    bus.write_8(addr.wrapping_add(1), (val / 256) as u8);
    assert(old(bus).poke(addr, (val % 256) as u8, mid));
}

/// A fault that stops emulation: no valid program reaches it.
#[derive(Debug, Clone, Copy, PartialEq, Eq, Structural)]
pub enum CpuFault {
    /// An opcode that the CPU does not define.
    IllegalInstruction,
    /// STOP without a prepared speed switch, which would enter low-power mode.
    LowPowerMode,
}

/// The CPU: register file, program counter, the countdown of the instruction
/// in progress, and the interrupt-enable state with its one-instruction delay.
#[derive(Debug)]
pub struct Cpu {
    pub regs: RegisterSet,
    pub cycles_remaining: usize,
    pub pc: u16,
    pub interrupts_enabled: bool,
    pub enable_interrupts_timer: usize,
    pub halted: bool,
}

/// The register file after `v` is stored in `var`; (HL) leaves it unchanged. The
/// flag register keeps its low nibble zero.
pub open spec fn var_regs(regs: RegisterSet, var: Var8, v: u8) -> RegisterSet {
    match var {
        Var8::Reg(r) => regs.set8(r, if r == Reg8::F { (v - v % 16) as u8 } else { v }),
        Var8::MemHl => regs,
    }
}

/// Whether `after` is the bus once `v` is stored in `var`; a register leaves it unchanged.
pub open spec fn var_bus<B: CpuBus>(bus: B, regs: RegisterSet, var: Var8, v: u8, after: B) -> bool {
    match var {
        Var8::Reg(_) => after == bus,
        Var8::MemHl => bus.poke(regs.get16(Reg16::HL), v, after),
    }
}

/// The instructions that move data: loads and stack transfers.
pub open spec fn is_load_group(i: Instruction) -> bool {
    match i {
        Instruction::Ld(..) | Instruction::LdMemRegA(_) | Instruction::LdAMemReg(_) | Instruction::LdMem16A
        | Instruction::LdAMem16 | Instruction::LdhMemA | Instruction::LdhAMem | Instruction::LdhMemCA
        | Instruction::LdhAMemC | Instruction::LdIncDecA(_) | Instruction::LdAIncDec(_) | Instruction::Ld16(_)
        | Instruction::LdMemSp | Instruction::LdHlSpInc | Instruction::LdSpHl | Instruction::Pop(_)
        | Instruction::Push(_) => true,
        _ => false,
    }
}

/// The 16-bit loads and stack transfers.
pub open spec fn is_load16_group(i: Instruction) -> bool {
    match i {
        Instruction::Ld16(_) | Instruction::LdMemSp | Instruction::LdHlSpInc | Instruction::LdSpHl
        | Instruction::Pop(_) | Instruction::Push(_) => true,
        _ => false,
    }
}

/// The rotate, shift and single-bit instructions.
pub open spec fn is_bit_group(i: Instruction) -> bool {
    match i {
        Instruction::Bit(..) | Instruction::Res(..) | Instruction::SetBit(..) | Instruction::Rla | Instruction::Rl(_)
        | Instruction::Rlca | Instruction::Rlc(_) | Instruction::Rra | Instruction::Rr(_) | Instruction::Rrca
        | Instruction::Rrc(_) | Instruction::Sla(_) | Instruction::Sra(_) | Instruction::Srl(_) | Instruction::Swap(
            _,
        ) => true,
        _ => false,
    }
}

/// The jumps, calls, returns and interrupt-control instructions.
pub open spec fn is_control_group(i: Instruction) -> bool {
    match i {
        Instruction::Call(_) | Instruction::Jp(_) | Instruction::JpHl | Instruction::Jr(_) | Instruction::Rst(_)
        | Instruction::Ret(_) | Instruction::Reti | Instruction::Di | Instruction::Ei | Instruction::Halt
        | Instruction::Nop => true,
        _ => false,
    }
}


impl Cpu {
    pub open spec fn wf(&self) -> bool {
        &&& self.regs.wf()
        &&& self.enable_interrupts_timer <= 2
    }

    /// The value held in `var`.
    pub open spec fn var_val<B: CpuBus>(&self, var: Var8, bus: &B) -> u8 {
        match var {
            Var8::Reg(r) => self.regs.get8(r),
            Var8::MemHl => bus.peek(self.regs.get16(Reg16::HL)),
        }
    }

    /// The value of an operand; an immediate is the byte at the program counter.
    pub open spec fn operand_val<B: CpuBus>(&self, op: Operand8, bus: &B) -> u8 {
        match op {
            Operand8::Imm => bus.peek(self.pc),
            Operand8::Var(v) => self.var_val(v, bus),
        }
    }

    /// The program counter after an operand is read.
    pub open spec fn operand_pc(&self, op: Operand8) -> u16 {
        match op {
            Operand8::Imm => wrap16(self.pc + 1),
            Operand8::Var(_) => self.pc,
        }
    }

    /// Whether a branch condition holds.
    pub open spec fn spec_test(&self, test: Test) -> bool {
        match test {
            Test::C => self.regs.flag(Flag::Carry),
            Test::Z => self.regs.flag(Flag::Zero),
            Test::Nc => !self.regs.flag(Flag::Carry),
            Test::Nz => !self.regs.flag(Flag::Zero),
        }
    }

    /// A CPU at power-on: all registers zero, interrupts disabled.
    pub fn new() -> (r: Cpu)
        ensures
            r.wf(),
            r.regs == (RegisterSet { c: 0, b: 0, e: 0, d: 0, l: 0, h: 0, f: 0, a: 0, sp: 0 }),
            r.pc == 0,
            r.cycles_remaining == 0,
            !r.interrupts_enabled,
            r.enable_interrupts_timer == 0,
            !r.halted,
    {
        Cpu {
            regs: RegisterSet::new(),
            cycles_remaining: 0,
            pc: 0,
            interrupts_enabled: false,
            enable_interrupts_timer: 0,
            halted: false,
        }
    }

    pub fn read_immedate_8<B: CpuBus>(&mut self, bus: &B) -> (r: u8)
        requires
            bus.bus_wf(),
        ensures
            r == bus.peek(old(self).pc),
            *final(self) == (Cpu { pc: wrap16(old(self).pc + 1), ..*old(self) }),
    {
        let val = bus.read_8(self.pc);
        self.pc = self.pc.wrapping_add(1);
        val
    }

    pub fn read_immedate_16<B: CpuBus>(&mut self, bus: &B) -> (r: u16)
        requires
            bus.bus_wf(),
        ensures
            r == peek16(bus, old(self).pc),
            *final(self) == (Cpu { pc: wrap16(old(self).pc + 2), ..*old(self) }),
    {
        let val = read_16(bus, self.pc);
        self.pc = self.pc.wrapping_add(2);
        val
    }

    pub fn read_var<B: CpuBus>(&self, var: Var8, bus: &B) -> (r: u8)
        requires
            bus.bus_wf(),
        ensures
            r == self.var_val(var, bus),
    {
        match var {
            Var8::Reg(reg) => self.regs.read8(reg),
            Var8::MemHl => bus.read_8(self.regs.read16(Reg16::HL)),
        }
    }

    pub fn write_var<B: CpuBus>(&mut self, var: Var8, val: u8, bus: &mut B)
        requires
            old(bus).bus_wf(),
            old(self).wf(),
        ensures
            final(bus).bus_wf(),
            final(self).wf(),
            *final(self) == (Cpu { regs: var_regs(old(self).regs, var, val), ..*old(self) }),
            var_bus(*old(bus), old(self).regs, var, val, *final(bus)),
    {
        match var {
            Var8::Reg(reg) => {
                let v = if reg == Reg8::F { val - val % 16 } else { val };
                self.regs.write8(reg, v);
            },
            Var8::MemHl => bus.write_8(self.regs.read16(Reg16::HL), val),
        }
    }

    pub fn read_operand<B: CpuBus>(&mut self, operand: Operand8, bus: &B) -> (r: u8)
        requires
            bus.bus_wf(),
        ensures
            r == old(self).operand_val(operand, bus),
            *final(self) == (Cpu { pc: old(self).operand_pc(operand), ..*old(self) }),
    {
        match operand {
            Operand8::Var(var) => self.read_var(var, bus),
            Operand8::Imm => self.read_immedate_8(bus),
        }
    }
}


impl Cpu {
    /// Whether a conditional branch is taken; true for every other instruction.
    pub open spec fn branch_taken(&self, i: Instruction) -> bool {
        match i {
            Instruction::Call(Some(t)) | Instruction::Jp(Some(t)) | Instruction::Jr(Some(t))
            | Instruction::Ret(Some(t)) => self.spec_test(t),
            _ => true,
        }
    }

    /// Whether a cycle from this state fetches an opcode: no DMA stall, no
    /// instruction in progress, no interrupt serviced, and not halted.
    pub open spec fn fetches<B: CpuBus>(&self, bus: &B) -> bool {
        &&& !bus.dma_paused()
        &&& self.cycles_remaining == 0
        &&& if self.interrupts_enabled {
            bus.popped().1 is None && !self.halted
        } else {
            !(self.halted && !bus.pending())
        }
    }

    /// The bus from which a fetch reads, after the interrupt check.
    pub open spec fn fetch_bus<B: CpuBus>(&self, bus: B) -> B {
        if self.interrupts_enabled { bus.popped().0 } else { bus }
    }

    /// Whether the opcode at PC stops emulation: an undefined opcode (the
    /// prefix byte excepted), or STOP without a prepared speed switch.
    pub open spec fn decode_faults<B: CpuBus>(&self, bus: &B) -> bool {
        let op = bus.peek(self.pc);
        op != PREFIX_OPCODE && (is_undefined_opcode(op) || (op == 0x10 && bus.peek(control::SPEED_REG_ADDR)
            % 2 == 0))
    }

    /// Whether a cycle from this state faults.
    pub open spec fn spec_faults<B: CpuBus>(&self, bus: &B) -> bool {
        self.fetches(bus) && self.decode_faults(&self.fetch_bus(*bus))
    }

    /// The state after a shift or rotate of `var` giving `(r, c)`.
    pub open spec fn shifted<B: CpuBus>(self, bus: B, var: Var8, rc: (u8, bool), after: Cpu, bus_after: B) -> bool {
        let (r, c) = rc;
        &&& var_bus(bus, self.regs, var, r, bus_after)
        &&& after == (Cpu {
            regs: var_regs(RegisterSet { f: flags_byte(r == 0, false, false, c), ..self.regs }, var, r),
            ..self
        })
    }

    /// What a load, stack, unconditional control or shift/bit instruction does,
    /// as its operation states it; true of other instructions.
    #[verifier::opaque]
    pub open spec fn spec_effect<B: CpuBus>(self, bus: B, i: Instruction, after: Cpu, bus_after: B) -> bool {
        let sp_down = wrap16(self.regs.sp - 2 + 0x10000);
        match i {
            Instruction::Ld(dst, src) => {
                let v = self.operand_val(src, &bus);
                var_bus(bus, self.regs, dst, v, bus_after) && after == (Cpu {
                    regs: var_regs(self.regs, dst, v),
                    pc: self.operand_pc(src),
                    ..self
                })
            },
            Instruction::Ld16(reg) => bus_after == bus && after == (Cpu {
                regs: self.regs.set16(reg, peek16(&bus, self.pc)),
                pc: wrap16(self.pc + 2),
                ..self
            }),
            Instruction::Push(reg) => poke16(bus, sp_down, self.regs.get16(reg), bus_after) && after == (Cpu {
                regs: RegisterSet { sp: sp_down, ..self.regs },
                ..self
            }),
            Instruction::Pop(reg) => bus_after == bus && after == (Cpu {
                regs: RegisterSet { sp: wrap16(self.regs.sp + 2), ..self.regs }.set16(reg, peek16(&bus, self.regs.sp)),
                ..self
            }),
            Instruction::Call(None) => poke16(bus, sp_down, wrap16(self.pc + 2), bus_after) && after == (Cpu {
                regs: RegisterSet { sp: sp_down, ..self.regs },
                pc: peek16(&bus, self.pc),
                ..self
            }),
            Instruction::Rst(a) => poke16(bus, sp_down, self.pc, bus_after) && after == (Cpu {
                regs: RegisterSet { sp: sp_down, ..self.regs },
                pc: a as u16,
                ..self
            }),
            Instruction::Ret(None) => bus_after == bus && after == (Cpu {
                regs: RegisterSet { sp: wrap16(self.regs.sp + 2), ..self.regs },
                pc: peek16(&bus, self.regs.sp),
                ..self
            }),
            Instruction::Rl(var) => self.shifted(bus, var, rl8(self.var_val(var, &bus), self.regs.flag(Flag::Carry)), after, bus_after),
            Instruction::Rr(var) => self.shifted(bus, var, rr8(self.var_val(var, &bus), self.regs.flag(Flag::Carry)), after, bus_after),
            Instruction::Rlc(var) => self.shifted(bus, var, rlc8(self.var_val(var, &bus)), after, bus_after),
            Instruction::Rrc(var) => self.shifted(bus, var, rrc8(self.var_val(var, &bus)), after, bus_after),
            Instruction::Sla(var) => self.shifted(bus, var, sla8(self.var_val(var, &bus)), after, bus_after),
            Instruction::Sra(var) => self.shifted(bus, var, sra8(self.var_val(var, &bus)), after, bus_after),
            Instruction::Srl(var) => self.shifted(bus, var, srl8(self.var_val(var, &bus)), after, bus_after),
            Instruction::Swap(var) => self.shifted(bus, var, (swap8(self.var_val(var, &bus)), false), after, bus_after),
            Instruction::Res(b, var) => {
                let r = res8(self.var_val(var, &bus), b);
                var_bus(bus, self.regs, var, r, bus_after) && after == (Cpu { regs: var_regs(self.regs, var, r), ..self })
            },
            Instruction::SetBit(b, var) => {
                let r = set8(self.var_val(var, &bus), b);
                var_bus(bus, self.regs, var, r, bus_after) && after == (Cpu { regs: var_regs(self.regs, var, r), ..self })
            },
            _ => true,
        }
    }

    /// What 8-bit transfers through A and (HL) do, as their operations state it.
    #[verifier::opaque]
    pub open spec fn spec_effect_load8<B: CpuBus>(self, bus: B, i: Instruction, after: Cpu, bus_after: B) -> bool {
        let sp_down = wrap16(self.regs.sp - 2 + 0x10000);
        let carry = self.regs.flag(Flag::Carry);
        let zero = self.regs.flag(Flag::Zero);
        let hl = self.regs.get16(Reg16::HL);
        let imm = bus.peek(self.pc);
        let rel_target = wrap16(self.pc + 1 + signed8(imm) + 0x10000);
        match i {
            Instruction::LdMemRegA(reg) => bus.poke(self.regs.get16(reg), self.regs.a, bus_after) && after == self,
            Instruction::LdAMemReg(reg) => bus_after == bus && after == (Cpu {
                regs: RegisterSet { a: bus.peek(self.regs.get16(reg)), ..self.regs },
                ..self
            }),
            Instruction::LdMem16A => bus.poke(peek16(&bus, self.pc), self.regs.a, bus_after) && after == (Cpu {
                pc: wrap16(self.pc + 2),
                ..self
            }),
            Instruction::LdAMem16 => bus_after == bus && after == (Cpu {
                regs: RegisterSet { a: bus.peek(peek16(&bus, self.pc)), ..self.regs },
                pc: wrap16(self.pc + 2),
                ..self
            }),
            Instruction::LdhMemA => bus.poke((0xff00 + imm) as u16, self.regs.a, bus_after) && after == (Cpu {
                pc: wrap16(self.pc + 1),
                ..self
            }),
            Instruction::LdhAMem => bus_after == bus && after == (Cpu {
                regs: RegisterSet { a: bus.peek((0xff00 + imm) as u16), ..self.regs },
                pc: wrap16(self.pc + 1),
                ..self
            }),
            Instruction::LdhMemCA => bus.poke((0xff00 + self.regs.c) as u16, self.regs.a, bus_after) && after == self,
            Instruction::LdhAMemC => bus_after == bus && after == (Cpu {
                regs: RegisterSet { a: bus.peek((0xff00 + self.regs.c) as u16), ..self.regs },
                ..self
            }),
            Instruction::LdIncDecA(d) => bus.poke(hl, self.regs.a, bus_after) && after == (Cpu {
                regs: self.regs.set16(Reg16::HL, hl_after(hl, d)),
                ..self
            }),
            Instruction::LdAIncDec(d) => bus_after == bus && after == (Cpu {
                regs: RegisterSet { a: bus.peek(hl), ..self.regs }.set16(Reg16::HL, hl_after(hl, d)),
                ..self
            }),
            _ => true,
        }
    }

    /// What 16-bit transfers with SP do, as their operations state it.
    #[verifier::opaque]
    pub open spec fn spec_effect_load16<B: CpuBus>(self, bus: B, i: Instruction, after: Cpu, bus_after: B) -> bool {
        let sp_down = wrap16(self.regs.sp - 2 + 0x10000);
        let carry = self.regs.flag(Flag::Carry);
        let zero = self.regs.flag(Flag::Zero);
        let hl = self.regs.get16(Reg16::HL);
        let imm = bus.peek(self.pc);
        let rel_target = wrap16(self.pc + 1 + signed8(imm) + 0x10000);
        match i {
            Instruction::LdMemSp => poke16(bus, peek16(&bus, self.pc), self.regs.sp, bus_after) && after == (Cpu {
                pc: wrap16(self.pc + 2),
                ..self
            }),
            Instruction::LdHlSpInc => {
                let (_, h, c) = add8((self.regs.sp % 256) as u8, imm, false);
                bus_after == bus && after == (Cpu {
                    regs: RegisterSet { f: flags_byte(false, false, h, c), ..self.regs }.set16(
                        Reg16::HL,
                        wrap16(self.regs.sp + signed8(imm) + 0x10000),
                    ),
                    pc: wrap16(self.pc + 1),
                    ..self
                })
            },
            Instruction::LdSpHl => bus_after == bus && after == (Cpu { regs: RegisterSet { sp: hl, ..self.regs }, ..self }),
            _ => true,
        }
    }

    /// What arithmetic on single locations and on 16-bit pairs do, as their operations state it.
    #[verifier::opaque]
    pub open spec fn spec_effect_alu<B: CpuBus>(self, bus: B, i: Instruction, after: Cpu, bus_after: B) -> bool {
        let sp_down = wrap16(self.regs.sp - 2 + 0x10000);
        let carry = self.regs.flag(Flag::Carry);
        let zero = self.regs.flag(Flag::Zero);
        let hl = self.regs.get16(Reg16::HL);
        let imm = bus.peek(self.pc);
        let rel_target = wrap16(self.pc + 1 + signed8(imm) + 0x10000);
        match i {
            Instruction::AddSp => {
                let (_, h, c) = add8((self.regs.sp % 256) as u8, imm, false);
                bus_after == bus && after == (Cpu {
                    regs: RegisterSet {
                        f: flags_byte(false, false, h, c),
                        sp: wrap16(self.regs.sp + signed8(imm) + 0x10000),
                        ..self.regs
                    },
                    pc: wrap16(self.pc + 1),
                    ..self
                })
            },
            Instruction::Inc(var) => {
                let r = ((self.var_val(var, &bus) + 1) % 256) as u8;
                var_bus(bus, self.regs, var, r, bus_after) && after == (Cpu {
                    regs: RegisterSet { f: flags_byte(r == 0, false, r % 16 == 0, carry), ..var_regs(self.regs, var, r) },
                    ..self
                })
            },
            Instruction::Dec(var) => {
                let r = ((self.var_val(var, &bus) + 255) % 256) as u8;
                var_bus(bus, self.regs, var, r, bus_after) && after == (Cpu {
                    regs: RegisterSet { f: flags_byte(r == 0, true, r % 16 == 15, carry), ..var_regs(self.regs, var, r) },
                    ..self
                })
            },
            Instruction::Cpl => bus_after == bus && after == (Cpu {
                regs: RegisterSet { a: (255 - self.regs.a) as u8, f: flags_byte(zero, true, true, carry), ..self.regs },
                ..self
            }),
            Instruction::Daa => {
                let n = self.regs.flag(Flag::Sub);
                let (r, c) = daa8(self.regs.a, n, self.regs.flag(Flag::HalfCarry), carry);
                bus_after == bus && after == (Cpu { regs: RegisterSet { a: r, f: flags_byte(r == 0, n, false, c), ..self.regs }, ..self })
            },
            Instruction::Inc16(reg) => bus_after == bus && after == (Cpu {
                regs: self.regs.set16(reg, wrap16(self.regs.get16(reg) + 1)),
                ..self
            }),
            Instruction::Dec16(reg) => bus_after == bus && after == (Cpu {
                regs: self.regs.set16(reg, wrap16(self.regs.get16(reg) - 1)),
                ..self
            }),
            Instruction::AddHl(reg) => {
                let v = self.regs.get16(reg) as int;
                bus_after == bus && after == (Cpu {
                    regs: RegisterSet {
                        f: flags_byte(zero, false, hl as int % 4096 + v % 4096 >= 4096, hl + v >= 65536),
                        ..self.regs
                    }.set16(Reg16::HL, wrap16(hl + v)),
                    ..self
                })
            },
            Instruction::Ccf => bus_after == bus && after == (Cpu {
                regs: RegisterSet { f: flags_byte(zero, false, false, !carry), ..self.regs },
                ..self
            }),
            Instruction::Scf => bus_after == bus && after == (Cpu {
                regs: RegisterSet { f: flags_byte(zero, false, false, true), ..self.regs },
                ..self
            }),
            _ => true,
        }
    }

    /// What the accumulator rotates and BIT do, as their operations state it.
    #[verifier::opaque]
    pub open spec fn spec_effect_bit<B: CpuBus>(self, bus: B, i: Instruction, after: Cpu, bus_after: B) -> bool {
        let sp_down = wrap16(self.regs.sp - 2 + 0x10000);
        let carry = self.regs.flag(Flag::Carry);
        let zero = self.regs.flag(Flag::Zero);
        let hl = self.regs.get16(Reg16::HL);
        let imm = bus.peek(self.pc);
        let rel_target = wrap16(self.pc + 1 + signed8(imm) + 0x10000);
        match i {
            Instruction::Bit(b, var) => bus_after == bus && after == (Cpu {
                regs: RegisterSet { f: flags_byte(!bit8(self.var_val(var, &bus), b), false, true, carry), ..self.regs },
                ..self
            }),
            Instruction::Rla => {
                let (r, c) = rl8(self.regs.a, carry);
                bus_after == bus && after == (Cpu { regs: RegisterSet { a: r, f: flags_byte(false, false, false, c), ..self.regs }, ..self })
            },
            Instruction::Rlca => {
                let (r, c) = rlc8(self.regs.a);
                bus_after == bus && after == (Cpu { regs: RegisterSet { a: r, f: flags_byte(false, false, false, c), ..self.regs }, ..self })
            },
            Instruction::Rra => {
                let (r, c) = rr8(self.regs.a, carry);
                bus_after == bus && after == (Cpu { regs: RegisterSet { a: r, f: flags_byte(false, false, false, c), ..self.regs }, ..self })
            },
            Instruction::Rrca => {
                let (r, c) = rrc8(self.regs.a);
                bus_after == bus && after == (Cpu { regs: RegisterSet { a: r, f: flags_byte(false, false, false, c), ..self.regs }, ..self })
            },
            _ => true,
        }
    }

    /// What jumps, calls, returns and interrupt control; a conditional one not taken costs `branch_cycles` do, as their operations state it.
    #[verifier::opaque]
    pub open spec fn spec_effect_control<B: CpuBus>(self, bus: B, i: Instruction, branch_cycles: usize, after: Cpu, bus_after: B) -> bool {
        let sp_down = wrap16(self.regs.sp - 2 + 0x10000);
        let carry = self.regs.flag(Flag::Carry);
        let zero = self.regs.flag(Flag::Zero);
        let hl = self.regs.get16(Reg16::HL);
        let imm = bus.peek(self.pc);
        let rel_target = wrap16(self.pc + 1 + signed8(imm) + 0x10000);
        match i {
            Instruction::Jp(None) => bus_after == bus && after == (Cpu { pc: peek16(&bus, self.pc), ..self }),
            Instruction::Jp(Some(t)) => bus_after == bus && after == if self.spec_test(t) {
                Cpu { pc: peek16(&bus, self.pc), ..self }
            } else {
                Cpu { pc: wrap16(self.pc + 2), cycles_remaining: branch_cycles, ..self }
            },
            Instruction::JpHl => bus_after == bus && after == (Cpu { pc: hl, ..self }),
            Instruction::Jr(None) => bus_after == bus && after == (Cpu { pc: rel_target, ..self }),
            Instruction::Jr(Some(t)) => bus_after == bus && after == if self.spec_test(t) {
                Cpu { pc: rel_target, ..self }
            } else {
                Cpu { pc: wrap16(self.pc + 1), cycles_remaining: branch_cycles, ..self }
            },
            Instruction::Call(Some(t)) => if self.spec_test(t) {
                poke16(bus, sp_down, wrap16(self.pc + 2), bus_after) && after == (Cpu {
                    regs: RegisterSet { sp: sp_down, ..self.regs },
                    pc: peek16(&bus, self.pc),
                    ..self
                })
            } else {
                bus_after == bus && after == (Cpu { pc: wrap16(self.pc + 2), cycles_remaining: branch_cycles, ..self })
            },
            Instruction::Ret(Some(t)) => bus_after == bus && after == if self.spec_test(t) {
                Cpu {
                    regs: RegisterSet { sp: wrap16(self.regs.sp + 2), ..self.regs },
                    pc: peek16(&bus, self.regs.sp),
                    ..self
                }
            } else {
                Cpu { cycles_remaining: branch_cycles, ..self }
            },
            Instruction::Reti => bus_after == bus && after == (Cpu {
                regs: RegisterSet { sp: wrap16(self.regs.sp + 2), ..self.regs },
                pc: peek16(&bus, self.regs.sp),
                interrupts_enabled: true,
                ..self
            }),
            Instruction::Di => bus_after == bus && after == (Cpu { enable_interrupts_timer: 0, interrupts_enabled: false, ..self }),
            Instruction::Ei => bus_after == bus && after == (Cpu { enable_interrupts_timer: 2, ..self }),
            Instruction::Halt => bus_after == bus && after == (Cpu { halted: true, ..self }),
            Instruction::Nop => bus_after == bus && after == self,
            _ => true,
        }
    }

    /// What the instructions not covered by `spec_effect` do, as their
    /// operations state it.
    #[verifier::opaque]
    pub open spec fn spec_effect_rest<B: CpuBus>(self, bus: B, i: Instruction, branch_cycles: usize, after: Cpu, bus_after: B) -> bool {
        if is_control_group(i) {
            self.spec_effect_control(bus, i, branch_cycles, after, bus_after)
        } else if is_bit_group(i) {
            self.spec_effect_bit(bus, i, after, bus_after)
        } else if is_load16_group(i) {
            self.spec_effect_load16(bus, i, after, bus_after)
        } else if is_load_group(i) {
            self.spec_effect_load8(bus, i, after, bus_after)
        } else {
            self.spec_effect_alu(bus, i, after, bus_after)
        }
    }

    /// Fetches, decodes and runs the instruction at PC, then advances the
    /// enable-interrupts delay and the instruction countdown. A faulting
    /// opcode is reported before any state changes.
    #[verifier::rlimit(100)]
    #[verifier::spinoff_prover]
    fn fetch_and_run<B: CpuBus>(&mut self, bus: &mut B) -> (r: Result<(), CpuFault>)
        requires
            old(bus).bus_wf(),
            old(self).wf(),
            old(self).cycles_remaining == 0,
            !old(self).halted,
        ensures
            final(bus).bus_wf(),
            final(self).wf(),
            r is Err <==> old(self).decode_faults(old(bus)),
            r is Err ==> *final(self) == *old(self) && *final(bus) == *old(bus),
            !old(self).decode_faults(old(bus)) ==> old(self).fetch_runs(*old(bus), *final(self), *final(bus)),
            !old(self).decode_faults(old(bus)) ==> r is Ok,
            r is Ok && old(bus).peek(old(self).pc) == 0xfb ==> final(self).enable_interrupts_timer == 1
                && final(self).interrupts_enabled == old(self).interrupts_enabled,
            r is Ok && old(self).enable_interrupts_timer == 1 && old(bus).peek(old(self).pc) != 0xf3 && old(bus).peek(
                old(self).pc,
            ) != 0xfb ==> final(self).interrupts_enabled,
    {
        let opcode = bus.read_8(self.pc);
        let entry = if opcode == PREFIX_OPCODE {
            let _ = self.read_immedate_8(bus);
            let prefixed = self.read_immedate_8(bus);
            entry_for_prefix_opcode(prefixed)
        } else {
            let decoded = entry_for_opcode(opcode);
            if decoded.instruction == Instruction::Illegal {
                return Err(CpuFault::IllegalInstruction);
            }
            if decoded.instruction == Instruction::Stop && bus.read_8(control::SPEED_REG_ADDR) % 2 == 0 {
                return Err(CpuFault::LowPowerMode);
            }
            let _ = self.read_immedate_8(bus);
            decoded
        };
        let ghost pre = *self;
        let ghost b = *bus;
        self.run_entry(bus, &entry);
        proof {
            let start = (Cpu { cycles_remaining: entry.cycles, ..pre });
            let mid = Cpu::before_tick(start, entry.instruction, *self);
            assert(start == old(self).fetched_start(old(bus)));
            assert(entry == old(self).fetched_entry(old(bus)));
            Cpu::lemma_fetch_runs(*old(self), *old(bus), start, entry, mid, *self, *bus);
        }
        return Ok(());
    }

    /// The decoded entry of the instruction at PC: prefixed opcodes from the
    /// extended table.
    pub open spec fn fetched_entry<B: CpuBus>(&self, bus: &B) -> InstructionEntry {
        let op = bus.peek(self.pc);
        if op == PREFIX_OPCODE { spec_prefix_entry(bus.peek(wrap16(self.pc + 1))) } else { spec_opcode_entry(op) }
    }

    /// The CPU ready to run the fetched instruction: PC past the opcode bytes,
    /// its cost charged.
    pub open spec fn fetched_start<B: CpuBus>(&self, bus: &B) -> Cpu {
        let op = bus.peek(self.pc);
        Cpu {
            pc: if op == PREFIX_OPCODE { wrap16(self.pc + 2) } else { wrap16(self.pc + 1) },
            cycles_remaining: self.fetched_entry(bus).cycles,
            ..*self
        }
    }

    /// The CPU just after running instruction `i` from `start`, given the CPU
    /// `after` one step of the enable-interrupts delay and the countdown later:
    /// the interrupt-enable state is the one `i` leaves.
    pub open spec fn before_tick(start: Cpu, i: Instruction, after: Cpu) -> Cpu {
        let (ie, timer) = if i == Instruction::Di {
            (false, 0usize)
        } else if i == Instruction::Ei {
            (start.interrupts_enabled, 2usize)
        } else if i == Instruction::Reti {
            (true, start.enable_interrupts_timer)
        } else {
            (start.interrupts_enabled, start.enable_interrupts_timer)
        };
        Cpu {
            cycles_remaining: (after.cycles_remaining + 1) as usize,
            interrupts_enabled: ie,
            enable_interrupts_timer: timer,
            ..after
        }
    }

    /// What a fetch from this state does: the decoded instruction runs as its
    /// operation states, then the enable-interrupts delay and countdown advance.
    #[verifier::opaque]
    pub open spec fn fetch_runs<B: CpuBus>(&self, bus: B, after: Cpu, bus_after: B) -> bool {
        let entry = self.fetched_entry(&bus);
        let start = self.fetched_start(&bus);
        let mid = Cpu::before_tick(start, entry.instruction, after);
        &&& start.spec_effect(bus, entry.instruction, mid, bus_after)
        &&& start.spec_effect_rest(bus, entry.instruction, entry.branch_cycles, mid, bus_after)
        &&& arith::is_alu8(entry.instruction) ==> mid == start.spec_alu8(entry.instruction, &bus) && bus_after == bus
        &&& after == (Cpu { cycles_remaining: (mid.cycles_remaining - 1) as usize, ..mid.after_ie_tick() })
    }

    /// Runs a decoded entry, then advances the enable-interrupts delay and the
    /// countdown.
    #[verifier::rlimit(100)]
    #[verifier::spinoff_prover]
    fn run_entry<B: CpuBus>(&mut self, bus: &mut B, entry: &InstructionEntry)
        requires
            old(bus).bus_wf(),
            old(self).wf(),
            entry_wf(*entry),
            bit_args_ok(entry.instruction),
            entry.instruction != Instruction::Illegal,
            entry.instruction == Instruction::Stop ==> old(bus).peek(control::SPEED_REG_ADDR) % 2 == 1,
        ensures
            final(bus).bus_wf(),
            final(self).wf(),
            ({
                let start = (Cpu { cycles_remaining: entry.cycles, ..*old(self) });
                let mid = Cpu::before_tick(start, entry.instruction, *final(self));
                &&& start.spec_effect(*old(bus), entry.instruction, mid, *final(bus))
                &&& start.spec_effect_rest(*old(bus), entry.instruction, entry.branch_cycles, mid, *final(bus))
                &&& arith::is_alu8(entry.instruction) ==> mid == start.spec_alu8(entry.instruction, old(bus)) && *final(bus)
                    == *old(bus)
                &&& *final(self) == (Cpu { cycles_remaining: (mid.cycles_remaining - 1) as usize, ..mid.after_ie_tick() })
                &&& mid.cycles_remaining >= 1
            }),
    {
        self.execute_instruction(bus, entry);
        let ghost mid = *self;
        self.update_interrupt_timer();
        self.cycles_remaining = self.cycles_remaining - 1;
        assert(mid == Cpu::before_tick(Cpu { cycles_remaining: entry.cycles, ..*old(self) }, entry.instruction, *self));
    }

    /// Assembles `fetch_runs` from the facts of one fetch.
    proof fn lemma_fetch_runs<B: CpuBus>(cpu: Cpu, bus: B, start: Cpu, entry: InstructionEntry, mid: Cpu, after: Cpu, bus_after: B)
        requires
            start == cpu.fetched_start(&bus),
            entry == cpu.fetched_entry(&bus),
            mid == Cpu::before_tick(start, entry.instruction, after),
            start.spec_effect(bus, entry.instruction, mid, bus_after),
            start.spec_effect_rest(bus, entry.instruction, entry.branch_cycles, mid, bus_after),
            arith::is_alu8(entry.instruction) ==> mid == start.spec_alu8(entry.instruction, &bus) && bus_after == bus,
            after == (Cpu { cycles_remaining: (mid.cycles_remaining - 1) as usize, ..mid.after_ie_tick() }),
        ensures
            cpu.fetch_runs(bus, after, bus_after),
    {
        reveal(Cpu::fetch_runs);
    }

    /// The CPU after one step of the enable-interrupts delay.
    pub open spec fn after_ie_tick(self) -> Cpu {
        if self.enable_interrupts_timer == 0 {
            self
        } else if self.enable_interrupts_timer == 1 {
            Cpu { enable_interrupts_timer: 0, interrupts_enabled: true, ..self }
        } else {
            Cpu { enable_interrupts_timer: (self.enable_interrupts_timer - 1) as usize, ..self }
        }
    }

    /// Runs one decoded instruction and charges its cycles: the base cost, or
    /// the not-taken cost of a conditional branch. Fails only on an undefined
    /// opcode and on STOP without a prepared speed switch.
    #[verifier::rlimit(100)]
    pub fn execute_instruction<B: CpuBus>(&mut self, bus: &mut B, entry: &InstructionEntry)
        requires
            old(bus).bus_wf(),
            old(self).wf(),
            entry_wf(*entry),
            bit_args_ok(entry.instruction),
            entry.instruction != Instruction::Illegal,
            entry.instruction == Instruction::Stop ==> old(bus).peek(control::SPEED_REG_ADDR) % 2 == 1,
        ensures
            entry.instruction == Instruction::Stop ==> *final(self) == (Cpu {
                pc: wrap16(old(self).pc + 1),
                cycles_remaining: entry.cycles,
                ..*old(self)
            }) && old(bus).poke(
                control::SPEED_REG_ADDR,
                old(bus).peek(control::SPEED_REG_ADDR) ^ 0x81,
                *final(bus),
            ),
            (Cpu { cycles_remaining: entry.cycles, ..*old(self) }).spec_effect_rest(
                *old(bus),
                entry.instruction,
                entry.branch_cycles,
                *final(self),
                *final(bus),
            ),
            (Cpu { cycles_remaining: entry.cycles, ..*old(self) }).spec_effect(
                *old(bus),
                entry.instruction,
                *final(self),
                *final(bus),
            ),
            entry.instruction != Instruction::Di && entry.instruction != Instruction::Ei
                && entry.instruction != Instruction::Reti ==> final(self).interrupts_enabled
                == old(self).interrupts_enabled && final(self).enable_interrupts_timer
                == old(self).enable_interrupts_timer,
            entry.instruction == Instruction::Ei ==> final(self).interrupts_enabled == old(self).interrupts_enabled,
            entry.instruction == Instruction::Reti ==> final(self).interrupts_enabled && final(self).enable_interrupts_timer
                == old(self).enable_interrupts_timer,
            final(bus).bus_wf(),
            final(self).wf(),
            final(self).cycles_remaining == if old(self).branch_taken(entry.instruction) {
                entry.cycles
            } else {
                entry.branch_cycles
            },
            final(self).cycles_remaining >= 1,
            entry.instruction == Instruction::JpHl ==> final(self).pc == old(self).regs.get16(Reg16::HL),
            entry.instruction == Instruction::Jp(None) ==> final(self).pc == peek16(old(bus), old(self).pc),
            entry.instruction matches Instruction::Jr(Some(t)) ==> final(self).pc == if old(self).spec_test(t) {
                wrap16(old(self).pc + 1 + arith::signed8(old(bus).peek(old(self).pc)) + 0x10000)
            } else {
                wrap16(old(self).pc + 1)
            },
            entry.instruction matches Instruction::Jp(Some(t)) ==> final(self).pc == if old(self).spec_test(t) {
                peek16(old(bus), old(self).pc)
            } else {
                wrap16(old(self).pc + 2)
            },
            entry.instruction == Instruction::Di ==> !final(self).interrupts_enabled && final(self).enable_interrupts_timer == 0,
            entry.instruction == Instruction::Ei ==> final(self).enable_interrupts_timer == 2,
            entry.instruction == Instruction::Nop ==> *final(bus) == *old(bus) && *final(self) == (Cpu {
                cycles_remaining: entry.cycles,
                ..*old(self)
            }),
            arith::is_alu8(entry.instruction) ==> *final(bus) == *old(bus) && *final(self) == (Cpu {
                cycles_remaining: entry.cycles,
                ..*old(self)
            }).spec_alu8(entry.instruction, old(bus)),
    {
        proof {
            reveal(Cpu::spec_effect_alu);
            reveal(Cpu::spec_effect);
            reveal(Cpu::spec_effect_rest);
        }
        self.cycles_remaining = entry.cycles;
        match entry.instruction {
            Instruction::Stop => {
                let _ = self.stop(bus);
            },
            Instruction::Illegal => {},
            Instruction::Call(_) | Instruction::Jp(_) | Instruction::JpHl | Instruction::Jr(_)
            | Instruction::Rst(_) | Instruction::Ret(_) | Instruction::Reti | Instruction::Di
            | Instruction::Ei | Instruction::Halt | Instruction::Nop => {
                self.execute_control(entry.instruction, entry.branch_cycles, bus);
            },
            Instruction::Ld(..) | Instruction::LdMemRegA(_) | Instruction::LdAMemReg(_)
            | Instruction::LdMem16A | Instruction::LdAMem16 | Instruction::LdhMemA
            | Instruction::LdhAMem | Instruction::LdhMemCA | Instruction::LdhAMemC
            | Instruction::LdIncDecA(_) | Instruction::LdAIncDec(_) | Instruction::Ld16(_)
            | Instruction::LdMemSp | Instruction::LdHlSpInc | Instruction::LdSpHl
            | Instruction::Pop(_) | Instruction::Push(_) => {
                self.execute_load(entry.instruction, bus);
            },
            Instruction::Bit(..) | Instruction::Res(..) | Instruction::SetBit(..) | Instruction::Rla
            | Instruction::Rl(_) | Instruction::Rlca | Instruction::Rlc(_) | Instruction::Rra
            | Instruction::Rr(_) | Instruction::Rrca | Instruction::Rrc(_) | Instruction::Sla(_)
            | Instruction::Sra(_) | Instruction::Srl(_) | Instruction::Swap(_) => {
                self.execute_bit_op(entry.instruction, bus);
            },
            _ => {
                self.execute_alu(entry.instruction, bus);
            },
        }
    }

    /// Runs a load, stack or 16-bit transfer instruction; other instructions do nothing.
    #[verifier::rlimit(100)]
    #[verifier::spinoff_prover]
    fn execute_load<B: CpuBus>(&mut self, instruction: Instruction, bus: &mut B)
        requires
            old(bus).bus_wf(),
            old(self).wf(),
        ensures
            is_load_group(instruction) ==> forall|bc: usize| old(self).spec_effect_rest(*old(bus), instruction, bc, *final(self), *final(bus)),
            (instruction is Ld || instruction is Ld16 || instruction is Push || instruction is Pop) ==> old(self).spec_effect(*old(bus), instruction, *final(self), *final(bus)),
            final(self).interrupts_enabled == old(self).interrupts_enabled,
            final(self).enable_interrupts_timer == old(self).enable_interrupts_timer,
            final(bus).bus_wf(),
            final(self).wf(),
            final(self).cycles_remaining == old(self).cycles_remaining,
    {
        proof {
            reveal(Cpu::spec_effect_load8);
            reveal(Cpu::spec_effect_load16);
            reveal(Cpu::spec_effect);
            reveal(Cpu::spec_effect_rest);
        }
        match instruction {
            Instruction::Ld16(_) | Instruction::LdMemSp | Instruction::LdHlSpInc | Instruction::LdSpHl => self.execute_load_16(
                instruction,
                bus,
            ),
            Instruction::Pop(_) | Instruction::Push(_) => self.execute_stack(instruction, bus),
            _ => self.execute_load_8(instruction, bus),
        }
    }

    /// Runs an 8-bit load; other instructions do nothing.
    #[verifier::rlimit(100)]
    #[verifier::spinoff_prover]
    fn execute_load_8<B: CpuBus>(&mut self, instruction: Instruction, bus: &mut B)
        requires
            old(bus).bus_wf(),
            old(self).wf(),
        ensures
            old(self).spec_effect_load8(*old(bus), instruction, *final(self), *final(bus)),
            ((is_load_group(instruction) && !is_load16_group(instruction))) && (instruction is Ld || instruction is Ld16 || instruction is Push || instruction is Pop) ==> old(self).spec_effect(*old(bus), instruction, *final(self), *final(bus)),
            final(self).interrupts_enabled == old(self).interrupts_enabled,
            final(self).enable_interrupts_timer == old(self).enable_interrupts_timer,
            final(bus).bus_wf(),
            final(self).wf(),
            final(self).cycles_remaining == old(self).cycles_remaining,
    {
        proof {
            reveal(Cpu::spec_effect);
            reveal(Cpu::spec_effect_load8);
        }
        match instruction {
            Instruction::Ld(dst, src) => self.load(dst, src, bus),
            Instruction::LdMemRegA(reg) => self.load_reg_mem_a(reg, bus),
            Instruction::LdAMemReg(reg) => self.load_a_reg_mem(reg, bus),
            Instruction::LdMem16A => self.load_imm_mem_a(bus),
            Instruction::LdAMem16 => self.load_a_imm_mem(bus),
            Instruction::LdhMemA => self.load_high_imm_mem_a(bus),
            Instruction::LdhAMem => self.load_high_a_imm_mem(bus),
            Instruction::LdhMemCA => self.load_high_c_mem_a(bus),
            Instruction::LdhAMemC => self.load_high_a_c_mem(bus),
            Instruction::LdIncDecA(inc_dec) => self.load_inc_dec_a(inc_dec, bus),
            Instruction::LdAIncDec(inc_dec) => self.load_a_inc_dec(inc_dec, bus),
            _ => {},
        }
    }

    /// Runs a 16-bit load; other instructions do nothing.
    #[verifier::rlimit(100)]
    #[verifier::spinoff_prover]
    fn execute_load_16<B: CpuBus>(&mut self, instruction: Instruction, bus: &mut B)
        requires
            old(bus).bus_wf(),
            old(self).wf(),
        ensures
            old(self).spec_effect_load16(*old(bus), instruction, *final(self), *final(bus)),
            ((is_load16_group(instruction) && !(instruction is Pop || instruction is Push))) && (instruction is Ld || instruction is Ld16 || instruction is Push || instruction is Pop) ==> old(self).spec_effect(*old(bus), instruction, *final(self), *final(bus)),
            final(self).interrupts_enabled == old(self).interrupts_enabled,
            final(self).enable_interrupts_timer == old(self).enable_interrupts_timer,
            final(bus).bus_wf(),
            final(self).wf(),
            final(self).cycles_remaining == old(self).cycles_remaining,
    {
        proof {
            reveal(Cpu::spec_effect);
            reveal(Cpu::spec_effect_load16);
        }
        match instruction {
            Instruction::Ld16(reg) => self.load_16(reg, bus),
            Instruction::LdMemSp => self.load_imm_mem_sp(bus),
            Instruction::LdHlSpInc => self.load_hl_sp_imm_inc(bus),
            Instruction::LdSpHl => self.load_sp_hl(),
            _ => {},
        }
    }

    /// Runs a stack transfer; other instructions do nothing.
    #[verifier::rlimit(100)]
    #[verifier::spinoff_prover]
    fn execute_stack<B: CpuBus>(&mut self, instruction: Instruction, bus: &mut B)
        requires
            old(bus).bus_wf(),
            old(self).wf(),
        ensures
                        ((instruction is Pop || instruction is Push)) && (instruction is Ld || instruction is Ld16 || instruction is Push || instruction is Pop) ==> old(self).spec_effect(*old(bus), instruction, *final(self), *final(bus)),
            final(self).interrupts_enabled == old(self).interrupts_enabled,
            final(self).enable_interrupts_timer == old(self).enable_interrupts_timer,
            final(bus).bus_wf(),
            final(self).wf(),
            final(self).cycles_remaining == old(self).cycles_remaining,
    {
        proof {
            reveal(Cpu::spec_effect);
        }
        match instruction {
            Instruction::Pop(reg) => self.pop(reg, bus),
            Instruction::Push(reg) => self.push(reg, bus),
            _ => {},
        }
    }


    /// Runs a rotate, shift or single-bit instruction; other instructions do nothing.
    #[verifier::rlimit(100)]
    #[verifier::spinoff_prover]
    fn execute_bit_op<B: CpuBus>(&mut self, instruction: Instruction, bus: &mut B)
        requires
            old(bus).bus_wf(),
            old(self).wf(),
            bit_args_ok(instruction),
        ensures
            old(self).spec_effect_bit(*old(bus), instruction, *final(self), *final(bus)),
            (instruction is Rl || instruction is Rr || instruction is Rlc || instruction is Rrc || instruction is Sla || instruction is Sra || instruction is Srl || instruction is Swap || instruction is Res || instruction is SetBit) ==> old(self).spec_effect(*old(bus), instruction, *final(self), *final(bus)),
            final(self).interrupts_enabled == old(self).interrupts_enabled,
            final(self).enable_interrupts_timer == old(self).enable_interrupts_timer,
            final(bus).bus_wf(),
            final(self).wf(),
            final(self).cycles_remaining == old(self).cycles_remaining,
    {
        proof {
            reveal(Cpu::spec_effect);
            reveal(Cpu::spec_effect_bit);
        }
        match instruction {
            Instruction::Bit(bit, var) => self.bit(bit, var, bus),
            Instruction::Res(bit, var) => self.res(bit, var, bus),
            Instruction::SetBit(bit, var) => self.set(bit, var, bus),
            Instruction::Rla => self.rla(bus),
            Instruction::Rl(var) => self.rl(var, bus),
            Instruction::Rlca => self.rlca(bus),
            Instruction::Rlc(var) => self.rlc(var, bus),
            Instruction::Rra => self.rra(bus),
            Instruction::Rr(var) => self.rr(var, bus),
            Instruction::Rrca => self.rrca(bus),
            Instruction::Rrc(var) => self.rrc(var, bus),
            Instruction::Sla(var) => self.sla(var, bus),
            Instruction::Sra(var) => self.sra(var, bus),
            Instruction::Srl(var) => self.srl(var, bus),
            Instruction::Swap(var) => self.swap(var, bus),
            _ => {},
        }
    }

    /// Runs an arithmetic or logic instruction; other instructions do nothing.
    #[verifier::rlimit(100)]
    #[verifier::spinoff_prover]
    fn execute_alu<B: CpuBus>(&mut self, instruction: Instruction, bus: &mut B)
        requires
            old(bus).bus_wf(),
            old(self).wf(),
        ensures
            old(self).spec_effect_alu(*old(bus), instruction, *final(self), *final(bus)),
            final(self).interrupts_enabled == old(self).interrupts_enabled,
            final(self).enable_interrupts_timer == old(self).enable_interrupts_timer,
            final(bus).bus_wf(),
            final(self).wf(),
            final(self).cycles_remaining == old(self).cycles_remaining,
            arith::is_alu8(instruction) ==> *final(self) == old(self).spec_alu8(instruction, old(bus))
                && *final(bus) == *old(bus),
    {
        proof {
            reveal(Cpu::spec_effect_alu);
        }
        match instruction {
            Instruction::Adc(src) => self.adc(src, bus),
            Instruction::Add(src) => self.add(src, bus),
            Instruction::And(src) => self.and(src, bus),
            Instruction::Cp(src) => self.cp(src, bus),
            Instruction::Or(src) => self.or(src, bus),
            Instruction::Sbc(src) => self.sbc(src, bus),
            Instruction::Sub(src) => self.sub(src, bus),
            Instruction::Xor(src) => self.xor(src, bus),
            Instruction::Dec(var) => self.dec(var, bus),
            Instruction::Inc(var) => self.inc(var, bus),
            Instruction::Cpl => self.cpl(),
            Instruction::Daa => self.daa(),
            Instruction::Dec16(reg) => self.dec_16(reg),
            Instruction::Inc16(reg) => self.inc_16(reg),
            Instruction::AddHl(reg) => self.add_hl(reg),
            Instruction::AddSp => self.add_sp(bus),
            Instruction::Ccf => self.ccf(),
            Instruction::Scf => self.scf(),
            _ => {},
        }
    }

    /// Runs a jump, call, return or interrupt-control instruction; other
    /// instructions do nothing. A conditional branch not taken costs `branch_cycles`.
    #[verifier::rlimit(100)]
    #[verifier::spinoff_prover]
    fn execute_control<B: CpuBus>(&mut self, instruction: Instruction, branch_cycles: usize, bus: &mut B)
        requires
            old(bus).bus_wf(),
            old(self).wf(),
        ensures
            old(self).spec_effect_control(*old(bus), instruction, branch_cycles, *final(self), *final(bus)),
            (instruction == Instruction::Call(None) || instruction is Rst || instruction == Instruction::Ret(None)) ==> old(self).spec_effect(*old(bus), instruction, *final(self), *final(bus)),
            instruction != Instruction::Di && instruction != Instruction::Ei && instruction != Instruction::Reti
                ==> final(self).interrupts_enabled == old(self).interrupts_enabled
                && final(self).enable_interrupts_timer == old(self).enable_interrupts_timer,
            instruction == Instruction::Ei ==> final(self).interrupts_enabled == old(self).interrupts_enabled,
            instruction == Instruction::Reti ==> final(self).interrupts_enabled && final(self).enable_interrupts_timer
                == old(self).enable_interrupts_timer,
            final(bus).bus_wf(),
            final(self).wf(),
            final(self).cycles_remaining == if old(self).branch_taken(instruction) {
                old(self).cycles_remaining
            } else {
                branch_cycles
            },
            instruction == Instruction::JpHl ==> final(self).pc == old(self).regs.get16(Reg16::HL),
            instruction == Instruction::Jp(None) ==> final(self).pc == peek16(old(bus), old(self).pc),
            instruction matches Instruction::Jp(Some(t)) ==> final(self).pc == if old(self).spec_test(t) {
                peek16(old(bus), old(self).pc)
            } else {
                wrap16(old(self).pc + 2)
            },
            instruction == Instruction::Jr(None) ==> final(self).pc == wrap16(
                old(self).pc + 1 + arith::signed8(old(bus).peek(old(self).pc)) + 0x10000,
            ),
            instruction matches Instruction::Jr(Some(t)) ==> final(self).pc == if old(self).spec_test(t) {
                wrap16(old(self).pc + 1 + arith::signed8(old(bus).peek(old(self).pc)) + 0x10000)
            } else {
                wrap16(old(self).pc + 1)
            },
            instruction == Instruction::Di ==> !final(self).interrupts_enabled && final(self).enable_interrupts_timer == 0,
            instruction == Instruction::Ei ==> final(self).enable_interrupts_timer == 2,
            instruction == Instruction::Halt ==> final(self).halted,
            instruction == Instruction::Nop ==> *final(self) == *old(self) && *final(bus) == *old(bus),
    {
        proof {
            reveal(Cpu::spec_effect);
            reveal(Cpu::spec_effect_control);
        }
        match instruction {
            Instruction::Call(None) => self.call(bus),
            Instruction::Call(Some(test)) => self.call_conditional(test, branch_cycles, bus),
            Instruction::Jp(None) => self.jump(bus),
            Instruction::Jp(Some(test)) => self.jump_conditional(test, branch_cycles, bus),
            Instruction::JpHl => self.jump_hl(),
            Instruction::Jr(None) => self.jump_relative(bus),
            Instruction::Jr(Some(test)) => self.jump_relative_conditional(test, branch_cycles, bus),
            Instruction::Rst(addr) => self.rst(addr, bus),
            Instruction::Ret(None) => self.ret(bus),
            Instruction::Ret(Some(test)) => self.ret_conditional(test, branch_cycles, bus),
            Instruction::Reti => self.reti(bus),
            Instruction::Di => self.di(),
            Instruction::Ei => self.ei(),
            Instruction::Halt => self.halt(),
            _ => {},
        }
    }

    /// Advances the CPU by one machine cycle. A DMA stall skips the cycle. When
    /// no instruction is in progress, a pending interrupt is serviced or, unless
    /// halted, the next instruction is fetched, decoded and run; then the
    /// enable-interrupts delay and the instruction countdown advance.
    #[verifier::rlimit(100)]
    #[verifier::spinoff_prover]
    pub fn execute<B: CpuBus>(&mut self, bus: &mut B) -> (r: Result<(), CpuFault>)
        requires
            old(bus).bus_wf(),
            old(self).wf(),
        ensures
            old(self).fetches(old(bus)) && !old(self).spec_faults(old(bus)) ==> r is Ok && (Cpu {
                halted: false,
                ..*old(self)
            }).fetch_runs(old(self).fetch_bus(*old(bus)), *final(self), *final(bus)),
            final(bus).bus_wf(),
            final(self).wf(),
            old(bus).dma_paused() ==> r is Ok && *final(self) == *old(self) && *final(bus) == *old(bus),
            r is Err <==> old(self).spec_faults(old(bus)),
            r is Err ==> final(self).pc == old(self).pc && final(self).cycles_remaining == 0 && final(self).decode_faults(
                final(bus),
            ) && *final(bus) == old(self).fetch_bus(*old(bus)),
            old(self).fetches(old(bus)) && r is Ok && old(self).fetch_bus(*old(bus)).peek(old(self).pc) == 0xfb
                ==> final(self).enable_interrupts_timer == 1 && final(self).interrupts_enabled == old(self).interrupts_enabled,
            old(self).fetches(old(bus)) && r is Ok && old(self).enable_interrupts_timer == 1 && old(self).fetch_bus(
                *old(bus),
            ).peek(old(self).pc) != 0xf3 && old(self).fetch_bus(*old(bus)).peek(old(self).pc) != 0xfb
                ==> final(self).interrupts_enabled,
            !old(bus).dma_paused() && old(self).cycles_remaining > 0 ==> {
                &&& r is Ok
                &&& *final(bus) == *old(bus)
                &&& *final(self) == (Cpu {
                    cycles_remaining: (old(self).cycles_remaining - 1) as usize,
                    ..old(self).after_ie_tick()
                })
            },
            !old(bus).dma_paused() && old(self).cycles_remaining == 0 && !old(self).interrupts_enabled
                && old(self).halted && !old(bus).pending() ==> {
                &&& r is Ok
                &&& *final(bus) == *old(bus)
                &&& *final(self) == old(self).after_ie_tick()
            },
            !old(bus).dma_paused() && old(self).cycles_remaining == 0 && old(self).interrupts_enabled
                && old(bus).popped().1 is Some ==> ({
                let b = old(bus).popped().1.unwrap();
                let sp = wrap16(old(self).regs.sp - 2 + 0x10000);
                &&& r is Ok
                &&& poke16(old(bus).popped().0, sp, old(self).pc, *final(bus))
                &&& *final(self) == (Cpu {
                    regs: RegisterSet { sp, ..old(self).regs },
                    pc: (0x40 + 8 * b) as u16,
                    interrupts_enabled: false,
                    enable_interrupts_timer: 0,
                    halted: false,
                    cycles_remaining: 4,
                })
            }),
    {
        if bus.cpu_dma_paused() {
            return Ok(());
        }
        if self.cycles_remaining == 0 {
            if !self.handle_interrupts(bus) {
                if self.halted {
                    self.update_interrupt_timer();
                    return Ok(());
                }
                return self.fetch_and_run(bus);
            }
        }
        self.update_interrupt_timer();
        self.cycles_remaining = self.cycles_remaining - 1;
        Ok(())
    }
}

} // verus!
