use crate::cpu::arith::signed8;
use crate::cpu::{peek16, poke16, read_16, wrap16, Cpu, CpuBus, CpuFault};
use crate::instruction::Test;
use crate::regs::{Flag, Reg16, RegisterSet};
use vstd::prelude::*;

verus! {

/// The speed-switch register, which STOP consults.
pub const SPEED_REG_ADDR: u16 = 0xff4d;

impl Cpu {
    pub fn test(&self, test: Test) -> (r: bool)
        ensures
            r == self.spec_test(test),
    {
        match test {
            Test::C => self.regs.get_flag(Flag::Carry),
            Test::Z => self.regs.get_flag(Flag::Zero),
            Test::Nc => !self.regs.get_flag(Flag::Carry),
            Test::Nz => !self.regs.get_flag(Flag::Zero),
        }
    }

    /// PC <- the 16-bit immediate.
    pub fn jump<B: CpuBus>(&mut self, bus: &B)
        requires
            bus.bus_wf(),
        ensures
            *final(self) == (Cpu { pc: peek16(bus, old(self).pc), ..*old(self) }),
    {
        self.pc = self.read_immedate_16(bus);
    }

    /// PC <- HL.
    pub fn jump_hl(&mut self)
        ensures
            *final(self) == (Cpu { pc: old(self).regs.get16(Reg16::HL), ..*old(self) }),
    {
        self.pc = self.regs.read16(Reg16::HL);
    }

    /// Jumps when the test holds; otherwise skips the address and costs `cycles`.
    pub fn jump_conditional<B: CpuBus>(&mut self, test: Test, cycles: usize, bus: &B)
        requires
            bus.bus_wf(),
        ensures
            old(self).spec_test(test) ==> *final(self) == (Cpu { pc: peek16(bus, old(self).pc), ..*old(self) }),
            !old(self).spec_test(test) ==> *final(self) == (Cpu {
                pc: wrap16(old(self).pc + 2),
                cycles_remaining: cycles,
                ..*old(self)
            }),
    {
        if self.test(test) {
            self.jump(bus);
        } else {
            self.cycles_remaining = cycles;
            let _ = self.read_immedate_16(bus);
        }
    }

    /// PC <- PC + signed 8-bit immediate, counted from the next instruction.
    pub fn jump_relative<B: CpuBus>(&mut self, bus: &B)
        requires
            bus.bus_wf(),
        ensures
            *final(self) == (Cpu {
                pc: wrap16(old(self).pc + 1 + signed8(bus.peek(old(self).pc)) + 0x10000),
                ..*old(self)
            }),
    {
        let offset = self.read_immedate_8(bus);
        if offset >= 128 {
            self.pc = self.pc.wrapping_sub(256 - offset as u16);
        } else {
            self.pc = self.pc.wrapping_add(offset as u16);
        }
    }

    pub fn jump_relative_conditional<B: CpuBus>(&mut self, test: Test, cycles: usize, bus: &B)
        requires
            bus.bus_wf(),
        ensures
            old(self).spec_test(test) ==> *final(self) == (Cpu {
                pc: wrap16(old(self).pc + 1 + signed8(bus.peek(old(self).pc)) + 0x10000),
                ..*old(self)
            }),
            !old(self).spec_test(test) ==> *final(self) == (Cpu {
                pc: wrap16(old(self).pc + 1),
                cycles_remaining: cycles,
                ..*old(self)
            }),
    {
        if self.test(test) {
            self.jump_relative(bus);
        } else {
            self.cycles_remaining = cycles;
            let _ = self.read_immedate_8(bus);
        }
    }

    /// Pushes PC and jumps to `addr`.
    pub fn call_addr<B: CpuBus>(&mut self, addr: u16, bus: &mut B)
        requires
            old(bus).bus_wf(),
        ensures
            final(bus).bus_wf(),
            ({
                let sp = wrap16(old(self).regs.sp - 2 + 0x10000);
                &&& poke16(*old(bus), sp, old(self).pc, *final(bus))
                &&& *final(self) == (Cpu {
                    regs: RegisterSet { sp, ..old(self).regs },
                    pc: addr,
                    ..*old(self)
                })
            }),
    {
        let sp = self.regs.sp.wrapping_sub(2);
        self.regs.sp = sp;
        crate::cpu::write_16(bus, sp, self.pc);
        self.pc = addr;
    }

    /// Calls the 16-bit immediate address; the pushed return address follows it.
    pub fn call<B: CpuBus>(&mut self, bus: &mut B)
        requires
            old(bus).bus_wf(),
        ensures
            final(bus).bus_wf(),
            ({
                let sp = wrap16(old(self).regs.sp - 2 + 0x10000);
                &&& poke16(*old(bus), sp, wrap16(old(self).pc + 2), *final(bus))
                &&& *final(self) == (Cpu {
                    regs: RegisterSet { sp, ..old(self).regs },
                    pc: peek16(old(bus), old(self).pc),
                    ..*old(self)
                })
            }),
    {
        let addr = self.read_immedate_16(bus);
        self.call_addr(addr, bus);
    }

    pub fn call_conditional<B: CpuBus>(&mut self, test: Test, cycles: usize, bus: &mut B)
        requires
            old(bus).bus_wf(),
        ensures
            final(bus).bus_wf(),
            old(self).spec_test(test) ==> ({
                let sp = wrap16(old(self).regs.sp - 2 + 0x10000);
                &&& poke16(*old(bus), sp, wrap16(old(self).pc + 2), *final(bus))
                &&& *final(self) == (Cpu {
                    regs: RegisterSet { sp, ..old(self).regs },
                    pc: peek16(old(bus), old(self).pc),
                    ..*old(self)
                })
            }),
            !old(self).spec_test(test) ==> {
                &&& *final(bus) == *old(bus)
                &&& *final(self) == (Cpu {
                    pc: wrap16(old(self).pc + 2),
                    cycles_remaining: cycles,
                    ..*old(self)
                })
            },
    {
        if self.test(test) {
            self.call(bus);
        } else {
            self.cycles_remaining = cycles;
            let _ = self.read_immedate_16(bus);
        }
    }

    /// Calls a fixed restart address.
    pub fn rst<B: CpuBus>(&mut self, addr: u8, bus: &mut B)
        requires
            old(bus).bus_wf(),
        ensures
            final(bus).bus_wf(),
            ({
                let sp = wrap16(old(self).regs.sp - 2 + 0x10000);
                &&& poke16(*old(bus), sp, old(self).pc, *final(bus))
                &&& *final(self) == (Cpu {
                    regs: RegisterSet { sp, ..old(self).regs },
                    pc: addr as u16,
                    ..*old(self)
                })
            }),
    {
        self.call_addr(addr as u16, bus);
    }

    /// Pops PC from the stack.
    pub fn ret<B: CpuBus>(&mut self, bus: &B)
        requires
            bus.bus_wf(),
        ensures
            *final(self) == (Cpu {
                regs: RegisterSet { sp: wrap16(old(self).regs.sp + 2), ..old(self).regs },
                pc: peek16(bus, old(self).regs.sp),
                ..*old(self)
            }),
    {
        let sp = self.regs.sp;
        self.pc = read_16(bus, sp);
        self.regs.sp = sp.wrapping_add(2);
    }

    pub fn ret_conditional<B: CpuBus>(&mut self, test: Test, cycles: usize, bus: &B)
        requires
            bus.bus_wf(),
        ensures
            old(self).spec_test(test) ==> *final(self) == (Cpu {
                regs: RegisterSet { sp: wrap16(old(self).regs.sp + 2), ..old(self).regs },
                pc: peek16(bus, old(self).regs.sp),
                ..*old(self)
            }),
            !old(self).spec_test(test) ==> *final(self) == (Cpu { cycles_remaining: cycles, ..*old(self) }),
    {
        if self.test(test) {
            self.ret(bus);
        } else {
            self.cycles_remaining = cycles;
        }
    }

    /// STOP: with a speed switch prepared (bit 0 of the speed register) it toggles
    /// the double-speed bit and clears the request; otherwise low-power mode would
    /// be entered, which is a fault.
    pub fn stop<B: CpuBus>(&mut self, bus: &mut B) -> (r: Result<(), CpuFault>)
        requires
            old(bus).bus_wf(),
        ensures
            final(bus).bus_wf(),
            *final(self) == (Cpu { pc: wrap16(old(self).pc + 1), ..*old(self) }),
            ({
                let reg = old(bus).peek(SPEED_REG_ADDR);
                &&& reg % 2 == 1 ==> r is Ok && old(bus).poke(SPEED_REG_ADDR, reg ^ 0x81, *final(bus))
                &&& reg % 2 == 0 ==> r == Err::<(), CpuFault>(CpuFault::LowPowerMode) && *final(bus) == *old(bus)
            }),
    {
        let _ = self.read_immedate_8(bus);
        let reg = bus.read_8(SPEED_REG_ADDR);
        if reg % 2 == 1 {
            bus.write_8(SPEED_REG_ADDR, reg ^ 0x81);
            Ok(())
        } else {
            Err(CpuFault::LowPowerMode)
        }
    }

    /// Enables interrupts after the next instruction.
    pub fn ei(&mut self)
        ensures
            *final(self) == (Cpu { enable_interrupts_timer: 2, ..*old(self) }),
    {
        self.enable_interrupts_timer = 2;
    }

    /// Disables interrupts at once, cancelling a pending enable.
    pub fn di(&mut self)
        ensures
            *final(self) == (Cpu { enable_interrupts_timer: 0, interrupts_enabled: false, ..*old(self) }),
    {
        self.enable_interrupts_timer = 0;
        self.interrupts_enabled = false;
    }

    /// Returns from an interrupt handler, enabling interrupts at once.
    pub fn reti<B: CpuBus>(&mut self, bus: &B)
        requires
            bus.bus_wf(),
        ensures
            *final(self) == (Cpu {
                regs: RegisterSet { sp: wrap16(old(self).regs.sp + 2), ..old(self).regs },
                pc: peek16(bus, old(self).regs.sp),
                interrupts_enabled: true,
                ..*old(self)
            }),
    {
        self.interrupts_enabled = true;
        self.ret(bus);
    }

    /// Counts down the delay of an enable; interrupts turn on when it reaches zero.
    pub fn update_interrupt_timer(&mut self)
        ensures
            old(self).enable_interrupts_timer == 0 ==> *final(self) == *old(self),
            old(self).enable_interrupts_timer == 1 ==> *final(self) == (Cpu {
                enable_interrupts_timer: 0,
                interrupts_enabled: true,
                ..*old(self)
            }),
            old(self).enable_interrupts_timer > 1 ==> *final(self) == (Cpu {
                enable_interrupts_timer: (old(self).enable_interrupts_timer - 1) as usize,
                ..*old(self)
            }),
    {
        if self.enable_interrupts_timer > 0 {
            self.enable_interrupts_timer -= 1;
            if self.enable_interrupts_timer == 0 {
                self.interrupts_enabled = true;
            }
        }
    }

    /// Halts until an interrupt is flagged.
    pub fn halt(&mut self)
        ensures
            *final(self) == (Cpu { halted: true, ..*old(self) }),
    {
        self.halted = true;
    }

    /// Services the pending interrupt of highest priority when interrupts are
    /// enabled: disables interrupts, pushes PC, jumps to `0x40 + 8 * bit` and
    /// takes five cycles. Returns whether an interrupt was serviced. With
    /// interrupts disabled, a pending interrupt only ends a halt.
    pub fn handle_interrupts<B: CpuBus>(&mut self, bus: &mut B) -> (r: bool)
        requires
            old(bus).bus_wf(),
        ensures
            final(bus).bus_wf(),
            !old(self).interrupts_enabled ==> {
                &&& !r
                &&& *final(bus) == *old(bus)
                &&& *final(self) == (Cpu {
                    halted: old(self).halted && !old(bus).pending(),
                    ..*old(self)
                })
            },
            old(self).interrupts_enabled ==> ({
                let (popped, bit) = old(bus).popped();
                match bit {
                    None => !r && *final(bus) == popped && *final(self) == *old(self),
                    Some(b) => {
                        let sp = wrap16(old(self).regs.sp - 2 + 0x10000);
                        &&& r
                        &&& poke16(popped, sp, old(self).pc, *final(bus))
                        &&& *final(self) == (Cpu {
                            regs: RegisterSet { sp, ..old(self).regs },
                            pc: (0x40 + 8 * b) as u16,
                            interrupts_enabled: false,
                            enable_interrupts_timer: 0,
                            halted: false,
                            cycles_remaining: 5,
                        })
                    },
                }
            }),
    {
        if !self.interrupts_enabled {
            if bus.interrupt_pending() {
                self.halted = false;
            }
            return false;
        }
        let bit = match bus.pop_interrupt() {
            Some(bit) => bit,
            None => return false,
        };
        self.di();
        self.halted = false;
        let addr = 0x40 + bit as u16 * 8;
        self.call_addr(addr, bus);
        self.cycles_remaining = 5;
        true
    }
}

} // verus!
