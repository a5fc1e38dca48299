use crate::cart::mem::Mem;
use crate::cart::rtc::Rtc;
use vstd::prelude::*;

verus! {

/// The ROM bank an index selects: bank 0 stands for bank 1 in the switchable window.
pub open spec fn effective_bank(bank: u8) -> int {
    if bank == 0 { 1 } else { bank as int }
}

/// Whether `addr` lies in the upper (switchable) 16 KiB ROM window.
pub open spec fn upper_area(addr: u16) -> bool {
    (addr / 0x4000) % 2 == 1
}

/// Whether a write value enables cartridge RAM (low nibble 0xA).
pub open spec fn enables_ram(val: u8) -> bool {
    val % 16 == 0xa
}

/// A cartridge without bank switching.
#[derive(Debug, Clone, Copy, PartialEq, Eq, Structural)]
pub struct Simple;

impl Simple {
    pub fn read_low(&self, addr: u16, mem: &Mem) -> (r: u8)
        requires
            mem.wf(),
        ensures
            r == mem.rom.at(addr as int),
    {
        mem.rom.read(addr as usize)
    }

    pub fn read_high(&self, addr: u16, mem: &Mem) -> (r: u8)
        requires
            mem.wf(),
        ensures
            r == mem.ram.at(addr as int),
    {
        mem.ram.read(addr as usize)
    }

    pub fn write_high(&mut self, addr: u16, val: u8, mem: &mut Mem)
        requires
            old(mem).wf(),
        ensures
            *final(self) == *old(self),
            final(mem).wf(),
            final(mem).rom == old(mem).rom,
            old(mem).ram.segment is None ==> final(mem).ram@ == old(mem).ram@,
            old(mem).ram.segment is Some ==> final(mem).ram@ == old(mem).ram@.update(
                addr as int % old(mem).ram@.len() as int,
                val,
            ),
    {
        mem.ram.write(addr as usize, val);
    }
}

/// The first bank controller: a 5-bit ROM bank, a 2-bit RAM bank (or upper ROM
/// bits) and a banking-mode switch.
#[derive(Debug, Clone, Copy, PartialEq, Eq, Structural)]
pub struct Mbc1 {
    pub rom_bank: u8,
    pub ram_bank: u8,
    pub advanced_banking: bool,
    pub ram_enabled: bool,
}

impl Mbc1 {
    pub open spec fn wf(&self) -> bool {
        self.rom_bank < 32 && self.ram_bank < 4
    }

    pub open spec fn spec_rom_offset(&self, addr: u16) -> int {
        addr as int % 0x4000 + (if upper_area(addr) { effective_bank(self.rom_bank) * 0x4000 } else { 0 })
            + (if self.advanced_banking || upper_area(addr) { self.ram_bank as int * 0x80000 } else { 0 })
    }

    pub open spec fn spec_ram_offset(&self, addr: u16) -> int {
        addr as int % 0x2000 + (if self.advanced_banking { self.ram_bank as int * 0x2000 } else { 0 })
    }

    /// The controller after a register write to the ROM area.
    pub open spec fn spec_write_low(self, addr: u16, val: u8) -> Mbc1 {
        let reg = (addr / 0x2000) % 4;
        if reg == 0 {
            Mbc1 { ram_enabled: enables_ram(val), ..self }
        } else if reg == 1 {
            Mbc1 { rom_bank: val % 32, ..self }
        } else if reg == 2 {
            Mbc1 { ram_bank: val % 4, ..self }
        } else {
            Mbc1 { advanced_banking: val % 2 == 1, ..self }
        }
    }

    pub fn new() -> (r: Self)
        ensures
            r.wf(),
            r == (Mbc1 { rom_bank: 0, ram_bank: 0, advanced_banking: false, ram_enabled: false }),
    {
        Mbc1 { rom_bank: 0, ram_bank: 0, advanced_banking: false, ram_enabled: false }
    }

    pub fn rom_bank_offset(&self) -> (r: usize)
        requires
            self.wf(),
        ensures
            r == effective_bank(self.rom_bank) * 0x4000,
    {
        let bank_num = if self.rom_bank == 0 { 1 } else { self.rom_bank };
        bank_num as usize * 0x4000
    }

    pub fn rom_offset(&self, addr: u16) -> (r: usize)
        requires
            self.wf(),
        ensures
            r == self.spec_rom_offset(addr),
    {
        let mut offset = (addr % 0x4000) as usize;
        let upper = (addr / 0x4000) % 2 == 1;
        if upper {
            offset = offset + self.rom_bank_offset();
        }
        if self.advanced_banking || upper {
            offset = offset + self.ram_bank as usize * 0x80000;
        }
        offset
    }

    pub fn ram_offset(&self, addr: u16) -> (r: usize)
        requires
            self.wf(),
        ensures
            r == self.spec_ram_offset(addr),
    {
        let mut offset = (addr % 0x2000) as usize;
        if self.advanced_banking {
            offset = offset + self.ram_bank as usize * 0x2000;
        }
        offset
    }

    pub fn read_low(&self, addr: u16, mem: &Mem) -> (r: u8)
        requires
            self.wf(),
            mem.wf(),
        ensures
            r == mem.rom.at(self.spec_rom_offset(addr)),
    {
        mem.rom.read(self.rom_offset(addr))
    }

    /// A write to the ROM area selects a register by address bits 13-14.
    pub fn write_low(&mut self, addr: u16, val: u8)
        requires
            old(self).wf(),
        ensures
            final(self).wf(),
            *final(self) == old(self).spec_write_low(addr, val),
            ({
                let reg = (addr / 0x2000) % 4;
                &&& reg == 0 ==> *final(self) == (Mbc1 { ram_enabled: enables_ram(val), ..*old(self) })
                &&& reg == 1 ==> *final(self) == (Mbc1 { rom_bank: val % 32, ..*old(self) })
                &&& reg == 2 ==> *final(self) == (Mbc1 { ram_bank: val % 4, ..*old(self) })
                &&& reg == 3 ==> *final(self) == (Mbc1 { advanced_banking: val % 2 == 1, ..*old(self) })
            }),
    {
        let reg_num = (addr / 0x2000) % 4;
        if reg_num == 0 {
            self.ram_enabled = val % 16 == 0xa;
        } else if reg_num == 1 {
            self.rom_bank = val % 32;
        } else if reg_num == 2 {
            self.ram_bank = val % 4;
        } else {
            self.advanced_banking = val % 2 == 1;
        }
    }

    pub fn read_high(&self, addr: u16, mem: &Mem) -> (r: u8)
        requires
            self.wf(),
            mem.wf(),
        ensures
            r == if self.ram_enabled { mem.ram.at(self.spec_ram_offset(addr)) } else { 0xff },
    {
        if self.ram_enabled {
            mem.ram.read(self.ram_offset(addr))
        } else {
            0xff
        }
    }

    pub fn write_high(&mut self, addr: u16, val: u8, mem: &mut Mem)
        requires
            old(self).wf(),
            old(mem).wf(),
        ensures
            *final(self) == *old(self),
            final(mem).wf(),
            final(mem).rom == old(mem).rom,
            !old(self).ram_enabled || old(mem).ram.segment is None ==> final(mem).ram@ == old(mem).ram@,
            old(self).ram_enabled && old(mem).ram.segment is Some ==> final(mem).ram@ == old(mem).ram@.update(
                old(self).spec_ram_offset(addr) % old(mem).ram@.len() as int,
                val,
            ),
    {
        if self.ram_enabled {
            mem.ram.write(self.ram_offset(addr), val);
        }
    }
}

/// The second bank controller: a 4-bit ROM bank and 512 half-bytes of built-in RAM.
#[derive(Debug, Clone, Copy, PartialEq, Eq, Structural)]
pub struct Mbc2 {
    pub rom_bank: u8,
    pub ram_enabled: bool,
}

impl Mbc2 {
    pub open spec fn wf(&self) -> bool {
        self.rom_bank < 16
    }

    pub open spec fn spec_rom_offset(&self, addr: u16) -> int {
        addr as int % 0x4000 + (if upper_area(addr) { effective_bank(self.rom_bank) * 0x4000 } else { 0 })
    }

    /// The controller after a register write to the ROM area.
    pub open spec fn spec_write_low(self, addr: u16, val: u8) -> Mbc2 {
        if (addr / 0x100) % 2 == 0 {
            Mbc2 { ram_enabled: enables_ram(val), ..self }
        } else {
            Mbc2 { rom_bank: val % 16, ..self }
        }
    }

    pub fn new() -> (r: Self)
        ensures
            r.wf(),
            r == (Mbc2 { rom_bank: 0, ram_enabled: false }),
    {
        Mbc2 { rom_bank: 0, ram_enabled: false }
    }

    pub fn rom_bank_offset(&self) -> (r: usize)
        requires
            self.wf(),
        ensures
            r == effective_bank(self.rom_bank) * 0x4000,
    {
        let bank_num = if self.rom_bank == 0 { 1 } else { self.rom_bank };
        bank_num as usize * 0x4000
    }

    pub fn rom_offset(&self, addr: u16) -> (r: usize)
        requires
            self.wf(),
        ensures
            r == self.spec_rom_offset(addr),
    {
        let mut offset = (addr % 0x4000) as usize;
        if (addr / 0x4000) % 2 == 1 {
            offset = offset + self.rom_bank_offset();
        }
        offset
    }

    pub fn ram_offset(&self, addr: u16) -> (r: usize)
        ensures
            r == addr % 0x2000,
    {
        (addr % 0x2000) as usize
    }

    pub fn read_low(&self, addr: u16, mem: &Mem) -> (r: u8)
        requires
            self.wf(),
            mem.wf(),
        ensures
            r == mem.rom.at(self.spec_rom_offset(addr)),
    {
        mem.rom.read(self.rom_offset(addr))
    }

    /// Address bit 8 selects the RAM-enable register or the ROM bank register.
    pub fn write_low(&mut self, addr: u16, val: u8)
        requires
            old(self).wf(),
        ensures
            final(self).wf(),
            *final(self) == old(self).spec_write_low(addr, val),
            (addr / 0x100) % 2 == 0 ==> *final(self) == (Mbc2 { ram_enabled: enables_ram(val), ..*old(self) }),
            (addr / 0x100) % 2 == 1 ==> *final(self) == (Mbc2 { rom_bank: val % 16, ..*old(self) }),
    {
        if (addr / 0x100) % 2 == 0 {
            self.ram_enabled = val % 16 == 0xa;
        } else {
            self.rom_bank = val % 16;
        }
    }

    /// RAM holds only a low nibble per byte.
    pub fn read_high(&self, addr: u16, mem: &Mem) -> (r: u8)
        requires
            mem.wf(),
        ensures
            r == if self.ram_enabled { mem.ram.at((addr % 0x2000) as int) % 16 } else { 0xff },
    {
        if self.ram_enabled {
            mem.ram.read(self.ram_offset(addr)) % 16
        } else {
            0xff
        }
    }

    pub fn write_high(&mut self, addr: u16, val: u8, mem: &mut Mem)
        requires
            old(mem).wf(),
        ensures
            *final(self) == *old(self),
            final(mem).wf(),
            final(mem).rom == old(mem).rom,
            !old(self).ram_enabled || old(mem).ram.segment is None ==> final(mem).ram@ == old(mem).ram@,
            old(self).ram_enabled && old(mem).ram.segment is Some ==> final(mem).ram@ == old(mem).ram@.update(
                (addr % 0x2000) as int % old(mem).ram@.len() as int,
                val % 16,
            ),
    {
        if self.ram_enabled {
            mem.ram.write(self.ram_offset(addr), val % 16);
        }
    }
}

/// The third bank controller: a 7-bit ROM bank, a RAM bank register that also
/// selects the clock registers (0x08-0x0c), and an optional real-time clock.
#[derive(Debug, Clone, Copy, PartialEq, Eq, Structural)]
pub struct Mbc3 {
    pub rom_bank: u8,
    pub ram_bank: u8,
    pub ram_enabled: bool,
    pub rtc: Option<Rtc>,
}

/// Whether a RAM bank value selects a clock register.
pub open spec fn is_rtc_reg(bank: u8) -> bool {
    0x08 <= bank <= 0x0c
}

impl Mbc3 {
    pub open spec fn wf(&self) -> bool {
        self.rom_bank < 128
    }

    pub open spec fn spec_rom_offset(&self, addr: u16) -> int {
        addr as int % 0x4000 + (if upper_area(addr) { effective_bank(self.rom_bank) * 0x4000 } else { 0 })
    }

    pub open spec fn spec_ram_offset(&self, addr: u16) -> int {
        addr as int % 0x2000 + (self.ram_bank as int % 4) * 0x2000
    }

    /// The value of a clock register.
    pub open spec fn spec_rtc_reg(rtc: Rtc, bank: u8) -> u8 {
        if bank == 0x08 {
            (secs_of_latched(rtc) % 60) as u8
        } else if bank == 0x09 {
            (secs_of_latched(rtc) / 60 % 60) as u8
        } else if bank == 0x0a {
            (secs_of_latched(rtc) / 3600 % 24) as u8
        } else if bank == 0x0b {
            (rtc.spec_days() % 256) as u8
        } else {
            rtc.spec_flags()
        }
    }

    pub fn new() -> (r: Self)
        ensures
            r.wf(),
            r == (Mbc3 { rom_bank: 0, ram_bank: 0, ram_enabled: false, rtc: None }),
    {
        Mbc3 { rom_bank: 0, ram_bank: 0, ram_enabled: false, rtc: None }
    }

    pub fn new_with_rtc(now: u64) -> (r: Self)
        ensures
            r.wf(),
            r.rom_bank == 0 && r.ram_bank == 0 && !r.ram_enabled,
            r.rtc matches Some(rtc) && rtc == Rtc::spec_new(now),
    {
        Mbc3 { rom_bank: 0, ram_bank: 0, ram_enabled: false, rtc: Some(Rtc::new(now)) }
    }

    pub fn rom_bank_offset(&self) -> (r: usize)
        requires
            self.wf(),
        ensures
            r == effective_bank(self.rom_bank) * 0x4000,
    {
        let bank_num = if self.rom_bank == 0 { 1 } else { self.rom_bank };
        bank_num as usize * 0x4000
    }

    pub fn rom_offset(&self, addr: u16) -> (r: usize)
        requires
            self.wf(),
        ensures
            r == self.spec_rom_offset(addr),
    {
        let mut offset = (addr % 0x4000) as usize;
        if (addr / 0x4000) % 2 == 1 {
            offset = offset + self.rom_bank_offset();
        }
        offset
    }

    pub fn ram_offset(&self, addr: u16) -> (r: usize)
        ensures
            r == self.spec_ram_offset(addr),
    {
        (addr % 0x2000) as usize + (self.ram_bank % 4) as usize * 0x2000
    }

    pub fn read_low(&self, addr: u16, mem: &Mem) -> (r: u8)
        requires
            self.wf(),
            mem.wf(),
        ensures
            r == mem.rom.at(self.spec_rom_offset(addr)),
    {
        mem.rom.read(self.rom_offset(addr))
    }

    /// Register writes; register 3 drives the clock's latch signal at wall-clock
    /// instant `now`.
    pub fn write_low(&mut self, addr: u16, val: u8, now: u64)
        requires
            old(self).wf(),
        ensures
            final(self).wf(),
            ({
                let reg = (addr / 0x2000) % 4;
                &&& reg == 0 ==> *final(self) == (Mbc3 { ram_enabled: enables_ram(val), ..*old(self) })
                &&& reg == 1 ==> *final(self) == (Mbc3 { rom_bank: val % 128, ..*old(self) })
                &&& reg == 2 ==> *final(self) == (Mbc3 { ram_bank: val, ..*old(self) })
                &&& reg == 3 ==> final(self).rom_bank == old(self).rom_bank && final(self).ram_bank
                    == old(self).ram_bank && final(self).ram_enabled == old(self).ram_enabled
                    && final(self).rtc is Some == old(self).rtc is Some
                &&& reg == 3 && old(self).rtc is Some ==> final(self).rtc.unwrap().latch_signal == (val % 2 == 1)
            }),
    {
        let reg_num = (addr / 0x2000) % 4;
        if reg_num == 0 {
            self.ram_enabled = val % 16 == 0xa;
        } else if reg_num == 1 {
            self.rom_bank = val % 128;
        } else if reg_num == 2 {
            self.ram_bank = val;
        } else {
            match &mut self.rtc {
                Some(rtc) => rtc.latch(val % 2 == 1, now),
                None => {},
            }
        }
    }

    pub fn read_high(&self, addr: u16, mem: &Mem) -> (r: u8)
        requires
            mem.wf(),
        ensures
            r == if !self.ram_enabled {
                0xff
            } else if self.rtc is Some && is_rtc_reg(self.ram_bank) {
                Mbc3::spec_rtc_reg(self.rtc.unwrap(), self.ram_bank)
            } else {
                mem.ram.at(self.spec_ram_offset(addr))
            },
    {
        if !self.ram_enabled {
            return 0xff;
        }
        match &self.rtc {
            Some(rtc) => {
                if self.ram_bank == 0x08 {
                    return rtc.seconds() as u8;
                } else if self.ram_bank == 0x09 {
                    return rtc.minutes() as u8;
                } else if self.ram_bank == 0x0a {
                    return rtc.hours() as u8;
                } else if self.ram_bank == 0x0b {
                    return (rtc.days() % 256) as u8;
                } else if self.ram_bank == 0x0c {
                    return rtc.flags();
                }
            },
            None => {},
        }
        mem.ram.read(self.ram_offset(addr))
    }

    /// RAM writes, or writes of one clock field at wall-clock instant `now`.
    pub fn write_high(&mut self, addr: u16, val: u8, mem: &mut Mem, now: u64)
        requires
            old(self).wf(),
            old(mem).wf(),
        ensures
            final(self).wf(),
            final(mem).wf(),
            final(mem).rom == old(mem).rom,
            final(self).rom_bank == old(self).rom_bank,
            final(self).ram_bank == old(self).ram_bank,
            final(self).ram_enabled == old(self).ram_enabled,
            final(self).rtc is Some == old(self).rtc is Some,
            !old(self).ram_enabled ==> *final(self) == *old(self) && final(mem).ram@ == old(mem).ram@,
            old(self).ram_enabled && old(self).rtc is Some && is_rtc_reg(old(self).ram_bank)
                ==> final(mem).ram@ == old(mem).ram@,
            old(self).ram_enabled && !(old(self).rtc is Some && is_rtc_reg(old(self).ram_bank)) ==> {
                &&& *final(self) == *old(self)
                &&& old(mem).ram.segment is None ==> final(mem).ram@ == old(mem).ram@
                &&& old(mem).ram.segment is Some ==> final(mem).ram@ == old(mem).ram@.update(
                    old(self).spec_ram_offset(addr) % old(mem).ram@.len() as int,
                    val,
                )
            },
    {
        if !self.ram_enabled {
            return;
        }
        let bank = self.ram_bank;
        match &mut self.rtc {
            Some(rtc) => {
                if bank == 0x08 {
                    rtc.set_seconds(val, now);
                    return;
                } else if bank == 0x09 {
                    rtc.set_minutes(val, now);
                    return;
                } else if bank == 0x0a {
                    rtc.set_hours(val, now);
                    return;
                } else if bank == 0x0b {
                    rtc.set_days(val, now);
                    return;
                } else if bank == 0x0c {
                    rtc.set_flags(val, now);
                    return;
                }
            },
            None => {},
        }
        mem.ram.write(self.ram_offset(addr), val);
    }
}

pub open spec fn secs_of_latched(rtc: Rtc) -> int {
    rtc.latched as int / 1000
}

} // verus!
