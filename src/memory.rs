use crate::cart::mem::{zeroed, zeros};
use vstd::prelude::*;

verus! {

pub const WRAM_BANK_SIZE: usize = 0x1000;
pub const VRAM_BANK_SIZE: usize = 0x2000;

/// Work RAM: a fixed low 4 KiB bank and switchable high banks, chosen by the
/// bank register in colour mode.
pub struct WorkRam {
    pub low: Vec<u8>,
    pub high: Vec<u8>,
    pub svbk: u8,
}

impl WorkRam {
    pub open spec fn wf(&self) -> bool {
        self.low@.len() == WRAM_BANK_SIZE && self.high@.len() == 7 * WRAM_BANK_SIZE
    }

    /// The high bank in use: bank register values 1-7 select banks modulo 4 in
    /// colour mode; classic mode and the value 0 use the first bank.
    pub open spec fn spec_bank(&self, cgb_mode: bool) -> int {
        if !cgb_mode || self.svbk == 0 { 0 } else { (self.svbk as int - 1) % 4 }
    }

    pub open spec fn high_index(&self, addr: u16, cgb_mode: bool) -> int {
        self.spec_bank(cgb_mode) * 0x1000 + addr as int % 0x1000
    }

    pub fn new() -> (r: Self)
        ensures
            r.wf(),
            r.svbk == 0,
            r.low@ == zeros(0x1000),
            r.high@ == zeros(0x7000),
    {
        WorkRam { low: zeroed(WRAM_BANK_SIZE), high: zeroed(7 * WRAM_BANK_SIZE), svbk: 0 }
    }

    pub fn bank(&self, cgb_mode: bool) -> (r: usize)
        ensures
            r == self.spec_bank(cgb_mode),
            r < 4,
    {
        if !cgb_mode || self.svbk == 0 {
            0
        } else {
            ((self.svbk - 1) % 4) as usize
        }
    }

    pub fn read_low(&self, addr: u16) -> (r: u8)
        requires
            self.wf(),
        ensures
            r == self.low@[addr as int % 0x1000],
    {
        self.low[(addr % 0x1000) as usize]
    }

    pub fn read_high(&self, addr: u16, cgb_mode: bool) -> (r: u8)
        requires
            self.wf(),
        ensures
            r == self.high@[self.high_index(addr, cgb_mode)],
    {
        self.high[self.bank(cgb_mode) * WRAM_BANK_SIZE + (addr % 0x1000) as usize]
    }

    pub fn write_low(&mut self, addr: u16, val: u8)
        requires
            old(self).wf(),
        ensures
            final(self).wf(),
            final(self).low@ == old(self).low@.update(addr as int % 0x1000, val),
            final(self).high@ == old(self).high@,
            final(self).svbk == old(self).svbk,
    {
        self.low.set((addr % 0x1000) as usize, val);
    }

    pub fn write_high(&mut self, addr: u16, val: u8, cgb_mode: bool)
        requires
            old(self).wf(),
        ensures
            final(self).wf(),
            final(self).high@ == old(self).high@.update(old(self).high_index(addr, cgb_mode), val),
            final(self).low@ == old(self).low@,
            final(self).svbk == old(self).svbk,
    {
        let i = self.bank(cgb_mode) * WRAM_BANK_SIZE + (addr % 0x1000) as usize;
        self.high.set(i, val);
    }
}

/// Video RAM: two 8 KiB banks; the second is reachable only in colour mode.
pub struct VideoRam {
    pub vram: Vec<u8>,
    pub vbk: u8,
}

impl VideoRam {
    pub open spec fn wf(&self) -> bool {
        self.vram@.len() == 2 * VRAM_BANK_SIZE
    }

    pub open spec fn spec_bank(&self, cgb_mode: bool) -> int {
        if cgb_mode { self.vbk as int % 2 } else { 0 }
    }

    pub open spec fn index(&self, addr: u16, cgb_mode: bool) -> int {
        self.spec_bank(cgb_mode) * 0x2000 + addr as int % 0x2000
    }

    pub fn new() -> (r: Self)
        ensures
            r.wf(),
            r.vbk == 0,
            r.vram@ == zeros(0x4000),
    {
        VideoRam { vram: zeroed(2 * VRAM_BANK_SIZE), vbk: 0 }
    }

    pub fn bank(&self, cgb_mode: bool) -> (r: usize)
        ensures
            r == self.spec_bank(cgb_mode),
    {
        if cgb_mode {
            (self.vbk % 2) as usize
        } else {
            0
        }
    }

    pub fn read(&self, addr: u16, cgb_mode: bool) -> (r: u8)
        requires
            self.wf(),
        ensures
            r == self.vram@[self.index(addr, cgb_mode)],
    {
        self.vram[self.bank(cgb_mode) * VRAM_BANK_SIZE + (addr % 0x2000) as usize]
    }

    pub fn write(&mut self, addr: u16, val: u8, cgb_mode: bool)
        requires
            old(self).wf(),
        ensures
            final(self).wf(),
            final(self).vram@ == old(self).vram@.update(old(self).index(addr, cgb_mode), val),
            final(self).vbk == old(self).vbk,
    {
        let i = self.bank(cgb_mode) * VRAM_BANK_SIZE + (addr % 0x2000) as usize;
        self.vram.set(i, val);
    }

    /// Both banks, bank 0 first.
    pub fn bytes(&self) -> (r: &Vec<u8>)
        ensures
            r@ == self.vram@,
    {
        &self.vram
    }
}

/// Colour palette memory (8 palettes of 4 two-byte colours) with its index
/// register. Bit 7 of the index register turns on auto-increment after each
/// data write, wrapping within 0-0x3f.
pub struct PaletteRam {
    pub ram: Vec<u8>,
    pub select: u8,
}

impl PaletteRam {
    pub open spec fn wf(&self) -> bool {
        self.ram@.len() == 64
    }

    pub open spec fn spec_index(&self) -> int {
        self.select as int % 64
    }

    pub fn new() -> (r: Self)
        ensures
            r.wf(),
            r.select == 0,
            r.ram@ == zeros(64),
    {
        PaletteRam { ram: zeroed(64), select: 0 }
    }

    pub fn index(&self) -> (r: usize)
        ensures
            r == self.spec_index(),
    {
        (self.select % 64) as usize
    }

    pub fn read_data(&self) -> (r: u8)
        requires
            self.wf(),
        ensures
            r == self.ram@[self.spec_index()],
    {
        self.ram[self.index()]
    }

    pub fn write_data(&mut self, val: u8)
        requires
            old(self).wf(),
        ensures
            final(self).wf(),
            final(self).ram@ == old(self).ram@.update(old(self).spec_index(), val),
            old(self).select < 128 ==> final(self).select == old(self).select,
            old(self).select >= 128 ==> final(self).select == (old(self).select as int / 64) * 64 + (
            old(self).select as int % 64 + 1) % 64,
    {
        let i = self.index();
        self.ram.set(i, val);
        if self.select >= 128 {
            self.select = (self.select / 64) * 64 + (self.select % 64 + 1) % 64;
        }
    }

    /// The two bytes of colour `color` (0-3) of palette `palette` (0-7), as a
    /// little-endian 15-bit RGB value.
    pub fn color(&self, palette: usize, color: usize) -> (r: u16)
        requires
            self.wf(),
            palette < 8,
            color < 4,
        ensures
            r == self.ram@[palette * 8 + color * 2] as int + 256 * self.ram@[palette * 8 + color * 2 + 1] as int,
    {
        let i = palette * 8 + color * 2;
        self.ram[i] as u16 + 256 * self.ram[i + 1] as u16
    }
}

} // verus!
