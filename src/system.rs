use crate::apu::{Apu, NoiseChannel, PulseChannel, WaveChannel};
use crate::cart::mbc::is_rtc_reg;
use crate::cart::{seq_write, AnyMbc, Cart};
use crate::cpu::{Cpu, CpuBus, CpuFault};
use crate::dma::{Dma, DmaBus, DmaState, DmaType};
use crate::interrupt::InterruptState;
use crate::joypad::{Button, ButtonState, Joypad};
use crate::memory::{PaletteRam, VideoRam, WorkRam};
use crate::ppu::{Mode, Ppu, FRAME_BYTES, OAM_BYTES};
use crate::timer::Timer;
use crate::cart::mem::zeroed;
use vstd::prelude::*;

verus! {

/// Size of the boot ROM overlay (0x0000-0x00ff and 0x0200-0x08ff).
pub const BOOT_ROM_BYTES: usize = 0x900;
pub const HRAM_BYTES: usize = 0x7f;
/// The KEY0 value that the boot ROM writes for a cartridge without colour support.
pub const NON_CGB_KEY0_VAL: u8 = 0x04;
/// Machine cycles in one video frame: 154 lines of 114 cycles.
pub const CYCLES_PER_FRAME: usize = 17556;

/// Register offsets in the 0xff00 page.
pub const P1: u8 = 0x00;
pub const DIV: u8 = 0x04;
pub const TIMA: u8 = 0x05;
pub const TMA: u8 = 0x06;
pub const TAC: u8 = 0x07;
pub const IF: u8 = 0x0f;
pub const LCDC: u8 = 0x40;
pub const STAT: u8 = 0x41;
pub const SCY: u8 = 0x42;
pub const SCX: u8 = 0x43;
pub const LY: u8 = 0x44;
pub const LYC: u8 = 0x45;
pub const DMA: u8 = 0x46;
pub const BGP: u8 = 0x47;
pub const OBP0: u8 = 0x48;
pub const OBP1: u8 = 0x49;
pub const WY: u8 = 0x4a;
pub const WX: u8 = 0x4b;
pub const KEY0: u8 = 0x4c;
pub const VBK: u8 = 0x4f;
pub const BANK: u8 = 0x50;
pub const HDMA1: u8 = 0x51;
pub const HDMA2: u8 = 0x52;
pub const HDMA3: u8 = 0x53;
pub const HDMA4: u8 = 0x54;
pub const HDMA5: u8 = 0x55;
pub const BCPS: u8 = 0x68;
pub const BCPD: u8 = 0x69;
pub const OCPS: u8 = 0x6a;
pub const OCPD: u8 = 0x6b;
pub const SVBK: u8 = 0x70;
pub const IE: u8 = 0xff;

/// Everything on the address bus but the CPU: the devices, the memories, the
/// boot ROM overlay and the cartridge. `now` is the wall-clock instant (in
/// milliseconds) that cartridge clock accesses see.
pub struct Peripherals {
    pub timer: Timer,
    pub ppu: Ppu,
    pub apu: Apu,
    pub dma: Dma,
    pub joypad: Joypad,
    pub interrupt: InterruptState,
    pub wram: WorkRam,
    pub vram: VideoRam,
    pub oam: Vec<u8>,
    pub hram: Vec<u8>,
    pub bg_palette: PaletteRam,
    pub obj_palette: PaletteRam,
    pub boot_rom: Vec<u8>,
    pub boot_rom_mapped: bool,
    pub cgb_mode: bool,
    pub key0: u8,
    pub cart: Cart,
    pub now: u64,
}

/// Whether the upper address byte `hi` lies under the boot ROM overlay.
pub open spec fn boot_area(hi: int) -> bool {
    hi == 0 || (2 <= hi <= 8)
}

/// What a read of the unusable area 0xfea0-0xfeff returns: the low nibble of
/// the address in both nibbles.
pub open spec fn prohibited_read(lo: int) -> u8 {
    ((lo % 16) * 17) as u8
}

impl Peripherals {
    pub open spec fn wf(&self) -> bool {
        &&& self.ppu.wf()
        &&& self.apu.wf()
        &&& self.dma.wf()
        &&& self.wram.wf()
        &&& self.vram.wf()
        &&& self.oam@.len() == OAM_BYTES
        &&& self.hram@.len() == HRAM_BYTES
        &&& self.bg_palette.wf()
        &&& self.obj_palette.wf()
        &&& self.boot_rom@.len() == BOOT_ROM_BYTES
        &&& self.cart.wf()
    }

    /// What a read of register `lo` of the 0xff00 page returns. Unmapped
    /// registers read as zero; the palette registers exist in colour mode only.
    pub open spec fn spec_read_reg(&self, lo: u8) -> u8 {
        if 0x80 <= lo < 0xff {
            self.hram@[lo - 0x80]
        } else if self.cgb_mode && lo == BCPD {
            self.bg_palette.ram@[self.bg_palette.spec_index()]
        } else if self.cgb_mode && lo == OCPD {
            self.obj_palette.ram@[self.obj_palette.spec_index()]
        } else if self.cgb_mode && lo == BCPS {
            self.bg_palette.select
        } else if self.cgb_mode && lo == OCPS {
            self.obj_palette.select
        } else if self.cgb_mode && lo == HDMA5 {
            0xff
        } else if lo == HDMA1 {
            self.dma.hdma1
        } else if lo == HDMA2 {
            self.dma.hdma2
        } else if lo == HDMA3 {
            self.dma.hdma3
        } else if lo == HDMA4 {
            self.dma.hdma4
        } else if lo == P1 {
            (self.joypad.p1 & 0xf0) | (!self.joypad.selected_bits() & 0x0f)
        } else if lo == DIV {
            (self.timer.counter / 256) as u8
        } else if lo == TIMA {
            self.timer.tima
        } else if lo == TMA {
            self.timer.tma
        } else if lo == TAC {
            self.timer.tac
        } else if lo == SVBK {
            self.wram.svbk
        } else if lo == VBK {
            self.vram.vbk
        } else if lo == IF {
            self.interrupt.flags
        } else if lo == IE {
            self.interrupt.enable
        } else if lo == DMA {
            self.dma.dma
        } else if lo == BGP {
            self.ppu.bgp
        } else if lo == LCDC {
            self.ppu.lcdc
        } else if lo == LY {
            self.ppu.ly
        } else if lo == LYC {
            self.ppu.lyc
        } else if lo == OBP0 {
            self.ppu.obp0
        } else if lo == OBP1 {
            self.ppu.obp1
        } else if lo == SCX {
            self.ppu.scx
        } else if lo == SCY {
            self.ppu.scy
        } else if lo == WX {
            self.ppu.wx
        } else if lo == WY {
            self.ppu.wy
        } else if lo == STAT {
            if self.ppu.spec_lcd_enabled() { self.ppu.spec_lcd_stat() } else { 0 }
        } else if lo == 0x10 {
            self.apu.ch1.nr10
        } else if lo == 0x11 {
            ((self.apu.ch1.nrx1 / 64) * 64) as u8
        } else if lo == 0x12 {
            self.apu.ch1.nrx2
        } else if lo == 0x13 {
            self.apu.ch1.nrx3
        } else if lo == 0x14 {
            (((self.apu.ch1.nrx4 / 64) % 2) * 64) as u8
        } else if lo == 0x16 {
            ((self.apu.ch2.nrx1 / 64) * 64) as u8
        } else if lo == 0x17 {
            self.apu.ch2.nrx2
        } else if lo == 0x18 {
            self.apu.ch2.nrx3
        } else if lo == 0x19 {
            (((self.apu.ch2.nrx4 / 64) % 2) * 64) as u8
        } else if lo == 0x1a {
            self.apu.ch3.nr30
        } else if lo == 0x1b {
            self.apu.ch3.nr31
        } else if lo == 0x1c {
            self.apu.ch3.nr32
        } else if lo == 0x1d {
            self.apu.ch3.nr33
        } else if lo == 0x1e {
            (((self.apu.ch3.nr34 / 64) % 2) * 64) as u8
        } else if lo == 0x21 {
            self.apu.ch4.nr42
        } else if lo == 0x22 {
            self.apu.ch4.nr43
        } else if lo == 0x23 {
            (((self.apu.ch4.nr44 / 64) % 2) * 64) as u8
        } else if lo == 0x24 {
            self.apu.nr50
        } else if lo == 0x25 {
            self.apu.nr51
        } else if lo == 0x26 {
            ((if self.apu.enabled { 128int } else { 0 }) + (if self.apu.ch1.enabled { 1int } else { 0 }) + (if self.apu.ch2.enabled {
                2int
            } else {
                0
            }) + (if self.apu.ch3.enabled { 4int } else { 0 }) + (if self.apu.ch4.enabled { 8int } else { 0 })) as u8
        } else if 0x30 <= lo < 0x40 {
            self.apu.ch3.wave_ram@[self.apu.ch3.spec_access_offset((0xff00 + lo as int) as u16)]
        } else {
            0
        }
    }

    /// What a read of `addr` returns.
    pub open spec fn spec_read(&self, addr: u16) -> u8 {
        let hi = addr as int / 256;
        let lo = addr as int % 256;
        if self.boot_rom_mapped && boot_area(hi) {
            self.boot_rom@[addr as int]
        } else if hi < 0x80 {
            self.cart.spec_read_low(addr)
        } else if hi < 0xa0 {
            self.vram.vram@[self.vram.index(addr, self.cgb_mode)]
        } else if hi < 0xc0 {
            self.cart.spec_read_high(addr)
        } else if hi < 0xd0 || (0xe0 <= hi < 0xf0) {
            self.wram.low@[addr as int % 0x1000]
        } else if hi < 0xfe {
            self.wram.high@[self.wram.high_index(addr, self.cgb_mode)]
        } else if hi == 0xfe {
            if lo < 0xa0 { self.oam@[lo] } else { prohibited_read(lo) }
        } else {
            self.spec_read_reg(lo as u8)
        }
    }

    /// Reads register `lo` of the 0xff00 page.
    #[verifier::rlimit(80)]
    pub fn read_reg(&self, lo: u8) -> (r: u8)
        requires
            self.wf(),
        ensures
            r == self.spec_read_reg(lo),
    {
        if 0x80 <= lo && lo < 0xff {
            return self.hram[(lo - 0x80) as usize];
        }
        if self.cgb_mode {
            if lo == BCPD {
                return self.bg_palette.read_data();
            } else if lo == OCPD {
                return self.obj_palette.read_data();
            } else if lo == BCPS {
                return self.bg_palette.select;
            } else if lo == OCPS {
                return self.obj_palette.select;
            } else if lo == HDMA5 {
                return self.dma.hdma5();
            }
        }
        match lo {
            HDMA1 => self.dma.hdma1,
            HDMA2 => self.dma.hdma2,
            HDMA3 => self.dma.hdma3,
            HDMA4 => self.dma.hdma4,
            P1 => self.joypad.p1(),
            DIV => self.timer.div(),
            TIMA => self.timer.tima(),
            TMA => self.timer.tma(),
            TAC => self.timer.tac(),
            SVBK => self.wram.svbk,
            VBK => self.vram.vbk,
            IF => self.interrupt.flags,
            IE => self.interrupt.enable,
            DMA => self.dma.dma(),
            BGP => self.ppu.bgp,
            LCDC => self.ppu.lcdc(),
            LY => self.ppu.ly(),
            LYC => self.ppu.lyc,
            OBP0 => self.ppu.obp0,
            OBP1 => self.ppu.obp1,
            SCX => self.ppu.scx,
            SCY => self.ppu.scy,
            WX => self.ppu.wx,
            WY => self.ppu.wy,
            STAT => self.ppu.stat(),
            0x10 => self.apu.nr10(),
            0x11 => self.apu.nr11(),
            0x12 => self.apu.nr12(),
            0x13 => self.apu.nr13(),
            0x14 => self.apu.nr14(),
            0x16 => self.apu.nr21(),
            0x17 => self.apu.nr22(),
            0x18 => self.apu.nr23(),
            0x19 => self.apu.nr24(),
            0x1a => self.apu.nr30(),
            0x1b => self.apu.nr31(),
            0x1c => self.apu.nr32(),
            0x1d => self.apu.nr33(),
            0x1e => self.apu.nr34(),
            0x21 => self.apu.nr42(),
            0x22 => self.apu.nr43(),
            0x23 => self.apu.nr44(),
            0x24 => self.apu.nr50(),
            0x25 => self.apu.nr51(),
            0x26 => self.apu.nr52(),
            0x30..=0x3f => self.apu.read_wave_ram(0xff00 + lo as u16),
            _ => 0,
        }
    }

    /// The memory-mapped read decode.
    #[verifier::rlimit(80)]
    pub fn read(&self, addr: u16) -> (r: u8)
        requires
            self.wf(),
        ensures
            r == self.spec_read(addr),
    {
        let hi = addr / 256;
        let lo = (addr % 256) as u8;
        if self.boot_rom_mapped && (hi == 0 || (2 <= hi && hi <= 8)) {
            self.boot_rom[addr as usize]
        } else if hi < 0x80 {
            self.cart.read_low(addr)
        } else if hi < 0xa0 {
            self.vram.read(addr, self.cgb_mode)
        } else if hi < 0xc0 {
            self.cart.read_high(addr)
        } else if hi < 0xd0 || (0xe0 <= hi && hi < 0xf0) {
            self.wram.read_low(addr)
        } else if hi < 0xfe {
            self.wram.read_high(addr, self.cgb_mode)
        } else if hi == 0xfe {
            if lo < 0xa0 {
                self.oam[lo as usize]
            } else {
                (lo % 16) * 17
            }
        } else {
            self.read_reg(lo)
        }
    }

    /// What every write keeps: the ROMs, and the boot ROM overlay once unmapped.
    pub open spec fn write_keeps(&self, after: &Peripherals) -> bool {
        &&& after.cart.mem.rom == self.cart.mem.rom
        &&& after.boot_rom == self.boot_rom
        &&& (!self.boot_rom_mapped ==> !after.boot_rom_mapped)
    }

    /// The effect of a write of `val` to `addr`, as far as memories and the
    /// interrupt and boot registers go; other registers belong to their devices.
    pub open spec fn spec_written(self, addr: u16, val: u8, after: Peripherals) -> bool {
        let hi = addr as int / 256;
        let lo = addr as int % 256;
        &&& self.write_keeps(&after)
        &&& 0x80 <= hi < 0xa0 ==> after == (Peripherals { vram: after.vram, ..self })
            && after.vram.vram@ == self.vram.vram@.update(self.vram.index(addr, self.cgb_mode), val)
            && after.vram.vbk == self.vram.vbk
        &&& (0xc0 <= hi < 0xd0 || 0xe0 <= hi < 0xf0) ==> after == (Peripherals { wram: after.wram, ..self })
            && after.wram.low@ == self.wram.low@.update(addr as int % 0x1000, val)
            && after.wram.high@ == self.wram.high@ && after.wram.svbk == self.wram.svbk
        &&& (0xd0 <= hi < 0xe0 || 0xf0 <= hi < 0xfe) ==> after == (Peripherals { wram: after.wram, ..self })
            && after.wram.high@ == self.wram.high@.update(self.wram.high_index(addr, self.cgb_mode), val)
            && after.wram.low@ == self.wram.low@ && after.wram.svbk == self.wram.svbk
        &&& hi == 0xfe && lo < 0xa0 ==> after == (Peripherals { oam: after.oam, ..self })
            && after.oam@ == self.oam@.update(lo, val)
        &&& hi == 0xfe && lo >= 0xa0 ==> after == self
        &&& hi == 0xff && 0x80 <= lo < 0xff ==> after == (Peripherals { hram: after.hram, ..self })
            && after.hram@ == self.hram@.update(lo - 0x80, val)
        &&& addr == 0xffff ==> after == (Peripherals { interrupt: InterruptState { enable: val, ..self.interrupt }, ..self })
        &&& addr == 0xff0f ==> after == (Peripherals { interrupt: InterruptState { flags: val, ..self.interrupt }, ..self })
        &&& addr == 0xff50 && self.boot_rom_mapped ==> !after.boot_rom_mapped && after.cgb_mode == (self.key0 != NON_CGB_KEY0_VAL)
        &&& addr != 0xff50 ==> after.boot_rom_mapped == self.boot_rom_mapped && after.cgb_mode == self.cgb_mode
        &&& hi == 0xff ==> after.cart == self.cart
        &&& hi == 0xff && lo == DIV ==> after == (Peripherals { timer: Timer { counter: 0, ..self.timer }, ..self })
        &&& hi == 0xff && lo == TIMA ==> after == (Peripherals { timer: Timer { tima: val, ..self.timer }, ..self })
        &&& hi == 0xff && lo == TMA ==> after == (Peripherals { timer: Timer { tma: val, ..self.timer }, ..self })
        &&& hi == 0xff && lo == TAC ==> after == (Peripherals { timer: Timer { tac: val, ..self.timer }, ..self })
        &&& hi == 0xff && lo == SCX ==> after == (Peripherals { ppu: Ppu { scx: val, ..self.ppu }, ..self })
        &&& hi == 0xff && lo == SCY ==> after == (Peripherals { ppu: Ppu { scy: val, ..self.ppu }, ..self })
        &&& hi == 0xff && lo == LYC ==> after == (Peripherals { ppu: Ppu { lyc: val, ..self.ppu }, ..self })
        &&& hi == 0xff && lo == BGP ==> after == (Peripherals { ppu: Ppu { bgp: val, ..self.ppu }, ..self })
        &&& hi == 0xff && lo == OBP0 ==> after == (Peripherals { ppu: Ppu { obp0: val, ..self.ppu }, ..self })
        &&& hi == 0xff && lo == OBP1 ==> after == (Peripherals { ppu: Ppu { obp1: val, ..self.ppu }, ..self })
        &&& hi == 0xff && lo == WX ==> after == (Peripherals { ppu: Ppu { wx: val, ..self.ppu }, ..self })
        &&& hi == 0xff && lo == WY ==> after == (Peripherals { ppu: Ppu { wy: val, ..self.ppu }, ..self })
        &&& hi == 0xff && lo == STAT ==> after == (Peripherals { ppu: Ppu { stat_sources: (val / 8) % 16, ..self.ppu }, ..self })
        &&& hi == 0xff && lo == LCDC ==> after == (Peripherals { ppu: after.ppu, ..self }) && after.ppu.lcdc == val && (val
            < 128 ==> after.ppu.ly == 0 && after.ppu.mode == Mode::OamSearch && !after.ppu.interrupt_line)
        &&& hi == 0xff && lo == P1 ==> after == (Peripherals { joypad: Joypad { p1: (self.joypad.p1 & !0x30u8) | (val & 0x30), ..self.joypad }, ..self })
        &&& hi == 0xff && lo == SVBK ==> after == (Peripherals { wram: after.wram, ..self }) && after.wram.svbk == val
            && after.wram.low@ == self.wram.low@ && after.wram.high@ == self.wram.high@
        &&& hi == 0xff && lo == VBK ==> after == (Peripherals { vram: after.vram, ..self }) && after.vram.vbk == val
            && after.vram.vram@ == self.vram.vram@
        &&& hi == 0xff && lo == KEY0 ==> after == (Peripherals { key0: val, ..self })
        &&& hi == 0xff && lo == DMA ==> after == (Peripherals { dma: after.dma, ..self }) && after.dma.dma == val
            && after.dma.state == Some(DmaState { ty: DmaType::Oam, len: 160, count: 0, oam_src: (val as int * 256) as u16 })
        &&& hi == 0xff && (lo == HDMA1 || lo == HDMA2 || lo == HDMA3 || lo == HDMA4) ==> after == (Peripherals { dma: after.dma, ..self })
        &&& hi == 0xff && 0x10 <= lo < 0x40 ==> after == (Peripherals { apu: after.apu, ..self })
        &&& hi == 0xff && lo == 0x10 ==> after.apu == (Apu { ch1: PulseChannel { nr10: val, ..self.apu.ch1 }, ..self.apu })
        &&& hi == 0xff && lo == 0x11 ==> after.apu == (Apu { ch1: PulseChannel { nrx1: val, ..self.apu.ch1 }, ..self.apu })
        &&& hi == 0xff && lo == 0x12 ==> after.apu == (Apu { ch1: PulseChannel { nrx2: val, ..self.apu.ch1 }, ..self.apu })
        &&& hi == 0xff && lo == 0x13 ==> after.apu == (Apu { ch1: PulseChannel { nrx3: val, ..self.apu.ch1 }, ..self.apu })
        &&& hi == 0xff && lo == 0x14 ==> after.apu == (Apu { ch1: PulseChannel { nrx4: val, ..self.apu.ch1 }, ..self.apu })
        &&& hi == 0xff && lo == 0x16 ==> after.apu == (Apu { ch2: PulseChannel { nrx1: val, ..self.apu.ch2 }, ..self.apu })
        &&& hi == 0xff && lo == 0x17 ==> after.apu == (Apu { ch2: PulseChannel { nrx2: val, ..self.apu.ch2 }, ..self.apu })
        &&& hi == 0xff && lo == 0x18 ==> after.apu == (Apu { ch2: PulseChannel { nrx3: val, ..self.apu.ch2 }, ..self.apu })
        &&& hi == 0xff && lo == 0x19 ==> after.apu == (Apu { ch2: PulseChannel { nrx4: val, ..self.apu.ch2 }, ..self.apu })
        &&& hi == 0xff && lo == 0x1b ==> after.apu == (Apu { ch3: WaveChannel { nr31: val, ..self.apu.ch3 }, ..self.apu })
        &&& hi == 0xff && lo == 0x1c ==> after.apu == (Apu { ch3: WaveChannel { nr32: val, ..self.apu.ch3 }, ..self.apu })
        &&& hi == 0xff && lo == 0x1d ==> after.apu == (Apu { ch3: WaveChannel { nr33: val, ..self.apu.ch3 }, ..self.apu })
        &&& hi == 0xff && lo == 0x1e ==> after.apu == (Apu { ch3: WaveChannel { nr34: val, ..self.apu.ch3 }, ..self.apu })
        &&& hi == 0xff && lo == 0x20 ==> after.apu == (Apu { ch4: NoiseChannel { nr41: val, ..self.apu.ch4 }, ..self.apu })
        &&& hi == 0xff && lo == 0x21 ==> after.apu == (Apu { ch4: NoiseChannel { nr42: val, ..self.apu.ch4 }, ..self.apu })
        &&& hi == 0xff && lo == 0x22 ==> after.apu == (Apu { ch4: NoiseChannel { nr43: val, ..self.apu.ch4 }, ..self.apu })
        &&& hi == 0xff && lo == 0x23 ==> after.apu == (Apu { ch4: NoiseChannel { nr44: val, ..self.apu.ch4 }, ..self.apu })
        &&& hi == 0xff && lo == 0x1a ==> after.apu == (Apu {
            ch3: WaveChannel { nr30: val, enabled: self.apu.ch3.enabled && val >= 128, ..self.apu.ch3 },
            ..self.apu
        })
        &&& hi == 0xff && lo == 0x24 ==> after.apu == (Apu { nr50: val, ..self.apu })
        &&& hi == 0xff && lo == 0x25 ==> after.apu == (Apu { nr51: val, ..self.apu })
        &&& hi == 0xff && lo == 0x26 ==> after.apu == (Apu { enabled: val >= 128, ..self.apu })
        &&& hi == 0xff && 0x30 <= lo < 0x40 ==> after.apu.ch3.wave_ram@ == self.apu.ch3.wave_ram@.update(
            self.apu.ch3.spec_access_offset(addr),
            val,
        )
        &&& hi == 0xff && lo == HDMA1 ==> after.dma == (Dma { hdma1: val, ..self.dma })
        &&& hi == 0xff && lo == HDMA2 ==> after.dma == (Dma { hdma2: val, ..self.dma })
        &&& hi == 0xff && lo == HDMA3 ==> after.dma == (Dma { hdma3: val, ..self.dma })
        &&& hi == 0xff && lo == HDMA4 ==> after.dma == (Dma { hdma4: val, ..self.dma })
        &&& hi == 0xff && lo == HDMA5 && self.cgb_mode ==> after == (Peripherals { dma: after.dma, ..self }) && (val
            < 128 ==> after.dma.state == Some(
            DmaState { ty: DmaType::General, len: ((val as int + 1) * 16) as u16, count: 0, oam_src: 0 },
        )) && (val >= 128 ==> after.dma == self.dma)
        &&& hi == 0xff && self.cgb_mode && lo == BCPS ==> after == (Peripherals {
            bg_palette: PaletteRam { select: val, ..self.bg_palette },
            ..self
        })
        &&& hi == 0xff && self.cgb_mode && lo == OCPS ==> after == (Peripherals {
            obj_palette: PaletteRam { select: val, ..self.obj_palette },
            ..self
        })
        &&& hi == 0xff && self.cgb_mode && lo == BCPD ==> after == (Peripherals { bg_palette: after.bg_palette, ..self })
            && after.bg_palette.ram@ == self.bg_palette.ram@.update(self.bg_palette.spec_index(), val)
        &&& hi == 0xff && self.cgb_mode && lo == OCPD ==> after == (Peripherals { obj_palette: after.obj_palette, ..self })
            && after.obj_palette.ram@ == self.obj_palette.ram@.update(self.obj_palette.spec_index(), val)
        &&& hi < 0x80 ==> after == (Peripherals { cart: after.cart, ..self }) && after.cart.mem == self.cart.mem
            && after.cart.battery_backed == self.cart.battery_backed
        &&& 0xa0 <= hi < 0xc0 ==> after == (Peripherals { cart: after.cart, ..self }) && after.cart.mem.ram@ == match self.cart.mbc {
            AnyMbc::Simple(_) => seq_write(self.cart.mem.ram@, addr as int, val),
            AnyMbc::Mbc1(m) => if m.ram_enabled {
                seq_write(self.cart.mem.ram@, m.spec_ram_offset(addr), val)
            } else {
                self.cart.mem.ram@
            },
            AnyMbc::Mbc2(m) => if m.ram_enabled {
                seq_write(self.cart.mem.ram@, addr as int % 0x2000, val % 16)
            } else {
                self.cart.mem.ram@
            },
            AnyMbc::Mbc3(m) => if m.ram_enabled && !(m.rtc is Some && is_rtc_reg(m.ram_bank)) {
                seq_write(self.cart.mem.ram@, m.spec_ram_offset(addr), val)
            } else {
                self.cart.mem.ram@
            },
        }
    }

    /// Writes register `lo` of the 0xff00 page. A write requesting a transfer
    /// paced by horizontal blanking is ignored, as that mode is not supported.
    #[verifier::rlimit(80)]
    pub fn write_reg(&mut self, lo: u8, val: u8)
        requires
            old(self).wf(),
        ensures
            final(self).wf(),
            old(self).spec_written((0xff00 + lo as int) as u16, val, *final(self)),
    {
        if 0x80 <= lo && lo < 0xff {
            self.hram.set((lo - 0x80) as usize, val);
            return;
        }
        if self.cgb_mode {
            if lo == BCPD {
                self.bg_palette.write_data(val);
                return;
            } else if lo == OCPD {
                self.obj_palette.write_data(val);
                return;
            } else if lo == BCPS {
                self.bg_palette.select = val;
                return;
            } else if lo == OCPS {
                self.obj_palette.select = val;
                return;
            } else if lo == HDMA5 {
                let _ = self.dma.set_hdma5(val);
                return;
            }
        }
        if lo == BANK {
            if self.boot_rom_mapped {
                self.boot_rom_mapped = false;
                self.cgb_mode = self.key0 != NON_CGB_KEY0_VAL;
            }
            return;
        }
        match lo {
            DMA => self.dma.set_dma(val),
            KEY0 => self.key0 = val,
            HDMA1 => self.dma.hdma1 = val,
            HDMA2 => self.dma.hdma2 = val,
            HDMA3 => self.dma.hdma3 = val,
            HDMA4 => self.dma.hdma4 = val,
            DIV => self.timer.reset_div(),
            TIMA => self.timer.set_tima(val),
            TMA => self.timer.set_tma(val),
            TAC => self.timer.set_tac(val),
            SVBK => self.wram.svbk = val,
            VBK => self.vram.vbk = val,
            P1 => self.joypad.set_p1(val),
            IF => self.interrupt.flags = val,
            IE => self.interrupt.enable = val,
            BGP => self.ppu.bgp = val,
            LCDC => self.ppu.set_lcdc(val),
            LYC => self.ppu.lyc = val,
            OBP0 => self.ppu.obp0 = val,
            OBP1 => self.ppu.obp1 = val,
            SCX => self.ppu.scx = val,
            SCY => self.ppu.scy = val,
            WX => self.ppu.wx = val,
            WY => self.ppu.wy = val,
            STAT => self.ppu.set_stat(val),
            0x10 => self.apu.set_nr10(val),
            0x11 => self.apu.set_nr11(val),
            0x12 => self.apu.set_nr12(val),
            0x13 => self.apu.set_nr13(val),
            0x14 => self.apu.set_nr14(val),
            0x16 => self.apu.set_nr21(val),
            0x17 => self.apu.set_nr22(val),
            0x18 => self.apu.set_nr23(val),
            0x19 => self.apu.set_nr24(val),
            0x1a => self.apu.set_nr30(val),
            0x1b => self.apu.set_nr31(val),
            0x1c => self.apu.set_nr32(val),
            0x1d => self.apu.set_nr33(val),
            0x1e => self.apu.set_nr34(val),
            0x20 => self.apu.set_nr41(val),
            0x21 => self.apu.set_nr42(val),
            0x22 => self.apu.set_nr43(val),
            0x23 => self.apu.set_nr44(val),
            0x24 => self.apu.set_nr50(val),
            0x25 => self.apu.set_nr51(val),
            0x26 => self.apu.set_nr52(val),
            0x30..=0x3f => self.apu.write_wave_ram(0xff00 + lo as u16, val),
            _ => {},
        }
    }

    /// The memory-mapped write decode.
    #[verifier::rlimit(80)]
    pub fn write(&mut self, addr: u16, val: u8)
        requires
            old(self).wf(),
        ensures
            final(self).wf(),
            old(self).spec_written(addr, val, *final(self)),
    {
        let hi = addr / 256;
        let lo = (addr % 256) as u8;
        let now = self.now;
        if hi < 0x80 {
            self.cart.write_low(addr, val, now);
        } else if hi < 0xa0 {
            self.vram.write(addr, val, self.cgb_mode);
        } else if hi < 0xc0 {
            self.cart.write_high(addr, val, now);
        } else if hi < 0xd0 || (0xe0 <= hi && hi < 0xf0) {
            self.wram.write_low(addr, val);
        } else if hi < 0xfe {
            self.wram.write_high(addr, val, self.cgb_mode);
        } else if hi == 0xfe {
            if lo < 0xa0 {
                self.oam.set(lo as usize, val);
            }
        } else {
            self.write_reg(lo, val);
        }
    }
}

impl CpuBus for Peripherals {
    open spec fn peek(&self, addr: u16) -> u8 {
        self.spec_read(addr)
    }

    open spec fn poke(self, addr: u16, val: u8, after: Self) -> bool {
        self.spec_written(addr, val, after)
    }

    open spec fn bus_wf(&self) -> bool {
        self.wf()
    }

    open spec fn dma_paused(&self) -> bool {
        self.dma.cpu_paused
    }

    open spec fn popped(self) -> (Self, Option<u8>) {
        (Peripherals { interrupt: self.interrupt.spec_pop().0, ..self }, self.interrupt.spec_pop().1)
    }

    open spec fn pending(&self) -> bool {
        self.interrupt.spec_pending_bits() != 0
    }

    fn read_8(&self, addr: u16) -> (r: u8) {
        self.read(addr)
    }

    fn write_8(&mut self, addr: u16, val: u8) {
        self.write(addr, val);
    }

    fn cpu_dma_paused(&self) -> (r: bool) {
        self.dma.cpu_paused()
    }

    fn pop_interrupt(&mut self) -> (r: Option<u8>) {
        self.interrupt.pop()
    }

    fn interrupt_pending(&self) -> (r: bool) {
        self.interrupt.pending()
    }
}

impl DmaBus for Peripherals {
    open spec fn dma_bus_wf(&self) -> bool {
        self.wf()
    }

    open spec fn peek(&self, addr: u16) -> u8 {
        self.spec_read(addr)
    }

    open spec fn vram_written(self, addr: u16, val: u8, after: Self) -> bool {
        &&& after == (Peripherals { vram: after.vram, ..self })
        &&& after.vram.vram@ == self.vram.vram@.update(self.vram.index(addr, self.cgb_mode), val)
        &&& after.vram.vbk == self.vram.vbk
    }

    open spec fn oam_written(self, index: u16, val: u8, after: Self) -> bool {
        &&& after == (Peripherals { oam: after.oam, ..self })
        &&& after.oam@ == self.oam@.update(index as int, val)
    }

    fn read_8(&self, addr: u16) -> (r: u8) {
        self.read(addr)
    }

    fn write_vram(&mut self, addr: u16, val: u8) {
        self.vram.write(addr, val, self.cgb_mode);
    }

    fn write_oam(&mut self, index: u16, val: u8) {
        self.oam.set(index as usize, val);
    }
}


/// The whole console: the CPU and everything on its bus.
pub struct CgbSystem {
    pub cpu: Cpu,
    pub bus: Peripherals,
}

impl CgbSystem {
    pub open spec fn wf(&self) -> bool {
        self.cpu.wf() && self.bus.wf()
    }

    /// A console at power-on with the boot ROM mapped over the cartridge.
    pub fn new(cart: Cart, boot_rom: Vec<u8>) -> (r: Self)
        requires
            cart.wf(),
            boot_rom@.len() == BOOT_ROM_BYTES,
        ensures
            r.wf(),
            r.bus.boot_rom_mapped,
            r.bus.cgb_mode,
            r.bus.boot_rom@ == boot_rom@,
            r.cpu.pc == 0,
    {
        CgbSystem {
            cpu: Cpu::new(),
            bus: Peripherals {
                timer: Timer::new(),
                ppu: Ppu::new(),
                apu: Apu::new(),
                dma: Dma::new(),
                joypad: Joypad::new(),
                interrupt: InterruptState::new(),
                wram: WorkRam::new(),
                vram: VideoRam::new(),
                oam: zeroed(OAM_BYTES),
                hram: zeroed(HRAM_BYTES),
                bg_palette: PaletteRam::new(),
                obj_palette: PaletteRam::new(),
                boot_rom,
                boot_rom_mapped: true,
                cgb_mode: true,
                key0: 0,
                cart,
                now: 0,
            },
        }
    }

    pub fn lcd_on(&self) -> (r: bool)
        ensures
            r == self.bus.ppu.spec_lcd_enabled(),
    {
        self.bus.ppu.lcd_enabled()
    }

    /// A button press or release; a press raises the Joypad interrupt.
    pub fn handle_joypad(&mut self, button: Button, state: ButtonState)
        requires
            old(self).wf(),
        ensures
            final(self).wf(),
            final(self).bus.joypad.p1 == old(self).bus.joypad.p1,
            state == ButtonState::Pressed ==> final(self).bus.joypad.state == old(self).bus.joypad.state | (1u8
                << button.spec_bit()) && final(self).bus.interrupt.flags == old(self).bus.interrupt.flags | 16u8,
            state == ButtonState::Released ==> final(self).bus.joypad.state == old(self).bus.joypad.state & !(1u8
                << button.spec_bit()) && final(self).bus.interrupt == old(self).bus.interrupt,
    {
        self.bus.joypad.handle(button, state, &mut self.bus.interrupt);
    }

    /// Advances every component by one machine cycle, in a fixed order: CPU,
    /// video controller, sound controller, DMA controller, timer. The two
    /// stereo sample pairs of the cycle are appended to `audio`.
    #[verifier::rlimit(80)]
    pub fn execute_machine_cycle(&mut self, frame: &mut Vec<u8>, audio: &mut Vec<[i32; 2]>) -> (r: (
        Result<(), CpuFault>,
        Ghost<CgbSystem>,
    ))
        requires
            old(self).wf(),
            old(frame)@.len() == FRAME_BYTES,
        ensures
            final(self).wf(),
            final(frame)@.len() == FRAME_BYTES,
            r.0 is Ok ==> final(audio)@.len() == old(audio)@.len() + 2,
            r.0 is Err ==> final(audio)@ == old(audio)@,
            r.0 is Err <==> old(self).cpu.spec_faults(&old(self).bus),
            r.0 is Err ==> final(self).cpu.decode_faults(&final(self).bus) && final(frame)@ == old(frame)@,
            // The state after the CPU's step, from which the other parts step in order.
            ({
                let g = r.1@;
                &&& !old(self).bus.dma_paused() && old(self).cpu.cycles_remaining > 0 ==> g.bus == old(self).bus
                    && g.cpu == (Cpu {
                    cycles_remaining: (old(self).cpu.cycles_remaining - 1) as usize,
                    ..old(self).cpu.after_ie_tick()
                })
                &&& old(self).bus.dma_paused() ==> g == *old(self)
                &&& r.0 is Ok ==> {
                    &&& final(self).cpu == g.cpu
                    &&& g.bus.ppu.spec_lcd_enabled() ==> (
                        final(self).bus.ppu.mode,
                        final(self).bus.ppu.mode_cycles_remaining,
                        final(self).bus.ppu.ly,
                    ) == g.bus.ppu.next_position()
                    &&& !g.bus.ppu.spec_lcd_enabled() ==> final(self).bus.ppu == g.bus.ppu
                    &&& !g.bus.apu.enabled ==> final(self).bus.apu.is_power_on() && final(audio)@ == old(audio)@.push(
                        [0i32, 0i32],
                    ).push([0i32, 0i32])
                    &&& g.bus.apu.enabled ==> final(audio)@.last() == final(self).bus.apu.spec_frame()
                        && final(self).bus.apu.div_counter.counter == g.bus.apu.div_counter.spec_counter(
                        (g.bus.timer.counter / 256) as u8,
                    )
                    &&& g.bus.dma.state is None ==> final(self).bus.dma.state is None
                    &&& g.bus.dma.state matches Some(st) ==> (st.count + (if st.ty == DmaType::General { 2int } else { 1 })
                        == st.len ==> final(self).bus.dma.state is None)
                    &&& final(self).bus.timer.counter == (g.bus.timer.counter as int + 4) % 0x10000
                }
            }),
    {
        let result = self.cpu.execute(&mut self.bus);
        let ghost after_cpu = *self;
        if result.is_err() {
            return (result, Ghost(after_cpu));
        }
        self.bus.ppu.execute(
            frame,
            &self.bus.vram.vram,
            &self.bus.bg_palette,
            &self.bus.obj_palette,
            &self.bus.oam,
            self.bus.cgb_mode,
            &mut self.bus.interrupt,
        );
        let div = self.bus.timer.div();
        let samples = self.bus.apu.execute(div);
        audio.push(samples[0]);
        audio.push(samples[1]);
        let mut dma = self.bus.dma;
        dma.execute(&mut self.bus);
        self.bus.dma = dma;
        self.bus.timer.execute(&mut self.bus.interrupt);
        (Ok(()), Ghost(after_cpu))
    }

    /// Runs up to one frame of machine cycles at wall-clock instant `now` and
    /// returns how many ran, appending two stereo sample pairs per cycle to
    /// `audio`. A display switched on during the frame ends it early; a frame
    /// that began with the display off is shown white.
    #[verifier::rlimit(80)]
    pub fn execute(&mut self, frame: &mut Vec<u8>, audio: &mut Vec<[i32; 2]>, now: u64) -> (r: Result<usize, CpuFault>)
        requires
            old(self).wf(),
            old(frame)@.len() == FRAME_BYTES,
            old(audio)@.len() + 2 * CYCLES_PER_FRAME <= usize::MAX,
        ensures
            final(self).wf(),
            final(frame)@.len() == FRAME_BYTES,
            r matches Ok(c) ==> final(audio)@.len() == old(audio)@.len() + 2 * c,
            old(self).cpu.spec_faults(&old(self).bus) ==> r is Err,
            r is Err ==> final(self).cpu.decode_faults(&final(self).bus),
            r matches Ok(c) ==> 1 <= c <= CYCLES_PER_FRAME,
            r matches Ok(c) ==> c < CYCLES_PER_FRAME ==> !old(self).bus.ppu.spec_lcd_enabled()
                && final(self).bus.ppu.spec_lcd_enabled(),
            r is Ok && !old(self).bus.ppu.spec_lcd_enabled() ==> forall|i: int| 0 <= i < FRAME_BYTES ==> final(frame)@[i] == 0xff,
    {
        self.bus.now = now;
        assert(self.bus.popped().0 == (Peripherals { now, ..old(self).bus.popped().0 }));
        assert(old(self).cpu.spec_faults(&old(self).bus) == self.cpu.spec_faults(&self.bus));
        let lcd_on = self.lcd_on();
        let mut cycles: usize = 0;
        let mut switched_on = false;
        while cycles < CYCLES_PER_FRAME && !switched_on
            invariant
                self.wf(),
                cycles == 0 ==> old(self).cpu.spec_faults(&old(self).bus) == self.cpu.spec_faults(&self.bus),
                cycles > 0 ==> !old(self).cpu.spec_faults(&old(self).bus),
                frame@.len() == FRAME_BYTES,
                cycles <= CYCLES_PER_FRAME,
                lcd_on == old(self).bus.ppu.spec_lcd_enabled(),
                switched_on ==> cycles >= 1 && !lcd_on && self.bus.ppu.spec_lcd_enabled(),
                audio@.len() == old(audio)@.len() + 2 * cycles,
                old(audio)@.len() + 2 * CYCLES_PER_FRAME <= usize::MAX,
            decreases CYCLES_PER_FRAME - cycles,
        {
            match self.execute_machine_cycle(frame, audio).0 {
                Err(e) => return Err(e),
                Ok(()) => {},
            }
            cycles = cycles + 1;
            if !lcd_on && self.lcd_on() {
                switched_on = true;
            }
        }
        if !lcd_on {
            let mut i: usize = 0;
            while i < FRAME_BYTES
                invariant
                    frame@.len() == FRAME_BYTES,
                    i <= FRAME_BYTES,
                    forall|j: int| 0 <= j < i ==> frame@[j] == 0xff,
                decreases FRAME_BYTES - i,
            {
                frame.set(i, 0xff);
                i = i + 1;
            }
        }
        Ok(cycles)
    }
}

} // verus!
