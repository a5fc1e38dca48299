use crate::cart::mbc::{enables_ram, is_rtc_reg, Mbc1, Mbc2, Mbc3, Simple};
use crate::cart::mem::{zeros, Mem, OptionalSegment, Segment};
use crate::cart::rtc::{Counter, Rtc};
use vstd::prelude::*;

pub mod mbc;
pub mod mem;
pub mod rtc;

verus! {

/// `s` after a write of `val` at `offset`, mirrored through its length;
/// an empty sequence (no RAM) stays empty.
pub open spec fn seq_write(s: Seq<u8>, offset: int, val: u8) -> Seq<u8> {
    if s.len() == 0 { s } else { s.update(offset % s.len() as int, val) }
}

/// Why a cartridge image was rejected.
#[derive(Debug, Clone, Copy, PartialEq, Eq, Structural)]
pub enum RomParseError {
    UnknownCartType(u8),
    UnknownRomSize(u8),
    UnknownRamSize(u8),
    LargeRom,
}

impl RomParseError {
    /// A human-readable description of the error.
    pub fn message(&self) -> (r: String) {
        match self {
            RomParseError::UnknownCartType(_) => "Unknown cartridge type".to_string(),
            RomParseError::UnknownRomSize(_) => "Unknown ROM size ID".to_string(),
            RomParseError::UnknownRamSize(_) => "Unknown RAM size ID".to_string(),
            RomParseError::LargeRom => "Provided ROM is too large".to_string(),
        }
    }
}

/// Header offsets: controller type, ROM size code, RAM size code.
pub const CART_TYPE_ADDR: usize = 0x147;
pub const ROM_SIZE_ADDR: usize = 0x148;
pub const RAM_SIZE_ADDR: usize = 0x149;

/// The ROM size that a size code declares: 32 KiB times 2^code, for codes 0-8.
pub open spec fn rom_size_of(code: u8) -> int {
    if code == 0 {
        0x8000
    } else if code == 1 {
        0x10000
    } else if code == 2 {
        0x20000
    } else if code == 3 {
        0x40000
    } else if code == 4 {
        0x80000
    } else if code == 5 {
        0x100000
    } else if code == 6 {
        0x200000
    } else if code == 7 {
        0x400000
    } else {
        0x800000
    }
}

pub open spec fn known_ram_code(code: u8) -> bool {
    code == 0 || code == 2 || code == 3 || code == 4 || code == 5
}

/// The RAM size that a known RAM size code declares.
pub open spec fn ram_size_of(code: u8) -> int {
    if code == 2 {
        0x2000
    } else if code == 3 {
        0x8000
    } else if code == 4 {
        0x20000
    } else if code == 5 {
        0x10000
    } else {
        0
    }
}

/// The controller kinds the header's type byte can name.
#[derive(Debug, Clone, Copy, PartialEq, Eq, Structural)]
pub enum MbcKind {
    Simple,
    Mbc1,
    Mbc2,
    Mbc3Rtc,
    Mbc3,
}

pub open spec fn kind_of(cart_type: u8) -> Option<MbcKind> {
    if cart_type == 0x00 || cart_type == 0x08 || cart_type == 0x09 {
        Some(MbcKind::Simple)
    } else if 0x01 <= cart_type <= 0x03 {
        Some(MbcKind::Mbc1)
    } else if cart_type == 0x05 || cart_type == 0x06 {
        Some(MbcKind::Mbc2)
    } else if cart_type == 0x0f || cart_type == 0x10 {
        Some(MbcKind::Mbc3Rtc)
    } else if 0x11 <= cart_type <= 0x13 {
        Some(MbcKind::Mbc3)
    } else {
        None
    }
}

/// The type bytes of cartridges with battery-backed memory.
pub open spec fn is_battery_type(t: u8) -> bool {
    t == 0x03 || t == 0x06 || t == 0x09 || t == 0x0d || t == 0x0f || t == 0x10 || t == 0x13
        || t == 0x1b || t == 0x1e || t == 0x22 || t == 0xff
}

/// The result of checking an image's header: the first unknown code, in the order ROM
/// size, RAM size, controller type, and then whether the image is too large.
pub open spec fn header_error(rom: Seq<u8>) -> Option<RomParseError> {
    let t = rom[CART_TYPE_ADDR as int];
    let rs = rom[ROM_SIZE_ADDR as int];
    let ra = rom[RAM_SIZE_ADDR as int];
    if rs > 8 {
        Some(RomParseError::UnknownRomSize(rs))
    } else if !known_ram_code(ra) {
        Some(RomParseError::UnknownRamSize(ra))
    } else if kind_of(t) is None {
        Some(RomParseError::UnknownCartType(t))
    } else if rom.len() > rom_size_of(rs) {
        Some(RomParseError::LargeRom)
    } else {
        None
    }
}

/// Reads the header: controller type, ROM size and RAM size in bytes.
pub fn header(rom: &Vec<u8>) -> (r: Result<(u8, usize, usize), RomParseError>)
    requires
        rom@.len() > RAM_SIZE_ADDR,
    ensures
        rom[ROM_SIZE_ADDR as int] > 8 ==> r == Err::<(u8, usize, usize), RomParseError>(
            RomParseError::UnknownRomSize(rom[ROM_SIZE_ADDR as int]),
        ),
        rom[ROM_SIZE_ADDR as int] <= 8 && !known_ram_code(rom[RAM_SIZE_ADDR as int]) ==> r == Err::<
            (u8, usize, usize),
            RomParseError,
        >(RomParseError::UnknownRamSize(rom[RAM_SIZE_ADDR as int])),
        rom[ROM_SIZE_ADDR as int] <= 8 && known_ram_code(rom[RAM_SIZE_ADDR as int]) ==> r == Ok::<
            (u8, usize, usize),
            RomParseError,
        >(
            (
                rom[CART_TYPE_ADDR as int],
                rom_size_of(rom[ROM_SIZE_ADDR as int]) as usize,
                ram_size_of(rom[RAM_SIZE_ADDR as int]) as usize,
            ),
        ),
{
    let cart_type = rom[CART_TYPE_ADDR];
    let rom_size: usize = match rom[ROM_SIZE_ADDR] {
        0 => 0x8000,
        1 => 0x10000,
        2 => 0x20000,
        3 => 0x40000,
        4 => 0x80000,
        5 => 0x100000,
        6 => 0x200000,
        7 => 0x400000,
        8 => 0x800000,
        id => return Err(RomParseError::UnknownRomSize(id)),
    };
    let ram_size: usize = match rom[RAM_SIZE_ADDR] {
        0x00 => 0,
        0x02 => 0x2000,
        0x03 => 0x8000,
        0x04 => 0x20000,
        0x05 => 0x10000,
        id => return Err(RomParseError::UnknownRamSize(id)),
    };
    Ok((cart_type, rom_size, ram_size))
}

/// The bank controller a cartridge was built with.
#[derive(Debug, Clone, Copy, PartialEq, Eq, Structural)]
pub enum AnyMbc {
    Simple(Simple),
    Mbc1(Mbc1),
    Mbc2(Mbc2),
    Mbc3(Mbc3),
}

impl AnyMbc {
    pub open spec fn wf(&self) -> bool {
        match self {
            AnyMbc::Simple(_) => true,
            AnyMbc::Mbc1(m) => m.wf(),
            AnyMbc::Mbc2(m) => m.wf(),
            AnyMbc::Mbc3(m) => m.wf(),
        }
    }

    /// The controller's own part of a save: the clock, if it has one.
    pub open spec fn spec_save(&self) -> MbcSave {
        match self {
            AnyMbc::Mbc3(m) => match m.rtc {
                Some(rtc) => MbcSave::Rtc(
                    RtcSave { counter: rtc.counter, latched: rtc.latched, day_carry: rtc.day_carry },
                ),
                None => MbcSave::NoClock,
            },
            _ => MbcSave::NoClock,
        }
    }

    /// The controller after a save's clock part is restored into it.
    pub open spec fn spec_load(self, save: MbcSave) -> AnyMbc {
        match (self, save) {
            (AnyMbc::Mbc3(m), MbcSave::Rtc(s)) => match m.rtc {
                Some(_) => AnyMbc::Mbc3(Mbc3 { rtc: Some(s.to_rtc()), ..m }),
                None => self,
            },
            _ => self,
        }
    }

    pub fn save(&self) -> (r: MbcSave)
        ensures
            r == self.spec_save(),
    {
        match self {
            AnyMbc::Mbc3(m) => match &m.rtc {
                Some(rtc) => MbcSave::Rtc(
                    RtcSave { counter: rtc.counter, latched: rtc.latched, day_carry: rtc.day_carry },
                ),
                None => MbcSave::NoClock,
            },
            _ => MbcSave::NoClock,
        }
    }
}

/// The persisted state of a real-time clock: the live counter (anchored to a
/// wall-clock instant, so it keeps counting between sessions), the snapshot and
/// the day carry.
#[derive(Debug, Clone, Copy, PartialEq, Eq, Structural)]
pub struct RtcSave {
    pub counter: Counter,
    pub latched: u64,
    pub day_carry: bool,
}

impl RtcSave {
    pub open spec fn to_rtc(self) -> Rtc {
        Rtc { counter: self.counter, latched: self.latched, latch_signal: false, day_carry: self.day_carry }
    }
}

#[derive(Debug, Clone, Copy, PartialEq, Eq, Structural)]
pub enum MbcSave {
    NoClock,
    Rtc(RtcSave),
}

/// What a battery-backed cartridge persists: its RAM and its clock.
#[derive(Debug)]
pub struct CartSave {
    pub mbc: MbcSave,
    pub ram: Vec<u8>,
}

/// A cartridge: its memory, its bank controller, and whether a battery keeps its RAM.
pub struct Cart {
    pub mem: Mem,
    pub mbc: AnyMbc,
    pub battery_backed: bool,
}

impl Cart {
    pub open spec fn wf(&self) -> bool {
        self.mem.wf() && self.mbc.wf()
    }

    /// Builds a cartridge from an image. The header picks the controller and the
    /// ROM and RAM sizes; an image shorter than its declared ROM size is padded
    /// with zeros, a longer one is rejected. A clock starts at instant `now`.
    #[verifier::rlimit(80)]
    pub fn from_rom(rom: Vec<u8>, now: u64) -> (r: Result<Cart, RomParseError>)
        requires
            rom@.len() > RAM_SIZE_ADDR,
        ensures
            r matches Err(e) ==> header_error(rom@) == Some(e),
            r is Ok <==> header_error(rom@) is None,
            r matches Ok(cart) ==> {
                let t = rom[CART_TYPE_ADDR as int];
                let size = rom_size_of(rom[ROM_SIZE_ADDR as int]);
                &&& cart.wf()
                &&& cart.mem.rom@ == rom@ + zeros((size - rom@.len()) as nat)
                &&& cart.mem.ram@ == zeros(
                    (if kind_of(t) == Some(MbcKind::Mbc2) {
                        512
                    } else {
                        ram_size_of(rom[RAM_SIZE_ADDR as int])
                    }) as nat,
                )
                &&& cart.battery_backed == is_battery_type(t)
                &&& cart.kind() == kind_of(t).unwrap()
                &&& kind_of(t) == Some(MbcKind::Mbc3Rtc) ==> cart.mbc == AnyMbc::Mbc3(
                    Mbc3 { rom_bank: 0, ram_bank: 0, ram_enabled: false, rtc: Some(Rtc::spec_new(now)) },
                )
            },
    {
        let (cart_type, rom_size, ram_size) = match header(&rom) {
            Ok(h) => h,
            Err(e) => return Err(e),
        };
        let mut ram_size = ram_size;
        let mbc = if cart_type == 0x00 || cart_type == 0x08 || cart_type == 0x09 {
            AnyMbc::Simple(Simple)
        } else if 0x01 <= cart_type && cart_type <= 0x03 {
            AnyMbc::Mbc1(Mbc1::new())
        } else if cart_type == 0x05 || cart_type == 0x06 {
            ram_size = 512;
            AnyMbc::Mbc2(Mbc2::new())
        } else if cart_type == 0x0f || cart_type == 0x10 {
            AnyMbc::Mbc3(Mbc3::new_with_rtc(now))
        } else if 0x11 <= cart_type && cart_type <= 0x13 {
            AnyMbc::Mbc3(Mbc3::new())
        } else {
            return Err(RomParseError::UnknownCartType(cart_type));
        };
        let battery_backed = cart_type == 0x03 || cart_type == 0x06 || cart_type == 0x09 || cart_type
            == 0x0d || cart_type == 0x0f || cart_type == 0x10 || cart_type == 0x13 || cart_type == 0x1b
            || cart_type == 0x1e || cart_type == 0x22 || cart_type == 0xff;
        if rom_size < rom.len() {
            return Err(RomParseError::LargeRom);
        }
        let ghost image = rom@;
        let mut rom = rom;
        while rom.len() < rom_size
            invariant
                rom_size >= image.len(),
                image.len() <= rom.len() <= rom_size,
                rom@ == image + zeros((rom.len() - image.len()) as nat),
            decreases rom_size - rom.len(),
        {
            rom.push(0);
            assert(rom@ =~= image + zeros((rom.len() - image.len()) as nat));
        }
        let rom = Segment::from_bytes(rom);
        let ram = OptionalSegment::new(ram_size);
        Ok(Cart { mem: Mem { rom, ram }, mbc, battery_backed })
    }

    /// The controller kind the cartridge was built with.
    pub open spec fn kind(&self) -> MbcKind {
        match self.mbc {
            AnyMbc::Simple(_) => MbcKind::Simple,
            AnyMbc::Mbc1(_) => MbcKind::Mbc1,
            AnyMbc::Mbc2(_) => MbcKind::Mbc2,
            AnyMbc::Mbc3(m) => if m.rtc is Some { MbcKind::Mbc3Rtc } else { MbcKind::Mbc3 },
        }
    }

    /// A read of the ROM area (0x0000-0x7fff).
    pub fn read_low(&self, addr: u16) -> (r: u8)
        requires
            self.wf(),
        ensures
            r == self.spec_read_low(addr),
    {
        match &self.mbc {
            AnyMbc::Simple(m) => m.read_low(addr, &self.mem),
            AnyMbc::Mbc1(m) => m.read_low(addr, &self.mem),
            AnyMbc::Mbc2(m) => m.read_low(addr, &self.mem),
            AnyMbc::Mbc3(m) => m.read_low(addr, &self.mem),
        }
    }

    /// A write to the ROM area, which goes to the controller's registers; `now`
    /// is the wall-clock instant, for a clock latch.
    #[verifier::rlimit(80)]
    pub fn write_low(&mut self, addr: u16, val: u8, now: u64)
        requires
            old(self).wf(),
        ensures
            final(self).wf(),
            final(self).mem == old(self).mem,
            final(self).battery_backed == old(self).battery_backed,
            final(self).kind() == old(self).kind(),
            old(self).mbc matches AnyMbc::Simple(_) ==> final(self).mbc == old(self).mbc,
            old(self).mbc matches AnyMbc::Mbc1(m) ==> final(self).mbc == AnyMbc::Mbc1(m.spec_write_low(addr, val)),
            old(self).mbc matches AnyMbc::Mbc2(m) ==> final(self).mbc == AnyMbc::Mbc2(m.spec_write_low(addr, val)),
            old(self).mbc matches AnyMbc::Mbc3(m) ==> final(self).mbc matches AnyMbc::Mbc3(m2) && {
                let reg = (addr / 0x2000) % 4;
                &&& reg == 0 ==> m2 == (Mbc3 { ram_enabled: enables_ram(val), ..m })
                &&& reg == 1 ==> m2 == (Mbc3 { rom_bank: val % 128, ..m })
                &&& reg == 2 ==> m2 == (Mbc3 { ram_bank: val, ..m })
                &&& reg == 3 ==> m2.rom_bank == m.rom_bank && m2.ram_bank == m.ram_bank && m2.ram_enabled
                    == m.ram_enabled && m2.rtc is Some == m.rtc is Some
                &&& reg == 3 && m.rtc is Some ==> m2.rtc.unwrap().latch_signal == (val % 2 == 1)
            },
    {
        match &mut self.mbc {
            AnyMbc::Simple(_) => {},
            AnyMbc::Mbc1(m) => m.write_low(addr, val),
            AnyMbc::Mbc2(m) => m.write_low(addr, val),
            AnyMbc::Mbc3(m) => m.write_low(addr, val, now),
        }
    }

    /// What a read of the ROM area returns.
    pub open spec fn spec_read_low(&self, addr: u16) -> u8 {
        match self.mbc {
            AnyMbc::Simple(_) => self.mem.rom.at(addr as int),
            AnyMbc::Mbc1(m) => self.mem.rom.at(m.spec_rom_offset(addr)),
            AnyMbc::Mbc2(m) => self.mem.rom.at(m.spec_rom_offset(addr)),
            AnyMbc::Mbc3(m) => self.mem.rom.at(m.spec_rom_offset(addr)),
        }
    }

    /// What a read of the cartridge RAM area returns.
    pub open spec fn spec_read_high(&self, addr: u16) -> u8 {
        match self.mbc {
            AnyMbc::Simple(_) => self.mem.ram.at(addr as int),
            AnyMbc::Mbc1(m) => if m.ram_enabled { self.mem.ram.at(m.spec_ram_offset(addr)) } else { 0xff },
            AnyMbc::Mbc2(m) => if m.ram_enabled { (self.mem.ram.at((addr % 0x2000) as int) % 16) as u8 } else { 0xff },
            AnyMbc::Mbc3(m) => if !m.ram_enabled {
                0xff
            } else if m.rtc is Some && is_rtc_reg(m.ram_bank) {
                Mbc3::spec_rtc_reg(m.rtc.unwrap(), m.ram_bank)
            } else {
                self.mem.ram.at(m.spec_ram_offset(addr))
            },
        }
    }

    /// A read of the cartridge RAM area (0xa000-0xbfff).
    pub fn read_high(&self, addr: u16) -> (r: u8)
        requires
            self.wf(),
        ensures
            r == self.spec_read_high(addr),
    {
        match &self.mbc {
            AnyMbc::Simple(m) => m.read_high(addr, &self.mem),
            AnyMbc::Mbc1(m) => m.read_high(addr, &self.mem),
            AnyMbc::Mbc2(m) => m.read_high(addr, &self.mem),
            AnyMbc::Mbc3(m) => m.read_high(addr, &self.mem),
        }
    }

    /// A write to the cartridge RAM area; `now` is the wall-clock instant, for a
    /// clock register.
    #[verifier::rlimit(80)]
    pub fn write_high(&mut self, addr: u16, val: u8, now: u64)
        requires
            old(self).wf(),
        ensures
            final(self).wf(),
            final(self).mem.rom == old(self).mem.rom,
            final(self).battery_backed == old(self).battery_backed,
            final(self).kind() == old(self).kind(),
            final(self).mem.ram@ == match old(self).mbc {
                AnyMbc::Simple(_) => seq_write(old(self).mem.ram@, addr as int, val),
                AnyMbc::Mbc1(m) => if m.ram_enabled {
                    seq_write(old(self).mem.ram@, m.spec_ram_offset(addr), val)
                } else {
                    old(self).mem.ram@
                },
                AnyMbc::Mbc2(m) => if m.ram_enabled {
                    seq_write(old(self).mem.ram@, addr as int % 0x2000, val % 16)
                } else {
                    old(self).mem.ram@
                },
                AnyMbc::Mbc3(m) => if m.ram_enabled && !(m.rtc is Some && is_rtc_reg(m.ram_bank)) {
                    seq_write(old(self).mem.ram@, m.spec_ram_offset(addr), val)
                } else {
                    old(self).mem.ram@
                },
            },
            !(old(self).mbc matches AnyMbc::Mbc3(_)) ==> final(self).mbc == old(self).mbc,
    {
        match &mut self.mbc {
            AnyMbc::Simple(m) => m.write_high(addr, val, &mut self.mem),
            AnyMbc::Mbc1(m) => m.write_high(addr, val, &mut self.mem),
            AnyMbc::Mbc2(m) => m.write_high(addr, val, &mut self.mem),
            AnyMbc::Mbc3(m) => m.write_high(addr, val, &mut self.mem, now),
        }
    }

    pub fn battery_backed(&self) -> (r: bool)
        ensures
            r == self.battery_backed,
    {
        self.battery_backed
    }

    /// The state to persist: present exactly for battery-backed cartridges.
    pub fn save(&self) -> (r: Option<CartSave>)
        ensures
            r is Some <==> self.battery_backed,
            r matches Some(s) ==> s.ram@ == self.mem.ram@ && s.mbc == self.mbc.spec_save(),
    {
        if self.battery_backed {
            Some(CartSave { mbc: self.mbc.save(), ram: self.mem.ram.raw() })
        } else {
            None
        }
    }

    /// Restores a save: the RAM takes the saved bytes, and a cartridge with a
    /// clock takes the saved clock.
    pub fn load_from_save(&mut self, save: CartSave)
        requires
            old(self).wf(),
        ensures
            final(self).wf(),
            final(self).mem.rom == old(self).mem.rom,
            final(self).mem.ram@ == save.ram@,
            final(self).mbc == old(self).mbc.spec_load(save.mbc),
            final(self).battery_backed == old(self).battery_backed,
    {
        match (&mut self.mbc, save.mbc) {
            (AnyMbc::Mbc3(m), MbcSave::Rtc(s)) => {
                if m.rtc.is_some() {
                    m.rtc = Some(
                        Rtc { counter: s.counter, latched: s.latched, latch_signal: false, day_carry: s.day_carry },
                    );
                }
            },
            _ => {},
        }
        self.mem.ram = OptionalSegment::from_bytes(save.ram);
    }
}

/// Save round trip: a battery-backed cartridge's save (its RAM bytes and its
/// clock), loaded into a cartridge of the same controller kind, restores the
/// same RAM bytes and, for a cartridge with a clock, a clock that reads the
/// same elapsed time at every instant.
pub proof fn lemma_save_round_trip(c: Cart, save_mbc: MbcSave, save_ram: Seq<u8>, d: Cart, restored: Cart)
    requires
        c.battery_backed,
        c.kind() == d.kind(),
        save_ram == c.mem.ram@,
        save_mbc == c.mbc.spec_save(),
        restored.mem.ram@ == save_ram,
        restored.mbc == d.mbc.spec_load(save_mbc),
    ensures
        restored.mem.ram@ == c.mem.ram@,
        c.kind() == MbcKind::Mbc3Rtc ==> (restored.mbc matches AnyMbc::Mbc3(m) && c.mbc matches AnyMbc::Mbc3(cm)
            && m.rtc matches Some(rtc) && cm.rtc matches Some(crtc) && forall|now: u64|
            rtc.counter.elapsed(now) == crtc.counter.elapsed(now)),
        c.kind() != MbcKind::Mbc3Rtc ==> restored.mbc == d.mbc,
{
}

} // verus!
