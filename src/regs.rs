use vstd::prelude::*;

verus! {

/// An 8-bit register. The order is that of the register pairs, low byte first.
#[derive(Debug, Clone, Copy, PartialEq, Eq, Structural)]
pub enum Reg8 {
    C,
    B,
    E,
    D,
    L,
    H,
    F,
    A,
}

/// A 16-bit register: a pair of 8-bit registers, or the stack pointer.
#[derive(Debug, Clone, Copy, PartialEq, Eq, Structural)]
pub enum Reg16 {
    BC,
    DE,
    HL,
    AF,
    SP,
}

/// One of the four bits of the flag register.
#[derive(Debug, Clone, Copy, PartialEq, Eq, Structural)]
pub enum Flag {
    Zero,
    Sub,
    HalfCarry,
    Carry,
}

impl Reg8 {
    pub open spec fn spec_index(self) -> u8 {
        match self {
            Reg8::C => 0,
            Reg8::B => 1,
            Reg8::E => 2,
            Reg8::D => 3,
            Reg8::L => 4,
            Reg8::H => 5,
            Reg8::F => 6,
            Reg8::A => 7,
        }
    }

    pub open spec fn spec_from_index(i: u8) -> Reg8 {
        if i == 0 {
            Reg8::C
        } else if i == 1 {
            Reg8::B
        } else if i == 2 {
            Reg8::E
        } else if i == 3 {
            Reg8::D
        } else if i == 4 {
            Reg8::L
        } else if i == 5 {
            Reg8::H
        } else if i == 6 {
            Reg8::F
        } else {
            Reg8::A
        }
    }

    /// Position of the register in the register file.
    pub fn index(&self) -> (r: usize)
        ensures
            r == self.spec_index(),
            r < 8,
    {
        match self {
            Reg8::C => 0,
            Reg8::B => 1,
            Reg8::E => 2,
            Reg8::D => 3,
            Reg8::L => 4,
            Reg8::H => 5,
            Reg8::F => 6,
            Reg8::A => 7,
        }
    }

    /// The register named by the three low bits of an opcode field
    /// (B, C, D, E, H, L, then A and F), i.e. the index `(bits & 7) ^ 1`.
    pub fn from_bits(bits: u8) -> (r: Reg8)
        ensures
            r == Reg8::spec_from_index(((bits % 8) as int + if bits % 2 == 0 { 1int } else { -1int }) as u8),
    {
        let low = bits % 8;
        let i = if low % 2 == 0 { low + 1 } else { low - 1 };
        if i == 0 {
            Reg8::C
        } else if i == 1 {
            Reg8::B
        } else if i == 2 {
            Reg8::E
        } else if i == 3 {
            Reg8::D
        } else if i == 4 {
            Reg8::L
        } else if i == 5 {
            Reg8::H
        } else if i == 6 {
            Reg8::F
        } else {
            Reg8::A
        }
    }
}

impl Reg16 {
    pub open spec fn spec_index(self) -> u8 {
        match self {
            Reg16::BC => 0,
            Reg16::DE => 1,
            Reg16::HL => 2,
            Reg16::AF => 3,
            Reg16::SP => 4,
        }
    }

    pub fn index(&self) -> (r: usize)
        ensures
            r == self.spec_index(),
    {
        match self {
            Reg16::BC => 0,
            Reg16::DE => 1,
            Reg16::HL => 2,
            Reg16::AF => 3,
            Reg16::SP => 4,
        }
    }
}

impl Flag {
    /// The flag's bit in the flag register.
    pub open spec fn spec_mask(self) -> u8 {
        match self {
            Flag::Zero => 0x80,
            Flag::Sub => 0x40,
            Flag::HalfCarry => 0x20,
            Flag::Carry => 0x10,
        }
    }

    pub fn mask(self) -> (r: u8)
        ensures
            r == self.spec_mask(),
    {
        match self {
            Flag::Zero => 0x80,
            Flag::Sub => 0x40,
            Flag::HalfCarry => 0x20,
            Flag::Carry => 0x10,
        }
    }

    pub fn zero(val: bool) -> (r: u8)
        ensures
            r == flags_byte(val, false, false, false),
    {
        if val { 0x80 } else { 0 }
    }

    pub fn half_carry(val: bool) -> (r: u8)
        ensures
            r == flags_byte(false, false, val, false),
    {
        if val { 0x20 } else { 0 }
    }

    pub fn carry(val: bool) -> (r: u8)
        ensures
            r == flags_byte(false, false, false, val),
    {
        if val { 0x10 } else { 0 }
    }
}

/// Whether `flag` is set in the flag byte `f`.
pub open spec fn flag_of(f: u8, flag: Flag) -> bool {
    (f / flag.spec_mask()) % 2 == 1
}

/// The flag byte with the given zero, subtract, half-carry and carry bits; the
/// low nibble is zero.
pub open spec fn flags_byte(z: bool, n: bool, h: bool, c: bool) -> u8 {
    ((if z { 0x80int } else { 0 }) + (if n { 0x40int } else { 0 }) + (if h { 0x20int } else { 0 })
        + (if c { 0x10int } else { 0 })) as u8
}

/// Builds a flag byte from its four flags.
pub fn make_flags(z: bool, n: bool, h: bool, c: bool) -> (r: u8)
    ensures
        r == flags_byte(z, n, h, c),
        flag_of(r, Flag::Zero) == z,
        flag_of(r, Flag::Sub) == n,
        flag_of(r, Flag::HalfCarry) == h,
        flag_of(r, Flag::Carry) == c,
        r % 16 == 0,
{
    let r = Flag::zero(z) + (if n { 0x40u8 } else { 0 }) + Flag::half_carry(h) + Flag::carry(c);
    r
}

/// The register file: seven 8-bit registers, the flag register and the stack
/// pointer. The flag register's low nibble is always zero.
#[derive(Debug, Clone, Copy, PartialEq, Eq, Structural)]
pub struct RegisterSet {
    pub c: u8,
    pub b: u8,
    pub e: u8,
    pub d: u8,
    pub l: u8,
    pub h: u8,
    pub f: u8,
    pub a: u8,
    pub sp: u16,
}

impl RegisterSet {
    pub open spec fn wf(&self) -> bool {
        self.f % 16 == 0
    }

    pub open spec fn get8(&self, r: Reg8) -> u8 {
        match r {
            Reg8::C => self.c,
            Reg8::B => self.b,
            Reg8::E => self.e,
            Reg8::D => self.d,
            Reg8::L => self.l,
            Reg8::H => self.h,
            Reg8::F => self.f,
            Reg8::A => self.a,
        }
    }

    pub open spec fn set8(self, r: Reg8, v: u8) -> RegisterSet {
        match r {
            Reg8::C => RegisterSet { c: v, ..self },
            Reg8::B => RegisterSet { b: v, ..self },
            Reg8::E => RegisterSet { e: v, ..self },
            Reg8::D => RegisterSet { d: v, ..self },
            Reg8::L => RegisterSet { l: v, ..self },
            Reg8::H => RegisterSet { h: v, ..self },
            Reg8::F => RegisterSet { f: v, ..self },
            Reg8::A => RegisterSet { a: v, ..self },
        }
    }

    pub open spec fn get16(&self, r: Reg16) -> u16 {
        match r {
            Reg16::BC => (self.b as int * 256 + self.c as int) as u16,
            Reg16::DE => (self.d as int * 256 + self.e as int) as u16,
            Reg16::HL => (self.h as int * 256 + self.l as int) as u16,
            Reg16::AF => (self.a as int * 256 + self.f as int) as u16,
            Reg16::SP => self.sp,
        }
    }

    /// Writing a pair splits the value into its high and low bytes; writing AF
    /// keeps the flag register's low nibble zero.
    pub open spec fn set16(self, r: Reg16, v: u16) -> RegisterSet {
        let hi = (v / 256) as u8;
        let lo = (v % 256) as u8;
        match r {
            Reg16::BC => RegisterSet { b: hi, c: lo, ..self },
            Reg16::DE => RegisterSet { d: hi, e: lo, ..self },
            Reg16::HL => RegisterSet { h: hi, l: lo, ..self },
            Reg16::AF => RegisterSet { a: hi, f: (lo - lo % 16) as u8, ..self },
            Reg16::SP => RegisterSet { sp: v, ..self },
        }
    }

    pub open spec fn flag(&self, flag: Flag) -> bool {
        flag_of(self.f, flag)
    }

    pub fn new() -> (r: Self)
        ensures
            r.wf(),
            r.c == 0 && r.b == 0 && r.e == 0 && r.d == 0 && r.l == 0 && r.h == 0,
            r.f == 0 && r.a == 0 && r.sp == 0,
    {
        RegisterSet { c: 0, b: 0, e: 0, d: 0, l: 0, h: 0, f: 0, a: 0, sp: 0 }
    }

    pub fn read8(&self, r: Reg8) -> (v: u8)
        ensures
            v == self.get8(r),
    {
        match r {
            Reg8::C => self.c,
            Reg8::B => self.b,
            Reg8::E => self.e,
            Reg8::D => self.d,
            Reg8::L => self.l,
            Reg8::H => self.h,
            Reg8::F => self.f,
            Reg8::A => self.a,
        }
    }

    /// Writes an 8-bit register other than the flag register.
    pub fn write8(&mut self, r: Reg8, v: u8)
        requires
            r != Reg8::F || v % 16 == 0,
        ensures
            *final(self) == old(self).set8(r, v),
    {
        match r {
            Reg8::C => self.c = v,
            Reg8::B => self.b = v,
            Reg8::E => self.e = v,
            Reg8::D => self.d = v,
            Reg8::L => self.l = v,
            Reg8::H => self.h = v,
            Reg8::F => self.f = v,
            Reg8::A => self.a = v,
        }
    }

    pub fn read16(&self, r: Reg16) -> (v: u16)
        ensures
            v == self.get16(r),
    {
        match r {
            Reg16::BC => self.b as u16 * 256 + self.c as u16,
            Reg16::DE => self.d as u16 * 256 + self.e as u16,
            Reg16::HL => self.h as u16 * 256 + self.l as u16,
            Reg16::AF => self.a as u16 * 256 + self.f as u16,
            Reg16::SP => self.sp,
        }
    }

    pub fn write16(&mut self, r: Reg16, v: u16)
        ensures
            *final(self) == old(self).set16(r, v),
    {
        let hi = (v / 256) as u8;
        let lo = (v % 256) as u8;
        match r {
            Reg16::BC => {
                self.b = hi;
                self.c = lo;
            },
            Reg16::DE => {
                self.d = hi;
                self.e = lo;
            },
            Reg16::HL => {
                self.h = hi;
                self.l = lo;
            },
            Reg16::AF => {
                self.a = hi;
                self.f = lo - lo % 16;
            },
            Reg16::SP => self.sp = v,
        }
    }

    /// Sets or clears one flag, leaving the others as they are.
    pub fn set_flags(&mut self, flag: Flag, value: bool)
        requires
            old(self).wf(),
        ensures
            final(self).wf(),
            final(self).flag(flag) == value,
            forall|g: Flag| g != flag ==> final(self).flag(g) == old(self).flag(g),
            *final(self) == (RegisterSet { f: final(self).f, ..*old(self) }),
    {
        let z = if flag == Flag::Zero { value } else { self.get_flag(Flag::Zero) };
        let n = if flag == Flag::Sub { value } else { self.get_flag(Flag::Sub) };
        let h = if flag == Flag::HalfCarry { value } else { self.get_flag(Flag::HalfCarry) };
        let c = if flag == Flag::Carry { value } else { self.get_flag(Flag::Carry) };
        self.f = make_flags(z, n, h, c);
    }

    pub fn get_flag(&self, flag: Flag) -> (r: bool)
        ensures
            r == self.flag(flag),
    {
        (self.f / flag.mask()) % 2 == 1
    }

    /// Replaces the whole flag register with the given four flags.
    pub fn write_flags(&mut self, z: bool, n: bool, h: bool, c: bool)
        ensures
            *final(self) == (RegisterSet { f: flags_byte(z, n, h, c), ..*old(self) }),
            final(self).wf(),
    {
        self.f = make_flags(z, n, h, c);
    }
}

} // verus!
