use vstd::prelude::*;
use vstd::std_specs::bits::u8_trailing_zeros;

verus! {

/// Whether bit `i` of `x` is set.
pub open spec fn bit_set(x: u8, i: u8) -> bool {
    (x >> i) & 1u8 == 1u8
}

/// The interrupt lines, from highest priority (bit 0) to lowest.
#[derive(Debug, Clone, Copy, PartialEq, Eq, Structural)]
pub enum Interrupt {
    VBlank,
    Stat,
    Timer,
    Serial,
    Joypad,
}

impl Interrupt {
    /// The bit of the flag and enable registers that belongs to this line.
    pub open spec fn spec_bit(self) -> u8 {
        match self {
            Interrupt::VBlank => 0,
            Interrupt::Stat => 1,
            Interrupt::Timer => 2,
            Interrupt::Serial => 3,
            Interrupt::Joypad => 4,
        }
    }

    pub fn bit(self) -> (r: u8)
        ensures
            r == self.spec_bit(),
    {
        match self {
            Interrupt::VBlank => 0,
            Interrupt::Stat => 1,
            Interrupt::Timer => 2,
            Interrupt::Serial => 3,
            Interrupt::Joypad => 4,
        }
    }
}

/// The interrupt controller: an enable mask and a flag mask. A line is pending
/// when it is both enabled and flagged.
#[derive(Debug, Clone, Copy, PartialEq, Eq, Structural)]
pub struct InterruptState {
    pub enable: u8,
    pub flags: u8,
}

impl InterruptState {
    pub open spec fn spec_pending_bits(&self) -> u8 {
        self.enable & self.flags
    }

    pub fn new() -> (r: Self)
        ensures
            r.enable == 0,
            r.flags == 0,
    {
        InterruptState { enable: 0, flags: 0 }
    }

    /// Raises the flag of one line.
    pub fn request(&mut self, interrupt: Interrupt)
        ensures
            final(self).enable == old(self).enable,
            final(self).flags == old(self).flags | (1u8 << interrupt.spec_bit()),
    {
        self.flags = self.flags | (1u8 << interrupt.bit());
    }

    pub fn pending_bits(&self) -> (r: u8)
        ensures
            r == self.spec_pending_bits(),
    {
        self.enable & self.flags
    }

    /// Whether any enabled line is flagged.
    pub fn pending(&self) -> (r: bool)
        ensures
            r == (self.spec_pending_bits() != 0),
    {
        self.pending_bits() != 0
    }

    /// The state after taking the pending line of highest priority, and its bit.
    pub open spec fn spec_pop(self) -> (InterruptState, Option<u8>) {
        let t = u8_trailing_zeros(self.spec_pending_bits());
        if t > 7 {
            (self, None)
        } else {
            (InterruptState { flags: self.flags ^ (1u8 << t as u8), ..self }, Some(t as u8))
        }
    }

    /// Takes the pending line of highest priority (lowest bit) and clears its flag.
    pub fn pop(&mut self) -> (r: Option<u8>)
        ensures
            (*final(self), r) == old(self).spec_pop(),
            final(self).enable == old(self).enable,
            r is None <==> old(self).spec_pending_bits() == 0,
            r is None ==> final(self).flags == old(self).flags,
            r matches Some(b) ==> {
                &&& b < 8
                &&& bit_set(old(self).spec_pending_bits(), b)
                &&& forall|j: u8| j < b ==> !bit_set(old(self).spec_pending_bits(), j)
                &&& final(self).flags == old(self).flags & !(1u8 << b)
            },
    {
        let pending = self.pending_bits();
        let bit = pending.trailing_zeros();
        proof {
            vstd::std_specs::bits::axiom_u8_trailing_zeros(pending);
        }
        if bit > 7 {
            return None;
        }
        let b = bit as u8;
        let flags = self.flags;
        let enable = self.enable;
        assert(bit_set(flags, b) && (flags ^ (1u8 << b)) == flags & !(1u8 << b)) by (bit_vector)
            requires
                (pending >> b) & 1u8 == 1u8,
                pending == enable & flags,
                b < 8,
        ;
        self.flags = flags ^ (1u8 << b);
        Some(b)
    }
}

} // verus!
