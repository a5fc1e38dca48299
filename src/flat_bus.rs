use crate::cpu::CpuBus;
use vstd::prelude::*;

verus! {

/// A bus that is plain RAM over the whole 64 KiB address space, with no DMA
/// and no interrupts: enough to run the CPU on its own.
pub struct FlatBus {
    pub mem: Vec<u8>,
}

impl FlatBus {
    /// RAM holding `initial` from address 0, zero after it.
    pub fn new(initial: &[u8]) -> (r: Self)
        requires
            initial@.len() <= 0x10000,
        ensures
            r.mem@.len() == 0x10000,
            forall|i: int| 0 <= i < initial@.len() ==> r.mem@[i] == initial@[i],
            forall|i: int| initial@.len() <= i < 0x10000 ==> r.mem@[i] == 0,
    {
        let mut mem: Vec<u8> = Vec::new();
        let n = initial.len();
        while mem.len() < 0x10000
            invariant
                n == initial@.len(),
                n <= 0x10000,
                mem@.len() <= 0x10000,
                forall|i: int| 0 <= i < mem@.len() && i < n ==> mem@[i] == initial@[i],
                forall|i: int| n <= i < mem@.len() ==> mem@[i] == 0,
            decreases 0x10000 - mem.len(),
        {
            let i = mem.len();
            if i < n {
                mem.push(initial[i]);
            } else {
                mem.push(0);
            }
        }
        FlatBus { mem }
    }
}

impl CpuBus for FlatBus {
    open spec fn peek(&self, addr: u16) -> u8 {
        if (addr as int) < self.mem@.len() { self.mem@[addr as int] } else { 0xff }
    }

    open spec fn poke(self, addr: u16, val: u8, after: Self) -> bool {
        if (addr as int) < self.mem@.len() {
            after.mem@ == self.mem@.update(addr as int, val)
        } else {
            after.mem@ == self.mem@
        }
    }

    open spec fn bus_wf(&self) -> bool {
        true
    }

    open spec fn dma_paused(&self) -> bool {
        false
    }

    open spec fn popped(self) -> (Self, Option<u8>) {
        (self, None)
    }

    open spec fn pending(&self) -> bool {
        false
    }

    fn read_8(&self, addr: u16) -> (r: u8) {
        if (addr as usize) < self.mem.len() {
            self.mem[addr as usize]
        } else {
            0xff
        }
    }

    fn write_8(&mut self, addr: u16, val: u8) {
        if (addr as usize) < self.mem.len() {
            self.mem.set(addr as usize, val);
        }
    }

    fn cpu_dma_paused(&self) -> (r: bool) {
        false
    }

    fn pop_interrupt(&mut self) -> (r: Option<u8>) {
        None
    }

    fn interrupt_pending(&self) -> (r: bool) {
        false
    }
}

} // verus!
