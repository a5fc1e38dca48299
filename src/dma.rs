use crate::cpu::wrap16;
use vstd::prelude::*;

verus! {

/// The two kinds of transfer.
#[derive(Debug, Clone, Copy, PartialEq, Eq, Structural)]
pub enum DmaType {
    /// 160 bytes into sprite memory, one per cycle; the CPU keeps running.
    Oam,
    /// A block into video RAM, two bytes per cycle; the CPU is stalled.
    General,
}

/// A transfer in progress: its kind, length, bytes done, and (for sprite
/// memory) its source.
#[derive(Debug, Clone, Copy, PartialEq, Eq, Structural)]
pub struct DmaState {
    pub ty: DmaType,
    pub len: u16,
    pub count: u16,
    pub oam_src: u16,
}

/// What a transfer may touch: reads anywhere, writes to video RAM and to
/// sprite memory.
pub trait DmaBus: Sized {
    /// Whether the bus's own invariant holds; every operation keeps it.
    spec fn dma_bus_wf(&self) -> bool;

    spec fn peek(&self, addr: u16) -> u8;

    /// Whether `after` is this bus once `val` was written to video RAM at `addr`.
    spec fn vram_written(self, addr: u16, val: u8, after: Self) -> bool;

    /// Whether `after` is this bus once byte `index` of sprite memory became `val`.
    spec fn oam_written(self, index: u16, val: u8, after: Self) -> bool;

    fn read_8(&self, addr: u16) -> (r: u8)
        requires
            self.dma_bus_wf(),
        ensures
            r == self.peek(addr),
    ;

    fn write_vram(&mut self, addr: u16, val: u8)
        requires
            old(self).dma_bus_wf(),
        ensures
            final(self).dma_bus_wf(),
            old(self).vram_written(addr, val, *final(self)),
    ;

    /// Writes byte `index` (below 160) of sprite memory.
    fn write_oam(&mut self, index: u16, val: u8)
        requires
            old(self).dma_bus_wf(),
            index < 160,
        ensures
            final(self).dma_bus_wf(),
            old(self).oam_written(index, val, *final(self)),
    ;
}

/// The DMA controller. A new request replaces a transfer in progress (the
/// last request wins).
#[derive(Debug, Clone, Copy)]
pub struct Dma {
    pub state: Option<DmaState>,
    pub cpu_paused: bool,
    pub dma: u8,
    pub hdma1: u8,
    pub hdma2: u8,
    pub hdma3: u8,
    pub hdma4: u8,
}

/// Why a DMA register write was refused.
#[derive(Debug, Clone, Copy, PartialEq, Eq, Structural)]
pub enum DmaError {
    /// Transfers paced by horizontal blanking are not supported.
    HBlankDma,
}

/// Copies the two bytes at `count` of a general transfer into video RAM.
fn copy_general<B: DmaBus>(src: u16, dst: u16, count: u16, bus: &mut B)
    requires
        old(bus).dma_bus_wf(),
    ensures
        final(bus).dma_bus_wf(),
        ({
            let s = wrap16(src + count);
            let d = wrap16(dst + count);
            exists|b1: B|
                old(bus).vram_written(d, old(bus).peek(s), b1) && b1.vram_written(
                    wrap16(d + 1),
                    b1.peek(wrap16(s + 1)),
                    *final(bus),
                )
        }),
{
    let src0 = src.wrapping_add(count);
    let dst0 = dst.wrapping_add(count);
    let v0 = bus.read_8(src0);
    bus.write_vram(dst0, v0);
    let ghost b1 = *bus;
    let src1 = src0.wrapping_add(1);
    let dst1 = dst0.wrapping_add(1);
    let v1 = bus.read_8(src1);
    bus.write_vram(dst1, v1);
    assert(src0 == wrap16(src + count) && dst0 == wrap16(dst + count));
    assert(src1 == wrap16(src0 + 1) && dst1 == wrap16(dst0 + 1));
    assert(old(bus).vram_written(dst0, old(bus).peek(src0), b1));
    assert(b1.vram_written(wrap16(dst0 + 1), b1.peek(wrap16(src0 + 1)), *bus));
}

impl Dma {
    pub open spec fn wf(&self) -> bool {
        match self.state {
            Some(s) => {
                &&& self.cpu_paused ==> s.ty == DmaType::General
                &&& s.count < s.len
                &&& s.ty == DmaType::Oam ==> s.len == 160
                &&& s.ty == DmaType::General ==> s.len <= 2048 && s.len % 2 == 0 && s.count % 2 == 0
            },
            None => !self.cpu_paused,
        }
    }

    /// The general transfer's source: HDMA1:HDMA2 with the low four bits cleared.
    pub open spec fn spec_src(&self) -> u16 {
        ((self.hdma1 as int * 256 + self.hdma2 as int) / 16 * 16) as u16
    }

    /// The general transfer's destination offset in video RAM: HDMA3:HDMA4
    /// masked to 0x1ff0.
    pub open spec fn spec_dst(&self) -> u16 {
        (((self.hdma3 as int * 256 + self.hdma4 as int) % 0x2000) / 16 * 16) as u16
    }

    pub fn new() -> (r: Self)
        ensures
            r.wf(),
            r.state is None,
            !r.cpu_paused,
            r.dma == 0 && r.hdma1 == 0 && r.hdma2 == 0 && r.hdma3 == 0 && r.hdma4 == 0,
    {
        Dma { state: None, cpu_paused: false, dma: 0, hdma1: 0, hdma2: 0, hdma3: 0, hdma4: 0 }
    }

    /// Whether a general transfer stalls the CPU.
    pub fn cpu_paused(&self) -> (r: bool)
        ensures
            r == self.cpu_paused,
    {
        self.cpu_paused
    }

    fn start_general(&mut self, len: u16)
        requires
            old(self).wf(),
            16 <= len <= 2048,
            len % 16 == 0,
        ensures
            final(self).wf(),
            *final(self) == (Dma {
                state: Some(DmaState { ty: DmaType::General, len, count: 0, oam_src: 0 }),
                ..*old(self)
            }),
    {
        self.state = Some(DmaState { ty: DmaType::General, len, count: 0, oam_src: 0 });
    }

    /// A write of HDMA5: with bit 7 clear, starts a general transfer of
    /// `(hdma5 & 0x7f) + 1` blocks of 16 bytes.
    pub fn set_hdma5(&mut self, hdma5: u8) -> (r: Result<(), DmaError>)
        requires
            old(self).wf(),
        ensures
            final(self).wf(),
            hdma5 >= 128 ==> r == Err::<(), DmaError>(DmaError::HBlankDma) && *final(self) == *old(self),
            hdma5 < 128 ==> final(self).cpu_paused == old(self).cpu_paused,
            hdma5 < 128 ==> r is Ok && final(self).state == Some(
                DmaState { ty: DmaType::General, len: ((hdma5 as int + 1) * 16) as u16, count: 0, oam_src: 0 },
            ),
            final(self).dma == old(self).dma,
    {
        if hdma5 >= 128 {
            return Err(DmaError::HBlankDma);
        }
        let len = (hdma5 as u16 + 1) * 16;
        self.start_general(len);
        Ok(())
    }

    fn start_oam(&mut self, oam_src: u16)
        requires
            old(self).wf(),
        ensures
            final(self).wf(),
            *final(self) == (Dma {
                state: Some(DmaState { ty: DmaType::Oam, len: 160, count: 0, oam_src }),
                cpu_paused: false,
                ..*old(self)
            }),
    {
        self.state = Some(DmaState { ty: DmaType::Oam, len: 0xa0, count: 0, oam_src });
        self.cpu_paused = false;
    }

    /// HDMA5 reads back 0xff: general transfers stall the CPU until they end,
    /// so a program never sees one in progress.
    pub fn hdma5(&self) -> (r: u8)
        ensures
            r == 0xff,
    {
        0xff
    }

    pub fn dma(&self) -> (r: u8)
        ensures
            r == self.dma,
    {
        self.dma
    }

    /// A write of the DMA register starts a sprite-memory transfer from `dma * 256`.
    pub fn set_dma(&mut self, dma: u8)
        requires
            old(self).wf(),
        ensures
            final(self).wf(),
            !final(self).cpu_paused,
            final(self).dma == dma,
            final(self).state == Some(DmaState { ty: DmaType::Oam, len: 160, count: 0, oam_src: (dma as int * 256) as u16 }),
    {
        self.dma = dma;
        self.start_oam(dma as u16 * 256);
    }

    pub fn general_src_addr(&self) -> (r: u16)
        ensures
            r == self.spec_src(),
    {
        (self.hdma1 as u16 * 256 + self.hdma2 as u16) / 16 * 16
    }

    pub fn general_dst_addr(&self) -> (r: u16)
        ensures
            r == self.spec_dst(),
    {
        ((self.hdma3 as u16 * 256 + self.hdma4 as u16) % 0x2000) / 16 * 16
    }

    #[verifier::rlimit(50)]
    /// Advances a transfer by one machine cycle: two bytes of a general transfer
    /// (stalling the CPU) or one byte of a sprite-memory transfer. The last byte
    /// ends the transfer and the stall.
    pub fn execute<B: DmaBus>(&mut self, bus: &mut B)
        requires
            old(self).wf(),
            old(bus).dma_bus_wf(),
        ensures
            final(self).wf(),
            final(bus).dma_bus_wf(),
            old(self).state is None ==> *final(bus) == *old(bus) && final(self).state is None,
            old(self).state matches Some(s) ==> ({
                let step: u16 = if s.ty == DmaType::General { 2 } else { 1 };
                let done = s.count + step == s.len;
                &&& done ==> final(self).state is None && !final(self).cpu_paused
                &&& !done ==> final(self).state == Some(DmaState { count: (s.count + step) as u16, ..s })
                &&& !done && s.ty == DmaType::General ==> final(self).cpu_paused
                &&& s.ty == DmaType::Oam ==> !final(self).cpu_paused
                &&& s.ty == DmaType::Oam ==> old(bus).oam_written(
                    s.count,
                    old(bus).peek(wrap16(s.oam_src + s.count)),
                    *final(bus),
                )
                &&& s.ty == DmaType::General ==> ({
                    let src = wrap16(old(self).spec_src() + s.count);
                    let dst = wrap16(old(self).spec_dst() + s.count);
                    exists|b1: B|
                        old(bus).vram_written(dst, old(bus).peek(src), b1) && b1.vram_written(
                            wrap16(dst + 1),
                            b1.peek(wrap16(src + 1)),
                            *final(bus),
                        )
                })
            }),
    {
        let state = match self.state {
            Some(s) => s,
            None => return,
        };
        match state.ty {
            DmaType::General => {
                self.cpu_paused = true;
                let src = self.general_src_addr();
                let dst = self.general_dst_addr();
                assert(src == old(self).spec_src() && dst == old(self).spec_dst());
                copy_general(src, dst, state.count, bus);
                assert(exists|b1: B|
                    #[trigger] old(bus).vram_written(wrap16(dst + state.count), old(bus).peek(wrap16(src + state.count)), b1)
                        && b1.vram_written(
                        wrap16(wrap16(dst + state.count) + 1),
                        b1.peek(wrap16(wrap16(src + state.count) + 1)),
                        *bus,
                    ));
            },
            DmaType::Oam => {
                let src_addr = state.oam_src.wrapping_add(state.count);
                assert(src_addr == wrap16(state.oam_src + state.count));
                let v = bus.read_8(src_addr);
                bus.write_oam(state.count, v);
            },
        }
        let step: u16 = match state.ty {
            DmaType::General => 2,
            DmaType::Oam => 1,
        };
        let count = state.count + step;
        if count == state.len {
            self.state = None;
            self.cpu_paused = false;
        } else {
            self.state = Some(DmaState { count, ..state });
        }
    }
}

} // verus!
