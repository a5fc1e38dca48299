use crate::alu::{bit8, pow2, spec_pow2};
use crate::interrupt::InterruptState;
use crate::memory::{PaletteRam, VideoRam};
use vstd::prelude::*;

verus! {

pub const SCREEN_WIDTH: usize = 160;
pub const SCREEN_HEIGHT: usize = 144;
/// Scanlines per frame, visible ones and blanking ones.
pub const FRAME_LINES: u8 = 154;
/// Bytes of the RGBA frame buffer.
pub const FRAME_BYTES: usize = 92160;
/// Bytes of sprite memory: 40 records of y, x, tile and attributes.
pub const OAM_BYTES: usize = 160;

/// The video controller's modes, in the order of their STAT encoding.
#[derive(Debug, Clone, Copy, PartialEq, Eq, Structural)]
pub enum Mode {
    HBlank,
    VBlank,
    OamSearch,
    Transfer,
}

impl Mode {
    /// Machine cycles spent in each mode.
    pub open spec fn spec_cycles(self) -> usize {
        match self {
            Mode::OamSearch => 21,
            Mode::Transfer => 43,
            Mode::HBlank => 50,
            Mode::VBlank => 114,
        }
    }

    pub open spec fn spec_bits(self) -> u8 {
        match self {
            Mode::HBlank => 0,
            Mode::VBlank => 1,
            Mode::OamSearch => 2,
            Mode::Transfer => 3,
        }
    }

    pub fn cycles(&self) -> (r: usize)
        ensures
            r == self.spec_cycles(),
    {
        match self {
            Mode::OamSearch => 21,
            Mode::Transfer => 43,
            Mode::HBlank => 50,
            Mode::VBlank => 114,
        }
    }

    pub fn bits(&self) -> (r: u8)
        ensures
            r == self.spec_bits(),
    {
        match self {
            Mode::HBlank => 0,
            Mode::VBlank => 1,
            Mode::OamSearch => 2,
            Mode::Transfer => 3,
        }
    }
}

/// Bit `i` of `v`, for `i` below 8.
pub open spec fn bit_of(v: u8, i: int) -> bool {
    bit8(v, i as u8)
}

/// The 2-bit colour index of column `bit` (7 is leftmost) of a tile row.
pub open spec fn tile_color(low: u8, high: u8, bit: int) -> u8 {
    ((if bit_of(high, bit) { 2int } else { 0 }) + (if bit_of(low, bit) { 1int } else { 0 })) as u8
}

/// A background pixel before palette lookup.
#[derive(Debug, Clone, Copy, PartialEq, Eq, Structural)]
pub struct BgPixel {
    pub color: u8,
    pub palette: u8,
    pub bg_over_obj: bool,
}

/// A sprite pixel before palette lookup.
#[derive(Debug, Clone, Copy, PartialEq, Eq, Structural)]
pub struct ObjPixel {
    pub color: u8,
    pub palette: u8,
    pub bg_over_obj: bool,
}

/// The video controller: per-line mode machine, scroll and palette registers,
/// and the latched STAT interrupt line.
pub struct Ppu {
    pub mode_cycles_remaining: usize,
    pub bgp: u8,
    pub lcdc: u8,
    pub ly: u8,
    pub lyc: u8,
    pub obp0: u8,
    pub obp1: u8,
    pub scx: u8,
    pub scy: u8,
    pub wx: u8,
    pub wy: u8,
    pub mode: Mode,
    /// STAT interrupt sources: bit 0 HBlank, 1 VBlank, 2 OAM search, 3 LY == LYC.
    pub stat_sources: u8,
    pub lyc_equal: bool,
    pub interrupt_line: bool,
}

/// Whether sprite `j` (0-39) covers line `ly` for sprites `height` pixels tall.
pub open spec fn on_line(oam: Seq<u8>, j: int, ly: u8, height: int) -> bool {
    oam[4 * j] as int <= ly as int + 16 < oam[4 * j] as int + height
}

/// How many sprites before `j` cover the line.
pub open spec fn count_on_line(oam: Seq<u8>, j: int, ly: u8, height: int) -> int
    decreases j,
{
    if j <= 0 {
        0
    } else {
        count_on_line(oam, j - 1, ly, height) + if on_line(oam, j - 1, ly, height) { 1int } else { 0 }
    }
}

/// Whether sprite `j` is one of the (at most ten) first sprites on the line.
pub open spec fn selected(oam: Seq<u8>, j: int, ly: u8, height: int) -> bool {
    on_line(oam, j, ly, height) && count_on_line(oam, j, ly, height) < 10
}

impl Ppu {
    pub open spec fn wf(&self) -> bool {
        &&& self.ly < FRAME_LINES
        &&& self.mode_cycles_remaining <= 114
        &&& self.stat_sources < 16
        &&& (self.mode == Mode::VBlank) == (self.ly >= 144)
    }

    pub open spec fn spec_lcd_enabled(&self) -> bool {
        self.lcdc >= 128
    }

    pub open spec fn obj_height(&self) -> int {
        if bit_of(self.lcdc, 2) { 16 } else { 8 }
    }

    /// The combined STAT condition of the enabled sources.
    pub open spec fn stat_line(&self) -> bool {
        (self.ly == self.lyc && bit_of(self.stat_sources, 3)) || match self.mode {
            Mode::Transfer => false,
            Mode::HBlank => bit_of(self.stat_sources, 0),
            Mode::VBlank => bit_of(self.stat_sources, 1),
            Mode::OamSearch => bit_of(self.stat_sources, 2),
        }
    }

    /// The mode machine's next position: (mode, cycles left, line).
    pub open spec fn next_position(&self) -> (Mode, usize, u8) {
        if self.mode_cycles_remaining > 1 {
            (self.mode, (self.mode_cycles_remaining - 1) as usize, self.ly)
        } else {
            match self.mode {
                Mode::OamSearch => (Mode::Transfer, 43, self.ly),
                Mode::Transfer => (Mode::HBlank, 50, self.ly),
                Mode::HBlank => if self.ly + 1 == 144 {
                    (Mode::VBlank, 114, (self.ly + 1) as u8)
                } else {
                    (Mode::OamSearch, 21, (self.ly + 1) as u8)
                },
                Mode::VBlank => if self.ly + 1 == FRAME_LINES {
                    (Mode::OamSearch, 21, 0)
                } else {
                    (Mode::VBlank, 114, (self.ly + 1) as u8)
                },
            }
        }
    }

    /// The background pixel at column `lx` of the current line.
    /// Whether column `lx` of the current line shows the window: the window
    /// is enabled and its top-left corner (WX - 7, WY) is at or before the pixel.
    pub open spec fn in_window(&self, lx: int) -> bool {
        bit_of(self.lcdc, 5) && self.ly >= self.wy && lx + 7 >= self.wx as int
    }

    /// The map position shown at column `lx`: (x, y, map base). The background
    /// is scrolled and wraps around its 256x256 map; the window is not scrolled.
    pub open spec fn map_position(&self, lx: int) -> (int, int, int) {
        if self.in_window(lx) {
            (lx + 7 - self.wx as int, self.ly as int - self.wy as int, if bit_of(self.lcdc, 6) { 0x1c00int } else { 0x1800 })
        } else {
            ((lx + self.scx as int) % 256, (self.ly as int + self.scy as int) % 256, if bit_of(self.lcdc, 3) {
                0x1c00int
            } else {
                0x1800
            })
        }
    }

    pub open spec fn spec_bg_pixel(&self, vram: Seq<u8>, lx: int, cgb_mode: bool) -> BgPixel {
        let (pixel_x, pixel_y, map_base) = self.map_position(lx);
        let map_addr = map_base + (pixel_y / 8) * 32 + pixel_x / 8;
        let tile_id = vram[map_addr];
        let attrs = vram[0x2000 + map_addr];
        let data_base = if !bit_of(self.lcdc, 4) && tile_id < 128 { 0x1000int } else { 0 };
        let bank = if cgb_mode && bit_of(attrs, 3) { 0x2000int } else { 0 };
        let addr = bank + data_base + tile_id as int * 16 + (pixel_y % 8) * 2;
        BgPixel {
            color: tile_color(vram[addr], vram[addr + 1], 7 - pixel_x % 8),
            palette: if cgb_mode { attrs % 8 } else { 0 },
            bg_over_obj: attrs >= 128,
        }
    }

    /// Whether the current line falls in the lower tile of a tall sprite.
    pub open spec fn obj_bottom(&self, oam: Seq<u8>, j: int) -> bool {
        self.obj_height() == 16 && self.ly as int + 16 >= oam[4 * j] as int + 8
    }

    /// The tile of sprite `j` that the current line crosses: in tall mode the
    /// even tile for the upper half and the odd one for the lower half,
    /// exchanged when the sprite is flipped vertically.
    pub open spec fn obj_tile_id(&self, oam: Seq<u8>, j: int) -> int {
        let tile = oam[4 * j + 2] as int;
        if self.obj_height() == 16 {
            (tile / 2) * 2 + (if self.obj_bottom(oam, j) != bit_of(oam[4 * j + 3], 6) { 1int } else { 0 })
        } else {
            tile
        }
    }

    /// The row of that tile on the current line, counted from the top unless
    /// the sprite is flipped vertically.
    pub open spec fn obj_row(&self, oam: Seq<u8>, j: int) -> int {
        let y = oam[4 * j] as int;
        let tile_y = if self.obj_bottom(oam, j) { y + 8 } else { y };
        let row = self.ly as int + 16 - tile_y;
        if bit_of(oam[4 * j + 3], 6) { 7 - row } else { row }
    }

    /// The colour index of sprite `j` at column `lx` of the current line.
    pub open spec fn spec_obj_color(&self, vram: Seq<u8>, oam: Seq<u8>, j: int, lx: int, cgb_mode: bool) -> u8 {
        let attrs = oam[4 * j + 3];
        let bank = if cgb_mode && bit_of(attrs, 3) { 0x2000int } else { 0 };
        let addr = bank + self.obj_tile_id(oam, j) * 16 + self.obj_row(oam, j) * 2;
        let column = lx + 8 - oam[4 * j + 1] as int;
        tile_color(vram[addr], vram[addr + 1], if bit_of(attrs, 5) { column } else { 7 - column })
    }

    /// Whether sprite `j` shows a non-transparent pixel at column `lx`.
    pub open spec fn obj_candidate(&self, vram: Seq<u8>, oam: Seq<u8>, j: int, lx: int, cgb_mode: bool) -> bool {
        &&& 0 <= j < 40
        &&& selected(oam, j, self.ly, self.obj_height())
        &&& oam[4 * j + 1] as int <= lx + 8 < oam[4 * j + 1] as int + 8
        &&& self.spec_obj_color(vram, oam, j, lx, cgb_mode) != 0
    }

    /// Sprite priority: in colour mode the earlier sprite wins; in classic mode
    /// the one further left, then the earlier one.
    pub open spec fn obj_before(oam: Seq<u8>, i: int, j: int, cgb_mode: bool) -> bool {
        if cgb_mode {
            i <= j
        } else {
            oam[4 * i + 1] < oam[4 * j + 1] || (oam[4 * i + 1] == oam[4 * j + 1] && i <= j)
        }
    }

    /// The sprite pixel that wins column `lx`, if any.
    pub open spec fn spec_obj_pixel(&self, vram: Seq<u8>, oam: Seq<u8>, lx: int, cgb_mode: bool) -> Option<ObjPixel> {
        if !bit_of(self.lcdc, 1) || !exists|j: int| self.obj_winner(vram, oam, j, lx, cgb_mode) {
            None
        } else {
            let j = choose|j: int| self.obj_winner(vram, oam, j, lx, cgb_mode);
            Some(
                ObjPixel {
                    color: self.spec_obj_color(vram, oam, j, lx, cgb_mode),
                    palette: if cgb_mode { oam[4 * j + 3] % 8 } else { (oam[4 * j + 3] / 16) % 2 },
                    bg_over_obj: oam[4 * j + 3] >= 128,
                },
            )
        }
    }

    /// Whether sprite `j` is the candidate that comes first by sprite priority.
    pub open spec fn obj_winner(&self, vram: Seq<u8>, oam: Seq<u8>, j: int, lx: int, cgb_mode: bool) -> bool {
        &&& self.obj_candidate(vram, oam, j, lx, cgb_mode)
        &&& forall|k: int| #[trigger] self.obj_candidate(vram, oam, k, lx, cgb_mode) ==> Ppu::obj_before(oam, j, k, cgb_mode)
    }

    /// The 15-bit colour of column `lx`: the sprite pixel unless the background
    /// has priority over it (or no sprite pixel shows), through the palettes.
    pub open spec fn spec_mix(&self, bg: BgPixel, obj: Option<ObjPixel>, bg_pal: Seq<u8>, obj_pal: Seq<u8>, cgb_mode: bool) -> u16 {
        let bg_pri = bit_of(self.lcdc, 0);
        match obj {
            Some(o) if bg.color == 0 || (if cgb_mode {
                !bg_pri || (!bg.bg_over_obj && !o.bg_over_obj)
            } else {
                !o.bg_over_obj
            }) => {
                let c = if cgb_mode {
                    o.color
                } else {
                    shade(if o.palette == 0 { self.obp0 } else { self.obp1 }, o.color)
                };
                palette_color(obj_pal, o.palette as int, c as int)
            },
            _ => if !cgb_mode && !bg_pri {
                0x7fff
            } else {
                let c = if cgb_mode { bg.color } else { shade(self.bgp, bg.color) };
                palette_color(bg_pal, bg.palette as int, c as int)
            },
        }
    }

    /// The colour of column `lx` of the current line.
    pub open spec fn spec_pixel(&self, vram: Seq<u8>, bg_pal: Seq<u8>, obj_pal: Seq<u8>, oam: Seq<u8>, cgb_mode: bool, lx: int) -> u16 {
        self.spec_mix(
            self.spec_bg_pixel(vram, lx, cgb_mode),
            self.spec_obj_pixel(vram, oam, lx, cgb_mode),
            bg_pal,
            obj_pal,
            cgb_mode,
        )
    }

    pub open spec fn spec_lcd_stat(&self) -> u8 {
        (self.mode.spec_bits() + (if self.lyc_equal { 4int } else { 0 }) + self.stat_sources * 8) as u8
    }
}

/// Fetches the two data bytes of a tile row and returns the colour of one column.
fn tile_pixel(vram: &Vec<u8>, addr: usize, bit: u8) -> (r: u8)
    requires
        addr + 1 < vram@.len(),
        bit < 8,
    ensures
        r == tile_color(vram@[addr as int], vram@[addr + 1], bit as int),
        r < 4,
{
    let len = vram.len();
    assert(addr + 1 < len);
    let low = vram[addr];
    let high = vram[addr + 1];
    let m = pow2(bit);
    let hi: u8 = if (high / m) % 2 == 1 { 2 } else { 0 };
    let lo: u8 = if (low / m) % 2 == 1 { 1 } else { 0 };
    hi + lo
}

/// The 2-bit shade that a classic palette register gives colour index `color`.
pub open spec fn shade(reg: u8, color: u8) -> u8 {
    ((reg as int / (if color == 0 { 1int } else if color == 1 { 4 } else if color == 2 { 16 } else { 64 })) % 4) as u8
}

/// Colour `c` of palette `p` in palette memory, little-endian.
pub open spec fn palette_color(pal: Seq<u8>, p: int, c: int) -> u16 {
    (pal[p * 8 + c * 2] as int + 256 * pal[p * 8 + c * 2 + 1] as int) as u16
}

fn shade_of(reg: u8, color: u8) -> (r: u8)
    ensures
        r == shade(reg, color),
        r < 4,
{
    let d: u8 = if color == 0 { 1 } else if color == 1 { 4 } else if color == 2 { 16 } else { 64 };
    (reg / d) % 4
}

/// 5-bit colour channel to 8 bits.
pub open spec fn rescale(c: int) -> u8 {
    ((c % 32) * 255 / 31) as u8
}

/// Whether the frame buffer holds the 15-bit colour `c` as opaque RGBA at byte `i`.
pub open spec fn rgba_at(frame: Seq<u8>, i: int, c: int) -> bool {
    &&& frame[i] == rescale(c)
    &&& frame[i + 1] == rescale(c / 32)
    &&& frame[i + 2] == rescale(c / 1024)
    &&& frame[i + 3] == 0xff
}

impl Ppu {
    pub fn new() -> (r: Self)
        ensures
            r.wf(),
            r.mode == Mode::OamSearch,
            r.mode_cycles_remaining == 21,
            r.ly == 0 && r.lcdc == 0 && !r.interrupt_line,
    {
        Ppu {
            mode_cycles_remaining: 21,
            bgp: 0,
            lcdc: 0,
            ly: 0,
            lyc: 0,
            obp0: 0,
            obp1: 0,
            scx: 0,
            scy: 0,
            wx: 0,
            wy: 0,
            mode: Mode::OamSearch,
            stat_sources: 0,
            lyc_equal: false,
            interrupt_line: false,
        }
    }

    /// The map position shown at column `lx`.
    fn map_position_of(&self, lx: u8) -> (r: (u8, u8, usize))
        requires
            lx < 160,
        ensures
            r.0 as int == self.map_position(lx as int).0,
            r.1 as int == self.map_position(lx as int).1,
            r.2 as int == self.map_position(lx as int).2,
            r.2 == 0x1800 || r.2 == 0x1c00,
    {
        let window = (self.lcdc / 32) % 2 == 1 && self.ly >= self.wy && lx as u16 + 7 >= self.wx as u16;
        if window {
            (
                (lx as u16 + 7 - self.wx as u16) as u8,
                self.ly - self.wy,
                if (self.lcdc / 64) % 2 == 1 { 0x1c00 } else { 0x1800 },
            )
        } else {
            (
                lx.wrapping_add(self.scx),
                self.ly.wrapping_add(self.scy),
                if (self.lcdc / 8) % 2 == 1 { 0x1c00 } else { 0x1800 },
            )
        }
    }

    /// The background pixel at column `lx` of the current line.
    #[verifier::rlimit(60)]
    pub fn fetch_bg_pixel(&self, lx: u8, vram: &Vec<u8>, cgb_mode: bool) -> (r: BgPixel)
        requires
            vram@.len() == 0x4000,
            lx < 160,
        ensures
            r == self.spec_bg_pixel(vram@, lx as int, cgb_mode),
    {
        let (pixel_x, pixel_y, map_base) = self.map_position_of(lx);
        let map_addr = map_base + (pixel_y / 8) as usize * 32 + (pixel_x / 8) as usize;
        let tile_id = vram[map_addr];
        let attrs = vram[0x2000 + map_addr];
        let data_base: usize = if (self.lcdc / 16) % 2 == 0 && tile_id < 128 { 0x1000 } else { 0 };
        let bank: usize = if cgb_mode && (attrs / 8) % 2 == 1 { 0x2000 } else { 0 };
        let addr = bank + data_base + tile_id as usize * 16 + (pixel_y % 8) as usize * 2;
        let color = tile_pixel(vram, addr, 7 - pixel_x % 8);
        let palette = if cgb_mode { attrs % 8 } else { 0 };
        BgPixel { color, palette, bg_over_obj: attrs >= 128 }
    }

    /// The tile and row of sprite `j` on the current line.
    fn obj_tile_row(&self, j: usize, oam: &Vec<u8>) -> (r: (usize, usize))
        requires
            oam@.len() == OAM_BYTES,
            j < 40,
            on_line(oam@, j as int, self.ly, self.obj_height()),
        ensures
            r.0 == self.obj_tile_id(oam@, j as int),
            r.1 == self.obj_row(oam@, j as int),
            r.0 < 256,
            r.1 < 8,
    {
        let y = oam[4 * j] as usize;
        let tile = oam[4 * j + 2] as usize;
        let attrs = oam[4 * j + 3];
        let target_y = self.ly as usize + 16;
        let y_flip = (attrs / 64) % 2 == 1;
        let tall = (self.lcdc / 4) % 2 == 1;
        let bottom = tall && target_y >= y + 8;
        let tile_id = if tall { (tile / 2) * 2 + if bottom != y_flip { 1 } else { 0 } } else { tile };
        let tile_y = if bottom { y + 8 } else { y };
        let row = target_y - tile_y;
        let row = if y_flip { 7 - row } else { row };
        (tile_id, row)
    }

    /// The colour index of sprite `j` at column `lx`.
    fn obj_color(&self, lx: u8, j: usize, vram: &Vec<u8>, oam: &Vec<u8>, cgb_mode: bool) -> (r: u8)
        requires
            vram@.len() == 0x4000,
            oam@.len() == OAM_BYTES,
            j < 40,
            on_line(oam@, j as int, self.ly, self.obj_height()),
            oam@[4 * j + 1] as int <= lx + 8 < oam@[4 * j + 1] as int + 8,
        ensures
            r == self.spec_obj_color(vram@, oam@, j as int, lx as int, cgb_mode),
    {
        let (tile_id, row) = self.obj_tile_row(j, oam);
        let attrs = oam[4 * j + 3];
        let bank: usize = if cgb_mode && (attrs / 8) % 2 == 1 { 0x2000 } else { 0 };
        let addr = bank + tile_id * 16 + row * 2;
        let column = (lx as usize + 8 - oam[4 * j + 1] as usize) as u8;
        tile_pixel(vram, addr, if (attrs / 32) % 2 == 1 { column } else { 7 - column })
    }

    /// The winning sprite pixel at column `lx`: among the selected sprites that
    /// cover the column with a non-transparent colour, the first by sprite priority.
    #[verifier::rlimit(80)]
    pub fn fetch_obj_pixel(&self, lx: u8, vram: &Vec<u8>, oam: &Vec<u8>, cgb_mode: bool) -> (r: Option<ObjPixel>)
        requires
            vram@.len() == 0x4000,
            oam@.len() == OAM_BYTES,
            self.ly < 144,
        ensures
            r == self.spec_obj_pixel(vram@, oam@, lx as int, cgb_mode),
            !bit_of(self.lcdc, 1) ==> r is None,
    {
        if (self.lcdc / 2) % 2 == 0 {
            return None;
        }
        let best = self.winning_obj(lx, vram, oam, cgb_mode);
        proof {
            match best {
                Some(b) => {
                    let w = choose|w: int| self.obj_winner(vram@, oam@, w, lx as int, cgb_mode);
                    assert(Ppu::obj_before(oam@, w, b as int, cgb_mode));
                    assert(Ppu::obj_before(oam@, b as int, w, cgb_mode));
                    assert(w == b);
                },
                None => {
                    assert forall|w: int| !self.obj_winner(vram@, oam@, w, lx as int, cgb_mode) by {
                        if self.obj_candidate(vram@, oam@, w, lx as int, cgb_mode) {
                            assert(0 <= w < 40);
                        }
                    }
                },
            }
        }
        match best {
            None => None,
            Some(b) => {
                let attrs = oam[4 * b + 3];
                Some(
                    ObjPixel {
                        color: self.obj_color(lx, b, vram, oam, cgb_mode),
                        palette: if cgb_mode { attrs % 8 } else { (attrs / 16) % 2 },
                        bg_over_obj: attrs >= 128,
                    },
                )
            },
        }
    }

    /// Searches the sprites for the winner at column `lx`.
    #[verifier::rlimit(80)]
    fn winning_obj(&self, lx: u8, vram: &Vec<u8>, oam: &Vec<u8>, cgb_mode: bool) -> (r: Option<usize>)
        requires
            vram@.len() == 0x4000,
            oam@.len() == OAM_BYTES,
            self.ly < 144,
            bit_of(self.lcdc, 1),
        ensures
            r is None <==> !exists|j: int| 0 <= j < 40 && self.obj_candidate(vram@, oam@, j, lx as int, cgb_mode),
            r matches Some(b) ==> b < 40 && self.obj_winner(vram@, oam@, b as int, lx as int, cgb_mode),
    {
        let height: usize = if (self.lcdc / 4) % 2 == 1 { 16 } else { 8 };
        let target_y = self.ly as usize + 16;
        let target_x = lx as usize + 8;
        let mut best: Option<usize> = None;
        let mut count: usize = 0;
        let mut j: usize = 0;
        while j < 40
            invariant
                vram@.len() == 0x4000,
                oam@.len() == OAM_BYTES,
                self.ly < 144,
                bit_of(self.lcdc, 1),
                height == self.obj_height(),
                target_y == self.ly + 16,
                target_x == lx + 8,
                j <= 40,
                count <= j,
                count == count_on_line(oam@, j as int, self.ly, height as int),
                best is None <==> !exists|k: int| 0 <= k < j && self.obj_candidate(vram@, oam@, k, lx as int, cgb_mode),
                best matches Some(b) ==> {
                    &&& b < j
                    &&& self.obj_candidate(vram@, oam@, b as int, lx as int, cgb_mode)
                    &&& forall|k: int| 0 <= k < j && self.obj_candidate(vram@, oam@, k, lx as int, cgb_mode)
                        ==> Ppu::obj_before(oam@, b as int, k, cgb_mode)
                },
            decreases 40 - j,
        {
            let y = oam[4 * j] as usize;
            let x = oam[4 * j + 1] as usize;
            let on = y <= target_y && target_y < y + height;
            assert(on == on_line(oam@, j as int, self.ly, height as int));
            let covers = on && count < 10 && x <= target_x && target_x < x + 8;
            let ghost best_before = best;
            if covers {
                let color = self.obj_color(lx, j, vram, oam, cgb_mode);
                assert(self.obj_candidate(vram@, oam@, j as int, lx as int, cgb_mode) == (color != 0));
                if color != 0 {
                    let better = match best {
                        None => true,
                        Some(b) => !cgb_mode && x < oam[4 * b + 1] as usize,
                    };
                    if better {
                        best = Some(j);
                    }
                }
            } else {
                assert(!self.obj_candidate(vram@, oam@, j as int, lx as int, cgb_mode));
            }
            assert(count_on_line(oam@, j as int + 1, self.ly, height as int) == count_on_line(
                oam@,
                j as int,
                self.ly,
                height as int,
            ) + if on { 1int } else { 0 });
            if on {
                count = count + 1;
            }
            j = j + 1;
            proof {
                match best {
                    Some(b) => {
                        assert(0 <= b < j && self.obj_candidate(vram@, oam@, b as int, lx as int, cgb_mode));
                        assert forall|k: int|
                            0 <= k < j && self.obj_candidate(vram@, oam@, k, lx as int, cgb_mode) implies Ppu::obj_before(
                            oam@,
                            b as int,
                            k,
                            cgb_mode,
                        ) by {
                            if k < j - 1 {
                                match best_before {
                                    Some(b0) => {
                                        assert(Ppu::obj_before(oam@, b0 as int, k, cgb_mode));
                                    },
                                    None => {
                                        assert(!(0 <= k < j - 1 && self.obj_candidate(vram@, oam@, k, lx as int, cgb_mode)));
                                    },
                                }
                            }
                        }
                    },
                    None => {
                        assert forall|k: int| 0 <= k < j implies !self.obj_candidate(
                            vram@,
                            oam@,
                            k,
                            lx as int,
                            cgb_mode,
                        ) by {
                            if k < j - 1 {
                                assert(!(0 <= k < j - 1 && self.obj_candidate(vram@, oam@, k, lx as int, cgb_mode)));
                            }
                        }
                    },
                }
            }
        }
        best
    }
}

impl Ppu {
    /// Merges the background and sprite pixels and looks the winner up in its palette.
    pub fn mix_pixels(&self, bg: BgPixel, obj: Option<ObjPixel>, bg_pal: &PaletteRam, obj_pal: &PaletteRam, cgb_mode: bool) -> (r: u16)
        requires
            bg_pal.wf(),
            obj_pal.wf(),
            bg.color < 4,
            bg.palette < 8,
            obj matches Some(o) ==> o.color < 4 && o.palette < 8,
        ensures
            r == self.spec_mix(bg, obj, bg_pal.ram@, obj_pal.ram@, cgb_mode),
    {
        let bg_pri = self.lcdc % 2 == 1;
        match obj {
            Some(o) => {
                let obj_priority = bg.color == 0 || if cgb_mode {
                    !bg_pri || (!bg.bg_over_obj && !o.bg_over_obj)
                } else {
                    !o.bg_over_obj
                };
                if obj_priority {
                    let c = if cgb_mode {
                        o.color
                    } else {
                        shade_of(if o.palette == 0 { self.obp0 } else { self.obp1 }, o.color)
                    };
                    return obj_pal.color(o.palette as usize, c as usize);
                }
            },
            None => {},
        }
        if !cgb_mode && !bg_pri {
            return 0x7fff;
        }
        let c = if cgb_mode { bg.color } else { shade_of(self.bgp, bg.color) };
        bg_pal.color(bg.palette as usize, c as usize)
    }

    /// Renders the current line into the RGBA frame buffer, each 5-bit channel
    /// scaled to 8 bits.
    #[verifier::rlimit(80)]
    pub fn draw_scanline(&self, frame: &mut Vec<u8>, vram: &Vec<u8>, bg_pal: &PaletteRam, obj_pal: &PaletteRam, oam: &Vec<u8>, cgb_mode: bool)
        requires
            old(frame)@.len() == FRAME_BYTES,
            vram@.len() == 0x4000,
            oam@.len() == OAM_BYTES,
            bg_pal.wf(),
            obj_pal.wf(),
            self.ly < 144,
        ensures
            final(frame)@.len() == FRAME_BYTES,
            forall|i: int| 0 <= i < FRAME_BYTES && !(self.ly * 640 <= i < self.ly * 640 + 640) ==> final(frame)@[i] == old(frame)@[i],
            forall|lx: int|
                #![trigger self.spec_pixel(vram@, bg_pal.ram@, obj_pal.ram@, oam@, cgb_mode, lx)]
                0 <= lx < 160 ==> rgba_at(
                    final(frame)@,
                    self.ly * 640 + lx * 4,
                    self.spec_pixel(vram@, bg_pal.ram@, obj_pal.ram@, oam@, cgb_mode, lx) as int,
                ),
    {
        let row = self.ly as usize * 640;
        let mut lx: u8 = 0;
        while lx < 160
            invariant
                frame@.len() == FRAME_BYTES,
                vram@.len() == 0x4000,
                oam@.len() == OAM_BYTES,
                bg_pal.wf(),
                obj_pal.wf(),
                self.ly < 144,
                row == self.ly * 640,
                lx <= 160,
                forall|i: int| 0 <= i < FRAME_BYTES && !(row <= i < row + lx * 4) ==> frame@[i] == old(frame)@[i],
                forall|x: int|
                    #![trigger self.spec_pixel(vram@, bg_pal.ram@, obj_pal.ram@, oam@, cgb_mode, x)]
                    0 <= x < lx ==> rgba_at(
                        frame@,
                        row + x * 4,
                        self.spec_pixel(vram@, bg_pal.ram@, obj_pal.ram@, oam@, cgb_mode, x) as int,
                    ),
            decreases 160 - lx,
        {
            let obj = self.fetch_obj_pixel(lx, vram, oam, cgb_mode);
            let bg = self.fetch_bg_pixel(lx, vram, cgb_mode);
            let color = self.mix_pixels(bg, obj, bg_pal, obj_pal, cgb_mode);
            let i = row + lx as usize * 4;
            frame.set(i, ((color % 32) as u32 * 255 / 31) as u8);
            frame.set(i + 1, ((color / 32 % 32) as u32 * 255 / 31) as u8);
            frame.set(i + 2, ((color / 1024 % 32) as u32 * 255 / 31) as u8);
            frame.set(i + 3, 0xff);
            lx = lx + 1;
        }
    }

    fn switch_mode(&mut self, mode: Mode)
        ensures
            *final(self) == (Ppu { mode, mode_cycles_remaining: mode.spec_cycles(), ..*old(self) }),
    {
        self.mode_cycles_remaining = mode.cycles();
        self.mode = mode;
    }

    /// The STAT register: mode, the LY == LYC bit and the interrupt sources;
    /// zero while the display is off.
    pub fn stat(&self) -> (r: u8)
        requires
            self.wf(),
        ensures
            r == if self.spec_lcd_enabled() { self.spec_lcd_stat() } else { 0 },
    {
        if self.lcd_enabled() {
            self.mode.bits() + (if self.lyc_equal { 4 } else { 0 }) + self.stat_sources * 8
        } else {
            0
        }
    }

    /// A STAT write sets only the four interrupt-source bits (3-6).
    pub fn set_stat(&mut self, stat: u8)
        ensures
            *final(self) == (Ppu { stat_sources: (stat / 8) % 16, ..*old(self) }),
    {
        self.stat_sources = (stat / 8) % 16;
    }

    pub fn ly(&self) -> (r: u8)
        ensures
            r == self.ly,
    {
        self.ly
    }

    pub fn lcdc(&self) -> (r: u8)
        ensures
            r == self.lcdc,
    {
        self.lcdc
    }

    pub fn lcd_enabled(&self) -> (r: bool)
        ensures
            r == self.spec_lcd_enabled(),
    {
        self.lcdc >= 128
    }

    /// An LCDC write; turning the display off resets the line and the mode and
    /// drops the STAT line.
    pub fn set_lcdc(&mut self, lcdc: u8)
        requires
            old(self).wf(),
        ensures
            final(self).wf(),
            lcdc >= 128 ==> *final(self) == (Ppu { lcdc, ..*old(self) }),
            lcdc < 128 ==> *final(self) == (Ppu {
                lcdc,
                ly: 0,
                mode: Mode::OamSearch,
                mode_cycles_remaining: 21,
                interrupt_line: false,
                ..*old(self)
            }),
    {
        self.lcdc = lcdc;
        if lcdc < 128 {
            self.ly = 0;
            self.switch_mode(Mode::OamSearch);
            self.interrupt_line = false;
        }
    }

    /// Advances the video controller by one machine cycle. At the end of a
    /// mode it moves to the next one; leaving Transfer renders the line, and
    /// entering VBlank requests the VBlank interrupt. Then the STAT condition is
    /// recomputed and the STAT interrupt is requested only on its rising edge.
    #[verifier::rlimit(80)]
    pub fn execute(
        &mut self,
        frame: &mut Vec<u8>,
        vram: &Vec<u8>,
        bg_pal: &PaletteRam,
        obj_pal: &PaletteRam,
        oam: &Vec<u8>,
        cgb_mode: bool,
        irq: &mut InterruptState,
    )
        requires
            old(self).wf(),
            old(frame)@.len() == FRAME_BYTES,
            vram@.len() == 0x4000,
            oam@.len() == OAM_BYTES,
            bg_pal.wf(),
            obj_pal.wf(),
        ensures
            final(self).wf(),
            final(frame)@.len() == FRAME_BYTES,
            final(irq).enable == old(irq).enable,
            !old(self).spec_lcd_enabled() ==> *final(self) == *old(self) && final(frame)@ == old(frame)@
                && *final(irq) == *old(irq),
            old(self).spec_lcd_enabled() ==> {
                let (mode, cycles, ly) = old(self).next_position();
                let vblank = old(self).mode == Mode::HBlank && mode == Mode::VBlank;
                let stat = final(self).stat_line() && !old(self).interrupt_line;
                let drawn = old(self).mode_cycles_remaining <= 1 && old(self).mode == Mode::Transfer;
                &&& *final(self) == (Ppu {
                    mode,
                    mode_cycles_remaining: cycles,
                    ly,
                    lyc_equal: ly == old(self).lyc,
                    interrupt_line: final(self).stat_line(),
                    ..*old(self)
                })
                &&& final(irq).flags == old(irq).flags | (if vblank { 1u8 } else { 0u8 }) | (if stat {
                    2u8
                } else {
                    0u8
                })
                &&& !drawn ==> final(frame)@ == old(frame)@
                &&& drawn ==> forall|i: int|
                    0 <= i < FRAME_BYTES && !(old(self).ly * 640 <= i < old(self).ly * 640 + 640)
                        ==> final(frame)@[i] == old(frame)@[i]
                &&& drawn ==> forall|lx: int|
                    #![trigger old(self).spec_pixel(vram@, bg_pal.ram@, obj_pal.ram@, oam@, cgb_mode, lx)]
                    0 <= lx < 160 ==> rgba_at(
                        final(frame)@,
                        old(self).ly * 640 + lx * 4,
                        old(self).spec_pixel(vram@, bg_pal.ram@, obj_pal.ram@, oam@, cgb_mode, lx) as int,
                    )
            },
    {
        if !self.lcd_enabled() {
            return;
        }
        let mut vblank = false;
        if self.mode_cycles_remaining > 1 {
            self.mode_cycles_remaining = self.mode_cycles_remaining - 1;
        } else {
            self.advance_mode(frame, vram, bg_pal, obj_pal, oam, cgb_mode, &mut vblank);
        }
        self.update_stat(vblank, irq);
    }

    /// The end of a mode: moves to the next one, rendering the line when
    /// Transfer ends and noting the start of VBlank.
    #[verifier::rlimit(80)]
    fn advance_mode(
        &mut self,
        frame: &mut Vec<u8>,
        vram: &Vec<u8>,
        bg_pal: &PaletteRam,
        obj_pal: &PaletteRam,
        oam: &Vec<u8>,
        cgb_mode: bool,
        vblank: &mut bool,
    )
        requires
            old(self).wf(),
            old(self).mode_cycles_remaining <= 1,
            old(frame)@.len() == FRAME_BYTES,
            vram@.len() == 0x4000,
            oam@.len() == OAM_BYTES,
            bg_pal.wf(),
            obj_pal.wf(),
            !*old(vblank),
        ensures
            final(frame)@.len() == FRAME_BYTES,
            ({
                let (mode, cycles, ly) = old(self).next_position();
                &&& *final(self) == (Ppu { mode, mode_cycles_remaining: cycles, ly, ..*old(self) })
                &&& *final(vblank) == (old(self).mode == Mode::HBlank && mode == Mode::VBlank)
            }),
            old(self).mode != Mode::Transfer ==> final(frame)@ == old(frame)@,
            old(self).mode == Mode::Transfer ==> forall|i: int|
                0 <= i < FRAME_BYTES && !(old(self).ly * 640 <= i < old(self).ly * 640 + 640) ==> final(frame)@[i]
                    == old(frame)@[i],
            old(self).mode == Mode::Transfer ==> forall|lx: int|
                #![trigger old(self).spec_pixel(vram@, bg_pal.ram@, obj_pal.ram@, oam@, cgb_mode, lx)]
                0 <= lx < 160 ==> rgba_at(
                    final(frame)@,
                    old(self).ly * 640 + lx * 4,
                    old(self).spec_pixel(vram@, bg_pal.ram@, obj_pal.ram@, oam@, cgb_mode, lx) as int,
                ),
    {
        match self.mode {
            Mode::OamSearch => self.switch_mode(Mode::Transfer),
            Mode::Transfer => {
                self.draw_scanline(frame, vram, bg_pal, obj_pal, oam, cgb_mode);
                self.switch_mode(Mode::HBlank);
            },
            Mode::HBlank => {
                self.ly = self.ly + 1;
                if self.ly == 144 {
                    *vblank = true;
                    self.switch_mode(Mode::VBlank);
                } else {
                    self.switch_mode(Mode::OamSearch);
                }
            },
            Mode::VBlank => {
                self.ly = self.ly + 1;
                if self.ly == FRAME_LINES {
                    self.ly = 0;
                    self.switch_mode(Mode::OamSearch);
                } else {
                    self.mode_cycles_remaining = 114;
                }
            },
        }
    }

    /// Recomputes the STAT condition and requests the STAT interrupt on its
    /// rising edge; also requests VBlank when `vblank`.
    fn update_stat(&mut self, vblank: bool, irq: &mut InterruptState)
        ensures
            *final(self) == (Ppu {
                lyc_equal: old(self).ly == old(self).lyc,
                interrupt_line: (Ppu { lyc_equal: old(self).ly == old(self).lyc, ..*old(self) }).stat_line(),
                ..*old(self)
            }),
            final(irq).enable == old(irq).enable,
            final(irq).flags == old(irq).flags | (if vblank { 1u8 } else { 0u8 }) | (if final(self).stat_line()
                && !old(self).interrupt_line {
                2u8
            } else {
                0u8
            }),
    {
        let lyc_equal = self.ly == self.lyc;
        self.lyc_equal = lyc_equal;
        let sources = self.stat_sources;
        let mode_source = match self.mode {
            Mode::Transfer => false,
            Mode::HBlank => sources % 2 == 1,
            Mode::VBlank => (sources / 2) % 2 == 1,
            Mode::OamSearch => (sources / 4) % 2 == 1,
        };
        let line = (lyc_equal && (sources / 8) % 2 == 1) || mode_source;
        let stat = line && !self.interrupt_line;
        self.interrupt_line = line;
        let flags = irq.flags;
        let vbit: u8 = if vblank { 1 } else { 0 };
        let sbit: u8 = if stat { 2 } else { 0 };
        irq.flags = flags | vbit | sbit;
    }
}

/// STAT edge: when a step of the video controller requests the STAT
/// interrupt, the condition was low before the step and is latched high after
/// it, so a condition that stays asserted requests it only once.
pub proof fn lemma_stat_rising_edge(before: Ppu, after: Ppu)
    requires
        before.wf(),
        before.spec_lcd_enabled(),
        after == (Ppu {
            mode: before.next_position().0,
            mode_cycles_remaining: before.next_position().1,
            ly: before.next_position().2,
            lyc_equal: before.next_position().2 == before.lyc,
            interrupt_line: after.stat_line(),
            ..before
        }),
    ensures
        (after.stat_line() && !before.interrupt_line) ==> after.interrupt_line && !before.interrupt_line,
        before.interrupt_line && after.stat_line() ==> !(after.stat_line() && !before.interrupt_line),
        after.interrupt_line == after.stat_line(),
{
}

/// Scrolling wraps: outside the window, the background pixel at a screen position depends only on
/// the background-map position it shows, `(lx + scx) mod 256` and
/// `(ly + scy) mod 256`, so every scroll value shows the same 256x256 map,
/// shifted and wrapped around.
pub proof fn lemma_scroll_wraps(p: Ppu, q: Ppu, vram: Seq<u8>, lx: int, mx: int, cgb_mode: bool)
    requires
        p.lcdc == q.lcdc,
        !p.in_window(lx),
        !q.in_window(mx),
        (lx + p.scx as int) % 256 == (mx + q.scx as int) % 256,
        (p.ly as int + p.scy as int) % 256 == (q.ly as int + q.scy as int) % 256,
    ensures
        p.spec_bg_pixel(vram, lx, cgb_mode) == q.spec_bg_pixel(vram, mx, cgb_mode),
{
}

} // verus!
