use iron_boy::interrupt::InterruptState;
use iron_boy::memory::PaletteRam;
use iron_boy::ppu::{Ppu, FRAME_BYTES, OAM_BYTES};

const DOTS_PER_FRAME: usize = 70224;

struct Context {
    ppu: Ppu,
    vram: Vec<u8>,
    bg_palette: PaletteRam,
    obj_palette: PaletteRam,
    oam: Vec<u8>,
    irq: InterruptState,
    frame_buff: Vec<u8>,
}

impl Context {
    fn new(vram_init: impl FnOnce(&mut Vec<u8>)) -> Self {
        let mut vram = vec![0u8; 0x4000];
        vram_init(&mut vram);
        let mut bg_palette = PaletteRam::new();
        for (i, color) in [0xffffu16, 0x1f << 10, 0x1f << 5, 0x1f].iter().enumerate() {
            bg_palette.ram[2 * i] = (color & 0xff) as u8;
            bg_palette.ram[2 * i + 1] = (color >> 8) as u8;
        }
        let mut ppu = Ppu::new();
        ppu.set_lcdc(0x80 | 0x10);
        Self {
            ppu,
            vram,
            bg_palette,
            obj_palette: PaletteRam::new(),
            oam: vec![0u8; OAM_BYTES],
            irq: InterruptState::new(),
            frame_buff: vec![0u8; FRAME_BYTES],
        }
    }

    fn step(&mut self) {
        self.ppu.execute(
            &mut self.frame_buff,
            &self.vram,
            &self.bg_palette,
            &self.obj_palette,
            &self.oam,
            true,
            &mut self.irq,
        );
    }

    fn draw_frame(&mut self) {
        for _ in 0..DOTS_PER_FRAME / 4 {
            self.step();
        }
    }

    fn assert_frame(&self, mut pixel_func: impl FnMut(u8, u8) -> [u8; 3]) {
        for y in 0..144usize {
            for x in 0..160usize {
                let [r, g, b] = pixel_func(x as u8, y as u8);
                let i = (y * 160 + x) * 4;
                assert_eq!(&self.frame_buff[i..i + 4], &[r, g, b, 0xff], "pos: ({x}, {y})");
            }
        }
    }
}

fn checkerboard_vram_init(vram: &mut Vec<u8>) {
    vram[0..16].copy_from_slice(&[0xff; 16]);
    vram[16..32].copy_from_slice(&[0x00; 16]);
    for y in 0..32 {
        for x in 0..32 {
            let addr = 0x1800 + 32 * y + x;
            vram[addr] = if x & 0x1 == y & 0x1 { 0x00 } else { 0x01 };
            vram[0x2000 + addr] = 0x00;
        }
    }
}

#[test]
fn scroll_x() {
    let mut ctx = Context::new(checkerboard_vram_init);
    for scx in 0..=255 {
        ctx.ppu.scx = scx;
        ctx.draw_frame();
        ctx.assert_frame(|x, y| {
            let tile_x = x.wrapping_add(scx) / 8;
            let tile_y = y / 8;
            if tile_x & 0x1 == tile_y & 0x1 {
                [0xff, 0x00, 0x00]
            } else {
                [0xff, 0xff, 0xff]
            }
        });
    }
}

#[test]
fn scroll_y() {
    let mut ctx = Context::new(checkerboard_vram_init);
    for scy in 0..=255 {
        ctx.ppu.scy = scy;
        ctx.draw_frame();
        ctx.assert_frame(|x, y| {
            let tile_x = x / 8;
            let tile_y = y.wrapping_add(scy) / 8;
            if tile_x & 0x1 == tile_y & 0x1 {
                [0xff, 0x00, 0x00]
            } else {
                [0xff, 0xff, 0xff]
            }
        });
    }
}

#[test]
fn vblank_requested_once_per_frame() {
    let mut ctx = Context::new(checkerboard_vram_init);
    let mut count = 0;
    for _ in 0..3 * DOTS_PER_FRAME / 4 {
        ctx.step();
        if ctx.irq.flags & 0x1 != 0 {
            count += 1;
            ctx.irq.flags = 0;
        }
    }
    assert_eq!(count, 3);
}

#[test]
fn stat_fires_once_per_rising_edge() {
    let mut ctx = Context::new(checkerboard_vram_init);
    // LY == LYC source, with LYC = 5: one request per frame even though the
    // condition holds for a whole line.
    ctx.ppu.lyc = 5;
    ctx.ppu.set_stat(0x40);
    let mut requests = 0;
    for _ in 0..2 * DOTS_PER_FRAME / 4 {
        ctx.step();
        if ctx.irq.flags & 0x2 != 0 {
            requests += 1;
            assert_eq!(ctx.ppu.ly(), 5);
            ctx.irq.flags = 0;
        }
    }
    assert_eq!(requests, 2);
    // HBlank and OAM sources together: OAM search follows HBlank directly on
    // visible lines, so the line stays high across that change and fires once
    // per visible line for HBlank, plus once at the start of each frame.
    let mut ctx = Context::new(checkerboard_vram_init);
    ctx.ppu.set_stat(0x08);
    let mut requests = 0;
    for _ in 0..DOTS_PER_FRAME / 4 {
        ctx.step();
        if ctx.irq.flags & 0x2 != 0 {
            requests += 1;
            ctx.irq.flags = 0;
        }
    }
    assert_eq!(requests, 144);
}

#[test]
fn display_off_resets_line() {
    let mut ctx = Context::new(checkerboard_vram_init);
    for _ in 0..1000 {
        ctx.step();
    }
    assert!(ctx.ppu.ly() > 0);
    ctx.ppu.set_lcdc(0x10);
    assert_eq!(ctx.ppu.ly(), 0);
    assert_eq!(ctx.ppu.stat(), 0);
    for _ in 0..1000 {
        ctx.step();
    }
    assert_eq!(ctx.ppu.ly(), 0);
}

#[test]
fn sprite_over_background() {
    let mut ctx = Context::new(checkerboard_vram_init);
    // Sprite 0 at screen (0, 0) using tile 0 (all colour 3), palette 0.
    ctx.oam[0] = 16;
    ctx.oam[1] = 8;
    ctx.oam[2] = 0;
    ctx.oam[3] = 0;
    for (i, color) in [0u16, 0, 0, 0x1f << 5].iter().enumerate() {
        ctx.obj_palette.ram[2 * i] = (color & 0xff) as u8;
        ctx.obj_palette.ram[2 * i + 1] = (color >> 8) as u8;
    }
    ctx.ppu.set_lcdc(0x80 | 0x10 | 0x02);
    ctx.draw_frame();
    let px = |x: usize, y: usize| {
        let i = (y * 160 + x) * 4;
        [ctx.frame_buff[i], ctx.frame_buff[i + 1], ctx.frame_buff[i + 2]]
    };
    assert_eq!(px(0, 0), [0x00, 0xff, 0x00]);
    assert_eq!(px(7, 7), [0x00, 0xff, 0x00]);
    assert_eq!(px(8, 0), [0xff, 0xff, 0xff]);
}

#[test]
fn window_covers_background() {
    let mut ctx = Context::new(|vram| {
        checkerboard_vram_init(vram);
        for addr in 0x1c00..0x2000 {
            vram[addr] = 0x01;
        }
    });
    ctx.ppu.set_lcdc(0x80 | 0x10 | 0x20 | 0x40);
    ctx.ppu.wx = 87;
    ctx.ppu.wy = 16;
    ctx.draw_frame();
    ctx.assert_frame(|x, y| {
        if x >= 80 && y >= 16 {
            return [0xff, 0xff, 0xff];
        }
        if (x / 8) & 0x1 == (y / 8) & 0x1 {
            [0xff, 0x00, 0x00]
        } else {
            [0xff, 0xff, 0xff]
        }
    });
}

#[test]
fn stat_condition_checked_every_cycle() {
    let mut ctx = Context::new(checkerboard_vram_init);
    for _ in 0..5 {
        ctx.step();
    }
    assert_eq!(ctx.ppu.ly(), 0);
    assert_eq!(ctx.irq.flags & 0x2, 0);
    // Raising the condition mid-mode is seen on the next cycle.
    ctx.ppu.set_stat(0x40);
    ctx.step();
    assert_eq!(ctx.irq.flags & 0x2, 0x2);
    ctx.irq.flags = 0;
    ctx.step();
    assert_eq!(ctx.irq.flags & 0x2, 0);
}
