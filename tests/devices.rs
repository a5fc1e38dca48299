use iron_boy::dma::{Dma, DmaType};
use iron_boy::interrupt::{Interrupt, InterruptState};
use iron_boy::joypad::{Button, ButtonState, Joypad};
use iron_boy::memory::{PaletteRam, VideoRam, WorkRam};

#[test]
fn interrupt_priority_is_lowest_bit() {
    let mut state = InterruptState::new();
    state.enable = 0xff;
    state.request(Interrupt::Joypad);
    state.request(Interrupt::Stat);
    assert!(state.pending());
    assert_eq!(state.pop(), Some(1));
    assert_eq!(state.pop(), Some(4));
    assert_eq!(state.pop(), None);
    assert!(!state.pending());
}

#[test]
fn disabled_interrupt_is_not_pending() {
    let mut state = InterruptState::new();
    state.enable = 0x01;
    state.request(Interrupt::Timer);
    assert!(!state.pending());
    assert_eq!(state.pop(), None);
    assert_eq!(state.flags, 0x04);
}

#[test]
fn joypad_columns() {
    let mut pad = Joypad::new();
    let mut bus = InterruptState::new();
    pad.handle(Button::Start, ButtonState::Pressed, &mut bus);
    assert_eq!(bus.flags, 0x10);
    pad.handle(Button::Up, ButtonState::Pressed, &mut bus);
    pad.set_p1(0x20);
    assert_eq!(pad.p1(), 0xe0 | 0x0b);
    pad.set_p1(0x10);
    assert_eq!(pad.p1(), 0xd0 | 0x07);
    pad.set_p1(0x30);
    assert_eq!(pad.p1(), 0xff);
    pad.handle(Button::Up, ButtonState::Released, &mut bus);
    pad.set_p1(0x20);
    assert_eq!(pad.p1(), 0xef);
}

#[test]
fn palette_auto_increment() {
    let mut pal = PaletteRam::new();
    pal.select = 0x80 | 0x3f;
    pal.write_data(0x12);
    assert_eq!(pal.select, 0x80);
    pal.select = 0x3f;
    pal.read_data();
    assert_eq!(pal.read_data(), 0x12);
    pal.write_data(0x34);
    assert_eq!(pal.select, 0x3f);
}

#[test]
fn work_ram_banks() {
    let mut wram = WorkRam::new();
    wram.svbk = 2;
    wram.write_high(0xd000, 7, true);
    assert_eq!(wram.read_high(0xd000, true), 7);
    assert_eq!(wram.read_high(0xd000, false), 0);
    wram.svbk = 6;
    assert_eq!(wram.read_high(0xd000, true), 7);
    wram.write_low(0xe001, 9);
    assert_eq!(wram.read_low(0xc001), 9);
}

#[test]
fn video_ram_banks() {
    let mut vram = VideoRam::new();
    vram.vbk = 1;
    vram.write(0x8000, 5, true);
    assert_eq!(vram.read(0x8000, true), 5);
    assert_eq!(vram.read(0x8000, false), 0);
    vram.write(0x8000, 6, false);
    assert_eq!(vram.bytes()[0], 6);
    assert_eq!(vram.bytes()[0x2000], 5);
}

#[test]
fn dma_general_length() {
    let mut dma = Dma::new();
    assert!(dma.set_hdma5(0x01).is_ok());
    let state = dma.state.unwrap();
    assert_eq!(state.ty, DmaType::General);
    assert_eq!(state.len, 32);
    assert!(dma.set_hdma5(0x80).is_err());
}

#[test]
fn dma_oam_request() {
    let mut dma = Dma::new();
    dma.set_dma(0xc1);
    let state = dma.state.unwrap();
    assert_eq!(state.ty, DmaType::Oam);
    assert_eq!(state.oam_src, 0xc100);
    assert_eq!(state.len, 160);
    assert!(!dma.cpu_paused());
}
