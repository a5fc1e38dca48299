use iron_boy::cart::Cart;
use iron_boy::cpu::CpuBus;
use iron_boy::joypad::{Button, ButtonState};
use iron_boy::ppu::FRAME_BYTES;
use iron_boy::system::{CgbSystem, BOOT_ROM_BYTES, CYCLES_PER_FRAME};

fn boot_rom() -> Vec<u8> {
    // LD A,0x11; LDH (0x4c),A (KEY0, colour); LDH (0x50),A (unmap); JP 0x0100
    let mut rom = vec![0u8; BOOT_ROM_BYTES];
    rom[..9].copy_from_slice(&[0x3e, 0x11, 0xe0, 0x4c, 0xe0, 0x50, 0xc3, 0x00, 0x01]);
    rom
}

fn cart(program: &[u8]) -> Cart {
    let mut rom = vec![0u8; 0x8000];
    rom[0x100..0x100 + program.len()].copy_from_slice(program);
    Cart::from_rom(rom, 0).ok().unwrap()
}

#[test]
fn runs_a_program_past_the_boot_rom() {
    // LD A,0x42; LD (0xc000),A; JR -2
    let mut system = CgbSystem::new(cart(&[0x3e, 0x42, 0xea, 0x00, 0xc0, 0x18, 0xfe]), boot_rom());
    let mut frame = vec![0u8; FRAME_BYTES];
    let mut audio = Vec::new();
    let cycles = system.execute(&mut frame, &mut audio, 0).unwrap();
    assert_eq!(cycles, CYCLES_PER_FRAME);
    assert_eq!(audio.len(), 2 * CYCLES_PER_FRAME);
    assert!(audio.iter().all(|pair| *pair == [0, 0]));
    assert!(!system.bus.boot_rom_mapped);
    assert!(system.bus.cgb_mode);
    assert_eq!(system.bus.read_8(0xc000), 0x42);
    // Echo RAM mirrors the low work RAM bank.
    assert_eq!(system.bus.read_8(0xe000), 0x42);
    // The display is off, so the frame is white.
    assert!(frame.iter().all(|b| *b == 0xff));
}

#[test]
fn prohibited_area_reads_pattern() {
    let system = CgbSystem::new(cart(&[]), boot_rom());
    assert_eq!(system.bus.read_8(0xfea3), 0x33);
    assert_eq!(system.bus.read_8(0xfeff), 0xff);
    assert_eq!(system.bus.read_8(0xfef0), 0x00);
}

#[test]
fn boot_rom_overlay_is_one_way() {
    let mut system = CgbSystem::new(cart(&[0x5a]), boot_rom());
    assert_eq!(system.bus.read_8(0x0000), 0x3e);
    assert_eq!(system.bus.read_8(0x0100), 0x5a);
    system.bus.write_8(0xff50, 1);
    assert!(!system.bus.boot_rom_mapped);
    assert_eq!(system.bus.read_8(0x0000), 0x00);
    system.bus.boot_rom_mapped = false;
    system.bus.write_8(0xff50, 0);
    assert!(!system.bus.boot_rom_mapped);
}

#[test]
fn joypad_press_raises_interrupt() {
    let mut system = CgbSystem::new(cart(&[]), boot_rom());
    system.handle_joypad(Button::A, ButtonState::Pressed);
    assert_eq!(system.bus.interrupt.flags & 0x10, 0x10);
    system.bus.write_8(0xff00, 0x10);
    assert_eq!(system.bus.read_8(0xff00) & 0x0f, 0x0e);
}

#[test]
fn oam_dma_copies_sprite_memory() {
    let mut system = CgbSystem::new(cart(&[]), boot_rom());
    for i in 0..160u16 {
        system.bus.write_8(0xc100 + i, i as u8 ^ 0x5a);
    }
    system.bus.write_8(0xff46, 0xc1);
    let mut dma = system.bus.dma;
    for _ in 0..160 {
        dma.execute(&mut system.bus);
    }
    system.bus.dma = dma;
    assert!(system.bus.dma.state.is_none());
    for i in 0..160u16 {
        assert_eq!(system.bus.read_8(0xfe00 + i), i as u8 ^ 0x5a);
    }
}

#[test]
fn general_dma_stalls_cpu() {
    let mut system = CgbSystem::new(cart(&[]), boot_rom());
    system.bus.write_8(0xc000, 0xab);
    system.bus.write_8(0xff51, 0xc0);
    system.bus.write_8(0xff52, 0x00);
    system.bus.write_8(0xff53, 0x00);
    system.bus.write_8(0xff54, 0x00);
    system.bus.write_8(0xff55, 0x00);
    let mut dma = system.bus.dma;
    dma.execute(&mut system.bus);
    assert!(dma.cpu_paused());
    for _ in 0..7 {
        dma.execute(&mut system.bus);
    }
    assert!(!dma.cpu_paused());
    system.bus.dma = dma;
    assert_eq!(system.bus.read_8(0x8000), 0xab);
}

#[test]
fn sound_registers_through_the_bus() {
    let mut system = CgbSystem::new(cart(&[]), boot_rom());
    system.bus.write_8(0xff26, 0x80);
    assert_eq!(system.bus.read_8(0xff26), 0x80);
    system.bus.write_8(0xff11, 0xbf);
    assert_eq!(system.bus.read_8(0xff11), 0x80);
    system.bus.write_8(0xff24, 0x77);
    assert_eq!(system.bus.read_8(0xff24), 0x77);
    system.bus.write_8(0xff30, 0x12);
    assert_eq!(system.bus.read_8(0xff30), 0x12);
}

#[test]
fn illegal_opcode_stops_the_frame() {
    // JP 0x0100 after the boot ROM lands on an undefined opcode.
    let mut system = CgbSystem::new(cart(&[0xd3]), boot_rom());
    let mut frame = vec![0u8; FRAME_BYTES];
    let mut audio = Vec::new();
    assert!(system.execute(&mut frame, &mut audio, 0).is_err());
    assert_eq!(system.cpu.pc, 0x0100);
    assert_eq!(system.bus.read_8(system.cpu.pc), 0xd3);
}
