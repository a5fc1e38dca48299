use iron_boy::cart::mbc::Mbc1;
use iron_boy::cart::{Cart, MbcSave, RomParseError};

fn image(len: usize, cart_type: u8, rom_code: u8, ram_code: u8) -> Vec<u8> {
    let mut rom = vec![0u8; len];
    rom[0x147] = cart_type;
    rom[0x148] = rom_code;
    rom[0x149] = ram_code;
    rom
}

#[test]
fn oversized_image_is_rejected() {
    let rom = image(0x8001, 0x00, 0x00, 0x00);
    assert!(matches!(Cart::from_rom(rom, 0), Err(RomParseError::LargeRom)));
}

#[test]
fn undersized_image_is_zero_padded() {
    let mut rom = image(0x4000, 0x00, 0x01, 0x00);
    rom[0x3fff] = 0xab;
    let cart = Cart::from_rom(rom, 0).ok().unwrap();
    assert_eq!(cart.mem.rom.len(), 0x10000);
    assert_eq!(cart.read_low(0x3fff), 0xab);
    assert_eq!(cart.read_low(0x4000), 0);
    assert_eq!(cart.read_low(0x7fff), 0);
}

#[test]
fn exact_size_image_is_accepted() {
    let rom = image(0x8000, 0x00, 0x00, 0x00);
    assert!(Cart::from_rom(rom, 0).is_ok());
}

#[test]
fn unknown_header_codes() {
    assert!(matches!(
        Cart::from_rom(image(0x8000, 0x00, 0x09, 0x00), 0),
        Err(RomParseError::UnknownRomSize(0x09))
    ));
    assert!(matches!(
        Cart::from_rom(image(0x8000, 0x00, 0x00, 0x01), 0),
        Err(RomParseError::UnknownRamSize(0x01))
    ));
    assert!(matches!(
        Cart::from_rom(image(0x8000, 0x04, 0x00, 0x00), 0),
        Err(RomParseError::UnknownCartType(0x04))
    ));
}

#[test]
fn save_absent_without_battery() {
    for cart_type in [0x00u8, 0x01, 0x02, 0x05, 0x11, 0x12] {
        let cart = Cart::from_rom(image(0x8000, cart_type, 0x00, 0x02), 0).ok().unwrap();
        assert!(!cart.battery_backed());
        assert!(cart.save().is_none());
    }
}

#[test]
fn save_present_with_battery() {
    for cart_type in [0x03u8, 0x06, 0x09, 0x0f, 0x10, 0x13] {
        let cart = Cart::from_rom(image(0x8000, cart_type, 0x00, 0x02), 0).ok().unwrap();
        assert!(cart.battery_backed());
        assert!(cart.save().is_some());
    }
}

#[test]
fn ram_round_trip_through_save() {
    let mut cart = Cart::from_rom(image(0x8000, 0x03, 0x00, 0x02), 0).ok().unwrap();
    cart.write_low(0x0000, 0x0a, 0);
    cart.write_high(0xa123, 0x5c, 0);
    assert_eq!(cart.read_high(0xa123), 0x5c);
    let save = cart.save().unwrap();
    assert!(matches!(save.mbc, MbcSave::NoClock));
    let mut fresh = Cart::from_rom(image(0x8000, 0x03, 0x00, 0x02), 0).ok().unwrap();
    fresh.load_from_save(save);
    fresh.write_low(0x0000, 0x0a, 0);
    assert_eq!(fresh.read_high(0xa123), 0x5c);
    assert_eq!(fresh.mem.ram.raw(), cart.mem.ram.raw());
}

#[test]
fn clock_round_trip_through_save() {
    let start = 1_000_000u64;
    let mut cart = Cart::from_rom(image(0x8000, 0x10, 0x00, 0x03), start).ok().unwrap();
    // Let 90 seconds pass, then latch and read the seconds and minutes.
    let later = start + 90_000;
    cart.write_low(0x0000, 0x0a, later);
    cart.write_low(0x6000, 0x00, later);
    cart.write_low(0x6000, 0x01, later);
    cart.write_low(0x4000, 0x08, later);
    assert_eq!(cart.read_high(0xa000), 30);
    cart.write_low(0x4000, 0x09, later);
    assert_eq!(cart.read_high(0xa000), 1);
    let save = cart.save().unwrap();
    let mut fresh = Cart::from_rom(image(0x8000, 0x10, 0x00, 0x03), later).ok().unwrap();
    fresh.load_from_save(save);
    // Another 30 seconds later the restored clock reads two minutes.
    let then = later + 30_000;
    fresh.write_low(0x0000, 0x0a, then);
    fresh.write_low(0x6000, 0x00, then);
    fresh.write_low(0x6000, 0x01, then);
    fresh.write_low(0x4000, 0x09, then);
    assert_eq!(fresh.read_high(0xa000), 2);
    fresh.write_low(0x4000, 0x08, then);
    assert_eq!(fresh.read_high(0xa000), 0);
}

#[test]
fn mbc1_bank_zero_aliases_bank_one() {
    let mut rom = image(0x10000, 0x01, 0x01, 0x00);
    rom[0x4000] = 0x11;
    rom[0x8000] = 0x22;
    let mut cart = Cart::from_rom(rom, 0).ok().unwrap();
    cart.write_low(0x2000, 0x00, 0);
    assert_eq!(cart.read_low(0x4000), 0x11);
    cart.write_low(0x2000, 0x02, 0);
    assert_eq!(cart.read_low(0x4000), 0x22);
    cart.write_low(0x2000, 0x01, 0);
    assert_eq!(cart.read_low(0x4000), 0x11);
}

#[test]
fn mbc1_offsets() {
    let mut mbc = Mbc1::new();
    mbc.write_low(0x2000, 0x05);
    assert_eq!(mbc.rom_offset(0x4123), 5 * 0x4000 + 0x123);
    assert_eq!(mbc.rom_offset(0x0123), 0x123);
    mbc.write_low(0x4000, 0x01);
    mbc.write_low(0x6000, 0x01);
    assert_eq!(mbc.rom_offset(0x0123), 0x80000 + 0x123);
    assert_eq!(mbc.ram_offset(0xa010), 0x2000 + 0x10);
}

#[test]
fn disabled_ram_reads_ff() {
    let cart = Cart::from_rom(image(0x8000, 0x03, 0x00, 0x02), 0).ok().unwrap();
    assert_eq!(cart.read_high(0xa000), 0xff);
}
