use rgbl::cartridge::load_cartridge;
use rgbl::cartridge::CartridgeType;
use rgbl::EmuError;

/// A ROM image of `banks` 16 KiB banks; each bank's first byte is its
/// own index, so bank mapping is visible through reads.
fn banked_rom(cart_type: u8, ram_code: u8, banks: usize) -> Vec<u8> {
    let mut rom = vec![0u8; banks * 0x4000];
    rom[0x0147] = cart_type;
    rom[0x0149] = ram_code;
    for b in 0..banks {
        rom[b * 0x4000] = b as u8;
    }
    rom
}

fn read(cart: &CartridgeType, addr: u16) -> u8 {
    cart.read(addr)
}

#[test]
fn unsupported_cart_type_is_fatal() {
    let mut rom = vec![0u8; 0x8000];
    rom[0x0147] = 0x42;
    let r = load_cartridge(&rom);
    assert!(matches!(r, Err(EmuError::UnsupportedCartType(0x42))));
}

#[test]
fn no_mbc_reads_rom_and_open_bus() {
    let mut rom = vec![0u8; 0x8000];
    rom[0x1234] = 0x99;
    let cart = load_cartridge(&rom).unwrap();
    assert_eq!(read(&cart, 0x1234), 0x99);
    assert_eq!(read(&cart, 0xA000), 0xFF);
}

#[test]
fn mbc1_zero_bank_write_selects_bank_one() {
    // Write 0x01 then 0x00 to the bank register: the low bank bits stay
    // at 1, so 0x4000 maps to ROM offset 0x4000.
    let rom = banked_rom(0x01, 0x00, 4);
    let mut cart = load_cartridge(&rom).unwrap();
    cart.write(0x2000, 0x01);
    cart.write(0x2000, 0x00);
    assert_eq!(read(&cart, 0x4000), 0x01);
}

#[test]
fn mbc1_bank_switching() {
    let rom = banked_rom(0x01, 0x00, 4);
    let mut cart = load_cartridge(&rom).unwrap();
    assert_eq!(read(&cart, 0x0000), 0x00);
    assert_eq!(read(&cart, 0x4000), 0x01);
    cart.write(0x2000, 0x03);
    assert_eq!(read(&cart, 0x4000), 0x03);
    // Bank numbers wrap at the bank count.
    cart.write(0x2000, 0x05);
    assert_eq!(read(&cart, 0x4000), 0x01);
}

#[test]
fn mbc1_ram_is_gated_on_enable() {
    let rom = banked_rom(0x03, 0x03, 4);
    let mut cart = load_cartridge(&rom).unwrap();
    assert_eq!(read(&cart, 0xA000), 0xFF);
    cart.write(0xA000, 0x31);
    assert_eq!(read(&cart, 0xA000), 0xFF);
    cart.write(0x0000, 0x0A);
    cart.write(0xA000, 0x31);
    assert_eq!(read(&cart, 0xA000), 0x31);
    cart.write(0x0000, 0x00);
    assert_eq!(read(&cart, 0xA000), 0xFF);
}

#[test]
fn mbc3_ram_banks_are_distinct() {
    let rom = banked_rom(0x13, 0x03, 4);
    let mut cart = load_cartridge(&rom).unwrap();
    cart.write(0x0000, 0x0A);
    cart.write(0x4000, 0x00);
    cart.write(0xA010, 0x11);
    cart.write(0x4000, 0x02);
    cart.write(0xA010, 0x22);
    assert_eq!(read(&cart, 0xA010), 0x22);
    cart.write(0x4000, 0x00);
    assert_eq!(read(&cart, 0xA010), 0x11);
}

#[test]
fn mbc3_rom_banking_and_zero_write() {
    let rom = banked_rom(0x0F, 0x00, 8);
    let mut cart = load_cartridge(&rom).unwrap();
    cart.write(0x2000, 0x05);
    assert_eq!(read(&cart, 0x4000), 0x05);
    cart.write(0x2000, 0x00);
    assert_eq!(read(&cart, 0x4000), 0x01);
}

#[test]
fn mbc3_latched_clock_reads_zero() {
    let rom = banked_rom(0x10, 0x03, 4);
    let mut cart = load_cartridge(&rom).unwrap();
    cart.write(0x0000, 0x0A);
    cart.write(0x4000, 0x08);
    cart.write(0x6000, 0x00);
    cart.write(0x6000, 0x01);
    assert_eq!(read(&cart, 0xA000), 0x00);
}

#[test]
fn mbc1_mode1_selects_ram_banks() {
    let rom = banked_rom(0x03, 0x03, 4);
    let mut cart = load_cartridge(&rom).unwrap();
    cart.write(0x0000, 0x0A); // enable RAM
    cart.write(0xA000, 0x11); // bank 0
    cart.write(0x6000, 0x01); // RAM banking mode
    cart.write(0x4000, 0x01); // bank 1
    cart.write(0xA000, 0x22);
    assert_eq!(read(&cart, 0xA000), 0x22);
    cart.write(0x4000, 0x00); // back to bank 0
    assert_eq!(read(&cart, 0xA000), 0x11);
}
