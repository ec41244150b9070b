use rgbl::cartridge::load_cartridge;
use rgbl::memory::DMGMemory;
use rgbl::memory::MemoryType;
use rgbl::mmu::Mmu;

fn plain_mmu() -> Mmu {
    let rom = vec![0u8; 0x8000];
    let cart = load_cartridge(&rom).unwrap();
    Mmu::new(MemoryType::DMGMemory(DMGMemory::new()), cart)
}

#[test]
fn word_round_trip_in_writable_ram() {
    let mut mmu = plain_mmu();
    for addr in [0x8000u16, 0x9FFE, 0xC000, 0xDFFE, 0xFE00, 0xFE9E, 0xFF80, 0xFFFE] {
        mmu.write_word(addr, 0xA55A);
        assert_eq!(mmu.read_word(addr), 0xA55A);
    }
    // Straddling work RAM and its echo.
    mmu.write_word(0xDFFF, 0x1234);
    assert_eq!(mmu.read_word(0xDFFF), 0x1234);
}

#[test]
fn echo_ram_mirrors_work_ram() {
    let mut mmu = plain_mmu();
    mmu.write(0xC123, 0x55);
    assert_eq!(mmu.read(0xE123), 0x55);
    mmu.write(0xE234, 0x66);
    assert_eq!(mmu.read(0xC234), 0x66);
    for a in (0xE000u16..0xFE00).step_by(0x321) {
        assert_eq!(mmu.read(a), mmu.read(a - 0x2000));
    }
}

#[test]
fn forbidden_region_reads_ff() {
    let mut mmu = plain_mmu();
    for a in 0xFEA0u16..=0xFEFF {
        assert_eq!(mmu.read(a), 0xFF);
        mmu.write(a, 0x12);
        assert_eq!(mmu.read(a), 0xFF);
    }
}

#[test]
fn rom_writes_do_not_store() {
    let mut mmu = plain_mmu();
    let before = mmu.read(0x1234);
    mmu.write(0x1234, 0xAA);
    assert_eq!(mmu.read(0x1234), before);
}

#[test]
fn dma_copies_block_into_oam() {
    let mut mmu = plain_mmu();
    for i in 0u16..160 {
        mmu.write(0xC000 + i, (i as u8).wrapping_mul(3));
    }
    mmu.write(0xFF46, 0xC0);
    for i in 0u16..160 {
        assert_eq!(mmu.read(0xFE00 + i), (i as u8).wrapping_mul(3));
    }
}

#[test]
fn joyp_guest_writes_touch_only_select_bits() {
    let mut mmu = plain_mmu();
    mmu.write(0xFF00, 0xFF);
    assert_eq!(mmu.read(0xFF00), 0x30);
    mmu.write(0xFF00, 0x10);
    assert_eq!(mmu.read(0xFF00), 0x10);
}

#[test]
fn div_write_resets_to_zero() {
    let mut mmu = plain_mmu();
    mmu.set_io_reg(0x04, 0x5C);
    assert_eq!(mmu.read(0xFF04), 0x5C);
    mmu.write(0xFF04, 0x99);
    assert_eq!(mmu.read(0xFF04), 0x00);
}

#[test]
fn ly_write_resets_to_zero() {
    let mut mmu = plain_mmu();
    mmu.write(0xFF44, 0x7F);
    assert_eq!(mmu.read(0xFF44), 0x00);
}

#[test]
fn word_access_wraps_the_address_space() {
    // The partner byte of 0xFFFF is 0x0000, which decodes to ROM: the
    // high byte of the read comes from the cartridge, stores to it are
    // bank-register writes, and nothing goes out of range.
    let mut mmu = plain_mmu();
    mmu.write(0xFFFF, 0x1F);
    let w = mmu.read_word(0xFFFF);
    assert_eq!(w & 0x00FF, 0x001F);
    mmu.write_word(0xFFFF, 0xAB5A);
    assert_eq!(mmu.read(0xFFFF), 0x5A);
}
