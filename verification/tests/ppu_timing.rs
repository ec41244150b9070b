use rgbl::cartridge::load_cartridge;
use rgbl::cpu::Cpu;
use rgbl::joypad::Joypad;
use rgbl::joypad::JoypadButton;
use rgbl::lcd::Lcd;
use rgbl::memory::DMGMemory;
use rgbl::memory::MemoryType;
use rgbl::mmu::Mmu;
use rgbl::motherboard::Motherboard;
use rgbl::timers::Timers;

fn plain_mmu() -> Mmu {
    let rom = vec![0u8; 0x8000];
    let cart = load_cartridge(&rom).unwrap();
    Mmu::new(MemoryType::DMGMemory(DMGMemory::new()), cart)
}

#[test]
fn scanline_timing_scenario() {
    // From OAM scan of line 0: 20 mcycles end the scan and render the
    // line, 43 more reach HBlank, 51 more start line 1's OAM scan.
    let mut mmu = plain_mmu();
    let mut lcd = Lcd::new();
    // Tile 0 row 0 decodes to colour index 1 everywhere; BGP maps index
    // 1 to shade 1, so the rendered line is visible. The reset LCDC
    // selects the signed tile area, where tile 0 sits at 0x9000.
    mmu.write(0x9000, 0xFF);
    mmu.write(0x9001, 0x00);
    mmu.write(0xFF47, 0xE4);
    mmu.tick(&mut lcd, 20);
    assert_eq!(mmu.read(0xFF41) & 0x03, 3); // Drawing
    for x in 0..160 {
        assert_eq!(lcd.pixels[x], 1);
    }
    mmu.tick(&mut lcd, 43);
    assert_eq!(mmu.read(0xFF41) & 0x03, 0); // HBlank
    mmu.tick(&mut lcd, 51);
    assert_eq!(mmu.read(0xFF44), 1);
    assert_eq!(mmu.read(0xFF41) & 0x03, 2); // OAM scan
}

#[test]
fn ly_stays_below_line_count() {
    // A machine running NOPs forever: LY keeps cycling 0..153.
    let rom = vec![0u8; 0x8000];
    let mut mb = Motherboard::new(&rom).unwrap();
    let mut seen_max = 0u8;
    for _ in 0..200_000 {
        mb.tick().unwrap();
        let ly = mb.mmu.read(0xFF44);
        assert!(ly < 154);
        if ly > seen_max {
            seen_max = ly;
        }
    }
    assert_eq!(seen_max, 153);
}

#[test]
fn vblank_interrupt_raised_and_serviced() {
    let mut mmu = plain_mmu();
    let mut lcd = Lcd::new();
    let mut cpu = Cpu::new();
    mmu.write(0xFFFF, 0x01);
    cpu.ime = true;
    // Run the PPU to the 143 -> 144 line transition.
    while mmu.read(0xFF44) != 144 {
        mmu.tick(&mut lcd, 1);
    }
    assert_eq!(mmu.read(0xFF0F) & 0x01, 0x01);
    assert_eq!(mmu.read(0xFF41) & 0x03, 1); // VBlank mode
    let pc0 = cpu.pc;
    let sp0 = cpu.sp;
    assert_eq!(cpu.execute(&mut mmu).unwrap(), 5);
    assert_eq!(cpu.pc, 0x0040);
    assert_eq!(cpu.sp, sp0.wrapping_sub(2));
    assert_eq!(mmu.read_word(cpu.sp), pc0);
    assert_eq!(mmu.read(0xFF0F) & 0x01, 0);
    assert!(!cpu.ime);
}

#[test]
fn stat_interrupt_on_lyc_match() {
    let mut mmu = plain_mmu();
    let mut lcd = Lcd::new();
    mmu.write(0xFF45, 2); // LYC = 2
    mmu.write(0xFF41, 0x40); // LY==LYC interrupt source on
    while mmu.read(0xFF44) != 2 {
        mmu.tick(&mut lcd, 1);
    }
    assert_eq!(mmu.read(0xFF0F) & 0x02, 0x02);
    assert_eq!(mmu.read(0xFF41) & 0x04, 0x04);
}

#[test]
fn window_line_counter_stays_in_range_over_frames() {
    // Window enabled over the whole screen: many frames advance without
    // breaking any internal bound (the tick contract guards them all).
    let mut mmu = plain_mmu();
    let mut lcd = Lcd::new();
    mmu.write(0xFF40, 0xA7); // LCD on, window on, BG on
    mmu.write(0xFF4A, 0); // WY
    mmu.write(0xFF4B, 7); // WX
    for _ in 0..40_000 {
        mmu.tick(&mut lcd, 4);
    }
    assert!(mmu.read(0xFF44) < 154);
}

#[test]
fn timer_overflow_reloads_tma_and_raises_interrupt() {
    let mut mmu = plain_mmu();
    let mut timers = Timers::new();
    mmu.write(0xFF07, 0x05); // enabled, 16-dot period
    mmu.write(0xFF06, 0xAB); // TMA
    mmu.set_io_reg(0x05, 0xFF); // TIMA on the edge
    timers.tick(&mut mmu, 5); // 20 dots: one TIMA step
    assert_eq!(mmu.read(0xFF05), 0xAB);
    assert_eq!(mmu.read(0xFF0F) & 0x04, 0x04);
    // The next step is an ordinary increment.
    timers.tick(&mut mmu, 5);
    assert_eq!(mmu.read(0xFF05), 0xAC);
}

#[test]
fn div_advances_and_guest_write_resets() {
    let mut mmu = plain_mmu();
    let mut timers = Timers::new();
    for _ in 0..16 {
        timers.tick(&mut mmu, 4); // 16 dots each: 256 dots total
    }
    assert_eq!(mmu.read(0xFF04), 1);
    mmu.write(0xFF04, 0x77);
    assert_eq!(mmu.read(0xFF04), 0);
}

#[test]
fn joypad_lines_and_interrupt() {
    let mut mmu = plain_mmu();
    let mut joypad = Joypad::new();
    mmu.write(0xFF00, 0x10); // select the action group (bit 5 low)
    joypad.tick(&mut mmu);
    assert_eq!(mmu.read(0xFF00) & 0x0F, 0x0F); // nothing held
    joypad.press(JoypadButton::A);
    joypad.tick(&mut mmu);
    assert_eq!(mmu.read(0xFF00) & 0x0F, 0x0E);
    assert_eq!(mmu.read(0xFF0F) & 0x10, 0x10); // joypad interrupt
    joypad.release(JoypadButton::A);
    joypad.tick(&mut mmu);
    assert_eq!(mmu.read(0xFF00) & 0x0F, 0x0F);
}

#[test]
fn unselected_group_reads_all_ones() {
    let mut mmu = plain_mmu();
    let mut joypad = Joypad::new();
    mmu.write(0xFF00, 0x30); // neither group selected
    joypad.press(JoypadButton::Start);
    joypad.press(JoypadButton::Left);
    joypad.tick(&mut mmu);
    assert_eq!(mmu.read(0xFF00) & 0x0F, 0x0F);
}

#[test]
fn fine_scroll_shifts_background() {
    // Tile 0 renders colour index 1, tile 1 colour index 2; the second
    // map column holds tile 1. With SCX = 3 the tile seam lands at
    // screen column 5.
    let mut mmu = plain_mmu();
    let mut lcd = Lcd::new();
    mmu.write(0x9000, 0xFF); // tile 0 row 0: index 1
    mmu.write(0x9001, 0x00);
    mmu.write(0x9010, 0x00); // tile 1 row 0: index 2
    mmu.write(0x9011, 0xFF);
    mmu.write(0x9801, 0x01); // map column 1 -> tile 1
    mmu.write(0xFF47, 0xE4);
    mmu.write(0xFF43, 3); // SCX
    mmu.tick(&mut lcd, 20);
    assert_eq!(lcd.pixels[4], 1);
    assert_eq!(lcd.pixels[5], 2);
}

#[test]
fn window_overlays_background_from_wx() {
    // Background map holds tile 0 (index 1); the window map at 0x9C00
    // holds tile 1 (index 2). The window starts at WX - 7 = 80.
    let mut mmu = plain_mmu();
    let mut lcd = Lcd::new();
    mmu.write(0x9000, 0xFF);
    mmu.write(0x9001, 0x00);
    mmu.write(0x9010, 0x00);
    mmu.write(0x9011, 0xFF);
    for i in 0..32u16 {
        mmu.write(0x9C00 + i, 0x01);
    }
    mmu.write(0xFF47, 0xE4);
    mmu.write(0xFF40, 0xE5); // LCD on, window on with the 0x9C00 map, BG on
    mmu.write(0xFF4A, 0); // WY
    mmu.write(0xFF4B, 87); // WX
    mmu.tick(&mut lcd, 20);
    assert_eq!(lcd.pixels[79], 1);
    assert_eq!(lcd.pixels[80], 2);
    assert_eq!(lcd.pixels[159], 2);
}

#[test]
fn sprite_renders_over_background() {
    // One sprite at the top-left corner, tile 2 solid index 3, palette
    // OBP0 mapping index 3 to shade 3.
    let mut mmu = plain_mmu();
    let mut lcd = Lcd::new();
    mmu.write(0xFF40, 0x87); // LCD on, BG on, sprites on, 8x8
    mmu.write(0xFF48, 0xC0); // OBP0: index 3 -> shade 3
    for i in 0..16u16 {
        mmu.write(0x8020 + i, 0xFF); // tile 2: all pixels index 3
    }
    mmu.write(0xFE00, 16); // y: top edge at line 0
    mmu.write(0xFE01, 8); // x: left edge at column 0
    mmu.write(0xFE02, 2); // tile index
    mmu.write(0xFE03, 0); // flags
    mmu.tick(&mut lcd, 20);
    for x in 0..8 {
        assert_eq!(lcd.pixels[x], 3);
    }
    assert_eq!(lcd.pixels[8], 0);
}

#[test]
fn overlapping_sprites_lower_x_wins() {
    // Two sprites cover column 4: the one with the lower x coordinate
    // shows, whatever its OAM position.
    let mut mmu = plain_mmu();
    let mut lcd = Lcd::new();
    mmu.write(0xFF40, 0x82); // LCD on, sprites on (8x8), BG off
    mmu.write(0xFF48, 0xE4); // OBP0: identity-ish palette
    for r in 0..8u16 {
        // Tile 1: solid colour index 1 -> shade 1.
        mmu.write(0x8010 + 2 * r, 0xFF);
        mmu.write(0x8010 + 2 * r + 1, 0x00);
        // Tile 2: solid colour index 2 -> shade 2.
        mmu.write(0x8020 + 2 * r, 0x00);
        mmu.write(0x8020 + 2 * r + 1, 0xFF);
    }
    // OAM entry 0: tile 1 at x=12 (columns 4..11).
    mmu.write(0xFE00, 16);
    mmu.write(0xFE01, 12);
    mmu.write(0xFE02, 1);
    mmu.write(0xFE03, 0);
    // OAM entry 1: tile 2 at x=8 (columns 0..7): lower x, wins overlap.
    mmu.write(0xFE04, 16);
    mmu.write(0xFE05, 8);
    mmu.write(0xFE06, 2);
    mmu.write(0xFE07, 0);
    mmu.tick(&mut lcd, 20);
    assert_eq!(lcd.pixels[0], 2); // only sprite 2
    assert_eq!(lcd.pixels[4], 2); // overlap: lower x wins
    assert_eq!(lcd.pixels[10], 1); // only sprite 1
}
