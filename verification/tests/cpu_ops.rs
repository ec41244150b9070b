use rgbl::cartridge::load_cartridge;
use rgbl::cpu::Cpu;
use rgbl::memory::DMGMemory;
use rgbl::memory::MemoryType;
use rgbl::mmu::Mmu;
use rgbl::EmuError;

/// A 32 KiB no-mapper ROM image with the given bytes placed at 0x0100.
fn machine(program: &[u8]) -> (Cpu, Mmu) {
    let mut rom = vec![0u8; 0x8000];
    for (i, b) in program.iter().enumerate() {
        rom[0x0100 + i] = *b;
    }
    let cart = load_cartridge(&rom).unwrap();
    let mmu = Mmu::new(MemoryType::DMGMemory(DMGMemory::new()), cart);
    (Cpu::new(), mmu)
}

#[test]
fn add_half_carry() {
    let (mut cpu, mut mmu) = machine(&[0x80]);
    cpu.regs.a = 0x0F;
    cpu.regs.b = 0x01;
    let cycles = cpu.execute(&mut mmu).unwrap();
    assert_eq!(cycles, 1);
    assert_eq!(cpu.regs.a, 0x10);
    assert_eq!(cpu.regs.flags, 0x20);
}

#[test]
fn sub_full_borrow() {
    let (mut cpu, mut mmu) = machine(&[0x90]);
    cpu.regs.a = 0x00;
    cpu.regs.b = 0x01;
    let cycles = cpu.execute(&mut mmu).unwrap();
    assert_eq!(cycles, 1);
    assert_eq!(cpu.regs.a, 0xFF);
    assert_eq!(cpu.regs.flags, 0x70);
}

#[test]
fn add_hl_half_carry() {
    let (mut cpu, mut mmu) = machine(&[0x09]);
    cpu.regs.flags = 0x00;
    cpu.regs.set_hl(0x0FFF);
    cpu.regs.set_bc(0x0001);
    let cycles = cpu.execute(&mut mmu).unwrap();
    assert_eq!(cycles, 2);
    assert_eq!(cpu.regs.hl(), 0x1000);
    assert_eq!(cpu.regs.flags, 0x20);
}

#[test]
fn rlca() {
    let (mut cpu, mut mmu) = machine(&[0x07]);
    cpu.regs.a = 0x85;
    let cycles = cpu.execute(&mut mmu).unwrap();
    assert_eq!(cycles, 1);
    assert_eq!(cpu.regs.a, 0x0B);
    assert_eq!(cpu.regs.flags, 0x10);
}

#[test]
fn push_pop_round_trip() {
    let (mut cpu, mut mmu) = machine(&[0xC5, 0xC1]);
    cpu.regs.set_bc(0xBEEF);
    let sp0 = cpu.sp;
    assert_eq!(cpu.execute(&mut mmu).unwrap(), 4);
    assert_eq!(cpu.execute(&mut mmu).unwrap(), 3);
    assert_eq!(cpu.regs.bc(), 0xBEEF);
    assert_eq!(cpu.sp, sp0);
}

#[test]
fn store_sp_round_trip() {
    // LD (nn), SP with nn = 0xC100, then compare the stored bytes.
    let (mut cpu, mut mmu) = machine(&[0x08, 0x00, 0xC1]);
    cpu.sp = 0xABCD;
    assert_eq!(cpu.execute(&mut mmu).unwrap(), 5);
    assert_eq!(mmu.read(0xC100), 0xCD);
    assert_eq!(mmu.read(0xC101), 0xAB);
    assert_eq!(mmu.read_word(0xC100), 0xABCD);
}

#[test]
fn illegal_opcode_is_fatal() {
    let (mut cpu, mut mmu) = machine(&[0xD3]);
    let r = cpu.execute(&mut mmu);
    assert_eq!(r, Err(EmuError::UnsupportedOpcode(0xD3)));
    assert_eq!(cpu.pc, 0x0100);
}

#[test]
fn conditional_jump_cycles() {
    // JR NZ taken, then JP taken, then JR NZ not taken.
    let (mut cpu, mut mmu) = machine(&[0x20, 0x00, 0xC3, 0x00, 0x02]);
    cpu.regs.flags = 0x00;
    assert_eq!(cpu.execute(&mut mmu).unwrap(), 3);
    assert_eq!(cpu.pc, 0x0102);
    assert_eq!(cpu.execute(&mut mmu).unwrap(), 4);
    assert_eq!(cpu.pc, 0x0200);
    cpu.pc = 0x0100;
    cpu.regs.flags = 0x80;
    assert_eq!(cpu.execute(&mut mmu).unwrap(), 2);
    assert_eq!(cpu.pc, 0x0102);
}

#[test]
fn call_and_ret_cycles() {
    let mut rom = vec![0u8; 0x8000];
    rom[0x0100] = 0xCD; // CALL 0x0200
    rom[0x0101] = 0x00;
    rom[0x0102] = 0x02;
    rom[0x0200] = 0xC9; // RET
    let cart = load_cartridge(&rom).unwrap();
    let mut mmu = Mmu::new(MemoryType::DMGMemory(DMGMemory::new()), cart);
    let mut cpu = Cpu::new();
    assert_eq!(cpu.execute(&mut mmu).unwrap(), 6);
    assert_eq!(cpu.pc, 0x0200);
    assert_eq!(cpu.execute(&mut mmu).unwrap(), 4);
    assert_eq!(cpu.pc, 0x0103);
    assert_eq!(cpu.sp, 0xFFFE);
}

#[test]
fn ld_block_and_hl_cycles() {
    // LD B, C is one cycle; LD B, (HL) is two; LD (HL), C is two.
    let (mut cpu, mut mmu) = machine(&[0x41, 0x46, 0x71]);
    cpu.regs.c = 0x5A;
    cpu.regs.set_hl(0xC050);
    mmu.write(0xC050, 0x99);
    assert_eq!(cpu.execute(&mut mmu).unwrap(), 1);
    assert_eq!(cpu.regs.b, 0x5A);
    assert_eq!(cpu.execute(&mut mmu).unwrap(), 2);
    assert_eq!(cpu.regs.b, 0x99);
    assert_eq!(cpu.execute(&mut mmu).unwrap(), 2);
    assert_eq!(mmu.read(0xC050), 0x5A);
}

#[test]
fn cb_prefixed_cycles_and_bits() {
    // SWAP A, then SET 7, (HL), then BIT 0, (HL).
    let (mut cpu, mut mmu) = machine(&[0xCB, 0x37, 0xCB, 0xFE, 0xCB, 0x46]);
    cpu.regs.a = 0xF0;
    cpu.regs.set_hl(0xC040);
    mmu.write(0xC040, 0x01);
    assert_eq!(cpu.execute(&mut mmu).unwrap(), 2);
    assert_eq!(cpu.regs.a, 0x0F);
    assert_eq!(cpu.execute(&mut mmu).unwrap(), 4);
    assert_eq!(mmu.read(0xC040), 0x81);
    assert_eq!(cpu.execute(&mut mmu).unwrap(), 3);
}

#[test]
fn daa_adjusts_bcd_addition() {
    // 15 + 27 = 42 in BCD.
    let (mut cpu, mut mmu) = machine(&[0x3E, 0x15, 0xC6, 0x27, 0x27]);
    assert_eq!(cpu.execute(&mut mmu).unwrap(), 2);
    assert_eq!(cpu.execute(&mut mmu).unwrap(), 2);
    assert_eq!(cpu.regs.a, 0x3C);
    assert_eq!(cpu.execute(&mut mmu).unwrap(), 1);
    assert_eq!(cpu.regs.a, 0x42);
}

#[test]
fn ei_takes_effect_after_next_instruction() {
    let (mut cpu, mut mmu) = machine(&[0xFB, 0x00, 0x00]);
    mmu.write(0xFFFF, 0x01);
    mmu.write(0xFF0F, 0x01);
    assert_eq!(cpu.execute(&mut mmu).unwrap(), 1); // EI
    assert!(!cpu.ime);
    assert_eq!(cpu.execute(&mut mmu).unwrap(), 1); // NOP, then IME comes on
    assert!(cpu.ime);
    assert_eq!(cpu.execute(&mut mmu).unwrap(), 5); // interrupt service
    assert_eq!(cpu.pc, 0x0040);
    assert!(!cpu.ime);
}

#[test]
fn halt_wakes_without_service_when_ime_off() {
    let (mut cpu, mut mmu) = machine(&[0x76, 0x04]);
    assert_eq!(cpu.execute(&mut mmu).unwrap(), 1); // HALT
    assert_eq!(cpu.execute(&mut mmu).unwrap(), 1); // idle
    assert_eq!(cpu.pc, 0x0101);
    mmu.write(0xFFFF, 0x04);
    mmu.write(0xFF0F, 0x04);
    // IME is off: resume without servicing; INC B runs.
    assert_eq!(cpu.execute(&mut mmu).unwrap(), 1);
    assert_eq!(cpu.regs.b, 0x01);
    assert_eq!(cpu.pc, 0x0102);
}

#[test]
fn pop_af_low_nibble_reads_zero() {
    // Push 0xFFFF through BC, pop into AF: F keeps only its high nibble.
    let (mut cpu, mut mmu) = machine(&[0xC5, 0xF1]);
    cpu.regs.set_bc(0xFFFF);
    cpu.execute(&mut mmu).unwrap();
    cpu.execute(&mut mmu).unwrap();
    assert_eq!(cpu.regs.a, 0xFF);
    assert_eq!(cpu.regs.flags, 0xF0);
    assert_eq!(cpu.regs.flags & 0x0F, 0);
}

#[test]
fn bit_test_sets_z_when_bit_is_zero() {
    // BIT 0,A on A=0x01: the bit is one, so Z is clear; BIT 1,A on the
    // same value: the bit is zero, so Z is set. N=0, H=1, C untouched.
    let (mut cpu, mut mmu) = machine(&[0xCB, 0x47, 0xCB, 0x4F]);
    cpu.regs.a = 0x01;
    cpu.regs.flags = 0x10; // carry held across both tests
    assert_eq!(cpu.execute(&mut mmu).unwrap(), 2);
    assert_eq!(cpu.regs.flags, 0x30); // Z=0, N=0, H=1, C=1
    assert_eq!(cpu.execute(&mut mmu).unwrap(), 2);
    assert_eq!(cpu.regs.flags, 0xB0); // Z=1, N=0, H=1, C=1
}
