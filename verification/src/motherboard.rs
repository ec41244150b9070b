//! Top-level tick loop: joypad projection, one CPU step, then the timers
//! and the PPU advance by exactly the machine cycles the CPU consumed.

use vstd::prelude::*;

use crate::EmuError;
use crate::cartridge::load_cartridge;
use crate::cartridge::spec_ram_size;
use crate::cartridge::supported_cart_type;
use crate::cartridge::valid_rom_len;
use crate::cartridge::CartView;
use crate::cpu::CpuRegisters;
use crate::cpu::Cpu;
use crate::cpu::spec_step_result;
use crate::cpu::spec_step_state;
use crate::mmu::MmuView;
use crate::ppu::ppu_tick_spec;
use crate::ppu::ppu_rollover;
use crate::ppu::ppu_draws;
use crate::ppu::rendered_pixel;
use crate::ppu::R_LY;
use crate::lcd::LCD_WIDTH;
use crate::lcd::LCD_PIXELS;
use crate::timers::timers_tick_spec;
use crate::joypad::Joypad;
use crate::joypad::joypad_tick_spec;
use crate::lcd::Lcd;
use crate::memory::DMGMemory;
use crate::memory::MemoryType;
use crate::mmu::Mmu;
use crate::timers::Timers;

verus! {

pub struct Motherboard {
    pub cpu: Cpu,
    pub mmu: Mmu,
    pub timers: Timers,
    pub lcd: Lcd,
    pub joypad: Joypad,
}

impl Motherboard {
    /// The whole machine is in a consistent state.
    pub open spec fn wf(self) -> bool {
        &&& self.cpu.wf()
        &&& self.mmu@.wf()
        &&& self.timers@.tima_partial <= 1024
        &&& self.lcd.wf()
    }

    /// Assemble a machine around a ROM image; fails exactly on an
    /// unsupported mapper selector in the header.
    pub fn new(cart_rom: &Vec<u8>) -> (r: Result<Motherboard, EmuError>)
        requires
            valid_rom_len(cart_rom@.len()),
        ensures
            r.is_ok() <==> supported_cart_type(cart_rom@[0x0147]),
            r.is_err() ==> r == Err::<Motherboard, EmuError>(
                EmuError::UnsupportedCartType(cart_rom@[0x0147]),
            ),
            r matches Ok(mb) ==> mb.wf() && mb.cpu.pc == 0x0100 && mb.cpu.sp == 0xFFFE
                && !mb.cpu.ime && !mb.cpu.halted && mb.mmu@.cart.rom() == cart_rom@
                && mb.mmu@.ppu == crate::ppu::initial_ppu_view() && mb.joypad@ == 0
                && mb.timers@ == (crate::timers::TimersView {
                div_partial: 0u8,
                tima_partial: 0u16,
            }) && (forall|i: int| 0 <= i < crate::lcd::LCD_PIXELS ==> mb.lcd@[i] == 0),
            // The reset register file of the data model.
            r matches Ok(mb) ==> mb.cpu.regs == (CpuRegisters {
                a: 0x01u8,
                flags: 0xB0u8,
                b: 0x00u8,
                c: 0x13u8,
                d: 0x00u8,
                e: 0xD8u8,
                h: 0x01u8,
                l: 0x4Du8,
            }),
            // The header byte selects the mapper, which starts in its
            // reset state with the header-sized external RAM.
            r matches Ok(mb) ==> match mb.mmu@.cart {
                CartView::NoMBC(c) => cart_rom@[0x0147] == 0,
                CartView::MBC1(c) => 0x01 <= cart_rom@[0x0147] <= 0x03 && c.ram.len()
                    == spec_ram_size(cart_rom@[0x0149]) && !c.ram_enable && c.rom_bank_low == 1
                    && c.bank_hi == 0 && !c.mode,
                CartView::MBC3(c) => 0x0F <= cart_rom@[0x0147] <= 0x13 && c.ram.len()
                    == spec_ram_size(cart_rom@[0x0149]) && !c.ram_enable && c.rom_bank == 1
                    && c.ram_bank_or_rtc == 0,
            },
    {
        let cartridge = match load_cartridge(cart_rom) {
            Ok(c) => c,
            Err(e) => {
                return Err(e);
            },
        };
        Ok(
            Motherboard {
                cpu: Cpu::new(),
                mmu: Mmu::new(MemoryType::DMGMemory(DMGMemory::new()), cartridge),
                timers: Timers::new(),
                lcd: Lcd::new(),
                joypad: Joypad::new(),
            },
        )
    }

    /// One machine step: project the joypad, run one CPU step, then feed
    /// the consumed machine cycles to the timers and the PPU. Returns
    /// those cycles, or the CPU's fatal error with the devices untouched
    /// past the joypad projection.
    pub fn tick(&mut self) -> (r: Result<u8, EmuError>)
        requires
            old(self).wf(),
        ensures
            final(self).wf(),
            r == spec_step_result(
                old(self).cpu,
                joypad_tick_spec(old(self).joypad@, old(self).mmu@),
            ),
            r matches Ok(n) ==> 1 <= n <= 6,
            r.is_err() ==> final(self).cpu == old(self).cpu && final(self).mmu@
                == joypad_tick_spec(old(self).joypad@, old(self).mmu@),
            final(self).joypad@ == old(self).joypad@,
            // The whole machine transition, phase by phase: joypad
            // projection, the CPU step, the timers, then the PPU.
            r matches Ok(n) ==> ({
                let m1 = joypad_tick_spec(old(self).joypad@, old(self).mmu@);
                let sm = spec_step_state(old(self).cpu, m1);
                let tm = timers_tick_spec(old(self).timers@, sm.1, n);
                &&& final(self).cpu == sm.0
                &&& final(self).timers@ == tm.0
                &&& final(self).mmu@ == (MmuView { ppu: ppu_tick_spec(tm.1.ppu, n), ..tm.1 })
                &&& ({
                    let p1 = ppu_rollover(tm.1.ppu, n);
                    let dly = p1.io[R_LY as int];
                    if ppu_draws(p1) {
                        &&& forall|i: int|
                            0 <= i < LCD_PIXELS && !(dly * LCD_WIDTH <= i < (dly + 1)
                                * LCD_WIDTH) ==> final(self).lcd@[i] == old(self).lcd@[i]
                        &&& forall|x: int|
                            0 <= x < LCD_WIDTH ==> #[trigger] final(self).lcd.pixel(
                                dly as int,
                                x,
                            ) == rendered_pixel(p1, dly, x)
                    } else {
                        final(self).lcd@ == old(self).lcd@
                    }
                })
            }),
    {
        self.joypad.tick(&mut self.mmu);
        let mcycles: u8 = match self.cpu.execute(&mut self.mmu) {
            Ok(n) => n,
            Err(e) => {
                return Err(e);
            },
        };
        self.timers.tick(&mut self.mmu, mcycles);
        self.mmu.tick(&mut self.lcd, mcycles);
        Ok(mcycles)
    }
}

} // verus!
