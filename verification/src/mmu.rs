//! Memory management unit: a pure router over the 64 KiB guest address
//! space, dispatching to the cartridge, the PPU stores, work/high RAM and
//! the IO register file, with the OAM DMA transfer and the 16-bit helpers.

use vstd::prelude::*;

use crate::cartridge::CartridgeType;
use crate::cartridge::CartView;
use crate::lcd::Lcd;
use crate::lcd::LCD_PIXELS;
use crate::lcd::LCD_WIDTH;
use crate::memory::MemoryType;
use crate::memory::MemView;
use crate::ppu::Ppu;
use crate::ppu::PpuView;
use crate::ppu::ppu_tick_spec;
use crate::ppu::ppu_rollover;
use crate::ppu::ppu_draws;
use crate::ppu::DOTS_PER_LINE;
use crate::ppu::OAM_SIZE;
use crate::ppu::R_LY;

verus! {

pub struct Mmu {
    ppu: Ppu,
    memory: MemoryType,
    cartridge: CartridgeType,
}

/// Mathematical model of the whole guest-visible memory fabric.
#[verifier::ext_equal]
pub ghost struct MmuView {
    pub ppu: PpuView,
    pub mem: MemView,
    pub cart: CartView,
}

impl View for Mmu {
    type V = MmuView;

    closed spec fn view(&self) -> MmuView {
        MmuView { ppu: self.ppu@, mem: self.memory@, cart: self.cartridge@ }
    }
}

/// The guest address one above `addr`, wrapping around the 16-bit space.
pub open spec fn next_addr(addr: u16) -> u16 {
    if addr == 0xFFFF {
        0
    } else {
        (addr + 1) as u16
    }
}

impl MmuView {
    pub open spec fn wf(self) -> bool {
        &&& self.ppu.wf()
        &&& self.mem.wf()
        &&& self.cart.wf()
    }

    /// Address decode for reads, total over the 16-bit space.
    #[verifier::opaque]
    pub open spec fn read(self, addr: u16) -> u8
        recommends
            self.wf(),
    {
        if addr < 0x8000 {
            self.cart.read(addr)  // cartridge ROM windows
        } else if addr < 0xA000 {
            self.ppu.read(addr)  // video RAM
        } else if addr < 0xC000 {
            self.cart.read(addr)  // cartridge RAM window
        } else if addr < 0xE000 {
            self.mem.read(addr)  // work RAM
        } else if addr < 0xFE00 {
            self.mem.read((addr - 0x2000) as u16)  // echo RAM
        } else if addr < 0xFEA0 {
            self.ppu.read(addr)  // OAM
        } else if addr < 0xFF00 {
            0xFF  // forbidden region
        } else if addr < 0xFF80 {
            self.ppu.read(addr)  // IO register file
        } else {
            self.mem.read(addr)  // high RAM and IE
        }
    }

    /// Address decode for writes. The forbidden region swallows stores;
    /// JOYP takes only its two select bits from the guest; storing to DIV
    /// resets it; storing to the DMA register copies a 160-byte block over
    /// the OAM; storing to LY resets it (inside the PPU write).
    #[verifier::opaque]
    pub open spec fn write(self, addr: u16, value: u8) -> MmuView
        recommends
            self.wf(),
    {
        if addr < 0x8000 {
            MmuView { cart: self.cart.write(addr, value), ..self }
        } else if addr < 0xA000 {
            MmuView { ppu: self.ppu.write(addr, value), ..self }
        } else if addr < 0xC000 {
            MmuView { cart: self.cart.write(addr, value), ..self }
        } else if addr < 0xE000 {
            MmuView { mem: self.mem.write(addr, value), ..self }
        } else if addr < 0xFE00 {
            MmuView { mem: self.mem.write((addr - 0x2000) as u16, value), ..self }
        } else if addr < 0xFEA0 {
            MmuView { ppu: self.ppu.write(addr, value), ..self }
        } else if addr < 0xFF00 {
            self
        } else if addr == 0xFF00 {
            let joyp = (self.ppu.io[0] & 0xCF) | (value & 0x30);
            MmuView { ppu: PpuView { io: self.ppu.io.update(0, joyp), ..self.ppu }, ..self }
        } else if addr == 0xFF04 {
            MmuView { ppu: PpuView { io: self.ppu.io.update(0x04, 0), ..self.ppu }, ..self }
        } else if addr == 0xFF46 {
            let pv = self.ppu.write(addr, value);
            let m1 = MmuView { ppu: pv, ..self };
            let oam_new = Seq::new(
                OAM_SIZE as nat,
                |i: int| m1.read((value as int * 256 + i) as u16),
            );
            MmuView { ppu: PpuView { oam: oam_new, ..pv }, ..self }
        } else if addr < 0xFF80 {
            MmuView { ppu: self.ppu.write(addr, value), ..self }
        } else {
            MmuView { mem: self.mem.write(addr, value), ..self }
        }
    }

    /// Little-endian 16-bit read: low byte at the lower address.
    pub open spec fn read_word(self, addr: u16) -> u16
        recommends
            self.wf(),
    {
        (self.read(next_addr(addr)) as int * 256 + self.read(addr) as int) as u16
    }

    /// Little-endian 16-bit write: the high byte goes to the upper
    /// address first, then the low byte to `addr`.
    pub open spec fn write_word(self, addr: u16, value: u16) -> MmuView
        recommends
            self.wf(),
    {
        self.write(next_addr(addr), (value >> 8) as u8).write(addr, (value & 0xFF) as u8)
    }
}

impl Mmu {
    pub fn new(memory: MemoryType, cartridge: CartridgeType) -> (r: Mmu)
        requires
            memory@.wf(),
            cartridge@.wf(),
        ensures
            r@.mem == memory@,
            r@.cart == cartridge@,
            r@.ppu == crate::ppu::initial_ppu_view(),
            r@.wf(),
    {
        Mmu { ppu: Ppu::new(), memory, cartridge }
    }

    pub fn read(&self, addr: u16) -> (r: u8)
        requires
            self@.wf(),
        ensures
            r == self@.read(addr),
    {
        proof {
            reveal(MmuView::read);
        }
        if addr < 0x8000 {
            self.cartridge.read(addr)
        } else if addr < 0xA000 {
            self.ppu.read(addr)
        } else if addr < 0xC000 {
            self.cartridge.read(addr)
        } else if addr < 0xE000 {
            self.memory.read(addr)
        } else if addr < 0xFE00 {
            self.memory.read(addr - 0x2000)
        } else if addr < 0xFEA0 {
            self.ppu.read(addr)
        } else if addr < 0xFF00 {
            0xFF
        } else if addr < 0xFF80 {
            self.ppu.read(addr)
        } else {
            self.memory.read(addr)
        }
    }

    pub fn write(&mut self, addr: u16, value: u8)
        requires
            old(self)@.wf(),
        ensures
            final(self)@ == old(self)@.write(addr, value),
            final(self)@.wf(),
    {
        proof {
            reveal(MmuView::write);
        }
        if addr < 0x8000 {
            self.cartridge.write(addr, value);
        } else if addr < 0xA000 {
            self.ppu.write(addr, value);
        } else if addr < 0xC000 {
            self.cartridge.write(addr, value);
        } else if addr < 0xE000 {
            self.memory.write(addr, value);
        } else if addr < 0xFE00 {
            self.memory.write(addr - 0x2000, value);
        } else if addr < 0xFEA0 {
            self.ppu.write(addr, value);
        } else if addr < 0xFF00 {
            // forbidden region: stores are swallowed
        } else if addr == 0xFF00 {
            let joyp: u8 = self.ppu.read(0xFF00);
            self.ppu.set_io_reg(0, (joyp & 0xCF) | (value & 0x30));
        } else if addr == 0xFF04 {
            self.ppu.set_io_reg(0x04, 0);
        } else if addr == 0xFF46 {
            self.ppu.write(addr, value);
            let ghost m1 = self@;
            let base: u16 = value as u16 * 256;
            let mut data: Vec<u8> = Vec::new();
            let mut i: u16 = 0;
            while i < OAM_SIZE as u16
                invariant
                    self@ == m1,
                    self@.wf(),
                    base == value as u16 * 256,
                    i <= OAM_SIZE,
                    data@.len() == i,
                    forall|j: int|
                        0 <= j < i ==> data@[j] == m1.read((value as int * 256 + j) as u16),
                decreases OAM_SIZE - i,
            {
                let b: u8 = self.read(base + i);
                data.push(b);
                i += 1;
            }
            proof {
                assert(data@ =~= Seq::new(
                    OAM_SIZE as nat,
                    |j: int| m1.read((value as int * 256 + j) as u16),
                ));
            }
            self.ppu.dma(&data);
            proof {
                assert(self@ =~~= old(self)@.write(addr, value));
            }
        } else if addr < 0xFF80 {
            self.ppu.write(addr, value);
        } else {
            self.memory.write(addr, value);
        }
    }

    pub fn read_word(&self, addr: u16) -> (r: u16)
        requires
            self@.wf(),
        ensures
            r == self@.read_word(addr),
    {
        let hi: u8 = self.read(addr.wrapping_add(1));
        let lo: u8 = self.read(addr);
        proof {
            crate::bitops::lemma_bytes_to_word(hi, lo);
        }
        ((hi as u16) << 8) | (lo as u16)
    }

    pub fn write_word(&mut self, addr: u16, value: u16)
        requires
            old(self)@.wf(),
        ensures
            final(self)@ == old(self)@.write_word(addr, value),
            final(self)@.wf(),
    {
        proof {
            crate::bitops::lemma_word_bytes(value);
        }
        self.write(addr.wrapping_add(1), (value >> 8) as u8);
        self.write(addr, (value & 0xFF) as u8);
    }

    /// Advance the PPU by the elapsed machine cycles.
    pub fn tick(&mut self, lcd: &mut Lcd, m_cycles: u8)
        requires
            old(self)@.wf(),
            old(lcd).wf(),
            4 * m_cycles <= DOTS_PER_LINE,
        ensures
            final(self)@ == (MmuView { ppu: ppu_tick_spec(old(self)@.ppu, m_cycles), ..old(
                self,
            )@ }),
            final(self)@.wf(),
            final(lcd).wf(),
            ({
                let p1 = ppu_rollover(old(self)@.ppu, m_cycles);
                if ppu_draws(p1) {
                    let dly = p1.io[R_LY as int];
                    &&& forall|i: int|
                        0 <= i < LCD_PIXELS && !(dly * LCD_WIDTH <= i < (dly + 1) * LCD_WIDTH)
                            ==> final(lcd)@[i] == old(lcd)@[i]
                    &&& forall|x: int|
                        0 <= x < LCD_WIDTH ==> #[trigger] final(lcd).pixel(dly as int, x) < 4
                } else {
                    final(lcd)@ == old(lcd)@
                }
            }),
            ({
                let p1 = ppu_rollover(old(self)@.ppu, m_cycles);
                let dly = p1.io[R_LY as int];
                ppu_draws(p1) ==> forall|x: int|
                    0 <= x < LCD_WIDTH ==> #[trigger] final(lcd).pixel(dly as int, x)
                        == crate::ppu::rendered_pixel(p1, dly, x)
            }),
    {
        self.ppu.tick(lcd, m_cycles);
    }

    /// Device-side register store used by the timers (DIV) and the joypad
    /// (button lines): a plain store that skips the guest-write special
    /// cases of `write`.
    pub fn set_io_reg(&mut self, idx: usize, value: u8)
        requires
            old(self)@.wf(),
            idx < crate::ppu::IO_SIZE,
            idx != R_LY,
        ensures
            final(self)@ == (MmuView {
                ppu: PpuView {
                    io: old(self)@.ppu.io.update(idx as int, value),
                    ..old(self)@.ppu
                },
                ..old(self)@
            }),
            final(self)@.wf(),
    {
        self.ppu.set_io_reg(idx, value);
    }
}

// ---------------------------------------------------------------------------
// Laws of the address decode.
// ---------------------------------------------------------------------------

/// Addresses where a stored byte reads back unchanged: video RAM, work
/// RAM with its echo, OAM, and high RAM with the interrupt-enable byte.
pub open spec fn writable_ram(addr: u16) -> bool {
    (0x8000 <= addr < 0xA000) || (0xC000 <= addr < 0xFEA0) || 0xFF80 <= addr
}

/// In every reachable state, reading an echo-RAM address equals reading
/// its work-RAM partner, whatever was written to either before: both
/// decode to the same backing cell.
pub proof fn lemma_echo_ram(m: MmuView, addr: u16)
    requires
        m.wf(),
        0xE000 <= addr < 0xFE00,
    ensures
        m.read(addr) == m.read((addr - 0x2000) as u16),
{
    reveal(MmuView::read);
}

/// Reads of the forbidden region 0xFEA0-0xFEFF return 0xFF in every state.
pub proof fn lemma_forbidden_region(m: MmuView, addr: u16)
    requires
        0xFEA0 <= addr < 0xFF00,
    ensures
        m.read(addr) == 0xFF,
{
    reveal(MmuView::read);
}

/// Whatever the guest stores at whatever address, the cartridge ROM
/// image itself never changes: stores into the ROM windows drive only
/// the mapper's bank registers.
pub proof fn lemma_rom_immutable(m: MmuView, addr: u16, value: u8)
    ensures
        m.write(addr, value).cart.rom() == m.cart.rom(),
{
    reveal(MmuView::write);
}

/// A 16-bit store to writable RAM reads back as itself: `write_word`
/// followed by `read_word` at the same address returns the stored word.
pub proof fn lemma_word_round_trip(m: MmuView, addr: u16, value: u16)
    requires
        m.wf(),
        writable_ram(addr),
        writable_ram(next_addr(addr)),
    ensures
        m.write_word(addr, value).read_word(addr) == value,
        m.write_word(addr, value).read(addr) == (value & 0xFF) as u8,
        m.write_word(addr, value).read(next_addr(addr)) == (value >> 8) as u8,
{
    reveal(MmuView::read);
    reveal(MmuView::write);
    crate::bitops::lemma_word_bytes(value);
    let m2 = m.write_word(addr, value);
    assert(m2.read(addr) == (value & 0xFF) as u8);
    assert(m2.read(next_addr(addr)) == (value >> 8) as u8);
}

/// After `LD (nn), SP` stores the stack pointer, the byte at nn is SP's
/// low byte, the byte at nn+1 is SP's high byte, and the stored word
/// reads back as SP itself.
pub proof fn lemma_store_sp_round_trip(m: MmuView, nn: u16, sp: u16)
    requires
        m.wf(),
        writable_ram(nn),
        writable_ram(next_addr(nn)),
    ensures
        m.write_word(nn, sp).read(nn) == (sp & 0xFF) as u8,
        m.write_word(nn, sp).read(next_addr(nn)) == (sp >> 8) as u8,
        m.write_word(nn, sp).read_word(nn) == sp,
{
    lemma_word_round_trip(m, nn, sp);
}

} // verus!
