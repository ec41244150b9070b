//! Bank-switching cartridge controllers. Each controller maps the two
//! cart-visible guest windows (0x0000-0x7FFF and 0xA000-0xBFFF) onto its ROM
//! image and optional external RAM, driven by the bank registers that guest
//! writes into the ROM window set.

use vstd::prelude::*;

use crate::EmuError;

verus! {

pub const ROM_BANK_SIZE: usize = 0x4000;
pub const RAM_BANK_SIZE: usize = 0x2000;

/// External RAM size selected by header byte 0x0149; codes outside the
/// table mean no RAM.
pub open spec fn spec_ram_size(code: u8) -> nat {
    if code == 2 {
        8192
    } else if code == 3 {
        32768
    } else if code == 4 {
        131072
    } else if code == 5 {
        65536
    } else {
        0
    }
}

/// The RAM sizes a controller can carry (including none).
pub open spec fn valid_ram_len(n: nat) -> bool {
    n == 0 || n == 8192 || n == 32768 || n == 131072 || n == 65536
}

/// A ROM image is at least two banks and a whole number of banks long.
pub open spec fn valid_rom_len(n: nat) -> bool {
    n >= 0x8000 && n % (ROM_BANK_SIZE as nat) == 0
}

/// Read/write access over the two cart-mapped guest windows.
pub trait Cartridge {
    fn read(&self, addr: u16) -> u8;

    fn write(&mut self, addr: u16, value: u8);
}

// ---------------------------------------------------------------------------
// No mapper: 32 KiB of ROM mirrored directly, no RAM.
// ---------------------------------------------------------------------------

pub struct NoMBC {
    rom: Vec<u8>,
}

/// Model of the mapperless cartridge: the ROM bytes alone.
#[verifier::ext_equal]
pub ghost struct NoMBCView {
    pub rom: Seq<u8>,
}

impl View for NoMBC {
    type V = NoMBCView;

    closed spec fn view(&self) -> NoMBCView {
        NoMBCView { rom: self.rom@ }
    }
}

impl NoMBCView {
    pub open spec fn wf(self) -> bool {
        valid_rom_len(self.rom.len())
    }

    /// ROM bytes appear as stored; everything else is open bus (0xFF).
    pub open spec fn read(self, addr: u16) -> u8
        recommends
            self.wf(),
    {
        if addr < 0x8000 && addr < self.rom.len() {
            self.rom[addr as int]
        } else {
            0xFF
        }
    }
}

impl NoMBC {
    pub fn new(rom: &Vec<u8>) -> (r: NoMBC)
        requires
            valid_rom_len(rom@.len()),
        ensures
            r@.rom == rom@,
            r@.wf(),
    {
        NoMBC { rom: copy_bytes(rom) }
    }

    pub fn cart_read(&self, addr: u16) -> (r: u8)
        requires
            self@.wf(),
        ensures
            r == self@.read(addr),
    {
        if addr < 0x8000 {
            if (addr as usize) < self.rom.len() {
                return self.rom[addr as usize];
            }
        }
        0xFF
    }

    /// Writing to a cartridge without a mapper changes nothing.
    pub fn cart_write(&mut self, addr: u16, value: u8)
        ensures
            final(self)@ == old(self)@,
    {
    }
}

impl Cartridge for NoMBC {
    fn read(&self, addr: u16) -> u8 {
        if self.rom.len() >= 0x8000 && self.rom.len() % ROM_BANK_SIZE == 0 {
            self.cart_read(addr)
        } else {
            0xFF
        }
    }

    fn write(&mut self, addr: u16, value: u8) {
        self.cart_write(addr, value);
    }
}

// ---------------------------------------------------------------------------
// MBC1: 5-bit low ROM bank, 2-bit high bank bits, ROM/RAM banking mode.
// ---------------------------------------------------------------------------

pub struct MBC1 {
    rom: Vec<u8>,
    ram: Vec<u8>,
    ram_enable: bool,
    rom_bank_low: u8,
    bank_hi: u8,
    mode: bool,
}

/// Model of the MBC1 controller: stores plus the four bank registers.
#[verifier::ext_equal]
pub ghost struct MBC1View {
    pub rom: Seq<u8>,
    pub ram: Seq<u8>,
    pub ram_enable: bool,
    pub rom_bank_low: u8,
    pub bank_hi: u8,
    pub mode: bool,
}

impl View for MBC1 {
    type V = MBC1View;

    closed spec fn view(&self) -> MBC1View {
        MBC1View {
            rom: self.rom@,
            ram: self.ram@,
            ram_enable: self.ram_enable,
            rom_bank_low: self.rom_bank_low,
            bank_hi: self.bank_hi,
            mode: self.mode,
        }
    }
}

impl MBC1View {
    pub open spec fn wf(self) -> bool {
        &&& valid_rom_len(self.rom.len())
        &&& valid_ram_len(self.ram.len())
        &&& 1 <= self.rom_bank_low < 32
        &&& self.bank_hi < 4
    }

    pub open spec fn rom_bank_count(self) -> int {
        self.rom.len() as int / ROM_BANK_SIZE as int
    }

    /// Bank mapped at 0x0000-0x3FFF: bank 0, except in RAM-banking mode on
    /// large (>= 1 MiB) carts, where the two high bits contribute.
    pub open spec fn low_window_bank(self) -> int {
        if self.mode && self.rom.len() >= 0x100000 {
            (self.bank_hi as int * 32) % self.rom_bank_count()
        } else {
            0
        }
    }

    /// Bank mapped at 0x4000-0x7FFF.
    pub open spec fn high_window_bank(self) -> int {
        (self.bank_hi as int * 32 + self.rom_bank_low as int) % self.rom_bank_count()
    }

    /// RAM bank mapped at 0xA000-0xBFFF: selectable only in RAM-banking mode
    /// on 32 KiB RAM carts.
    pub open spec fn ram_bank(self) -> int {
        if self.mode && self.ram.len() == 32768 {
            self.bank_hi as int
        } else {
            0
        }
    }

    pub open spec fn read(self, addr: u16) -> u8
        recommends
            self.wf(),
    {
        if addr < 0x4000 {
            self.rom[self.low_window_bank() * ROM_BANK_SIZE as int + addr]
        } else if addr < 0x8000 {
            self.rom[self.high_window_bank() * ROM_BANK_SIZE as int + (addr - 0x4000)]
        } else if 0xA000 <= addr < 0xC000 {
            if self.ram_enable && self.ram.len() > 0 {
                self.ram[self.ram_bank() * RAM_BANK_SIZE as int + (addr - 0xA000)]
            } else {
                0xFF
            }
        } else {
            0xFF
        }
    }

    pub open spec fn write(self, addr: u16, value: u8) -> MBC1View
        recommends
            self.wf(),
    {
        if addr < 0x2000 {
            MBC1View { ram_enable: value & 0x0F == 0x0A, ..self }
        } else if addr < 0x4000 {
            MBC1View {
                rom_bank_low: if value & 0x1F == 0 { 1 } else { value & 0x1F },
                ..self
            }
        } else if addr < 0x6000 {
            MBC1View { bank_hi: value & 0x3, ..self }
        } else if addr < 0x8000 {
            MBC1View { mode: value & 1 == 1, ..self }
        } else if 0xA000 <= addr < 0xC000 {
            if self.ram_enable && self.ram.len() > 0 {
                MBC1View {
                    ram: self.ram.update(
                        self.ram_bank() * RAM_BANK_SIZE as int + (addr - 0xA000),
                        value,
                    ),
                    ..self
                }
            } else {
                self
            }
        } else {
            self
        }
    }
}

impl MBC1 {
    pub fn new(rom: &Vec<u8>, ram_size: usize) -> (r: MBC1)
        requires
            valid_rom_len(rom@.len()),
            valid_ram_len(ram_size as nat),
        ensures
            r@ == (MBC1View {
                rom: rom@,
                ram: Seq::new(ram_size as nat, |i: int| 0u8),
                ram_enable: false,
                rom_bank_low: 1,
                bank_hi: 0,
                mode: false,
            }),
            r@.wf(),
    {
        let r = MBC1 {
            rom: copy_bytes(rom),
            ram: vec![0u8; ram_size],
            ram_enable: false,
            rom_bank_low: 1,
            bank_hi: 0,
            mode: false,
        };
        proof {
            assert(r@.ram =~= Seq::new(ram_size as nat, |i: int| 0u8));
            assert(r@ =~= (MBC1View {
                rom: rom@,
                ram: Seq::new(ram_size as nat, |i: int| 0u8),
                ram_enable: false,
                rom_bank_low: 1,
                bank_hi: 0,
                mode: false,
            }));
        }
        r
    }

    pub fn cart_read(&self, addr: u16) -> (r: u8)
        requires
            self@.wf(),
        ensures
            r == self@.read(addr),
    {
        let bank_count: usize = self.rom.len() / ROM_BANK_SIZE;
        proof {
            lemma_bank_offset_in_range(self.rom@.len() as int, 0);
        }
        if addr < 0x4000 {
            let bank: usize = if self.mode && self.rom.len() >= 0x100000 {
                (self.bank_hi as usize * 32) % bank_count
            } else {
                0
            };
            proof {
                lemma_bank_offset_in_range(self.rom@.len() as int, self@.low_window_bank());
            }
            self.rom[bank * ROM_BANK_SIZE + addr as usize]
        } else if addr < 0x8000 {
            let bank: usize = (self.bank_hi as usize * 32 + self.rom_bank_low as usize)
                % bank_count;
            proof {
                lemma_bank_offset_in_range(self.rom@.len() as int, self@.high_window_bank());
            }
            self.rom[bank * ROM_BANK_SIZE + (addr as usize - 0x4000)]
        } else if 0xA000 <= addr && addr < 0xC000 {
            if self.ram_enable && self.ram.len() > 0 {
                let bank: usize = if self.mode && self.ram.len() == 32768 {
                    self.bank_hi as usize
                } else {
                    0
                };
                self.ram[bank * RAM_BANK_SIZE + (addr as usize - 0xA000)]
            } else {
                0xFF
            }
        } else {
            0xFF
        }
    }

    pub fn cart_write(&mut self, addr: u16, value: u8)
        requires
            old(self)@.wf(),
        ensures
            final(self)@ == old(self)@.write(addr, value),
            final(self)@.wf(),
    {
        if addr < 0x2000 {
            self.ram_enable = value & 0x0F == 0x0A;
        } else if addr < 0x4000 {
            let bits = value & 0x1F;
            proof {
                assert(value & 0x1F < 32) by (bit_vector);
            }
            self.rom_bank_low = if bits == 0 { 1 } else { bits };
        } else if addr < 0x6000 {
            proof {
                assert(value & 0x3 < 4) by (bit_vector);
            }
            self.bank_hi = value & 0x3;
        } else if addr < 0x8000 {
            self.mode = value & 1 == 1;
        } else if 0xA000 <= addr && addr < 0xC000 {
            if self.ram_enable && self.ram.len() > 0 {
                let bank: usize = if self.mode && self.ram.len() == 32768 {
                    self.bank_hi as usize
                } else {
                    0
                };
                self.ram.set(bank * RAM_BANK_SIZE + (addr as usize - 0xA000), value);
            }
        }
    }
}

impl Cartridge for MBC1 {
    fn read(&self, addr: u16) -> u8 {
        if self.wf_exec() {
            self.cart_read(addr)
        } else {
            0xFF
        }
    }

    fn write(&mut self, addr: u16, value: u8) {
        if self.wf_exec() {
            self.cart_write(addr, value);
        }
    }
}

impl MBC1 {
    /// Runtime check of the model invariant, for unverified entry points.
    fn wf_exec(&self) -> (r: bool)
        ensures
            r == self@.wf(),
    {
        self.rom.len() >= 0x8000 && self.rom.len() % ROM_BANK_SIZE == 0 && (self.ram.len() == 0
            || self.ram.len() == 8192 || self.ram.len() == 32768 || self.ram.len() == 131072
            || self.ram.len() == 65536) && 1 <= self.rom_bank_low && self.rom_bank_low < 32
            && self.bank_hi < 4
    }
}

/// A bank index below the bank count addresses a whole bank inside the ROM.
proof fn lemma_bank_offset_in_range(len: int, bank: int)
    requires
        len >= 0x8000,
        len % (ROM_BANK_SIZE as int) == 0,
        bank >= 0,
    ensures
        len / (ROM_BANK_SIZE as int) >= 2,
        bank < len / (ROM_BANK_SIZE as int) ==> bank * (ROM_BANK_SIZE as int) + (ROM_BANK_SIZE
            as int) <= len,
{
    let b = ROM_BANK_SIZE as int;
    vstd::arithmetic::div_mod::lemma_fundamental_div_mod(len, b);
    assert(len == b * (len / b));
    if bank < len / b {
        assert((bank + 1) * b <= (len / b) * b) by (nonlinear_arith)
            requires
                bank + 1 <= len / b,
                b > 0,
        ;
        assert((len / b) * b == len) by (nonlinear_arith)
            requires
                len == b * (len / b),
        ;
    }
    assert(len / b >= 2) by (nonlinear_arith)
        requires
            len >= 2 * b,
            b > 0,
            len == b * (len / b),
    ;
}

// ---------------------------------------------------------------------------
// MBC3: 7-bit ROM bank, RAM bank / RTC register selector, RTC latch.
// The real-time clock is out of scope and stays frozen at the epoch, so
// every latched clock register reads zero.
// ---------------------------------------------------------------------------

pub const RTC_REGS: usize = 5;

pub struct MBC3 {
    rom: Vec<u8>,
    ram: Vec<u8>,
    ram_enable: bool,
    rom_bank: u8,
    ram_bank_or_rtc: u8,
    latch_low: bool,
    latched_rtc: Vec<u8>,
}

/// Model of the MBC3 controller.
#[verifier::ext_equal]
pub ghost struct MBC3View {
    pub rom: Seq<u8>,
    pub ram: Seq<u8>,
    pub ram_enable: bool,
    pub rom_bank: u8,
    pub ram_bank_or_rtc: u8,
    pub latch_low: bool,
    pub latched_rtc: Seq<u8>,
}

impl View for MBC3 {
    type V = MBC3View;

    closed spec fn view(&self) -> MBC3View {
        MBC3View {
            rom: self.rom@,
            ram: self.ram@,
            ram_enable: self.ram_enable,
            rom_bank: self.rom_bank,
            ram_bank_or_rtc: self.ram_bank_or_rtc,
            latch_low: self.latch_low,
            latched_rtc: self.latched_rtc@,
        }
    }
}

impl MBC3View {
    pub open spec fn wf(self) -> bool {
        &&& valid_rom_len(self.rom.len())
        &&& valid_ram_len(self.ram.len())
        &&& 1 <= self.rom_bank < 128
        &&& self.latched_rtc.len() == RTC_REGS
    }

    pub open spec fn rom_bank_count(self) -> int {
        self.rom.len() as int / ROM_BANK_SIZE as int
    }

    /// Bank mapped at 0x4000-0x7FFF, reduced to the banks the image has.
    pub open spec fn high_window_bank(self) -> int {
        self.rom_bank as int % self.rom_bank_count()
    }

    /// Byte index into RAM for a guest address of the RAM window.
    pub open spec fn ram_index(self, addr: u16) -> int {
        self.ram_bank_or_rtc as int * RAM_BANK_SIZE as int + (addr - 0xA000)
    }

    pub open spec fn read(self, addr: u16) -> u8
        recommends
            self.wf(),
    {
        if addr < 0x4000 {
            self.rom[addr as int]
        } else if addr < 0x8000 {
            self.rom[self.high_window_bank() * ROM_BANK_SIZE as int + (addr - 0x4000)]
        } else if 0xA000 <= addr < 0xC000 {
            if !self.ram_enable {
                0xFF
            } else if self.ram_bank_or_rtc <= 3 {
                if self.ram_index(addr) < self.ram.len() {
                    self.ram[self.ram_index(addr)]
                } else {
                    0xFF
                }
            } else if 0x08 <= self.ram_bank_or_rtc <= 0x0C {
                self.latched_rtc[self.ram_bank_or_rtc - 0x08]
            } else {
                0xFF
            }
        } else {
            0xFF
        }
    }

    pub open spec fn write(self, addr: u16, value: u8) -> MBC3View
        recommends
            self.wf(),
    {
        if addr < 0x2000 {
            MBC3View { ram_enable: value == 0x0A, ..self }
        } else if addr < 0x4000 {
            MBC3View {
                rom_bank: if value & 0x7F == 0 { 1 } else { value & 0x7F },
                ..self
            }
        } else if addr < 0x6000 {
            MBC3View { ram_bank_or_rtc: value, ..self }
        } else if addr < 0x8000 {
            // Writing 0 then 1 latches the (frozen) clock into the latch
            // registers; they stay zero because the clock never advances.
            if value == 0 {
                MBC3View { latch_low: true, ..self }
            } else if value == 1 && self.latch_low {
                MBC3View {
                    latch_low: false,
                    latched_rtc: Seq::new(RTC_REGS as nat, |i: int| 0u8),
                    ..self
                }
            } else {
                MBC3View { latch_low: false, ..self }
            }
        } else if 0xA000 <= addr < 0xC000 {
            if self.ram_enable && self.ram_bank_or_rtc <= 3 && self.ram_index(addr)
                < self.ram.len() {
                MBC3View { ram: self.ram.update(self.ram_index(addr), value), ..self }
            } else {
                // Writes to a mapped clock register are ignored: the clock
                // does not run in this core.
                self
            }
        } else {
            self
        }
    }
}

impl MBC3 {
    pub fn new(rom: &Vec<u8>, ram_size: usize) -> (r: MBC3)
        requires
            valid_rom_len(rom@.len()),
            valid_ram_len(ram_size as nat),
        ensures
            r@ == (MBC3View {
                rom: rom@,
                ram: Seq::new(ram_size as nat, |i: int| 0u8),
                ram_enable: false,
                rom_bank: 1,
                ram_bank_or_rtc: 0,
                latch_low: false,
                latched_rtc: Seq::new(RTC_REGS as nat, |i: int| 0u8),
            }),
            r@.wf(),
    {
        let r = MBC3 {
            rom: copy_bytes(rom),
            ram: vec![0u8; ram_size],
            ram_enable: false,
            rom_bank: 1,
            ram_bank_or_rtc: 0,
            latch_low: false,
            latched_rtc: vec![0u8; RTC_REGS],
        };
        proof {
            assert(r@.ram =~= Seq::new(ram_size as nat, |i: int| 0u8));
            assert(r@.latched_rtc =~= Seq::new(RTC_REGS as nat, |i: int| 0u8));
            assert(r@ =~= (MBC3View {
                rom: rom@,
                ram: Seq::new(ram_size as nat, |i: int| 0u8),
                ram_enable: false,
                rom_bank: 1,
                ram_bank_or_rtc: 0,
                latch_low: false,
                latched_rtc: Seq::new(RTC_REGS as nat, |i: int| 0u8),
            }));
        }
        r
    }

    pub fn cart_read(&self, addr: u16) -> (r: u8)
        requires
            self@.wf(),
        ensures
            r == self@.read(addr),
    {
        if addr < 0x4000 {
            self.rom[addr as usize]
        } else if addr < 0x8000 {
            let bank_count: usize = self.rom.len() / ROM_BANK_SIZE;
            proof {
                lemma_bank_offset_in_range(self.rom@.len() as int, self@.high_window_bank());
            }
            let bank: usize = self.rom_bank as usize % bank_count;
            self.rom[bank * ROM_BANK_SIZE + (addr as usize - 0x4000)]
        } else if 0xA000 <= addr && addr < 0xC000 {
            if !self.ram_enable {
                0xFF
            } else if self.ram_bank_or_rtc <= 3 {
                let idx: usize = self.ram_bank_or_rtc as usize * RAM_BANK_SIZE + (addr as usize
                    - 0xA000);
                if idx < self.ram.len() {
                    self.ram[idx]
                } else {
                    0xFF
                }
            } else if 0x08 <= self.ram_bank_or_rtc && self.ram_bank_or_rtc <= 0x0C {
                self.latched_rtc[(self.ram_bank_or_rtc - 0x08) as usize]
            } else {
                0xFF
            }
        } else {
            0xFF
        }
    }

    pub fn cart_write(&mut self, addr: u16, value: u8)
        requires
            old(self)@.wf(),
        ensures
            final(self)@ == old(self)@.write(addr, value),
            final(self)@.wf(),
    {
        if addr < 0x2000 {
            self.ram_enable = value == 0x0A;
        } else if addr < 0x4000 {
            let bits = value & 0x7F;
            self.rom_bank = if bits == 0 { 1 } else { bits };
            proof {
                assert(value & 0x7F < 128) by (bit_vector);
            }
        } else if addr < 0x6000 {
            self.ram_bank_or_rtc = value;
        } else if addr < 0x8000 {
            if value == 0 {
                self.latch_low = true;
            } else if value == 1 && self.latch_low {
                self.latch_low = false;
                self.latched_rtc = vec![0u8; RTC_REGS];
                proof {
                    assert(self@.latched_rtc =~= Seq::new(RTC_REGS as nat, |i: int| 0u8));
                }
            } else {
                self.latch_low = false;
            }
        } else if 0xA000 <= addr && addr < 0xC000 {
            if self.ram_enable && self.ram_bank_or_rtc <= 3 {
                let idx: usize = self.ram_bank_or_rtc as usize * RAM_BANK_SIZE + (addr as usize
                    - 0xA000);
                if idx < self.ram.len() {
                    self.ram.set(idx, value);
                }
            }
        }
    }
}

impl Cartridge for MBC3 {
    fn read(&self, addr: u16) -> u8 {
        if self.wf_exec() {
            self.cart_read(addr)
        } else {
            0xFF
        }
    }

    fn write(&mut self, addr: u16, value: u8) {
        if self.wf_exec() {
            self.cart_write(addr, value);
        }
    }
}

impl MBC3 {
    /// Runtime check of the model invariant, for unverified entry points.
    fn wf_exec(&self) -> (r: bool)
        ensures
            r == self@.wf(),
    {
        self.rom.len() >= 0x8000 && self.rom.len() % ROM_BANK_SIZE == 0 && (self.ram.len() == 0
            || self.ram.len() == 8192 || self.ram.len() == 32768 || self.ram.len() == 131072
            || self.ram.len() == 65536) && 1 <= self.rom_bank && self.rom_bank < 128
            && self.latched_rtc.len() == RTC_REGS
    }
}

// ---------------------------------------------------------------------------
// The controller variants a session can be built with.
// ---------------------------------------------------------------------------

pub enum CartridgeType {
    NoMBC(NoMBC),
    MBC1(MBC1),
    MBC3(MBC3),
}

/// Model of whichever controller is active.
#[verifier::ext_equal]
pub ghost enum CartView {
    NoMBC(NoMBCView),
    MBC1(MBC1View),
    MBC3(MBC3View),
}

impl View for CartridgeType {
    type V = CartView;

    open spec fn view(&self) -> CartView {
        match self {
            CartridgeType::NoMBC(c) => CartView::NoMBC(c@),
            CartridgeType::MBC1(c) => CartView::MBC1(c@),
            CartridgeType::MBC3(c) => CartView::MBC3(c@),
        }
    }
}

impl CartView {
    pub open spec fn wf(self) -> bool {
        match self {
            CartView::NoMBC(c) => c.wf(),
            CartView::MBC1(c) => c.wf(),
            CartView::MBC3(c) => c.wf(),
        }
    }

    pub open spec fn read(self, addr: u16) -> u8
        recommends
            self.wf(),
    {
        match self {
            CartView::NoMBC(c) => c.read(addr),
            CartView::MBC1(c) => c.read(addr),
            CartView::MBC3(c) => c.read(addr),
        }
    }

    pub open spec fn write(self, addr: u16, value: u8) -> CartView
        recommends
            self.wf(),
    {
        match self {
            CartView::NoMBC(c) => self,
            CartView::MBC1(c) => CartView::MBC1(c.write(addr, value)),
            CartView::MBC3(c) => CartView::MBC3(c.write(addr, value)),
        }
    }

    /// The ROM image is immutable whatever the guest writes.
    pub open spec fn rom(self) -> Seq<u8> {
        match self {
            CartView::NoMBC(c) => c.rom,
            CartView::MBC1(c) => c.rom,
            CartView::MBC3(c) => c.rom,
        }
    }
}

impl Cartridge for CartridgeType {
    fn read(&self, addr: u16) -> u8 {
        match self {
            CartridgeType::NoMBC(c) => Cartridge::read(c, addr),
            CartridgeType::MBC1(c) => Cartridge::read(c, addr),
            CartridgeType::MBC3(c) => Cartridge::read(c, addr),
        }
    }

    fn write(&mut self, addr: u16, value: u8) {
        match self {
            CartridgeType::NoMBC(c) => Cartridge::write(c, addr, value),
            CartridgeType::MBC1(c) => Cartridge::write(c, addr, value),
            CartridgeType::MBC3(c) => Cartridge::write(c, addr, value),
        }
    }
}

impl CartridgeType {
    pub fn read(&self, addr: u16) -> (r: u8)
        requires
            self@.wf(),
        ensures
            r == self@.read(addr),
    {
        match self {
            CartridgeType::NoMBC(c) => c.cart_read(addr),
            CartridgeType::MBC1(c) => c.cart_read(addr),
            CartridgeType::MBC3(c) => c.cart_read(addr),
        }
    }

    pub fn write(&mut self, addr: u16, value: u8)
        requires
            old(self)@.wf(),
        ensures
            final(self)@ == old(self)@.write(addr, value),
            final(self)@.wf(),
    {
        match self {
            CartridgeType::NoMBC(c) => c.cart_write(addr, value),
            CartridgeType::MBC1(c) => c.cart_write(addr, value),
            CartridgeType::MBC3(c) => c.cart_write(addr, value),
        }
    }
}

/// Supported mapper selectors in header byte 0x0147.
pub open spec fn supported_cart_type(t: u8) -> bool {
    t == 0x00 || (0x01 <= t <= 0x03) || (0x0F <= t <= 0x13)
}

/// Build the controller the ROM header asks for. The header names the
/// mapper at 0x0147 and the external RAM size code at 0x0149; an unknown
/// RAM size code means no RAM.
pub fn load_cartridge(rom: &Vec<u8>) -> (r: Result<CartridgeType, EmuError>)
    requires
        valid_rom_len(rom@.len()),
    ensures
        r.is_ok() <==> supported_cart_type(rom@[0x0147]),
        r.is_err() ==> r == Err::<CartridgeType, EmuError>(
            EmuError::UnsupportedCartType(rom@[0x0147]),
        ),
        r.is_ok() ==> (final_cart(r)).wf(),
        r.is_ok() ==> (final_cart(r)).rom() == rom@,
        r.is_ok() ==> match final_cart(r) {
            CartView::NoMBC(c) => rom@[0x0147] == 0,
            CartView::MBC1(c) => 0x01 <= rom@[0x0147] <= 0x03 && c.ram.len() == spec_ram_size(
                rom@[0x0149],
            ) && !c.ram_enable && c.rom_bank_low == 1 && c.bank_hi == 0 && !c.mode,
            CartView::MBC3(c) => 0x0F <= rom@[0x0147] <= 0x13 && c.ram.len() == spec_ram_size(
                rom@[0x0149],
            ) && !c.ram_enable && c.rom_bank == 1 && c.ram_bank_or_rtc == 0,
        },
{
    let cart_type: u8 = rom[0x0147];
    let ram_code: u8 = rom[0x0149];
    let ram_size: usize = if ram_code == 2 {
        8192
    } else if ram_code == 3 {
        32768
    } else if ram_code == 4 {
        131072
    } else if ram_code == 5 {
        65536
    } else {
        0
    };

    if cart_type == 0x00 {
        Ok(CartridgeType::NoMBC(NoMBC::new(rom)))
    } else if 0x01 <= cart_type && cart_type <= 0x03 {
        Ok(CartridgeType::MBC1(MBC1::new(rom, ram_size)))
    } else if 0x0F <= cart_type && cart_type <= 0x13 {
        Ok(CartridgeType::MBC3(MBC3::new(rom, ram_size)))
    } else {
        Err(EmuError::UnsupportedCartType(cart_type))
    }
}

/// The controller model carried by a successful load.
pub open spec fn final_cart(r: Result<CartridgeType, EmuError>) -> CartView
    recommends
        r.is_ok(),
{
    r.unwrap()@
}

/// Element-for-element copy of a byte image.
fn copy_bytes(src: &Vec<u8>) -> (r: Vec<u8>)
    ensures
        r@ == src@,
{
    let mut r: Vec<u8> = Vec::new();
    let mut i: usize = 0;
    while i < src.len()
        invariant
            i <= src@.len(),
            r@ == src@.subrange(0, i as int),
        decreases src@.len() - i,
    {
        r.push(src[i]);
        proof {
            assert(r@ =~= src@.subrange(0, i + 1));
        }
        i += 1;
    }
    proof {
        assert(r@ =~= src@);
    }
    r
}

} // verus!
