//! Flat storage for the guest regions that belong to neither the cartridge
//! nor the PPU: work RAM (0xC000-0xDFFF) and high RAM together with the
//! interrupt-enable register (0xFF80-0xFFFF).

use vstd::prelude::*;

verus! {

pub const WRAM_SIZE: usize = 8192;
pub const HRAM_SIZE: usize = 128;

/// Mathematical model of the RAM component: the two byte stores.
#[verifier::ext_equal]
pub ghost struct MemView {
    pub wram: Seq<u8>,
    pub high_ram: Seq<u8>,
}

impl MemView {
    /// Both stores have their fixed hardware sizes.
    pub open spec fn wf(self) -> bool {
        &&& self.wram.len() == WRAM_SIZE
        &&& self.high_ram.len() == HRAM_SIZE
    }

    /// Addresses this component serves: work RAM and high RAM plus IE.
    pub open spec fn in_range(addr: u16) -> bool {
        (0xC000 <= addr < 0xE000) || 0xFF80 <= addr
    }

    /// Value stored at a served address.
    pub open spec fn read(self, addr: u16) -> u8
        recommends
            self.wf(),
            Self::in_range(addr),
    {
        if 0xC000 <= addr < 0xE000 {
            self.wram[addr - 0xC000]
        } else {
            self.high_ram[addr - 0xFF80]
        }
    }

    /// State after storing `value` at a served address.
    pub open spec fn write(self, addr: u16, value: u8) -> MemView
        recommends
            self.wf(),
            Self::in_range(addr),
    {
        if 0xC000 <= addr < 0xE000 {
            MemView { wram: self.wram.update(addr - 0xC000, value), ..self }
        } else {
            MemView { high_ram: self.high_ram.update(addr - 0xFF80, value), ..self }
        }
    }
}

/// Read/write access at guest addresses, shared by every RAM variant.
pub trait Memory {
    fn read(&self, addr: u16) -> u8;

    fn write(&mut self, addr: u16, value: u8);
}

/// The RAM fabric of the base handheld model.
pub struct DMGMemory {
    wram: Vec<u8>,
    high_ram: Vec<u8>,
}

impl View for DMGMemory {
    type V = MemView;

    closed spec fn view(&self) -> MemView {
        MemView { wram: self.wram@, high_ram: self.high_ram@ }
    }
}

impl DMGMemory {
    pub fn new() -> (r: DMGMemory)
        ensures
            r@.wf(),
            forall|i: int| 0 <= i < WRAM_SIZE ==> r@.wram[i] == 0,
            forall|i: int| 0 <= i < HRAM_SIZE ==> r@.high_ram[i] == 0,
    {
        let wram: Vec<u8> = vec![0u8; WRAM_SIZE];
        let high_ram: Vec<u8> = vec![0u8; HRAM_SIZE];
        DMGMemory { wram, high_ram }
    }

    pub fn mem_read(&self, addr: u16) -> (r: u8)
        requires
            self@.wf(),
            MemView::in_range(addr),
        ensures
            r == self@.read(addr),
    {
        if 0xC000 <= addr && addr < 0xE000 {
            self.wram[(addr - 0xC000) as usize]
        } else {
            self.high_ram[(addr - 0xFF80) as usize]
        }
    }

    pub fn mem_write(&mut self, addr: u16, value: u8)
        requires
            old(self)@.wf(),
            MemView::in_range(addr),
        ensures
            final(self)@ == old(self)@.write(addr, value),
            final(self)@.wf(),
    {
        if 0xC000 <= addr && addr < 0xE000 {
            self.wram.set((addr - 0xC000) as usize, value);
        } else {
            self.high_ram.set((addr - 0xFF80) as usize, value);
        }
    }
}

impl Memory for DMGMemory {
    fn read(&self, addr: u16) -> u8 {
        if (0xC000 <= addr && addr < 0xE000) || 0xFF80 <= addr {
            if self.wram.len() == WRAM_SIZE && self.high_ram.len() == HRAM_SIZE {
                return self.mem_read(addr);
            }
        }
        0xFF
    }

    fn write(&mut self, addr: u16, value: u8) {
        if (0xC000 <= addr && addr < 0xE000) || 0xFF80 <= addr {
            if self.wram.len() == WRAM_SIZE && self.high_ram.len() == HRAM_SIZE {
                self.mem_write(addr, value);
            }
        }
    }
}

/// The RAM variants a session can be built with; the base model has one.
pub enum MemoryType {
    DMGMemory(DMGMemory),
}

impl View for MemoryType {
    type V = MemView;

    open spec fn view(&self) -> MemView {
        match self {
            MemoryType::DMGMemory(m) => m@,
        }
    }
}

impl Memory for MemoryType {
    fn read(&self, addr: u16) -> u8 {
        match self {
            MemoryType::DMGMemory(m) => Memory::read(m, addr),
        }
    }

    fn write(&mut self, addr: u16, value: u8) {
        match self {
            MemoryType::DMGMemory(m) => Memory::write(m, addr, value),
        }
    }
}

impl MemoryType {
    pub fn read(&self, addr: u16) -> (r: u8)
        requires
            self@.wf(),
            MemView::in_range(addr),
        ensures
            r == self@.read(addr),
    {
        match self {
            MemoryType::DMGMemory(m) => m.mem_read(addr),
        }
    }

    pub fn write(&mut self, addr: u16, value: u8)
        requires
            old(self)@.wf(),
            MemView::in_range(addr),
        ensures
            final(self)@ == old(self)@.write(addr, value),
            final(self)@.wf(),
    {
        match self {
            MemoryType::DMGMemory(m) => m.mem_write(addr, value),
        }
    }
}

} // verus!
