//! Core of a cycle-approximate emulator for a handheld 8-bit console built
//! around the Sharp LR35902. The crate provides the CPU interpreter, the
//! memory management unit, the bank-switching cartridge controllers, the
//! pixel processing unit, the timer unit and the joypad matrix, all advancing
//! in lockstep under a machine-cycle budget.

use vstd::prelude::*;

pub mod bitops;
pub mod cpu;
pub mod cartridge;
pub mod joypad;
pub mod lcd;
pub mod ppu;
pub mod memory;
pub mod mmu;
pub mod motherboard;
pub mod timers;

verus! {

/// Errors the core recognises. Everything else a guest program can do
/// (writes to ROM, reads of the forbidden region, unusual PPU sequences)
/// is defined behaviour, not an error.
#[derive(Clone, Copy, Debug, PartialEq, Eq, Structural)]
pub enum EmuError {
    /// Cartridge header byte 0x0147 names a mapper this core does not support.
    UnsupportedCartType(u8),
    /// One of the eleven illegal base opcodes was fetched for execution.
    UnsupportedOpcode(u8),
}

} // verus!
