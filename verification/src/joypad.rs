//! Joypad matrix: the set of held buttons, projected into the low nibble
//! of the JOYP register under the guest-chosen group selects, raising the
//! joypad interrupt on a fresh press.

use vstd::prelude::*;

use crate::mmu::Mmu;
use crate::mmu::MmuView;
use crate::ppu::PpuView;

verus! {

#[derive(Clone, Copy, Debug, PartialEq, Eq, Structural)]
pub enum JoypadButton {
    Up,
    Down,
    Left,
    Right,
    A,
    B,
    Start,
    Select,
}

/// One bit per button in the held-button mask.
pub open spec fn button_bit(b: JoypadButton) -> u8 {
    match b {
        JoypadButton::A => 0x01,
        JoypadButton::B => 0x02,
        JoypadButton::Select => 0x04,
        JoypadButton::Start => 0x08,
        JoypadButton::Right => 0x10,
        JoypadButton::Left => 0x20,
        JoypadButton::Up => 0x40,
        JoypadButton::Down => 0x80,
    }
}

/// A button is held exactly when its bit stands in the mask.
pub open spec fn holds(pressed: u8, b: JoypadButton) -> bool {
    pressed & button_bit(b) != 0
}

pub struct Joypad {
    pressed: u8,
}

impl View for Joypad {
    type V = u8;

    closed spec fn view(&self) -> u8 {
        self.pressed
    }
}

/// The JOYP byte after projecting the held buttons through the select
/// bits: bit 5 low selects the action group, bit 4 low the direction
/// group; a held, selected button pulls its line low.
pub open spec fn joyp_lines(pressed: u8, joyp: u8) -> u8 {
    let base = joyp | 0x0F;
    let a = if joyp & 0x20 == 0 {
        let a0 = if holds(pressed, JoypadButton::Start) {
            base & 0xF7
        } else {
            base
        };
        let a1 = if holds(pressed, JoypadButton::Select) {
            a0 & 0xFB
        } else {
            a0
        };
        let a2 = if holds(pressed, JoypadButton::B) {
            a1 & 0xFD
        } else {
            a1
        };
        if holds(pressed, JoypadButton::A) {
            a2 & 0xFE
        } else {
            a2
        }
    } else {
        base
    };
    if joyp & 0x10 == 0 {
        let d0 = if holds(pressed, JoypadButton::Down) {
            a & 0xF7
        } else {
            a
        };
        let d1 = if holds(pressed, JoypadButton::Up) {
            d0 & 0xFB
        } else {
            d0
        };
        let d2 = if holds(pressed, JoypadButton::Left) {
            d1 & 0xFD
        } else {
            d1
        };
        if holds(pressed, JoypadButton::Right) {
            d2 & 0xFE
        } else {
            d2
        }
    } else {
        a
    }
}

/// The effect of one joypad tick on the IO registers: the JOYP low
/// nibble is rebuilt, and a line falling from released to pressed raises
/// the joypad interrupt bit.
pub open spec fn joypad_tick_spec(pressed: u8, m: MmuView) -> MmuView {
    let joyp = m.ppu.io[0];
    let nj = joyp_lines(pressed, joyp);
    let m1 = MmuView { ppu: PpuView { io: m.ppu.io.update(0, nj), ..m.ppu }, ..m };
    if joyp & (!nj) & 0x0F != 0 {
        MmuView {
            ppu: PpuView {
                io: m1.ppu.io.update(0x0F, m1.ppu.io[0x0F] | 0x10),
                ..m1.ppu
            },
            ..m1
        }
    } else {
        m1
    }
}

impl Joypad {
    pub fn new() -> (r: Joypad)
        ensures
            r@ == 0u8,
    {
        Joypad { pressed: 0 }
    }

    pub fn press(&mut self, button: JoypadButton)
        ensures
            final(self)@ == old(self)@ | button_bit(button),
            holds(final(self)@, button),
    {
        let bit: u8 = match button {
            JoypadButton::A => 0x01,
            JoypadButton::B => 0x02,
            JoypadButton::Select => 0x04,
            JoypadButton::Start => 0x08,
            JoypadButton::Right => 0x10,
            JoypadButton::Left => 0x20,
            JoypadButton::Up => 0x40,
            JoypadButton::Down => 0x80,
        };
        self.pressed = self.pressed | bit;
        proof {
            let p = old(self)@;
            assert((p | bit) & bit == bit) by (bit_vector);
        }
    }

    pub fn release(&mut self, button: JoypadButton)
        ensures
            final(self)@ == old(self)@ & !button_bit(button),
            !holds(final(self)@, button),
    {
        let bit: u8 = match button {
            JoypadButton::A => 0x01,
            JoypadButton::B => 0x02,
            JoypadButton::Select => 0x04,
            JoypadButton::Start => 0x08,
            JoypadButton::Right => 0x10,
            JoypadButton::Left => 0x20,
            JoypadButton::Up => 0x40,
            JoypadButton::Down => 0x80,
        };
        self.pressed = self.pressed & !bit;
        proof {
            let p = old(self)@;
            assert((p & !bit) & bit == 0) by (bit_vector);
        }
    }

    /// Project the held buttons into JOYP and raise the joypad interrupt
    /// on any line that falls from released to pressed.
    pub fn tick(&self, mmu: &mut Mmu)
        requires
            old(mmu)@.wf(),
        ensures
            final(mmu)@ == joypad_tick_spec(self@, old(mmu)@),
            final(mmu)@.wf(),
    {
        proof {
            reveal(crate::mmu::MmuView::read);
        }
        let joyp: u8 = mmu.read(0xFF00);
        let mut nj: u8 = joyp | 0x0F;
        if joyp & 0x20 == 0 {
            if self.holds_exec(JoypadButton::Start) {
                nj = nj & 0xF7;
            }
            if self.holds_exec(JoypadButton::Select) {
                nj = nj & 0xFB;
            }
            if self.holds_exec(JoypadButton::B) {
                nj = nj & 0xFD;
            }
            if self.holds_exec(JoypadButton::A) {
                nj = nj & 0xFE;
            }
        }
        if joyp & 0x10 == 0 {
            if self.holds_exec(JoypadButton::Down) {
                nj = nj & 0xF7;
            }
            if self.holds_exec(JoypadButton::Up) {
                nj = nj & 0xFB;
            }
            if self.holds_exec(JoypadButton::Left) {
                nj = nj & 0xFD;
            }
            if self.holds_exec(JoypadButton::Right) {
                nj = nj & 0xFE;
            }
        }
        mmu.set_io_reg(0, nj);
        if joyp & (!nj) & 0x0F != 0 {
            let iflags: u8 = mmu.read(0xFF0F);
            mmu.set_io_reg(0x0F, iflags | 0x10);
        }
    }

    /// Whether a button is currently held.
    pub fn holds_exec(&self, button: JoypadButton) -> (r: bool)
        ensures
            r == holds(self@, button),
    {
        let bit: u8 = match button {
            JoypadButton::A => 0x01,
            JoypadButton::B => 0x02,
            JoypadButton::Select => 0x04,
            JoypadButton::Start => 0x08,
            JoypadButton::Right => 0x10,
            JoypadButton::Left => 0x20,
            JoypadButton::Up => 0x40,
            JoypadButton::Down => 0x80,
        };
        self.pressed & bit != 0
    }
}

} // verus!
