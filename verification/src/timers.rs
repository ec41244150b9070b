//! Timer unit: DIV advances at a fixed rate, TIMA at the TAC-selected
//! rate, reloading from TMA and raising the timer interrupt on overflow.

use vstd::prelude::*;

use crate::mmu::Mmu;
use crate::mmu::MmuView;
use crate::ppu::PpuView;

verus! {

/// Mathematical model of the timer accumulators.
#[verifier::ext_equal]
pub ghost struct TimersView {
    pub div_partial: u8,
    pub tima_partial: u16,
}

pub struct Timers {
    div_partial: u8,
    tima_partial: u16,
}

impl View for Timers {
    type V = TimersView;

    closed spec fn view(&self) -> TimersView {
        TimersView { div_partial: self.div_partial, tima_partial: self.tima_partial }
    }
}

/// The dot-cycle period selected by the low two bits of TAC.
pub open spec fn spec_timer_step(tac: u8) -> int {
    if tac & 0x03 == 0 {
        1024
    } else if tac & 0x03 == 1 {
        16
    } else if tac & 0x03 == 2 {
        64
    } else {
        256
    }
}

/// Store a byte in an IO register of the model.
pub open spec fn io_store(m: MmuView, idx: int, value: u8) -> MmuView {
    MmuView { ppu: PpuView { io: m.ppu.io.update(idx, value), ..m.ppu }, ..m }
}

/// One TIMA increment: on 8-bit overflow reload from TMA and raise the
/// timer interrupt bit, else step by one.
pub open spec fn tima_step(m: MmuView) -> MmuView {
    let tima = m.ppu.io[0x05];
    if tima == 0xFF {
        let reloaded = io_store(m, 0x05, m.ppu.io[0x06]);
        io_store(reloaded, 0x0F, reloaded.ppu.io[0x0F] | 0x04)
    } else {
        io_store(m, 0x05, (tima + 1) as u8)
    }
}

/// Drain whole periods out of the TIMA accumulator, stepping TIMA once
/// per period.
pub open spec fn drain_tima(m: MmuView, partial: int, step: int) -> (MmuView, int)
    recommends
        step >= 16,
        partial >= 0,
    decreases partial,
{
    if step > 0 && partial > step {
        drain_tima(tima_step(m), partial - step, step)
    } else {
        (m, partial)
    }
}

/// The whole effect of one timer tick on the accumulators and the IO
/// registers (DIV, TIMA, IF).
pub open spec fn timers_tick_spec(t: TimersView, m: MmuView, mcycles: u8) -> (TimersView, MmuView) {
    let cycles = 4 * mcycles as int;
    let div_sum = t.div_partial + cycles;
    let m1 = if div_sum > 0xFF {
        io_store(m, 0x04, ((m.ppu.io[0x04] + 1) % 256) as u8)
    } else {
        m
    };
    let tac = m.ppu.io[0x07];
    if tac & 0x04 != 0 {
        let step = spec_timer_step(tac);
        let drained = drain_tima(m1, t.tima_partial + cycles, step);
        (
            TimersView { div_partial: (div_sum % 256) as u8, tima_partial: drained.1 as u16 },
            drained.0,
        )
    } else {
        (TimersView { div_partial: (div_sum % 256) as u8, tima_partial: t.tima_partial }, m1)
    }
}

impl Timers {
    pub fn new() -> (r: Timers)
        ensures
            r@ == (TimersView { div_partial: 0u8, tima_partial: 0u16 }),
    {
        Timers { div_partial: 0, tima_partial: 0 }
    }

    /// Advance the timers by the elapsed machine cycles, updating DIV,
    /// TIMA and the interrupt-request register through the MMU.
    #[verifier::loop_isolation(false)]
    pub fn tick(&mut self, mmu: &mut Mmu, mcycles: u8)
        requires
            old(self)@.tima_partial <= 1024,
            old(mmu)@.wf(),
            mcycles <= 114,
        ensures
            (final(self)@, final(mmu)@) == timers_tick_spec(old(self)@, old(mmu)@, mcycles),
            final(self)@.tima_partial <= 1024,
            final(mmu)@.wf(),
    {
        proof {
            reveal(crate::mmu::MmuView::read);
        }
        let t_cycles: u16 = 4 * mcycles as u16;

        // DIV: an 8-bit accumulator; each wrap steps the register once.
        let div_sum: u16 = self.div_partial as u16 + t_cycles;
        if div_sum > 0xFF {
            let prev_div: u8 = mmu.read(0xFF04);
            mmu.set_io_reg(0x04, if prev_div == 0xFF {
                0
            } else {
                prev_div + 1
            });
        }
        self.div_partial = (div_sum % 256) as u8;

        // TIMA: gated on TAC bit 2, stepping once per selected period.
        let tac: u8 = mmu.read(0xFF07);
        if tac & 0x04 != 0 {
            let timer_step: u16 = if tac & 0x03 == 0 {
                1024
            } else if tac & 0x03 == 1 {
                16
            } else if tac & 0x03 == 2 {
                64
            } else {
                256
            };
            let mut partial: u16 = self.tima_partial + t_cycles;
            let ghost m1 = mmu@;
            let ghost partial0 = partial as int;
            while partial > timer_step
                invariant
                    mmu@.wf(),
                    partial >= 0,
                    drain_tima(mmu@, partial as int, timer_step as int) == drain_tima(
                        m1,
                        partial0,
                        timer_step as int,
                    ),
                decreases partial,
            {
                let prev_tima: u8 = mmu.read(0xFF05);
                if prev_tima == 0xFF {
                    let tma: u8 = mmu.read(0xFF06);
                    mmu.set_io_reg(0x05, tma);
                    let iflags: u8 = mmu.read(0xFF0F);
                    mmu.set_io_reg(0x0F, iflags | 0x04);
                } else {
                    mmu.set_io_reg(0x05, prev_tima + 1);
                }
                partial = partial - timer_step;
            }
            self.tima_partial = partial;
        }
    }
}

} // verus!
