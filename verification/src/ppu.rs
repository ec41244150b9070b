//! Pixel processing unit: owns VRAM, OAM and the IO register file, runs the
//! per-scanline mode state machine, renders scanlines into the LCD and
//! raises the VBlank and STAT interrupt request bits.

use vstd::prelude::*;

use crate::lcd::Lcd;
use crate::lcd::LCD_WIDTH;
use crate::lcd::LCD_HEIGHT;
use crate::lcd::LCD_PIXELS;

verus! {

pub const VRAM_SIZE: usize = 8192;
pub const OAM_SIZE: usize = 160;
pub const IO_SIZE: usize = 128;

/// Scanline dot budget and frame line count.
pub const DOTS_PER_LINE: u32 = 456;
pub const LINES_PER_FRAME: u8 = 154;

// IO register indices, relative to 0xFF00.
pub const R_IF: usize = 0x0F;
pub const R_LCDC: usize = 0x40;
pub const R_STAT: usize = 0x41;
pub const R_SCY: usize = 0x42;
pub const R_SCX: usize = 0x43;
pub const R_LY: usize = 0x44;
pub const R_LYC: usize = 0x45;
pub const R_BGP: usize = 0x47;
pub const R_OBP0: usize = 0x48;
pub const R_OBP1: usize = 0x49;
pub const R_WY: usize = 0x4A;
pub const R_WX: usize = 0x4B;

#[derive(Clone, Copy, Debug, PartialEq, Eq, Structural)]
pub enum PpuMode {
    HBlank,
    VBlank,
    OAMScan,
    Drawing,
}

pub struct Ppu {
    vram: Vec<u8>,
    oam: Vec<u8>,
    io_regs: Vec<u8>,
    mode: PpuMode,
    line_cycles: u32,
    reached_window: bool,
    window_line_counter: u8,
}

/// Mathematical model of the PPU.
#[verifier::ext_equal]
pub ghost struct PpuView {
    pub vram: Seq<u8>,
    pub oam: Seq<u8>,
    pub io: Seq<u8>,
    pub mode: PpuMode,
    pub line_cycles: u32,
    pub reached_window: bool,
    pub window_line_counter: u8,
}

impl View for Ppu {
    type V = PpuView;

    closed spec fn view(&self) -> PpuView {
        PpuView {
            vram: self.vram@,
            oam: self.oam@,
            io: self.io_regs@,
            mode: self.mode,
            line_cycles: self.line_cycles,
            reached_window: self.reached_window,
            window_line_counter: self.window_line_counter,
        }
    }
}

impl PpuView {
    /// Store sizes, the per-tick timing bounds, and the guarantee that a
    /// line is only ever rendered for a visible LY.
    pub open spec fn wf(self) -> bool {
        &&& self.vram.len() == VRAM_SIZE
        &&& self.oam.len() == OAM_SIZE
        &&& self.io.len() == IO_SIZE
        &&& self.line_cycles < DOTS_PER_LINE
        &&& self.io[R_LY as int] < LINES_PER_FRAME
        &&& self.window_line_counter < LCD_HEIGHT
        &&& (self.mode == PpuMode::OAMScan || self.mode == PpuMode::Drawing) ==> self.io[
            R_LY as int] < LCD_HEIGHT
    }

    /// Addresses served by the PPU: VRAM, OAM and the IO register file.
    pub open spec fn in_range(addr: u16) -> bool {
        (0x8000 <= addr < 0xA000) || (0xFE00 <= addr < 0xFEA0) || (0xFF00 <= addr < 0xFF80)
    }

    pub open spec fn read(self, addr: u16) -> u8
        recommends
            self.wf(),
            Self::in_range(addr),
    {
        if 0x8000 <= addr < 0xA000 {
            self.vram[addr - 0x8000]
        } else if 0xFE00 <= addr < 0xFEA0 {
            self.oam[addr - 0xFE00]
        } else {
            self.io[addr - 0xFF00]
        }
    }

    /// Guest-visible write. LY is read-only: storing to it resets the line
    /// counter to zero instead.
    pub open spec fn write(self, addr: u16, value: u8) -> PpuView
        recommends
            self.wf(),
            Self::in_range(addr),
    {
        if 0x8000 <= addr < 0xA000 {
            PpuView { vram: self.vram.update(addr - 0x8000, value), ..self }
        } else if 0xFE00 <= addr < 0xFEA0 {
            PpuView { oam: self.oam.update(addr - 0xFE00, value), ..self }
        } else if addr == 0xFF00 + R_LY {
            PpuView { io: self.io.update(R_LY as int, 0), ..self }
        } else {
            PpuView { io: self.io.update(addr - 0xFF00, value), ..self }
        }
    }
}

/// The PPU state after reset: cleared stores, LCDC 0x85, OAM scan of
/// line zero just begun.
pub open spec fn initial_ppu_view() -> PpuView {
    PpuView {
        vram: Seq::new(VRAM_SIZE as nat, |i: int| 0u8),
        oam: Seq::new(OAM_SIZE as nat, |i: int| 0u8),
        io: Seq::new(IO_SIZE as nat, |i: int| if i == R_LCDC { 0x85u8 } else { 0u8 }),
        mode: PpuMode::OAMScan,
        line_cycles: 0,
        reached_window: false,
        window_line_counter: 0,
    }
}

impl Ppu {
    pub fn new() -> (r: Ppu)
        ensures
            r@ == initial_ppu_view(),
            r@.wf(),
    {
        let mut io_regs: Vec<u8> = vec![0u8; IO_SIZE];
        io_regs.set(R_LCDC, 0x85);
        let r = Ppu {
            vram: vec![0u8; VRAM_SIZE],
            oam: vec![0u8; OAM_SIZE],
            io_regs,
            mode: PpuMode::OAMScan,
            line_cycles: 0,
            reached_window: false,
            window_line_counter: 0,
        };
        proof {
            assert(r@ =~~= initial_ppu_view());
        }
        r
    }

    pub fn read(&self, addr: u16) -> (r: u8)
        requires
            self@.wf(),
            PpuView::in_range(addr),
        ensures
            r == self@.read(addr),
    {
        if 0x8000 <= addr && addr < 0xA000 {
            self.vram[(addr - 0x8000) as usize]
        } else if 0xFE00 <= addr && addr < 0xFEA0 {
            self.oam[(addr - 0xFE00) as usize]
        } else {
            self.io_regs[(addr - 0xFF00) as usize]
        }
    }

    pub fn write(&mut self, addr: u16, value: u8)
        requires
            old(self)@.wf(),
            PpuView::in_range(addr),
        ensures
            final(self)@ == old(self)@.write(addr, value),
            final(self)@.wf(),
    {
        if 0x8000 <= addr && addr < 0xA000 {
            self.vram.set((addr - 0x8000) as usize, value);
        } else if 0xFE00 <= addr && addr < 0xFEA0 {
            self.oam.set((addr - 0xFE00) as usize, value);
        } else if addr == 0xFF44 {
            self.io_regs.set(R_LY, 0);
        } else {
            self.io_regs.set((addr - 0xFF00) as usize, value);
        }
    }

    /// Device-side register store, used by the timers and the joypad for
    /// registers whose guest-visible write behaviour differs from a plain
    /// store. LY stays under the PPU's own control.
    pub fn set_io_reg(&mut self, idx: usize, value: u8)
        requires
            old(self)@.wf(),
            idx < IO_SIZE,
            idx != R_LY,
        ensures
            final(self)@ == (PpuView { io: old(self)@.io.update(idx as int, value), ..old(self)@ }),
            final(self)@.wf(),
    {
        self.io_regs.set(idx, value);
    }

    /// OAM DMA landing: replace the whole OAM with the copied block.
    pub fn dma(&mut self, data: &Vec<u8>)
        requires
            old(self)@.wf(),
            data@.len() == OAM_SIZE,
        ensures
            final(self)@ == (PpuView { oam: data@, ..old(self)@ }),
            final(self)@.wf(),
    {
        let mut i: usize = 0;
        while i < OAM_SIZE
            invariant
                old(self)@.wf(),
                data@.len() == OAM_SIZE,
                i <= OAM_SIZE,
                self@.oam.len() == OAM_SIZE,
                forall|j: int| 0 <= j < i ==> self@.oam[j] == data@[j],
                forall|j: int| i <= j < OAM_SIZE ==> self@.oam[j] == old(self)@.oam[j],
                self@ == (PpuView { oam: self@.oam, ..old(self)@ }),
            decreases OAM_SIZE - i,
        {
            self.oam.set(i, data[i]);
            i += 1;
        }
        proof {
            assert(self@.oam =~= data@);
            assert(self@ =~= (PpuView { oam: data@, ..old(self)@ }));
        }
    }
}

// ---------------------------------------------------------------------------
// The per-tick state machine, stated as a pipeline of four phases.
// ---------------------------------------------------------------------------

/// Raise an interrupt request bit in IF.
pub open spec fn spec_set_if(io: Seq<u8>, mask: u8) -> Seq<u8>
    recommends
        io.len() == IO_SIZE,
{
    io.update(R_IF as int, io[R_IF as int] | mask)
}

/// Encoding of the mode in STAT bits 1..0.
pub open spec fn mode_bits(m: PpuMode) -> u8 {
    match m {
        PpuMode::HBlank => 0,
        PpuMode::VBlank => 1,
        PpuMode::OAMScan => 2,
        PpuMode::Drawing => 3,
    }
}

/// Phase one: account the elapsed dots; on crossing the 456-dot line
/// boundary advance LY (mod 154), note the window trigger line, raise the
/// LY==LYC STAT source, and enter VBlank (raising its interrupts once) or
/// OAMScan.
pub open spec fn ppu_rollover(p: PpuView, m_cycles: u8) -> PpuView
    recommends
        p.wf(),
        4 * m_cycles <= DOTS_PER_LINE,
{
    let lc = p.line_cycles + 4 * m_cycles;
    if lc >= 456 {
        let new_ly = (((p.io[R_LY as int] + 1) as int) % 154) as u8;
        let rw = if new_ly == p.io[R_WY as int] {
            true
        } else {
            p.reached_window
        };
        let stat = p.io[R_STAT as int];
        let io1 = p.io.update(R_LY as int, new_ly);
        let io2 = if new_ly == p.io[R_LYC as int] && stat & 0x40 != 0 {
            spec_set_if(io1, 0x02)
        } else {
            io1
        };
        if new_ly >= 144 {
            if p.mode != PpuMode::VBlank {
                let io3 = if stat & 0x10 != 0 {
                    spec_set_if(io2, 0x02)
                } else {
                    io2
                };
                PpuView {
                    io: spec_set_if(io3, 0x01),
                    mode: PpuMode::VBlank,
                    line_cycles: (lc - 456) as u32,
                    reached_window: false,
                    window_line_counter: 0,
                    ..p
                }
            } else {
                PpuView {
                    io: io2,
                    mode: PpuMode::VBlank,
                    line_cycles: (lc - 456) as u32,
                    reached_window: rw,
                    ..p
                }
            }
        } else {
            let io3 = if stat & 0x20 != 0 {
                spec_set_if(io2, 0x02)
            } else {
                io2
            };
            PpuView {
                io: io3,
                mode: PpuMode::OAMScan,
                line_cycles: (lc - 456) as u32,
                reached_window: rw,
                ..p
            }
        }
    } else {
        PpuView { line_cycles: lc as u32, ..p }
    }
}

/// The scanline is rendered in this tick: the dot counter has reached the
/// end of OAM scan.
pub open spec fn ppu_draws(p: PpuView) -> bool {
    p.line_cycles >= 80 && p.mode == PpuMode::OAMScan
}

/// The window overlay contributes to the line being rendered.
pub open spec fn window_active(p: PpuView) -> bool {
    let lcdc = p.io[R_LCDC as int];
    &&& lcdc & 0x01 != 0
    &&& lcdc & 0x20 != 0
    &&& p.io[R_LY as int] >= p.io[R_WY as int]
    &&& 7 <= p.io[R_WX as int] < 167
}

/// The internal window line counter steps once per rendered window line,
/// staying below the visible line count.
pub open spec fn wlc_after_draw(p: PpuView) -> u8 {
    if window_active(p) {
        if p.window_line_counter < 143 {
            (p.window_line_counter + 1) as u8
        } else {
            p.window_line_counter
        }
    } else {
        p.window_line_counter
    }
}

// ---------------------------------------------------------------------------
// The rendered line, pixel by pixel.
// ---------------------------------------------------------------------------

/// Start of the tile bytes for a tile index: unsigned from 0x8000 when
/// LCDC bit 4 is set, else signed from 0x9000 (base 0x8800, index+128).
pub open spec fn tile_base(lcdc: u8, tile_num: u8) -> int {
    if lcdc & 0x10 != 0 {
        tile_num * 16
    } else {
        0x800 + (if tile_num < 128 {
            tile_num + 128
        } else {
            tile_num - 128
        }) * 16
    }
}

/// The 2-bit colour index of pixel `px` in a tile row: the low bit from
/// the first byte, the high bit from the second, at bit position 7-px.
pub open spec fn pix_index(b1: u8, b2: u8, px: int) -> u8 {
    ((if b1 & (1u8 << ((7 - px) as u8)) != 0 {
        1u8
    } else {
        0u8
    }) + (if b2 & (1u8 << ((7 - px) as u8)) != 0 {
        2u8
    } else {
        0u8
    })) as u8
}

/// A colour index translated through a palette byte into a shade.
pub open spec fn palette_shade(pal: u8, idx: u8) -> u8 {
    (pal >> ((idx * 2) as u8)) & 0x3
}

/// The shade the background pass writes at screen column `x` of line
/// `ly`: the tile comes from the background map offset by the coarse
/// scroll, the pixel by the fine scroll.
pub open spec fn bg_shade(p: PpuView, ly: u8, x: int) -> u8
    recommends
        p.wf(),
        0 <= x < LCD_WIDTH,
{
    let scx = p.io[R_SCX as int];
    let scy = p.io[R_SCY as int];
    let lcdc = p.io[R_LCDC as int];
    let xt = (x + scx % 8) / 8;
    let px = (x + scx % 8) % 8;
    let tile_y = (ly + scy) % 256;
    let map_base: int = if lcdc & 0x08 != 0 {
        0x1C00
    } else {
        0x1800
    };
    let tile_num = p.vram[map_base + (xt + scx / 8) % 32 + ((tile_y / 8) % 32) * 32];
    let taddr = tile_base(lcdc, tile_num) + (tile_y % 8) * 2;
    palette_shade(p.io[R_BGP as int], pix_index(p.vram[taddr], p.vram[taddr + 1], px))
}

/// The shade the window pass writes at screen column `x`: the window's
/// own tile map, indexed by the internal window line counter, drawn
/// from its left edge at WX - 7.
pub open spec fn window_shade(p: PpuView, x: int) -> u8
    recommends
        p.wf(),
        0 <= x < LCD_WIDTH,
        x >= p.io[R_WX as int] - 7,
{
    let lcdc = p.io[R_LCDC as int];
    let wlc = p.window_line_counter;
    let xt = (x - (p.io[R_WX as int] - 7)) / 8;
    let px = (x - (p.io[R_WX as int] - 7)) % 8;
    let map_base: int = if lcdc & 0x40 != 0 {
        0x1C00
    } else {
        0x1800
    };
    let tile_num = p.vram[map_base + xt + (wlc / 8) * 32];
    let taddr = tile_base(lcdc, tile_num) + (wlc % 8) * 2;
    palette_shade(p.io[R_BGP as int], pix_index(p.vram[taddr], p.vram[taddr + 1], px))
}

/// The shade of the background and window layers together at screen
/// column `x` of line `ly`: shade 0 with the background disabled, the
/// window where it covers the column, the background elsewhere.
pub open spec fn bg_window_shade(p: PpuView, ly: u8, x: int) -> u8
    recommends
        p.wf(),
        0 <= x < LCD_WIDTH,
{
    if p.io[R_LCDC as int] & 0x01 == 0 {
        0
    } else if window_active(p) && x >= p.io[R_WX as int] - 7 {
        window_shade(p, x)
    } else {
        bg_shade(p, ly, x)
    }
}

/// Sprite height selected by LCDC bit 2: 8, or 16 in tall-sprite mode.
pub open spec fn sprite_height(p: PpuView) -> int {
    if p.io[R_LCDC as int] & 0x04 != 0 {
        16
    } else {
        8
    }
}

/// Whether OAM entry `k`'s vertical range covers line `ly`.
pub open spec fn sprite_matches(p: PpuView, ly: u8, k: int) -> bool {
    let sy = p.oam[4 * k];
    ly + 16 >= sy && ly + 16 < sy + sprite_height(p)
}

/// The two tile bytes of OAM entry `k`'s row on line `ly`, honouring
/// vertical flip and the tall-sprite index mask.
pub open spec fn sprite_row_addr(p: PpuView, ly: u8, k: int) -> int {
    let sy = p.oam[4 * k];
    let flags = p.oam[4 * k + 3];
    let h = sprite_height(p);
    let tidx = p.oam[4 * k + 2] & (if h == 16 {
        0xFEu8
    } else {
        0xFFu8
    });
    let skew: int = if flags & 0x40 != 0 {
        h - 1 - (ly + 16 - sy)
    } else {
        ly + 16 - sy
    };
    tidx * 16 + skew * 2
}

/// The 2-bit colour index of pixel `j` (left to right) of OAM entry
/// `k`'s row, honouring horizontal flip.
pub open spec fn sprite_pix(p: PpuView, ly: u8, k: int, j: int) -> u8 {
    let flags = p.oam[4 * k + 3];
    let spos: u8 = if flags & 0x20 != 0 {
        j as u8
    } else {
        (7 - j) as u8
    };
    let b1 = p.vram[sprite_row_addr(p, ly, k)];
    let b2 = p.vram[sprite_row_addr(p, ly, k) + 1];
    ((if b1 & (1u8 << spos) != 0 {
        1u8
    } else {
        0u8
    }) + (if b2 & (1u8 << spos) != 0 {
        2u8
    } else {
        0u8
    })) as u8
}

/// The palette OAM entry `k` translates its colour indices through.
pub open spec fn sprite_pal(p: PpuView, k: int) -> u8 {
    if p.oam[4 * k + 3] & 0x10 != 0 {
        p.io[R_OBP1 as int]
    } else {
        p.io[R_OBP0 as int]
    }
}

/// The sprite overlay and priority state after the first `j` pixels of
/// OAM entry `k` land: a pixel claims its column when the sprite's x is
/// strictly lower than the current claimant's; a transparent claimant
/// shows the layer below; an opaque one shows its colour unless it
/// hides behind a nonzero background pixel.
pub open spec fn apply_sprite(
    p: PpuView,
    ly: u8,
    below: Seq<u8>,
    st: (Seq<u8>, Seq<u8>),
    k: int,
    j: int,
) -> (Seq<u8>, Seq<u8>)
    decreases j,
{
    if j <= 0 {
        st
    } else {
        let st0 = apply_sprite(p, ly, below, st, k, j - 1);
        let i = j - 1;
        let sx = p.oam[4 * k + 1];
        if sx + i >= 8 && sx + i - 8 < LCD_WIDTH {
            let pos = sx + i - 8;
            if st0.1[pos] > sx {
                let prio = st0.1.update(pos, sx);
                let pv = sprite_pix(p, ly, k, i);
                if pv == 0 {
                    (st0.0.update(pos, below[pos]), prio)
                } else if below[pos] == 0 || p.oam[4 * k + 3] & 0x80 == 0 {
                    (st0.0.update(pos, palette_shade(sprite_pal(p, k), pv)), prio)
                } else {
                    (st0.0, prio)
                }
            } else {
                st0
            }
        } else {
            st0
        }
    }
}

/// The sprite overlay after the OAM scan from entry `k` on, with
/// `buffered` line sprites already taken of the ten allowed.
pub open spec fn sprite_pass(
    p: PpuView,
    ly: u8,
    below: Seq<u8>,
    st: (Seq<u8>, Seq<u8>),
    k: int,
    buffered: int,
) -> (Seq<u8>, Seq<u8>)
    decreases 40 - k,
{
    if k < 0 || k >= 40 || buffered >= 10 {
        st
    } else if sprite_matches(p, ly, k) {
        sprite_pass(p, ly, below, apply_sprite(p, ly, below, st, k, 8), k + 1, buffered + 1)
    } else {
        sprite_pass(p, ly, below, st, k + 1, buffered)
    }
}

/// The background and window layers of the whole line.
pub open spec fn base_line(p: PpuView, ly: u8) -> Seq<u8> {
    Seq::new(LCD_WIDTH as nat, |x: int| bg_window_shade(p, ly, x))
}

/// The finished sprite overlay of the whole line.
pub open spec fn sprite_overlay(p: PpuView, ly: u8) -> Seq<u8> {
    sprite_pass(
        p,
        ly,
        base_line(p, ly),
        (Seq::new(LCD_WIDTH as nat, |x: int| 0u8), Seq::new(LCD_WIDTH as nat, |x: int| 0xFFu8)),
        0,
        0,
    ).0
}

/// The shade the renderer leaves at column `x` of line `ly`: the sprite
/// overlay where it holds a nonzero shade, the background and window
/// layers elsewhere.
pub open spec fn rendered_pixel(p: PpuView, ly: u8, x: int) -> u8
    recommends
        p.wf(),
        0 <= x < LCD_WIDTH,
{
    if p.io[R_LCDC as int] & 0x02 != 0 && sprite_overlay(p, ly)[x] != 0 {
        sprite_overlay(p, ly)[x]
    } else {
        bg_window_shade(p, ly, x)
    }
}

/// Phase two: at dot 80 of OAM scan the line is rendered and the mode
/// moves to Drawing.
pub open spec fn ppu_draw_phase(p: PpuView) -> PpuView {
    if ppu_draws(p) {
        PpuView { mode: PpuMode::Drawing, window_line_counter: wlc_after_draw(p), ..p }
    } else {
        p
    }
}

/// Phase three: at dot 252 Drawing gives way to HBlank, raising its STAT
/// source if enabled.
pub open spec fn ppu_hblank_phase(p: PpuView) -> PpuView {
    if p.line_cycles >= 252 && p.mode == PpuMode::Drawing {
        let io = if p.io[R_STAT as int] & 0x08 != 0 {
            spec_set_if(p.io, 0x02)
        } else {
            p.io
        };
        PpuView { mode: PpuMode::HBlank, io, ..p }
    } else {
        p
    }
}

/// Phase four: STAT bit 2 reflects LY==LYC and bits 1..0 the mode.
pub open spec fn ppu_stat_writeback(p: PpuView) -> PpuView {
    let stat = p.io[R_STAT as int];
    let base = if p.io[R_LY as int] == p.io[R_LYC as int] {
        stat | 0x04
    } else {
        stat & 0xFB
    };
    let ns = (base & 0xFC) | mode_bits(p.mode);
    PpuView { io: p.io.update(R_STAT as int, ns), ..p }
}

/// The full effect of one tick on the PPU state.
pub open spec fn ppu_tick_spec(p: PpuView, m_cycles: u8) -> PpuView {
    ppu_stat_writeback(ppu_hblank_phase(ppu_draw_phase(ppu_rollover(p, m_cycles))))
}

/// Entering the vertical blank: when line 143 ends and the PPU was not
/// already blanking, LY becomes 144, the mode moves to VBlank (also in
/// the STAT mode bits), the VBlank interrupt is requested, the STAT
/// interrupt joins it when STAT's VBlank source is enabled, and the
/// window line counter and trigger reset.
pub proof fn lemma_vblank_entry(p: PpuView, m_cycles: u8)
    requires
        p.wf(),
        4 * m_cycles <= DOTS_PER_LINE,
        p.io[R_LY as int] == 143,
        p.line_cycles + 4 * m_cycles >= 456,
        p.mode != PpuMode::VBlank,
    ensures
        ({
            let q = ppu_tick_spec(p, m_cycles);
            &&& q.io[R_LY as int] == 144
            &&& q.mode == PpuMode::VBlank
            &&& q.io[R_STAT as int] & 0x03 == 1
            &&& q.io[R_IF as int] & 0x01 != 0
            &&& (p.io[R_STAT as int] & 0x10 != 0 ==> q.io[R_IF as int] & 0x02 != 0)
            &&& q.window_line_counter == 0
            &&& q.reached_window == false
        }),
{
    let p1 = ppu_rollover(p, m_cycles);
    let q = ppu_tick_spec(p, m_cycles);
    assert(forall|x: u8, y: u8, b: u8|
        (x | 1) & 1 != 0 && ((y | 2) | 1) & 2 != 0 && ((b & 0xFC) | 1) & 3 == 1) by (bit_vector);
    assert(q.io[R_IF as int] & 0x01 != 0);
}

impl Ppu {
    /// Request a VBlank interrupt: set bit 0 of IF.
    fn req_vblank_interrupt(&mut self)
        requires
            old(self)@.io.len() == IO_SIZE,
        ensures
            final(self)@ == (PpuView { io: spec_set_if(old(self)@.io, 0x01), ..old(self)@ }),
    {
        let v: u8 = self.io_regs[R_IF];
        self.io_regs.set(R_IF, v | 0x01);
    }

    /// Request a STAT interrupt: set bit 1 of IF.
    fn req_stat_interrupt(&mut self)
        requires
            old(self)@.io.len() == IO_SIZE,
        ensures
            final(self)@ == (PpuView { io: spec_set_if(old(self)@.io, 0x02), ..old(self)@ }),
    {
        let v: u8 = self.io_regs[R_IF];
        self.io_regs.set(R_IF, v | 0x02);
    }

    /// Render scanline `ly` into `lcd`: background and window overlay (if
    /// enabled by LCDC), then up to ten sprites with the lower-x-wins,
    /// earlier-in-OAM-wins priority rule. Every pixel written is a 2-bit
    /// shade; no other LCD line and no PPU state but the window line
    /// counter moves.
    #[verifier::loop_isolation(false)]
    #[verifier::rlimit(100)]
    fn draw_line(&mut self, lcd: &mut Lcd, ly: u8, lcdc: u8)
        requires
            old(self)@.wf(),
            old(lcd).wf(),
            ly < LCD_HEIGHT,
            ly == old(self)@.io[R_LY as int],
            lcdc == old(self)@.io[R_LCDC as int],
        ensures
            final(self)@ == (PpuView {
                window_line_counter: wlc_after_draw(old(self)@),
                ..old(self)@
            }),
            final(self)@.wf(),
            final(lcd).wf(),
            forall|i: int|
                0 <= i < LCD_PIXELS && !(ly * LCD_WIDTH <= i < (ly + 1) * LCD_WIDTH)
                    ==> final(lcd)@[i] == old(lcd)@[i],
            forall|x: int| 0 <= x < LCD_WIDTH ==> #[trigger] final(lcd).pixel(ly as int, x) < 4,
            forall|x: int|
                0 <= x < LCD_WIDTH ==> #[trigger] final(lcd).pixel(ly as int, x)
                    == rendered_pixel(old(self)@, ly, x),
    {
        let mut line: Vec<u8> = vec![0u8; LCD_WIDTH];
        proof {
            assert(forall|i: int| 0 <= i < LCD_WIDTH ==> line@[i] == 0);
        }

        if lcdc & 0x01 != 0 {
            let tile_mode_8000: bool = lcdc & 0x10 != 0;

            // Background: 21 tile fetches cover the 160 pixels after the
            // fine scroll shift of up to 7 pixels.
            let scy: u8 = self.io_regs[R_SCY];
            let scx: u8 = self.io_regs[R_SCX];
            let bg_tilemap: usize = if lcdc & 0x08 != 0 {
                0x1C00
            } else {
                0x1800
            };
            let bg_palette: u8 = self.io_regs[R_BGP];

            let mut xc: usize = 0;
            while xc < 21
                invariant
                    self@.wf(),
                    line@.len() == LCD_WIDTH,
                    forall|i: int| 0 <= i < LCD_WIDTH ==> line@[i] < 4,
                    xc <= 21,
                    forall|x: int|
                        0 <= x < LCD_WIDTH && x + scx % 8 < xc * 8 ==> #[trigger] line@[x]
                            == bg_shade(old(self)@, ly, x),
                decreases 21 - xc,
            {
                let ysum: usize = ly as usize + scy as usize;
                let tile_y: usize = ysum & 0xFF;
                let xoff: usize = xc + scx as usize / 8;
                let ty8: usize = tile_y / 8;
                proof {
                    crate::bitops::lemma_and_bound_usize(ysum, 0xFF);
                    crate::bitops::lemma_and_bound_usize(xoff, 0x1F);
                    crate::bitops::lemma_and_bound_usize(ty8, 0x1F);
                }
                let map_idx: usize = bg_tilemap + (xoff & 0x1F) + (ty8 & 0x1F) * 32;
                let tile_num: u8 = self.vram[map_idx];
                let tile_row: usize = (tile_y % 8) * 2;
                let tile_addr: usize = if tile_mode_8000 {
                    tile_num as usize * 16 + tile_row
                } else {
                    let normed: usize = if tile_num < 128 {
                        tile_num as usize + 128
                    } else {
                        tile_num as usize - 128
                    };
                    0x0800 + normed * 16 + tile_row
                };
                let b1: u8 = self.vram[tile_addr];
                let b2: u8 = self.vram[tile_addr + 1];

                let mut px: usize = 0;
                while px < 8
                    invariant
                        self@.wf(),
                        line@.len() == LCD_WIDTH,
                        forall|i: int| 0 <= i < LCD_WIDTH ==> line@[i] < 4,
                        px <= 8,
                        scx == self@.io[R_SCX as int],
                        forall|x: int|
                            0 <= x < LCD_WIDTH && x + scx % 8 < xc * 8 + px ==> #[trigger] line@[x]
                                == bg_shade(old(self)@, ly, x),
                    decreases 8 - px,
                {
                    if xc * 8 + px >= scx as usize % 8 {
                        let linepos: usize = xc * 8 + px - scx as usize % 8;
                        if linepos < LCD_WIDTH {
                            let bitpos: u8 = (7 - px) as u8;
                            let lo: u8 = if b1 & (1u8 << bitpos) != 0 {
                                1
                            } else {
                                0
                            };
                            let hi: u8 = if b2 & (1u8 << bitpos) != 0 {
                                2
                            } else {
                                0
                            };
                            let px_val: u8 = lo + hi;
                            let color: u8 = (bg_palette >> (px_val * 2)) & 0x3;
                            proof {
                                crate::bitops::lemma_and_bound_u8(
                                    bg_palette >> (px_val * 2),
                                    0x3,
                                );
                                crate::bitops::lemma_mask_mod_usize(ysum);
                                crate::bitops::lemma_mask_mod_usize(xoff);
                                crate::bitops::lemma_mask_mod_usize(ty8);
                                assert((linepos + scx % 8) / 8 == xc && (linepos + scx % 8) % 8
                                    == px);
                                assert(color == bg_shade(old(self)@, ly, linepos as int));
                            }
                            line.set(linepos, color);
                        }
                    }
                    px += 1;
                }
                xc += 1;
            }
            proof {
                assert(forall|x: int|
                    0 <= x < LCD_WIDTH ==> #[trigger] line@[x] == bg_shade(old(self)@, ly, x));
            }

            // Window overlay: drawn from its own tile map, left edge at
            // WX - 7, rows counted by the internal window line counter.
            let wx: u8 = self.io_regs[R_WX];
            let wy: u8 = self.io_regs[R_WY];
            if lcdc & 0x20 != 0 && ly >= wy && wx >= 7 && wx < 167 {
                let window_tilemap: usize = if lcdc & 0x40 != 0 {
                    0x1C00
                } else {
                    0x1800
                };
                let wlc: usize = self.window_line_counter as usize;
                let tile_row: usize = (wlc % 8) * 2;

                let mut xc: usize = 0;
                while xc < 20
                    invariant
                        self@.wf(),
                        line@.len() == LCD_WIDTH,
                        forall|i: int| 0 <= i < LCD_WIDTH ==> line@[i] < 4,
                        xc <= 20,
                        wlc < LCD_HEIGHT,
                        tile_row == (wlc % 8) * 2,
                        window_tilemap == 0x1C00 || window_tilemap == 0x1800,
                        7 <= wx < 167,
                        forall|x: int|
                            0 <= x < LCD_WIDTH && wx - 7 <= x < wx - 7 + xc * 8
                                ==> #[trigger] line@[x] == window_shade(old(self)@, x),
                        forall|x: int|
                            0 <= x < LCD_WIDTH && !(wx - 7 <= x < wx - 7 + xc * 8)
                                ==> #[trigger] line@[x] == bg_shade(old(self)@, ly, x),
                    decreases 20 - xc,
                {
                    let map_idx: usize = window_tilemap + xc + (wlc / 8) * 32;
                    let tile_num: u8 = self.vram[map_idx];
                    let tile_addr: usize = if tile_mode_8000 {
                        tile_num as usize * 16 + tile_row
                    } else {
                        let normed: usize = if tile_num < 128 {
                            tile_num as usize + 128
                        } else {
                            tile_num as usize - 128
                        };
                        0x0800 + normed * 16 + tile_row
                    };
                    let b1: u8 = self.vram[tile_addr];
                    let b2: u8 = self.vram[tile_addr + 1];

                    let mut px: usize = 0;
                    while px < 8
                        invariant
                            self@.wf(),
                            line@.len() == LCD_WIDTH,
                            forall|i: int| 0 <= i < LCD_WIDTH ==> line@[i] < 4,
                            px <= 8,
                            7 <= wx < 167,
                            forall|x: int|
                                0 <= x < LCD_WIDTH && wx - 7 <= x < wx - 7 + xc * 8 + px
                                    ==> #[trigger] line@[x] == window_shade(old(self)@, x),
                            forall|x: int|
                                0 <= x < LCD_WIDTH && !(wx - 7 <= x < wx - 7 + xc * 8 + px)
                                    ==> #[trigger] line@[x] == bg_shade(old(self)@, ly, x),
                        decreases 8 - px,
                    {
                        let linepos: usize = xc * 8 + px + wx as usize - 7;
                        if linepos < LCD_WIDTH {
                            let bitpos: u8 = (7 - px) as u8;
                            let lo: u8 = if b1 & (1u8 << bitpos) != 0 {
                                1
                            } else {
                                0
                            };
                            let hi: u8 = if b2 & (1u8 << bitpos) != 0 {
                                2
                            } else {
                                0
                            };
                            let px_val: u8 = lo + hi;
                            let color: u8 = (bg_palette >> (px_val * 2)) & 0x3;
                            proof {
                                crate::bitops::lemma_and_bound_u8(
                                    bg_palette >> (px_val * 2),
                                    0x3,
                                );
                                assert((linepos - (wx - 7)) / 8 == xc && (linepos - (wx - 7)) % 8
                                    == px);
                                assert(color == window_shade(old(self)@, linepos as int));
                            }
                            line.set(linepos, color);
                        }
                        px += 1;
                    }
                    xc += 1;
                }

                if self.window_line_counter < 143 {
                    self.window_line_counter = self.window_line_counter + 1;
                }
            }
        }
        proof {
            assert(forall|x: int|
                0 <= x < LCD_WIDTH ==> #[trigger] line@[x] == bg_window_shade(
                    old(self)@,
                    ly,
                    x,
                ));
        }

        // Sprites: scan the OAM in order, keeping up to ten sprites whose
        // vertical range covers this line. A sprite pixel lands where its
        // colour index is nonzero and either it has priority over the
        // background or the background pixel is shade 0; among overlapping
        // sprites the lower x wins, OAM order breaking ties.
        let ghost p0 = old(self)@;
        let ghost base = line@;
        proof {
            assert(base =~= base_line(p0, ly));
        }
        if lcdc & 0x02 != 0 {
            let mut sprite_line: Vec<u8> = vec![0u8; LCD_WIDTH];
            let mut priority: Vec<u8> = vec![0xFFu8; LCD_WIDTH];
            proof {
                assert(sprite_line@ =~= Seq::new(LCD_WIDTH as nat, |x: int| 0u8));
                assert(priority@ =~= Seq::new(LCD_WIDTH as nat, |x: int| 0xFFu8));
            }
            let ghost target = sprite_pass(
                p0,
                ly,
                base,
                (sprite_line@, priority@),
                0,
                0,
            );
            let sprite_height: u8 = if lcdc & 0x04 != 0 {
                16
            } else {
                8
            };
            let mut buffered: usize = 0;
            let mut entry: usize = 0;
            while entry < 40 && buffered < 10
                invariant
                    self@.wf(),
                    line@ == base,
                    sprite_line@.len() == LCD_WIDTH,
                    forall|i: int| 0 <= i < LCD_WIDTH ==> sprite_line@[i] < 4,
                    priority@.len() == LCD_WIDTH,
                    entry <= 40,
                    sprite_height == 8 || sprite_height == 16,
                    sprite_pass(
                        p0,
                        ly,
                        base,
                        (sprite_line@, priority@),
                        entry as int,
                        buffered as int,
                    ) == target,
                decreases 40 - entry,
            {
                let sy: u8 = self.oam[entry * 4];
                let sx: u8 = self.oam[entry * 4 + 1];
                let tidx: u8 = self.oam[entry * 4 + 2] & (if sprite_height == 16 {
                    0xFE
                } else {
                    0xFF
                });
                let flags: u8 = self.oam[entry * 4 + 3];
                let ly16: usize = ly as usize + 16;

                if ly16 >= sy as usize && ly16 < sy as usize + sprite_height as usize {
                    let ghost st_entry = (sprite_line@, priority@);
                    let ghost buffered0 = buffered as int;
                    buffered += 1;

                    let bg_over_sprite: bool = flags & 0x80 != 0;
                    let yflip: bool = flags & 0x40 != 0;
                    let xflip: bool = flags & 0x20 != 0;
                    let sprite_palette: u8 = if flags & 0x10 != 0 {
                        self.io_regs[R_OBP1]
                    } else {
                        self.io_regs[R_OBP0]
                    };

                    let skew: usize = if yflip {
                        (sprite_height as usize - 1) - (ly16 - sy as usize)
                    } else {
                        ly16 - sy as usize
                    };
                    proof {
                        crate::bitops::lemma_and_bound_u8(
                            self@.oam[entry * 4 + 2],
                            if sprite_height == 16 {
                                0xFE
                            } else {
                                0xFF
                            },
                        );
                    }
                    let tile_addr: usize = tidx as usize * 16 + skew * 2;
                    proof {
                        assert(tile_addr == sprite_row_addr(p0, ly, entry as int));
                    }
                    let b1: u8 = self.vram[tile_addr];
                    let b2: u8 = self.vram[tile_addr + 1];

                    let mut px: usize = 0;
                    while px < 8
                        invariant
                            self@.wf(),
                            line@ == base,
                            sprite_line@.len() == LCD_WIDTH,
                            forall|i: int| 0 <= i < LCD_WIDTH ==> sprite_line@[i] < 4,
                            priority@.len() == LCD_WIDTH,
                            px <= 8,
                            (sprite_line@, priority@) == apply_sprite(
                                p0,
                                ly,
                                base,
                                st_entry,
                                entry as int,
                                px as int,
                            ),
                        decreases 8 - px,
                    {
                        if sx as usize + px >= 8 {
                            let linepos: usize = sx as usize + px - 8;
                            if linepos < LCD_WIDTH {
                                let sprite_pos: u8 = if xflip {
                                    px as u8
                                } else {
                                    (7 - px) as u8
                                };
                                let lo: u8 = if b1 & (1u8 << sprite_pos) != 0 {
                                    1
                                } else {
                                    0
                                };
                                let hi: u8 = if b2 & (1u8 << sprite_pos) != 0 {
                                    2
                                } else {
                                    0
                                };
                                let px_val: u8 = lo + hi;
                                let color: u8 = (sprite_palette >> (px_val * 2)) & 0x3;
                                proof {
                                    crate::bitops::lemma_and_bound_u8(
                                        sprite_palette >> (px_val * 2),
                                        0x3,
                                    );
                                    assert(px_val == sprite_pix(p0, ly, entry as int, px as int));
                                }
                                if priority[linepos] > sx {
                                    priority.set(linepos, sx);
                                    if px_val == 0 {
                                        let under: u8 = line[linepos];
                                        sprite_line.set(linepos, under);
                                    } else if line[linepos] == 0 || !bg_over_sprite {
                                        sprite_line.set(linepos, color);
                                    }
                                }
                            }
                        }
                        px += 1;
                        proof {
                            assert((sprite_line@, priority@) =~~= apply_sprite(
                                p0,
                                ly,
                                base,
                                st_entry,
                                entry as int,
                                px as int,
                            ));
                        }
                    }
                    proof {
                        assert(sprite_pass(
                            p0,
                            ly,
                            base,
                            st_entry,
                            entry as int,
                            buffered0,
                        ) == sprite_pass(
                            p0,
                            ly,
                            base,
                            (sprite_line@, priority@),
                            entry as int + 1,
                            buffered0 + 1,
                        ));
                    }
                }
                entry += 1;
            }
            proof {
                assert(sprite_pass(
                    p0,
                    ly,
                    base,
                    (sprite_line@, priority@),
                    entry as int,
                    buffered as int,
                ) == (sprite_line@, priority@));
                assert(sprite_line@ == sprite_overlay(p0, ly));
            }

            let mut lp: usize = 0;
            while lp < LCD_WIDTH
                invariant
                    line@.len() == LCD_WIDTH,
                    sprite_line@.len() == LCD_WIDTH,
                    sprite_line@ == sprite_overlay(p0, ly),
                    lp <= LCD_WIDTH,
                    forall|j: int| 0 <= j < lp ==> line@[j] == (if sprite_line@[j] != 0 {
                        sprite_line@[j]
                    } else {
                        base[j]
                    }),
                    forall|j: int| lp <= j < LCD_WIDTH ==> line@[j] == base[j],
                    forall|i: int| 0 <= i < LCD_WIDTH ==> sprite_line@[i] < 4,
                    forall|i: int| 0 <= i < LCD_WIDTH ==> base[i] < 4,
                decreases LCD_WIDTH - lp,
            {
                if sprite_line[lp] != 0 {
                    let v: u8 = sprite_line[lp];
                    line.set(lp, v);
                }
                lp += 1;
            }
        }
        proof {
            assert(forall|x: int|
                0 <= x < LCD_WIDTH ==> #[trigger] line@[x] == rendered_pixel(p0, ly, x));
            assert(forall|x: int| 0 <= x < LCD_WIDTH ==> line@[x] < 4);
        }

        lcd.set_line(ly, &line);
        proof {
            assert(forall|x: int| 0 <= x < LCD_WIDTH ==> line@[x] < 4);
            assert(forall|x: int|
                0 <= x < LCD_WIDTH ==> #[trigger] lcd.pixel(ly as int, x) == line@[x]);
            assert(forall|x: int| 0 <= x < LCD_WIDTH ==> #[trigger] lcd.pixel(ly as int, x) < 4);
            assert(self@ =~~= (PpuView {
                window_line_counter: wlc_after_draw(old(self)@),
                ..old(self)@
            }));
        }
    }

    /// Advance the PPU by the dots of `m_cycles` machine cycles: run the
    /// mode state machine, render a scanline into `lcd` when the dot
    /// counter crosses the end of OAM scan, and write back STAT.
    pub fn tick(&mut self, lcd: &mut Lcd, m_cycles: u8)
        requires
            old(self)@.wf(),
            old(lcd).wf(),
            4 * m_cycles <= DOTS_PER_LINE,
        ensures
            final(self)@ == ppu_tick_spec(old(self)@, m_cycles),
            final(self)@.wf(),
            final(lcd).wf(),
            ({
                let p1 = ppu_rollover(old(self)@, m_cycles);
                if ppu_draws(p1) {
                    let dly = p1.io[R_LY as int];
                    &&& forall|i: int|
                        0 <= i < LCD_PIXELS && !(dly * LCD_WIDTH <= i < (dly + 1) * LCD_WIDTH)
                            ==> final(lcd)@[i] == old(lcd)@[i]
                    &&& forall|x: int| 0 <= x < LCD_WIDTH ==> final(lcd).pixel(dly as int, x) < 4
                } else {
                    final(lcd)@ == old(lcd)@
                }
            }),
            ({
                let p1 = ppu_rollover(old(self)@, m_cycles);
                let dly = p1.io[R_LY as int];
                ppu_draws(p1) ==> forall|x: int|
                    0 <= x < LCD_WIDTH ==> #[trigger] final(lcd).pixel(dly as int, x)
                        == rendered_pixel(p1, dly, x)
            }),
    {
        let ghost p0 = self@;
        let dots: u32 = (m_cycles as u32) * 4;
        self.line_cycles = self.line_cycles + dots;

        if self.line_cycles >= 456 {
            self.line_cycles = self.line_cycles - 456;
            let ly: u8 = self.io_regs[R_LY];
            let stat: u8 = self.io_regs[R_STAT];
            let new_ly: u8 = (ly + 1) % 154;
            if new_ly == self.io_regs[R_WY] {
                self.reached_window = true;
            }
            self.io_regs.set(R_LY, new_ly);
            if new_ly == self.io_regs[R_LYC] && stat & 0x40 != 0 {
                self.req_stat_interrupt();
            }
            if new_ly >= 144 {
                if !(self.mode == PpuMode::VBlank) {
                    if stat & 0x10 != 0 {
                        self.req_stat_interrupt();
                    }
                    self.req_vblank_interrupt();
                    self.reached_window = false;
                    self.window_line_counter = 0;
                }
                self.mode = PpuMode::VBlank;
            } else {
                if stat & 0x20 != 0 {
                    self.req_stat_interrupt();
                }
                self.mode = PpuMode::OAMScan;
            }
        }
        proof {
            assert(self@ =~~= ppu_rollover(p0, m_cycles));
        }
        let ghost p1 = self@;

        if self.line_cycles >= 80 && self.mode == PpuMode::OAMScan {
            let ly: u8 = self.io_regs[R_LY];
            let lcdc: u8 = self.io_regs[R_LCDC];
            self.draw_line(lcd, ly, lcdc);
            self.mode = PpuMode::Drawing;
        }
        proof {
            assert(self@ =~~= ppu_draw_phase(p1));
        }
        let ghost p2 = self@;

        if self.line_cycles >= 252 && self.mode == PpuMode::Drawing {
            if self.io_regs[R_STAT] & 0x08 != 0 {
                self.req_stat_interrupt();
            }
            self.mode = PpuMode::HBlank;
        }
        proof {
            assert(self@ =~~= ppu_hblank_phase(p2));
        }
        let ghost p3 = self@;

        let stat: u8 = self.io_regs[R_STAT];
        let base: u8 = if self.io_regs[R_LY] == self.io_regs[R_LYC] {
            stat | 0x04
        } else {
            stat & 0xFB
        };
        let ns: u8 = (base & 0xFC) | match self.mode {
            PpuMode::HBlank => 0,
            PpuMode::VBlank => 1,
            PpuMode::OAMScan => 2,
            PpuMode::Drawing => 3,
        };
        self.io_regs.set(R_STAT, ns);
        proof {
            assert(self@ =~~= ppu_stat_writeback(p3));
            crate::bitops::lemma_and_bound_u8(base, 0xFC);
        }
    }
}

} // verus!
