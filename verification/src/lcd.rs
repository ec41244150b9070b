//! The LCD framebuffer: a 160 x 144 grid of 2-bit palette indices, written
//! one scanline at a time by the pixel processing unit. The backing store is
//! padded to a whole number of lines past the visible area.

use vstd::prelude::*;

verus! {

pub const LCD_WIDTH: usize = 160;
pub const LCD_HEIGHT: usize = 144;
/// Backing store size: one padding line beyond the 144 visible ones.
pub const LCD_PIXELS: usize = 23200;

pub struct Lcd {
    pub pixels: Vec<u8>,
}

impl View for Lcd {
    type V = Seq<u8>;

    open spec fn view(&self) -> Seq<u8> {
        self.pixels@
    }
}

impl Lcd {
    pub open spec fn wf(self) -> bool {
        self@.len() == LCD_PIXELS
    }

    /// Pixel at column `x` of line `y`.
    pub open spec fn pixel(self, y: int, x: int) -> u8
        recommends
            self.wf(),
            0 <= y < LCD_HEIGHT,
            0 <= x < LCD_WIDTH,
    {
        self@[y * LCD_WIDTH + x]
    }

    pub fn new() -> (r: Lcd)
        ensures
            r.wf(),
            forall|i: int| 0 <= i < LCD_PIXELS ==> r@[i] == 0,
    {
        Lcd { pixels: vec![0u8; LCD_PIXELS] }
    }

    /// Replace line `ly` with the 160 bytes of `line`; no other pixel moves.
    pub fn set_line(&mut self, ly: u8, line: &Vec<u8>)
        requires
            old(self).wf(),
            ly < LCD_HEIGHT,
            line@.len() == LCD_WIDTH,
        ensures
            final(self).wf(),
            forall|x: int| 0 <= x < LCD_WIDTH ==> final(self).pixel(ly as int, x) == line@[x],
            forall|i: int|
                0 <= i < LCD_PIXELS && !(ly * LCD_WIDTH <= i < (ly + 1) * LCD_WIDTH)
                    ==> final(self)@[i] == old(self)@[i],
    {
        let base: usize = (ly as usize) * LCD_WIDTH;
        let mut x: usize = 0;
        while x < LCD_WIDTH
            invariant
                old(self).wf(),
                self.wf(),
                x <= LCD_WIDTH,
                base == ly * LCD_WIDTH,
                ly < LCD_HEIGHT,
                line@.len() == LCD_WIDTH,
                forall|j: int| 0 <= j < x ==> self@[base + j] == line@[j],
                forall|i: int|
                    0 <= i < LCD_PIXELS && !(base <= i < base + x) ==> self@[i] == old(self)@[i],
            decreases LCD_WIDTH - x,
        {
            self.pixels.set(base + x, line[x]);
            x += 1;
        }
    }
}

/// The RGBA bytes of one 2-bit shade: darker shades have lower levels,
/// alpha is always opaque. Out-of-range bytes render as the lightest
/// shade.
pub open spec fn shade_level(shade: u8) -> u8 {
    if shade == 3 {
        0
    } else if shade == 2 {
        100
    } else if shade == 1 {
        175
    } else {
        255
    }
}

/// Fill `frame` with RGBA pixels for the visible LCD area, four bytes
/// per pixel in display order.
pub fn draw_lcd(lcd: &Lcd, frame: &mut Vec<u8>)
    requires
        lcd.wf(),
    ensures
        final(frame)@.len() == 4 * LCD_WIDTH * LCD_HEIGHT,
        forall|i: int|
            0 <= i < LCD_WIDTH * LCD_HEIGHT ==> {
                &&& final(frame)@[4 * i] == shade_level(lcd@[i])
                &&& final(frame)@[4 * i + 1] == shade_level(lcd@[i])
                &&& final(frame)@[4 * i + 2] == shade_level(lcd@[i])
                &&& final(frame)@[4 * i + 3] == 255
            },
{
    frame.clear();
    let mut i: usize = 0;
    while i < LCD_WIDTH * LCD_HEIGHT
        invariant
            lcd.wf(),
            i <= LCD_WIDTH * LCD_HEIGHT,
            frame@.len() == 4 * i,
            forall|j: int|
                0 <= j < i ==> {
                    &&& frame@[4 * j] == shade_level(lcd@[j])
                    &&& frame@[4 * j + 1] == shade_level(lcd@[j])
                    &&& frame@[4 * j + 2] == shade_level(lcd@[j])
                    &&& frame@[4 * j + 3] == 255
                },
        decreases LCD_WIDTH * LCD_HEIGHT - i,
    {
        let shade: u8 = lcd.pixels[i];
        let level: u8 = if shade == 3 {
            0
        } else if shade == 2 {
            100
        } else if shade == 1 {
            175
        } else {
            255
        };
        frame.push(level);
        frame.push(level);
        frame.push(level);
        frame.push(255);
        i += 1;
    }
}

} // verus!
