//! The display surface: a grid of 64 by 32 pixels that are lit or dark.

use crate::keyboard::Keyboard;
use vstd::prelude::*;

verus! {

/// The number of pixel rows.
pub const ROWS: usize = 32;

/// The number of pixels in a row.
pub const COLUMNS: usize = 64;

/// The largest scale at which every pixel's square still has `i32`
/// coordinates.
pub const MAX_SCALE: isize = 0x1FF_FFFF;

/// A square on the host's drawing surface.
#[derive(Clone, Copy, Debug, PartialEq, Eq, Structural)]
pub struct PixelRect {
    pub x: i32,
    pub y: i32,
    pub width: u32,
    pub height: u32,
}

/// The display, and the keyboard that belongs to the same host window.
pub struct Renderer {
    pub keyboard: Keyboard,
    /// The side of a pixel's square on the host.
    pub scale: isize,
    /// The pixels, rows first: `true` is lit.
    pub display: Vec<bool>,
}

/// Where the pixel at column `x` and row `y` stands in the grid, rows first.
/// Coordinates beyond the grid wrap around on both axes.
pub open spec fn pixel_index(x: int, y: int) -> int {
    (y % 32) * 64 + (x % 64)
}

/// The square that the pixel at place `index` of the grid covers on the host.
pub open spec fn pixel_rect(index: int, scale: int) -> PixelRect {
    PixelRect {
        x: ((index % 64) * scale) as i32,
        y: ((index / 64) * scale) as i32,
        width: scale as u32,
        height: scale as u32,
    }
}

/// The squares of the lit pixels, in the order of the grid.
pub open spec fn lit_rects(pixels: Seq<bool>, scale: int) -> Seq<PixelRect>
    decreases pixels.len(),
{
    if pixels.len() == 0 {
        Seq::empty()
    } else {
        let before = lit_rects(pixels.drop_last(), scale);
        if pixels.last() {
            before.push(pixel_rect(pixels.len() - 1, scale))
        } else {
            before
        }
    }
}

/// A grid of `count` dark pixels.
pub open spec fn dark(count: nat) -> Seq<bool> {
    Seq::new(count, |p: int| false)
}

/// The column below 64 that `x` wraps to.
fn wrap_column(x: isize) -> (column: usize)
    ensures
        column == x % 64,
{
    if x >= 0 {
        (x % 64) as usize
    } else {
        (63 - (-(x + 1)) % 64) as usize
    }
}

/// The row below 32 that `y` wraps to.
fn wrap_row(y: isize) -> (row: usize)
    ensures
        row == y % 32,
{
    if y >= 0 {
        (y % 32) as usize
    } else {
        (31 - (-(y + 1)) % 32) as usize
    }
}

impl Renderer {
    /// The invariant of the display: it has all its pixels, and a scale at
    /// which they can be shown.
    pub open spec fn wf(&self) -> bool {
        &&& self.display@.len() == ROWS * COLUMNS
        &&& 0 <= self.scale <= MAX_SCALE
    }

    /// A dark display.
    pub fn new(scale: isize, keyboard: Keyboard) -> (renderer: Renderer)
        requires
            0 <= scale <= MAX_SCALE,
        ensures
            renderer.wf(),
            renderer.display@ == dark((ROWS * COLUMNS) as nat),
            renderer.scale == scale,
            renderer.keyboard == keyboard,
    {
        let mut display: Vec<bool> = Vec::new();
        while display.len() < ROWS * COLUMNS
            invariant
                display.len() <= ROWS * COLUMNS,
                forall|p: int| 0 <= p < display.len() ==> !display@[p],
            decreases ROWS * COLUMNS - display.len(),
        {
            display.push(false);
        }
        Renderer { keyboard, scale, display }
    }

    /// Flips the pixel at column `x` and row `y`, and says whether it is lit
    /// now.
    pub fn set_pixel(&mut self, x: isize, y: isize) -> (lit: bool)
        requires
            old(self).wf(),
        ensures
            final(self).wf(),
            lit == !old(self).display@[pixel_index(x as int, y as int)],
            final(self).display@ == old(self).display@.update(
                pixel_index(x as int, y as int),
                lit,
            ),
            final(self).scale == old(self).scale,
            final(self).keyboard == old(self).keyboard,
    {
        let place = wrap_row(y) * COLUMNS + wrap_column(x);
        let lit = !self.display[place];
        self.display.set(place, lit);
        lit
    }

    /// Makes every pixel dark.
    pub fn clear(&mut self)
        requires
            old(self).wf(),
        ensures
            final(self).wf(),
            final(self).display@ == dark((ROWS * COLUMNS) as nat),
            final(self).scale == old(self).scale,
            final(self).keyboard == old(self).keyboard,
    {
        let mut place: usize = 0;
        while place < ROWS * COLUMNS
            invariant
                place <= ROWS * COLUMNS,
                self.display.len() == ROWS * COLUMNS,
                self.scale == old(self).scale,
                self.keyboard == old(self).keyboard,
                forall|p: int| 0 <= p < place ==> !self.display@[p],
            decreases ROWS * COLUMNS - place,
        {
            self.display.set(place, false);
            place += 1;
        }
    }

    /// The squares that the host has to fill to show the display: one for
    /// each lit pixel, in the order of the grid.
    pub fn render(&self) -> (rects: Vec<PixelRect>)
        requires
            self.wf(),
        ensures
            rects@ == lit_rects(self.display@, self.scale as int),
    {
        let mut rects: Vec<PixelRect> = Vec::new();
        let mut place: usize = 0;
        while place < ROWS * COLUMNS
            invariant
                place <= ROWS * COLUMNS,
                self.wf(),
                rects@ == lit_rects(self.display@.take(place as int), self.scale as int),
            decreases ROWS * COLUMNS - place,
        {
            proof {
                assert(self.display@.take(place + 1).drop_last() == self.display@.take(
                    place as int,
                ));
            }
            if self.display[place] {
                let column = (place % COLUMNS) as isize;
                let row = (place / COLUMNS) as isize;
                assert(0 <= column * self.scale <= 63 * MAX_SCALE) by (nonlinear_arith)
                    requires
                        0 <= column <= 63,
                        0 <= self.scale <= MAX_SCALE,
                ;
                assert(0 <= row * self.scale <= 31 * MAX_SCALE) by (nonlinear_arith)
                    requires
                        0 <= row <= 31,
                        0 <= self.scale <= MAX_SCALE,
                ;
                rects.push(
                    PixelRect {
                        x: (column * self.scale) as i32,
                        y: (row * self.scale) as i32,
                        width: self.scale as u32,
                        height: self.scale as u32,
                    },
                );
            }
            place += 1;
        }
        proof {
            assert(self.display@.take(place as int) == self.display@);
        }
        rects
    }
}

} // verus!
