//! The 64x32 monochrome display with XOR sprite drawing.
//!
//! Origin (0, 0) is the top-left corner; x grows to the right (0..64) and
//! y downward (0..32). Sprites are rows of 8 pixels, the most significant
//! bit leftmost. Drawing flips every lit sprite pixel; a pixel switched from
//! on to off is a collision. Starting coordinates wrap modulo the screen
//! size; past an edge, sprite pixels are clipped, or wrap to the opposite
//! side when `wrap` is set.

use vstd::prelude::*;

verus! {

/// The width of the display in pixels.
pub const VIDEO_W: usize = 64;

/// The height of the display in pixels.
pub const VIDEO_H: usize = 32;

/// The number of pixels, stored row after row.
pub const PIXEL_COUNT: usize = 2048;

/// Whether column `col` (0 is leftmost) of a sprite row is lit.
pub open spec fn lit(row_byte: u8, col: int) -> bool {
    0 <= col < 8 && row_byte & (0x80u8 >> (col as u8)) != 0
}

/// Whether drawing row `r` of a sprite, given by `row_byte`, with the sprite's
/// top-left corner at (`sx`, `sy`) on screen, flips pixel `idx`.
pub open spec fn row_covers(sx: int, sy: int, r: int, row_byte: u8, wrap: bool, idx: int) -> bool {
    let ix = idx % (VIDEO_W as int);
    let iy = idx / (VIDEO_W as int);
    let col = (ix - sx) % (VIDEO_W as int);
    &&& wrap || sy + r < VIDEO_H
    &&& iy == (sy + r) % (VIDEO_H as int)
    &&& lit(row_byte, col)
    &&& wrap || sx + col < VIDEO_W
}

/// The display after drawing one sprite row, and whether a lit pixel was switched off.
pub open spec fn draw_row(pixels: Seq<bool>, sx: int, sy: int, r: int, row_byte: u8, wrap: bool) -> (
    Seq<bool>,
    bool,
) {
    (
        Seq::new(pixels.len(), |i: int| pixels[i] != row_covers(sx, sy, r, row_byte, wrap, i)),
        exists|i: int| 0 <= i < pixels.len() && row_covers(sx, sy, r, row_byte, wrap, i) && pixels[i],
    )
}

/// The display after drawing the first `n` rows of `sprite` one after the
/// other, and whether any of them switched a lit pixel off.
pub open spec fn draw_rows(pixels: Seq<bool>, sx: int, sy: int, sprite: Seq<u8>, wrap: bool, n: nat) -> (
    Seq<bool>,
    bool,
)
    decreases n,
{
    if n == 0 {
        (pixels, false)
    } else {
        let (before, hit) = draw_rows(pixels, sx, sy, sprite, wrap, (n - 1) as nat);
        let (after, row_hit) = draw_row(before, sx, sy, n - 1, sprite[n - 1], wrap);
        (after, hit || row_hit)
    }
}

/// The display after drawing `sprite` at (`x`, `y`), the coordinates taken
/// modulo the screen size, and whether the draw is a collision.
pub open spec fn draw_result(pixels: Seq<bool>, x: u8, y: u8, sprite: Seq<u8>, wrap: bool) -> (
    Seq<bool>,
    bool,
) {
    draw_rows(pixels, (x as int) % (VIDEO_W as int), (y as int) % (VIDEO_H as int), sprite, wrap, sprite.len())
}

/// The blank screen.
pub open spec fn blank() -> Seq<bool> {
    Seq::new(PIXEL_COUNT as nat, |i: int| false)
}

/// The 64x32 pixel buffer.
#[derive(Debug)]
pub struct Display {
    pixels: [bool; PIXEL_COUNT],
}

impl View for Display {
    type V = Seq<bool>;

    /// Pixel (x, y) is entry `y * 64 + x`; `true` is lit.
    closed spec fn view(&self) -> Seq<bool> {
        self.pixels@
    }
}

impl Display {
    /// The view holds exactly one entry per pixel.
    pub broadcast proof fn lemma_view_len(&self)
        ensures
            #[trigger] self@.len() == PIXEL_COUNT,
    {
    }

    /// Creates a display with every pixel off.
    pub fn new() -> (r: Display)
        ensures
            r@ == blank(),
    {
        let r = Display { pixels: [false; PIXEL_COUNT] };
        assert(r@ =~= blank());
        r
    }

    /// Switches every pixel off (the 00E0 instruction).
    pub fn clear(&mut self)
        ensures
            final(self)@ == blank(),
    {
        self.pixels = [false; PIXEL_COUNT];
        assert(self@ =~= blank());
    }

    /// Draws `sprite` at (`x` mod 64, `y` mod 32) by flipping its lit pixels
    /// (the DXYN instruction). Pixels past an edge are clipped, or wrap when
    /// `wrap` is set. Returns whether any lit pixel was switched off.
    pub fn draw_sprite(&mut self, x: u8, y: u8, sprite: &[u8], wrap: bool) -> (r: bool)
        ensures
            (final(self)@, r) == draw_result(old(self)@, x, y, sprite@, wrap),
    {
        let start_x: u8 = x % (VIDEO_W as u8);
        let start_y: u8 = y % (VIDEO_H as u8);
        let ghost sx = start_x as int;
        let ghost sy = start_y as int;
        let ghost initial = self@;
        let mut collision = false;
        let mut row: usize = 0;
        while row < sprite.len()
            invariant
                row <= sprite@.len(),
                sx == start_x as int,
                sy == start_y as int,
                sx < VIDEO_W,
                sy < VIDEO_H,
                self@.len() == PIXEL_COUNT,
                initial.len() == PIXEL_COUNT,
                (self@, collision) == draw_rows(initial, sx, sy, sprite@, wrap, row as nat),
            decreases sprite@.len() - row,
        {
            let sprite_byte = sprite[row];
            let ghost before = self@;
            let ghost hit_before = collision;
            let ghost r = row as int;
            if wrap || row < VIDEO_H - start_y as usize {
                let py: usize = (start_y as usize + row % VIDEO_H) % VIDEO_H;
                proof {
                    vstd::arithmetic::div_mod::lemma_add_mod_noop(sy, r, VIDEO_H as int);
                    vstd::arithmetic::div_mod::lemma_mod_twice(r, VIDEO_H as int);
                }
                let mut col: u8 = 0;
                while col < 8
                    invariant
                        col <= 8,
                        sx == start_x as int,
                        sy == start_y as int,
                        sx < VIDEO_W,
                        sy < VIDEO_H,
                        r == row as int,
                        0 <= r < sprite@.len(),
                        wrap || sy + r < VIDEO_H,
                        py == (sy + r) % (VIDEO_H as int),
                        sprite_byte == sprite@[r],
                        before.len() == PIXEL_COUNT,
                        self@.len() == PIXEL_COUNT,
                        forall|i: int|
                            0 <= i < PIXEL_COUNT ==> #[trigger] self@[i] == (before[i] != (
                            row_covers(sx, sy, r, sprite_byte, wrap, i) && (i % (VIDEO_W as int)
                                - sx) % (VIDEO_W as int) < col)),
                        collision == (hit_before || exists|i: int|
                            0 <= i < PIXEL_COUNT && row_covers(sx, sy, r, sprite_byte, wrap, i) && (i
                                % (VIDEO_W as int) - sx) % (VIDEO_W as int) < col && before[i]),
                    decreases 8 - col,
                {
                    let px_raw: usize = start_x as usize + col as usize;
                    if sprite_byte & (0x80u8 >> col) != 0 && (wrap || px_raw < VIDEO_W) {
                        let px: usize = px_raw % VIDEO_W;
                        let idx: usize = py * VIDEO_W + px;
                        proof {
                            lemma_pixel_index(sx, sy, r, col as int, wrap);
                        }
                        if self.pixels[idx] {
                            collision = true;
                        }
                        self.pixels[idx] = !self.pixels[idx];
                    }
                    col += 1;
                }
            }
            assert(self@ =~= draw_row(before, sx, sy, r, sprite_byte, wrap).0);
            row += 1;
        }
        assert(sprite@.take(sprite@.len() as int) =~= sprite@);
        collision
    }

    /// The pixel buffer, row after row, for rendering.
    pub fn get_pixels(&self) -> (r: &[bool; PIXEL_COUNT])
        ensures
            r@ == self@,
    {
        &self.pixels
    }
}

/// Pixel `(py * 64 + px)` is the only one that column `col` of row `r` flips.
proof fn lemma_pixel_index(sx: int, sy: int, r: int, col: int, wrap: bool)
    requires
        0 <= sx < VIDEO_W,
        0 <= sy < VIDEO_H,
        0 <= r,
        0 <= col < 8,
        wrap || sx + col < VIDEO_W,
    ensures
        ({
            let idx = ((sy + r) % (VIDEO_H as int)) * (VIDEO_W as int) + (sx + col) % (
            VIDEO_W as int);
            &&& 0 <= idx < PIXEL_COUNT
            &&& idx % (VIDEO_W as int) == (sx + col) % (VIDEO_W as int)
            &&& idx / (VIDEO_W as int) == (sy + r) % (VIDEO_H as int)
            &&& ((idx % (VIDEO_W as int)) - sx) % (VIDEO_W as int) == col
        }),
{
}

impl Default for Display {
    fn default() -> (r: Display)
        ensures
            r@ == blank(),
    {
        Display::new()
    }
}

} // verus!
