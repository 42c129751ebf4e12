//! The COSMAC VIP display: 64×32 monochrome, sprites clipped at the edges.

use vstd::prelude::*;

use super::{Color, Palette};

verus! {

/// A byte-wide line whose first pixel is at column `x` of a 64-column row;
/// what falls past the right edge is dropped.
pub open spec fn clipped64(line: u8, x: u64) -> u64 {
    ((line as u64) << 56u64) >> x
}

/// Whether column `c` (0 at the left) of a 64-column row is lit.
pub open spec fn pixel_lit64(row: u64, c: u64) -> bool {
    (row >> (63 - c) as u64) & 1 == 1
}

/// 32 rows of 64 pixels.
#[derive(Debug, Clone, Copy)]
pub struct CosmacVipScreen {
    pub rows: [u64; 32],
}

impl CosmacVipScreen {
    /// The rows after drawing `sprite` with its top left pixel at
    /// `(x mod 64, y mod 32)`, clipped at the right and bottom edges.
    pub open spec fn spec_drawn(&self, x: u8, y: u8, sprite: Seq<u8>) -> Seq<u64> {
        let x0 = (x % 64) as u64;
        let y0 = (y % 32) as int;
        Seq::new(
            32,
            |r: int|
                if y0 <= r < y0 + sprite.len() {
                    self.rows@[r] ^ clipped64(sprite[r - y0], x0)
                } else {
                    self.rows@[r]
                },
        )
    }

    /// Whether drawing `sprite` meets a lit pixel.
    pub open spec fn spec_collides(&self, x: u8, y: u8, sprite: Seq<u8>) -> bool {
        let x0 = (x % 64) as u64;
        let y0 = (y % 32) as int;
        exists|r: int|
            y0 <= r < 32 && r < y0 + sprite.len() && (#[trigger] self.rows@[r] & clipped64(
                sprite[r - y0],
                x0,
            )) != 0
    }

    /// A blank screen.
    pub fn new() -> (r: Self)
        ensures
            forall|i: int| 0 <= i < 32 ==> r.rows@[i] == 0,
    {
        CosmacVipScreen { rows: [0u64; 32] }
    }

    pub fn width(&self) -> (r: u8)
        ensures
            r == 64,
    {
        64
    }

    pub fn height(&self) -> (r: u8)
        ensures
            r == 32,
    {
        32
    }

    /// Blanks every row.
    pub fn clear(&mut self)
        ensures
            forall|i: int| 0 <= i < 32 ==> final(self).rows@[i] == 0,
    {
        self.rows = [0u64; 32];
    }

    /// XORs `sprite`, one byte per row, onto the screen at
    /// `(x mod 64, y mod 32)`, clipping at the edges; returns whether a lit
    /// pixel was met.
    pub fn draw_sprite(&mut self, x: u8, y: u8, sprite: &[u8]) -> (collided: bool)
        ensures
            final(self).rows@ == old(self).spec_drawn(x, y, sprite@),
            collided == old(self).spec_collides(x, y, sprite@),
    {
        let x0 = x % 64;
        let y0 = (y % 32) as usize;
        let mut collided = false;
        let mut k: usize = 0;
        while k < sprite.len() && y0 + k < 32
            invariant
                y0 == (y % 32) as usize,
                x0 == x % 64,
                k <= sprite.len(),
                y0 + k <= 32,
                forall|r: int|
                    0 <= r < 32 ==> #[trigger] self.rows@[r] == (if y0 <= r < y0 + k {
                        old(self).rows@[r] ^ clipped64(sprite@[r - y0], x0 as u64)
                    } else {
                        old(self).rows@[r]
                    }),
                collided == exists|r: int|
                    y0 <= r < y0 + k && (#[trigger] old(self).rows@[r] & clipped64(
                        sprite@[r - y0],
                        x0 as u64,
                    )) != 0,
            decreases sprite.len() - k,
        {
            let r = y0 + k;
            let mask = ((sprite[k] as u64) << 56u64) >> (x0 as u64);
            let c = self.rows[r] & mask != 0;
            self.rows[r] = self.rows[r] ^ mask;
            collided = collided || c;
            k = k + 1;
        }
        proof {
            assert(self.rows@ =~= old(self).spec_drawn(x, y, sprite@));
        }
        collided
    }

    /// The RGBA pixels, row by row.
    pub fn to_image(&self, palette: &Palette) -> (image: Vec<Color>)
        ensures
            image@.len() == 64 * 32,
            forall|y: int, x: int|
                0 <= y < 32 && 0 <= x < 64 ==> #[trigger] image@[y * 64 + x] == if pixel_lit64(
                    self.rows@[y],
                    x as u64,
                ) {
                    palette.spec_two_color_on()
                } else {
                    palette.spec_two_color_off()
                },
    {
        let on = palette.two_color_on();
        let off = palette.two_color_off();
        let mut image: Vec<Color> = Vec::new();
        let mut y: usize = 0;
        while y < 32
            invariant
                y <= 32,
                on == palette.spec_two_color_on(),
                off == palette.spec_two_color_off(),
                image@.len() == y * 64,
                forall|yy: int, xx: int|
                    0 <= yy < y && 0 <= xx < 64 ==> #[trigger] image@[yy * 64 + xx] == if pixel_lit64(
                        self.rows@[yy],
                        xx as u64,
                    ) {
                        on
                    } else {
                        off
                    },
            decreases 32 - y,
        {
            let row = self.rows[y];
            let mut x: usize = 0;
            while x < 64
                invariant
                    y < 32,
                    x <= 64,
                    row == self.rows@[y as int],
                    on == palette.spec_two_color_on(),
                    off == palette.spec_two_color_off(),
                    image@.len() == y * 64 + x,
                    forall|yy: int, xx: int|
                        0 <= yy < y && 0 <= xx < 64 ==> #[trigger] image@[yy * 64 + xx] == if pixel_lit64(
                            self.rows@[yy],
                            xx as u64,
                        ) {
                            on
                        } else {
                            off
                        },
                    forall|xx: int|
                        0 <= xx < x ==> #[trigger] image@[y * 64 + xx] == if pixel_lit64(
                            row,
                            xx as u64,
                        ) {
                            on
                        } else {
                            off
                        },
                decreases 64 - x,
            {
                let lit = (row >> (63 - x as u64)) & 1 == 1;
                image.push(if lit { on } else { off });
                x = x + 1;
            }
            y = y + 1;
        }
        image
    }
}

} // verus!
