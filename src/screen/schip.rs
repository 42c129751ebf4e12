//! The SUPER-CHIP displays: 128×64 monochrome with a low-resolution mode in
//! which each pixel is a 2×2 block, sprites clipped at the edges.

use vstd::prelude::*;

use super::{
    clipped, clipped_masks, byte_lines, doubled_byte_lines, doubled_word_lines, draw_line_clipping,
    draw_lines_clipping, hits_clipped, lines_of_bytes, doubled_lines_of_bytes, lines_of_words,
    doubled_lines_of_words, scroll_rows_down, scrolled_down, shift_rows_left, shift_rows_right,
    shifted_left, shifted_right, word_lines, xor_rows_clipped, screen_to_image, Color, Palette,
};

verus! {

/// The rows after drawing a byte-per-row sprite at `(x, y)`: at
/// `(x mod 128, y mod 64)` in high resolution, or with doubled pixels at
/// `(2·(x mod 64), 2·(y mod 32))` in low resolution.
pub open spec fn drawn_small(rows: Seq<u128>, hires: bool, x: u8, y: u8, sprite: Seq<u8>) -> Seq<u128> {
    if hires {
        xor_rows_clipped(rows, (y % 64) as int, clipped_masks(byte_lines(sprite), 8, (x % 128) as u128))
    } else {
        xor_rows_clipped(rows, ((y % 32) * 2) as int, clipped_masks(doubled_byte_lines(sprite), 16, ((x % 64) * 2) as u128))
    }
}

pub open spec fn collides_small(rows: Seq<u128>, hires: bool, x: u8, y: u8, sprite: Seq<u8>) -> bool {
    if hires {
        hits_clipped(rows, (y % 64) as int, clipped_masks(byte_lines(sprite), 8, (x % 128) as u128))
    } else {
        hits_clipped(rows, ((y % 32) * 2) as int, clipped_masks(doubled_byte_lines(sprite), 16, ((x % 64) * 2) as u128))
    }
}

/// The rows after drawing a 16×16 sprite, doubled in low resolution.
pub open spec fn drawn_large(rows: Seq<u128>, hires: bool, x: u8, y: u8, sprite: Seq<u8>) -> Seq<u128> {
    if hires {
        xor_rows_clipped(rows, (y % 64) as int, clipped_masks(word_lines(sprite), 16, (x % 128) as u128))
    } else {
        xor_rows_clipped(rows, ((y % 32) * 2) as int, clipped_masks(doubled_word_lines(sprite), 32, ((x % 64) * 2) as u128))
    }
}

pub open spec fn collides_large(rows: Seq<u128>, hires: bool, x: u8, y: u8, sprite: Seq<u8>) -> bool {
    if hires {
        hits_clipped(rows, (y % 64) as int, clipped_masks(word_lines(sprite), 16, (x % 128) as u128))
    } else {
        hits_clipped(rows, ((y % 32) * 2) as int, clipped_masks(doubled_word_lines(sprite), 32, ((x % 64) * 2) as u128))
    }
}

/// The columns that the second row of a doubled low-resolution line copies
/// from the first on the legacy SUPER-CHIP: the 32 columns starting at the
/// 16-column zone of `x`.
pub open spec fn legacy_zone_mask(x: u128) -> u128 {
    0xFFFFFFFF_00000000_00000000_00000000u128 >> (x & 0xF0)
}

/// The rows after a low-resolution draw on the legacy SUPER-CHIP: each
/// doubled line is XOR-ed into the upper row of its pair, and the lower row
/// then takes the upper row's pixels inside the zone mask.
pub open spec fn legacy_drawn_lores(rows: Seq<u128>, x: u8, y: u8, sprite: Seq<u8>) -> Seq<u128> {
    let x2 = ((x % 64) * 2) as u128;
    let y2 = ((y % 32) * 2) as int;
    let zone = legacy_zone_mask(x2);
    Seq::new(
        rows.len(),
        |r: int|
            if y2 <= r < y2 + 2 * sprite.len() {
                let k = (r - y2) / 2;
                let top = rows[y2 + 2 * k] ^ clipped(crate::bits::doubled_u8(sprite[k]) as u128, 16, x2);
                if (r - y2) % 2 == 0 {
                    top
                } else {
                    (rows[r] & !zone) | (top & zone)
                }
            } else {
                rows[r]
            },
    )
}

/// Whether a low-resolution draw on the legacy SUPER-CHIP meets a lit pixel
/// in the upper row of a pair.
pub open spec fn legacy_collides_lores(rows: Seq<u128>, x: u8, y: u8, sprite: Seq<u8>) -> bool {
    let x2 = ((x % 64) * 2) as u128;
    let y2 = ((y % 32) * 2) as int;
    exists|k: int|
        0 <= k < sprite.len() && y2 + 2 * k < rows.len() && (#[trigger] rows[y2 + 2 * k] & clipped(
            crate::bits::doubled_u8(sprite[k]) as u128,
            16,
            x2,
        )) != 0
}

/// How many of the first `k` masks meet a lit pixel in their row.
pub open spec fn count_hits(rows: Seq<u128>, start: int, masks: Seq<u128>, k: int) -> nat
    decreases k,
{
    if k <= 0 {
        0
    } else {
        count_hits(rows, start, masks, k - 1) + if (rows[start + k - 1] & masks[k - 1]) != 0 {
            1nat
        } else {
            0nat
        }
    }
}

/// The legacy SUPER-CHIP display.
#[derive(Debug, Clone, Copy)]
pub struct LegacySuperChipScreen {
    pub rows: [u128; 64],
    pub hires: bool,
}

impl LegacySuperChipScreen {
    /// A blank screen in low resolution.
    pub fn new() -> (r: Self)
        ensures
            forall|i: int| 0 <= i < 64 ==> r.rows@[i] == 0,
            !r.hires,
    {
        LegacySuperChipScreen { rows: [0u128; 64], hires: false }
    }

    pub fn width(&self) -> (r: u8)
        ensures
            r == 128,
    {
        128
    }

    pub fn height(&self) -> (r: u8)
        ensures
            r == 64,
    {
        64
    }

    /// Blanks every row.
    pub fn clear(&mut self)
        ensures
            forall|i: int| 0 <= i < 64 ==> final(self).rows@[i] == 0,
            final(self).hires == old(self).hires,
    {
        self.rows = [0u128; 64];
    }

    pub fn get_hires(&self) -> (r: bool)
        ensures
            r == self.hires,
    {
        self.hires
    }

    pub fn set_hires(&mut self, hires: bool)
        ensures
            final(self).hires == hires,
            final(self).rows == old(self).rows,
    {
        self.hires = hires;
    }

    /// Draws a byte-per-row sprite; in low resolution only the upper row of
    /// each doubled pair is tested for collision.
    pub fn draw_sprite(&mut self, x: u8, y: u8, sprite: &[u8]) -> (collided: bool)
        ensures
            final(self).hires == old(self).hires,
            old(self).hires ==> final(self).rows@ == drawn_small(old(self).rows@, true, x, y, sprite@),
            old(self).hires ==> collided == collides_small(old(self).rows@, true, x, y, sprite@),
            !old(self).hires ==> final(self).rows@ == legacy_drawn_lores(old(self).rows@, x, y, sprite@),
            !old(self).hires ==> collided == legacy_collides_lores(old(self).rows@, x, y, sprite@),
    {
        if self.hires {
            let lines = lines_of_bytes(sprite);
            draw_lines_clipping(&mut self.rows, (y % 64) as usize, x % 128, &lines, 8)
        } else {
            let x2 = (x % 64) * 2;
            let y2 = ((y % 32) * 2) as usize;
            assert((x2 & 0xF0) < 128) by (bit_vector)
                requires
                    x2 < 128,
            ;
            let zone: u128 = 0xFFFFFFFF_00000000_00000000_00000000u128 >> ((x2 & 0xF0) as u128);
            let ghost old_rows = self.rows@;
            let mut collided = false;
            let mut k: usize = 0;
            while k < sprite.len() && y2 + 2 * k < 64
                invariant
                    x2 == (x % 64) * 2,
                    y2 == ((y % 32) * 2) as usize,
                    y2 % 2 == 0,
                    zone == legacy_zone_mask(x2 as u128),
                    k <= sprite.len(),
                    y2 + 2 * k <= 64,
                    old_rows == old(self).rows@,
                    self.hires == old(self).hires,
                    forall|r: int| 0 <= r < 64 ==> #[trigger] self.rows@[r] == (if r < y2 + 2 * k {
                        legacy_drawn_lores(old_rows, x, y, sprite@)[r]
                    } else {
                        old_rows[r]
                    }),
                    collided == exists|j: int|
                        0 <= j < k && (#[trigger] old_rows[y2 + 2 * j] & clipped(
                            crate::bits::doubled_u8(sprite@[j]) as u128,
                            16,
                            x2 as u128,
                        )) != 0,
                decreases sprite.len() - k,
            {
                let r = y2 + 2 * k;
                let line = crate::bits::double_bits_holger(sprite[k]) as u128;
                let mut top = self.rows[r];
                let c = draw_line_clipping(&mut top, x2, line, 16);
                self.rows[r] = top;
                self.rows[r + 1] = (self.rows[r + 1] & !zone) | (top & zone);
                proof {
                    assert((r as int - y2 as int) / 2 == k as int);
                    assert((r as int + 1 - y2 as int) / 2 == k as int);
                }
                collided = collided || c;
                k = k + 1;
            }
            proof {
                assert(self.rows@ =~= legacy_drawn_lores(old_rows, x, y, sprite@));
                if legacy_collides_lores(old_rows, x, y, sprite@) {
                    let j = choose|j: int|
                        0 <= j < sprite@.len() && y2 + 2 * j < old_rows.len() && (#[trigger] old_rows[y2 + 2 * j] & clipped(
                            crate::bits::doubled_u8(sprite@[j]) as u128,
                            16,
                            x2 as u128,
                        )) != 0;
                    assert(j < k);
                }
            }
            collided
        }
    }

    /// Draws a 16×16 sprite in high resolution and returns the number of
    /// rows in which it met a lit pixel; low resolution refuses it.
    pub fn draw_large_sprite(&mut self, x: u8, y: u8, sprite: &[u8]) -> (r: Result<u8, super::UnsupportedScreenOperation>)
        requires
            sprite@.len() >= 32,
        ensures
            final(self).hires == old(self).hires,
            !old(self).hires ==> r == Err::<u8, super::UnsupportedScreenOperation>(super::UnsupportedScreenOperation::LargeSpriteInLores)
                && final(self).rows == old(self).rows,
            old(self).hires ==> final(self).rows@ == drawn_large(old(self).rows@, true, x, y, sprite@),
            old(self).hires ==> r == Ok::<u8, super::UnsupportedScreenOperation>(count_hits(
                old(self).rows@,
                (y % 64) as int,
                clipped_masks(word_lines(sprite@), 16, (x % 128) as u128),
                if (y % 64) as int + 16 <= 64 { 16 } else { 64 - (y % 64) as int },
            ) as u8),
    {
        if !self.hires {
            return Err(super::UnsupportedScreenOperation::LargeSpriteInLores);
        }
        let lines = lines_of_words(sprite);
        let x0 = x % 128;
        let y0 = (y % 64) as usize;
        let ghost masks = clipped_masks(word_lines(sprite@), 16, x0 as u128);
        let ghost old_rows = self.rows@;
        let mut count: u8 = 0;
        let mut k: usize = 0;
        while k < 16 && y0 + k < 64
            invariant
                x0 == x % 128,
                y0 == (y % 64) as usize,
                k <= 16,
                y0 + k <= 64,
                lines@ == word_lines(sprite@),
                masks == clipped_masks(word_lines(sprite@), 16, x0 as u128),
                old_rows == old(self).rows@,
                self.hires == old(self).hires,
                self.rows@ == xor_rows_clipped(old_rows, y0 as int, masks.take(k as int)),
                count as nat == count_hits(old_rows, y0 as int, masks, k as int),
                count <= k,
            decreases 16 - k,
        {
            let mut row = self.rows[y0 + k];
            let c = draw_line_clipping(&mut row, x0, lines[k], 16);
            self.rows[y0 + k] = row;
            proof {
                assert(masks.take(k as int + 1) =~= masks.take(k as int).push(masks[k as int]));
                assert(self.rows@ =~= xor_rows_clipped(old_rows, y0 as int, masks.take(k as int + 1)));
            }
            if c {
                count = count + 1;
            }
            k = k + 1;
        }
        proof {
            assert(xor_rows_clipped(old_rows, y0 as int, masks.take(k as int)) =~= xor_rows_clipped(
                old_rows,
                y0 as int,
                masks,
            ));
        }
        Ok(count)
    }

    /// Moves the picture `amount` rows down (not doubled in low resolution).
    pub fn scroll_down(&mut self, amount: u8)
        requires
            amount < 16,
        ensures
            final(self).hires == old(self).hires,
            final(self).rows@ == scrolled_down(old(self).rows@, amount as int),
    {
        scroll_rows_down(&mut self.rows, amount as usize);
    }

    /// Moves the picture 4 columns right.
    pub fn scroll_right(&mut self)
        ensures
            final(self).hires == old(self).hires,
            final(self).rows@ == shifted_right(old(self).rows@, 4),
    {
        shift_rows_right(&mut self.rows, 4);
    }

    /// Moves the picture 4 columns left.
    pub fn scroll_left(&mut self)
        ensures
            final(self).hires == old(self).hires,
            final(self).rows@ == shifted_left(old(self).rows@, 4),
    {
        shift_rows_left(&mut self.rows, 4);
    }

    pub fn to_image(&self, palette: &Palette) -> (image: Vec<Color>)
        ensures
            image@.len() == 128 * 64,
            forall|y: int, x: int|
                0 <= y < 64 && 0 <= x < 128 ==> #[trigger] image@[y * 128 + x] == if super::pixel_lit(
                    self.rows@[y],
                    128,
                    x as u128,
                ) {
                    palette.spec_two_color_on()
                } else {
                    palette.spec_two_color_off()
                },
    {
        screen_to_image(&self.rows, palette)
    }
}

/// The modern SUPER-CHIP display.
#[derive(Debug, Clone, Copy)]
pub struct ModernSuperChipScreen {
    pub rows: [u128; 64],
    pub hires: bool,
}

impl ModernSuperChipScreen {
    /// The number of columns a horizontal scroll moves.
    pub open spec fn scroll_step(&self) -> u128 {
        if self.hires {
            4
        } else {
            8
        }
    }

    /// A blank screen in low resolution.
    pub fn new() -> (r: Self)
        ensures
            forall|i: int| 0 <= i < 64 ==> r.rows@[i] == 0,
            !r.hires,
    {
        ModernSuperChipScreen { rows: [0u128; 64], hires: false }
    }

    pub fn width(&self) -> (r: u8)
        ensures
            r == 128,
    {
        128
    }

    pub fn height(&self) -> (r: u8)
        ensures
            r == 64,
    {
        64
    }

    /// Blanks every row.
    pub fn clear(&mut self)
        ensures
            forall|i: int| 0 <= i < 64 ==> final(self).rows@[i] == 0,
            final(self).hires == old(self).hires,
    {
        self.rows = [0u128; 64];
    }

    pub fn get_hires(&self) -> (r: bool)
        ensures
            r == self.hires,
    {
        self.hires
    }

    pub fn set_hires(&mut self, hires: bool)
        ensures
            final(self).hires == hires,
            final(self).rows == old(self).rows,
    {
        self.hires = hires;
    }

    /// Draws a byte-per-row sprite, doubling it in low resolution.
    pub fn draw_sprite(&mut self, x: u8, y: u8, sprite: &[u8]) -> (collided: bool)
        ensures
            final(self).hires == old(self).hires,
            final(self).rows@ == drawn_small(old(self).rows@, old(self).hires, x, y, sprite@),
            collided == collides_small(old(self).rows@, old(self).hires, x, y, sprite@),
    {
        if self.hires {
            let lines = lines_of_bytes(sprite);
            draw_lines_clipping(&mut self.rows, (y % 64) as usize, x % 128, &lines, 8)
        } else {
            let lines = doubled_lines_of_bytes(sprite);
            draw_lines_clipping(&mut self.rows, ((y % 32) * 2) as usize, (x % 64) * 2, &lines, 16)
        }
    }

    /// Draws a 16×16 sprite, doubling it in low resolution; the result is 1
    /// if it met a lit pixel, else 0.
    pub fn draw_large_sprite(&mut self, x: u8, y: u8, sprite: &[u8]) -> (collided: u8)
        requires
            sprite@.len() >= 32,
        ensures
            final(self).hires == old(self).hires,
            final(self).rows@ == drawn_large(old(self).rows@, old(self).hires, x, y, sprite@),
            collided == if collides_large(old(self).rows@, old(self).hires, x, y, sprite@) {
                1u8
            } else {
                0u8
            },
    {
        let hit = if self.hires {
            let lines = lines_of_words(sprite);
            draw_lines_clipping(&mut self.rows, (y % 64) as usize, x % 128, &lines, 16)
        } else {
            let lines = doubled_lines_of_words(sprite);
            draw_lines_clipping(&mut self.rows, ((y % 32) * 2) as usize, (x % 64) * 2, &lines, 32)
        };
        if hit {
            1
        } else {
            0
        }
    }

    /// Moves the picture `amount` rows down, doubled in low resolution.
    pub fn scroll_down(&mut self, amount: u8)
        requires
            amount < 16,
        ensures
            final(self).hires == old(self).hires,
            final(self).rows@ == scrolled_down(
                old(self).rows@,
                if old(self).hires { amount as int } else { 2 * amount as int },
            ),
    {
        let n = if self.hires { amount as usize } else { 2 * amount as usize };
        scroll_rows_down(&mut self.rows, n);
    }

    /// Moves the picture 4 columns right in high resolution, 8 in low.
    pub fn scroll_right(&mut self)
        ensures
            final(self).hires == old(self).hires,
            final(self).rows@ == shifted_right(old(self).rows@, old(self).scroll_step()),
    {
        let s: u128 = if self.hires { 4 } else { 8 };
        shift_rows_right(&mut self.rows, s);
    }

    /// Moves the picture 4 columns left in high resolution, 8 in low.
    pub fn scroll_left(&mut self)
        ensures
            final(self).hires == old(self).hires,
            final(self).rows@ == shifted_left(old(self).rows@, old(self).scroll_step()),
    {
        let s: u128 = if self.hires { 4 } else { 8 };
        shift_rows_left(&mut self.rows, s);
    }

    pub fn to_image(&self, palette: &Palette) -> (image: Vec<Color>)
        ensures
            image@.len() == 128 * 64,
            forall|y: int, x: int|
                0 <= y < 64 && 0 <= x < 128 ==> #[trigger] image@[y * 128 + x] == if super::pixel_lit(
                    self.rows@[y],
                    128,
                    x as u128,
                ) {
                    palette.spec_two_color_on()
                } else {
                    palette.spec_two_color_off()
                },
    {
        screen_to_image(&self.rows, palette)
    }
}

} // verus!
