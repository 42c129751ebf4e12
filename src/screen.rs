//! The display: four rasters that differ in resolution, number of bit
//! planes, scroll granularity and whether sprites wrap or clip.
//!
//! A row of pixels is an integer whose most significant bit is the leftmost
//! column.

pub mod cosmac_vip;
pub mod schip;
pub mod xochip;

pub use cosmac_vip::{CosmacVipScreen, clipped64, pixel_lit64};
pub use schip::{LegacySuperChipScreen, ModernSuperChipScreen};
pub use xochip::XoChipScreen;

use vstd::prelude::*;

verus! {

/// An operation that the active screen cannot perform.
#[derive(Debug, Clone, Copy, PartialEq, Eq, Structural)]
pub enum UnsupportedScreenOperation {
    HiresMode,
    SetPlanes,
    LargeSprite,
    LargeSpriteInLores,
    ScrollDown,
    ScrollUp,
    ScrollRight,
    ScrollLeft,
}

/// An RGBA colour.
pub type Color = [u8; 4];

/// The colours an image is rendered with.
#[derive(Debug, Clone, Copy)]
pub struct Palette {
    /// Off and on colours of the monochrome screens, used when
    /// `use_custom_two_color` is set.
    pub two_color: [Color; 2],
    /// The colour of each XO-CHIP plane combination.
    pub sixteen_color: [Color; 16],
    pub use_custom_two_color: bool,
}

impl Palette {
    pub open spec fn spec_two_color_off(&self) -> Color {
        if self.use_custom_two_color {
            self.two_color[0]
        } else {
            self.sixteen_color[0]
        }
    }

    pub open spec fn spec_two_color_on(&self) -> Color {
        if self.use_custom_two_color {
            self.two_color[1]
        } else {
            self.sixteen_color[1]
        }
    }

    /// The colour of an unlit pixel on a monochrome screen.
    pub fn two_color_off(&self) -> (r: Color)
        ensures
            r == self.spec_two_color_off(),
    {
        if self.use_custom_two_color {
            self.two_color[0]
        } else {
            self.sixteen_color[0]
        }
    }

    /// The colour of a lit pixel on a monochrome screen.
    pub fn two_color_on(&self) -> (r: Color)
        ensures
            r == self.spec_two_color_on(),
    {
        if self.use_custom_two_color {
            self.two_color[1]
        } else {
            self.sixteen_color[1]
        }
    }
}

impl Default for Palette {
    /// The sixteen colours of the Cadmium emulator; its first two serve the
    /// monochrome screens.
    fn default() -> (r: Palette)
        ensures
            r.use_custom_two_color,
            r.two_color[0] == r.sixteen_color[0],
            r.two_color[1] == r.sixteen_color[1],
    {
        let sixteen_color: [Color; 16] = [
            [0x1a, 0x1c, 0x2c, 0xff],
            [0xf4, 0xf4, 0xf4, 0xff],
            [0x94, 0xb0, 0xc2, 0xff],
            [0x33, 0x3c, 0x57, 0xff],
            [0xb1, 0x3e, 0x53, 0xff],
            [0xa7, 0xf0, 0x70, 0xff],
            [0x3b, 0x5d, 0xc9, 0xff],
            [0xff, 0xcd, 0x75, 0xff],
            [0x5d, 0x27, 0x5d, 0xff],
            [0x38, 0xb7, 0x64, 0xff],
            [0x29, 0x36, 0x6f, 0xff],
            [0x56, 0x6c, 0x86, 0xff],
            [0xef, 0x7d, 0x57, 0xff],
            [0x73, 0xef, 0xf7, 0xff],
            [0x41, 0xa6, 0xf6, 0xff],
            [0x25, 0x71, 0x79, 0xff],
        ];
        Palette {
            two_color: [sixteen_color[0], sixteen_color[1]],
            sixteen_color,
            use_custom_two_color: true,
        }
    }
}

/// Whether column `c` (0 at the left) of a row `width` pixels wide is lit.
pub open spec fn pixel_lit(row: u128, width: u128, c: u128) -> bool {
    (row >> (width - 1 - c) as u128) & 1 == 1
}

/// A `width`-bit line moved to the leftmost columns of a 128-column row.
pub open spec fn at_left(line: u128, width: u128) -> u128 {
    line << (128 - width) as u128
}

/// A `width`-bit line whose first pixel is at column `x` of a 128-column
/// row; what falls past the right edge is dropped.
pub open spec fn clipped(line: u128, width: u128, x: u128) -> u128 {
    at_left(line, width) >> x
}

/// A `width`-bit line whose first pixel is at column `x` of a 128-column
/// row; what falls past the right edge comes back in at the left.
pub open spec fn wrapped(line: u128, width: u128, x: u128) -> u128 {
    if x == 0 {
        at_left(line, width)
    } else {
        (at_left(line, width) >> x) | (at_left(line, width) << (128 - x) as u128)
    }
}

/// The rows after XOR-ing `masks[k]` into row `start + k` for each `k`;
/// masks that fall below the last row are dropped.
pub open spec fn xor_rows_clipped(rows: Seq<u128>, start: int, masks: Seq<u128>) -> Seq<u128> {
    Seq::new(
        rows.len(),
        |r: int|
            if start <= r < start + masks.len() {
                rows[r] ^ masks[r - start]
            } else {
                rows[r]
            },
    )
}

/// Whether a mask that `xor_rows_clipped` applies meets a lit pixel.
pub open spec fn hits_clipped(rows: Seq<u128>, start: int, masks: Seq<u128>) -> bool {
    exists|r: int|
        0 <= start <= r && r < start + masks.len() && r < rows.len() && (#[trigger] rows[r]
            & masks[r - start]) != 0
}

/// The offset of row `r` from row `start`, going down and wrapping past the
/// last row to the first.
pub open spec fn wrapped_offset(r: int, start: int, len: int) -> int {
    if r >= start {
        r - start
    } else {
        r + len - start
    }
}

/// The rows after XOR-ing `masks[k]` into row `start + k` for each `k`,
/// counted modulo the number of rows.
pub open spec fn xor_rows_wrapping(rows: Seq<u128>, start: int, masks: Seq<u128>) -> Seq<u128> {
    Seq::new(
        rows.len(),
        |r: int|
            if wrapped_offset(r, start, rows.len() as int) < masks.len() {
                rows[r] ^ masks[wrapped_offset(r, start, rows.len() as int)]
            } else {
                rows[r]
            },
    )
}

/// Whether a mask that `xor_rows_wrapping` applies meets a lit pixel.
pub open spec fn hits_wrapping(rows: Seq<u128>, start: int, masks: Seq<u128>) -> bool {
    exists|r: int|
        0 <= r < rows.len() && wrapped_offset(r, start, rows.len() as int) < masks.len() && (
        #[trigger] rows[r] & masks[wrapped_offset(r, start, rows.len() as int)]) != 0
}

/// Whether some pixel lit in `before` is unlit in `after`.
pub open spec fn erases_pixel(before: Seq<u128>, after: Seq<u128>) -> bool {
    exists|r: int| 0 <= r < before.len() && (#[trigger] before[r] & !after[r]) != 0
}

/// The lines of a sprite, one per byte.
pub open spec fn byte_lines(sprite: Seq<u8>) -> Seq<u128> {
    sprite.map_values(|b: u8| b as u128)
}

/// The lines of a 16×16 sprite: sixteen big-endian pairs of bytes.
pub open spec fn word_lines(sprite: Seq<u8>) -> Seq<u128> {
    Seq::new(
        16,
        |k: int| ((sprite[2 * k] as int) * 256 + sprite[2 * k + 1] as int) as u128,
    )
}

/// Each line doubled bit by bit and repeated on two consecutive rows.
pub open spec fn doubled_byte_lines(sprite: Seq<u8>) -> Seq<u128> {
    Seq::new(2 * sprite.len(), |k: int| crate::bits::doubled_u8(sprite[k / 2]) as u128)
}

/// Each 16-bit line doubled bit by bit and repeated on two consecutive rows.
pub open spec fn doubled_word_lines(sprite: Seq<u8>) -> Seq<u128> {
    Seq::new(
        32,
        |k: int| crate::bits::doubled_u16(((sprite[2 * (k / 2)] as int) * 256 + sprite[2 * (k / 2) + 1] as int) as u16) as u128,
    )
}

pub open spec fn clipped_masks(lines: Seq<u128>, width: u128, x: u128) -> Seq<u128> {
    lines.map_values(|l: u128| clipped(l, width, x))
}

pub open spec fn wrapped_masks(lines: Seq<u128>, width: u128, x: u128) -> Seq<u128> {
    lines.map_values(|l: u128| wrapped(l, width, x))
}

/// XORs `line` (`width` bits wide) into `dest` with its first pixel at column
/// `x`, clipping at the right edge; returns whether a lit pixel was met.
pub fn draw_line_clipping(dest: &mut u128, x: u8, line: u128, width: u8) -> (collided: bool)
    requires
        x < 128,
        0 < width <= 32,
    ensures
        *final(dest) == *old(dest) ^ clipped(line, width as u128, x as u128),
        collided == (*old(dest) & clipped(line, width as u128, x as u128) != 0),
{
    let mask = (line << (128 - width as u128)) >> (x as u128);
    let collided = *dest & mask != 0;
    *dest = *dest ^ mask;
    collided
}

/// XORs `line` (`width` bits wide) into `dest` with its first pixel at column
/// `x`, wrapping past the right edge to the left; returns whether a lit pixel
/// was met.
pub fn draw_line_wrapping(dest: &mut u128, x: u8, line: u128, width: u8) -> (collided: bool)
    requires
        x < 128,
        0 < width <= 32,
    ensures
        *final(dest) == *old(dest) ^ wrapped(line, width as u128, x as u128),
        collided == (*old(dest) & wrapped(line, width as u128, x as u128) != 0),
{
    let left = line << (128 - width as u128);
    let mask = if x == 0 {
        left
    } else {
        (left >> (x as u128)) | (left << (128 - x as u128))
    };
    let collided = *dest & mask != 0;
    *dest = *dest ^ mask;
    collided
}

/// XORs the lines, placed at column `x` and clipped, into the rows from
/// `start` down, dropping those below the last row.
pub fn draw_lines_clipping(rows: &mut [u128; 64], start: usize, x: u8, lines: &Vec<u128>, width: u8) -> (hit: bool)
    requires
        start < 64,
        x < 128,
        0 < width <= 32,
    ensures
        final(rows)@ == xor_rows_clipped(old(rows)@, start as int, clipped_masks(lines@, width as u128, x as u128)),
        hit == hits_clipped(old(rows)@, start as int, clipped_masks(lines@, width as u128, x as u128)),
{
    let ghost masks = clipped_masks(lines@, width as u128, x as u128);
    let mut hit = false;
    let mut k: usize = 0;
    while k < lines.len() && start + k < 64
        invariant
            start < 64,
            x < 128,
            0 < width <= 32,
            k <= lines.len(),
            start + k <= 64,
            masks == clipped_masks(lines@, width as u128, x as u128),
            rows@ == xor_rows_clipped(old(rows)@, start as int, masks.take(k as int)),
            hit == hits_clipped(old(rows)@, start as int, masks.take(k as int)),
        decreases lines.len() - k,
    {
        let mut row = rows[start + k];
        let c = draw_line_clipping(&mut row, x, lines[k], width);
        rows[start + k] = row;
        proof {
            let old_rows = old(rows)@;
            assert(masks.take(k as int + 1) =~= masks.take(k as int).push(masks[k as int]));
            assert(rows@ =~= xor_rows_clipped(old_rows, start as int, masks.take(k as int + 1)));
            if c {
                let r = start + k;
                assert(old_rows[r as int] & masks.take(k as int + 1)[r - start] != 0);
            }
            if hits_clipped(old_rows, start as int, masks.take(k as int + 1)) {
                let r = choose|r: int|
                    0 <= start <= r && r < start + masks.take(k as int + 1).len() && r < old_rows.len() && (#[trigger] old_rows[r]
                        & masks.take(k as int + 1)[r - start]) != 0;
                if r < start + k {
                    assert(masks.take(k as int)[r - start] == masks.take(k as int + 1)[r - start]);
                }
            }
        }
        hit = hit || c;
        k = k + 1;
    }
    proof {
        let old_rows = old(rows)@;
        let all = if start + lines.len() <= 64 { lines.len() as int } else { 64 - start };
        assert(xor_rows_clipped(old_rows, start as int, masks.take(k as int)) =~= xor_rows_clipped(
            old_rows,
            start as int,
            masks,
        ));
        if hits_clipped(old_rows, start as int, masks) {
            let r = choose|r: int|
                0 <= start <= r && r < start + masks.len() && r < old_rows.len() && (#[trigger] old_rows[r]
                    & masks[r - start]) != 0;
            assert(masks.take(k as int)[r - start] == masks[r - start]);
        }
        if hits_clipped(old_rows, start as int, masks.take(k as int)) {
            let r = choose|r: int|
                0 <= start <= r && r < start + masks.take(k as int).len() && r < old_rows.len() && (#[trigger] old_rows[r]
                    & masks.take(k as int)[r - start]) != 0;
            assert(masks.take(k as int)[r - start] == masks[r - start]);
        }
    }
    hit
}

/// XORs the lines, placed at column `x` and wrapped, into the rows from
/// `start` down, continuing at the first row after the last; lines beyond
/// the 64th are dropped.
pub fn draw_lines_wrapping(rows: &mut [u128; 64], start: usize, x: u8, lines: &Vec<u128>, width: u8) -> (hit: bool)
    requires
        start < 64,
        x < 128,
        0 < width <= 32,
    ensures
        final(rows)@ == xor_rows_wrapping(old(rows)@, start as int, wrapped_masks(lines@, width as u128, x as u128)),
        hit == hits_wrapping(old(rows)@, start as int, wrapped_masks(lines@, width as u128, x as u128)),
{
    let ghost masks = wrapped_masks(lines@, width as u128, x as u128);
    let mut hit = false;
    let mut k: usize = 0;
    while k < lines.len() && k < 64
        invariant
            start < 64,
            x < 128,
            0 < width <= 32,
            k <= lines.len(),
            k <= 64,
            masks == wrapped_masks(lines@, width as u128, x as u128),
            rows@ == xor_rows_wrapping(old(rows)@, start as int, masks.take(k as int)),
            hit == hits_wrapping(old(rows)@, start as int, masks.take(k as int)),
        decreases lines.len() - k,
    {
        let r: usize = if start + k < 64 { start + k } else { start + k - 64 };
        let mut row = rows[r];
        let c = draw_line_wrapping(&mut row, x, lines[k], width);
        rows[r] = row;
        proof {
            let old_rows = old(rows)@;
            assert(wrapped_offset(r as int, start as int, 64) == k);
            assert(masks.take(k as int + 1) =~= masks.take(k as int).push(masks[k as int]));
            assert(rows@ =~= xor_rows_wrapping(old_rows, start as int, masks.take(k as int + 1)));
            if c {
                assert(old_rows[r as int] & masks.take(k as int + 1)[wrapped_offset(r as int, start as int, 64)] != 0);
            }
            if hits_wrapping(old_rows, start as int, masks.take(k as int + 1)) {
                let q = choose|q: int|
                    0 <= q < old_rows.len() && wrapped_offset(q, start as int, old_rows.len() as int) < masks.take(k as int + 1).len() && (
                    #[trigger] old_rows[q] & masks.take(k as int + 1)[wrapped_offset(q, start as int, old_rows.len() as int)]) != 0;
                if wrapped_offset(q, start as int, 64) < k {
                    assert(masks.take(k as int)[wrapped_offset(q, start as int, 64)] == masks.take(k as int + 1)[wrapped_offset(q, start as int, 64)]);
                }
            }
        }
        hit = hit || c;
        k = k + 1;
    }
    proof {
        let old_rows = old(rows)@;
        assert forall|q: int| 0 <= q < 64 implies wrapped_offset(q, start as int, 64) < 64 by {}
        assert(xor_rows_wrapping(old_rows, start as int, masks.take(k as int)) =~= xor_rows_wrapping(old_rows, start as int, masks));
        if hits_wrapping(old_rows, start as int, masks) {
            let q = choose|q: int|
                0 <= q < old_rows.len() && wrapped_offset(q, start as int, old_rows.len() as int) < masks.len() && (
                #[trigger] old_rows[q] & masks[wrapped_offset(q, start as int, old_rows.len() as int)]) != 0;
            assert(masks.take(k as int)[wrapped_offset(q, start as int, 64)] == masks[wrapped_offset(q, start as int, 64)]);
        }
        if hits_wrapping(old_rows, start as int, masks.take(k as int)) {
            let q = choose|q: int|
                0 <= q < old_rows.len() && wrapped_offset(q, start as int, old_rows.len() as int) < masks.take(k as int).len() && (
                #[trigger] old_rows[q] & masks.take(k as int)[wrapped_offset(q, start as int, old_rows.len() as int)]) != 0;
            assert(masks.take(k as int)[wrapped_offset(q, start as int, 64)] == masks[wrapped_offset(q, start as int, 64)]);
        }
    }
    hit
}

/// The rows moved `n` rows down; the `n` rows at the top are blank.
pub open spec fn scrolled_down(rows: Seq<u128>, n: int) -> Seq<u128> {
    Seq::new(rows.len(), |r: int| if r < n { 0u128 } else { rows[r - n] })
}

/// The rows moved `n` rows up; the `n` rows at the bottom are blank.
pub open spec fn scrolled_up(rows: Seq<u128>, n: int) -> Seq<u128> {
    Seq::new(rows.len(), |r: int| if r + n < rows.len() { rows[r + n] } else { 0u128 })
}

/// Every row moved `s` columns right; the columns shifted in are blank.
pub open spec fn shifted_right(rows: Seq<u128>, s: u128) -> Seq<u128> {
    rows.map_values(|row: u128| row >> s)
}

/// Every row moved `s` columns left; the columns shifted in are blank.
pub open spec fn shifted_left(rows: Seq<u128>, s: u128) -> Seq<u128> {
    rows.map_values(|row: u128| row << s)
}

pub open spec fn all_blank(rows: Seq<u128>) -> bool {
    forall|r: int| 0 <= r < rows.len() ==> #[trigger] rows[r] == 0
}

/// Moves the rows `n` rows down, blanking the rows at the top.
pub fn scroll_rows_down(rows: &mut [u128; 64], n: usize)
    requires
        n <= 64,
    ensures
        final(rows)@ == scrolled_down(old(rows)@, n as int),
{
    let mut i: usize = 64;
    while i > n
        invariant
            n <= i <= 64,
            forall|r: int| 0 <= r < i ==> #[trigger] rows@[r] == old(rows)@[r],
            forall|r: int| i <= r < 64 ==> #[trigger] rows@[r] == old(rows)@[r - n],
        decreases i,
    {
        i = i - 1;
        rows[i] = rows[i - n];
    }
    let mut j: usize = 0;
    while j < n
        invariant
            j <= n <= 64,
            forall|r: int| 0 <= r < j ==> #[trigger] rows@[r] == 0,
            forall|r: int| n <= r < 64 ==> #[trigger] rows@[r] == old(rows)@[r - n],
        decreases n - j,
    {
        rows[j] = 0;
        j = j + 1;
    }
    proof {
        assert(rows@ =~= scrolled_down(old(rows)@, n as int));
    }
}

/// Moves the rows `n` rows up, blanking the rows at the bottom.
pub fn scroll_rows_up(rows: &mut [u128; 64], n: usize)
    requires
        n <= 64,
    ensures
        final(rows)@ == scrolled_up(old(rows)@, n as int),
{
    let mut i: usize = 0;
    while i + n < 64
        invariant
            n <= 64,
            i + n <= 64,
            forall|r: int| i <= r < 64 ==> #[trigger] rows@[r] == old(rows)@[r],
            forall|r: int| 0 <= r < i ==> #[trigger] rows@[r] == old(rows)@[r + n],
        decreases 64 - i,
    {
        rows[i] = rows[i + n];
        i = i + 1;
    }
    while i < 64
        invariant
            n <= 64,
            64 - n <= i <= 64,
            forall|r: int| 64 - n <= r < i ==> #[trigger] rows@[r] == 0,
            forall|r: int| 0 <= r < 64 - n ==> #[trigger] rows@[r] == old(rows)@[r + n],
        decreases 64 - i,
    {
        rows[i] = 0;
        i = i + 1;
    }
    proof {
        assert(rows@ =~= scrolled_up(old(rows)@, n as int));
    }
}

/// Moves every row `s` columns right.
pub fn shift_rows_right(rows: &mut [u128; 64], s: u128)
    requires
        s < 128,
    ensures
        final(rows)@ == shifted_right(old(rows)@, s),
{
    let mut i: usize = 0;
    while i < 64
        invariant
            s < 128,
            i <= 64,
            forall|r: int| i <= r < 64 ==> #[trigger] rows@[r] == old(rows)@[r],
            forall|r: int| 0 <= r < i ==> #[trigger] rows@[r] == old(rows)@[r] >> s,
        decreases 64 - i,
    {
        rows[i] = rows[i] >> s;
        i = i + 1;
    }
    proof {
        assert(rows@ =~= shifted_right(old(rows)@, s));
    }
}

/// Moves every row `s` columns left.
pub fn shift_rows_left(rows: &mut [u128; 64], s: u128)
    requires
        s < 128,
    ensures
        final(rows)@ == shifted_left(old(rows)@, s),
{
    let mut i: usize = 0;
    while i < 64
        invariant
            s < 128,
            i <= 64,
            forall|r: int| i <= r < 64 ==> #[trigger] rows@[r] == old(rows)@[r],
            forall|r: int| 0 <= r < i ==> #[trigger] rows@[r] == old(rows)@[r] << s,
        decreases 64 - i,
    {
        rows[i] = rows[i] << s;
        i = i + 1;
    }
    proof {
        assert(rows@ =~= shifted_left(old(rows)@, s));
    }
}

/// One line per byte of the sprite.
pub fn lines_of_bytes(sprite: &[u8]) -> (lines: Vec<u128>)
    ensures
        lines@ == byte_lines(sprite@),
{
    let mut lines: Vec<u128> = Vec::new();
    let mut k: usize = 0;
    while k < sprite.len()
        invariant
            k <= sprite.len(),
            lines@ =~= byte_lines(sprite@.take(k as int)),
        decreases sprite.len() - k,
    {
        lines.push(sprite[k] as u128);
        k = k + 1;
        assert(lines@ =~= byte_lines(sprite@.take(k as int)));
    }
    assert(sprite@.take(k as int) =~= sprite@);
    lines
}

/// One doubled line per byte of the sprite, each repeated on two rows.
pub fn doubled_lines_of_bytes(sprite: &[u8]) -> (lines: Vec<u128>)
    ensures
        lines@ == doubled_byte_lines(sprite@),
{
    let mut lines: Vec<u128> = Vec::new();
    let mut k: usize = 0;
    while k < sprite.len()
        invariant
            k <= sprite.len(),
            lines@.len() == 2 * k,
            forall|i: int| 0 <= i < 2 * k ==> #[trigger] lines@[i] == crate::bits::doubled_u8(sprite@[i / 2]) as u128,
        decreases sprite.len() - k,
    {
        let d = crate::bits::double_bits_holger(sprite[k]) as u128;
        lines.push(d);
        lines.push(d);
        k = k + 1;
    }
    assert(lines@ =~= doubled_byte_lines(sprite@));
    lines
}

/// The sixteen 16-bit lines of a large sprite.
pub fn lines_of_words(sprite: &[u8]) -> (lines: Vec<u128>)
    requires
        sprite@.len() >= 32,
    ensures
        lines@ == word_lines(sprite@),
{
    let mut lines: Vec<u128> = Vec::new();
    let mut k: usize = 0;
    while k < 16
        invariant
            k <= 16,
            sprite@.len() >= 32,
            lines@.len() == k,
            forall|i: int| 0 <= i < k ==> #[trigger] lines@[i] == word_lines(sprite@)[i],
        decreases 16 - k,
    {
        lines.push((sprite[2 * k] as u128) * 256 + sprite[2 * k + 1] as u128);
        k = k + 1;
    }
    assert(lines@ =~= word_lines(sprite@));
    lines
}

/// The sixteen lines of a large sprite, each doubled and repeated on two rows.
pub fn doubled_lines_of_words(sprite: &[u8]) -> (lines: Vec<u128>)
    requires
        sprite@.len() >= 32,
    ensures
        lines@ == doubled_word_lines(sprite@),
{
    let mut lines: Vec<u128> = Vec::new();
    let mut k: usize = 0;
    while k < 16
        invariant
            k <= 16,
            sprite@.len() >= 32,
            lines@.len() == 2 * k,
            forall|i: int| 0 <= i < 2 * k ==> #[trigger] lines@[i] == doubled_word_lines(sprite@)[i],
        decreases 16 - k,
    {
        let word = (sprite[2 * k] as u16) * 256 + sprite[2 * k + 1] as u16;
        let d = crate::bits::double_bits_magic(word) as u128;
        lines.push(d);
        lines.push(d);
        k = k + 1;
    }
    assert(lines@ =~= doubled_word_lines(sprite@));
    lines
}

/// The RGBA pixels of a 128×64 monochrome raster, row by row.
pub fn screen_to_image(rows: &[u128; 64], palette: &Palette) -> (image: Vec<Color>)
    ensures
        image@.len() == 128 * 64,
        forall|y: int, x: int|
            0 <= y < 64 && 0 <= x < 128 ==> #[trigger] image@[y * 128 + x] == if pixel_lit(
                rows@[y],
                128,
                x as u128,
            ) {
                palette.spec_two_color_on()
            } else {
                palette.spec_two_color_off()
            },
{
    let on = palette.two_color_on();
    let off = palette.two_color_off();
    let mut image: Vec<Color> = Vec::new();
    let mut y: usize = 0;
    while y < 64
        invariant
            y <= 64,
            on == palette.spec_two_color_on(),
            off == palette.spec_two_color_off(),
            image@.len() == y * 128,
            forall|yy: int, xx: int|
                0 <= yy < y && 0 <= xx < 128 ==> #[trigger] image@[yy * 128 + xx] == if pixel_lit(
                    rows@[yy],
                    128,
                    xx as u128,
                ) {
                    on
                } else {
                    off
                },
        decreases 64 - y,
    {
        let row = rows[y];
        let mut x: usize = 0;
        while x < 128
            invariant
                y < 64,
                x <= 128,
                row == rows@[y as int],
                on == palette.spec_two_color_on(),
                off == palette.spec_two_color_off(),
                image@.len() == y * 128 + x,
                forall|yy: int, xx: int|
                    0 <= yy < y && 0 <= xx < 128 ==> #[trigger] image@[yy * 128 + xx] == if pixel_lit(
                        rows@[yy],
                        128,
                        xx as u128,
                    ) {
                        on
                    } else {
                        off
                    },
                forall|xx: int|
                    0 <= xx < x ==> #[trigger] image@[y * 128 + xx] == if pixel_lit(row, 128, xx as u128) {
                        on
                    } else {
                        off
                    },
            decreases 128 - x,
        {
            let lit = (row >> (127 - x as u128)) & 1 == 1;
            image.push(if lit { on } else { off });
            x = x + 1;
        }
        y = y + 1;
    }
    image
}

/// One of the four displays.
#[derive(Debug, Clone, Copy)]
pub enum DynamicScreen {
    CosmacVip(CosmacVipScreen),
    LegacySuperChip(LegacySuperChipScreen),
    ModernSuperChip(ModernSuperChipScreen),
    XoChip(XoChipScreen),
}

impl DynamicScreen {
    pub open spec fn spec_width(&self) -> u8 {
        match self {
            DynamicScreen::CosmacVip(_) => 64,
            _ => 128,
        }
    }

    pub open spec fn spec_height(&self) -> u8 {
        match self {
            DynamicScreen::CosmacVip(_) => 32,
            _ => 64,
        }
    }

    pub open spec fn spec_hires(&self) -> bool {
        match self {
            DynamicScreen::CosmacVip(_) => false,
            DynamicScreen::LegacySuperChip(s) => s.hires,
            DynamicScreen::ModernSuperChip(s) => s.hires,
            DynamicScreen::XoChip(s) => s.hires,
        }
    }

    pub open spec fn spec_num_active_planes(&self) -> int {
        match self {
            DynamicScreen::XoChip(s) => s.spec_num_active_planes(),
            _ => 1,
        }
    }

    /// Whether `other` is the same kind of display as this one.
    pub open spec fn same_kind(&self, other: &Self) -> bool {
        match (self, other) {
            (DynamicScreen::CosmacVip(_), DynamicScreen::CosmacVip(_)) => true,
            (DynamicScreen::LegacySuperChip(_), DynamicScreen::LegacySuperChip(_)) => true,
            (DynamicScreen::ModernSuperChip(_), DynamicScreen::ModernSuperChip(_)) => true,
            (DynamicScreen::XoChip(_), DynamicScreen::XoChip(_)) => true,
            _ => false,
        }
    }

    /// Whether `other` is this display after `clear`.
    pub open spec fn cleared_to(&self, other: &Self) -> bool {
        match (self, other) {
            (DynamicScreen::CosmacVip(_), DynamicScreen::CosmacVip(t)) => forall|i: int|
                0 <= i < 32 ==> #[trigger] t.rows@[i] == 0,
            (DynamicScreen::LegacySuperChip(s), DynamicScreen::LegacySuperChip(t)) => t.hires == s.hires
                && all_blank(t.rows@),
            (DynamicScreen::ModernSuperChip(s), DynamicScreen::ModernSuperChip(t)) => t.hires == s.hires
                && all_blank(t.rows@),
            (DynamicScreen::XoChip(s), DynamicScreen::XoChip(t)) => s.spec_cleared_to(t),
            _ => false,
        }
    }

    /// Whether `other` is this display after drawing a byte-per-row sprite
    /// at `(x, y)` and `collided` the collision it reports.
    pub open spec fn drawn_to(&self, other: &Self, x: u8, y: u8, sprite: Seq<u8>, collided: bool) -> bool {
        match (self, other) {
            (DynamicScreen::CosmacVip(s), DynamicScreen::CosmacVip(t)) => t.rows@ == s.spec_drawn(x, y, sprite)
                && collided == s.spec_collides(x, y, sprite),
            (DynamicScreen::LegacySuperChip(s), DynamicScreen::LegacySuperChip(t)) => t.hires == s.hires && if s.hires {
                t.rows@ == schip::drawn_small(s.rows@, true, x, y, sprite) && collided
                    == schip::collides_small(s.rows@, true, x, y, sprite)
            } else {
                t.rows@ == schip::legacy_drawn_lores(s.rows@, x, y, sprite) && collided
                    == schip::legacy_collides_lores(s.rows@, x, y, sprite)
            },
            (DynamicScreen::ModernSuperChip(s), DynamicScreen::ModernSuperChip(t)) => t.hires == s.hires
                && t.rows@ == schip::drawn_small(s.rows@, s.hires, x, y, sprite) && collided
                == schip::collides_small(s.rows@, s.hires, x, y, sprite),
            (DynamicScreen::XoChip(s), DynamicScreen::XoChip(t)) => s.spec_draw_result(t, x, y, sprite, collided),
            _ => false,
        }
    }

    /// Whether the display accepts a 16×16 sprite in its current mode.
    pub open spec fn supports_large_sprite(&self) -> bool {
        match self {
            DynamicScreen::CosmacVip(_) => false,
            DynamicScreen::LegacySuperChip(s) => s.hires,
            _ => true,
        }
    }

    /// Whether `other` is this display after drawing a 16×16 sprite at
    /// `(x, y)` and `collided` the collision value it reports.
    pub open spec fn drawn_large_to(&self, other: &Self, x: u8, y: u8, sprite: Seq<u8>, collided: u8) -> bool {
        match (self, other) {
            (DynamicScreen::LegacySuperChip(s), DynamicScreen::LegacySuperChip(t)) => t.hires == s.hires
                && t.rows@ == schip::drawn_large(s.rows@, true, x, y, sprite) && collided == schip::count_hits(
                s.rows@,
                (y % 64) as int,
                clipped_masks(word_lines(sprite), 16, (x % 128) as u128),
                if (y % 64) as int + 16 <= 64 { 16 } else { 64 - (y % 64) as int },
            ) as u8,
            (DynamicScreen::ModernSuperChip(s), DynamicScreen::ModernSuperChip(t)) => t.hires == s.hires
                && t.rows@ == schip::drawn_large(s.rows@, s.hires, x, y, sprite) && collided == if schip::collides_large(
                s.rows@,
                s.hires,
                x,
                y,
                sprite,
            ) {
                1u8
            } else {
                0u8
            },
            (DynamicScreen::XoChip(s), DynamicScreen::XoChip(t)) => s.spec_drawn_large_to(t, x, y, sprite)
                && collided == if s.spec_collides_large(x, y, sprite) {
                1u8
            } else {
                0u8
            },
            _ => false,
        }
    }

    /// The error an unsupported 16×16 draw reports.
    pub open spec fn large_sprite_error(&self) -> UnsupportedScreenOperation {
        match self {
            DynamicScreen::CosmacVip(_) => UnsupportedScreenOperation::LargeSprite,
            _ => UnsupportedScreenOperation::LargeSpriteInLores,
        }
    }

    /// Whether `other` is this display after scrolling `amount` rows down.
    pub open spec fn scrolled_down_to(&self, other: &Self, amount: u8) -> bool {
        match (self, other) {
            (DynamicScreen::LegacySuperChip(s), DynamicScreen::LegacySuperChip(t)) => t.hires == s.hires
                && t.rows@ == scrolled_down(s.rows@, amount as int),
            (DynamicScreen::ModernSuperChip(s), DynamicScreen::ModernSuperChip(t)) => t.hires == s.hires
                && t.rows@ == scrolled_down(s.rows@, if s.hires { amount as int } else { 2 * amount as int }),
            (DynamicScreen::XoChip(s), DynamicScreen::XoChip(t)) => s.spec_scrolled_down_to(t, amount),
            _ => false,
        }
    }

    /// Whether `other` is this display after scrolling `amount` rows up.
    pub open spec fn scrolled_up_to(&self, other: &Self, amount: u8) -> bool {
        match (self, other) {
            (DynamicScreen::XoChip(s), DynamicScreen::XoChip(t)) => s.spec_scrolled_up_to(t, amount),
            _ => false,
        }
    }

    /// Whether `other` is this display after a scroll to the right.
    pub open spec fn scrolled_right_to(&self, other: &Self) -> bool {
        match (self, other) {
            (DynamicScreen::LegacySuperChip(s), DynamicScreen::LegacySuperChip(t)) => t.hires == s.hires
                && t.rows@ == shifted_right(s.rows@, 4),
            (DynamicScreen::ModernSuperChip(s), DynamicScreen::ModernSuperChip(t)) => t.hires == s.hires
                && t.rows@ == shifted_right(s.rows@, s.scroll_step()),
            (DynamicScreen::XoChip(s), DynamicScreen::XoChip(t)) => s.spec_scrolled_right_to(t),
            _ => false,
        }
    }

    /// Whether `other` is this display after a scroll to the left.
    pub open spec fn scrolled_left_to(&self, other: &Self) -> bool {
        match (self, other) {
            (DynamicScreen::LegacySuperChip(s), DynamicScreen::LegacySuperChip(t)) => t.hires == s.hires
                && t.rows@ == shifted_left(s.rows@, 4),
            (DynamicScreen::ModernSuperChip(s), DynamicScreen::ModernSuperChip(t)) => t.hires == s.hires
                && t.rows@ == shifted_left(s.rows@, s.scroll_step()),
            (DynamicScreen::XoChip(s), DynamicScreen::XoChip(t)) => s.spec_scrolled_left_to(t),
            _ => false,
        }
    }

    /// Whether `other` is this display with the resolution flag set to `hires`.
    pub open spec fn hires_set_to(&self, other: &Self, hires: bool) -> bool {
        match (self, other) {
            (DynamicScreen::LegacySuperChip(s), DynamicScreen::LegacySuperChip(t)) => t.hires == hires && t.rows
                == s.rows,
            (DynamicScreen::ModernSuperChip(s), DynamicScreen::ModernSuperChip(t)) => t.hires == hires && t.rows
                == s.rows,
            (DynamicScreen::XoChip(s), DynamicScreen::XoChip(t)) => t.hires == hires && t.planes == s.planes
                && t.enabled_planes == s.enabled_planes,
            _ => false,
        }
    }

    /// Whether `other` is this display with the planes of mask `planes` selected.
    pub open spec fn planes_set_to(&self, other: &Self, planes: u8) -> bool {
        match (self, other) {
            (DynamicScreen::XoChip(s), DynamicScreen::XoChip(t)) => t.planes == s.planes && t.hires == s.hires
                && forall|p: int| 0 <= p < 4 ==> t.enabled_planes@[p] == ((planes >> p as u8) & 1 == 1),
            _ => false,
        }
    }

    pub fn new_cosmac_vip() -> (r: Box<Self>)
        ensures
            *r == DynamicScreen::CosmacVip(r->CosmacVip_0),
            forall|i: int| 0 <= i < 32 ==> r->CosmacVip_0.rows@[i] == 0,
    {
        Box::new(DynamicScreen::CosmacVip(CosmacVipScreen::new()))
    }

    pub fn new_legacy_super_chip() -> (r: Box<Self>)
        ensures
            *r == DynamicScreen::LegacySuperChip(r->LegacySuperChip_0),
            all_blank(r->LegacySuperChip_0.rows@),
            !r->LegacySuperChip_0.hires,
    {
        Box::new(DynamicScreen::LegacySuperChip(LegacySuperChipScreen::new()))
    }

    pub fn new_modern_super_chip() -> (r: Box<Self>)
        ensures
            *r == DynamicScreen::ModernSuperChip(r->ModernSuperChip_0),
            all_blank(r->ModernSuperChip_0.rows@),
            !r->ModernSuperChip_0.hires,
    {
        Box::new(DynamicScreen::ModernSuperChip(ModernSuperChipScreen::new()))
    }

    pub fn new_xochip() -> (r: Box<Self>)
        ensures
            *r == DynamicScreen::XoChip(r->XoChip_0),
            forall|p: int, i: int| 0 <= p < 4 && 0 <= i < 64 ==> r->XoChip_0.plane(p)[i] == 0,
            r->XoChip_0.enabled_planes@ == seq![true, false, false, false],
            !r->XoChip_0.hires,
    {
        Box::new(DynamicScreen::XoChip(XoChipScreen::new()))
    }

    pub fn width(&self) -> (r: u8)
        ensures
            r == self.spec_width(),
    {
        match self {
            DynamicScreen::CosmacVip(s) => s.width(),
            DynamicScreen::LegacySuperChip(s) => s.width(),
            DynamicScreen::ModernSuperChip(s) => s.width(),
            DynamicScreen::XoChip(s) => s.width(),
        }
    }

    pub fn height(&self) -> (r: u8)
        ensures
            r == self.spec_height(),
    {
        match self {
            DynamicScreen::CosmacVip(s) => s.height(),
            DynamicScreen::LegacySuperChip(s) => s.height(),
            DynamicScreen::ModernSuperChip(s) => s.height(),
            DynamicScreen::XoChip(s) => s.height(),
        }
    }

    /// Blanks the display (on XO-CHIP, the selected planes).
    pub fn clear(&mut self)
        ensures
            old(self).cleared_to(final(self)),
    {
        match self {
            DynamicScreen::CosmacVip(s) => s.clear(),
            DynamicScreen::LegacySuperChip(s) => {
                s.clear();
                assert(all_blank(s.rows@));
            },
            DynamicScreen::ModernSuperChip(s) => {
                s.clear();
                assert(all_blank(s.rows@));
            },
            DynamicScreen::XoChip(s) => s.clear(),
        }
    }

    pub fn get_hires(&self) -> (r: bool)
        ensures
            r == self.spec_hires(),
    {
        match self {
            DynamicScreen::CosmacVip(_) => false,
            DynamicScreen::LegacySuperChip(s) => s.get_hires(),
            DynamicScreen::ModernSuperChip(s) => s.get_hires(),
            DynamicScreen::XoChip(s) => s.get_hires(),
        }
    }

    /// Switches resolution; the COSMAC VIP has only one.
    pub fn set_hires(&mut self, hires: bool) -> (r: Result<(), UnsupportedScreenOperation>)
        ensures
            *old(self) is CosmacVip ==> r == Err::<(), UnsupportedScreenOperation>(UnsupportedScreenOperation::HiresMode)
                && *final(self) == *old(self),
            !(*old(self) is CosmacVip) ==> r is Ok && old(self).hires_set_to(final(self), hires),
    {
        match self {
            DynamicScreen::CosmacVip(_) => Err(UnsupportedScreenOperation::HiresMode),
            DynamicScreen::LegacySuperChip(s) => {
                s.set_hires(hires);
                Ok(())
            },
            DynamicScreen::ModernSuperChip(s) => {
                s.set_hires(hires);
                Ok(())
            },
            DynamicScreen::XoChip(s) => {
                s.set_hires(hires);
                Ok(())
            },
        }
    }

    /// Selects the planes of mask `planes` (bit `p` for plane `p`); only
    /// XO-CHIP has planes.
    pub fn set_planes(&mut self, planes: u8) -> (r: Result<(), UnsupportedScreenOperation>)
        requires
            planes < 16,
        ensures
            !(*old(self) is XoChip) ==> r == Err::<(), UnsupportedScreenOperation>(UnsupportedScreenOperation::SetPlanes)
                && *final(self) == *old(self),
            *old(self) is XoChip ==> r is Ok && old(self).planes_set_to(final(self), planes),
    {
        match self {
            DynamicScreen::XoChip(s) => {
                s.set_planes(planes);
                Ok(())
            },
            _ => Err(UnsupportedScreenOperation::SetPlanes),
        }
    }

    /// The number of planes a sprite is drawn to.
    pub fn num_active_planes(&self) -> (r: usize)
        ensures
            r == self.spec_num_active_planes(),
            r <= 4,
    {
        match self {
            DynamicScreen::XoChip(s) => s.num_active_planes(),
            _ => 1,
        }
    }

    /// Draws a byte-per-row sprite at `(x, y)`; returns whether a lit pixel
    /// was met.
    pub fn draw_sprite(&mut self, x: u8, y: u8, sprite: &[u8]) -> (collided: bool)
        ensures
            old(self).drawn_to(final(self), x, y, sprite@, collided),
    {
        match self {
            DynamicScreen::CosmacVip(s) => s.draw_sprite(x, y, sprite),
            DynamicScreen::LegacySuperChip(s) => s.draw_sprite(x, y, sprite),
            DynamicScreen::ModernSuperChip(s) => s.draw_sprite(x, y, sprite),
            DynamicScreen::XoChip(s) => {
                let c = s.draw_sprite(x, y, sprite);
                c
            },
        }
    }

    /// Draws a 16×16 sprite (32 bytes per active plane) at `(x, y)`.
    pub fn draw_large_sprite(&mut self, x: u8, y: u8, sprite: &[u8]) -> (r: Result<u8, UnsupportedScreenOperation>)
        requires
            sprite@.len() >= 32 * old(self).spec_num_active_planes(),
        ensures
            !old(self).supports_large_sprite() ==> r == Err::<u8, UnsupportedScreenOperation>(old(self).large_sprite_error())
                && *final(self) == *old(self),
            old(self).supports_large_sprite() ==> r is Ok && old(self).drawn_large_to(final(self), x, y, sprite@, r->Ok_0),
    {
        match self {
            DynamicScreen::CosmacVip(_) => Err(UnsupportedScreenOperation::LargeSprite),
            DynamicScreen::LegacySuperChip(s) => s.draw_large_sprite(x, y, sprite),
            DynamicScreen::ModernSuperChip(s) => Ok(s.draw_large_sprite(x, y, sprite)),
            DynamicScreen::XoChip(s) => Ok(s.draw_large_sprite(x, y, sprite)),
        }
    }

    /// Scrolls down by `amount` rows; the COSMAC VIP cannot.
    pub fn scroll_down(&mut self, amount: u8) -> (r: Result<(), UnsupportedScreenOperation>)
        requires
            amount < 16,
        ensures
            *old(self) is CosmacVip ==> r == Err::<(), UnsupportedScreenOperation>(UnsupportedScreenOperation::ScrollDown)
                && *final(self) == *old(self),
            !(*old(self) is CosmacVip) ==> r is Ok && old(self).scrolled_down_to(final(self), amount),
    {
        match self {
            DynamicScreen::CosmacVip(_) => Err(UnsupportedScreenOperation::ScrollDown),
            DynamicScreen::LegacySuperChip(s) => {
                s.scroll_down(amount);
                Ok(())
            },
            DynamicScreen::ModernSuperChip(s) => {
                s.scroll_down(amount);
                Ok(())
            },
            DynamicScreen::XoChip(s) => {
                s.scroll_down(amount);
                Ok(())
            },
        }
    }

    /// Scrolls up by `amount` rows; only XO-CHIP can.
    pub fn scroll_up(&mut self, amount: u8) -> (r: Result<(), UnsupportedScreenOperation>)
        requires
            amount < 16,
        ensures
            !(*old(self) is XoChip) ==> r == Err::<(), UnsupportedScreenOperation>(UnsupportedScreenOperation::ScrollUp)
                && *final(self) == *old(self),
            *old(self) is XoChip ==> r is Ok && old(self).scrolled_up_to(final(self), amount),
    {
        match self {
            DynamicScreen::XoChip(s) => {
                s.scroll_up(amount);
                Ok(())
            },
            _ => Err(UnsupportedScreenOperation::ScrollUp),
        }
    }

    /// Scrolls right; the COSMAC VIP cannot.
    pub fn scroll_right(&mut self) -> (r: Result<(), UnsupportedScreenOperation>)
        ensures
            *old(self) is CosmacVip ==> r == Err::<(), UnsupportedScreenOperation>(UnsupportedScreenOperation::ScrollRight)
                && *final(self) == *old(self),
            !(*old(self) is CosmacVip) ==> r is Ok && old(self).scrolled_right_to(final(self)),
    {
        match self {
            DynamicScreen::CosmacVip(_) => Err(UnsupportedScreenOperation::ScrollRight),
            DynamicScreen::LegacySuperChip(s) => {
                s.scroll_right();
                Ok(())
            },
            DynamicScreen::ModernSuperChip(s) => {
                s.scroll_right();
                Ok(())
            },
            DynamicScreen::XoChip(s) => {
                s.scroll_right();
                Ok(())
            },
        }
    }

    /// Scrolls left; the COSMAC VIP cannot.
    pub fn scroll_left(&mut self) -> (r: Result<(), UnsupportedScreenOperation>)
        ensures
            *old(self) is CosmacVip ==> r == Err::<(), UnsupportedScreenOperation>(UnsupportedScreenOperation::ScrollLeft)
                && *final(self) == *old(self),
            !(*old(self) is CosmacVip) ==> r is Ok && old(self).scrolled_left_to(final(self)),
    {
        match self {
            DynamicScreen::CosmacVip(_) => Err(UnsupportedScreenOperation::ScrollLeft),
            DynamicScreen::LegacySuperChip(s) => {
                s.scroll_left();
                Ok(())
            },
            DynamicScreen::ModernSuperChip(s) => {
                s.scroll_left();
                Ok(())
            },
            DynamicScreen::XoChip(s) => {
                s.scroll_left();
                Ok(())
            },
        }
    }

    /// Whether `image` is this display rendered with `palette`, row by row.
    pub open spec fn renders_as(&self, palette: &Palette, image: Seq<Color>) -> bool {
        match self {
            DynamicScreen::CosmacVip(s) => image.len() == 64 * 32 && forall|y: int, x: int|
                0 <= y < 32 && 0 <= x < 64 ==> #[trigger] image[y * 64 + x] == if pixel_lit64(
                    s.rows@[y],
                    x as u64,
                ) {
                    palette.spec_two_color_on()
                } else {
                    palette.spec_two_color_off()
                },
            DynamicScreen::LegacySuperChip(s) => mono_renders_as(s.rows@, palette, image),
            DynamicScreen::ModernSuperChip(s) => mono_renders_as(s.rows@, palette, image),
            DynamicScreen::XoChip(s) => image.len() == 128 * 64 && forall|y: int, x: int|
                0 <= y < 64 && 0 <= x < 128 ==> #[trigger] image[y * 128 + x]
                    == palette.sixteen_color@[xochip::color_index(s.plane_views(), y, x)],
        }
    }

    /// The RGBA pixels at native resolution, row by row.
    pub fn to_image(&self, palette: &Palette) -> (image: Vec<Color>)
        ensures
            self.renders_as(palette, image@),
    {
        match self {
            DynamicScreen::CosmacVip(s) => s.to_image(palette),
            DynamicScreen::LegacySuperChip(s) => s.to_image(palette),
            DynamicScreen::ModernSuperChip(s) => s.to_image(palette),
            DynamicScreen::XoChip(s) => s.to_image(palette),
        }
    }
}

/// Whether `image` is the 128×64 monochrome raster `rows` rendered with
/// `palette`, row by row.
pub open spec fn mono_renders_as(rows: Seq<u128>, palette: &Palette, image: Seq<Color>) -> bool {
    image.len() == 128 * 64 && forall|y: int, x: int|
        0 <= y < 64 && 0 <= x < 128 ==> #[trigger] image[y * 128 + x] == if pixel_lit(rows[y], 128, x as u128) {
            palette.spec_two_color_on()
        } else {
            palette.spec_two_color_off()
        }
}

/// Whether `screen` is blank, in low resolution and, on XO-CHIP, with
/// only plane 0 selected.
pub open spec fn is_fresh(screen: DynamicScreen) -> bool {
    match screen {
        DynamicScreen::CosmacVip(s) => forall|i: int| 0 <= i < 32 ==> #[trigger] s.rows@[i] == 0,
        DynamicScreen::LegacySuperChip(s) => all_blank(s.rows@) && !s.hires,
        DynamicScreen::ModernSuperChip(s) => all_blank(s.rows@) && !s.hires,
        DynamicScreen::XoChip(s) => (forall|p: int, i: int| 0 <= p < 4 && 0 <= i < 64 ==> #[trigger] s.plane(p)[i] == 0)
            && s.enabled_planes@ == seq![true, false, false, false] && !s.hires,
    }
}

} // verus!
