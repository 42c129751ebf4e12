//! The XO-CHIP display: four 128×64 planes combined into sixteen colours, a
//! selection of planes that drawing, clearing and scrolling act on, and
//! sprites that wrap around the edges.

use vstd::prelude::*;

use super::{
    byte_lines, doubled_byte_lines, doubled_lines_of_bytes, doubled_lines_of_words,
    doubled_word_lines, draw_lines_wrapping, hits_wrapping, lines_of_bytes, lines_of_words,
    pixel_lit, scroll_rows_down, scroll_rows_up, scrolled_down, scrolled_up, shift_rows_left,
    shift_rows_right, shifted_left, shifted_right, word_lines, wrapped_masks, xor_rows_wrapping,
    Color, Palette,
};

verus! {

/// How many of the planes below `p` are selected.
pub open spec fn planes_below(enabled: Seq<bool>, p: int) -> int
    decreases p,
{
    if p <= 0 {
        0
    } else {
        planes_below(enabled, p - 1) + if enabled[p - 1] {
            1int
        } else {
            0int
        }
    }
}

/// The `j`-th slab of `h` bytes of a sprite.
pub open spec fn slab(sprite: Seq<u8>, h: int, j: int) -> Seq<u8> {
    sprite.subrange(j * h, j * h + h)
}

/// A plane after drawing a byte-per-row sprite, doubled in low resolution,
/// wrapping at the edges.
pub open spec fn plane_drawn_small(rows: Seq<u128>, hires: bool, x: u8, y: u8, sprite: Seq<u8>) -> Seq<u128> {
    if hires {
        xor_rows_wrapping(rows, (y % 64) as int, wrapped_masks(byte_lines(sprite), 8, (x % 128) as u128))
    } else {
        xor_rows_wrapping(rows, ((y % 32) * 2) as int, wrapped_masks(doubled_byte_lines(sprite), 16, ((x % 64) * 2) as u128))
    }
}

pub open spec fn plane_collides_small(rows: Seq<u128>, hires: bool, x: u8, y: u8, sprite: Seq<u8>) -> bool {
    if hires {
        hits_wrapping(rows, (y % 64) as int, wrapped_masks(byte_lines(sprite), 8, (x % 128) as u128))
    } else {
        hits_wrapping(rows, ((y % 32) * 2) as int, wrapped_masks(doubled_byte_lines(sprite), 16, ((x % 64) * 2) as u128))
    }
}

/// A plane after drawing a 16×16 sprite, doubled in low resolution.
pub open spec fn plane_drawn_large(rows: Seq<u128>, hires: bool, x: u8, y: u8, sprite: Seq<u8>) -> Seq<u128> {
    if hires {
        xor_rows_wrapping(rows, (y % 64) as int, wrapped_masks(word_lines(sprite), 16, (x % 128) as u128))
    } else {
        xor_rows_wrapping(rows, ((y % 32) * 2) as int, wrapped_masks(doubled_word_lines(sprite), 32, ((x % 64) * 2) as u128))
    }
}

pub open spec fn plane_collides_large(rows: Seq<u128>, hires: bool, x: u8, y: u8, sprite: Seq<u8>) -> bool {
    if hires {
        hits_wrapping(rows, (y % 64) as int, wrapped_masks(word_lines(sprite), 16, (x % 128) as u128))
    } else {
        hits_wrapping(rows, ((y % 32) * 2) as int, wrapped_masks(doubled_word_lines(sprite), 32, ((x % 64) * 2) as u128))
    }
}

/// The palette index of a pixel: bit `p` is the pixel of plane `p`.
pub open spec fn color_index(planes: Seq<Seq<u128>>, y: int, x: int) -> int {
    (if pixel_lit(planes[0][y], 128, x as u128) { 1int } else { 0int }) + (if pixel_lit(
        planes[1][y],
        128,
        x as u128,
    ) {
        2int
    } else {
        0int
    }) + (if pixel_lit(planes[2][y], 128, x as u128) { 4int } else { 0int }) + (if pixel_lit(
        planes[3][y],
        128,
        x as u128,
    ) {
        8int
    } else {
        0int
    })
}

/// The XO-CHIP display.
#[derive(Debug, Clone, Copy)]
pub struct XoChipScreen {
    /// The planes, by number: plane `p` is bit `p` of a pixel's colour.
    pub planes: [[u128; 64]; 4],
    /// Whether plane `p` is selected.
    pub enabled_planes: [bool; 4],
    pub hires: bool,
}

impl XoChipScreen {
    /// The rows of plane `p`.
    pub open spec fn plane(&self, p: int) -> Seq<u128> {
        self.planes@[p]@
    }

    pub open spec fn plane_views(&self) -> Seq<Seq<u128>> {
        Seq::new(4, |p: int| self.planes@[p]@)
    }

    pub open spec fn spec_num_active_planes(&self) -> int {
        planes_below(self.enabled_planes@, 4)
    }

    /// The number of columns a horizontal scroll moves.
    pub open spec fn scroll_step(&self) -> u128 {
        if self.hires {
            4
        } else {
            8
        }
    }

    /// The number of rows a vertical scroll by `amount` moves.
    pub open spec fn scroll_rows(&self, amount: u8) -> int {
        if self.hires {
            amount as int
        } else {
            2 * amount as int
        }
    }

    /// Whether `other` has the same selection, resolution and unselected planes.
    pub open spec fn keeps_unselected(&self, other: &Self) -> bool {
        &&& other.enabled_planes == self.enabled_planes
        &&& other.hires == self.hires
        &&& forall|p: int| 0 <= p < 4 && !self.enabled_planes@[p] ==> #[trigger] other.plane(p) == self.plane(p)
    }

    /// Whether `other` is this display after `clear`.
    pub open spec fn spec_cleared_to(&self, other: &Self) -> bool {
        &&& self.keeps_unselected(other)
        &&& forall|p: int| 0 <= p < 4 && self.enabled_planes@[p] ==> #[trigger] other.plane(p) == Seq::new(64, |i: int| 0u128)
    }

    /// Whether `other` is this display after scrolling `amount` rows down.
    pub open spec fn spec_scrolled_down_to(&self, other: &Self, amount: u8) -> bool {
        &&& self.keeps_unselected(other)
        &&& forall|p: int| 0 <= p < 4 && self.enabled_planes@[p] ==> #[trigger] other.plane(p) == scrolled_down(self.plane(p), self.scroll_rows(amount))
    }

    /// Whether `other` is this display after scrolling `amount` rows up.
    pub open spec fn spec_scrolled_up_to(&self, other: &Self, amount: u8) -> bool {
        &&& self.keeps_unselected(other)
        &&& forall|p: int| 0 <= p < 4 && self.enabled_planes@[p] ==> #[trigger] other.plane(p) == scrolled_up(self.plane(p), self.scroll_rows(amount))
    }

    /// Whether `other` is this display after a scroll to the right.
    pub open spec fn spec_scrolled_right_to(&self, other: &Self) -> bool {
        &&& self.keeps_unselected(other)
        &&& forall|p: int| 0 <= p < 4 && self.enabled_planes@[p] ==> #[trigger] other.plane(p) == shifted_right(self.plane(p), self.scroll_step())
    }

    /// Whether `other` is this display after a scroll to the left.
    pub open spec fn spec_scrolled_left_to(&self, other: &Self) -> bool {
        &&& self.keeps_unselected(other)
        &&& forall|p: int| 0 <= p < 4 && self.enabled_planes@[p] ==> #[trigger] other.plane(p) == shifted_left(self.plane(p), self.scroll_step())
    }

    /// The slab height of a sprite of `len` bytes spread over the selected planes.
    pub open spec fn slab_height(&self, len: int) -> int {
        len / self.spec_num_active_planes()
    }

    /// Whether `other` is this display after drawing a byte-per-row sprite
    /// at `(x, y)` on the selected planes.
    pub open spec fn spec_drawn_small_to(&self, other: &Self, x: u8, y: u8, sprite: Seq<u8>) -> bool {
        &&& self.keeps_unselected(other)
        &&& forall|p: int|
            0 <= p < 4 && self.enabled_planes@[p] ==> #[trigger] other.plane(p) == plane_drawn_small(
                self.plane(p),
                self.hires,
                x,
                y,
                slab(sprite, self.slab_height(sprite.len() as int), planes_below(self.enabled_planes@, p)),
            )
    }

    /// Whether `other` and `collided` are what drawing a byte-per-row sprite
    /// at `(x, y)` gives: nothing changes when no plane is selected.
    pub open spec fn spec_draw_result(&self, other: &Self, x: u8, y: u8, sprite: Seq<u8>, collided: bool) -> bool {
        if self.spec_num_active_planes() == 0 {
            *other == *self && !collided
        } else {
            self.spec_drawn_small_to(other, x, y, sprite) && collided == self.spec_collides_small(x, y, sprite)
        }
    }

    /// Whether drawing a byte-per-row sprite meets a lit pixel on a selected plane.
    pub open spec fn spec_collides_small(&self, x: u8, y: u8, sprite: Seq<u8>) -> bool {
        exists|p: int|
            0 <= p < 4 && self.enabled_planes@[p] && #[trigger] plane_collides_small(
                self.plane(p),
                self.hires,
                x,
                y,
                slab(sprite, self.slab_height(sprite.len() as int), planes_below(self.enabled_planes@, p)),
            )
    }

    /// Whether `other` is this display after drawing a 16×16 sprite at
    /// `(x, y)` on the selected planes.
    pub open spec fn spec_drawn_large_to(&self, other: &Self, x: u8, y: u8, sprite: Seq<u8>) -> bool {
        &&& self.keeps_unselected(other)
        &&& forall|p: int|
            0 <= p < 4 && self.enabled_planes@[p] ==> #[trigger] other.plane(p) == plane_drawn_large(
                self.plane(p),
                self.hires,
                x,
                y,
                slab(sprite, 32, planes_below(self.enabled_planes@, p)),
            )
    }

    /// Whether drawing a 16×16 sprite meets a lit pixel on a selected plane.
    pub open spec fn spec_collides_large(&self, x: u8, y: u8, sprite: Seq<u8>) -> bool {
        exists|p: int|
            0 <= p < 4 && self.enabled_planes@[p] && #[trigger] plane_collides_large(
                self.plane(p),
                self.hires,
                x,
                y,
                slab(sprite, 32, planes_below(self.enabled_planes@, p)),
            )
    }

    /// Replaces the rows of plane `p`.
    fn set_plane(&mut self, p: usize, rows: [u128; 64])
        requires
            p < 4,
        ensures
            final(self).plane(p as int) == rows@,
            forall|q: int| 0 <= q < 4 && q != p ==> #[trigger] final(self).plane(q) == old(self).plane(q),
            final(self).enabled_planes == old(self).enabled_planes,
            final(self).hires == old(self).hires,
    {
        self.planes[p] = rows;
    }

    /// A blank screen in low resolution with plane 0 selected.
    pub fn new() -> (r: Self)
        ensures
            forall|p: int, i: int| 0 <= p < 4 && 0 <= i < 64 ==> r.plane(p)[i] == 0,
            r.enabled_planes@ == seq![true, false, false, false],
            !r.hires,
    {
        XoChipScreen {
            planes: [[0u128; 64]; 4],
            enabled_planes: [true, false, false, false],
            hires: false,
        }
    }

    pub fn width(&self) -> (r: u8)
        ensures
            r == 128,
    {
        128
    }

    pub fn height(&self) -> (r: u8)
        ensures
            r == 64,
    {
        64
    }

    /// Blanks the selected planes.
    pub fn clear(&mut self)
        ensures
            old(self).spec_cleared_to(final(self)),
    {
        let mut p: usize = 0;
        while p < 4
            invariant
                p <= 4,
                self.enabled_planes == old(self).enabled_planes,
                self.hires == old(self).hires,
                forall|q: int|
                    0 <= q < 4 ==> #[trigger] self.plane(q) == if q < p && old(self).enabled_planes@[q] {
                        Seq::new(64, |i: int| 0u128)
                    } else {
                        old(self).plane(q)
                    },
            decreases 4 - p,
        {
            if self.enabled_planes[p] {
                self.set_plane(p, [0u128; 64]);
                assert(self.plane(p as int) =~= Seq::new(64, |i: int| 0u128));
            }
            p = p + 1;
        }
    }

    pub fn get_hires(&self) -> (r: bool)
        ensures
            r == self.hires,
    {
        self.hires
    }

    pub fn set_hires(&mut self, hires: bool)
        ensures
            final(self).hires == hires,
            final(self).planes == old(self).planes,
            final(self).enabled_planes == old(self).enabled_planes,
    {
        self.hires = hires;
    }

    /// Selects the planes whose bits are set in `planes`.
    pub fn set_planes(&mut self, planes: u8)
        requires
            planes < 16,
        ensures
            forall|p: int| 0 <= p < 4 ==> final(self).enabled_planes@[p] == ((planes >> p as u8) & 1 == 1),
            final(self).planes == old(self).planes,
            final(self).hires == old(self).hires,
    {
        self.enabled_planes = [planes & 1 != 0, planes & 2 != 0, planes & 4 != 0, planes & 8 != 0];
        assert(((planes >> 0u8) & 1 == 1) == (planes & 1 != 0)) by (bit_vector);
        assert(((planes >> 1u8) & 1 == 1) == (planes & 2 != 0)) by (bit_vector);
        assert(((planes >> 2u8) & 1 == 1) == (planes & 4 != 0)) by (bit_vector);
        assert(((planes >> 3u8) & 1 == 1) == (planes & 8 != 0)) by (bit_vector);
    }

    /// The number of selected planes.
    pub fn num_active_planes(&self) -> (r: usize)
        ensures
            r == self.spec_num_active_planes(),
            r <= 4,
    {
        let mut count: usize = 0;
        let mut p: usize = 0;
        while p < 4
            invariant
                p <= 4,
                count == planes_below(self.enabled_planes@, p as int),
                count <= p,
            decreases 4 - p,
        {
            if self.enabled_planes[p] {
                count = count + 1;
            }
            p = p + 1;
        }
        count
    }

    /// Draws a byte-per-row sprite: the bytes are split into one slab per
    /// selected plane, the first slab going to the lowest selected plane.
    /// With no plane selected nothing is drawn.
    pub fn draw_sprite(&mut self, x: u8, y: u8, sprite: &[u8]) -> (collided: bool)
        ensures
            old(self).spec_num_active_planes() == 0 ==> *final(self) == *old(self) && !collided,
            old(self).spec_num_active_planes() > 0 ==> old(self).spec_drawn_small_to(final(self), x, y, sprite@),
            old(self).spec_num_active_planes() > 0 ==> collided == old(self).spec_collides_small(x, y, sprite@),
            old(self).spec_draw_result(final(self), x, y, sprite@, collided),
    {
        let n = self.num_active_planes();
        if n == 0 {
            return false;
        }
        let len = sprite.len();
        let h = len / n;
        let ghost old_self = *old(self);
        let mut collided = false;
        let mut j: usize = 0;
        let mut p: usize = 0;
        while p < 4
            invariant
                p <= 4,
                n == old_self.spec_num_active_planes(),
                0 < n <= 4,
                h == (sprite@.len() as int) / (n as int),
                len == sprite@.len(),
                h == old_self.slab_height(sprite@.len() as int),
                j == planes_below(old_self.enabled_planes@, p as int),
                j <= p,
                j <= n,
                old_self == *old(self),
                self.enabled_planes == old_self.enabled_planes,
                self.hires == old_self.hires,
                forall|q: int|
                    0 <= q < 4 ==> #[trigger] self.plane(q) == if q < p && old_self.enabled_planes@[q] {
                        plane_drawn_small(old_self.plane(q), old_self.hires, x, y, slab(sprite@, h as int, planes_below(old_self.enabled_planes@, q)))
                    } else {
                        old_self.plane(q)
                    },
                collided == exists|q: int|
                    0 <= q < p && old_self.enabled_planes@[q] && #[trigger] plane_collides_small(
                        old_self.plane(q),
                        old_self.hires,
                        x,
                        y,
                        slab(sprite@, h as int, planes_below(old_self.enabled_planes@, q)),
                    ),
            decreases 4 - p,
        {
            if self.enabled_planes[p] {
                proof {
                    lemma_planes_below_mono(old_self.enabled_planes@, p as int + 1, 4);
                    assert(planes_below(old_self.enabled_planes@, p as int + 1) == j + 1);
                    assert((j as int + 1) * (h as int) <= (n as int) * (h as int)) by (nonlinear_arith)
                        requires
                            j + 1 <= n,
                            h >= 0,
                    ;
                    assert((n as int) * (h as int) <= sprite@.len()) by (nonlinear_arith)
                        requires
                            h == (sprite@.len() as int) / (n as int),
                            n > 0,
                    ;
                    assert((j as int + 1) * (h as int) == j * h + h) by (nonlinear_arith);
                    assert(j * h <= j * h + h);
                    assert(j * h + h <= len);
                }
                let part = &sprite[j * h..j * h + h];
                let mut plane = self.planes[p];
                assert(plane@ == self.plane(p as int));
                assert(self.plane(p as int) == old_self.plane(p as int));
                let c = if self.hires {
                    let lines = lines_of_bytes(part);
                    draw_lines_wrapping(&mut plane, (y % 64) as usize, x % 128, &lines, 8)
                } else {
                    let lines = doubled_lines_of_bytes(part);
                    draw_lines_wrapping(&mut plane, ((y % 32) * 2) as usize, (x % 64) * 2, &lines, 16)
                };
                proof {
                    let sl = slab(sprite@, h as int, planes_below(old_self.enabled_planes@, p as int));
                    assert(part@ =~= sl);
                    assert(plane@ == plane_drawn_small(old_self.plane(p as int), old_self.hires, x, y, sl));
                    assert(c == plane_collides_small(old_self.plane(p as int), old_self.hires, x, y, sl));
                }
                self.set_plane(p, plane);
                collided = collided || c;
                j = j + 1;
            }
            p = p + 1;
        }
        collided
    }

    /// Draws a 16×16 sprite: 32 bytes per selected plane, the first slab
    /// going to the lowest selected plane. The result is 1 if it met a lit
    /// pixel, else 0.
    pub fn draw_large_sprite(&mut self, x: u8, y: u8, sprite: &[u8]) -> (collided: u8)
        requires
            sprite@.len() >= 32 * old(self).spec_num_active_planes(),
        ensures
            old(self).spec_drawn_large_to(final(self), x, y, sprite@),
            collided == if old(self).spec_collides_large(x, y, sprite@) {
                1u8
            } else {
                0u8
            },
    {
        let ghost old_self = *old(self);
        let mut collided = false;
        let mut j: usize = 0;
        let mut p: usize = 0;
        while p < 4
            invariant
                p <= 4,
                sprite@.len() >= 32 * old_self.spec_num_active_planes(),
                j == planes_below(old_self.enabled_planes@, p as int),
                j <= p,
                old_self == *old(self),
                self.enabled_planes == old_self.enabled_planes,
                self.hires == old_self.hires,
                forall|q: int|
                    0 <= q < 4 ==> #[trigger] self.plane(q) == if q < p && old_self.enabled_planes@[q] {
                        plane_drawn_large(old_self.plane(q), old_self.hires, x, y, slab(sprite@, 32, planes_below(old_self.enabled_planes@, q)))
                    } else {
                        old_self.plane(q)
                    },
                collided == exists|q: int|
                    0 <= q < p && old_self.enabled_planes@[q] && #[trigger] plane_collides_large(
                        old_self.plane(q),
                        old_self.hires,
                        x,
                        y,
                        slab(sprite@, 32, planes_below(old_self.enabled_planes@, q)),
                    ),
            decreases 4 - p,
        {
            if self.enabled_planes[p] {
                proof {
                    lemma_planes_below_mono(old_self.enabled_planes@, p as int + 1, 4);
                    assert(planes_below(old_self.enabled_planes@, p as int + 1) == j + 1);
                }
                let part = &sprite[32 * j..32 * j + 32];
                let mut plane = self.planes[p];
                assert(plane@ == self.plane(p as int));
                assert(self.plane(p as int) == old_self.plane(p as int));
                let c = if self.hires {
                    let lines = lines_of_words(part);
                    draw_lines_wrapping(&mut plane, (y % 64) as usize, x % 128, &lines, 16)
                } else {
                    let lines = doubled_lines_of_words(part);
                    draw_lines_wrapping(&mut plane, ((y % 32) * 2) as usize, (x % 64) * 2, &lines, 32)
                };
                proof {
                    let sl = slab(sprite@, 32, planes_below(old_self.enabled_planes@, p as int));
                    assert(part@ =~= sl);
                    assert(plane@ == plane_drawn_large(old_self.plane(p as int), old_self.hires, x, y, sl));
                    assert(c == plane_collides_large(old_self.plane(p as int), old_self.hires, x, y, sl));
                }
                self.set_plane(p, plane);
                collided = collided || c;
                j = j + 1;
            }
            p = p + 1;
        }
        if collided {
            1
        } else {
            0
        }
    }

    /// Moves the selected planes `amount` rows down, doubled in low resolution.
    pub fn scroll_down(&mut self, amount: u8)
        requires
            amount < 16,
        ensures
            old(self).spec_scrolled_down_to(final(self), amount),
    {
        let n = if self.hires { amount as usize } else { 2 * amount as usize };
        let mut p: usize = 0;
        while p < 4
            invariant
                p <= 4,
                amount < 16,
                n == old(self).scroll_rows(amount),
                self.enabled_planes == old(self).enabled_planes,
                self.hires == old(self).hires,
                forall|q: int|
                    0 <= q < 4 ==> #[trigger] self.plane(q) == if q < p && old(self).enabled_planes@[q] {
                        scrolled_down(old(self).plane(q), n as int)
                    } else {
                        old(self).plane(q)
                    },
            decreases 4 - p,
        {
            if self.enabled_planes[p] {
                let mut plane = self.planes[p];
                assert(plane@ == self.plane(p as int));
                assert(self.plane(p as int) == old(self).plane(p as int));
                scroll_rows_down(&mut plane, n);
                self.set_plane(p, plane);
            }
            p = p + 1;
        }
    }

    /// Moves the selected planes `amount` rows up, doubled in low resolution.
    pub fn scroll_up(&mut self, amount: u8)
        requires
            amount < 16,
        ensures
            old(self).spec_scrolled_up_to(final(self), amount),
    {
        let n = if self.hires { amount as usize } else { 2 * amount as usize };
        let mut p: usize = 0;
        while p < 4
            invariant
                p <= 4,
                amount < 16,
                n == old(self).scroll_rows(amount),
                self.enabled_planes == old(self).enabled_planes,
                self.hires == old(self).hires,
                forall|q: int|
                    0 <= q < 4 ==> #[trigger] self.plane(q) == if q < p && old(self).enabled_planes@[q] {
                        scrolled_up(old(self).plane(q), n as int)
                    } else {
                        old(self).plane(q)
                    },
            decreases 4 - p,
        {
            if self.enabled_planes[p] {
                let mut plane = self.planes[p];
                assert(plane@ == self.plane(p as int));
                assert(self.plane(p as int) == old(self).plane(p as int));
                scroll_rows_up(&mut plane, n);
                self.set_plane(p, plane);
            }
            p = p + 1;
        }
    }

    /// Moves the selected planes 4 columns right in high resolution, 8 in low.
    pub fn scroll_right(&mut self)
        ensures
            old(self).spec_scrolled_right_to(final(self)),
    {
        let s: u128 = if self.hires { 4 } else { 8 };
        let mut p: usize = 0;
        while p < 4
            invariant
                p <= 4,
                s == old(self).scroll_step(),
                self.enabled_planes == old(self).enabled_planes,
                self.hires == old(self).hires,
                forall|q: int|
                    0 <= q < 4 ==> #[trigger] self.plane(q) == if q < p && old(self).enabled_planes@[q] {
                        shifted_right(old(self).plane(q), s)
                    } else {
                        old(self).plane(q)
                    },
            decreases 4 - p,
        {
            if self.enabled_planes[p] {
                let mut plane = self.planes[p];
                assert(plane@ == self.plane(p as int));
                assert(self.plane(p as int) == old(self).plane(p as int));
                shift_rows_right(&mut plane, s);
                self.set_plane(p, plane);
            }
            p = p + 1;
        }
    }

    /// Moves the selected planes 4 columns left in high resolution, 8 in low.
    pub fn scroll_left(&mut self)
        ensures
            old(self).spec_scrolled_left_to(final(self)),
    {
        let s: u128 = if self.hires { 4 } else { 8 };
        let mut p: usize = 0;
        while p < 4
            invariant
                p <= 4,
                s == old(self).scroll_step(),
                self.enabled_planes == old(self).enabled_planes,
                self.hires == old(self).hires,
                forall|q: int|
                    0 <= q < 4 ==> #[trigger] self.plane(q) == if q < p && old(self).enabled_planes@[q] {
                        shifted_left(old(self).plane(q), s)
                    } else {
                        old(self).plane(q)
                    },
            decreases 4 - p,
        {
            if self.enabled_planes[p] {
                let mut plane = self.planes[p];
                assert(plane@ == self.plane(p as int));
                assert(self.plane(p as int) == old(self).plane(p as int));
                shift_rows_left(&mut plane, s);
                self.set_plane(p, plane);
            }
            p = p + 1;
        }
    }

    /// The RGBA pixels, row by row, each the palette entry that its four
    /// plane bits index.
    pub fn to_image(&self, palette: &Palette) -> (image: Vec<Color>)
        ensures
            image@.len() == 128 * 64,
            forall|y: int, x: int|
                0 <= y < 64 && 0 <= x < 128 ==> #[trigger] image@[y * 128 + x]
                    == palette.sixteen_color@[color_index(self.plane_views(), y, x)],
    {
        let mut image: Vec<Color> = Vec::new();
        let mut y: usize = 0;
        while y < 64
            invariant
                y <= 64,
                image@.len() == y * 128,
                forall|yy: int, xx: int|
                    0 <= yy < y && 0 <= xx < 128 ==> #[trigger] image@[yy * 128 + xx]
                        == palette.sixteen_color@[color_index(self.plane_views(), yy, xx)],
            decreases 64 - y,
        {
            let mut x: usize = 0;
            while x < 128
                invariant
                    y < 64,
                    x <= 128,
                    image@.len() == y * 128 + x,
                    forall|yy: int, xx: int|
                        0 <= yy < y && 0 <= xx < 128 ==> #[trigger] image@[yy * 128 + xx]
                            == palette.sixteen_color@[color_index(self.plane_views(), yy, xx)],
                    forall|xx: int|
                        0 <= xx < x ==> #[trigger] image@[y * 128 + xx]
                            == palette.sixteen_color@[color_index(self.plane_views(), y as int, xx)],
                decreases 128 - x,
            {
                let shift = 127 - x as u128;
                let b0: usize = if (self.planes[0][y] >> shift) & 1 == 1 { 1 } else { 0 };
                let b1: usize = if (self.planes[1][y] >> shift) & 1 == 1 { 2 } else { 0 };
                let b2: usize = if (self.planes[2][y] >> shift) & 1 == 1 { 4 } else { 0 };
                let b3: usize = if (self.planes[3][y] >> shift) & 1 == 1 { 8 } else { 0 };
                image.push(palette.sixteen_color[b0 + b1 + b2 + b3]);
                x = x + 1;
            }
            y = y + 1;
        }
        image
    }
}

/// Counting selected planes is monotone in the bound.
pub proof fn lemma_planes_below_mono(enabled: Seq<bool>, p: int, q: int)
    requires
        0 <= p <= q,
    ensures
        planes_below(enabled, p) <= planes_below(enabled, q),
        planes_below(enabled, p) >= 0,
    decreases q - p,
{
    lemma_planes_below_nonneg(enabled, p);
    if p < q {
        lemma_planes_below_mono(enabled, p, q - 1);
    }
}

proof fn lemma_planes_below_nonneg(enabled: Seq<bool>, p: int)
    ensures
        planes_below(enabled, p) >= 0,
    decreases p,
{
    if p > 0 {
        lemma_planes_below_nonneg(enabled, p - 1);
    }
}

} // verus!
