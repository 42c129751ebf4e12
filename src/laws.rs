//! Properties that relate several operations, proved from their contracts.

use vstd::prelude::*;

use crate::hardware::MachineView;
use crate::instruction::Instruction;
use crate::screen::{
    erases_pixel, hits_clipped, hits_wrapping, pixel_lit, pixel_lit64, shifted_left,
    shifted_right, wrapped_offset, xor_rows_clipped, xor_rows_wrapping, Color, DynamicScreen,
    Palette,
};
use crate::screen::xochip::{planes_below, XoChipScreen};
use crate::semantics::spec_execute;

verus! {

proof fn lemma_xor_erases(a: u128, m: u128)
    ensures
        (a & !(a ^ m)) == (a & m),
        (a & !a) == 0,
{
    assert((a & !(a ^ m)) == (a & m)) by (bit_vector);
    assert((a & !a) == 0) by (bit_vector);
}

/// Clipped drawing meets a lit pixel exactly when it unlights one.
proof fn lemma_clipped_collision_is_erasure(rows: Seq<u128>, start: int, masks: Seq<u128>)
    requires
        0 <= start,
    ensures
        hits_clipped(rows, start, masks) == erases_pixel(rows, xor_rows_clipped(rows, start, masks)),
{
    let after = xor_rows_clipped(rows, start, masks);
    if hits_clipped(rows, start, masks) {
        let r = choose|r: int|
            0 <= start <= r && r < start + masks.len() && r < rows.len() && (#[trigger] rows[r] & masks[r - start]) != 0;
        lemma_xor_erases(rows[r], masks[r - start]);
        assert(rows[r] & !after[r] != 0);
    }
    if erases_pixel(rows, after) {
        let r = choose|r: int| 0 <= r < rows.len() && (#[trigger] rows[r] & !after[r]) != 0;
        if start <= r < start + masks.len() {
            lemma_xor_erases(rows[r], masks[r - start]);
        } else {
            lemma_xor_erases(rows[r], 0);
        }
    }
}

/// Wrapping drawing meets a lit pixel exactly when it unlights one.
proof fn lemma_wrapping_collision_is_erasure(rows: Seq<u128>, start: int, masks: Seq<u128>)
    ensures
        hits_wrapping(rows, start, masks) == erases_pixel(rows, xor_rows_wrapping(rows, start, masks)),
{
    let after = xor_rows_wrapping(rows, start, masks);
    let len = rows.len() as int;
    if hits_wrapping(rows, start, masks) {
        let r = choose|r: int|
            0 <= r < rows.len() && wrapped_offset(r, start, len) < masks.len() && (#[trigger] rows[r]
                & masks[wrapped_offset(r, start, len)]) != 0;
        lemma_xor_erases(rows[r], masks[wrapped_offset(r, start, len)]);
        assert(rows[r] & !after[r] != 0);
    }
    if erases_pixel(rows, after) {
        let r = choose|r: int| 0 <= r < rows.len() && (#[trigger] rows[r] & !after[r]) != 0;
        if wrapped_offset(r, start, len) < masks.len() {
            lemma_xor_erases(rows[r], masks[wrapped_offset(r, start, len)]);
        } else {
            lemma_xor_erases(rows[r], 0);
        }
    }
}

proof fn lemma_xo_plane_collision(s: XoChipScreen, t: XoChipScreen, x: u8, y: u8, sprite: Seq<u8>, p: int)
    requires
        0 <= p < 4,
        s.spec_num_active_planes() != 0,
        s.spec_drawn_small_to(&t, x, y, sprite),
    ensures
        (s.enabled_planes@[p] && crate::screen::xochip::plane_collides_small(
            s.plane(p),
            s.hires,
            x,
            y,
            crate::screen::xochip::slab(sprite, s.slab_height(sprite.len() as int), planes_below(s.enabled_planes@, p)),
        )) == erases_pixel(s.plane(p), t.plane(p)),
{
    let part = crate::screen::xochip::slab(sprite, s.slab_height(sprite.len() as int), planes_below(s.enabled_planes@, p));
    if s.enabled_planes@[p] {
        if s.hires {
            lemma_wrapping_collision_is_erasure(
                s.plane(p),
                (y % 64) as int,
                crate::screen::wrapped_masks(crate::screen::byte_lines(part), 8, (x % 128) as u128),
            );
        } else {
            lemma_wrapping_collision_is_erasure(
                s.plane(p),
                ((y % 32) * 2) as int,
                crate::screen::wrapped_masks(crate::screen::doubled_byte_lines(part), 16, ((x % 64) * 2) as u128),
            );
        }
    } else {
        assert(t.plane(p) == s.plane(p));
        if erases_pixel(s.plane(p), t.plane(p)) {
            let r = choose|r: int| 0 <= r < s.plane(p).len() && (#[trigger] s.plane(p)[r] & !t.plane(p)[r]) != 0;
            lemma_xor_erases(s.plane(p)[r], 0);
        }
    }
}

/// Whether drawing turned `before` into `after` by unlighting some pixel.
pub open spec fn screen_erased(before: DynamicScreen, after: DynamicScreen) -> bool {
    match (before, after) {
        (DynamicScreen::CosmacVip(s), DynamicScreen::CosmacVip(t)) => exists|r: int|
            0 <= r < 32 && (#[trigger] s.rows@[r] & !t.rows@[r]) != 0,
        (DynamicScreen::LegacySuperChip(s), DynamicScreen::LegacySuperChip(t)) => erases_pixel(s.rows@, t.rows@),
        (DynamicScreen::ModernSuperChip(s), DynamicScreen::ModernSuperChip(t)) => erases_pixel(s.rows@, t.rows@),
        (DynamicScreen::XoChip(s), DynamicScreen::XoChip(t)) => exists|p: int|
            0 <= p < 4 && #[trigger] erases_pixel(s.plane(p), t.plane(p)),
        _ => false,
    }
}

/// A byte-per-row draw reports a collision exactly when it unlights a pixel
/// that was lit. This holds on every display but the legacy SUPER-CHIP in
/// low resolution, whose second row of each doubled pair is copied, not
/// tested.
pub proof fn lemma_collision_iff_pixel_erased(
    before: DynamicScreen,
    after: DynamicScreen,
    x: u8,
    y: u8,
    sprite: Seq<u8>,
    collided: bool,
)
    requires
        before.drawn_to(&after, x, y, sprite, collided),
        !(before matches DynamicScreen::LegacySuperChip(s) && !s.hires),
    ensures
        collided == screen_erased(before, after),
{
    match (before, after) {
        (DynamicScreen::CosmacVip(s), DynamicScreen::CosmacVip(t)) => {
            let x0 = (x % 64) as u64;
            let y0 = (y % 32) as int;
            if collided {
                let r = choose|r: int|
                    y0 <= r < 32 && r < y0 + sprite.len() && (#[trigger] s.rows@[r] & crate::screen::clipped64(sprite[r - y0], x0)) != 0;
                let a = s.rows@[r];
                let m = crate::screen::clipped64(sprite[r - y0], x0);
                assert((a & !(a ^ m)) == (a & m)) by (bit_vector);
                assert(s.rows@[r] & !t.rows@[r] != 0);
            }
            if screen_erased(before, after) {
                let r = choose|r: int| 0 <= r < 32 && (#[trigger] s.rows@[r] & !t.rows@[r]) != 0;
                let a = s.rows@[r];
                if y0 <= r < y0 + sprite.len() {
                    let m = crate::screen::clipped64(sprite[r - y0], x0);
                    assert((a & !(a ^ m)) == (a & m)) by (bit_vector);
                } else {
                    assert((a & !a) == 0) by (bit_vector);
                }
            }
        },
        (DynamicScreen::LegacySuperChip(s), DynamicScreen::LegacySuperChip(t)) => {
            lemma_clipped_collision_is_erasure(
                s.rows@,
                (y % 64) as int,
                crate::screen::clipped_masks(crate::screen::byte_lines(sprite), 8, (x % 128) as u128),
            );
        },
        (DynamicScreen::ModernSuperChip(s), DynamicScreen::ModernSuperChip(t)) => {
            if s.hires {
                lemma_clipped_collision_is_erasure(
                    s.rows@,
                    (y % 64) as int,
                    crate::screen::clipped_masks(crate::screen::byte_lines(sprite), 8, (x % 128) as u128),
                );
            } else {
                lemma_clipped_collision_is_erasure(
                    s.rows@,
                    ((y % 32) * 2) as int,
                    crate::screen::clipped_masks(crate::screen::doubled_byte_lines(sprite), 16, ((x % 64) * 2) as u128),
                );
            }
        },
        (DynamicScreen::XoChip(s), DynamicScreen::XoChip(t)) => {
            if s.spec_num_active_planes() == 0 {
                assert forall|p: int| 0 <= p < 4 implies !#[trigger] erases_pixel(s.plane(p), t.plane(p)) by {
                    if erases_pixel(s.plane(p), t.plane(p)) {
                        let r = choose|r: int| 0 <= r < s.plane(p).len() && (#[trigger] s.plane(p)[r] & !t.plane(p)[r]) != 0;
                        lemma_xor_erases(s.plane(p)[r], 0);
                    }
                }
            } else {
                let h = s.slab_height(sprite.len() as int);
                if collided {
                    let p = choose|p: int|
                        0 <= p < 4 && s.enabled_planes@[p] && #[trigger] crate::screen::xochip::plane_collides_small(
                            s.plane(p),
                            s.hires,
                            x,
                            y,
                            crate::screen::xochip::slab(sprite, h, planes_below(s.enabled_planes@, p)),
                        );
                    lemma_xo_plane_collision(s, t, x, y, sprite, p);
                }
                if screen_erased(before, after) {
                    let p = choose|p: int| 0 <= p < 4 && #[trigger] erases_pixel(s.plane(p), t.plane(p));
                    lemma_xo_plane_collision(s, t, x, y, sprite, p);
                }
            }
        },
        _ => {},
    }
}

/// The colour every pixel of a blank display renders as.
pub open spec fn background(screen: DynamicScreen, palette: &Palette) -> Color {
    match screen {
        DynamicScreen::XoChip(_) => palette.sixteen_color@[0],
        _ => palette.spec_two_color_off(),
    }
}

/// After `clear`, the rendered image is a single colour: the monochrome
/// off colour, or palette entry 0 on XO-CHIP where the planes that were not
/// selected were blank already.
pub proof fn lemma_clear_renders_background(
    before: DynamicScreen,
    after: DynamicScreen,
    palette: &Palette,
    image: Seq<Color>,
)
    requires
        before.cleared_to(&after),
        after.renders_as(palette, image),
        before matches DynamicScreen::XoChip(s) ==> forall|p: int, r: int|
            0 <= p < 4 && 0 <= r < 64 && !s.enabled_planes@[p] ==> #[trigger] s.plane(p)[r] == 0,
    ensures
        forall|i: int| 0 <= i < image.len() ==> #[trigger] image[i] == background(after, palette),
{
    assert forall|c: u128| c < 128 implies !#[trigger] pixel_lit(0, 128, c) by {
        assert(((0u128 >> (128 - 1 - c) as u128) & 1) == 0) by (bit_vector);
    }
    assert forall|c: u64| c < 64 implies !#[trigger] pixel_lit64(0, c) by {
        assert(((0u64 >> (63 - c) as u64) & 1) == 0) by (bit_vector);
    }
    match after {
        DynamicScreen::CosmacVip(t) => {
            assert forall|i: int| 0 <= i < image.len() implies #[trigger] image[i] == background(after, palette) by {
                let y = i / 64;
                let x = i % 64;
                assert(i == y * 64 + x);
                assert(!pixel_lit64(t.rows@[y], x as u64));
            }
        },
        DynamicScreen::LegacySuperChip(t) => {
            assert forall|i: int| 0 <= i < image.len() implies #[trigger] image[i] == background(after, palette) by {
                let y = i / 128;
                let x = i % 128;
                assert(i == y * 128 + x);
                assert(!pixel_lit(t.rows@[y], 128, x as u128));
            }
        },
        DynamicScreen::ModernSuperChip(t) => {
            assert forall|i: int| 0 <= i < image.len() implies #[trigger] image[i] == background(after, palette) by {
                let y = i / 128;
                let x = i % 128;
                assert(i == y * 128 + x);
                assert(!pixel_lit(t.rows@[y], 128, x as u128));
            }
        },
        DynamicScreen::XoChip(t) => {
            let s = before->XoChip_0;
            assert forall|p: int, r: int| 0 <= p < 4 && 0 <= r < 64 implies #[trigger] t.plane(p)[r] == 0 by {
                if s.enabled_planes@[p] {
                    assert(t.plane(p) == Seq::new(64, |i: int| 0u128));
                }
            }
            assert forall|i: int| 0 <= i < image.len() implies #[trigger] image[i] == background(after, palette) by {
                let y = i / 128;
                let x = i % 128;
                assert(i == y * 128 + x);
                assert(0 <= y < 64);
                assert(t.plane_views()[0] == t.plane(0));
                assert(t.plane_views()[1] == t.plane(1));
                assert(t.plane_views()[2] == t.plane(2));
                assert(t.plane_views()[3] == t.plane(3));
                assert(t.plane_views()[0][y] == 0);
                assert(t.plane_views()[1][y] == 0);
                assert(t.plane_views()[2][y] == 0);
                assert(t.plane_views()[3][y] == 0);
                assert(crate::screen::xochip::color_index(t.plane_views(), y, x) == 0);
            }
        },
    }
}

/// `row` with its lowest `s` bits, the rightmost `s` columns, cleared.
pub open spec fn without_right_columns(row: u128, s: u128) -> u128 {
    row & !(((1u128 << s) - 1) as u128)
}

proof fn lemma_shift_back(a: u128)
    ensures
        (a >> 4u128) << 4u128 == without_right_columns(a, 4),
        (a >> 8u128) << 8u128 == without_right_columns(a, 8),
{
    assert((a >> 4u128) << 4u128 == a & !(((1u128 << 4u128) - 1) as u128)) by (bit_vector);
    assert((a >> 8u128) << 8u128 == a & !(((1u128 << 8u128) - 1) as u128)) by (bit_vector);
}

/// A scroll right followed by a scroll left gives back the picture, but for
/// the columns shifted in at the right, which are blank.
pub proof fn lemma_scroll_right_then_left(a: DynamicScreen, b: DynamicScreen, c: DynamicScreen)
    requires
        a.scrolled_right_to(&b),
        b.scrolled_left_to(&c),
    ensures
        match (a, c) {
            (DynamicScreen::LegacySuperChip(s), DynamicScreen::LegacySuperChip(t)) => forall|r: int|
                0 <= r < 64 ==> #[trigger] t.rows@[r] == without_right_columns(s.rows@[r], 4),
            (DynamicScreen::ModernSuperChip(s), DynamicScreen::ModernSuperChip(t)) => forall|r: int|
                0 <= r < 64 ==> #[trigger] t.rows@[r] == without_right_columns(s.rows@[r], s.scroll_step()),
            (DynamicScreen::XoChip(s), DynamicScreen::XoChip(t)) => forall|p: int, r: int|
                0 <= p < 4 && 0 <= r < 64 ==> #[trigger] t.plane(p)[r] == if s.enabled_planes@[p] {
                    without_right_columns(s.plane(p)[r], s.scroll_step())
                } else {
                    s.plane(p)[r]
                },
            _ => false,
        },
{
    match (a, b, c) {
        (DynamicScreen::LegacySuperChip(s), DynamicScreen::LegacySuperChip(m), DynamicScreen::LegacySuperChip(t)) => {
            assert forall|r: int| 0 <= r < 64 implies #[trigger] t.rows@[r] == without_right_columns(s.rows@[r], 4) by {
                lemma_shift_back(s.rows@[r]);
            }
        },
        (DynamicScreen::ModernSuperChip(s), DynamicScreen::ModernSuperChip(m), DynamicScreen::ModernSuperChip(t)) => {
            assert forall|r: int| 0 <= r < 64 implies #[trigger] t.rows@[r] == without_right_columns(s.rows@[r], s.scroll_step()) by {
                lemma_shift_back(s.rows@[r]);
            }
        },
        (DynamicScreen::XoChip(s), DynamicScreen::XoChip(m), DynamicScreen::XoChip(t)) => {
            assert forall|p: int, r: int| 0 <= p < 4 && 0 <= r < 64 implies #[trigger] t.plane(p)[r] == if s.enabled_planes@[p] {
                without_right_columns(s.plane(p)[r], s.scroll_step())
            } else {
                s.plane(p)[r]
            } by {
                lemma_shift_back(s.plane(p)[r]);
                if s.enabled_planes@[p] {
                    assert(m.plane(p) == shifted_right(s.plane(p), s.scroll_step()));
                    assert(t.plane(p) == shifted_left(m.plane(p), m.scroll_step()));
                }
            }
        },
        _ => {},
    }
}

/// The number of set bits among the four low bits of `p`.
pub open spec fn popcount4(p: u8) -> int {
    (if p & 1 != 0 { 1int } else { 0int }) + (if p & 2 != 0 { 1int } else { 0int }) + (if p & 4 != 0 {
        1int
    } else {
        0int
    }) + (if p & 8 != 0 { 1int } else { 0int })
}

/// After selecting the planes of mask `p`, the number of active planes is
/// the number of bits set in `p`.
pub proof fn lemma_set_planes_counts_bits(before: DynamicScreen, after: DynamicScreen, p: u8)
    requires
        p < 16,
        before.planes_set_to(&after, p),
    ensures
        after.spec_num_active_planes() == popcount4(p),
{
    let t = after->XoChip_0;
    assert(((p >> 0u8) & 1 == 1) == (p & 1 != 0)) by (bit_vector);
    assert(((p >> 1u8) & 1 == 1) == (p & 2 != 0)) by (bit_vector);
    assert(((p >> 2u8) & 1 == 1) == (p & 4 != 0)) by (bit_vector);
    assert(((p >> 3u8) & 1 == 1) == (p & 8 != 0)) by (bit_vector);
    assert(t.enabled_planes@[0] == ((p >> 0u8) & 1 == 1));
    assert(t.enabled_planes@[1] == ((p >> 1u8) & 1 == 1));
    assert(t.enabled_planes@[2] == ((p >> 2u8) & 1 == 1));
    assert(t.enabled_planes@[3] == ((p >> 3u8) & 1 == 1));
    reveal_with_fuel(planes_below, 5);
    assert(planes_below(t.enabled_planes@, 4) == popcount4(p));
}

/// The number of bytes from `i` that an instruction writes: `|x - y| + 1`
/// for `5xy2`, 3 for `Fx33`, `x + 1` for `Fx55`, none for the others.
pub open spec fn memory_footprint(instr: Instruction) -> int {
    match instr {
        Instruction::SaveRange(x, y) => crate::semantics::distance(x, y) + 1,
        Instruction::Bcd(_) => 3,
        Instruction::Store(x) => x + 1,
        _ => 0,
    }
}

/// Whether an instruction acts on the display.
pub open spec fn acts_on_screen(instr: Instruction) -> bool {
    instr is ScrollDown || instr is ScrollUp || instr is Clear || instr is ScrollRight || instr is ScrollLeft
        || instr is Lores || instr is Hires || instr is Draw || instr is DrawLarge || instr is SetPlanes
}

/// The side effects of an instruction are limited to what it names: memory
/// changes only in its footprint from `i`; the display only for display
/// instructions; the audio pattern only for `F002`; the pitch only for
/// `Fx3A`; the timers only for `Fx15` and `Fx18`; the stack only for calls
/// and returns; the flag registers only for `Fx75`. The model, the vertical
/// blank, the held keys and the size of memory never change.
#[verifier::rlimit(100)]
pub proof fn lemma_execute_effects_are_local(s: MachineView, t: MachineView, instr: Instruction, r: Result<bool, crate::hardware::Error>)
    requires
        s.wf(),
        spec_execute(s, t, instr, r),
        instr.operands_in_range(),
    ensures
        t.model == s.model,
        t.vblank == s.vblank,
        t.keypad.keys == s.keypad.keys,
        t.memory.len() == s.memory.len(),
        forall|a: int|
            0 <= a < s.memory.len() && !(s.cpu.i <= a < s.cpu.i + memory_footprint(instr)) ==> #[trigger] t.memory[a]
                == s.memory[a],
        !acts_on_screen(instr) ==> t.screen == s.screen,
        !(instr is LoadAudio) ==> t.audio_pattern == s.audio_pattern,
        !(instr is SetPitch) ==> t.pitch == s.pitch,
        !(instr is SetDelay) ==> t.cpu.dt == s.cpu.dt,
        !(instr is SetSound) ==> t.cpu.st == s.cpu.st,
        !(instr is Call || instr is Return) ==> t.cpu.sp == s.cpu.sp && t.cpu.stack == s.cpu.stack,
        !(instr is SaveFlags) ==> t.rpl == s.rpl,
{
    match instr {
        Instruction::ExitIfAllowed => {},
        Instruction::ScrollDown(_) => {},
        Instruction::ScrollUp(_) => {},
        Instruction::Clear => {},
        Instruction::Return => {},
        Instruction::ScrollRight => {},
        Instruction::ScrollLeft => {},
        Instruction::Exit => {},
        Instruction::Lores => {},
        Instruction::Hires => {},
        Instruction::Jump(_) => {},
        Instruction::Call(_) => {},
        Instruction::SkipIfEqualImm(_, _) => {},
        Instruction::SkipIfNotEqualImm(_, _) => {},
        Instruction::SkipIfEqual(_, _) => {},
        Instruction::SaveRange(x, y) => {
            assert(crate::semantics::distance(x, y) < 16);
            assert forall|a: int|
                0 <= a < s.memory.len() && !(s.cpu.i <= a < s.cpu.i + memory_footprint(instr)) implies #[trigger] t.memory[a] == s.memory[a] by {
                if r is Ok {
                    assert(t.memory[a] == s.memory[a]);
                }
            }
        },
        Instruction::LoadRange(_, _) => {},
        Instruction::LoadImm(_, _) => {},
        Instruction::AddImm(_, _) => {},
        Instruction::Move(_, _) => {},
        Instruction::Or(_, _) => {},
        Instruction::And(_, _) => {},
        Instruction::Xor(_, _) => {},
        Instruction::Add(_, _) => {},
        Instruction::Sub(_, _) => {},
        Instruction::ShiftRight(_, _) => {},
        Instruction::SubFrom(_, _) => {},
        Instruction::ShiftLeft(_, _) => {},
        Instruction::SkipIfNotEqual(_, _) => {},
        Instruction::SetIndex(_) => {},
        Instruction::JumpOffset(_, _) => {},
        Instruction::Random(_, _) => {},
        Instruction::DrawLarge(_, _) => {},
        Instruction::Draw(_, _, _) => {},
        Instruction::SkipIfKey(_) => {},
        Instruction::SkipIfNotKey(_) => {},
        Instruction::LongIndex => {},
        Instruction::SetPlanes(_) => {},
        Instruction::LoadAudio => {},
        Instruction::GetDelay(_) => {},
        Instruction::WaitKey(_) => {},
        Instruction::SetDelay(_) => {},
        Instruction::SetSound(_) => {},
        Instruction::AddIndex(_) => {},
        Instruction::FontChar(_) => {},
        Instruction::BigFontChar(_) => {},
        Instruction::Bcd(_) => {
            assert forall|a: int|
                0 <= a < s.memory.len() && !(s.cpu.i <= a < s.cpu.i + memory_footprint(instr)) implies #[trigger] t.memory[a] == s.memory[a] by {
                if r is Ok {
                    assert(t.memory[a] == s.memory[a]);
                }
            }
        },
        Instruction::SetPitch(_) => {},
        Instruction::Store(x) => {
            assert(s.cpu.v.take(x + 1).len() == x + 1);
            assert forall|a: int|
                0 <= a < s.memory.len() && !(s.cpu.i <= a < s.cpu.i + memory_footprint(instr)) implies #[trigger] t.memory[a] == s.memory[a] by {
                if r is Ok {
                    assert(t.memory[a] == s.memory[a]);
                }
            }
        },
        Instruction::Load(_) => {},
        Instruction::SaveFlags(_) => {},
        Instruction::LoadFlags(_) => {},
    }
}

} // verus!
