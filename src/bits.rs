//! Bit utilities: pixel doubling for low-resolution drawing on
//! high-resolution rasters, and the four-plane interleave of the XO-CHIP
//! colour output.

use vstd::prelude::*;

verus! {

/// The two-bit block that bit `i` of `x` becomes when every bit is doubled.
pub open spec fn doubled_pair(x: u32, i: u32) -> u32 {
    ((((x >> i) & 1u32) * 3u32) as u32) << ((2u32 * i) as u32)
}

/// `x` with each of its eight bits doubled: `abcdefgh` becomes
/// `aabbccddeeffgghh`.
pub open spec fn doubled_u8(x: u8) -> u16 {
    let x = x as u32;
    (doubled_pair(x, 0) | doubled_pair(x, 1) | doubled_pair(x, 2) | doubled_pair(x, 3)
        | doubled_pair(x, 4) | doubled_pair(x, 5) | doubled_pair(x, 6) | doubled_pair(x, 7)) as u16
}

/// `x` with each of its sixteen bits doubled.
pub open spec fn doubled_u16(x: u16) -> u32 {
    let x = x as u32;
    doubled_pair(x, 0) | doubled_pair(x, 1) | doubled_pair(x, 2) | doubled_pair(x, 3)
        | doubled_pair(x, 4) | doubled_pair(x, 5) | doubled_pair(x, 6) | doubled_pair(x, 7)
        | doubled_pair(x, 8) | doubled_pair(x, 9) | doubled_pair(x, 10) | doubled_pair(x, 11)
        | doubled_pair(x, 12) | doubled_pair(x, 13) | doubled_pair(x, 14) | doubled_pair(x, 15)
}

/// Doubles each bit of a byte with a branchless multiply-and-mask identity.
pub fn double_bits_holger(x: u8) -> (r: u16)
    ensures
        r == doubled_u8(x),
{
    let m = ((x as u64).wrapping_mul(0x0101010101010101u64) & 0x8040201008040201u64).wrapping_mul(
        0x0102040810204081u64,
    );
    proof {
        lemma_holger(x);
    }
    (((m >> 49u64) & 0x5555u64) * 3u64) as u16
}

proof fn lemma_holger(x: u8)
    ensures
        ({
            let m = ((x as u64).wrapping_mul(0x0101010101010101u64) & 0x8040201008040201u64).wrapping_mul(
                0x0102040810204081u64,
            );
            ((m >> 49u64) & 0x5555u64) * 3u64 <= 0xFFFF && ((((m >> 49u64) & 0x5555u64) * 3u64) as u16) == doubled_u8(x)
        }),
{
    let m = ((x as u64).wrapping_mul(0x0101010101010101u64) & 0x8040201008040201u64).wrapping_mul(
        0x0102040810204081u64,
    );
    assert(((m >> 49u64) & 0x5555u64) * 3u64 <= 0xFFFF && ((((m >> 49u64) & 0x5555u64) * 3u64) as u16) == doubled_u8(x)) by (bit_vector)
        requires
            m == ((x as u64).wrapping_mul(0x0101010101010101u64) & 0x8040201008040201u64).wrapping_mul(
                0x0102040810204081u64,
            ),
    ;
}

/// Doubles each bit of a 16-bit word by successive spreading masks.
pub fn double_bits_magic(x: u16) -> (r: u32)
    ensures
        r == doubled_u16(x),
{
    let x0 = x as u32;
    let x1 = (x0 | x0 << 8u32) & 0x00FF00FFu32;
    let x2 = (x1 | x1 << 4u32) & 0x0F0F0F0Fu32;
    let x3 = (x2 | x2 << 2u32) & 0x33333333u32;
    let x4 = (x3 | x3 << 1u32) & 0x55555555u32;
    assert(x4 | x4 << 1u32 == doubled_u16(x)) by (bit_vector)
        requires
            x0 == x as u32,
            x1 == (x0 | x0 << 8u32) & 0x00FF00FFu32,
            x2 == (x1 | x1 << 4u32) & 0x0F0F0F0Fu32,
            x3 == (x2 | x2 << 2u32) & 0x33333333u32,
            x4 == (x3 | x3 << 1u32) & 0x55555555u32,
    ;
    x4 | x4 << 1u32
}

} // verus!
