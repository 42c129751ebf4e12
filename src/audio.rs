//! The audio pattern: a 128-bit waveform the host samples as a square wave.

use vstd::prelude::*;

verus! {

/// Bit `127 - index` of the pattern read as a big-endian 128-bit number,
/// i.e. bit `7 - index % 8` of byte `index / 8`.
pub open spec fn spec_pattern_bit(pattern: Seq<u8>, index: int) -> bool {
    (pattern[index / 8] >> (7 - index % 8) as u8) & 1 == 1
}

/// The sample the pattern gives at phase `index`: whether its `index`-th
/// bit, counting from the most significant, is set.
pub fn pattern_bit(pattern: &[u8; 16], index: u8) -> (r: bool)
    requires
        index < 128,
    ensures
        r == spec_pattern_bit(pattern@, index as int),
{
    let byte = pattern[(index / 8) as usize];
    (byte >> (7 - index % 8)) & 1 == 1
}

} // verus!
