//! Single-bit extraction from a byte, used by the flag decoders.

use vstd::prelude::*;

verus! {

/// The value (0 or 1) of bit `i` of `byte`, counting from the least
/// significant bit.
pub open spec fn bit_of(byte: u8, i: u8) -> u8 {
    (byte >> i) & 1
}

/// Extracts a single bit from a byte: returns 1 if bit `bit_to_extract` of
/// `byte` is set and 0 otherwise, counting from the least significant bit.
pub fn extract_bit(byte: &u8, bit_to_extract: u8) -> (r: u8)
    requires
        bit_to_extract < 8,
    ensures
        r == bit_of(*byte, bit_to_extract),
        r <= 1,
{
    let b: u8 = *byte;
    let r: u8 = (b >> bit_to_extract) & 1;
    proof {
        assert((b >> bit_to_extract) & 1 <= 1) by (bit_vector);
    }
    r
}

} // verus!
