//! The bit-mixing step from which the records are derived.

use vstd::prelude::*;

verus! {

/// The mixing step on the mathematical integers: shift by seven, scale by 637,
/// keep the low seven bits.
pub open spec fn mix(n: int) -> int {
    ((n + 7) * 637) % 128
}

/// The mixing step never leaves `[0, 128)`, whatever the magnitude of its input.
pub proof fn lemma_mix_range(n: int)
    ensures
        0 <= mix(n) < 128,
{
}

/// Thirty-two-bit modular arithmetic followed by the seven-bit mask agrees with
/// the mixing step on the integers.
proof fn lemma_masked_product(n: u32)
    ensures
        ((((n + 7) as u32) * 637) as u32) & 0x7f == ((n + 7) * 637) % 128,
{
    assert(((((n + 7) as u32) * 637) as u32) & 0x7f == ((n + 7) * 637) % 128) by (bit_vector);
}

/// Applies the mixing step to `n`. Sum and product wrap around at 32 bits; the
/// mask makes the result independent of that.
pub fn sheeeech(n: u32) -> (r: u32)
    ensures
        r == mix(n as int),
        r < 128,
{
    let shifted: u32 = n.wrapping_add(7);
    let scaled: u32 = shifted.wrapping_mul(637);
    proof {
        lemma_masked_product(n);
        assert(shifted == (n + 7) as u32) by (bit_vector)
            requires
                shifted == (if n + 7 > 0xffff_ffff {
                    (n + 7 - 0x1_0000_0000) as u32
                } else {
                    (n + 7) as u32
                }),
        ;
        assert(scaled == (shifted * 637) as u32) by (bit_vector)
            requires
                scaled == ((shifted as nat * 637) % 0x1_0000_0000) as u32,
        ;
    }
    scaled & 0x7f
}

} // verus!
