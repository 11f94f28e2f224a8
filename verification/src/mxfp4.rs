//! Blocks of four-bit numbers that share a power of two.

use vstd::prelude::*;

use crate::float_bits::F32Bits;

verus! {

/// The bits of the scale of a block: two to the power `e - 128`. The two smallest
/// are below the normal range.
pub open spec fn scale_bits(e: u8) -> u32 {
    if e == 0 {
        0x0020_0000
    } else if e == 1 {
        0x0040_0000
    } else {
        ((e - 1) * 0x0080_0000) as u32
    }
}

/// The scale of a block.
pub fn mxfp4_scale(e: u8) -> (r: F32Bits)
    ensures
        r.bits == scale_bits(e),
{
    let bits: u32 = match e {
        0 => 0x0020_0000,
        1 => 0x0040_0000,
        _ => (e as u32 - 1) * 0x0080_0000,
    };
    F32Bits { bits }
}

/// What a scale is worth, in units of the smallest float.
pub open spec fn scale_units(bits: u32) -> int {
    let exponent = bits / 0x0080_0000;
    let fraction = bits % 0x0080_0000;
    if exponent == 0 {
        fraction as int
    } else {
        (0x0080_0000 + fraction) * vstd::arithmetic::power2::pow2((exponent - 1) as nat)
    }
}

/// Each scale is twice the one before it.
pub proof fn law_scales_double(e: u8)
    requires
        e < 255,
    ensures
        scale_units(scale_bits((e + 1) as u8)) == 2 * scale_units(scale_bits(e)),
{
    vstd::arithmetic::power2::lemma2_to64();
    if e >= 1 {
        lemma_normal_scale((e + 1) as u8);
    }
    if e >= 2 {
        lemma_normal_scale(e);
        vstd::arithmetic::power2::lemma_pow2_unfold((e - 1) as nat);
    }
}

proof fn lemma_normal_scale(e: u8)
    requires
        e >= 2,
    ensures
        scale_units(scale_bits(e)) == 0x0080_0000 * vstd::arithmetic::power2::pow2(
            (e - 2) as nat,
        ),
{
    let bits = scale_bits(e);
    assert(bits / 0x0080_0000 == e - 1 && bits % 0x0080_0000 == 0);
    let power = vstd::arithmetic::power2::pow2((e - 2) as nat);
    assert((0x0080_0000 + 0) * power == 0x0080_0000 * power);
}

/// Pack 32 indices after the exponent: the first half into low, the second half
/// into high halves of bytes.
pub fn encode_mxfp4_block(e: u8, indices: &[u8; 32]) -> (r: [u8; 17])
    ensures
        r@[0] == e,
        forall|i: int|
            0 <= i < 16 ==> #[trigger] r@[i + 1] == indices@[i] | (indices@[i + 16] << 4u8),
{
    let mut block: [u8; 17] = [0u8; 17];
    block[0] = e;
    let mut i: usize = 0;
    while i < 16
        invariant
            i <= 16,
            block@.len() == 17,
            block@[0] == e,
            forall|j: int|
                0 <= j < i ==> #[trigger] block@[j + 1] == indices@[j] | (indices@[j + 16] << 4u8),
        decreases 16 - i,
    {
        block[1 + i] = indices[i] | (indices[16 + i] << 4u8);
        i = i + 1;
    }
    block
}

/// A byte of a block gives back the indices that were packed into it.
pub proof fn law_packed_indices_come_back(low: u8, high: u8)
    requires
        low < 16,
        high < 16,
    ensures
        (low | (high << 4u8)) & 15 == low,
        (low | (high << 4u8)) >> 4u8 == high,
{
    assert((low | (high << 4u8)) & 15 == low) by (bit_vector)
        requires
            low < 16,
    ;
    assert((low | (high << 4u8)) >> 4u8 == high) by (bit_vector)
        requires
            low < 16,
            high < 16,
    ;
}

} // verus!
