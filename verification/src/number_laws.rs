//! What holds of the numbers that the encoders reckon with.

use vstd::arithmetic::power2::*;
use vstd::prelude::*;

use crate::dtype::GgmlType;
use crate::error::{AllowedDtypes, MetalError};
use crate::float_bits;
use crate::float_bits::F32Bits;
use crate::moe_generic;
use crate::moe_generic::{MoeGroupedGenericLayout, MoeGroupedGenericRole};
use crate::mxfp4;
use crate::numeric;
use crate::pages;
use crate::source_ranges::SourceRange;
use crate::tensor::TensorDesc;

verus! {

/// A rounded-up quotient counts the fewest groups of `b` that hold `a`.
pub proof fn law_div_ceil(a: usize, b: usize, result: usize)
    requires
        call_ensures(numeric::div_ceil, (a, b), result),
        b > 0,
    ensures
        result * b >= a,
        result > 0 ==> (result - 1) * b < a,
{
    numeric::law_div_up_covers(a, b);
}

/// The product of all factors.
pub open spec fn product_of(factors: Seq<usize>) -> int
    decreases factors.len(),
{
    if factors.len() == 0 {
        1
    } else {
        product_of(factors.drop_last()) * factors.last()
    }
}

/// Factors are multiplied just where the product up to any of them fits.
pub proof fn law_checked_fold_product(factors: &[usize], result: Option<usize>)
    requires
        call_ensures(numeric::checked_fold_product, (factors,), result),
    ensures
        match result {
            Some(n) => n == product_of(factors@) && forall|k: int|
                0 <= k <= factors@.len() ==> product_of(#[trigger] factors@.take(k)) <= usize::MAX,
            None => exists|k: int|
                0 <= k <= factors@.len() && product_of(#[trigger] factors@.take(k)) > usize::MAX,
        },
{
    lemma_product_of(factors@);
}

proof fn lemma_product_of(factors: Seq<usize>)
    ensures
        match numeric::fold_product(factors) {
            Some(n) => n == product_of(factors) && forall|k: int|
                0 <= k <= factors.len() ==> product_of(#[trigger] factors.take(k)) <= usize::MAX,
            None => exists|k: int|
                0 <= k <= factors.len() && product_of(#[trigger] factors.take(k)) > usize::MAX,
        },
    decreases factors.len(),
{
    assert(factors.take(factors.len() as int) =~= factors);
    if factors.len() == 0 {
        assert forall|k: int| 0 <= k <= factors.len() implies product_of(#[trigger] factors.take(k))
            <= usize::MAX by {
            assert(factors.take(k) =~= factors);
        }
    } else {
        let front = factors.drop_last();
        lemma_product_of(front);
        assert forall|k: int| 0 <= k <= front.len() implies #[trigger] front.take(k)
            =~= factors.take(k) by {}
        match numeric::fold_product(front) {
            Some(_) => {
                assert forall|k: int| 0 <= k < factors.len() implies product_of(
                    #[trigger] factors.take(k),
                ) <= usize::MAX by {
                    assert(front.take(k) =~= factors.take(k));
                }
                assert(product_of(factors.take(factors.len() as int)) == product_of(factors));
            },
            None => {
                let k = choose|k: int|
                    0 <= k <= front.len() && product_of(#[trigger] front.take(k)) > usize::MAX;
                assert(product_of(factors.take(k)) > usize::MAX);
            },
        }
    }
}

/// A power of two is a product of twos.
pub proof fn law_is_power_of_two(n: usize, result: bool)
    requires
        call_ensures(numeric::is_power_of_two, (n,), result),
    ensures
        result <==> exists|k: nat| n == #[trigger] pow2(k),
{
    lemma_is_pow2(n as int);
}

proof fn lemma_is_pow2(n: int)
    ensures
        is_pow2(n) <==> exists|k: nat| n == #[trigger] pow2(k),
    decreases n,
{
    reveal_with_fuel(is_pow2, 2);
    if n <= 0 {
        assert forall|k: nat| n != #[trigger] pow2(k) by {
            lemma_pow2_pos(k);
        }
    } else if n == 1 {
        lemma2_to64();
        assert(n == pow2(0));
    } else {
        lemma_is_pow2(n / 2);
        if is_pow2(n) {
            let k = choose|k: nat| n / 2 == #[trigger] pow2(k);
            lemma_pow2_unfold((k + 1) as nat);
            assert(n == pow2((k + 1) as nat));
        }
        if exists|k: nat| n == #[trigger] pow2(k) {
            let k = choose|k: nat| n == #[trigger] pow2(k);
            lemma2_to64();
            assert(k > 0);
            lemma_pow2_unfold(k);
            assert(n / 2 == pow2((k - 1) as nat));
        }
    }
}

/// Of two sizes, the one that is no larger and the one that is no smaller.
pub proof fn law_min_and_max(a: usize, b: usize, least: usize, greatest: usize)
    requires
        call_ensures(numeric::min_size, (a, b), least),
        call_ensures(numeric::max_size, (a, b), greatest),
    ensures
        least <= a && least <= b && (least == a || least == b),
        greatest >= a && greatest >= b && (greatest == a || greatest == b),
{
}

/// A number is rounded down to the greatest multiple of the page size below it, and up
/// to the least one above it. A number that is one already stays.
pub proof fn law_pages_round(
    value: usize,
    page_size: usize,
    down: usize,
    up: Result<usize, MetalError>,
)
    requires
        call_ensures(pages::checked_page_floor, (value, page_size), down),
        call_ensures(pages::checked_page_ceil, (value, page_size), up),
        page_size > 0,
    ensures
        down <= value < down + page_size,
        down as int % page_size as int == 0,
        match up {
            Ok(up) => value <= up < value + page_size && up as int % page_size as int == 0,
            Err(e) => value + page_size - 1 > usize::MAX && e@ is GgufNoCopy,
        },
        value + page_size - 1 <= usize::MAX ==> up is Ok,
{
    pages::lemma_page_floor(value as int, page_size as int);
    pages::lemma_page_ceil(value as int, page_size as int);
}

/// Ranges are ordered by shard, then by offset, then by length: of two different ones
/// just one comes first, and none comes before itself.
pub proof fn law_ranges_are_ordered(
    a: SourceRange,
    b: SourceRange,
    c: SourceRange,
    before: bool,
    after: bool,
    onward: bool,
    across: bool,
)
    requires
        call_ensures(SourceRange::is_before, (&a, &b), before),
        call_ensures(SourceRange::is_before, (&b, &a), after),
        call_ensures(SourceRange::is_before, (&b, &c), onward),
        call_ensures(SourceRange::is_before, (&a, &c), across),
    ensures
        a.shard_idx < b.shard_idx ==> before,
        a.shard_idx == b.shard_idx && a.data_offset < b.data_offset ==> before,
        a.shard_idx == b.shard_idx && a.data_offset == b.data_offset ==> (before <==> a.n_bytes
            < b.n_bytes),
        !(before && after),
        a != b ==> before || after,
        before && onward ==> across,
{
}

/// The range of a tensor is where its file has it.
pub proof fn law_range_of_a_tensor(desc: TensorDesc, range: SourceRange)
    requires
        call_ensures(SourceRange::of, (&desc,), range),
    ensures
        range.shard_idx == desc.shard_idx,
        range.data_offset == desc.data_offset,
        range.n_bytes == desc.n_bytes,
        range.end() == desc.data_offset + desc.n_bytes,
{
}

/// A size that has 32 bits comes back as it is, and any other is refused.
pub proof fn law_narrowing(
    kernel: &'static str,
    name: &'static str,
    value: usize,
    narrow: Result<u32, MetalError>,
    signed: Result<(), MetalError>,
)
    requires
        call_ensures(crate::error::narrow_u32, (kernel, name, value), narrow),
        call_ensures(crate::error::check_i32, (kernel, name, value), signed),
    ensures
        narrow is Ok <==> value <= 0xffff_ffff,
        narrow matches Ok(n) ==> n == value,
        signed is Ok <==> value <= 0x7fff_ffff,
{
}

/// An argument of one format takes that format, one for indices takes integers and
/// floats.
pub proof fn law_allowed_formats(only: GgmlType, dtype: GgmlType, one: bool, index: bool)
    requires
        call_ensures(AllowedDtypes::contains, (AllowedDtypes::Only(only), dtype), one),
        call_ensures(AllowedDtypes::contains, (AllowedDtypes::I32OrF32, dtype), index),
    ensures
        one <==> dtype == only,
        index <==> dtype == GgmlType::I32 || dtype == GgmlType::F32,
{
}

/// A number is finite just where not all bits of its exponent are set.
pub proof fn law_is_finite(number: F32Bits, result: bool)
    requires
        call_ensures(F32Bits::is_finite, (number,), result),
    ensures
        result <==> (number.bits / 0x0080_0000) % 256 != 255,
{
}

/// Finite numbers compare with zero and one as their signs and magnitudes say. Both
/// zeros are zero.
pub proof fn law_comparisons(number: F32Bits, below: bool, at_zero: bool, at_one: bool)
    requires
        call_ensures(F32Bits::is_below_zero, (number,), below),
        call_ensures(F32Bits::is_at_most_zero, (number,), at_zero),
        call_ensures(F32Bits::is_at_most_one, (number,), at_one),
    ensures
        below <==> number.bits > 0x8000_0000,
        at_zero <==> number.bits == 0 || number.bits >= 0x8000_0000,
        at_one <==> number.bits <= 0x3f80_0000 || number.bits >= 0x8000_0000,
{
}

/// Numbers that are not NaN have keys, and the keys stand as the numbers do: those with
/// a sign first, by falling magnitude, then the others by rising magnitude.
pub proof fn law_keys_order_numbers(a: u32, b: u32, x: Option<u32>, y: Option<u32>)
    requires
        call_ensures(float_bits::greedy_total_order_key, (a,), x),
        call_ensures(float_bits::greedy_total_order_key, (b,), y),
    ensures
        x is None <==> (0x7f80_0000 < a < 0x8000_0000 || a > 0xff80_0000),
        x is Some && y is Some ==> {
            &&& a < 0x8000_0000 && b < 0x8000_0000 ==> (x->0 < y->0 <==> a < b)
            &&& a >= 0x8000_0000 && b >= 0x8000_0000 ==> (x->0 < y->0 <==> a > b)
            &&& a >= 0x8000_0000 && b < 0x8000_0000 ==> x->0 < y->0
            &&& x->0 == y->0 <==> a == b
        },
{
}

/// The scale of a block is two to the power of `e - 128`: in units of the smallest
/// float, two to the power of `e + 21`.
pub proof fn law_scale_is_a_power_of_two(e: u8, scale: F32Bits)
    requires
        call_ensures(mxfp4::mxfp4_scale, (e,), scale),
    ensures
        mxfp4::scale_units(scale.bits) == pow2((e + 21) as nat),
{
    lemma_scale(e);
}

proof fn lemma_scale(e: u8)
    ensures
        mxfp4::scale_units(mxfp4::scale_bits(e)) == pow2((e + 21) as nat),
    decreases e,
{
    if e == 0 {
        lemma2_to64();
    } else {
        lemma_scale((e - 1) as u8);
        mxfp4::law_scales_double((e - 1) as u8);
        lemma_pow2_unfold((e + 21) as nat);
    }
}

/// A block keeps its exponent, and each index comes back from its half of a byte: the
/// first sixteen from the low halves, the others from the high halves. Of a larger index
/// the low half comes back; what the first sixteen have above it joins the high halves.
pub proof fn law_block_gives_back_its_indices(e: u8, indices: &[u8; 32], block: [u8; 17], i: int)
    requires
        call_ensures(mxfp4::encode_mxfp4_block, (e, indices), block),
        0 <= i < 16,
    ensures
        block@.len() == 17,
        block@[0] == e,
        block@[i + 1] & 15 == indices@[i] & 15,
        block@[i + 1] >> 4u8 == (indices@[i] >> 4u8) | (indices@[i + 16] & 15),
        indices@[i] < 16 && indices@[i + 16] < 16 ==> block@[i + 1] & 15 == indices@[i]
            && block@[i + 1] >> 4u8 == indices@[i + 16],
{
    let low = indices@[i];
    let high = indices@[i + 16];
    assert(block@[i + 1] == low | (high << 4u8));
    assert((low | (high << 4u8)) & 15 == low & 15) by (bit_vector);
    assert((low | (high << 4u8)) >> 4u8 == (low >> 4u8) | (high & 15)) by (bit_vector);
    if low < 16 && high < 16 {
        mxfp4::law_packed_indices_come_back(low, high);
    }
}

/// A format has a layout and kernels just where it has a spelling, the layout says how
/// its blocks are stored, and the kernels are named after role and format. Every format
/// with kernels is listed.
pub proof fn law_formats_have_kernels(
    dtype: GgmlType,
    role: MoeGroupedGenericRole,
    layout: Option<MoeGroupedGenericLayout>,
    supported: bool,
    name: Option<String>,
    all: Vec<MoeGroupedGenericLayout>,
)
    requires
        call_ensures(moe_generic::moe_grouped_generic_layout, (dtype,), layout),
        call_ensures(moe_generic::moe_grouped_generic_supported, (dtype,), supported),
        call_ensures(moe_generic::moe_grouped_generic_pipeline_name, (role, dtype), name),
        call_ensures(moe_generic::moe_grouped_generic_layouts, (), all),
    ensures
        layout is Some <==> crate::generic_laws::spelling(dtype) is Some,
        supported <==> layout is Some,
        name is Some <==> layout is Some,
        layout matches Some(l) ==> {
            &&& l.dtype == dtype
            &&& l.suffix@ == crate::generic_laws::spelling(dtype)->0
            &&& l.block_elems == crate::generic_laws::step(dtype)
            &&& l.block_bytes == crate::generic_laws::stored(dtype, l.block_elems as int)
            &&& all@.contains(l)
        },
        name matches Some(name) ==> name@ == match role {
            MoeGroupedGenericRole::Down => crate::generic_laws::down_kernel(dtype),
            MoeGroupedGenericRole::UpSiluMul => crate::generic_laws::up_kernel(dtype),
            MoeGroupedGenericRole::Swiglu => crate::generic_laws::swiglu_kernel(dtype),
        },
        all@.len() == 16,
{
    moe_generic::law_layouts_are_unique();
    moe_generic::law_layout_matches_storage(dtype);
    if let Some(l) = layout {
        let (elems, bytes) = dtype.layout()->0;
        let n = l.block_elems as int;
        let per = elems as int;
        let b = bytes as int;
        assert((n / per) * b == l.block_bytes) by (nonlinear_arith)
            requires
                per == 1 && n == 32 && l.block_bytes == 32 * b || per == n && n > 0
                    && l.block_bytes == b,
        ;
    }
}

} // verus!
