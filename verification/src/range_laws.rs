//! A request for every expert is the request for the experts with no slot up to
//! [`MAX_COUNT`] slots.

use vstd::prelude::*;

use crate::context::MetalContext;
use crate::encoder::KernelEncoder;
use crate::error::MetalError;
use crate::moe_generic;
use crate::moe_grouped;
use crate::moe_grouped::MAX_COUNT;
use crate::tensor::MetalTensor;

verus! {

/// Two requests ended alike: with the same calls on the encoder, and both with
/// success or both with the same error.
pub open spec fn ended_alike(
    a: KernelEncoder,
    a_result: Result<(), MetalError>,
    b: KernelEncoder,
    b_result: Result<(), MetalError>,
) -> bool {
    &&& a@ == b@
    &&& a.concurrent == b.concurrent
    &&& match (a_result, b_result) {
        (Ok(()), Ok(())) => true,
        (Err(e), Err(f)) => e@ == f@,
        _ => false,
    }
}

/// SwiGLU through Q4_K banks, 16 slots at a time, for every expert is the
/// same request for 0 to `MAX_COUNT` slots.
#[allow(non_snake_case)]
pub proof fn law_swiglu_q4_K_n16_of_all_counts_is_the_full_range(
    all: &mut KernelEncoder,
    range: &mut KernelEncoder,
    ctx: MetalContext,
    w_gate: MetalTensor,
    w_up: MetalTensor,
    x_pack: MetalTensor,
    counts: MetalTensor,
    ids: MetalTensor,
    inner: MetalTensor,
    n_hidden: usize,
    n_ffn: usize,
    n_expert: usize,
    topk: usize,
    n_tokens: usize,
    all_result: Result<(), MetalError>,
    range_result: Result<(), MetalError>,
)
    requires
        *old(all) == *old(range),
        call_ensures(
            moe_grouped::encode_moe_swiglu_q4_K_f32_grouped_slots_n16,
            (
                &ctx, all, &w_gate, &w_up, &x_pack, &counts, &ids, &inner, n_hidden, n_ffn,
                n_expert, topk, n_tokens,
            ),
            all_result,
        ),
        call_ensures(
            moe_grouped::encode_moe_swiglu_q4_K_f32_grouped_slots_n16_range,
            (
                &ctx, range, &w_gate, &w_up, &x_pack, &counts, &ids, &inner, n_hidden, n_ffn,
                n_expert, topk, n_tokens, 0, MAX_COUNT,
            ),
            range_result,
        ),
    ensures
        ended_alike(*final(all), all_result, *final(range), range_result),
{
}

/// SwiGLU through IQ3_XXS banks, 16 slots at a time, for every expert is the
/// same request for 0 to `MAX_COUNT` slots.
#[allow(non_snake_case)]
pub proof fn law_swiglu_iq3_xxs_n16_of_all_counts_is_the_full_range(
    all: &mut KernelEncoder,
    range: &mut KernelEncoder,
    ctx: MetalContext,
    w_gate: MetalTensor,
    w_up: MetalTensor,
    x_pack: MetalTensor,
    counts: MetalTensor,
    ids: MetalTensor,
    inner: MetalTensor,
    n_hidden: usize,
    n_ffn: usize,
    n_expert: usize,
    topk: usize,
    n_tokens: usize,
    all_result: Result<(), MetalError>,
    range_result: Result<(), MetalError>,
)
    requires
        *old(all) == *old(range),
        call_ensures(
            moe_grouped::encode_moe_swiglu_iq3_xxs_f32_grouped_slots_n16,
            (
                &ctx, all, &w_gate, &w_up, &x_pack, &counts, &ids, &inner, n_hidden, n_ffn,
                n_expert, topk, n_tokens,
            ),
            all_result,
        ),
        call_ensures(
            moe_grouped::encode_moe_swiglu_iq3_xxs_f32_grouped_slots_n16_range,
            (
                &ctx, range, &w_gate, &w_up, &x_pack, &counts, &ids, &inner, n_hidden, n_ffn,
                n_expert, topk, n_tokens, 0, MAX_COUNT,
            ),
            range_result,
        ),
    ensures
        ended_alike(*final(all), all_result, *final(range), range_result),
{
}

/// SwiGLU through IQ3_S banks, 16 slots at a time, for every expert is the
/// same request for 0 to `MAX_COUNT` slots.
#[allow(non_snake_case)]
pub proof fn law_swiglu_iq3_s_n16_of_all_counts_is_the_full_range(
    all: &mut KernelEncoder,
    range: &mut KernelEncoder,
    ctx: MetalContext,
    w_gate: MetalTensor,
    w_up: MetalTensor,
    x_pack: MetalTensor,
    counts: MetalTensor,
    ids: MetalTensor,
    inner: MetalTensor,
    n_hidden: usize,
    n_ffn: usize,
    n_expert: usize,
    topk: usize,
    n_tokens: usize,
    all_result: Result<(), MetalError>,
    range_result: Result<(), MetalError>,
)
    requires
        *old(all) == *old(range),
        call_ensures(
            moe_grouped::encode_moe_swiglu_iq3_s_f32_grouped_slots_n16,
            (
                &ctx, all, &w_gate, &w_up, &x_pack, &counts, &ids, &inner, n_hidden, n_ffn,
                n_expert, topk, n_tokens,
            ),
            all_result,
        ),
        call_ensures(
            moe_grouped::encode_moe_swiglu_iq3_s_f32_grouped_slots_n16_range,
            (
                &ctx, range, &w_gate, &w_up, &x_pack, &counts, &ids, &inner, n_hidden, n_ffn,
                n_expert, topk, n_tokens, 0, MAX_COUNT,
            ),
            range_result,
        ),
    ensures
        ended_alike(*final(all), all_result, *final(range), range_result),
{
}

/// SwiGLU through Q5_K banks, 16 slots at a time, for every expert is the
/// same request for 0 to `MAX_COUNT` slots.
#[allow(non_snake_case)]
pub proof fn law_swiglu_q5_K_n16_of_all_counts_is_the_full_range(
    all: &mut KernelEncoder,
    range: &mut KernelEncoder,
    ctx: MetalContext,
    w_gate: MetalTensor,
    w_up: MetalTensor,
    x_pack: MetalTensor,
    counts: MetalTensor,
    ids: MetalTensor,
    inner: MetalTensor,
    n_hidden: usize,
    n_ffn: usize,
    n_expert: usize,
    topk: usize,
    n_tokens: usize,
    all_result: Result<(), MetalError>,
    range_result: Result<(), MetalError>,
)
    requires
        *old(all) == *old(range),
        call_ensures(
            moe_grouped::encode_moe_swiglu_q5_K_f32_grouped_slots_n16,
            (
                &ctx, all, &w_gate, &w_up, &x_pack, &counts, &ids, &inner, n_hidden, n_ffn,
                n_expert, topk, n_tokens,
            ),
            all_result,
        ),
        call_ensures(
            moe_grouped::encode_moe_swiglu_q5_K_f32_grouped_slots_n16_range,
            (
                &ctx, range, &w_gate, &w_up, &x_pack, &counts, &ids, &inner, n_hidden, n_ffn,
                n_expert, topk, n_tokens, 0, MAX_COUNT,
            ),
            range_result,
        ),
    ensures
        ended_alike(*final(all), all_result, *final(range), range_result),
{
}

/// SwiGLU through Q6_K banks, 16 slots at a time, for every expert is the
/// same request for 0 to `MAX_COUNT` slots.
#[allow(non_snake_case)]
pub proof fn law_swiglu_q6_K_n16_of_all_counts_is_the_full_range(
    all: &mut KernelEncoder,
    range: &mut KernelEncoder,
    ctx: MetalContext,
    w_gate: MetalTensor,
    w_up: MetalTensor,
    x_pack: MetalTensor,
    counts: MetalTensor,
    ids: MetalTensor,
    inner: MetalTensor,
    n_hidden: usize,
    n_ffn: usize,
    n_expert: usize,
    topk: usize,
    n_tokens: usize,
    all_result: Result<(), MetalError>,
    range_result: Result<(), MetalError>,
)
    requires
        *old(all) == *old(range),
        call_ensures(
            moe_grouped::encode_moe_swiglu_q6_K_f32_grouped_slots_n16,
            (
                &ctx, all, &w_gate, &w_up, &x_pack, &counts, &ids, &inner, n_hidden, n_ffn,
                n_expert, topk, n_tokens,
            ),
            all_result,
        ),
        call_ensures(
            moe_grouped::encode_moe_swiglu_q6_K_f32_grouped_slots_n16_range,
            (
                &ctx, range, &w_gate, &w_up, &x_pack, &counts, &ids, &inner, n_hidden, n_ffn,
                n_expert, topk, n_tokens, 0, MAX_COUNT,
            ),
            range_result,
        ),
    ensures
        ended_alike(*final(all), all_result, *final(range), range_result),
{
}

/// SwiGLU through Q8_0 banks, 16 slots at a time, for every expert is the
/// same request for 0 to `MAX_COUNT` slots.
#[allow(non_snake_case)]
pub proof fn law_swiglu_q8_0_n16_of_all_counts_is_the_full_range(
    all: &mut KernelEncoder,
    range: &mut KernelEncoder,
    ctx: MetalContext,
    w_gate: MetalTensor,
    w_up: MetalTensor,
    x_pack: MetalTensor,
    counts: MetalTensor,
    ids: MetalTensor,
    inner: MetalTensor,
    n_hidden: usize,
    n_ffn: usize,
    n_expert: usize,
    topk: usize,
    n_tokens: usize,
    all_result: Result<(), MetalError>,
    range_result: Result<(), MetalError>,
)
    requires
        *old(all) == *old(range),
        call_ensures(
            moe_grouped::encode_moe_swiglu_q8_0_f32_grouped_slots_n16,
            (
                &ctx, all, &w_gate, &w_up, &x_pack, &counts, &ids, &inner, n_hidden, n_ffn,
                n_expert, topk, n_tokens,
            ),
            all_result,
        ),
        call_ensures(
            moe_grouped::encode_moe_swiglu_q8_0_f32_grouped_slots_n16_range,
            (
                &ctx, range, &w_gate, &w_up, &x_pack, &counts, &ids, &inner, n_hidden, n_ffn,
                n_expert, topk, n_tokens, 0, MAX_COUNT,
            ),
            range_result,
        ),
    ensures
        ended_alike(*final(all), all_result, *final(range), range_result),
{
}

/// SwiGLU through BF16 banks, 16 slots at a time, for every expert is the
/// same request for 0 to `MAX_COUNT` slots.
#[allow(non_snake_case)]
pub proof fn law_swiglu_bf16_n16_of_all_counts_is_the_full_range(
    all: &mut KernelEncoder,
    range: &mut KernelEncoder,
    ctx: MetalContext,
    w_gate: MetalTensor,
    w_up: MetalTensor,
    x_pack: MetalTensor,
    counts: MetalTensor,
    ids: MetalTensor,
    inner: MetalTensor,
    n_hidden: usize,
    n_ffn: usize,
    n_expert: usize,
    topk: usize,
    n_tokens: usize,
    all_result: Result<(), MetalError>,
    range_result: Result<(), MetalError>,
)
    requires
        *old(all) == *old(range),
        call_ensures(
            moe_grouped::encode_moe_swiglu_bf16_f32_grouped_slots_n16,
            (
                &ctx, all, &w_gate, &w_up, &x_pack, &counts, &ids, &inner, n_hidden, n_ffn,
                n_expert, topk, n_tokens,
            ),
            all_result,
        ),
        call_ensures(
            moe_grouped::encode_moe_swiglu_bf16_f32_grouped_slots_n16_range,
            (
                &ctx, range, &w_gate, &w_up, &x_pack, &counts, &ids, &inner, n_hidden, n_ffn,
                n_expert, topk, n_tokens, 0, MAX_COUNT,
            ),
            range_result,
        ),
    ensures
        ended_alike(*final(all), all_result, *final(range), range_result),
{
}

/// SwiGLU through Q4_K banks, 32 slots at a time, for every expert is the
/// same request for 0 to `MAX_COUNT` slots.
#[allow(non_snake_case)]
pub proof fn law_swiglu_q4_K_n32_of_all_counts_is_the_full_range(
    all: &mut KernelEncoder,
    range: &mut KernelEncoder,
    ctx: MetalContext,
    w_gate: MetalTensor,
    w_up: MetalTensor,
    x_pack: MetalTensor,
    counts: MetalTensor,
    ids: MetalTensor,
    inner: MetalTensor,
    n_hidden: usize,
    n_ffn: usize,
    n_expert: usize,
    topk: usize,
    n_tokens: usize,
    all_result: Result<(), MetalError>,
    range_result: Result<(), MetalError>,
)
    requires
        *old(all) == *old(range),
        call_ensures(
            moe_grouped::encode_moe_swiglu_q4_K_f32_grouped_slots_n32,
            (
                &ctx, all, &w_gate, &w_up, &x_pack, &counts, &ids, &inner, n_hidden, n_ffn,
                n_expert, topk, n_tokens,
            ),
            all_result,
        ),
        call_ensures(
            moe_grouped::encode_moe_swiglu_q4_K_f32_grouped_slots_n32_range,
            (
                &ctx, range, &w_gate, &w_up, &x_pack, &counts, &ids, &inner, n_hidden, n_ffn,
                n_expert, topk, n_tokens, 0, MAX_COUNT,
            ),
            range_result,
        ),
    ensures
        ended_alike(*final(all), all_result, *final(range), range_result),
{
}

/// One Q4_K bank, 16 slots at a time, for every expert is the same request
/// for 0 to `MAX_COUNT` slots.
#[allow(non_snake_case)]
pub proof fn law_matmul_q4_K_n16_of_all_counts_is_the_full_range(
    all: &mut KernelEncoder,
    range: &mut KernelEncoder,
    ctx: MetalContext,
    weight: MetalTensor,
    x_pack: MetalTensor,
    counts: MetalTensor,
    ids: MetalTensor,
    out: MetalTensor,
    n_hidden: usize,
    n_ffn: usize,
    n_expert: usize,
    topk: usize,
    n_tokens: usize,
    all_result: Result<(), MetalError>,
    range_result: Result<(), MetalError>,
)
    requires
        *old(all) == *old(range),
        call_ensures(
            moe_grouped::encode_moe_matmul_q4_K_f32_grouped_slots_n16,
            (
                &ctx, all, &weight, &x_pack, &counts, &ids, &out, n_hidden, n_ffn, n_expert, topk,
                n_tokens,
            ),
            all_result,
        ),
        call_ensures(
            moe_grouped::encode_moe_matmul_q4_K_f32_grouped_slots_n16_range,
            (
                &ctx, range, &weight, &x_pack, &counts, &ids, &out, n_hidden, n_ffn, n_expert, topk,
                n_tokens, 0, MAX_COUNT,
            ),
            range_result,
        ),
    ensures
        ended_alike(*final(all), all_result, *final(range), range_result),
{
}

/// The down projection through a Q5_K bank for every expert is the same
/// request for 0 to `MAX_COUNT` slots.
#[allow(non_snake_case)]
pub proof fn law_down_q5_K_of_all_counts_is_the_full_range(
    all: &mut KernelEncoder,
    range: &mut KernelEncoder,
    ctx: MetalContext,
    weight: MetalTensor,
    inner: MetalTensor,
    counts: MetalTensor,
    ids: MetalTensor,
    out: MetalTensor,
    n_in: usize,
    n_out: usize,
    n_expert: usize,
    n_tokens: usize,
    all_result: Result<(), MetalError>,
    range_result: Result<(), MetalError>,
)
    requires
        *old(all) == *old(range),
        call_ensures(
            moe_grouped::encode_moe_down_q5_K_f32_grouped_slots,
            (
                &ctx, all, &weight, &inner, &counts, &ids, &out, n_in, n_out, n_expert, n_tokens,
            ),
            all_result,
        ),
        call_ensures(
            moe_grouped::encode_moe_down_q5_K_f32_grouped_slots_range,
            (
                &ctx, range, &weight, &inner, &counts, &ids, &out, n_in, n_out, n_expert, n_tokens,
                0, MAX_COUNT,
            ),
            range_result,
        ),
    ensures
        ended_alike(*final(all), all_result, *final(range), range_result),
{
}

/// The down projection through a BF16 bank for every expert is the same
/// request for 0 to `MAX_COUNT` slots.
#[allow(non_snake_case)]
pub proof fn law_down_bf16_of_all_counts_is_the_full_range(
    all: &mut KernelEncoder,
    range: &mut KernelEncoder,
    ctx: MetalContext,
    weight: MetalTensor,
    inner: MetalTensor,
    counts: MetalTensor,
    ids: MetalTensor,
    out: MetalTensor,
    n_in: usize,
    n_out: usize,
    n_expert: usize,
    n_tokens: usize,
    all_result: Result<(), MetalError>,
    range_result: Result<(), MetalError>,
)
    requires
        *old(all) == *old(range),
        call_ensures(
            moe_grouped::encode_moe_down_bf16_f32_grouped_slots,
            (
                &ctx, all, &weight, &inner, &counts, &ids, &out, n_in, n_out, n_expert, n_tokens,
            ),
            all_result,
        ),
        call_ensures(
            moe_grouped::encode_moe_down_bf16_f32_grouped_slots_range,
            (
                &ctx, range, &weight, &inner, &counts, &ids, &out, n_in, n_out, n_expert, n_tokens,
                0, MAX_COUNT,
            ),
            range_result,
        ),
    ensures
        ended_alike(*final(all), all_result, *final(range), range_result),
{
}

/// SwiGLU through banks of any supported format for every expert is the same
/// request for 0 to `MAX_COUNT` slots.
#[allow(non_snake_case)]
pub proof fn law_swiglu_generic_of_all_counts_is_the_full_range(
    all: &mut KernelEncoder,
    range: &mut KernelEncoder,
    ctx: MetalContext,
    w_gate: MetalTensor,
    w_up: MetalTensor,
    x_pack: MetalTensor,
    counts: MetalTensor,
    ids: MetalTensor,
    inner: MetalTensor,
    n_hidden: usize,
    n_ffn: usize,
    n_expert: usize,
    topk: usize,
    n_tokens: usize,
    all_result: Result<(), MetalError>,
    range_result: Result<(), MetalError>,
)
    requires
        *old(all) == *old(range),
        call_ensures(
            moe_generic::encode_moe_swiglu_f32_grouped_slots_generic,
            (
                &ctx, all, &w_gate, &w_up, &x_pack, &counts, &ids, &inner, n_hidden, n_ffn,
                n_expert, topk, n_tokens,
            ),
            all_result,
        ),
        call_ensures(
            moe_generic::encode_moe_swiglu_f32_grouped_slots_generic_range,
            (
                &ctx, range, &w_gate, &w_up, &x_pack, &counts, &ids, &inner, n_hidden, n_ffn,
                n_expert, topk, n_tokens, 0, MAX_COUNT,
            ),
            range_result,
        ),
    ensures
        ended_alike(*final(all), all_result, *final(range), range_result),
{
}

/// The down projection through a bank of any supported format for every
/// expert is the same request for 0 to `MAX_COUNT` slots.
#[allow(non_snake_case)]
pub proof fn law_down_generic_of_all_counts_is_the_full_range(
    all: &mut KernelEncoder,
    range: &mut KernelEncoder,
    ctx: MetalContext,
    weight: MetalTensor,
    inner: MetalTensor,
    counts: MetalTensor,
    ids: MetalTensor,
    out: MetalTensor,
    n_in: usize,
    n_out: usize,
    n_expert: usize,
    n_tokens: usize,
    all_result: Result<(), MetalError>,
    range_result: Result<(), MetalError>,
)
    requires
        *old(all) == *old(range),
        call_ensures(
            moe_generic::encode_moe_down_f32_grouped_slots_generic,
            (
                &ctx, all, &weight, &inner, &counts, &ids, &out, n_in, n_out, n_expert, n_tokens,
            ),
            all_result,
        ),
        call_ensures(
            moe_generic::encode_moe_down_f32_grouped_slots_generic_range,
            (
                &ctx, range, &weight, &inner, &counts, &ids, &out, n_in, n_out, n_expert, n_tokens,
                0, MAX_COUNT,
            ),
            range_result,
        ),
    ensures
        ended_alike(*final(all), all_result, *final(range), range_result),
{
}

} // verus!
