//! What the kernels over grouped slots are told, and when.

use vstd::prelude::*;

use crate::context::MetalContext;
use crate::dtype::GgmlType;
use crate::encoder::KernelEncoder;
use crate::error::{Datum, MetalError};
use crate::moe_grouped;
use crate::numeric;
use crate::reading;
use crate::tensor::MetalTensor;

verus! {

/// The argument words of a kernel over grouped slots stand in the order in which it
/// reads them.
pub proof fn law_encode_slot_words(
    n_hidden: usize,
    n_ffn: usize,
    n_expert: usize,
    topk: usize,
    n_tokens: usize,
    stride: u32,
    min_count: u32,
    max_count: u32,
    args: Vec<u32>,
)
    requires
        call_ensures(
            moe_grouped::encode_slot_words,
            (n_hidden, n_ffn, n_expert, topk, n_tokens, stride, min_count, max_count),
            args,
        ),
    ensures
        args@.len() == 9,
        args@[0] == n_ffn as u32,
        args@[1] == n_hidden as u32 && args@[6] == n_hidden as u32,
        args@[2] == n_expert as u32,
        args@[3] == topk as u32,
        args@[4] == n_tokens as u32,
        args@[5] == stride,
        args@[7] == min_count && args@[8] == max_count,
{
}

/// Element counts are accepted just where there is an input row for each token, a count
/// for each expert, a list as long as the tokens for each expert, and an output row for
/// each slot.
pub proof fn law_check_slot_counts(
    name: &'static str,
    template: &'static str,
    x: MetalTensor,
    counts: MetalTensor,
    ids: MetalTensor,
    out: MetalTensor,
    n_hidden: usize,
    n_ffn: usize,
    n_expert: usize,
    topk: usize,
    n_tokens: usize,
    result: Result<(), MetalError>,
)
    requires
        call_ensures(
            moe_grouped::check_slot_counts,
            (
                name, template, &x, &counts, &ids, &out, n_hidden, n_ffn, n_expert, topk, n_tokens,
            ),
            result,
        ),
    ensures
        result is Ok <==> {
            &&& x.count() == n_tokens * n_hidden
            &&& counts.count() == n_expert
            &&& ids.count() == n_expert * n_tokens
            &&& out.count() == n_tokens * topk * n_ffn
        },
        result is Err ==> reading::refused_shape(result, name@),
{
}

/// SwiGLU of every expert through Q4_K banks: 16 slots by 64 rows to a threadgroup,
/// up to all tokens, for each expert.
#[allow(non_snake_case)]
pub proof fn law_moe_swiglu_q4_K_f32_grouped_slots_n16(
    enc: &mut KernelEncoder,
    ctx: MetalContext,
    w_gate: MetalTensor,
    w_up: MetalTensor,
    x_pack: MetalTensor,
    counts: MetalTensor,
    ids: MetalTensor,
    inner: MetalTensor,
    n_hidden: usize,
    n_ffn: usize,
    n_expert: usize,
    topk: usize,
    n_tokens: usize,
    result: Result<(), MetalError>,
)
    requires
        call_ensures(
            moe_grouped::encode_moe_swiglu_q4_K_f32_grouped_slots_n16,
            (
                &ctx, enc, &w_gate, &w_up, &x_pack, &counts, &ids, &inner, n_hidden, n_ffn,
                n_expert, topk, n_tokens,
            ),
            result,
        ),
    ensures
        reading::granted_just_when(
            *old(enc), *final(enc), result, ctx,
            n_hidden % 256 == 0
                && w_gate.dtype == GgmlType::Q4_K && w_up.dtype == GgmlType::Q4_K
                && x_pack.count() == n_tokens * n_hidden
                && counts.count() == n_expert
                && ids.count() == n_expert * n_tokens
                && inner.count() == n_tokens * topk * n_ffn,
            "moe_swiglu_q4_K_grouped_slots_n16"@,
            "kernel_moe_swiglu_q4_K_f32_grouped_slots_n16"@,
        ),
        !(n_hidden % 256 == 0) ==> reading::shows(
            result,
            seq![
                Datum::Int(n_hidden as int),
                Datum::Int(256),
            ],
        ),
        n_hidden % 256 == 0 && !(w_gate.dtype == GgmlType::Q4_K && w_up.dtype == GgmlType::Q4_K)
            ==> reading::shows(
            result,
            seq![
                Datum::Dtype(GgmlType::Q4_K),
                Datum::Dtype(w_gate.dtype),
                Datum::Dtype(w_up.dtype),
            ],
        ),
        n_hidden % 256 == 0 && w_gate.dtype == GgmlType::Q4_K && w_up.dtype == GgmlType::Q4_K
            && !(x_pack.count() == n_tokens * n_hidden && counts.count() == n_expert
            && ids.count() == n_expert * n_tokens && inner.count() == n_tokens * topk * n_ffn)
            ==> reading::shows(
            result,
            seq![
                Datum::Int(x_pack.elements() as int),
                Datum::Int(counts.elements() as int),
                Datum::Int(ids.elements() as int),
                Datum::Int(inner.elements() as int),
                Datum::Int(n_tokens * n_hidden),
                Datum::Int(n_expert as int),
                Datum::Int(n_expert * n_tokens),
                Datum::Int(n_tokens * topk * n_ffn),
            ],
        ),
        result is Ok ==> {
            let args = reading::words(*old(enc), *final(enc));
            let grid = reading::grid(*final(enc));
            &&& reading::launched(
                *old(enc), *final(enc),
                seq![
                    reading::at(w_gate),
                    reading::at(w_up),
                    reading::at(x_pack),
                    reading::at(counts),
                    reading::at(ids),
                    reading::at(inner),
                ],
                seq![16384usize],
            )
            &&& reading::kernel(*old(enc), *final(enc))
                == "kernel_moe_swiglu_q4_K_f32_grouped_slots_n16"@
            &&& args.len() == 9
            &&& args[0] == n_ffn as u32
            &&& args[1] == n_hidden as u32
            &&& args[2] == n_expert as u32
            &&& args[3] == topk as u32
            &&& args[4] == n_tokens as u32
            &&& args[5] == ((n_hidden / 256) * 144) as u32
            &&& args[6] == n_hidden as u32
            &&& args[7] == 0
            &&& args[8] == 0x7fff_ffff
            &&& reading::tiles(grid.width, 16, n_tokens as int)
            &&& reading::tiles(grid.height, 64, n_ffn as int)
            &&& grid.depth == n_expert
            &&& reading::line(reading::group(*final(enc)), 128)
        },
{
    reading::lemma_compiled(ctx, "kernel_moe_swiglu_q4_K_f32_grouped_slots_n16"@);
    reading::lemma_read(*old(enc), *final(enc));
    numeric::law_div_up_covers(n_tokens, 16);
    numeric::law_div_up_covers(n_ffn, 64);
}

/// SwiGLU of the experts with `min_count` to `max_count` slots through Q4_K banks:
/// 16 slots by 64 rows to a threadgroup, up to all tokens, for each expert.
#[allow(non_snake_case)]
pub proof fn law_moe_swiglu_q4_K_f32_grouped_slots_n16_range(
    enc: &mut KernelEncoder,
    ctx: MetalContext,
    w_gate: MetalTensor,
    w_up: MetalTensor,
    x_pack: MetalTensor,
    counts: MetalTensor,
    ids: MetalTensor,
    inner: MetalTensor,
    n_hidden: usize,
    n_ffn: usize,
    n_expert: usize,
    topk: usize,
    n_tokens: usize,
    min_count: u32,
    max_count: u32,
    result: Result<(), MetalError>,
)
    requires
        call_ensures(
            moe_grouped::encode_moe_swiglu_q4_K_f32_grouped_slots_n16_range,
            (
                &ctx, enc, &w_gate, &w_up, &x_pack, &counts, &ids, &inner, n_hidden, n_ffn,
                n_expert, topk, n_tokens, min_count, max_count,
            ),
            result,
        ),
    ensures
        reading::granted_just_when(
            *old(enc), *final(enc), result, ctx,
            n_hidden % 256 == 0
                && w_gate.dtype == GgmlType::Q4_K && w_up.dtype == GgmlType::Q4_K
                && x_pack.count() == n_tokens * n_hidden
                && counts.count() == n_expert
                && ids.count() == n_expert * n_tokens
                && inner.count() == n_tokens * topk * n_ffn,
            "moe_swiglu_q4_K_grouped_slots_n16"@,
            "kernel_moe_swiglu_q4_K_f32_grouped_slots_n16"@,
        ),
        !(n_hidden % 256 == 0) ==> reading::shows(
            result,
            seq![
                Datum::Int(n_hidden as int),
                Datum::Int(256),
            ],
        ),
        n_hidden % 256 == 0 && !(w_gate.dtype == GgmlType::Q4_K && w_up.dtype == GgmlType::Q4_K)
            ==> reading::shows(
            result,
            seq![
                Datum::Dtype(GgmlType::Q4_K),
                Datum::Dtype(w_gate.dtype),
                Datum::Dtype(w_up.dtype),
            ],
        ),
        n_hidden % 256 == 0 && w_gate.dtype == GgmlType::Q4_K && w_up.dtype == GgmlType::Q4_K
            && !(x_pack.count() == n_tokens * n_hidden && counts.count() == n_expert
            && ids.count() == n_expert * n_tokens && inner.count() == n_tokens * topk * n_ffn)
            ==> reading::shows(
            result,
            seq![
                Datum::Int(x_pack.elements() as int),
                Datum::Int(counts.elements() as int),
                Datum::Int(ids.elements() as int),
                Datum::Int(inner.elements() as int),
                Datum::Int(n_tokens * n_hidden),
                Datum::Int(n_expert as int),
                Datum::Int(n_expert * n_tokens),
                Datum::Int(n_tokens * topk * n_ffn),
            ],
        ),
        result is Ok ==> {
            let args = reading::words(*old(enc), *final(enc));
            let grid = reading::grid(*final(enc));
            &&& reading::launched(
                *old(enc), *final(enc),
                seq![
                    reading::at(w_gate),
                    reading::at(w_up),
                    reading::at(x_pack),
                    reading::at(counts),
                    reading::at(ids),
                    reading::at(inner),
                ],
                seq![16384usize],
            )
            &&& reading::kernel(*old(enc), *final(enc))
                == "kernel_moe_swiglu_q4_K_f32_grouped_slots_n16"@
            &&& args.len() == 9
            &&& args[0] == n_ffn as u32
            &&& args[1] == n_hidden as u32
            &&& args[2] == n_expert as u32
            &&& args[3] == topk as u32
            &&& args[4] == n_tokens as u32
            &&& args[5] == ((n_hidden / 256) * 144) as u32
            &&& args[6] == n_hidden as u32
            &&& args[7] == min_count
            &&& args[8] == max_count
            &&& reading::tiles(grid.width, 16, n_tokens as int)
            &&& reading::tiles(grid.height, 64, n_ffn as int)
            &&& grid.depth == n_expert
            &&& reading::line(reading::group(*final(enc)), 128)
        },
{
    reading::lemma_compiled(ctx, "kernel_moe_swiglu_q4_K_f32_grouped_slots_n16"@);
    reading::lemma_read(*old(enc), *final(enc));
    numeric::law_div_up_covers(n_tokens, 16);
    numeric::law_div_up_covers(n_ffn, 64);
}

/// SwiGLU of every expert through IQ3_XXS banks: 16 slots by 64 rows to a
/// threadgroup, up to all tokens, for each expert.
pub proof fn law_moe_swiglu_iq3_xxs_f32_grouped_slots_n16(
    enc: &mut KernelEncoder,
    ctx: MetalContext,
    w_gate: MetalTensor,
    w_up: MetalTensor,
    x_pack: MetalTensor,
    counts: MetalTensor,
    ids: MetalTensor,
    inner: MetalTensor,
    n_hidden: usize,
    n_ffn: usize,
    n_expert: usize,
    topk: usize,
    n_tokens: usize,
    result: Result<(), MetalError>,
)
    requires
        call_ensures(
            moe_grouped::encode_moe_swiglu_iq3_xxs_f32_grouped_slots_n16,
            (
                &ctx, enc, &w_gate, &w_up, &x_pack, &counts, &ids, &inner, n_hidden, n_ffn,
                n_expert, topk, n_tokens,
            ),
            result,
        ),
    ensures
        reading::granted_just_when(
            *old(enc), *final(enc), result, ctx,
            n_hidden % 256 == 0
                && w_gate.dtype == GgmlType::IQ3_XXS && w_up.dtype == GgmlType::IQ3_XXS
                && x_pack.count() == n_tokens * n_hidden
                && counts.count() == n_expert
                && ids.count() == n_expert * n_tokens
                && inner.count() == n_tokens * topk * n_ffn,
            "moe_swiglu_iq3_xxs_grouped_slots_n16"@,
            "kernel_moe_swiglu_iq3_xxs_f32_grouped_slots_n16"@,
        ),
        !(n_hidden % 256 == 0) ==> reading::shows(
            result,
            seq![
                Datum::Int(n_hidden as int),
                Datum::Int(256),
            ],
        ),
        n_hidden % 256 == 0 && !(w_gate.dtype == GgmlType::IQ3_XXS
            && w_up.dtype == GgmlType::IQ3_XXS) ==> reading::shows(
            result,
            seq![
                Datum::Dtype(GgmlType::IQ3_XXS),
                Datum::Dtype(w_gate.dtype),
                Datum::Dtype(w_up.dtype),
            ],
        ),
        n_hidden % 256 == 0 && w_gate.dtype == GgmlType::IQ3_XXS
            && w_up.dtype == GgmlType::IQ3_XXS && !(x_pack.count() == n_tokens * n_hidden
            && counts.count() == n_expert && ids.count() == n_expert * n_tokens
            && inner.count() == n_tokens * topk * n_ffn) ==> reading::shows(
            result,
            seq![
                Datum::Int(x_pack.elements() as int),
                Datum::Int(counts.elements() as int),
                Datum::Int(ids.elements() as int),
                Datum::Int(inner.elements() as int),
                Datum::Int(n_tokens * n_hidden),
                Datum::Int(n_expert as int),
                Datum::Int(n_expert * n_tokens),
                Datum::Int(n_tokens * topk * n_ffn),
            ],
        ),
        result is Ok ==> {
            let args = reading::words(*old(enc), *final(enc));
            let grid = reading::grid(*final(enc));
            &&& reading::launched(
                *old(enc), *final(enc),
                seq![
                    reading::at(w_gate),
                    reading::at(w_up),
                    reading::at(x_pack),
                    reading::at(counts),
                    reading::at(ids),
                    reading::at(inner),
                ],
                seq![16384usize],
            )
            &&& reading::kernel(*old(enc), *final(enc))
                == "kernel_moe_swiglu_iq3_xxs_f32_grouped_slots_n16"@
            &&& args.len() == 9
            &&& args[0] == n_ffn as u32
            &&& args[1] == n_hidden as u32
            &&& args[2] == n_expert as u32
            &&& args[3] == topk as u32
            &&& args[4] == n_tokens as u32
            &&& args[5] == ((n_hidden / 256) * 98) as u32
            &&& args[6] == n_hidden as u32
            &&& args[7] == 0
            &&& args[8] == 0x7fff_ffff
            &&& reading::tiles(grid.width, 16, n_tokens as int)
            &&& reading::tiles(grid.height, 64, n_ffn as int)
            &&& grid.depth == n_expert
            &&& reading::line(reading::group(*final(enc)), 128)
        },
{
    reading::lemma_compiled(ctx, "kernel_moe_swiglu_iq3_xxs_f32_grouped_slots_n16"@);
    reading::lemma_read(*old(enc), *final(enc));
    numeric::law_div_up_covers(n_tokens, 16);
    numeric::law_div_up_covers(n_ffn, 64);
}

/// SwiGLU of the experts with `min_count` to `max_count` slots through IQ3_XXS
/// banks: 16 slots by 64 rows to a threadgroup, up to all tokens, for each expert.
pub proof fn law_moe_swiglu_iq3_xxs_f32_grouped_slots_n16_range(
    enc: &mut KernelEncoder,
    ctx: MetalContext,
    w_gate: MetalTensor,
    w_up: MetalTensor,
    x_pack: MetalTensor,
    counts: MetalTensor,
    ids: MetalTensor,
    inner: MetalTensor,
    n_hidden: usize,
    n_ffn: usize,
    n_expert: usize,
    topk: usize,
    n_tokens: usize,
    min_count: u32,
    max_count: u32,
    result: Result<(), MetalError>,
)
    requires
        call_ensures(
            moe_grouped::encode_moe_swiglu_iq3_xxs_f32_grouped_slots_n16_range,
            (
                &ctx, enc, &w_gate, &w_up, &x_pack, &counts, &ids, &inner, n_hidden, n_ffn,
                n_expert, topk, n_tokens, min_count, max_count,
            ),
            result,
        ),
    ensures
        reading::granted_just_when(
            *old(enc), *final(enc), result, ctx,
            min_count <= max_count && max_count <= 0x7fff_ffff
                && n_hidden % 256 == 0
                && w_gate.dtype == GgmlType::IQ3_XXS && w_up.dtype == GgmlType::IQ3_XXS
                && x_pack.count() == n_tokens * n_hidden
                && counts.count() == n_expert
                && ids.count() == n_expert * n_tokens
                && inner.count() == n_tokens * topk * n_ffn,
            "moe_swiglu_iq3_xxs_grouped_slots_n16"@,
            "kernel_moe_swiglu_iq3_xxs_f32_grouped_slots_n16"@,
        ),
        !(min_count <= max_count && max_count <= 0x7fff_ffff) ==> reading::shows(
            result,
            seq![
                Datum::Int(min_count as int),
                Datum::Int(max_count as int),
            ],
        ),
        min_count <= max_count && max_count <= 0x7fff_ffff && !(n_hidden % 256 == 0)
            ==> reading::shows(
            result,
            seq![
                Datum::Int(n_hidden as int),
                Datum::Int(256),
            ],
        ),
        min_count <= max_count && max_count <= 0x7fff_ffff && n_hidden % 256 == 0
            && !(w_gate.dtype == GgmlType::IQ3_XXS && w_up.dtype == GgmlType::IQ3_XXS)
            ==> reading::shows(
            result,
            seq![
                Datum::Dtype(GgmlType::IQ3_XXS),
                Datum::Dtype(w_gate.dtype),
                Datum::Dtype(w_up.dtype),
            ],
        ),
        min_count <= max_count && max_count <= 0x7fff_ffff && n_hidden % 256 == 0
            && w_gate.dtype == GgmlType::IQ3_XXS && w_up.dtype == GgmlType::IQ3_XXS
            && !(x_pack.count() == n_tokens * n_hidden && counts.count() == n_expert
            && ids.count() == n_expert * n_tokens && inner.count() == n_tokens * topk * n_ffn)
            ==> reading::shows(
            result,
            seq![
                Datum::Int(x_pack.elements() as int),
                Datum::Int(counts.elements() as int),
                Datum::Int(ids.elements() as int),
                Datum::Int(inner.elements() as int),
                Datum::Int(n_tokens * n_hidden),
                Datum::Int(n_expert as int),
                Datum::Int(n_expert * n_tokens),
                Datum::Int(n_tokens * topk * n_ffn),
            ],
        ),
        result is Ok ==> {
            let args = reading::words(*old(enc), *final(enc));
            let grid = reading::grid(*final(enc));
            &&& reading::launched(
                *old(enc), *final(enc),
                seq![
                    reading::at(w_gate),
                    reading::at(w_up),
                    reading::at(x_pack),
                    reading::at(counts),
                    reading::at(ids),
                    reading::at(inner),
                ],
                seq![16384usize],
            )
            &&& reading::kernel(*old(enc), *final(enc))
                == "kernel_moe_swiglu_iq3_xxs_f32_grouped_slots_n16"@
            &&& args.len() == 9
            &&& args[0] == n_ffn as u32
            &&& args[1] == n_hidden as u32
            &&& args[2] == n_expert as u32
            &&& args[3] == topk as u32
            &&& args[4] == n_tokens as u32
            &&& args[5] == ((n_hidden / 256) * 98) as u32
            &&& args[6] == n_hidden as u32
            &&& args[7] == min_count
            &&& args[8] == max_count
            &&& reading::tiles(grid.width, 16, n_tokens as int)
            &&& reading::tiles(grid.height, 64, n_ffn as int)
            &&& grid.depth == n_expert
            &&& reading::line(reading::group(*final(enc)), 128)
        },
{
    reading::lemma_compiled(ctx, "kernel_moe_swiglu_iq3_xxs_f32_grouped_slots_n16"@);
    reading::lemma_read(*old(enc), *final(enc));
    numeric::law_div_up_covers(n_tokens, 16);
    numeric::law_div_up_covers(n_ffn, 64);
}

/// SwiGLU of every expert through IQ3_S banks: 16 slots by 64 rows to a
/// threadgroup, up to all tokens, for each expert.
pub proof fn law_moe_swiglu_iq3_s_f32_grouped_slots_n16(
    enc: &mut KernelEncoder,
    ctx: MetalContext,
    w_gate: MetalTensor,
    w_up: MetalTensor,
    x_pack: MetalTensor,
    counts: MetalTensor,
    ids: MetalTensor,
    inner: MetalTensor,
    n_hidden: usize,
    n_ffn: usize,
    n_expert: usize,
    topk: usize,
    n_tokens: usize,
    result: Result<(), MetalError>,
)
    requires
        call_ensures(
            moe_grouped::encode_moe_swiglu_iq3_s_f32_grouped_slots_n16,
            (
                &ctx, enc, &w_gate, &w_up, &x_pack, &counts, &ids, &inner, n_hidden, n_ffn,
                n_expert, topk, n_tokens,
            ),
            result,
        ),
    ensures
        reading::granted_just_when(
            *old(enc), *final(enc), result, ctx,
            n_hidden % 256 == 0
                && w_gate.dtype == GgmlType::IQ3_S && w_up.dtype == GgmlType::IQ3_S
                && x_pack.count() == n_tokens * n_hidden
                && counts.count() == n_expert
                && ids.count() == n_expert * n_tokens
                && inner.count() == n_tokens * topk * n_ffn,
            "moe_swiglu_iq3_s_grouped_slots_n16"@,
            "kernel_moe_swiglu_iq3_s_f32_grouped_slots_n16"@,
        ),
        !(n_hidden % 256 == 0) ==> reading::shows(
            result,
            seq![
                Datum::Int(n_hidden as int),
                Datum::Int(256),
            ],
        ),
        n_hidden % 256 == 0 && !(w_gate.dtype == GgmlType::IQ3_S && w_up.dtype == GgmlType::IQ3_S)
            ==> reading::shows(
            result,
            seq![
                Datum::Dtype(GgmlType::IQ3_S),
                Datum::Dtype(w_gate.dtype),
                Datum::Dtype(w_up.dtype),
            ],
        ),
        n_hidden % 256 == 0 && w_gate.dtype == GgmlType::IQ3_S && w_up.dtype == GgmlType::IQ3_S
            && !(x_pack.count() == n_tokens * n_hidden && counts.count() == n_expert
            && ids.count() == n_expert * n_tokens && inner.count() == n_tokens * topk * n_ffn)
            ==> reading::shows(
            result,
            seq![
                Datum::Int(x_pack.elements() as int),
                Datum::Int(counts.elements() as int),
                Datum::Int(ids.elements() as int),
                Datum::Int(inner.elements() as int),
                Datum::Int(n_tokens * n_hidden),
                Datum::Int(n_expert as int),
                Datum::Int(n_expert * n_tokens),
                Datum::Int(n_tokens * topk * n_ffn),
            ],
        ),
        result is Ok ==> {
            let args = reading::words(*old(enc), *final(enc));
            let grid = reading::grid(*final(enc));
            &&& reading::launched(
                *old(enc), *final(enc),
                seq![
                    reading::at(w_gate),
                    reading::at(w_up),
                    reading::at(x_pack),
                    reading::at(counts),
                    reading::at(ids),
                    reading::at(inner),
                ],
                seq![16384usize],
            )
            &&& reading::kernel(*old(enc), *final(enc))
                == "kernel_moe_swiglu_iq3_s_f32_grouped_slots_n16"@
            &&& args.len() == 9
            &&& args[0] == n_ffn as u32
            &&& args[1] == n_hidden as u32
            &&& args[2] == n_expert as u32
            &&& args[3] == topk as u32
            &&& args[4] == n_tokens as u32
            &&& args[5] == ((n_hidden / 256) * 110) as u32
            &&& args[6] == n_hidden as u32
            &&& args[7] == 0
            &&& args[8] == 0x7fff_ffff
            &&& reading::tiles(grid.width, 16, n_tokens as int)
            &&& reading::tiles(grid.height, 64, n_ffn as int)
            &&& grid.depth == n_expert
            &&& reading::line(reading::group(*final(enc)), 128)
        },
{
    reading::lemma_compiled(ctx, "kernel_moe_swiglu_iq3_s_f32_grouped_slots_n16"@);
    reading::lemma_read(*old(enc), *final(enc));
    numeric::law_div_up_covers(n_tokens, 16);
    numeric::law_div_up_covers(n_ffn, 64);
}

/// SwiGLU of the experts with `min_count` to `max_count` slots through IQ3_S banks:
/// 16 slots by 64 rows to a threadgroup, up to all tokens, for each expert.
pub proof fn law_moe_swiglu_iq3_s_f32_grouped_slots_n16_range(
    enc: &mut KernelEncoder,
    ctx: MetalContext,
    w_gate: MetalTensor,
    w_up: MetalTensor,
    x_pack: MetalTensor,
    counts: MetalTensor,
    ids: MetalTensor,
    inner: MetalTensor,
    n_hidden: usize,
    n_ffn: usize,
    n_expert: usize,
    topk: usize,
    n_tokens: usize,
    min_count: u32,
    max_count: u32,
    result: Result<(), MetalError>,
)
    requires
        call_ensures(
            moe_grouped::encode_moe_swiglu_iq3_s_f32_grouped_slots_n16_range,
            (
                &ctx, enc, &w_gate, &w_up, &x_pack, &counts, &ids, &inner, n_hidden, n_ffn,
                n_expert, topk, n_tokens, min_count, max_count,
            ),
            result,
        ),
    ensures
        reading::granted_just_when(
            *old(enc), *final(enc), result, ctx,
            n_hidden % 256 == 0
                && w_gate.dtype == GgmlType::IQ3_S && w_up.dtype == GgmlType::IQ3_S
                && x_pack.count() == n_tokens * n_hidden
                && counts.count() == n_expert
                && ids.count() == n_expert * n_tokens
                && inner.count() == n_tokens * topk * n_ffn,
            "moe_swiglu_iq3_s_grouped_slots_n16"@,
            "kernel_moe_swiglu_iq3_s_f32_grouped_slots_n16"@,
        ),
        !(n_hidden % 256 == 0) ==> reading::shows(
            result,
            seq![
                Datum::Int(n_hidden as int),
                Datum::Int(256),
            ],
        ),
        n_hidden % 256 == 0 && !(w_gate.dtype == GgmlType::IQ3_S && w_up.dtype == GgmlType::IQ3_S)
            ==> reading::shows(
            result,
            seq![
                Datum::Dtype(GgmlType::IQ3_S),
                Datum::Dtype(w_gate.dtype),
                Datum::Dtype(w_up.dtype),
            ],
        ),
        n_hidden % 256 == 0 && w_gate.dtype == GgmlType::IQ3_S && w_up.dtype == GgmlType::IQ3_S
            && !(x_pack.count() == n_tokens * n_hidden && counts.count() == n_expert
            && ids.count() == n_expert * n_tokens && inner.count() == n_tokens * topk * n_ffn)
            ==> reading::shows(
            result,
            seq![
                Datum::Int(x_pack.elements() as int),
                Datum::Int(counts.elements() as int),
                Datum::Int(ids.elements() as int),
                Datum::Int(inner.elements() as int),
                Datum::Int(n_tokens * n_hidden),
                Datum::Int(n_expert as int),
                Datum::Int(n_expert * n_tokens),
                Datum::Int(n_tokens * topk * n_ffn),
            ],
        ),
        result is Ok ==> {
            let args = reading::words(*old(enc), *final(enc));
            let grid = reading::grid(*final(enc));
            &&& reading::launched(
                *old(enc), *final(enc),
                seq![
                    reading::at(w_gate),
                    reading::at(w_up),
                    reading::at(x_pack),
                    reading::at(counts),
                    reading::at(ids),
                    reading::at(inner),
                ],
                seq![16384usize],
            )
            &&& reading::kernel(*old(enc), *final(enc))
                == "kernel_moe_swiglu_iq3_s_f32_grouped_slots_n16"@
            &&& args.len() == 9
            &&& args[0] == n_ffn as u32
            &&& args[1] == n_hidden as u32
            &&& args[2] == n_expert as u32
            &&& args[3] == topk as u32
            &&& args[4] == n_tokens as u32
            &&& args[5] == ((n_hidden / 256) * 110) as u32
            &&& args[6] == n_hidden as u32
            &&& args[7] == min_count
            &&& args[8] == max_count
            &&& reading::tiles(grid.width, 16, n_tokens as int)
            &&& reading::tiles(grid.height, 64, n_ffn as int)
            &&& grid.depth == n_expert
            &&& reading::line(reading::group(*final(enc)), 128)
        },
{
    reading::lemma_compiled(ctx, "kernel_moe_swiglu_iq3_s_f32_grouped_slots_n16"@);
    reading::lemma_read(*old(enc), *final(enc));
    numeric::law_div_up_covers(n_tokens, 16);
    numeric::law_div_up_covers(n_ffn, 64);
}

/// SwiGLU of every expert through Q5_K banks: 16 slots by 64 rows to a threadgroup,
/// up to all tokens, for each expert.
#[allow(non_snake_case)]
pub proof fn law_moe_swiglu_q5_K_f32_grouped_slots_n16(
    enc: &mut KernelEncoder,
    ctx: MetalContext,
    w_gate: MetalTensor,
    w_up: MetalTensor,
    x_pack: MetalTensor,
    counts: MetalTensor,
    ids: MetalTensor,
    inner: MetalTensor,
    n_hidden: usize,
    n_ffn: usize,
    n_expert: usize,
    topk: usize,
    n_tokens: usize,
    result: Result<(), MetalError>,
)
    requires
        call_ensures(
            moe_grouped::encode_moe_swiglu_q5_K_f32_grouped_slots_n16,
            (
                &ctx, enc, &w_gate, &w_up, &x_pack, &counts, &ids, &inner, n_hidden, n_ffn,
                n_expert, topk, n_tokens,
            ),
            result,
        ),
    ensures
        reading::granted_just_when(
            *old(enc), *final(enc), result, ctx,
            n_hidden % 256 == 0
                && w_gate.dtype == GgmlType::Q5_K && w_up.dtype == GgmlType::Q5_K
                && x_pack.count() == n_tokens * n_hidden
                && counts.count() == n_expert
                && ids.count() == n_expert * n_tokens
                && inner.count() == n_tokens * topk * n_ffn,
            "moe_swiglu_q5_K_grouped_slots_n16"@,
            "kernel_moe_swiglu_q5_K_f32_grouped_slots_n16"@,
        ),
        !(n_hidden % 256 == 0) ==> reading::shows(
            result,
            seq![
                Datum::Int(n_hidden as int),
                Datum::Int(256),
            ],
        ),
        n_hidden % 256 == 0 && !(w_gate.dtype == GgmlType::Q5_K && w_up.dtype == GgmlType::Q5_K)
            ==> reading::shows(
            result,
            seq![
                Datum::Dtype(GgmlType::Q5_K),
                Datum::Dtype(w_gate.dtype),
                Datum::Dtype(w_up.dtype),
            ],
        ),
        n_hidden % 256 == 0 && w_gate.dtype == GgmlType::Q5_K && w_up.dtype == GgmlType::Q5_K
            && !(x_pack.count() == n_tokens * n_hidden && counts.count() == n_expert
            && ids.count() == n_expert * n_tokens && inner.count() == n_tokens * topk * n_ffn)
            ==> reading::shows(
            result,
            seq![
                Datum::Int(x_pack.elements() as int),
                Datum::Int(counts.elements() as int),
                Datum::Int(ids.elements() as int),
                Datum::Int(inner.elements() as int),
                Datum::Int(n_tokens * n_hidden),
                Datum::Int(n_expert as int),
                Datum::Int(n_expert * n_tokens),
                Datum::Int(n_tokens * topk * n_ffn),
            ],
        ),
        result is Ok ==> {
            let args = reading::words(*old(enc), *final(enc));
            let grid = reading::grid(*final(enc));
            &&& reading::launched(
                *old(enc), *final(enc),
                seq![
                    reading::at(w_gate),
                    reading::at(w_up),
                    reading::at(x_pack),
                    reading::at(counts),
                    reading::at(ids),
                    reading::at(inner),
                ],
                seq![16384usize],
            )
            &&& reading::kernel(*old(enc), *final(enc))
                == "kernel_moe_swiglu_q5_K_f32_grouped_slots_n16"@
            &&& args.len() == 9
            &&& args[0] == n_ffn as u32
            &&& args[1] == n_hidden as u32
            &&& args[2] == n_expert as u32
            &&& args[3] == topk as u32
            &&& args[4] == n_tokens as u32
            &&& args[5] == ((n_hidden / 256) * 176) as u32
            &&& args[6] == n_hidden as u32
            &&& args[7] == 0
            &&& args[8] == 0x7fff_ffff
            &&& reading::tiles(grid.width, 16, n_tokens as int)
            &&& reading::tiles(grid.height, 64, n_ffn as int)
            &&& grid.depth == n_expert
            &&& reading::line(reading::group(*final(enc)), 128)
        },
{
    reading::lemma_compiled(ctx, "kernel_moe_swiglu_q5_K_f32_grouped_slots_n16"@);
    reading::lemma_read(*old(enc), *final(enc));
    numeric::law_div_up_covers(n_tokens, 16);
    numeric::law_div_up_covers(n_ffn, 64);
}

/// SwiGLU of the experts with `min_count` to `max_count` slots through Q5_K banks:
/// 16 slots by 64 rows to a threadgroup, up to all tokens, for each expert.
#[allow(non_snake_case)]
pub proof fn law_moe_swiglu_q5_K_f32_grouped_slots_n16_range(
    enc: &mut KernelEncoder,
    ctx: MetalContext,
    w_gate: MetalTensor,
    w_up: MetalTensor,
    x_pack: MetalTensor,
    counts: MetalTensor,
    ids: MetalTensor,
    inner: MetalTensor,
    n_hidden: usize,
    n_ffn: usize,
    n_expert: usize,
    topk: usize,
    n_tokens: usize,
    min_count: u32,
    max_count: u32,
    result: Result<(), MetalError>,
)
    requires
        call_ensures(
            moe_grouped::encode_moe_swiglu_q5_K_f32_grouped_slots_n16_range,
            (
                &ctx, enc, &w_gate, &w_up, &x_pack, &counts, &ids, &inner, n_hidden, n_ffn,
                n_expert, topk, n_tokens, min_count, max_count,
            ),
            result,
        ),
    ensures
        reading::granted_just_when(
            *old(enc), *final(enc), result, ctx,
            n_hidden % 256 == 0
                && w_gate.dtype == GgmlType::Q5_K && w_up.dtype == GgmlType::Q5_K
                && x_pack.count() == n_tokens * n_hidden
                && counts.count() == n_expert
                && ids.count() == n_expert * n_tokens
                && inner.count() == n_tokens * topk * n_ffn,
            "moe_swiglu_q5_K_grouped_slots_n16"@,
            "kernel_moe_swiglu_q5_K_f32_grouped_slots_n16"@,
        ),
        !(n_hidden % 256 == 0) ==> reading::shows(
            result,
            seq![
                Datum::Int(n_hidden as int),
                Datum::Int(256),
            ],
        ),
        n_hidden % 256 == 0 && !(w_gate.dtype == GgmlType::Q5_K && w_up.dtype == GgmlType::Q5_K)
            ==> reading::shows(
            result,
            seq![
                Datum::Dtype(GgmlType::Q5_K),
                Datum::Dtype(w_gate.dtype),
                Datum::Dtype(w_up.dtype),
            ],
        ),
        n_hidden % 256 == 0 && w_gate.dtype == GgmlType::Q5_K && w_up.dtype == GgmlType::Q5_K
            && !(x_pack.count() == n_tokens * n_hidden && counts.count() == n_expert
            && ids.count() == n_expert * n_tokens && inner.count() == n_tokens * topk * n_ffn)
            ==> reading::shows(
            result,
            seq![
                Datum::Int(x_pack.elements() as int),
                Datum::Int(counts.elements() as int),
                Datum::Int(ids.elements() as int),
                Datum::Int(inner.elements() as int),
                Datum::Int(n_tokens * n_hidden),
                Datum::Int(n_expert as int),
                Datum::Int(n_expert * n_tokens),
                Datum::Int(n_tokens * topk * n_ffn),
            ],
        ),
        result is Ok ==> {
            let args = reading::words(*old(enc), *final(enc));
            let grid = reading::grid(*final(enc));
            &&& reading::launched(
                *old(enc), *final(enc),
                seq![
                    reading::at(w_gate),
                    reading::at(w_up),
                    reading::at(x_pack),
                    reading::at(counts),
                    reading::at(ids),
                    reading::at(inner),
                ],
                seq![16384usize],
            )
            &&& reading::kernel(*old(enc), *final(enc))
                == "kernel_moe_swiglu_q5_K_f32_grouped_slots_n16"@
            &&& args.len() == 9
            &&& args[0] == n_ffn as u32
            &&& args[1] == n_hidden as u32
            &&& args[2] == n_expert as u32
            &&& args[3] == topk as u32
            &&& args[4] == n_tokens as u32
            &&& args[5] == ((n_hidden / 256) * 176) as u32
            &&& args[6] == n_hidden as u32
            &&& args[7] == min_count
            &&& args[8] == max_count
            &&& reading::tiles(grid.width, 16, n_tokens as int)
            &&& reading::tiles(grid.height, 64, n_ffn as int)
            &&& grid.depth == n_expert
            &&& reading::line(reading::group(*final(enc)), 128)
        },
{
    reading::lemma_compiled(ctx, "kernel_moe_swiglu_q5_K_f32_grouped_slots_n16"@);
    reading::lemma_read(*old(enc), *final(enc));
    numeric::law_div_up_covers(n_tokens, 16);
    numeric::law_div_up_covers(n_ffn, 64);
}

/// SwiGLU of every expert through Q6_K banks: 16 slots by 64 rows to a threadgroup,
/// up to all tokens, for each expert.
#[allow(non_snake_case)]
pub proof fn law_moe_swiglu_q6_K_f32_grouped_slots_n16(
    enc: &mut KernelEncoder,
    ctx: MetalContext,
    w_gate: MetalTensor,
    w_up: MetalTensor,
    x_pack: MetalTensor,
    counts: MetalTensor,
    ids: MetalTensor,
    inner: MetalTensor,
    n_hidden: usize,
    n_ffn: usize,
    n_expert: usize,
    topk: usize,
    n_tokens: usize,
    result: Result<(), MetalError>,
)
    requires
        call_ensures(
            moe_grouped::encode_moe_swiglu_q6_K_f32_grouped_slots_n16,
            (
                &ctx, enc, &w_gate, &w_up, &x_pack, &counts, &ids, &inner, n_hidden, n_ffn,
                n_expert, topk, n_tokens,
            ),
            result,
        ),
    ensures
        reading::granted_just_when(
            *old(enc), *final(enc), result, ctx,
            n_hidden % 256 == 0
                && w_gate.dtype == GgmlType::Q6_K && w_up.dtype == GgmlType::Q6_K
                && x_pack.count() == n_tokens * n_hidden
                && counts.count() == n_expert
                && ids.count() == n_expert * n_tokens
                && inner.count() == n_tokens * topk * n_ffn,
            "moe_swiglu_q6_K_grouped_slots_n16"@,
            "kernel_moe_swiglu_q6_K_f32_grouped_slots_n16"@,
        ),
        !(n_hidden % 256 == 0) ==> reading::shows(
            result,
            seq![
                Datum::Int(n_hidden as int),
                Datum::Int(256),
            ],
        ),
        n_hidden % 256 == 0 && !(w_gate.dtype == GgmlType::Q6_K && w_up.dtype == GgmlType::Q6_K)
            ==> reading::shows(
            result,
            seq![
                Datum::Dtype(GgmlType::Q6_K),
                Datum::Dtype(w_gate.dtype),
                Datum::Dtype(w_up.dtype),
            ],
        ),
        n_hidden % 256 == 0 && w_gate.dtype == GgmlType::Q6_K && w_up.dtype == GgmlType::Q6_K
            && !(x_pack.count() == n_tokens * n_hidden && counts.count() == n_expert
            && ids.count() == n_expert * n_tokens && inner.count() == n_tokens * topk * n_ffn)
            ==> reading::shows(
            result,
            seq![
                Datum::Int(x_pack.elements() as int),
                Datum::Int(counts.elements() as int),
                Datum::Int(ids.elements() as int),
                Datum::Int(inner.elements() as int),
                Datum::Int(n_tokens * n_hidden),
                Datum::Int(n_expert as int),
                Datum::Int(n_expert * n_tokens),
                Datum::Int(n_tokens * topk * n_ffn),
            ],
        ),
        result is Ok ==> {
            let args = reading::words(*old(enc), *final(enc));
            let grid = reading::grid(*final(enc));
            &&& reading::launched(
                *old(enc), *final(enc),
                seq![
                    reading::at(w_gate),
                    reading::at(w_up),
                    reading::at(x_pack),
                    reading::at(counts),
                    reading::at(ids),
                    reading::at(inner),
                ],
                seq![16384usize],
            )
            &&& reading::kernel(*old(enc), *final(enc))
                == "kernel_moe_swiglu_q6_K_f32_grouped_slots_n16"@
            &&& args.len() == 9
            &&& args[0] == n_ffn as u32
            &&& args[1] == n_hidden as u32
            &&& args[2] == n_expert as u32
            &&& args[3] == topk as u32
            &&& args[4] == n_tokens as u32
            &&& args[5] == ((n_hidden / 256) * 210) as u32
            &&& args[6] == n_hidden as u32
            &&& args[7] == 0
            &&& args[8] == 0x7fff_ffff
            &&& reading::tiles(grid.width, 16, n_tokens as int)
            &&& reading::tiles(grid.height, 64, n_ffn as int)
            &&& grid.depth == n_expert
            &&& reading::line(reading::group(*final(enc)), 128)
        },
{
    reading::lemma_compiled(ctx, "kernel_moe_swiglu_q6_K_f32_grouped_slots_n16"@);
    reading::lemma_read(*old(enc), *final(enc));
    numeric::law_div_up_covers(n_tokens, 16);
    numeric::law_div_up_covers(n_ffn, 64);
}

/// SwiGLU of the experts with `min_count` to `max_count` slots through Q6_K banks:
/// 16 slots by 64 rows to a threadgroup, up to all tokens, for each expert.
#[allow(non_snake_case)]
pub proof fn law_moe_swiglu_q6_K_f32_grouped_slots_n16_range(
    enc: &mut KernelEncoder,
    ctx: MetalContext,
    w_gate: MetalTensor,
    w_up: MetalTensor,
    x_pack: MetalTensor,
    counts: MetalTensor,
    ids: MetalTensor,
    inner: MetalTensor,
    n_hidden: usize,
    n_ffn: usize,
    n_expert: usize,
    topk: usize,
    n_tokens: usize,
    min_count: u32,
    max_count: u32,
    result: Result<(), MetalError>,
)
    requires
        call_ensures(
            moe_grouped::encode_moe_swiglu_q6_K_f32_grouped_slots_n16_range,
            (
                &ctx, enc, &w_gate, &w_up, &x_pack, &counts, &ids, &inner, n_hidden, n_ffn,
                n_expert, topk, n_tokens, min_count, max_count,
            ),
            result,
        ),
    ensures
        reading::granted_just_when(
            *old(enc), *final(enc), result, ctx,
            n_hidden % 256 == 0
                && w_gate.dtype == GgmlType::Q6_K && w_up.dtype == GgmlType::Q6_K
                && x_pack.count() == n_tokens * n_hidden
                && counts.count() == n_expert
                && ids.count() == n_expert * n_tokens
                && inner.count() == n_tokens * topk * n_ffn,
            "moe_swiglu_q6_K_grouped_slots_n16"@,
            "kernel_moe_swiglu_q6_K_f32_grouped_slots_n16"@,
        ),
        !(n_hidden % 256 == 0) ==> reading::shows(
            result,
            seq![
                Datum::Int(n_hidden as int),
                Datum::Int(256),
            ],
        ),
        n_hidden % 256 == 0 && !(w_gate.dtype == GgmlType::Q6_K && w_up.dtype == GgmlType::Q6_K)
            ==> reading::shows(
            result,
            seq![
                Datum::Dtype(GgmlType::Q6_K),
                Datum::Dtype(w_gate.dtype),
                Datum::Dtype(w_up.dtype),
            ],
        ),
        n_hidden % 256 == 0 && w_gate.dtype == GgmlType::Q6_K && w_up.dtype == GgmlType::Q6_K
            && !(x_pack.count() == n_tokens * n_hidden && counts.count() == n_expert
            && ids.count() == n_expert * n_tokens && inner.count() == n_tokens * topk * n_ffn)
            ==> reading::shows(
            result,
            seq![
                Datum::Int(x_pack.elements() as int),
                Datum::Int(counts.elements() as int),
                Datum::Int(ids.elements() as int),
                Datum::Int(inner.elements() as int),
                Datum::Int(n_tokens * n_hidden),
                Datum::Int(n_expert as int),
                Datum::Int(n_expert * n_tokens),
                Datum::Int(n_tokens * topk * n_ffn),
            ],
        ),
        result is Ok ==> {
            let args = reading::words(*old(enc), *final(enc));
            let grid = reading::grid(*final(enc));
            &&& reading::launched(
                *old(enc), *final(enc),
                seq![
                    reading::at(w_gate),
                    reading::at(w_up),
                    reading::at(x_pack),
                    reading::at(counts),
                    reading::at(ids),
                    reading::at(inner),
                ],
                seq![16384usize],
            )
            &&& reading::kernel(*old(enc), *final(enc))
                == "kernel_moe_swiglu_q6_K_f32_grouped_slots_n16"@
            &&& args.len() == 9
            &&& args[0] == n_ffn as u32
            &&& args[1] == n_hidden as u32
            &&& args[2] == n_expert as u32
            &&& args[3] == topk as u32
            &&& args[4] == n_tokens as u32
            &&& args[5] == ((n_hidden / 256) * 210) as u32
            &&& args[6] == n_hidden as u32
            &&& args[7] == min_count
            &&& args[8] == max_count
            &&& reading::tiles(grid.width, 16, n_tokens as int)
            &&& reading::tiles(grid.height, 64, n_ffn as int)
            &&& grid.depth == n_expert
            &&& reading::line(reading::group(*final(enc)), 128)
        },
{
    reading::lemma_compiled(ctx, "kernel_moe_swiglu_q6_K_f32_grouped_slots_n16"@);
    reading::lemma_read(*old(enc), *final(enc));
    numeric::law_div_up_covers(n_tokens, 16);
    numeric::law_div_up_covers(n_ffn, 64);
}

/// SwiGLU of every expert through Q8_0 banks: 16 slots by 64 rows to a threadgroup,
/// up to all tokens, for each expert.
pub proof fn law_moe_swiglu_q8_0_f32_grouped_slots_n16(
    enc: &mut KernelEncoder,
    ctx: MetalContext,
    w_gate: MetalTensor,
    w_up: MetalTensor,
    x_pack: MetalTensor,
    counts: MetalTensor,
    ids: MetalTensor,
    inner: MetalTensor,
    n_hidden: usize,
    n_ffn: usize,
    n_expert: usize,
    topk: usize,
    n_tokens: usize,
    result: Result<(), MetalError>,
)
    requires
        call_ensures(
            moe_grouped::encode_moe_swiglu_q8_0_f32_grouped_slots_n16,
            (
                &ctx, enc, &w_gate, &w_up, &x_pack, &counts, &ids, &inner, n_hidden, n_ffn,
                n_expert, topk, n_tokens,
            ),
            result,
        ),
    ensures
        reading::granted_just_when(
            *old(enc), *final(enc), result, ctx,
            n_hidden % 32 == 0
                && w_gate.dtype == GgmlType::Q8_0 && w_up.dtype == GgmlType::Q8_0
                && x_pack.count() == n_tokens * n_hidden
                && counts.count() == n_expert
                && ids.count() == n_expert * n_tokens
                && inner.count() == n_tokens * topk * n_ffn,
            "moe_swiglu_q8_0_grouped_slots_n16"@,
            "kernel_moe_swiglu_q8_0_f32_grouped_slots_n16"@,
        ),
        !(n_hidden % 32 == 0) ==> reading::shows(
            result,
            seq![
                Datum::Int(n_hidden as int),
                Datum::Int(32),
            ],
        ),
        n_hidden % 32 == 0 && !(w_gate.dtype == GgmlType::Q8_0 && w_up.dtype == GgmlType::Q8_0)
            ==> reading::shows(
            result,
            seq![
                Datum::Dtype(GgmlType::Q8_0),
                Datum::Dtype(w_gate.dtype),
                Datum::Dtype(w_up.dtype),
            ],
        ),
        n_hidden % 32 == 0 && w_gate.dtype == GgmlType::Q8_0 && w_up.dtype == GgmlType::Q8_0
            && !(x_pack.count() == n_tokens * n_hidden && counts.count() == n_expert
            && ids.count() == n_expert * n_tokens && inner.count() == n_tokens * topk * n_ffn)
            ==> reading::shows(
            result,
            seq![
                Datum::Int(x_pack.elements() as int),
                Datum::Int(counts.elements() as int),
                Datum::Int(ids.elements() as int),
                Datum::Int(inner.elements() as int),
                Datum::Int(n_tokens * n_hidden),
                Datum::Int(n_expert as int),
                Datum::Int(n_expert * n_tokens),
                Datum::Int(n_tokens * topk * n_ffn),
            ],
        ),
        result is Ok ==> {
            let args = reading::words(*old(enc), *final(enc));
            let grid = reading::grid(*final(enc));
            &&& reading::launched(
                *old(enc), *final(enc),
                seq![
                    reading::at(w_gate),
                    reading::at(w_up),
                    reading::at(x_pack),
                    reading::at(counts),
                    reading::at(ids),
                    reading::at(inner),
                ],
                seq![16384usize],
            )
            &&& reading::kernel(*old(enc), *final(enc))
                == "kernel_moe_swiglu_q8_0_f32_grouped_slots_n16"@
            &&& args.len() == 9
            &&& args[0] == n_ffn as u32
            &&& args[1] == n_hidden as u32
            &&& args[2] == n_expert as u32
            &&& args[3] == topk as u32
            &&& args[4] == n_tokens as u32
            &&& args[5] == ((n_hidden / 32) * 34) as u32
            &&& args[6] == n_hidden as u32
            &&& args[7] == 0
            &&& args[8] == 0x7fff_ffff
            &&& reading::tiles(grid.width, 16, n_tokens as int)
            &&& reading::tiles(grid.height, 64, n_ffn as int)
            &&& grid.depth == n_expert
            &&& reading::line(reading::group(*final(enc)), 128)
        },
{
    reading::lemma_compiled(ctx, "kernel_moe_swiglu_q8_0_f32_grouped_slots_n16"@);
    reading::lemma_read(*old(enc), *final(enc));
    numeric::law_div_up_covers(n_tokens, 16);
    numeric::law_div_up_covers(n_ffn, 64);
}

/// SwiGLU of the experts with `min_count` to `max_count` slots through Q8_0 banks:
/// 16 slots by 64 rows to a threadgroup, up to all tokens, for each expert.
pub proof fn law_moe_swiglu_q8_0_f32_grouped_slots_n16_range(
    enc: &mut KernelEncoder,
    ctx: MetalContext,
    w_gate: MetalTensor,
    w_up: MetalTensor,
    x_pack: MetalTensor,
    counts: MetalTensor,
    ids: MetalTensor,
    inner: MetalTensor,
    n_hidden: usize,
    n_ffn: usize,
    n_expert: usize,
    topk: usize,
    n_tokens: usize,
    min_count: u32,
    max_count: u32,
    result: Result<(), MetalError>,
)
    requires
        call_ensures(
            moe_grouped::encode_moe_swiglu_q8_0_f32_grouped_slots_n16_range,
            (
                &ctx, enc, &w_gate, &w_up, &x_pack, &counts, &ids, &inner, n_hidden, n_ffn,
                n_expert, topk, n_tokens, min_count, max_count,
            ),
            result,
        ),
    ensures
        reading::granted_just_when(
            *old(enc), *final(enc), result, ctx,
            n_hidden % 32 == 0
                && w_gate.dtype == GgmlType::Q8_0 && w_up.dtype == GgmlType::Q8_0
                && x_pack.count() == n_tokens * n_hidden
                && counts.count() == n_expert
                && ids.count() == n_expert * n_tokens
                && inner.count() == n_tokens * topk * n_ffn,
            "moe_swiglu_q8_0_grouped_slots_n16"@,
            "kernel_moe_swiglu_q8_0_f32_grouped_slots_n16"@,
        ),
        !(n_hidden % 32 == 0) ==> reading::shows(
            result,
            seq![
                Datum::Int(n_hidden as int),
                Datum::Int(32),
            ],
        ),
        n_hidden % 32 == 0 && !(w_gate.dtype == GgmlType::Q8_0 && w_up.dtype == GgmlType::Q8_0)
            ==> reading::shows(
            result,
            seq![
                Datum::Dtype(GgmlType::Q8_0),
                Datum::Dtype(w_gate.dtype),
                Datum::Dtype(w_up.dtype),
            ],
        ),
        n_hidden % 32 == 0 && w_gate.dtype == GgmlType::Q8_0 && w_up.dtype == GgmlType::Q8_0
            && !(x_pack.count() == n_tokens * n_hidden && counts.count() == n_expert
            && ids.count() == n_expert * n_tokens && inner.count() == n_tokens * topk * n_ffn)
            ==> reading::shows(
            result,
            seq![
                Datum::Int(x_pack.elements() as int),
                Datum::Int(counts.elements() as int),
                Datum::Int(ids.elements() as int),
                Datum::Int(inner.elements() as int),
                Datum::Int(n_tokens * n_hidden),
                Datum::Int(n_expert as int),
                Datum::Int(n_expert * n_tokens),
                Datum::Int(n_tokens * topk * n_ffn),
            ],
        ),
        result is Ok ==> {
            let args = reading::words(*old(enc), *final(enc));
            let grid = reading::grid(*final(enc));
            &&& reading::launched(
                *old(enc), *final(enc),
                seq![
                    reading::at(w_gate),
                    reading::at(w_up),
                    reading::at(x_pack),
                    reading::at(counts),
                    reading::at(ids),
                    reading::at(inner),
                ],
                seq![16384usize],
            )
            &&& reading::kernel(*old(enc), *final(enc))
                == "kernel_moe_swiglu_q8_0_f32_grouped_slots_n16"@
            &&& args.len() == 9
            &&& args[0] == n_ffn as u32
            &&& args[1] == n_hidden as u32
            &&& args[2] == n_expert as u32
            &&& args[3] == topk as u32
            &&& args[4] == n_tokens as u32
            &&& args[5] == ((n_hidden / 32) * 34) as u32
            &&& args[6] == n_hidden as u32
            &&& args[7] == min_count
            &&& args[8] == max_count
            &&& reading::tiles(grid.width, 16, n_tokens as int)
            &&& reading::tiles(grid.height, 64, n_ffn as int)
            &&& grid.depth == n_expert
            &&& reading::line(reading::group(*final(enc)), 128)
        },
{
    reading::lemma_compiled(ctx, "kernel_moe_swiglu_q8_0_f32_grouped_slots_n16"@);
    reading::lemma_read(*old(enc), *final(enc));
    numeric::law_div_up_covers(n_tokens, 16);
    numeric::law_div_up_covers(n_ffn, 64);
}

/// SwiGLU of every expert through F32 banks: 16 slots by 64 rows to a threadgroup,
/// up to all tokens, for each expert.
pub proof fn law_moe_swiglu_f32_f32_grouped_slots_n16(
    enc: &mut KernelEncoder,
    ctx: MetalContext,
    w_gate: MetalTensor,
    w_up: MetalTensor,
    x_pack: MetalTensor,
    counts: MetalTensor,
    ids: MetalTensor,
    inner: MetalTensor,
    n_hidden: usize,
    n_ffn: usize,
    n_expert: usize,
    topk: usize,
    n_tokens: usize,
    result: Result<(), MetalError>,
)
    requires
        call_ensures(
            moe_grouped::encode_moe_swiglu_f32_f32_grouped_slots_n16,
            (
                &ctx, enc, &w_gate, &w_up, &x_pack, &counts, &ids, &inner, n_hidden, n_ffn,
                n_expert, topk, n_tokens,
            ),
            result,
        ),
    ensures
        reading::granted_just_when(
            *old(enc), *final(enc), result, ctx,
            w_gate.dtype == GgmlType::F32 && w_up.dtype == GgmlType::F32
                && x_pack.count() == n_tokens * n_hidden
                && counts.count() == n_expert
                && ids.count() == n_expert * n_tokens
                && inner.count() == n_tokens * topk * n_ffn,
            "moe_swiglu_f32_grouped_slots_n16"@,
            "kernel_moe_swiglu_f32_f32_grouped_slots_n16"@,
        ),
        !(w_gate.dtype == GgmlType::F32 && w_up.dtype == GgmlType::F32) ==> reading::shows(
            result,
            seq![
                Datum::Dtype(GgmlType::F32),
                Datum::Dtype(w_gate.dtype),
                Datum::Dtype(w_up.dtype),
            ],
        ),
        w_gate.dtype == GgmlType::F32 && w_up.dtype == GgmlType::F32
            && !(x_pack.count() == n_tokens * n_hidden && counts.count() == n_expert
            && ids.count() == n_expert * n_tokens && inner.count() == n_tokens * topk * n_ffn)
            ==> reading::shows(
            result,
            seq![
                Datum::Int(x_pack.elements() as int),
                Datum::Int(counts.elements() as int),
                Datum::Int(ids.elements() as int),
                Datum::Int(inner.elements() as int),
                Datum::Int(n_tokens * n_hidden),
                Datum::Int(n_expert as int),
                Datum::Int(n_expert * n_tokens),
                Datum::Int(n_tokens * topk * n_ffn),
            ],
        ),
        result is Ok ==> {
            let args = reading::words(*old(enc), *final(enc));
            let grid = reading::grid(*final(enc));
            &&& reading::launched(
                *old(enc), *final(enc),
                seq![
                    reading::at(w_gate),
                    reading::at(w_up),
                    reading::at(x_pack),
                    reading::at(counts),
                    reading::at(ids),
                    reading::at(inner),
                ],
                seq![16384usize],
            )
            &&& reading::kernel(*old(enc), *final(enc))
                == "kernel_moe_swiglu_f32_f32_grouped_slots_n16"@
            &&& args.len() == 9
            &&& args[0] == n_ffn as u32
            &&& args[1] == n_hidden as u32
            &&& args[2] == n_expert as u32
            &&& args[3] == topk as u32
            &&& args[4] == n_tokens as u32
            &&& args[5] == n_hidden as u32
            &&& args[6] == n_hidden as u32
            &&& args[7] == 0
            &&& args[8] == 0x7fff_ffff
            &&& reading::tiles(grid.width, 16, n_tokens as int)
            &&& reading::tiles(grid.height, 64, n_ffn as int)
            &&& grid.depth == n_expert
            &&& reading::line(reading::group(*final(enc)), 128)
        },
{
    reading::lemma_compiled(ctx, "kernel_moe_swiglu_f32_f32_grouped_slots_n16"@);
    reading::lemma_read(*old(enc), *final(enc));
    assert(n_hidden as int % 1 == 0 && (n_hidden as int / 1) * 1 == n_hidden) by (nonlinear_arith);
    numeric::law_div_up_covers(n_tokens, 16);
    numeric::law_div_up_covers(n_ffn, 64);
}

/// SwiGLU of every expert through BF16 banks: 16 slots by 64 rows to a threadgroup,
/// up to all tokens, for each expert.
pub proof fn law_moe_swiglu_bf16_f32_grouped_slots_n16(
    enc: &mut KernelEncoder,
    ctx: MetalContext,
    w_gate: MetalTensor,
    w_up: MetalTensor,
    x_pack: MetalTensor,
    counts: MetalTensor,
    ids: MetalTensor,
    inner: MetalTensor,
    n_hidden: usize,
    n_ffn: usize,
    n_expert: usize,
    topk: usize,
    n_tokens: usize,
    result: Result<(), MetalError>,
)
    requires
        call_ensures(
            moe_grouped::encode_moe_swiglu_bf16_f32_grouped_slots_n16,
            (
                &ctx, enc, &w_gate, &w_up, &x_pack, &counts, &ids, &inner, n_hidden, n_ffn,
                n_expert, topk, n_tokens,
            ),
            result,
        ),
    ensures
        reading::granted_just_when(
            *old(enc), *final(enc), result, ctx,
            w_gate.dtype == GgmlType::BF16 && w_up.dtype == GgmlType::BF16
                && x_pack.count() == n_tokens * n_hidden
                && counts.count() == n_expert
                && ids.count() == n_expert * n_tokens
                && inner.count() == n_tokens * topk * n_ffn,
            "moe_swiglu_bf16_grouped_slots_n16"@,
            "kernel_moe_swiglu_bf16_f32_grouped_slots_n16"@,
        ),
        !(w_gate.dtype == GgmlType::BF16 && w_up.dtype == GgmlType::BF16) ==> reading::shows(
            result,
            seq![
                Datum::Dtype(GgmlType::BF16),
                Datum::Dtype(w_gate.dtype),
                Datum::Dtype(w_up.dtype),
            ],
        ),
        w_gate.dtype == GgmlType::BF16 && w_up.dtype == GgmlType::BF16
            && !(x_pack.count() == n_tokens * n_hidden && counts.count() == n_expert
            && ids.count() == n_expert * n_tokens && inner.count() == n_tokens * topk * n_ffn)
            ==> reading::shows(
            result,
            seq![
                Datum::Int(x_pack.elements() as int),
                Datum::Int(counts.elements() as int),
                Datum::Int(ids.elements() as int),
                Datum::Int(inner.elements() as int),
                Datum::Int(n_tokens * n_hidden),
                Datum::Int(n_expert as int),
                Datum::Int(n_expert * n_tokens),
                Datum::Int(n_tokens * topk * n_ffn),
            ],
        ),
        result is Ok ==> {
            let args = reading::words(*old(enc), *final(enc));
            let grid = reading::grid(*final(enc));
            &&& reading::launched(
                *old(enc), *final(enc),
                seq![
                    reading::at(w_gate),
                    reading::at(w_up),
                    reading::at(x_pack),
                    reading::at(counts),
                    reading::at(ids),
                    reading::at(inner),
                ],
                seq![16384usize],
            )
            &&& reading::kernel(*old(enc), *final(enc))
                == "kernel_moe_swiglu_bf16_f32_grouped_slots_n16"@
            &&& args.len() == 9
            &&& args[0] == n_ffn as u32
            &&& args[1] == n_hidden as u32
            &&& args[2] == n_expert as u32
            &&& args[3] == topk as u32
            &&& args[4] == n_tokens as u32
            &&& args[5] == n_hidden as u32
            &&& args[6] == n_hidden as u32
            &&& args[7] == 0
            &&& args[8] == 0x7fff_ffff
            &&& reading::tiles(grid.width, 16, n_tokens as int)
            &&& reading::tiles(grid.height, 64, n_ffn as int)
            &&& grid.depth == n_expert
            &&& reading::line(reading::group(*final(enc)), 128)
        },
{
    reading::lemma_compiled(ctx, "kernel_moe_swiglu_bf16_f32_grouped_slots_n16"@);
    reading::lemma_read(*old(enc), *final(enc));
    assert(n_hidden as int % 1 == 0 && (n_hidden as int / 1) * 1 == n_hidden) by (nonlinear_arith);
    numeric::law_div_up_covers(n_tokens, 16);
    numeric::law_div_up_covers(n_ffn, 64);
}

/// SwiGLU of the experts with `min_count` to `max_count` slots through BF16 banks:
/// 16 slots by 64 rows to a threadgroup, up to all tokens, for each expert.
pub proof fn law_moe_swiglu_bf16_f32_grouped_slots_n16_range(
    enc: &mut KernelEncoder,
    ctx: MetalContext,
    w_gate: MetalTensor,
    w_up: MetalTensor,
    x_pack: MetalTensor,
    counts: MetalTensor,
    ids: MetalTensor,
    inner: MetalTensor,
    n_hidden: usize,
    n_ffn: usize,
    n_expert: usize,
    topk: usize,
    n_tokens: usize,
    min_count: u32,
    max_count: u32,
    result: Result<(), MetalError>,
)
    requires
        call_ensures(
            moe_grouped::encode_moe_swiglu_bf16_f32_grouped_slots_n16_range,
            (
                &ctx, enc, &w_gate, &w_up, &x_pack, &counts, &ids, &inner, n_hidden, n_ffn,
                n_expert, topk, n_tokens, min_count, max_count,
            ),
            result,
        ),
    ensures
        reading::granted_just_when(
            *old(enc), *final(enc), result, ctx,
            w_gate.dtype == GgmlType::BF16 && w_up.dtype == GgmlType::BF16
                && x_pack.count() == n_tokens * n_hidden
                && counts.count() == n_expert
                && ids.count() == n_expert * n_tokens
                && inner.count() == n_tokens * topk * n_ffn,
            "moe_swiglu_bf16_grouped_slots_n16"@,
            "kernel_moe_swiglu_bf16_f32_grouped_slots_n16"@,
        ),
        !(w_gate.dtype == GgmlType::BF16 && w_up.dtype == GgmlType::BF16) ==> reading::shows(
            result,
            seq![
                Datum::Dtype(GgmlType::BF16),
                Datum::Dtype(w_gate.dtype),
                Datum::Dtype(w_up.dtype),
            ],
        ),
        w_gate.dtype == GgmlType::BF16 && w_up.dtype == GgmlType::BF16
            && !(x_pack.count() == n_tokens * n_hidden && counts.count() == n_expert
            && ids.count() == n_expert * n_tokens && inner.count() == n_tokens * topk * n_ffn)
            ==> reading::shows(
            result,
            seq![
                Datum::Int(x_pack.elements() as int),
                Datum::Int(counts.elements() as int),
                Datum::Int(ids.elements() as int),
                Datum::Int(inner.elements() as int),
                Datum::Int(n_tokens * n_hidden),
                Datum::Int(n_expert as int),
                Datum::Int(n_expert * n_tokens),
                Datum::Int(n_tokens * topk * n_ffn),
            ],
        ),
        result is Ok ==> {
            let args = reading::words(*old(enc), *final(enc));
            let grid = reading::grid(*final(enc));
            &&& reading::launched(
                *old(enc), *final(enc),
                seq![
                    reading::at(w_gate),
                    reading::at(w_up),
                    reading::at(x_pack),
                    reading::at(counts),
                    reading::at(ids),
                    reading::at(inner),
                ],
                seq![16384usize],
            )
            &&& reading::kernel(*old(enc), *final(enc))
                == "kernel_moe_swiglu_bf16_f32_grouped_slots_n16"@
            &&& args.len() == 9
            &&& args[0] == n_ffn as u32
            &&& args[1] == n_hidden as u32
            &&& args[2] == n_expert as u32
            &&& args[3] == topk as u32
            &&& args[4] == n_tokens as u32
            &&& args[5] == n_hidden as u32
            &&& args[6] == n_hidden as u32
            &&& args[7] == min_count
            &&& args[8] == max_count
            &&& reading::tiles(grid.width, 16, n_tokens as int)
            &&& reading::tiles(grid.height, 64, n_ffn as int)
            &&& grid.depth == n_expert
            &&& reading::line(reading::group(*final(enc)), 128)
        },
{
    reading::lemma_compiled(ctx, "kernel_moe_swiglu_bf16_f32_grouped_slots_n16"@);
    reading::lemma_read(*old(enc), *final(enc));
    assert(n_hidden as int % 1 == 0 && (n_hidden as int / 1) * 1 == n_hidden) by (nonlinear_arith);
    numeric::law_div_up_covers(n_tokens, 16);
    numeric::law_div_up_covers(n_ffn, 64);
}

/// SwiGLU of every expert through Q4_K banks: 32 slots by 64 rows to a threadgroup,
/// up to all tokens, for each expert.
#[allow(non_snake_case)]
pub proof fn law_moe_swiglu_q4_K_f32_grouped_slots_n32(
    enc: &mut KernelEncoder,
    ctx: MetalContext,
    w_gate: MetalTensor,
    w_up: MetalTensor,
    x_pack: MetalTensor,
    counts: MetalTensor,
    ids: MetalTensor,
    inner: MetalTensor,
    n_hidden: usize,
    n_ffn: usize,
    n_expert: usize,
    topk: usize,
    n_tokens: usize,
    result: Result<(), MetalError>,
)
    requires
        call_ensures(
            moe_grouped::encode_moe_swiglu_q4_K_f32_grouped_slots_n32,
            (
                &ctx, enc, &w_gate, &w_up, &x_pack, &counts, &ids, &inner, n_hidden, n_ffn,
                n_expert, topk, n_tokens,
            ),
            result,
        ),
    ensures
        reading::granted_just_when(
            *old(enc), *final(enc), result, ctx,
            n_hidden % 256 == 0
                && w_gate.dtype == GgmlType::Q4_K && w_up.dtype == GgmlType::Q4_K
                && x_pack.count() == n_tokens * n_hidden
                && counts.count() == n_expert
                && ids.count() == n_expert * n_tokens
                && inner.count() == n_tokens * topk * n_ffn,
            "moe_swiglu_q4_K_grouped_slots_n32"@,
            "kernel_moe_swiglu_q4_K_f32_grouped_slots_n32"@,
        ),
        !(n_hidden % 256 == 0) ==> reading::shows(
            result,
            seq![
                Datum::Int(n_hidden as int),
                Datum::Int(256),
            ],
        ),
        n_hidden % 256 == 0 && !(w_gate.dtype == GgmlType::Q4_K && w_up.dtype == GgmlType::Q4_K)
            ==> reading::shows(
            result,
            seq![
                Datum::Dtype(GgmlType::Q4_K),
                Datum::Dtype(w_gate.dtype),
                Datum::Dtype(w_up.dtype),
            ],
        ),
        n_hidden % 256 == 0 && w_gate.dtype == GgmlType::Q4_K && w_up.dtype == GgmlType::Q4_K
            && !(x_pack.count() == n_tokens * n_hidden && counts.count() == n_expert
            && ids.count() == n_expert * n_tokens && inner.count() == n_tokens * topk * n_ffn)
            ==> reading::shows(
            result,
            seq![
                Datum::Int(x_pack.elements() as int),
                Datum::Int(counts.elements() as int),
                Datum::Int(ids.elements() as int),
                Datum::Int(inner.elements() as int),
                Datum::Int(n_tokens * n_hidden),
                Datum::Int(n_expert as int),
                Datum::Int(n_expert * n_tokens),
                Datum::Int(n_tokens * topk * n_ffn),
            ],
        ),
        result is Ok ==> {
            let args = reading::words(*old(enc), *final(enc));
            let grid = reading::grid(*final(enc));
            &&& reading::launched(
                *old(enc), *final(enc),
                seq![
                    reading::at(w_gate),
                    reading::at(w_up),
                    reading::at(x_pack),
                    reading::at(counts),
                    reading::at(ids),
                    reading::at(inner),
                ],
                seq![16384usize],
            )
            &&& reading::kernel(*old(enc), *final(enc))
                == "kernel_moe_swiglu_q4_K_f32_grouped_slots_n32"@
            &&& args.len() == 9
            &&& args[0] == n_ffn as u32
            &&& args[1] == n_hidden as u32
            &&& args[2] == n_expert as u32
            &&& args[3] == topk as u32
            &&& args[4] == n_tokens as u32
            &&& args[5] == ((n_hidden / 256) * 144) as u32
            &&& args[6] == n_hidden as u32
            &&& args[7] == 0
            &&& args[8] == 0x7fff_ffff
            &&& reading::tiles(grid.width, 32, n_tokens as int)
            &&& reading::tiles(grid.height, 64, n_ffn as int)
            &&& grid.depth == n_expert
            &&& reading::line(reading::group(*final(enc)), 128)
        },
{
    reading::lemma_compiled(ctx, "kernel_moe_swiglu_q4_K_f32_grouped_slots_n32"@);
    reading::lemma_read(*old(enc), *final(enc));
    numeric::law_div_up_covers(n_tokens, 32);
    numeric::law_div_up_covers(n_ffn, 64);
}

/// SwiGLU of the experts with `min_count` to `max_count` slots through Q4_K banks:
/// 32 slots by 64 rows to a threadgroup, up to all tokens, for each expert.
#[allow(non_snake_case)]
pub proof fn law_moe_swiglu_q4_K_f32_grouped_slots_n32_range(
    enc: &mut KernelEncoder,
    ctx: MetalContext,
    w_gate: MetalTensor,
    w_up: MetalTensor,
    x_pack: MetalTensor,
    counts: MetalTensor,
    ids: MetalTensor,
    inner: MetalTensor,
    n_hidden: usize,
    n_ffn: usize,
    n_expert: usize,
    topk: usize,
    n_tokens: usize,
    min_count: u32,
    max_count: u32,
    result: Result<(), MetalError>,
)
    requires
        call_ensures(
            moe_grouped::encode_moe_swiglu_q4_K_f32_grouped_slots_n32_range,
            (
                &ctx, enc, &w_gate, &w_up, &x_pack, &counts, &ids, &inner, n_hidden, n_ffn,
                n_expert, topk, n_tokens, min_count, max_count,
            ),
            result,
        ),
    ensures
        reading::granted_just_when(
            *old(enc), *final(enc), result, ctx,
            n_hidden % 256 == 0
                && w_gate.dtype == GgmlType::Q4_K && w_up.dtype == GgmlType::Q4_K
                && x_pack.count() == n_tokens * n_hidden
                && counts.count() == n_expert
                && ids.count() == n_expert * n_tokens
                && inner.count() == n_tokens * topk * n_ffn,
            "moe_swiglu_q4_K_grouped_slots_n32"@,
            "kernel_moe_swiglu_q4_K_f32_grouped_slots_n32"@,
        ),
        !(n_hidden % 256 == 0) ==> reading::shows(
            result,
            seq![
                Datum::Int(n_hidden as int),
                Datum::Int(256),
            ],
        ),
        n_hidden % 256 == 0 && !(w_gate.dtype == GgmlType::Q4_K && w_up.dtype == GgmlType::Q4_K)
            ==> reading::shows(
            result,
            seq![
                Datum::Dtype(GgmlType::Q4_K),
                Datum::Dtype(w_gate.dtype),
                Datum::Dtype(w_up.dtype),
            ],
        ),
        n_hidden % 256 == 0 && w_gate.dtype == GgmlType::Q4_K && w_up.dtype == GgmlType::Q4_K
            && !(x_pack.count() == n_tokens * n_hidden && counts.count() == n_expert
            && ids.count() == n_expert * n_tokens && inner.count() == n_tokens * topk * n_ffn)
            ==> reading::shows(
            result,
            seq![
                Datum::Int(x_pack.elements() as int),
                Datum::Int(counts.elements() as int),
                Datum::Int(ids.elements() as int),
                Datum::Int(inner.elements() as int),
                Datum::Int(n_tokens * n_hidden),
                Datum::Int(n_expert as int),
                Datum::Int(n_expert * n_tokens),
                Datum::Int(n_tokens * topk * n_ffn),
            ],
        ),
        result is Ok ==> {
            let args = reading::words(*old(enc), *final(enc));
            let grid = reading::grid(*final(enc));
            &&& reading::launched(
                *old(enc), *final(enc),
                seq![
                    reading::at(w_gate),
                    reading::at(w_up),
                    reading::at(x_pack),
                    reading::at(counts),
                    reading::at(ids),
                    reading::at(inner),
                ],
                seq![16384usize],
            )
            &&& reading::kernel(*old(enc), *final(enc))
                == "kernel_moe_swiglu_q4_K_f32_grouped_slots_n32"@
            &&& args.len() == 9
            &&& args[0] == n_ffn as u32
            &&& args[1] == n_hidden as u32
            &&& args[2] == n_expert as u32
            &&& args[3] == topk as u32
            &&& args[4] == n_tokens as u32
            &&& args[5] == ((n_hidden / 256) * 144) as u32
            &&& args[6] == n_hidden as u32
            &&& args[7] == min_count
            &&& args[8] == max_count
            &&& reading::tiles(grid.width, 32, n_tokens as int)
            &&& reading::tiles(grid.height, 64, n_ffn as int)
            &&& grid.depth == n_expert
            &&& reading::line(reading::group(*final(enc)), 128)
        },
{
    reading::lemma_compiled(ctx, "kernel_moe_swiglu_q4_K_f32_grouped_slots_n32"@);
    reading::lemma_read(*old(enc), *final(enc));
    numeric::law_div_up_covers(n_tokens, 32);
    numeric::law_div_up_covers(n_ffn, 64);
}

/// SwiGLU of the experts with `min_count` to `max_count` slots through Q4_K bank
/// rows: 16 slots by 64 rows to a threadgroup, up to all tokens, for each expert.
#[allow(non_snake_case)]
pub proof fn law_moe_swiglu_q4_K_f32_grouped_slots_fused_n16_range(
    enc: &mut KernelEncoder,
    ctx: MetalContext,
    w_fused: MetalTensor,
    x_pack: MetalTensor,
    counts: MetalTensor,
    ids: MetalTensor,
    inner: MetalTensor,
    n_hidden: usize,
    n_ffn: usize,
    n_expert: usize,
    topk: usize,
    n_tokens: usize,
    min_count: u32,
    max_count: u32,
    result: Result<(), MetalError>,
)
    requires
        call_ensures(
            moe_grouped::encode_moe_swiglu_q4_K_f32_grouped_slots_fused_n16_range,
            (
                &ctx, enc, &w_fused, &x_pack, &counts, &ids, &inner, n_hidden, n_ffn,
                n_expert, topk, n_tokens, min_count, max_count,
            ),
            result,
        ),
    ensures
        reading::granted_just_when(
            *old(enc), *final(enc), result, ctx,
            n_hidden % 256 == 0
                && n_ffn % 64 == 0
                && topk > 0 && n_expert > 0 && n_tokens > 0
                && w_fused.dtype == GgmlType::Q4_K
                && x_pack.count() == n_tokens * n_hidden
                && counts.count() == n_expert
                && ids.count() == n_expert * n_tokens
                && inner.count() == n_tokens * topk * n_ffn,
            "moe_swiglu_q4_K_grouped_slots_fused_n16"@,
            "kernel_moe_swiglu_q4_K_f32_grouped_slots_fused_n16"@,
        ),
        !(n_hidden % 256 == 0) ==> reading::shows(
            result,
            seq![
                Datum::Int(n_hidden as int),
                Datum::Int(256),
            ],
        ),
        n_hidden % 256 == 0 && !(n_ffn % 64 == 0) ==> reading::shows(
            result,
            seq![
                Datum::Int(n_ffn as int),
            ],
        ),
        n_hidden % 256 == 0 && n_ffn % 64 == 0 && !(topk > 0 && n_expert > 0 && n_tokens > 0)
            ==> reading::shows(
            result,
            seq![
            ],
        ),
        n_hidden % 256 == 0 && n_ffn % 64 == 0 && topk > 0 && n_expert > 0 && n_tokens > 0
            && !(w_fused.dtype == GgmlType::Q4_K) ==> reading::shows(
            result,
            seq![
                Datum::Dtype(GgmlType::Q4_K),
                Datum::Dtype(w_fused.dtype),
            ],
        ),
        n_hidden % 256 == 0 && n_ffn % 64 == 0 && topk > 0 && n_expert > 0 && n_tokens > 0
            && w_fused.dtype == GgmlType::Q4_K && !(x_pack.count() == n_tokens * n_hidden
            && counts.count() == n_expert && ids.count() == n_expert * n_tokens
            && inner.count() == n_tokens * topk * n_ffn) ==> reading::shows(
            result,
            seq![
                Datum::Int(x_pack.elements() as int),
                Datum::Int(counts.elements() as int),
                Datum::Int(ids.elements() as int),
                Datum::Int(inner.elements() as int),
                Datum::Int(n_tokens * n_hidden),
                Datum::Int(n_expert as int),
                Datum::Int(n_expert * n_tokens),
                Datum::Int(n_tokens * topk * n_ffn),
            ],
        ),
        result is Ok ==> {
            let args = reading::words(*old(enc), *final(enc));
            let grid = reading::grid(*final(enc));
            &&& reading::launched(
                *old(enc), *final(enc),
                seq![
                    reading::at(w_fused),
                    reading::at(x_pack),
                    reading::at(counts),
                    reading::at(ids),
                    reading::at(inner),
                ],
                seq![12288usize],
            )
            &&& reading::kernel(*old(enc), *final(enc))
                == "kernel_moe_swiglu_q4_K_f32_grouped_slots_fused_n16"@
            &&& args.len() == 9
            &&& args[0] == n_ffn as u32
            &&& args[1] == n_hidden as u32
            &&& args[2] == n_expert as u32
            &&& args[3] == topk as u32
            &&& args[4] == n_tokens as u32
            &&& args[5] == ((n_hidden / 256) * 144) as u32
            &&& args[6] == n_hidden as u32
            &&& args[7] == min_count
            &&& args[8] == max_count
            &&& reading::tiles(grid.width, 16, n_tokens as int)
            &&& reading::tiles(grid.height, 64, n_ffn as int)
            &&& grid.depth == n_expert
            &&& reading::line(reading::group(*final(enc)), 128)
        },
{
    reading::lemma_compiled(ctx, "kernel_moe_swiglu_q4_K_f32_grouped_slots_fused_n16"@);
    reading::lemma_read(*old(enc), *final(enc));
    numeric::law_div_up_covers(n_tokens, 16);
    numeric::law_div_up_covers(n_ffn, 64);
}

/// SwiGLU of the experts with `min_count` to `max_count` slots through Q4_K bank
/// rows: 32 slots by 64 rows to a threadgroup, up to all tokens, for each expert.
#[allow(non_snake_case)]
pub proof fn law_moe_swiglu_q4_K_f32_grouped_slots_fused_n32_range(
    enc: &mut KernelEncoder,
    ctx: MetalContext,
    w_fused: MetalTensor,
    x_pack: MetalTensor,
    counts: MetalTensor,
    ids: MetalTensor,
    inner: MetalTensor,
    n_hidden: usize,
    n_ffn: usize,
    n_expert: usize,
    topk: usize,
    n_tokens: usize,
    min_count: u32,
    max_count: u32,
    result: Result<(), MetalError>,
)
    requires
        call_ensures(
            moe_grouped::encode_moe_swiglu_q4_K_f32_grouped_slots_fused_n32_range,
            (
                &ctx, enc, &w_fused, &x_pack, &counts, &ids, &inner, n_hidden, n_ffn,
                n_expert, topk, n_tokens, min_count, max_count,
            ),
            result,
        ),
    ensures
        reading::granted_just_when(
            *old(enc), *final(enc), result, ctx,
            n_hidden % 256 == 0
                && n_ffn % 64 == 0
                && topk > 0 && n_expert > 0 && n_tokens > 0
                && w_fused.dtype == GgmlType::Q4_K
                && x_pack.count() == n_tokens * n_hidden
                && counts.count() == n_expert
                && ids.count() == n_expert * n_tokens
                && inner.count() == n_tokens * topk * n_ffn,
            "moe_swiglu_q4_K_grouped_slots_fused_n32"@,
            "kernel_moe_swiglu_q4_K_f32_grouped_slots_fused_n32"@,
        ),
        !(n_hidden % 256 == 0) ==> reading::shows(
            result,
            seq![
                Datum::Int(n_hidden as int),
                Datum::Int(256),
            ],
        ),
        n_hidden % 256 == 0 && !(n_ffn % 64 == 0) ==> reading::shows(
            result,
            seq![
                Datum::Int(n_ffn as int),
            ],
        ),
        n_hidden % 256 == 0 && n_ffn % 64 == 0 && !(topk > 0 && n_expert > 0 && n_tokens > 0)
            ==> reading::shows(
            result,
            seq![
            ],
        ),
        n_hidden % 256 == 0 && n_ffn % 64 == 0 && topk > 0 && n_expert > 0 && n_tokens > 0
            && !(w_fused.dtype == GgmlType::Q4_K) ==> reading::shows(
            result,
            seq![
                Datum::Dtype(GgmlType::Q4_K),
                Datum::Dtype(w_fused.dtype),
            ],
        ),
        n_hidden % 256 == 0 && n_ffn % 64 == 0 && topk > 0 && n_expert > 0 && n_tokens > 0
            && w_fused.dtype == GgmlType::Q4_K && !(x_pack.count() == n_tokens * n_hidden
            && counts.count() == n_expert && ids.count() == n_expert * n_tokens
            && inner.count() == n_tokens * topk * n_ffn) ==> reading::shows(
            result,
            seq![
                Datum::Int(x_pack.elements() as int),
                Datum::Int(counts.elements() as int),
                Datum::Int(ids.elements() as int),
                Datum::Int(inner.elements() as int),
                Datum::Int(n_tokens * n_hidden),
                Datum::Int(n_expert as int),
                Datum::Int(n_expert * n_tokens),
                Datum::Int(n_tokens * topk * n_ffn),
            ],
        ),
        result is Ok ==> {
            let args = reading::words(*old(enc), *final(enc));
            let grid = reading::grid(*final(enc));
            &&& reading::launched(
                *old(enc), *final(enc),
                seq![
                    reading::at(w_fused),
                    reading::at(x_pack),
                    reading::at(counts),
                    reading::at(ids),
                    reading::at(inner),
                ],
                seq![16384usize],
            )
            &&& reading::kernel(*old(enc), *final(enc))
                == "kernel_moe_swiglu_q4_K_f32_grouped_slots_fused_n32"@
            &&& args.len() == 9
            &&& args[0] == n_ffn as u32
            &&& args[1] == n_hidden as u32
            &&& args[2] == n_expert as u32
            &&& args[3] == topk as u32
            &&& args[4] == n_tokens as u32
            &&& args[5] == ((n_hidden / 256) * 144) as u32
            &&& args[6] == n_hidden as u32
            &&& args[7] == min_count
            &&& args[8] == max_count
            &&& reading::tiles(grid.width, 32, n_tokens as int)
            &&& reading::tiles(grid.height, 64, n_ffn as int)
            &&& grid.depth == n_expert
            &&& reading::line(reading::group(*final(enc)), 128)
        },
{
    reading::lemma_compiled(ctx, "kernel_moe_swiglu_q4_K_f32_grouped_slots_fused_n32"@);
    reading::lemma_read(*old(enc), *final(enc));
    numeric::law_div_up_covers(n_tokens, 32);
    numeric::law_div_up_covers(n_ffn, 64);
}

/// The product of every expert through Q4_K bank rows: 16 slots by 64 rows to a
/// threadgroup, up to all tokens, for each expert.
#[allow(non_snake_case)]
pub proof fn law_moe_matmul_q4_K_f32_grouped_slots_n16(
    enc: &mut KernelEncoder,
    ctx: MetalContext,
    weight: MetalTensor,
    x_pack: MetalTensor,
    counts: MetalTensor,
    ids: MetalTensor,
    out: MetalTensor,
    n_hidden: usize,
    n_ffn: usize,
    n_expert: usize,
    topk: usize,
    n_tokens: usize,
    result: Result<(), MetalError>,
)
    requires
        call_ensures(
            moe_grouped::encode_moe_matmul_q4_K_f32_grouped_slots_n16,
            (
                &ctx, enc, &weight, &x_pack, &counts, &ids, &out, n_hidden, n_ffn, n_expert,
                topk, n_tokens,
            ),
            result,
        ),
    ensures
        reading::granted_just_when(
            *old(enc), *final(enc), result, ctx,
            n_hidden % 256 == 0
                && weight.dtype == GgmlType::Q4_K
                && x_pack.count() == n_tokens * n_hidden
                && counts.count() == n_expert
                && ids.count() == n_expert * n_tokens
                && out.count() == n_tokens * topk * n_ffn,
            "moe_matmul_q4_K_grouped_slots_n16"@,
            "kernel_moe_matmul_q4_K_f32_grouped_slots_n16"@,
        ),
        !(n_hidden % 256 == 0) ==> reading::shows(
            result,
            seq![
                Datum::Int(n_hidden as int),
                Datum::Int(256),
            ],
        ),
        n_hidden % 256 == 0 && !(weight.dtype == GgmlType::Q4_K) ==> reading::shows(
            result,
            seq![
                Datum::Dtype(GgmlType::Q4_K),
                Datum::Dtype(weight.dtype),
            ],
        ),
        n_hidden % 256 == 0 && weight.dtype == GgmlType::Q4_K
            && !(x_pack.count() == n_tokens * n_hidden && counts.count() == n_expert
            && ids.count() == n_expert * n_tokens && out.count() == n_tokens * topk * n_ffn)
            ==> reading::shows(
            result,
            seq![
                Datum::Int(x_pack.elements() as int),
                Datum::Int(counts.elements() as int),
                Datum::Int(ids.elements() as int),
                Datum::Int(out.elements() as int),
                Datum::Int(n_tokens * n_hidden),
                Datum::Int(n_expert as int),
                Datum::Int(n_expert * n_tokens),
                Datum::Int(n_tokens * topk * n_ffn),
            ],
        ),
        result is Ok ==> {
            let args = reading::words(*old(enc), *final(enc));
            let grid = reading::grid(*final(enc));
            &&& reading::launched(
                *old(enc), *final(enc),
                seq![
                    reading::at(weight),
                    reading::at(x_pack),
                    reading::at(counts),
                    reading::at(ids),
                    reading::at(out),
                ],
                seq![8192usize],
            )
            &&& reading::kernel(*old(enc), *final(enc))
                == "kernel_moe_matmul_q4_K_f32_grouped_slots_n16"@
            &&& args.len() == 9
            &&& args[0] == n_ffn as u32
            &&& args[1] == n_hidden as u32
            &&& args[2] == n_expert as u32
            &&& args[3] == topk as u32
            &&& args[4] == n_tokens as u32
            &&& args[5] == ((n_hidden / 256) * 144) as u32
            &&& args[6] == n_hidden as u32
            &&& args[7] == 0
            &&& args[8] == 0x7fff_ffff
            &&& reading::tiles(grid.width, 16, n_tokens as int)
            &&& reading::tiles(grid.height, 64, n_ffn as int)
            &&& grid.depth == n_expert
            &&& reading::line(reading::group(*final(enc)), 128)
        },
{
    reading::lemma_compiled(ctx, "kernel_moe_matmul_q4_K_f32_grouped_slots_n16"@);
    reading::lemma_read(*old(enc), *final(enc));
    numeric::law_div_up_covers(n_tokens, 16);
    numeric::law_div_up_covers(n_ffn, 64);
}

/// The product of the experts with `min_count` to `max_count` slots through Q4_K
/// bank rows: 16 slots by 64 rows to a threadgroup, up to all tokens, for each
/// expert.
#[allow(non_snake_case)]
pub proof fn law_moe_matmul_q4_K_f32_grouped_slots_n16_range(
    enc: &mut KernelEncoder,
    ctx: MetalContext,
    weight: MetalTensor,
    x_pack: MetalTensor,
    counts: MetalTensor,
    ids: MetalTensor,
    out: MetalTensor,
    n_hidden: usize,
    n_ffn: usize,
    n_expert: usize,
    topk: usize,
    n_tokens: usize,
    min_count: u32,
    max_count: u32,
    result: Result<(), MetalError>,
)
    requires
        call_ensures(
            moe_grouped::encode_moe_matmul_q4_K_f32_grouped_slots_n16_range,
            (
                &ctx, enc, &weight, &x_pack, &counts, &ids, &out, n_hidden, n_ffn, n_expert,
                topk, n_tokens, min_count, max_count,
            ),
            result,
        ),
    ensures
        reading::granted_just_when(
            *old(enc), *final(enc), result, ctx,
            n_hidden % 256 == 0
                && weight.dtype == GgmlType::Q4_K
                && x_pack.count() == n_tokens * n_hidden
                && counts.count() == n_expert
                && ids.count() == n_expert * n_tokens
                && out.count() == n_tokens * topk * n_ffn,
            "moe_matmul_q4_K_grouped_slots_n16"@,
            "kernel_moe_matmul_q4_K_f32_grouped_slots_n16"@,
        ),
        !(n_hidden % 256 == 0) ==> reading::shows(
            result,
            seq![
                Datum::Int(n_hidden as int),
                Datum::Int(256),
            ],
        ),
        n_hidden % 256 == 0 && !(weight.dtype == GgmlType::Q4_K) ==> reading::shows(
            result,
            seq![
                Datum::Dtype(GgmlType::Q4_K),
                Datum::Dtype(weight.dtype),
            ],
        ),
        n_hidden % 256 == 0 && weight.dtype == GgmlType::Q4_K
            && !(x_pack.count() == n_tokens * n_hidden && counts.count() == n_expert
            && ids.count() == n_expert * n_tokens && out.count() == n_tokens * topk * n_ffn)
            ==> reading::shows(
            result,
            seq![
                Datum::Int(x_pack.elements() as int),
                Datum::Int(counts.elements() as int),
                Datum::Int(ids.elements() as int),
                Datum::Int(out.elements() as int),
                Datum::Int(n_tokens * n_hidden),
                Datum::Int(n_expert as int),
                Datum::Int(n_expert * n_tokens),
                Datum::Int(n_tokens * topk * n_ffn),
            ],
        ),
        result is Ok ==> {
            let args = reading::words(*old(enc), *final(enc));
            let grid = reading::grid(*final(enc));
            &&& reading::launched(
                *old(enc), *final(enc),
                seq![
                    reading::at(weight),
                    reading::at(x_pack),
                    reading::at(counts),
                    reading::at(ids),
                    reading::at(out),
                ],
                seq![8192usize],
            )
            &&& reading::kernel(*old(enc), *final(enc))
                == "kernel_moe_matmul_q4_K_f32_grouped_slots_n16"@
            &&& args.len() == 9
            &&& args[0] == n_ffn as u32
            &&& args[1] == n_hidden as u32
            &&& args[2] == n_expert as u32
            &&& args[3] == topk as u32
            &&& args[4] == n_tokens as u32
            &&& args[5] == ((n_hidden / 256) * 144) as u32
            &&& args[6] == n_hidden as u32
            &&& args[7] == min_count
            &&& args[8] == max_count
            &&& reading::tiles(grid.width, 16, n_tokens as int)
            &&& reading::tiles(grid.height, 64, n_ffn as int)
            &&& grid.depth == n_expert
            &&& reading::line(reading::group(*final(enc)), 128)
        },
{
    reading::lemma_compiled(ctx, "kernel_moe_matmul_q4_K_f32_grouped_slots_n16"@);
    reading::lemma_read(*old(enc), *final(enc));
    numeric::law_div_up_covers(n_tokens, 16);
    numeric::law_div_up_covers(n_ffn, 64);
}

/// The product of the experts with `min_count` to `max_count` slots through Q4_K
/// bank rows: 32 slots by 64 rows to a threadgroup, up to all tokens, for each
/// expert.
#[allow(non_snake_case)]
pub proof fn law_moe_matmul_q4_K_f32_grouped_slots_n32_range(
    enc: &mut KernelEncoder,
    ctx: MetalContext,
    weight: MetalTensor,
    x_pack: MetalTensor,
    counts: MetalTensor,
    ids: MetalTensor,
    out: MetalTensor,
    n_hidden: usize,
    n_ffn: usize,
    n_expert: usize,
    topk: usize,
    n_tokens: usize,
    min_count: u32,
    max_count: u32,
    result: Result<(), MetalError>,
)
    requires
        call_ensures(
            moe_grouped::encode_moe_matmul_q4_K_f32_grouped_slots_n32_range,
            (
                &ctx, enc, &weight, &x_pack, &counts, &ids, &out, n_hidden, n_ffn, n_expert,
                topk, n_tokens, min_count, max_count,
            ),
            result,
        ),
    ensures
        reading::granted_just_when(
            *old(enc), *final(enc), result, ctx,
            n_hidden % 256 == 0
                && weight.dtype == GgmlType::Q4_K
                && x_pack.count() == n_tokens * n_hidden
                && counts.count() == n_expert
                && ids.count() == n_expert * n_tokens
                && out.count() == n_tokens * topk * n_ffn,
            "moe_matmul_q4_K_grouped_slots_n32"@,
            "kernel_moe_matmul_q4_K_f32_grouped_slots_n32"@,
        ),
        !(n_hidden % 256 == 0) ==> reading::shows(
            result,
            seq![
                Datum::Int(n_hidden as int),
                Datum::Int(256),
            ],
        ),
        n_hidden % 256 == 0 && !(weight.dtype == GgmlType::Q4_K) ==> reading::shows(
            result,
            seq![
                Datum::Dtype(GgmlType::Q4_K),
                Datum::Dtype(weight.dtype),
            ],
        ),
        n_hidden % 256 == 0 && weight.dtype == GgmlType::Q4_K
            && !(x_pack.count() == n_tokens * n_hidden && counts.count() == n_expert
            && ids.count() == n_expert * n_tokens && out.count() == n_tokens * topk * n_ffn)
            ==> reading::shows(
            result,
            seq![
                Datum::Int(x_pack.elements() as int),
                Datum::Int(counts.elements() as int),
                Datum::Int(ids.elements() as int),
                Datum::Int(out.elements() as int),
                Datum::Int(n_tokens * n_hidden),
                Datum::Int(n_expert as int),
                Datum::Int(n_expert * n_tokens),
                Datum::Int(n_tokens * topk * n_ffn),
            ],
        ),
        result is Ok ==> {
            let args = reading::words(*old(enc), *final(enc));
            let grid = reading::grid(*final(enc));
            &&& reading::launched(
                *old(enc), *final(enc),
                seq![
                    reading::at(weight),
                    reading::at(x_pack),
                    reading::at(counts),
                    reading::at(ids),
                    reading::at(out),
                ],
                seq![8192usize],
            )
            &&& reading::kernel(*old(enc), *final(enc))
                == "kernel_moe_matmul_q4_K_f32_grouped_slots_n32"@
            &&& args.len() == 9
            &&& args[0] == n_ffn as u32
            &&& args[1] == n_hidden as u32
            &&& args[2] == n_expert as u32
            &&& args[3] == topk as u32
            &&& args[4] == n_tokens as u32
            &&& args[5] == ((n_hidden / 256) * 144) as u32
            &&& args[6] == n_hidden as u32
            &&& args[7] == min_count
            &&& args[8] == max_count
            &&& reading::tiles(grid.width, 32, n_tokens as int)
            &&& reading::tiles(grid.height, 64, n_ffn as int)
            &&& grid.depth == n_expert
            &&& reading::line(reading::group(*final(enc)), 128)
        },
{
    reading::lemma_compiled(ctx, "kernel_moe_matmul_q4_K_f32_grouped_slots_n32"@);
    reading::lemma_read(*old(enc), *final(enc));
    numeric::law_div_up_covers(n_tokens, 32);
    numeric::law_div_up_covers(n_ffn, 64);
}

/// The down projection of every expert through a Q5_K bank: 32 slots by 64 rows to
/// a threadgroup, up to all tokens, for each expert. There is an inner row for each
/// output row.
#[allow(non_snake_case)]
pub proof fn law_moe_down_q5_K_f32_grouped_slots(
    enc: &mut KernelEncoder,
    ctx: MetalContext,
    weight: MetalTensor,
    inner: MetalTensor,
    counts: MetalTensor,
    ids: MetalTensor,
    out: MetalTensor,
    n_in: usize,
    n_out: usize,
    n_expert: usize,
    n_tokens: usize,
    result: Result<(), MetalError>,
)
    requires
        call_ensures(
            moe_grouped::encode_moe_down_q5_K_f32_grouped_slots,
            (
                &ctx, enc, &weight, &inner, &counts, &ids, &out, n_in, n_out, n_expert,
                n_tokens,
            ),
            result,
        ),
        n_out > 0,
    ensures
        reading::granted_just_when(
            *old(enc), *final(enc), result, ctx,
            n_in % 256 == 0
                && weight.dtype == GgmlType::Q5_K
                && out.count() == (out.count() / n_out) * n_out
                && inner.count() == (out.count() / n_out) * n_in
                && counts.count() == n_expert
                && ids.count() == n_expert * n_tokens,
            "moe_down_q5_K_grouped_slots"@,
            "kernel_moe_down_q5_K_f32_grouped_slots"@,
        ),
        !(n_in % 256 == 0) ==> reading::shows(
            result,
            seq![
                Datum::Int(n_in as int),
                Datum::Int(256),
            ],
        ),
        n_in % 256 == 0 && !(weight.dtype == GgmlType::Q5_K) ==> reading::shows(
            result,
            seq![
                Datum::Dtype(GgmlType::Q5_K),
                Datum::Dtype(weight.dtype),
            ],
        ),
        n_in % 256 == 0 && weight.dtype == GgmlType::Q5_K
            && !(out.count() == (out.count() / n_out) * n_out
            && inner.count() == (out.count() / n_out) * n_in && counts.count() == n_expert
            && ids.count() == n_expert * n_tokens) ==> reading::shows(
            result,
            seq![
                Datum::Int(inner.elements() as int),
                Datum::Int(counts.elements() as int),
                Datum::Int(ids.elements() as int),
                Datum::Int(out.elements() as int),
                Datum::Int((out.count() / n_out) * n_in),
                Datum::Int(n_expert as int),
                Datum::Int(n_expert * n_tokens),
                Datum::Int((out.count() / n_out) * n_out),
            ],
        ),
        result is Ok ==> {
            let args = reading::words(*old(enc), *final(enc));
            let grid = reading::grid(*final(enc));
            &&& reading::launched(
                *old(enc), *final(enc),
                seq![
                    reading::at(weight),
                    reading::at(inner),
                    reading::at(counts),
                    reading::at(ids),
                    reading::at(out),
                ],
                seq![8192usize],
            )
            &&& reading::kernel(*old(enc), *final(enc)) == "kernel_moe_down_q5_K_f32_grouped_slots"@
            &&& args.len() == 7
            &&& args[0] == n_out as u32
            &&& args[1] == n_tokens as u32
            &&& args[2] == n_in as u32
            &&& args[3] == ((n_in / 256) * 176) as u32
            &&& args[4] == n_in as u32
            &&& args[5] == 0
            &&& args[6] == 0x7fff_ffff
            &&& reading::tiles(grid.width, 32, n_tokens as int)
            &&& reading::tiles(grid.height, 64, n_out as int)
            &&& grid.depth == n_expert
            &&& reading::line(reading::group(*final(enc)), 128)
        },
{
    reading::lemma_compiled(ctx, "kernel_moe_down_q5_K_f32_grouped_slots"@);
    reading::lemma_read(*old(enc), *final(enc));
    numeric::law_div_up_covers(n_tokens, 32);
    numeric::law_div_up_covers(n_out, 64);
}

/// The down projection of the experts with `min_count` to `max_count` slots through
/// a Q5_K bank: 32 slots by 64 rows to a threadgroup, up to all tokens, for each
/// expert. There is an inner row for each output row.
#[allow(non_snake_case)]
pub proof fn law_moe_down_q5_K_f32_grouped_slots_range(
    enc: &mut KernelEncoder,
    ctx: MetalContext,
    weight: MetalTensor,
    inner: MetalTensor,
    counts: MetalTensor,
    ids: MetalTensor,
    out: MetalTensor,
    n_in: usize,
    n_out: usize,
    n_expert: usize,
    n_tokens: usize,
    min_count: u32,
    max_count: u32,
    result: Result<(), MetalError>,
)
    requires
        call_ensures(
            moe_grouped::encode_moe_down_q5_K_f32_grouped_slots_range,
            (
                &ctx, enc, &weight, &inner, &counts, &ids, &out, n_in, n_out, n_expert,
                n_tokens, min_count, max_count,
            ),
            result,
        ),
        n_out > 0,
    ensures
        reading::granted_just_when(
            *old(enc), *final(enc), result, ctx,
            n_in % 256 == 0
                && weight.dtype == GgmlType::Q5_K
                && out.count() == (out.count() / n_out) * n_out
                && inner.count() == (out.count() / n_out) * n_in
                && counts.count() == n_expert
                && ids.count() == n_expert * n_tokens,
            "moe_down_q5_K_grouped_slots"@,
            "kernel_moe_down_q5_K_f32_grouped_slots"@,
        ),
        !(n_in % 256 == 0) ==> reading::shows(
            result,
            seq![
                Datum::Int(n_in as int),
                Datum::Int(256),
            ],
        ),
        n_in % 256 == 0 && !(weight.dtype == GgmlType::Q5_K) ==> reading::shows(
            result,
            seq![
                Datum::Dtype(GgmlType::Q5_K),
                Datum::Dtype(weight.dtype),
            ],
        ),
        n_in % 256 == 0 && weight.dtype == GgmlType::Q5_K
            && !(out.count() == (out.count() / n_out) * n_out
            && inner.count() == (out.count() / n_out) * n_in && counts.count() == n_expert
            && ids.count() == n_expert * n_tokens) ==> reading::shows(
            result,
            seq![
                Datum::Int(inner.elements() as int),
                Datum::Int(counts.elements() as int),
                Datum::Int(ids.elements() as int),
                Datum::Int(out.elements() as int),
                Datum::Int((out.count() / n_out) * n_in),
                Datum::Int(n_expert as int),
                Datum::Int(n_expert * n_tokens),
                Datum::Int((out.count() / n_out) * n_out),
            ],
        ),
        result is Ok ==> {
            let args = reading::words(*old(enc), *final(enc));
            let grid = reading::grid(*final(enc));
            &&& reading::launched(
                *old(enc), *final(enc),
                seq![
                    reading::at(weight),
                    reading::at(inner),
                    reading::at(counts),
                    reading::at(ids),
                    reading::at(out),
                ],
                seq![8192usize],
            )
            &&& reading::kernel(*old(enc), *final(enc)) == "kernel_moe_down_q5_K_f32_grouped_slots"@
            &&& args.len() == 7
            &&& args[0] == n_out as u32
            &&& args[1] == n_tokens as u32
            &&& args[2] == n_in as u32
            &&& args[3] == ((n_in / 256) * 176) as u32
            &&& args[4] == n_in as u32
            &&& args[5] == min_count
            &&& args[6] == max_count
            &&& reading::tiles(grid.width, 32, n_tokens as int)
            &&& reading::tiles(grid.height, 64, n_out as int)
            &&& grid.depth == n_expert
            &&& reading::line(reading::group(*final(enc)), 128)
        },
{
    reading::lemma_compiled(ctx, "kernel_moe_down_q5_K_f32_grouped_slots"@);
    reading::lemma_read(*old(enc), *final(enc));
    numeric::law_div_up_covers(n_tokens, 32);
    numeric::law_div_up_covers(n_out, 64);
}

/// The down projection of the experts with `min_count` to `max_count` slots through
/// a Q5_K bank: 16 rows of four experts to a threadgroup, for each row and each
/// expert.
#[allow(non_snake_case)]
pub proof fn law_moe_down_q5_K_f32_grouped_slots_tiny8_r16(
    enc: &mut KernelEncoder,
    ctx: MetalContext,
    weight: MetalTensor,
    inner: MetalTensor,
    counts: MetalTensor,
    ids: MetalTensor,
    out: MetalTensor,
    n_in: usize,
    n_out: usize,
    n_expert: usize,
    n_tokens: usize,
    min_count: u32,
    max_count: u32,
    result: Result<(), MetalError>,
)
    requires
        call_ensures(
            moe_grouped::encode_moe_down_q5_K_f32_grouped_slots_tiny8_r16,
            (
                &ctx, enc, &weight, &inner, &counts, &ids, &out, n_in, n_out, n_expert,
                n_tokens, min_count, max_count,
            ),
            result,
        ),
        n_out > 0,
    ensures
        reading::granted_just_when(
            *old(enc), *final(enc), result, ctx,
            n_in % 256 == 0
                && weight.dtype == GgmlType::Q5_K
                && out.count() == (out.count() / n_out) * n_out
                && inner.count() == (out.count() / n_out) * n_in
                && counts.count() == n_expert
                && ids.count() == n_expert * n_tokens,
            "moe_down_q5_K_grouped_slots_tiny8_r16"@,
            "kernel_moe_down_q5_K_f32_grouped_slots_tiny8_r16"@,
        ),
        !(n_in % 256 == 0) ==> reading::shows(
            result,
            seq![
                Datum::Int(n_in as int),
                Datum::Int(256),
            ],
        ),
        n_in % 256 == 0 && !(weight.dtype == GgmlType::Q5_K) ==> reading::shows(
            result,
            seq![
                Datum::Dtype(GgmlType::Q5_K),
                Datum::Dtype(weight.dtype),
            ],
        ),
        n_in % 256 == 0 && weight.dtype == GgmlType::Q5_K
            && !(out.count() == (out.count() / n_out) * n_out
            && inner.count() == (out.count() / n_out) * n_in && counts.count() == n_expert
            && ids.count() == n_expert * n_tokens) ==> reading::shows(
            result,
            seq![
                Datum::Int(inner.elements() as int),
                Datum::Int(counts.elements() as int),
                Datum::Int(ids.elements() as int),
                Datum::Int(out.elements() as int),
                Datum::Int((out.count() / n_out) * n_in),
                Datum::Int(n_expert as int),
                Datum::Int(n_expert * n_tokens),
                Datum::Int((out.count() / n_out) * n_out),
            ],
        ),
        result is Ok ==> {
            let args = reading::words(*old(enc), *final(enc));
            let grid = reading::grid(*final(enc));
            &&& reading::launched(
                *old(enc), *final(enc),
                seq![
                    reading::at(weight),
                    reading::at(inner),
                    reading::at(counts),
                    reading::at(ids),
                    reading::at(out),
                ],
                seq![8192usize],
            )
            &&& reading::kernel(*old(enc), *final(enc))
                == "kernel_moe_down_q5_K_f32_grouped_slots_tiny8_r16"@
            &&& args.len() == 8
            &&& args[0] == n_out as u32
            &&& args[1] == n_tokens as u32
            &&& args[2] == n_in as u32
            &&& args[3] == n_expert as u32
            &&& args[4] == ((n_in / 256) * 176) as u32
            &&& args[5] == n_in as u32
            &&& args[6] == min_count
            &&& args[7] == max_count
            &&& reading::tiles(grid.width, 16, n_out as int)
            &&& reading::tiles(grid.height, 4, n_expert as int)
            &&& grid.depth == 1
            &&& reading::line(reading::group(*final(enc)), 128)
        },
{
    reading::lemma_compiled(ctx, "kernel_moe_down_q5_K_f32_grouped_slots_tiny8_r16"@);
    reading::lemma_read(*old(enc), *final(enc));
    numeric::law_div_up_covers(n_out, 16);
    numeric::law_div_up_covers(n_expert, 4);
}

/// The down projection of every expert through a Q6_K bank: 32 slots by 64 rows to
/// a threadgroup, up to all tokens, for each expert. There is an inner row for each
/// output row.
#[allow(non_snake_case)]
pub proof fn law_moe_down_q6_K_f32_grouped_slots(
    enc: &mut KernelEncoder,
    ctx: MetalContext,
    weight: MetalTensor,
    inner: MetalTensor,
    counts: MetalTensor,
    ids: MetalTensor,
    out: MetalTensor,
    n_in: usize,
    n_out: usize,
    n_expert: usize,
    n_tokens: usize,
    result: Result<(), MetalError>,
)
    requires
        call_ensures(
            moe_grouped::encode_moe_down_q6_K_f32_grouped_slots,
            (
                &ctx, enc, &weight, &inner, &counts, &ids, &out, n_in, n_out, n_expert,
                n_tokens,
            ),
            result,
        ),
        n_out > 0,
    ensures
        reading::granted_just_when(
            *old(enc), *final(enc), result, ctx,
            n_in % 256 == 0
                && weight.dtype == GgmlType::Q6_K
                && out.count() == (out.count() / n_out) * n_out
                && inner.count() == (out.count() / n_out) * n_in
                && counts.count() == n_expert
                && ids.count() == n_expert * n_tokens,
            "moe_down_q6_K_grouped_slots"@,
            "kernel_moe_down_q6_K_f32_grouped_slots"@,
        ),
        !(n_in % 256 == 0) ==> reading::shows(
            result,
            seq![
                Datum::Int(n_in as int),
                Datum::Int(256),
            ],
        ),
        n_in % 256 == 0 && !(weight.dtype == GgmlType::Q6_K) ==> reading::shows(
            result,
            seq![
                Datum::Dtype(GgmlType::Q6_K),
                Datum::Dtype(weight.dtype),
            ],
        ),
        n_in % 256 == 0 && weight.dtype == GgmlType::Q6_K
            && !(out.count() == (out.count() / n_out) * n_out
            && inner.count() == (out.count() / n_out) * n_in && counts.count() == n_expert
            && ids.count() == n_expert * n_tokens) ==> reading::shows(
            result,
            seq![
                Datum::Int(inner.elements() as int),
                Datum::Int(counts.elements() as int),
                Datum::Int(ids.elements() as int),
                Datum::Int(out.elements() as int),
                Datum::Int((out.count() / n_out) * n_in),
                Datum::Int(n_expert as int),
                Datum::Int(n_expert * n_tokens),
                Datum::Int((out.count() / n_out) * n_out),
            ],
        ),
        result is Ok ==> {
            let args = reading::words(*old(enc), *final(enc));
            let grid = reading::grid(*final(enc));
            &&& reading::launched(
                *old(enc), *final(enc),
                seq![
                    reading::at(weight),
                    reading::at(inner),
                    reading::at(counts),
                    reading::at(ids),
                    reading::at(out),
                ],
                seq![8192usize],
            )
            &&& reading::kernel(*old(enc), *final(enc)) == "kernel_moe_down_q6_K_f32_grouped_slots"@
            &&& args.len() == 5
            &&& args[0] == n_out as u32
            &&& args[1] == n_tokens as u32
            &&& args[2] == n_in as u32
            &&& args[3] == ((n_in / 256) * 210) as u32
            &&& args[4] == n_in as u32
            &&& reading::tiles(grid.width, 32, n_tokens as int)
            &&& reading::tiles(grid.height, 64, n_out as int)
            &&& grid.depth == n_expert
            &&& reading::line(reading::group(*final(enc)), 128)
        },
{
    reading::lemma_compiled(ctx, "kernel_moe_down_q6_K_f32_grouped_slots"@);
    reading::lemma_read(*old(enc), *final(enc));
    numeric::law_div_up_covers(n_tokens, 32);
    numeric::law_div_up_covers(n_out, 64);
}

/// The down projection of every expert through a Q8_0 bank: 32 slots by 64 rows to
/// a threadgroup, up to all tokens, for each expert. There is an inner row for each
/// output row.
pub proof fn law_moe_down_q8_0_f32_grouped_slots(
    enc: &mut KernelEncoder,
    ctx: MetalContext,
    weight: MetalTensor,
    inner: MetalTensor,
    counts: MetalTensor,
    ids: MetalTensor,
    out: MetalTensor,
    n_in: usize,
    n_out: usize,
    n_expert: usize,
    n_tokens: usize,
    result: Result<(), MetalError>,
)
    requires
        call_ensures(
            moe_grouped::encode_moe_down_q8_0_f32_grouped_slots,
            (
                &ctx, enc, &weight, &inner, &counts, &ids, &out, n_in, n_out, n_expert,
                n_tokens,
            ),
            result,
        ),
        n_out > 0,
    ensures
        reading::granted_just_when(
            *old(enc), *final(enc), result, ctx,
            n_in % 32 == 0
                && weight.dtype == GgmlType::Q8_0
                && out.count() == (out.count() / n_out) * n_out
                && inner.count() == (out.count() / n_out) * n_in
                && counts.count() == n_expert
                && ids.count() == n_expert * n_tokens,
            "moe_down_q8_0_grouped_slots"@,
            "kernel_moe_down_q8_0_f32_grouped_slots"@,
        ),
        !(n_in % 32 == 0) ==> reading::shows(
            result,
            seq![
                Datum::Int(n_in as int),
                Datum::Int(32),
            ],
        ),
        n_in % 32 == 0 && !(weight.dtype == GgmlType::Q8_0) ==> reading::shows(
            result,
            seq![
                Datum::Dtype(GgmlType::Q8_0),
                Datum::Dtype(weight.dtype),
            ],
        ),
        n_in % 32 == 0 && weight.dtype == GgmlType::Q8_0
            && !(out.count() == (out.count() / n_out) * n_out
            && inner.count() == (out.count() / n_out) * n_in && counts.count() == n_expert
            && ids.count() == n_expert * n_tokens) ==> reading::shows(
            result,
            seq![
                Datum::Int(inner.elements() as int),
                Datum::Int(counts.elements() as int),
                Datum::Int(ids.elements() as int),
                Datum::Int(out.elements() as int),
                Datum::Int((out.count() / n_out) * n_in),
                Datum::Int(n_expert as int),
                Datum::Int(n_expert * n_tokens),
                Datum::Int((out.count() / n_out) * n_out),
            ],
        ),
        result is Ok ==> {
            let args = reading::words(*old(enc), *final(enc));
            let grid = reading::grid(*final(enc));
            &&& reading::launched(
                *old(enc), *final(enc),
                seq![
                    reading::at(weight),
                    reading::at(inner),
                    reading::at(counts),
                    reading::at(ids),
                    reading::at(out),
                ],
                seq![8192usize],
            )
            &&& reading::kernel(*old(enc), *final(enc)) == "kernel_moe_down_q8_0_f32_grouped_slots"@
            &&& args.len() == 5
            &&& args[0] == n_out as u32
            &&& args[1] == n_tokens as u32
            &&& args[2] == n_in as u32
            &&& args[3] == ((n_in / 32) * 34) as u32
            &&& args[4] == n_in as u32
            &&& reading::tiles(grid.width, 32, n_tokens as int)
            &&& reading::tiles(grid.height, 64, n_out as int)
            &&& grid.depth == n_expert
            &&& reading::line(reading::group(*final(enc)), 128)
        },
{
    reading::lemma_compiled(ctx, "kernel_moe_down_q8_0_f32_grouped_slots"@);
    reading::lemma_read(*old(enc), *final(enc));
    numeric::law_div_up_covers(n_tokens, 32);
    numeric::law_div_up_covers(n_out, 64);
}

/// The down projection of every expert through a BF16 bank: 32 slots by 64 rows to
/// a threadgroup, up to all tokens, for each expert. There is an inner row for each
/// output row.
pub proof fn law_moe_down_bf16_f32_grouped_slots(
    enc: &mut KernelEncoder,
    ctx: MetalContext,
    weight: MetalTensor,
    inner: MetalTensor,
    counts: MetalTensor,
    ids: MetalTensor,
    out: MetalTensor,
    n_in: usize,
    n_out: usize,
    n_expert: usize,
    n_tokens: usize,
    result: Result<(), MetalError>,
)
    requires
        call_ensures(
            moe_grouped::encode_moe_down_bf16_f32_grouped_slots,
            (
                &ctx, enc, &weight, &inner, &counts, &ids, &out, n_in, n_out, n_expert,
                n_tokens,
            ),
            result,
        ),
        n_out > 0,
    ensures
        reading::granted_just_when(
            *old(enc), *final(enc), result, ctx,
            n_in % 32 == 0
                && weight.dtype == GgmlType::BF16
                && out.count() == (out.count() / n_out) * n_out
                && inner.count() == (out.count() / n_out) * n_in
                && counts.count() == n_expert
                && ids.count() == n_expert * n_tokens,
            "moe_down_bf16_grouped_slots"@,
            "kernel_moe_down_bf16_f32_grouped_slots"@,
        ),
        !(n_in % 32 == 0) ==> reading::shows(
            result,
            seq![
                Datum::Int(n_in as int),
                Datum::Int(32),
            ],
        ),
        n_in % 32 == 0 && !(weight.dtype == GgmlType::BF16) ==> reading::shows(
            result,
            seq![
                Datum::Dtype(GgmlType::BF16),
                Datum::Dtype(weight.dtype),
            ],
        ),
        n_in % 32 == 0 && weight.dtype == GgmlType::BF16
            && !(out.count() == (out.count() / n_out) * n_out
            && inner.count() == (out.count() / n_out) * n_in && counts.count() == n_expert
            && ids.count() == n_expert * n_tokens) ==> reading::shows(
            result,
            seq![
                Datum::Int(inner.elements() as int),
                Datum::Int(counts.elements() as int),
                Datum::Int(ids.elements() as int),
                Datum::Int(out.elements() as int),
                Datum::Int((out.count() / n_out) * n_in),
                Datum::Int(n_expert as int),
                Datum::Int(n_expert * n_tokens),
                Datum::Int((out.count() / n_out) * n_out),
            ],
        ),
        result is Ok ==> {
            let args = reading::words(*old(enc), *final(enc));
            let grid = reading::grid(*final(enc));
            &&& reading::launched(
                *old(enc), *final(enc),
                seq![
                    reading::at(weight),
                    reading::at(inner),
                    reading::at(counts),
                    reading::at(ids),
                    reading::at(out),
                ],
                seq![8192usize],
            )
            &&& reading::kernel(*old(enc), *final(enc)) == "kernel_moe_down_bf16_f32_grouped_slots"@
            &&& args.len() == 7
            &&& args[0] == n_out as u32
            &&& args[1] == n_tokens as u32
            &&& args[2] == n_in as u32
            &&& args[3] == ((n_in / 32) * 32) as u32
            &&& args[4] == n_in as u32
            &&& args[5] == 0
            &&& args[6] == 0x7fff_ffff
            &&& reading::tiles(grid.width, 32, n_tokens as int)
            &&& reading::tiles(grid.height, 64, n_out as int)
            &&& grid.depth == n_expert
            &&& reading::line(reading::group(*final(enc)), 128)
        },
{
    reading::lemma_compiled(ctx, "kernel_moe_down_bf16_f32_grouped_slots"@);
    reading::lemma_read(*old(enc), *final(enc));
    numeric::law_div_up_covers(n_tokens, 32);
    numeric::law_div_up_covers(n_out, 64);
}

/// The down projection of the experts with `min_count` to `max_count` slots through
/// a BF16 bank: 32 slots by 64 rows to a threadgroup, up to all tokens, for each
/// expert. There is an inner row for each output row.
pub proof fn law_moe_down_bf16_f32_grouped_slots_range(
    enc: &mut KernelEncoder,
    ctx: MetalContext,
    weight: MetalTensor,
    inner: MetalTensor,
    counts: MetalTensor,
    ids: MetalTensor,
    out: MetalTensor,
    n_in: usize,
    n_out: usize,
    n_expert: usize,
    n_tokens: usize,
    min_count: u32,
    max_count: u32,
    result: Result<(), MetalError>,
)
    requires
        call_ensures(
            moe_grouped::encode_moe_down_bf16_f32_grouped_slots_range,
            (
                &ctx, enc, &weight, &inner, &counts, &ids, &out, n_in, n_out, n_expert,
                n_tokens, min_count, max_count,
            ),
            result,
        ),
        n_out > 0,
    ensures
        reading::granted_just_when(
            *old(enc), *final(enc), result, ctx,
            n_in % 32 == 0
                && weight.dtype == GgmlType::BF16
                && out.count() == (out.count() / n_out) * n_out
                && inner.count() == (out.count() / n_out) * n_in
                && counts.count() == n_expert
                && ids.count() == n_expert * n_tokens,
            "moe_down_bf16_grouped_slots"@,
            "kernel_moe_down_bf16_f32_grouped_slots"@,
        ),
        !(n_in % 32 == 0) ==> reading::shows(
            result,
            seq![
                Datum::Int(n_in as int),
                Datum::Int(32),
            ],
        ),
        n_in % 32 == 0 && !(weight.dtype == GgmlType::BF16) ==> reading::shows(
            result,
            seq![
                Datum::Dtype(GgmlType::BF16),
                Datum::Dtype(weight.dtype),
            ],
        ),
        n_in % 32 == 0 && weight.dtype == GgmlType::BF16
            && !(out.count() == (out.count() / n_out) * n_out
            && inner.count() == (out.count() / n_out) * n_in && counts.count() == n_expert
            && ids.count() == n_expert * n_tokens) ==> reading::shows(
            result,
            seq![
                Datum::Int(inner.elements() as int),
                Datum::Int(counts.elements() as int),
                Datum::Int(ids.elements() as int),
                Datum::Int(out.elements() as int),
                Datum::Int((out.count() / n_out) * n_in),
                Datum::Int(n_expert as int),
                Datum::Int(n_expert * n_tokens),
                Datum::Int((out.count() / n_out) * n_out),
            ],
        ),
        result is Ok ==> {
            let args = reading::words(*old(enc), *final(enc));
            let grid = reading::grid(*final(enc));
            &&& reading::launched(
                *old(enc), *final(enc),
                seq![
                    reading::at(weight),
                    reading::at(inner),
                    reading::at(counts),
                    reading::at(ids),
                    reading::at(out),
                ],
                seq![8192usize],
            )
            &&& reading::kernel(*old(enc), *final(enc)) == "kernel_moe_down_bf16_f32_grouped_slots"@
            &&& args.len() == 7
            &&& args[0] == n_out as u32
            &&& args[1] == n_tokens as u32
            &&& args[2] == n_in as u32
            &&& args[3] == ((n_in / 32) * 32) as u32
            &&& args[4] == n_in as u32
            &&& args[5] == min_count
            &&& args[6] == max_count
            &&& reading::tiles(grid.width, 32, n_tokens as int)
            &&& reading::tiles(grid.height, 64, n_out as int)
            &&& grid.depth == n_expert
            &&& reading::line(reading::group(*final(enc)), 128)
        },
{
    reading::lemma_compiled(ctx, "kernel_moe_down_bf16_f32_grouped_slots"@);
    reading::lemma_read(*old(enc), *final(enc));
    numeric::law_div_up_covers(n_tokens, 32);
    numeric::law_div_up_covers(n_out, 64);
}

/// The down projection of every expert through a IQ4_XS bank: 32 slots by 64 rows
/// to a threadgroup, up to all tokens, for each expert. There is an inner row for
/// each output row.
pub proof fn law_moe_down_iq4_xs_f32_grouped_slots(
    enc: &mut KernelEncoder,
    ctx: MetalContext,
    weight: MetalTensor,
    inner: MetalTensor,
    counts: MetalTensor,
    ids: MetalTensor,
    out: MetalTensor,
    n_in: usize,
    n_out: usize,
    n_expert: usize,
    n_tokens: usize,
    result: Result<(), MetalError>,
)
    requires
        call_ensures(
            moe_grouped::encode_moe_down_iq4_xs_f32_grouped_slots,
            (
                &ctx, enc, &weight, &inner, &counts, &ids, &out, n_in, n_out, n_expert,
                n_tokens,
            ),
            result,
        ),
        n_out > 0,
    ensures
        reading::granted_just_when(
            *old(enc), *final(enc), result, ctx,
            n_in % 256 == 0
                && weight.dtype == GgmlType::IQ4_XS
                && out.count() == (out.count() / n_out) * n_out
                && inner.count() == (out.count() / n_out) * n_in
                && counts.count() == n_expert
                && ids.count() == n_expert * n_tokens,
            "moe_down_iq4_xs_grouped_slots"@,
            "kernel_moe_down_iq4_xs_f32_grouped_slots"@,
        ),
        !(n_in % 256 == 0) ==> reading::shows(
            result,
            seq![
                Datum::Int(n_in as int),
                Datum::Int(256),
            ],
        ),
        n_in % 256 == 0 && !(weight.dtype == GgmlType::IQ4_XS) ==> reading::shows(
            result,
            seq![
                Datum::Dtype(GgmlType::IQ4_XS),
                Datum::Dtype(weight.dtype),
            ],
        ),
        n_in % 256 == 0 && weight.dtype == GgmlType::IQ4_XS
            && !(out.count() == (out.count() / n_out) * n_out
            && inner.count() == (out.count() / n_out) * n_in && counts.count() == n_expert
            && ids.count() == n_expert * n_tokens) ==> reading::shows(
            result,
            seq![
                Datum::Int(inner.elements() as int),
                Datum::Int(counts.elements() as int),
                Datum::Int(ids.elements() as int),
                Datum::Int(out.elements() as int),
                Datum::Int((out.count() / n_out) * n_in),
                Datum::Int(n_expert as int),
                Datum::Int(n_expert * n_tokens),
                Datum::Int((out.count() / n_out) * n_out),
            ],
        ),
        result is Ok ==> {
            let args = reading::words(*old(enc), *final(enc));
            let grid = reading::grid(*final(enc));
            &&& reading::launched(
                *old(enc), *final(enc),
                seq![
                    reading::at(weight),
                    reading::at(inner),
                    reading::at(counts),
                    reading::at(ids),
                    reading::at(out),
                ],
                seq![8192usize],
            )
            &&& reading::kernel(*old(enc), *final(enc))
                == "kernel_moe_down_iq4_xs_f32_grouped_slots"@
            &&& args.len() == 7
            &&& args[0] == n_out as u32
            &&& args[1] == n_tokens as u32
            &&& args[2] == n_in as u32
            &&& args[3] == ((n_in / 256) * 1) as u32
            &&& args[4] == n_in as u32
            &&& args[5] == 0
            &&& args[6] == 0x7fff_ffff
            &&& reading::tiles(grid.width, 32, n_tokens as int)
            &&& reading::tiles(grid.height, 64, n_out as int)
            &&& grid.depth == n_expert
            &&& reading::line(reading::group(*final(enc)), 128)
        },
{
    reading::lemma_compiled(ctx, "kernel_moe_down_iq4_xs_f32_grouped_slots"@);
    reading::lemma_read(*old(enc), *final(enc));
    numeric::law_div_up_covers(n_tokens, 32);
    numeric::law_div_up_covers(n_out, 64);
}

} // verus!
