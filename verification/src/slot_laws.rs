//! What the kernels over chosen slots are told, and when.

use vstd::prelude::*;

use crate::context::MetalContext;
use crate::dtype::GgmlType;
use crate::encoder::KernelEncoder;
use crate::error::{Datum, MetalError};
use crate::moe_slots;
use crate::numeric;
use crate::reading;
use crate::tensor::MetalTensor;

verus! {

/// SwiGLU of one token through IQ3_XXS banks: 2 rows of a slot to a threadgroup,
/// every slot, on tensors that hold just the token, its experts and their rows.
pub proof fn law_moe_swiglu_iq3_xxs_f32(
    enc: &mut KernelEncoder,
    ctx: MetalContext,
    w_gate: MetalTensor,
    w_up: MetalTensor,
    x: MetalTensor,
    topk_idx: MetalTensor,
    inner: MetalTensor,
    n_in: usize,
    n_out: usize,
    n_expert: usize,
    topk: usize,
    result: Result<(), MetalError>,
)
    requires
        call_ensures(
            moe_slots::encode_moe_swiglu_iq3_xxs_f32,
            (
                &ctx, enc, &w_gate, &w_up, &x, &topk_idx, &inner, n_in, n_out, n_expert,
                topk,
            ),
            result,
        ),
    ensures
        reading::granted_just_when(
            *old(enc), *final(enc), result, ctx,
            n_in % 256 == 0
                && w_gate.dtype == GgmlType::IQ3_XXS && w_up.dtype == GgmlType::IQ3_XXS
                && x.count() == n_in
                && topk_idx.count() == topk
                && inner.count() == topk * n_out,
            "moe_swiglu_iq3_xxs"@,
            "kernel_moe_swiglu_iq3_xxs_f32"@,
        ),
        !(n_in % 256 == 0) ==> reading::shows(
            result,
            seq![
                Datum::Int(n_in as int),
                Datum::Int(256),
            ],
        ),
        n_in % 256 == 0 && !(w_gate.dtype == GgmlType::IQ3_XXS && w_up.dtype == GgmlType::IQ3_XXS)
            ==> reading::shows(
            result,
            seq![
                Datum::Dtype(GgmlType::IQ3_XXS),
                Datum::Dtype(w_gate.dtype),
                Datum::Dtype(w_up.dtype),
            ],
        ),
        n_in % 256 == 0 && w_gate.dtype == GgmlType::IQ3_XXS && w_up.dtype == GgmlType::IQ3_XXS
            && !(x.count() == n_in && topk_idx.count() == topk
            && inner.count() == topk * n_out) ==> reading::shows(
            result,
            seq![
                Datum::Int(x.elements() as int),
                Datum::Int(topk_idx.elements() as int),
                Datum::Int(inner.elements() as int),
                Datum::Int(n_in as int),
                Datum::Int(topk as int),
                Datum::Int(topk * n_out),
            ],
        ),
        result is Ok ==> {
            let args = reading::words(*old(enc), *final(enc));
            let grid = reading::grid(*final(enc));
            &&& reading::launched(
                *old(enc), *final(enc),
                seq![
                    reading::at(w_gate),
                    reading::at(w_up),
                    reading::at(x),
                    reading::at(topk_idx),
                    reading::at(inner),
                ],
                seq![],
            )
            &&& reading::kernel(*old(enc), *final(enc)) == "kernel_moe_swiglu_iq3_xxs_f32"@
            &&& args.len() == 4
            &&& args[0] == n_in as u32
            &&& args[1] == n_out as u32
            &&& args[2] == n_expert as u32
            &&& args[3] == topk as u32
            &&& reading::tiles(grid.width, 2, n_out as int)
            &&& grid.height == topk
            &&& grid.depth == 1
            &&& reading::line(reading::group(*final(enc)), 64)
        },
{
    reading::lemma_compiled(ctx, "kernel_moe_swiglu_iq3_xxs_f32"@);
    reading::lemma_read(*old(enc), *final(enc));
    numeric::law_div_up_covers(n_out, 2);
}

/// SwiGLU of one token through IQ3_XXS banks: 8 rows of a slot to a threadgroup,
/// every slot, on tensors that hold just the token, its experts and their rows.
pub proof fn law_moe_swiglu_iq3_xxs_f32_fast(
    enc: &mut KernelEncoder,
    ctx: MetalContext,
    w_gate: MetalTensor,
    w_up: MetalTensor,
    x: MetalTensor,
    topk_idx: MetalTensor,
    inner: MetalTensor,
    n_in: usize,
    n_out: usize,
    n_expert: usize,
    topk: usize,
    result: Result<(), MetalError>,
)
    requires
        call_ensures(
            moe_slots::encode_moe_swiglu_iq3_xxs_f32_fast,
            (
                &ctx, enc, &w_gate, &w_up, &x, &topk_idx, &inner, n_in, n_out, n_expert,
                topk,
            ),
            result,
        ),
    ensures
        reading::granted_just_when(
            *old(enc), *final(enc), result, ctx,
            n_in % 256 == 0
                && w_gate.dtype == GgmlType::IQ3_XXS && w_up.dtype == GgmlType::IQ3_XXS
                && x.count() == n_in
                && topk_idx.count() == topk
                && inner.count() == topk * n_out,
            "moe_swiglu_iq3_xxs_fast"@,
            "kernel_moe_swiglu_iq3_xxs_f32_fast"@,
        ),
        !(n_in % 256 == 0) ==> reading::shows(
            result,
            seq![
                Datum::Int(n_in as int),
                Datum::Int(256),
            ],
        ),
        n_in % 256 == 0 && !(w_gate.dtype == GgmlType::IQ3_XXS && w_up.dtype == GgmlType::IQ3_XXS)
            ==> reading::shows(
            result,
            seq![
                Datum::Dtype(GgmlType::IQ3_XXS),
                Datum::Dtype(w_gate.dtype),
                Datum::Dtype(w_up.dtype),
            ],
        ),
        n_in % 256 == 0 && w_gate.dtype == GgmlType::IQ3_XXS && w_up.dtype == GgmlType::IQ3_XXS
            && !(x.count() == n_in && topk_idx.count() == topk
            && inner.count() == topk * n_out) ==> reading::shows(
            result,
            seq![
                Datum::Int(x.elements() as int),
                Datum::Int(topk_idx.elements() as int),
                Datum::Int(inner.elements() as int),
                Datum::Int(n_in as int),
                Datum::Int(topk as int),
                Datum::Int(topk * n_out),
            ],
        ),
        result is Ok ==> {
            let args = reading::words(*old(enc), *final(enc));
            let grid = reading::grid(*final(enc));
            &&& reading::launched(
                *old(enc), *final(enc),
                seq![
                    reading::at(w_gate),
                    reading::at(w_up),
                    reading::at(x),
                    reading::at(topk_idx),
                    reading::at(inner),
                ],
                seq![],
            )
            &&& reading::kernel(*old(enc), *final(enc)) == "kernel_moe_swiglu_iq3_xxs_f32_fast"@
            &&& args.len() == 4
            &&& args[0] == n_in as u32
            &&& args[1] == n_out as u32
            &&& args[2] == n_expert as u32
            &&& args[3] == topk as u32
            &&& reading::tiles(grid.width, 8, n_out as int)
            &&& grid.height == topk
            &&& grid.depth == 1
            &&& reading::line(reading::group(*final(enc)), 64)
        },
{
    reading::lemma_compiled(ctx, "kernel_moe_swiglu_iq3_xxs_f32_fast"@);
    reading::lemma_read(*old(enc), *final(enc));
    numeric::law_div_up_covers(n_out, 8);
}

/// SwiGLU of one token through IQ3_S banks: 2 rows of a slot to a threadgroup,
/// every slot, on tensors that hold just the token, its experts and their rows.
pub proof fn law_moe_swiglu_iq3_s_f32(
    enc: &mut KernelEncoder,
    ctx: MetalContext,
    w_gate: MetalTensor,
    w_up: MetalTensor,
    x: MetalTensor,
    topk_idx: MetalTensor,
    inner: MetalTensor,
    n_in: usize,
    n_out: usize,
    n_expert: usize,
    topk: usize,
    result: Result<(), MetalError>,
)
    requires
        call_ensures(
            moe_slots::encode_moe_swiglu_iq3_s_f32,
            (
                &ctx, enc, &w_gate, &w_up, &x, &topk_idx, &inner, n_in, n_out, n_expert,
                topk,
            ),
            result,
        ),
    ensures
        reading::granted_just_when(
            *old(enc), *final(enc), result, ctx,
            n_in % 256 == 0
                && w_gate.dtype == GgmlType::IQ3_S && w_up.dtype == GgmlType::IQ3_S
                && x.count() == n_in
                && topk_idx.count() == topk
                && inner.count() == topk * n_out,
            "moe_swiglu_iq3_s"@,
            "kernel_moe_swiglu_iq3_s_f32"@,
        ),
        !(n_in % 256 == 0) ==> reading::shows(
            result,
            seq![
                Datum::Int(n_in as int),
                Datum::Int(256),
            ],
        ),
        n_in % 256 == 0 && !(w_gate.dtype == GgmlType::IQ3_S && w_up.dtype == GgmlType::IQ3_S)
            ==> reading::shows(
            result,
            seq![
                Datum::Dtype(GgmlType::IQ3_S),
                Datum::Dtype(w_gate.dtype),
                Datum::Dtype(w_up.dtype),
            ],
        ),
        n_in % 256 == 0 && w_gate.dtype == GgmlType::IQ3_S && w_up.dtype == GgmlType::IQ3_S
            && !(x.count() == n_in && topk_idx.count() == topk
            && inner.count() == topk * n_out) ==> reading::shows(
            result,
            seq![
                Datum::Int(x.elements() as int),
                Datum::Int(topk_idx.elements() as int),
                Datum::Int(inner.elements() as int),
                Datum::Int(n_in as int),
                Datum::Int(topk as int),
                Datum::Int(topk * n_out),
            ],
        ),
        result is Ok ==> {
            let args = reading::words(*old(enc), *final(enc));
            let grid = reading::grid(*final(enc));
            &&& reading::launched(
                *old(enc), *final(enc),
                seq![
                    reading::at(w_gate),
                    reading::at(w_up),
                    reading::at(x),
                    reading::at(topk_idx),
                    reading::at(inner),
                ],
                seq![],
            )
            &&& reading::kernel(*old(enc), *final(enc)) == "kernel_moe_swiglu_iq3_s_f32"@
            &&& args.len() == 4
            &&& args[0] == n_in as u32
            &&& args[1] == n_out as u32
            &&& args[2] == n_expert as u32
            &&& args[3] == topk as u32
            &&& reading::tiles(grid.width, 2, n_out as int)
            &&& grid.height == topk
            &&& grid.depth == 1
            &&& reading::line(reading::group(*final(enc)), 64)
        },
{
    reading::lemma_compiled(ctx, "kernel_moe_swiglu_iq3_s_f32"@);
    reading::lemma_read(*old(enc), *final(enc));
    numeric::law_div_up_covers(n_out, 2);
}

/// SwiGLU of one token through IQ3_S banks: 8 rows of a slot to a threadgroup,
/// every slot, on tensors that hold just the token, its experts and their rows.
pub proof fn law_moe_swiglu_iq3_s_f32_fast(
    enc: &mut KernelEncoder,
    ctx: MetalContext,
    w_gate: MetalTensor,
    w_up: MetalTensor,
    x: MetalTensor,
    topk_idx: MetalTensor,
    inner: MetalTensor,
    n_in: usize,
    n_out: usize,
    n_expert: usize,
    topk: usize,
    result: Result<(), MetalError>,
)
    requires
        call_ensures(
            moe_slots::encode_moe_swiglu_iq3_s_f32_fast,
            (
                &ctx, enc, &w_gate, &w_up, &x, &topk_idx, &inner, n_in, n_out, n_expert,
                topk,
            ),
            result,
        ),
    ensures
        reading::granted_just_when(
            *old(enc), *final(enc), result, ctx,
            n_in % 256 == 0
                && w_gate.dtype == GgmlType::IQ3_S && w_up.dtype == GgmlType::IQ3_S
                && x.count() == n_in
                && topk_idx.count() == topk
                && inner.count() == topk * n_out,
            "moe_swiglu_iq3_s_fast"@,
            "kernel_moe_swiglu_iq3_s_f32_fast"@,
        ),
        !(n_in % 256 == 0) ==> reading::shows(
            result,
            seq![
                Datum::Int(n_in as int),
                Datum::Int(256),
            ],
        ),
        n_in % 256 == 0 && !(w_gate.dtype == GgmlType::IQ3_S && w_up.dtype == GgmlType::IQ3_S)
            ==> reading::shows(
            result,
            seq![
                Datum::Dtype(GgmlType::IQ3_S),
                Datum::Dtype(w_gate.dtype),
                Datum::Dtype(w_up.dtype),
            ],
        ),
        n_in % 256 == 0 && w_gate.dtype == GgmlType::IQ3_S && w_up.dtype == GgmlType::IQ3_S
            && !(x.count() == n_in && topk_idx.count() == topk
            && inner.count() == topk * n_out) ==> reading::shows(
            result,
            seq![
                Datum::Int(x.elements() as int),
                Datum::Int(topk_idx.elements() as int),
                Datum::Int(inner.elements() as int),
                Datum::Int(n_in as int),
                Datum::Int(topk as int),
                Datum::Int(topk * n_out),
            ],
        ),
        result is Ok ==> {
            let args = reading::words(*old(enc), *final(enc));
            let grid = reading::grid(*final(enc));
            &&& reading::launched(
                *old(enc), *final(enc),
                seq![
                    reading::at(w_gate),
                    reading::at(w_up),
                    reading::at(x),
                    reading::at(topk_idx),
                    reading::at(inner),
                ],
                seq![],
            )
            &&& reading::kernel(*old(enc), *final(enc)) == "kernel_moe_swiglu_iq3_s_f32_fast"@
            &&& args.len() == 4
            &&& args[0] == n_in as u32
            &&& args[1] == n_out as u32
            &&& args[2] == n_expert as u32
            &&& args[3] == topk as u32
            &&& reading::tiles(grid.width, 8, n_out as int)
            &&& grid.height == topk
            &&& grid.depth == 1
            &&& reading::line(reading::group(*final(enc)), 64)
        },
{
    reading::lemma_compiled(ctx, "kernel_moe_swiglu_iq3_s_f32_fast"@);
    reading::lemma_read(*old(enc), *final(enc));
    numeric::law_div_up_covers(n_out, 8);
}

/// SwiGLU of one token through Q6_K banks: 4 rows of a slot to a threadgroup, every
/// slot, on tensors that hold just the token, its experts and their rows.
#[allow(non_snake_case)]
pub proof fn law_moe_swiglu_q6_K_f32(
    enc: &mut KernelEncoder,
    ctx: MetalContext,
    w_gate: MetalTensor,
    w_up: MetalTensor,
    x: MetalTensor,
    topk_idx: MetalTensor,
    inner: MetalTensor,
    n_in: usize,
    n_out: usize,
    n_expert: usize,
    topk: usize,
    result: Result<(), MetalError>,
)
    requires
        call_ensures(
            moe_slots::encode_moe_swiglu_q6_K_f32,
            (
                &ctx, enc, &w_gate, &w_up, &x, &topk_idx, &inner, n_in, n_out, n_expert,
                topk,
            ),
            result,
        ),
    ensures
        reading::granted_just_when(
            *old(enc), *final(enc), result, ctx,
            n_in % 256 == 0
                && w_gate.dtype == GgmlType::Q6_K && w_up.dtype == GgmlType::Q6_K
                && x.count() == n_in
                && topk_idx.count() == topk
                && inner.count() == topk * n_out,
            "moe_swiglu_q6_K"@,
            "kernel_moe_swiglu_q6_K_f32"@,
        ),
        !(n_in % 256 == 0) ==> reading::shows(
            result,
            seq![
                Datum::Int(n_in as int),
                Datum::Int(256),
            ],
        ),
        n_in % 256 == 0 && !(w_gate.dtype == GgmlType::Q6_K && w_up.dtype == GgmlType::Q6_K)
            ==> reading::shows(
            result,
            seq![
                Datum::Dtype(GgmlType::Q6_K),
                Datum::Dtype(w_gate.dtype),
                Datum::Dtype(w_up.dtype),
            ],
        ),
        n_in % 256 == 0 && w_gate.dtype == GgmlType::Q6_K && w_up.dtype == GgmlType::Q6_K
            && !(x.count() == n_in && topk_idx.count() == topk
            && inner.count() == topk * n_out) ==> reading::shows(
            result,
            seq![
                Datum::Int(x.elements() as int),
                Datum::Int(topk_idx.elements() as int),
                Datum::Int(inner.elements() as int),
                Datum::Int(n_in as int),
                Datum::Int(topk as int),
                Datum::Int(topk * n_out),
            ],
        ),
        result is Ok ==> {
            let args = reading::words(*old(enc), *final(enc));
            let grid = reading::grid(*final(enc));
            &&& reading::launched(
                *old(enc), *final(enc),
                seq![
                    reading::at(w_gate),
                    reading::at(w_up),
                    reading::at(x),
                    reading::at(topk_idx),
                    reading::at(inner),
                ],
                seq![],
            )
            &&& reading::kernel(*old(enc), *final(enc)) == "kernel_moe_swiglu_q6_K_f32"@
            &&& args.len() == 4
            &&& args[0] == n_in as u32
            &&& args[1] == n_out as u32
            &&& args[2] == n_expert as u32
            &&& args[3] == topk as u32
            &&& reading::tiles(grid.width, 4, n_out as int)
            &&& grid.height == topk
            &&& grid.depth == 1
            &&& reading::line(reading::group(*final(enc)), 64)
        },
{
    reading::lemma_compiled(ctx, "kernel_moe_swiglu_q6_K_f32"@);
    reading::lemma_read(*old(enc), *final(enc));
    numeric::law_div_up_covers(n_out, 4);
}

/// SwiGLU of one token through Q8_0 banks: 2 rows of a slot to a threadgroup, every
/// slot, on tensors that hold just the token, its experts and their rows.
pub proof fn law_moe_swiglu_q8_0_f32(
    enc: &mut KernelEncoder,
    ctx: MetalContext,
    w_gate: MetalTensor,
    w_up: MetalTensor,
    x: MetalTensor,
    topk_idx: MetalTensor,
    inner: MetalTensor,
    n_in: usize,
    n_out: usize,
    n_expert: usize,
    topk: usize,
    result: Result<(), MetalError>,
)
    requires
        call_ensures(
            moe_slots::encode_moe_swiglu_q8_0_f32,
            (
                &ctx, enc, &w_gate, &w_up, &x, &topk_idx, &inner, n_in, n_out, n_expert,
                topk,
            ),
            result,
        ),
    ensures
        reading::granted_just_when(
            *old(enc), *final(enc), result, ctx,
            n_in % 32 == 0
                && w_gate.dtype == GgmlType::Q8_0 && w_up.dtype == GgmlType::Q8_0
                && x.count() == n_in
                && topk_idx.count() == topk
                && inner.count() == topk * n_out,
            "moe_swiglu_q8_0"@,
            "kernel_moe_swiglu_q8_0_f32"@,
        ),
        !(n_in % 32 == 0) ==> reading::shows(
            result,
            seq![
                Datum::Int(n_in as int),
                Datum::Int(32),
            ],
        ),
        n_in % 32 == 0 && !(w_gate.dtype == GgmlType::Q8_0 && w_up.dtype == GgmlType::Q8_0)
            ==> reading::shows(
            result,
            seq![
                Datum::Dtype(GgmlType::Q8_0),
                Datum::Dtype(w_gate.dtype),
                Datum::Dtype(w_up.dtype),
            ],
        ),
        n_in % 32 == 0 && w_gate.dtype == GgmlType::Q8_0 && w_up.dtype == GgmlType::Q8_0
            && !(x.count() == n_in && topk_idx.count() == topk
            && inner.count() == topk * n_out) ==> reading::shows(
            result,
            seq![
                Datum::Int(x.elements() as int),
                Datum::Int(topk_idx.elements() as int),
                Datum::Int(inner.elements() as int),
                Datum::Int(n_in as int),
                Datum::Int(topk as int),
                Datum::Int(topk * n_out),
            ],
        ),
        result is Ok ==> {
            let args = reading::words(*old(enc), *final(enc));
            let grid = reading::grid(*final(enc));
            &&& reading::launched(
                *old(enc), *final(enc),
                seq![
                    reading::at(w_gate),
                    reading::at(w_up),
                    reading::at(x),
                    reading::at(topk_idx),
                    reading::at(inner),
                ],
                seq![512usize],
            )
            &&& reading::kernel(*old(enc), *final(enc)) == "kernel_moe_swiglu_q8_0_f32"@
            &&& args.len() == 4
            &&& args[0] == n_in as u32
            &&& args[1] == n_out as u32
            &&& args[2] == n_expert as u32
            &&& args[3] == topk as u32
            &&& reading::tiles(grid.width, 2, n_out as int)
            &&& grid.height == topk
            &&& grid.depth == 1
            &&& reading::line(reading::group(*final(enc)), 128)
        },
{
    reading::lemma_compiled(ctx, "kernel_moe_swiglu_q8_0_f32"@);
    reading::lemma_read(*old(enc), *final(enc));
    numeric::law_div_up_covers(n_out, 2);
}

/// SwiGLU through Q4_K banks: 4 rows of a slot to a threadgroup, every slot of
/// every token, on tensors that hold just those.
#[allow(non_snake_case)]
pub proof fn law_moe_swiglu_q4_K_f32(
    enc: &mut KernelEncoder,
    ctx: MetalContext,
    w_gate: MetalTensor,
    w_up: MetalTensor,
    x: MetalTensor,
    topk_idx: MetalTensor,
    inner: MetalTensor,
    n_in: usize,
    n_out: usize,
    n_expert: usize,
    topk: usize,
    result: Result<(), MetalError>,
)
    requires
        call_ensures(
            moe_slots::encode_moe_swiglu_q4_K_f32,
            (
                &ctx, enc, &w_gate, &w_up, &x, &topk_idx, &inner, n_in, n_out, n_expert,
                topk,
            ),
            result,
        ),
    ensures
        reading::granted_just_when(
            *old(enc), *final(enc), result, ctx,
            n_in % 256 == 0
                && w_gate.dtype == GgmlType::Q4_K && w_up.dtype == GgmlType::Q4_K
                && x.count() == 1 * n_in
                && topk_idx.count() == 1 * topk
                && inner.count() == 1 * topk * n_out,
            "moe_swiglu_q4_K"@,
            "kernel_moe_swiglu_q4_K_f32"@,
        ),
        !(n_in % 256 == 0) ==> reading::shows(
            result,
            seq![
                Datum::Int(n_in as int),
                Datum::Int(256),
            ],
        ),
        n_in % 256 == 0 && !(w_gate.dtype == GgmlType::Q4_K && w_up.dtype == GgmlType::Q4_K)
            ==> reading::shows(
            result,
            seq![
                Datum::Dtype(GgmlType::Q4_K),
                Datum::Dtype(w_gate.dtype),
                Datum::Dtype(w_up.dtype),
            ],
        ),
        n_in % 256 == 0 && w_gate.dtype == GgmlType::Q4_K && w_up.dtype == GgmlType::Q4_K
            && !(x.count() == 1 * n_in) ==> reading::shows(
            result,
            seq![
                Datum::Int(x.elements() as int),
                Datum::Int(1 * n_in),
            ],
        ),
        n_in % 256 == 0 && w_gate.dtype == GgmlType::Q4_K && w_up.dtype == GgmlType::Q4_K
            && x.count() == 1 * n_in && !(topk_idx.count() == 1 * topk
            && inner.count() == 1 * topk * n_out) ==> reading::shows(
            result,
            seq![
                Datum::Int(topk_idx.elements() as int),
                Datum::Int(inner.elements() as int),
                Datum::Int(1 * topk),
                Datum::Int(1 * topk * n_out),
            ],
        ),
        result is Ok ==> {
            let args = reading::words(*old(enc), *final(enc));
            let grid = reading::grid(*final(enc));
            &&& reading::launched(
                *old(enc), *final(enc),
                seq![
                    reading::at(w_gate),
                    reading::at(w_up),
                    reading::at(x),
                    reading::at(topk_idx),
                    reading::at(inner),
                ],
                seq![],
            )
            &&& reading::kernel(*old(enc), *final(enc)) == "kernel_moe_swiglu_q4_K_f32"@
            &&& args.len() == 4
            &&& args[0] == n_in as u32
            &&& args[1] == n_out as u32
            &&& args[2] == n_expert as u32
            &&& args[3] == topk as u32
            &&& reading::tiles(grid.width, 4, n_out as int)
            &&& grid.height == 1 * topk
            &&& grid.depth == 1
            &&& reading::line(reading::group(*final(enc)), 64)
        },
{
    reading::lemma_compiled(ctx, "kernel_moe_swiglu_q4_K_f32"@);
    reading::lemma_read(*old(enc), *final(enc));
    numeric::law_div_up_covers(n_out, 4);
}

/// SwiGLU through Q4_K banks: 4 rows of a slot to a threadgroup, every slot of
/// every token, on tensors that hold just those.
#[allow(non_snake_case)]
pub proof fn law_moe_swiglu_q4_K_f32_packed_slots(
    enc: &mut KernelEncoder,
    ctx: MetalContext,
    w_gate: MetalTensor,
    w_up: MetalTensor,
    x_pack: MetalTensor,
    topk_idx_pack: MetalTensor,
    inner: MetalTensor,
    n_in: usize,
    n_out: usize,
    n_expert: usize,
    topk: usize,
    n_tokens: usize,
    result: Result<(), MetalError>,
)
    requires
        call_ensures(
            moe_slots::encode_moe_swiglu_q4_K_f32_packed_slots,
            (
                &ctx, enc, &w_gate, &w_up, &x_pack, &topk_idx_pack, &inner, n_in, n_out,
                n_expert, topk, n_tokens,
            ),
            result,
        ),
    ensures
        reading::granted_just_when(
            *old(enc), *final(enc), result, ctx,
            n_in % 256 == 0
                && w_gate.dtype == GgmlType::Q4_K && w_up.dtype == GgmlType::Q4_K
                && x_pack.count() == n_tokens * n_in
                && topk_idx_pack.count() == n_tokens * topk
                && inner.count() == n_tokens * topk * n_out,
            "moe_swiglu_q4_K_packed_slots"@,
            "kernel_moe_swiglu_q4_K_f32_packed_slots"@,
        ),
        !(n_in % 256 == 0) ==> reading::shows(
            result,
            seq![
                Datum::Int(n_in as int),
                Datum::Int(256),
            ],
        ),
        n_in % 256 == 0 && !(w_gate.dtype == GgmlType::Q4_K && w_up.dtype == GgmlType::Q4_K)
            ==> reading::shows(
            result,
            seq![
                Datum::Dtype(GgmlType::Q4_K),
                Datum::Dtype(w_gate.dtype),
                Datum::Dtype(w_up.dtype),
            ],
        ),
        n_in % 256 == 0 && w_gate.dtype == GgmlType::Q4_K && w_up.dtype == GgmlType::Q4_K
            && !(x_pack.count() == n_tokens * n_in) ==> reading::shows(
            result,
            seq![
                Datum::Int(x_pack.elements() as int),
                Datum::Int(n_tokens * n_in),
            ],
        ),
        n_in % 256 == 0 && w_gate.dtype == GgmlType::Q4_K && w_up.dtype == GgmlType::Q4_K
            && x_pack.count() == n_tokens * n_in && !(topk_idx_pack.count() == n_tokens * topk
            && inner.count() == n_tokens * topk * n_out) ==> reading::shows(
            result,
            seq![
                Datum::Int(topk_idx_pack.elements() as int),
                Datum::Int(inner.elements() as int),
                Datum::Int(n_tokens * topk),
                Datum::Int(n_tokens * topk * n_out),
            ],
        ),
        result is Ok ==> {
            let args = reading::words(*old(enc), *final(enc));
            let grid = reading::grid(*final(enc));
            &&& reading::launched(
                *old(enc), *final(enc),
                seq![
                    reading::at(w_gate),
                    reading::at(w_up),
                    reading::at(x_pack),
                    reading::at(topk_idx_pack),
                    reading::at(inner),
                ],
                seq![],
            )
            &&& reading::kernel(*old(enc), *final(enc))
                == "kernel_moe_swiglu_q4_K_f32_packed_slots"@
            &&& args.len() == 4
            &&& args[0] == n_in as u32
            &&& args[1] == n_out as u32
            &&& args[2] == n_expert as u32
            &&& args[3] == topk as u32
            &&& reading::tiles(grid.width, 4, n_out as int)
            &&& grid.height == n_tokens * topk
            &&& grid.depth == 1
            &&& reading::line(reading::group(*final(enc)), 64)
        },
{
    reading::lemma_compiled(ctx, "kernel_moe_swiglu_q4_K_f32_packed_slots"@);
    reading::lemma_read(*old(enc), *final(enc));
    numeric::law_div_up_covers(n_out, 4);
}

/// The down projection through a Q4_K bank: 4 rows of a slot to a threadgroup,
/// every slot, from one inner row to one output row each.
#[allow(non_snake_case)]
pub proof fn law_moe_down_q4_K_f32(
    enc: &mut KernelEncoder,
    ctx: MetalContext,
    weight: MetalTensor,
    inner: MetalTensor,
    topk_idx: MetalTensor,
    expert_out: MetalTensor,
    n_in: usize,
    n_out: usize,
    n_expert: usize,
    topk: usize,
    result: Result<(), MetalError>,
)
    requires
        call_ensures(
            moe_slots::encode_moe_down_q4_K_f32,
            (
                &ctx, enc, &weight, &inner, &topk_idx, &expert_out, n_in, n_out, n_expert,
                topk,
            ),
            result,
        ),
    ensures
        reading::granted_just_when(
            *old(enc), *final(enc), result, ctx,
            n_in % 256 == 0
                && weight.dtype == GgmlType::Q4_K
                && inner.count() == topk * n_in
                && topk_idx.count() == topk
                && expert_out.count() == topk * n_out,
            "moe_down_q4_K"@,
            "kernel_moe_down_q4_K_f32"@,
        ),
        !(n_in % 256 == 0) ==> reading::shows(
            result,
            seq![
                Datum::Int(n_in as int),
                Datum::Int(256),
            ],
        ),
        n_in % 256 == 0 && !(weight.dtype == GgmlType::Q4_K) ==> reading::shows(
            result,
            seq![
                Datum::Dtype(GgmlType::Q4_K),
                Datum::Dtype(weight.dtype),
            ],
        ),
        n_in % 256 == 0 && weight.dtype == GgmlType::Q4_K && !(inner.count() == topk * n_in
            && topk_idx.count() == topk && expert_out.count() == topk * n_out)
            ==> reading::shows(
            result,
            seq![
                Datum::Int(inner.elements() as int),
                Datum::Int(topk_idx.elements() as int),
                Datum::Int(expert_out.elements() as int),
                Datum::Int(topk * n_in),
                Datum::Int(topk as int),
                Datum::Int(topk * n_out),
            ],
        ),
        result is Ok ==> {
            let args = reading::words(*old(enc), *final(enc));
            let grid = reading::grid(*final(enc));
            &&& reading::launched(
                *old(enc), *final(enc),
                seq![
                    reading::at(weight),
                    reading::at(inner),
                    reading::at(topk_idx),
                    reading::at(expert_out),
                ],
                seq![],
            )
            &&& reading::kernel(*old(enc), *final(enc)) == "kernel_moe_down_q4_K_f32"@
            &&& args.len() == 4
            &&& args[0] == n_in as u32
            &&& args[1] == n_out as u32
            &&& args[2] == n_expert as u32
            &&& args[3] == topk as u32
            &&& reading::tiles(grid.width, 4, n_out as int)
            &&& grid.height == topk
            &&& grid.depth == 1
            &&& reading::line(reading::group(*final(enc)), 64)
        },
{
    reading::lemma_compiled(ctx, "kernel_moe_down_q4_K_f32"@);
    reading::lemma_read(*old(enc), *final(enc));
    numeric::law_div_up_covers(n_out, 4);
}

/// The down projection through a Q5_K bank: 2 rows of a slot to a threadgroup,
/// every slot, from one inner row to one output row each.
#[allow(non_snake_case)]
pub proof fn law_moe_down_q5_K_f32(
    enc: &mut KernelEncoder,
    ctx: MetalContext,
    weight: MetalTensor,
    inner: MetalTensor,
    topk_idx: MetalTensor,
    expert_out: MetalTensor,
    n_in: usize,
    n_out: usize,
    n_expert: usize,
    topk: usize,
    result: Result<(), MetalError>,
)
    requires
        call_ensures(
            moe_slots::encode_moe_down_q5_K_f32,
            (
                &ctx, enc, &weight, &inner, &topk_idx, &expert_out, n_in, n_out, n_expert,
                topk,
            ),
            result,
        ),
    ensures
        reading::granted_just_when(
            *old(enc), *final(enc), result, ctx,
            n_in % 256 == 0
                && weight.dtype == GgmlType::Q5_K
                && inner.count() == topk * n_in
                && topk_idx.count() == topk
                && expert_out.count() == topk * n_out,
            "moe_down_q5_K"@,
            "kernel_moe_down_q5_K_f32"@,
        ),
        !(n_in % 256 == 0) ==> reading::shows(
            result,
            seq![
                Datum::Int(n_in as int),
                Datum::Int(256),
            ],
        ),
        n_in % 256 == 0 && !(weight.dtype == GgmlType::Q5_K) ==> reading::shows(
            result,
            seq![
                Datum::Dtype(GgmlType::Q5_K),
                Datum::Dtype(weight.dtype),
            ],
        ),
        n_in % 256 == 0 && weight.dtype == GgmlType::Q5_K && !(inner.count() == topk * n_in
            && topk_idx.count() == topk && expert_out.count() == topk * n_out)
            ==> reading::shows(
            result,
            seq![
                Datum::Int(inner.elements() as int),
                Datum::Int(topk_idx.elements() as int),
                Datum::Int(expert_out.elements() as int),
                Datum::Int(topk * n_in),
                Datum::Int(topk as int),
                Datum::Int(topk * n_out),
            ],
        ),
        result is Ok ==> {
            let args = reading::words(*old(enc), *final(enc));
            let grid = reading::grid(*final(enc));
            &&& reading::launched(
                *old(enc), *final(enc),
                seq![
                    reading::at(weight),
                    reading::at(inner),
                    reading::at(topk_idx),
                    reading::at(expert_out),
                ],
                seq![],
            )
            &&& reading::kernel(*old(enc), *final(enc)) == "kernel_moe_down_q5_K_f32"@
            &&& args.len() == 4
            &&& args[0] == n_in as u32
            &&& args[1] == n_out as u32
            &&& args[2] == n_expert as u32
            &&& args[3] == topk as u32
            &&& reading::tiles(grid.width, 2, n_out as int)
            &&& grid.height == topk
            &&& grid.depth == 1
            &&& reading::line(reading::group(*final(enc)), 64)
        },
{
    reading::lemma_compiled(ctx, "kernel_moe_down_q5_K_f32"@);
    reading::lemma_read(*old(enc), *final(enc));
    numeric::law_div_up_covers(n_out, 2);
}

/// The down projection through a F32 bank: 4 rows of a slot to a threadgroup, every
/// slot, from one inner row to one output row each.
pub proof fn law_moe_down_f32_f32(
    enc: &mut KernelEncoder,
    ctx: MetalContext,
    weight: MetalTensor,
    inner: MetalTensor,
    topk_idx: MetalTensor,
    expert_out: MetalTensor,
    n_in: usize,
    n_out: usize,
    n_expert: usize,
    topk: usize,
    result: Result<(), MetalError>,
)
    requires
        call_ensures(
            moe_slots::encode_moe_down_f32_f32,
            (
                &ctx, enc, &weight, &inner, &topk_idx, &expert_out, n_in, n_out, n_expert,
                topk,
            ),
            result,
        ),
    ensures
        reading::granted_just_when(
            *old(enc), *final(enc), result, ctx,
            n_in % 1 == 0
                && weight.dtype == GgmlType::F32
                && inner.count() == topk * n_in
                && topk_idx.count() == topk
                && expert_out.count() == topk * n_out,
            "moe_down_f32"@,
            "kernel_moe_down_f32_f32"@,
        ),
        !(n_in % 1 == 0) ==> reading::shows(
            result,
            seq![
                Datum::Int(n_in as int),
                Datum::Int(1),
            ],
        ),
        n_in % 1 == 0 && !(weight.dtype == GgmlType::F32) ==> reading::shows(
            result,
            seq![
                Datum::Dtype(GgmlType::F32),
                Datum::Dtype(weight.dtype),
            ],
        ),
        n_in % 1 == 0 && weight.dtype == GgmlType::F32 && !(inner.count() == topk * n_in
            && topk_idx.count() == topk && expert_out.count() == topk * n_out)
            ==> reading::shows(
            result,
            seq![
                Datum::Int(inner.elements() as int),
                Datum::Int(topk_idx.elements() as int),
                Datum::Int(expert_out.elements() as int),
                Datum::Int(topk * n_in),
                Datum::Int(topk as int),
                Datum::Int(topk * n_out),
            ],
        ),
        result is Ok ==> {
            let args = reading::words(*old(enc), *final(enc));
            let grid = reading::grid(*final(enc));
            &&& reading::launched(
                *old(enc), *final(enc),
                seq![
                    reading::at(weight),
                    reading::at(inner),
                    reading::at(topk_idx),
                    reading::at(expert_out),
                ],
                seq![],
            )
            &&& reading::kernel(*old(enc), *final(enc)) == "kernel_moe_down_f32_f32"@
            &&& args.len() == 4
            &&& args[0] == n_in as u32
            &&& args[1] == n_out as u32
            &&& args[2] == n_expert as u32
            &&& args[3] == topk as u32
            &&& reading::tiles(grid.width, 4, n_out as int)
            &&& grid.height == topk
            &&& grid.depth == 1
            &&& reading::line(reading::group(*final(enc)), 128)
        },
{
    reading::lemma_compiled(ctx, "kernel_moe_down_f32_f32"@);
    reading::lemma_read(*old(enc), *final(enc));
    numeric::law_div_up_covers(n_out, 4);
}

/// The down projection through a BF16 bank: 4 rows of a slot to a threadgroup,
/// every slot, from one inner row to one output row each.
pub proof fn law_moe_down_bf16_f32(
    enc: &mut KernelEncoder,
    ctx: MetalContext,
    weight: MetalTensor,
    inner: MetalTensor,
    topk_idx: MetalTensor,
    expert_out: MetalTensor,
    n_in: usize,
    n_out: usize,
    n_expert: usize,
    topk: usize,
    result: Result<(), MetalError>,
)
    requires
        call_ensures(
            moe_slots::encode_moe_down_bf16_f32,
            (
                &ctx, enc, &weight, &inner, &topk_idx, &expert_out, n_in, n_out, n_expert,
                topk,
            ),
            result,
        ),
    ensures
        reading::granted_just_when(
            *old(enc), *final(enc), result, ctx,
            n_in % 1 == 0
                && weight.dtype == GgmlType::BF16
                && inner.count() == topk * n_in
                && topk_idx.count() == topk
                && expert_out.count() == topk * n_out,
            "moe_down_bf16"@,
            "kernel_moe_down_bf16_f32"@,
        ),
        !(n_in % 1 == 0) ==> reading::shows(
            result,
            seq![
                Datum::Int(n_in as int),
                Datum::Int(1),
            ],
        ),
        n_in % 1 == 0 && !(weight.dtype == GgmlType::BF16) ==> reading::shows(
            result,
            seq![
                Datum::Dtype(GgmlType::BF16),
                Datum::Dtype(weight.dtype),
            ],
        ),
        n_in % 1 == 0 && weight.dtype == GgmlType::BF16 && !(inner.count() == topk * n_in
            && topk_idx.count() == topk && expert_out.count() == topk * n_out)
            ==> reading::shows(
            result,
            seq![
                Datum::Int(inner.elements() as int),
                Datum::Int(topk_idx.elements() as int),
                Datum::Int(expert_out.elements() as int),
                Datum::Int(topk * n_in),
                Datum::Int(topk as int),
                Datum::Int(topk * n_out),
            ],
        ),
        result is Ok ==> {
            let args = reading::words(*old(enc), *final(enc));
            let grid = reading::grid(*final(enc));
            &&& reading::launched(
                *old(enc), *final(enc),
                seq![
                    reading::at(weight),
                    reading::at(inner),
                    reading::at(topk_idx),
                    reading::at(expert_out),
                ],
                seq![],
            )
            &&& reading::kernel(*old(enc), *final(enc)) == "kernel_moe_down_bf16_f32"@
            &&& args.len() == 4
            &&& args[0] == n_in as u32
            &&& args[1] == n_out as u32
            &&& args[2] == n_expert as u32
            &&& args[3] == topk as u32
            &&& reading::tiles(grid.width, 4, n_out as int)
            &&& grid.height == topk
            &&& grid.depth == 1
            &&& reading::line(reading::group(*final(enc)), 128)
        },
{
    reading::lemma_compiled(ctx, "kernel_moe_down_bf16_f32"@);
    reading::lemma_read(*old(enc), *final(enc));
    numeric::law_div_up_covers(n_out, 4);
}

/// The down projection through a IQ4_XS bank: 4 rows of a slot to a threadgroup,
/// every slot, from one inner row to one output row each.
pub proof fn law_moe_down_iq4_xs_f32(
    enc: &mut KernelEncoder,
    ctx: MetalContext,
    weight: MetalTensor,
    inner: MetalTensor,
    topk_idx: MetalTensor,
    expert_out: MetalTensor,
    n_in: usize,
    n_out: usize,
    n_expert: usize,
    topk: usize,
    result: Result<(), MetalError>,
)
    requires
        call_ensures(
            moe_slots::encode_moe_down_iq4_xs_f32,
            (
                &ctx, enc, &weight, &inner, &topk_idx, &expert_out, n_in, n_out, n_expert,
                topk,
            ),
            result,
        ),
    ensures
        reading::granted_just_when(
            *old(enc), *final(enc), result, ctx,
            n_in % 256 == 0
                && weight.dtype == GgmlType::IQ4_XS
                && inner.count() == topk * n_in
                && topk_idx.count() == topk
                && expert_out.count() == topk * n_out,
            "moe_down_iq4_xs"@,
            "kernel_moe_down_iq4_xs_f32"@,
        ),
        !(n_in % 256 == 0) ==> reading::shows(
            result,
            seq![
                Datum::Int(n_in as int),
                Datum::Int(256),
            ],
        ),
        n_in % 256 == 0 && !(weight.dtype == GgmlType::IQ4_XS) ==> reading::shows(
            result,
            seq![
                Datum::Dtype(GgmlType::IQ4_XS),
                Datum::Dtype(weight.dtype),
            ],
        ),
        n_in % 256 == 0 && weight.dtype == GgmlType::IQ4_XS && !(inner.count() == topk * n_in
            && topk_idx.count() == topk && expert_out.count() == topk * n_out)
            ==> reading::shows(
            result,
            seq![
                Datum::Int(inner.elements() as int),
                Datum::Int(topk_idx.elements() as int),
                Datum::Int(expert_out.elements() as int),
                Datum::Int(topk * n_in),
                Datum::Int(topk as int),
                Datum::Int(topk * n_out),
            ],
        ),
        result is Ok ==> {
            let args = reading::words(*old(enc), *final(enc));
            let grid = reading::grid(*final(enc));
            &&& reading::launched(
                *old(enc), *final(enc),
                seq![
                    reading::at(weight),
                    reading::at(inner),
                    reading::at(topk_idx),
                    reading::at(expert_out),
                ],
                seq![],
            )
            &&& reading::kernel(*old(enc), *final(enc)) == "kernel_moe_down_iq4_xs_f32"@
            &&& args.len() == 4
            &&& args[0] == n_in as u32
            &&& args[1] == n_out as u32
            &&& args[2] == n_expert as u32
            &&& args[3] == topk as u32
            &&& reading::tiles(grid.width, 4, n_out as int)
            &&& grid.height == topk
            &&& grid.depth == 1
            &&& reading::line(reading::group(*final(enc)), 128)
        },
{
    reading::lemma_compiled(ctx, "kernel_moe_down_iq4_xs_f32"@);
    reading::lemma_read(*old(enc), *final(enc));
    numeric::law_div_up_covers(n_out, 4);
}

/// The down projection through a IQ4_XS bank: 4 rows of a slot to a threadgroup,
/// every slot, from one inner row to one output row each.
pub proof fn law_moe_down_iq4_xs_f32_fast(
    enc: &mut KernelEncoder,
    ctx: MetalContext,
    weight: MetalTensor,
    inner: MetalTensor,
    topk_idx: MetalTensor,
    expert_out: MetalTensor,
    n_in: usize,
    n_out: usize,
    n_expert: usize,
    topk: usize,
    result: Result<(), MetalError>,
)
    requires
        call_ensures(
            moe_slots::encode_moe_down_iq4_xs_f32_fast,
            (
                &ctx, enc, &weight, &inner, &topk_idx, &expert_out, n_in, n_out, n_expert,
                topk,
            ),
            result,
        ),
    ensures
        reading::granted_just_when(
            *old(enc), *final(enc), result, ctx,
            n_in % 256 == 0
                && weight.dtype == GgmlType::IQ4_XS
                && inner.count() == topk * n_in
                && topk_idx.count() == topk
                && expert_out.count() == topk * n_out,
            "moe_down_iq4_xs_fast"@,
            "kernel_moe_down_iq4_xs_f32_fast"@,
        ),
        !(n_in % 256 == 0) ==> reading::shows(
            result,
            seq![
                Datum::Int(n_in as int),
                Datum::Int(256),
            ],
        ),
        n_in % 256 == 0 && !(weight.dtype == GgmlType::IQ4_XS) ==> reading::shows(
            result,
            seq![
                Datum::Dtype(GgmlType::IQ4_XS),
                Datum::Dtype(weight.dtype),
            ],
        ),
        n_in % 256 == 0 && weight.dtype == GgmlType::IQ4_XS && !(inner.count() == topk * n_in
            && topk_idx.count() == topk && expert_out.count() == topk * n_out)
            ==> reading::shows(
            result,
            seq![
                Datum::Int(inner.elements() as int),
                Datum::Int(topk_idx.elements() as int),
                Datum::Int(expert_out.elements() as int),
                Datum::Int(topk * n_in),
                Datum::Int(topk as int),
                Datum::Int(topk * n_out),
            ],
        ),
        result is Ok ==> {
            let args = reading::words(*old(enc), *final(enc));
            let grid = reading::grid(*final(enc));
            &&& reading::launched(
                *old(enc), *final(enc),
                seq![
                    reading::at(weight),
                    reading::at(inner),
                    reading::at(topk_idx),
                    reading::at(expert_out),
                ],
                seq![128usize],
            )
            &&& reading::kernel(*old(enc), *final(enc)) == "kernel_moe_down_iq4_xs_f32_fast"@
            &&& args.len() == 4
            &&& args[0] == n_in as u32
            &&& args[1] == n_out as u32
            &&& args[2] == n_expert as u32
            &&& args[3] == topk as u32
            &&& reading::tiles(grid.width, 4, n_out as int)
            &&& grid.height == topk
            &&& grid.depth == 1
            &&& reading::line(reading::group(*final(enc)), 64)
        },
{
    reading::lemma_compiled(ctx, "kernel_moe_down_iq4_xs_f32_fast"@);
    reading::lemma_read(*old(enc), *final(enc));
    numeric::law_div_up_covers(n_out, 4);
}

/// The down projection through a Q5_K bank: 2 rows of a slot to a threadgroup,
/// every slot, from one inner row to one output row each.
#[allow(non_snake_case)]
pub proof fn law_moe_down_q5_K_f32_grouped_rows(
    enc: &mut KernelEncoder,
    ctx: MetalContext,
    weight: MetalTensor,
    inner: MetalTensor,
    expert_idx: MetalTensor,
    out: MetalTensor,
    n_in: usize,
    n_out: usize,
    n_expert: usize,
    n_rows: usize,
    result: Result<(), MetalError>,
)
    requires
        call_ensures(
            moe_slots::encode_moe_down_q5_K_f32_grouped_rows,
            (
                &ctx, enc, &weight, &inner, &expert_idx, &out, n_in, n_out, n_expert,
                n_rows,
            ),
            result,
        ),
    ensures
        reading::granted_just_when(
            *old(enc), *final(enc), result, ctx,
            n_in % 256 == 0
                && weight.dtype == GgmlType::Q5_K
                && inner.count() == n_rows * n_in
                && expert_idx.count() == n_rows
                && out.count() == n_rows * n_out,
            "moe_down_q5_K_grouped_rows"@,
            "kernel_moe_down_q5_K_f32_grouped_rows"@,
        ),
        !(n_in % 256 == 0) ==> reading::shows(
            result,
            seq![
                Datum::Int(n_in as int),
                Datum::Int(256),
            ],
        ),
        n_in % 256 == 0 && !(weight.dtype == GgmlType::Q5_K) ==> reading::shows(
            result,
            seq![
                Datum::Dtype(GgmlType::Q5_K),
                Datum::Dtype(weight.dtype),
            ],
        ),
        n_in % 256 == 0 && weight.dtype == GgmlType::Q5_K && !(inner.count() == n_rows * n_in
            && expert_idx.count() == n_rows && out.count() == n_rows * n_out)
            ==> reading::shows(
            result,
            seq![
                Datum::Int(inner.elements() as int),
                Datum::Int(expert_idx.elements() as int),
                Datum::Int(out.elements() as int),
                Datum::Int(n_rows * n_in),
                Datum::Int(n_rows as int),
                Datum::Int(n_rows * n_out),
            ],
        ),
        result is Ok ==> {
            let args = reading::words(*old(enc), *final(enc));
            let grid = reading::grid(*final(enc));
            &&& reading::launched(
                *old(enc), *final(enc),
                seq![
                    reading::at(weight),
                    reading::at(inner),
                    reading::at(expert_idx),
                    reading::at(out),
                ],
                seq![],
            )
            &&& reading::kernel(*old(enc), *final(enc)) == "kernel_moe_down_q5_K_f32_grouped_rows"@
            &&& args.len() == 4
            &&& args[0] == n_in as u32
            &&& args[1] == n_out as u32
            &&& args[2] == n_expert as u32
            &&& args[3] == 0
            &&& reading::tiles(grid.width, 2, n_out as int)
            &&& grid.height == n_rows
            &&& grid.depth == 1
            &&& reading::line(reading::group(*final(enc)), 64)
        },
{
    reading::lemma_compiled(ctx, "kernel_moe_down_q5_K_f32_grouped_rows"@);
    reading::lemma_read(*old(enc), *final(enc));
    numeric::law_div_up_covers(n_out, 2);
}

/// One input through the chosen experts of a Q5_K bank: 2 rows of a slot to a
/// threadgroup, every slot.
#[allow(non_snake_case)]
pub proof fn law_moe_mat_vec_q5_K_f32(
    enc: &mut KernelEncoder,
    ctx: MetalContext,
    weight: MetalTensor,
    x: MetalTensor,
    topk_idx: MetalTensor,
    out: MetalTensor,
    n_in: usize,
    n_out: usize,
    n_expert: usize,
    topk: usize,
    result: Result<(), MetalError>,
)
    requires
        call_ensures(
            moe_slots::encode_moe_mat_vec_q5_K_f32,
            (
                &ctx, enc, &weight, &x, &topk_idx, &out, n_in, n_out, n_expert, topk,
            ),
            result,
        ),
    ensures
        reading::granted_just_when(
            *old(enc), *final(enc), result, ctx,
            n_in % 256 == 0
                && weight.dtype == GgmlType::Q5_K
                && x.count() == n_in
                && topk_idx.count() == topk
                && out.count() == topk * n_out,
            "moe_mat_vec_q5_K"@,
            "kernel_moe_mat_vec_q5_K_f32"@,
        ),
        !(n_in % 256 == 0) ==> reading::shows(
            result,
            seq![
                Datum::Int(n_in as int),
                Datum::Int(256),
            ],
        ),
        n_in % 256 == 0 && !(weight.dtype == GgmlType::Q5_K) ==> reading::shows(
            result,
            seq![
                Datum::Dtype(GgmlType::Q5_K),
                Datum::Dtype(weight.dtype),
            ],
        ),
        n_in % 256 == 0 && weight.dtype == GgmlType::Q5_K && !(x.count() == n_in
            && topk_idx.count() == topk && out.count() == topk * n_out) ==> reading::shows(
            result,
            seq![
                Datum::Int(x.elements() as int),
                Datum::Int(topk_idx.elements() as int),
                Datum::Int(out.elements() as int),
                Datum::Int(n_in as int),
                Datum::Int(topk as int),
                Datum::Int(topk * n_out),
            ],
        ),
        result is Ok ==> {
            let args = reading::words(*old(enc), *final(enc));
            let grid = reading::grid(*final(enc));
            &&& reading::launched(
                *old(enc), *final(enc),
                seq![reading::at(weight), reading::at(x), reading::at(topk_idx), reading::at(out)],
                seq![],
            )
            &&& reading::kernel(*old(enc), *final(enc)) == "kernel_moe_mat_vec_q5_K_f32"@
            &&& args.len() == 4
            &&& args[0] == n_in as u32
            &&& args[1] == n_out as u32
            &&& args[2] == n_expert as u32
            &&& args[3] == topk as u32
            &&& reading::tiles(grid.width, 2, n_out as int)
            &&& grid.height == topk
            &&& grid.depth == 1
            &&& reading::line(reading::group(*final(enc)), 64)
        },
{
    reading::lemma_compiled(ctx, "kernel_moe_mat_vec_q5_K_f32"@);
    reading::lemma_read(*old(enc), *final(enc));
    numeric::law_div_up_covers(n_out, 2);
}

/// One input through the chosen experts of a IQ3_XXS bank: 2 rows of a slot to a
/// threadgroup, every slot.
pub proof fn law_moe_mat_vec_iq3_xxs_f32(
    enc: &mut KernelEncoder,
    ctx: MetalContext,
    weight: MetalTensor,
    x: MetalTensor,
    topk_idx: MetalTensor,
    out: MetalTensor,
    n_in: usize,
    n_out: usize,
    n_expert: usize,
    topk: usize,
    result: Result<(), MetalError>,
)
    requires
        call_ensures(
            moe_slots::encode_moe_mat_vec_iq3_xxs_f32,
            (
                &ctx, enc, &weight, &x, &topk_idx, &out, n_in, n_out, n_expert, topk,
            ),
            result,
        ),
    ensures
        reading::granted_just_when(
            *old(enc), *final(enc), result, ctx,
            n_in % 256 == 0
                && weight.dtype == GgmlType::IQ3_XXS
                && x.count() == n_in
                && topk_idx.count() == topk
                && out.count() == topk * n_out,
            "moe_mat_vec_iq3_xxs"@,
            "kernel_moe_mat_vec_iq3_xxs_f32"@,
        ),
        !(n_in % 256 == 0) ==> reading::shows(
            result,
            seq![
                Datum::Int(n_in as int),
                Datum::Int(256),
            ],
        ),
        n_in % 256 == 0 && !(weight.dtype == GgmlType::IQ3_XXS) ==> reading::shows(
            result,
            seq![
                Datum::Dtype(GgmlType::IQ3_XXS),
                Datum::Dtype(weight.dtype),
            ],
        ),
        n_in % 256 == 0 && weight.dtype == GgmlType::IQ3_XXS && !(x.count() == n_in
            && topk_idx.count() == topk && out.count() == topk * n_out) ==> reading::shows(
            result,
            seq![
                Datum::Int(x.elements() as int),
                Datum::Int(topk_idx.elements() as int),
                Datum::Int(out.elements() as int),
                Datum::Int(n_in as int),
                Datum::Int(topk as int),
                Datum::Int(topk * n_out),
            ],
        ),
        result is Ok ==> {
            let args = reading::words(*old(enc), *final(enc));
            let grid = reading::grid(*final(enc));
            &&& reading::launched(
                *old(enc), *final(enc),
                seq![reading::at(weight), reading::at(x), reading::at(topk_idx), reading::at(out)],
                seq![],
            )
            &&& reading::kernel(*old(enc), *final(enc)) == "kernel_moe_mat_vec_iq3_xxs_f32"@
            &&& args.len() == 4
            &&& args[0] == n_in as u32
            &&& args[1] == n_out as u32
            &&& args[2] == n_expert as u32
            &&& args[3] == topk as u32
            &&& reading::tiles(grid.width, 2, n_out as int)
            &&& grid.height == topk
            &&& grid.depth == 1
            &&& reading::line(reading::group(*final(enc)), 64)
        },
{
    reading::lemma_compiled(ctx, "kernel_moe_mat_vec_iq3_xxs_f32"@);
    reading::lemma_read(*old(enc), *final(enc));
    numeric::law_div_up_covers(n_out, 2);
}

/// One input through the chosen experts of a IQ3_S bank: 2 rows of a slot to a
/// threadgroup, every slot.
pub proof fn law_moe_mat_vec_iq3_s_f32(
    enc: &mut KernelEncoder,
    ctx: MetalContext,
    weight: MetalTensor,
    x: MetalTensor,
    topk_idx: MetalTensor,
    out: MetalTensor,
    n_in: usize,
    n_out: usize,
    n_expert: usize,
    topk: usize,
    result: Result<(), MetalError>,
)
    requires
        call_ensures(
            moe_slots::encode_moe_mat_vec_iq3_s_f32,
            (
                &ctx, enc, &weight, &x, &topk_idx, &out, n_in, n_out, n_expert, topk,
            ),
            result,
        ),
    ensures
        reading::granted_just_when(
            *old(enc), *final(enc), result, ctx,
            n_in % 256 == 0
                && weight.dtype == GgmlType::IQ3_S
                && x.count() == n_in
                && topk_idx.count() == topk
                && out.count() == topk * n_out,
            "moe_mat_vec_iq3_s"@,
            "kernel_moe_mat_vec_iq3_s_f32"@,
        ),
        !(n_in % 256 == 0) ==> reading::shows(
            result,
            seq![
                Datum::Int(n_in as int),
                Datum::Int(256),
            ],
        ),
        n_in % 256 == 0 && !(weight.dtype == GgmlType::IQ3_S) ==> reading::shows(
            result,
            seq![
                Datum::Dtype(GgmlType::IQ3_S),
                Datum::Dtype(weight.dtype),
            ],
        ),
        n_in % 256 == 0 && weight.dtype == GgmlType::IQ3_S && !(x.count() == n_in
            && topk_idx.count() == topk && out.count() == topk * n_out) ==> reading::shows(
            result,
            seq![
                Datum::Int(x.elements() as int),
                Datum::Int(topk_idx.elements() as int),
                Datum::Int(out.elements() as int),
                Datum::Int(n_in as int),
                Datum::Int(topk as int),
                Datum::Int(topk * n_out),
            ],
        ),
        result is Ok ==> {
            let args = reading::words(*old(enc), *final(enc));
            let grid = reading::grid(*final(enc));
            &&& reading::launched(
                *old(enc), *final(enc),
                seq![reading::at(weight), reading::at(x), reading::at(topk_idx), reading::at(out)],
                seq![],
            )
            &&& reading::kernel(*old(enc), *final(enc)) == "kernel_moe_mat_vec_iq3_s_f32"@
            &&& args.len() == 4
            &&& args[0] == n_in as u32
            &&& args[1] == n_out as u32
            &&& args[2] == n_expert as u32
            &&& args[3] == topk as u32
            &&& reading::tiles(grid.width, 2, n_out as int)
            &&& grid.height == topk
            &&& grid.depth == 1
            &&& reading::line(reading::group(*final(enc)), 64)
        },
{
    reading::lemma_compiled(ctx, "kernel_moe_mat_vec_iq3_s_f32"@);
    reading::lemma_read(*old(enc), *final(enc));
    numeric::law_div_up_covers(n_out, 2);
}

/// One input through the chosen experts of a F32 bank: 4 rows of a slot to a
/// threadgroup, every slot.
pub proof fn law_moe_mat_vec_f32(
    enc: &mut KernelEncoder,
    ctx: MetalContext,
    weight: MetalTensor,
    x: MetalTensor,
    topk_idx: MetalTensor,
    out: MetalTensor,
    n_in: usize,
    n_out: usize,
    n_expert: usize,
    topk: usize,
    result: Result<(), MetalError>,
)
    requires
        call_ensures(
            moe_slots::encode_moe_mat_vec_f32,
            (
                &ctx, enc, &weight, &x, &topk_idx, &out, n_in, n_out, n_expert, topk,
            ),
            result,
        ),
    ensures
        reading::granted_just_when(
            *old(enc), *final(enc), result, ctx,
            n_in % 1 == 0
                && weight.dtype == GgmlType::F32
                && x.count() == n_in
                && topk_idx.count() == topk
                && out.count() == topk * n_out,
            "moe_mat_vec_f32"@,
            "kernel_moe_mat_vec_f32_f32"@,
        ),
        !(n_in % 1 == 0) ==> reading::shows(
            result,
            seq![
                Datum::Int(n_in as int),
                Datum::Int(1),
            ],
        ),
        n_in % 1 == 0 && !(weight.dtype == GgmlType::F32) ==> reading::shows(
            result,
            seq![
                Datum::Dtype(GgmlType::F32),
                Datum::Dtype(weight.dtype),
            ],
        ),
        n_in % 1 == 0 && weight.dtype == GgmlType::F32 && !(x.count() == n_in
            && topk_idx.count() == topk && out.count() == topk * n_out) ==> reading::shows(
            result,
            seq![
                Datum::Int(x.elements() as int),
                Datum::Int(topk_idx.elements() as int),
                Datum::Int(out.elements() as int),
                Datum::Int(n_in as int),
                Datum::Int(topk as int),
                Datum::Int(topk * n_out),
            ],
        ),
        result is Ok ==> {
            let args = reading::words(*old(enc), *final(enc));
            let grid = reading::grid(*final(enc));
            &&& reading::launched(
                *old(enc), *final(enc),
                seq![reading::at(weight), reading::at(x), reading::at(topk_idx), reading::at(out)],
                seq![],
            )
            &&& reading::kernel(*old(enc), *final(enc)) == "kernel_moe_mat_vec_f32_f32"@
            &&& args.len() == 4
            &&& args[0] == n_in as u32
            &&& args[1] == n_out as u32
            &&& args[2] == n_expert as u32
            &&& args[3] == topk as u32
            &&& reading::tiles(grid.width, 4, n_out as int)
            &&& grid.height == topk
            &&& grid.depth == 1
            &&& reading::line(reading::group(*final(enc)), 128)
        },
{
    reading::lemma_compiled(ctx, "kernel_moe_mat_vec_f32_f32"@);
    reading::lemma_read(*old(enc), *final(enc));
    numeric::law_div_up_covers(n_out, 4);
}

/// One input through the chosen experts of a BF16 bank: 4 rows of a slot to a
/// threadgroup, every slot.
pub proof fn law_moe_mat_vec_bf16_f32(
    enc: &mut KernelEncoder,
    ctx: MetalContext,
    weight: MetalTensor,
    x: MetalTensor,
    topk_idx: MetalTensor,
    out: MetalTensor,
    n_in: usize,
    n_out: usize,
    n_expert: usize,
    topk: usize,
    result: Result<(), MetalError>,
)
    requires
        call_ensures(
            moe_slots::encode_moe_mat_vec_bf16_f32,
            (
                &ctx, enc, &weight, &x, &topk_idx, &out, n_in, n_out, n_expert, topk,
            ),
            result,
        ),
    ensures
        reading::granted_just_when(
            *old(enc), *final(enc), result, ctx,
            n_in % 1 == 0
                && weight.dtype == GgmlType::BF16
                && x.count() == n_in
                && topk_idx.count() == topk
                && out.count() == topk * n_out,
            "moe_mat_vec_bf16"@,
            "kernel_moe_mat_vec_bf16_f32"@,
        ),
        !(n_in % 1 == 0) ==> reading::shows(
            result,
            seq![
                Datum::Int(n_in as int),
                Datum::Int(1),
            ],
        ),
        n_in % 1 == 0 && !(weight.dtype == GgmlType::BF16) ==> reading::shows(
            result,
            seq![
                Datum::Dtype(GgmlType::BF16),
                Datum::Dtype(weight.dtype),
            ],
        ),
        n_in % 1 == 0 && weight.dtype == GgmlType::BF16 && !(x.count() == n_in
            && topk_idx.count() == topk && out.count() == topk * n_out) ==> reading::shows(
            result,
            seq![
                Datum::Int(x.elements() as int),
                Datum::Int(topk_idx.elements() as int),
                Datum::Int(out.elements() as int),
                Datum::Int(n_in as int),
                Datum::Int(topk as int),
                Datum::Int(topk * n_out),
            ],
        ),
        result is Ok ==> {
            let args = reading::words(*old(enc), *final(enc));
            let grid = reading::grid(*final(enc));
            &&& reading::launched(
                *old(enc), *final(enc),
                seq![reading::at(weight), reading::at(x), reading::at(topk_idx), reading::at(out)],
                seq![],
            )
            &&& reading::kernel(*old(enc), *final(enc)) == "kernel_moe_mat_vec_bf16_f32"@
            &&& args.len() == 4
            &&& args[0] == n_in as u32
            &&& args[1] == n_out as u32
            &&& args[2] == n_expert as u32
            &&& args[3] == topk as u32
            &&& reading::tiles(grid.width, 4, n_out as int)
            &&& grid.height == topk
            &&& grid.depth == 1
            &&& reading::line(reading::group(*final(enc)), 128)
        },
{
    reading::lemma_compiled(ctx, "kernel_moe_mat_vec_bf16_f32"@);
    reading::lemma_read(*old(enc), *final(enc));
    numeric::law_div_up_covers(n_out, 4);
}

/// The weighted sum of the slots of each token through a Q5_K bank: 2 rows of a
/// token to a threadgroup, every token.
#[allow(non_snake_case)]
pub proof fn law_moe_down_weighted_sum_q5_K_f32_packed_slots(
    enc: &mut KernelEncoder,
    ctx: MetalContext,
    weight: MetalTensor,
    inner: MetalTensor,
    topk_idx: MetalTensor,
    topk_w: MetalTensor,
    out: MetalTensor,
    n_in: usize,
    n_out: usize,
    n_expert: usize,
    topk: usize,
    n_tokens: usize,
    result: Result<(), MetalError>,
)
    requires
        call_ensures(
            moe_slots::encode_moe_down_weighted_sum_q5_K_f32_packed_slots,
            (
                &ctx, enc, &weight, &inner, &topk_idx, &topk_w, &out, n_in, n_out, n_expert,
                topk, n_tokens,
            ),
            result,
        ),
    ensures
        reading::granted_just_when(
            *old(enc), *final(enc), result, ctx,
            n_in % 256 == 0
                && weight.dtype == GgmlType::Q5_K
                && inner.count() == n_tokens * topk * n_in
                && topk_idx.count() == n_tokens * topk
                && topk_w.count() == n_tokens * topk
                && out.count() == n_tokens * n_out,
            "moe_down_weighted_sum_q5_K_packed_slots"@,
            "kernel_moe_down_weighted_sum_q5_K_f32_packed_slots"@,
        ),
        !(n_in % 256 == 0) ==> reading::shows(
            result,
            seq![
                Datum::Int(n_in as int),
                Datum::Int(256),
            ],
        ),
        n_in % 256 == 0 && !(weight.dtype == GgmlType::Q5_K) ==> reading::shows(
            result,
            seq![
                Datum::Dtype(GgmlType::Q5_K),
                Datum::Dtype(weight.dtype),
            ],
        ),
        n_in % 256 == 0 && weight.dtype == GgmlType::Q5_K
            && !(inner.count() == n_tokens * topk * n_in
            && topk_idx.count() == n_tokens * topk && topk_w.count() == n_tokens * topk
            && out.count() == n_tokens * n_out) ==> reading::shows(
            result,
            seq![
                Datum::Int(inner.elements() as int),
                Datum::Int(topk_idx.elements() as int),
                Datum::Int(topk_w.elements() as int),
                Datum::Int(out.elements() as int),
                Datum::Int(n_tokens * topk * n_in),
                Datum::Int(n_tokens * topk),
                Datum::Int(n_tokens * topk),
                Datum::Int(n_tokens * n_out),
            ],
        ),
        result is Ok ==> {
            let args = reading::words(*old(enc), *final(enc));
            let grid = reading::grid(*final(enc));
            &&& reading::launched(
                *old(enc), *final(enc),
                seq![
                    reading::at(weight),
                    reading::at(inner),
                    reading::at(topk_idx),
                    reading::at(topk_w),
                    reading::at(out),
                ],
                seq![],
            )
            &&& reading::kernel(*old(enc), *final(enc))
                == "kernel_moe_down_weighted_sum_q5_K_f32_packed_slots"@
            &&& args.len() == 4
            &&& args[0] == n_in as u32
            &&& args[1] == n_out as u32
            &&& args[2] == n_expert as u32
            &&& args[3] == topk as u32
            &&& reading::tiles(grid.width, 2, n_out as int)
            &&& grid.height == n_tokens
            &&& grid.depth == 1
            &&& reading::line(reading::group(*final(enc)), 64)
        },
{
    reading::lemma_compiled(ctx, "kernel_moe_down_weighted_sum_q5_K_f32_packed_slots"@);
    reading::lemma_read(*old(enc), *final(enc));
    numeric::law_div_up_covers(n_out, 2);
}

/// The weighted sum of the slots of each token through a Q5_K bank: 4 rows of a
/// token to a threadgroup, every token.
#[allow(non_snake_case)]
pub proof fn law_moe_down_weighted_sum_q5_K_f32_packed_slots_k512_r2(
    enc: &mut KernelEncoder,
    ctx: MetalContext,
    weight: MetalTensor,
    inner: MetalTensor,
    topk_idx: MetalTensor,
    topk_w: MetalTensor,
    out: MetalTensor,
    n_in: usize,
    n_out: usize,
    n_expert: usize,
    topk: usize,
    n_tokens: usize,
    result: Result<(), MetalError>,
)
    requires
        call_ensures(
            moe_slots::encode_moe_down_weighted_sum_q5_K_f32_packed_slots_k512_r2,
            (
                &ctx, enc, &weight, &inner, &topk_idx, &topk_w, &out, n_in, n_out, n_expert,
                topk, n_tokens,
            ),
            result,
        ),
    ensures
        reading::granted_just_when(
            *old(enc), *final(enc), result, ctx,
            n_in == 512
                && weight.dtype == GgmlType::Q5_K
                && inner.count() == n_tokens * topk * n_in
                && topk_idx.count() == n_tokens * topk
                && topk_w.count() == n_tokens * topk
                && out.count() == n_tokens * n_out,
            "moe_down_weighted_sum_q5_K_k512_r2"@,
            "kernel_moe_down_weighted_sum_q5_K_f32_packed_slots_k512_r2"@,
        ),
        !(n_in == 512) ==> reading::shows(
            result,
            seq![
                Datum::Int(512),
                Datum::Int(n_in as int),
            ],
        ),
        n_in == 512 && !(weight.dtype == GgmlType::Q5_K) ==> reading::shows(
            result,
            seq![
                Datum::Dtype(GgmlType::Q5_K),
                Datum::Dtype(weight.dtype),
            ],
        ),
        n_in == 512 && weight.dtype == GgmlType::Q5_K && !(inner.count() == n_tokens * topk * n_in
            && topk_idx.count() == n_tokens * topk && topk_w.count() == n_tokens * topk
            && out.count() == n_tokens * n_out) ==> reading::shows(
            result,
            seq![
                Datum::Int(inner.elements() as int),
                Datum::Int(topk_idx.elements() as int),
                Datum::Int(topk_w.elements() as int),
                Datum::Int(out.elements() as int),
                Datum::Int(n_tokens * topk * n_in),
                Datum::Int(n_tokens * topk),
                Datum::Int(n_tokens * topk),
                Datum::Int(n_tokens * n_out),
            ],
        ),
        result is Ok ==> {
            let args = reading::words(*old(enc), *final(enc));
            let grid = reading::grid(*final(enc));
            &&& reading::launched(
                *old(enc), *final(enc),
                seq![
                    reading::at(weight),
                    reading::at(inner),
                    reading::at(topk_idx),
                    reading::at(topk_w),
                    reading::at(out),
                ],
                seq![],
            )
            &&& reading::kernel(*old(enc), *final(enc))
                == "kernel_moe_down_weighted_sum_q5_K_f32_packed_slots_k512_r2"@
            &&& args.len() == 4
            &&& args[0] == n_in as u32
            &&& args[1] == n_out as u32
            &&& args[2] == n_expert as u32
            &&& args[3] == topk as u32
            &&& reading::tiles(grid.width, 4, n_out as int)
            &&& grid.height == n_tokens
            &&& grid.depth == 1
            &&& reading::line(reading::group(*final(enc)), 64)
        },
{
    reading::lemma_compiled(ctx, "kernel_moe_down_weighted_sum_q5_K_f32_packed_slots_k512_r2"@);
    reading::lemma_read(*old(enc), *final(enc));
    numeric::law_div_up_covers(n_out, 4);
}

/// The weighted sum of the slots of each token through a Q6_K bank: 4 rows of a
/// token to a threadgroup, every token.
#[allow(non_snake_case)]
pub proof fn law_moe_down_weighted_sum_q6_K_f32(
    enc: &mut KernelEncoder,
    ctx: MetalContext,
    weight: MetalTensor,
    inner: MetalTensor,
    topk_idx: MetalTensor,
    topk_w: MetalTensor,
    out: MetalTensor,
    n_in: usize,
    n_out: usize,
    n_expert: usize,
    topk: usize,
    result: Result<(), MetalError>,
)
    requires
        call_ensures(
            moe_slots::encode_moe_down_weighted_sum_q6_K_f32,
            (
                &ctx, enc, &weight, &inner, &topk_idx, &topk_w, &out, n_in, n_out, n_expert,
                topk,
            ),
            result,
        ),
    ensures
        reading::granted_just_when(
            *old(enc), *final(enc), result, ctx,
            n_in % 256 == 0
                && weight.dtype == GgmlType::Q6_K
                && inner.count() == 1 * topk * n_in
                && topk_idx.count() == 1 * topk
                && topk_w.count() == 1 * topk
                && out.count() == 1 * n_out,
            "moe_down_weighted_sum_q6_K"@,
            "kernel_moe_down_weighted_sum_q6_K_f32"@,
        ),
        !(n_in % 256 == 0) ==> reading::shows(
            result,
            seq![
                Datum::Int(n_in as int),
                Datum::Int(256),
            ],
        ),
        n_in % 256 == 0 && !(weight.dtype == GgmlType::Q6_K) ==> reading::shows(
            result,
            seq![
                Datum::Dtype(GgmlType::Q6_K),
                Datum::Dtype(weight.dtype),
            ],
        ),
        n_in % 256 == 0 && weight.dtype == GgmlType::Q6_K && !(inner.count() == 1 * topk * n_in
            && topk_idx.count() == 1 * topk && topk_w.count() == 1 * topk
            && out.count() == 1 * n_out) ==> reading::shows(
            result,
            seq![
                Datum::Int(inner.elements() as int),
                Datum::Int(topk_idx.elements() as int),
                Datum::Int(topk_w.elements() as int),
                Datum::Int(out.elements() as int),
                Datum::Int(1 * topk * n_in),
                Datum::Int(1 * topk),
                Datum::Int(1 * topk),
                Datum::Int(1 * n_out),
            ],
        ),
        result is Ok ==> {
            let args = reading::words(*old(enc), *final(enc));
            let grid = reading::grid(*final(enc));
            &&& reading::launched(
                *old(enc), *final(enc),
                seq![
                    reading::at(weight),
                    reading::at(inner),
                    reading::at(topk_idx),
                    reading::at(topk_w),
                    reading::at(out),
                ],
                seq![],
            )
            &&& reading::kernel(*old(enc), *final(enc)) == "kernel_moe_down_weighted_sum_q6_K_f32"@
            &&& args.len() == 4
            &&& args[0] == n_in as u32
            &&& args[1] == n_out as u32
            &&& args[2] == n_expert as u32
            &&& args[3] == topk as u32
            &&& reading::tiles(grid.width, 4, n_out as int)
            &&& grid.height == 1
            &&& grid.depth == 1
            &&& reading::line(reading::group(*final(enc)), 64)
        },
{
    reading::lemma_compiled(ctx, "kernel_moe_down_weighted_sum_q6_K_f32"@);
    reading::lemma_read(*old(enc), *final(enc));
    numeric::law_div_up_covers(n_out, 4);
}

/// The weighted sum of the slots of each token through a Q8_0 bank: 2 rows of a
/// token to a threadgroup, every token.
pub proof fn law_moe_down_weighted_sum_q8_0_f32(
    enc: &mut KernelEncoder,
    ctx: MetalContext,
    weight: MetalTensor,
    inner: MetalTensor,
    topk_idx: MetalTensor,
    topk_w: MetalTensor,
    out: MetalTensor,
    n_in: usize,
    n_out: usize,
    n_expert: usize,
    topk: usize,
    result: Result<(), MetalError>,
)
    requires
        call_ensures(
            moe_slots::encode_moe_down_weighted_sum_q8_0_f32,
            (
                &ctx, enc, &weight, &inner, &topk_idx, &topk_w, &out, n_in, n_out, n_expert,
                topk,
            ),
            result,
        ),
    ensures
        reading::granted_just_when(
            *old(enc), *final(enc), result, ctx,
            n_in % 32 == 0
                && weight.dtype == GgmlType::Q8_0
                && inner.count() == 1 * topk * n_in
                && topk_idx.count() == 1 * topk
                && topk_w.count() == 1 * topk
                && out.count() == 1 * n_out,
            "moe_down_weighted_sum_q8_0"@,
            "kernel_moe_down_weighted_sum_q8_0_f32"@,
        ),
        !(n_in % 32 == 0) ==> reading::shows(
            result,
            seq![
                Datum::Int(n_in as int),
                Datum::Int(32),
            ],
        ),
        n_in % 32 == 0 && !(weight.dtype == GgmlType::Q8_0) ==> reading::shows(
            result,
            seq![
                Datum::Dtype(GgmlType::Q8_0),
                Datum::Dtype(weight.dtype),
            ],
        ),
        n_in % 32 == 0 && weight.dtype == GgmlType::Q8_0 && !(inner.count() == 1 * topk * n_in
            && topk_idx.count() == 1 * topk && topk_w.count() == 1 * topk
            && out.count() == 1 * n_out) ==> reading::shows(
            result,
            seq![
                Datum::Int(inner.elements() as int),
                Datum::Int(topk_idx.elements() as int),
                Datum::Int(topk_w.elements() as int),
                Datum::Int(out.elements() as int),
                Datum::Int(1 * topk * n_in),
                Datum::Int(1 * topk),
                Datum::Int(1 * topk),
                Datum::Int(1 * n_out),
            ],
        ),
        result is Ok ==> {
            let args = reading::words(*old(enc), *final(enc));
            let grid = reading::grid(*final(enc));
            &&& reading::launched(
                *old(enc), *final(enc),
                seq![
                    reading::at(weight),
                    reading::at(inner),
                    reading::at(topk_idx),
                    reading::at(topk_w),
                    reading::at(out),
                ],
                seq![256usize],
            )
            &&& reading::kernel(*old(enc), *final(enc)) == "kernel_moe_down_weighted_sum_q8_0_f32"@
            &&& args.len() == 4
            &&& args[0] == n_in as u32
            &&& args[1] == n_out as u32
            &&& args[2] == n_expert as u32
            &&& args[3] == topk as u32
            &&& reading::tiles(grid.width, 2, n_out as int)
            &&& grid.height == 1
            &&& grid.depth == 1
            &&& reading::line(reading::group(*final(enc)), 128)
        },
{
    reading::lemma_compiled(ctx, "kernel_moe_down_weighted_sum_q8_0_f32"@);
    reading::lemma_read(*old(enc), *final(enc));
    numeric::law_div_up_covers(n_out, 2);
}

} // verus!
