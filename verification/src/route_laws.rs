//! What the routing, summing and probing kernels are told, and when.

use vstd::prelude::*;

use crate::context::MetalContext;
use crate::dtype::GgmlType;
use crate::encoder::KernelEncoder;
use crate::error::{Datum, MetalError};
use crate::float_bits::F32Bits;
use crate::moe_route;
use crate::numeric;
use crate::reading;
use crate::research;
use crate::tensor::MetalTensor;

verus! {

/// The router logits of every token for every expert: eight experts by 32 tokens to
/// a threadgroup.
pub proof fn law_mat_mat_f32_router_e8p32_kernel(
    enc: &mut KernelEncoder,
    ctx: MetalContext,
    weight: MetalTensor,
    x: MetalTensor,
    y: MetalTensor,
    n_in: usize,
    n_out: usize,
    n_query: usize,
    name: &'static str,
    pipeline: &'static str,
    float4: bool,
    result: Result<(), MetalError>,
)
    requires
        call_ensures(
            moe_route::encode_mat_mat_f32_router_e8p32_kernel,
            (
                &ctx, enc, &weight, &x, &y, n_in, n_out, n_query, name, pipeline, float4,
            ),
            result,
        ),
    ensures
        reading::granted_just_when(
            *old(enc), *final(enc), result, ctx,
            0 < n_in <= u32::MAX && 0 < n_out <= u32::MAX && 0 < n_query <= u32::MAX
                && weight.dtype == GgmlType::F32 && x.dtype == GgmlType::F32
                    && y.dtype == GgmlType::F32
                && n_out % 8 == 0
                && weight.count() == n_in * n_out
                && x.count() == n_query * n_in
                && y.count() == n_query * n_out
                && (float4 ==> n_in % 4 == 0),
            name@,
            pipeline@,
        ),
        result is Ok ==> {
            let args = reading::words(*old(enc), *final(enc));
            let grid = reading::grid(*final(enc));
            &&& reading::launched(
                *old(enc), *final(enc),
                seq![reading::at(weight), reading::at(x), reading::at(y)],
                seq![],
            )
            &&& reading::kernel(*old(enc), *final(enc)) == pipeline@
            &&& args.len() == 3
            &&& args[0] == n_in
            &&& args[1] == n_out
            &&& args[2] == n_query
            &&& grid.width * 8 == n_out
            &&& reading::tiles(grid.height, 32, n_query as int)
            &&& grid.depth == 1
            &&& reading::line(reading::group(*final(enc)), 32)
        },
{
    reading::lemma_compiled(ctx, pipeline@);
    reading::lemma_read(*old(enc), *final(enc));
    numeric::law_div_up_covers(n_query, 32);
}

/// The router logits of every token for every expert, read in vectors of four:
/// eight experts by 32 tokens to a threadgroup.
pub proof fn law_mat_mat_f32_router_e8p32(
    enc: &mut KernelEncoder,
    ctx: MetalContext,
    weight: MetalTensor,
    x: MetalTensor,
    y: MetalTensor,
    n_in: usize,
    n_out: usize,
    n_query: usize,
    result: Result<(), MetalError>,
)
    requires
        call_ensures(
            moe_route::encode_mat_mat_f32_router_e8p32,
            (
                &ctx, enc, &weight, &x, &y, n_in, n_out, n_query,
            ),
            result,
        ),
    ensures
        reading::granted_just_when(
            *old(enc), *final(enc), result, ctx,
            0 < n_in <= u32::MAX && 0 < n_out <= u32::MAX && 0 < n_query <= u32::MAX
                && weight.dtype == GgmlType::F32 && x.dtype == GgmlType::F32
                    && y.dtype == GgmlType::F32
                && n_out % 8 == 0
                && weight.count() == n_in * n_out
                && x.count() == n_query * n_in
                && y.count() == n_query * n_out
                && n_in % 4 == 0,
            "mat_mat_f32_router_e8p32"@,
            "kernel_mat_mat_f32_f32_router_e8p32"@,
        ),
        result is Ok ==> {
            let args = reading::words(*old(enc), *final(enc));
            let grid = reading::grid(*final(enc));
            &&& reading::launched(
                *old(enc), *final(enc),
                seq![reading::at(weight), reading::at(x), reading::at(y)],
                seq![],
            )
            &&& reading::kernel(*old(enc), *final(enc)) == "kernel_mat_mat_f32_f32_router_e8p32"@
            &&& args.len() == 3
            &&& args[0] == n_in
            &&& args[1] == n_out
            &&& args[2] == n_query
            &&& grid.width * 8 == n_out
            &&& reading::tiles(grid.height, 32, n_query as int)
            &&& grid.depth == 1
            &&& reading::line(reading::group(*final(enc)), 32)
        },
{
    reading::lemma_compiled(ctx, "kernel_mat_mat_f32_f32_router_e8p32"@);
    reading::lemma_read(*old(enc), *final(enc));
    numeric::law_div_up_covers(n_query, 32);
}

/// The router logits of every token for every expert, in the order of the plain
/// product: eight experts by 32 tokens to a threadgroup.
pub proof fn law_mat_mat_f32_router_e8p32_strict(
    enc: &mut KernelEncoder,
    ctx: MetalContext,
    weight: MetalTensor,
    x: MetalTensor,
    y: MetalTensor,
    n_in: usize,
    n_out: usize,
    n_query: usize,
    result: Result<(), MetalError>,
)
    requires
        call_ensures(
            moe_route::encode_mat_mat_f32_router_e8p32_strict,
            (
                &ctx, enc, &weight, &x, &y, n_in, n_out, n_query,
            ),
            result,
        ),
    ensures
        reading::granted_just_when(
            *old(enc), *final(enc), result, ctx,
            0 < n_in <= u32::MAX && 0 < n_out <= u32::MAX && 0 < n_query <= u32::MAX
                && weight.dtype == GgmlType::F32 && x.dtype == GgmlType::F32
                    && y.dtype == GgmlType::F32
                && n_out % 8 == 0
                && weight.count() == n_in * n_out
                && x.count() == n_query * n_in
                && y.count() == n_query * n_out,
            "mat_mat_f32_router_e8p32_strict"@,
            "kernel_mat_mat_f32_f32_router_e8p32_strict"@,
        ),
        result is Ok ==> {
            let args = reading::words(*old(enc), *final(enc));
            let grid = reading::grid(*final(enc));
            &&& reading::launched(
                *old(enc), *final(enc),
                seq![reading::at(weight), reading::at(x), reading::at(y)],
                seq![],
            )
            &&& reading::kernel(*old(enc), *final(enc))
                == "kernel_mat_mat_f32_f32_router_e8p32_strict"@
            &&& args.len() == 3
            &&& args[0] == n_in
            &&& args[1] == n_out
            &&& args[2] == n_query
            &&& grid.width * 8 == n_out
            &&& reading::tiles(grid.height, 32, n_query as int)
            &&& grid.depth == 1
            &&& reading::line(reading::group(*final(enc)), 32)
        },
{
    reading::lemma_compiled(ctx, "kernel_mat_mat_f32_f32_router_e8p32_strict"@);
    reading::lemma_read(*old(enc), *final(enc));
    numeric::law_div_up_covers(n_query, 32);
}

/// The routed feed-forward of every token, by a threadgroup of its own that keeps
/// one inner row of floats.
pub proof fn law_moe_fused_routed_q4q5_token_f32(
    enc: &mut KernelEncoder,
    ctx: MetalContext,
    w_gate: MetalTensor,
    w_up: MetalTensor,
    w_down: MetalTensor,
    x_pack: MetalTensor,
    topk_idx_pack: MetalTensor,
    topk_w_pack: MetalTensor,
    out: MetalTensor,
    n_hidden: usize,
    n_ffn: usize,
    n_expert: usize,
    topk: usize,
    n_tokens: usize,
    result: Result<(), MetalError>,
)
    requires
        call_ensures(
            moe_route::encode_moe_fused_routed_q4q5_token_f32,
            (
                &ctx, enc, &w_gate, &w_up, &w_down, &x_pack, &topk_idx_pack, &topk_w_pack,
                &out, n_hidden, n_ffn, n_expert, topk, n_tokens,
            ),
            result,
        ),
    ensures
        reading::granted_just_when(
            *old(enc), *final(enc), result, ctx,
            n_hidden % 256 == 0 && n_ffn % 256 == 0
                && w_gate.dtype == GgmlType::Q4_K && w_up.dtype == GgmlType::Q4_K
                && w_down.dtype == GgmlType::Q5_K
                && x_pack.count() == n_tokens * n_hidden
                && topk_idx_pack.count() == n_tokens * topk
                && topk_w_pack.count() == n_tokens * topk
                && out.count() == n_tokens * n_hidden,
            "moe_fused_routed_q4q5_token"@,
            "kernel_moe_fused_routed_q4q5_token_f32"@,
        ),
        result is Ok ==> {
            let args = reading::words(*old(enc), *final(enc));
            let grid = reading::grid(*final(enc));
            &&& reading::launched(
                *old(enc), *final(enc),
                seq![
                    reading::at(w_gate),
                    reading::at(w_up),
                    reading::at(w_down),
                    reading::at(x_pack),
                    reading::at(topk_idx_pack),
                    reading::at(topk_w_pack),
                    reading::at(out),
                ],
                seq![(n_ffn * 4) as usize],
            )
            &&& reading::kernel(*old(enc), *final(enc)) == "kernel_moe_fused_routed_q4q5_token_f32"@
            &&& args.len() == 4
            &&& args[0] == n_hidden as u32
            &&& args[1] == n_ffn as u32
            &&& args[2] == n_expert as u32
            &&& args[3] == topk as u32
            &&& grid.width == 1 && grid.height == n_tokens && grid.depth == 1
            &&& reading::line(reading::group(*final(enc)), 512)
        },
{
    reading::lemma_compiled(ctx, "kernel_moe_fused_routed_q4q5_token_f32"@);
    reading::lemma_read(*old(enc), *final(enc));
}

/// The outputs of a token's experts are summed with its routing weights, with a
/// thread for each channel.
pub proof fn law_moe_weighted_sum_f32(
    enc: &mut KernelEncoder,
    ctx: MetalContext,
    expert_out: MetalTensor,
    weights: MetalTensor,
    out: MetalTensor,
    n_out: usize,
    topk: usize,
    result: Result<(), MetalError>,
)
    requires
        call_ensures(
            moe_route::encode_moe_weighted_sum_f32,
            (
                &ctx, enc, &expert_out, &weights, &out, n_out, topk,
            ),
            result,
        ),
        ctx.wf(),
    ensures
        reading::granted_just_when(
            *old(enc), *final(enc), result, ctx,
            expert_out.count() == topk * n_out
                && weights.count() == topk
                && out.count() == n_out,
            "moe_weighted_sum"@,
            "kernel_moe_weighted_sum_f32"@,
        ),
        !(expert_out.count() == topk * n_out && weights.count() == topk && out.count() == n_out)
            ==> reading::shows(
            result,
            seq![
                Datum::Int(expert_out.elements() as int),
                Datum::Int(weights.elements() as int),
                Datum::Int(out.elements() as int),
                Datum::Int(topk * n_out),
                Datum::Int(topk as int),
                Datum::Int(n_out as int),
            ],
        ),
        result is Ok ==> {
            let args = reading::words(*old(enc), *final(enc));
            let grid = reading::grid(*final(enc));
            &&& reading::launched(
                *old(enc), *final(enc),
                seq![reading::at(expert_out), reading::at(weights), reading::at(out)],
                seq![],
            )
            &&& reading::kernel(*old(enc), *final(enc)) == "kernel_moe_weighted_sum_f32"@
            &&& args.len() == 2
            &&& args[0] == n_out as u32
            &&& args[1] == topk as u32
            &&& reading::widest(ctx, "kernel_moe_weighted_sum_f32"@, *final(enc))
            &&& reading::tiles(grid.width, reading::group(*final(enc)).width as int, n_out as int)
            &&& grid.height == 1 && grid.depth == 1
        },
{
    reading::lemma_compiled(ctx, "kernel_moe_weighted_sum_f32"@);
    reading::lemma_read(*old(enc), *final(enc));
    if result is Ok {
        reading::lemma_widest(ctx, "kernel_moe_weighted_sum_f32"@, *final(enc), n_out);
    }
}

/// The outputs of each token's experts are summed with its routing weights: 32
/// channels of a token to a threadgroup, every token.
pub proof fn law_moe_weighted_sum_packed_f32(
    enc: &mut KernelEncoder,
    ctx: MetalContext,
    expert_out: MetalTensor,
    weights: MetalTensor,
    out: MetalTensor,
    n_out: usize,
    topk: usize,
    n_tokens: usize,
    result: Result<(), MetalError>,
)
    requires
        call_ensures(
            moe_route::encode_moe_weighted_sum_packed_f32,
            (
                &ctx, enc, &expert_out, &weights, &out, n_out, topk, n_tokens,
            ),
            result,
        ),
    ensures
        reading::granted_just_when(
            *old(enc), *final(enc), result, ctx,
            expert_out.count() == n_tokens * topk * n_out
                && weights.count() == n_tokens * topk
                && out.count() == n_tokens * n_out,
            "moe_weighted_sum_packed"@,
            "kernel_moe_weighted_sum_packed_f32"@,
        ),
        !(expert_out.count() == n_tokens * topk * n_out && weights.count() == n_tokens * topk
            && out.count() == n_tokens * n_out) ==> reading::shows(
            result,
            seq![
                Datum::Int(expert_out.elements() as int),
                Datum::Int(weights.elements() as int),
                Datum::Int(out.elements() as int),
                Datum::Int(n_tokens * topk * n_out),
                Datum::Int(n_tokens * topk),
                Datum::Int(n_tokens * n_out),
            ],
        ),
        result is Ok ==> {
            let args = reading::words(*old(enc), *final(enc));
            let grid = reading::grid(*final(enc));
            &&& reading::launched(
                *old(enc), *final(enc),
                seq![reading::at(expert_out), reading::at(weights), reading::at(out)],
                seq![],
            )
            &&& reading::kernel(*old(enc), *final(enc)) == "kernel_moe_weighted_sum_packed_f32"@
            &&& args.len() == 2
            &&& args[0] == n_out as u32
            &&& args[1] == topk as u32
            &&& reading::tiles(grid.width, 32, n_out as int)
            &&& grid.height == n_tokens && grid.depth == 1
            &&& reading::line(reading::group(*final(enc)), 32)
        },
{
    reading::lemma_compiled(ctx, "kernel_moe_weighted_sum_packed_f32"@);
    reading::lemma_read(*old(enc), *final(enc));
    numeric::law_div_up_covers(n_out, 32);
}

/// The routed and the gated shared output of each token join its residual: 64
/// channels of a token to a threadgroup, every token.
pub proof fn law_moe_grouped_finalizer_f32(
    enc: &mut KernelEncoder,
    ctx: MetalContext,
    expert_out: MetalTensor,
    topk_w: MetalTensor,
    shared_gate: MetalTensor,
    shared_out: MetalTensor,
    x_pack: MetalTensor,
    n_out: usize,
    topk: usize,
    n_tokens: usize,
    result: Result<(), MetalError>,
)
    requires
        call_ensures(
            moe_route::encode_moe_grouped_finalizer_f32,
            (
                &ctx, enc, &expert_out, &topk_w, &shared_gate, &shared_out, &x_pack, n_out,
                topk, n_tokens,
            ),
            result,
        ),
    ensures
        reading::granted_just_when(
            *old(enc), *final(enc), result, ctx,
            expert_out.count() == n_tokens * topk * n_out
                && topk_w.count() == n_tokens * topk
                && shared_gate.count() == n_tokens
                && shared_out.count() == n_tokens * n_out
                && x_pack.count() == n_tokens * n_out,
            "moe_grouped_finalizer"@,
            "kernel_moe_grouped_finalizer_f32"@,
        ),
        !(expert_out.count() == n_tokens * topk * n_out && topk_w.count() == n_tokens * topk
            && shared_gate.count() == n_tokens && shared_out.count() == n_tokens * n_out
            && x_pack.count() == n_tokens * n_out) ==> reading::shows(
            result,
            seq![
                Datum::Int(expert_out.elements() as int),
                Datum::Int(topk_w.elements() as int),
                Datum::Int(shared_gate.elements() as int),
                Datum::Int(shared_out.elements() as int),
                Datum::Int(x_pack.elements() as int),
                Datum::Int(n_tokens * topk * n_out),
                Datum::Int(n_tokens * topk),
                Datum::Int(n_tokens as int),
                Datum::Int(n_tokens * n_out),
                Datum::Int(n_tokens * n_out),
            ],
        ),
        result is Ok ==> {
            let args = reading::words(*old(enc), *final(enc));
            let grid = reading::grid(*final(enc));
            &&& reading::launched(
                *old(enc), *final(enc),
                seq![
                    reading::at(expert_out),
                    reading::at(topk_w),
                    reading::at(shared_gate),
                    reading::at(shared_out),
                    reading::at(x_pack),
                ],
                seq![],
            )
            &&& reading::kernel(*old(enc), *final(enc)) == "kernel_moe_grouped_finalizer_f32"@
            &&& args.len() == 2
            &&& args[0] == n_out as u32
            &&& args[1] == topk as u32
            &&& reading::tiles(grid.width, 64, n_out as int)
            &&& grid.height == n_tokens && grid.depth == 1
            &&& reading::line(reading::group(*final(enc)), 64)
        },
{
    reading::lemma_compiled(ctx, "kernel_moe_grouped_finalizer_f32"@);
    reading::lemma_read(*old(enc), *final(enc));
    numeric::law_div_up_covers(n_out, 64);
}

/// The gated shared output and the mixer output join the residual, with a thread
/// for each channel.
pub proof fn law_moe_shared_accum_resid_f32(
    enc: &mut KernelEncoder,
    ctx: MetalContext,
    shared_out: MetalTensor,
    shared_gate: MetalTensor,
    mixer_out: MetalTensor,
    x: MetalTensor,
    result: Result<(), MetalError>,
)
    requires
        call_ensures(
            moe_route::encode_moe_shared_accum_resid_f32,
            (
                &ctx, enc, &shared_out, &shared_gate, &mixer_out, &x,
            ),
            result,
        ),
        ctx.wf(),
    ensures
        reading::granted_just_when(
            *old(enc), *final(enc), result, ctx,
            shared_gate.elements() == 1
                && shared_out.count() == x.count()
                && mixer_out.count() == x.count(),
            "moe_shared_accum_resid"@,
            "kernel_moe_shared_accum_resid_f32"@,
        ),
        !(shared_gate.elements() == 1 && shared_out.count() == x.count()
            && mixer_out.count() == x.count()) ==> reading::shows(
            result,
            seq![
                Datum::Int(x.count() as int),
                Datum::Int(shared_gate.elements() as int),
                Datum::Int(shared_out.elements() as int),
                Datum::Int(mixer_out.elements() as int),
            ],
        ),
        result is Ok ==> {
            let args = reading::words(*old(enc), *final(enc));
            let grid = reading::grid(*final(enc));
            &&& reading::launched(
                *old(enc), *final(enc),
                seq![
                    reading::at(shared_out),
                    reading::at(shared_gate),
                    reading::at(mixer_out),
                    reading::at(x),
                ],
                seq![],
            )
            &&& reading::kernel(*old(enc), *final(enc)) == "kernel_moe_shared_accum_resid_f32"@
            &&& args.len() == 1
            &&& args[0] == x.count() as u32
            &&& reading::widest(ctx, "kernel_moe_shared_accum_resid_f32"@, *final(enc))
            &&& reading::tiles(grid.width, reading::group(*final(enc)).width as int,
                x.count() as int)
            &&& grid.height == 1 && grid.depth == 1
        },
{
    reading::lemma_compiled(ctx, "kernel_moe_shared_accum_resid_f32"@);
    reading::lemma_read(*old(enc), *final(enc));
    if result is Ok {
        reading::lemma_widest(ctx, "kernel_moe_shared_accum_resid_f32"@, *final(enc), x.count());
    }
}

/// One thread picks up to 16 of the logits.
pub proof fn law_topk_logits_softmax_f32(
    enc: &mut KernelEncoder,
    ctx: MetalContext,
    logits: MetalTensor,
    out_idx: MetalTensor,
    out_w: MetalTensor,
    n: usize,
    k: usize,
    result: Result<(), MetalError>,
)
    requires
        call_ensures(
            moe_route::encode_topk_logits_softmax_f32,
            (
                &ctx, enc, &logits, &out_idx, &out_w, n, k,
            ),
            result,
        ),
    ensures
        reading::granted_just_when(
            *old(enc), *final(enc), result, ctx,
            logits.count() == n
                && out_idx.count() == k
                && out_w.count() == k
                && 1 <= k <= 16,
            "topk_logits_softmax"@,
            "kernel_topk_logits_softmax_f32"@,
        ),
        !(logits.count() == n) ==> reading::shows(
            result,
            seq![
                Datum::Int(logits.elements() as int),
                Datum::Int(n as int),
            ],
        ),
        logits.count() == n && !(out_idx.count() == k && out_w.count() == k) ==> reading::shows(
            result,
            seq![
                Datum::Int(k as int),
                Datum::Int(out_idx.elements() as int),
                Datum::Int(out_w.elements() as int),
            ],
        ),
        logits.count() == n && out_idx.count() == k && out_w.count() == k && !(1 <= k <= 16)
            ==> reading::shows(
            result,
            seq![
                Datum::Int(k as int),
            ],
        ),
        result is Ok ==> {
            let args = reading::words(*old(enc), *final(enc));
            let grid = reading::grid(*final(enc));
            &&& reading::launched(
                *old(enc), *final(enc),
                seq![reading::at(logits), reading::at(out_idx), reading::at(out_w)],
                seq![],
            )
            &&& reading::kernel(*old(enc), *final(enc)) == "kernel_topk_logits_softmax_f32"@
            &&& args.len() == 2
            &&& args[0] == n as u32
            &&& args[1] == k
            &&& grid.width == 1 && grid.height == 1 && grid.depth == 1
            &&& reading::line(reading::group(*final(enc)), 1)
        },
{
    reading::lemma_compiled(ctx, "kernel_topk_logits_softmax_f32"@);
    reading::lemma_read(*old(enc), *final(enc));
}

/// 256 threads, three scratch words each, pick up to 16 of as many logits.
pub proof fn law_topk_logits_softmax_parallel_f32(
    enc: &mut KernelEncoder,
    ctx: MetalContext,
    logits: MetalTensor,
    out_idx: MetalTensor,
    out_w: MetalTensor,
    n: usize,
    k: usize,
    result: Result<(), MetalError>,
)
    requires
        call_ensures(
            moe_route::encode_topk_logits_softmax_parallel_f32,
            (
                &ctx, enc, &logits, &out_idx, &out_w, n, k,
            ),
            result,
        ),
    ensures
        reading::granted_just_when(
            *old(enc), *final(enc), result, ctx,
            logits.count() == n
                && out_idx.count() == k
                && out_w.count() == k
                && 1 <= k <= 16
                && k <= n <= 256,
            "topk_logits_softmax_parallel"@,
            "kernel_topk_logits_softmax_parallel_f32"@,
        ),
        !(logits.count() == n) ==> reading::shows(
            result,
            seq![
                Datum::Int(logits.elements() as int),
                Datum::Int(n as int),
            ],
        ),
        logits.count() == n && !(out_idx.count() == k && out_w.count() == k) ==> reading::shows(
            result,
            seq![
                Datum::Int(k as int),
                Datum::Int(out_idx.elements() as int),
                Datum::Int(out_w.elements() as int),
            ],
        ),
        logits.count() == n && out_idx.count() == k && out_w.count() == k && !(1 <= k <= 16
            && k <= n <= 256) ==> reading::shows(
            result,
            seq![
                Datum::Int(n as int),
                Datum::Int(k as int),
            ],
        ),
        result is Ok ==> {
            let args = reading::words(*old(enc), *final(enc));
            let grid = reading::grid(*final(enc));
            &&& reading::launched(
                *old(enc), *final(enc),
                seq![reading::at(logits), reading::at(out_idx), reading::at(out_w)],
                seq![1024usize, 1024usize, 1024usize],
            )
            &&& reading::kernel(*old(enc), *final(enc))
                == "kernel_topk_logits_softmax_parallel_f32"@
            &&& args.len() == 2
            &&& args[0] == n
            &&& args[1] == k
            &&& grid.width == 1 && grid.height == 1 && grid.depth == 1
            &&& reading::line(reading::group(*final(enc)), 256)
        },
{
    reading::lemma_compiled(ctx, "kernel_topk_logits_softmax_parallel_f32"@);
    reading::lemma_read(*old(enc), *final(enc));
}

/// 256 threads route one token and gate its shared expert.
pub proof fn law_topk_logits_softmax_dot_sigmoid_f32(
    enc: &mut KernelEncoder,
    ctx: MetalContext,
    logits: MetalTensor,
    shared_weight: MetalTensor,
    x: MetalTensor,
    out_idx: MetalTensor,
    out_w: MetalTensor,
    shared_out: MetalTensor,
    n_expert: usize,
    topk: usize,
    hidden: usize,
    result: Result<(), MetalError>,
)
    requires
        call_ensures(
            moe_route::encode_topk_logits_softmax_dot_sigmoid_f32,
            (
                &ctx, enc, &logits, &shared_weight, &x, &out_idx, &out_w, &shared_out,
                n_expert, topk, hidden,
            ),
            result,
        ),
    ensures
        reading::granted_just_when(
            *old(enc), *final(enc), result, ctx,
            logits.dtype == GgmlType::F32
                && shared_weight.dtype == GgmlType::F32
                && x.dtype == GgmlType::F32
                && out_w.dtype == GgmlType::F32
                && shared_out.dtype == GgmlType::F32
                && 1 <= topk <= 16
                && topk <= n_expert <= 256
                && logits.count() == n_expert
                && out_idx.count() == topk
                && out_w.count() == topk
                && shared_weight.count() == hidden
                && x.count() == hidden
                && shared_out.elements() == 1,
            "topk_logits_softmax_dot_sigmoid"@,
            "kernel_topk_logits_softmax_dot_sigmoid_f32"@,
        ),
        result is Ok ==> {
            let args = reading::words(*old(enc), *final(enc));
            let grid = reading::grid(*final(enc));
            &&& reading::launched(
                *old(enc), *final(enc),
                seq![
                    reading::at(logits),
                    reading::at(shared_weight),
                    reading::at(x),
                    reading::at(out_idx),
                    reading::at(out_w),
                    reading::at(shared_out),
                ],
                seq![1024usize, 1024usize, 1024usize],
            )
            &&& reading::kernel(*old(enc), *final(enc))
                == "kernel_topk_logits_softmax_dot_sigmoid_f32"@
            &&& args.len() == 4
            &&& args[0] == n_expert
            &&& args[1] == topk
            &&& args[2] == hidden as u32
            &&& args[3] == 1
            &&& grid.width == 1 && grid.height == 1 && grid.depth == 1
            &&& reading::line(reading::group(*final(enc)), 256)
        },
{
    reading::lemma_compiled(ctx, "kernel_topk_logits_softmax_dot_sigmoid_f32"@);
    reading::lemma_read(*old(enc), *final(enc));
}

/// The slots of each expert are listed, by a thread for each expert. The kernel is
/// told the numbers that size its tensors: one count per expert, a list with room
/// for every token per expert, and `topk` slots per token.
pub proof fn law_moe_route_bucket_slots_f32(
    enc: &mut KernelEncoder,
    ctx: MetalContext,
    topk_idx: MetalTensor,
    counts: MetalTensor,
    ids: MetalTensor,
    n_expert: usize,
    n_tokens: usize,
    topk: usize,
    result: Result<(), MetalError>,
)
    requires
        call_ensures(
            moe_route::encode_moe_route_bucket_slots_f32,
            (
                &ctx, enc, &topk_idx, &counts, &ids, n_expert, n_tokens, topk,
            ),
            result,
        ),
    ensures
        reading::granted_just_when(
            *old(enc), *final(enc), result, ctx,
            topk_idx.count() == n_tokens * topk
                && counts.count() == n_expert
                && ids.count() == n_expert * n_tokens,
            "moe_route_bucket_slots"@,
            "kernel_moe_route_bucket_slots_f32"@,
        ),
        !(topk_idx.count() == n_tokens * topk && counts.count() == n_expert
            && ids.count() == n_expert * n_tokens) ==> reading::shows(
            result,
            seq![
                Datum::Int(topk_idx.elements() as int),
                Datum::Int(counts.elements() as int),
                Datum::Int(ids.elements() as int),
                Datum::Int(n_tokens * topk),
                Datum::Int(n_expert as int),
                Datum::Int(n_expert * n_tokens),
            ],
        ),
        result is Ok ==> {
            let args = reading::words(*old(enc), *final(enc));
            let grid = reading::grid(*final(enc));
            &&& reading::launched(
                *old(enc), *final(enc),
                seq![reading::at(topk_idx), reading::at(counts), reading::at(ids)],
                seq![],
            )
            &&& reading::kernel(*old(enc), *final(enc)) == "kernel_moe_route_bucket_slots_f32"@
            &&& args.len() == 3
            &&& args[0] == n_expert as u32
            &&& args[1] == n_tokens as u32
            &&& args[2] == topk as u32
            &&& reading::tiles(grid.width, 256, n_expert as int)
            &&& grid.height == 1 && grid.depth == 1
            &&& n_expert <= u32::MAX && n_tokens <= u32::MAX && topk <= u32::MAX ==> {
                &&& args[0] == counts.count()
                &&& args[0] * args[1] == ids.count()
                &&& args[1] * args[2] == topk_idx.count()
            }
            &&& reading::line(reading::group(*final(enc)), 256)
        },
{
    reading::lemma_compiled(ctx, "kernel_moe_route_bucket_slots_f32"@);
    reading::lemma_read(*old(enc), *final(enc));
    numeric::law_div_up_covers(n_expert, 256);
}

/// Packed tokens can be routed: each names `topk` of its `n_expert` experts.
pub open spec fn packed_routing_acceptable(
    logits: MetalTensor,
    shared_weight: MetalTensor,
    x: MetalTensor,
    out_idx: MetalTensor,
    out_w: MetalTensor,
    shared_out: MetalTensor,
    n_expert: usize,
    topk: usize,
    hidden: usize,
    n_tokens: usize,
) -> bool {
    &&& logits.dtype == GgmlType::F32 && shared_weight.dtype == GgmlType::F32
    &&& x.dtype == GgmlType::F32 && out_w.dtype == GgmlType::F32
    &&& shared_out.dtype == GgmlType::F32
    &&& out_idx.dtype == GgmlType::I32 || out_idx.dtype == GgmlType::F32
    &&& 1 <= topk <= 16 && topk <= n_expert <= 512
    &&& 0 < hidden <= u32::MAX && 0 < n_tokens <= u32::MAX
    &&& logits.count() == n_tokens * n_expert
    &&& out_idx.count() == n_tokens * topk
    &&& out_w.count() == n_tokens * topk
    &&& shared_weight.count() == hidden
    &&& x.count() == n_tokens * hidden
    &&& shared_out.count() == n_tokens
}

/// Packed tokens are routed by a threadgroup each, with a thread for each expert and
/// three scratch words for each thread. Where the pipeline or the device does not allow
/// that, the request is refused with its arguments handed over and nothing launched.
pub proof fn law_topk_logits_softmax_dot_sigmoid_packed_f32(
    enc: &mut KernelEncoder,
    ctx: MetalContext,
    logits: MetalTensor,
    shared_weight: MetalTensor,
    x: MetalTensor,
    out_idx: MetalTensor,
    out_w: MetalTensor,
    shared_out: MetalTensor,
    n_expert: usize,
    topk: usize,
    hidden: usize,
    n_tokens: usize,
    result: Result<(), MetalError>,
)
    requires
        call_ensures(
            moe_route::encode_topk_logits_softmax_dot_sigmoid_packed_f32,
            (
                &ctx, enc, &logits, &shared_weight, &x, &out_idx, &out_w, &shared_out, n_expert,
                topk, hidden, n_tokens,
            ),
            result,
        ),
    ensures
        ({
            let name = "kernel_topk_logits_softmax_dot_sigmoid_packed_f32"@;
            let acceptable = packed_routing_acceptable(
                logits, shared_weight, x, out_idx, out_w, shared_out, n_expert, topk, hidden,
                n_tokens,
            );
            let threads: int = if n_expert <= 256 {
                256
            } else {
                512
            };
            let allowed = ctx.find_pipeline(name) matches Some(p) && p.max_total_threads >= threads
                && p.static_threadgroup_memory + 12 * threads <= ctx.limits.max_threadgroup_memory;
            let tensors = seq![
                reading::at(logits),
                reading::at(shared_weight),
                reading::at(x),
                reading::at(out_idx),
                reading::at(out_w),
                reading::at(shared_out),
            ];
            let memory = (4 * threads) as usize;
            let args = reading::words(*old(enc), *final(enc));
            let grid = reading::grid(*final(enc));
            &&& result is Ok <==> acceptable && reading::compiled(ctx, name) && allowed
            &&& !acceptable ==> reading::untouched(*old(enc), *final(enc))
                && reading::refused_shape(result, "topk_logits_softmax_dot_sigmoid_packed"@)
            &&& acceptable && !reading::compiled(ctx, name) ==> reading::untouched(
                *old(enc), *final(enc),
            ) && reading::refused_missing(result, name)
            &&& acceptable && reading::compiled(ctx, name) ==> {
                &&& reading::extends(*old(enc), *final(enc))
                &&& reading::prepared(*final(enc), old(enc).commands@.len() as int, tensors)
                &&& reading::kernel(*old(enc), *final(enc)) == name
                &&& args.len() == 4
                &&& args[0] == n_expert
                &&& args[1] == topk
                &&& args[2] == hidden
                &&& args[3] == n_tokens
            }
            &&& acceptable && reading::compiled(ctx, name) && !allowed
                ==> final(enc).commands@.len() == old(enc).commands@.len() + 8
                && reading::refused_shape(result, "topk_logits_softmax_dot_sigmoid_packed"@)
            &&& result is Ok ==> {
                &&& reading::launched(*old(enc), *final(enc), tensors, seq![memory, memory, memory])
                &&& grid.width == 1 && grid.height == n_tokens && grid.depth == 1
                &&& reading::line(reading::group(*final(enc)), threads)
            }
        }),
{
    let name = "kernel_topk_logits_softmax_dot_sigmoid_packed_f32"@;
    reading::lemma_compiled(ctx, name);
    reading::lemma_read(*old(enc), *final(enc));
    reading::lemma_prepared(*old(enc), *final(enc));
}

/// A vector is streamed into another of the same length, with a thread for each
/// element.
pub proof fn law_roofline_stream_f32(
    enc: &mut KernelEncoder,
    ctx: MetalContext,
    x: MetalTensor,
    y: MetalTensor,
    alpha: F32Bits,
    result: Result<(), MetalError>,
)
    requires
        call_ensures(
            research::encode_roofline_stream_f32,
            (
                &ctx, enc, &x, &y, alpha,
            ),
            result,
        ),
        ctx.wf(),
    ensures
        reading::granted_just_when(
            *old(enc), *final(enc), result, ctx,
            y.count() == x.count(),
            "roofline_stream"@,
            "kernel_roofline_stream_f32"@,
        ),
        y.count() != x.count() ==> reading::shows(
            result,
            seq![
                Datum::Int(y.elements() as int),
                Datum::Int(x.count() as int),
            ],
        ),
        result is Ok ==> {
            let args = reading::words(*old(enc), *final(enc));
            let grid = reading::grid(*final(enc));
            &&& reading::launched(
                *old(enc), *final(enc),
                seq![reading::at(x), reading::at(y)],
                seq![],
            )
            &&& reading::kernel(*old(enc), *final(enc)) == "kernel_roofline_stream_f32"@
            &&& args.len() == 2
            &&& args[0] == x.count() as u32
            &&& args[1] == alpha.bits
            &&& reading::widest(ctx, "kernel_roofline_stream_f32"@, *final(enc))
            &&& reading::tiles(grid.width, reading::group(*final(enc)).width as int,
                x.count() as int)
            &&& grid.height == 1 && grid.depth == 1
        },
{
    reading::lemma_compiled(ctx, "kernel_roofline_stream_f32"@);
    reading::lemma_read(*old(enc), *final(enc));
    if result is Ok {
        reading::lemma_widest(ctx, "kernel_roofline_stream_f32"@, *final(enc), x.count());
    }
}

/// Every element of a vector takes `iters` fused multiply-adds, on a thread of its
/// own.
pub proof fn law_roofline_fma_f32(
    enc: &mut KernelEncoder,
    ctx: MetalContext,
    x: MetalTensor,
    y: MetalTensor,
    iters: usize,
    result: Result<(), MetalError>,
)
    requires
        call_ensures(
            research::encode_roofline_fma_f32,
            (
                &ctx, enc, &x, &y, iters,
            ),
            result,
        ),
        ctx.wf(),
    ensures
        reading::granted_just_when(
            *old(enc), *final(enc), result, ctx,
            y.count() == x.count()
                && iters > 0,
            "roofline_fma"@,
            "kernel_roofline_fma_f32"@,
        ),
        !(y.count() == x.count() && iters > 0) ==> reading::shows(
            result,
            seq![
                Datum::Int(y.elements() as int),
                Datum::Int(x.count() as int),
                Datum::Int(iters as int),
            ],
        ),
        result is Ok ==> {
            let args = reading::words(*old(enc), *final(enc));
            let grid = reading::grid(*final(enc));
            &&& reading::launched(
                *old(enc), *final(enc),
                seq![reading::at(x), reading::at(y)],
                seq![],
            )
            &&& reading::kernel(*old(enc), *final(enc)) == "kernel_roofline_fma_f32"@
            &&& args.len() == 2
            &&& args[0] == x.count() as u32
            &&& args[1] == iters as u32
            &&& reading::widest(ctx, "kernel_roofline_fma_f32"@, *final(enc))
            &&& reading::tiles(grid.width, reading::group(*final(enc)).width as int,
                x.count() as int)
            &&& grid.height == 1 && grid.depth == 1
        },
{
    reading::lemma_compiled(ctx, "kernel_roofline_fma_f32"@);
    reading::lemma_read(*old(enc), *final(enc));
    if result is Ok {
        reading::lemma_widest(ctx, "kernel_roofline_fma_f32"@, *final(enc), x.count());
    }
}

/// One byte of every stride is read, by up to 256 threads. The kernel is told how many
/// strides cover the bytes, and the number of bytes in two words, the low one first.
pub proof fn law_touch_bytes_f32(
    enc: &mut KernelEncoder,
    ctx: MetalContext,
    src: MetalTensor,
    sink: MetalTensor,
    stride_bytes: usize,
    result: Result<(), MetalError>,
)
    requires
        call_ensures(
            research::encode_touch_bytes_f32,
            (&ctx, enc, &src, &sink, stride_bytes),
            result,
        ),
    ensures
        ({
            let bytes = src.byte_length()->0;
            let args = reading::words(*old(enc), *final(enc));
            let grid = reading::grid(*final(enc));
            &&& reading::granted_just_when(
                *old(enc), *final(enc), result, ctx,
                sink.count() > 0 && bytes > 0 && stride_bytes > 0,
                "touch_bytes"@,
                "kernel_touch_bytes_f32"@,
            )
            &&& result is Ok ==> {
                &&& reading::launched(
                    *old(enc), *final(enc),
                    seq![reading::at(src), reading::at(sink)],
                    seq![],
                )
                &&& reading::kernel(*old(enc), *final(enc)) == "kernel_touch_bytes_f32"@
                &&& args.len() == 4
                &&& exists|steps: usize| #[trigger]
                    reading::tiles(steps, stride_bytes as int, bytes as int) && args[0]
                        == steps as u32
                &&& args[1] == stride_bytes as u32
                &&& args[2] + args[3] * 0x1_0000_0000 == bytes
                &&& grid.width == 1 && grid.height == 1 && grid.depth == 1
                &&& reading::line(
                    reading::group(*final(enc)),
                    if sink.count() < 256 {
                        sink.count() as int
                    } else {
                        256
                    },
                )
            }
        }),
{
    reading::lemma_compiled(ctx, "kernel_touch_bytes_f32"@);
    reading::lemma_read(*old(enc), *final(enc));
    if stride_bytes > 0 {
        let bytes = src.byte_length()->0;
        let wide = bytes as u64;
        numeric::law_div_up_covers(bytes, stride_bytes);
        assert(reading::tiles(
            numeric::div_up(bytes, stride_bytes),
            stride_bytes as int,
            bytes as int,
        ));
        assert((wide as u32) as u64 + ((wide / 0x1_0000_0000) as u32) as u64 * 0x1_0000_0000
            == wide) by (bit_vector);
    }
}

} // verus!
