//! Mixture-of-experts kernels that route tokens and gather what the experts
//! computed.

use vstd::prelude::*;

use crate::context::MetalContext;
use crate::dtype::GgmlType;
use crate::encoder::{KernelEncoder, Launch, MTLSize, Outcome};
use crate::error::{bad_shape, narrow_u32, AllowedDtypes, Fault, MetalError};
use crate::numeric;
use crate::numeric::{div_ceil, min_size, product};
use crate::tensor::MetalTensor;

verus! {

/// Router logits of `n_query` tokens. A kernel that reads its input in vectors of
/// four is held to whole vectors.
pub open spec fn router_mat_mat(
    ctx: MetalContext,
    weight: MetalTensor,
    x: MetalTensor,
    y: MetalTensor,
    n_in: usize,
    n_out: usize,
    n_query: usize,
    name: &'static str,
    pipeline: &'static str,
    float4: bool,
) -> Outcome {
    let expected_weight = n_in * n_out;
    let expected_x = n_query * n_in;
    let expected_y = n_query * n_out;
    if n_in == 0 || n_out == 0 || n_query == 0 || n_in > u32::MAX || n_out > u32::MAX
        || n_query > u32::MAX {
        Outcome::Refused(
            Fault::bad_shape(
                name@,
                "dimensions must be nonzero u32 values, got n_in={} n_out={} n_query={}"@,
            )
                .num(n_in as int).num(n_out as int).num(n_query as int),
        )
    } else if expected_weight > usize::MAX {
        Outcome::Refused(
            Fault::bad_shape(name@, "weight element count overflows for n_in={} n_out={}"@)
                .num(n_in as int).num(n_out as int),
        )
    } else if expected_x > usize::MAX {
        Outcome::Refused(
            Fault::bad_shape(name@, "input element count overflows for n_query={} n_in={}"@)
                .num(n_query as int).num(n_in as int),
        )
    } else if expected_y > usize::MAX {
        Outcome::Refused(
            Fault::bad_shape(name@, "output element count overflows for n_query={} n_out={}"@)
                .num(n_query as int).num(n_out as int),
        )
    } else if weight.dtype != GgmlType::F32 {
        Outcome::Refused(
            Fault::bad_shape(name@, "weight.dtype = {}, expected F32"@).dtype(weight.dtype),
        )
    } else if x.dtype != GgmlType::F32 || y.dtype != GgmlType::F32 {
        Outcome::Refused(
            Fault::bad_shape(name@, "x/y expected F32, got {}/{}"@).dtype(x.dtype).dtype(y.dtype),
        )
    } else if (float4 && n_in % 4 != 0) || n_out % 8 != 0 {
        Outcome::Refused(
            Fault::bad_shape(
                name@,
                "expected compatible n_in and n_out % 8 == 0, got n_in={} n_out={}"@,
            )
                .num(n_in as int).num(n_out as int),
        )
    } else if weight.count() != expected_weight {
        Outcome::Refused(
            Fault::bad_shape(name@, "weight.n_elements={} != n_in*n_out={}"@)
                .num(weight.elements() as int).num(expected_weight),
        )
    } else if x.count() != expected_x {
        Outcome::Refused(
            Fault::bad_shape(name@, "x.n_elements={} != n_query*n_in={}"@)
                .num(x.elements() as int).num(expected_x),
        )
    } else if y.count() != expected_y {
        Outcome::Refused(
            Fault::bad_shape(name@, "y.n_elements={} != n_out*n_query={}"@)
                .num(y.elements() as int).num(expected_y),
        )
    } else {
        Outcome::launch(
            ctx,
            Launch {
                pipeline: pipeline@,
                words: seq![n_in as u32, n_out as u32, n_query as u32],
                tensors: seq![weight.place(), x.place(), y.place()],
                scratch: seq![],
                threadgroups: MTLSize { width: n_out / 8, height: numeric::div_up(n_query, 32), depth: 1 },
                threads: MTLSize { width: 32, height: 1, depth: 1 },
            },
        )
    }
}

/// Router logits of `n_query` tokens, eight experts by 32 tokens per threadgroup.
pub fn encode_mat_mat_f32_router_e8p32_kernel(
    ctx: &MetalContext,
    enc: &mut KernelEncoder,
    weight: &MetalTensor,
    x: &MetalTensor,
    y: &MetalTensor,
    n_in: usize,
    n_out: usize,
    n_query: usize,
    name: &'static str,
    pipeline: &'static str,
    float4: bool,
) -> (r: Result<(), MetalError>)
    requires
        weight.wf() && x.wf() && y.wf(),
    ensures
        old(enc).did(
            *final(enc),
            r,
            router_mat_mat(
                *ctx,
                *weight, *x, *y, n_in, n_out, n_query, name, pipeline, float4,
            ),
        ),
{
    if n_in == 0 || n_out == 0 || n_query == 0 || n_in > u32::MAX as usize
        || n_out > u32::MAX as usize || n_query > u32::MAX as usize {
        return Err(
            bad_shape(
                name,
                "dimensions must be nonzero u32 values, got n_in={} n_out={} n_query={}",
            )
                .num(n_in).num(n_out).num(n_query),
        );
    }
    let expected_weight: usize = match n_in.checked_mul(n_out) {
        Some(n) => n,
        None => {
            return Err(
                bad_shape(name, "weight element count overflows for n_in={} n_out={}")
                    .num(n_in).num(n_out),
            );
        },
    };
    let expected_x: usize = match n_query.checked_mul(n_in) {
        Some(n) => n,
        None => {
            return Err(
                bad_shape(name, "input element count overflows for n_query={} n_in={}")
                    .num(n_query).num(n_in),
            );
        },
    };
    let expected_y: usize = match n_query.checked_mul(n_out) {
        Some(n) => n,
        None => {
            return Err(
                bad_shape(name, "output element count overflows for n_query={} n_out={}")
                    .num(n_query).num(n_out),
            );
        },
    };
    if weight.dtype != GgmlType::F32 {
        return Err(
            bad_shape(name, "weight.dtype = {}, expected F32").dtype(weight.dtype),
        );
    }
    if x.dtype != GgmlType::F32 || y.dtype != GgmlType::F32 {
        return Err(
            bad_shape(name, "x/y expected F32, got {}/{}").dtype(x.dtype).dtype(y.dtype),
        );
    }
    if (float4 && n_in % 4 != 0) || n_out % 8 != 0 {
        return Err(
            bad_shape(name, "expected compatible n_in and n_out % 8 == 0, got n_in={} n_out={}")
                .num(n_in).num(n_out),
        );
    }
    if weight.element_count() != expected_weight {
        return Err(
            bad_shape(name, "weight.n_elements={} != n_in*n_out={}")
                .num_u64(weight.n_elements()).num(expected_weight),
        );
    }
    if x.element_count() != expected_x {
        return Err(
            bad_shape(name, "x.n_elements={} != n_query*n_in={}")
                .num_u64(x.n_elements()).num(expected_x),
        );
    }
    if y.element_count() != expected_y {
        return Err(
            bad_shape(name, "y.n_elements={} != n_out*n_query={}")
                .num_u64(y.n_elements()).num(expected_y),
        );
    }
    let words: Vec<u32> = vec![n_in as u32, n_out as u32, n_query as u32];
    assert(words@ =~= seq![n_in as u32, n_out as u32, n_query as u32]);
    let tensors = [weight.binding(), x.binding(), y.binding()];
    assert(tensors@ =~= seq![weight.place(), x.place(), y.place()]);
    let scratch: Vec<usize> = Vec::new();
    assert(scratch@ =~= seq![]);
    enc.launch(
        ctx,
        pipeline,
        words,
        &tensors,
        scratch.as_slice(),
        MTLSize { width: n_out / 8, height: div_ceil(n_query, 32), depth: 1 },
        MTLSize { width: 32, height: 1, depth: 1 },
    )
}

/// Router logits, read in vectors of four.
pub fn encode_mat_mat_f32_router_e8p32(
    ctx: &MetalContext,
    enc: &mut KernelEncoder,
    weight: &MetalTensor,
    x: &MetalTensor,
    y: &MetalTensor,
    n_in: usize,
    n_out: usize,
    n_query: usize,
) -> (r: Result<(), MetalError>)
    requires
        weight.wf() && x.wf() && y.wf(),
    ensures
        old(enc).did(
            *final(enc),
            r,
            router_mat_mat(
                *ctx,
                *weight, *x, *y, n_in, n_out, n_query, "mat_mat_f32_router_e8p32",
                "kernel_mat_mat_f32_f32_router_e8p32", true,
            ),
        ),
{
    encode_mat_mat_f32_router_e8p32_kernel(
        ctx, enc,
        weight, x, y, n_in, n_out, n_query, "mat_mat_f32_router_e8p32",
        "kernel_mat_mat_f32_f32_router_e8p32", true,
    )
}

/// Router logits, accumulated in the order of the plain product.
pub fn encode_mat_mat_f32_router_e8p32_strict(
    ctx: &MetalContext,
    enc: &mut KernelEncoder,
    weight: &MetalTensor,
    x: &MetalTensor,
    y: &MetalTensor,
    n_in: usize,
    n_out: usize,
    n_query: usize,
) -> (r: Result<(), MetalError>)
    requires
        weight.wf() && x.wf() && y.wf(),
    ensures
        old(enc).did(
            *final(enc),
            r,
            router_mat_mat(
                *ctx,
                *weight, *x, *y, n_in, n_out, n_query, "mat_mat_f32_router_e8p32_strict",
                "kernel_mat_mat_f32_f32_router_e8p32_strict", false,
            ),
        ),
{
    encode_mat_mat_f32_router_e8p32_kernel(
        ctx, enc,
        weight, x, y, n_in, n_out, n_query, "mat_mat_f32_router_e8p32_strict",
        "kernel_mat_mat_f32_f32_router_e8p32_strict", false,
    )
}

/// The whole routed feed-forward of each token.
pub open spec fn fused_routed_token(
    ctx: MetalContext,
    w_gate: MetalTensor,
    w_up: MetalTensor,
    w_down: MetalTensor,
    x_pack: MetalTensor,
    topk_idx_pack: MetalTensor,
    topk_w_pack: MetalTensor,
    out: MetalTensor,
    n_hidden: usize,
    n_ffn: usize,
    n_expert: usize,
    topk: usize,
    n_tokens: usize,
) -> Outcome {
    let expected_x = n_tokens * n_hidden;
    let n_slots = n_tokens * topk;
    if n_hidden % 256 != 0 || n_ffn % 256 != 0 {
        Outcome::Refused(
            Fault::bad_shape(
                "moe_fused_routed_q4q5_token"@,
                "n_hidden={} and n_ffn={} must both be divisible by 256"@,
            )
                .num(n_hidden as int).num(n_ffn as int),
        )
    } else if w_gate.dtype != GgmlType::Q4_K || w_up.dtype != GgmlType::Q4_K
        || w_down.dtype != GgmlType::Q5_K {
        Outcome::Refused(
            Fault::bad_shape(
                "moe_fused_routed_q4q5_token"@,
                "expected gate/up/down dtypes Q4_K/Q4_K/Q5_K, got {}/{}/{}"@,
            )
                .dtype(w_gate.dtype).dtype(w_up.dtype).dtype(w_down.dtype),
        )
    } else if x_pack.count() != expected_x || topk_idx_pack.count() != n_slots
        || topk_w_pack.count() != n_slots || out.count() != expected_x {
        Outcome::Refused(
            Fault::bad_shape(
                "moe_fused_routed_q4q5_token"@,
                "shape mismatch: x={} idx={} w={} out={} expected x={} idx={} w={} out={}"@,
            )
                .num(x_pack.elements() as int).num(topk_idx_pack.elements() as int)
                .num(topk_w_pack.elements() as int).num(out.elements() as int).num(expected_x)
                .num(n_slots).num(n_slots).num(expected_x),
        )
    } else {
        Outcome::launch(
            ctx,
            Launch {
                pipeline: "kernel_moe_fused_routed_q4q5_token_f32"@,
                words: seq![n_hidden as u32, n_ffn as u32, n_expert as u32, topk as u32],
                tensors: seq![
                    w_gate.place(), w_up.place(), w_down.place(), x_pack.place(),
                    topk_idx_pack.place(), topk_w_pack.place(), out.place(),
                ],
                scratch: seq![(n_ffn * 4) as usize],
                threadgroups: MTLSize { width: 1, height: n_tokens, depth: 1 },
                threads: MTLSize { width: 512, height: 1, depth: 1 },
            },
        )
    }
}

/// The whole routed feed-forward of each token, through Q4_K gate and up banks and
/// a Q5_K down bank.
pub fn encode_moe_fused_routed_q4q5_token_f32(
    ctx: &MetalContext,
    enc: &mut KernelEncoder,
    w_gate: &MetalTensor,
    w_up: &MetalTensor,
    w_down: &MetalTensor,
    x_pack: &MetalTensor,
    topk_idx_pack: &MetalTensor,
    topk_w_pack: &MetalTensor,
    out: &MetalTensor,
    n_hidden: usize,
    n_ffn: usize,
    n_expert: usize,
    topk: usize,
    n_tokens: usize,
) -> (r: Result<(), MetalError>)
    requires
        x_pack.wf() && topk_idx_pack.wf() && topk_w_pack.wf() && out.wf(),
        n_hidden % 256 == 0 && n_ffn % 256 == 0 && w_gate.dtype == GgmlType::Q4_K && w_up.dtype
            == GgmlType::Q4_K && w_down.dtype == GgmlType::Q5_K ==> {
            &&& n_tokens * n_hidden <= usize::MAX
            &&& n_tokens * topk <= usize::MAX
            &&& x_pack.count() == n_tokens * n_hidden && topk_idx_pack.count() == n_tokens * topk
                && topk_w_pack.count() == n_tokens * topk && out.count() == n_tokens * n_hidden
                ==> n_ffn * 4 <= usize::MAX
        },
    ensures
        old(enc).did(
            *final(enc),
            r,
            fused_routed_token(
                *ctx,
                *w_gate, *w_up, *w_down, *x_pack, *topk_idx_pack, *topk_w_pack, *out, n_hidden,
                n_ffn, n_expert, topk, n_tokens,
            ),
        ),
{
    if n_hidden % 256 != 0 || n_ffn % 256 != 0 {
        return Err(
            bad_shape(
                "moe_fused_routed_q4q5_token",
                "n_hidden={} and n_ffn={} must both be divisible by 256",
            )
                .num(n_hidden).num(n_ffn),
        );
    }
    if w_gate.dtype != GgmlType::Q4_K || w_up.dtype != GgmlType::Q4_K
        || w_down.dtype != GgmlType::Q5_K {
        return Err(
            bad_shape(
                "moe_fused_routed_q4q5_token",
                "expected gate/up/down dtypes Q4_K/Q4_K/Q5_K, got {}/{}/{}",
            )
                .dtype(w_gate.dtype).dtype(w_up.dtype).dtype(w_down.dtype),
        );
    }
    let expected_x: usize = product(n_tokens, n_hidden);
    let n_slots: usize = product(n_tokens, topk);
    if x_pack.element_count() != expected_x || topk_idx_pack.element_count() != n_slots
        || topk_w_pack.element_count() != n_slots || out.element_count() != expected_x {
        return Err(
            bad_shape(
                "moe_fused_routed_q4q5_token",
                "shape mismatch: x={} idx={} w={} out={} expected x={} idx={} w={} out={}",
            )
                .num_u64(x_pack.n_elements()).num_u64(topk_idx_pack.n_elements())
                .num_u64(topk_w_pack.n_elements()).num_u64(out.n_elements()).num(expected_x)
                .num(n_slots).num(n_slots).num(expected_x),
        );
    }
    let words: Vec<u32> = vec![n_hidden as u32, n_ffn as u32, n_expert as u32, topk as u32];
    assert(words@ =~= seq![n_hidden as u32, n_ffn as u32, n_expert as u32, topk as u32]);
    let tensors = [
        w_gate.binding(), w_up.binding(), w_down.binding(), x_pack.binding(),
        topk_idx_pack.binding(), topk_w_pack.binding(), out.binding(),
    ];
    assert(tensors@ =~= seq![
        w_gate.place(), w_up.place(), w_down.place(), x_pack.place(), topk_idx_pack.place(),
        topk_w_pack.place(), out.place(),
    ]);
    let scratch = [n_ffn * 4];
    assert(scratch@ =~= seq![(n_ffn * 4) as usize]);
    enc.launch(
        ctx,
        "kernel_moe_fused_routed_q4q5_token_f32",
        words,
        &tensors,
        &scratch,
        MTLSize { width: 1, height: n_tokens, depth: 1 },
        MTLSize { width: 512, height: 1, depth: 1 },
    )
}

/// Sum of one token's expert outputs with its routing weights.
pub open spec fn weighted_sum(
    ctx: MetalContext,
    expert_out: MetalTensor,
    weights: MetalTensor,
    out: MetalTensor,
    n_out: usize,
    topk: usize,
) -> Outcome {
    let expected = topk * n_out;
    let threads = ctx.group_threads("kernel_moe_weighted_sum_f32"@);
    if expert_out.count() != expected || weights.count() != topk || out.count() != n_out {
        Outcome::Refused(
            Fault::bad_shape(
                "moe_weighted_sum"@,
                "shape mismatch: expert_out={} weights={} out={} expected {}/{}/{}"@,
            )
                .num(expert_out.elements() as int).num(weights.elements() as int)
                .num(out.elements() as int).num(expected).num(topk as int).num(n_out as int),
        )
    } else {
        Outcome::launch(
            ctx,
            Launch {
                pipeline: "kernel_moe_weighted_sum_f32"@,
                words: seq![n_out as u32, topk as u32],
                tensors: seq![expert_out.place(), weights.place(), out.place()],
                scratch: seq![],
                threadgroups: MTLSize { width: numeric::div_up(n_out, threads), height: 1, depth: 1 },
                threads: MTLSize { width: threads, height: 1, depth: 1 },
            },
        )
    }
}

/// Sum of one token's expert outputs with its routing weights.
pub fn encode_moe_weighted_sum_f32(
    ctx: &MetalContext,
    enc: &mut KernelEncoder,
    expert_out: &MetalTensor,
    weights: &MetalTensor,
    out: &MetalTensor,
    n_out: usize,
    topk: usize,
) -> (r: Result<(), MetalError>)
    requires
        ctx.wf(),
        expert_out.wf() && weights.wf() && out.wf(),
        topk * n_out <= usize::MAX,
    ensures
        old(enc).did(
            *final(enc),
            r,
            weighted_sum(
                *ctx,
                *expert_out, *weights, *out, n_out, topk,
            ),
        ),
{
    let expected: usize = product(topk, n_out);
    if expert_out.element_count() != expected || weights.element_count() != topk
        || out.element_count() != n_out {
        return Err(
            bad_shape(
                "moe_weighted_sum",
                "shape mismatch: expert_out={} weights={} out={} expected {}/{}/{}",
            )
                .num_u64(expert_out.n_elements()).num_u64(weights.n_elements())
                .num_u64(out.n_elements()).num(expected).num(topk).num(n_out),
        );
    }
    let threads: usize = match ctx.pipeline("kernel_moe_weighted_sum_f32") {
        Ok(pipeline) => min_size(pipeline.max_total_threads, 1024),
        Err(e) => {
            return Err(e);
        },
    };
    let words: Vec<u32> = vec![n_out as u32, topk as u32];
    assert(words@ =~= seq![n_out as u32, topk as u32]);
    let tensors = [expert_out.binding(), weights.binding(), out.binding()];
    assert(tensors@ =~= seq![expert_out.place(), weights.place(), out.place()]);
    let scratch: Vec<usize> = Vec::new();
    assert(scratch@ =~= seq![]);
    enc.launch(
        ctx,
        "kernel_moe_weighted_sum_f32",
        words,
        &tensors,
        scratch.as_slice(),
        MTLSize { width: div_ceil(n_out, threads), height: 1, depth: 1 },
        MTLSize { width: threads, height: 1, depth: 1 },
    )
}

/// Sum of each token's expert outputs with its routing weights.
pub open spec fn weighted_sum_packed(
    ctx: MetalContext,
    expert_out: MetalTensor,
    weights: MetalTensor,
    out: MetalTensor,
    n_out: usize,
    topk: usize,
    n_tokens: usize,
) -> Outcome {
    let n_slots = n_tokens * topk;
    let expected = n_slots * n_out;
    let expected_out = n_tokens * n_out;
    if expert_out.count() != expected || weights.count() != n_slots
        || out.count() != expected_out {
        Outcome::Refused(
            Fault::bad_shape(
                "moe_weighted_sum_packed"@,
                "shape mismatch: expert_out={} weights={} out={} expected expert_out={} weights={} out={}"@,
            )
                .num(expert_out.elements() as int).num(weights.elements() as int)
                .num(out.elements() as int).num(expected).num(n_slots).num(expected_out),
        )
    } else {
        Outcome::launch(
            ctx,
            Launch {
                pipeline: "kernel_moe_weighted_sum_packed_f32"@,
                words: seq![n_out as u32, topk as u32],
                tensors: seq![expert_out.place(), weights.place(), out.place()],
                scratch: seq![],
                threadgroups: MTLSize { width: numeric::div_up(n_out, 32), height: n_tokens, depth: 1 },
                threads: MTLSize { width: 32, height: 1, depth: 1 },
            },
        )
    }
}

/// Sum of each token's expert outputs with its routing weights.
pub fn encode_moe_weighted_sum_packed_f32(
    ctx: &MetalContext,
    enc: &mut KernelEncoder,
    expert_out: &MetalTensor,
    weights: &MetalTensor,
    out: &MetalTensor,
    n_out: usize,
    topk: usize,
    n_tokens: usize,
) -> (r: Result<(), MetalError>)
    requires
        expert_out.wf() && weights.wf() && out.wf(),
        n_tokens * topk <= usize::MAX,
        n_tokens * topk * n_out <= usize::MAX,
        n_tokens * n_out <= usize::MAX,
    ensures
        old(enc).did(
            *final(enc),
            r,
            weighted_sum_packed(
                *ctx,
                *expert_out, *weights, *out, n_out, topk, n_tokens,
            ),
        ),
{
    let n_slots: usize = product(n_tokens, topk);
    let expected: usize = product(n_slots, n_out);
    let expected_out: usize = product(n_tokens, n_out);
    if expert_out.element_count() != expected || weights.element_count() != n_slots
        || out.element_count() != expected_out {
        return Err(
            bad_shape(
                "moe_weighted_sum_packed",
                "shape mismatch: expert_out={} weights={} out={} expected expert_out={} weights={} out={}",
            )
                .num_u64(expert_out.n_elements()).num_u64(weights.n_elements())
                .num_u64(out.n_elements()).num(expected).num(n_slots).num(expected_out),
        );
    }
    let words: Vec<u32> = vec![n_out as u32, topk as u32];
    assert(words@ =~= seq![n_out as u32, topk as u32]);
    let tensors = [expert_out.binding(), weights.binding(), out.binding()];
    assert(tensors@ =~= seq![expert_out.place(), weights.place(), out.place()]);
    let scratch: Vec<usize> = Vec::new();
    assert(scratch@ =~= seq![]);
    enc.launch(
        ctx,
        "kernel_moe_weighted_sum_packed_f32",
        words,
        &tensors,
        scratch.as_slice(),
        MTLSize { width: div_ceil(n_out, 32), height: n_tokens, depth: 1 },
        MTLSize { width: 32, height: 1, depth: 1 },
    )
}

/// Add the routed and the gated shared output of each token to its residual.
pub open spec fn grouped_finalizer(
    ctx: MetalContext,
    expert_out: MetalTensor,
    topk_w: MetalTensor,
    shared_gate: MetalTensor,
    shared_out: MetalTensor,
    x_pack: MetalTensor,
    n_out: usize,
    topk: usize,
    n_tokens: usize,
) -> Outcome {
    let n_slots = n_tokens * topk;
    let expected = n_slots * n_out;
    let expected_x = n_tokens * n_out;
    if expert_out.count() != expected || topk_w.count() != n_slots
        || shared_gate.count() != n_tokens || shared_out.count() != expected_x
        || x_pack.count() != expected_x {
        Outcome::Refused(
            Fault::bad_shape(
                "moe_grouped_finalizer"@,
                "shape mismatch: expert_out={} topk_w={} shared_gate={} shared_out={} x_pack={} expected expert_out={} topk_w={} shared_gate={} shared_out={} x_pack={}"@,
            )
                .num(expert_out.elements() as int).num(topk_w.elements() as int)
                .num(shared_gate.elements() as int).num(shared_out.elements() as int)
                .num(x_pack.elements() as int).num(expected).num(n_slots).num(n_tokens as int)
                .num(expected_x).num(expected_x),
        )
    } else {
        Outcome::launch(
            ctx,
            Launch {
                pipeline: "kernel_moe_grouped_finalizer_f32"@,
                words: seq![n_out as u32, topk as u32],
                tensors: seq![
                    expert_out.place(), topk_w.place(), shared_gate.place(), shared_out.place(),
                    x_pack.place(),
                ],
                scratch: seq![],
                threadgroups: MTLSize { width: numeric::div_up(n_out, 64), height: n_tokens, depth: 1 },
                threads: MTLSize { width: 64, height: 1, depth: 1 },
            },
        )
    }
}

/// Add the routed and the gated shared output of each token to its residual.
pub fn encode_moe_grouped_finalizer_f32(
    ctx: &MetalContext,
    enc: &mut KernelEncoder,
    expert_out: &MetalTensor,
    topk_w: &MetalTensor,
    shared_gate: &MetalTensor,
    shared_out: &MetalTensor,
    x_pack: &MetalTensor,
    n_out: usize,
    topk: usize,
    n_tokens: usize,
) -> (r: Result<(), MetalError>)
    requires
        expert_out.wf() && topk_w.wf() && shared_gate.wf() && shared_out.wf() && x_pack.wf(),
        n_tokens * topk <= usize::MAX,
        n_tokens * topk * n_out <= usize::MAX,
        n_tokens * n_out <= usize::MAX,
    ensures
        old(enc).did(
            *final(enc),
            r,
            grouped_finalizer(
                *ctx,
                *expert_out, *topk_w, *shared_gate, *shared_out, *x_pack, n_out, topk, n_tokens,
            ),
        ),
{
    let n_slots: usize = product(n_tokens, topk);
    let expected: usize = product(n_slots, n_out);
    let expected_x: usize = product(n_tokens, n_out);
    if expert_out.element_count() != expected || topk_w.element_count() != n_slots
        || shared_gate.element_count() != n_tokens || shared_out.element_count() != expected_x
        || x_pack.element_count() != expected_x {
        return Err(
            bad_shape(
                "moe_grouped_finalizer",
                "shape mismatch: expert_out={} topk_w={} shared_gate={} shared_out={} x_pack={} expected expert_out={} topk_w={} shared_gate={} shared_out={} x_pack={}",
            )
                .num_u64(expert_out.n_elements()).num_u64(topk_w.n_elements())
                .num_u64(shared_gate.n_elements()).num_u64(shared_out.n_elements())
                .num_u64(x_pack.n_elements()).num(expected).num(n_slots).num(n_tokens)
                .num(expected_x).num(expected_x),
        );
    }
    let words: Vec<u32> = vec![n_out as u32, topk as u32];
    assert(words@ =~= seq![n_out as u32, topk as u32]);
    let tensors = [
        expert_out.binding(), topk_w.binding(), shared_gate.binding(), shared_out.binding(),
        x_pack.binding(),
    ];
    assert(tensors@ =~= seq![
        expert_out.place(), topk_w.place(), shared_gate.place(), shared_out.place(),
        x_pack.place(),
    ]);
    let scratch: Vec<usize> = Vec::new();
    assert(scratch@ =~= seq![]);
    enc.launch(
        ctx,
        "kernel_moe_grouped_finalizer_f32",
        words,
        &tensors,
        scratch.as_slice(),
        MTLSize { width: div_ceil(n_out, 64), height: n_tokens, depth: 1 },
        MTLSize { width: 64, height: 1, depth: 1 },
    )
}

/// Add the gated shared output and the mixer output to the residual.
pub open spec fn shared_accum_resid(
    ctx: MetalContext,
    shared_out: MetalTensor,
    shared_gate: MetalTensor,
    mixer_out: MetalTensor,
    x: MetalTensor,
) -> Outcome {
    let n = x.count();
    let threads = ctx.group_threads("kernel_moe_shared_accum_resid_f32"@);
    if shared_gate.elements() != 1 || shared_out.count() != n || mixer_out.count() != n {
        Outcome::Refused(
            Fault::bad_shape(
                "moe_shared_accum_resid"@,
                "expected shared_gate[1] and shared_out/mixer_out/x n={}, got gate={} shared={} mixer={}"@,
            )
                .num(n as int).num(shared_gate.elements() as int)
                .num(shared_out.elements() as int).num(mixer_out.elements() as int),
        )
    } else {
        Outcome::launch(
            ctx,
            Launch {
                pipeline: "kernel_moe_shared_accum_resid_f32"@,
                words: seq![n as u32],
                tensors: seq![
                    shared_out.place(), shared_gate.place(), mixer_out.place(), x.place(),
                ],
                scratch: seq![],
                threadgroups: MTLSize { width: numeric::div_up(n, threads), height: 1, depth: 1 },
                threads: MTLSize { width: threads, height: 1, depth: 1 },
            },
        )
    }
}

/// Add the gated shared output and the mixer output to the residual.
pub fn encode_moe_shared_accum_resid_f32(
    ctx: &MetalContext,
    enc: &mut KernelEncoder,
    shared_out: &MetalTensor,
    shared_gate: &MetalTensor,
    mixer_out: &MetalTensor,
    x: &MetalTensor,
) -> (r: Result<(), MetalError>)
    requires
        ctx.wf(),
        shared_out.wf() && shared_gate.wf() && mixer_out.wf() && x.wf(),
    ensures
        old(enc).did(
            *final(enc),
            r,
            shared_accum_resid(
                *ctx,
                *shared_out, *shared_gate, *mixer_out, *x,
            ),
        ),
{
    let n: usize = x.element_count();
    if shared_gate.n_elements() != 1 || shared_out.element_count() != n
        || mixer_out.element_count() != n {
        return Err(
            bad_shape(
                "moe_shared_accum_resid",
                "expected shared_gate[1] and shared_out/mixer_out/x n={}, got gate={} shared={} mixer={}",
            )
                .num(n).num_u64(shared_gate.n_elements()).num_u64(shared_out.n_elements())
                .num_u64(mixer_out.n_elements()),
        );
    }
    let threads: usize = match ctx.pipeline("kernel_moe_shared_accum_resid_f32") {
        Ok(pipeline) => min_size(pipeline.max_total_threads, 1024),
        Err(e) => {
            return Err(e);
        },
    };
    let words: Vec<u32> = vec![n as u32];
    assert(words@ =~= seq![n as u32]);
    let tensors = [shared_out.binding(), shared_gate.binding(), mixer_out.binding(), x.binding()];
    assert(
        tensors@ =~= seq![shared_out.place(), shared_gate.place(), mixer_out.place(), x.place()]
    );
    let scratch: Vec<usize> = Vec::new();
    assert(scratch@ =~= seq![]);
    enc.launch(
        ctx,
        "kernel_moe_shared_accum_resid_f32",
        words,
        &tensors,
        scratch.as_slice(),
        MTLSize { width: div_ceil(n, threads), height: 1, depth: 1 },
        MTLSize { width: threads, height: 1, depth: 1 },
    )
}

/// The `k` largest logits and their softmax, by one thread.
pub open spec fn topk_softmax(
    ctx: MetalContext,
    logits: MetalTensor,
    out_idx: MetalTensor,
    out_w: MetalTensor,
    n: usize,
    k: usize,
) -> Outcome {
    if logits.count() != n {
        Outcome::Refused(
            Fault::bad_shape("topk_logits_softmax"@, "logits.n_elements={} != n={}"@)
                .num(logits.elements() as int).num(n as int),
        )
    } else if out_idx.count() != k || out_w.count() != k {
        Outcome::Refused(
            Fault::bad_shape(
                "topk_logits_softmax"@,
                "out_idx/out_w expected {} elements, got {}/{}"@,
            )
                .num(k as int).num(out_idx.elements() as int).num(out_w.elements() as int),
        )
    } else if k == 0 || k > 16 {
        Outcome::Refused(
            Fault::bad_shape("topk_logits_softmax"@, "k={} must be in 1..=16"@).num(k as int),
        )
    } else {
        Outcome::launch(
            ctx,
            Launch {
                pipeline: "kernel_topk_logits_softmax_f32"@,
                words: seq![n as u32, k as u32],
                tensors: seq![logits.place(), out_idx.place(), out_w.place()],
                scratch: seq![],
                threadgroups: MTLSize { width: 1, height: 1, depth: 1 },
                threads: MTLSize { width: 1, height: 1, depth: 1 },
            },
        )
    }
}

/// The `k` largest logits and their softmax, by one thread.
pub fn encode_topk_logits_softmax_f32(
    ctx: &MetalContext,
    enc: &mut KernelEncoder,
    logits: &MetalTensor,
    out_idx: &MetalTensor,
    out_w: &MetalTensor,
    n: usize,
    k: usize,
) -> (r: Result<(), MetalError>)
    requires
        logits.wf() && out_idx.wf() && out_w.wf(),
    ensures
        old(enc).did(
            *final(enc),
            r,
            topk_softmax(
                *ctx,
                *logits, *out_idx, *out_w, n, k,
            ),
        ),
{
    if logits.element_count() != n {
        return Err(
            bad_shape("topk_logits_softmax", "logits.n_elements={} != n={}")
                .num_u64(logits.n_elements()).num(n),
        );
    }
    if out_idx.element_count() != k || out_w.element_count() != k {
        return Err(
            bad_shape("topk_logits_softmax", "out_idx/out_w expected {} elements, got {}/{}")
                .num(k).num_u64(out_idx.n_elements()).num_u64(out_w.n_elements()),
        );
    }
    if k == 0 || k > 16 {
        return Err(
            bad_shape("topk_logits_softmax", "k={} must be in 1..=16").num(k),
        );
    }
    let words: Vec<u32> = vec![n as u32, k as u32];
    assert(words@ =~= seq![n as u32, k as u32]);
    let tensors = [logits.binding(), out_idx.binding(), out_w.binding()];
    assert(tensors@ =~= seq![logits.place(), out_idx.place(), out_w.place()]);
    let scratch: Vec<usize> = Vec::new();
    assert(scratch@ =~= seq![]);
    enc.launch(
        ctx,
        "kernel_topk_logits_softmax_f32",
        words,
        &tensors,
        scratch.as_slice(),
        MTLSize { width: 1, height: 1, depth: 1 },
        MTLSize { width: 1, height: 1, depth: 1 },
    )
}

/// The `k` largest of up to 256 logits and their softmax, by one threadgroup.
pub open spec fn topk_softmax_parallel(
    ctx: MetalContext,
    logits: MetalTensor,
    out_idx: MetalTensor,
    out_w: MetalTensor,
    n: usize,
    k: usize,
) -> Outcome {
    if logits.count() != n {
        Outcome::Refused(
            Fault::bad_shape("topk_logits_softmax_parallel"@, "logits.n_elements={} != n={}"@)
                .num(logits.elements() as int).num(n as int),
        )
    } else if out_idx.count() != k || out_w.count() != k {
        Outcome::Refused(
            Fault::bad_shape(
                "topk_logits_softmax_parallel"@,
                "out_idx/out_w expected {} elements, got {}/{}"@,
            )
                .num(k as int).num(out_idx.elements() as int).num(out_w.elements() as int),
        )
    } else if n == 0 || n > 256 || k == 0 || k > 16 || k > n {
        Outcome::Refused(
            Fault::bad_shape(
                "topk_logits_softmax_parallel"@,
                "expected 1 <= k <= n <= 256 and k <= 16, got n={} k={}"@,
            )
                .num(n as int).num(k as int),
        )
    } else {
        Outcome::launch(
            ctx,
            Launch {
                pipeline: "kernel_topk_logits_softmax_parallel_f32"@,
                words: seq![n as u32, k as u32],
                tensors: seq![logits.place(), out_idx.place(), out_w.place()],
                scratch: seq![1024usize, 1024usize, 1024usize],
                threadgroups: MTLSize { width: 1, height: 1, depth: 1 },
                threads: MTLSize { width: 256, height: 1, depth: 1 },
            },
        )
    }
}

/// The `k` largest of up to 256 logits and their softmax, by one threadgroup.
pub fn encode_topk_logits_softmax_parallel_f32(
    ctx: &MetalContext,
    enc: &mut KernelEncoder,
    logits: &MetalTensor,
    out_idx: &MetalTensor,
    out_w: &MetalTensor,
    n: usize,
    k: usize,
) -> (r: Result<(), MetalError>)
    requires
        logits.wf() && out_idx.wf() && out_w.wf(),
    ensures
        old(enc).did(
            *final(enc),
            r,
            topk_softmax_parallel(
                *ctx,
                *logits, *out_idx, *out_w, n, k,
            ),
        ),
{
    if logits.element_count() != n {
        return Err(
            bad_shape("topk_logits_softmax_parallel", "logits.n_elements={} != n={}")
                .num_u64(logits.n_elements()).num(n),
        );
    }
    if out_idx.element_count() != k || out_w.element_count() != k {
        return Err(
            bad_shape(
                "topk_logits_softmax_parallel",
                "out_idx/out_w expected {} elements, got {}/{}",
            )
                .num(k).num_u64(out_idx.n_elements()).num_u64(out_w.n_elements()),
        );
    }
    if n == 0 || n > 256 || k == 0 || k > 16 || k > n {
        return Err(
            bad_shape(
                "topk_logits_softmax_parallel",
                "expected 1 <= k <= n <= 256 and k <= 16, got n={} k={}",
            )
                .num(n).num(k),
        );
    }
    let words: Vec<u32> = vec![n as u32, k as u32];
    assert(words@ =~= seq![n as u32, k as u32]);
    let tensors = [logits.binding(), out_idx.binding(), out_w.binding()];
    assert(tensors@ =~= seq![logits.place(), out_idx.place(), out_w.place()]);
    let scratch = [1024usize, 1024usize, 1024usize];
    assert(scratch@ =~= seq![1024usize, 1024usize, 1024usize]);
    enc.launch(
        ctx,
        "kernel_topk_logits_softmax_parallel_f32",
        words,
        &tensors,
        &scratch,
        MTLSize { width: 1, height: 1, depth: 1 },
        MTLSize { width: 256, height: 1, depth: 1 },
    )
}

/// Routing of one token, and how far its shared expert is open.
pub open spec fn topk_dot_sigmoid(
    ctx: MetalContext,
    logits: MetalTensor,
    shared_weight: MetalTensor,
    x: MetalTensor,
    out_idx: MetalTensor,
    out_w: MetalTensor,
    shared_out: MetalTensor,
    n_expert: usize,
    topk: usize,
    hidden: usize,
) -> Outcome {
    if logits.dtype != GgmlType::F32 || shared_weight.dtype != GgmlType::F32
        || x.dtype != GgmlType::F32 || out_w.dtype != GgmlType::F32
        || shared_out.dtype != GgmlType::F32 {
        Outcome::Refused(
            Fault::bad_shape(
                "topk_logits_softmax_dot_sigmoid"@,
                "expected F32 logits/shared_weight/x/out_w/shared_out, got {}/{}/{}/{}/{}"@,
            )
                .dtype(logits.dtype).dtype(shared_weight.dtype).dtype(x.dtype).dtype(out_w.dtype)
                .dtype(shared_out.dtype),
        )
    } else if n_expert == 0 || n_expert > 256 || topk == 0 || topk > 16 || topk > n_expert {
        Outcome::Refused(
            Fault::bad_shape(
                "topk_logits_softmax_dot_sigmoid"@,
                "expected 1 <= topk <= n_expert <= 256 and topk <= 16, got n_expert={} topk={}"@,
            )
                .num(n_expert as int).num(topk as int),
        )
    } else if logits.count() != n_expert || out_idx.count() != topk || out_w.count() != topk
        || shared_weight.count() != hidden || x.count() != hidden || shared_out.elements() != 1 {
        Outcome::Refused(
            Fault::bad_shape(
                "topk_logits_softmax_dot_sigmoid"@,
                "shape mismatch logits={} idx={} w={} shared_weight={} x={} shared_out={} expected {}/{}/{}/{}/{}/1"@,
            )
                .num(logits.elements() as int).num(out_idx.elements() as int)
                .num(out_w.elements() as int).num(shared_weight.elements() as int)
                .num(x.elements() as int).num(shared_out.elements() as int).num(n_expert as int)
                .num(topk as int).num(topk as int).num(hidden as int).num(hidden as int),
        )
    } else {
        Outcome::launch(
            ctx,
            Launch {
                pipeline: "kernel_topk_logits_softmax_dot_sigmoid_f32"@,
                words: seq![n_expert as u32, topk as u32, hidden as u32, 1u32],
                tensors: seq![
                    logits.place(), shared_weight.place(), x.place(), out_idx.place(),
                    out_w.place(), shared_out.place(),
                ],
                scratch: seq![1024usize, 1024usize, 1024usize],
                threadgroups: MTLSize { width: 1, height: 1, depth: 1 },
                threads: MTLSize { width: 256, height: 1, depth: 1 },
            },
        )
    }
}

/// Routing of one token, and how far its shared expert is open.
pub fn encode_topk_logits_softmax_dot_sigmoid_f32(
    ctx: &MetalContext,
    enc: &mut KernelEncoder,
    logits: &MetalTensor,
    shared_weight: &MetalTensor,
    x: &MetalTensor,
    out_idx: &MetalTensor,
    out_w: &MetalTensor,
    shared_out: &MetalTensor,
    n_expert: usize,
    topk: usize,
    hidden: usize,
) -> (r: Result<(), MetalError>)
    requires
        logits.wf() && shared_weight.wf() && x.wf() && out_idx.wf() && out_w.wf()
            && shared_out.wf(),
    ensures
        old(enc).did(
            *final(enc),
            r,
            topk_dot_sigmoid(
                *ctx,
                *logits, *shared_weight, *x, *out_idx, *out_w, *shared_out, n_expert, topk,
                hidden,
            ),
        ),
{
    if logits.dtype != GgmlType::F32 || shared_weight.dtype != GgmlType::F32
        || x.dtype != GgmlType::F32 || out_w.dtype != GgmlType::F32
        || shared_out.dtype != GgmlType::F32 {
        return Err(
            bad_shape(
                "topk_logits_softmax_dot_sigmoid",
                "expected F32 logits/shared_weight/x/out_w/shared_out, got {}/{}/{}/{}/{}",
            )
                .dtype(logits.dtype).dtype(shared_weight.dtype).dtype(x.dtype).dtype(out_w.dtype)
                .dtype(shared_out.dtype),
        );
    }
    if n_expert == 0 || n_expert > 256 || topk == 0 || topk > 16 || topk > n_expert {
        return Err(
            bad_shape(
                "topk_logits_softmax_dot_sigmoid",
                "expected 1 <= topk <= n_expert <= 256 and topk <= 16, got n_expert={} topk={}",
            )
                .num(n_expert).num(topk),
        );
    }
    if logits.element_count() != n_expert || out_idx.element_count() != topk
        || out_w.element_count() != topk || shared_weight.element_count() != hidden
        || x.element_count() != hidden || shared_out.n_elements() != 1 {
        return Err(
            bad_shape(
                "topk_logits_softmax_dot_sigmoid",
                "shape mismatch logits={} idx={} w={} shared_weight={} x={} shared_out={} expected {}/{}/{}/{}/{}/1",
            )
                .num_u64(logits.n_elements()).num_u64(out_idx.n_elements())
                .num_u64(out_w.n_elements()).num_u64(shared_weight.n_elements())
                .num_u64(x.n_elements()).num_u64(shared_out.n_elements()).num(n_expert).num(topk)
                .num(topk).num(hidden).num(hidden),
        );
    }
    let words: Vec<u32> = vec![n_expert as u32, topk as u32, hidden as u32, 1u32];
    assert(words@ =~= seq![n_expert as u32, topk as u32, hidden as u32, 1u32]);
    let tensors = [
        logits.binding(), shared_weight.binding(), x.binding(), out_idx.binding(),
        out_w.binding(), shared_out.binding(),
    ];
    assert(tensors@ =~= seq![
        logits.place(), shared_weight.place(), x.place(), out_idx.place(), out_w.place(),
        shared_out.place(),
    ]);
    let scratch = [1024usize, 1024usize, 1024usize];
    assert(scratch@ =~= seq![1024usize, 1024usize, 1024usize]);
    enc.launch(
        ctx,
        "kernel_topk_logits_softmax_dot_sigmoid_f32",
        words,
        &tensors,
        &scratch,
        MTLSize { width: 1, height: 1, depth: 1 },
        MTLSize { width: 256, height: 1, depth: 1 },
    )
}

/// Routing of packed tokens from where its arguments were bound. What the pipeline
/// and the device allow is asked only then, so a refusal leaves the arguments
/// recorded.
pub open spec fn topk_packed_late(
    ctx: MetalContext,
    logits: MetalTensor,
    shared_weight: MetalTensor,
    x: MetalTensor,
    out_idx: MetalTensor,
    out_w: MetalTensor,
    shared_out: MetalTensor,
    n_expert: usize,
    topk: usize,
    hidden: usize,
    n_tokens: usize,
) -> Outcome {
    let name = "kernel_topk_logits_softmax_dot_sigmoid_packed_f32"@;
    let words = seq![n_expert as u32, topk as u32, hidden as u32, n_tokens as u32];
    let tensors = seq![
        logits.place(), shared_weight.place(), x.place(), out_idx.place(), out_w.place(),
        shared_out.place(),
    ];
    let threads: usize = if n_expert <= 256 {
        256
    } else {
        512
    };
    let memory = (threads * 4) as usize;
    match ctx.find_pipeline(name) {
        None => Outcome::Refused(Fault::MissingPipeline(name)),
        Some(pipeline) => {
            let required_memory = pipeline.static_threadgroup_memory + threads * 12;
            if pipeline.max_total_threads < threads {
                Outcome::Abandoned(
                    Launch::arguments(name, words, tensors),
                    Fault::bad_shape(
                        "topk_logits_softmax_dot_sigmoid_packed"@,
                        "512-expert route requires {} threads, pipeline exposes {}"@,
                    ).num(threads as int).num(pipeline.max_total_threads as int),
                )
            } else if required_memory > usize::MAX {
                Outcome::Abandoned(
                    Launch::arguments(name, words, tensors),
                    Fault::bad_shape(
                        "topk_logits_softmax_dot_sigmoid_packed"@,
                        "threadgroup memory requirement overflow"@,
                    ),
                )
            } else if required_memory > ctx.limits.max_threadgroup_memory {
                Outcome::Abandoned(
                    Launch::arguments(name, words, tensors),
                    Fault::bad_shape(
                        "topk_logits_softmax_dot_sigmoid_packed"@,
                        "route requires {} threadgroup bytes, device exposes {}"@,
                    ).num(required_memory).num(ctx.limits.max_threadgroup_memory as int),
                )
            } else {
                Outcome::Recorded(
                    Launch {
                        pipeline: name,
                        words,
                        tensors,
                        scratch: seq![memory, memory, memory],
                        threadgroups: MTLSize { width: 1, height: n_tokens, depth: 1 },
                        threads: MTLSize { width: threads, height: 1, depth: 1 },
                    }.steps(),
                )
            }
        },
    }
}

/// Routing of packed tokens and the gates of their shared expert.
pub open spec fn topk_dot_sigmoid_packed(
    ctx: MetalContext,
    logits: MetalTensor,
    shared_weight: MetalTensor,
    x: MetalTensor,
    out_idx: MetalTensor,
    out_w: MetalTensor,
    shared_out: MetalTensor,
    n_expert: usize,
    topk: usize,
    hidden: usize,
    n_tokens: usize,
) -> Outcome {
    let logits_elements = n_tokens * n_expert;
    let topk_elements = n_tokens * topk;
    let input_elements = n_tokens * hidden;
    if logits.dtype != GgmlType::F32 || shared_weight.dtype != GgmlType::F32
        || x.dtype != GgmlType::F32 || !AllowedDtypes::I32OrF32.admits(out_idx.dtype)
        || out_w.dtype != GgmlType::F32 || shared_out.dtype != GgmlType::F32 {
        Outcome::Refused(
            Fault::bad_shape(
                "topk_logits_softmax_dot_sigmoid_packed"@,
                "expected F32 logits/shared_weight/x/out_w/shared_out and I32-or-F32 indices, got {}/{}/{}/{}/{}/{}"@,
            )
                .dtype(logits.dtype).dtype(shared_weight.dtype).dtype(x.dtype)
                .dtype(out_idx.dtype).dtype(out_w.dtype).dtype(shared_out.dtype),
        )
    } else if n_expert == 0 || n_expert > 512 || topk == 0 || topk > 16 || topk > n_expert {
        Outcome::Refused(
            Fault::bad_shape(
                "topk_logits_softmax_dot_sigmoid_packed"@,
                "expected 1 <= topk <= n_expert <= 512 and topk <= 16, got n_expert={} topk={}"@,
            )
                .num(n_expert as int).num(topk as int),
        )
    } else if hidden == 0 || n_tokens == 0 {
        Outcome::Refused(
            Fault::bad_shape(
                "topk_logits_softmax_dot_sigmoid_packed"@,
                "hidden={} and n_tokens={} must be nonzero"@,
            )
                .num(hidden as int).num(n_tokens as int),
        )
    } else if Fault::beyond_u32(
        "topk_logits_softmax_dot_sigmoid_packed"@,
        "n_expert"@,
        n_expert,
    ) is Some {
        Outcome::Refused(
            Fault::beyond_u32("topk_logits_softmax_dot_sigmoid_packed"@, "n_expert"@, n_expert)->0,
        )
    } else if Fault::beyond_u32("topk_logits_softmax_dot_sigmoid_packed"@, "topk"@, topk) is Some {
        Outcome::Refused(
            Fault::beyond_u32("topk_logits_softmax_dot_sigmoid_packed"@, "topk"@, topk)->0,
        )
    } else if Fault::beyond_u32(
        "topk_logits_softmax_dot_sigmoid_packed"@,
        "hidden"@,
        hidden,
    ) is Some {
        Outcome::Refused(
            Fault::beyond_u32("topk_logits_softmax_dot_sigmoid_packed"@, "hidden"@, hidden)->0,
        )
    } else if Fault::beyond_u32(
        "topk_logits_softmax_dot_sigmoid_packed"@,
        "n_tokens"@,
        n_tokens,
    ) is Some {
        Outcome::Refused(
            Fault::beyond_u32("topk_logits_softmax_dot_sigmoid_packed"@, "n_tokens"@, n_tokens)->0,
        )
    } else if logits_elements > usize::MAX {
        Outcome::Refused(
            Fault::bad_shape(
                "topk_logits_softmax_dot_sigmoid_packed"@,
                "{} element count overflow: {}*{}"@,
            )
                .label("logits"@).num(n_tokens as int).num(n_expert as int),
        )
    } else if topk_elements > usize::MAX {
        Outcome::Refused(
            Fault::bad_shape(
                "topk_logits_softmax_dot_sigmoid_packed"@,
                "{} element count overflow: {}*{}"@,
            )
                .label("top-k"@).num(n_tokens as int).num(topk as int),
        )
    } else if input_elements > usize::MAX {
        Outcome::Refused(
            Fault::bad_shape(
                "topk_logits_softmax_dot_sigmoid_packed"@,
                "{} element count overflow: {}*{}"@,
            )
                .label("input"@).num(n_tokens as int).num(hidden as int),
        )
    } else if logits.count() != logits_elements || out_idx.count() != topk_elements
        || out_w.count() != topk_elements || shared_weight.count() != hidden
        || x.count() != input_elements || shared_out.count() != n_tokens {
        Outcome::Refused(
            Fault::bad_shape(
                "topk_logits_softmax_dot_sigmoid_packed"@,
                "shape mismatch logits={} idx={} w={} shared_weight={} x={} shared_out={} expected {}/{}/{}/{}/{}/{}"@,
            )
                .num(logits.elements() as int).num(out_idx.elements() as int)
                .num(out_w.elements() as int).num(shared_weight.elements() as int)
                .num(x.elements() as int).num(shared_out.elements() as int).num(logits_elements)
                .num(topk_elements).num(topk_elements).num(hidden as int).num(input_elements)
                .num(n_tokens as int),
        )
    } else {
        topk_packed_late(
            ctx,
            logits,
            shared_weight,
            x,
            out_idx,
            out_w,
            shared_out,
            n_expert,
            topk,
            hidden,
            n_tokens,
        )
    }
}

/// Routing of packed tokens and the gates of their shared expert.
pub fn encode_topk_logits_softmax_dot_sigmoid_packed_f32(
    ctx: &MetalContext,
    enc: &mut KernelEncoder,
    logits: &MetalTensor,
    shared_weight: &MetalTensor,
    x: &MetalTensor,
    out_idx: &MetalTensor,
    out_w: &MetalTensor,
    shared_out: &MetalTensor,
    n_expert: usize,
    topk: usize,
    hidden: usize,
    n_tokens: usize,
) -> (r: Result<(), MetalError>)
    requires
        logits.wf() && shared_weight.wf() && x.wf() && out_idx.wf() && out_w.wf()
            && shared_out.wf(),
    ensures
        old(enc).did(
            *final(enc),
            r,
            topk_dot_sigmoid_packed(
                *ctx,
                *logits, *shared_weight, *x, *out_idx, *out_w, *shared_out, n_expert, topk,
                hidden, n_tokens,
            ),
        ),
{
    if logits.dtype != GgmlType::F32 || shared_weight.dtype != GgmlType::F32
        || x.dtype != GgmlType::F32 || !AllowedDtypes::I32OrF32.contains(out_idx.dtype)
        || out_w.dtype != GgmlType::F32 || shared_out.dtype != GgmlType::F32 {
        return Err(
            bad_shape(
                "topk_logits_softmax_dot_sigmoid_packed",
                "expected F32 logits/shared_weight/x/out_w/shared_out and I32-or-F32 indices, got {}/{}/{}/{}/{}/{}",
            )
                .dtype(logits.dtype).dtype(shared_weight.dtype).dtype(x.dtype)
                .dtype(out_idx.dtype).dtype(out_w.dtype).dtype(shared_out.dtype),
        );
    }
    if n_expert == 0 || n_expert > 512 || topk == 0 || topk > 16 || topk > n_expert {
        return Err(
            bad_shape(
                "topk_logits_softmax_dot_sigmoid_packed",
                "expected 1 <= topk <= n_expert <= 512 and topk <= 16, got n_expert={} topk={}",
            )
                .num(n_expert).num(topk),
        );
    }
    if hidden == 0 || n_tokens == 0 {
        return Err(
            bad_shape(
                "topk_logits_softmax_dot_sigmoid_packed",
                "hidden={} and n_tokens={} must be nonzero",
            )
                .num(hidden).num(n_tokens),
        );
    }
    match narrow_u32("topk_logits_softmax_dot_sigmoid_packed", "n_expert", n_expert) {
        Ok(_) => {},
        Err(e) => {
            return Err(e);
        },
    }
    match narrow_u32("topk_logits_softmax_dot_sigmoid_packed", "topk", topk) {
        Ok(_) => {},
        Err(e) => {
            return Err(e);
        },
    }
    match narrow_u32("topk_logits_softmax_dot_sigmoid_packed", "hidden", hidden) {
        Ok(_) => {},
        Err(e) => {
            return Err(e);
        },
    }
    match narrow_u32("topk_logits_softmax_dot_sigmoid_packed", "n_tokens", n_tokens) {
        Ok(_) => {},
        Err(e) => {
            return Err(e);
        },
    }
    let logits_elements: usize = match n_tokens.checked_mul(n_expert) {
        Some(n) => n,
        None => {
            return Err(
                bad_shape(
                    "topk_logits_softmax_dot_sigmoid_packed",
                    "{} element count overflow: {}*{}",
                )
                    .label("logits").num(n_tokens).num(n_expert),
            );
        },
    };
    let topk_elements: usize = match n_tokens.checked_mul(topk) {
        Some(n) => n,
        None => {
            return Err(
                bad_shape(
                    "topk_logits_softmax_dot_sigmoid_packed",
                    "{} element count overflow: {}*{}",
                )
                    .label("top-k").num(n_tokens).num(topk),
            );
        },
    };
    let input_elements: usize = match n_tokens.checked_mul(hidden) {
        Some(n) => n,
        None => {
            return Err(
                bad_shape(
                    "topk_logits_softmax_dot_sigmoid_packed",
                    "{} element count overflow: {}*{}",
                )
                    .label("input").num(n_tokens).num(hidden),
            );
        },
    };
    if logits.element_count() != logits_elements || out_idx.element_count() != topk_elements
        || out_w.element_count() != topk_elements || shared_weight.element_count() != hidden
        || x.element_count() != input_elements || shared_out.element_count() != n_tokens {
        return Err(
            bad_shape(
                "topk_logits_softmax_dot_sigmoid_packed",
                "shape mismatch logits={} idx={} w={} shared_weight={} x={} shared_out={} expected {}/{}/{}/{}/{}/{}",
            )
                .num_u64(logits.n_elements()).num_u64(out_idx.n_elements())
                .num_u64(out_w.n_elements()).num_u64(shared_weight.n_elements())
                .num_u64(x.n_elements()).num_u64(shared_out.n_elements()).num(logits_elements)
                .num(topk_elements).num(topk_elements).num(hidden).num(input_elements)
                .num(n_tokens),
        );
    }
    let pipeline = match ctx.pipeline("kernel_topk_logits_softmax_dot_sigmoid_packed_f32") {
        Ok(pipeline) => pipeline,
        Err(e) => {
            return Err(e);
        },
    };
    let words: Vec<u32> = vec![n_expert as u32, topk as u32, hidden as u32, n_tokens as u32];
    let tensors = [
        logits.binding(), shared_weight.binding(), x.binding(), out_idx.binding(),
        out_w.binding(), shared_out.binding(),
    ];
    assert(words@ =~= seq![n_expert as u32, topk as u32, hidden as u32, n_tokens as u32]);
    assert(tensors@ =~= seq![
        logits.place(), shared_weight.place(), x.place(), out_idx.place(), out_w.place(),
        shared_out.place(),
    ]);
    let ghost arguments = Launch::arguments(
        "kernel_topk_logits_softmax_dot_sigmoid_packed_f32"@,
        words@,
        tensors@,
    );
    enc.set_arguments(pipeline, words, &tensors);
    let threads: usize = if n_expert <= 256 {
        256
    } else {
        512
    };
    if pipeline.max_total_threads < threads {
        return Err(
            bad_shape(
                "topk_logits_softmax_dot_sigmoid_packed",
                "512-expert route requires {} threads, pipeline exposes {}",
            ).num(threads)
                .num(pipeline.max_total_threads),
        );
    }
    let required_memory: usize = match pipeline.static_threadgroup_memory.checked_add(threads * 12) {
        Some(n) => n,
        None => {
            return Err(
                bad_shape(
                    "topk_logits_softmax_dot_sigmoid_packed",
                    "threadgroup memory requirement overflow",
                ),
            );
        },
    };
    if required_memory > ctx.limits.max_threadgroup_memory {
        return Err(
            bad_shape(
                "topk_logits_softmax_dot_sigmoid_packed",
                "route requires {} threadgroup bytes, device exposes {}",
            ).num(
                required_memory,
            ).num(ctx.limits.max_threadgroup_memory),
        );
    }
    enc.set_threadgroup_memory(0, threads * 4);
    enc.set_threadgroup_memory(1, threads * 4);
    enc.set_threadgroup_memory(2, threads * 4);
    enc.dispatch(
        MTLSize { width: 1, height: n_tokens, depth: 1 },
        MTLSize { width: threads, height: 1, depth: 1 },
    );
    proof {
        let memory = (threads * 4) as usize;
        let launch = Launch {
            pipeline: "kernel_topk_logits_softmax_dot_sigmoid_packed_f32"@,
            words: words@,
            tensors: tensors@,
            scratch: seq![memory, memory, memory],
            threadgroups: MTLSize { width: 1, height: n_tokens, depth: 1 },
            threads: MTLSize { width: threads, height: 1, depth: 1 },
        };
        assert(enc@ =~= old(enc)@ + launch.steps());
    }
    Ok(())
}

/// List the slots of each expert.
pub open spec fn route_bucket_slots(
    ctx: MetalContext,
    topk_idx: MetalTensor,
    counts: MetalTensor,
    ids: MetalTensor,
    n_expert: usize,
    n_tokens: usize,
    topk: usize,
) -> Outcome {
    let n_slots = n_tokens * topk;
    let expected_ids = n_expert * n_tokens;
    if topk_idx.count() != n_slots || counts.count() != n_expert
        || ids.count() != expected_ids {
        Outcome::Refused(
            Fault::bad_shape(
                "moe_route_bucket_slots"@,
                "shape mismatch idx={} counts={} ids={} expected idx={} counts={} ids={}"@,
            )
                .num(topk_idx.elements() as int).num(counts.elements() as int)
                .num(ids.elements() as int).num(n_slots).num(n_expert as int).num(expected_ids),
        )
    } else {
        Outcome::launch(
            ctx,
            Launch {
                pipeline: "kernel_moe_route_bucket_slots_f32"@,
                words: seq![n_expert as u32, n_tokens as u32, topk as u32],
                tensors: seq![topk_idx.place(), counts.place(), ids.place()],
                scratch: seq![],
                threadgroups: MTLSize { width: numeric::div_up(n_expert, 256), height: 1, depth: 1 },
                threads: MTLSize { width: 256, height: 1, depth: 1 },
            },
        )
    }
}

/// List the slots of each expert.
pub fn encode_moe_route_bucket_slots_f32(
    ctx: &MetalContext,
    enc: &mut KernelEncoder,
    topk_idx: &MetalTensor,
    counts: &MetalTensor,
    ids: &MetalTensor,
    n_expert: usize,
    n_tokens: usize,
    topk: usize,
) -> (r: Result<(), MetalError>)
    requires
        topk_idx.wf() && counts.wf() && ids.wf(),
        n_tokens * topk <= usize::MAX,
        n_expert * n_tokens <= usize::MAX,
    ensures
        old(enc).did(
            *final(enc),
            r,
            route_bucket_slots(
                *ctx,
                *topk_idx, *counts, *ids, n_expert, n_tokens, topk,
            ),
        ),
{
    let n_slots: usize = product(n_tokens, topk);
    let expected_ids: usize = product(n_expert, n_tokens);
    if topk_idx.element_count() != n_slots || counts.element_count() != n_expert
        || ids.element_count() != expected_ids {
        return Err(
            bad_shape(
                "moe_route_bucket_slots",
                "shape mismatch idx={} counts={} ids={} expected idx={} counts={} ids={}",
            )
                .num_u64(topk_idx.n_elements()).num_u64(counts.n_elements())
                .num_u64(ids.n_elements()).num(n_slots).num(n_expert).num(expected_ids),
        );
    }
    let words: Vec<u32> = vec![n_expert as u32, n_tokens as u32, topk as u32];
    assert(words@ =~= seq![n_expert as u32, n_tokens as u32, topk as u32]);
    let tensors = [topk_idx.binding(), counts.binding(), ids.binding()];
    assert(tensors@ =~= seq![topk_idx.place(), counts.place(), ids.place()]);
    let scratch: Vec<usize> = Vec::new();
    assert(scratch@ =~= seq![]);
    enc.launch(
        ctx,
        "kernel_moe_route_bucket_slots_f32",
        words,
        &tensors,
        scratch.as_slice(),
        MTLSize { width: div_ceil(n_expert, 256), height: 1, depth: 1 },
        MTLSize { width: 256, height: 1, depth: 1 },
    )
}

} // verus!
