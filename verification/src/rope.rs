//! Rotary embedding kernels.

use vstd::prelude::*;

use crate::context::MetalContext;
use crate::dtype::GgmlType;
use crate::encoder::{KernelEncoder, Launch, MTLSize, Outcome};
use crate::error::{bad_shape, Fault, MetalError};
use crate::float_bits::F32Bits;
use crate::numeric;
use crate::numeric::{div_ceil, max_size, product};
use crate::tensor::MetalTensor;

verus! {

/// The last position for which the minimax reduction was validated.
pub const ROPE_MINIMAX_MAX_VALIDATED_POSITION: u32 = 1_048_575;

/// Rotate the first `n_rot` channels of every head in place.
pub open spec fn rope_neox(
    ctx: MetalContext,
    buf: MetalTensor,
    n_heads: usize,
    head_dim: usize,
    n_rot: usize,
    position: u32,
    theta_base: F32Bits,
) -> Outcome {
    let want = n_heads * head_dim;
    let total_pairs = (n_heads * (n_rot / 2)) as usize;
    if buf.count() != want {
        Outcome::Refused(
            Fault::bad_shape("rope_neox"@, "buf.n={} != n_heads*head_dim={}"@)
                .num(buf.elements() as int).num(want),
        )
    } else if n_rot % 2 != 0 || n_rot > head_dim {
        Outcome::Refused(
            Fault::bad_shape("rope_neox"@, "n_rot={} must be even and ≤ head_dim={}"@)
                .num(n_rot as int).num(head_dim as int),
        )
    } else {
        Outcome::launch(
            ctx,
            Launch {
                pipeline: "kernel_rope_neox_f32"@,
                words: seq![
                    n_heads as u32, head_dim as u32, n_rot as u32, position, theta_base.bits,
                ],
                tensors: seq![buf.place()],
                scratch: seq![],
                threadgroups: MTLSize { width: numeric::div_up(total_pairs, 64), height: 1, depth: 1 },
                threads: MTLSize { width: 64, height: 1, depth: 1 },
            },
        )
    }
}

/// Rotate the first `n_rot` channels of every head in place, by one position.
pub fn encode_rope_neox_f32(
    ctx: &MetalContext,
    enc: &mut KernelEncoder,
    buf: &MetalTensor,
    n_heads: usize,
    head_dim: usize,
    n_rot: usize,
    position: u32,
    theta_base: F32Bits,
) -> (r: Result<(), MetalError>)
    requires
        buf.wf(),
        n_heads * head_dim <= usize::MAX,
    ensures
        old(enc).did(
            *final(enc),
            r,
            rope_neox(
                *ctx,
                *buf, n_heads, head_dim, n_rot, position, theta_base,
            ),
        ),
{
    let want: usize = product(n_heads, head_dim);
    if buf.element_count() != want {
        return Err(
            bad_shape("rope_neox", "buf.n={} != n_heads*head_dim={}")
                .num_u64(buf.n_elements()).num(want),
        );
    }
    if n_rot % 2 != 0 || n_rot > head_dim {
        return Err(
            bad_shape("rope_neox", "n_rot={} must be even and ≤ head_dim={}")
                .num(n_rot).num(head_dim),
        );
    }
    assert(n_heads * (n_rot / 2) <= n_heads * head_dim) by (nonlinear_arith)
        requires
            n_rot <= head_dim,
    ;
    let total_pairs: usize = product(n_heads, n_rot / 2);
    let words: Vec<u32> = vec![
        n_heads as u32,
        head_dim as u32,
        n_rot as u32,
        position,
        theta_base.bits,
    ];
    assert(
        words@ =~= seq![n_heads as u32, head_dim as u32, n_rot as u32, position, theta_base.bits]
    );
    let tensors = [buf.binding()];
    assert(tensors@ =~= seq![buf.place()]);
    let scratch: Vec<usize> = Vec::new();
    assert(scratch@ =~= seq![]);
    enc.launch(
        ctx,
        "kernel_rope_neox_f32",
        words,
        &tensors,
        scratch.as_slice(),
        MTLSize { width: div_ceil(total_pairs, 64), height: 1, depth: 1 },
        MTLSize { width: 64, height: 1, depth: 1 },
    )
}

/// Some of the `n_tokens` positions from `start_position` on lie beyond the last
/// validated one.
pub open spec fn minimax_span_fault(
    start_position: u32,
    n_tokens: usize,
    kernel: Seq<char>,
) -> Option<Fault> {
    if n_tokens > 0 && start_position + n_tokens - 1 > ROPE_MINIMAX_MAX_VALIDATED_POSITION {
        Some(
            Fault::bad_shape(
                kernel,
                "benchmark-only minimax reduction is validated only through position {}"@,
            ).num(ROPE_MINIMAX_MAX_VALIDATED_POSITION as int),
        )
    } else {
        None
    }
}

/// Hold the positions to those for which the minimax reduction was validated.
pub fn validate_rope_minimax_position_span(
    start_position: u32,
    n_tokens: usize,
    kernel: &'static str,
) -> (r: Result<(), MetalError>)
    ensures
        match minimax_span_fault(start_position, n_tokens, kernel@) {
            Some(fault) => r is Err && r->Err_0@ == fault,
            None => r is Ok,
        },
{
    if n_tokens == 0 {
        return Ok(());
    }
    let span: usize = if start_position <= ROPE_MINIMAX_MAX_VALIDATED_POSITION {
        (ROPE_MINIMAX_MAX_VALIDATED_POSITION - start_position) as usize + 1
    } else {
        0
    };
    if n_tokens > span {
        return Err(
            bad_shape(
                kernel,
                "benchmark-only minimax reduction is validated only through position {}",
            ).num_u64(ROPE_MINIMAX_MAX_VALIDATED_POSITION as u64),
        );
    }
    Ok(())
}

/// Rotate Q and K in place with one launch. A kernel that shares its coefficients
/// across heads runs one lane per rotated pair, the others one per pair and head.
pub open spec fn rope_pair(
    ctx: MetalContext,
    q: MetalTensor,
    k: MetalTensor,
    n_q_heads: usize,
    n_k_heads: usize,
    head_dim: usize,
    n_rot: usize,
    position: u32,
    theta_base: F32Bits,
    kernel_name: &'static str,
    shared_across_heads: bool,
) -> Outcome {
    let q_want = n_q_heads * head_dim;
    let k_want = n_k_heads * head_dim;
    let q_bytes = q_want * 4;
    let k_bytes = k_want * 4;
    let heads_per_pair = if shared_across_heads {
        1usize
    } else {
        numeric::larger(n_q_heads, n_k_heads)
    };
    let group = if shared_across_heads {
        32usize
    } else {
        64usize
    };
    let total_pairs = heads_per_pair * (n_rot / 2);
    let n_tg = numeric::div_up(total_pairs as usize, group);
    let dispatched_threads = n_tg * group;
    if q.dtype != GgmlType::F32 || k.dtype != GgmlType::F32 || !q.writable()
        || !k.writable() {
        Outcome::Refused(
            Fault::bad_shape(
                "rope_neox_pair"@,
                "Q/K must be writable F32 tensors, got {}/{} writable={}/{}"@,
            )
                .dtype(q.dtype).dtype(k.dtype).flag(q.writable()).flag(k.writable()),
        )
    } else if n_q_heads == 0 || n_k_heads == 0 || head_dim == 0 || n_rot == 0 {
        Outcome::Refused(
            Fault::bad_shape(
                "rope_neox_pair"@,
                "head counts, head_dim, and n_rot must be nonzero"@,
            ),
        )
    } else if n_rot % 2 != 0 || n_rot > head_dim {
        Outcome::Refused(
            Fault::bad_shape("rope_neox_pair"@, "n_rot={} must be even and <= head_dim={}"@)
                .num(n_rot as int).num(head_dim as int),
        )
    } else if !theta_base.finite() || theta_base.at_most_one() {
        Outcome::Refused(
            Fault::bad_shape("rope_neox_pair"@, "theta_base must be finite and greater than one"@),
        )
    } else if q.overlaps(k) {
        Outcome::Refused(
            Fault::bad_shape("rope_neox_pair"@, "writable Q and K tensors must not overlap"@),
        )
    } else if q_want > usize::MAX {
        Outcome::Refused(
            Fault::bad_shape("rope_neox_pair"@, "q head shape overflow"@),
        )
    } else if k_want > usize::MAX {
        Outcome::Refused(
            Fault::bad_shape("rope_neox_pair"@, "k head shape overflow"@),
        )
    } else if q.count() != q_want || k.count() != k_want {
        Outcome::Refused(
            Fault::bad_shape("rope_neox_pair"@, "q/k expected {}/{} elements, got {}/{}"@)
                .num(q_want).num(k_want).num(q.elements() as int).num(k.elements() as int),
        )
    } else if q_bytes > usize::MAX {
        Outcome::Refused(
            Fault::bad_shape("rope_neox_pair"@, "Q byte size overflow"@),
        )
    } else if k_bytes > usize::MAX {
        Outcome::Refused(
            Fault::bad_shape("rope_neox_pair"@, "K byte size overflow"@),
        )
    } else if !q.range_valid(q_bytes as usize, 4) || !k.range_valid(k_bytes as usize, 4) {
        Outcome::Refused(
            Fault::bad_shape(
                "rope_neox_pair"@,
                "Q/K byte range is unaligned or outside its Metal buffer"@,
            ),
        )
    } else if q_want > u32::MAX {
        Outcome::Refused(
            Fault::bad_shape("rope_neox_pair"@, "Q index range exceeds u32"@),
        )
    } else if k_want > u32::MAX {
        Outcome::Refused(
            Fault::bad_shape("rope_neox_pair"@, "K index range exceeds u32"@),
        )
    } else if n_q_heads > u32::MAX {
        Outcome::Refused(
            Fault::bad_shape("rope_neox_pair"@, "n_q_heads exceeds u32"@),
        )
    } else if n_k_heads > u32::MAX {
        Outcome::Refused(
            Fault::bad_shape("rope_neox_pair"@, "n_k_heads exceeds u32"@),
        )
    } else if head_dim > u32::MAX {
        Outcome::Refused(
            Fault::bad_shape("rope_neox_pair"@, "head_dim exceeds u32"@),
        )
    } else if n_rot > u32::MAX {
        Outcome::Refused(
            Fault::bad_shape("rope_neox_pair"@, "n_rot exceeds u32"@),
        )
    } else if total_pairs > usize::MAX {
        Outcome::Refused(
            Fault::bad_shape("rope_neox_pair"@, "dispatch width overflow"@),
        )
    } else if dispatched_threads > usize::MAX {
        Outcome::Refused(
            Fault::bad_shape("rope_neox_pair"@, "dispatch grid overflow"@),
        )
    } else if dispatched_threads > u32::MAX {
        Outcome::Refused(
            Fault::bad_shape("rope_neox_pair"@, "dispatch grid exceeds u32"@),
        )
    } else {
        Outcome::launch(
            ctx,
            Launch {
                pipeline: kernel_name@,
                words: seq![
                    n_q_heads as u32, n_k_heads as u32, head_dim as u32, n_rot as u32, position,
                    theta_base.bits,
                ],
                tensors: seq![q.place(), k.place()],
                scratch: seq![],
                threadgroups: MTLSize { width: n_tg, height: 1, depth: 1 },
                threads: MTLSize { width: group, height: 1, depth: 1 },
            },
        )
    }
}

/// Rotate Q and K in place with one launch.
pub fn encode_rope_neox_pair_f32_impl(
    ctx: &MetalContext,
    enc: &mut KernelEncoder,
    q: &MetalTensor,
    k: &MetalTensor,
    n_q_heads: usize,
    n_k_heads: usize,
    head_dim: usize,
    n_rot: usize,
    position: u32,
    theta_base: F32Bits,
    kernel_name: &'static str,
    shared_across_heads: bool,
) -> (r: Result<(), MetalError>)
    requires
        q.wf() && k.wf(),
    ensures
        old(enc).did(
            *final(enc),
            r,
            rope_pair(
                *ctx,
                *q, *k, n_q_heads, n_k_heads, head_dim, n_rot, position, theta_base,
                kernel_name, shared_across_heads,
            ),
        ),
{
    if q.dtype != GgmlType::F32 || k.dtype != GgmlType::F32 || !q.is_writable()
        || !k.is_writable() {
        return Err(
            bad_shape(
                "rope_neox_pair",
                "Q/K must be writable F32 tensors, got {}/{} writable={}/{}",
            )
                .dtype(q.dtype).dtype(k.dtype).flag(q.is_writable()).flag(k.is_writable()),
        );
    }
    if n_q_heads == 0 || n_k_heads == 0 || head_dim == 0 || n_rot == 0 {
        return Err(
            bad_shape("rope_neox_pair", "head counts, head_dim, and n_rot must be nonzero"),
        );
    }
    if n_rot % 2 != 0 || n_rot > head_dim {
        return Err(
            bad_shape("rope_neox_pair", "n_rot={} must be even and <= head_dim={}")
                .num(n_rot).num(head_dim),
        );
    }
    if !theta_base.is_finite() || theta_base.is_at_most_one() {
        return Err(
            bad_shape("rope_neox_pair", "theta_base must be finite and greater than one"),
        );
    }
    if q.ranges_overlap(k) {
        return Err(
            bad_shape("rope_neox_pair", "writable Q and K tensors must not overlap"),
        );
    }
    let q_want: usize = match n_q_heads.checked_mul(head_dim) {
        Some(n) => n,
        None => {
            return Err(
                bad_shape("rope_neox_pair", "q head shape overflow"),
            );
        },
    };
    let k_want: usize = match n_k_heads.checked_mul(head_dim) {
        Some(n) => n,
        None => {
            return Err(
                bad_shape("rope_neox_pair", "k head shape overflow"),
            );
        },
    };
    if q.element_count() != q_want || k.element_count() != k_want {
        return Err(
            bad_shape("rope_neox_pair", "q/k expected {}/{} elements, got {}/{}")
                .num(q_want).num(k_want).num_u64(q.n_elements()).num_u64(k.n_elements()),
        );
    }
    let q_bytes: usize = match q_want.checked_mul(4) {
        Some(n) => n,
        None => {
            return Err(
                bad_shape("rope_neox_pair", "Q byte size overflow"),
            );
        },
    };
    let k_bytes: usize = match k_want.checked_mul(4) {
        Some(n) => n,
        None => {
            return Err(
                bad_shape("rope_neox_pair", "K byte size overflow"),
            );
        },
    };
    if !q.physical_range_valid(q_bytes, 4) || !k.physical_range_valid(k_bytes, 4) {
        return Err(
            bad_shape("rope_neox_pair", "Q/K byte range is unaligned or outside its Metal buffer"),
        );
    }
    if q_want > u32::MAX as usize {
        return Err(
            bad_shape("rope_neox_pair", "Q index range exceeds u32"),
        );
    }
    if k_want > u32::MAX as usize {
        return Err(
            bad_shape("rope_neox_pair", "K index range exceeds u32"),
        );
    }
    if n_q_heads > u32::MAX as usize {
        return Err(
            bad_shape("rope_neox_pair", "n_q_heads exceeds u32"),
        );
    }
    if n_k_heads > u32::MAX as usize {
        return Err(
            bad_shape("rope_neox_pair", "n_k_heads exceeds u32"),
        );
    }
    if head_dim > u32::MAX as usize {
        return Err(
            bad_shape("rope_neox_pair", "head_dim exceeds u32"),
        );
    }
    if n_rot > u32::MAX as usize {
        return Err(
            bad_shape("rope_neox_pair", "n_rot exceeds u32"),
        );
    }
    let heads_per_pair: usize = if shared_across_heads {
        1
    } else {
        max_size(n_q_heads, n_k_heads)
    };
    let group: usize = if shared_across_heads {
        32
    } else {
        64
    };
    let total_pairs: usize = match heads_per_pair.checked_mul((n_rot / 2)) {
        Some(n) => n,
        None => {
            return Err(
                bad_shape("rope_neox_pair", "dispatch width overflow"),
            );
        },
    };
    let n_tg: usize = div_ceil(total_pairs, group);
    let dispatched_threads: usize = match n_tg.checked_mul(group) {
        Some(n) => n,
        None => {
            return Err(
                bad_shape("rope_neox_pair", "dispatch grid overflow"),
            );
        },
    };
    if dispatched_threads > u32::MAX as usize {
        return Err(
            bad_shape("rope_neox_pair", "dispatch grid exceeds u32"),
        );
    }
    let words: Vec<u32> = vec![
        n_q_heads as u32, n_k_heads as u32, head_dim as u32, n_rot as u32, position,
        theta_base.bits,
    ];
    assert(words@ =~= seq![
        n_q_heads as u32, n_k_heads as u32, head_dim as u32, n_rot as u32, position,
        theta_base.bits,
    ]);
    let tensors = [q.binding(), k.binding()];
    assert(tensors@ =~= seq![q.place(), k.place()]);
    let scratch: Vec<usize> = Vec::new();
    assert(scratch@ =~= seq![]);
    enc.launch(
        ctx,
        kernel_name,
        words,
        &tensors,
        scratch.as_slice(),
        MTLSize { width: n_tg, height: 1, depth: 1 },
        MTLSize { width: group, height: 1, depth: 1 },
    )
}

/// Rotate Q and K in place with one launch.
pub fn encode_rope_neox_pair_f32(
    ctx: &MetalContext,
    enc: &mut KernelEncoder,
    q: &MetalTensor,
    k: &MetalTensor,
    n_q_heads: usize,
    n_k_heads: usize,
    head_dim: usize,
    n_rot: usize,
    position: u32,
    theta_base: F32Bits,
) -> (r: Result<(), MetalError>)
    requires
        q.wf() && k.wf(),
    ensures
        old(enc).did(
            *final(enc),
            r,
            rope_pair(
                *ctx,
                *q, *k, n_q_heads, n_k_heads, head_dim, n_rot, position, theta_base,
                "kernel_rope_neox_pair_f32", false,
            ),
        ),
{
    encode_rope_neox_pair_f32_impl(
        ctx, enc,
        q, k, n_q_heads, n_k_heads, head_dim, n_rot, position, theta_base,
        "kernel_rope_neox_pair_f32", false,
    )
}

/// Rotate Q and K in place, with sine and cosine computed together.
pub fn encode_rope_neox_pair_sincos_f32(
    ctx: &MetalContext,
    enc: &mut KernelEncoder,
    q: &MetalTensor,
    k: &MetalTensor,
    n_q_heads: usize,
    n_k_heads: usize,
    head_dim: usize,
    n_rot: usize,
    position: u32,
    theta_base: F32Bits,
) -> (r: Result<(), MetalError>)
    requires
        q.wf() && k.wf(),
    ensures
        old(enc).did(
            *final(enc),
            r,
            rope_pair(
                *ctx,
                *q, *k, n_q_heads, n_k_heads, head_dim, n_rot, position, theta_base,
                "kernel_rope_neox_pair_sincos_f32", false,
            ),
        ),
{
    encode_rope_neox_pair_f32_impl(
        ctx, enc,
        q, k, n_q_heads, n_k_heads, head_dim, n_rot, position, theta_base,
        "kernel_rope_neox_pair_sincos_f32", false,
    )
}

/// Rotate Q and K in place, with coefficients shared across heads.
pub fn encode_rope_neox_pair_shared_f32(
    ctx: &MetalContext,
    enc: &mut KernelEncoder,
    q: &MetalTensor,
    k: &MetalTensor,
    n_q_heads: usize,
    n_k_heads: usize,
    head_dim: usize,
    n_rot: usize,
    position: u32,
    theta_base: F32Bits,
) -> (r: Result<(), MetalError>)
    requires
        q.wf() && k.wf(),
    ensures
        old(enc).did(
            *final(enc),
            r,
            rope_pair(
                *ctx,
                *q, *k, n_q_heads, n_k_heads, head_dim, n_rot, position, theta_base,
                "kernel_rope_neox_pair_shared_f32", true,
            ),
        ),
{
    encode_rope_neox_pair_f32_impl(
        ctx, enc,
        q, k, n_q_heads, n_k_heads, head_dim, n_rot, position, theta_base,
        "kernel_rope_neox_pair_shared_f32", true,
    )
}

/// Rotate Q and K in place with shared minimax coefficients, at a validated
/// position.
pub open spec fn rope_pair_minimax(
    ctx: MetalContext,
    q: MetalTensor,
    k: MetalTensor,
    n_q_heads: usize,
    n_k_heads: usize,
    head_dim: usize,
    n_rot: usize,
    position: u32,
    theta_base: F32Bits,
) -> Outcome {
    match minimax_span_fault(position, 1, "rope_neox_pair_minimax"@) {
        Some(fault) => Outcome::Refused(fault),
        None => rope_pair(
            ctx,
            q, k, n_q_heads, n_k_heads, head_dim, n_rot, position, theta_base,
            "kernel_rope_neox_pair_shared_minimax_f32", true,
        ),
    }
}

/// Rotate Q and K in place with shared minimax coefficients, at a validated
/// position.
pub fn encode_rope_neox_pair_shared_minimax_f32(
    ctx: &MetalContext,
    enc: &mut KernelEncoder,
    q: &MetalTensor,
    k: &MetalTensor,
    n_q_heads: usize,
    n_k_heads: usize,
    head_dim: usize,
    n_rot: usize,
    position: u32,
    theta_base: F32Bits,
) -> (r: Result<(), MetalError>)
    requires
        q.wf() && k.wf(),
    ensures
        old(enc).did(
            *final(enc),
            r,
            rope_pair_minimax(
                *ctx,
                *q, *k, n_q_heads, n_k_heads, head_dim, n_rot, position, theta_base,
            ),
        ),
{
    match validate_rope_minimax_position_span(position, 1, "rope_neox_pair_minimax") {
        Ok(()) => {},
        Err(e) => {
            return Err(e);
        },
    }
    encode_rope_neox_pair_f32_impl(
        ctx, enc,
        q, k, n_q_heads, n_k_heads, head_dim, n_rot, position, theta_base,
        "kernel_rope_neox_pair_shared_minimax_f32", true,
    )
}

/// Rotate packed tokens at consecutive positions in place.
pub open spec fn rope_packed(
    ctx: MetalContext,
    buf: MetalTensor,
    n_tokens: usize,
    n_heads: usize,
    head_dim: usize,
    n_rot: usize,
    start_position: u32,
    theta_base: F32Bits,
) -> Outcome {
    let rows = n_tokens * n_heads;
    let want = rows * head_dim;
    let want_bytes = want * 4;
    let total_pairs = rows * (n_rot / 2);
    let n_tg = numeric::div_up(total_pairs as usize, 64);
    let dispatched_threads = n_tg * 64;
    if buf.dtype != GgmlType::F32 || !buf.writable() {
        Outcome::Refused(
            Fault::bad_shape(
                "rope_neox_packed_consecutive"@,
                "buffer must be writable F32, got {} writable={}"@,
            )
                .dtype(buf.dtype).flag(buf.writable()),
        )
    } else if n_tokens == 0 || n_heads == 0 || head_dim == 0 || n_rot == 0 {
        Outcome::Refused(
            Fault::bad_shape(
                "rope_neox_packed_consecutive"@,
                "token, head, head_dim, and n_rot counts must be nonzero"@,
            ),
        )
    } else if n_rot % 2 != 0 || n_rot > head_dim {
        Outcome::Refused(
            Fault::bad_shape(
                "rope_neox_packed_consecutive"@,
                "n_rot={} must be even and <= head_dim={}"@,
            )
                .num(n_rot as int).num(head_dim as int),
        )
    } else if !theta_base.finite() || theta_base.at_most_one() {
        Outcome::Refused(
            Fault::bad_shape(
                "rope_neox_packed_consecutive"@,
                "theta_base must be finite and greater than one"@,
            ),
        )
    } else if rows > usize::MAX {
        Outcome::Refused(
            Fault::bad_shape("rope_neox_packed_consecutive"@, "packed tensor shape overflow"@),
        )
    } else if want > usize::MAX {
        Outcome::Refused(
            Fault::bad_shape("rope_neox_packed_consecutive"@, "packed tensor shape overflow"@),
        )
    } else if buf.count() != want {
        Outcome::Refused(
            Fault::bad_shape(
                "rope_neox_packed_consecutive"@,
                "buf.n={} != n_tokens*n_heads*head_dim={}"@,
            )
                .num(buf.elements() as int).num(want),
        )
    } else if want_bytes > usize::MAX {
        Outcome::Refused(
            Fault::bad_shape("rope_neox_packed_consecutive"@, "buffer byte size overflow"@),
        )
    } else if !buf.range_valid(want_bytes as usize, 4) {
        Outcome::Refused(
            Fault::bad_shape(
                "rope_neox_packed_consecutive"@,
                "buffer byte range is unaligned or outside its Metal buffer"@,
            ),
        )
    } else if want > u32::MAX {
        Outcome::Refused(
            Fault::bad_shape("rope_neox_packed_consecutive"@, "buffer index range exceeds u32"@),
        )
    } else if n_tokens > u32::MAX {
        Outcome::Refused(
            Fault::bad_shape("rope_neox_packed_consecutive"@, "n_tokens exceeds u32"@),
        )
    } else if n_heads > u32::MAX {
        Outcome::Refused(
            Fault::bad_shape("rope_neox_packed_consecutive"@, "n_heads exceeds u32"@),
        )
    } else if head_dim > u32::MAX {
        Outcome::Refused(
            Fault::bad_shape("rope_neox_packed_consecutive"@, "head_dim exceeds u32"@),
        )
    } else if n_rot > u32::MAX {
        Outcome::Refused(
            Fault::bad_shape("rope_neox_packed_consecutive"@, "n_rot exceeds u32"@),
        )
    } else if start_position + n_tokens - 1 > u32::MAX {
        Outcome::Refused(
            Fault::bad_shape("rope_neox_packed_consecutive"@, "position span exceeds u32"@),
        )
    } else if total_pairs > usize::MAX {
        Outcome::Refused(
            Fault::bad_shape("rope_neox_packed_consecutive"@, "dispatch width overflow"@),
        )
    } else if dispatched_threads > usize::MAX {
        Outcome::Refused(
            Fault::bad_shape("rope_neox_packed_consecutive"@, "dispatch grid overflow"@),
        )
    } else if dispatched_threads > u32::MAX {
        Outcome::Refused(
            Fault::bad_shape("rope_neox_packed_consecutive"@, "dispatch grid exceeds u32"@),
        )
    } else {
        Outcome::launch(
            ctx,
            Launch {
                pipeline: "kernel_rope_neox_f32_packed_consecutive"@,
                words: seq![
                    n_tokens as u32, n_heads as u32, head_dim as u32, n_rot as u32,
                    start_position, theta_base.bits,
                ],
                tensors: seq![buf.place()],
                scratch: seq![],
                threadgroups: MTLSize { width: n_tg, height: 1, depth: 1 },
                threads: MTLSize { width: 64, height: 1, depth: 1 },
            },
        )
    }
}

/// Rotate packed tokens at consecutive positions in place.
pub fn encode_rope_neox_f32_packed_consecutive(
    ctx: &MetalContext,
    enc: &mut KernelEncoder,
    buf: &MetalTensor,
    n_tokens: usize,
    n_heads: usize,
    head_dim: usize,
    n_rot: usize,
    start_position: u32,
    theta_base: F32Bits,
) -> (r: Result<(), MetalError>)
    requires
        buf.wf(),
    ensures
        old(enc).did(
            *final(enc),
            r,
            rope_packed(
                *ctx,
                *buf, n_tokens, n_heads, head_dim, n_rot, start_position, theta_base,
            ),
        ),
{
    if buf.dtype != GgmlType::F32 || !buf.is_writable() {
        return Err(
            bad_shape(
                "rope_neox_packed_consecutive",
                "buffer must be writable F32, got {} writable={}",
            )
                .dtype(buf.dtype).flag(buf.is_writable()),
        );
    }
    if n_tokens == 0 || n_heads == 0 || head_dim == 0 || n_rot == 0 {
        return Err(
            bad_shape(
                "rope_neox_packed_consecutive",
                "token, head, head_dim, and n_rot counts must be nonzero",
            ),
        );
    }
    if n_rot % 2 != 0 || n_rot > head_dim {
        return Err(
            bad_shape("rope_neox_packed_consecutive", "n_rot={} must be even and <= head_dim={}")
                .num(n_rot).num(head_dim),
        );
    }
    if !theta_base.is_finite() || theta_base.is_at_most_one() {
        return Err(
            bad_shape(
                "rope_neox_packed_consecutive",
                "theta_base must be finite and greater than one",
            ),
        );
    }
    let rows: usize = match n_tokens.checked_mul(n_heads) {
        Some(n) => n,
        None => {
            return Err(
                bad_shape("rope_neox_packed_consecutive", "packed tensor shape overflow"),
            );
        },
    };
    let want: usize = match rows.checked_mul(head_dim) {
        Some(n) => n,
        None => {
            return Err(
                bad_shape("rope_neox_packed_consecutive", "packed tensor shape overflow"),
            );
        },
    };
    if buf.element_count() != want {
        return Err(
            bad_shape("rope_neox_packed_consecutive", "buf.n={} != n_tokens*n_heads*head_dim={}")
                .num_u64(buf.n_elements()).num(want),
        );
    }
    let want_bytes: usize = match want.checked_mul(4) {
        Some(n) => n,
        None => {
            return Err(
                bad_shape("rope_neox_packed_consecutive", "buffer byte size overflow"),
            );
        },
    };
    if !buf.physical_range_valid(want_bytes, 4) {
        return Err(
            bad_shape(
                "rope_neox_packed_consecutive",
                "buffer byte range is unaligned or outside its Metal buffer",
            ),
        );
    }
    if want > u32::MAX as usize {
        return Err(
            bad_shape("rope_neox_packed_consecutive", "buffer index range exceeds u32"),
        );
    }
    if n_tokens > u32::MAX as usize {
        return Err(
            bad_shape("rope_neox_packed_consecutive", "n_tokens exceeds u32"),
        );
    }
    if n_heads > u32::MAX as usize {
        return Err(
            bad_shape("rope_neox_packed_consecutive", "n_heads exceeds u32"),
        );
    }
    if head_dim > u32::MAX as usize {
        return Err(
            bad_shape("rope_neox_packed_consecutive", "head_dim exceeds u32"),
        );
    }
    if n_rot > u32::MAX as usize {
        return Err(
            bad_shape("rope_neox_packed_consecutive", "n_rot exceeds u32"),
        );
    }
    if start_position as u64 + (n_tokens as u64 - 1) > u32::MAX as u64 {
        return Err(
            bad_shape("rope_neox_packed_consecutive", "position span exceeds u32"),
        );
    }
    let total_pairs: usize = match rows.checked_mul((n_rot / 2)) {
        Some(n) => n,
        None => {
            return Err(
                bad_shape("rope_neox_packed_consecutive", "dispatch width overflow"),
            );
        },
    };
    let n_tg: usize = div_ceil(total_pairs, 64);
    let dispatched_threads: usize = match n_tg.checked_mul(64) {
        Some(n) => n,
        None => {
            return Err(
                bad_shape("rope_neox_packed_consecutive", "dispatch grid overflow"),
            );
        },
    };
    if dispatched_threads > u32::MAX as usize {
        return Err(
            bad_shape("rope_neox_packed_consecutive", "dispatch grid exceeds u32"),
        );
    }
    let words: Vec<u32> = vec![
        n_tokens as u32, n_heads as u32, head_dim as u32, n_rot as u32, start_position,
        theta_base.bits,
    ];
    assert(words@ =~= seq![
        n_tokens as u32, n_heads as u32, head_dim as u32, n_rot as u32, start_position,
        theta_base.bits,
    ]);
    let tensors = [buf.binding()];
    assert(tensors@ =~= seq![buf.place()]);
    let scratch: Vec<usize> = Vec::new();
    assert(scratch@ =~= seq![]);
    enc.launch(
        ctx,
        "kernel_rope_neox_f32_packed_consecutive",
        words,
        &tensors,
        scratch.as_slice(),
        MTLSize { width: n_tg, height: 1, depth: 1 },
        MTLSize { width: 64, height: 1, depth: 1 },
    )
}

/// Rotate the Q and K of packed tokens at consecutive positions in place.
pub open spec fn rope_pair_packed(
    ctx: MetalContext,
    q: MetalTensor,
    k: MetalTensor,
    n_tokens: usize,
    n_q_heads: usize,
    n_k_heads: usize,
    head_dim: usize,
    n_rot: usize,
    start_position: u32,
    theta_base: F32Bits,
    kernel_name: &'static str,
    shared_across_heads: bool,
) -> Outcome {
    let q_rows = n_tokens * n_q_heads;
    let q_want = q_rows * head_dim;
    let k_rows = n_tokens * n_k_heads;
    let k_want = k_rows * head_dim;
    let q_bytes = q_want * 4;
    let k_bytes = k_want * 4;
    let heads_per_pair = if shared_across_heads {
        1usize
    } else {
        numeric::larger(n_q_heads, n_k_heads)
    };
    let group = if shared_across_heads {
        32usize
    } else {
        64usize
    };
    let lanes = n_tokens * heads_per_pair;
    let total_pairs = lanes * (n_rot / 2);
    let n_tg = numeric::div_up(total_pairs as usize, group);
    let dispatched_threads = n_tg * group;
    if q.dtype != GgmlType::F32 || k.dtype != GgmlType::F32 || !q.writable()
        || !k.writable() {
        Outcome::Refused(
            Fault::bad_shape(
                "rope_neox_pair_packed_consecutive"@,
                "Q/K must be writable F32 tensors, got {}/{} writable={}/{}"@,
            )
                .dtype(q.dtype).dtype(k.dtype).flag(q.writable()).flag(k.writable()),
        )
    } else if n_tokens == 0 || n_q_heads == 0 || n_k_heads == 0 || head_dim == 0 || n_rot == 0 {
        Outcome::Refused(
            Fault::bad_shape(
                "rope_neox_pair_packed_consecutive"@,
                "token, head, head_dim, and n_rot counts must be nonzero"@,
            ),
        )
    } else if n_rot % 2 != 0 || n_rot > head_dim {
        Outcome::Refused(
            Fault::bad_shape(
                "rope_neox_pair_packed_consecutive"@,
                "n_rot={} must be even and <= head_dim={}"@,
            )
                .num(n_rot as int).num(head_dim as int),
        )
    } else if !theta_base.finite() || theta_base.at_most_one() {
        Outcome::Refused(
            Fault::bad_shape(
                "rope_neox_pair_packed_consecutive"@,
                "theta_base must be finite and greater than one"@,
            ),
        )
    } else if q.overlaps(k) {
        Outcome::Refused(
            Fault::bad_shape(
                "rope_neox_pair_packed_consecutive"@,
                "writable Q and K tensors must not overlap"@,
            ),
        )
    } else if q_rows > usize::MAX {
        Outcome::Refused(
            Fault::bad_shape("rope_neox_pair_packed_consecutive"@, "packed Q shape overflow"@),
        )
    } else if q_want > usize::MAX {
        Outcome::Refused(
            Fault::bad_shape("rope_neox_pair_packed_consecutive"@, "packed Q shape overflow"@),
        )
    } else if k_rows > usize::MAX {
        Outcome::Refused(
            Fault::bad_shape("rope_neox_pair_packed_consecutive"@, "packed K shape overflow"@),
        )
    } else if k_want > usize::MAX {
        Outcome::Refused(
            Fault::bad_shape("rope_neox_pair_packed_consecutive"@, "packed K shape overflow"@),
        )
    } else if q.count() != q_want || k.count() != k_want {
        Outcome::Refused(
            Fault::bad_shape(
                "rope_neox_pair_packed_consecutive"@,
                "nonempty q/k expected {}/{} elements, got {}/{}"@,
            )
                .num(q_want).num(k_want).num(q.elements() as int).num(k.elements() as int),
        )
    } else if q_bytes > usize::MAX {
        Outcome::Refused(
            Fault::bad_shape("rope_neox_pair_packed_consecutive"@, "Q byte size overflow"@),
        )
    } else if k_bytes > usize::MAX {
        Outcome::Refused(
            Fault::bad_shape("rope_neox_pair_packed_consecutive"@, "K byte size overflow"@),
        )
    } else if !q.range_valid(q_bytes as usize, 4) || !k.range_valid(k_bytes as usize, 4) {
        Outcome::Refused(
            Fault::bad_shape(
                "rope_neox_pair_packed_consecutive"@,
                "Q/K byte range is unaligned or outside its Metal buffer"@,
            ),
        )
    } else if q_want > u32::MAX {
        Outcome::Refused(
            Fault::bad_shape("rope_neox_pair_packed_consecutive"@, "Q index range exceeds u32"@),
        )
    } else if k_want > u32::MAX {
        Outcome::Refused(
            Fault::bad_shape("rope_neox_pair_packed_consecutive"@, "K index range exceeds u32"@),
        )
    } else if n_tokens > u32::MAX {
        Outcome::Refused(
            Fault::bad_shape("rope_neox_pair_packed_consecutive"@, "n_tokens exceeds u32"@),
        )
    } else if n_q_heads > u32::MAX {
        Outcome::Refused(
            Fault::bad_shape("rope_neox_pair_packed_consecutive"@, "n_q_heads exceeds u32"@),
        )
    } else if n_k_heads > u32::MAX {
        Outcome::Refused(
            Fault::bad_shape("rope_neox_pair_packed_consecutive"@, "n_k_heads exceeds u32"@),
        )
    } else if head_dim > u32::MAX {
        Outcome::Refused(
            Fault::bad_shape("rope_neox_pair_packed_consecutive"@, "head_dim exceeds u32"@),
        )
    } else if n_rot > u32::MAX {
        Outcome::Refused(
            Fault::bad_shape("rope_neox_pair_packed_consecutive"@, "n_rot exceeds u32"@),
        )
    } else if start_position + n_tokens - 1 > u32::MAX {
        Outcome::Refused(
            Fault::bad_shape("rope_neox_pair_packed_consecutive"@, "position span exceeds u32"@),
        )
    } else if lanes > usize::MAX {
        Outcome::Refused(
            Fault::bad_shape("rope_neox_pair_packed_consecutive"@, "dispatch width overflow"@),
        )
    } else if total_pairs > usize::MAX {
        Outcome::Refused(
            Fault::bad_shape("rope_neox_pair_packed_consecutive"@, "dispatch width overflow"@),
        )
    } else if dispatched_threads > usize::MAX {
        Outcome::Refused(
            Fault::bad_shape("rope_neox_pair_packed_consecutive"@, "dispatch grid overflow"@),
        )
    } else if dispatched_threads > u32::MAX {
        Outcome::Refused(
            Fault::bad_shape("rope_neox_pair_packed_consecutive"@, "dispatch grid exceeds u32"@),
        )
    } else {
        Outcome::launch(
            ctx,
            Launch {
                pipeline: kernel_name@,
                words: seq![
                    n_tokens as u32, n_q_heads as u32, n_k_heads as u32, head_dim as u32,
                    n_rot as u32, start_position, theta_base.bits,
                ],
                tensors: seq![q.place(), k.place()],
                scratch: seq![],
                threadgroups: MTLSize { width: n_tg, height: 1, depth: 1 },
                threads: MTLSize { width: group, height: 1, depth: 1 },
            },
        )
    }
}

/// Rotate the Q and K of packed tokens in place with one launch.
pub fn encode_rope_neox_pair_f32_packed_consecutive_impl(
    ctx: &MetalContext,
    enc: &mut KernelEncoder,
    q: &MetalTensor,
    k: &MetalTensor,
    n_tokens: usize,
    n_q_heads: usize,
    n_k_heads: usize,
    head_dim: usize,
    n_rot: usize,
    start_position: u32,
    theta_base: F32Bits,
    kernel_name: &'static str,
    shared_across_heads: bool,
) -> (r: Result<(), MetalError>)
    requires
        q.wf() && k.wf(),
    ensures
        old(enc).did(
            *final(enc),
            r,
            rope_pair_packed(
                *ctx,
                *q, *k, n_tokens, n_q_heads, n_k_heads, head_dim, n_rot, start_position,
                theta_base, kernel_name, shared_across_heads,
            ),
        ),
{
    if q.dtype != GgmlType::F32 || k.dtype != GgmlType::F32 || !q.is_writable()
        || !k.is_writable() {
        return Err(
            bad_shape(
                "rope_neox_pair_packed_consecutive",
                "Q/K must be writable F32 tensors, got {}/{} writable={}/{}",
            )
                .dtype(q.dtype).dtype(k.dtype).flag(q.is_writable()).flag(k.is_writable()),
        );
    }
    if n_tokens == 0 || n_q_heads == 0 || n_k_heads == 0 || head_dim == 0 || n_rot == 0 {
        return Err(
            bad_shape(
                "rope_neox_pair_packed_consecutive",
                "token, head, head_dim, and n_rot counts must be nonzero",
            ),
        );
    }
    if n_rot % 2 != 0 || n_rot > head_dim {
        return Err(
            bad_shape(
                "rope_neox_pair_packed_consecutive",
                "n_rot={} must be even and <= head_dim={}",
            )
                .num(n_rot).num(head_dim),
        );
    }
    if !theta_base.is_finite() || theta_base.is_at_most_one() {
        return Err(
            bad_shape(
                "rope_neox_pair_packed_consecutive",
                "theta_base must be finite and greater than one",
            ),
        );
    }
    if q.ranges_overlap(k) {
        return Err(
            bad_shape(
                "rope_neox_pair_packed_consecutive",
                "writable Q and K tensors must not overlap",
            ),
        );
    }
    let q_rows: usize = match n_tokens.checked_mul(n_q_heads) {
        Some(n) => n,
        None => {
            return Err(
                bad_shape("rope_neox_pair_packed_consecutive", "packed Q shape overflow"),
            );
        },
    };
    let q_want: usize = match q_rows.checked_mul(head_dim) {
        Some(n) => n,
        None => {
            return Err(
                bad_shape("rope_neox_pair_packed_consecutive", "packed Q shape overflow"),
            );
        },
    };
    let k_rows: usize = match n_tokens.checked_mul(n_k_heads) {
        Some(n) => n,
        None => {
            return Err(
                bad_shape("rope_neox_pair_packed_consecutive", "packed K shape overflow"),
            );
        },
    };
    let k_want: usize = match k_rows.checked_mul(head_dim) {
        Some(n) => n,
        None => {
            return Err(
                bad_shape("rope_neox_pair_packed_consecutive", "packed K shape overflow"),
            );
        },
    };
    if q.element_count() != q_want || k.element_count() != k_want {
        return Err(
            bad_shape(
                "rope_neox_pair_packed_consecutive",
                "nonempty q/k expected {}/{} elements, got {}/{}",
            )
                .num(q_want).num(k_want).num_u64(q.n_elements()).num_u64(k.n_elements()),
        );
    }
    let q_bytes: usize = match q_want.checked_mul(4) {
        Some(n) => n,
        None => {
            return Err(
                bad_shape("rope_neox_pair_packed_consecutive", "Q byte size overflow"),
            );
        },
    };
    let k_bytes: usize = match k_want.checked_mul(4) {
        Some(n) => n,
        None => {
            return Err(
                bad_shape("rope_neox_pair_packed_consecutive", "K byte size overflow"),
            );
        },
    };
    if !q.physical_range_valid(q_bytes, 4) || !k.physical_range_valid(k_bytes, 4) {
        return Err(
            bad_shape(
                "rope_neox_pair_packed_consecutive",
                "Q/K byte range is unaligned or outside its Metal buffer",
            ),
        );
    }
    if q_want > u32::MAX as usize {
        return Err(
            bad_shape("rope_neox_pair_packed_consecutive", "Q index range exceeds u32"),
        );
    }
    if k_want > u32::MAX as usize {
        return Err(
            bad_shape("rope_neox_pair_packed_consecutive", "K index range exceeds u32"),
        );
    }
    if n_tokens > u32::MAX as usize {
        return Err(
            bad_shape("rope_neox_pair_packed_consecutive", "n_tokens exceeds u32"),
        );
    }
    if n_q_heads > u32::MAX as usize {
        return Err(
            bad_shape("rope_neox_pair_packed_consecutive", "n_q_heads exceeds u32"),
        );
    }
    if n_k_heads > u32::MAX as usize {
        return Err(
            bad_shape("rope_neox_pair_packed_consecutive", "n_k_heads exceeds u32"),
        );
    }
    if head_dim > u32::MAX as usize {
        return Err(
            bad_shape("rope_neox_pair_packed_consecutive", "head_dim exceeds u32"),
        );
    }
    if n_rot > u32::MAX as usize {
        return Err(
            bad_shape("rope_neox_pair_packed_consecutive", "n_rot exceeds u32"),
        );
    }
    if start_position as u64 + (n_tokens as u64 - 1) > u32::MAX as u64 {
        return Err(
            bad_shape("rope_neox_pair_packed_consecutive", "position span exceeds u32"),
        );
    }
    let heads_per_pair: usize = if shared_across_heads {
        1
    } else {
        max_size(n_q_heads, n_k_heads)
    };
    let group: usize = if shared_across_heads {
        32
    } else {
        64
    };
    let lanes: usize = match n_tokens.checked_mul(heads_per_pair) {
        Some(n) => n,
        None => {
            return Err(
                bad_shape("rope_neox_pair_packed_consecutive", "dispatch width overflow"),
            );
        },
    };
    let total_pairs: usize = match lanes.checked_mul((n_rot / 2)) {
        Some(n) => n,
        None => {
            return Err(
                bad_shape("rope_neox_pair_packed_consecutive", "dispatch width overflow"),
            );
        },
    };
    let n_tg: usize = div_ceil(total_pairs, group);
    let dispatched_threads: usize = match n_tg.checked_mul(group) {
        Some(n) => n,
        None => {
            return Err(
                bad_shape("rope_neox_pair_packed_consecutive", "dispatch grid overflow"),
            );
        },
    };
    if dispatched_threads > u32::MAX as usize {
        return Err(
            bad_shape("rope_neox_pair_packed_consecutive", "dispatch grid exceeds u32"),
        );
    }
    let words: Vec<u32> = vec![
        n_tokens as u32, n_q_heads as u32, n_k_heads as u32, head_dim as u32, n_rot as u32,
        start_position, theta_base.bits,
    ];
    assert(words@ =~= seq![
        n_tokens as u32, n_q_heads as u32, n_k_heads as u32, head_dim as u32, n_rot as u32,
        start_position, theta_base.bits,
    ]);
    let tensors = [q.binding(), k.binding()];
    assert(tensors@ =~= seq![q.place(), k.place()]);
    let scratch: Vec<usize> = Vec::new();
    assert(scratch@ =~= seq![]);
    enc.launch(
        ctx,
        kernel_name,
        words,
        &tensors,
        scratch.as_slice(),
        MTLSize { width: n_tg, height: 1, depth: 1 },
        MTLSize { width: group, height: 1, depth: 1 },
    )
}

/// Rotate the Q and K of packed tokens in place, one lane per pair and head.
pub fn encode_rope_neox_pair_f32_packed_consecutive(
    ctx: &MetalContext,
    enc: &mut KernelEncoder,
    q: &MetalTensor,
    k: &MetalTensor,
    n_tokens: usize,
    n_q_heads: usize,
    n_k_heads: usize,
    head_dim: usize,
    n_rot: usize,
    start_position: u32,
    theta_base: F32Bits,
) -> (r: Result<(), MetalError>)
    requires
        q.wf() && k.wf(),
    ensures
        old(enc).did(
            *final(enc),
            r,
            rope_pair_packed(
                *ctx,
                *q, *k, n_tokens, n_q_heads, n_k_heads, head_dim, n_rot, start_position,
                theta_base, "kernel_rope_neox_pair_f32_packed_consecutive", false,
            ),
        ),
{
    encode_rope_neox_pair_f32_packed_consecutive_impl(
        ctx, enc,
        q, k, n_tokens, n_q_heads, n_k_heads, head_dim, n_rot, start_position, theta_base,
        "kernel_rope_neox_pair_f32_packed_consecutive", false,
    )
}

/// Rotate the Q and K of packed tokens in place, one lane per token and pair.
pub fn encode_rope_neox_pair_shared_f32_packed_consecutive(
    ctx: &MetalContext,
    enc: &mut KernelEncoder,
    q: &MetalTensor,
    k: &MetalTensor,
    n_tokens: usize,
    n_q_heads: usize,
    n_k_heads: usize,
    head_dim: usize,
    n_rot: usize,
    start_position: u32,
    theta_base: F32Bits,
) -> (r: Result<(), MetalError>)
    requires
        q.wf() && k.wf(),
    ensures
        old(enc).did(
            *final(enc),
            r,
            rope_pair_packed(
                *ctx,
                *q, *k, n_tokens, n_q_heads, n_k_heads, head_dim, n_rot, start_position,
                theta_base, "kernel_rope_neox_pair_shared_f32_packed_consecutive", true,
            ),
        ),
{
    encode_rope_neox_pair_f32_packed_consecutive_impl(
        ctx, enc,
        q, k, n_tokens, n_q_heads, n_k_heads, head_dim, n_rot, start_position, theta_base,
        "kernel_rope_neox_pair_shared_f32_packed_consecutive", true,
    )
}

/// Rotate the Q and K of packed tokens with the geometry that suits their number.
pub open spec fn rope_pair_adaptive(
    ctx: MetalContext,
    q: MetalTensor,
    k: MetalTensor,
    n_tokens: usize,
    n_q_heads: usize,
    n_k_heads: usize,
    head_dim: usize,
    n_rot: usize,
    start_position: u32,
    theta_base: F32Bits,
) -> Outcome {
    if n_tokens >= 128 {
        rope_pair_packed(
            ctx,
            q, k, n_tokens, n_q_heads, n_k_heads, head_dim, n_rot, start_position, theta_base,
            "kernel_rope_neox_pair_shared_f32_packed_consecutive", true,
        )
    } else {
        rope_pair_packed(
            ctx,
            q, k, n_tokens, n_q_heads, n_k_heads, head_dim, n_rot, start_position, theta_base,
            "kernel_rope_neox_pair_f32_packed_consecutive", false,
        )
    }
}

/// Rotate the Q and K of packed tokens in place: head by head for short batches,
/// with shared coefficients from 128 tokens on.
pub fn encode_rope_neox_pair_adaptive_f32_packed_consecutive(
    ctx: &MetalContext,
    enc: &mut KernelEncoder,
    q: &MetalTensor,
    k: &MetalTensor,
    n_tokens: usize,
    n_q_heads: usize,
    n_k_heads: usize,
    head_dim: usize,
    n_rot: usize,
    start_position: u32,
    theta_base: F32Bits,
) -> (r: Result<(), MetalError>)
    requires
        q.wf() && k.wf(),
    ensures
        old(enc).did(
            *final(enc),
            r,
            rope_pair_adaptive(
                *ctx,
                *q, *k, n_tokens, n_q_heads, n_k_heads, head_dim, n_rot, start_position,
                theta_base,
            ),
        ),
{
    if n_tokens >= 128 {
        encode_rope_neox_pair_shared_f32_packed_consecutive(
            ctx, enc,
            q, k, n_tokens, n_q_heads, n_k_heads, head_dim, n_rot, start_position, theta_base,
        )
    } else {
        encode_rope_neox_pair_f32_packed_consecutive(
            ctx, enc,
            q, k, n_tokens, n_q_heads, n_k_heads, head_dim, n_rot, start_position, theta_base,
        )
    }
}

/// Rotate the Q and K of packed tokens with shared minimax coefficients, at
/// validated positions.
pub open spec fn rope_pair_packed_minimax(
    ctx: MetalContext,
    q: MetalTensor,
    k: MetalTensor,
    n_tokens: usize,
    n_q_heads: usize,
    n_k_heads: usize,
    head_dim: usize,
    n_rot: usize,
    start_position: u32,
    theta_base: F32Bits,
) -> Outcome {
    match minimax_span_fault(start_position, n_tokens, "rope_neox_pair_packed_minimax"@) {
        Some(fault) => Outcome::Refused(fault),
        None => rope_pair_packed(
            ctx,
            q, k, n_tokens, n_q_heads, n_k_heads, head_dim, n_rot, start_position, theta_base,
            "kernel_rope_neox_pair_shared_minimax_f32_packed_consecutive", true,
        ),
    }
}

/// Rotate the Q and K of packed tokens with shared minimax coefficients, at
/// validated positions.
pub fn encode_rope_neox_pair_shared_minimax_f32_packed_consecutive(
    ctx: &MetalContext,
    enc: &mut KernelEncoder,
    q: &MetalTensor,
    k: &MetalTensor,
    n_tokens: usize,
    n_q_heads: usize,
    n_k_heads: usize,
    head_dim: usize,
    n_rot: usize,
    start_position: u32,
    theta_base: F32Bits,
) -> (r: Result<(), MetalError>)
    requires
        q.wf() && k.wf(),
    ensures
        old(enc).did(
            *final(enc),
            r,
            rope_pair_packed_minimax(
                *ctx,
                *q, *k, n_tokens, n_q_heads, n_k_heads, head_dim, n_rot, start_position,
                theta_base,
            ),
        ),
{
    match validate_rope_minimax_position_span(
        start_position,
        n_tokens,
        "rope_neox_pair_packed_minimax",
    ) {
        Ok(()) => {},
        Err(e) => {
            return Err(e);
        },
    }
    encode_rope_neox_pair_f32_packed_consecutive_impl(
        ctx, enc,
        q, k, n_tokens, n_q_heads, n_k_heads, head_dim, n_rot, start_position, theta_base,
        "kernel_rope_neox_pair_shared_minimax_f32_packed_consecutive", true,
    )
}

/// A recorded rotation of Q and K writes two writable tensors that share no bytes
/// and lie, as far as the heads reach, inside their buffers.
pub proof fn law_rotated_pair_is_safe(
    ctx: MetalContext,
    q: MetalTensor,
    k: MetalTensor,
    n_q_heads: usize,
    n_k_heads: usize,
    head_dim: usize,
    n_rot: usize,
    position: u32,
    theta_base: F32Bits,
    kernel_name: &'static str,
    shared_across_heads: bool,
)
    requires
        rope_pair(
            ctx,
            q,
            k,
            n_q_heads,
            n_k_heads,
            head_dim,
            n_rot,
            position,
            theta_base,
            kernel_name,
            shared_across_heads,
        ).granted(),
    ensures
        q.writable() && k.writable() && !q.overlaps(k),
        q.offset + n_q_heads * head_dim * 4 <= q.buffer.length,
        k.offset + n_k_heads * head_dim * 4 <= k.buffer.length,
        n_rot <= head_dim,
{
}

/// The same holds of packed tokens, whose last position is a 32-bit number.
pub proof fn law_rotated_packed_pair_is_safe(
    ctx: MetalContext,
    q: MetalTensor,
    k: MetalTensor,
    n_tokens: usize,
    n_q_heads: usize,
    n_k_heads: usize,
    head_dim: usize,
    n_rot: usize,
    start_position: u32,
    theta_base: F32Bits,
    kernel_name: &'static str,
    shared_across_heads: bool,
)
    requires
        rope_pair_packed(
            ctx,
            q,
            k,
            n_tokens,
            n_q_heads,
            n_k_heads,
            head_dim,
            n_rot,
            start_position,
            theta_base,
            kernel_name,
            shared_across_heads,
        ).granted(),
    ensures
        q.writable() && k.writable() && !q.overlaps(k),
        q.offset + n_tokens * n_q_heads * head_dim * 4 <= q.buffer.length,
        k.offset + n_tokens * n_k_heads * head_dim * 4 <= k.buffer.length,
        start_position + n_tokens - 1 <= u32::MAX,
{
}

} // verus!
