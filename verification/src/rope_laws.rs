//! What the rotary kernels are told, and when.

use vstd::prelude::*;

use crate::context::MetalContext;
use crate::dtype::GgmlType;
use crate::encoder::KernelEncoder;
use crate::error::{Datum, MetalError};
use crate::float_bits::F32Bits;
use crate::numeric;
use crate::reading;
use crate::rope;
use crate::tensor::{MetalTensor, MetalTensorProvenance};

verus! {

/// The tensor starts at a multiple of four bytes and its `count` floats lie inside its
/// buffer.
pub open spec fn floats_inside(tensor: MetalTensor) -> bool {
    tensor.offset % 4 == 0 && tensor.offset + tensor.count() * 4 <= tensor.buffer.length
}

/// A finite number above one, by its bits.
pub open spec fn above_one(number: F32Bits) -> bool {
    0x3f80_0000 < number.bits < 0x7f80_0000
}

/// A tensor of floats that kernels may write.
pub open spec fn writable_floats(tensor: MetalTensor) -> bool {
    tensor.dtype == GgmlType::F32 && tensor.provenance == MetalTensorProvenance::OwnedWritable
}

/// Channels are rotated in pairs, within a head.
pub open spec fn pairs_in_head(n_rot: usize, head_dim: usize) -> bool {
    0 < n_rot <= head_dim && n_rot % 2 == 0
}

/// The Q and K of one token can be rotated.
pub open spec fn pair_acceptable(
    q: MetalTensor,
    k: MetalTensor,
    n_q_heads: usize,
    n_k_heads: usize,
    head_dim: usize,
    n_rot: usize,
    theta_base: F32Bits,
) -> bool {
    &&& writable_floats(q) && writable_floats(k)
    &&& n_q_heads > 0 && n_k_heads > 0
    &&& pairs_in_head(n_rot, head_dim)
    &&& above_one(theta_base)
    &&& !q.overlaps(k)
    &&& q.count() == n_q_heads * head_dim
    &&& k.count() == n_k_heads * head_dim
    &&& floats_inside(q) && floats_inside(k)
    &&& q.count() <= u32::MAX && k.count() <= u32::MAX
}

/// The Q and K of packed tokens can be rotated: as for one token, and the last
/// position has 32 bits.
pub open spec fn packed_acceptable(
    q: MetalTensor,
    k: MetalTensor,
    n_tokens: usize,
    n_q_heads: usize,
    n_k_heads: usize,
    head_dim: usize,
    n_rot: usize,
    start_position: u32,
    theta_base: F32Bits,
) -> bool {
    &&& writable_floats(q) && writable_floats(k)
    &&& n_tokens > 0 && n_q_heads > 0 && n_k_heads > 0
    &&& pairs_in_head(n_rot, head_dim)
    &&& above_one(theta_base)
    &&& !q.overlaps(k)
    &&& q.count() == n_tokens * n_q_heads * head_dim
    &&& k.count() == n_tokens * n_k_heads * head_dim
    &&& floats_inside(q) && floats_inside(k)
    &&& q.count() <= u32::MAX && k.count() <= u32::MAX
    &&& start_position + (n_tokens - 1) <= u32::MAX
}

/// The launch has a lane for each pair of channels that is rotated: for each head, of
/// whichever of Q and K has more, unless heads share their coefficients.
pub open spec fn lanes_for_pairs(
    post: KernelEncoder,
    rows: int,
    n_q_heads: usize,
    n_k_heads: usize,
    n_rot: usize,
    shared: bool,
) -> bool {
    let grid = reading::grid(post);
    let heads: int = if shared {
        1
    } else if n_q_heads > n_k_heads {
        n_q_heads as int
    } else {
        n_k_heads as int
    };
    let lanes: int = if shared {
        32
    } else {
        64
    };
    &&& reading::tiles(grid.width, lanes, rows * heads * (n_rot / 2))
    &&& grid.height == 1 && grid.depth == 1
    &&& reading::line(reading::group(post), lanes)
}

/// The launch that rotates the Q and K of one token at `position`.
pub open spec fn pair_rotated(
    pre: KernelEncoder,
    post: KernelEncoder,
    q: MetalTensor,
    k: MetalTensor,
    n_q_heads: usize,
    n_k_heads: usize,
    head_dim: usize,
    n_rot: usize,
    position: u32,
    theta_base: F32Bits,
    name: Seq<char>,
    shared: bool,
) -> bool {
    let args = reading::words(pre, post);
    &&& reading::launched(pre, post, seq![reading::at(q), reading::at(k)], seq![])
    &&& reading::kernel(pre, post) == name
    &&& args.len() == 6
    &&& args[0] == n_q_heads
    &&& args[1] == n_k_heads
    &&& args[2] == head_dim
    &&& args[3] == n_rot
    &&& args[4] == position
    &&& args[5] == theta_base.bits
    &&& lanes_for_pairs(post, 1, n_q_heads, n_k_heads, n_rot, shared)
}

/// The launch that rotates the Q and K of packed tokens, the first at
/// `start_position`.
pub open spec fn packed_rotated(
    pre: KernelEncoder,
    post: KernelEncoder,
    q: MetalTensor,
    k: MetalTensor,
    n_tokens: usize,
    n_q_heads: usize,
    n_k_heads: usize,
    head_dim: usize,
    n_rot: usize,
    start_position: u32,
    theta_base: F32Bits,
    name: Seq<char>,
    shared: bool,
) -> bool {
    let args = reading::words(pre, post);
    &&& reading::launched(pre, post, seq![reading::at(q), reading::at(k)], seq![])
    &&& reading::kernel(pre, post) == name
    &&& args.len() == 7
    &&& args[0] == n_tokens
    &&& args[1] == n_q_heads
    &&& args[2] == n_k_heads
    &&& args[3] == head_dim
    &&& args[4] == n_rot
    &&& args[5] == start_position
    &&& args[6] == theta_base.bits
    &&& lanes_for_pairs(post, n_tokens as int, n_q_heads, n_k_heads, n_rot, shared)
}

/// What the sizes of accepted rotations bound.
proof fn lemma_bounds(rows: int, n_heads: int, head_dim: int, half: int, limit: int)
    requires
        rows >= 0,
        n_heads >= 0,
        head_dim >= 0,
        half >= 0,
    ensures
        rows > 0 && n_heads > 0 && head_dim > 0 && rows * n_heads * head_dim <= limit ==> {
            &&& rows <= limit && n_heads <= limit && head_dim <= limit
            &&& rows * n_heads <= limit
            &&& 2 * half <= head_dim ==> 2 * (rows * n_heads * half) <= limit && 2 * (rows * half)
                <= limit
        },
        rows * n_heads >= 0,
        rows * n_heads * head_dim >= 0,
{
    assert(rows * n_heads >= 0) by (nonlinear_arith)
        requires
            rows >= 0,
            n_heads >= 0,
    ;
    let both = rows * n_heads;
    assert(both * head_dim >= 0) by (nonlinear_arith)
        requires
            both >= 0,
            head_dim >= 0,
    ;
    if rows > 0 && n_heads > 0 && head_dim > 0 && both * head_dim <= limit {
        assert(rows <= both && n_heads <= both) by (nonlinear_arith)
            requires
                both == rows * n_heads,
                rows > 0,
                n_heads > 0,
        ;
        assert(both <= both * head_dim && head_dim <= both * head_dim) by (nonlinear_arith)
            requires
                both > 0,
                head_dim > 0,
        ;
        if 2 * half <= head_dim {
            assert(2 * (both * half) <= both * head_dim) by (nonlinear_arith)
                requires
                    2 * half <= head_dim,
                    both > 0,
            ;
            assert(rows * half <= both * half) by (nonlinear_arith)
                requires
                    rows <= both,
                    half >= 0,
            ;
        }
    }
}

/// The Q and K of one token are rotated at the position that was asked for, by a
/// kernel of the name that was asked for.
pub proof fn law_rope_neox_pair_f32_impl(
    enc: &mut KernelEncoder,
    ctx: MetalContext,
    q: MetalTensor,
    k: MetalTensor,
    n_q_heads: usize,
    n_k_heads: usize,
    head_dim: usize,
    n_rot: usize,
    position: u32,
    theta_base: F32Bits,
    kernel_name: &'static str,
    shared_across_heads: bool,
    result: Result<(), MetalError>,
)
    requires
        call_ensures(
            rope::encode_rope_neox_pair_f32_impl,
            (
                &ctx, enc, &q, &k, n_q_heads, n_k_heads, head_dim, n_rot, position,
                theta_base, kernel_name, shared_across_heads,
            ),
            result,
        ),
    ensures
        reading::granted_just_when(
            *old(enc), *final(enc), result, ctx,
            pair_acceptable(q, k, n_q_heads, n_k_heads, head_dim, n_rot, theta_base),
            "rope_neox_pair"@,
            kernel_name@,
        ),
        writable_floats(q) && writable_floats(k) && n_q_heads > 0 && n_k_heads > 0
            && pairs_in_head(n_rot, head_dim) && above_one(theta_base) && !q.overlaps(k)
            && n_q_heads * head_dim <= usize::MAX && n_k_heads * head_dim <= usize::MAX
            && !(q.count() == n_q_heads * head_dim && k.count() == n_k_heads * head_dim)
            ==> reading::shows(
            result,
            seq![
                Datum::Int(n_q_heads * head_dim),
                Datum::Int(n_k_heads * head_dim),
                Datum::Int(q.elements() as int),
                Datum::Int(k.elements() as int),
            ],
        ),
        result is Ok ==> pair_rotated(
            *old(enc), *final(enc),
            q, k, n_q_heads, n_k_heads, head_dim, n_rot, position, theta_base,
            kernel_name@,
            shared_across_heads,
        ),
{
    reading::lemma_read(*old(enc), *final(enc));
    let half = (n_rot / 2) as int;
    lemma_bounds(1, n_q_heads as int, head_dim as int, half, u32::MAX as int);
    lemma_bounds(1, n_k_heads as int, head_dim as int, half, u32::MAX as int);
    lemma_bounds(1, n_q_heads as int, head_dim as int, half, usize::MAX as int);
    lemma_bounds(1, n_k_heads as int, head_dim as int, half, usize::MAX as int);
    reading::lemma_compiled(ctx, kernel_name@);
    if pair_acceptable(q, k, n_q_heads, n_k_heads, head_dim, n_rot, theta_base) {
        let heads = if n_q_heads > n_k_heads {
            n_q_heads
        } else {
            n_k_heads
        };
        numeric::law_div_up_covers((heads * half) as usize, 64);
        numeric::law_div_up_covers((1 * half) as usize, 32);
    }
}

/// The Q and K of one token are rotated at the position that was asked for, each
/// head on its own lanes.
pub proof fn law_rope_neox_pair_f32(
    enc: &mut KernelEncoder,
    ctx: MetalContext,
    q: MetalTensor,
    k: MetalTensor,
    n_q_heads: usize,
    n_k_heads: usize,
    head_dim: usize,
    n_rot: usize,
    position: u32,
    theta_base: F32Bits,
    result: Result<(), MetalError>,
)
    requires
        call_ensures(
            rope::encode_rope_neox_pair_f32,
            (
                &ctx, enc, &q, &k, n_q_heads, n_k_heads, head_dim, n_rot, position,
                theta_base,
            ),
            result,
        ),
    ensures
        reading::granted_just_when(
            *old(enc), *final(enc), result, ctx,
            pair_acceptable(q, k, n_q_heads, n_k_heads, head_dim, n_rot, theta_base),
            "rope_neox_pair"@,
            "kernel_rope_neox_pair_f32"@,
        ),
        writable_floats(q) && writable_floats(k) && n_q_heads > 0 && n_k_heads > 0
            && pairs_in_head(n_rot, head_dim) && above_one(theta_base) && !q.overlaps(k)
            && n_q_heads * head_dim <= usize::MAX && n_k_heads * head_dim <= usize::MAX
            && !(q.count() == n_q_heads * head_dim && k.count() == n_k_heads * head_dim)
            ==> reading::shows(
            result,
            seq![
                Datum::Int(n_q_heads * head_dim),
                Datum::Int(n_k_heads * head_dim),
                Datum::Int(q.elements() as int),
                Datum::Int(k.elements() as int),
            ],
        ),
        result is Ok ==> pair_rotated(
            *old(enc), *final(enc),
            q, k, n_q_heads, n_k_heads, head_dim, n_rot, position, theta_base,
            "kernel_rope_neox_pair_f32"@,
            false,
        ),
{
    reading::lemma_read(*old(enc), *final(enc));
    let half = (n_rot / 2) as int;
    lemma_bounds(1, n_q_heads as int, head_dim as int, half, u32::MAX as int);
    lemma_bounds(1, n_k_heads as int, head_dim as int, half, u32::MAX as int);
    lemma_bounds(1, n_q_heads as int, head_dim as int, half, usize::MAX as int);
    lemma_bounds(1, n_k_heads as int, head_dim as int, half, usize::MAX as int);
    reading::lemma_compiled(ctx, "kernel_rope_neox_pair_f32"@);
    if pair_acceptable(q, k, n_q_heads, n_k_heads, head_dim, n_rot, theta_base) {
        let heads = if n_q_heads > n_k_heads {
            n_q_heads
        } else {
            n_k_heads
        };
        numeric::law_div_up_covers((heads * half) as usize, 64);
        numeric::law_div_up_covers((1 * half) as usize, 32);
    }
}

/// The Q and K of one token are rotated at the position that was asked for, each
/// head on its own lanes.
pub proof fn law_rope_neox_pair_sincos_f32(
    enc: &mut KernelEncoder,
    ctx: MetalContext,
    q: MetalTensor,
    k: MetalTensor,
    n_q_heads: usize,
    n_k_heads: usize,
    head_dim: usize,
    n_rot: usize,
    position: u32,
    theta_base: F32Bits,
    result: Result<(), MetalError>,
)
    requires
        call_ensures(
            rope::encode_rope_neox_pair_sincos_f32,
            (
                &ctx, enc, &q, &k, n_q_heads, n_k_heads, head_dim, n_rot, position,
                theta_base,
            ),
            result,
        ),
    ensures
        reading::granted_just_when(
            *old(enc), *final(enc), result, ctx,
            pair_acceptable(q, k, n_q_heads, n_k_heads, head_dim, n_rot, theta_base),
            "rope_neox_pair"@,
            "kernel_rope_neox_pair_sincos_f32"@,
        ),
        writable_floats(q) && writable_floats(k) && n_q_heads > 0 && n_k_heads > 0
            && pairs_in_head(n_rot, head_dim) && above_one(theta_base) && !q.overlaps(k)
            && n_q_heads * head_dim <= usize::MAX && n_k_heads * head_dim <= usize::MAX
            && !(q.count() == n_q_heads * head_dim && k.count() == n_k_heads * head_dim)
            ==> reading::shows(
            result,
            seq![
                Datum::Int(n_q_heads * head_dim),
                Datum::Int(n_k_heads * head_dim),
                Datum::Int(q.elements() as int),
                Datum::Int(k.elements() as int),
            ],
        ),
        result is Ok ==> pair_rotated(
            *old(enc), *final(enc),
            q, k, n_q_heads, n_k_heads, head_dim, n_rot, position, theta_base,
            "kernel_rope_neox_pair_sincos_f32"@,
            false,
        ),
{
    reading::lemma_read(*old(enc), *final(enc));
    let half = (n_rot / 2) as int;
    lemma_bounds(1, n_q_heads as int, head_dim as int, half, u32::MAX as int);
    lemma_bounds(1, n_k_heads as int, head_dim as int, half, u32::MAX as int);
    lemma_bounds(1, n_q_heads as int, head_dim as int, half, usize::MAX as int);
    lemma_bounds(1, n_k_heads as int, head_dim as int, half, usize::MAX as int);
    reading::lemma_compiled(ctx, "kernel_rope_neox_pair_sincos_f32"@);
    if pair_acceptable(q, k, n_q_heads, n_k_heads, head_dim, n_rot, theta_base) {
        let heads = if n_q_heads > n_k_heads {
            n_q_heads
        } else {
            n_k_heads
        };
        numeric::law_div_up_covers((heads * half) as usize, 64);
        numeric::law_div_up_covers((1 * half) as usize, 32);
    }
}

/// The Q and K of one token are rotated at the position that was asked for, with
/// coefficients that the heads share.
pub proof fn law_rope_neox_pair_shared_f32(
    enc: &mut KernelEncoder,
    ctx: MetalContext,
    q: MetalTensor,
    k: MetalTensor,
    n_q_heads: usize,
    n_k_heads: usize,
    head_dim: usize,
    n_rot: usize,
    position: u32,
    theta_base: F32Bits,
    result: Result<(), MetalError>,
)
    requires
        call_ensures(
            rope::encode_rope_neox_pair_shared_f32,
            (
                &ctx, enc, &q, &k, n_q_heads, n_k_heads, head_dim, n_rot, position,
                theta_base,
            ),
            result,
        ),
    ensures
        reading::granted_just_when(
            *old(enc), *final(enc), result, ctx,
            pair_acceptable(q, k, n_q_heads, n_k_heads, head_dim, n_rot, theta_base),
            "rope_neox_pair"@,
            "kernel_rope_neox_pair_shared_f32"@,
        ),
        writable_floats(q) && writable_floats(k) && n_q_heads > 0 && n_k_heads > 0
            && pairs_in_head(n_rot, head_dim) && above_one(theta_base) && !q.overlaps(k)
            && n_q_heads * head_dim <= usize::MAX && n_k_heads * head_dim <= usize::MAX
            && !(q.count() == n_q_heads * head_dim && k.count() == n_k_heads * head_dim)
            ==> reading::shows(
            result,
            seq![
                Datum::Int(n_q_heads * head_dim),
                Datum::Int(n_k_heads * head_dim),
                Datum::Int(q.elements() as int),
                Datum::Int(k.elements() as int),
            ],
        ),
        result is Ok ==> pair_rotated(
            *old(enc), *final(enc),
            q, k, n_q_heads, n_k_heads, head_dim, n_rot, position, theta_base,
            "kernel_rope_neox_pair_shared_f32"@,
            true,
        ),
{
    reading::lemma_read(*old(enc), *final(enc));
    let half = (n_rot / 2) as int;
    lemma_bounds(1, n_q_heads as int, head_dim as int, half, u32::MAX as int);
    lemma_bounds(1, n_k_heads as int, head_dim as int, half, u32::MAX as int);
    lemma_bounds(1, n_q_heads as int, head_dim as int, half, usize::MAX as int);
    lemma_bounds(1, n_k_heads as int, head_dim as int, half, usize::MAX as int);
    reading::lemma_compiled(ctx, "kernel_rope_neox_pair_shared_f32"@);
    if pair_acceptable(q, k, n_q_heads, n_k_heads, head_dim, n_rot, theta_base) {
        let heads = if n_q_heads > n_k_heads {
            n_q_heads
        } else {
            n_k_heads
        };
        numeric::law_div_up_covers((heads * half) as usize, 64);
        numeric::law_div_up_covers((1 * half) as usize, 32);
    }
}

/// The Q and K of one token are rotated at the position that was asked for, with
/// shared minimax coefficients, up to the last position for which those were
/// validated.
pub proof fn law_rope_neox_pair_shared_minimax_f32(
    enc: &mut KernelEncoder,
    ctx: MetalContext,
    q: MetalTensor,
    k: MetalTensor,
    n_q_heads: usize,
    n_k_heads: usize,
    head_dim: usize,
    n_rot: usize,
    position: u32,
    theta_base: F32Bits,
    result: Result<(), MetalError>,
)
    requires
        call_ensures(
            rope::encode_rope_neox_pair_shared_minimax_f32,
            (
                &ctx, enc, &q, &k, n_q_heads, n_k_heads, head_dim, n_rot, position,
                theta_base,
            ),
            result,
        ),
    ensures
        reading::granted_when(
            *old(enc), *final(enc), result, ctx,
            pair_acceptable(q, k, n_q_heads, n_k_heads, head_dim, n_rot, theta_base) &&
            position <= 1_048_575,
            "kernel_rope_neox_pair_shared_minimax_f32"@,
        ),
        result is Ok ==> pair_rotated(
            *old(enc), *final(enc),
            q, k, n_q_heads, n_k_heads, head_dim, n_rot, position, theta_base,
            "kernel_rope_neox_pair_shared_minimax_f32"@,
            true,
        ),
{
    reading::lemma_read(*old(enc), *final(enc));
    let half = (n_rot / 2) as int;
    lemma_bounds(1, n_q_heads as int, head_dim as int, half, u32::MAX as int);
    lemma_bounds(1, n_k_heads as int, head_dim as int, half, u32::MAX as int);
    lemma_bounds(1, n_q_heads as int, head_dim as int, half, usize::MAX as int);
    lemma_bounds(1, n_k_heads as int, head_dim as int, half, usize::MAX as int);
    reading::lemma_compiled(ctx, "kernel_rope_neox_pair_shared_minimax_f32"@);
    if pair_acceptable(q, k, n_q_heads, n_k_heads, head_dim, n_rot, theta_base) {
        let heads = if n_q_heads > n_k_heads {
            n_q_heads
        } else {
            n_k_heads
        };
        numeric::law_div_up_covers((heads * half) as usize, 64);
        numeric::law_div_up_covers((1 * half) as usize, 32);
    }
}

/// The Q and K of packed tokens are rotated from the start position that was asked
/// for, by a kernel of the name that was asked for.
pub proof fn law_rope_neox_pair_f32_packed_consecutive_impl(
    enc: &mut KernelEncoder,
    ctx: MetalContext,
    q: MetalTensor,
    k: MetalTensor,
    n_tokens: usize,
    n_q_heads: usize,
    n_k_heads: usize,
    head_dim: usize,
    n_rot: usize,
    start_position: u32,
    theta_base: F32Bits,
    kernel_name: &'static str,
    shared_across_heads: bool,
    result: Result<(), MetalError>,
)
    requires
        call_ensures(
            rope::encode_rope_neox_pair_f32_packed_consecutive_impl,
            (
                &ctx, enc, &q, &k, n_tokens, n_q_heads, n_k_heads, head_dim, n_rot,
                start_position, theta_base, kernel_name, shared_across_heads,
            ),
            result,
        ),
    ensures
        reading::granted_just_when(
            *old(enc), *final(enc), result, ctx,
            packed_acceptable(q, k, n_tokens, n_q_heads, n_k_heads, head_dim, n_rot,
            start_position, theta_base),
            "rope_neox_pair_packed_consecutive"@,
            kernel_name@,
        ),
        writable_floats(q) && writable_floats(k) && n_tokens > 0 && n_q_heads > 0 && n_k_heads > 0
            && pairs_in_head(n_rot, head_dim) && above_one(theta_base) && !q.overlaps(k)
            && n_tokens * n_q_heads * head_dim <= usize::MAX
            && n_tokens * n_k_heads * head_dim <= usize::MAX
            && !(q.count() == n_tokens * n_q_heads * head_dim
            && k.count() == n_tokens * n_k_heads * head_dim) ==> reading::shows(
            result,
            seq![
                Datum::Int(n_tokens * n_q_heads * head_dim),
                Datum::Int(n_tokens * n_k_heads * head_dim),
                Datum::Int(q.elements() as int),
                Datum::Int(k.elements() as int),
            ],
        ),
        result is Ok ==> packed_rotated(
            *old(enc), *final(enc),
            q, k, n_tokens, n_q_heads, n_k_heads, head_dim, n_rot, start_position,
            theta_base,
            kernel_name@,
            shared_across_heads,
        ),
{
    reading::lemma_read(*old(enc), *final(enc));
    let half = (n_rot / 2) as int;
    lemma_bounds(n_tokens as int, n_q_heads as int, head_dim as int, half, u32::MAX as int);
    lemma_bounds(n_tokens as int, n_k_heads as int, head_dim as int, half, u32::MAX as int);
    lemma_bounds(n_tokens as int, n_q_heads as int, head_dim as int, half, usize::MAX as int);
    lemma_bounds(n_tokens as int, n_k_heads as int, head_dim as int, half, usize::MAX as int);
    reading::lemma_compiled(ctx, kernel_name@);
    if packed_acceptable(q, k, n_tokens, n_q_heads, n_k_heads, head_dim, n_rot, start_position,
        theta_base) {
        let heads = if n_q_heads > n_k_heads {
            n_q_heads
        } else {
            n_k_heads
        };
        numeric::law_div_up_covers((n_tokens * heads * half) as usize, 64);
        numeric::law_div_up_covers((n_tokens * 1 * half) as usize, 32);
    }
}

/// The Q and K of packed tokens are rotated from the start position that was asked
/// for, each head on its own lanes.
pub proof fn law_rope_neox_pair_f32_packed_consecutive(
    enc: &mut KernelEncoder,
    ctx: MetalContext,
    q: MetalTensor,
    k: MetalTensor,
    n_tokens: usize,
    n_q_heads: usize,
    n_k_heads: usize,
    head_dim: usize,
    n_rot: usize,
    start_position: u32,
    theta_base: F32Bits,
    result: Result<(), MetalError>,
)
    requires
        call_ensures(
            rope::encode_rope_neox_pair_f32_packed_consecutive,
            (
                &ctx, enc, &q, &k, n_tokens, n_q_heads, n_k_heads, head_dim, n_rot,
                start_position, theta_base,
            ),
            result,
        ),
    ensures
        reading::granted_just_when(
            *old(enc), *final(enc), result, ctx,
            packed_acceptable(q, k, n_tokens, n_q_heads, n_k_heads, head_dim, n_rot,
            start_position, theta_base),
            "rope_neox_pair_packed_consecutive"@,
            "kernel_rope_neox_pair_f32_packed_consecutive"@,
        ),
        writable_floats(q) && writable_floats(k) && n_tokens > 0 && n_q_heads > 0 && n_k_heads > 0
            && pairs_in_head(n_rot, head_dim) && above_one(theta_base) && !q.overlaps(k)
            && n_tokens * n_q_heads * head_dim <= usize::MAX
            && n_tokens * n_k_heads * head_dim <= usize::MAX
            && !(q.count() == n_tokens * n_q_heads * head_dim
            && k.count() == n_tokens * n_k_heads * head_dim) ==> reading::shows(
            result,
            seq![
                Datum::Int(n_tokens * n_q_heads * head_dim),
                Datum::Int(n_tokens * n_k_heads * head_dim),
                Datum::Int(q.elements() as int),
                Datum::Int(k.elements() as int),
            ],
        ),
        result is Ok ==> packed_rotated(
            *old(enc), *final(enc),
            q, k, n_tokens, n_q_heads, n_k_heads, head_dim, n_rot, start_position,
            theta_base,
            "kernel_rope_neox_pair_f32_packed_consecutive"@,
            false,
        ),
{
    reading::lemma_read(*old(enc), *final(enc));
    let half = (n_rot / 2) as int;
    lemma_bounds(n_tokens as int, n_q_heads as int, head_dim as int, half, u32::MAX as int);
    lemma_bounds(n_tokens as int, n_k_heads as int, head_dim as int, half, u32::MAX as int);
    lemma_bounds(n_tokens as int, n_q_heads as int, head_dim as int, half, usize::MAX as int);
    lemma_bounds(n_tokens as int, n_k_heads as int, head_dim as int, half, usize::MAX as int);
    reading::lemma_compiled(ctx, "kernel_rope_neox_pair_f32_packed_consecutive"@);
    if packed_acceptable(q, k, n_tokens, n_q_heads, n_k_heads, head_dim, n_rot, start_position,
        theta_base) {
        let heads = if n_q_heads > n_k_heads {
            n_q_heads
        } else {
            n_k_heads
        };
        numeric::law_div_up_covers((n_tokens * heads * half) as usize, 64);
        numeric::law_div_up_covers((n_tokens * 1 * half) as usize, 32);
    }
}

/// The Q and K of packed tokens are rotated from the start position that was asked
/// for, with coefficients that the heads share.
pub proof fn law_rope_neox_pair_shared_f32_packed_consecutive(
    enc: &mut KernelEncoder,
    ctx: MetalContext,
    q: MetalTensor,
    k: MetalTensor,
    n_tokens: usize,
    n_q_heads: usize,
    n_k_heads: usize,
    head_dim: usize,
    n_rot: usize,
    start_position: u32,
    theta_base: F32Bits,
    result: Result<(), MetalError>,
)
    requires
        call_ensures(
            rope::encode_rope_neox_pair_shared_f32_packed_consecutive,
            (
                &ctx, enc, &q, &k, n_tokens, n_q_heads, n_k_heads, head_dim, n_rot,
                start_position, theta_base,
            ),
            result,
        ),
    ensures
        reading::granted_just_when(
            *old(enc), *final(enc), result, ctx,
            packed_acceptable(q, k, n_tokens, n_q_heads, n_k_heads, head_dim, n_rot,
            start_position, theta_base),
            "rope_neox_pair_packed_consecutive"@,
            "kernel_rope_neox_pair_shared_f32_packed_consecutive"@,
        ),
        writable_floats(q) && writable_floats(k) && n_tokens > 0 && n_q_heads > 0 && n_k_heads > 0
            && pairs_in_head(n_rot, head_dim) && above_one(theta_base) && !q.overlaps(k)
            && n_tokens * n_q_heads * head_dim <= usize::MAX
            && n_tokens * n_k_heads * head_dim <= usize::MAX
            && !(q.count() == n_tokens * n_q_heads * head_dim
            && k.count() == n_tokens * n_k_heads * head_dim) ==> reading::shows(
            result,
            seq![
                Datum::Int(n_tokens * n_q_heads * head_dim),
                Datum::Int(n_tokens * n_k_heads * head_dim),
                Datum::Int(q.elements() as int),
                Datum::Int(k.elements() as int),
            ],
        ),
        result is Ok ==> packed_rotated(
            *old(enc), *final(enc),
            q, k, n_tokens, n_q_heads, n_k_heads, head_dim, n_rot, start_position,
            theta_base,
            "kernel_rope_neox_pair_shared_f32_packed_consecutive"@,
            true,
        ),
{
    reading::lemma_read(*old(enc), *final(enc));
    let half = (n_rot / 2) as int;
    lemma_bounds(n_tokens as int, n_q_heads as int, head_dim as int, half, u32::MAX as int);
    lemma_bounds(n_tokens as int, n_k_heads as int, head_dim as int, half, u32::MAX as int);
    lemma_bounds(n_tokens as int, n_q_heads as int, head_dim as int, half, usize::MAX as int);
    lemma_bounds(n_tokens as int, n_k_heads as int, head_dim as int, half, usize::MAX as int);
    reading::lemma_compiled(ctx, "kernel_rope_neox_pair_shared_f32_packed_consecutive"@);
    if packed_acceptable(q, k, n_tokens, n_q_heads, n_k_heads, head_dim, n_rot, start_position,
        theta_base) {
        let heads = if n_q_heads > n_k_heads {
            n_q_heads
        } else {
            n_k_heads
        };
        numeric::law_div_up_covers((n_tokens * heads * half) as usize, 64);
        numeric::law_div_up_covers((n_tokens * 1 * half) as usize, 32);
    }
}

/// The Q and K of packed tokens are rotated from the start position that was asked
/// for; from 128 tokens on the heads share their coefficients.
pub proof fn law_rope_neox_pair_adaptive_f32_packed_consecutive(
    enc: &mut KernelEncoder,
    ctx: MetalContext,
    q: MetalTensor,
    k: MetalTensor,
    n_tokens: usize,
    n_q_heads: usize,
    n_k_heads: usize,
    head_dim: usize,
    n_rot: usize,
    start_position: u32,
    theta_base: F32Bits,
    result: Result<(), MetalError>,
)
    requires
        call_ensures(
            rope::encode_rope_neox_pair_adaptive_f32_packed_consecutive,
            (
                &ctx, enc, &q, &k, n_tokens, n_q_heads, n_k_heads, head_dim, n_rot,
                start_position, theta_base,
            ),
            result,
        ),
    ensures
        ({
            let shared = n_tokens >= 128;
            let name = if shared {
                "kernel_rope_neox_pair_shared_f32_packed_consecutive"@
            } else {
                "kernel_rope_neox_pair_f32_packed_consecutive"@
            };
            &&& reading::granted_just_when(
                *old(enc), *final(enc), result, ctx,
                packed_acceptable(q, k, n_tokens, n_q_heads, n_k_heads, head_dim, n_rot,
                start_position, theta_base),
                "rope_neox_pair_packed_consecutive"@,
                name,
            )
            &&& writable_floats(q) && writable_floats(k) && n_tokens > 0 && n_q_heads > 0
                && n_k_heads > 0 && pairs_in_head(n_rot, head_dim) && above_one(theta_base)
                && !q.overlaps(k) && n_tokens * n_q_heads * head_dim <= usize::MAX
                && n_tokens * n_k_heads * head_dim <= usize::MAX
                && !(q.count() == n_tokens * n_q_heads * head_dim
                && k.count() == n_tokens * n_k_heads * head_dim) ==> reading::shows(
                result,
                seq![
                    Datum::Int(n_tokens * n_q_heads * head_dim),
                    Datum::Int(n_tokens * n_k_heads * head_dim),
                    Datum::Int(q.elements() as int),
                    Datum::Int(k.elements() as int),
                ],
            )
            &&& result is Ok ==> packed_rotated(
                *old(enc), *final(enc),
                q, k, n_tokens, n_q_heads, n_k_heads, head_dim, n_rot, start_position,
                theta_base,
                name,
                shared,
            )
        }),
{
    reading::lemma_read(*old(enc), *final(enc));
    let half = (n_rot / 2) as int;
    lemma_bounds(n_tokens as int, n_q_heads as int, head_dim as int, half, u32::MAX as int);
    lemma_bounds(n_tokens as int, n_k_heads as int, head_dim as int, half, u32::MAX as int);
    lemma_bounds(n_tokens as int, n_q_heads as int, head_dim as int, half, usize::MAX as int);
    lemma_bounds(n_tokens as int, n_k_heads as int, head_dim as int, half, usize::MAX as int);
    reading::lemma_compiled(ctx, "kernel_rope_neox_pair_shared_f32_packed_consecutive"@);
    reading::lemma_compiled(ctx, "kernel_rope_neox_pair_f32_packed_consecutive"@);
    if packed_acceptable(q, k, n_tokens, n_q_heads, n_k_heads, head_dim, n_rot, start_position,
        theta_base) {
        let heads = if n_q_heads > n_k_heads {
            n_q_heads
        } else {
            n_k_heads
        };
        numeric::law_div_up_covers((n_tokens * heads * half) as usize, 64);
        numeric::law_div_up_covers((n_tokens * 1 * half) as usize, 32);
    }
}

/// The Q and K of packed tokens are rotated from the start position that was asked
/// for, with shared minimax coefficients, up to the last position for which those
/// were validated.
pub proof fn law_rope_neox_pair_shared_minimax_f32_packed_consecutive(
    enc: &mut KernelEncoder,
    ctx: MetalContext,
    q: MetalTensor,
    k: MetalTensor,
    n_tokens: usize,
    n_q_heads: usize,
    n_k_heads: usize,
    head_dim: usize,
    n_rot: usize,
    start_position: u32,
    theta_base: F32Bits,
    result: Result<(), MetalError>,
)
    requires
        call_ensures(
            rope::encode_rope_neox_pair_shared_minimax_f32_packed_consecutive,
            (
                &ctx, enc, &q, &k, n_tokens, n_q_heads, n_k_heads, head_dim, n_rot,
                start_position, theta_base,
            ),
            result,
        ),
    ensures
        reading::granted_when(
            *old(enc), *final(enc), result, ctx,
            packed_acceptable(q, k, n_tokens, n_q_heads, n_k_heads, head_dim, n_rot,
            start_position, theta_base) && start_position + (n_tokens - 1) <= 1_048_575,
            "kernel_rope_neox_pair_shared_minimax_f32_packed_consecutive"@,
        ),
        result is Ok ==> packed_rotated(
            *old(enc), *final(enc),
            q, k, n_tokens, n_q_heads, n_k_heads, head_dim, n_rot, start_position,
            theta_base,
            "kernel_rope_neox_pair_shared_minimax_f32_packed_consecutive"@,
            true,
        ),
{
    reading::lemma_read(*old(enc), *final(enc));
    let half = (n_rot / 2) as int;
    lemma_bounds(n_tokens as int, n_q_heads as int, head_dim as int, half, u32::MAX as int);
    lemma_bounds(n_tokens as int, n_k_heads as int, head_dim as int, half, u32::MAX as int);
    lemma_bounds(n_tokens as int, n_q_heads as int, head_dim as int, half, usize::MAX as int);
    lemma_bounds(n_tokens as int, n_k_heads as int, head_dim as int, half, usize::MAX as int);
    reading::lemma_compiled(ctx, "kernel_rope_neox_pair_shared_minimax_f32_packed_consecutive"@);
    if packed_acceptable(q, k, n_tokens, n_q_heads, n_k_heads, head_dim, n_rot, start_position,
        theta_base) {
        let heads = if n_q_heads > n_k_heads {
            n_q_heads
        } else {
            n_k_heads
        };
        numeric::law_div_up_covers((n_tokens * heads * half) as usize, 64);
        numeric::law_div_up_covers((n_tokens * 1 * half) as usize, 32);
    }
}

/// The heads of one token are rotated at the position that was asked for, with a
/// lane for each pair of channels.
pub proof fn law_rope_neox_f32(
    enc: &mut KernelEncoder,
    ctx: MetalContext,
    buf: MetalTensor,
    n_heads: usize,
    head_dim: usize,
    n_rot: usize,
    position: u32,
    theta_base: F32Bits,
    result: Result<(), MetalError>,
)
    requires
        call_ensures(
            rope::encode_rope_neox_f32,
            (
                &ctx, enc, &buf, n_heads, head_dim, n_rot, position, theta_base,
            ),
            result,
        ),
        n_heads * head_dim <= usize::MAX,
    ensures
        reading::granted_just_when(
            *old(enc), *final(enc), result, ctx,
            buf.count() == n_heads * head_dim
                && n_rot % 2 == 0
                && n_rot <= head_dim,
            "rope_neox"@,
            "kernel_rope_neox_f32"@,
        ),
        result is Ok ==> {
            let args = reading::words(*old(enc), *final(enc));
            let grid = reading::grid(*final(enc));
            &&& reading::launched(
                *old(enc), *final(enc),
                seq![reading::at(buf)],
                seq![],
            )
            &&& reading::kernel(*old(enc), *final(enc)) == "kernel_rope_neox_f32"@
            &&& args.len() == 5
            &&& args[0] == n_heads as u32
            &&& args[1] == head_dim as u32
            &&& args[2] == n_rot as u32
            &&& args[3] == position
            &&& args[4] == theta_base.bits
            &&& reading::tiles(grid.width, 64, n_heads * (n_rot / 2))
            &&& grid.height == 1 && grid.depth == 1
            &&& reading::line(reading::group(*final(enc)), 64)
        },
{
    reading::lemma_compiled(ctx, "kernel_rope_neox_f32"@);
    reading::lemma_read(*old(enc), *final(enc));
    assert(n_rot <= head_dim ==> n_heads * (n_rot / 2) <= n_heads * head_dim) by (nonlinear_arith);
    assert(n_heads * (n_rot / 2) >= 0) by (nonlinear_arith);
    numeric::law_div_up_covers((n_heads * (n_rot / 2)) as usize, 64);
}

/// The heads of packed tokens are rotated from the start position that was asked
/// for, with a lane for each pair of channels.
pub proof fn law_rope_neox_f32_packed_consecutive(
    enc: &mut KernelEncoder,
    ctx: MetalContext,
    buf: MetalTensor,
    n_tokens: usize,
    n_heads: usize,
    head_dim: usize,
    n_rot: usize,
    start_position: u32,
    theta_base: F32Bits,
    result: Result<(), MetalError>,
)
    requires
        call_ensures(
            rope::encode_rope_neox_f32_packed_consecutive,
            (
                &ctx, enc, &buf, n_tokens, n_heads, head_dim, n_rot, start_position,
                theta_base,
            ),
            result,
        ),
    ensures
        reading::granted_just_when(
            *old(enc), *final(enc), result, ctx,
            writable_floats(buf)
                && n_tokens > 0 && n_heads > 0
                && pairs_in_head(n_rot, head_dim)
                && above_one(theta_base)
                && buf.count() == n_tokens * n_heads * head_dim
                && floats_inside(buf)
                && buf.count() <= u32::MAX
                && start_position + (n_tokens - 1) <= u32::MAX,
            "rope_neox_packed_consecutive"@,
            "kernel_rope_neox_f32_packed_consecutive"@,
        ),
        result is Ok ==> {
            let args = reading::words(*old(enc), *final(enc));
            let grid = reading::grid(*final(enc));
            &&& reading::launched(
                *old(enc), *final(enc),
                seq![reading::at(buf)],
                seq![],
            )
            &&& reading::kernel(*old(enc), *final(enc))
                == "kernel_rope_neox_f32_packed_consecutive"@
            &&& args.len() == 6
            &&& args[0] == n_tokens
            &&& args[1] == n_heads
            &&& args[2] == head_dim
            &&& args[3] == n_rot
            &&& args[4] == start_position
            &&& args[5] == theta_base.bits
            &&& reading::tiles(grid.width, 64, n_tokens * n_heads * (n_rot / 2))
            &&& grid.height == 1 && grid.depth == 1
            &&& reading::line(reading::group(*final(enc)), 64)
        },
{
    reading::lemma_compiled(ctx, "kernel_rope_neox_f32_packed_consecutive"@);
    reading::lemma_read(*old(enc), *final(enc));
    let half = (n_rot / 2) as int;
    lemma_bounds(n_tokens as int, n_heads as int, head_dim as int, half, u32::MAX as int);
    lemma_bounds(n_tokens as int, n_heads as int, head_dim as int, half, usize::MAX as int);
    numeric::law_div_up_covers((n_tokens * n_heads * half) as usize, 64);
}

/// The span of validated minimax positions is accepted just when its last position is
/// at most `1_048_575`. An empty span always is.
pub proof fn law_minimax_span(
    start_position: u32,
    n_tokens: usize,
    name: &'static str,
    result: Result<(), MetalError>,
)
    requires
        call_ensures(
            rope::validate_rope_minimax_position_span,
            (start_position, n_tokens, name),
            result,
        ),
    ensures
        result is Ok <==> forall|t: int| 0 <= t < n_tokens ==> #[trigger] (start_position + t)
            <= 1_048_575,
{
    assert(n_tokens > 0 ==> start_position + (n_tokens - 1) == start_position + n_tokens - 1);
}

} // verus!
