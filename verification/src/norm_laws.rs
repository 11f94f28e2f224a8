//! What the norm kernels are told, and when.

use vstd::prelude::*;

use crate::context::MetalContext;
use crate::dtype::GgmlType;
use crate::encoder::KernelEncoder;
use crate::error::{Datum, MetalError};
use crate::float_bits::F32Bits;
use crate::norm::RmsNormVjpRule;
use crate::norm;
use crate::numeric;
use crate::reading;
use crate::shape;
use crate::tensor::{MetalTensor, MetalTensorProvenance};

verus! {

/// A finite number above zero, by its bits.
pub open spec fn above_zero(number: F32Bits) -> bool {
    0 < number.bits < 0x7f80_0000
}

/// A finite number that is not below zero, by its bits. Zero has two of them.
pub open spec fn not_below_zero(number: F32Bits) -> bool {
    number.bits < 0x7f80_0000 || number.bits == 0x8000_0000
}

/// The `n` floats from the tensor's start on lie, aligned, inside its buffer.
pub open spec fn reaches(tensor: MetalTensor, n: int) -> bool {
    tensor.offset % 4 == 0 && tensor.offset + n * 4 <= tensor.buffer.length
}

/// A tensor of this shape with `n` floats, inside its buffer.
pub open spec fn compact(tensor: MetalTensor, shape: Seq<u64>, n: int) -> bool {
    tensor.dtype == GgmlType::F32 && tensor.shape@ == shape && reaches(tensor, n)
}

/// Kernels may write the tensor.
pub open spec fn may_write(tensor: MetalTensor) -> bool {
    tensor.provenance == MetalTensorProvenance::OwnedWritable
}

/// The bytes of a vector and of a matrix of floats.
proof fn lemma_float_bytes(n: u64, rows: u64)
    ensures
        shape::shape_elements(seq![n]) == Some(n),
        shape::shape_elements(seq![n, rows]) == (if n * rows <= u64::MAX {
            Some((n * rows) as u64)
        } else {
            None::<u64>
        }),
        n * rows >= 0,
{
    reveal_with_fuel(shape::shape_elements, 3);
    assert(shape::shape_elements(Seq::<u64>::empty()) == Some(1u64));
    assert(seq![n].drop_last() =~= Seq::<u64>::empty());
    assert(seq![n].last() == n && 1u64 * n == n);
    assert(seq![n, rows].drop_last() =~= seq![n] && seq![n, rows].last() == rows);
    assert(n * rows >= 0) by (nonlinear_arith);
}

/// What the number of rows and their width say of each other.
proof fn lemma_sizes(a: int, b: int, limit: int)
    requires
        a >= 0,
        b >= 0,
    ensures
        a * b >= 0,
        a > 0 && b > 0 ==> a * b > 0,
        a > 0 && b > 0 && a * b <= limit ==> a <= limit && b <= limit,
        a * b == b * a,
{
    assert(a * b >= 0 && a * b == b * a) by (nonlinear_arith)
        requires
            a >= 0,
            b >= 0,
    ;
    if a > 0 && b > 0 {
        assert(a <= a * b && b <= a * b) by (nonlinear_arith)
            requires
                a > 0,
                b > 0,
        ;
    }
}

/// One row is normed by one threadgroup, with a weight and a result for each
/// element.
pub proof fn law_rms_norm_mul_f32(
    enc: &mut KernelEncoder,
    ctx: MetalContext,
    x: MetalTensor,
    weight: MetalTensor,
    y: MetalTensor,
    eps: F32Bits,
    result: Result<(), MetalError>,
)
    requires
        call_ensures(
            norm::encode_rms_norm_mul_f32,
            (
                &ctx, enc, &x, &weight, &y, eps,
            ),
            result,
        ),
    ensures
        reading::granted_just_when(
            *old(enc), *final(enc), result, ctx,
            y.count() == x.count()
                && weight.count() == x.count(),
            "rms_norm"@,
            "kernel_rms_norm_mul_f32"@,
        ),
        y.count() != x.count() ==> reading::shows(
            result,
            seq![
                Datum::Int(y.elements() as int),
                Datum::Int(x.count() as int),
            ],
        ),
        y.count() == x.count() && weight.count() != x.count() ==> reading::shows(
            result,
            seq![
                Datum::Int(weight.elements() as int),
                Datum::Int(x.count() as int),
            ],
        ),
        result is Ok ==> {
            let args = reading::words(*old(enc), *final(enc));
            let grid = reading::grid(*final(enc));
            &&& reading::reduces(
                ctx, *old(enc), *final(enc),
                seq![reading::at(x), reading::at(weight), reading::at(y)],
                1,
            )
            &&& reading::kernel(*old(enc), *final(enc)) == "kernel_rms_norm_mul_f32"@
            &&& args.len() == 2
            &&& args[0] == x.count() as u32
            &&& args[1] == eps.bits
            &&& grid.width == 1 && grid.height == 1 && grid.depth == 1
        },
{
    reading::lemma_compiled(ctx, "kernel_rms_norm_mul_f32"@);
    reading::lemma_read(*old(enc), *final(enc));
    reading::lemma_reduction(*old(enc), *final(enc), result, ctx);
}

/// Each of `row_count` rows is normed by a threadgroup of its own, with the one row
/// of weights.
pub proof fn law_rms_norm_mul_rows_f32(
    enc: &mut KernelEncoder,
    ctx: MetalContext,
    x: MetalTensor,
    weight: MetalTensor,
    y: MetalTensor,
    row_count: usize,
    n_dim: usize,
    eps: F32Bits,
    result: Result<(), MetalError>,
)
    requires
        call_ensures(
            norm::encode_rms_norm_mul_rows_f32,
            (
                &ctx, enc, &x, &weight, &y, row_count, n_dim, eps,
            ),
            result,
        ),
    ensures
        reading::granted_just_when(
            *old(enc), *final(enc), result, ctx,
            row_count * n_dim <= usize::MAX
                && row_count > 0 && n_dim > 0
                && x.elements() == row_count * n_dim
                && y.elements() == row_count * n_dim
                && weight.count() == n_dim
                && row_count <= u32::MAX && n_dim <= u32::MAX,
            "rms_norm_rows"@,
            "kernel_rms_norm_mul_rows_f32"@,
        ),
        row_count * n_dim <= usize::MAX && !(row_count > 0 && n_dim > 0
            && x.elements() == row_count * n_dim && y.elements() == row_count * n_dim)
            ==> reading::shows(
            result,
            seq![
                Datum::Int(row_count as int),
                Datum::Int(n_dim as int),
                Datum::Int(x.elements() as int),
                Datum::Int(y.elements() as int),
            ],
        ),
        result is Ok ==> {
            let args = reading::words(*old(enc), *final(enc));
            let grid = reading::grid(*final(enc));
            &&& reading::reduces(
                ctx, *old(enc), *final(enc),
                seq![reading::at(x), reading::at(weight), reading::at(y)],
                1,
            )
            &&& reading::kernel(*old(enc), *final(enc)) == "kernel_rms_norm_mul_rows_f32"@
            &&& args.len() == 3
            &&& args[0] == n_dim
            &&& args[1] == row_count
            &&& args[2] == eps.bits
            &&& grid.width == row_count && grid.height == 1 && grid.depth == 1
        },
{
    reading::lemma_compiled(ctx, "kernel_rms_norm_mul_rows_f32"@);
    reading::lemma_read(*old(enc), *final(enc));
    reading::lemma_reduction(*old(enc), *final(enc), result, ctx);
}

/// The gradient of each of `row_count` rows is taken by a threadgroup of its own;
/// the primal rows divide them evenly, and no result overwrites what is read.
pub proof fn law_rms_norm_mul_vjp_impl_f32(
    enc: &mut KernelEncoder,
    ctx: MetalContext,
    x: MetalTensor,
    weight: MetalTensor,
    grad_output: MetalTensor,
    grad_input: MetalTensor,
    row_count: usize,
    n_dim: usize,
    eps: F32Bits,
    rule: RmsNormVjpRule,
    primal_row_count: usize,
    rank_one_primal: bool,
    result: Result<(), MetalError>,
)
    requires
        call_ensures(
            norm::encode_rms_norm_mul_vjp_impl_f32,
            (
                &ctx, enc, &x, &weight, &grad_output, &grad_input, row_count, n_dim, eps,
                rule, primal_row_count, rank_one_primal,
            ),
            result,
        ),
    ensures
        reading::granted_when(
            *old(enc), *final(enc), result, ctx,
            row_count > 0 && n_dim > 0
                && 0 < primal_row_count <= row_count
                && row_count % primal_row_count == 0
                && ((rank_one_primal ==> primal_row_count == 1))
                && not_below_zero(eps)
                && row_count <= u32::MAX && n_dim <= u32::MAX
                && compact(x, if rank_one_primal { seq![n_dim as u64] } else { seq![n_dim as u64,
                    primal_row_count as u64] }, n_dim * primal_row_count)
                && compact(weight, seq![n_dim as u64], n_dim as int)
                && compact(grad_output, seq![n_dim as u64, row_count as u64], n_dim * row_count)
                && compact(grad_input, seq![n_dim as u64, row_count as u64], n_dim * row_count)
                && may_write(grad_input)
                && !grad_input.overlaps(x)
                && !grad_input.overlaps(weight)
                && !grad_input.overlaps(grad_output),
            "kernel_rms_norm_mul_vjp_rows_f32"@,
        ),
        result is Ok ==> {
            let args = reading::words(*old(enc), *final(enc));
            let grid = reading::grid(*final(enc));
            &&& reading::reduces(
                ctx, *old(enc), *final(enc),
                seq![
                    reading::at(x),
                    reading::at(weight),
                    reading::at(grad_output),
                    reading::at(grad_input),
                ],
                2,
            )
            &&& reading::kernel(*old(enc), *final(enc)) == "kernel_rms_norm_mul_vjp_rows_f32"@
            &&& args.len() == 5
            &&& args[0] == n_dim
            &&& args[1] == row_count
            &&& args[2] == eps.bits
            &&& args[3] == if rule == RmsNormVjpRule::RelpDetachedScale { 1u32 } else { 0u32 }
            &&& args[4] == primal_row_count
            &&& grid.width == row_count && grid.height == 1 && grid.depth == 1
        },
{
    reading::lemma_compiled(ctx, "kernel_rms_norm_mul_vjp_rows_f32"@);
    reading::lemma_read(*old(enc), *final(enc));
    reading::lemma_reduction(*old(enc), *final(enc), result, ctx);
    lemma_float_bytes(n_dim as u64, row_count as u64);
    lemma_float_bytes(n_dim as u64, primal_row_count as u64);
    assert(primal_row_count == 1 ==> n_dim * primal_row_count == n_dim) by (nonlinear_arith);
}

/// The gradient of each row is taken at the primal row of the same number.
pub proof fn law_rms_norm_mul_vjp_rows_f32(
    enc: &mut KernelEncoder,
    ctx: MetalContext,
    x: MetalTensor,
    weight: MetalTensor,
    grad_output: MetalTensor,
    grad_input: MetalTensor,
    row_count: usize,
    n_dim: usize,
    eps: F32Bits,
    rule: RmsNormVjpRule,
    result: Result<(), MetalError>,
)
    requires
        call_ensures(
            norm::encode_rms_norm_mul_vjp_rows_f32,
            (
                &ctx, enc, &x, &weight, &grad_output, &grad_input, row_count, n_dim, eps,
                rule,
            ),
            result,
        ),
    ensures
        reading::granted_when(
            *old(enc), *final(enc), result, ctx,
            row_count > 0 && n_dim > 0
                && not_below_zero(eps)
                && row_count <= u32::MAX && n_dim <= u32::MAX
                && compact(x, seq![n_dim as u64, row_count as u64], n_dim * row_count)
                && compact(weight, seq![n_dim as u64], n_dim as int)
                && compact(grad_output, seq![n_dim as u64, row_count as u64], n_dim * row_count)
                && compact(grad_input, seq![n_dim as u64, row_count as u64], n_dim * row_count)
                && may_write(grad_input)
                && !grad_input.overlaps(x)
                && !grad_input.overlaps(weight)
                && !grad_input.overlaps(grad_output),
            "kernel_rms_norm_mul_vjp_rows_f32"@,
        ),
        result is Ok ==> {
            let args = reading::words(*old(enc), *final(enc));
            let grid = reading::grid(*final(enc));
            &&& reading::reduces(
                ctx, *old(enc), *final(enc),
                seq![
                    reading::at(x),
                    reading::at(weight),
                    reading::at(grad_output),
                    reading::at(grad_input),
                ],
                2,
            )
            &&& reading::kernel(*old(enc), *final(enc)) == "kernel_rms_norm_mul_vjp_rows_f32"@
            &&& args.len() == 5
            &&& args[0] == n_dim
            &&& args[1] == row_count
            &&& args[2] == eps.bits
            &&& args[3] == if rule == RmsNormVjpRule::RelpDetachedScale { 1u32 } else { 0u32 }
            &&& args[4] == row_count
            &&& grid.width == row_count && grid.height == 1 && grid.depth == 1
        },
{
    reading::lemma_compiled(ctx, "kernel_rms_norm_mul_vjp_rows_f32"@);
    reading::lemma_read(*old(enc), *final(enc));
    reading::lemma_reduction(*old(enc), *final(enc), result, ctx);
    lemma_float_bytes(n_dim as u64, row_count as u64);
    lemma_float_bytes(n_dim as u64, row_count as u64);
}

/// The gradient of every row is taken at the one primal row.
pub proof fn law_rms_norm_mul_vjp_broadcast_f32(
    enc: &mut KernelEncoder,
    ctx: MetalContext,
    x: MetalTensor,
    weight: MetalTensor,
    grad_output: MetalTensor,
    grad_input: MetalTensor,
    row_count: usize,
    n_dim: usize,
    eps: F32Bits,
    rule: RmsNormVjpRule,
    result: Result<(), MetalError>,
)
    requires
        call_ensures(
            norm::encode_rms_norm_mul_vjp_broadcast_f32,
            (
                &ctx, enc, &x, &weight, &grad_output, &grad_input, row_count, n_dim, eps,
                rule,
            ),
            result,
        ),
    ensures
        reading::granted_when(
            *old(enc), *final(enc), result, ctx,
            row_count > 0 && n_dim > 0
                && not_below_zero(eps)
                && row_count <= u32::MAX && n_dim <= u32::MAX
                && compact(x, seq![n_dim as u64], n_dim * 1)
                && compact(weight, seq![n_dim as u64], n_dim as int)
                && compact(grad_output, seq![n_dim as u64, row_count as u64], n_dim * row_count)
                && compact(grad_input, seq![n_dim as u64, row_count as u64], n_dim * row_count)
                && may_write(grad_input)
                && !grad_input.overlaps(x)
                && !grad_input.overlaps(weight)
                && !grad_input.overlaps(grad_output),
            "kernel_rms_norm_mul_vjp_rows_f32"@,
        ),
        result is Ok ==> {
            let args = reading::words(*old(enc), *final(enc));
            let grid = reading::grid(*final(enc));
            &&& reading::reduces(
                ctx, *old(enc), *final(enc),
                seq![
                    reading::at(x),
                    reading::at(weight),
                    reading::at(grad_output),
                    reading::at(grad_input),
                ],
                2,
            )
            &&& reading::kernel(*old(enc), *final(enc)) == "kernel_rms_norm_mul_vjp_rows_f32"@
            &&& args.len() == 5
            &&& args[0] == n_dim
            &&& args[1] == row_count
            &&& args[2] == eps.bits
            &&& args[3] == if rule == RmsNormVjpRule::RelpDetachedScale { 1u32 } else { 0u32 }
            &&& args[4] == 1
            &&& grid.width == row_count && grid.height == 1 && grid.depth == 1
        },
{
    reading::lemma_compiled(ctx, "kernel_rms_norm_mul_vjp_rows_f32"@);
    reading::lemma_read(*old(enc), *final(enc));
    reading::lemma_reduction(*old(enc), *final(enc), result, ctx);
    lemma_float_bytes(n_dim as u64, row_count as u64);
    lemma_float_bytes(n_dim as u64, 1 as u64);
}

/// The gradients of the rows are taken at the primal rows in turn.
pub proof fn law_rms_norm_mul_vjp_periodic_f32(
    enc: &mut KernelEncoder,
    ctx: MetalContext,
    x: MetalTensor,
    weight: MetalTensor,
    grad_output: MetalTensor,
    grad_input: MetalTensor,
    row_count: usize,
    primal_row_count: usize,
    n_dim: usize,
    eps: F32Bits,
    rule: RmsNormVjpRule,
    result: Result<(), MetalError>,
)
    requires
        call_ensures(
            norm::encode_rms_norm_mul_vjp_periodic_f32,
            (
                &ctx, enc, &x, &weight, &grad_output, &grad_input, row_count,
                primal_row_count, n_dim, eps, rule,
            ),
            result,
        ),
    ensures
        reading::granted_when(
            *old(enc), *final(enc), result, ctx,
            row_count > 0 && n_dim > 0
                && 0 < primal_row_count <= row_count
                && row_count % primal_row_count == 0
                && not_below_zero(eps)
                && row_count <= u32::MAX && n_dim <= u32::MAX
                && compact(x, seq![n_dim as u64, primal_row_count as u64], n_dim * primal_row_count)
                && compact(weight, seq![n_dim as u64], n_dim as int)
                && compact(grad_output, seq![n_dim as u64, row_count as u64], n_dim * row_count)
                && compact(grad_input, seq![n_dim as u64, row_count as u64], n_dim * row_count)
                && may_write(grad_input)
                && !grad_input.overlaps(x)
                && !grad_input.overlaps(weight)
                && !grad_input.overlaps(grad_output),
            "kernel_rms_norm_mul_vjp_rows_f32"@,
        ),
        result is Ok ==> {
            let args = reading::words(*old(enc), *final(enc));
            let grid = reading::grid(*final(enc));
            &&& reading::reduces(
                ctx, *old(enc), *final(enc),
                seq![
                    reading::at(x),
                    reading::at(weight),
                    reading::at(grad_output),
                    reading::at(grad_input),
                ],
                2,
            )
            &&& reading::kernel(*old(enc), *final(enc)) == "kernel_rms_norm_mul_vjp_rows_f32"@
            &&& args.len() == 5
            &&& args[0] == n_dim
            &&& args[1] == row_count
            &&& args[2] == eps.bits
            &&& args[3] == if rule == RmsNormVjpRule::RelpDetachedScale { 1u32 } else { 0u32 }
            &&& args[4] == primal_row_count
            &&& grid.width == row_count && grid.height == 1 && grid.depth == 1
        },
{
    reading::lemma_compiled(ctx, "kernel_rms_norm_mul_vjp_rows_f32"@);
    reading::lemma_read(*old(enc), *final(enc));
    reading::lemma_reduction(*old(enc), *final(enc), result, ctx);
    lemma_float_bytes(n_dim as u64, row_count as u64);
    lemma_float_bytes(n_dim as u64, primal_row_count as u64);
}

/// One row and its residual are normed by one threadgroup, with a weight and a
/// result for each element.
pub proof fn law_residual_rms_norm_mul_f32(
    enc: &mut KernelEncoder,
    ctx: MetalContext,
    x: MetalTensor,
    residual: MetalTensor,
    weight: MetalTensor,
    y: MetalTensor,
    eps: F32Bits,
    result: Result<(), MetalError>,
)
    requires
        call_ensures(
            norm::encode_residual_rms_norm_mul_f32,
            (
                &ctx, enc, &x, &residual, &weight, &y, eps,
            ),
            result,
        ),
    ensures
        reading::granted_just_when(
            *old(enc), *final(enc), result, ctx,
            residual.count() == x.count()
                && y.count() == x.count()
                && weight.count() == x.count(),
            "residual_rms_norm"@,
            "kernel_residual_rms_norm_mul_f32"@,
        ),
        residual.count() != x.count() ==> reading::shows(
            result,
            seq![
                Datum::Int(residual.elements() as int),
                Datum::Int(x.count() as int),
            ],
        ),
        residual.count() == x.count() && y.count() != x.count() ==> reading::shows(
            result,
            seq![
                Datum::Int(y.elements() as int),
                Datum::Int(x.count() as int),
            ],
        ),
        result is Ok ==> {
            let args = reading::words(*old(enc), *final(enc));
            let grid = reading::grid(*final(enc));
            &&& reading::reduces(
                ctx, *old(enc), *final(enc),
                seq![reading::at(x), reading::at(residual), reading::at(weight), reading::at(y)],
                1,
            )
            &&& reading::kernel(*old(enc), *final(enc)) == "kernel_residual_rms_norm_mul_f32"@
            &&& args.len() == 2
            &&& args[0] == x.count() as u32
            &&& args[1] == eps.bits
            &&& grid.width == 1 && grid.height == 1 && grid.depth == 1
        },
{
    reading::lemma_compiled(ctx, "kernel_residual_rms_norm_mul_f32"@);
    reading::lemma_read(*old(enc), *final(enc));
    reading::lemma_reduction(*old(enc), *final(enc), result, ctx);
}

/// One vector is normed by one threadgroup, with a result for each element.
pub proof fn law_l2_norm_f32(
    enc: &mut KernelEncoder,
    ctx: MetalContext,
    x: MetalTensor,
    y: MetalTensor,
    eps: F32Bits,
    result: Result<(), MetalError>,
)
    requires
        call_ensures(
            norm::encode_l2_norm_f32,
            (
                &ctx, enc, &x, &y, eps,
            ),
            result,
        ),
    ensures
        reading::granted_just_when(
            *old(enc), *final(enc), result, ctx,
            y.count() == x.count(),
            "l2_norm"@,
            "kernel_l2_norm_f32"@,
        ),
        y.count() != x.count() ==> reading::shows(
            result,
            seq![
                Datum::Int(y.elements() as int),
                Datum::Int(x.count() as int),
            ],
        ),
        result is Ok ==> {
            let args = reading::words(*old(enc), *final(enc));
            let grid = reading::grid(*final(enc));
            &&& reading::reduces(
                ctx, *old(enc), *final(enc),
                seq![reading::at(x), reading::at(y)],
                1,
            )
            &&& reading::kernel(*old(enc), *final(enc)) == "kernel_l2_norm_f32"@
            &&& args.len() == 2
            &&& args[0] == x.count() as u32
            &&& args[1] == eps.bits
            &&& grid.width == 1 && grid.height == 1 && grid.depth == 1
        },
{
    reading::lemma_compiled(ctx, "kernel_l2_norm_f32"@);
    reading::lemma_read(*old(enc), *final(enc));
    reading::lemma_reduction(*old(enc), *final(enc), result, ctx);
}

/// The gradient of each head is taken by a threadgroup of its own, and no result
/// overwrites what is read.
pub proof fn law_l2_norm_vjp_batched_f32(
    enc: &mut KernelEncoder,
    ctx: MetalContext,
    x: MetalTensor,
    grad_output: MetalTensor,
    grad_input: MetalTensor,
    n_heads: usize,
    head_dim: usize,
    eps: F32Bits,
    result: Result<(), MetalError>,
)
    requires
        call_ensures(
            norm::encode_l2_norm_vjp_batched_f32,
            (
                &ctx, enc, &x, &grad_output, &grad_input, n_heads, head_dim, eps,
            ),
            result,
        ),
    ensures
        reading::granted_when(
            *old(enc), *final(enc), result, ctx,
            n_heads > 0 && head_dim > 0
                && above_zero(eps)
                && n_heads <= u32::MAX && head_dim <= u32::MAX
                && compact(x, seq![(n_heads * head_dim) as u64], n_heads * head_dim)
                && compact(grad_output, seq![(n_heads * head_dim) as u64], n_heads * head_dim)
                && compact(grad_input, seq![(n_heads * head_dim) as u64], n_heads * head_dim)
                && may_write(grad_input)
                && !grad_input.overlaps(x)
                && !grad_input.overlaps(grad_output),
            "kernel_l2_norm_vjp_batched_f32"@,
        ),
        !(n_heads > 0 && head_dim > 0 && above_zero(eps) && n_heads <= u32::MAX
            && head_dim <= u32::MAX) ==> reading::shows(
            result,
            seq![
                Datum::Int(n_heads as int),
                Datum::Int(head_dim as int),
                Datum::FloatBits(eps.bits),
            ],
        ),
        result is Ok ==> {
            let args = reading::words(*old(enc), *final(enc));
            let grid = reading::grid(*final(enc));
            &&& reading::reduces(
                ctx, *old(enc), *final(enc),
                seq![reading::at(x), reading::at(grad_output), reading::at(grad_input)],
                2,
            )
            &&& reading::kernel(*old(enc), *final(enc)) == "kernel_l2_norm_vjp_batched_f32"@
            &&& args.len() == 3
            &&& args[0] == n_heads
            &&& args[1] == head_dim
            &&& args[2] == eps.bits
            &&& grid.width == n_heads && grid.height == 1 && grid.depth == 1
        },
{
    reading::lemma_compiled(ctx, "kernel_l2_norm_vjp_batched_f32"@);
    reading::lemma_read(*old(enc), *final(enc));
    reading::lemma_reduction(*old(enc), *final(enc), result, ctx);
    lemma_sizes(n_heads as int, head_dim as int, 0);
    lemma_float_bytes((n_heads * head_dim) as u64, 1);
}

/// Each head is normed by a threadgroup of its own, with one weight per channel.
pub proof fn law_rms_norm_batched_f32(
    enc: &mut KernelEncoder,
    ctx: MetalContext,
    x: MetalTensor,
    weight: MetalTensor,
    y: MetalTensor,
    n_heads: usize,
    head_dim: usize,
    eps: F32Bits,
    result: Result<(), MetalError>,
)
    requires
        call_ensures(
            norm::encode_rms_norm_batched_f32,
            (
                &ctx, enc, &x, &weight, &y, n_heads, head_dim, eps,
            ),
            result,
        ),
    ensures
        reading::granted_just_when(
            *old(enc), *final(enc), result, ctx,
            x.elements() == n_heads * head_dim
                && y.elements() == n_heads * head_dim
                && weight.count() == head_dim,
            "rms_norm_batched"@,
            "kernel_rms_norm_batched_f32"@,
        ),
        !(x.elements() == n_heads * head_dim && y.elements() == n_heads * head_dim)
            ==> reading::shows(
            result,
            seq![
                Datum::Int(n_heads * head_dim),
            ],
        ),
        x.elements() == n_heads * head_dim && y.elements() == n_heads * head_dim
            && weight.count() != head_dim ==> reading::shows(
            result,
            seq![
                Datum::Int(head_dim as int),
            ],
        ),
        result is Ok ==> {
            let args = reading::words(*old(enc), *final(enc));
            let grid = reading::grid(*final(enc));
            &&& reading::reduces(
                ctx, *old(enc), *final(enc),
                seq![reading::at(x), reading::at(weight), reading::at(y)],
                1,
            )
            &&& reading::kernel(*old(enc), *final(enc)) == "kernel_rms_norm_batched_f32"@
            &&& args.len() == 3
            &&& args[0] == n_heads as u32
            &&& args[1] == head_dim as u32
            &&& args[2] == eps.bits
            &&& grid.width == n_heads && grid.height == 1 && grid.depth == 1
        },
{
    reading::lemma_compiled(ctx, "kernel_rms_norm_batched_f32"@);
    reading::lemma_read(*old(enc), *final(enc));
    reading::lemma_reduction(*old(enc), *final(enc), result, ctx);
}

/// Each strided row is normed by a threadgroup of its own; the source reaches to
/// the end of the last row, and the results are compact.
pub proof fn law_rms_norm_batched_src_strided_f32(
    enc: &mut KernelEncoder,
    ctx: MetalContext,
    x: MetalTensor,
    weight: MetalTensor,
    y: MetalTensor,
    n_heads: usize,
    head_dim: usize,
    src_stride: usize,
    src_offset: usize,
    eps: F32Bits,
    result: Result<(), MetalError>,
)
    requires
        call_ensures(
            norm::encode_rms_norm_batched_src_strided_f32,
            (
                &ctx, enc, &x, &weight, &y, n_heads, head_dim, src_stride, src_offset, eps,
            ),
            result,
        ),
    ensures
        reading::granted_just_when(
            *old(enc), *final(enc), result, ctx,
            n_heads > 0 && head_dim > 0
                && x.elements() >= src_offset + (n_heads - 1) * src_stride + head_dim
                && y.elements() == n_heads * head_dim
                && weight.count() == head_dim,
            "rms_norm_batched_src_strided"@,
            "kernel_rms_norm_batched_src_strided_f32"@,
        ),
        n_heads > 0 && head_dim > 0
            && x.elements() < src_offset + (n_heads - 1) * src_stride + head_dim
            ==> reading::shows(
            result,
            seq![
                Datum::Int(x.elements() as int),
                Datum::Int(src_offset + (n_heads - 1) * src_stride + head_dim),
                Datum::Int(src_offset as int),
                Datum::Int(src_stride as int),
                Datum::Int(n_heads as int),
                Datum::Int(head_dim as int),
            ],
        ),
        result is Ok ==> {
            let args = reading::words(*old(enc), *final(enc));
            let grid = reading::grid(*final(enc));
            &&& reading::reduces(
                ctx, *old(enc), *final(enc),
                seq![reading::at(x), reading::at(weight), reading::at(y)],
                1,
            )
            &&& reading::kernel(*old(enc), *final(enc))
                == "kernel_rms_norm_batched_src_strided_f32"@
            &&& args.len() == 5
            &&& args[0] == n_heads as u32
            &&& args[1] == head_dim as u32
            &&& args[2] == src_stride as u32
            &&& args[3] == src_offset as u32
            &&& args[4] == eps.bits
            &&& grid.width == n_heads && grid.height == 1 && grid.depth == 1
        },
{
    reading::lemma_compiled(ctx, "kernel_rms_norm_batched_src_strided_f32"@);
    reading::lemma_read(*old(enc), *final(enc));
    reading::lemma_reduction(*old(enc), *final(enc), result, ctx);
}

/// Every row of Q and every row of K is normed and rotated by a threadgroup of its
/// own, from the start position that was asked for. The source of Q has two rows
/// for each of its results, and no result overwrites what is read.
pub proof fn law_qk_rms_norm_rope_f32_packed_consecutive(
    enc: &mut KernelEncoder,
    ctx: MetalContext,
    q_src: MetalTensor,
    q_weight: MetalTensor,
    q_out: MetalTensor,
    k_src: MetalTensor,
    k_weight: MetalTensor,
    k_out: MetalTensor,
    n_tokens: usize,
    n_q_heads: usize,
    n_k_heads: usize,
    head_dim: usize,
    n_rot: usize,
    start_position: u32,
    eps: F32Bits,
    theta_base: F32Bits,
    result: Result<(), MetalError>,
)
    requires
        call_ensures(
            norm::encode_qk_rms_norm_rope_f32_packed_consecutive,
            (
                &ctx, enc, &q_src, &q_weight, &q_out, &k_src, &k_weight, &k_out, n_tokens,
                n_q_heads, n_k_heads, head_dim, n_rot, start_position, eps, theta_base,
            ),
            result,
        ),
    ensures
        reading::granted_just_when(
            *old(enc), *final(enc), result, ctx,
            q_src.dtype == GgmlType::F32
                && q_weight.dtype == GgmlType::F32
                && q_out.dtype == GgmlType::F32
                && k_src.dtype == GgmlType::F32
                && k_weight.dtype == GgmlType::F32
                && k_out.dtype == GgmlType::F32
                && may_write(q_out) && may_write(k_out)
                && n_tokens > 0 && n_q_heads > 0 && n_k_heads > 0
                && 0 < n_rot <= head_dim && n_rot % 2 == 0
                && above_zero(eps)
                && 0x3f80_0000 < theta_base.bits < 0x7f80_0000
                && q_src.count() == 2 * q_out.count()
                && q_out.count() == n_tokens * n_q_heads * head_dim
                && k_src.count() == n_tokens * n_k_heads * head_dim
                && k_out.count() == n_tokens * n_k_heads * head_dim
                && q_weight.count() == head_dim
                && k_weight.count() == head_dim
                && reaches(q_src, q_src.count() as int)
                && reaches(q_weight, q_weight.count() as int)
                && reaches(q_out, q_out.count() as int)
                && reaches(k_src, k_src.count() as int)
                && reaches(k_weight, k_weight.count() as int)
                && reaches(k_out, k_out.count() as int)
                && q_src.count() <= u32::MAX && k_src.count() <= u32::MAX
                && !q_out.overlaps(q_src)
                && !q_out.overlaps(q_weight)
                && !q_out.overlaps(k_src)
                && !q_out.overlaps(k_weight)
                && !q_out.overlaps(k_out)
                && !k_out.overlaps(q_src)
                && !k_out.overlaps(q_weight)
                && !k_out.overlaps(k_src)
                && !k_out.overlaps(k_weight)
                && start_position + (n_tokens - 1) <= u32::MAX
                && n_tokens * (n_q_heads + n_k_heads) <= u32::MAX,
            "qk_rms_norm_rope"@,
            "kernel_qk_rms_norm_rope_f32_packed_consecutive"@,
        ),
        result is Ok ==> {
            let args = reading::words(*old(enc), *final(enc));
            let grid = reading::grid(*final(enc));
            &&& reading::reduces(
                ctx, *old(enc), *final(enc),
                seq![
                    reading::at(q_src),
                    reading::at(q_weight),
                    reading::at(q_out),
                    reading::at(k_src),
                    reading::at(k_weight),
                    reading::at(k_out),
                ],
                1,
            )
            &&& reading::kernel(*old(enc), *final(enc))
                == "kernel_qk_rms_norm_rope_f32_packed_consecutive"@
            &&& args.len() == 8
            &&& args[0] == n_tokens
            &&& args[1] == n_q_heads
            &&& args[2] == n_k_heads
            &&& args[3] == head_dim
            &&& args[4] == n_rot
            &&& args[5] == start_position
            &&& args[6] == eps.bits
            &&& args[7] == theta_base.bits
            &&& grid.width == n_tokens * (n_q_heads + n_k_heads) && grid.height == 1
                && grid.depth == 1
        },
{
    reading::lemma_compiled(ctx, "kernel_qk_rms_norm_rope_f32_packed_consecutive"@);
    reading::lemma_read(*old(enc), *final(enc));
    reading::lemma_reduction(*old(enc), *final(enc), result, ctx);
    let q_rows = n_tokens * n_q_heads;
    let k_rows = n_tokens * n_k_heads;
    assert(n_tokens * (n_q_heads + n_k_heads) == q_rows + k_rows) by (nonlinear_arith)
        requires
            q_rows == n_tokens * n_q_heads,
            k_rows == n_tokens * n_k_heads,
    ;
    lemma_sizes(n_tokens as int, n_q_heads as int, u32::MAX as int);
    lemma_sizes(n_tokens as int, n_k_heads as int, u32::MAX as int);
    lemma_sizes(q_rows, head_dim as int, u32::MAX as int);
    lemma_sizes(k_rows, head_dim as int, u32::MAX as int);
    lemma_sizes(q_rows, head_dim as int, usize::MAX as int);
    lemma_sizes(k_rows, head_dim as int, usize::MAX as int);
    lemma_sizes(q_rows * 2, head_dim as int, usize::MAX as int);
    assert(q_rows * 2 * head_dim == 2 * (q_rows * head_dim)) by (nonlinear_arith);
}

/// Each head is normed by a threadgroup of its own.
pub proof fn law_l2_norm_batched_f32(
    enc: &mut KernelEncoder,
    ctx: MetalContext,
    x: MetalTensor,
    y: MetalTensor,
    n_heads: usize,
    head_dim: usize,
    eps: F32Bits,
    result: Result<(), MetalError>,
)
    requires
        call_ensures(
            norm::encode_l2_norm_batched_f32,
            (
                &ctx, enc, &x, &y, n_heads, head_dim, eps,
            ),
            result,
        ),
    ensures
        reading::granted_just_when(
            *old(enc), *final(enc), result, ctx,
            x.elements() == n_heads * head_dim
                && y.elements() == n_heads * head_dim,
            "l2_norm_batched"@,
            "kernel_l2_norm_batched_f32"@,
        ),
        !(x.elements() == n_heads * head_dim && y.elements() == n_heads * head_dim)
            ==> reading::shows(
            result,
            seq![
                Datum::Int(n_heads * head_dim),
            ],
        ),
        result is Ok ==> {
            let args = reading::words(*old(enc), *final(enc));
            let grid = reading::grid(*final(enc));
            &&& reading::reduces(
                ctx, *old(enc), *final(enc),
                seq![reading::at(x), reading::at(y)],
                1,
            )
            &&& reading::kernel(*old(enc), *final(enc)) == "kernel_l2_norm_batched_f32"@
            &&& args.len() == 3
            &&& args[0] == n_heads as u32
            &&& args[1] == head_dim as u32
            &&& args[2] == eps.bits
            &&& grid.width == n_heads && grid.height == 1 && grid.depth == 1
        },
{
    reading::lemma_compiled(ctx, "kernel_l2_norm_batched_f32"@);
    reading::lemma_read(*old(enc), *final(enc));
    reading::lemma_reduction(*old(enc), *final(enc), result, ctx);
}

/// Each head of Q and each head of K is normed, by a threadgroup of its own or,
/// with 128 channels and where the device is set to it, four heads to a
/// threadgroup.
pub proof fn law_l2_norm_pair_batched_f32(
    enc: &mut KernelEncoder,
    ctx: MetalContext,
    q_x: MetalTensor,
    q_y: MetalTensor,
    k_x: MetalTensor,
    k_y: MetalTensor,
    n_heads: usize,
    head_dim: usize,
    eps: F32Bits,
    result: Result<(), MetalError>,
)
    requires
        call_ensures(
            norm::encode_l2_norm_pair_batched_f32,
            (
                &ctx, enc, &q_x, &q_y, &k_x, &k_y, n_heads, head_dim, eps,
            ),
            result,
        ),
    ensures
        ({
            let fast = ctx.switches.l2_pair_hd128_r4 && head_dim == 128;
            let name = if fast {
                "kernel_l2_norm_pair_hd128_r4_f32"@
            } else {
                "kernel_l2_norm_pair_batched_f32"@
            };
            let tensors = seq![reading::at(q_x), reading::at(q_y), reading::at(k_x),
                reading::at(k_y)];
            let args = reading::words(*old(enc), *final(enc));
            let grid = reading::grid(*final(enc));
            let group = reading::group(*final(enc));
            &&& reading::granted_just_when(
                *old(enc), *final(enc), result, ctx,
                q_x.elements() == n_heads * head_dim
                    && q_y.elements() == n_heads * head_dim
                    && k_x.elements() == n_heads * head_dim
                    && k_y.elements() == n_heads * head_dim,
                "l2_norm_pair_batched"@,
                name,
            )
            &&& result is Ok ==> {
                &&& reading::kernel(*old(enc), *final(enc)) == name
                &&& args.len() == 3
                &&& args[0] == n_heads as u32
                &&& args[1] == head_dim as u32
                &&& args[2] == eps.bits
                &&& grid.depth == 1
            }
            &&& result is Ok && fast ==> {
                &&& reading::launched(*old(enc), *final(enc), tensors, seq![])
                &&& reading::tiles(grid.width, 4, n_heads as int)
                &&& grid.height == 2
                &&& group.width == 32 && group.height == 4 && group.depth == 1
            }
            &&& result is Ok && !fast ==> {
                &&& reading::reduces(ctx, *old(enc), *final(enc), tensors, 1)
                &&& grid.width == n_heads
                &&& grid.height == 2
            }
        }),
{
    reading::lemma_compiled(ctx, "kernel_l2_norm_pair_hd128_r4_f32"@);
    reading::lemma_compiled(ctx, "kernel_l2_norm_pair_batched_f32"@);
    reading::lemma_read(*old(enc), *final(enc));
    reading::lemma_reduction(*old(enc), *final(enc), result, ctx);
    numeric::law_div_up_covers(n_heads, 4);
}

/// Each head is normed and gated, by a threadgroup of its own or, with 128 channels
/// and where the device is set to it, four heads to a threadgroup.
pub proof fn law_rmsnorm_gated_f32(
    enc: &mut KernelEncoder,
    ctx: MetalContext,
    o: MetalTensor,
    weight: MetalTensor,
    z: MetalTensor,
    y: MetalTensor,
    n_heads: usize,
    head_dim: usize,
    eps: F32Bits,
    result: Result<(), MetalError>,
)
    requires
        call_ensures(
            norm::encode_rmsnorm_gated_f32,
            (
                &ctx, enc, &o, &weight, &z, &y, n_heads, head_dim, eps,
            ),
            result,
        ),
    ensures
        ({
            let fast = ctx.switches.rmsnorm_gated_hd128_r4 && head_dim == 128;
            let name = if fast {
                "kernel_rmsnorm_gated_hd128_r4_f32"@
            } else {
                "kernel_rmsnorm_gated_f32"@
            };
            let tensors = seq![reading::at(o), reading::at(weight), reading::at(z), reading::at(y)];
            let args = reading::words(*old(enc), *final(enc));
            let grid = reading::grid(*final(enc));
            let group = reading::group(*final(enc));
            &&& reading::granted_just_when(
                *old(enc), *final(enc), result, ctx,
                o.elements() == n_heads * head_dim
                    && z.elements() == n_heads * head_dim
                    && y.elements() == n_heads * head_dim
                    && weight.count() == head_dim,
                "rmsnorm_gated"@,
                name,
            )
            &&& result is Ok ==> {
                &&& reading::kernel(*old(enc), *final(enc)) == name
                &&& args.len() == 3
                &&& args[0] == n_heads as u32
                &&& args[1] == head_dim as u32
                &&& args[2] == eps.bits
                &&& grid.depth == 1
            }
            &&& result is Ok && fast ==> {
                &&& reading::launched(*old(enc), *final(enc), tensors, seq![])
                &&& reading::tiles(grid.width, 4, n_heads as int)
                &&& grid.height == 1
                &&& group.width == 32 && group.height == 4 && group.depth == 1
            }
            &&& result is Ok && !fast ==> {
                &&& reading::reduces(ctx, *old(enc), *final(enc), tensors, 1)
                &&& grid.width == n_heads
                &&& grid.height == 1
            }
        }),
{
    reading::lemma_compiled(ctx, "kernel_rmsnorm_gated_hd128_r4_f32"@);
    reading::lemma_compiled(ctx, "kernel_rmsnorm_gated_f32"@);
    reading::lemma_read(*old(enc), *final(enc));
    reading::lemma_reduction(*old(enc), *final(enc), result, ctx);
    numeric::law_div_up_covers(n_heads, 4);
}

/// The gradients of each head are taken by a threadgroup of its own, and no result
/// overwrites what is read or the other result.
pub proof fn law_rmsnorm_gated_vjp_f32(
    enc: &mut KernelEncoder,
    ctx: MetalContext,
    o: MetalTensor,
    weight: MetalTensor,
    z: MetalTensor,
    grad_y: MetalTensor,
    grad_o: MetalTensor,
    grad_z: MetalTensor,
    n_heads: usize,
    head_dim: usize,
    eps: F32Bits,
    result: Result<(), MetalError>,
)
    requires
        call_ensures(
            norm::encode_rmsnorm_gated_vjp_f32,
            (
                &ctx, enc, &o, &weight, &z, &grad_y, &grad_o, &grad_z, n_heads, head_dim,
                eps,
            ),
            result,
        ),
    ensures
        reading::granted_when(
            *old(enc), *final(enc), result, ctx,
            n_heads > 0 && head_dim > 0
                && not_below_zero(eps)
                && n_heads <= u32::MAX && head_dim <= u32::MAX
                && compact(o, seq![(n_heads * head_dim) as u64], n_heads * head_dim)
                && compact(z, seq![(n_heads * head_dim) as u64], n_heads * head_dim)
                && compact(grad_y, seq![(n_heads * head_dim) as u64], n_heads * head_dim)
                && compact(weight, seq![head_dim as u64], head_dim as int)
                && compact(grad_o, seq![(n_heads * head_dim) as u64], n_heads * head_dim)
                && compact(grad_z, seq![(n_heads * head_dim) as u64], n_heads * head_dim)
                && may_write(grad_o) && may_write(grad_z)
                && !grad_o.overlaps(o)
                && !grad_o.overlaps(weight)
                && !grad_o.overlaps(z)
                && !grad_o.overlaps(grad_y)
                && !grad_o.overlaps(grad_z)
                && !grad_z.overlaps(o)
                && !grad_z.overlaps(weight)
                && !grad_z.overlaps(z)
                && !grad_z.overlaps(grad_y),
            "kernel_rmsnorm_gated_vjp_f32"@,
        ),
        result is Ok ==> {
            let args = reading::words(*old(enc), *final(enc));
            let grid = reading::grid(*final(enc));
            &&& reading::reduces(
                ctx, *old(enc), *final(enc),
                seq![
                    reading::at(o),
                    reading::at(weight),
                    reading::at(z),
                    reading::at(grad_y),
                    reading::at(grad_o),
                    reading::at(grad_z),
                ],
                2,
            )
            &&& reading::kernel(*old(enc), *final(enc)) == "kernel_rmsnorm_gated_vjp_f32"@
            &&& args.len() == 3
            &&& args[0] == n_heads
            &&& args[1] == head_dim
            &&& args[2] == eps.bits
            &&& grid.width == n_heads && grid.height == 1 && grid.depth == 1
        },
{
    reading::lemma_compiled(ctx, "kernel_rmsnorm_gated_vjp_f32"@);
    reading::lemma_read(*old(enc), *final(enc));
    reading::lemma_reduction(*old(enc), *final(enc), result, ctx);
    lemma_sizes(n_heads as int, head_dim as int, 0);
    lemma_float_bytes((n_heads * head_dim) as u64, 1);
    lemma_float_bytes(head_dim as u64, 1);
}

} // verus!
