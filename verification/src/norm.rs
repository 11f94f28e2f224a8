//! RMS-norm, L2-norm and QK-norm kernels.

use vstd::prelude::*;

use crate::context::MetalContext;
use crate::dtype::GgmlType;
use crate::encoder::{KernelEncoder, Launch, MTLSize, Outcome};
use crate::error::{bad_shape, Fault, MetalError};
use crate::float_bits::F32Bits;
use crate::numeric;
use crate::numeric::{div_ceil, product};
use crate::shape;
use crate::shape::checked_shape_bytes;
use crate::tensor;
use crate::tensor::{same_shape, validate_compact_f32_tensor, MetalTensor};

verus! {

/// RMS-norm of one row with a weight per element.
pub open spec fn rms_norm_mul(
    ctx: MetalContext,
    x: MetalTensor,
    weight: MetalTensor,
    y: MetalTensor,
    eps: F32Bits,
) -> Outcome {
    let n_dim = x.count();
    if y.count() != n_dim {
        Outcome::Refused(
            Fault::bad_shape("rms_norm"@, "y.n_elements={} != x.n_elements={}"@)
                .num(y.elements() as int).num(n_dim as int),
        )
    } else if weight.count() != n_dim {
        Outcome::Refused(
            Fault::bad_shape("rms_norm"@, "weight.n_elements={} != x.n_elements={}"@)
                .num(weight.elements() as int).num(n_dim as int),
        )
    } else {
        Outcome::reduction(
            ctx,
            "kernel_rms_norm_mul_f32"@,
            seq![n_dim as u32, eps.bits],
            seq![x.place(), weight.place(), y.place()],
            1,
            1,
            1,
        )
    }
}

/// RMS-norm of one row with a weight per element:
/// `y[i] = (x[i] / sqrt(mean(x * x) + eps)) * weight[i]`.
pub fn encode_rms_norm_mul_f32(
    ctx: &MetalContext,
    enc: &mut KernelEncoder,
    x: &MetalTensor,
    weight: &MetalTensor,
    y: &MetalTensor,
    eps: F32Bits,
) -> (r: Result<(), MetalError>)
    requires
        x.wf() && weight.wf() && y.wf(),
    ensures
        old(enc).did(
            *final(enc),
            r,
            rms_norm_mul(
                *ctx,
                *x, *weight, *y, eps,
            ),
        ),
{
    let n_dim: usize = x.element_count();
    if y.element_count() != n_dim {
        return Err(
            bad_shape("rms_norm", "y.n_elements={} != x.n_elements={}")
                .num_u64(y.n_elements()).num(n_dim),
        );
    }
    if weight.element_count() != n_dim {
        return Err(
            bad_shape("rms_norm", "weight.n_elements={} != x.n_elements={}")
                .num_u64(weight.n_elements()).num(n_dim),
        );
    }
    let words: Vec<u32> = vec![n_dim as u32, eps.bits];
    assert(words@ =~= seq![n_dim as u32, eps.bits]);
    let tensors = [x.binding(), weight.binding(), y.binding()];
    assert(tensors@ =~= seq![x.place(), weight.place(), y.place()]);
    enc.launch_reduction(ctx, "kernel_rms_norm_mul_f32", words, &tensors, 1, 1, 1)
}

/// RMS-norm of compact rows that share one weight per element.
pub open spec fn rms_norm_mul_rows(
    ctx: MetalContext,
    x: MetalTensor,
    weight: MetalTensor,
    y: MetalTensor,
    row_count: usize,
    n_dim: usize,
    eps: F32Bits,
) -> Outcome {
    let want = row_count * n_dim;
    if want > usize::MAX {
        Outcome::Refused(
            Fault::bad_shape("rms_norm_rows"@, "row element count overflow"@),
        )
    } else if row_count == 0 || n_dim == 0 || x.elements() != want || y.elements() != want {
        Outcome::Refused(
            Fault::bad_shape("rms_norm_rows"@, "x/y expected {} rows of {} elements, got {}/{}"@)
                .num(row_count as int).num(n_dim as int).num(x.elements() as int)
                .num(y.elements() as int),
        )
    } else if weight.count() != n_dim {
        Outcome::Refused(
            Fault::bad_shape("rms_norm_rows"@, "weight expected {} elements"@).num(n_dim as int),
        )
    } else if row_count > u32::MAX {
        Outcome::Refused(
            Fault::bad_shape("rms_norm_rows"@, "row count exceeds u32"@),
        )
    } else if n_dim > u32::MAX {
        Outcome::Refused(
            Fault::bad_shape("rms_norm_rows"@, "row width exceeds u32"@),
        )
    } else {
        Outcome::reduction(
            ctx,
            "kernel_rms_norm_mul_rows_f32"@,
            seq![n_dim as u32, row_count as u32, eps.bits],
            seq![x.place(), weight.place(), y.place()],
            1,
            row_count,
            1,
        )
    }
}

/// RMS-norm of compact rows that share one weight per element.
pub fn encode_rms_norm_mul_rows_f32(
    ctx: &MetalContext,
    enc: &mut KernelEncoder,
    x: &MetalTensor,
    weight: &MetalTensor,
    y: &MetalTensor,
    row_count: usize,
    n_dim: usize,
    eps: F32Bits,
) -> (r: Result<(), MetalError>)
    requires
        x.wf() && weight.wf() && y.wf(),
    ensures
        old(enc).did(
            *final(enc),
            r,
            rms_norm_mul_rows(
                *ctx,
                *x, *weight, *y, row_count, n_dim, eps,
            ),
        ),
{
    let want: usize = match row_count.checked_mul(n_dim) {
        Some(n) => n,
        None => {
            return Err(
                bad_shape("rms_norm_rows", "row element count overflow"),
            );
        },
    };
    if row_count == 0 || n_dim == 0 || x.n_elements() != want as u64
        || y.n_elements() != want as u64 {
        return Err(
            bad_shape("rms_norm_rows", "x/y expected {} rows of {} elements, got {}/{}")
                .num(row_count).num(n_dim).num_u64(x.n_elements()).num_u64(y.n_elements()),
        );
    }
    if weight.element_count() != n_dim {
        return Err(
            bad_shape("rms_norm_rows", "weight expected {} elements").num(n_dim),
        );
    }
    if row_count > u32::MAX as usize {
        return Err(
            bad_shape("rms_norm_rows", "row count exceeds u32"),
        );
    }
    if n_dim > u32::MAX as usize {
        return Err(
            bad_shape("rms_norm_rows", "row width exceeds u32"),
        );
    }
    let words: Vec<u32> = vec![n_dim as u32, row_count as u32, eps.bits];
    assert(words@ =~= seq![n_dim as u32, row_count as u32, eps.bits]);
    let tensors = [x.binding(), weight.binding(), y.binding()];
    assert(tensors@ =~= seq![x.place(), weight.place(), y.place()]);
    enc.launch_reduction(ctx, "kernel_rms_norm_mul_rows_f32", words, &tensors, 1, row_count, 1)
}

/// How the gradient passes through the norm.
#[derive(Clone, Copy, Debug, PartialEq, Eq, Structural)]
pub enum RmsNormVjpRule {
    /// The ordinary derivative.
    Jacobian,
    /// The reciprocal of the mean square counts as constant.
    RelpDetachedScale,
}

/// The activation gradient of a weighted RMS-norm. Gradient row `r` uses primal row
/// `r % primal_row_count`.
pub open spec fn rms_norm_mul_vjp(
    ctx: MetalContext,
    x: MetalTensor,
    weight: MetalTensor,
    grad_output: MetalTensor,
    grad_input: MetalTensor,
    row_count: usize,
    n_dim: usize,
    eps: F32Bits,
    rule: RmsNormVjpRule,
    primal_row_count: usize,
    rank_one_primal: bool,
) -> Outcome {
    let row_shape = seq![n_dim as u64, row_count as u64];
    let primal_shape = if rank_one_primal {
        seq![n_dim as u64]
    } else {
        seq![n_dim as u64, primal_row_count as u64]
    };
    let weight_shape = seq![n_dim as u64];
    let primal_bytes = shape::dense_bytes(primal_shape, 4);
    let row_bytes = shape::dense_bytes(row_shape, 4);
    let weight_bytes = shape::dense_bytes(weight_shape, 4);
    let detach = if rule == RmsNormVjpRule::RelpDetachedScale {
        1u32
    } else {
        0u32
    };
    if row_count == 0 || primal_row_count == 0 || primal_row_count > row_count
        || row_count % primal_row_count != 0 || (rank_one_primal && primal_row_count != 1)
        || n_dim == 0 || !eps.finite() || eps.below_zero() {
        Outcome::Refused(
            Fault::bad_shape(
                "rms_norm_mul_vjp_rows"@,
                "expected periodic nonzero primal rows, nonzero width, and finite nonnegative eps; got rows={} primal_rows={} width={} eps={}"@,
            )
                .num(row_count as int).num(primal_row_count as int).num(n_dim as int)
                .float_bits(eps.bits),
        )
    } else if row_count > u32::MAX {
        Outcome::Refused(
            Fault::bad_shape("rms_norm_mul_vjp_rows"@, "row count exceeds u32"@),
        )
    } else if n_dim > u32::MAX {
        Outcome::Refused(
            Fault::bad_shape("rms_norm_mul_vjp_rows"@, "row width exceeds u32"@),
        )
    } else if primal_row_count > u32::MAX {
        Outcome::Refused(
            Fault::bad_shape("rms_norm_mul_vjp_rows"@, "primal row count exceeds u32"@),
        )
    } else if x.dtype != GgmlType::F32 || weight.dtype != GgmlType::F32
        || grad_output.dtype != GgmlType::F32 || grad_input.dtype != GgmlType::F32
        || !grad_input.writable() || x.shape@ != primal_shape || grad_output.shape@ != row_shape
        || grad_input.shape@ != row_shape || weight.shape@ != weight_shape {
        Outcome::Refused(
            Fault::bad_shape(
                "rms_norm_mul_vjp_rows"@,
                "expected F32 primal {}, weight {}, cotangent {} -> writable {}"@,
            )
                .shape(primal_shape).shape(weight_shape).shape(row_shape).shape(row_shape),
        )
    } else if primal_bytes is Err {
        Outcome::Refused(
            primal_bytes->Err_0,
        )
    } else if row_bytes is Err {
        Outcome::Refused(
            row_bytes->Err_0,
        )
    } else if weight_bytes is Err {
        Outcome::Refused(
            weight_bytes->Err_0,
        )
    } else if !x.range_valid(primal_bytes->Ok_0.1, 4)
        || !weight.range_valid(weight_bytes->Ok_0.1, 4)
        || !grad_output.range_valid(row_bytes->Ok_0.1, 4)
        || !grad_input.range_valid(row_bytes->Ok_0.1, 4) {
        Outcome::Refused(
            Fault::bad_shape(
                "rms_norm_mul_vjp_rows"@,
                "tensor has an unaligned or out-of-buffer byte range"@,
            ),
        )
    } else if grad_input.overlaps(x) || grad_input.overlaps(weight)
        || grad_input.overlaps(grad_output) {
        Outcome::Refused(
            Fault::bad_shape(
                "rms_norm_mul_vjp_rows"@,
                "grad_input must not overlap primal, weight, or grad_output storage"@,
            ),
        )
    } else {
        Outcome::reduction(
            ctx,
            "kernel_rms_norm_mul_vjp_rows_f32"@,
            seq![
                n_dim as u32, row_count as u32, eps.bits, detach, primal_row_count as u32,
            ],
            seq![x.place(), weight.place(), grad_output.place(), grad_input.place()],
            2,
            row_count,
            1,
        )
    }
}

/// The activation gradient of a weighted RMS-norm whose primal rows repeat.
pub fn encode_rms_norm_mul_vjp_impl_f32(
    ctx: &MetalContext,
    enc: &mut KernelEncoder,
    x: &MetalTensor,
    weight: &MetalTensor,
    grad_output: &MetalTensor,
    grad_input: &MetalTensor,
    row_count: usize,
    n_dim: usize,
    eps: F32Bits,
    rule: RmsNormVjpRule,
    primal_row_count: usize,
    rank_one_primal: bool,
) -> (r: Result<(), MetalError>)
    ensures
        old(enc).did(
            *final(enc),
            r,
            rms_norm_mul_vjp(
                *ctx,
                *x, *weight, *grad_output, *grad_input, row_count, n_dim, eps, rule,
                primal_row_count, rank_one_primal,
            ),
        ),
{
    if row_count == 0 || primal_row_count == 0 || primal_row_count > row_count
        || row_count % primal_row_count != 0 || (rank_one_primal && primal_row_count != 1)
        || n_dim == 0 || !eps.is_finite() || eps.is_below_zero() {
        return Err(
            bad_shape(
                "rms_norm_mul_vjp_rows",
                "expected periodic nonzero primal rows, nonzero width, and finite nonnegative eps; got rows={} primal_rows={} width={} eps={}",
            )
                .num(row_count).num(primal_row_count).num(n_dim).float_bits(eps.bits),
        );
    }
    if row_count > u32::MAX as usize {
        return Err(
            bad_shape("rms_norm_mul_vjp_rows", "row count exceeds u32"),
        );
    }
    if n_dim > u32::MAX as usize {
        return Err(
            bad_shape("rms_norm_mul_vjp_rows", "row width exceeds u32"),
        );
    }
    if primal_row_count > u32::MAX as usize {
        return Err(
            bad_shape("rms_norm_mul_vjp_rows", "primal row count exceeds u32"),
        );
    }
    let row_shape: Vec<u64> = vec![n_dim as u64, row_count as u64];
    assert(row_shape@ =~= seq![n_dim as u64, row_count as u64]);
    let primal_shape: Vec<u64> = if rank_one_primal {
        vec![n_dim as u64]
    } else {
        vec![n_dim as u64, primal_row_count as u64]
    };
    assert(primal_shape@ =~= if rank_one_primal {
        seq![n_dim as u64]
    } else {
        seq![n_dim as u64, primal_row_count as u64]
    });
    let weight_shape: Vec<u64> = vec![n_dim as u64];
    assert(weight_shape@ =~= seq![n_dim as u64]);
    if x.dtype != GgmlType::F32 || weight.dtype != GgmlType::F32
        || grad_output.dtype != GgmlType::F32 || grad_input.dtype != GgmlType::F32
        || !grad_input.is_writable() || !same_shape(x.shape.as_slice(), primal_shape.as_slice())
        || !same_shape(grad_output.shape.as_slice(), row_shape.as_slice())
        || !same_shape(grad_input.shape.as_slice(), row_shape.as_slice())
        || !same_shape(weight.shape.as_slice(), weight_shape.as_slice()) {
        return Err(
            bad_shape(
                "rms_norm_mul_vjp_rows",
                "expected F32 primal {}, weight {}, cotangent {} -> writable {}",
            )
                .shape(primal_shape.as_slice()).shape(weight_shape.as_slice())
                .shape(row_shape.as_slice()).shape(row_shape.as_slice()),
        );
    }
    let (_, primal_bytes) = match checked_shape_bytes(primal_shape.as_slice(), 4) {
        Ok(counts) => counts,
        Err(e) => {
            return Err(e);
        },
    };
    let (_, row_bytes) = match checked_shape_bytes(row_shape.as_slice(), 4) {
        Ok(counts) => counts,
        Err(e) => {
            return Err(e);
        },
    };
    let (_, weight_bytes) = match checked_shape_bytes(weight_shape.as_slice(), 4) {
        Ok(counts) => counts,
        Err(e) => {
            return Err(e);
        },
    };
    if !x.physical_range_valid(primal_bytes, 4) || !weight.physical_range_valid(weight_bytes, 4)
        || !grad_output.physical_range_valid(row_bytes, 4)
        || !grad_input.physical_range_valid(row_bytes, 4) {
        return Err(
            bad_shape(
                "rms_norm_mul_vjp_rows",
                "tensor has an unaligned or out-of-buffer byte range",
            ),
        );
    }
    if grad_input.ranges_overlap(x) || grad_input.ranges_overlap(weight)
        || grad_input.ranges_overlap(grad_output) {
        return Err(
            bad_shape(
                "rms_norm_mul_vjp_rows",
                "grad_input must not overlap primal, weight, or grad_output storage",
            ),
        );
    }
    let detach: u32 = if rule == RmsNormVjpRule::RelpDetachedScale {
        1
    } else {
        0
    };
    let words: Vec<u32> = vec![
        n_dim as u32,
        row_count as u32,
        eps.bits,
        detach,
        primal_row_count as u32,
    ];
    assert(
        words@ =~= seq![n_dim as u32, row_count as u32, eps.bits, detach, primal_row_count as u32]
    );
    let tensors = [x.binding(), weight.binding(), grad_output.binding(), grad_input.binding()];
    assert(tensors@ =~= seq![x.place(), weight.place(), grad_output.place(), grad_input.place()]);
    enc.launch_reduction(ctx, "kernel_rms_norm_mul_vjp_rows_f32", words, &tensors, 2, row_count, 1)
}

/// The activation gradient of a weighted RMS-norm over compact rows.
pub fn encode_rms_norm_mul_vjp_rows_f32(
    ctx: &MetalContext,
    enc: &mut KernelEncoder,
    x: &MetalTensor,
    weight: &MetalTensor,
    grad_output: &MetalTensor,
    grad_input: &MetalTensor,
    row_count: usize,
    n_dim: usize,
    eps: F32Bits,
    rule: RmsNormVjpRule,
) -> (r: Result<(), MetalError>)
    ensures
        old(enc).did(
            *final(enc),
            r,
            rms_norm_mul_vjp(
                *ctx,
                *x, *weight, *grad_output, *grad_input, row_count, n_dim, eps, rule, row_count,
                false,
            ),
        ),
{
    encode_rms_norm_mul_vjp_impl_f32(
        ctx, enc,
        x, weight, grad_output, grad_input, row_count, n_dim, eps, rule, row_count, false,
    )
}

/// The activation gradient for many rows that share one primal row, without a
/// copy of it per row.
pub fn encode_rms_norm_mul_vjp_broadcast_f32(
    ctx: &MetalContext,
    enc: &mut KernelEncoder,
    x: &MetalTensor,
    weight: &MetalTensor,
    grad_output: &MetalTensor,
    grad_input: &MetalTensor,
    row_count: usize,
    n_dim: usize,
    eps: F32Bits,
    rule: RmsNormVjpRule,
) -> (r: Result<(), MetalError>)
    ensures
        old(enc).did(
            *final(enc),
            r,
            rms_norm_mul_vjp(
                *ctx,
                *x, *weight, *grad_output, *grad_input, row_count, n_dim, eps, rule, 1, true,
            ),
        ),
{
    encode_rms_norm_mul_vjp_impl_f32(
        ctx, enc,
        x, weight, grad_output, grad_input, row_count, n_dim, eps, rule, 1, true,
    )
}

/// The activation gradient for rows that reuse the primal rows in turn.
pub fn encode_rms_norm_mul_vjp_periodic_f32(
    ctx: &MetalContext,
    enc: &mut KernelEncoder,
    x: &MetalTensor,
    weight: &MetalTensor,
    grad_output: &MetalTensor,
    grad_input: &MetalTensor,
    row_count: usize,
    primal_row_count: usize,
    n_dim: usize,
    eps: F32Bits,
    rule: RmsNormVjpRule,
) -> (r: Result<(), MetalError>)
    ensures
        old(enc).did(
            *final(enc),
            r,
            rms_norm_mul_vjp(
                *ctx,
                *x, *weight, *grad_output, *grad_input, row_count, n_dim, eps, rule,
                primal_row_count, false,
            ),
        ),
{
    encode_rms_norm_mul_vjp_impl_f32(
        ctx, enc,
        x, weight, grad_output, grad_input, row_count, n_dim, eps, rule, primal_row_count,
        false,
    )
}

/// Add a residual in place, then RMS-norm the row with a weight per element.
pub open spec fn residual_rms_norm_mul(
    ctx: MetalContext,
    x: MetalTensor,
    residual: MetalTensor,
    weight: MetalTensor,
    y: MetalTensor,
    eps: F32Bits,
) -> Outcome {
    let n_dim = x.count();
    if residual.count() != n_dim {
        Outcome::Refused(
            Fault::bad_shape("residual_rms_norm"@, "residual.n_elements={} != x.n_elements={}"@)
                .num(residual.elements() as int).num(n_dim as int),
        )
    } else if y.count() != n_dim {
        Outcome::Refused(
            Fault::bad_shape("residual_rms_norm"@, "y.n_elements={} != x.n_elements={}"@)
                .num(y.elements() as int).num(n_dim as int),
        )
    } else if weight.count() != n_dim {
        Outcome::Refused(
            Fault::bad_shape("residual_rms_norm"@, "weight.n_elements={} != x.n_elements={}"@)
                .num(weight.elements() as int).num(n_dim as int),
        )
    } else {
        Outcome::reduction(
            ctx,
            "kernel_residual_rms_norm_mul_f32"@,
            seq![n_dim as u32, eps.bits],
            seq![x.place(), residual.place(), weight.place(), y.place()],
            1,
            1,
            1,
        )
    }
}

/// Add a residual in place, then RMS-norm the row with a weight per element.
pub fn encode_residual_rms_norm_mul_f32(
    ctx: &MetalContext,
    enc: &mut KernelEncoder,
    x: &MetalTensor,
    residual: &MetalTensor,
    weight: &MetalTensor,
    y: &MetalTensor,
    eps: F32Bits,
) -> (r: Result<(), MetalError>)
    requires
        x.wf() && residual.wf() && weight.wf() && y.wf(),
    ensures
        old(enc).did(
            *final(enc),
            r,
            residual_rms_norm_mul(
                *ctx,
                *x, *residual, *weight, *y, eps,
            ),
        ),
{
    let n_dim: usize = x.element_count();
    if residual.element_count() != n_dim {
        return Err(
            bad_shape("residual_rms_norm", "residual.n_elements={} != x.n_elements={}")
                .num_u64(residual.n_elements()).num(n_dim),
        );
    }
    if y.element_count() != n_dim {
        return Err(
            bad_shape("residual_rms_norm", "y.n_elements={} != x.n_elements={}")
                .num_u64(y.n_elements()).num(n_dim),
        );
    }
    if weight.element_count() != n_dim {
        return Err(
            bad_shape("residual_rms_norm", "weight.n_elements={} != x.n_elements={}")
                .num_u64(weight.n_elements()).num(n_dim),
        );
    }
    let words: Vec<u32> = vec![n_dim as u32, eps.bits];
    assert(words@ =~= seq![n_dim as u32, eps.bits]);
    let tensors = [x.binding(), residual.binding(), weight.binding(), y.binding()];
    assert(tensors@ =~= seq![x.place(), residual.place(), weight.place(), y.place()]);
    enc.launch_reduction(ctx, "kernel_residual_rms_norm_mul_f32", words, &tensors, 1, 1, 1)
}

/// L2-norm of one vector.
pub open spec fn l2_norm(
    ctx: MetalContext,
    x: MetalTensor,
    y: MetalTensor,
    eps: F32Bits,
) -> Outcome {
    let n = x.count();
    if y.count() != n {
        Outcome::Refused(
            Fault::bad_shape("l2_norm"@, "y.n={} != x.n={}"@)
                .num(y.elements() as int).num(n as int),
        )
    } else {
        Outcome::reduction(
            ctx,
            "kernel_l2_norm_f32"@,
            seq![n as u32, eps.bits],
            seq![x.place(), y.place()],
            1,
            1,
            1,
        )
    }
}

/// L2-norm of one vector: `y = x / max(|x|, eps)`.
pub fn encode_l2_norm_f32(
    ctx: &MetalContext,
    enc: &mut KernelEncoder,
    x: &MetalTensor,
    y: &MetalTensor,
    eps: F32Bits,
) -> (r: Result<(), MetalError>)
    requires
        x.wf() && y.wf(),
    ensures
        old(enc).did(
            *final(enc),
            r,
            l2_norm(
                *ctx,
                *x, *y, eps,
            ),
        ),
{
    let n: usize = x.element_count();
    if y.element_count() != n {
        return Err(
            bad_shape("l2_norm", "y.n={} != x.n={}").num_u64(y.n_elements()).num(n),
        );
    }
    let words: Vec<u32> = vec![n as u32, eps.bits];
    assert(words@ =~= seq![n as u32, eps.bits]);
    let tensors = [x.binding(), y.binding()];
    assert(tensors@ =~= seq![x.place(), y.place()]);
    enc.launch_reduction(ctx, "kernel_l2_norm_f32", words, &tensors, 1, 1, 1)
}

/// The gradient of the L2-norm of compact rows.
pub open spec fn l2_norm_vjp(
    ctx: MetalContext,
    x: MetalTensor,
    grad_output: MetalTensor,
    grad_input: MetalTensor,
    n_heads: usize,
    head_dim: usize,
    eps: F32Bits,
) -> Outcome {
    let elements = n_heads * head_dim;
    let vector_shape = seq![elements as u64];
    if n_heads == 0 || head_dim == 0 || !eps.finite() || eps.at_most_zero()
        || n_heads > u32::MAX || head_dim > u32::MAX {
        Outcome::Refused(
            Fault::bad_shape(
                "l2_norm_vjp_batched"@,
                "expected nonzero u32 geometry and finite positive eps, got heads={} dim={} eps={}"@,
            )
                .num(n_heads as int).num(head_dim as int).float_bits(eps.bits),
        )
    } else if elements > usize::MAX {
        Outcome::Refused(
            Fault::bad_shape("l2_norm_vjp_batched"@, "element count overflow"@),
        )
    } else if tensor::compact_f32_fault(
        "l2_norm_vjp_batched"@,
        "x"@,
        x,
        vector_shape,
        false,
    ) is Some {
        Outcome::Refused(
            tensor::compact_f32_fault("l2_norm_vjp_batched"@, "x"@, x, vector_shape, false)->0,
        )
    } else if tensor::compact_f32_fault(
        "l2_norm_vjp_batched"@,
        "grad_output"@,
        grad_output,
        vector_shape,
        false,
    ) is Some {
        Outcome::Refused(
            tensor::compact_f32_fault(
                "l2_norm_vjp_batched"@,
                "grad_output"@,
                grad_output,
                vector_shape,
                false,
            )->0,
        )
    } else if tensor::compact_f32_fault(
        "l2_norm_vjp_batched"@,
        "grad_input"@,
        grad_input,
        vector_shape,
        true,
    ) is Some {
        Outcome::Refused(
            tensor::compact_f32_fault(
                "l2_norm_vjp_batched"@,
                "grad_input"@,
                grad_input,
                vector_shape,
                true,
            )->0,
        )
    } else if grad_input.overlaps(x) || grad_input.overlaps(grad_output) {
        Outcome::Refused(
            Fault::bad_shape(
                "l2_norm_vjp_batched"@,
                "grad_input must not overlap primal or incoming gradient"@,
            ),
        )
    } else {
        Outcome::reduction(
            ctx,
            "kernel_l2_norm_vjp_batched_f32"@,
            seq![n_heads as u32, head_dim as u32, eps.bits],
            seq![x.place(), grad_output.place(), grad_input.place()],
            2,
            n_heads,
            1,
        )
    }
}

/// The gradient of the L2-norm of compact rows.
pub fn encode_l2_norm_vjp_batched_f32(
    ctx: &MetalContext,
    enc: &mut KernelEncoder,
    x: &MetalTensor,
    grad_output: &MetalTensor,
    grad_input: &MetalTensor,
    n_heads: usize,
    head_dim: usize,
    eps: F32Bits,
) -> (r: Result<(), MetalError>)
    ensures
        old(enc).did(
            *final(enc),
            r,
            l2_norm_vjp(
                *ctx,
                *x, *grad_output, *grad_input, n_heads, head_dim, eps,
            ),
        ),
{
    if n_heads == 0 || head_dim == 0 || !eps.is_finite() || eps.is_at_most_zero()
        || n_heads > u32::MAX as usize || head_dim > u32::MAX as usize {
        return Err(
            bad_shape(
                "l2_norm_vjp_batched",
                "expected nonzero u32 geometry and finite positive eps, got heads={} dim={} eps={}",
            )
                .num(n_heads).num(head_dim).float_bits(eps.bits),
        );
    }
    let elements: usize = match n_heads.checked_mul(head_dim) {
        Some(n) => n,
        None => {
            return Err(
                bad_shape("l2_norm_vjp_batched", "element count overflow"),
            );
        },
    };
    let vector_shape: Vec<u64> = vec![elements as u64];
    assert(vector_shape@ =~= seq![elements as u64]);
    match validate_compact_f32_tensor(
        "l2_norm_vjp_batched",
        "x",
        x,
        vector_shape.as_slice(),
        false,
    ) {
        Ok(_) => {},
        Err(e) => {
            return Err(e);
        },
    }
    match validate_compact_f32_tensor(
        "l2_norm_vjp_batched",
        "grad_output",
        grad_output,
        vector_shape.as_slice(),
        false,
    ) {
        Ok(_) => {},
        Err(e) => {
            return Err(e);
        },
    }
    match validate_compact_f32_tensor(
        "l2_norm_vjp_batched",
        "grad_input",
        grad_input,
        vector_shape.as_slice(),
        true,
    ) {
        Ok(_) => {},
        Err(e) => {
            return Err(e);
        },
    }
    if grad_input.ranges_overlap(x) || grad_input.ranges_overlap(grad_output) {
        return Err(
            bad_shape(
                "l2_norm_vjp_batched",
                "grad_input must not overlap primal or incoming gradient",
            ),
        );
    }
    let words: Vec<u32> = vec![n_heads as u32, head_dim as u32, eps.bits];
    assert(words@ =~= seq![n_heads as u32, head_dim as u32, eps.bits]);
    let tensors = [x.binding(), grad_output.binding(), grad_input.binding()];
    assert(tensors@ =~= seq![x.place(), grad_output.place(), grad_input.place()]);
    enc.launch_reduction(ctx, "kernel_l2_norm_vjp_batched_f32", words, &tensors, 2, n_heads, 1)
}

/// RMS-norm of every head with one weight per channel.
pub open spec fn rms_norm_batched(
    ctx: MetalContext,
    x: MetalTensor,
    weight: MetalTensor,
    y: MetalTensor,
    n_heads: usize,
    head_dim: usize,
    eps: F32Bits,
) -> Outcome {
    let want = n_heads * head_dim;
    if x.elements() != want || y.elements() != want {
        Outcome::Refused(
            Fault::bad_shape("rms_norm_batched"@, "x/y expected {} elements"@).num(want),
        )
    } else if weight.count() != head_dim {
        Outcome::Refused(
            Fault::bad_shape("rms_norm_batched"@, "weight expected {} elements"@)
                .num(head_dim as int),
        )
    } else {
        Outcome::reduction(
            ctx,
            "kernel_rms_norm_batched_f32"@,
            seq![n_heads as u32, head_dim as u32, eps.bits],
            seq![x.place(), weight.place(), y.place()],
            1,
            n_heads,
            1,
        )
    }
}

/// RMS-norm of every head with one weight per channel.
pub fn encode_rms_norm_batched_f32(
    ctx: &MetalContext,
    enc: &mut KernelEncoder,
    x: &MetalTensor,
    weight: &MetalTensor,
    y: &MetalTensor,
    n_heads: usize,
    head_dim: usize,
    eps: F32Bits,
) -> (r: Result<(), MetalError>)
    requires
        x.wf() && weight.wf() && y.wf(),
        n_heads * head_dim <= usize::MAX,
    ensures
        old(enc).did(
            *final(enc),
            r,
            rms_norm_batched(
                *ctx,
                *x, *weight, *y, n_heads, head_dim, eps,
            ),
        ),
{
    let want: usize = product(n_heads, head_dim);
    if x.n_elements() != want as u64 || y.n_elements() != want as u64 {
        return Err(
            bad_shape("rms_norm_batched", "x/y expected {} elements").num(want),
        );
    }
    if weight.element_count() != head_dim {
        return Err(
            bad_shape("rms_norm_batched", "weight expected {} elements").num(head_dim),
        );
    }
    let words: Vec<u32> = vec![n_heads as u32, head_dim as u32, eps.bits];
    assert(words@ =~= seq![n_heads as u32, head_dim as u32, eps.bits]);
    let tensors = [x.binding(), weight.binding(), y.binding()];
    assert(tensors@ =~= seq![x.place(), weight.place(), y.place()]);
    enc.launch_reduction(ctx, "kernel_rms_norm_batched_f32", words, &tensors, 1, n_heads, 1)
}

/// RMS-norm of strided source rows. The source reaches to the end of the last row.
pub open spec fn rms_norm_batched_src_strided(
    ctx: MetalContext,
    x: MetalTensor,
    weight: MetalTensor,
    y: MetalTensor,
    n_heads: usize,
    head_dim: usize,
    src_stride: usize,
    src_offset: usize,
    eps: F32Bits,
) -> Outcome {
    let src_need = src_offset + (n_heads - 1) * src_stride + head_dim;
    let want = n_heads * head_dim;
    if n_heads == 0 || head_dim == 0 {
        Outcome::Refused(
            Fault::bad_shape("rms_norm_batched_src_strided"@, "n_heads/head_dim must be nonzero"@),
        )
    } else if x.elements() < src_need {
        Outcome::Refused(
            Fault::bad_shape(
                "rms_norm_batched_src_strided"@,
                "x has {} elements, needs >= {} (offset={} stride={} rows={} head_dim={})"@,
            )
                .num(x.elements() as int).num(src_need).num(src_offset as int).num(src_stride as int)
                .num(n_heads as int).num(head_dim as int),
        )
    } else if y.elements() != want {
        Outcome::Refused(
            Fault::bad_shape("rms_norm_batched_src_strided"@, "y expected {} elements"@).num(want),
        )
    } else if weight.count() != head_dim {
        Outcome::Refused(
            Fault::bad_shape("rms_norm_batched_src_strided"@, "weight expected {} elements"@)
                .num(head_dim as int),
        )
    } else {
        Outcome::reduction(
            ctx,
            "kernel_rms_norm_batched_src_strided_f32"@,
            seq![
                n_heads as u32, head_dim as u32, src_stride as u32, src_offset as u32, eps.bits,
            ],
            seq![x.place(), weight.place(), y.place()],
            1,
            n_heads,
            1,
        )
    }
}

/// RMS-norm of heads whose source rows lie `src_stride` elements apart, from
/// `src_offset` on, into compact rows.
pub fn encode_rms_norm_batched_src_strided_f32(
    ctx: &MetalContext,
    enc: &mut KernelEncoder,
    x: &MetalTensor,
    weight: &MetalTensor,
    y: &MetalTensor,
    n_heads: usize,
    head_dim: usize,
    src_stride: usize,
    src_offset: usize,
    eps: F32Bits,
) -> (r: Result<(), MetalError>)
    requires
        x.wf() && weight.wf() && y.wf(),
        n_heads > 0 && head_dim > 0 ==> {
            &&& src_offset + (n_heads - 1) * src_stride + head_dim <= u64::MAX
            &&& x.elements() >= src_offset + (n_heads - 1) * src_stride + head_dim ==> n_heads
                * head_dim <= usize::MAX
        },
    ensures
        old(enc).did(
            *final(enc),
            r,
            rms_norm_batched_src_strided(
                *ctx,
                *x, *weight, *y, n_heads, head_dim, src_stride, src_offset, eps,
            ),
        ),
{
    if n_heads == 0 || head_dim == 0 {
        return Err(
            bad_shape("rms_norm_batched_src_strided", "n_heads/head_dim must be nonzero"),
        );
    }
    let ghost tail = (n_heads - 1) * src_stride;
    assert(0 <= tail) by (nonlinear_arith)
        requires
            tail == (n_heads - 1) * src_stride,
            n_heads > 0,
    ;
    let src_need: u64 = src_offset as u64 + (n_heads as u64 - 1) * src_stride as u64
        + head_dim as u64;
    if x.n_elements() < src_need {
        return Err(
            bad_shape(
                "rms_norm_batched_src_strided",
                "x has {} elements, needs >= {} (offset={} stride={} rows={} head_dim={})",
            )
                .num_u64(x.n_elements()).num_u64(src_need).num(src_offset).num(src_stride).num(n_heads)
                .num(head_dim),
        );
    }
    let want: usize = product(n_heads, head_dim);
    if y.n_elements() != want as u64 {
        return Err(
            bad_shape("rms_norm_batched_src_strided", "y expected {} elements").num(want),
        );
    }
    if weight.element_count() != head_dim {
        return Err(
            bad_shape("rms_norm_batched_src_strided", "weight expected {} elements").num(head_dim),
        );
    }
    let words: Vec<u32> = vec![
        n_heads as u32,
        head_dim as u32,
        src_stride as u32,
        src_offset as u32,
        eps.bits,
    ];
    assert(
        words@ =~= seq![
            n_heads as u32,
            head_dim as u32,
            src_stride as u32,
            src_offset as u32,
            eps.bits,
        ]
    );
    let tensors = [x.binding(), weight.binding(), y.binding()];
    assert(tensors@ =~= seq![x.place(), weight.place(), y.place()]);
    enc.launch_reduction(
        ctx,
        "kernel_rms_norm_batched_src_strided_f32",
        words,
        &tensors,
        1,
        n_heads,
        1,
    )
}

/// RMS-norm and rotary embedding of Q and K in one launch.
pub open spec fn qk_rms_norm_rope(
    ctx: MetalContext,
    q_src: MetalTensor,
    q_weight: MetalTensor,
    q_out: MetalTensor,
    k_src: MetalTensor,
    k_weight: MetalTensor,
    k_out: MetalTensor,
    n_tokens: usize,
    n_q_heads: usize,
    n_k_heads: usize,
    head_dim: usize,
    n_rot: usize,
    start_position: u32,
    eps: F32Bits,
    theta_base: F32Bits,
) -> Outcome {
    let q_rows = n_tokens * n_q_heads;
    let k_rows = n_tokens * n_k_heads;
    let q_pair_rows = q_rows * 2;
    let q_source_elements = q_pair_rows * head_dim;
    let q_output_elements = q_rows * head_dim;
    let k_elements = k_rows * head_dim;
    let q_source_bytes = q_source_elements * 4;
    let q_output_bytes = q_output_elements * 4;
    let k_bytes = k_elements * 4;
    let weight_bytes = head_dim * 4;
    let total_rows = q_rows + k_rows;
    if q_src.dtype != GgmlType::F32 || q_weight.dtype != GgmlType::F32
        || q_out.dtype != GgmlType::F32 || k_src.dtype != GgmlType::F32
        || k_weight.dtype != GgmlType::F32 || k_out.dtype != GgmlType::F32 || !q_out.writable()
        || !k_out.writable() {
        Outcome::Refused(
            Fault::bad_shape(
                "qk_rms_norm_rope"@,
                "expected F32 inputs/weights and writable F32 outputs, got dtypes={}/{}/{}/{}/{}/{} writable={}/{}"@,
            )
                .dtype(q_src.dtype).dtype(q_weight.dtype).dtype(q_out.dtype).dtype(k_src.dtype)
                .dtype(k_weight.dtype).dtype(k_out.dtype).flag(q_out.writable())
                .flag(k_out.writable()),
        )
    } else if n_tokens == 0 || n_q_heads == 0 || n_k_heads == 0 || head_dim == 0 {
        Outcome::Refused(
            Fault::bad_shape(
                "qk_rms_norm_rope"@,
                "token, head, and dimension counts must be nonzero"@,
            ),
        )
    } else if n_rot == 0 || n_rot % 2 != 0 || n_rot > head_dim {
        Outcome::Refused(
            Fault::bad_shape("qk_rms_norm_rope"@, "n_rot={} must be even and <= head_dim={}"@)
                .num(n_rot as int).num(head_dim as int),
        )
    } else if !eps.finite() || eps.at_most_zero() || !theta_base.finite()
        || theta_base.at_most_one() {
        Outcome::Refused(
            Fault::bad_shape(
                "qk_rms_norm_rope"@,
                "eps must be finite and positive; theta_base must be finite and greater than one"@,
            ),
        )
    } else if q_rows > usize::MAX {
        Outcome::Refused(
            Fault::bad_shape("qk_rms_norm_rope"@, "Q row count overflow"@),
        )
    } else if k_rows > usize::MAX {
        Outcome::Refused(
            Fault::bad_shape("qk_rms_norm_rope"@, "K row count overflow"@),
        )
    } else if q_pair_rows > usize::MAX {
        Outcome::Refused(
            Fault::bad_shape("qk_rms_norm_rope"@, "Q source shape overflow"@),
        )
    } else if q_source_elements > usize::MAX {
        Outcome::Refused(
            Fault::bad_shape("qk_rms_norm_rope"@, "Q source shape overflow"@),
        )
    } else if q_output_elements > usize::MAX {
        Outcome::Refused(
            Fault::bad_shape("qk_rms_norm_rope"@, "Q output shape overflow"@),
        )
    } else if k_elements > usize::MAX {
        Outcome::Refused(
            Fault::bad_shape("qk_rms_norm_rope"@, "K shape overflow"@),
        )
    } else if q_src.count() != q_source_elements || q_out.count() != q_output_elements
        || k_src.count() != k_elements || k_out.count() != k_elements
        || q_weight.count() != head_dim || k_weight.count() != head_dim {
        Outcome::Refused(
            Fault::bad_shape(
                "qk_rms_norm_rope"@,
                "expected q_src/q_out/k_src/k_out/weights={}/{}/{}/{}/{}, got {}/{}/{}/{}/{}/{}"@,
            )
                .num(q_source_elements).num(q_output_elements).num(k_elements).num(k_elements)
                .num(head_dim as int).num(q_src.elements() as int).num(q_out.elements() as int)
                .num(k_src.elements() as int).num(k_out.elements() as int)
                .num(q_weight.elements() as int).num(k_weight.elements() as int),
        )
    } else if q_source_bytes > usize::MAX {
        Outcome::Refused(
            Fault::bad_shape("qk_rms_norm_rope"@, "Q source byte size overflow"@),
        )
    } else if q_output_bytes > usize::MAX {
        Outcome::Refused(
            Fault::bad_shape("qk_rms_norm_rope"@, "Q output byte size overflow"@),
        )
    } else if k_bytes > usize::MAX {
        Outcome::Refused(
            Fault::bad_shape("qk_rms_norm_rope"@, "K byte size overflow"@),
        )
    } else if weight_bytes > usize::MAX {
        Outcome::Refused(
            Fault::bad_shape("qk_rms_norm_rope"@, "weight byte size overflow"@),
        )
    } else if !q_src.range_valid(q_source_bytes as usize, 4)
        || !q_weight.range_valid(weight_bytes as usize, 4)
        || !q_out.range_valid(q_output_bytes as usize, 4)
        || !k_src.range_valid(k_bytes as usize, 4)
        || !k_weight.range_valid(weight_bytes as usize, 4)
        || !k_out.range_valid(k_bytes as usize, 4) {
        Outcome::Refused(
            Fault::bad_shape(
                "qk_rms_norm_rope"@,
                "tensor byte range is unaligned or outside its Metal buffer"@,
            ),
        )
    } else if q_source_elements > u32::MAX {
        Outcome::Refused(
            Fault::bad_shape("qk_rms_norm_rope"@, "Q source index range exceeds u32"@),
        )
    } else if q_output_elements > u32::MAX {
        Outcome::Refused(
            Fault::bad_shape("qk_rms_norm_rope"@, "Q output index range exceeds u32"@),
        )
    } else if k_elements > u32::MAX {
        Outcome::Refused(
            Fault::bad_shape("qk_rms_norm_rope"@, "K index range exceeds u32"@),
        )
    } else if q_out.overlaps(q_src) || q_out.overlaps(q_weight) || q_out.overlaps(k_src)
        || q_out.overlaps(k_weight) || q_out.overlaps(k_out) || k_out.overlaps(q_src)
        || k_out.overlaps(q_weight) || k_out.overlaps(k_src) || k_out.overlaps(k_weight) {
        Outcome::Refused(
            Fault::bad_shape(
                "qk_rms_norm_rope"@,
                "writable Q/K outputs must not overlap inputs, weights, or each other"@,
            ),
        )
    } else if n_tokens > u32::MAX {
        Outcome::Refused(
            Fault::bad_shape("qk_rms_norm_rope"@, "n_tokens exceeds u32"@),
        )
    } else if n_q_heads > u32::MAX {
        Outcome::Refused(
            Fault::bad_shape("qk_rms_norm_rope"@, "n_q_heads exceeds u32"@),
        )
    } else if n_k_heads > u32::MAX {
        Outcome::Refused(
            Fault::bad_shape("qk_rms_norm_rope"@, "n_k_heads exceeds u32"@),
        )
    } else if head_dim > u32::MAX {
        Outcome::Refused(
            Fault::bad_shape("qk_rms_norm_rope"@, "head_dim exceeds u32"@),
        )
    } else if n_rot > u32::MAX {
        Outcome::Refused(
            Fault::bad_shape("qk_rms_norm_rope"@, "n_rot exceeds u32"@),
        )
    } else if q_rows > u32::MAX {
        Outcome::Refused(
            Fault::bad_shape("qk_rms_norm_rope"@, "Q row count exceeds u32"@),
        )
    } else if k_rows > u32::MAX {
        Outcome::Refused(
            Fault::bad_shape("qk_rms_norm_rope"@, "K row count exceeds u32"@),
        )
    } else if start_position + n_tokens - 1 > u32::MAX {
        Outcome::Refused(
            Fault::bad_shape("qk_rms_norm_rope"@, "position span exceeds u32"@),
        )
    } else if total_rows > usize::MAX {
        Outcome::Refused(
            Fault::bad_shape("qk_rms_norm_rope"@, "dispatch row count overflow"@),
        )
    } else if total_rows > u32::MAX {
        Outcome::Refused(
            Fault::bad_shape("qk_rms_norm_rope"@, "dispatch row count exceeds u32"@),
        )
    } else {
        Outcome::reduction(
            ctx,
            "kernel_qk_rms_norm_rope_f32_packed_consecutive"@,
            seq![
                n_tokens as u32, n_q_heads as u32, n_k_heads as u32, head_dim as u32,
                n_rot as u32, start_position, eps.bits, theta_base.bits,
            ],
            seq![
                q_src.place(), q_weight.place(), q_out.place(), k_src.place(), k_weight.place(),
                k_out.place(),
            ],
            1,
            (total_rows as usize),
            1,
        )
    }
}

/// A recorded launch writes two writable outputs that share no bytes with an input,
/// a weight or each other, and that lie inside their buffers.
pub proof fn law_fused_outputs_are_safe(
    ctx: MetalContext,
    q_src: MetalTensor,
    q_weight: MetalTensor,
    q_out: MetalTensor,
    k_src: MetalTensor,
    k_weight: MetalTensor,
    k_out: MetalTensor,
    n_tokens: usize,
    n_q_heads: usize,
    n_k_heads: usize,
    head_dim: usize,
    n_rot: usize,
    start_position: u32,
    eps: F32Bits,
    theta_base: F32Bits,
)
    requires
        qk_rms_norm_rope(
            ctx,
            q_src,
            q_weight,
            q_out,
            k_src,
            k_weight,
            k_out,
            n_tokens,
            n_q_heads,
            n_k_heads,
            head_dim,
            n_rot,
            start_position,
            eps,
            theta_base,
        ).granted(),
    ensures
        q_out.writable() && k_out.writable() && !q_out.overlaps(k_out),
        !q_out.overlaps(q_src) && !q_out.overlaps(q_weight) && !q_out.overlaps(k_src)
            && !q_out.overlaps(k_weight),
        !k_out.overlaps(q_src) && !k_out.overlaps(q_weight) && !k_out.overlaps(k_src)
            && !k_out.overlaps(k_weight),
        q_out.offset + n_tokens * n_q_heads * head_dim * 4 <= q_out.buffer.length,
        k_out.offset + n_tokens * n_k_heads * head_dim * 4 <= k_out.buffer.length,
{
}

/// RMS-norm and rotate the heads of Q and K for consecutive positions. Q rows come
/// interleaved with their gates; K rows and both outputs are compact.
pub fn encode_qk_rms_norm_rope_f32_packed_consecutive(
    ctx: &MetalContext,
    enc: &mut KernelEncoder,
    q_src: &MetalTensor,
    q_weight: &MetalTensor,
    q_out: &MetalTensor,
    k_src: &MetalTensor,
    k_weight: &MetalTensor,
    k_out: &MetalTensor,
    n_tokens: usize,
    n_q_heads: usize,
    n_k_heads: usize,
    head_dim: usize,
    n_rot: usize,
    start_position: u32,
    eps: F32Bits,
    theta_base: F32Bits,
) -> (r: Result<(), MetalError>)
    requires
        q_src.wf() && q_weight.wf() && q_out.wf() && k_src.wf() && k_weight.wf() && k_out.wf(),
    ensures
        old(enc).did(
            *final(enc),
            r,
            qk_rms_norm_rope(
                *ctx,
                *q_src, *q_weight, *q_out, *k_src, *k_weight, *k_out, n_tokens, n_q_heads,
                n_k_heads, head_dim, n_rot, start_position, eps, theta_base,
            ),
        ),
{
    if q_src.dtype != GgmlType::F32 || q_weight.dtype != GgmlType::F32
        || q_out.dtype != GgmlType::F32 || k_src.dtype != GgmlType::F32
        || k_weight.dtype != GgmlType::F32 || k_out.dtype != GgmlType::F32
        || !q_out.is_writable() || !k_out.is_writable() {
        return Err(
            bad_shape(
                "qk_rms_norm_rope",
                "expected F32 inputs/weights and writable F32 outputs, got dtypes={}/{}/{}/{}/{}/{} writable={}/{}",
            )
                .dtype(q_src.dtype).dtype(q_weight.dtype).dtype(q_out.dtype).dtype(k_src.dtype)
                .dtype(k_weight.dtype).dtype(k_out.dtype).flag(q_out.is_writable())
                .flag(k_out.is_writable()),
        );
    }
    if n_tokens == 0 || n_q_heads == 0 || n_k_heads == 0 || head_dim == 0 {
        return Err(
            bad_shape("qk_rms_norm_rope", "token, head, and dimension counts must be nonzero"),
        );
    }
    if n_rot == 0 || n_rot % 2 != 0 || n_rot > head_dim {
        return Err(
            bad_shape("qk_rms_norm_rope", "n_rot={} must be even and <= head_dim={}")
                .num(n_rot).num(head_dim),
        );
    }
    if !eps.is_finite() || eps.is_at_most_zero() || !theta_base.is_finite()
        || theta_base.is_at_most_one() {
        return Err(
            bad_shape(
                "qk_rms_norm_rope",
                "eps must be finite and positive; theta_base must be finite and greater than one",
            ),
        );
    }
    let q_rows: usize = match n_tokens.checked_mul(n_q_heads) {
        Some(n) => n,
        None => {
            return Err(
                bad_shape("qk_rms_norm_rope", "Q row count overflow"),
            );
        },
    };
    let k_rows: usize = match n_tokens.checked_mul(n_k_heads) {
        Some(n) => n,
        None => {
            return Err(
                bad_shape("qk_rms_norm_rope", "K row count overflow"),
            );
        },
    };
    let q_pair_rows: usize = match q_rows.checked_mul(2) {
        Some(n) => n,
        None => {
            return Err(
                bad_shape("qk_rms_norm_rope", "Q source shape overflow"),
            );
        },
    };
    let q_source_elements: usize = match q_pair_rows.checked_mul(head_dim) {
        Some(n) => n,
        None => {
            return Err(
                bad_shape("qk_rms_norm_rope", "Q source shape overflow"),
            );
        },
    };
    let q_output_elements: usize = match q_rows.checked_mul(head_dim) {
        Some(n) => n,
        None => {
            return Err(
                bad_shape("qk_rms_norm_rope", "Q output shape overflow"),
            );
        },
    };
    let k_elements: usize = match k_rows.checked_mul(head_dim) {
        Some(n) => n,
        None => {
            return Err(
                bad_shape("qk_rms_norm_rope", "K shape overflow"),
            );
        },
    };
    if q_src.element_count() != q_source_elements || q_out.element_count() != q_output_elements
        || k_src.element_count() != k_elements || k_out.element_count() != k_elements
        || q_weight.element_count() != head_dim || k_weight.element_count() != head_dim {
        return Err(
            bad_shape(
                "qk_rms_norm_rope",
                "expected q_src/q_out/k_src/k_out/weights={}/{}/{}/{}/{}, got {}/{}/{}/{}/{}/{}",
            )
                .num(q_source_elements).num(q_output_elements).num(k_elements).num(k_elements)
                .num(head_dim).num_u64(q_src.n_elements()).num_u64(q_out.n_elements())
                .num_u64(k_src.n_elements()).num_u64(k_out.n_elements())
                .num_u64(q_weight.n_elements()).num_u64(k_weight.n_elements()),
        );
    }
    let q_source_bytes: usize = match q_source_elements.checked_mul(4) {
        Some(n) => n,
        None => {
            return Err(
                bad_shape("qk_rms_norm_rope", "Q source byte size overflow"),
            );
        },
    };
    let q_output_bytes: usize = match q_output_elements.checked_mul(4) {
        Some(n) => n,
        None => {
            return Err(
                bad_shape("qk_rms_norm_rope", "Q output byte size overflow"),
            );
        },
    };
    let k_bytes: usize = match k_elements.checked_mul(4) {
        Some(n) => n,
        None => {
            return Err(
                bad_shape("qk_rms_norm_rope", "K byte size overflow"),
            );
        },
    };
    let weight_bytes: usize = match head_dim.checked_mul(4) {
        Some(n) => n,
        None => {
            return Err(
                bad_shape("qk_rms_norm_rope", "weight byte size overflow"),
            );
        },
    };
    if !q_src.physical_range_valid(q_source_bytes, 4)
        || !q_weight.physical_range_valid(weight_bytes, 4)
        || !q_out.physical_range_valid(q_output_bytes, 4)
        || !k_src.physical_range_valid(k_bytes, 4)
        || !k_weight.physical_range_valid(weight_bytes, 4)
        || !k_out.physical_range_valid(k_bytes, 4) {
        return Err(
            bad_shape(
                "qk_rms_norm_rope",
                "tensor byte range is unaligned or outside its Metal buffer",
            ),
        );
    }
    if q_source_elements > u32::MAX as usize {
        return Err(
            bad_shape("qk_rms_norm_rope", "Q source index range exceeds u32"),
        );
    }
    if q_output_elements > u32::MAX as usize {
        return Err(
            bad_shape("qk_rms_norm_rope", "Q output index range exceeds u32"),
        );
    }
    if k_elements > u32::MAX as usize {
        return Err(
            bad_shape("qk_rms_norm_rope", "K index range exceeds u32"),
        );
    }
    if q_out.ranges_overlap(q_src) || q_out.ranges_overlap(q_weight)
        || q_out.ranges_overlap(k_src) || q_out.ranges_overlap(k_weight)
        || q_out.ranges_overlap(k_out) || k_out.ranges_overlap(q_src)
        || k_out.ranges_overlap(q_weight) || k_out.ranges_overlap(k_src)
        || k_out.ranges_overlap(k_weight) {
        return Err(
            bad_shape(
                "qk_rms_norm_rope",
                "writable Q/K outputs must not overlap inputs, weights, or each other",
            ),
        );
    }
    if n_tokens > u32::MAX as usize {
        return Err(
            bad_shape("qk_rms_norm_rope", "n_tokens exceeds u32"),
        );
    }
    if n_q_heads > u32::MAX as usize {
        return Err(
            bad_shape("qk_rms_norm_rope", "n_q_heads exceeds u32"),
        );
    }
    if n_k_heads > u32::MAX as usize {
        return Err(
            bad_shape("qk_rms_norm_rope", "n_k_heads exceeds u32"),
        );
    }
    if head_dim > u32::MAX as usize {
        return Err(
            bad_shape("qk_rms_norm_rope", "head_dim exceeds u32"),
        );
    }
    if n_rot > u32::MAX as usize {
        return Err(
            bad_shape("qk_rms_norm_rope", "n_rot exceeds u32"),
        );
    }
    if q_rows > u32::MAX as usize {
        return Err(
            bad_shape("qk_rms_norm_rope", "Q row count exceeds u32"),
        );
    }
    if k_rows > u32::MAX as usize {
        return Err(
            bad_shape("qk_rms_norm_rope", "K row count exceeds u32"),
        );
    }
    if start_position as u64 + (n_tokens as u64 - 1) > u32::MAX as u64 {
        return Err(
            bad_shape("qk_rms_norm_rope", "position span exceeds u32"),
        );
    }
    let total_rows: usize = match q_rows.checked_add(k_rows) {
        Some(n) => n,
        None => {
            return Err(
                bad_shape("qk_rms_norm_rope", "dispatch row count overflow"),
            );
        },
    };
    if total_rows > u32::MAX as usize {
        return Err(
            bad_shape("qk_rms_norm_rope", "dispatch row count exceeds u32"),
        );
    }
    let words: Vec<u32> = vec![
        n_tokens as u32, n_q_heads as u32, n_k_heads as u32, head_dim as u32, n_rot as u32,
        start_position, eps.bits, theta_base.bits,
    ];
    assert(words@ =~= seq![
        n_tokens as u32, n_q_heads as u32, n_k_heads as u32, head_dim as u32, n_rot as u32,
        start_position, eps.bits, theta_base.bits,
    ]);
    let tensors = [
        q_src.binding(), q_weight.binding(), q_out.binding(), k_src.binding(),
        k_weight.binding(), k_out.binding(),
    ];
    assert(tensors@ =~= seq![
        q_src.place(), q_weight.place(), q_out.place(), k_src.place(), k_weight.place(),
        k_out.place(),
    ]);
    enc.launch_reduction(
        ctx,
        "kernel_qk_rms_norm_rope_f32_packed_consecutive",
        words,
        &tensors,
        1,
        total_rows,
        1,
    )
}

/// L2-norm of every head.
pub open spec fn l2_norm_batched(
    ctx: MetalContext,
    x: MetalTensor,
    y: MetalTensor,
    n_heads: usize,
    head_dim: usize,
    eps: F32Bits,
) -> Outcome {
    let want = n_heads * head_dim;
    if x.elements() != want || y.elements() != want {
        Outcome::Refused(
            Fault::bad_shape("l2_norm_batched"@, "x/y expected {} elements"@).num(want),
        )
    } else {
        Outcome::reduction(
            ctx,
            "kernel_l2_norm_batched_f32"@,
            seq![n_heads as u32, head_dim as u32, eps.bits],
            seq![x.place(), y.place()],
            1,
            n_heads,
            1,
        )
    }
}

/// L2-norm of every head: `y[h] = x[h] / max(|x[h]|, eps)`.
pub fn encode_l2_norm_batched_f32(
    ctx: &MetalContext,
    enc: &mut KernelEncoder,
    x: &MetalTensor,
    y: &MetalTensor,
    n_heads: usize,
    head_dim: usize,
    eps: F32Bits,
) -> (r: Result<(), MetalError>)
    requires
        x.wf() && y.wf(),
        n_heads * head_dim <= usize::MAX,
    ensures
        old(enc).did(
            *final(enc),
            r,
            l2_norm_batched(
                *ctx,
                *x, *y, n_heads, head_dim, eps,
            ),
        ),
{
    let want: usize = product(n_heads, head_dim);
    if x.n_elements() != want as u64 || y.n_elements() != want as u64 {
        return Err(
            bad_shape("l2_norm_batched", "x/y expected {} elements").num(want),
        );
    }
    let words: Vec<u32> = vec![n_heads as u32, head_dim as u32, eps.bits];
    assert(words@ =~= seq![n_heads as u32, head_dim as u32, eps.bits]);
    let tensors = [x.binding(), y.binding()];
    assert(tensors@ =~= seq![x.place(), y.place()]);
    enc.launch_reduction(ctx, "kernel_l2_norm_batched_f32", words, &tensors, 1, n_heads, 1)
}

/// L2-norm of every head of Q and of K.
pub open spec fn l2_norm_pair(
    ctx: MetalContext,
    q_x: MetalTensor,
    q_y: MetalTensor,
    k_x: MetalTensor,
    k_y: MetalTensor,
    n_heads: usize,
    head_dim: usize,
    eps: F32Bits,
) -> Outcome {
    let want = n_heads * head_dim;
    if q_x.elements() != want || q_y.elements() != want || k_x.elements() != want
        || k_y.elements() != want {
        Outcome::Refused(
            Fault::bad_shape(
                "l2_norm_pair_batched"@,
                "q/k inputs and outputs expected {} elements"@,
            )
                .num(want),
        )
    } else {
        if ctx.switches.l2_pair_hd128_r4 && head_dim == 128 {
            Outcome::launch(
                ctx,
                Launch {
                    pipeline: "kernel_l2_norm_pair_hd128_r4_f32"@,
                    words: seq![n_heads as u32, head_dim as u32, eps.bits],
                    tensors: seq![q_x.place(), q_y.place(), k_x.place(), k_y.place()],
                    scratch: seq![],
                    threadgroups: MTLSize { width: numeric::div_up(n_heads, 4), height: 2, depth: 1 },
                    threads: MTLSize { width: 32, height: 4, depth: 1 },
                },
            )
        } else {
            Outcome::reduction(
                ctx,
                "kernel_l2_norm_pair_batched_f32"@,
                seq![n_heads as u32, head_dim as u32, eps.bits],
                seq![q_x.place(), q_y.place(), k_x.place(), k_y.place()],
                1,
                n_heads,
                2,
            )
        }
    }
}

/// L2-norm of every head of Q and of K in one launch. Heads of 128 channels have a
/// kernel of their own, unless it is switched off.
pub fn encode_l2_norm_pair_batched_f32(
    ctx: &MetalContext,
    enc: &mut KernelEncoder,
    q_x: &MetalTensor,
    q_y: &MetalTensor,
    k_x: &MetalTensor,
    k_y: &MetalTensor,
    n_heads: usize,
    head_dim: usize,
    eps: F32Bits,
) -> (r: Result<(), MetalError>)
    requires
        q_x.wf() && q_y.wf() && k_x.wf() && k_y.wf(),
        n_heads * head_dim <= usize::MAX,
    ensures
        old(enc).did(
            *final(enc),
            r,
            l2_norm_pair(
                *ctx,
                *q_x, *q_y, *k_x, *k_y, n_heads, head_dim, eps,
            ),
        ),
{
    let want: usize = product(n_heads, head_dim);
    if q_x.n_elements() != want as u64 || q_y.n_elements() != want as u64
        || k_x.n_elements() != want as u64 || k_y.n_elements() != want as u64 {
        return Err(
            bad_shape("l2_norm_pair_batched", "q/k inputs and outputs expected {} elements")
                .num(want),
        );
    }
    if ctx.switches.l2_pair_hd128_r4 && head_dim == 128 {
        let words: Vec<u32> = vec![n_heads as u32, head_dim as u32, eps.bits];
        assert(words@ =~= seq![n_heads as u32, head_dim as u32, eps.bits]);
        let tensors = [q_x.binding(), q_y.binding(), k_x.binding(), k_y.binding()];
        assert(tensors@ =~= seq![q_x.place(), q_y.place(), k_x.place(), k_y.place()]);
        let scratch: Vec<usize> = Vec::new();
        assert(scratch@ =~= seq![]);
        enc.launch(
            ctx,
            "kernel_l2_norm_pair_hd128_r4_f32",
            words,
            &tensors,
            scratch.as_slice(),
            MTLSize { width: div_ceil(n_heads, 4), height: 2, depth: 1 },
            MTLSize { width: 32, height: 4, depth: 1 },
        )
    } else {
        let words: Vec<u32> = vec![n_heads as u32, head_dim as u32, eps.bits];
        assert(words@ =~= seq![n_heads as u32, head_dim as u32, eps.bits]);
        let tensors = [q_x.binding(), q_y.binding(), k_x.binding(), k_y.binding()];
        assert(tensors@ =~= seq![q_x.place(), q_y.place(), k_x.place(), k_y.place()]);
        enc.launch_reduction(ctx, "kernel_l2_norm_pair_batched_f32", words, &tensors, 1, n_heads, 2)
    }
}

/// RMS-norm of every head, gated.
pub open spec fn rmsnorm_gated(
    ctx: MetalContext,
    o: MetalTensor,
    weight: MetalTensor,
    z: MetalTensor,
    y: MetalTensor,
    n_heads: usize,
    head_dim: usize,
    eps: F32Bits,
) -> Outcome {
    let want = n_heads * head_dim;
    if o.elements() != want || z.elements() != want || y.elements() != want {
        Outcome::Refused(
            Fault::bad_shape(
                "rmsnorm_gated"@,
                "o/z/y expected {} elements (n_heads={} * head_dim={})"@,
            )
                .num(want).num(n_heads as int).num(head_dim as int),
        )
    } else if weight.count() != head_dim {
        Outcome::Refused(
            Fault::bad_shape("rmsnorm_gated"@, "weight expected {} elements"@)
                .num(head_dim as int),
        )
    } else {
        if ctx.switches.rmsnorm_gated_hd128_r4 && head_dim == 128 {
            Outcome::launch(
                ctx,
                Launch {
                    pipeline: "kernel_rmsnorm_gated_hd128_r4_f32"@,
                    words: seq![n_heads as u32, head_dim as u32, eps.bits],
                    tensors: seq![o.place(), weight.place(), z.place(), y.place()],
                    scratch: seq![],
                    threadgroups: MTLSize { width: numeric::div_up(n_heads, 4), height: 1, depth: 1 },
                    threads: MTLSize { width: 32, height: 4, depth: 1 },
                },
            )
        } else {
            Outcome::reduction(
                ctx,
                "kernel_rmsnorm_gated_f32"@,
                seq![n_heads as u32, head_dim as u32, eps.bits],
                seq![o.place(), weight.place(), z.place(), y.place()],
                1,
                n_heads,
                1,
            )
        }
    }
}

/// RMS-norm of every head of `o`, times `silu(z)`. Heads of 128 channels have a
/// kernel of their own, unless it is switched off.
pub fn encode_rmsnorm_gated_f32(
    ctx: &MetalContext,
    enc: &mut KernelEncoder,
    o: &MetalTensor,
    weight: &MetalTensor,
    z: &MetalTensor,
    y: &MetalTensor,
    n_heads: usize,
    head_dim: usize,
    eps: F32Bits,
) -> (r: Result<(), MetalError>)
    requires
        o.wf() && weight.wf() && z.wf() && y.wf(),
        n_heads * head_dim <= usize::MAX,
    ensures
        old(enc).did(
            *final(enc),
            r,
            rmsnorm_gated(
                *ctx,
                *o, *weight, *z, *y, n_heads, head_dim, eps,
            ),
        ),
{
    let want: usize = product(n_heads, head_dim);
    if o.n_elements() != want as u64 || z.n_elements() != want as u64
        || y.n_elements() != want as u64 {
        return Err(
            bad_shape("rmsnorm_gated", "o/z/y expected {} elements (n_heads={} * head_dim={})")
                .num(want).num(n_heads).num(head_dim),
        );
    }
    if weight.element_count() != head_dim {
        return Err(
            bad_shape("rmsnorm_gated", "weight expected {} elements").num(head_dim),
        );
    }
    if ctx.switches.rmsnorm_gated_hd128_r4 && head_dim == 128 {
        let words: Vec<u32> = vec![n_heads as u32, head_dim as u32, eps.bits];
        assert(words@ =~= seq![n_heads as u32, head_dim as u32, eps.bits]);
        let tensors = [o.binding(), weight.binding(), z.binding(), y.binding()];
        assert(tensors@ =~= seq![o.place(), weight.place(), z.place(), y.place()]);
        let scratch: Vec<usize> = Vec::new();
        assert(scratch@ =~= seq![]);
        enc.launch(
            ctx,
            "kernel_rmsnorm_gated_hd128_r4_f32",
            words,
            &tensors,
            scratch.as_slice(),
            MTLSize { width: div_ceil(n_heads, 4), height: 1, depth: 1 },
            MTLSize { width: 32, height: 4, depth: 1 },
        )
    } else {
        let words: Vec<u32> = vec![n_heads as u32, head_dim as u32, eps.bits];
        assert(words@ =~= seq![n_heads as u32, head_dim as u32, eps.bits]);
        let tensors = [o.binding(), weight.binding(), z.binding(), y.binding()];
        assert(tensors@ =~= seq![o.place(), weight.place(), z.place(), y.place()]);
        enc.launch_reduction(ctx, "kernel_rmsnorm_gated_f32", words, &tensors, 1, n_heads, 1)
    }
}

/// The gradient of the gated RMS-norm of every head.
pub open spec fn rmsnorm_gated_vjp(
    ctx: MetalContext,
    o: MetalTensor,
    weight: MetalTensor,
    z: MetalTensor,
    grad_y: MetalTensor,
    grad_o: MetalTensor,
    grad_z: MetalTensor,
    n_heads: usize,
    head_dim: usize,
    eps: F32Bits,
) -> Outcome {
    let elements = n_heads * head_dim;
    let vector_shape = seq![elements as u64];
    let weight_shape = seq![head_dim as u64];
    if n_heads == 0 || head_dim == 0 || !eps.finite() || eps.below_zero()
        || n_heads > u32::MAX || head_dim > u32::MAX {
        Outcome::Refused(
            Fault::bad_shape(
                "rmsnorm_gated_vjp"@,
                "expected nonzero u32 geometry and finite nonnegative eps, got heads={} dim={} eps={}"@,
            )
                .num(n_heads as int).num(head_dim as int).float_bits(eps.bits),
        )
    } else if elements > usize::MAX {
        Outcome::Refused(
            Fault::bad_shape("rmsnorm_gated_vjp"@, "element count overflow"@),
        )
    } else if tensor::compact_f32_fault(
        "rmsnorm_gated_vjp"@,
        "o"@,
        o,
        vector_shape,
        false,
    ) is Some {
        Outcome::Refused(
            tensor::compact_f32_fault("rmsnorm_gated_vjp"@, "o"@, o, vector_shape, false)->0,
        )
    } else if tensor::compact_f32_fault(
        "rmsnorm_gated_vjp"@,
        "z"@,
        z,
        vector_shape,
        false,
    ) is Some {
        Outcome::Refused(
            tensor::compact_f32_fault("rmsnorm_gated_vjp"@, "z"@, z, vector_shape, false)->0,
        )
    } else if tensor::compact_f32_fault(
        "rmsnorm_gated_vjp"@,
        "grad_y"@,
        grad_y,
        vector_shape,
        false,
    ) is Some {
        Outcome::Refused(
            tensor::compact_f32_fault(
                "rmsnorm_gated_vjp"@,
                "grad_y"@,
                grad_y,
                vector_shape,
                false,
            )->0,
        )
    } else if tensor::compact_f32_fault(
        "rmsnorm_gated_vjp"@,
        "weight"@,
        weight,
        weight_shape,
        false,
    ) is Some {
        Outcome::Refused(
            tensor::compact_f32_fault(
                "rmsnorm_gated_vjp"@,
                "weight"@,
                weight,
                weight_shape,
                false,
            )->0,
        )
    } else if tensor::compact_f32_fault(
        "rmsnorm_gated_vjp"@,
        "grad_o"@,
        grad_o,
        vector_shape,
        true,
    ) is Some {
        Outcome::Refused(
            tensor::compact_f32_fault(
                "rmsnorm_gated_vjp"@,
                "grad_o"@,
                grad_o,
                vector_shape,
                true,
            )->0,
        )
    } else if tensor::compact_f32_fault(
        "rmsnorm_gated_vjp"@,
        "grad_z"@,
        grad_z,
        vector_shape,
        true,
    ) is Some {
        Outcome::Refused(
            tensor::compact_f32_fault(
                "rmsnorm_gated_vjp"@,
                "grad_z"@,
                grad_z,
                vector_shape,
                true,
            )->0,
        )
    } else if grad_o.overlaps(o) || grad_o.overlaps(weight) || grad_o.overlaps(z)
        || grad_o.overlaps(grad_y) || grad_z.overlaps(o) || grad_z.overlaps(weight)
        || grad_z.overlaps(z) || grad_z.overlaps(grad_y) || grad_o.overlaps(grad_z) {
        Outcome::Refused(
            Fault::bad_shape(
                "rmsnorm_gated_vjp"@,
                "gradient outputs must not overlap inputs or each other"@,
            ),
        )
    } else {
        Outcome::reduction(
            ctx,
            "kernel_rmsnorm_gated_vjp_f32"@,
            seq![n_heads as u32, head_dim as u32, eps.bits],
            seq![
                o.place(), weight.place(), z.place(), grad_y.place(), grad_o.place(),
                grad_z.place(),
            ],
            2,
            n_heads,
            1,
        )
    }
}

/// The gradient of the gated RMS-norm of every head.
pub fn encode_rmsnorm_gated_vjp_f32(
    ctx: &MetalContext,
    enc: &mut KernelEncoder,
    o: &MetalTensor,
    weight: &MetalTensor,
    z: &MetalTensor,
    grad_y: &MetalTensor,
    grad_o: &MetalTensor,
    grad_z: &MetalTensor,
    n_heads: usize,
    head_dim: usize,
    eps: F32Bits,
) -> (r: Result<(), MetalError>)
    ensures
        old(enc).did(
            *final(enc),
            r,
            rmsnorm_gated_vjp(
                *ctx,
                *o, *weight, *z, *grad_y, *grad_o, *grad_z, n_heads, head_dim, eps,
            ),
        ),
{
    if n_heads == 0 || head_dim == 0 || !eps.is_finite() || eps.is_below_zero()
        || n_heads > u32::MAX as usize || head_dim > u32::MAX as usize {
        return Err(
            bad_shape(
                "rmsnorm_gated_vjp",
                "expected nonzero u32 geometry and finite nonnegative eps, got heads={} dim={} eps={}",
            )
                .num(n_heads).num(head_dim).float_bits(eps.bits),
        );
    }
    let elements: usize = match n_heads.checked_mul(head_dim) {
        Some(n) => n,
        None => {
            return Err(
                bad_shape("rmsnorm_gated_vjp", "element count overflow"),
            );
        },
    };
    let vector_shape: Vec<u64> = vec![elements as u64];
    assert(vector_shape@ =~= seq![elements as u64]);
    let weight_shape: Vec<u64> = vec![head_dim as u64];
    assert(weight_shape@ =~= seq![head_dim as u64]);
    match validate_compact_f32_tensor("rmsnorm_gated_vjp", "o", o, vector_shape.as_slice(), false) {
        Ok(_) => {},
        Err(e) => {
            return Err(e);
        },
    }
    match validate_compact_f32_tensor("rmsnorm_gated_vjp", "z", z, vector_shape.as_slice(), false) {
        Ok(_) => {},
        Err(e) => {
            return Err(e);
        },
    }
    match validate_compact_f32_tensor(
        "rmsnorm_gated_vjp",
        "grad_y",
        grad_y,
        vector_shape.as_slice(),
        false,
    ) {
        Ok(_) => {},
        Err(e) => {
            return Err(e);
        },
    }
    match validate_compact_f32_tensor(
        "rmsnorm_gated_vjp",
        "weight",
        weight,
        weight_shape.as_slice(),
        false,
    ) {
        Ok(_) => {},
        Err(e) => {
            return Err(e);
        },
    }
    match validate_compact_f32_tensor(
        "rmsnorm_gated_vjp",
        "grad_o",
        grad_o,
        vector_shape.as_slice(),
        true,
    ) {
        Ok(_) => {},
        Err(e) => {
            return Err(e);
        },
    }
    match validate_compact_f32_tensor(
        "rmsnorm_gated_vjp",
        "grad_z",
        grad_z,
        vector_shape.as_slice(),
        true,
    ) {
        Ok(_) => {},
        Err(e) => {
            return Err(e);
        },
    }
    if grad_o.ranges_overlap(o) || grad_o.ranges_overlap(weight) || grad_o.ranges_overlap(z)
        || grad_o.ranges_overlap(grad_y) || grad_z.ranges_overlap(o)
        || grad_z.ranges_overlap(weight) || grad_z.ranges_overlap(z)
        || grad_z.ranges_overlap(grad_y) || grad_o.ranges_overlap(grad_z) {
        return Err(
            bad_shape(
                "rmsnorm_gated_vjp",
                "gradient outputs must not overlap inputs or each other",
            ),
        );
    }
    let words: Vec<u32> = vec![n_heads as u32, head_dim as u32, eps.bits];
    assert(words@ =~= seq![n_heads as u32, head_dim as u32, eps.bits]);
    let tensors = [
        o.binding(), weight.binding(), z.binding(), grad_y.binding(), grad_o.binding(),
        grad_z.binding(),
    ];
    assert(tensors@ =~= seq![
        o.place(), weight.place(), z.place(), grad_y.place(), grad_o.place(), grad_z.place(),
    ]);
    enc.launch_reduction(ctx, "kernel_rmsnorm_gated_vjp_f32", words, &tensors, 2, n_heads, 1)
}

} // verus!
