//! Probe kernels for measurements.

use vstd::prelude::*;

use crate::context::MetalContext;
use crate::encoder::{KernelEncoder, Launch, MTLSize, Outcome};
use crate::error::{bad_shape, Fault, MetalError};
use crate::float_bits::F32Bits;
use crate::numeric;
use crate::numeric::{div_ceil, min_size};
use crate::tensor::MetalTensor;

verus! {

/// Read one byte of `src` every `stride_bytes`.
pub open spec fn touch_bytes(
    ctx: MetalContext,
    src: MetalTensor,
    sink: MetalTensor,
    stride_bytes: usize,
) -> Outcome {
    let sink_n = sink.count();
    let n_bytes = src.byte_length()->0;
    let n_steps = numeric::div_up(n_bytes, stride_bytes);
    if sink_n == 0 {
        Outcome::Refused(
            Fault::bad_shape("touch_bytes"@, "sink must have at least one element"@),
        )
    } else if n_bytes == 0 || stride_bytes == 0 {
        Outcome::Refused(
            Fault::bad_shape("touch_bytes"@, "n_bytes={} stride_bytes={} must both be > 0"@)
                .num(n_bytes as int).num(stride_bytes as int),
        )
    } else {
        Outcome::launch(
            ctx,
            Launch {
                pipeline: "kernel_touch_bytes_f32"@,
                words: seq![
                    n_steps as u32, stride_bytes as u32, (n_bytes as u64) as u32,
                    ((n_bytes as u64) / 0x1_0000_0000) as u32,
                ],
                tensors: seq![src.place(), sink.place()],
                scratch: seq![],
                threadgroups: MTLSize { width: 1, height: 1, depth: 1 },
                threads: MTLSize { width: numeric::smaller(sink_n, 256), height: 1, depth: 1 },
            },
        )
    }
}

/// Read one byte of `src` every `stride_bytes`. The argument block holds the byte
/// count as a 64-bit number, low word first.
pub fn encode_touch_bytes_f32(
    ctx: &MetalContext,
    enc: &mut KernelEncoder,
    src: &MetalTensor,
    sink: &MetalTensor,
    stride_bytes: usize,
) -> (r: Result<(), MetalError>)
    requires
        sink.wf(),
        sink.count() > 0 ==> src.byte_length() is Some,
    ensures
        old(enc).did(
            *final(enc),
            r,
            touch_bytes(
                *ctx,
                *src, *sink, stride_bytes,
            ),
        ),
{
    let sink_n: usize = sink.element_count();
    if sink_n == 0 {
        return Err(
            bad_shape("touch_bytes", "sink must have at least one element"),
        );
    }
    let n_bytes: usize = src.n_bytes() as usize;
    if n_bytes == 0 || stride_bytes == 0 {
        return Err(
            bad_shape("touch_bytes", "n_bytes={} stride_bytes={} must both be > 0")
                .num(n_bytes).num(stride_bytes),
        );
    }
    let n_steps: usize = div_ceil(n_bytes, stride_bytes);
    let words: Vec<u32> = vec![
        n_steps as u32, stride_bytes as u32, (n_bytes as u64) as u32,
        ((n_bytes as u64) / 0x1_0000_0000) as u32,
    ];
    assert(words@ =~= seq![
        n_steps as u32, stride_bytes as u32, (n_bytes as u64) as u32,
        ((n_bytes as u64) / 0x1_0000_0000) as u32,
    ]);
    let tensors = [src.binding(), sink.binding()];
    assert(tensors@ =~= seq![src.place(), sink.place()]);
    let scratch: Vec<usize> = Vec::new();
    assert(scratch@ =~= seq![]);
    enc.launch(
        ctx,
        "kernel_touch_bytes_f32",
        words,
        &tensors,
        scratch.as_slice(),
        MTLSize { width: 1, height: 1, depth: 1 },
        MTLSize { width: min_size(sink_n, 256), height: 1, depth: 1 },
    )
}

/// Stream `x` into `y`, scaled by `alpha`.
pub open spec fn roofline_stream(
    ctx: MetalContext,
    x: MetalTensor,
    y: MetalTensor,
    alpha: F32Bits,
) -> Outcome {
    let n = x.count();
    let threads = ctx.group_threads("kernel_roofline_stream_f32"@);
    if y.count() != n {
        Outcome::Refused(
            Fault::bad_shape("roofline_stream"@, "y.n_elements={} != x.n_elements={}"@)
                .num(y.elements() as int).num(n as int),
        )
    } else {
        Outcome::launch(
            ctx,
            Launch {
                pipeline: "kernel_roofline_stream_f32"@,
                words: seq![n as u32, alpha.bits],
                tensors: seq![x.place(), y.place()],
                scratch: seq![],
                threadgroups: MTLSize { width: numeric::div_up(n, threads), height: 1, depth: 1 },
                threads: MTLSize { width: threads, height: 1, depth: 1 },
            },
        )
    }
}

/// Stream `x` into `y`, scaled by `alpha`.
pub fn encode_roofline_stream_f32(
    ctx: &MetalContext,
    enc: &mut KernelEncoder,
    x: &MetalTensor,
    y: &MetalTensor,
    alpha: F32Bits,
) -> (r: Result<(), MetalError>)
    requires
        ctx.wf(),
        x.wf() && y.wf(),
    ensures
        old(enc).did(
            *final(enc),
            r,
            roofline_stream(
                *ctx,
                *x, *y, alpha,
            ),
        ),
{
    let n: usize = x.element_count();
    if y.element_count() != n {
        return Err(
            bad_shape("roofline_stream", "y.n_elements={} != x.n_elements={}")
                .num_u64(y.n_elements()).num(n),
        );
    }
    let threads: usize = match ctx.pipeline("kernel_roofline_stream_f32") {
        Ok(pipeline) => min_size(pipeline.max_total_threads, 1024),
        Err(e) => {
            return Err(e);
        },
    };
    let words: Vec<u32> = vec![n as u32, alpha.bits];
    assert(words@ =~= seq![n as u32, alpha.bits]);
    let tensors = [x.binding(), y.binding()];
    assert(tensors@ =~= seq![x.place(), y.place()]);
    let scratch: Vec<usize> = Vec::new();
    assert(scratch@ =~= seq![]);
    enc.launch(
        ctx,
        "kernel_roofline_stream_f32",
        words,
        &tensors,
        scratch.as_slice(),
        MTLSize { width: div_ceil(n, threads), height: 1, depth: 1 },
        MTLSize { width: threads, height: 1, depth: 1 },
    )
}

/// Run `iters` fused multiply-adds on every element of `x`.
pub open spec fn roofline_fma(
    ctx: MetalContext,
    x: MetalTensor,
    y: MetalTensor,
    iters: usize,
) -> Outcome {
    let n = x.count();
    let threads = ctx.group_threads("kernel_roofline_fma_f32"@);
    if y.count() != n || iters == 0 {
        Outcome::Refused(
            Fault::bad_shape("roofline_fma"@, "y.n_elements={} x.n_elements={} iters={}"@)
                .num(y.elements() as int).num(n as int).num(iters as int),
        )
    } else {
        Outcome::launch(
            ctx,
            Launch {
                pipeline: "kernel_roofline_fma_f32"@,
                words: seq![n as u32, iters as u32],
                tensors: seq![x.place(), y.place()],
                scratch: seq![],
                threadgroups: MTLSize { width: numeric::div_up(n, threads), height: 1, depth: 1 },
                threads: MTLSize { width: threads, height: 1, depth: 1 },
            },
        )
    }
}

/// Run `iters` fused multiply-adds on every element of `x`.
pub fn encode_roofline_fma_f32(
    ctx: &MetalContext,
    enc: &mut KernelEncoder,
    x: &MetalTensor,
    y: &MetalTensor,
    iters: usize,
) -> (r: Result<(), MetalError>)
    requires
        ctx.wf(),
        x.wf() && y.wf(),
    ensures
        old(enc).did(
            *final(enc),
            r,
            roofline_fma(
                *ctx,
                *x, *y, iters,
            ),
        ),
{
    let n: usize = x.element_count();
    if y.element_count() != n || iters == 0 {
        return Err(
            bad_shape("roofline_fma", "y.n_elements={} x.n_elements={} iters={}")
                .num_u64(y.n_elements()).num(n).num(iters),
        );
    }
    let threads: usize = match ctx.pipeline("kernel_roofline_fma_f32") {
        Ok(pipeline) => min_size(pipeline.max_total_threads, 1024),
        Err(e) => {
            return Err(e);
        },
    };
    let words: Vec<u32> = vec![n as u32, iters as u32];
    assert(words@ =~= seq![n as u32, iters as u32]);
    let tensors = [x.binding(), y.binding()];
    assert(tensors@ =~= seq![x.place(), y.place()]);
    let scratch: Vec<usize> = Vec::new();
    assert(scratch@ =~= seq![]);
    enc.launch(
        ctx,
        "kernel_roofline_fma_f32",
        words,
        &tensors,
        scratch.as_slice(),
        MTLSize { width: div_ceil(n, threads), height: 1, depth: 1 },
        MTLSize { width: threads, height: 1, depth: 1 },
    )
}

} // verus!
