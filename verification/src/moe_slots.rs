//! Mixture-of-experts kernels over the slots that routing chose, one expert per
//! slot.

use vstd::prelude::*;

use crate::context::MetalContext;
use crate::dtype::GgmlType;
use crate::encoder::{KernelEncoder, Launch, MTLSize, Outcome};
use crate::error::{bad_shape, Fault, MetalError};
use crate::numeric;
use crate::numeric::{div_ceil, product};
use crate::tensor::MetalTensor;

verus! {

/// How one kernel over expert banks runs.
#[derive(Clone, Copy)]
pub struct ExpertKernel {
    pub name: &'static str,
    pub pipeline: &'static str,
    /// Storage format of the expert bank.
    pub dtype: GgmlType,
    /// Rows of the bank are whole blocks of this many elements.
    pub block: usize,
    /// Output rows that one threadgroup computes.
    pub rows: usize,
    /// Threads of one threadgroup.
    pub threads: usize,
    /// Bytes of scratch memory, where the kernel uses any.
    pub scratch: usize,
}

impl ExpertKernel {
    #[verifier::allow_in_spec]
    pub fn of(
        name: &'static str,
        pipeline: &'static str,
        dtype: GgmlType,
        block: usize,
        rows: usize,
        threads: usize,
        scratch: usize,
    ) -> ExpertKernel
        returns
            (ExpertKernel { name, pipeline, dtype, block, rows, threads, scratch }),
    {
        ExpertKernel { name, pipeline, dtype, block, rows, threads, scratch }
    }

    pub open spec fn valid(self) -> bool {
        self.block > 0 && self.rows > 0
    }

    /// The scratch memories that a launch reserves.
    pub open spec fn reserved(self) -> Seq<usize> {
        if self.scratch == 0 {
            seq![]
        } else {
            seq![self.scratch]
        }
    }

    fn scratch_memory(&self) -> (r: Vec<usize>)
        ensures
            r@ == self.reserved(),
    {
        let mut r: Vec<usize> = Vec::new();
        if self.scratch != 0 {
            r.push(self.scratch);
        }
        assert(r@ =~= self.reserved());
        r
    }

    /// A row of `n_in` elements is not whole blocks.
    pub open spec fn partial_rows(self, n_in: usize) -> Fault {
        Fault::bad_shape(self.name@, "n_in={} not divisible by {}"@).num(n_in as int).num(
            self.block as int,
        )
    }

    fn partial_rows_error(&self, n_in: usize) -> (e: MetalError)
        ensures
            e@ == self.partial_rows(n_in),
    {
        bad_shape(self.name, "n_in={} not divisible by {}").num(n_in).num(self.block)
    }

    /// The launch over `n_out` rows of each of `slots` slots.
    pub open spec fn over(
        self,
        ctx: MetalContext,
        words: Seq<u32>,
        tensors: Seq<crate::tensor::Binding>,
        n_out: usize,
        slots: usize,
    ) -> Outcome {
        Outcome::launch(
            ctx,
            Launch {
                pipeline: self.pipeline@,
                words,
                tensors,
                scratch: self.reserved(),
                threadgroups: MTLSize {
                    width: numeric::div_up(n_out, self.rows),
                    height: slots,
                    depth: 1,
                },
                threads: MTLSize { width: self.threads, height: 1, depth: 1 },
            },
        )
    }

    fn launch_over(
        &self,
        ctx: &MetalContext,
        enc: &mut KernelEncoder,
        words: Vec<u32>,
        tensors: &[crate::tensor::Binding],
        n_out: usize,
        slots: usize,
    ) -> (r: Result<(), MetalError>)
        requires
            self.valid(),
        ensures
            old(enc).did(*final(enc), r, self.over(*ctx, words@, tensors@, n_out, slots)),
    {
        let scratch = self.scratch_memory();
        enc.launch(
            ctx,
            self.pipeline,
            words,
            tensors,
            scratch.as_slice(),
            MTLSize { width: div_ceil(n_out, self.rows), height: slots, depth: 1 },
            MTLSize { width: self.threads, height: 1, depth: 1 },
        )
    }
}

/// SwiGLU of one token's input through gate and up banks of its experts.
pub open spec fn expert_swiglu(
    ctx: MetalContext,
    k: ExpertKernel,
    w_gate: MetalTensor,
    w_up: MetalTensor,
    x: MetalTensor,
    topk_idx: MetalTensor,
    inner: MetalTensor,
    n_in: usize,
    n_out: usize,
    n_expert: usize,
    topk: usize,
) -> Outcome {
    if n_in % k.block != 0 {
        Outcome::Refused(k.partial_rows(n_in))
    } else if w_gate.dtype != k.dtype || w_up.dtype != k.dtype {
        Outcome::Refused(
            Fault::bad_shape(k.name@, "expected {} gate/up expert banks, got {}/{}"@).dtype(
                k.dtype,
            ).dtype(w_gate.dtype).dtype(w_up.dtype),
        )
    } else if x.count() != n_in || topk_idx.count() != topk || inner.count() != topk * n_out {
        Outcome::Refused(
            Fault::bad_shape(
                k.name@,
                "shape mismatch: x={} idx={} inner={} expected x={} idx={} inner={}"@,
            ).num(x.elements() as int).num(topk_idx.elements() as int).num(
                inner.elements() as int,
            ).num(n_in as int).num(topk as int).num(topk * n_out),
        )
    } else {
        k.over(
            ctx,
            seq![n_in as u32, n_out as u32, n_expert as u32, topk as u32],
            seq![w_gate.place(), w_up.place(), x.place(), topk_idx.place(), inner.place()],
            n_out,
            topk,
        )
    }
}

/// The inputs on which every size that the kernel's checks compute exists.
pub open spec fn expert_swiglu_defined(
    k: ExpertKernel,
    w_gate: MetalTensor,
    w_up: MetalTensor,
    x: MetalTensor,
    topk_idx: MetalTensor,
    inner: MetalTensor,
    n_in: usize,
    n_out: usize,
    topk: usize,
) -> bool {
    &&& k.valid()
    &&& x.wf() && topk_idx.wf() && inner.wf()
    &&& n_in % k.block == 0 && w_gate.dtype == k.dtype && w_up.dtype == k.dtype ==> topk * n_out
        <= usize::MAX
}

fn encode_expert_swiglu(
    ctx: &MetalContext,
    enc: &mut KernelEncoder,
    k: ExpertKernel,
    w_gate: &MetalTensor,
    w_up: &MetalTensor,
    x: &MetalTensor,
    topk_idx: &MetalTensor,
    inner: &MetalTensor,
    n_in: usize,
    n_out: usize,
    n_expert: usize,
    topk: usize,
) -> (r: Result<(), MetalError>)
    requires
        expert_swiglu_defined(
            k,
            *w_gate,
            *w_up,
            *x,
            *topk_idx,
            *inner,
            n_in,
            n_out,
            topk,
        ),
    ensures
        old(enc).did(
            *final(enc),
            r,
            expert_swiglu(
                *ctx,
                k,
                *w_gate,
                *w_up,
                *x,
                *topk_idx,
                *inner,
                n_in,
                n_out,
                n_expert,
                topk,
            ),
        ),
{
    if n_in % k.block != 0 {
        return Err(k.partial_rows_error(n_in));
    }
    if w_gate.dtype != k.dtype || w_up.dtype != k.dtype {
        return Err(
            bad_shape(k.name, "expected {} gate/up expert banks, got {}/{}").dtype(k.dtype).dtype(
                w_gate.dtype,
            ).dtype(w_up.dtype),
        );
    }
    let expected: usize = product(topk, n_out);
    if x.element_count() != n_in || topk_idx.element_count() != topk || inner.element_count()
        != expected {
        return Err(
            bad_shape(
                k.name,
                "shape mismatch: x={} idx={} inner={} expected x={} idx={} inner={}",
            ).num_u64(x.n_elements()).num_u64(topk_idx.n_elements()).num_u64(
                inner.n_elements(),
            ).num(n_in).num(topk).num(expected),
        );
    }
    let words: Vec<u32> = vec![n_in as u32, n_out as u32, n_expert as u32, topk as u32];
    let tensors = [
        w_gate.binding(),
        w_up.binding(),
        x.binding(),
        topk_idx.binding(),
        inner.binding(),
    ];
    assert(words@ =~= seq![n_in as u32, n_out as u32, n_expert as u32, topk as u32]);
    assert(tensors@ =~= seq![
        w_gate.place(),
        w_up.place(),
        x.place(),
        topk_idx.place(),
        inner.place(),
    ]);
    k.launch_over(ctx, enc, words, &tensors, n_out, topk)
}

/// SwiGLU decode through IQ3_XXS expert banks.
pub fn encode_moe_swiglu_iq3_xxs_f32(
    ctx: &MetalContext,
    enc: &mut KernelEncoder,
    w_gate: &MetalTensor,
    w_up: &MetalTensor,
    x: &MetalTensor,
    topk_idx: &MetalTensor,
    inner: &MetalTensor,
    n_in: usize,
    n_out: usize,
    n_expert: usize,
    topk: usize,
) -> (r: Result<(), MetalError>)
    requires
        expert_swiglu_defined(
            ExpertKernel::of(
                "moe_swiglu_iq3_xxs",
                "kernel_moe_swiglu_iq3_xxs_f32",
                GgmlType::IQ3_XXS,
                256,
                2,
                64,
                0,
            ),
            *w_gate, *w_up, *x, *topk_idx, *inner, n_in, n_out, topk,
        ),
    ensures
        old(enc).did(
            *final(enc),
            r,
            expert_swiglu(
                *ctx,
                ExpertKernel::of(
                    "moe_swiglu_iq3_xxs",
                    "kernel_moe_swiglu_iq3_xxs_f32",
                    GgmlType::IQ3_XXS,
                    256,
                    2,
                    64,
                    0,
                ),
                *w_gate, *w_up, *x, *topk_idx, *inner, n_in, n_out, n_expert, topk,
            ),
        ),
{
    encode_expert_swiglu(
        ctx, enc,
        ExpertKernel::of(
            "moe_swiglu_iq3_xxs",
            "kernel_moe_swiglu_iq3_xxs_f32",
            GgmlType::IQ3_XXS,
            256,
            2,
            64,
            0,
        ),
        w_gate, w_up, x, topk_idx, inner, n_in, n_out, n_expert, topk,
    )
}

/// SwiGLU decode through IQ3_XXS expert banks, four rows per simdgroup.
pub fn encode_moe_swiglu_iq3_xxs_f32_fast(
    ctx: &MetalContext,
    enc: &mut KernelEncoder,
    w_gate: &MetalTensor,
    w_up: &MetalTensor,
    x: &MetalTensor,
    topk_idx: &MetalTensor,
    inner: &MetalTensor,
    n_in: usize,
    n_out: usize,
    n_expert: usize,
    topk: usize,
) -> (r: Result<(), MetalError>)
    requires
        expert_swiglu_defined(
            ExpertKernel::of(
                "moe_swiglu_iq3_xxs_fast",
                "kernel_moe_swiglu_iq3_xxs_f32_fast",
                GgmlType::IQ3_XXS,
                256,
                8,
                64,
                0,
            ),
            *w_gate, *w_up, *x, *topk_idx, *inner, n_in, n_out, topk,
        ),
    ensures
        old(enc).did(
            *final(enc),
            r,
            expert_swiglu(
                *ctx,
                ExpertKernel::of(
                    "moe_swiglu_iq3_xxs_fast",
                    "kernel_moe_swiglu_iq3_xxs_f32_fast",
                    GgmlType::IQ3_XXS,
                    256,
                    8,
                    64,
                    0,
                ),
                *w_gate, *w_up, *x, *topk_idx, *inner, n_in, n_out, n_expert, topk,
            ),
        ),
{
    encode_expert_swiglu(
        ctx, enc,
        ExpertKernel::of(
            "moe_swiglu_iq3_xxs_fast",
            "kernel_moe_swiglu_iq3_xxs_f32_fast",
            GgmlType::IQ3_XXS,
            256,
            8,
            64,
            0,
        ),
        w_gate, w_up, x, topk_idx, inner, n_in, n_out, n_expert, topk,
    )
}

/// SwiGLU decode through IQ3_S expert banks.
pub fn encode_moe_swiglu_iq3_s_f32(
    ctx: &MetalContext,
    enc: &mut KernelEncoder,
    w_gate: &MetalTensor,
    w_up: &MetalTensor,
    x: &MetalTensor,
    topk_idx: &MetalTensor,
    inner: &MetalTensor,
    n_in: usize,
    n_out: usize,
    n_expert: usize,
    topk: usize,
) -> (r: Result<(), MetalError>)
    requires
        expert_swiglu_defined(
            ExpertKernel::of(
                "moe_swiglu_iq3_s",
                "kernel_moe_swiglu_iq3_s_f32",
                GgmlType::IQ3_S,
                256,
                2,
                64,
                0,
            ),
            *w_gate, *w_up, *x, *topk_idx, *inner, n_in, n_out, topk,
        ),
    ensures
        old(enc).did(
            *final(enc),
            r,
            expert_swiglu(
                *ctx,
                ExpertKernel::of(
                    "moe_swiglu_iq3_s",
                    "kernel_moe_swiglu_iq3_s_f32",
                    GgmlType::IQ3_S,
                    256,
                    2,
                    64,
                    0,
                ),
                *w_gate, *w_up, *x, *topk_idx, *inner, n_in, n_out, n_expert, topk,
            ),
        ),
{
    encode_expert_swiglu(
        ctx, enc,
        ExpertKernel::of(
            "moe_swiglu_iq3_s",
            "kernel_moe_swiglu_iq3_s_f32",
            GgmlType::IQ3_S,
            256,
            2,
            64,
            0,
        ),
        w_gate, w_up, x, topk_idx, inner, n_in, n_out, n_expert, topk,
    )
}

/// SwiGLU decode through IQ3_S expert banks, four rows per simdgroup.
pub fn encode_moe_swiglu_iq3_s_f32_fast(
    ctx: &MetalContext,
    enc: &mut KernelEncoder,
    w_gate: &MetalTensor,
    w_up: &MetalTensor,
    x: &MetalTensor,
    topk_idx: &MetalTensor,
    inner: &MetalTensor,
    n_in: usize,
    n_out: usize,
    n_expert: usize,
    topk: usize,
) -> (r: Result<(), MetalError>)
    requires
        expert_swiglu_defined(
            ExpertKernel::of(
                "moe_swiglu_iq3_s_fast",
                "kernel_moe_swiglu_iq3_s_f32_fast",
                GgmlType::IQ3_S,
                256,
                8,
                64,
                0,
            ),
            *w_gate, *w_up, *x, *topk_idx, *inner, n_in, n_out, topk,
        ),
    ensures
        old(enc).did(
            *final(enc),
            r,
            expert_swiglu(
                *ctx,
                ExpertKernel::of(
                    "moe_swiglu_iq3_s_fast",
                    "kernel_moe_swiglu_iq3_s_f32_fast",
                    GgmlType::IQ3_S,
                    256,
                    8,
                    64,
                    0,
                ),
                *w_gate, *w_up, *x, *topk_idx, *inner, n_in, n_out, n_expert, topk,
            ),
        ),
{
    encode_expert_swiglu(
        ctx, enc,
        ExpertKernel::of(
            "moe_swiglu_iq3_s_fast",
            "kernel_moe_swiglu_iq3_s_f32_fast",
            GgmlType::IQ3_S,
            256,
            8,
            64,
            0,
        ),
        w_gate, w_up, x, topk_idx, inner, n_in, n_out, n_expert, topk,
    )
}

/// SwiGLU decode through Q6_K expert banks.
#[allow(non_snake_case)]
pub fn encode_moe_swiglu_q6_K_f32(
    ctx: &MetalContext,
    enc: &mut KernelEncoder,
    w_gate: &MetalTensor,
    w_up: &MetalTensor,
    x: &MetalTensor,
    topk_idx: &MetalTensor,
    inner: &MetalTensor,
    n_in: usize,
    n_out: usize,
    n_expert: usize,
    topk: usize,
) -> (r: Result<(), MetalError>)
    requires
        expert_swiglu_defined(
            ExpertKernel::of(
                "moe_swiglu_q6_K",
                "kernel_moe_swiglu_q6_K_f32",
                GgmlType::Q6_K,
                256,
                4,
                64,
                0,
            ),
            *w_gate, *w_up, *x, *topk_idx, *inner, n_in, n_out, topk,
        ),
    ensures
        old(enc).did(
            *final(enc),
            r,
            expert_swiglu(
                *ctx,
                ExpertKernel::of(
                    "moe_swiglu_q6_K",
                    "kernel_moe_swiglu_q6_K_f32",
                    GgmlType::Q6_K,
                    256,
                    4,
                    64,
                    0,
                ),
                *w_gate, *w_up, *x, *topk_idx, *inner, n_in, n_out, n_expert, topk,
            ),
        ),
{
    encode_expert_swiglu(
        ctx, enc,
        ExpertKernel::of(
            "moe_swiglu_q6_K",
            "kernel_moe_swiglu_q6_K_f32",
            GgmlType::Q6_K,
            256,
            4,
            64,
            0,
        ),
        w_gate, w_up, x, topk_idx, inner, n_in, n_out, n_expert, topk,
    )
}

/// SwiGLU decode through Q8_0 expert banks.
pub fn encode_moe_swiglu_q8_0_f32(
    ctx: &MetalContext,
    enc: &mut KernelEncoder,
    w_gate: &MetalTensor,
    w_up: &MetalTensor,
    x: &MetalTensor,
    topk_idx: &MetalTensor,
    inner: &MetalTensor,
    n_in: usize,
    n_out: usize,
    n_expert: usize,
    topk: usize,
) -> (r: Result<(), MetalError>)
    requires
        expert_swiglu_defined(
            ExpertKernel::of(
                "moe_swiglu_q8_0",
                "kernel_moe_swiglu_q8_0_f32",
                GgmlType::Q8_0,
                32,
                2,
                128,
                512,
            ),
            *w_gate, *w_up, *x, *topk_idx, *inner, n_in, n_out, topk,
        ),
    ensures
        old(enc).did(
            *final(enc),
            r,
            expert_swiglu(
                *ctx,
                ExpertKernel::of(
                    "moe_swiglu_q8_0",
                    "kernel_moe_swiglu_q8_0_f32",
                    GgmlType::Q8_0,
                    32,
                    2,
                    128,
                    512,
                ),
                *w_gate, *w_up, *x, *topk_idx, *inner, n_in, n_out, n_expert, topk,
            ),
        ),
{
    encode_expert_swiglu(
        ctx, enc,
        ExpertKernel::of(
            "moe_swiglu_q8_0",
            "kernel_moe_swiglu_q8_0_f32",
            GgmlType::Q8_0,
            32,
            2,
            128,
            512,
        ),
        w_gate, w_up, x, topk_idx, inner, n_in, n_out, n_expert, topk,
    )
}

/// SwiGLU through Q4_K banks, for `n_tokens` tokens with `topk` slots each. With
/// one token the messages speak of a single input.
pub open spec fn packed_swiglu(
    ctx: MetalContext,
    k: ExpertKernel,
    packed: bool,
    w_gate: MetalTensor,
    w_up: MetalTensor,
    x: MetalTensor,
    topk_idx: MetalTensor,
    inner: MetalTensor,
    n_in: usize,
    n_out: usize,
    n_expert: usize,
    topk: usize,
    n_tokens: usize,
) -> Outcome {
    let n_slots = n_tokens * topk;
    if n_in % k.block != 0 {
        Outcome::Refused(k.partial_rows(n_in))
    } else if w_gate.dtype != k.dtype || w_up.dtype != k.dtype {
        Outcome::Refused(
            Fault::bad_shape(k.name@, "expected {} expert gate/up, got {}/{}"@).dtype(
                k.dtype,
            ).dtype(w_gate.dtype).dtype(w_up.dtype),
        )
    } else if x.count() != n_tokens * n_in {
        Outcome::Refused(
            Fault::bad_shape(
                k.name@,
                if packed {
                    "x_pack.n_elements={} != n_tokens*n_in={}"@
                } else {
                    "x.n_elements={} != n_in={}"@
                },
            ).num(x.elements() as int).num(n_tokens * n_in),
        )
    } else if topk_idx.count() != n_slots || inner.count() != n_slots * n_out {
        Outcome::Refused(
            Fault::bad_shape(
                k.name@,
                if packed {
                    "slot/inner mismatch: idx={} inner={} expected idx={} inner={}"@
                } else {
                    "topk/inner mismatch: idx={} inner={} expected idx={} inner={}"@
                },
            ).num(topk_idx.elements() as int).num(inner.elements() as int).num(n_slots).num(
                n_slots * n_out,
            ),
        )
    } else {
        k.over(
            ctx,
            seq![n_in as u32, n_out as u32, n_expert as u32, topk as u32],
            seq![w_gate.place(), w_up.place(), x.place(), topk_idx.place(), inner.place()],
            n_out,
            n_slots as usize,
        )
    }
}

/// The inputs on which every size that the kernel's checks compute exists.
pub open spec fn packed_swiglu_defined(
    k: ExpertKernel,
    w_gate: MetalTensor,
    w_up: MetalTensor,
    x: MetalTensor,
    topk_idx: MetalTensor,
    inner: MetalTensor,
    n_in: usize,
    n_out: usize,
    topk: usize,
    n_tokens: usize,
) -> bool {
    &&& k.valid()
    &&& x.wf() && topk_idx.wf() && inner.wf()
    &&& n_in % k.block == 0 && w_gate.dtype == k.dtype && w_up.dtype == k.dtype ==> {
        &&& n_tokens * topk <= usize::MAX
        &&& n_tokens * n_in <= usize::MAX
        &&& x.count() == n_tokens * n_in ==> n_tokens * topk * n_out <= usize::MAX
    }
}

fn encode_packed_swiglu(
    ctx: &MetalContext,
    enc: &mut KernelEncoder,
    k: ExpertKernel,
    packed: bool,
    w_gate: &MetalTensor,
    w_up: &MetalTensor,
    x: &MetalTensor,
    topk_idx: &MetalTensor,
    inner: &MetalTensor,
    n_in: usize,
    n_out: usize,
    n_expert: usize,
    topk: usize,
    n_tokens: usize,
) -> (r: Result<(), MetalError>)
    requires
        packed_swiglu_defined(
            k,
            *w_gate,
            *w_up,
            *x,
            *topk_idx,
            *inner,
            n_in,
            n_out,
            topk,
            n_tokens,
        ),
    ensures
        old(enc).did(
            *final(enc),
            r,
            packed_swiglu(
                *ctx,
                k,
                packed,
                *w_gate,
                *w_up,
                *x,
                *topk_idx,
                *inner,
                n_in,
                n_out,
                n_expert,
                topk,
                n_tokens,
            ),
        ),
{
    if n_in % k.block != 0 {
        return Err(k.partial_rows_error(n_in));
    }
    if w_gate.dtype != k.dtype || w_up.dtype != k.dtype {
        return Err(
            bad_shape(k.name, "expected {} expert gate/up, got {}/{}").dtype(k.dtype).dtype(
                w_gate.dtype,
            ).dtype(w_up.dtype),
        );
    }
    let n_slots: usize = product(n_tokens, topk);
    let expected_x: usize = product(n_tokens, n_in);
    if x.element_count() != expected_x {
        let template = if packed {
            "x_pack.n_elements={} != n_tokens*n_in={}"
        } else {
            "x.n_elements={} != n_in={}"
        };
        return Err(bad_shape(k.name, template).num_u64(x.n_elements()).num(expected_x));
    }
    let expected_inner: usize = product(n_slots, n_out);
    if topk_idx.element_count() != n_slots || inner.element_count() != expected_inner {
        let template = if packed {
            "slot/inner mismatch: idx={} inner={} expected idx={} inner={}"
        } else {
            "topk/inner mismatch: idx={} inner={} expected idx={} inner={}"
        };
        return Err(
            bad_shape(k.name, template).num_u64(topk_idx.n_elements()).num_u64(
                inner.n_elements(),
            ).num(n_slots).num(expected_inner),
        );
    }
    let words: Vec<u32> = vec![n_in as u32, n_out as u32, n_expert as u32, topk as u32];
    let tensors = [
        w_gate.binding(),
        w_up.binding(),
        x.binding(),
        topk_idx.binding(),
        inner.binding(),
    ];
    assert(words@ =~= seq![n_in as u32, n_out as u32, n_expert as u32, topk as u32]);
    assert(tensors@ =~= seq![
        w_gate.place(),
        w_up.place(),
        x.place(),
        topk_idx.place(),
        inner.place(),
    ]);
    k.launch_over(ctx, enc, words, &tensors, n_out, n_slots)
}

/// SwiGLU decode through Q4_K expert banks.
#[allow(non_snake_case)]
pub fn encode_moe_swiglu_q4_K_f32(
    ctx: &MetalContext,
    enc: &mut KernelEncoder,
    w_gate: &MetalTensor,
    w_up: &MetalTensor,
    x: &MetalTensor,
    topk_idx: &MetalTensor,
    inner: &MetalTensor,
    n_in: usize,
    n_out: usize,
    n_expert: usize,
    topk: usize,
) -> (r: Result<(), MetalError>)
    requires
        packed_swiglu_defined(
            ExpertKernel::of(
                "moe_swiglu_q4_K",
                "kernel_moe_swiglu_q4_K_f32",
                GgmlType::Q4_K,
                256,
                4,
                64,
                0,
            ),
            *w_gate, *w_up, *x, *topk_idx, *inner, n_in, n_out, topk, 1,
        ),
    ensures
        old(enc).did(
            *final(enc),
            r,
            packed_swiglu(
                *ctx,
                ExpertKernel::of(
                    "moe_swiglu_q4_K",
                    "kernel_moe_swiglu_q4_K_f32",
                    GgmlType::Q4_K,
                    256,
                    4,
                    64,
                    0,
                ),
                false,
                *w_gate, *w_up, *x, *topk_idx, *inner, n_in, n_out, n_expert, topk, 1,
            ),
        ),
{
    encode_packed_swiglu(
        ctx, enc,
        ExpertKernel::of(
            "moe_swiglu_q4_K",
            "kernel_moe_swiglu_q4_K_f32",
            GgmlType::Q4_K,
            256,
            4,
            64,
            0,
        ),
        false,
        w_gate, w_up, x, topk_idx, inner, n_in, n_out, n_expert, topk, 1,
    )
}

/// SwiGLU through Q4_K expert banks for the slots of several tokens.
#[allow(non_snake_case)]
pub fn encode_moe_swiglu_q4_K_f32_packed_slots(
    ctx: &MetalContext,
    enc: &mut KernelEncoder,
    w_gate: &MetalTensor,
    w_up: &MetalTensor,
    x_pack: &MetalTensor,
    topk_idx_pack: &MetalTensor,
    inner: &MetalTensor,
    n_in: usize,
    n_out: usize,
    n_expert: usize,
    topk: usize,
    n_tokens: usize,
) -> (r: Result<(), MetalError>)
    requires
        packed_swiglu_defined(
            ExpertKernel::of(
                "moe_swiglu_q4_K_packed_slots",
                "kernel_moe_swiglu_q4_K_f32_packed_slots",
                GgmlType::Q4_K,
                256,
                4,
                64,
                0,
            ),
            *w_gate, *w_up, *x_pack, *topk_idx_pack, *inner, n_in, n_out, topk,
            n_tokens,
        ),
    ensures
        old(enc).did(
            *final(enc),
            r,
            packed_swiglu(
                *ctx,
                ExpertKernel::of(
                    "moe_swiglu_q4_K_packed_slots",
                    "kernel_moe_swiglu_q4_K_f32_packed_slots",
                    GgmlType::Q4_K,
                    256,
                    4,
                    64,
                    0,
                ),
                true,
                *w_gate, *w_up, *x_pack, *topk_idx_pack, *inner, n_in, n_out, n_expert, topk,
                n_tokens,
            ),
        ),
{
    encode_packed_swiglu(
        ctx, enc,
        ExpertKernel::of(
            "moe_swiglu_q4_K_packed_slots",
            "kernel_moe_swiglu_q4_K_f32_packed_slots",
            GgmlType::Q4_K,
            256,
            4,
            64,
            0,
        ),
        true,
        w_gate, w_up, x_pack, topk_idx_pack, inner, n_in, n_out, n_expert, topk, n_tokens,
    )
}

/// The down projection of each slot's inner row through its expert.
pub open spec fn expert_down(
    ctx: MetalContext,
    k: ExpertKernel,
    weight: MetalTensor,
    inner: MetalTensor,
    topk_idx: MetalTensor,
    expert_out: MetalTensor,
    n_in: usize,
    n_out: usize,
    n_expert: usize,
    slots: usize,
    topk: u32,
) -> Outcome {
    if n_in % k.block != 0 {
        Outcome::Refused(k.partial_rows(n_in))
    } else if weight.dtype != k.dtype {
        Outcome::Refused(
            Fault::bad_shape(k.name@, "expected {} expert down, got {}"@).dtype(k.dtype).dtype(
                weight.dtype,
            ),
        )
    } else if inner.count() != slots * n_in || topk_idx.count() != slots || expert_out.count()
        != slots * n_out {
        Outcome::Refused(
            Fault::bad_shape(
                k.name@,
                "shape mismatch: inner={} idx={} out={} expected inner={} idx={} out={}"@,
            ).num(inner.elements() as int).num(topk_idx.elements() as int).num(
                expert_out.elements() as int,
            ).num(slots * n_in).num(slots as int).num(slots * n_out),
        )
    } else {
        k.over(
            ctx,
            seq![n_in as u32, n_out as u32, n_expert as u32, topk],
            seq![weight.place(), inner.place(), topk_idx.place(), expert_out.place()],
            n_out,
            slots,
        )
    }
}

/// The inputs on which every size that the kernel's checks compute exists.
pub open spec fn expert_down_defined(
    k: ExpertKernel,
    weight: MetalTensor,
    inner: MetalTensor,
    topk_idx: MetalTensor,
    expert_out: MetalTensor,
    n_in: usize,
    n_out: usize,
    slots: usize,
) -> bool {
    &&& k.valid()
    &&& inner.wf() && topk_idx.wf() && expert_out.wf()
    &&& n_in % k.block == 0 && weight.dtype == k.dtype ==> slots * n_in <= usize::MAX && slots
        * n_out <= usize::MAX
}

fn encode_expert_down(
    ctx: &MetalContext,
    enc: &mut KernelEncoder,
    k: ExpertKernel,
    weight: &MetalTensor,
    inner: &MetalTensor,
    topk_idx: &MetalTensor,
    expert_out: &MetalTensor,
    n_in: usize,
    n_out: usize,
    n_expert: usize,
    slots: usize,
    topk: u32,
) -> (r: Result<(), MetalError>)
    requires
        expert_down_defined(
            k,
            *weight,
            *inner,
            *topk_idx,
            *expert_out,
            n_in,
            n_out,
            slots,
        ),
    ensures
        old(enc).did(
            *final(enc),
            r,
            expert_down(
                *ctx,
                k,
                *weight,
                *inner,
                *topk_idx,
                *expert_out,
                n_in,
                n_out,
                n_expert,
                slots,
                topk,
            ),
        ),
{
    if n_in % k.block != 0 {
        return Err(k.partial_rows_error(n_in));
    }
    if weight.dtype != k.dtype {
        return Err(
            bad_shape(k.name, "expected {} expert down, got {}").dtype(k.dtype).dtype(weight.dtype),
        );
    }
    let expected_inner: usize = product(slots, n_in);
    let expected_out: usize = product(slots, n_out);
    if inner.element_count() != expected_inner || topk_idx.element_count() != slots
        || expert_out.element_count() != expected_out {
        return Err(
            bad_shape(
                k.name,
                "shape mismatch: inner={} idx={} out={} expected inner={} idx={} out={}",
            ).num_u64(inner.n_elements()).num_u64(topk_idx.n_elements()).num_u64(
                expert_out.n_elements(),
            ).num(expected_inner).num(slots).num(expected_out),
        );
    }
    let words: Vec<u32> = vec![n_in as u32, n_out as u32, n_expert as u32, topk];
    let tensors = [weight.binding(), inner.binding(), topk_idx.binding(), expert_out.binding()];
    assert(words@ =~= seq![n_in as u32, n_out as u32, n_expert as u32, topk]);
    assert(tensors@ =~= seq![weight.place(), inner.place(), topk_idx.place(), expert_out.place()]);
    k.launch_over(ctx, enc, words, &tensors, n_out, slots)
}

/// Down projection through a Q4_K expert bank.
#[allow(non_snake_case)]
pub fn encode_moe_down_q4_K_f32(
    ctx: &MetalContext,
    enc: &mut KernelEncoder,
    weight: &MetalTensor,
    inner: &MetalTensor,
    topk_idx: &MetalTensor,
    expert_out: &MetalTensor,
    n_in: usize,
    n_out: usize,
    n_expert: usize,
    topk: usize,
) -> (r: Result<(), MetalError>)
    requires
        expert_down_defined(
            ExpertKernel::of(
                "moe_down_q4_K",
                "kernel_moe_down_q4_K_f32",
                GgmlType::Q4_K,
                256,
                4,
                64,
                0,
            ),
            *weight, *inner, *topk_idx, *expert_out, n_in, n_out, topk,
        ),
    ensures
        old(enc).did(
            *final(enc),
            r,
            expert_down(
                *ctx,
                ExpertKernel::of(
                    "moe_down_q4_K",
                    "kernel_moe_down_q4_K_f32",
                    GgmlType::Q4_K,
                    256,
                    4,
                    64,
                    0,
                ),
                *weight, *inner, *topk_idx, *expert_out, n_in, n_out, n_expert, topk,
                topk as u32,
            ),
        ),
{
    encode_expert_down(
        ctx, enc,
        ExpertKernel::of(
            "moe_down_q4_K",
            "kernel_moe_down_q4_K_f32",
            GgmlType::Q4_K,
            256,
            4,
            64,
            0,
        ),
        weight, inner, topk_idx, expert_out, n_in, n_out, n_expert, topk, topk as u32,
    )
}

/// Down projection through a Q5_K expert bank.
#[allow(non_snake_case)]
pub fn encode_moe_down_q5_K_f32(
    ctx: &MetalContext,
    enc: &mut KernelEncoder,
    weight: &MetalTensor,
    inner: &MetalTensor,
    topk_idx: &MetalTensor,
    expert_out: &MetalTensor,
    n_in: usize,
    n_out: usize,
    n_expert: usize,
    topk: usize,
) -> (r: Result<(), MetalError>)
    requires
        expert_down_defined(
            ExpertKernel::of(
                "moe_down_q5_K",
                "kernel_moe_down_q5_K_f32",
                GgmlType::Q5_K,
                256,
                2,
                64,
                0,
            ),
            *weight, *inner, *topk_idx, *expert_out, n_in, n_out, topk,
        ),
    ensures
        old(enc).did(
            *final(enc),
            r,
            expert_down(
                *ctx,
                ExpertKernel::of(
                    "moe_down_q5_K",
                    "kernel_moe_down_q5_K_f32",
                    GgmlType::Q5_K,
                    256,
                    2,
                    64,
                    0,
                ),
                *weight, *inner, *topk_idx, *expert_out, n_in, n_out, n_expert, topk,
                topk as u32,
            ),
        ),
{
    encode_expert_down(
        ctx, enc,
        ExpertKernel::of(
            "moe_down_q5_K",
            "kernel_moe_down_q5_K_f32",
            GgmlType::Q5_K,
            256,
            2,
            64,
            0,
        ),
        weight, inner, topk_idx, expert_out, n_in, n_out, n_expert, topk, topk as u32,
    )
}

/// Down projection through an F32 expert bank.
pub fn encode_moe_down_f32_f32(
    ctx: &MetalContext,
    enc: &mut KernelEncoder,
    weight: &MetalTensor,
    inner: &MetalTensor,
    topk_idx: &MetalTensor,
    expert_out: &MetalTensor,
    n_in: usize,
    n_out: usize,
    n_expert: usize,
    topk: usize,
) -> (r: Result<(), MetalError>)
    requires
        expert_down_defined(
            ExpertKernel::of(
                "moe_down_f32",
                "kernel_moe_down_f32_f32",
                GgmlType::F32,
                1,
                4,
                128,
                0,
            ),
            *weight, *inner, *topk_idx, *expert_out, n_in, n_out, topk,
        ),
    ensures
        old(enc).did(
            *final(enc),
            r,
            expert_down(
                *ctx,
                ExpertKernel::of(
                    "moe_down_f32",
                    "kernel_moe_down_f32_f32",
                    GgmlType::F32,
                    1,
                    4,
                    128,
                    0,
                ),
                *weight, *inner, *topk_idx, *expert_out, n_in, n_out, n_expert, topk,
                topk as u32,
            ),
        ),
{
    encode_expert_down(
        ctx, enc,
        ExpertKernel::of("moe_down_f32", "kernel_moe_down_f32_f32", GgmlType::F32, 1, 4, 128, 0),
        weight, inner, topk_idx, expert_out, n_in, n_out, n_expert, topk, topk as u32,
    )
}

/// Down projection through a BF16 expert bank.
pub fn encode_moe_down_bf16_f32(
    ctx: &MetalContext,
    enc: &mut KernelEncoder,
    weight: &MetalTensor,
    inner: &MetalTensor,
    topk_idx: &MetalTensor,
    expert_out: &MetalTensor,
    n_in: usize,
    n_out: usize,
    n_expert: usize,
    topk: usize,
) -> (r: Result<(), MetalError>)
    requires
        expert_down_defined(
            ExpertKernel::of(
                "moe_down_bf16",
                "kernel_moe_down_bf16_f32",
                GgmlType::BF16,
                1,
                4,
                128,
                0,
            ),
            *weight, *inner, *topk_idx, *expert_out, n_in, n_out, topk,
        ),
    ensures
        old(enc).did(
            *final(enc),
            r,
            expert_down(
                *ctx,
                ExpertKernel::of(
                    "moe_down_bf16",
                    "kernel_moe_down_bf16_f32",
                    GgmlType::BF16,
                    1,
                    4,
                    128,
                    0,
                ),
                *weight, *inner, *topk_idx, *expert_out, n_in, n_out, n_expert, topk,
                topk as u32,
            ),
        ),
{
    encode_expert_down(
        ctx, enc,
        ExpertKernel::of("moe_down_bf16", "kernel_moe_down_bf16_f32", GgmlType::BF16, 1, 4, 128, 0),
        weight, inner, topk_idx, expert_out, n_in, n_out, n_expert, topk, topk as u32,
    )
}

/// Down projection through an IQ4_XS expert bank.
pub fn encode_moe_down_iq4_xs_f32(
    ctx: &MetalContext,
    enc: &mut KernelEncoder,
    weight: &MetalTensor,
    inner: &MetalTensor,
    topk_idx: &MetalTensor,
    expert_out: &MetalTensor,
    n_in: usize,
    n_out: usize,
    n_expert: usize,
    topk: usize,
) -> (r: Result<(), MetalError>)
    requires
        expert_down_defined(
            ExpertKernel::of(
                "moe_down_iq4_xs",
                "kernel_moe_down_iq4_xs_f32",
                GgmlType::IQ4_XS,
                256,
                4,
                128,
                0,
            ),
            *weight, *inner, *topk_idx, *expert_out, n_in, n_out, topk,
        ),
    ensures
        old(enc).did(
            *final(enc),
            r,
            expert_down(
                *ctx,
                ExpertKernel::of(
                    "moe_down_iq4_xs",
                    "kernel_moe_down_iq4_xs_f32",
                    GgmlType::IQ4_XS,
                    256,
                    4,
                    128,
                    0,
                ),
                *weight, *inner, *topk_idx, *expert_out, n_in, n_out, n_expert, topk,
                topk as u32,
            ),
        ),
{
    encode_expert_down(
        ctx, enc,
        ExpertKernel::of(
            "moe_down_iq4_xs",
            "kernel_moe_down_iq4_xs_f32",
            GgmlType::IQ4_XS,
            256,
            4,
            128,
            0,
        ),
        weight, inner, topk_idx, expert_out, n_in, n_out, n_expert, topk, topk as u32,
    )
}

/// Down projection through an IQ4_XS expert bank, two rows per simdgroup.
pub fn encode_moe_down_iq4_xs_f32_fast(
    ctx: &MetalContext,
    enc: &mut KernelEncoder,
    weight: &MetalTensor,
    inner: &MetalTensor,
    topk_idx: &MetalTensor,
    expert_out: &MetalTensor,
    n_in: usize,
    n_out: usize,
    n_expert: usize,
    topk: usize,
) -> (r: Result<(), MetalError>)
    requires
        expert_down_defined(
            ExpertKernel::of(
                "moe_down_iq4_xs_fast",
                "kernel_moe_down_iq4_xs_f32_fast",
                GgmlType::IQ4_XS,
                256,
                4,
                64,
                128,
            ),
            *weight, *inner, *topk_idx, *expert_out, n_in, n_out, topk,
        ),
    ensures
        old(enc).did(
            *final(enc),
            r,
            expert_down(
                *ctx,
                ExpertKernel::of(
                    "moe_down_iq4_xs_fast",
                    "kernel_moe_down_iq4_xs_f32_fast",
                    GgmlType::IQ4_XS,
                    256,
                    4,
                    64,
                    128,
                ),
                *weight, *inner, *topk_idx, *expert_out, n_in, n_out, n_expert, topk,
                topk as u32,
            ),
        ),
{
    encode_expert_down(
        ctx, enc,
        ExpertKernel::of(
            "moe_down_iq4_xs_fast",
            "kernel_moe_down_iq4_xs_f32_fast",
            GgmlType::IQ4_XS,
            256,
            4,
            64,
            128,
        ),
        weight, inner, topk_idx, expert_out, n_in, n_out, n_expert, topk, topk as u32,
    )
}

/// Down projection of rows that each name their expert, through a Q5_K bank.
#[allow(non_snake_case)]
pub fn encode_moe_down_q5_K_f32_grouped_rows(
    ctx: &MetalContext,
    enc: &mut KernelEncoder,
    weight: &MetalTensor,
    inner: &MetalTensor,
    expert_idx: &MetalTensor,
    out: &MetalTensor,
    n_in: usize,
    n_out: usize,
    n_expert: usize,
    n_rows: usize,
) -> (r: Result<(), MetalError>)
    requires
        expert_down_defined(
            ExpertKernel::of(
                "moe_down_q5_K_grouped_rows",
                "kernel_moe_down_q5_K_f32_grouped_rows",
                GgmlType::Q5_K,
                256,
                2,
                64,
                0,
            ),
            *weight, *inner, *expert_idx, *out, n_in, n_out, n_rows,
        ),
    ensures
        old(enc).did(
            *final(enc),
            r,
            expert_down(
                *ctx,
                ExpertKernel::of(
                    "moe_down_q5_K_grouped_rows",
                    "kernel_moe_down_q5_K_f32_grouped_rows",
                    GgmlType::Q5_K,
                    256,
                    2,
                    64,
                    0,
                ),
                *weight, *inner, *expert_idx, *out, n_in, n_out, n_expert, n_rows, 0,
            ),
        ),
{
    encode_expert_down(
        ctx, enc,
        ExpertKernel::of(
            "moe_down_q5_K_grouped_rows",
            "kernel_moe_down_q5_K_f32_grouped_rows",
            GgmlType::Q5_K,
            256,
            2,
            64,
            0,
        ),
        weight, inner, expert_idx, out, n_in, n_out, n_expert, n_rows, 0,
    )
}

/// One token's input through each of its experts.
pub open spec fn expert_mat_vec(
    ctx: MetalContext,
    k: ExpertKernel,
    weight: MetalTensor,
    x: MetalTensor,
    topk_idx: MetalTensor,
    out: MetalTensor,
    n_in: usize,
    n_out: usize,
    n_expert: usize,
    topk: usize,
) -> Outcome {
    if n_in % k.block != 0 {
        Outcome::Refused(k.partial_rows(n_in))
    } else if weight.dtype != k.dtype {
        Outcome::Refused(
            Fault::bad_shape(k.name@, "expected {} expert weight, got {}"@).dtype(k.dtype).dtype(
                weight.dtype,
            ),
        )
    } else if x.count() != n_in || topk_idx.count() != topk || out.count() != topk * n_out {
        Outcome::Refused(
            Fault::bad_shape(
                k.name@,
                "shape mismatch: x={} idx={} out={} expected x={} idx={} out={}"@,
            ).num(x.elements() as int).num(topk_idx.elements() as int).num(
                out.elements() as int,
            ).num(n_in as int).num(topk as int).num(topk * n_out),
        )
    } else {
        k.over(
            ctx,
            seq![n_in as u32, n_out as u32, n_expert as u32, topk as u32],
            seq![weight.place(), x.place(), topk_idx.place(), out.place()],
            n_out,
            topk,
        )
    }
}

/// The inputs on which every size that the kernel's checks compute exists.
pub open spec fn expert_mat_vec_defined(
    k: ExpertKernel,
    weight: MetalTensor,
    x: MetalTensor,
    topk_idx: MetalTensor,
    out: MetalTensor,
    n_in: usize,
    n_out: usize,
    topk: usize,
) -> bool {
    &&& k.valid()
    &&& x.wf() && topk_idx.wf() && out.wf()
    &&& n_in % k.block == 0 && weight.dtype == k.dtype ==> topk * n_out <= usize::MAX
}

fn encode_expert_mat_vec(
    ctx: &MetalContext,
    enc: &mut KernelEncoder,
    k: ExpertKernel,
    weight: &MetalTensor,
    x: &MetalTensor,
    topk_idx: &MetalTensor,
    out: &MetalTensor,
    n_in: usize,
    n_out: usize,
    n_expert: usize,
    topk: usize,
) -> (r: Result<(), MetalError>)
    requires
        expert_mat_vec_defined(k, *weight, *x, *topk_idx, *out, n_in, n_out, topk),
    ensures
        old(enc).did(
            *final(enc),
            r,
            expert_mat_vec(*ctx, k, *weight, *x, *topk_idx, *out, n_in, n_out, n_expert, topk),
        ),
{
    if n_in % k.block != 0 {
        return Err(k.partial_rows_error(n_in));
    }
    if weight.dtype != k.dtype {
        return Err(
            bad_shape(k.name, "expected {} expert weight, got {}").dtype(k.dtype).dtype(
                weight.dtype,
            ),
        );
    }
    let expected: usize = product(topk, n_out);
    if x.element_count() != n_in || topk_idx.element_count() != topk || out.element_count()
        != expected {
        return Err(
            bad_shape(
                k.name,
                "shape mismatch: x={} idx={} out={} expected x={} idx={} out={}",
            ).num_u64(x.n_elements()).num_u64(topk_idx.n_elements()).num_u64(out.n_elements()).num(
                n_in,
            ).num(topk).num(expected),
        );
    }
    let words: Vec<u32> = vec![n_in as u32, n_out as u32, n_expert as u32, topk as u32];
    let tensors = [weight.binding(), x.binding(), topk_idx.binding(), out.binding()];
    assert(words@ =~= seq![n_in as u32, n_out as u32, n_expert as u32, topk as u32]);
    assert(tensors@ =~= seq![weight.place(), x.place(), topk_idx.place(), out.place()]);
    k.launch_over(ctx, enc, words, &tensors, n_out, topk)
}

/// Matrix-vector product through a Q5_K expert bank.
#[allow(non_snake_case)]
pub fn encode_moe_mat_vec_q5_K_f32(
    ctx: &MetalContext,
    enc: &mut KernelEncoder,
    weight: &MetalTensor,
    x: &MetalTensor,
    topk_idx: &MetalTensor,
    out: &MetalTensor,
    n_in: usize,
    n_out: usize,
    n_expert: usize,
    topk: usize,
) -> (r: Result<(), MetalError>)
    requires
        expert_mat_vec_defined(
            ExpertKernel::of(
                "moe_mat_vec_q5_K",
                "kernel_moe_mat_vec_q5_K_f32",
                GgmlType::Q5_K,
                256,
                2,
                64,
                0,
            ),
            *weight, *x, *topk_idx, *out, n_in, n_out, topk,
        ),
    ensures
        old(enc).did(
            *final(enc),
            r,
            expert_mat_vec(
                *ctx,
                ExpertKernel::of(
                    "moe_mat_vec_q5_K",
                    "kernel_moe_mat_vec_q5_K_f32",
                    GgmlType::Q5_K,
                    256,
                    2,
                    64,
                    0,
                ),
                *weight, *x, *topk_idx, *out, n_in, n_out, n_expert, topk,
            ),
        ),
{
    encode_expert_mat_vec(
        ctx, enc,
        ExpertKernel::of(
            "moe_mat_vec_q5_K",
            "kernel_moe_mat_vec_q5_K_f32",
            GgmlType::Q5_K,
            256,
            2,
            64,
            0,
        ),
        weight, x, topk_idx, out, n_in, n_out, n_expert, topk,
    )
}

/// Matrix-vector product through an IQ3_XXS expert bank.
pub fn encode_moe_mat_vec_iq3_xxs_f32(
    ctx: &MetalContext,
    enc: &mut KernelEncoder,
    weight: &MetalTensor,
    x: &MetalTensor,
    topk_idx: &MetalTensor,
    out: &MetalTensor,
    n_in: usize,
    n_out: usize,
    n_expert: usize,
    topk: usize,
) -> (r: Result<(), MetalError>)
    requires
        expert_mat_vec_defined(
            ExpertKernel::of(
                "moe_mat_vec_iq3_xxs",
                "kernel_moe_mat_vec_iq3_xxs_f32",
                GgmlType::IQ3_XXS,
                256,
                2,
                64,
                0,
            ),
            *weight, *x, *topk_idx, *out, n_in, n_out, topk,
        ),
    ensures
        old(enc).did(
            *final(enc),
            r,
            expert_mat_vec(
                *ctx,
                ExpertKernel::of(
                    "moe_mat_vec_iq3_xxs",
                    "kernel_moe_mat_vec_iq3_xxs_f32",
                    GgmlType::IQ3_XXS,
                    256,
                    2,
                    64,
                    0,
                ),
                *weight, *x, *topk_idx, *out, n_in, n_out, n_expert, topk,
            ),
        ),
{
    encode_expert_mat_vec(
        ctx, enc,
        ExpertKernel::of(
            "moe_mat_vec_iq3_xxs",
            "kernel_moe_mat_vec_iq3_xxs_f32",
            GgmlType::IQ3_XXS,
            256,
            2,
            64,
            0,
        ),
        weight, x, topk_idx, out, n_in, n_out, n_expert, topk,
    )
}

/// Matrix-vector product through an IQ3_S expert bank.
pub fn encode_moe_mat_vec_iq3_s_f32(
    ctx: &MetalContext,
    enc: &mut KernelEncoder,
    weight: &MetalTensor,
    x: &MetalTensor,
    topk_idx: &MetalTensor,
    out: &MetalTensor,
    n_in: usize,
    n_out: usize,
    n_expert: usize,
    topk: usize,
) -> (r: Result<(), MetalError>)
    requires
        expert_mat_vec_defined(
            ExpertKernel::of(
                "moe_mat_vec_iq3_s",
                "kernel_moe_mat_vec_iq3_s_f32",
                GgmlType::IQ3_S,
                256,
                2,
                64,
                0,
            ),
            *weight, *x, *topk_idx, *out, n_in, n_out, topk,
        ),
    ensures
        old(enc).did(
            *final(enc),
            r,
            expert_mat_vec(
                *ctx,
                ExpertKernel::of(
                    "moe_mat_vec_iq3_s",
                    "kernel_moe_mat_vec_iq3_s_f32",
                    GgmlType::IQ3_S,
                    256,
                    2,
                    64,
                    0,
                ),
                *weight, *x, *topk_idx, *out, n_in, n_out, n_expert, topk,
            ),
        ),
{
    encode_expert_mat_vec(
        ctx, enc,
        ExpertKernel::of(
            "moe_mat_vec_iq3_s",
            "kernel_moe_mat_vec_iq3_s_f32",
            GgmlType::IQ3_S,
            256,
            2,
            64,
            0,
        ),
        weight, x, topk_idx, out, n_in, n_out, n_expert, topk,
    )
}

/// Matrix-vector product through an F32 expert bank.
pub fn encode_moe_mat_vec_f32(
    ctx: &MetalContext,
    enc: &mut KernelEncoder,
    weight: &MetalTensor,
    x: &MetalTensor,
    topk_idx: &MetalTensor,
    out: &MetalTensor,
    n_in: usize,
    n_out: usize,
    n_expert: usize,
    topk: usize,
) -> (r: Result<(), MetalError>)
    requires
        expert_mat_vec_defined(
            ExpertKernel::of(
                "moe_mat_vec_f32",
                "kernel_moe_mat_vec_f32_f32",
                GgmlType::F32,
                1,
                4,
                128,
                0,
            ),
            *weight, *x, *topk_idx, *out, n_in, n_out, topk,
        ),
    ensures
        old(enc).did(
            *final(enc),
            r,
            expert_mat_vec(
                *ctx,
                ExpertKernel::of(
                    "moe_mat_vec_f32",
                    "kernel_moe_mat_vec_f32_f32",
                    GgmlType::F32,
                    1,
                    4,
                    128,
                    0,
                ),
                *weight, *x, *topk_idx, *out, n_in, n_out, n_expert, topk,
            ),
        ),
{
    encode_expert_mat_vec(
        ctx, enc,
        ExpertKernel::of(
            "moe_mat_vec_f32",
            "kernel_moe_mat_vec_f32_f32",
            GgmlType::F32,
            1,
            4,
            128,
            0,
        ),
        weight, x, topk_idx, out, n_in, n_out, n_expert, topk,
    )
}

/// Matrix-vector product through a BF16 expert bank.
pub fn encode_moe_mat_vec_bf16_f32(
    ctx: &MetalContext,
    enc: &mut KernelEncoder,
    weight: &MetalTensor,
    x: &MetalTensor,
    topk_idx: &MetalTensor,
    out: &MetalTensor,
    n_in: usize,
    n_out: usize,
    n_expert: usize,
    topk: usize,
) -> (r: Result<(), MetalError>)
    requires
        expert_mat_vec_defined(
            ExpertKernel::of(
                "moe_mat_vec_bf16",
                "kernel_moe_mat_vec_bf16_f32",
                GgmlType::BF16,
                1,
                4,
                128,
                0,
            ),
            *weight, *x, *topk_idx, *out, n_in, n_out, topk,
        ),
    ensures
        old(enc).did(
            *final(enc),
            r,
            expert_mat_vec(
                *ctx,
                ExpertKernel::of(
                    "moe_mat_vec_bf16",
                    "kernel_moe_mat_vec_bf16_f32",
                    GgmlType::BF16,
                    1,
                    4,
                    128,
                    0,
                ),
                *weight, *x, *topk_idx, *out, n_in, n_out, n_expert, topk,
            ),
        ),
{
    encode_expert_mat_vec(
        ctx, enc,
        ExpertKernel::of(
            "moe_mat_vec_bf16",
            "kernel_moe_mat_vec_bf16_f32",
            GgmlType::BF16,
            1,
            4,
            128,
            0,
        ),
        weight, x, topk_idx, out, n_in, n_out, n_expert, topk,
    )
}

/// The down projection of every slot, summed per token with the routing
/// weights. With `exact` rows have exactly one length, otherwise whole blocks.
pub open spec fn expert_weighted_sum(
    ctx: MetalContext,
    k: ExpertKernel,
    exact: bool,
    weight: MetalTensor,
    inner: MetalTensor,
    topk_idx: MetalTensor,
    topk_w: MetalTensor,
    out: MetalTensor,
    n_in: usize,
    n_out: usize,
    n_expert: usize,
    topk: usize,
    n_tokens: usize,
) -> Outcome {
    let n_slots = n_tokens * topk;
    if exact && n_in != k.block {
        Outcome::Refused(
            Fault::bad_shape(k.name@, "expected n_in={}, got {}"@).num(k.block as int).num(
                n_in as int,
            ),
        )
    } else if n_in % k.block != 0 {
        Outcome::Refused(k.partial_rows(n_in))
    } else if weight.dtype != k.dtype {
        Outcome::Refused(
            Fault::bad_shape(k.name@, "expected {} expert down, got {}"@).dtype(k.dtype).dtype(
                weight.dtype,
            ),
        )
    } else if inner.count() != n_slots * n_in || topk_idx.count() != n_slots || topk_w.count()
        != n_slots || out.count() != n_tokens * n_out {
        Outcome::Refused(
            Fault::bad_shape(
                k.name@,
                "shape mismatch: inner={} idx={} w={} out={} expected inner={} idx={} w={} out={}"@,
            ).num(inner.elements() as int).num(topk_idx.elements() as int).num(
                topk_w.elements() as int,
            ).num(out.elements() as int).num(n_slots * n_in).num(n_slots).num(n_slots).num(
                n_tokens * n_out,
            ),
        )
    } else {
        k.over(
            ctx,
            seq![n_in as u32, n_out as u32, n_expert as u32, topk as u32],
            seq![weight.place(), inner.place(), topk_idx.place(), topk_w.place(), out.place()],
            n_out,
            n_tokens,
        )
    }
}

/// The inputs on which every size that the kernel's checks compute exists.
pub open spec fn expert_weighted_sum_defined(
    k: ExpertKernel,
    exact: bool,
    weight: MetalTensor,
    inner: MetalTensor,
    topk_idx: MetalTensor,
    topk_w: MetalTensor,
    out: MetalTensor,
    n_in: usize,
    n_out: usize,
    topk: usize,
    n_tokens: usize,
) -> bool {
    &&& k.valid()
    &&& inner.wf() && topk_idx.wf() && topk_w.wf() && out.wf()
    &&& (exact ==> n_in == k.block) && n_in % k.block == 0 && weight.dtype == k.dtype ==> {
        &&& n_tokens * topk <= usize::MAX
        &&& n_tokens * topk * n_in <= usize::MAX
        &&& n_tokens * n_out <= usize::MAX
    }
}

fn encode_expert_weighted_sum(
    ctx: &MetalContext,
    enc: &mut KernelEncoder,
    k: ExpertKernel,
    exact: bool,
    weight: &MetalTensor,
    inner: &MetalTensor,
    topk_idx: &MetalTensor,
    topk_w: &MetalTensor,
    out: &MetalTensor,
    n_in: usize,
    n_out: usize,
    n_expert: usize,
    topk: usize,
    n_tokens: usize,
) -> (r: Result<(), MetalError>)
    requires
        expert_weighted_sum_defined(
            k,
            exact,
            *weight,
            *inner,
            *topk_idx,
            *topk_w,
            *out,
            n_in,
            n_out,
            topk,
            n_tokens,
        ),
    ensures
        old(enc).did(
            *final(enc),
            r,
            expert_weighted_sum(
                *ctx,
                k,
                exact,
                *weight,
                *inner,
                *topk_idx,
                *topk_w,
                *out,
                n_in,
                n_out,
                n_expert,
                topk,
                n_tokens,
            ),
        ),
{
    if exact && n_in != k.block {
        return Err(bad_shape(k.name, "expected n_in={}, got {}").num(k.block).num(n_in));
    }
    if n_in % k.block != 0 {
        return Err(k.partial_rows_error(n_in));
    }
    if weight.dtype != k.dtype {
        return Err(
            bad_shape(k.name, "expected {} expert down, got {}").dtype(k.dtype).dtype(weight.dtype),
        );
    }
    let n_slots: usize = product(n_tokens, topk);
    let expected_inner: usize = product(n_slots, n_in);
    let expected_out: usize = product(n_tokens, n_out);
    if inner.element_count() != expected_inner || topk_idx.element_count() != n_slots
        || topk_w.element_count() != n_slots || out.element_count() != expected_out {
        return Err(
            bad_shape(
                k.name,
                "shape mismatch: inner={} idx={} w={} out={} expected inner={} idx={} w={} out={}",
            ).num_u64(inner.n_elements()).num_u64(topk_idx.n_elements()).num_u64(
                topk_w.n_elements(),
            ).num_u64(out.n_elements()).num(expected_inner).num(n_slots).num(n_slots).num(
                expected_out,
            ),
        );
    }
    let words: Vec<u32> = vec![n_in as u32, n_out as u32, n_expert as u32, topk as u32];
    let tensors = [
        weight.binding(),
        inner.binding(),
        topk_idx.binding(),
        topk_w.binding(),
        out.binding(),
    ];
    assert(words@ =~= seq![n_in as u32, n_out as u32, n_expert as u32, topk as u32]);
    assert(tensors@ =~= seq![
        weight.place(),
        inner.place(),
        topk_idx.place(),
        topk_w.place(),
        out.place(),
    ]);
    k.launch_over(ctx, enc, words, &tensors, n_out, n_tokens)
}

/// Down projection and weighted sum through a Q5_K bank, for several tokens.
#[allow(non_snake_case)]
pub fn encode_moe_down_weighted_sum_q5_K_f32_packed_slots(
    ctx: &MetalContext,
    enc: &mut KernelEncoder,
    weight: &MetalTensor,
    inner: &MetalTensor,
    topk_idx: &MetalTensor,
    topk_w: &MetalTensor,
    out: &MetalTensor,
    n_in: usize,
    n_out: usize,
    n_expert: usize,
    topk: usize,
    n_tokens: usize,
) -> (r: Result<(), MetalError>)
    requires
        expert_weighted_sum_defined(
            ExpertKernel::of(
                "moe_down_weighted_sum_q5_K_packed_slots",
                "kernel_moe_down_weighted_sum_q5_K_f32_packed_slots",
                GgmlType::Q5_K,
                256,
                2,
                64,
                0,
            ),
            false,
            *weight, *inner, *topk_idx, *topk_w, *out, n_in, n_out, topk, n_tokens,
        ),
    ensures
        old(enc).did(
            *final(enc),
            r,
            expert_weighted_sum(
                *ctx,
                ExpertKernel::of(
                    "moe_down_weighted_sum_q5_K_packed_slots",
                    "kernel_moe_down_weighted_sum_q5_K_f32_packed_slots",
                    GgmlType::Q5_K,
                    256,
                    2,
                    64,
                    0,
                ),
                false,
                *weight, *inner, *topk_idx, *topk_w, *out, n_in, n_out, n_expert, topk,
                n_tokens,
            ),
        ),
{
    encode_expert_weighted_sum(
        ctx, enc,
        ExpertKernel::of(
            "moe_down_weighted_sum_q5_K_packed_slots",
            "kernel_moe_down_weighted_sum_q5_K_f32_packed_slots",
            GgmlType::Q5_K,
            256,
            2,
            64,
            0,
        ),
        false,
        weight, inner, topk_idx, topk_w, out, n_in, n_out, n_expert, topk, n_tokens,
    )
}

/// Down projection and weighted sum through a Q5_K bank whose rows have 512
/// elements.
#[allow(non_snake_case)]
pub fn encode_moe_down_weighted_sum_q5_K_f32_packed_slots_k512_r2(
    ctx: &MetalContext,
    enc: &mut KernelEncoder,
    weight: &MetalTensor,
    inner: &MetalTensor,
    topk_idx: &MetalTensor,
    topk_w: &MetalTensor,
    out: &MetalTensor,
    n_in: usize,
    n_out: usize,
    n_expert: usize,
    topk: usize,
    n_tokens: usize,
) -> (r: Result<(), MetalError>)
    requires
        expert_weighted_sum_defined(
            ExpertKernel::of(
                "moe_down_weighted_sum_q5_K_k512_r2",
                "kernel_moe_down_weighted_sum_q5_K_f32_packed_slots_k512_r2",
                GgmlType::Q5_K,
                512,
                4,
                64,
                0,
            ),
            true,
            *weight, *inner, *topk_idx, *topk_w, *out, n_in, n_out, topk, n_tokens,
        ),
    ensures
        old(enc).did(
            *final(enc),
            r,
            expert_weighted_sum(
                *ctx,
                ExpertKernel::of(
                    "moe_down_weighted_sum_q5_K_k512_r2",
                    "kernel_moe_down_weighted_sum_q5_K_f32_packed_slots_k512_r2",
                    GgmlType::Q5_K,
                    512,
                    4,
                    64,
                    0,
                ),
                true,
                *weight, *inner, *topk_idx, *topk_w, *out, n_in, n_out, n_expert, topk,
                n_tokens,
            ),
        ),
{
    encode_expert_weighted_sum(
        ctx, enc,
        ExpertKernel::of(
            "moe_down_weighted_sum_q5_K_k512_r2",
            "kernel_moe_down_weighted_sum_q5_K_f32_packed_slots_k512_r2",
            GgmlType::Q5_K,
            512,
            4,
            64,
            0,
        ),
        true,
        weight, inner, topk_idx, topk_w, out, n_in, n_out, n_expert, topk, n_tokens,
    )
}

/// Down projection and weighted sum of one token through a Q6_K bank.
#[allow(non_snake_case)]
pub fn encode_moe_down_weighted_sum_q6_K_f32(
    ctx: &MetalContext,
    enc: &mut KernelEncoder,
    weight: &MetalTensor,
    inner: &MetalTensor,
    topk_idx: &MetalTensor,
    topk_w: &MetalTensor,
    out: &MetalTensor,
    n_in: usize,
    n_out: usize,
    n_expert: usize,
    topk: usize,
) -> (r: Result<(), MetalError>)
    requires
        expert_weighted_sum_defined(
            ExpertKernel::of(
                "moe_down_weighted_sum_q6_K",
                "kernel_moe_down_weighted_sum_q6_K_f32",
                GgmlType::Q6_K,
                256,
                4,
                64,
                0,
            ),
            false,
            *weight, *inner, *topk_idx, *topk_w, *out, n_in, n_out, topk, 1,
        ),
    ensures
        old(enc).did(
            *final(enc),
            r,
            expert_weighted_sum(
                *ctx,
                ExpertKernel::of(
                    "moe_down_weighted_sum_q6_K",
                    "kernel_moe_down_weighted_sum_q6_K_f32",
                    GgmlType::Q6_K,
                    256,
                    4,
                    64,
                    0,
                ),
                false,
                *weight, *inner, *topk_idx, *topk_w, *out, n_in, n_out, n_expert, topk, 1,
            ),
        ),
{
    encode_expert_weighted_sum(
        ctx, enc,
        ExpertKernel::of(
            "moe_down_weighted_sum_q6_K",
            "kernel_moe_down_weighted_sum_q6_K_f32",
            GgmlType::Q6_K,
            256,
            4,
            64,
            0,
        ),
        false,
        weight, inner, topk_idx, topk_w, out, n_in, n_out, n_expert, topk, 1,
    )
}

/// Down projection and weighted sum of one token through a Q8_0 bank.
pub fn encode_moe_down_weighted_sum_q8_0_f32(
    ctx: &MetalContext,
    enc: &mut KernelEncoder,
    weight: &MetalTensor,
    inner: &MetalTensor,
    topk_idx: &MetalTensor,
    topk_w: &MetalTensor,
    out: &MetalTensor,
    n_in: usize,
    n_out: usize,
    n_expert: usize,
    topk: usize,
) -> (r: Result<(), MetalError>)
    requires
        expert_weighted_sum_defined(
            ExpertKernel::of(
                "moe_down_weighted_sum_q8_0",
                "kernel_moe_down_weighted_sum_q8_0_f32",
                GgmlType::Q8_0,
                32,
                2,
                128,
                256,
            ),
            false,
            *weight, *inner, *topk_idx, *topk_w, *out, n_in, n_out, topk, 1,
        ),
    ensures
        old(enc).did(
            *final(enc),
            r,
            expert_weighted_sum(
                *ctx,
                ExpertKernel::of(
                    "moe_down_weighted_sum_q8_0",
                    "kernel_moe_down_weighted_sum_q8_0_f32",
                    GgmlType::Q8_0,
                    32,
                    2,
                    128,
                    256,
                ),
                false,
                *weight, *inner, *topk_idx, *topk_w, *out, n_in, n_out, n_expert, topk, 1,
            ),
        ),
{
    encode_expert_weighted_sum(
        ctx, enc,
        ExpertKernel::of(
            "moe_down_weighted_sum_q8_0",
            "kernel_moe_down_weighted_sum_q8_0_f32",
            GgmlType::Q8_0,
            32,
            2,
            128,
            256,
        ),
        false,
        weight, inner, topk_idx, topk_w, out, n_in, n_out, n_expert, topk, 1,
    )
}

} // verus!
