//! Mixture-of-experts kernels over slots grouped by expert: `counts` holds how
//! many slots each expert has and `ids` lists them, `n_tokens` places per expert.

use vstd::prelude::*;

use crate::context::MetalContext;
use crate::dtype::GgmlType;
use crate::encoder::{KernelEncoder, Launch, MTLSize, Outcome};
use crate::error::{bad_shape, Fault, MetalError};
use crate::numeric;
use crate::numeric::{div_ceil, product};
use crate::tensor::{Binding, MetalTensor};

verus! {

/// The largest slot count that a kernel's signed arguments hold.
pub const MAX_COUNT: u32 = 0x7fff_ffff;

/// How one kernel over grouped slots runs.
#[derive(Clone, Copy)]
pub struct GroupedKernel {
    pub name: &'static str,
    pub pipeline: &'static str,
    /// Storage format of the expert bank.
    pub dtype: GgmlType,
    /// Rows of the bank are whole blocks of this many elements.
    pub block: usize,
    /// The row stride grows by this much with each block.
    pub stride: usize,
    /// Slots that one threadgroup computes.
    pub tile: usize,
    /// Bytes of scratch memory.
    pub scratch: usize,
}

impl GroupedKernel {
    #[verifier::allow_in_spec]
    pub fn of(
        name: &'static str,
        pipeline: &'static str,
        dtype: GgmlType,
        block: usize,
        stride: usize,
        tile: usize,
        scratch: usize,
    ) -> GroupedKernel
        returns
            (GroupedKernel { name, pipeline, dtype, block, stride, tile, scratch }),
    {
        GroupedKernel { name, pipeline, dtype, block, stride, tile, scratch }
    }

    pub open spec fn valid(self) -> bool {
        self.block > 0 && self.tile > 0
    }

    /// The stride of a row of `n` elements.
    pub open spec fn row_stride(self, n: usize) -> int {
        (n / self.block) * self.stride
    }

    /// The launch over `n_out` rows of every expert, `tile` slots at a time.
    pub open spec fn over(
        self,
        ctx: MetalContext,
        words: Seq<u32>,
        tensors: Seq<Binding>,
        n_out: usize,
        n_expert: usize,
        n_tokens: usize,
    ) -> Outcome {
        Outcome::launch(
            ctx,
            Launch {
                pipeline: self.pipeline@,
                words,
                tensors,
                scratch: seq![self.scratch],
                threadgroups: MTLSize {
                    width: numeric::div_up(n_tokens, self.tile),
                    height: numeric::div_up(n_out, 64),
                    depth: n_expert,
                },
                threads: MTLSize { width: 128, height: 1, depth: 1 },
            },
        )
    }

    fn launch_over(
        &self,
        ctx: &MetalContext,
        enc: &mut KernelEncoder,
        words: Vec<u32>,
        tensors: &[Binding],
        n_out: usize,
        n_expert: usize,
        n_tokens: usize,
    ) -> (r: Result<(), MetalError>)
        requires
            self.valid(),
        ensures
            old(enc).did(
                *final(enc),
                r,
                self.over(*ctx, words@, tensors@, n_out, n_expert, n_tokens),
            ),
    {
        let scratch = [self.scratch];
        assert(scratch@ =~= seq![self.scratch]);
        enc.launch(
            ctx,
            self.pipeline,
            words,
            tensors,
            &scratch,
            MTLSize {
                width: div_ceil(n_tokens, self.tile),
                height: div_ceil(n_out, 64),
                depth: n_expert,
            },
            MTLSize { width: 128, height: 1, depth: 1 },
        )
    }
}

/// The element counts of a kernel over grouped slots: `x` has a row per token,
/// `out` a row per slot.
pub open spec fn slot_counts_match(
    x: MetalTensor,
    counts: MetalTensor,
    ids: MetalTensor,
    out: MetalTensor,
    n_hidden: usize,
    n_ffn: usize,
    n_expert: usize,
    topk: usize,
    n_tokens: usize,
) -> bool {
    &&& x.count() == n_tokens * n_hidden
    &&& counts.count() == n_expert
    &&& ids.count() == n_expert * n_tokens
    &&& out.count() == n_tokens * topk * n_ffn
}

/// The message about element counts that do not match.
pub open spec fn slot_count_fault(
    name: Seq<char>,
    template: Seq<char>,
    x: MetalTensor,
    counts: MetalTensor,
    ids: MetalTensor,
    out: MetalTensor,
    n_hidden: usize,
    n_ffn: usize,
    n_expert: usize,
    topk: usize,
    n_tokens: usize,
) -> Fault {
    Fault::bad_shape(name, template).num(x.elements() as int).num(counts.elements() as int).num(
        ids.elements() as int,
    ).num(out.elements() as int).num(n_tokens * n_hidden).num(n_expert as int).num(
        n_expert * n_tokens,
    ).num(n_tokens * topk * n_ffn)
}

/// The sizes that the element counts are held against exist.
pub open spec fn slot_sizes_exist(
    n_hidden: usize,
    n_ffn: usize,
    n_expert: usize,
    topk: usize,
    n_tokens: usize,
) -> bool {
    &&& n_tokens * n_hidden <= usize::MAX
    &&& n_expert * n_tokens <= usize::MAX
    &&& n_tokens * topk <= usize::MAX
    &&& n_tokens * topk * n_ffn <= usize::MAX
}

/// Hold the element counts against the sizes.
pub fn check_slot_counts(
    name: &'static str,
    template: &'static str,
    x: &MetalTensor,
    counts: &MetalTensor,
    ids: &MetalTensor,
    out: &MetalTensor,
    n_hidden: usize,
    n_ffn: usize,
    n_expert: usize,
    topk: usize,
    n_tokens: usize,
) -> (r: Result<(), MetalError>)
    requires
        x.wf() && counts.wf() && ids.wf() && out.wf(),
        slot_sizes_exist(n_hidden, n_ffn, n_expert, topk, n_tokens),
    ensures
        r is Ok <==> slot_counts_match(
            *x, *counts, *ids, *out, n_hidden, n_ffn, n_expert, topk, n_tokens,
        ),
        r matches Err(e) ==> e@ == slot_count_fault(
            name@, template@, *x, *counts, *ids, *out, n_hidden, n_ffn, n_expert, topk, n_tokens,
        ),
{
    let expected_x: usize = product(n_tokens, n_hidden);
    let expected_ids: usize = product(n_expert, n_tokens);
    let n_slots: usize = product(n_tokens, topk);
    let expected_out: usize = product(n_slots, n_ffn);
    if x.element_count() != expected_x || counts.element_count() != n_expert
        || ids.element_count() != expected_ids || out.element_count() != expected_out {
        return Err(
            bad_shape(name, template).num_u64(x.n_elements()).num_u64(counts.n_elements()).num_u64(
                ids.n_elements(),
            ).num_u64(out.n_elements()).num(expected_x).num(n_expert).num(expected_ids).num(
                expected_out,
            ),
        );
    }
    Ok(())
}

/// The argument words of a kernel over grouped slots.
pub open spec fn slot_words(
    n_hidden: usize,
    n_ffn: usize,
    n_expert: usize,
    topk: usize,
    n_tokens: usize,
    stride: u32,
    min_count: u32,
    max_count: u32,
) -> Seq<u32> {
    seq![
        n_ffn as u32,
        n_hidden as u32,
        n_expert as u32,
        topk as u32,
        n_tokens as u32,
        stride,
        n_hidden as u32,
        min_count,
        max_count,
    ]
}

pub fn encode_slot_words(
    n_hidden: usize,
    n_ffn: usize,
    n_expert: usize,
    topk: usize,
    n_tokens: usize,
    stride: u32,
    min_count: u32,
    max_count: u32,
) -> (r: Vec<u32>)
    ensures
        r@ == slot_words(
            n_hidden, n_ffn, n_expert, topk, n_tokens, stride, min_count, max_count,
        ),
{
    let words: Vec<u32> = vec![
        n_ffn as u32,
        n_hidden as u32,
        n_expert as u32,
        topk as u32,
        n_tokens as u32,
        stride,
        n_hidden as u32,
        min_count,
        max_count,
    ];
    assert(words@ =~= slot_words(
        n_hidden, n_ffn, n_expert, topk, n_tokens, stride, min_count, max_count,
    ));
    words
}

/// SwiGLU of the experts whose slot count lies in a range, through a gate and an up
/// bank. With `ordered` the range itself is held to be one.
pub open spec fn grouped_swiglu(
    ctx: MetalContext,
    k: GroupedKernel,
    ordered: bool,
    w_gate: MetalTensor,
    w_up: MetalTensor,
    x_pack: MetalTensor,
    counts: MetalTensor,
    ids: MetalTensor,
    inner: MetalTensor,
    n_hidden: usize,
    n_ffn: usize,
    n_expert: usize,
    topk: usize,
    n_tokens: usize,
    min_count: u32,
    max_count: u32,
) -> Outcome {
    if ordered && (min_count > max_count || max_count > MAX_COUNT) {
        Outcome::Refused(
            Fault::bad_shape(
                k.name@,
                "count range [{}, {}] must be ordered and fit signed kernel arguments"@,
            ).num(min_count as int).num(max_count as int),
        )
    } else if n_hidden % k.block != 0 {
        Outcome::Refused(
            Fault::bad_shape(k.name@, "n_hidden={} not divisible by {}"@).num(n_hidden as int).num(
                k.block as int,
            ),
        )
    } else if w_gate.dtype != k.dtype || w_up.dtype != k.dtype {
        Outcome::Refused(
            Fault::bad_shape(k.name@, "expected {} gate/up expert banks, got {}/{}"@).dtype(
                k.dtype,
            ).dtype(w_gate.dtype).dtype(w_up.dtype),
        )
    } else if !slot_counts_match(
        x_pack, counts, ids, inner, n_hidden, n_ffn, n_expert, topk, n_tokens,
    ) {
        Outcome::Refused(
            slot_count_fault(
                k.name@,
                "shape mismatch x={} counts={} ids={} inner={} expected x={} counts={} ids={} inner={}"@,
                x_pack, counts, ids, inner, n_hidden, n_ffn, n_expert, topk, n_tokens,
            ),
        )
    } else {
        k.over(
            ctx,
            slot_words(
                n_hidden,
                n_ffn,
                n_expert,
                topk,
                n_tokens,
                k.row_stride(n_hidden) as u32,
                min_count,
                max_count,
            ),
            seq![
                w_gate.place(),
                w_up.place(),
                x_pack.place(),
                counts.place(),
                ids.place(),
                inner.place(),
            ],
            n_ffn,
            n_expert,
            n_tokens,
        )
    }
}

/// The inputs on which every size that the checks compute exists.
pub open spec fn grouped_swiglu_defined(
    k: GroupedKernel,
    ordered: bool,
    w_gate: MetalTensor,
    w_up: MetalTensor,
    x_pack: MetalTensor,
    counts: MetalTensor,
    ids: MetalTensor,
    inner: MetalTensor,
    n_hidden: usize,
    n_ffn: usize,
    n_expert: usize,
    topk: usize,
    n_tokens: usize,
    min_count: u32,
    max_count: u32,
) -> bool {
    &&& k.valid()
    &&& x_pack.wf() && counts.wf() && ids.wf() && inner.wf()
    &&& !(ordered && (min_count > max_count || max_count > MAX_COUNT)) && n_hidden % k.block == 0
        && w_gate.dtype == k.dtype && w_up.dtype == k.dtype ==> {
        &&& slot_sizes_exist(n_hidden, n_ffn, n_expert, topk, n_tokens)
        &&& slot_counts_match(
            x_pack, counts, ids, inner, n_hidden, n_ffn, n_expert, topk, n_tokens,
        ) ==> k.row_stride(n_hidden) <= usize::MAX
    }
}

fn encode_grouped_swiglu(
    ctx: &MetalContext,
    enc: &mut KernelEncoder,
    k: GroupedKernel,
    ordered: bool,
    w_gate: &MetalTensor,
    w_up: &MetalTensor,
    x_pack: &MetalTensor,
    counts: &MetalTensor,
    ids: &MetalTensor,
    inner: &MetalTensor,
    n_hidden: usize,
    n_ffn: usize,
    n_expert: usize,
    topk: usize,
    n_tokens: usize,
    min_count: u32,
    max_count: u32,
) -> (r: Result<(), MetalError>)
    requires
        grouped_swiglu_defined(
            k, ordered,
            *w_gate, *w_up, *x_pack, *counts, *ids, *inner, n_hidden, n_ffn, n_expert, topk,
            n_tokens, min_count, max_count,
        ),
    ensures
        old(enc).did(
            *final(enc),
            r,
            grouped_swiglu(
                *ctx, k, ordered,
                *w_gate, *w_up, *x_pack, *counts, *ids, *inner, n_hidden, n_ffn, n_expert, topk,
                n_tokens, min_count, max_count,
            ),
        ),
{
    if ordered && (min_count > max_count || max_count > MAX_COUNT) {
        return Err(
            bad_shape(
                k.name,
                "count range [{}, {}] must be ordered and fit signed kernel arguments",
            ).num_u64(min_count as u64).num_u64(max_count as u64),
        );
    }
    if n_hidden % k.block != 0 {
        return Err(bad_shape(k.name, "n_hidden={} not divisible by {}").num(n_hidden).num(k.block));
    }
    if w_gate.dtype != k.dtype || w_up.dtype != k.dtype {
        return Err(
            bad_shape(k.name, "expected {} gate/up expert banks, got {}/{}").dtype(k.dtype).dtype(
                w_gate.dtype,
            ).dtype(w_up.dtype),
        );
    }
    match check_slot_counts(
        k.name,
        "shape mismatch x={} counts={} ids={} inner={} expected x={} counts={} ids={} inner={}",
        x_pack, counts, ids, inner, n_hidden, n_ffn, n_expert, topk, n_tokens,
    ) {
        Ok(()) => {},
        Err(e) => {
            return Err(e);
        },
    }
    let stride: usize = product(n_hidden / k.block, k.stride);
    let words = encode_slot_words(
        n_hidden, n_ffn, n_expert, topk, n_tokens, stride as u32, min_count, max_count,
    );
    let tensors = [
        w_gate.binding(),
        w_up.binding(),
        x_pack.binding(),
        counts.binding(),
        ids.binding(),
        inner.binding(),
    ];
    assert(tensors@ =~= seq![
        w_gate.place(),
        w_up.place(),
        x_pack.place(),
        counts.place(),
        ids.place(),
        inner.place(),
    ]);
    k.launch_over(ctx, enc, words, &tensors, n_ffn, n_expert, n_tokens)
}

/// SwiGLU through Q4_K banks for every expert, 16 slots at a time.
#[allow(non_snake_case)]
pub fn encode_moe_swiglu_q4_K_f32_grouped_slots_n16(
    ctx: &MetalContext,
    enc: &mut KernelEncoder,
    w_gate: &MetalTensor,
    w_up: &MetalTensor,
    x_pack: &MetalTensor,
    counts: &MetalTensor,
    ids: &MetalTensor,
    inner: &MetalTensor,
    n_hidden: usize,
    n_ffn: usize,
    n_expert: usize,
    topk: usize,
    n_tokens: usize,
) -> (r: Result<(), MetalError>)
    requires
        grouped_swiglu_defined(
            GroupedKernel::of(
                "moe_swiglu_q4_K_grouped_slots_n16",
                "kernel_moe_swiglu_q4_K_f32_grouped_slots_n16",
                GgmlType::Q4_K,
                256,
                144,
                16,
                16384,
            ),
            false,
            *w_gate, *w_up, *x_pack, *counts, *ids, *inner, n_hidden, n_ffn, n_expert, topk,
            n_tokens, 0, MAX_COUNT,
        ),
    ensures
        old(enc).did(
            *final(enc),
            r,
            grouped_swiglu(
                *ctx,
                GroupedKernel::of(
                    "moe_swiglu_q4_K_grouped_slots_n16",
                    "kernel_moe_swiglu_q4_K_f32_grouped_slots_n16",
                    GgmlType::Q4_K,
                    256,
                    144,
                    16,
                    16384,
                ),
                false,
                *w_gate, *w_up, *x_pack, *counts, *ids, *inner, n_hidden, n_ffn, n_expert, topk,
                n_tokens, 0, MAX_COUNT,
            ),
        ),
{
    encode_grouped_swiglu(
        ctx, enc,
        GroupedKernel::of(
            "moe_swiglu_q4_K_grouped_slots_n16",
            "kernel_moe_swiglu_q4_K_f32_grouped_slots_n16",
            GgmlType::Q4_K,
            256,
            144,
            16,
            16384,
        ),
        false,
        w_gate, w_up, x_pack, counts, ids, inner, n_hidden, n_ffn, n_expert, topk, n_tokens, 0,
        MAX_COUNT,
    )
}

/// SwiGLU through Q4_K banks for the experts with `min_count` to `max_count`
/// slots, 16 at a time.
#[allow(non_snake_case)]
pub fn encode_moe_swiglu_q4_K_f32_grouped_slots_n16_range(
    ctx: &MetalContext,
    enc: &mut KernelEncoder,
    w_gate: &MetalTensor,
    w_up: &MetalTensor,
    x_pack: &MetalTensor,
    counts: &MetalTensor,
    ids: &MetalTensor,
    inner: &MetalTensor,
    n_hidden: usize,
    n_ffn: usize,
    n_expert: usize,
    topk: usize,
    n_tokens: usize,
    min_count: u32,
    max_count: u32,
) -> (r: Result<(), MetalError>)
    requires
        grouped_swiglu_defined(
            GroupedKernel::of(
                "moe_swiglu_q4_K_grouped_slots_n16",
                "kernel_moe_swiglu_q4_K_f32_grouped_slots_n16",
                GgmlType::Q4_K,
                256,
                144,
                16,
                16384,
            ),
            false,
            *w_gate, *w_up, *x_pack, *counts, *ids, *inner, n_hidden, n_ffn, n_expert, topk,
            n_tokens, min_count, max_count,
        ),
    ensures
        old(enc).did(
            *final(enc),
            r,
            grouped_swiglu(
                *ctx,
                GroupedKernel::of(
                    "moe_swiglu_q4_K_grouped_slots_n16",
                    "kernel_moe_swiglu_q4_K_f32_grouped_slots_n16",
                    GgmlType::Q4_K,
                    256,
                    144,
                    16,
                    16384,
                ),
                false,
                *w_gate, *w_up, *x_pack, *counts, *ids, *inner, n_hidden, n_ffn, n_expert, topk,
                n_tokens, min_count, max_count,
            ),
        ),
{
    encode_grouped_swiglu(
        ctx, enc,
        GroupedKernel::of(
            "moe_swiglu_q4_K_grouped_slots_n16",
            "kernel_moe_swiglu_q4_K_f32_grouped_slots_n16",
            GgmlType::Q4_K,
            256,
            144,
            16,
            16384,
        ),
        false,
        w_gate, w_up, x_pack, counts, ids, inner, n_hidden, n_ffn, n_expert, topk, n_tokens,
        min_count, max_count,
    )
}

/// SwiGLU through IQ3_XXS banks for every expert, 16 slots at a time.
pub fn encode_moe_swiglu_iq3_xxs_f32_grouped_slots_n16(
    ctx: &MetalContext,
    enc: &mut KernelEncoder,
    w_gate: &MetalTensor,
    w_up: &MetalTensor,
    x_pack: &MetalTensor,
    counts: &MetalTensor,
    ids: &MetalTensor,
    inner: &MetalTensor,
    n_hidden: usize,
    n_ffn: usize,
    n_expert: usize,
    topk: usize,
    n_tokens: usize,
) -> (r: Result<(), MetalError>)
    requires
        grouped_swiglu_defined(
            GroupedKernel::of(
                "moe_swiglu_iq3_xxs_grouped_slots_n16",
                "kernel_moe_swiglu_iq3_xxs_f32_grouped_slots_n16",
                GgmlType::IQ3_XXS,
                256,
                98,
                16,
                16384,
            ),
            true,
            *w_gate, *w_up, *x_pack, *counts, *ids, *inner, n_hidden, n_ffn, n_expert, topk,
            n_tokens, 0, MAX_COUNT,
        ),
    ensures
        old(enc).did(
            *final(enc),
            r,
            grouped_swiglu(
                *ctx,
                GroupedKernel::of(
                    "moe_swiglu_iq3_xxs_grouped_slots_n16",
                    "kernel_moe_swiglu_iq3_xxs_f32_grouped_slots_n16",
                    GgmlType::IQ3_XXS,
                    256,
                    98,
                    16,
                    16384,
                ),
                true,
                *w_gate, *w_up, *x_pack, *counts, *ids, *inner, n_hidden, n_ffn, n_expert, topk,
                n_tokens, 0, MAX_COUNT,
            ),
        ),
{
    encode_grouped_swiglu(
        ctx, enc,
        GroupedKernel::of(
            "moe_swiglu_iq3_xxs_grouped_slots_n16",
            "kernel_moe_swiglu_iq3_xxs_f32_grouped_slots_n16",
            GgmlType::IQ3_XXS,
            256,
            98,
            16,
            16384,
        ),
        true,
        w_gate, w_up, x_pack, counts, ids, inner, n_hidden, n_ffn, n_expert, topk, n_tokens, 0,
        MAX_COUNT,
    )
}

/// SwiGLU through IQ3_XXS banks for the experts with `min_count` to `max_count`
/// slots, 16 at a time.
pub fn encode_moe_swiglu_iq3_xxs_f32_grouped_slots_n16_range(
    ctx: &MetalContext,
    enc: &mut KernelEncoder,
    w_gate: &MetalTensor,
    w_up: &MetalTensor,
    x_pack: &MetalTensor,
    counts: &MetalTensor,
    ids: &MetalTensor,
    inner: &MetalTensor,
    n_hidden: usize,
    n_ffn: usize,
    n_expert: usize,
    topk: usize,
    n_tokens: usize,
    min_count: u32,
    max_count: u32,
) -> (r: Result<(), MetalError>)
    requires
        grouped_swiglu_defined(
            GroupedKernel::of(
                "moe_swiglu_iq3_xxs_grouped_slots_n16",
                "kernel_moe_swiglu_iq3_xxs_f32_grouped_slots_n16",
                GgmlType::IQ3_XXS,
                256,
                98,
                16,
                16384,
            ),
            true,
            *w_gate, *w_up, *x_pack, *counts, *ids, *inner, n_hidden, n_ffn, n_expert, topk,
            n_tokens, min_count, max_count,
        ),
    ensures
        old(enc).did(
            *final(enc),
            r,
            grouped_swiglu(
                *ctx,
                GroupedKernel::of(
                    "moe_swiglu_iq3_xxs_grouped_slots_n16",
                    "kernel_moe_swiglu_iq3_xxs_f32_grouped_slots_n16",
                    GgmlType::IQ3_XXS,
                    256,
                    98,
                    16,
                    16384,
                ),
                true,
                *w_gate, *w_up, *x_pack, *counts, *ids, *inner, n_hidden, n_ffn, n_expert, topk,
                n_tokens, min_count, max_count,
            ),
        ),
{
    encode_grouped_swiglu(
        ctx, enc,
        GroupedKernel::of(
            "moe_swiglu_iq3_xxs_grouped_slots_n16",
            "kernel_moe_swiglu_iq3_xxs_f32_grouped_slots_n16",
            GgmlType::IQ3_XXS,
            256,
            98,
            16,
            16384,
        ),
        true,
        w_gate, w_up, x_pack, counts, ids, inner, n_hidden, n_ffn, n_expert, topk, n_tokens,
        min_count, max_count,
    )
}

/// SwiGLU through IQ3_S banks for every expert, 16 slots at a time.
pub fn encode_moe_swiglu_iq3_s_f32_grouped_slots_n16(
    ctx: &MetalContext,
    enc: &mut KernelEncoder,
    w_gate: &MetalTensor,
    w_up: &MetalTensor,
    x_pack: &MetalTensor,
    counts: &MetalTensor,
    ids: &MetalTensor,
    inner: &MetalTensor,
    n_hidden: usize,
    n_ffn: usize,
    n_expert: usize,
    topk: usize,
    n_tokens: usize,
) -> (r: Result<(), MetalError>)
    requires
        grouped_swiglu_defined(
            GroupedKernel::of(
                "moe_swiglu_iq3_s_grouped_slots_n16",
                "kernel_moe_swiglu_iq3_s_f32_grouped_slots_n16",
                GgmlType::IQ3_S,
                256,
                110,
                16,
                16384,
            ),
            false,
            *w_gate, *w_up, *x_pack, *counts, *ids, *inner, n_hidden, n_ffn, n_expert, topk,
            n_tokens, 0, MAX_COUNT,
        ),
    ensures
        old(enc).did(
            *final(enc),
            r,
            grouped_swiglu(
                *ctx,
                GroupedKernel::of(
                    "moe_swiglu_iq3_s_grouped_slots_n16",
                    "kernel_moe_swiglu_iq3_s_f32_grouped_slots_n16",
                    GgmlType::IQ3_S,
                    256,
                    110,
                    16,
                    16384,
                ),
                false,
                *w_gate, *w_up, *x_pack, *counts, *ids, *inner, n_hidden, n_ffn, n_expert, topk,
                n_tokens, 0, MAX_COUNT,
            ),
        ),
{
    encode_grouped_swiglu(
        ctx, enc,
        GroupedKernel::of(
            "moe_swiglu_iq3_s_grouped_slots_n16",
            "kernel_moe_swiglu_iq3_s_f32_grouped_slots_n16",
            GgmlType::IQ3_S,
            256,
            110,
            16,
            16384,
        ),
        false,
        w_gate, w_up, x_pack, counts, ids, inner, n_hidden, n_ffn, n_expert, topk, n_tokens, 0,
        MAX_COUNT,
    )
}

/// SwiGLU through IQ3_S banks for the experts with `min_count` to `max_count`
/// slots, 16 at a time.
pub fn encode_moe_swiglu_iq3_s_f32_grouped_slots_n16_range(
    ctx: &MetalContext,
    enc: &mut KernelEncoder,
    w_gate: &MetalTensor,
    w_up: &MetalTensor,
    x_pack: &MetalTensor,
    counts: &MetalTensor,
    ids: &MetalTensor,
    inner: &MetalTensor,
    n_hidden: usize,
    n_ffn: usize,
    n_expert: usize,
    topk: usize,
    n_tokens: usize,
    min_count: u32,
    max_count: u32,
) -> (r: Result<(), MetalError>)
    requires
        grouped_swiglu_defined(
            GroupedKernel::of(
                "moe_swiglu_iq3_s_grouped_slots_n16",
                "kernel_moe_swiglu_iq3_s_f32_grouped_slots_n16",
                GgmlType::IQ3_S,
                256,
                110,
                16,
                16384,
            ),
            false,
            *w_gate, *w_up, *x_pack, *counts, *ids, *inner, n_hidden, n_ffn, n_expert, topk,
            n_tokens, min_count, max_count,
        ),
    ensures
        old(enc).did(
            *final(enc),
            r,
            grouped_swiglu(
                *ctx,
                GroupedKernel::of(
                    "moe_swiglu_iq3_s_grouped_slots_n16",
                    "kernel_moe_swiglu_iq3_s_f32_grouped_slots_n16",
                    GgmlType::IQ3_S,
                    256,
                    110,
                    16,
                    16384,
                ),
                false,
                *w_gate, *w_up, *x_pack, *counts, *ids, *inner, n_hidden, n_ffn, n_expert, topk,
                n_tokens, min_count, max_count,
            ),
        ),
{
    encode_grouped_swiglu(
        ctx, enc,
        GroupedKernel::of(
            "moe_swiglu_iq3_s_grouped_slots_n16",
            "kernel_moe_swiglu_iq3_s_f32_grouped_slots_n16",
            GgmlType::IQ3_S,
            256,
            110,
            16,
            16384,
        ),
        false,
        w_gate, w_up, x_pack, counts, ids, inner, n_hidden, n_ffn, n_expert, topk, n_tokens,
        min_count, max_count,
    )
}

/// SwiGLU through Q5_K banks for every expert, 16 slots at a time.
#[allow(non_snake_case)]
pub fn encode_moe_swiglu_q5_K_f32_grouped_slots_n16(
    ctx: &MetalContext,
    enc: &mut KernelEncoder,
    w_gate: &MetalTensor,
    w_up: &MetalTensor,
    x_pack: &MetalTensor,
    counts: &MetalTensor,
    ids: &MetalTensor,
    inner: &MetalTensor,
    n_hidden: usize,
    n_ffn: usize,
    n_expert: usize,
    topk: usize,
    n_tokens: usize,
) -> (r: Result<(), MetalError>)
    requires
        grouped_swiglu_defined(
            GroupedKernel::of(
                "moe_swiglu_q5_K_grouped_slots_n16",
                "kernel_moe_swiglu_q5_K_f32_grouped_slots_n16",
                GgmlType::Q5_K,
                256,
                176,
                16,
                16384,
            ),
            false,
            *w_gate, *w_up, *x_pack, *counts, *ids, *inner, n_hidden, n_ffn, n_expert, topk,
            n_tokens, 0, MAX_COUNT,
        ),
    ensures
        old(enc).did(
            *final(enc),
            r,
            grouped_swiglu(
                *ctx,
                GroupedKernel::of(
                    "moe_swiglu_q5_K_grouped_slots_n16",
                    "kernel_moe_swiglu_q5_K_f32_grouped_slots_n16",
                    GgmlType::Q5_K,
                    256,
                    176,
                    16,
                    16384,
                ),
                false,
                *w_gate, *w_up, *x_pack, *counts, *ids, *inner, n_hidden, n_ffn, n_expert, topk,
                n_tokens, 0, MAX_COUNT,
            ),
        ),
{
    encode_grouped_swiglu(
        ctx, enc,
        GroupedKernel::of(
            "moe_swiglu_q5_K_grouped_slots_n16",
            "kernel_moe_swiglu_q5_K_f32_grouped_slots_n16",
            GgmlType::Q5_K,
            256,
            176,
            16,
            16384,
        ),
        false,
        w_gate, w_up, x_pack, counts, ids, inner, n_hidden, n_ffn, n_expert, topk, n_tokens, 0,
        MAX_COUNT,
    )
}

/// SwiGLU through Q5_K banks for the experts with `min_count` to `max_count`
/// slots, 16 at a time.
#[allow(non_snake_case)]
pub fn encode_moe_swiglu_q5_K_f32_grouped_slots_n16_range(
    ctx: &MetalContext,
    enc: &mut KernelEncoder,
    w_gate: &MetalTensor,
    w_up: &MetalTensor,
    x_pack: &MetalTensor,
    counts: &MetalTensor,
    ids: &MetalTensor,
    inner: &MetalTensor,
    n_hidden: usize,
    n_ffn: usize,
    n_expert: usize,
    topk: usize,
    n_tokens: usize,
    min_count: u32,
    max_count: u32,
) -> (r: Result<(), MetalError>)
    requires
        grouped_swiglu_defined(
            GroupedKernel::of(
                "moe_swiglu_q5_K_grouped_slots_n16",
                "kernel_moe_swiglu_q5_K_f32_grouped_slots_n16",
                GgmlType::Q5_K,
                256,
                176,
                16,
                16384,
            ),
            false,
            *w_gate, *w_up, *x_pack, *counts, *ids, *inner, n_hidden, n_ffn, n_expert, topk,
            n_tokens, min_count, max_count,
        ),
    ensures
        old(enc).did(
            *final(enc),
            r,
            grouped_swiglu(
                *ctx,
                GroupedKernel::of(
                    "moe_swiglu_q5_K_grouped_slots_n16",
                    "kernel_moe_swiglu_q5_K_f32_grouped_slots_n16",
                    GgmlType::Q5_K,
                    256,
                    176,
                    16,
                    16384,
                ),
                false,
                *w_gate, *w_up, *x_pack, *counts, *ids, *inner, n_hidden, n_ffn, n_expert, topk,
                n_tokens, min_count, max_count,
            ),
        ),
{
    encode_grouped_swiglu(
        ctx, enc,
        GroupedKernel::of(
            "moe_swiglu_q5_K_grouped_slots_n16",
            "kernel_moe_swiglu_q5_K_f32_grouped_slots_n16",
            GgmlType::Q5_K,
            256,
            176,
            16,
            16384,
        ),
        false,
        w_gate, w_up, x_pack, counts, ids, inner, n_hidden, n_ffn, n_expert, topk, n_tokens,
        min_count, max_count,
    )
}

/// SwiGLU through Q6_K banks for every expert, 16 slots at a time.
#[allow(non_snake_case)]
pub fn encode_moe_swiglu_q6_K_f32_grouped_slots_n16(
    ctx: &MetalContext,
    enc: &mut KernelEncoder,
    w_gate: &MetalTensor,
    w_up: &MetalTensor,
    x_pack: &MetalTensor,
    counts: &MetalTensor,
    ids: &MetalTensor,
    inner: &MetalTensor,
    n_hidden: usize,
    n_ffn: usize,
    n_expert: usize,
    topk: usize,
    n_tokens: usize,
) -> (r: Result<(), MetalError>)
    requires
        grouped_swiglu_defined(
            GroupedKernel::of(
                "moe_swiglu_q6_K_grouped_slots_n16",
                "kernel_moe_swiglu_q6_K_f32_grouped_slots_n16",
                GgmlType::Q6_K,
                256,
                210,
                16,
                16384,
            ),
            false,
            *w_gate, *w_up, *x_pack, *counts, *ids, *inner, n_hidden, n_ffn, n_expert, topk,
            n_tokens, 0, MAX_COUNT,
        ),
    ensures
        old(enc).did(
            *final(enc),
            r,
            grouped_swiglu(
                *ctx,
                GroupedKernel::of(
                    "moe_swiglu_q6_K_grouped_slots_n16",
                    "kernel_moe_swiglu_q6_K_f32_grouped_slots_n16",
                    GgmlType::Q6_K,
                    256,
                    210,
                    16,
                    16384,
                ),
                false,
                *w_gate, *w_up, *x_pack, *counts, *ids, *inner, n_hidden, n_ffn, n_expert, topk,
                n_tokens, 0, MAX_COUNT,
            ),
        ),
{
    encode_grouped_swiglu(
        ctx, enc,
        GroupedKernel::of(
            "moe_swiglu_q6_K_grouped_slots_n16",
            "kernel_moe_swiglu_q6_K_f32_grouped_slots_n16",
            GgmlType::Q6_K,
            256,
            210,
            16,
            16384,
        ),
        false,
        w_gate, w_up, x_pack, counts, ids, inner, n_hidden, n_ffn, n_expert, topk, n_tokens, 0,
        MAX_COUNT,
    )
}

/// SwiGLU through Q6_K banks for the experts with `min_count` to `max_count`
/// slots, 16 at a time.
#[allow(non_snake_case)]
pub fn encode_moe_swiglu_q6_K_f32_grouped_slots_n16_range(
    ctx: &MetalContext,
    enc: &mut KernelEncoder,
    w_gate: &MetalTensor,
    w_up: &MetalTensor,
    x_pack: &MetalTensor,
    counts: &MetalTensor,
    ids: &MetalTensor,
    inner: &MetalTensor,
    n_hidden: usize,
    n_ffn: usize,
    n_expert: usize,
    topk: usize,
    n_tokens: usize,
    min_count: u32,
    max_count: u32,
) -> (r: Result<(), MetalError>)
    requires
        grouped_swiglu_defined(
            GroupedKernel::of(
                "moe_swiglu_q6_K_grouped_slots_n16",
                "kernel_moe_swiglu_q6_K_f32_grouped_slots_n16",
                GgmlType::Q6_K,
                256,
                210,
                16,
                16384,
            ),
            false,
            *w_gate, *w_up, *x_pack, *counts, *ids, *inner, n_hidden, n_ffn, n_expert, topk,
            n_tokens, min_count, max_count,
        ),
    ensures
        old(enc).did(
            *final(enc),
            r,
            grouped_swiglu(
                *ctx,
                GroupedKernel::of(
                    "moe_swiglu_q6_K_grouped_slots_n16",
                    "kernel_moe_swiglu_q6_K_f32_grouped_slots_n16",
                    GgmlType::Q6_K,
                    256,
                    210,
                    16,
                    16384,
                ),
                false,
                *w_gate, *w_up, *x_pack, *counts, *ids, *inner, n_hidden, n_ffn, n_expert, topk,
                n_tokens, min_count, max_count,
            ),
        ),
{
    encode_grouped_swiglu(
        ctx, enc,
        GroupedKernel::of(
            "moe_swiglu_q6_K_grouped_slots_n16",
            "kernel_moe_swiglu_q6_K_f32_grouped_slots_n16",
            GgmlType::Q6_K,
            256,
            210,
            16,
            16384,
        ),
        false,
        w_gate, w_up, x_pack, counts, ids, inner, n_hidden, n_ffn, n_expert, topk, n_tokens,
        min_count, max_count,
    )
}

/// SwiGLU through Q8_0 banks for every expert, 16 slots at a time.
pub fn encode_moe_swiglu_q8_0_f32_grouped_slots_n16(
    ctx: &MetalContext,
    enc: &mut KernelEncoder,
    w_gate: &MetalTensor,
    w_up: &MetalTensor,
    x_pack: &MetalTensor,
    counts: &MetalTensor,
    ids: &MetalTensor,
    inner: &MetalTensor,
    n_hidden: usize,
    n_ffn: usize,
    n_expert: usize,
    topk: usize,
    n_tokens: usize,
) -> (r: Result<(), MetalError>)
    requires
        grouped_swiglu_defined(
            GroupedKernel::of(
                "moe_swiglu_q8_0_grouped_slots_n16",
                "kernel_moe_swiglu_q8_0_f32_grouped_slots_n16",
                GgmlType::Q8_0,
                32,
                34,
                16,
                16384,
            ),
            false,
            *w_gate, *w_up, *x_pack, *counts, *ids, *inner, n_hidden, n_ffn, n_expert, topk,
            n_tokens, 0, MAX_COUNT,
        ),
    ensures
        old(enc).did(
            *final(enc),
            r,
            grouped_swiglu(
                *ctx,
                GroupedKernel::of(
                    "moe_swiglu_q8_0_grouped_slots_n16",
                    "kernel_moe_swiglu_q8_0_f32_grouped_slots_n16",
                    GgmlType::Q8_0,
                    32,
                    34,
                    16,
                    16384,
                ),
                false,
                *w_gate, *w_up, *x_pack, *counts, *ids, *inner, n_hidden, n_ffn, n_expert, topk,
                n_tokens, 0, MAX_COUNT,
            ),
        ),
{
    encode_grouped_swiglu(
        ctx, enc,
        GroupedKernel::of(
            "moe_swiglu_q8_0_grouped_slots_n16",
            "kernel_moe_swiglu_q8_0_f32_grouped_slots_n16",
            GgmlType::Q8_0,
            32,
            34,
            16,
            16384,
        ),
        false,
        w_gate, w_up, x_pack, counts, ids, inner, n_hidden, n_ffn, n_expert, topk, n_tokens, 0,
        MAX_COUNT,
    )
}

/// SwiGLU through Q8_0 banks for the experts with `min_count` to `max_count`
/// slots, 16 at a time.
pub fn encode_moe_swiglu_q8_0_f32_grouped_slots_n16_range(
    ctx: &MetalContext,
    enc: &mut KernelEncoder,
    w_gate: &MetalTensor,
    w_up: &MetalTensor,
    x_pack: &MetalTensor,
    counts: &MetalTensor,
    ids: &MetalTensor,
    inner: &MetalTensor,
    n_hidden: usize,
    n_ffn: usize,
    n_expert: usize,
    topk: usize,
    n_tokens: usize,
    min_count: u32,
    max_count: u32,
) -> (r: Result<(), MetalError>)
    requires
        grouped_swiglu_defined(
            GroupedKernel::of(
                "moe_swiglu_q8_0_grouped_slots_n16",
                "kernel_moe_swiglu_q8_0_f32_grouped_slots_n16",
                GgmlType::Q8_0,
                32,
                34,
                16,
                16384,
            ),
            false,
            *w_gate, *w_up, *x_pack, *counts, *ids, *inner, n_hidden, n_ffn, n_expert, topk,
            n_tokens, min_count, max_count,
        ),
    ensures
        old(enc).did(
            *final(enc),
            r,
            grouped_swiglu(
                *ctx,
                GroupedKernel::of(
                    "moe_swiglu_q8_0_grouped_slots_n16",
                    "kernel_moe_swiglu_q8_0_f32_grouped_slots_n16",
                    GgmlType::Q8_0,
                    32,
                    34,
                    16,
                    16384,
                ),
                false,
                *w_gate, *w_up, *x_pack, *counts, *ids, *inner, n_hidden, n_ffn, n_expert, topk,
                n_tokens, min_count, max_count,
            ),
        ),
{
    encode_grouped_swiglu(
        ctx, enc,
        GroupedKernel::of(
            "moe_swiglu_q8_0_grouped_slots_n16",
            "kernel_moe_swiglu_q8_0_f32_grouped_slots_n16",
            GgmlType::Q8_0,
            32,
            34,
            16,
            16384,
        ),
        false,
        w_gate, w_up, x_pack, counts, ids, inner, n_hidden, n_ffn, n_expert, topk, n_tokens,
        min_count, max_count,
    )
}

/// SwiGLU through F32 banks for every expert, 16 slots at a time.
pub fn encode_moe_swiglu_f32_f32_grouped_slots_n16(
    ctx: &MetalContext,
    enc: &mut KernelEncoder,
    w_gate: &MetalTensor,
    w_up: &MetalTensor,
    x_pack: &MetalTensor,
    counts: &MetalTensor,
    ids: &MetalTensor,
    inner: &MetalTensor,
    n_hidden: usize,
    n_ffn: usize,
    n_expert: usize,
    topk: usize,
    n_tokens: usize,
) -> (r: Result<(), MetalError>)
    requires
        grouped_swiglu_defined(
            GroupedKernel::of(
                "moe_swiglu_f32_grouped_slots_n16",
                "kernel_moe_swiglu_f32_f32_grouped_slots_n16",
                GgmlType::F32,
                1,
                1,
                16,
                16384,
            ),
            false,
            *w_gate, *w_up, *x_pack, *counts, *ids, *inner, n_hidden, n_ffn, n_expert, topk,
            n_tokens, 0, MAX_COUNT,
        ),
    ensures
        old(enc).did(
            *final(enc),
            r,
            grouped_swiglu(
                *ctx,
                GroupedKernel::of(
                    "moe_swiglu_f32_grouped_slots_n16",
                    "kernel_moe_swiglu_f32_f32_grouped_slots_n16",
                    GgmlType::F32,
                    1,
                    1,
                    16,
                    16384,
                ),
                false,
                *w_gate, *w_up, *x_pack, *counts, *ids, *inner, n_hidden, n_ffn, n_expert, topk,
                n_tokens, 0, MAX_COUNT,
            ),
        ),
{
    encode_grouped_swiglu(
        ctx, enc,
        GroupedKernel::of(
            "moe_swiglu_f32_grouped_slots_n16",
            "kernel_moe_swiglu_f32_f32_grouped_slots_n16",
            GgmlType::F32,
            1,
            1,
            16,
            16384,
        ),
        false,
        w_gate, w_up, x_pack, counts, ids, inner, n_hidden, n_ffn, n_expert, topk, n_tokens, 0,
        MAX_COUNT,
    )
}

/// SwiGLU through BF16 banks for every expert, 16 slots at a time.
pub fn encode_moe_swiglu_bf16_f32_grouped_slots_n16(
    ctx: &MetalContext,
    enc: &mut KernelEncoder,
    w_gate: &MetalTensor,
    w_up: &MetalTensor,
    x_pack: &MetalTensor,
    counts: &MetalTensor,
    ids: &MetalTensor,
    inner: &MetalTensor,
    n_hidden: usize,
    n_ffn: usize,
    n_expert: usize,
    topk: usize,
    n_tokens: usize,
) -> (r: Result<(), MetalError>)
    requires
        grouped_swiglu_defined(
            GroupedKernel::of(
                "moe_swiglu_bf16_grouped_slots_n16",
                "kernel_moe_swiglu_bf16_f32_grouped_slots_n16",
                GgmlType::BF16,
                1,
                1,
                16,
                16384,
            ),
            false,
            *w_gate, *w_up, *x_pack, *counts, *ids, *inner, n_hidden, n_ffn, n_expert, topk,
            n_tokens, 0, MAX_COUNT,
        ),
    ensures
        old(enc).did(
            *final(enc),
            r,
            grouped_swiglu(
                *ctx,
                GroupedKernel::of(
                    "moe_swiglu_bf16_grouped_slots_n16",
                    "kernel_moe_swiglu_bf16_f32_grouped_slots_n16",
                    GgmlType::BF16,
                    1,
                    1,
                    16,
                    16384,
                ),
                false,
                *w_gate, *w_up, *x_pack, *counts, *ids, *inner, n_hidden, n_ffn, n_expert, topk,
                n_tokens, 0, MAX_COUNT,
            ),
        ),
{
    encode_grouped_swiglu(
        ctx, enc,
        GroupedKernel::of(
            "moe_swiglu_bf16_grouped_slots_n16",
            "kernel_moe_swiglu_bf16_f32_grouped_slots_n16",
            GgmlType::BF16,
            1,
            1,
            16,
            16384,
        ),
        false,
        w_gate, w_up, x_pack, counts, ids, inner, n_hidden, n_ffn, n_expert, topk, n_tokens, 0,
        MAX_COUNT,
    )
}

/// SwiGLU through BF16 banks for the experts with `min_count` to `max_count`
/// slots, 16 at a time.
pub fn encode_moe_swiglu_bf16_f32_grouped_slots_n16_range(
    ctx: &MetalContext,
    enc: &mut KernelEncoder,
    w_gate: &MetalTensor,
    w_up: &MetalTensor,
    x_pack: &MetalTensor,
    counts: &MetalTensor,
    ids: &MetalTensor,
    inner: &MetalTensor,
    n_hidden: usize,
    n_ffn: usize,
    n_expert: usize,
    topk: usize,
    n_tokens: usize,
    min_count: u32,
    max_count: u32,
) -> (r: Result<(), MetalError>)
    requires
        grouped_swiglu_defined(
            GroupedKernel::of(
                "moe_swiglu_bf16_grouped_slots_n16",
                "kernel_moe_swiglu_bf16_f32_grouped_slots_n16",
                GgmlType::BF16,
                1,
                1,
                16,
                16384,
            ),
            false,
            *w_gate, *w_up, *x_pack, *counts, *ids, *inner, n_hidden, n_ffn, n_expert, topk,
            n_tokens, min_count, max_count,
        ),
    ensures
        old(enc).did(
            *final(enc),
            r,
            grouped_swiglu(
                *ctx,
                GroupedKernel::of(
                    "moe_swiglu_bf16_grouped_slots_n16",
                    "kernel_moe_swiglu_bf16_f32_grouped_slots_n16",
                    GgmlType::BF16,
                    1,
                    1,
                    16,
                    16384,
                ),
                false,
                *w_gate, *w_up, *x_pack, *counts, *ids, *inner, n_hidden, n_ffn, n_expert, topk,
                n_tokens, min_count, max_count,
            ),
        ),
{
    encode_grouped_swiglu(
        ctx, enc,
        GroupedKernel::of(
            "moe_swiglu_bf16_grouped_slots_n16",
            "kernel_moe_swiglu_bf16_f32_grouped_slots_n16",
            GgmlType::BF16,
            1,
            1,
            16,
            16384,
        ),
        false,
        w_gate, w_up, x_pack, counts, ids, inner, n_hidden, n_ffn, n_expert, topk, n_tokens,
        min_count, max_count,
    )
}

/// SwiGLU through Q4_K banks for every expert, 32 slots at a time.
#[allow(non_snake_case)]
pub fn encode_moe_swiglu_q4_K_f32_grouped_slots_n32(
    ctx: &MetalContext,
    enc: &mut KernelEncoder,
    w_gate: &MetalTensor,
    w_up: &MetalTensor,
    x_pack: &MetalTensor,
    counts: &MetalTensor,
    ids: &MetalTensor,
    inner: &MetalTensor,
    n_hidden: usize,
    n_ffn: usize,
    n_expert: usize,
    topk: usize,
    n_tokens: usize,
) -> (r: Result<(), MetalError>)
    requires
        grouped_swiglu_defined(
            GroupedKernel::of(
                "moe_swiglu_q4_K_grouped_slots_n32",
                "kernel_moe_swiglu_q4_K_f32_grouped_slots_n32",
                GgmlType::Q4_K,
                256,
                144,
                32,
                16384,
            ),
            false,
            *w_gate, *w_up, *x_pack, *counts, *ids, *inner, n_hidden, n_ffn, n_expert, topk,
            n_tokens, 0, MAX_COUNT,
        ),
    ensures
        old(enc).did(
            *final(enc),
            r,
            grouped_swiglu(
                *ctx,
                GroupedKernel::of(
                    "moe_swiglu_q4_K_grouped_slots_n32",
                    "kernel_moe_swiglu_q4_K_f32_grouped_slots_n32",
                    GgmlType::Q4_K,
                    256,
                    144,
                    32,
                    16384,
                ),
                false,
                *w_gate, *w_up, *x_pack, *counts, *ids, *inner, n_hidden, n_ffn, n_expert, topk,
                n_tokens, 0, MAX_COUNT,
            ),
        ),
{
    encode_grouped_swiglu(
        ctx, enc,
        GroupedKernel::of(
            "moe_swiglu_q4_K_grouped_slots_n32",
            "kernel_moe_swiglu_q4_K_f32_grouped_slots_n32",
            GgmlType::Q4_K,
            256,
            144,
            32,
            16384,
        ),
        false,
        w_gate, w_up, x_pack, counts, ids, inner, n_hidden, n_ffn, n_expert, topk, n_tokens, 0,
        MAX_COUNT,
    )
}

/// SwiGLU through Q4_K banks for the experts with `min_count` to `max_count`
/// slots, 32 at a time.
#[allow(non_snake_case)]
pub fn encode_moe_swiglu_q4_K_f32_grouped_slots_n32_range(
    ctx: &MetalContext,
    enc: &mut KernelEncoder,
    w_gate: &MetalTensor,
    w_up: &MetalTensor,
    x_pack: &MetalTensor,
    counts: &MetalTensor,
    ids: &MetalTensor,
    inner: &MetalTensor,
    n_hidden: usize,
    n_ffn: usize,
    n_expert: usize,
    topk: usize,
    n_tokens: usize,
    min_count: u32,
    max_count: u32,
) -> (r: Result<(), MetalError>)
    requires
        grouped_swiglu_defined(
            GroupedKernel::of(
                "moe_swiglu_q4_K_grouped_slots_n32",
                "kernel_moe_swiglu_q4_K_f32_grouped_slots_n32",
                GgmlType::Q4_K,
                256,
                144,
                32,
                16384,
            ),
            false,
            *w_gate, *w_up, *x_pack, *counts, *ids, *inner, n_hidden, n_ffn, n_expert, topk,
            n_tokens, min_count, max_count,
        ),
    ensures
        old(enc).did(
            *final(enc),
            r,
            grouped_swiglu(
                *ctx,
                GroupedKernel::of(
                    "moe_swiglu_q4_K_grouped_slots_n32",
                    "kernel_moe_swiglu_q4_K_f32_grouped_slots_n32",
                    GgmlType::Q4_K,
                    256,
                    144,
                    32,
                    16384,
                ),
                false,
                *w_gate, *w_up, *x_pack, *counts, *ids, *inner, n_hidden, n_ffn, n_expert, topk,
                n_tokens, min_count, max_count,
            ),
        ),
{
    encode_grouped_swiglu(
        ctx, enc,
        GroupedKernel::of(
            "moe_swiglu_q4_K_grouped_slots_n32",
            "kernel_moe_swiglu_q4_K_f32_grouped_slots_n32",
            GgmlType::Q4_K,
            256,
            144,
            32,
            16384,
        ),
        false,
        w_gate, w_up, x_pack, counts, ids, inner, n_hidden, n_ffn, n_expert, topk, n_tokens,
        min_count, max_count,
    )
}

/// One product per slot through a single bank. A `fused` bank interleaves gate and
/// up rows.
pub open spec fn grouped_bank(
    ctx: MetalContext,
    k: GroupedKernel,
    fused: bool,
    bank: MetalTensor,
    x_pack: MetalTensor,
    counts: MetalTensor,
    ids: MetalTensor,
    out: MetalTensor,
    n_hidden: usize,
    n_ffn: usize,
    n_expert: usize,
    topk: usize,
    n_tokens: usize,
    min_count: u32,
    max_count: u32,
) -> Outcome {
    if n_hidden % k.block != 0 {
        Outcome::Refused(
            Fault::bad_shape(k.name@, "n_hidden={} not divisible by {}"@).num(n_hidden as int).num(
                k.block as int,
            ),
        )
    } else if fused && n_ffn % 64 != 0 {
        Outcome::Refused(
            Fault::bad_shape(k.name@, "n_ffn={} not divisible by 64"@).num(n_ffn as int),
        )
    } else if fused && (topk == 0 || n_expert == 0 || n_tokens == 0) {
        Outcome::Refused(
            Fault::bad_shape(k.name@, "topk/n_expert/n_tokens must all be > 0"@),
        )
    } else if bank.dtype != k.dtype {
        Outcome::Refused(
            Fault::bad_shape(
                k.name@,
                if fused {
                    "expected fused {} expert bank, got {}"@
                } else {
                    "expected {} expert bank, got {}"@
                },
            ).dtype(k.dtype).dtype(bank.dtype),
        )
    } else if !slot_counts_match(
        x_pack, counts, ids, out, n_hidden, n_ffn, n_expert, topk, n_tokens,
    ) {
        Outcome::Refused(
            slot_count_fault(
                k.name@,
                if fused {
                    "shape mismatch x={} counts={} ids={} inner={} expected x={} counts={} ids={} inner={}"@
                } else {
                    "shape mismatch x={} counts={} ids={} out={} expected x={} counts={} ids={} out={}"@
                },
                x_pack, counts, ids, out, n_hidden, n_ffn, n_expert, topk, n_tokens,
            ),
        )
    } else {
        k.over(
            ctx,
            slot_words(
                n_hidden,
                n_ffn,
                n_expert,
                topk,
                n_tokens,
                k.row_stride(n_hidden) as u32,
                min_count,
                max_count,
            ),
            seq![bank.place(), x_pack.place(), counts.place(), ids.place(), out.place()],
            n_ffn,
            n_expert,
            n_tokens,
        )
    }
}

/// The inputs on which every size that the checks compute exists.
pub open spec fn grouped_bank_defined(
    k: GroupedKernel,
    fused: bool,
    bank: MetalTensor,
    x_pack: MetalTensor,
    counts: MetalTensor,
    ids: MetalTensor,
    out: MetalTensor,
    n_hidden: usize,
    n_ffn: usize,
    n_expert: usize,
    topk: usize,
    n_tokens: usize,
) -> bool {
    &&& k.valid()
    &&& x_pack.wf() && counts.wf() && ids.wf() && out.wf()
    &&& n_hidden % k.block == 0 && (fused ==> n_ffn % 64 == 0 && topk > 0 && n_expert > 0
        && n_tokens > 0) && bank.dtype == k.dtype ==> {
        &&& slot_sizes_exist(n_hidden, n_ffn, n_expert, topk, n_tokens)
        &&& slot_counts_match(
            x_pack, counts, ids, out, n_hidden, n_ffn, n_expert, topk, n_tokens,
        ) ==> k.row_stride(n_hidden) <= usize::MAX
    }
}

fn encode_grouped_bank(
    ctx: &MetalContext,
    enc: &mut KernelEncoder,
    k: GroupedKernel,
    fused: bool,
    bank: &MetalTensor,
    x_pack: &MetalTensor,
    counts: &MetalTensor,
    ids: &MetalTensor,
    out: &MetalTensor,
    n_hidden: usize,
    n_ffn: usize,
    n_expert: usize,
    topk: usize,
    n_tokens: usize,
    min_count: u32,
    max_count: u32,
) -> (r: Result<(), MetalError>)
    requires
        grouped_bank_defined(
            k, fused,
            *bank, *x_pack, *counts, *ids, *out, n_hidden, n_ffn, n_expert, topk, n_tokens,
        ),
    ensures
        old(enc).did(
            *final(enc),
            r,
            grouped_bank(
                *ctx, k, fused,
                *bank, *x_pack, *counts, *ids, *out, n_hidden, n_ffn, n_expert, topk, n_tokens,
                min_count, max_count,
            ),
        ),
{
    if n_hidden % k.block != 0 {
        return Err(bad_shape(k.name, "n_hidden={} not divisible by {}").num(n_hidden).num(k.block));
    }
    if fused && n_ffn % 64 != 0 {
        return Err(bad_shape(k.name, "n_ffn={} not divisible by 64").num(n_ffn));
    }
    if fused && (topk == 0 || n_expert == 0 || n_tokens == 0) {
        return Err(bad_shape(k.name, "topk/n_expert/n_tokens must all be > 0"));
    }
    if bank.dtype != k.dtype {
        let template = if fused {
            "expected fused {} expert bank, got {}"
        } else {
            "expected {} expert bank, got {}"
        };
        return Err(bad_shape(k.name, template).dtype(k.dtype).dtype(bank.dtype));
    }
    let template = if fused {
        "shape mismatch x={} counts={} ids={} inner={} expected x={} counts={} ids={} inner={}"
    } else {
        "shape mismatch x={} counts={} ids={} out={} expected x={} counts={} ids={} out={}"
    };
    match check_slot_counts(
        k.name, template, x_pack, counts, ids, out, n_hidden, n_ffn, n_expert, topk, n_tokens,
    ) {
        Ok(()) => {},
        Err(e) => {
            return Err(e);
        },
    }
    let stride: usize = product(n_hidden / k.block, k.stride);
    let words = encode_slot_words(
        n_hidden, n_ffn, n_expert, topk, n_tokens, stride as u32, min_count, max_count,
    );
    let tensors = [
        bank.binding(),
        x_pack.binding(),
        counts.binding(),
        ids.binding(),
        out.binding(),
    ];
    assert(tensors@ =~= seq![
        bank.place(),
        x_pack.place(),
        counts.place(),
        ids.place(),
        out.place(),
    ]);
    k.launch_over(ctx, enc, words, &tensors, n_ffn, n_expert, n_tokens)
}

/// SwiGLU through a fused Q4_K bank for the experts with `min_count` to
/// `max_count` slots, 16 at a time.
#[allow(non_snake_case)]
pub fn encode_moe_swiglu_q4_K_f32_grouped_slots_fused_n16_range(
    ctx: &MetalContext,
    enc: &mut KernelEncoder,
    w_fused: &MetalTensor,
    x_pack: &MetalTensor,
    counts: &MetalTensor,
    ids: &MetalTensor,
    inner: &MetalTensor,
    n_hidden: usize,
    n_ffn: usize,
    n_expert: usize,
    topk: usize,
    n_tokens: usize,
    min_count: u32,
    max_count: u32,
) -> (r: Result<(), MetalError>)
    requires
        grouped_bank_defined(
            GroupedKernel::of(
                "moe_swiglu_q4_K_grouped_slots_fused_n16",
                "kernel_moe_swiglu_q4_K_f32_grouped_slots_fused_n16",
                GgmlType::Q4_K,
                256,
                144,
                16,
                12288,
            ),
            true,
            *w_fused, *x_pack, *counts, *ids, *inner, n_hidden, n_ffn, n_expert, topk, n_tokens,
        ),
    ensures
        old(enc).did(
            *final(enc),
            r,
            grouped_bank(
                *ctx,
                GroupedKernel::of(
                    "moe_swiglu_q4_K_grouped_slots_fused_n16",
                    "kernel_moe_swiglu_q4_K_f32_grouped_slots_fused_n16",
                    GgmlType::Q4_K,
                    256,
                    144,
                    16,
                    12288,
                ),
                true,
                *w_fused, *x_pack, *counts, *ids, *inner, n_hidden, n_ffn, n_expert, topk,
                n_tokens, min_count, max_count,
            ),
        ),
{
    encode_grouped_bank(
        ctx, enc,
        GroupedKernel::of(
            "moe_swiglu_q4_K_grouped_slots_fused_n16",
            "kernel_moe_swiglu_q4_K_f32_grouped_slots_fused_n16",
            GgmlType::Q4_K,
            256,
            144,
            16,
            12288,
        ),
        true,
        w_fused, x_pack, counts, ids, inner, n_hidden, n_ffn, n_expert, topk, n_tokens,
        min_count, max_count,
    )
}

/// SwiGLU through a fused Q4_K bank for the experts with `min_count` to
/// `max_count` slots, 32 at a time.
#[allow(non_snake_case)]
pub fn encode_moe_swiglu_q4_K_f32_grouped_slots_fused_n32_range(
    ctx: &MetalContext,
    enc: &mut KernelEncoder,
    w_fused: &MetalTensor,
    x_pack: &MetalTensor,
    counts: &MetalTensor,
    ids: &MetalTensor,
    inner: &MetalTensor,
    n_hidden: usize,
    n_ffn: usize,
    n_expert: usize,
    topk: usize,
    n_tokens: usize,
    min_count: u32,
    max_count: u32,
) -> (r: Result<(), MetalError>)
    requires
        grouped_bank_defined(
            GroupedKernel::of(
                "moe_swiglu_q4_K_grouped_slots_fused_n32",
                "kernel_moe_swiglu_q4_K_f32_grouped_slots_fused_n32",
                GgmlType::Q4_K,
                256,
                144,
                32,
                16384,
            ),
            true,
            *w_fused, *x_pack, *counts, *ids, *inner, n_hidden, n_ffn, n_expert, topk, n_tokens,
        ),
    ensures
        old(enc).did(
            *final(enc),
            r,
            grouped_bank(
                *ctx,
                GroupedKernel::of(
                    "moe_swiglu_q4_K_grouped_slots_fused_n32",
                    "kernel_moe_swiglu_q4_K_f32_grouped_slots_fused_n32",
                    GgmlType::Q4_K,
                    256,
                    144,
                    32,
                    16384,
                ),
                true,
                *w_fused, *x_pack, *counts, *ids, *inner, n_hidden, n_ffn, n_expert, topk,
                n_tokens, min_count, max_count,
            ),
        ),
{
    encode_grouped_bank(
        ctx, enc,
        GroupedKernel::of(
            "moe_swiglu_q4_K_grouped_slots_fused_n32",
            "kernel_moe_swiglu_q4_K_f32_grouped_slots_fused_n32",
            GgmlType::Q4_K,
            256,
            144,
            32,
            16384,
        ),
        true,
        w_fused, x_pack, counts, ids, inner, n_hidden, n_ffn, n_expert, topk, n_tokens,
        min_count, max_count,
    )
}

/// Product through a Q4_K bank for every expert, 16 slots at a time.
#[allow(non_snake_case)]
pub fn encode_moe_matmul_q4_K_f32_grouped_slots_n16(
    ctx: &MetalContext,
    enc: &mut KernelEncoder,
    weight: &MetalTensor,
    x_pack: &MetalTensor,
    counts: &MetalTensor,
    ids: &MetalTensor,
    out: &MetalTensor,
    n_hidden: usize,
    n_ffn: usize,
    n_expert: usize,
    topk: usize,
    n_tokens: usize,
) -> (r: Result<(), MetalError>)
    requires
        grouped_bank_defined(
            GroupedKernel::of(
                "moe_matmul_q4_K_grouped_slots_n16",
                "kernel_moe_matmul_q4_K_f32_grouped_slots_n16",
                GgmlType::Q4_K,
                256,
                144,
                16,
                8192,
            ),
            false,
            *weight, *x_pack, *counts, *ids, *out, n_hidden, n_ffn, n_expert, topk, n_tokens,
        ),
    ensures
        old(enc).did(
            *final(enc),
            r,
            grouped_bank(
                *ctx,
                GroupedKernel::of(
                    "moe_matmul_q4_K_grouped_slots_n16",
                    "kernel_moe_matmul_q4_K_f32_grouped_slots_n16",
                    GgmlType::Q4_K,
                    256,
                    144,
                    16,
                    8192,
                ),
                false,
                *weight, *x_pack, *counts, *ids, *out, n_hidden, n_ffn, n_expert, topk,
                n_tokens, 0, MAX_COUNT,
            ),
        ),
{
    encode_grouped_bank(
        ctx, enc,
        GroupedKernel::of(
            "moe_matmul_q4_K_grouped_slots_n16",
            "kernel_moe_matmul_q4_K_f32_grouped_slots_n16",
            GgmlType::Q4_K,
            256,
            144,
            16,
            8192,
        ),
        false,
        weight, x_pack, counts, ids, out, n_hidden, n_ffn, n_expert, topk, n_tokens, 0,
        MAX_COUNT,
    )
}

/// Product through a Q4_K bank for the experts with `min_count` to `max_count`
/// slots, 16 at a time.
#[allow(non_snake_case)]
pub fn encode_moe_matmul_q4_K_f32_grouped_slots_n16_range(
    ctx: &MetalContext,
    enc: &mut KernelEncoder,
    weight: &MetalTensor,
    x_pack: &MetalTensor,
    counts: &MetalTensor,
    ids: &MetalTensor,
    out: &MetalTensor,
    n_hidden: usize,
    n_ffn: usize,
    n_expert: usize,
    topk: usize,
    n_tokens: usize,
    min_count: u32,
    max_count: u32,
) -> (r: Result<(), MetalError>)
    requires
        grouped_bank_defined(
            GroupedKernel::of(
                "moe_matmul_q4_K_grouped_slots_n16",
                "kernel_moe_matmul_q4_K_f32_grouped_slots_n16",
                GgmlType::Q4_K,
                256,
                144,
                16,
                8192,
            ),
            false,
            *weight, *x_pack, *counts, *ids, *out, n_hidden, n_ffn, n_expert, topk, n_tokens,
        ),
    ensures
        old(enc).did(
            *final(enc),
            r,
            grouped_bank(
                *ctx,
                GroupedKernel::of(
                    "moe_matmul_q4_K_grouped_slots_n16",
                    "kernel_moe_matmul_q4_K_f32_grouped_slots_n16",
                    GgmlType::Q4_K,
                    256,
                    144,
                    16,
                    8192,
                ),
                false,
                *weight, *x_pack, *counts, *ids, *out, n_hidden, n_ffn, n_expert, topk,
                n_tokens, min_count, max_count,
            ),
        ),
{
    encode_grouped_bank(
        ctx, enc,
        GroupedKernel::of(
            "moe_matmul_q4_K_grouped_slots_n16",
            "kernel_moe_matmul_q4_K_f32_grouped_slots_n16",
            GgmlType::Q4_K,
            256,
            144,
            16,
            8192,
        ),
        false,
        weight, x_pack, counts, ids, out, n_hidden, n_ffn, n_expert, topk, n_tokens, min_count,
        max_count,
    )
}

/// Product through a Q4_K bank for the experts with `min_count` to `max_count`
/// slots, 32 at a time.
#[allow(non_snake_case)]
pub fn encode_moe_matmul_q4_K_f32_grouped_slots_n32_range(
    ctx: &MetalContext,
    enc: &mut KernelEncoder,
    weight: &MetalTensor,
    x_pack: &MetalTensor,
    counts: &MetalTensor,
    ids: &MetalTensor,
    out: &MetalTensor,
    n_hidden: usize,
    n_ffn: usize,
    n_expert: usize,
    topk: usize,
    n_tokens: usize,
    min_count: u32,
    max_count: u32,
) -> (r: Result<(), MetalError>)
    requires
        grouped_bank_defined(
            GroupedKernel::of(
                "moe_matmul_q4_K_grouped_slots_n32",
                "kernel_moe_matmul_q4_K_f32_grouped_slots_n32",
                GgmlType::Q4_K,
                256,
                144,
                32,
                8192,
            ),
            false,
            *weight, *x_pack, *counts, *ids, *out, n_hidden, n_ffn, n_expert, topk, n_tokens,
        ),
    ensures
        old(enc).did(
            *final(enc),
            r,
            grouped_bank(
                *ctx,
                GroupedKernel::of(
                    "moe_matmul_q4_K_grouped_slots_n32",
                    "kernel_moe_matmul_q4_K_f32_grouped_slots_n32",
                    GgmlType::Q4_K,
                    256,
                    144,
                    32,
                    8192,
                ),
                false,
                *weight, *x_pack, *counts, *ids, *out, n_hidden, n_ffn, n_expert, topk,
                n_tokens, min_count, max_count,
            ),
        ),
{
    encode_grouped_bank(
        ctx, enc,
        GroupedKernel::of(
            "moe_matmul_q4_K_grouped_slots_n32",
            "kernel_moe_matmul_q4_K_f32_grouped_slots_n32",
            GgmlType::Q4_K,
            256,
            144,
            32,
            8192,
        ),
        false,
        weight, x_pack, counts, ids, out, n_hidden, n_ffn, n_expert, topk, n_tokens, min_count,
        max_count,
    )
}

/// Which arguments a grouped down projection takes.
#[derive(Clone, Copy, PartialEq, Eq, Structural)]
pub enum DownForm {
    /// All experts.
    Plain,
    /// The experts whose slot count lies in a range.
    Ranged,
    /// The experts in a range, four of them per threadgroup.
    Tiny,
}

/// The down projection of every slot through its expert. The number of slots is
/// that of the whole rows in `out`.
pub open spec fn grouped_down(
    ctx: MetalContext,
    k: GroupedKernel,
    form: DownForm,
    weight: MetalTensor,
    inner: MetalTensor,
    counts: MetalTensor,
    ids: MetalTensor,
    out: MetalTensor,
    n_in: usize,
    n_out: usize,
    n_expert: usize,
    n_tokens: usize,
    min_count: u32,
    max_count: u32,
) -> Outcome {
    let slot_count = out.count() / n_out;
    let stride = k.row_stride(n_in) as u32;
    let tensors = seq![
        weight.place(),
        inner.place(),
        counts.place(),
        ids.place(),
        out.place(),
    ];
    if n_in % k.block != 0 {
        Outcome::Refused(
            Fault::bad_shape(k.name@, "n_in={} not divisible by {}"@).num(n_in as int).num(
                k.block as int,
            ),
        )
    } else if weight.dtype != k.dtype {
        Outcome::Refused(
            Fault::bad_shape(k.name@, "expected {} expert down, got {}"@).dtype(k.dtype).dtype(
                weight.dtype,
            ),
        )
    } else if inner.count() != slot_count * n_in || counts.count() != n_expert || ids.count()
        != n_expert * n_tokens || out.count() != slot_count * n_out {
        Outcome::Refused(
            Fault::bad_shape(
                k.name@,
                "shape mismatch: inner={} counts={} ids={} out={} expected inner={} counts={} ids={} out={}"@,
            ).num(inner.elements() as int).num(counts.elements() as int).num(
                ids.elements() as int,
            ).num(out.elements() as int).num(slot_count * n_in).num(n_expert as int).num(
                n_expert * n_tokens,
            ).num(slot_count * n_out),
        )
    } else {
        match form {
            DownForm::Plain => k.over(
                ctx,
                seq![n_out as u32, n_tokens as u32, n_in as u32, stride, n_in as u32],
                tensors,
                n_out,
                n_expert,
                n_tokens,
            ),
            DownForm::Ranged => k.over(
                ctx,
                seq![
                    n_out as u32,
                    n_tokens as u32,
                    n_in as u32,
                    stride,
                    n_in as u32,
                    min_count,
                    max_count,
                ],
                tensors,
                n_out,
                n_expert,
                n_tokens,
            ),
            DownForm::Tiny => Outcome::launch(
                ctx,
                Launch {
                    pipeline: k.pipeline@,
                    words: seq![
                        n_out as u32,
                        n_tokens as u32,
                        n_in as u32,
                        n_expert as u32,
                        stride,
                        n_in as u32,
                        min_count,
                        max_count,
                    ],
                    tensors,
                    scratch: seq![k.scratch],
                    threadgroups: MTLSize {
                        width: numeric::div_up(n_out, k.tile),
                        height: numeric::div_up(n_expert, 4),
                        depth: 1,
                    },
                    threads: MTLSize { width: 128, height: 1, depth: 1 },
                },
            ),
        }
    }
}

/// The inputs on which every size that the checks compute exists.
pub open spec fn grouped_down_defined(
    k: GroupedKernel,
    weight: MetalTensor,
    inner: MetalTensor,
    counts: MetalTensor,
    ids: MetalTensor,
    out: MetalTensor,
    n_in: usize,
    n_out: usize,
    n_expert: usize,
    n_tokens: usize,
) -> bool {
    &&& k.valid()
    &&& inner.wf() && counts.wf() && ids.wf() && out.wf()
    &&& n_in % k.block == 0 && weight.dtype == k.dtype ==> {
        &&& n_out > 0
        &&& (out.count() / n_out) * n_in <= usize::MAX
        &&& n_expert * n_tokens <= usize::MAX
        &&& inner.count() == (out.count() / n_out) * n_in && counts.count() == n_expert
            && ids.count() == n_expert * n_tokens && out.count() == (out.count() / n_out) * n_out
            ==> k.row_stride(n_in) <= usize::MAX
    }
}

fn encode_grouped_down(
    ctx: &MetalContext,
    enc: &mut KernelEncoder,
    k: GroupedKernel,
    form: DownForm,
    weight: &MetalTensor,
    inner: &MetalTensor,
    counts: &MetalTensor,
    ids: &MetalTensor,
    out: &MetalTensor,
    n_in: usize,
    n_out: usize,
    n_expert: usize,
    n_tokens: usize,
    min_count: u32,
    max_count: u32,
) -> (r: Result<(), MetalError>)
    requires
        grouped_down_defined(
            k,
            *weight, *inner, *counts, *ids, *out, n_in, n_out, n_expert, n_tokens,
        ),
    ensures
        old(enc).did(
            *final(enc),
            r,
            grouped_down(
                *ctx, k, form,
                *weight, *inner, *counts, *ids, *out, n_in, n_out, n_expert, n_tokens,
                min_count, max_count,
            ),
        ),
{
    if n_in % k.block != 0 {
        return Err(bad_shape(k.name, "n_in={} not divisible by {}").num(n_in).num(k.block));
    }
    if weight.dtype != k.dtype {
        return Err(
            bad_shape(k.name, "expected {} expert down, got {}").dtype(k.dtype).dtype(weight.dtype),
        );
    }
    let out_count: usize = out.element_count();
    let slot_count: usize = out_count / n_out;
    proof {
        assert(slot_count * n_out <= out_count) by (nonlinear_arith)
            requires
                slot_count == out_count / n_out,
                n_out > 0,
        ;
    }
    let expected_inner: usize = product(slot_count, n_in);
    let expected_ids: usize = product(n_expert, n_tokens);
    let expected_out: usize = product(slot_count, n_out);
    if inner.element_count() != expected_inner || counts.element_count() != n_expert
        || ids.element_count() != expected_ids || out_count != expected_out {
        return Err(
            bad_shape(
                k.name,
                "shape mismatch: inner={} counts={} ids={} out={} expected inner={} counts={} ids={} out={}",
            ).num_u64(inner.n_elements()).num_u64(counts.n_elements()).num_u64(
                ids.n_elements(),
            ).num_u64(out.n_elements()).num(expected_inner).num(n_expert).num(expected_ids).num(
                expected_out,
            ),
        );
    }
    let stride: u32 = product(n_in / k.block, k.stride) as u32;
    let tensors = [
        weight.binding(),
        inner.binding(),
        counts.binding(),
        ids.binding(),
        out.binding(),
    ];
    assert(tensors@ =~= seq![
        weight.place(),
        inner.place(),
        counts.place(),
        ids.place(),
        out.place(),
    ]);
    match form {
        DownForm::Plain => {
            let words: Vec<u32> = vec![
                n_out as u32,
                n_tokens as u32,
                n_in as u32,
                stride,
                n_in as u32,
            ];
            assert(words@ =~= seq![
                n_out as u32,
                n_tokens as u32,
                n_in as u32,
                stride,
                n_in as u32,
            ]);
            k.launch_over(ctx, enc, words, &tensors, n_out, n_expert, n_tokens)
        },
        DownForm::Ranged => {
            let words: Vec<u32> = vec![
                n_out as u32,
                n_tokens as u32,
                n_in as u32,
                stride,
                n_in as u32,
                min_count,
                max_count,
            ];
            assert(words@ =~= seq![
                n_out as u32,
                n_tokens as u32,
                n_in as u32,
                stride,
                n_in as u32,
                min_count,
                max_count,
            ]);
            k.launch_over(ctx, enc, words, &tensors, n_out, n_expert, n_tokens)
        },
        DownForm::Tiny => {
            let words: Vec<u32> = vec![
                n_out as u32,
                n_tokens as u32,
                n_in as u32,
                n_expert as u32,
                stride,
                n_in as u32,
                min_count,
                max_count,
            ];
            assert(words@ =~= seq![
                n_out as u32,
                n_tokens as u32,
                n_in as u32,
                n_expert as u32,
                stride,
                n_in as u32,
                min_count,
                max_count,
            ]);
            let scratch = [k.scratch];
            assert(scratch@ =~= seq![k.scratch]);
            enc.launch(
                ctx,
                k.pipeline,
                words,
                &tensors,
                &scratch,
                MTLSize {
                    width: div_ceil(n_out, k.tile),
                    height: div_ceil(n_expert, 4),
                    depth: 1,
                },
                MTLSize { width: 128, height: 1, depth: 1 },
            )
        },
    }
}

/// Down projection through a Q5_K bank for every expert.
#[allow(non_snake_case)]
pub fn encode_moe_down_q5_K_f32_grouped_slots(
    ctx: &MetalContext,
    enc: &mut KernelEncoder,
    weight: &MetalTensor,
    inner: &MetalTensor,
    counts: &MetalTensor,
    ids: &MetalTensor,
    out: &MetalTensor,
    n_in: usize,
    n_out: usize,
    n_expert: usize,
    n_tokens: usize,
) -> (r: Result<(), MetalError>)
    requires
        grouped_down_defined(
            GroupedKernel::of(
                "moe_down_q5_K_grouped_slots",
                "kernel_moe_down_q5_K_f32_grouped_slots",
                GgmlType::Q5_K,
                256,
                176,
                32,
                8192,
            ),
            *weight, *inner, *counts, *ids, *out, n_in, n_out, n_expert, n_tokens,
        ),
    ensures
        old(enc).did(
            *final(enc),
            r,
            grouped_down(
                *ctx,
                GroupedKernel::of(
                    "moe_down_q5_K_grouped_slots",
                    "kernel_moe_down_q5_K_f32_grouped_slots",
                    GgmlType::Q5_K,
                    256,
                    176,
                    32,
                    8192,
                ),
                DownForm::Ranged,
                *weight, *inner, *counts, *ids, *out, n_in, n_out, n_expert, n_tokens, 0,
                MAX_COUNT,
            ),
        ),
{
    encode_grouped_down(
        ctx, enc,
        GroupedKernel::of(
            "moe_down_q5_K_grouped_slots",
            "kernel_moe_down_q5_K_f32_grouped_slots",
            GgmlType::Q5_K,
            256,
            176,
            32,
            8192,
        ),
        DownForm::Ranged,
        weight, inner, counts, ids, out, n_in, n_out, n_expert, n_tokens, 0, MAX_COUNT,
    )
}

/// Down projection through a Q5_K bank for the experts with `min_count` to
/// `max_count` slots.
#[allow(non_snake_case)]
pub fn encode_moe_down_q5_K_f32_grouped_slots_range(
    ctx: &MetalContext,
    enc: &mut KernelEncoder,
    weight: &MetalTensor,
    inner: &MetalTensor,
    counts: &MetalTensor,
    ids: &MetalTensor,
    out: &MetalTensor,
    n_in: usize,
    n_out: usize,
    n_expert: usize,
    n_tokens: usize,
    min_count: u32,
    max_count: u32,
) -> (r: Result<(), MetalError>)
    requires
        grouped_down_defined(
            GroupedKernel::of(
                "moe_down_q5_K_grouped_slots",
                "kernel_moe_down_q5_K_f32_grouped_slots",
                GgmlType::Q5_K,
                256,
                176,
                32,
                8192,
            ),
            *weight, *inner, *counts, *ids, *out, n_in, n_out, n_expert, n_tokens,
        ),
    ensures
        old(enc).did(
            *final(enc),
            r,
            grouped_down(
                *ctx,
                GroupedKernel::of(
                    "moe_down_q5_K_grouped_slots",
                    "kernel_moe_down_q5_K_f32_grouped_slots",
                    GgmlType::Q5_K,
                    256,
                    176,
                    32,
                    8192,
                ),
                DownForm::Ranged,
                *weight, *inner, *counts, *ids, *out, n_in, n_out, n_expert, n_tokens,
                min_count, max_count,
            ),
        ),
{
    encode_grouped_down(
        ctx, enc,
        GroupedKernel::of(
            "moe_down_q5_K_grouped_slots",
            "kernel_moe_down_q5_K_f32_grouped_slots",
            GgmlType::Q5_K,
            256,
            176,
            32,
            8192,
        ),
        DownForm::Ranged,
        weight, inner, counts, ids, out, n_in, n_out, n_expert, n_tokens, min_count, max_count,
    )
}

/// Down projection through a Q5_K bank for the experts with `min_count` to
/// `max_count` slots, 16 rows and four experts per threadgroup.
#[allow(non_snake_case)]
pub fn encode_moe_down_q5_K_f32_grouped_slots_tiny8_r16(
    ctx: &MetalContext,
    enc: &mut KernelEncoder,
    weight: &MetalTensor,
    inner: &MetalTensor,
    counts: &MetalTensor,
    ids: &MetalTensor,
    out: &MetalTensor,
    n_in: usize,
    n_out: usize,
    n_expert: usize,
    n_tokens: usize,
    min_count: u32,
    max_count: u32,
) -> (r: Result<(), MetalError>)
    requires
        grouped_down_defined(
            GroupedKernel::of(
                "moe_down_q5_K_grouped_slots_tiny8_r16",
                "kernel_moe_down_q5_K_f32_grouped_slots_tiny8_r16",
                GgmlType::Q5_K,
                256,
                176,
                16,
                8192,
            ),
            *weight, *inner, *counts, *ids, *out, n_in, n_out, n_expert, n_tokens,
        ),
    ensures
        old(enc).did(
            *final(enc),
            r,
            grouped_down(
                *ctx,
                GroupedKernel::of(
                    "moe_down_q5_K_grouped_slots_tiny8_r16",
                    "kernel_moe_down_q5_K_f32_grouped_slots_tiny8_r16",
                    GgmlType::Q5_K,
                    256,
                    176,
                    16,
                    8192,
                ),
                DownForm::Tiny,
                *weight, *inner, *counts, *ids, *out, n_in, n_out, n_expert, n_tokens,
                min_count, max_count,
            ),
        ),
{
    encode_grouped_down(
        ctx, enc,
        GroupedKernel::of(
            "moe_down_q5_K_grouped_slots_tiny8_r16",
            "kernel_moe_down_q5_K_f32_grouped_slots_tiny8_r16",
            GgmlType::Q5_K,
            256,
            176,
            16,
            8192,
        ),
        DownForm::Tiny,
        weight, inner, counts, ids, out, n_in, n_out, n_expert, n_tokens, min_count, max_count,
    )
}

/// Down projection through a Q6_K bank for every expert.
#[allow(non_snake_case)]
pub fn encode_moe_down_q6_K_f32_grouped_slots(
    ctx: &MetalContext,
    enc: &mut KernelEncoder,
    weight: &MetalTensor,
    inner: &MetalTensor,
    counts: &MetalTensor,
    ids: &MetalTensor,
    out: &MetalTensor,
    n_in: usize,
    n_out: usize,
    n_expert: usize,
    n_tokens: usize,
) -> (r: Result<(), MetalError>)
    requires
        grouped_down_defined(
            GroupedKernel::of(
                "moe_down_q6_K_grouped_slots",
                "kernel_moe_down_q6_K_f32_grouped_slots",
                GgmlType::Q6_K,
                256,
                210,
                32,
                8192,
            ),
            *weight, *inner, *counts, *ids, *out, n_in, n_out, n_expert, n_tokens,
        ),
    ensures
        old(enc).did(
            *final(enc),
            r,
            grouped_down(
                *ctx,
                GroupedKernel::of(
                    "moe_down_q6_K_grouped_slots",
                    "kernel_moe_down_q6_K_f32_grouped_slots",
                    GgmlType::Q6_K,
                    256,
                    210,
                    32,
                    8192,
                ),
                DownForm::Plain,
                *weight, *inner, *counts, *ids, *out, n_in, n_out, n_expert, n_tokens, 0,
                MAX_COUNT,
            ),
        ),
{
    encode_grouped_down(
        ctx, enc,
        GroupedKernel::of(
            "moe_down_q6_K_grouped_slots",
            "kernel_moe_down_q6_K_f32_grouped_slots",
            GgmlType::Q6_K,
            256,
            210,
            32,
            8192,
        ),
        DownForm::Plain,
        weight, inner, counts, ids, out, n_in, n_out, n_expert, n_tokens, 0, MAX_COUNT,
    )
}

/// Down projection through a Q8_0 bank for every expert.
pub fn encode_moe_down_q8_0_f32_grouped_slots(
    ctx: &MetalContext,
    enc: &mut KernelEncoder,
    weight: &MetalTensor,
    inner: &MetalTensor,
    counts: &MetalTensor,
    ids: &MetalTensor,
    out: &MetalTensor,
    n_in: usize,
    n_out: usize,
    n_expert: usize,
    n_tokens: usize,
) -> (r: Result<(), MetalError>)
    requires
        grouped_down_defined(
            GroupedKernel::of(
                "moe_down_q8_0_grouped_slots",
                "kernel_moe_down_q8_0_f32_grouped_slots",
                GgmlType::Q8_0,
                32,
                34,
                32,
                8192,
            ),
            *weight, *inner, *counts, *ids, *out, n_in, n_out, n_expert, n_tokens,
        ),
    ensures
        old(enc).did(
            *final(enc),
            r,
            grouped_down(
                *ctx,
                GroupedKernel::of(
                    "moe_down_q8_0_grouped_slots",
                    "kernel_moe_down_q8_0_f32_grouped_slots",
                    GgmlType::Q8_0,
                    32,
                    34,
                    32,
                    8192,
                ),
                DownForm::Plain,
                *weight, *inner, *counts, *ids, *out, n_in, n_out, n_expert, n_tokens, 0,
                MAX_COUNT,
            ),
        ),
{
    encode_grouped_down(
        ctx, enc,
        GroupedKernel::of(
            "moe_down_q8_0_grouped_slots",
            "kernel_moe_down_q8_0_f32_grouped_slots",
            GgmlType::Q8_0,
            32,
            34,
            32,
            8192,
        ),
        DownForm::Plain,
        weight, inner, counts, ids, out, n_in, n_out, n_expert, n_tokens, 0, MAX_COUNT,
    )
}

/// Down projection through a BF16 bank for every expert.
pub fn encode_moe_down_bf16_f32_grouped_slots(
    ctx: &MetalContext,
    enc: &mut KernelEncoder,
    weight: &MetalTensor,
    inner: &MetalTensor,
    counts: &MetalTensor,
    ids: &MetalTensor,
    out: &MetalTensor,
    n_in: usize,
    n_out: usize,
    n_expert: usize,
    n_tokens: usize,
) -> (r: Result<(), MetalError>)
    requires
        grouped_down_defined(
            GroupedKernel::of(
                "moe_down_bf16_grouped_slots",
                "kernel_moe_down_bf16_f32_grouped_slots",
                GgmlType::BF16,
                32,
                32,
                32,
                8192,
            ),
            *weight, *inner, *counts, *ids, *out, n_in, n_out, n_expert, n_tokens,
        ),
    ensures
        old(enc).did(
            *final(enc),
            r,
            grouped_down(
                *ctx,
                GroupedKernel::of(
                    "moe_down_bf16_grouped_slots",
                    "kernel_moe_down_bf16_f32_grouped_slots",
                    GgmlType::BF16,
                    32,
                    32,
                    32,
                    8192,
                ),
                DownForm::Ranged,
                *weight, *inner, *counts, *ids, *out, n_in, n_out, n_expert, n_tokens, 0,
                MAX_COUNT,
            ),
        ),
{
    encode_grouped_down(
        ctx, enc,
        GroupedKernel::of(
            "moe_down_bf16_grouped_slots",
            "kernel_moe_down_bf16_f32_grouped_slots",
            GgmlType::BF16,
            32,
            32,
            32,
            8192,
        ),
        DownForm::Ranged,
        weight, inner, counts, ids, out, n_in, n_out, n_expert, n_tokens, 0, MAX_COUNT,
    )
}

/// Down projection through a BF16 bank for the experts with `min_count` to
/// `max_count` slots.
pub fn encode_moe_down_bf16_f32_grouped_slots_range(
    ctx: &MetalContext,
    enc: &mut KernelEncoder,
    weight: &MetalTensor,
    inner: &MetalTensor,
    counts: &MetalTensor,
    ids: &MetalTensor,
    out: &MetalTensor,
    n_in: usize,
    n_out: usize,
    n_expert: usize,
    n_tokens: usize,
    min_count: u32,
    max_count: u32,
) -> (r: Result<(), MetalError>)
    requires
        grouped_down_defined(
            GroupedKernel::of(
                "moe_down_bf16_grouped_slots",
                "kernel_moe_down_bf16_f32_grouped_slots",
                GgmlType::BF16,
                32,
                32,
                32,
                8192,
            ),
            *weight, *inner, *counts, *ids, *out, n_in, n_out, n_expert, n_tokens,
        ),
    ensures
        old(enc).did(
            *final(enc),
            r,
            grouped_down(
                *ctx,
                GroupedKernel::of(
                    "moe_down_bf16_grouped_slots",
                    "kernel_moe_down_bf16_f32_grouped_slots",
                    GgmlType::BF16,
                    32,
                    32,
                    32,
                    8192,
                ),
                DownForm::Ranged,
                *weight, *inner, *counts, *ids, *out, n_in, n_out, n_expert, n_tokens,
                min_count, max_count,
            ),
        ),
{
    encode_grouped_down(
        ctx, enc,
        GroupedKernel::of(
            "moe_down_bf16_grouped_slots",
            "kernel_moe_down_bf16_f32_grouped_slots",
            GgmlType::BF16,
            32,
            32,
            32,
            8192,
        ),
        DownForm::Ranged,
        weight, inner, counts, ids, out, n_in, n_out, n_expert, n_tokens, min_count, max_count,
    )
}

/// Down projection through a IQ4_XS bank for every expert.
pub fn encode_moe_down_iq4_xs_f32_grouped_slots(
    ctx: &MetalContext,
    enc: &mut KernelEncoder,
    weight: &MetalTensor,
    inner: &MetalTensor,
    counts: &MetalTensor,
    ids: &MetalTensor,
    out: &MetalTensor,
    n_in: usize,
    n_out: usize,
    n_expert: usize,
    n_tokens: usize,
) -> (r: Result<(), MetalError>)
    requires
        grouped_down_defined(
            GroupedKernel::of(
                "moe_down_iq4_xs_grouped_slots",
                "kernel_moe_down_iq4_xs_f32_grouped_slots",
                GgmlType::IQ4_XS,
                256,
                1,
                32,
                8192,
            ),
            *weight, *inner, *counts, *ids, *out, n_in, n_out, n_expert, n_tokens,
        ),
    ensures
        old(enc).did(
            *final(enc),
            r,
            grouped_down(
                *ctx,
                GroupedKernel::of(
                    "moe_down_iq4_xs_grouped_slots",
                    "kernel_moe_down_iq4_xs_f32_grouped_slots",
                    GgmlType::IQ4_XS,
                    256,
                    1,
                    32,
                    8192,
                ),
                DownForm::Ranged,
                *weight, *inner, *counts, *ids, *out, n_in, n_out, n_expert, n_tokens, 0,
                MAX_COUNT,
            ),
        ),
{
    encode_grouped_down(
        ctx, enc,
        GroupedKernel::of(
            "moe_down_iq4_xs_grouped_slots",
            "kernel_moe_down_iq4_xs_f32_grouped_slots",
            GgmlType::IQ4_XS,
            256,
            1,
            32,
            8192,
        ),
        DownForm::Ranged,
        weight, inner, counts, ids, out, n_in, n_out, n_expert, n_tokens, 0, MAX_COUNT,
    )
}

} // verus!
