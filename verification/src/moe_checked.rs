//! Mixture-of-experts kernels whose tensors are held to type, size, writability,
//! alignment and buffer bounds.

use vstd::prelude::*;

use crate::context::MetalContext;
use crate::dtype::GgmlType;
use crate::encoder::{KernelEncoder, Launch, MTLSize, Outcome};
use crate::error::{bad_shape, check_i32, narrow_u32, AllowedDtypes, Fault, MetalError};
use crate::numeric;
use crate::numeric::{checked_fold_product, div_ceil};
use crate::shape;
use crate::shape::checked_ggml_shape_bytes;
use crate::tensor::MetalTensor;

verus! {

/// The dimensions of a decode kernel, each in 32 bits.
#[derive(Clone, Copy, Debug, PartialEq, Eq, Structural)]
pub struct MoeDecodeArgs {
    pub n_in: u32,
    pub n_out: u32,
    pub n_expert: u32,
    pub topk: u32,
}

/// What is wrong with the dimensions of a decode kernel.
pub open spec fn decode_dims_fault(
    kernel: Seq<char>,
    n_in: usize,
    n_out: usize,
    n_expert: usize,
    topk: usize,
) -> Option<Fault> {
    if n_in == 0 || n_out == 0 || n_expert == 0 || topk == 0 || topk > n_expert {
        Some(
            Fault::bad_shape(
                kernel,
                "dimensions must satisfy n_in,n_out,n_expert > 0 and 0 < topk <= n_expert, got n_in={} n_out={} n_expert={} topk={}"@,
            ).num(n_in as int).num(n_out as int).num(n_expert as int).num(topk as int),
        )
    } else {
        Fault::first(
            Fault::beyond_u32(kernel, "n_in"@, n_in),
            Fault::first(
                Fault::beyond_u32(kernel, "n_out"@, n_out),
                Fault::first(
                    Fault::beyond_u32(kernel, "n_expert"@, n_expert),
                    Fault::beyond_u32(kernel, "topk"@, topk),
                ),
            ),
        )
    }
}

/// The dimensions of a decode kernel, where the kernel can take them.
pub fn checked_moe_decode_args(
    kernel: &'static str,
    n_in: usize,
    n_out: usize,
    n_expert: usize,
    topk: usize,
) -> (r: Result<MoeDecodeArgs, MetalError>)
    ensures
        match decode_dims_fault(kernel@, n_in, n_out, n_expert, topk) {
            Some(fault) => r is Err && r->Err_0@ == fault,
            None => r is Ok && r->Ok_0 == (MoeDecodeArgs {
                n_in: n_in as u32,
                n_out: n_out as u32,
                n_expert: n_expert as u32,
                topk: topk as u32,
            }) && r->Ok_0.n_in == n_in && r->Ok_0.n_out == n_out && r->Ok_0.n_expert == n_expert
                && r->Ok_0.topk == topk,
        },
{
    if n_in == 0 || n_out == 0 || n_expert == 0 || topk == 0 || topk > n_expert {
        return Err(
            bad_shape(
                kernel,
                "dimensions must satisfy n_in,n_out,n_expert > 0 and 0 < topk <= n_expert, got n_in={} n_out={} n_expert={} topk={}",
            ).num(n_in).num(n_out).num(n_expert).num(topk),
        );
    }
    let n_in: u32 = match narrow_u32(kernel, "n_in", n_in) {
        Ok(n) => n,
        Err(e) => {
            return Err(e);
        },
    };
    let n_out: u32 = match narrow_u32(kernel, "n_out", n_out) {
        Ok(n) => n,
        Err(e) => {
            return Err(e);
        },
    };
    let n_expert: u32 = match narrow_u32(kernel, "n_expert", n_expert) {
        Ok(n) => n,
        Err(e) => {
            return Err(e);
        },
    };
    let topk: u32 = match narrow_u32(kernel, "topk", topk) {
        Ok(n) => n,
        Err(e) => {
            return Err(e);
        },
    };
    Ok(MoeDecodeArgs { n_in, n_out, n_expert, topk })
}

/// The message about an element count that does not fit.
pub open spec fn too_many_elements(kernel: Seq<char>, label: Seq<char>) -> Fault {
    Fault::bad_shape(kernel, "{} element count overflow"@).label(label)
}

/// The number of elements of a tensor with these dimensions, where it fits.
pub fn checked_moe_product(
    kernel: &'static str,
    label: &'static str,
    factors: &[usize],
) -> (r: Result<usize, MetalError>)
    ensures
        match numeric::fold_product(factors@) {
            Some(n) => r == Ok::<usize, MetalError>(n),
            None => r is Err && r->Err_0@ == too_many_elements(kernel@, label@),
        },
{
    match checked_fold_product(factors) {
        Some(n) => Ok(n),
        None => Err(bad_shape(kernel, "{} element count overflow").label(label)),
    }
}

/// What is wrong with one tensor of a decode kernel.
pub open spec fn decode_tensor_fault(
    kernel: Seq<char>,
    name: Seq<char>,
    tensor: MetalTensor,
    expected_elements: usize,
    allowed: AllowedDtypes,
    writable: bool,
    alignment: usize,
) -> Option<Fault> {
    if !allowed.admits(tensor.dtype) {
        Some(
            Fault::bad_shape(kernel, "{} has dtype {}, expected {}"@).label(name).dtype(
                tensor.dtype,
            ).dtypes(allowed),
        )
    } else {
        match shape::block_bytes(tensor.shape@, tensor.dtype) {
            Err(fault) => Some(fault),
            Ok((elements, bytes)) => if elements != expected_elements {
                Some(
                    Fault::bad_shape(kernel, "{} has {} elements, expected {}"@).label(name).num(
                        elements as int,
                    ).num(expected_elements as int),
                )
            } else if writable && !tensor.writable() {
                Some(
                    Fault::bad_shape(kernel, "{} must be writable, provenance={}"@).label(
                        name,
                    ).provenance(tensor.provenance),
                )
            } else if alignment == 0 || tensor.offset % (alignment as u64) != 0 {
                Some(
                    Fault::bad_shape(
                        kernel,
                        "{} offset {} is not {}-byte aligned"@,
                    ).label(name).num(
                        tensor.offset as int,
                    ).num(alignment as int),
                )
            } else if tensor.offset + bytes > u64::MAX {
                Some(Fault::bad_shape(kernel, "{} buffer range overflow"@).label(name))
            } else if tensor.offset + bytes > tensor.buffer.length {
                Some(
                    Fault::bad_shape(
                        kernel,
                        "{} range offset={} bytes={} exceeds buffer={}"@,
                    ).label(
                        name,
                    ).num(tensor.offset as int).num(bytes as int).num(tensor.buffer.length as int),
                )
            } else {
                None
            },
        }
    }
}

/// Hold one tensor of a decode kernel to what the kernel needs of it.
pub fn validate_moe_decode_tensor(
    kernel: &'static str,
    name: &'static str,
    tensor: &MetalTensor,
    expected_elements: usize,
    allowed: AllowedDtypes,
    writable: bool,
    alignment: usize,
) -> (r: Result<(), MetalError>)
    ensures
        match decode_tensor_fault(
            kernel@,
            name@,
            *tensor,
            expected_elements,
            allowed,
            writable,
            alignment,
        ) {
            Some(fault) => r is Err && r->Err_0@ == fault,
            None => r is Ok,
        },
{
    if !allowed.contains(tensor.dtype) {
        return Err(
            bad_shape(kernel, "{} has dtype {}, expected {}").label(name).dtype(
                tensor.dtype,
            ).dtypes(allowed),
        );
    }
    let (elements, bytes) = match checked_ggml_shape_bytes(tensor.shape.as_slice(), tensor.dtype) {
        Ok(counts) => counts,
        Err(e) => {
            return Err(e);
        },
    };
    if elements != expected_elements {
        return Err(
            bad_shape(kernel, "{} has {} elements, expected {}").label(name).num(elements).num(
                expected_elements,
            ),
        );
    }
    if writable && !tensor.is_writable() {
        return Err(
            bad_shape(kernel, "{} must be writable, provenance={}").label(name).provenance(
                tensor.provenance(),
            ),
        );
    }
    if alignment == 0 || tensor.offset % (alignment as u64) != 0 {
        return Err(
            bad_shape(kernel, "{} offset {} is not {}-byte aligned").label(name).num_u64(
                tensor.offset,
            ).num(alignment),
        );
    }
    let end: u64 = match tensor.offset.checked_add(bytes as u64) {
        Some(end) => end,
        None => {
            return Err(bad_shape(kernel, "{} buffer range overflow").label(name));
        },
    };
    if end > tensor.buffer.length() as u64 {
        return Err(
            bad_shape(kernel, "{} range offset={} bytes={} exceeds buffer={}").label(name).num_u64(
                tensor.offset,
            ).num(bytes).num(tensor.buffer.length()),
        );
    }
    Ok(())
}

/// A tensor that a decode kernel accepts lies inside its buffer, is aligned, and
/// is writable where the kernel writes it.
pub proof fn law_accepted_tensor_is_safe(
    kernel: Seq<char>,
    name: Seq<char>,
    tensor: MetalTensor,
    expected_elements: usize,
    allowed: AllowedDtypes,
    writable: bool,
    alignment: usize,
)
    requires
        decode_tensor_fault(
            kernel,
            name,
            tensor,
            expected_elements,
            allowed,
            writable,
            alignment,
        ) is None,
    ensures
        allowed.admits(tensor.dtype),
        tensor.count() == expected_elements,
        writable ==> tensor.writable(),
        tensor.offset % (alignment as u64) == 0,
        forall|at: int| #[trigger] tensor.covers(at) ==> 0 <= at < tensor.buffer.length,
{
}

/// SwiGLU decode through IQ4_XS expert banks, with every tensor held to its
/// buffer.
pub open spec fn iq4_xs_swiglu(
    ctx: MetalContext,
    w_gate: MetalTensor,
    w_up: MetalTensor,
    x: MetalTensor,
    topk_idx: MetalTensor,
    inner: MetalTensor,
    n_in: usize,
    n_out: usize,
    n_expert: usize,
    topk: usize,
) -> Outcome {
    let kernel = "moe_swiglu_iq4_xs"@;
    let bank = numeric::fold_product(seq![n_in, n_out, n_expert]);
    let inner_size = numeric::fold_product(seq![topk, n_out]);
    if decode_dims_fault(kernel, n_in, n_out, n_expert, topk) is Some {
        Outcome::Refused(decode_dims_fault(kernel, n_in, n_out, n_expert, topk)->0)
    } else if n_in % 256 != 0 {
        Outcome::Refused(
            Fault::bad_shape(kernel, "n_in={} not divisible by 256"@).num(n_in as int),
        )
    } else if bank is None {
        Outcome::Refused(too_many_elements(kernel, "expert bank"@))
    } else if inner_size is None {
        Outcome::Refused(too_many_elements(kernel, "inner output"@))
    } else {
        match Fault::first(
            decode_tensor_fault(
                kernel,
                "gate expert bank"@,
                w_gate,
                bank->0,
                AllowedDtypes::Only(GgmlType::IQ4_XS),
                false,
                2,
            ),
            Fault::first(
                decode_tensor_fault(
                    kernel,
                    "up expert bank"@,
                    w_up,
                    bank->0,
                    AllowedDtypes::Only(GgmlType::IQ4_XS),
                    false,
                    2,
                ),
                Fault::first(
                    decode_tensor_fault(
                        kernel,
                        "input"@,
                        x,
                        n_in,
                        AllowedDtypes::Only(GgmlType::F32),
                        false,
                        4,
                    ),
                    Fault::first(
                        decode_tensor_fault(
                            kernel,
                            "top-k indices"@,
                            topk_idx,
                            topk,
                            AllowedDtypes::I32OrF32,
                            false,
                            4,
                        ),
                        decode_tensor_fault(
                            kernel,
                            "inner output"@,
                            inner,
                            inner_size->0,
                            AllowedDtypes::Only(GgmlType::F32),
                            true,
                            4,
                        ),
                    ),
                ),
            ),
        ) {
            Some(fault) => Outcome::Refused(fault),
            None => Outcome::launch(
                ctx,
                Launch {
                    pipeline: "kernel_moe_swiglu_iq4_xs_f32"@,
                    words: seq![n_in as u32, n_out as u32, n_expert as u32, topk as u32],
                    tensors: seq![
                        w_gate.place(),
                        w_up.place(),
                        x.place(),
                        topk_idx.place(),
                        inner.place(),
                    ],
                    scratch: seq![],
                    threadgroups: MTLSize {
                        width: numeric::div_up(n_out, 4),
                        height: topk,
                        depth: 1,
                    },
                    threads: MTLSize { width: 128, height: 1, depth: 1 },
                },
            ),
        }
    }
}

/// SwiGLU decode through IQ4_XS expert banks.
pub fn encode_moe_swiglu_iq4_xs_f32(
    ctx: &MetalContext,
    enc: &mut KernelEncoder,
    w_gate: &MetalTensor,
    w_up: &MetalTensor,
    x: &MetalTensor,
    topk_idx: &MetalTensor,
    inner: &MetalTensor,
    n_in: usize,
    n_out: usize,
    n_expert: usize,
    topk: usize,
) -> (r: Result<(), MetalError>)
    ensures
        old(enc).did(
            *final(enc),
            r,
            iq4_xs_swiglu(
                *ctx,
                *w_gate, *w_up, *x, *topk_idx, *inner, n_in, n_out, n_expert, topk,
            ),
        ),
{
    let kernel = "moe_swiglu_iq4_xs";
    let args = match checked_moe_decode_args(kernel, n_in, n_out, n_expert, topk) {
        Ok(args) => args,
        Err(e) => {
            return Err(e);
        },
    };
    if n_in % 256 != 0 {
        return Err(bad_shape(kernel, "n_in={} not divisible by 256").num(n_in));
    }
    let factors = [n_in, n_out, n_expert];
    assert(factors@ =~= seq![n_in, n_out, n_expert]);
    let bank_elements: usize = match checked_moe_product(kernel, "expert bank", &factors) {
        Ok(n) => n,
        Err(e) => {
            return Err(e);
        },
    };
    let factors = [topk, n_out];
    assert(factors@ =~= seq![topk, n_out]);
    let inner_elements: usize = match checked_moe_product(kernel, "inner output", &factors) {
        Ok(n) => n,
        Err(e) => {
            return Err(e);
        },
    };
    match validate_moe_decode_tensor(
        kernel,
        "gate expert bank",
        w_gate,
        bank_elements,
        AllowedDtypes::Only(GgmlType::IQ4_XS),
        false,
        2,
    ) {
        Ok(()) => {},
        Err(e) => {
            return Err(e);
        },
    }
    match validate_moe_decode_tensor(
        kernel,
        "up expert bank",
        w_up,
        bank_elements,
        AllowedDtypes::Only(GgmlType::IQ4_XS),
        false,
        2,
    ) {
        Ok(()) => {},
        Err(e) => {
            return Err(e);
        },
    }
    match validate_moe_decode_tensor(
        kernel,
        "input",
        x,
        n_in,
        AllowedDtypes::Only(GgmlType::F32),
        false,
        4,
    ) {
        Ok(()) => {},
        Err(e) => {
            return Err(e);
        },
    }
    match validate_moe_decode_tensor(
        kernel,
        "top-k indices",
        topk_idx,
        topk,
        AllowedDtypes::I32OrF32,
        false,
        4,
    ) {
        Ok(()) => {},
        Err(e) => {
            return Err(e);
        },
    }
    match validate_moe_decode_tensor(
        kernel,
        "inner output",
        inner,
        inner_elements,
        AllowedDtypes::Only(GgmlType::F32),
        true,
        4,
    ) {
        Ok(()) => {},
        Err(e) => {
            return Err(e);
        },
    }
    let words: Vec<u32> = vec![args.n_in, args.n_out, args.n_expert, args.topk];
    assert(words@ =~= seq![n_in as u32, n_out as u32, n_expert as u32, topk as u32]);
    let tensors = [w_gate.binding(), w_up.binding(), x.binding(), topk_idx.binding(), inner.binding()];
    assert(
        tensors@ =~= seq![w_gate.place(), w_up.place(), x.place(), topk_idx.place(), inner.place()]
    );
    let scratch: Vec<usize> = Vec::new();
    assert(scratch@ =~= seq![]);
    enc.launch(
        ctx,
        "kernel_moe_swiglu_iq4_xs_f32",
        words,
        &tensors,
        scratch.as_slice(),
        MTLSize { width: div_ceil(n_out, 4), height: topk, depth: 1 },
        MTLSize { width: 128, height: 1, depth: 1 },
    )
}

/// SwiGLU through IQ4_XS banks over grouped slots, with every tensor held to its
/// buffer.
pub open spec fn iq4_xs_grouped_swiglu(
    ctx: MetalContext,
    w_gate: MetalTensor,
    w_up: MetalTensor,
    x_pack: MetalTensor,
    counts: MetalTensor,
    ids: MetalTensor,
    inner: MetalTensor,
    n_hidden: usize,
    n_ffn: usize,
    n_expert: usize,
    topk: usize,
    n_tokens: usize,
) -> Outcome {
    let kernel = "moe_swiglu_iq4_xs_grouped_slots_n16"@;
    let slots = numeric::fold_product(seq![n_tokens, topk]);
    let bank = numeric::fold_product(seq![n_hidden, n_ffn, n_expert]);
    let input = numeric::fold_product(seq![n_tokens, n_hidden]);
    let buckets = numeric::fold_product(seq![n_expert, n_tokens]);
    let inner_size = numeric::fold_product(seq![slots->0, n_ffn]);
    let indices = Fault::first(
        Fault::beyond_i32(kernel, "n_ffn"@, n_ffn),
        Fault::first(
            Fault::beyond_i32(kernel, "n_expert"@, n_expert),
            Fault::beyond_i32(kernel, "n_tokens"@, n_tokens),
        ),
    );
    if decode_dims_fault(kernel, n_hidden, n_ffn, n_expert, topk) is Some {
        Outcome::Refused(decode_dims_fault(kernel, n_hidden, n_ffn, n_expert, topk)->0)
    } else if n_hidden % 256 != 0 {
        Outcome::Refused(
            Fault::bad_shape(kernel, "n_hidden={} not divisible by 256"@).num(n_hidden as int),
        )
    } else if topk > 16 {
        Outcome::Refused(
            Fault::bad_shape(kernel, "topk={} exceeds grouped kernel limit 16"@).num(topk as int),
        )
    } else if Fault::beyond_u32(kernel, "n_tokens"@, n_tokens) is Some {
        Outcome::Refused(Fault::beyond_u32(kernel, "n_tokens"@, n_tokens)->0)
    } else if n_tokens == 0 {
        Outcome::Refused(Fault::bad_shape(kernel, "n_tokens must be nonzero"@))
    } else if indices is Some {
        Outcome::Refused(indices->0)
    } else if slots is None {
        Outcome::Refused(too_many_elements(kernel, "route slots"@))
    } else if slots->0 > i32::MAX {
        Outcome::Refused(
            Fault::bad_shape(kernel, "route slot count {} exceeds signed shader indexing"@).num(
                slots->0 as int,
            ),
        )
    } else if bank is None {
        Outcome::Refused(too_many_elements(kernel, "expert bank"@))
    } else if input is None {
        Outcome::Refused(too_many_elements(kernel, "packed input"@))
    } else if buckets is None {
        Outcome::Refused(too_many_elements(kernel, "expert buckets"@))
    } else if inner_size is None {
        Outcome::Refused(too_many_elements(kernel, "inner output"@))
    } else {
        match Fault::first(
            decode_tensor_fault(
                kernel,
                "gate expert bank"@,
                w_gate,
                bank->0,
                AllowedDtypes::Only(GgmlType::IQ4_XS),
                false,
                2,
            ),
            Fault::first(
                decode_tensor_fault(
                    kernel,
                    "up expert bank"@,
                    w_up,
                    bank->0,
                    AllowedDtypes::Only(GgmlType::IQ4_XS),
                    false,
                    2,
                ),
                Fault::first(
                    decode_tensor_fault(
                        kernel,
                        "packed input"@,
                        x_pack,
                        input->0,
                        AllowedDtypes::Only(GgmlType::F32),
                        false,
                        16,
                    ),
                    Fault::first(
                        decode_tensor_fault(
                            kernel,
                            "expert counts"@,
                            counts,
                            n_expert,
                            AllowedDtypes::Only(GgmlType::I32),
                            false,
                            4,
                        ),
                        Fault::first(
                            decode_tensor_fault(
                                kernel,
                                "expert slot buckets"@,
                                ids,
                                buckets->0,
                                AllowedDtypes::Only(GgmlType::I32),
                                false,
                                4,
                            ),
                            decode_tensor_fault(
                                kernel,
                                "inner output"@,
                                inner,
                                inner_size->0,
                                AllowedDtypes::Only(GgmlType::F32),
                                true,
                                4,
                            ),
                        ),
                    ),
                ),
            ),
        ) {
            Some(fault) => Outcome::Refused(fault),
            None => Outcome::launch(
                ctx,
                Launch {
                    pipeline: "kernel_moe_swiglu_iq4_xs_f32_grouped_slots_n16"@,
                    words: seq![
                        n_ffn as u32,
                        n_hidden as u32,
                        n_expert as u32,
                        topk as u32,
                        n_tokens as u32,
                        n_hidden as u32 / 256,
                        n_hidden as u32,
                        0u32,
                        n_tokens as u32,
                    ],
                    tensors: seq![
                        w_gate.place(),
                        w_up.place(),
                        x_pack.place(),
                        counts.place(),
                        ids.place(),
                        inner.place(),
                    ],
                    scratch: seq![16384usize],
                    threadgroups: MTLSize {
                        width: numeric::div_up(n_tokens, 16),
                        height: numeric::div_up(n_ffn, 64),
                        depth: n_expert,
                    },
                    threads: MTLSize { width: 128, height: 1, depth: 1 },
                },
            ),
        }
    }
}

/// SwiGLU through IQ4_XS banks for every expert, 16 slots at a time.
pub fn encode_moe_swiglu_iq4_xs_f32_grouped_slots_n16(
    ctx: &MetalContext,
    enc: &mut KernelEncoder,
    w_gate: &MetalTensor,
    w_up: &MetalTensor,
    x_pack: &MetalTensor,
    counts: &MetalTensor,
    ids: &MetalTensor,
    inner: &MetalTensor,
    n_hidden: usize,
    n_ffn: usize,
    n_expert: usize,
    topk: usize,
    n_tokens: usize,
) -> (r: Result<(), MetalError>)
    ensures
        old(enc).did(
            *final(enc),
            r,
            iq4_xs_grouped_swiglu(
                *ctx,
                *w_gate, *w_up, *x_pack, *counts, *ids, *inner, n_hidden, n_ffn, n_expert, topk,
                n_tokens,
            ),
        ),
{
    let kernel = "moe_swiglu_iq4_xs_grouped_slots_n16";
    let args = match checked_moe_decode_args(kernel, n_hidden, n_ffn, n_expert, topk) {
        Ok(args) => args,
        Err(e) => {
            return Err(e);
        },
    };
    if n_hidden % 256 != 0 {
        return Err(bad_shape(kernel, "n_hidden={} not divisible by 256").num(n_hidden));
    }
    if topk > 16 {
        return Err(bad_shape(kernel, "topk={} exceeds grouped kernel limit 16").num(topk));
    }
    let n_tokens_u32: u32 = match narrow_u32(kernel, "n_tokens", n_tokens) {
        Ok(n) => n,
        Err(e) => {
            return Err(e);
        },
    };
    if n_tokens == 0 {
        return Err(bad_shape(kernel, "n_tokens must be nonzero"));
    }
    match check_i32(kernel, "n_ffn", n_ffn) {
        Ok(()) => {},
        Err(e) => {
            return Err(e);
        },
    }
    match check_i32(kernel, "n_expert", n_expert) {
        Ok(()) => {},
        Err(e) => {
            return Err(e);
        },
    }
    match check_i32(kernel, "n_tokens", n_tokens) {
        Ok(()) => {},
        Err(e) => {
            return Err(e);
        },
    }
    let factors = [n_tokens, topk];
    assert(factors@ =~= seq![n_tokens, topk]);
    let slot_count: usize = match checked_moe_product(kernel, "route slots", &factors) {
        Ok(n) => n,
        Err(e) => {
            return Err(e);
        },
    };
    if slot_count > i32::MAX as usize {
        return Err(
            bad_shape(kernel, "route slot count {} exceeds signed shader indexing").num(slot_count),
        );
    }
    let factors = [n_hidden, n_ffn, n_expert];
    assert(factors@ =~= seq![n_hidden, n_ffn, n_expert]);
    let bank_elements: usize = match checked_moe_product(kernel, "expert bank", &factors) {
        Ok(n) => n,
        Err(e) => {
            return Err(e);
        },
    };
    let factors = [n_tokens, n_hidden];
    assert(factors@ =~= seq![n_tokens, n_hidden]);
    let input_elements: usize = match checked_moe_product(kernel, "packed input", &factors) {
        Ok(n) => n,
        Err(e) => {
            return Err(e);
        },
    };
    let factors = [n_expert, n_tokens];
    assert(factors@ =~= seq![n_expert, n_tokens]);
    let bucket_elements: usize = match checked_moe_product(kernel, "expert buckets", &factors) {
        Ok(n) => n,
        Err(e) => {
            return Err(e);
        },
    };
    let factors = [slot_count, n_ffn];
    assert(factors@ =~= seq![slot_count, n_ffn]);
    let inner_elements: usize = match checked_moe_product(kernel, "inner output", &factors) {
        Ok(n) => n,
        Err(e) => {
            return Err(e);
        },
    };
    match validate_moe_decode_tensor(
        kernel,
        "gate expert bank",
        w_gate,
        bank_elements,
        AllowedDtypes::Only(GgmlType::IQ4_XS),
        false,
        2,
    ) {
        Ok(()) => {},
        Err(e) => {
            return Err(e);
        },
    }
    match validate_moe_decode_tensor(
        kernel,
        "up expert bank",
        w_up,
        bank_elements,
        AllowedDtypes::Only(GgmlType::IQ4_XS),
        false,
        2,
    ) {
        Ok(()) => {},
        Err(e) => {
            return Err(e);
        },
    }
    match validate_moe_decode_tensor(
        kernel,
        "packed input",
        x_pack,
        input_elements,
        AllowedDtypes::Only(GgmlType::F32),
        false,
        16,
    ) {
        Ok(()) => {},
        Err(e) => {
            return Err(e);
        },
    }
    match validate_moe_decode_tensor(
        kernel,
        "expert counts",
        counts,
        n_expert,
        AllowedDtypes::Only(GgmlType::I32),
        false,
        4,
    ) {
        Ok(()) => {},
        Err(e) => {
            return Err(e);
        },
    }
    match validate_moe_decode_tensor(
        kernel,
        "expert slot buckets",
        ids,
        bucket_elements,
        AllowedDtypes::Only(GgmlType::I32),
        false,
        4,
    ) {
        Ok(()) => {},
        Err(e) => {
            return Err(e);
        },
    }
    match validate_moe_decode_tensor(
        kernel,
        "inner output",
        inner,
        inner_elements,
        AllowedDtypes::Only(GgmlType::F32),
        true,
        4,
    ) {
        Ok(()) => {},
        Err(e) => {
            return Err(e);
        },
    }
    let words: Vec<u32> = vec![
        args.n_out,
        args.n_in,
        args.n_expert,
        args.topk,
        n_tokens_u32,
        args.n_in / 256,
        args.n_in,
        0,
        n_tokens_u32,
    ];
    assert(words@ =~= seq![
        n_ffn as u32,
        n_hidden as u32,
        n_expert as u32,
        topk as u32,
        n_tokens as u32,
        n_hidden as u32 / 256,
        n_hidden as u32,
        0u32,
        n_tokens as u32,
    ]);
    let tensors = [w_gate.binding(), w_up.binding(), x_pack.binding(), counts.binding(), ids.binding(), inner.binding()];
    assert(
        tensors@ =~= seq![
            w_gate.place(),
            w_up.place(),
            x_pack.place(),
            counts.place(),
            ids.place(),
            inner.place(),
        ]
    );
    let scratch = [16384usize];
    assert(scratch@ =~= seq![16384usize]);
    enc.launch(
        ctx,
        "kernel_moe_swiglu_iq4_xs_f32_grouped_slots_n16",
        words,
        &tensors,
        &scratch,
        MTLSize { width: div_ceil(n_tokens, 16), height: div_ceil(n_ffn, 64), depth: n_expert },
        MTLSize { width: 128, height: 1, depth: 1 },
    )
}

/// Down projection through an IQ4_NL bank, with every tensor held to its buffer.
/// The `fast` kernel reads the inner rows in vectors of four.
pub open spec fn iq4_nl_down(
    ctx: MetalContext,
    weight: MetalTensor,
    inner: MetalTensor,
    topk_idx: MetalTensor,
    expert_out: MetalTensor,
    n_in: usize,
    n_out: usize,
    n_expert: usize,
    topk: usize,
    fast: bool,
) -> Outcome {
    let kernel = if fast {
        "moe_down_iq4_nl_fast"@
    } else {
        "moe_down_iq4_nl"@
    };
    let inner_alignment = if fast {
        16usize
    } else {
        4usize
    };
    let bank = numeric::fold_product(seq![n_in, n_out, n_expert]);
    let inner_size = numeric::fold_product(seq![topk, n_in]);
    let out_size = numeric::fold_product(seq![topk, n_out]);
    if decode_dims_fault(kernel, n_in, n_out, n_expert, topk) is Some {
        Outcome::Refused(decode_dims_fault(kernel, n_in, n_out, n_expert, topk)->0)
    } else if n_in % 32 != 0 {
        Outcome::Refused(
            Fault::bad_shape(kernel, "n_in={} not divisible by 32"@).num(n_in as int),
        )
    } else if bank is None {
        Outcome::Refused(too_many_elements(kernel, "expert bank"@))
    } else if inner_size is None {
        Outcome::Refused(too_many_elements(kernel, "inner input"@))
    } else if out_size is None {
        Outcome::Refused(too_many_elements(kernel, "expert output"@))
    } else {
        match Fault::first(
            decode_tensor_fault(
                kernel,
                "down expert bank"@,
                weight,
                bank->0,
                AllowedDtypes::Only(GgmlType::IQ4_NL),
                false,
                2,
            ),
            Fault::first(
                decode_tensor_fault(
                    kernel,
                    "inner input"@,
                    inner,
                    inner_size->0,
                    AllowedDtypes::Only(GgmlType::F32),
                    false,
                    inner_alignment,
                ),
                Fault::first(
                    decode_tensor_fault(
                        kernel,
                        "top-k indices"@,
                        topk_idx,
                        topk,
                        AllowedDtypes::I32OrF32,
                        false,
                        4,
                    ),
                    decode_tensor_fault(
                        kernel,
                        "expert output"@,
                        expert_out,
                        out_size->0,
                        AllowedDtypes::Only(GgmlType::F32),
                        true,
                        4,
                    ),
                ),
            ),
        ) {
            Some(fault) => Outcome::Refused(fault),
            None => Outcome::launch(
                ctx,
                Launch {
                    pipeline: if fast {
                        "kernel_moe_down_iq4_nl_f32_fast"@
                    } else {
                        "kernel_moe_down_iq4_nl_f32"@
                    },
                    words: seq![n_in as u32, n_out as u32, n_expert as u32, topk as u32],
                    tensors: seq![
                        weight.place(),
                        inner.place(),
                        topk_idx.place(),
                        expert_out.place(),
                    ],
                    scratch: if fast {
                        seq![128usize]
                    } else {
                        seq![]
                    },
                    threadgroups: MTLSize {
                        width: numeric::div_up(n_out, 4),
                        height: topk,
                        depth: 1,
                    },
                    threads: MTLSize {
                        width: if fast {
                            64
                        } else {
                            128
                        },
                        height: 1,
                        depth: 1,
                    },
                },
            ),
        }
    }
}

fn encode_moe_down_iq4_nl_f32_inner(
    ctx: &MetalContext,
    enc: &mut KernelEncoder,
    weight: &MetalTensor,
    inner: &MetalTensor,
    topk_idx: &MetalTensor,
    expert_out: &MetalTensor,
    n_in: usize,
    n_out: usize,
    n_expert: usize,
    topk: usize,
    fast: bool,
) -> (r: Result<(), MetalError>)
    ensures
        old(enc).did(
            *final(enc),
            r,
            iq4_nl_down(
                *ctx,
                *weight, *inner, *topk_idx, *expert_out, n_in, n_out, n_expert, topk, fast,
            ),
        ),
{
    let kernel = if fast {
        "moe_down_iq4_nl_fast"
    } else {
        "moe_down_iq4_nl"
    };
    let inner_alignment: usize = if fast {
        16
    } else {
        4
    };
    let args = match checked_moe_decode_args(kernel, n_in, n_out, n_expert, topk) {
        Ok(args) => args,
        Err(e) => {
            return Err(e);
        },
    };
    if n_in % 32 != 0 {
        return Err(bad_shape(kernel, "n_in={} not divisible by 32").num(n_in));
    }
    let factors = [n_in, n_out, n_expert];
    assert(factors@ =~= seq![n_in, n_out, n_expert]);
    let bank_elements: usize = match checked_moe_product(kernel, "expert bank", &factors) {
        Ok(n) => n,
        Err(e) => {
            return Err(e);
        },
    };
    let factors = [topk, n_in];
    assert(factors@ =~= seq![topk, n_in]);
    let inner_elements: usize = match checked_moe_product(kernel, "inner input", &factors) {
        Ok(n) => n,
        Err(e) => {
            return Err(e);
        },
    };
    let factors = [topk, n_out];
    assert(factors@ =~= seq![topk, n_out]);
    let output_elements: usize = match checked_moe_product(kernel, "expert output", &factors) {
        Ok(n) => n,
        Err(e) => {
            return Err(e);
        },
    };
    match validate_moe_decode_tensor(
        kernel,
        "down expert bank",
        weight,
        bank_elements,
        AllowedDtypes::Only(GgmlType::IQ4_NL),
        false,
        2,
    ) {
        Ok(()) => {},
        Err(e) => {
            return Err(e);
        },
    }
    match validate_moe_decode_tensor(
        kernel,
        "inner input",
        inner,
        inner_elements,
        AllowedDtypes::Only(GgmlType::F32),
        false,
        inner_alignment,
    ) {
        Ok(()) => {},
        Err(e) => {
            return Err(e);
        },
    }
    match validate_moe_decode_tensor(
        kernel,
        "top-k indices",
        topk_idx,
        topk,
        AllowedDtypes::I32OrF32,
        false,
        4,
    ) {
        Ok(()) => {},
        Err(e) => {
            return Err(e);
        },
    }
    match validate_moe_decode_tensor(
        kernel,
        "expert output",
        expert_out,
        output_elements,
        AllowedDtypes::Only(GgmlType::F32),
        true,
        4,
    ) {
        Ok(()) => {},
        Err(e) => {
            return Err(e);
        },
    }
    let words: Vec<u32> = vec![args.n_in, args.n_out, args.n_expert, args.topk];
    assert(words@ =~= seq![n_in as u32, n_out as u32, n_expert as u32, topk as u32]);
    let tensors = [weight.binding(), inner.binding(), topk_idx.binding(), expert_out.binding()];
    assert(tensors@ =~= seq![weight.place(), inner.place(), topk_idx.place(), expert_out.place()]);
    let pipeline = if fast {
        "kernel_moe_down_iq4_nl_f32_fast"
    } else {
        "kernel_moe_down_iq4_nl_f32"
    };
    let mut scratch: Vec<usize> = Vec::new();
    let mut threads: usize = 128;
    if fast {
        scratch.push(128);
        threads = 64;
    }
    assert(scratch@ =~= if fast {
        seq![128usize]
    } else {
        seq![]
    });
    enc.launch(
        ctx,
        pipeline,
        words,
        &tensors,
        scratch.as_slice(),
        MTLSize { width: div_ceil(n_out, 4), height: topk, depth: 1 },
        MTLSize { width: threads, height: 1, depth: 1 },
    )
}

/// Down projection through an IQ4_NL expert bank.
pub fn encode_moe_down_iq4_nl_f32(
    ctx: &MetalContext,
    enc: &mut KernelEncoder,
    weight: &MetalTensor,
    inner: &MetalTensor,
    topk_idx: &MetalTensor,
    expert_out: &MetalTensor,
    n_in: usize,
    n_out: usize,
    n_expert: usize,
    topk: usize,
) -> (r: Result<(), MetalError>)
    ensures
        old(enc).did(
            *final(enc),
            r,
            iq4_nl_down(
                *ctx,
                *weight, *inner, *topk_idx, *expert_out, n_in, n_out, n_expert, topk, false,
            ),
        ),
{
    encode_moe_down_iq4_nl_f32_inner(
        ctx, enc,
        weight, inner, topk_idx, expert_out, n_in, n_out, n_expert, topk, false,
    )
}

/// Down projection through an IQ4_NL expert bank, two rows per simdgroup.
pub fn encode_moe_down_iq4_nl_f32_fast(
    ctx: &MetalContext,
    enc: &mut KernelEncoder,
    weight: &MetalTensor,
    inner: &MetalTensor,
    topk_idx: &MetalTensor,
    expert_out: &MetalTensor,
    n_in: usize,
    n_out: usize,
    n_expert: usize,
    topk: usize,
) -> (r: Result<(), MetalError>)
    ensures
        old(enc).did(
            *final(enc),
            r,
            iq4_nl_down(
                *ctx,
                *weight, *inner, *topk_idx, *expert_out, n_in, n_out, n_expert, topk, true,
            ),
        ),
{
    encode_moe_down_iq4_nl_f32_inner(
        ctx, enc,
        weight, inner, topk_idx, expert_out, n_in, n_out, n_expert, topk, true,
    )
}

/// How a down projection of grouped slots through an IQ4_NL bank is tiled.
#[derive(Clone, Copy)]
pub struct MoeDownIq4NlGroupedSlotsKernel {
    pub validation_name: &'static str,
    pub pipeline_name: &'static str,
    pub tile_m: usize,
    pub tile_n: usize,
    pub threadgroup_memory: usize,
}

impl MoeDownIq4NlGroupedSlotsKernel {
    /// 64 rows by 32 slots.
    #[verifier::allow_in_spec]
    pub fn m64_n32() -> MoeDownIq4NlGroupedSlotsKernel
        returns
            (MoeDownIq4NlGroupedSlotsKernel {
                validation_name: "moe_down_iq4_nl_grouped_slots",
                pipeline_name: "kernel_moe_down_iq4_nl_f32_grouped_slots",
                tile_m: 64,
                tile_n: 32,
                threadgroup_memory: 8192,
            }),
    {
        MoeDownIq4NlGroupedSlotsKernel {
            validation_name: "moe_down_iq4_nl_grouped_slots",
            pipeline_name: "kernel_moe_down_iq4_nl_f32_grouped_slots",
            tile_m: 64,
            tile_n: 32,
            threadgroup_memory: 8192,
        }
    }

    /// 128 rows by 16 slots.
    #[verifier::allow_in_spec]
    pub fn m128_n16() -> MoeDownIq4NlGroupedSlotsKernel
        returns
            (MoeDownIq4NlGroupedSlotsKernel {
                validation_name: "moe_down_iq4_nl_grouped_slots_m128_n16",
                pipeline_name: "kernel_moe_down_iq4_nl_f32_grouped_slots_m128_n16",
                tile_m: 128,
                tile_n: 16,
                threadgroup_memory: 9216,
            }),
    {
        MoeDownIq4NlGroupedSlotsKernel {
            validation_name: "moe_down_iq4_nl_grouped_slots_m128_n16",
            pipeline_name: "kernel_moe_down_iq4_nl_f32_grouped_slots_m128_n16",
            tile_m: 128,
            tile_n: 16,
            threadgroup_memory: 9216,
        }
    }
}

/// Down projection of grouped slots through an IQ4_NL bank. The routing width is
/// read off the output: its whole rows over the tokens.
pub open spec fn iq4_nl_grouped_down(
    ctx: MetalContext,
    k: MoeDownIq4NlGroupedSlotsKernel,
    weight: MetalTensor,
    inner: MetalTensor,
    counts: MetalTensor,
    ids: MetalTensor,
    out: MetalTensor,
    n_in: usize,
    n_out: usize,
    n_expert: usize,
    n_tokens: usize,
) -> Outcome {
    let kernel = k.validation_name@;
    let bank = numeric::fold_product(seq![n_in, n_out, n_expert]);
    let buckets = numeric::fold_product(seq![n_expert, n_tokens]);
    let slot_count = out.count() / n_out;
    let topk = slot_count / n_tokens;
    let inner_size = numeric::fold_product(seq![slot_count, n_in]);
    let out_size = numeric::fold_product(seq![slot_count, n_out]);
    let narrow = Fault::first(
        Fault::beyond_u32(kernel, "n_in"@, n_in),
        Fault::first(
            Fault::beyond_u32(kernel, "n_out"@, n_out),
            Fault::first(
                Fault::beyond_u32(kernel, "n_expert"@, n_expert),
                Fault::first(
                    Fault::beyond_u32(kernel, "n_tokens"@, n_tokens),
                    Fault::first(
                        Fault::beyond_i32(kernel, "n_out"@, n_out),
                        Fault::beyond_i32(kernel, "n_expert"@, n_expert),
                    ),
                ),
            ),
        ),
    );
    if n_in % 32 != 0 {
        Outcome::Refused(
            Fault::bad_shape(kernel, "n_in={} not divisible by 32"@).num(n_in as int),
        )
    } else if weight.dtype != GgmlType::IQ4_NL || inner.dtype != GgmlType::F32 || out.dtype
        != GgmlType::F32 || !AllowedDtypes::I32OrF32.admits(counts.dtype)
        || !AllowedDtypes::I32OrF32.admits(ids.dtype) {
        Outcome::Refused(
            Fault::bad_shape(
                kernel,
                "expected IQ4_NL/F32/I32-or-F32 metadata/F32, got {}/{}/{}/{}/{}"@,
            ).dtype(weight.dtype).dtype(inner.dtype).dtype(counts.dtype).dtype(ids.dtype).dtype(
                out.dtype,
            ),
        )
    } else if n_in == 0 || n_out == 0 || n_expert == 0 || n_tokens == 0 {
        Outcome::Refused(
            Fault::bad_shape(
                kernel,
                "n_in={}, n_out={}, n_expert={}, and n_tokens={} must be nonzero"@,
            ).num(n_in as int).num(n_out as int).num(n_expert as int).num(n_tokens as int),
        )
    } else if narrow is Some {
        Outcome::Refused(narrow->0)
    } else if bank is None {
        Outcome::Refused(too_many_elements(kernel, "expert bank"@))
    } else if buckets is None {
        Outcome::Refused(too_many_elements(kernel, "expert buckets"@))
    } else if out.count() % n_out != 0 {
        Outcome::Refused(
            Fault::bad_shape(kernel, "output elements {} are not divisible by n_out={}"@).num(
                out.elements() as int,
            ).num(n_out as int),
        )
    } else if slot_count % n_tokens != 0 {
        Outcome::Refused(
            Fault::bad_shape(kernel, "slot count {} is not divisible by n_tokens={}"@).num(
                slot_count as int,
            ).num(n_tokens as int),
        )
    } else if topk == 0 || topk > 16 || topk > n_expert || slot_count > i32::MAX {
        Outcome::Refused(
            Fault::bad_shape(
                kernel,
                "expected 1 <= slots/tokens={} <= min(16, n_expert={}) and slot count {} to fit i32"@,
            ).num(topk as int).num(n_expert as int).num(slot_count as int),
        )
    } else if inner_size is None {
        Outcome::Refused(too_many_elements(kernel, "inner input"@))
    } else if out_size is None {
        Outcome::Refused(too_many_elements(kernel, "expert output"@))
    } else if weight.count() != bank->0 || inner.count() != inner_size->0 || counts.count()
        != n_expert || ids.count() != buckets->0 || out.count() != out_size->0 {
        Outcome::Refused(
            Fault::bad_shape(
                kernel,
                "shape mismatch weight={} inner={} counts={} ids={} out={} expected {}/{}/{}/{}/{}"@,
            ).num(weight.elements() as int).num(inner.elements() as int).num(
                counts.elements() as int,
            ).num(ids.elements() as int).num(out.elements() as int).num(bank->0 as int).num(
                inner_size->0 as int,
            ).num(n_expert as int).num(buckets->0 as int).num(out_size->0 as int),
        )
    } else {
        Outcome::launch(
            ctx,
            Launch {
                pipeline: k.pipeline_name@,
                words: seq![
                    n_out as u32,
                    n_tokens as u32,
                    n_in as u32,
                    (n_in / 32) as u32,
                    n_in as u32,
                ],
                tensors: seq![
                    weight.place(),
                    inner.place(),
                    counts.place(),
                    ids.place(),
                    out.place(),
                ],
                scratch: seq![k.threadgroup_memory],
                threadgroups: MTLSize {
                    width: numeric::div_up(n_tokens, k.tile_n),
                    height: numeric::div_up(n_out, k.tile_m),
                    depth: n_expert,
                },
                threads: MTLSize { width: 128, height: 1, depth: 1 },
            },
        )
    }
}

/// The element counts exist.
pub open spec fn iq4_nl_grouped_down_defined(
    k: MoeDownIq4NlGroupedSlotsKernel,
    weight: MetalTensor,
    inner: MetalTensor,
    counts: MetalTensor,
    ids: MetalTensor,
    out: MetalTensor,
) -> bool {
    &&& k.tile_m > 0 && k.tile_n > 0
    &&& weight.wf() && inner.wf() && counts.wf() && ids.wf() && out.wf()
}

fn encode_moe_down_iq4_nl_f32_grouped_slots_kernel(
    ctx: &MetalContext,
    enc: &mut KernelEncoder,
    k: MoeDownIq4NlGroupedSlotsKernel,
    weight: &MetalTensor,
    inner: &MetalTensor,
    counts: &MetalTensor,
    ids: &MetalTensor,
    out: &MetalTensor,
    n_in: usize,
    n_out: usize,
    n_expert: usize,
    n_tokens: usize,
) -> (r: Result<(), MetalError>)
    requires
        iq4_nl_grouped_down_defined(k, *weight, *inner, *counts, *ids, *out),
    ensures
        old(enc).did(
            *final(enc),
            r,
            iq4_nl_grouped_down(
                *ctx, k,
                *weight, *inner, *counts, *ids, *out, n_in, n_out, n_expert, n_tokens,
            ),
        ),
{
    let kernel = k.validation_name;
    if n_in % 32 != 0 {
        return Err(bad_shape(kernel, "n_in={} not divisible by 32").num(n_in));
    }
    if weight.dtype != GgmlType::IQ4_NL || inner.dtype != GgmlType::F32 || out.dtype
        != GgmlType::F32 || !AllowedDtypes::I32OrF32.contains(counts.dtype)
        || !AllowedDtypes::I32OrF32.contains(ids.dtype) {
        return Err(
            bad_shape(
                kernel,
                "expected IQ4_NL/F32/I32-or-F32 metadata/F32, got {}/{}/{}/{}/{}",
            ).dtype(weight.dtype).dtype(inner.dtype).dtype(counts.dtype).dtype(ids.dtype).dtype(
                out.dtype,
            ),
        );
    }
    if n_in == 0 || n_out == 0 || n_expert == 0 || n_tokens == 0 {
        return Err(
            bad_shape(
                kernel,
                "n_in={}, n_out={}, n_expert={}, and n_tokens={} must be nonzero",
            ).num(n_in).num(n_out).num(n_expert).num(n_tokens),
        );
    }
    match narrow_u32(kernel, "n_in", n_in) {
        Ok(_) => {},
        Err(e) => {
            return Err(e);
        },
    }
    match narrow_u32(kernel, "n_out", n_out) {
        Ok(_) => {},
        Err(e) => {
            return Err(e);
        },
    }
    match narrow_u32(kernel, "n_expert", n_expert) {
        Ok(_) => {},
        Err(e) => {
            return Err(e);
        },
    }
    match narrow_u32(kernel, "n_tokens", n_tokens) {
        Ok(_) => {},
        Err(e) => {
            return Err(e);
        },
    }
    match check_i32(kernel, "n_out", n_out) {
        Ok(()) => {},
        Err(e) => {
            return Err(e);
        },
    }
    match check_i32(kernel, "n_expert", n_expert) {
        Ok(()) => {},
        Err(e) => {
            return Err(e);
        },
    }
    let factors = [n_in, n_out, n_expert];
    assert(factors@ =~= seq![n_in, n_out, n_expert]);
    let bank_elements: usize = match checked_moe_product(kernel, "expert bank", &factors) {
        Ok(n) => n,
        Err(e) => {
            return Err(e);
        },
    };
    let factors = [n_expert, n_tokens];
    assert(factors@ =~= seq![n_expert, n_tokens]);
    let bucket_elements: usize = match checked_moe_product(kernel, "expert buckets", &factors) {
        Ok(n) => n,
        Err(e) => {
            return Err(e);
        },
    };
    let out_count: usize = out.element_count();
    if out_count % n_out != 0 {
        return Err(
            bad_shape(kernel, "output elements {} are not divisible by n_out={}").num_u64(
                out.n_elements(),
            ).num(n_out),
        );
    }
    let slot_count: usize = out_count / n_out;
    if slot_count % n_tokens != 0 {
        return Err(
            bad_shape(kernel, "slot count {} is not divisible by n_tokens={}").num(slot_count).num(
                n_tokens,
            ),
        );
    }
    let topk: usize = slot_count / n_tokens;
    if topk == 0 || topk > 16 || topk > n_expert || slot_count > i32::MAX as usize {
        return Err(
            bad_shape(
                kernel,
                "expected 1 <= slots/tokens={} <= min(16, n_expert={}) and slot count {} to fit i32",
            ).num(topk).num(n_expert).num(slot_count),
        );
    }
    let factors = [slot_count, n_in];
    assert(factors@ =~= seq![slot_count, n_in]);
    let inner_elements: usize = match checked_moe_product(kernel, "inner input", &factors) {
        Ok(n) => n,
        Err(e) => {
            return Err(e);
        },
    };
    let factors = [slot_count, n_out];
    assert(factors@ =~= seq![slot_count, n_out]);
    let output_elements: usize = match checked_moe_product(kernel, "expert output", &factors) {
        Ok(n) => n,
        Err(e) => {
            return Err(e);
        },
    };
    if weight.element_count() != bank_elements || inner.element_count() != inner_elements
        || counts.element_count() != n_expert || ids.element_count() != bucket_elements
        || out_count != output_elements {
        return Err(
            bad_shape(
                kernel,
                "shape mismatch weight={} inner={} counts={} ids={} out={} expected {}/{}/{}/{}/{}",
            ).num_u64(weight.n_elements()).num_u64(inner.n_elements()).num_u64(
                counts.n_elements(),
            ).num_u64(ids.n_elements()).num_u64(out.n_elements()).num(bank_elements).num(
                inner_elements,
            ).num(n_expert).num(bucket_elements).num(output_elements),
        );
    }
    let words: Vec<u32> = vec![
        n_out as u32,
        n_tokens as u32,
        n_in as u32,
        (n_in / 32) as u32,
        n_in as u32,
    ];
    assert(words@ =~= seq![
        n_out as u32,
        n_tokens as u32,
        n_in as u32,
        (n_in / 32) as u32,
        n_in as u32,
    ]);
    let tensors = [weight.binding(), inner.binding(), counts.binding(), ids.binding(), out.binding()];
    assert(
        tensors@ =~= seq![weight.place(), inner.place(), counts.place(), ids.place(), out.place()]
    );
    let scratch = [k.threadgroup_memory];
    assert(scratch@ =~= seq![k.threadgroup_memory]);
    enc.launch(
        ctx,
        k.pipeline_name,
        words,
        &tensors,
        &scratch,
        MTLSize {
            width: div_ceil(n_tokens, k.tile_n),
            height: div_ceil(n_out, k.tile_m),
            depth: n_expert,
        },
        MTLSize { width: 128, height: 1, depth: 1 },
    )
}

/// Down projection through an IQ4_NL bank for every expert, 64 rows by 32 slots.
pub fn encode_moe_down_iq4_nl_f32_grouped_slots(
    ctx: &MetalContext,
    enc: &mut KernelEncoder,
    weight: &MetalTensor,
    inner: &MetalTensor,
    counts: &MetalTensor,
    ids: &MetalTensor,
    out: &MetalTensor,
    n_in: usize,
    n_out: usize,
    n_expert: usize,
    n_tokens: usize,
) -> (r: Result<(), MetalError>)
    requires
        iq4_nl_grouped_down_defined(
            MoeDownIq4NlGroupedSlotsKernel::m64_n32(), *weight, *inner, *counts, *ids, *out,
        ),
    ensures
        old(enc).did(
            *final(enc),
            r,
            iq4_nl_grouped_down(
                *ctx, MoeDownIq4NlGroupedSlotsKernel::m64_n32(),
                *weight, *inner, *counts, *ids, *out, n_in, n_out, n_expert, n_tokens,
            ),
        ),
{
    encode_moe_down_iq4_nl_f32_grouped_slots_kernel(
        ctx, enc, MoeDownIq4NlGroupedSlotsKernel::m64_n32(),
        weight, inner, counts, ids, out, n_in, n_out, n_expert, n_tokens,
    )
}

/// Down projection through an IQ4_NL bank for every expert, 128 rows by 16 slots.
pub fn encode_moe_down_iq4_nl_f32_grouped_slots_m128_n16(
    ctx: &MetalContext,
    enc: &mut KernelEncoder,
    weight: &MetalTensor,
    inner: &MetalTensor,
    counts: &MetalTensor,
    ids: &MetalTensor,
    out: &MetalTensor,
    n_in: usize,
    n_out: usize,
    n_expert: usize,
    n_tokens: usize,
) -> (r: Result<(), MetalError>)
    requires
        iq4_nl_grouped_down_defined(
            MoeDownIq4NlGroupedSlotsKernel::m128_n16(), *weight, *inner, *counts, *ids, *out,
        ),
    ensures
        old(enc).did(
            *final(enc),
            r,
            iq4_nl_grouped_down(
                *ctx, MoeDownIq4NlGroupedSlotsKernel::m128_n16(),
                *weight, *inner, *counts, *ids, *out, n_in, n_out, n_expert, n_tokens,
            ),
        ),
{
    encode_moe_down_iq4_nl_f32_grouped_slots_kernel(
        ctx, enc, MoeDownIq4NlGroupedSlotsKernel::m128_n16(),
        weight, inner, counts, ids, out, n_in, n_out, n_expert, n_tokens,
    )
}

} // verus!
