//! What the kernels over checked tensors are told, and when.

use vstd::prelude::*;

use crate::context::MetalContext;
use crate::dtype::GgmlType;
use crate::encoder::KernelEncoder;
use crate::error::{AllowedDtypes, Datum, Fault, MetalError};
use crate::moe_checked::MoeDecodeArgs;
use crate::moe_checked;
use crate::numeric;
use crate::reading;
use crate::tensor::{MetalTensor, MetalTensorProvenance};

verus! {

/// A tensor of `n` elements in whole blocks that lies, aligned, inside its buffer.
pub open spec fn fits(tensor: MetalTensor, n: int, alignment: int) -> bool {
    &&& tensor.byte_length() is Some
    &&& tensor.count() == n
    &&& tensor.offset as int % alignment == 0
    &&& tensor.offset + tensor.byte_length()->0 <= tensor.buffer.length
}

/// Kernels may write the tensor.
pub open spec fn may_write(tensor: MetalTensor) -> bool {
    tensor.provenance == MetalTensorProvenance::OwnedWritable
}

/// Indices are stored as integers or as floats.
pub open spec fn holds_indices(tensor: MetalTensor) -> bool {
    tensor.dtype == GgmlType::I32 || tensor.dtype == GgmlType::F32
}

/// A token picks some of the experts, and all sizes have 32 bits.
pub open spec fn decodable(n_in: usize, n_out: usize, n_expert: usize, topk: usize) -> bool {
    &&& 0 < n_in <= u32::MAX
    &&& 0 < n_out <= u32::MAX
    &&& 0 < topk <= n_expert <= u32::MAX
}

/// What a product of three sizes says of the product of the first two.
proof fn lemma_partial(a: usize, b: usize, c: usize)
    ensures
        c > 0 ==> a * b <= a * b * c,
        a * b >= 0,
        a * b * c >= 0,
{
    assert(a * b >= 0) by (nonlinear_arith);
    let ab = a * b;
    assert(ab * c >= 0 && (c > 0 ==> ab <= ab * c)) by (nonlinear_arith)
        requires
            ab >= 0,
    ;
}

/// The products that a kernel's tensors are held to.
proof fn lemma_products(a: usize, b: usize, c: usize)
    ensures
        c > 0 ==> numeric::fold_product(seq![a, b, c]) == (if a * b * c <= usize::MAX {
            Some((a * b * c) as usize)
        } else {
            None::<usize>
        }),
        numeric::fold_product(seq![a, b]) == (if a * b <= usize::MAX {
            Some((a * b) as usize)
        } else {
            None::<usize>
        }),
        a * b >= 0,
        a * b * c >= 0,
{
    numeric::law_fold_product_is_product(a, b, c);
    lemma_partial(a, b, c);
}

/// A kernel's dimensions are accepted just where a token can be decoded with them, and
/// come back as they are.
pub proof fn law_checked_moe_decode_args(
    name: &'static str,
    n_in: usize,
    n_out: usize,
    n_expert: usize,
    topk: usize,
    result: Result<MoeDecodeArgs, MetalError>,
)
    requires
        call_ensures(
            moe_checked::checked_moe_decode_args,
            (name, n_in, n_out, n_expert, topk),
            result,
        ),
    ensures
        match result {
            Ok(args) => {
                &&& decodable(n_in, n_out, n_expert, topk)
                &&& args.n_in == n_in
                &&& args.n_out == n_out
                &&& args.n_expert == n_expert
                &&& args.topk == topk
            },
            Err(e) => !decodable(n_in, n_out, n_expert, topk) && (e@ matches Fault::BadShape(
                k,
                _,
                _,
            ) && k == name@),
        },
{
}

/// A tensor is accepted just where it has the format and the size, lies aligned inside
/// its buffer and may be written if it must be.
pub proof fn law_validate_moe_decode_tensor(
    name: &'static str,
    label: &'static str,
    tensor: MetalTensor,
    n: usize,
    allowed: AllowedDtypes,
    writable: bool,
    alignment: usize,
    result: Result<(), MetalError>,
)
    requires
        call_ensures(
            moe_checked::validate_moe_decode_tensor,
            (name, label, &tensor, n, allowed, writable, alignment),
            result,
        ),
        alignment > 0,
    ensures
        result is Ok <==> {
            &&& match allowed {
                AllowedDtypes::Only(dtype) => tensor.dtype == dtype,
                AllowedDtypes::I32OrF32 => holds_indices(tensor),
            }
            &&& fits(tensor, n as int, alignment as int)
            &&& writable ==> may_write(tensor)
        },
        result matches Err(e) ==> e@ is BadShape,
        tensor.byte_length() is Some && result is Err ==> reading::shows(
            result,
            if match allowed {
                AllowedDtypes::Only(dtype) => tensor.dtype != dtype,
                AllowedDtypes::I32OrF32 => !holds_indices(tensor),
            } {
                seq![Datum::Label(label@), Datum::Dtype(tensor.dtype), Datum::Dtypes(allowed)]
            } else if tensor.count() != n {
                seq![
                    Datum::Label(label@),
                    Datum::Int(tensor.count() as int),
                    Datum::Int(n as int),
                ]
            } else if writable && !may_write(tensor) {
                seq![Datum::Label(label@), Datum::Provenance(tensor.provenance)]
            } else if tensor.offset as int % alignment as int != 0 {
                seq![
                    Datum::Label(label@),
                    Datum::Int(tensor.offset as int),
                    Datum::Int(alignment as int),
                ]
            } else if tensor.offset + tensor.byte_length()->0 > u64::MAX {
                seq![Datum::Label(label@)]
            } else {
                seq![
                    Datum::Label(label@),
                    Datum::Int(tensor.offset as int),
                    Datum::Int(tensor.byte_length()->0 as int),
                    Datum::Int(tensor.buffer.length as int),
                ]
            },
        ),
{
}

/// SwiGLU of one token through IQ4_XS banks: four rows of a slot to a threadgroup,
/// every slot, with every tensor inside its buffer.
pub proof fn law_moe_swiglu_iq4_xs_f32(
    enc: &mut KernelEncoder,
    ctx: MetalContext,
    w_gate: MetalTensor,
    w_up: MetalTensor,
    x: MetalTensor,
    topk_idx: MetalTensor,
    inner: MetalTensor,
    n_in: usize,
    n_out: usize,
    n_expert: usize,
    topk: usize,
    result: Result<(), MetalError>,
)
    requires
        call_ensures(
            moe_checked::encode_moe_swiglu_iq4_xs_f32,
            (
                &ctx, enc, &w_gate, &w_up, &x, &topk_idx, &inner, n_in, n_out, n_expert,
                topk,
            ),
            result,
        ),
    ensures
        reading::granted_when(
            *old(enc), *final(enc), result, ctx,
            decodable(n_in, n_out, n_expert, topk)
                && n_in % 256 == 0
                && w_gate.dtype == GgmlType::IQ4_XS && w_up.dtype == GgmlType::IQ4_XS
                && fits(w_gate, n_in * n_out * n_expert, 2)
                && fits(w_up, n_in * n_out * n_expert, 2)
                && x.dtype == GgmlType::F32
                && fits(x, n_in as int, 4)
                && holds_indices(topk_idx)
                && fits(topk_idx, topk as int, 4)
                && inner.dtype == GgmlType::F32
                && fits(inner, topk * n_out, 4)
                && may_write(inner),
            "kernel_moe_swiglu_iq4_xs_f32"@,
        ),
        decodable(n_in, n_out, n_expert, topk) && n_in % 256 == 0
            && n_in * n_out * n_expert <= usize::MAX && topk * n_out <= usize::MAX
            && w_gate.byte_length() is Some && !(w_gate.dtype == GgmlType::IQ4_XS
            && fits(w_gate, n_in * n_out * n_expert, 2))
            ==> reading::names(result, "gate expert bank"@),
        decodable(n_in, n_out, n_expert, topk) && n_in % 256 == 0
            && n_in * n_out * n_expert <= usize::MAX && topk * n_out <= usize::MAX
            && w_gate.dtype == GgmlType::IQ4_XS && fits(w_gate, n_in * n_out * n_expert, 2)
            && w_up.byte_length() is Some && !(w_up.dtype == GgmlType::IQ4_XS
            && fits(w_up, n_in * n_out * n_expert, 2))
            ==> reading::names(result, "up expert bank"@),
        decodable(n_in, n_out, n_expert, topk) && n_in % 256 == 0
            && n_in * n_out * n_expert <= usize::MAX && topk * n_out <= usize::MAX
            && w_gate.dtype == GgmlType::IQ4_XS && fits(w_gate, n_in * n_out * n_expert, 2)
            && w_up.dtype == GgmlType::IQ4_XS && fits(w_up, n_in * n_out * n_expert, 2)
            && x.byte_length() is Some && !(x.dtype == GgmlType::F32
            && fits(x, n_in as int, 4)) ==> reading::names(result, "input"@),
        decodable(n_in, n_out, n_expert, topk) && n_in % 256 == 0
            && n_in * n_out * n_expert <= usize::MAX && topk * n_out <= usize::MAX
            && w_gate.dtype == GgmlType::IQ4_XS && fits(w_gate, n_in * n_out * n_expert, 2)
            && w_up.dtype == GgmlType::IQ4_XS && fits(w_up, n_in * n_out * n_expert, 2)
            && x.dtype == GgmlType::F32 && fits(x, n_in as int, 4)
            && topk_idx.byte_length() is Some && !(holds_indices(topk_idx)
            && fits(topk_idx, topk as int, 4)) ==> reading::names(result, "top-k indices"@),
        decodable(n_in, n_out, n_expert, topk) && n_in % 256 == 0
            && n_in * n_out * n_expert <= usize::MAX && topk * n_out <= usize::MAX
            && w_gate.dtype == GgmlType::IQ4_XS && fits(w_gate, n_in * n_out * n_expert, 2)
            && w_up.dtype == GgmlType::IQ4_XS && fits(w_up, n_in * n_out * n_expert, 2)
            && x.dtype == GgmlType::F32 && fits(x, n_in as int, 4) && holds_indices(topk_idx)
            && fits(topk_idx, topk as int, 4) && inner.byte_length() is Some
            && !(inner.dtype == GgmlType::F32 && fits(inner, topk * n_out, 4)
            && may_write(inner)) ==> reading::names(result, "inner output"@),
        result is Ok ==> {
            let args = reading::words(*old(enc), *final(enc));
            let grid = reading::grid(*final(enc));
            &&& reading::launched(
                *old(enc), *final(enc),
                seq![
                    reading::at(w_gate),
                    reading::at(w_up),
                    reading::at(x),
                    reading::at(topk_idx),
                    reading::at(inner),
                ],
                seq![],
            )
            &&& reading::kernel(*old(enc), *final(enc)) == "kernel_moe_swiglu_iq4_xs_f32"@
            &&& args.len() == 4
            &&& args[0] == n_in
            &&& args[1] == n_out
            &&& args[2] == n_expert
            &&& args[3] == topk
            &&& reading::tiles(grid.width, 4, n_out as int)
            &&& grid.height == topk && grid.depth == 1
            &&& reading::line(reading::group(*final(enc)), 128)
        },
{
    reading::lemma_compiled(ctx, "kernel_moe_swiglu_iq4_xs_f32"@);
    reading::lemma_read(*old(enc), *final(enc));
    lemma_products(n_in, n_out, n_expert);
    lemma_products(topk, n_out, 1);
    numeric::law_div_up_covers(n_out, 4);
}

/// The down projection of one token through an IQ4_NL bank: four rows of a slot to
/// a threadgroup, every slot, with every tensor inside its buffer.
pub proof fn law_moe_down_iq4_nl_f32(
    enc: &mut KernelEncoder,
    ctx: MetalContext,
    weight: MetalTensor,
    inner: MetalTensor,
    topk_idx: MetalTensor,
    expert_out: MetalTensor,
    n_in: usize,
    n_out: usize,
    n_expert: usize,
    topk: usize,
    result: Result<(), MetalError>,
)
    requires
        call_ensures(
            moe_checked::encode_moe_down_iq4_nl_f32,
            (
                &ctx, enc, &weight, &inner, &topk_idx, &expert_out, n_in, n_out, n_expert,
                topk,
            ),
            result,
        ),
    ensures
        reading::granted_when(
            *old(enc), *final(enc), result, ctx,
            decodable(n_in, n_out, n_expert, topk)
                && n_in % 32 == 0
                && weight.dtype == GgmlType::IQ4_NL
                && fits(weight, n_in * n_out * n_expert, 2)
                && inner.dtype == GgmlType::F32
                && fits(inner, topk * n_in, 4)
                && holds_indices(topk_idx)
                && fits(topk_idx, topk as int, 4)
                && expert_out.dtype == GgmlType::F32
                && fits(expert_out, topk * n_out, 4)
                && may_write(expert_out),
            "kernel_moe_down_iq4_nl_f32"@,
        ),
        decodable(n_in, n_out, n_expert, topk) && n_in % 32 == 0
            && n_in * n_out * n_expert <= usize::MAX && topk * n_in <= usize::MAX
            && topk * n_out <= usize::MAX && weight.byte_length() is Some
            && !(weight.dtype == GgmlType::IQ4_NL && fits(weight, n_in * n_out * n_expert, 2))
            ==> reading::names(result, "down expert bank"@),
        decodable(n_in, n_out, n_expert, topk) && n_in % 32 == 0
            && n_in * n_out * n_expert <= usize::MAX && topk * n_in <= usize::MAX
            && topk * n_out <= usize::MAX && weight.dtype == GgmlType::IQ4_NL
            && fits(weight, n_in * n_out * n_expert, 2) && inner.byte_length() is Some
            && !(inner.dtype == GgmlType::F32 && fits(inner, topk * n_in, 4))
            ==> reading::names(result, "inner input"@),
        decodable(n_in, n_out, n_expert, topk) && n_in % 32 == 0
            && n_in * n_out * n_expert <= usize::MAX && topk * n_in <= usize::MAX
            && topk * n_out <= usize::MAX && weight.dtype == GgmlType::IQ4_NL
            && fits(weight, n_in * n_out * n_expert, 2) && inner.dtype == GgmlType::F32
            && fits(inner, topk * n_in, 4) && topk_idx.byte_length() is Some
            && !(holds_indices(topk_idx) && fits(topk_idx, topk as int, 4))
            ==> reading::names(result, "top-k indices"@),
        decodable(n_in, n_out, n_expert, topk) && n_in % 32 == 0
            && n_in * n_out * n_expert <= usize::MAX && topk * n_in <= usize::MAX
            && topk * n_out <= usize::MAX && weight.dtype == GgmlType::IQ4_NL
            && fits(weight, n_in * n_out * n_expert, 2) && inner.dtype == GgmlType::F32
            && fits(inner, topk * n_in, 4) && holds_indices(topk_idx)
            && fits(topk_idx, topk as int, 4) && expert_out.byte_length() is Some
            && !(expert_out.dtype == GgmlType::F32 && fits(expert_out, topk * n_out, 4)
            && may_write(expert_out)) ==> reading::names(result, "expert output"@),
        result is Ok ==> {
            let args = reading::words(*old(enc), *final(enc));
            let grid = reading::grid(*final(enc));
            &&& reading::launched(
                *old(enc), *final(enc),
                seq![
                    reading::at(weight),
                    reading::at(inner),
                    reading::at(topk_idx),
                    reading::at(expert_out),
                ],
                seq![],
            )
            &&& reading::kernel(*old(enc), *final(enc)) == "kernel_moe_down_iq4_nl_f32"@
            &&& args.len() == 4
            &&& args[0] == n_in
            &&& args[1] == n_out
            &&& args[2] == n_expert
            &&& args[3] == topk
            &&& reading::tiles(grid.width, 4, n_out as int)
            &&& grid.height == topk && grid.depth == 1
            &&& reading::line(reading::group(*final(enc)), 128)
        },
{
    reading::lemma_compiled(ctx, "kernel_moe_down_iq4_nl_f32"@);
    reading::lemma_read(*old(enc), *final(enc));
    lemma_products(n_in, n_out, n_expert);
    lemma_products(topk, n_in, 1);
    lemma_products(topk, n_out, 1);
    numeric::law_div_up_covers(n_out, 4);
}

/// The down projection of one token through an IQ4_NL bank: four rows of a slot to
/// a threadgroup, every slot, with every tensor inside its buffer. Inner rows are
/// read in vectors of four floats.
pub proof fn law_moe_down_iq4_nl_f32_fast(
    enc: &mut KernelEncoder,
    ctx: MetalContext,
    weight: MetalTensor,
    inner: MetalTensor,
    topk_idx: MetalTensor,
    expert_out: MetalTensor,
    n_in: usize,
    n_out: usize,
    n_expert: usize,
    topk: usize,
    result: Result<(), MetalError>,
)
    requires
        call_ensures(
            moe_checked::encode_moe_down_iq4_nl_f32_fast,
            (
                &ctx, enc, &weight, &inner, &topk_idx, &expert_out, n_in, n_out, n_expert,
                topk,
            ),
            result,
        ),
    ensures
        reading::granted_when(
            *old(enc), *final(enc), result, ctx,
            decodable(n_in, n_out, n_expert, topk)
                && n_in % 32 == 0
                && weight.dtype == GgmlType::IQ4_NL
                && fits(weight, n_in * n_out * n_expert, 2)
                && inner.dtype == GgmlType::F32
                && fits(inner, topk * n_in, 16)
                && holds_indices(topk_idx)
                && fits(topk_idx, topk as int, 4)
                && expert_out.dtype == GgmlType::F32
                && fits(expert_out, topk * n_out, 4)
                && may_write(expert_out),
            "kernel_moe_down_iq4_nl_f32_fast"@,
        ),
        decodable(n_in, n_out, n_expert, topk) && n_in % 32 == 0
            && n_in * n_out * n_expert <= usize::MAX && topk * n_in <= usize::MAX
            && topk * n_out <= usize::MAX && weight.byte_length() is Some
            && !(weight.dtype == GgmlType::IQ4_NL && fits(weight, n_in * n_out * n_expert, 2))
            ==> reading::names(result, "down expert bank"@),
        decodable(n_in, n_out, n_expert, topk) && n_in % 32 == 0
            && n_in * n_out * n_expert <= usize::MAX && topk * n_in <= usize::MAX
            && topk * n_out <= usize::MAX && weight.dtype == GgmlType::IQ4_NL
            && fits(weight, n_in * n_out * n_expert, 2) && inner.byte_length() is Some
            && !(inner.dtype == GgmlType::F32 && fits(inner, topk * n_in, 16))
            ==> reading::names(result, "inner input"@),
        decodable(n_in, n_out, n_expert, topk) && n_in % 32 == 0
            && n_in * n_out * n_expert <= usize::MAX && topk * n_in <= usize::MAX
            && topk * n_out <= usize::MAX && weight.dtype == GgmlType::IQ4_NL
            && fits(weight, n_in * n_out * n_expert, 2) && inner.dtype == GgmlType::F32
            && fits(inner, topk * n_in, 16) && topk_idx.byte_length() is Some
            && !(holds_indices(topk_idx) && fits(topk_idx, topk as int, 4))
            ==> reading::names(result, "top-k indices"@),
        decodable(n_in, n_out, n_expert, topk) && n_in % 32 == 0
            && n_in * n_out * n_expert <= usize::MAX && topk * n_in <= usize::MAX
            && topk * n_out <= usize::MAX && weight.dtype == GgmlType::IQ4_NL
            && fits(weight, n_in * n_out * n_expert, 2) && inner.dtype == GgmlType::F32
            && fits(inner, topk * n_in, 16) && holds_indices(topk_idx)
            && fits(topk_idx, topk as int, 4) && expert_out.byte_length() is Some
            && !(expert_out.dtype == GgmlType::F32 && fits(expert_out, topk * n_out, 4)
            && may_write(expert_out)) ==> reading::names(result, "expert output"@),
        result is Ok ==> {
            let args = reading::words(*old(enc), *final(enc));
            let grid = reading::grid(*final(enc));
            &&& reading::launched(
                *old(enc), *final(enc),
                seq![
                    reading::at(weight),
                    reading::at(inner),
                    reading::at(topk_idx),
                    reading::at(expert_out),
                ],
                seq![128usize],
            )
            &&& reading::kernel(*old(enc), *final(enc)) == "kernel_moe_down_iq4_nl_f32_fast"@
            &&& args.len() == 4
            &&& args[0] == n_in
            &&& args[1] == n_out
            &&& args[2] == n_expert
            &&& args[3] == topk
            &&& reading::tiles(grid.width, 4, n_out as int)
            &&& grid.height == topk && grid.depth == 1
            &&& reading::line(reading::group(*final(enc)), 64)
        },
{
    reading::lemma_compiled(ctx, "kernel_moe_down_iq4_nl_f32_fast"@);
    reading::lemma_read(*old(enc), *final(enc));
    lemma_products(n_in, n_out, n_expert);
    lemma_products(topk, n_in, 1);
    lemma_products(topk, n_out, 1);
    numeric::law_div_up_covers(n_out, 4);
}

/// SwiGLU of every expert through IQ4_XS banks: 16 slots by 64 rows to a
/// threadgroup, up to all tokens, for each expert, with every tensor inside its
/// buffer and every index signed.
pub proof fn law_moe_swiglu_iq4_xs_f32_grouped_slots_n16(
    enc: &mut KernelEncoder,
    ctx: MetalContext,
    w_gate: MetalTensor,
    w_up: MetalTensor,
    x_pack: MetalTensor,
    counts: MetalTensor,
    ids: MetalTensor,
    inner: MetalTensor,
    n_hidden: usize,
    n_ffn: usize,
    n_expert: usize,
    topk: usize,
    n_tokens: usize,
    result: Result<(), MetalError>,
)
    requires
        call_ensures(
            moe_checked::encode_moe_swiglu_iq4_xs_f32_grouped_slots_n16,
            (
                &ctx, enc, &w_gate, &w_up, &x_pack, &counts, &ids, &inner, n_hidden, n_ffn,
                n_expert, topk, n_tokens,
            ),
            result,
        ),
    ensures
        reading::granted_when(
            *old(enc), *final(enc), result, ctx,
            decodable(n_hidden, n_ffn, n_expert, topk)
                && n_hidden % 256 == 0
                && topk <= 16
                && 0 < n_tokens <= i32::MAX
                && n_ffn <= i32::MAX && n_expert <= i32::MAX
                && n_tokens * topk <= i32::MAX
                && w_gate.dtype == GgmlType::IQ4_XS && w_up.dtype == GgmlType::IQ4_XS
                && fits(w_gate, n_hidden * n_ffn * n_expert, 2)
                && fits(w_up, n_hidden * n_ffn * n_expert, 2)
                && x_pack.dtype == GgmlType::F32
                && fits(x_pack, n_tokens * n_hidden, 16)
                && counts.dtype == GgmlType::I32
                && fits(counts, n_expert as int, 4)
                && ids.dtype == GgmlType::I32
                && fits(ids, n_expert * n_tokens, 4)
                && inner.dtype == GgmlType::F32
                && fits(inner, n_tokens * topk * n_ffn, 4)
                && may_write(inner),
            "kernel_moe_swiglu_iq4_xs_f32_grouped_slots_n16"@,
        ),
        decodable(n_hidden, n_ffn, n_expert, topk) && n_hidden % 256 == 0 && topk <= 16
            && 0 < n_tokens <= i32::MAX && n_ffn <= i32::MAX && n_expert <= i32::MAX
            && n_tokens * topk <= i32::MAX && n_hidden * n_ffn * n_expert <= usize::MAX
            && n_tokens * n_hidden <= usize::MAX && n_expert * n_tokens <= usize::MAX
            && n_tokens * topk * n_ffn <= usize::MAX && w_gate.byte_length() is Some
            && !(w_gate.dtype == GgmlType::IQ4_XS
            && fits(w_gate, n_hidden * n_ffn * n_expert, 2))
            ==> reading::names(result, "gate expert bank"@),
        decodable(n_hidden, n_ffn, n_expert, topk) && n_hidden % 256 == 0 && topk <= 16
            && 0 < n_tokens <= i32::MAX && n_ffn <= i32::MAX && n_expert <= i32::MAX
            && n_tokens * topk <= i32::MAX && n_hidden * n_ffn * n_expert <= usize::MAX
            && n_tokens * n_hidden <= usize::MAX && n_expert * n_tokens <= usize::MAX
            && n_tokens * topk * n_ffn <= usize::MAX && w_gate.dtype == GgmlType::IQ4_XS
            && fits(w_gate, n_hidden * n_ffn * n_expert, 2) && w_up.byte_length() is Some
            && !(w_up.dtype == GgmlType::IQ4_XS && fits(w_up, n_hidden * n_ffn * n_expert, 2))
            ==> reading::names(result, "up expert bank"@),
        decodable(n_hidden, n_ffn, n_expert, topk) && n_hidden % 256 == 0 && topk <= 16
            && 0 < n_tokens <= i32::MAX && n_ffn <= i32::MAX && n_expert <= i32::MAX
            && n_tokens * topk <= i32::MAX && n_hidden * n_ffn * n_expert <= usize::MAX
            && n_tokens * n_hidden <= usize::MAX && n_expert * n_tokens <= usize::MAX
            && n_tokens * topk * n_ffn <= usize::MAX && w_gate.dtype == GgmlType::IQ4_XS
            && fits(w_gate, n_hidden * n_ffn * n_expert, 2) && w_up.dtype == GgmlType::IQ4_XS
            && fits(w_up, n_hidden * n_ffn * n_expert, 2) && x_pack.byte_length() is Some
            && !(x_pack.dtype == GgmlType::F32 && fits(x_pack, n_tokens * n_hidden, 16))
            ==> reading::names(result, "packed input"@),
        decodable(n_hidden, n_ffn, n_expert, topk) && n_hidden % 256 == 0 && topk <= 16
            && 0 < n_tokens <= i32::MAX && n_ffn <= i32::MAX && n_expert <= i32::MAX
            && n_tokens * topk <= i32::MAX && n_hidden * n_ffn * n_expert <= usize::MAX
            && n_tokens * n_hidden <= usize::MAX && n_expert * n_tokens <= usize::MAX
            && n_tokens * topk * n_ffn <= usize::MAX && w_gate.dtype == GgmlType::IQ4_XS
            && fits(w_gate, n_hidden * n_ffn * n_expert, 2) && w_up.dtype == GgmlType::IQ4_XS
            && fits(w_up, n_hidden * n_ffn * n_expert, 2) && x_pack.dtype == GgmlType::F32
            && fits(x_pack, n_tokens * n_hidden, 16) && counts.byte_length() is Some
            && !(counts.dtype == GgmlType::I32 && fits(counts, n_expert as int, 4))
            ==> reading::names(result, "expert counts"@),
        decodable(n_hidden, n_ffn, n_expert, topk) && n_hidden % 256 == 0 && topk <= 16
            && 0 < n_tokens <= i32::MAX && n_ffn <= i32::MAX && n_expert <= i32::MAX
            && n_tokens * topk <= i32::MAX && n_hidden * n_ffn * n_expert <= usize::MAX
            && n_tokens * n_hidden <= usize::MAX && n_expert * n_tokens <= usize::MAX
            && n_tokens * topk * n_ffn <= usize::MAX && w_gate.dtype == GgmlType::IQ4_XS
            && fits(w_gate, n_hidden * n_ffn * n_expert, 2) && w_up.dtype == GgmlType::IQ4_XS
            && fits(w_up, n_hidden * n_ffn * n_expert, 2) && x_pack.dtype == GgmlType::F32
            && fits(x_pack, n_tokens * n_hidden, 16) && counts.dtype == GgmlType::I32
            && fits(counts, n_expert as int, 4) && ids.byte_length() is Some
            && !(ids.dtype == GgmlType::I32 && fits(ids, n_expert * n_tokens, 4))
            ==> reading::names(result, "expert slot buckets"@),
        decodable(n_hidden, n_ffn, n_expert, topk) && n_hidden % 256 == 0 && topk <= 16
            && 0 < n_tokens <= i32::MAX && n_ffn <= i32::MAX && n_expert <= i32::MAX
            && n_tokens * topk <= i32::MAX && n_hidden * n_ffn * n_expert <= usize::MAX
            && n_tokens * n_hidden <= usize::MAX && n_expert * n_tokens <= usize::MAX
            && n_tokens * topk * n_ffn <= usize::MAX && w_gate.dtype == GgmlType::IQ4_XS
            && fits(w_gate, n_hidden * n_ffn * n_expert, 2) && w_up.dtype == GgmlType::IQ4_XS
            && fits(w_up, n_hidden * n_ffn * n_expert, 2) && x_pack.dtype == GgmlType::F32
            && fits(x_pack, n_tokens * n_hidden, 16) && counts.dtype == GgmlType::I32
            && fits(counts, n_expert as int, 4) && ids.dtype == GgmlType::I32
            && fits(ids, n_expert * n_tokens, 4) && inner.byte_length() is Some
            && !(inner.dtype == GgmlType::F32 && fits(inner, n_tokens * topk * n_ffn, 4)
            && may_write(inner)) ==> reading::names(result, "inner output"@),
        result is Ok ==> {
            let args = reading::words(*old(enc), *final(enc));
            let grid = reading::grid(*final(enc));
            &&& reading::launched(
                *old(enc), *final(enc),
                seq![
                    reading::at(w_gate),
                    reading::at(w_up),
                    reading::at(x_pack),
                    reading::at(counts),
                    reading::at(ids),
                    reading::at(inner),
                ],
                seq![16384usize],
            )
            &&& reading::kernel(*old(enc), *final(enc))
                == "kernel_moe_swiglu_iq4_xs_f32_grouped_slots_n16"@
            &&& args.len() == 9
            &&& args[0] == n_ffn
            &&& args[1] == n_hidden
            &&& args[2] == n_expert
            &&& args[3] == topk
            &&& args[4] == n_tokens
            &&& args[5] == n_hidden / 256
            &&& args[6] == n_hidden
            &&& args[7] == 0
            &&& args[8] == n_tokens
            &&& reading::tiles(grid.width, 16, n_tokens as int)
            &&& reading::tiles(grid.height, 64, n_ffn as int)
            &&& grid.depth == n_expert
            &&& reading::line(reading::group(*final(enc)), 128)
        },
{
    reading::lemma_compiled(ctx, "kernel_moe_swiglu_iq4_xs_f32_grouped_slots_n16"@);
    reading::lemma_read(*old(enc), *final(enc));
    lemma_products(n_hidden, n_ffn, n_expert);
    lemma_products(n_tokens, topk, 1);
    lemma_products(n_tokens, n_hidden, 1);
    lemma_products(n_expert, n_tokens, 1);
    lemma_partial(n_tokens, topk, n_ffn);
    if n_tokens * topk <= usize::MAX {
        lemma_products((n_tokens * topk) as usize, n_ffn, 1);
    }
    numeric::law_div_up_covers(n_tokens, 16);
    numeric::law_div_up_covers(n_ffn, 64);
}

/// The down projection of every expert through an IQ4_NL bank: 32 slots by 64 rows
/// to a threadgroup, up to all tokens, for each expert. The output has a row per
/// slot, the same number for each token.
pub proof fn law_moe_down_iq4_nl_f32_grouped_slots(
    enc: &mut KernelEncoder,
    ctx: MetalContext,
    weight: MetalTensor,
    inner: MetalTensor,
    counts: MetalTensor,
    ids: MetalTensor,
    out: MetalTensor,
    n_in: usize,
    n_out: usize,
    n_expert: usize,
    n_tokens: usize,
    result: Result<(), MetalError>,
)
    requires
        call_ensures(
            moe_checked::encode_moe_down_iq4_nl_f32_grouped_slots,
            (
                &ctx, enc, &weight, &inner, &counts, &ids, &out, n_in, n_out, n_expert,
                n_tokens,
            ),
            result,
        ),
    ensures
        reading::granted_just_when(
            *old(enc), *final(enc), result, ctx,
            n_in % 32 == 0
                && weight.dtype == GgmlType::IQ4_NL && inner.dtype == GgmlType::F32
                    && out.dtype == GgmlType::F32
                && holds_indices(counts) && holds_indices(ids)
                && 0 < n_in <= u32::MAX && 0 < n_out <= i32::MAX && 0 < n_expert <= i32::MAX
                && 0 < n_tokens <= u32::MAX
                && out.count() % n_out == 0
                && (out.count() / n_out) % n_tokens == 0
                && 1 <= (out.count() / n_out) / n_tokens <= 16
                && (out.count() / n_out) / n_tokens <= n_expert
                && (out.count() / n_out) <= i32::MAX
                && weight.count() == n_in * n_out * n_expert
                && inner.count() == (out.count() / n_out) * n_in
                && counts.count() == n_expert
                && ids.count() == n_expert * n_tokens,
            "moe_down_iq4_nl_grouped_slots"@,
            "kernel_moe_down_iq4_nl_f32_grouped_slots"@,
        ),
        result is Ok ==> {
            let args = reading::words(*old(enc), *final(enc));
            let grid = reading::grid(*final(enc));
            &&& reading::launched(
                *old(enc), *final(enc),
                seq![
                    reading::at(weight),
                    reading::at(inner),
                    reading::at(counts),
                    reading::at(ids),
                    reading::at(out),
                ],
                seq![8192usize],
            )
            &&& reading::kernel(*old(enc), *final(enc))
                == "kernel_moe_down_iq4_nl_f32_grouped_slots"@
            &&& args.len() == 5
            &&& args[0] == n_out
            &&& args[1] == n_tokens
            &&& args[2] == n_in
            &&& args[3] == n_in / 32
            &&& args[4] == n_in
            &&& reading::tiles(grid.width, 32, n_tokens as int)
            &&& reading::tiles(grid.height, 64, n_out as int)
            &&& grid.depth == n_expert
            &&& reading::line(reading::group(*final(enc)), 128)
        },
{
    reading::lemma_compiled(ctx, "kernel_moe_down_iq4_nl_f32_grouped_slots"@);
    reading::lemma_read(*old(enc), *final(enc));
    lemma_products(n_in, n_out, n_expert);
    lemma_products(n_expert, n_tokens, 1);
    if n_out > 0 {
        lemma_products((out.count() / n_out) as usize, n_in, 1);
        lemma_products((out.count() / n_out) as usize, n_out, 1);
        vstd::arithmetic::div_mod::lemma_fundamental_div_mod(out.count() as int, n_out as int);
        vstd::arithmetic::mul::lemma_mul_is_commutative(n_out as int,
            out.count() as int / n_out as int);
    }
    numeric::law_div_up_covers(n_tokens, 32);
    numeric::law_div_up_covers(n_out, 64);
}

/// The down projection of every expert through an IQ4_NL bank: 16 slots by 128 rows
/// to a threadgroup, up to all tokens, for each expert. The output has a row per
/// slot, the same number for each token.
pub proof fn law_moe_down_iq4_nl_f32_grouped_slots_m128_n16(
    enc: &mut KernelEncoder,
    ctx: MetalContext,
    weight: MetalTensor,
    inner: MetalTensor,
    counts: MetalTensor,
    ids: MetalTensor,
    out: MetalTensor,
    n_in: usize,
    n_out: usize,
    n_expert: usize,
    n_tokens: usize,
    result: Result<(), MetalError>,
)
    requires
        call_ensures(
            moe_checked::encode_moe_down_iq4_nl_f32_grouped_slots_m128_n16,
            (
                &ctx, enc, &weight, &inner, &counts, &ids, &out, n_in, n_out, n_expert,
                n_tokens,
            ),
            result,
        ),
    ensures
        reading::granted_just_when(
            *old(enc), *final(enc), result, ctx,
            n_in % 32 == 0
                && weight.dtype == GgmlType::IQ4_NL && inner.dtype == GgmlType::F32
                    && out.dtype == GgmlType::F32
                && holds_indices(counts) && holds_indices(ids)
                && 0 < n_in <= u32::MAX && 0 < n_out <= i32::MAX && 0 < n_expert <= i32::MAX
                && 0 < n_tokens <= u32::MAX
                && out.count() % n_out == 0
                && (out.count() / n_out) % n_tokens == 0
                && 1 <= (out.count() / n_out) / n_tokens <= 16
                && (out.count() / n_out) / n_tokens <= n_expert
                && (out.count() / n_out) <= i32::MAX
                && weight.count() == n_in * n_out * n_expert
                && inner.count() == (out.count() / n_out) * n_in
                && counts.count() == n_expert
                && ids.count() == n_expert * n_tokens,
            "moe_down_iq4_nl_grouped_slots_m128_n16"@,
            "kernel_moe_down_iq4_nl_f32_grouped_slots_m128_n16"@,
        ),
        result is Ok ==> {
            let args = reading::words(*old(enc), *final(enc));
            let grid = reading::grid(*final(enc));
            &&& reading::launched(
                *old(enc), *final(enc),
                seq![
                    reading::at(weight),
                    reading::at(inner),
                    reading::at(counts),
                    reading::at(ids),
                    reading::at(out),
                ],
                seq![9216usize],
            )
            &&& reading::kernel(*old(enc), *final(enc))
                == "kernel_moe_down_iq4_nl_f32_grouped_slots_m128_n16"@
            &&& args.len() == 5
            &&& args[0] == n_out
            &&& args[1] == n_tokens
            &&& args[2] == n_in
            &&& args[3] == n_in / 32
            &&& args[4] == n_in
            &&& reading::tiles(grid.width, 16, n_tokens as int)
            &&& reading::tiles(grid.height, 128, n_out as int)
            &&& grid.depth == n_expert
            &&& reading::line(reading::group(*final(enc)), 128)
        },
{
    reading::lemma_compiled(ctx, "kernel_moe_down_iq4_nl_f32_grouped_slots_m128_n16"@);
    reading::lemma_read(*old(enc), *final(enc));
    lemma_products(n_in, n_out, n_expert);
    lemma_products(n_expert, n_tokens, 1);
    if n_out > 0 {
        lemma_products((out.count() / n_out) as usize, n_in, 1);
        lemma_products((out.count() / n_out) as usize, n_out, 1);
        vstd::arithmetic::div_mod::lemma_fundamental_div_mod(out.count() as int, n_out as int);
        vstd::arithmetic::mul::lemma_mul_is_commutative(n_out as int,
            out.count() as int / n_out as int);
    }
    numeric::law_div_up_covers(n_tokens, 16);
    numeric::law_div_up_covers(n_out, 128);
}

} // verus!
