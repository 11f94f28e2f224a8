//! What the grouped kernels for any storage format are told, and when.

use vstd::prelude::*;

use crate::context::MetalContext;
use crate::dtype::GgmlType;
use crate::encoder::{KernelEncoder, Launch, MTLSize, Outcome};
use crate::error::{Datum, Fault, MetalError};
use crate::moe_generic::{MoeGroupedGenericLayout, MoeGroupedGenericRole};
use crate::moe_generic;
use crate::numeric;
use crate::reading;
use crate::tensor::MetalTensor;

verus! {

/// How the name of a format's kernels spells the format, for the formats that have
/// kernels.
pub open spec fn spelling(dtype: GgmlType) -> Option<Seq<char>> {
    match dtype {
        GgmlType::Q2_K => Some("q2_K"@),
        GgmlType::Q3_K => Some("q3_K"@),
        GgmlType::Q4_K => Some("q4_K"@),
        GgmlType::Q5_K => Some("q5_K"@),
        GgmlType::Q6_K => Some("q6_K"@),
        GgmlType::Q8_0 => Some("q8_0"@),
        GgmlType::Q4_0 => Some("q4_0"@),
        GgmlType::Q4_1 => Some("q4_1"@),
        GgmlType::IQ2_S => Some("iq2_s"@),
        GgmlType::IQ3_XXS => Some("iq3_xxs"@),
        GgmlType::IQ3_S => Some("iq3_s"@),
        GgmlType::IQ4_NL => Some("iq4_nl"@),
        GgmlType::IQ4_XS => Some("iq4_xs"@),
        GgmlType::F32 => Some("f32"@),
        GgmlType::F16 => Some("f16"@),
        GgmlType::BF16 => Some("bf16"@),
        _ => None,
    }
}

/// The elements of the blocks in which a kernel reads a row: those of the format, or
/// 32 where each element stands alone.
pub open spec fn step(dtype: GgmlType) -> int {
    match dtype.layout() {
        Some((elems, _)) => if elems == 1 {
            32
        } else {
            elems as int
        },
        None => 0,
    }
}

/// The bytes of `n` elements of a format, in whole blocks.
pub open spec fn stored(dtype: GgmlType, n: int) -> int {
    match dtype.layout() {
        Some((elems, bytes)) => (n / elems as int) * bytes,
        None => 0,
    }
}

/// The name of the kernel that starts a slot's product.
pub open spec fn down_kernel(dtype: GgmlType) -> Seq<char> {
    "kernel_moe_down_"@ + spelling(dtype)->0 + "_f32_grouped_slots_generic"@
}

/// The name of the kernel that multiplies a second product into the first.
pub open spec fn up_kernel(dtype: GgmlType) -> Seq<char> {
    "kernel_moe_up_silu_mul_"@ + spelling(dtype)->0 + "_f32_grouped_slots_generic"@
}

/// The name of the kernel that computes both products.
pub open spec fn swiglu_kernel(dtype: GgmlType) -> Seq<char> {
    "kernel_moe_swiglu_"@ + spelling(dtype)->0 + "_f32_grouped_slots_generic"@
}

/// A bank has kernels and holds every row of every expert, in whole blocks and with
/// rows of less than four gibibytes.
pub open spec fn bank_holds(
    weight: MetalTensor,
    n_in: usize,
    n_rows: usize,
    n_expert: usize,
) -> bool {
    &&& spelling(weight.dtype) is Some
    &&& n_in > 0 && n_in as int % step(weight.dtype) == 0
    &&& stored(weight.dtype, n_in as int) * n_rows * n_expert <= weight.byte_length()->0
    &&& stored(weight.dtype, n_in as int) <= u32::MAX
}

/// A bank is refused just where it does not hold the rows.
proof fn lemma_bank(
    name: Seq<char>,
    weight: MetalTensor,
    n_in: usize,
    n_rows: usize,
    n_expert: usize,
)
    requires
        n_rows > 0,
        n_expert > 0,
    ensures
        moe_generic::generic_bank_fault(name, weight, n_in, n_rows, n_expert) is None
            <==> bank_holds(weight, n_in, n_rows, n_expert),
        moe_generic::generic_bank_fault(name, weight, n_in, n_rows, n_expert) matches Some(f)
            ==> (f matches Fault::BadShape(k, _, _) && k == name),
        spelling(weight.dtype) is Some ==> {
            let l = MoeGroupedGenericLayout::for_dtype(weight.dtype);
            &&& l is Some
            &&& l->0.suffix@ == spelling(weight.dtype)->0
            &&& n_in as int % step(weight.dtype) == 0 ==> l->0.row_bytes(n_in) == stored(
                weight.dtype,
                n_in as int,
            )
        },
{
    moe_generic::law_layout_matches_storage(weight.dtype);
    if let Some(l) = MoeGroupedGenericLayout::for_dtype(weight.dtype) {
        assert(l.block_elems == 32 || l.block_elems == 256);
        let (elems, bytes) = weight.dtype.layout()->0;
        let n = n_in as int;
        let b = bytes as int;
        if elems == 1 && n % 32 == 0 {
            assert((n / 32) * (32 * b) == (n / 1) * b) by (nonlinear_arith)
                requires
                    n % 32 == 0,
            ;
        }
        let row = l.row_bytes(n_in);
        let all = row * n_rows;
        assert(row >= 0) by (nonlinear_arith)
            requires
                row == (n_in / l.block_elems) * l.block_bytes,
                l.block_elems > 0,
        ;
        assert(all >= 0 && all <= all * n_expert) by (nonlinear_arith)
            requires
                all == row * n_rows,
                row >= 0,
                n_expert > 0,
        ;
    }
}

/// A slot of every whole row of `out` can be computed: it reads its share of the rows
/// of `src`, one row for each `share` slots.
pub open spec fn product_acceptable(
    weight: MetalTensor,
    src: MetalTensor,
    counts: MetalTensor,
    ids: MetalTensor,
    out: MetalTensor,
    n_in: usize,
    n_out: usize,
    n_expert: usize,
    n_tokens: usize,
    share: usize,
) -> bool {
    &&& n_out > 0 && n_expert > 0 && n_tokens > 0 && share > 0
    &&& bank_holds(weight, n_in, n_out, n_expert)
    &&& out.count() == (out.count() / n_out) * n_out
    &&& src.count() == numeric::div_up(out.count() / n_out, share) * n_in
    &&& counts.count() == n_expert
    &&& ids.count() == n_expert * n_tokens
}

/// What one product is told, in the commands from `from` up to `to`: the least and the
/// greatest slot count of the experts that it computes among it. A threadgroup takes 32
/// slots by 64 rows of an expert.
pub open spec fn product_told(
    post: KernelEncoder,
    from: int,
    to: int,
    name: Seq<char>,
    weight: MetalTensor,
    src: MetalTensor,
    counts: MetalTensor,
    ids: MetalTensor,
    out: MetalTensor,
    n_in: usize,
    n_out: usize,
    n_expert: usize,
    n_tokens: usize,
    share: usize,
    least: u32,
    greatest: u32,
) -> bool {
    let args = reading::words_at(post, from);
    let grid = reading::grid_at(post, to);
    &&& reading::launched_at(
        post,
        from,
        to,
        seq![
            reading::at(weight),
            reading::at(src),
            reading::at(counts),
            reading::at(ids),
            reading::at(out),
        ],
        seq![8192usize],
    )
    &&& reading::kernel_at(post, from) == name
    &&& args.len() == 9
    &&& args[0] == n_out as u32
    &&& args[1] == n_tokens as u32
    &&& args[2] == n_in as u32
    &&& args[3] == stored(weight.dtype, n_in as int)
    &&& args[4] == n_in as u32
    &&& args[5] == least
    &&& args[6] == greatest
    &&& args[7] == share as u32
    &&& args[8] == (out.count() / n_out) as u32
    &&& reading::tiles(grid.width, 32, n_tokens as int)
    &&& reading::tiles(grid.height, 64, n_out as int)
    &&& grid.depth == n_expert
    &&& reading::line(reading::group_at(post, to), 128)
}

/// One product, wherever its outcome stands.
proof fn lemma_product(
    pre: KernelEncoder,
    post: KernelEncoder,
    result: Result<(), MetalError>,
    ctx: MetalContext,
    role: MoeGroupedGenericRole,
    label: &'static str,
    weight: MetalTensor,
    src: MetalTensor,
    counts: MetalTensor,
    ids: MetalTensor,
    out: MetalTensor,
    n_in: usize,
    n_out: usize,
    n_expert: usize,
    n_tokens: usize,
    share: usize,
    least: u32,
    greatest: u32,
)
    requires
        pre.did(
            post,
            result,
            moe_generic::generic_mm(
                ctx, role, label,
                weight, src, counts, ids, out, n_in, n_out, n_expert, n_tokens, share, least,
                greatest,
            ),
        ),
        role != MoeGroupedGenericRole::Swiglu,
    ensures
        ({
            let name = if role == MoeGroupedGenericRole::Down {
                down_kernel(weight.dtype)
            } else {
                up_kernel(weight.dtype)
            };
            &&& reading::granted_just_when(
                pre, post, result, ctx,
                product_acceptable(
                    weight, src, counts, ids, out, n_in, n_out, n_expert, n_tokens, share,
                ),
                label@,
                name,
            )
            &&& n_out > 0 && n_expert > 0 && n_tokens > 0 && share > 0 && bank_holds(
                weight,
                n_in,
                n_out,
                n_expert,
            ) && !product_acceptable(
                weight, src, counts, ids, out, n_in, n_out, n_expert, n_tokens, share,
            ) ==> reading::shows(
                result,
                seq![
                    Datum::Int(src.elements() as int),
                    Datum::Int(counts.elements() as int),
                    Datum::Int(ids.elements() as int),
                    Datum::Int(out.elements() as int),
                    Datum::Int(numeric::div_up(out.count() / n_out, share) * n_in),
                    Datum::Int(n_expert as int),
                    Datum::Int(n_expert * n_tokens),
                    Datum::Int(n_out as int),
                ],
            )
            &&& result is Ok ==> reading::extends(pre, post) && product_told(
                post, pre.commands@.len() as int, post.commands@.len() as int, name,
                weight, src, counts, ids, out, n_in, n_out, n_expert, n_tokens, share, least,
                greatest,
            )
        }),
{
    if n_out > 0 && n_expert > 0 {
        lemma_bank(label@, weight, n_in, n_out, n_expert);
    }
    reading::lemma_compiled(ctx, down_kernel(weight.dtype));
    reading::lemma_compiled(ctx, up_kernel(weight.dtype));
    reading::lemma_read(pre, post);
    numeric::law_div_up_covers(n_tokens, 32);
    numeric::law_div_up_covers(n_out, 64);
}

/// One product per slot, of the experts with `min_count` to `max_count` slots.
pub proof fn law_generic_mm(
    enc: &mut KernelEncoder,
    ctx: MetalContext,
    role: MoeGroupedGenericRole,
    kernel: &'static str,
    weight: MetalTensor,
    src: MetalTensor,
    counts: MetalTensor,
    ids: MetalTensor,
    out: MetalTensor,
    n_in: usize,
    n_out: usize,
    n_expert: usize,
    n_tokens: usize,
    b_div: usize,
    min_count: u32,
    max_count: u32,
    result: Result<(), MetalError>,
)
    requires
        call_ensures(
            moe_generic::encode_generic_mm,
            (
                &ctx, enc, role, kernel, &weight, &src, &counts, &ids, &out, n_in, n_out,
                n_expert, n_tokens, b_div, min_count, max_count,
            ),
            result,
        ),
        role != MoeGroupedGenericRole::Swiglu,
    ensures
        ({
            let name = if role == MoeGroupedGenericRole::Down {
                down_kernel(weight.dtype)
            } else {
                up_kernel(weight.dtype)
            };
            &&& reading::granted_just_when(
                *old(enc), *final(enc), result, ctx,
                product_acceptable(
                    weight, src, counts, ids, out, n_in, n_out, n_expert, n_tokens, b_div,
                ),
                kernel@,
                name,
            )
            &&& n_out > 0 && n_expert > 0 && n_tokens > 0 && b_div > 0 && bank_holds(
                weight,
                n_in,
                n_out,
                n_expert,
            ) && !product_acceptable(
                weight, src, counts, ids, out, n_in, n_out, n_expert, n_tokens, b_div,
            ) ==> reading::shows(
                result,
                seq![
                    Datum::Int(src.elements() as int),
                    Datum::Int(counts.elements() as int),
                    Datum::Int(ids.elements() as int),
                    Datum::Int(out.elements() as int),
                    Datum::Int(numeric::div_up(out.count() / n_out, b_div) * n_in),
                    Datum::Int(n_expert as int),
                    Datum::Int(n_expert * n_tokens),
                    Datum::Int(n_out as int),
                ],
            )
            &&& result is Ok ==> reading::extends(*old(enc), *final(enc)) && product_told(
                *final(enc), old(enc).commands@.len() as int, final(enc).commands@.len() as int,
                name,
                weight, src, counts, ids, out, n_in, n_out, n_expert, n_tokens, b_div, min_count,
                max_count,
            )
        }),
{
    lemma_product(
        *old(enc), *final(enc), result, ctx, role, kernel,
        weight, src, counts, ids, out, n_in, n_out, n_expert, n_tokens, b_div, min_count, max_count,
    );
}

/// The down projection of the experts with `min_count` to `max_count` slots: each
/// slot reads a row of its own.
pub proof fn law_moe_down_f32_grouped_slots_generic_range(
    enc: &mut KernelEncoder,
    ctx: MetalContext,
    weight: MetalTensor,
    inner: MetalTensor,
    counts: MetalTensor,
    ids: MetalTensor,
    out: MetalTensor,
    n_in: usize,
    n_out: usize,
    n_expert: usize,
    n_tokens: usize,
    min_count: u32,
    max_count: u32,
    result: Result<(), MetalError>,
)
    requires
        call_ensures(
            moe_generic::encode_moe_down_f32_grouped_slots_generic_range,
            (
                &ctx, enc, &weight, &inner, &counts, &ids, &out, n_in, n_out, n_expert,
                n_tokens, min_count, max_count,
            ),
            result,
        ),
    ensures
        ({
            let name = down_kernel(weight.dtype);
            &&& reading::granted_just_when(
                *old(enc), *final(enc), result, ctx,
                product_acceptable(
                    weight, inner, counts, ids, out, n_in, n_out, n_expert, n_tokens, 1,
                ),
                "moe_down_grouped_slots_generic"@,
                name,
            )
            &&& n_out > 0 && n_expert > 0 && n_tokens > 0 && 1 > 0 && bank_holds(
                weight,
                n_in,
                n_out,
                n_expert,
            ) && !product_acceptable(
                weight, inner, counts, ids, out, n_in, n_out, n_expert, n_tokens, 1,
            ) ==> reading::shows(
                result,
                seq![
                    Datum::Int(inner.elements() as int),
                    Datum::Int(counts.elements() as int),
                    Datum::Int(ids.elements() as int),
                    Datum::Int(out.elements() as int),
                    Datum::Int(numeric::div_up(out.count() / n_out, 1) * n_in),
                    Datum::Int(n_expert as int),
                    Datum::Int(n_expert * n_tokens),
                    Datum::Int(n_out as int),
                ],
            )
            &&& result is Ok ==> reading::extends(*old(enc), *final(enc)) && product_told(
                *final(enc), old(enc).commands@.len() as int, final(enc).commands@.len() as int,
                name,
                weight, inner, counts, ids, out, n_in, n_out, n_expert, n_tokens, 1, min_count,
                max_count,
            )
        }),
{
    lemma_product(
        *old(enc), *final(enc), result, ctx, MoeGroupedGenericRole::Down,
        "moe_down_grouped_slots_generic",
        weight, inner, counts, ids, out, n_in, n_out, n_expert, n_tokens, 1, min_count, max_count,
    );
}

/// The down projection of every expert, whatever the number of its slots: each slot
/// reads a row of its own.
pub proof fn law_moe_down_f32_grouped_slots_generic(
    enc: &mut KernelEncoder,
    ctx: MetalContext,
    weight: MetalTensor,
    inner: MetalTensor,
    counts: MetalTensor,
    ids: MetalTensor,
    out: MetalTensor,
    n_in: usize,
    n_out: usize,
    n_expert: usize,
    n_tokens: usize,
    result: Result<(), MetalError>,
)
    requires
        call_ensures(
            moe_generic::encode_moe_down_f32_grouped_slots_generic,
            (
                &ctx, enc, &weight, &inner, &counts, &ids, &out, n_in, n_out, n_expert,
                n_tokens,
            ),
            result,
        ),
    ensures
        ({
            let name = down_kernel(weight.dtype);
            &&& reading::granted_just_when(
                *old(enc), *final(enc), result, ctx,
                product_acceptable(
                    weight, inner, counts, ids, out, n_in, n_out, n_expert, n_tokens, 1,
                ),
                "moe_down_grouped_slots_generic"@,
                name,
            )
            &&& n_out > 0 && n_expert > 0 && n_tokens > 0 && 1 > 0 && bank_holds(
                weight,
                n_in,
                n_out,
                n_expert,
            ) && !product_acceptable(
                weight, inner, counts, ids, out, n_in, n_out, n_expert, n_tokens, 1,
            ) ==> reading::shows(
                result,
                seq![
                    Datum::Int(inner.elements() as int),
                    Datum::Int(counts.elements() as int),
                    Datum::Int(ids.elements() as int),
                    Datum::Int(out.elements() as int),
                    Datum::Int(numeric::div_up(out.count() / n_out, 1) * n_in),
                    Datum::Int(n_expert as int),
                    Datum::Int(n_expert * n_tokens),
                    Datum::Int(n_out as int),
                ],
            )
            &&& result is Ok ==> reading::extends(*old(enc), *final(enc)) && product_told(
                *final(enc), old(enc).commands@.len() as int, final(enc).commands@.len() as int,
                name,
                weight, inner, counts, ids, out, n_in, n_out, n_expert, n_tokens, 1, 0,
                0x7fff_ffff,
            )
        }),
{
    lemma_product(
        *old(enc), *final(enc), result, ctx, MoeGroupedGenericRole::Down,
        "moe_down_grouped_slots_generic",
        weight, inner, counts, ids, out, n_in, n_out, n_expert, n_tokens, 1, 0, 0x7fff_ffff,
    );
}

/// Packed tokens with `topk` slots each can be sent through gate and up banks.
pub open spec fn slots_acceptable(
    x_pack: MetalTensor,
    counts: MetalTensor,
    ids: MetalTensor,
    inner: MetalTensor,
    n_hidden: usize,
    n_ffn: usize,
    n_expert: usize,
    topk: usize,
    n_tokens: usize,
) -> bool {
    &&& n_ffn > 0 && n_expert > 0 && topk > 0 && n_tokens > 0
    &&& x_pack.count() == n_tokens * n_hidden
    &&& counts.count() == n_expert
    &&& ids.count() == n_expert * n_tokens
    &&& inner.count() == n_tokens * topk * n_ffn
}

/// How SwiGLU of grouped slots ends. Banks of one format take one launch. Banks of two
/// formats take two, `w_gate` before `w_up`, on an encoder that keeps launches in order.
/// Where the second cannot be made, the first one stands and the request fails.
pub open spec fn swiglu_ended(
    pre: KernelEncoder,
    post: KernelEncoder,
    result: Result<(), MetalError>,
    ctx: MetalContext,
    w_gate: MetalTensor,
    w_up: MetalTensor,
    x_pack: MetalTensor,
    counts: MetalTensor,
    ids: MetalTensor,
    inner: MetalTensor,
    n_hidden: usize,
    n_ffn: usize,
    n_expert: usize,
    topk: usize,
    n_tokens: usize,
    least: u32,
    greatest: u32,
) -> bool {
    let slots = slots_acceptable(
        x_pack, counts, ids, inner, n_hidden, n_ffn, n_expert, topk, n_tokens,
    );
    let gate = bank_holds(w_gate, n_hidden, n_ffn, n_expert);
    let up = bank_holds(w_up, n_hidden, n_ffn, n_expert);
    let from = pre.commands@.len() as int;
    let to = post.commands@.len() as int;
    if w_gate.dtype == w_up.dtype {
        let args = reading::words(pre, post);
        let grid = reading::grid(post);
        &&& reading::granted_just_when(
            pre, post, result, ctx,
            slots && gate && up,
            "moe_swiglu_grouped_slots_generic"@,
            swiglu_kernel(w_gate.dtype),
        )
        &&& result is Ok ==> {
            &&& reading::launched(
                pre, post,
                seq![
                    reading::at(w_gate),
                    reading::at(w_up),
                    reading::at(x_pack),
                    reading::at(counts),
                    reading::at(ids),
                    reading::at(inner),
                ],
                seq![16384usize],
            )
            &&& reading::kernel(pre, post) == swiglu_kernel(w_gate.dtype)
            &&& args.len() == 9
            &&& args[0] == n_ffn as u32
            &&& args[1] == n_hidden as u32
            &&& args[2] == n_expert as u32
            &&& args[3] == topk as u32
            &&& args[4] == n_tokens as u32
            &&& args[5] == stored(w_gate.dtype, n_hidden as int)
            &&& args[6] == n_hidden as u32
            &&& args[7] == least
            &&& args[8] == greatest
            &&& reading::tiles(grid.width, 16, n_tokens as int)
            &&& reading::tiles(grid.height, 64, n_ffn as int)
            &&& grid.depth == n_expert
            &&& reading::line(reading::group(post), 128)
        }
    } else if !slots || pre.concurrent {
        reading::untouched(pre, post) && reading::refused_shape(
            result,
            "moe_swiglu_grouped_slots_generic"@,
        )
    } else {
        let first = gate && reading::compiled(ctx, down_kernel(w_gate.dtype));
        let second = up && reading::compiled(ctx, up_kernel(w_up.dtype));
        &&& result is Ok <==> first && second
        &&& !first ==> reading::untouched(pre, post)
        &&& first ==> reading::extends(pre, post) && product_told(
            post, from, from + 9, down_kernel(w_gate.dtype),
            w_gate, x_pack, counts, ids, inner, n_hidden, n_ffn, n_expert, n_tokens, topk, least,
            greatest,
        )
        &&& first && !second ==> to == from + 9
        &&& first && second ==> to == from + 18 && product_told(
            post, from + 9, to, up_kernel(w_up.dtype),
            w_up, x_pack, counts, ids, inner, n_hidden, n_ffn, n_expert, n_tokens, topk, least,
            greatest,
        )
    }
}

/// Two launches one after the other, read back.
proof fn lemma_read_two(pre: KernelEncoder, post: KernelEncoder, a: Launch, b: Launch)
    requires
        post@ == pre@ + (a.steps() + b.steps()),
        a.tensors.len() < 10 && a.scratch.len() < 10,
        b.tensors.len() < 10 && b.scratch.len() < 10,
        post.concurrent == pre.concurrent,
    ensures
        ({
            let from = pre.commands@.len() as int;
            let mid = from + a.steps().len();
            let to = mid + b.steps().len();
            &&& to == post.commands@.len()
            &&& a.steps().len() == 3 + a.tensors.len() + a.scratch.len()
            &&& b.steps().len() == 3 + b.tensors.len() + b.scratch.len()
            &&& reading::extends(pre, post)
            &&& reading::launched_at(post, from, mid, a.tensors, a.scratch)
            &&& reading::kernel_at(post, from) == a.pipeline
            &&& reading::words_at(post, from) == a.words
            &&& reading::grid_at(post, mid) == a.threadgroups
            &&& reading::group_at(post, mid) == a.threads
            &&& reading::launched_at(post, mid, to, b.tensors, b.scratch)
            &&& reading::kernel_at(post, mid) == b.pipeline
            &&& reading::words_at(post, mid) == b.words
            &&& reading::grid_at(post, to) == b.threadgroups
            &&& reading::group_at(post, to) == b.threads
        }),
{
    let from = pre@.len() as int;
    let mid = from + a.steps().len();
    assert(pre.commands@.len() == pre@.len() && post.commands@.len() == post@.len());
    assert forall|i: int| 0 <= i < a.steps().len() implies post@[from + i] == #[trigger] a.steps(
    )[i] by {
        assert((a.steps() + b.steps())[i] == a.steps()[i]);
    }
    assert forall|i: int| 0 <= i < b.steps().len() implies post@[mid + i] == #[trigger] b.steps(
    )[i] by {
        assert((a.steps() + b.steps())[a.steps().len() + i] == b.steps()[i]);
    }
    reading::lemma_read_at(post, from, a);
    reading::lemma_read_at(post, mid, b);
}

/// The launch of one product.
spec fn product_launch(
    role: MoeGroupedGenericRole,
    weight: MetalTensor,
    src: MetalTensor,
    counts: MetalTensor,
    ids: MetalTensor,
    out: MetalTensor,
    n_in: usize,
    n_out: usize,
    n_expert: usize,
    n_tokens: usize,
    share: usize,
    least: u32,
    greatest: u32,
) -> Launch {
    let l = MoeGroupedGenericLayout::for_dtype(weight.dtype)->0;
    Launch {
        pipeline: role.kernel_name(l.suffix@),
        words: seq![
            n_out as u32,
            n_tokens as u32,
            n_in as u32,
            l.row_bytes(n_in) as u32,
            n_in as u32,
            least,
            greatest,
            share as u32,
            (out.count() / n_out) as u32,
        ],
        tensors: seq![weight.place(), src.place(), counts.place(), ids.place(), out.place()],
        scratch: seq![8192usize],
        threadgroups: MTLSize {
            width: numeric::div_up(n_tokens, 32),
            height: numeric::div_up(n_out, 64),
            depth: n_expert,
        },
        threads: MTLSize { width: 128, height: 1, depth: 1 },
    }
}

/// Banks of two formats on an encoder that keeps launches in order.
#[verifier::rlimit(60)]
proof fn lemma_swiglu_mixed(
    pre: KernelEncoder,
    post: KernelEncoder,
    result: Result<(), MetalError>,
    ctx: MetalContext,
    w_gate: MetalTensor,
    w_up: MetalTensor,
    x_pack: MetalTensor,
    counts: MetalTensor,
    ids: MetalTensor,
    inner: MetalTensor,
    n_hidden: usize,
    n_ffn: usize,
    n_expert: usize,
    topk: usize,
    n_tokens: usize,
    least: u32,
    greatest: u32,
)
    requires
        pre.did(
            post,
            result,
            moe_generic::generic_swiglu(
                ctx, pre.concurrent,
                w_gate, w_up, x_pack, counts, ids, inner, n_hidden, n_ffn, n_expert, topk,
                n_tokens, least, greatest,
            ),
        ),
        slots_acceptable(x_pack, counts, ids, inner, n_hidden, n_ffn, n_expert, topk, n_tokens),
        w_gate.dtype != w_up.dtype,
        !pre.concurrent,
    ensures
        swiglu_ended(
            pre, post, result, ctx,
            w_gate, w_up, x_pack, counts, ids, inner, n_hidden, n_ffn, n_expert, topk, n_tokens,
            least, greatest,
        ),
{
    let label = "moe_swiglu_grouped_slots_generic"@;
    reading::lemma_compiled(ctx, down_kernel(w_gate.dtype));
    reading::lemma_compiled(ctx, up_kernel(w_up.dtype));
    numeric::law_div_up_covers(n_tokens, 32);
    numeric::law_div_up_covers(n_ffn, 64);
    lemma_bank(label, w_gate, n_hidden, n_ffn, n_expert);
    lemma_bank(label, w_up, n_hidden, n_ffn, n_expert);
    moe_generic::lemma_slot_rows(inner.count(), n_ffn, topk, n_tokens);
    let a = product_launch(
        MoeGroupedGenericRole::Down,
        w_gate, x_pack, counts, ids, inner, n_hidden, n_ffn, n_expert, n_tokens, topk, least,
        greatest,
    );
    let b = product_launch(
        MoeGroupedGenericRole::UpSiluMul,
        w_up, x_pack, counts, ids, inner, n_hidden, n_ffn, n_expert, n_tokens, topk, least,
        greatest,
    );
    let first = moe_generic::generic_mm(
        ctx, MoeGroupedGenericRole::Down, "moe_swiglu_grouped_slots_generic",
        w_gate, x_pack, counts, ids, inner, n_hidden, n_ffn, n_expert, n_tokens, topk, least,
        greatest,
    );
    let second = moe_generic::generic_mm(
        ctx, MoeGroupedGenericRole::UpSiluMul, "moe_swiglu_grouped_slots_generic",
        w_up, x_pack, counts, ids, inner, n_hidden, n_ffn, n_expert, n_tokens, topk, least,
        greatest,
    );
    if first is Recorded {
        assert(first == Outcome::Recorded(a.steps()));
        if second is Recorded {
            assert(second == Outcome::Recorded(b.steps()));
            lemma_read_two(pre, post, a, b);
        } else {
            assert(post@ == pre@ + a.steps());
            assert(a.steps().len() == 9);
            reading::lemma_read(pre, post);
        }
    }
}

proof fn lemma_swiglu(
    pre: KernelEncoder,
    post: KernelEncoder,
    result: Result<(), MetalError>,
    ctx: MetalContext,
    w_gate: MetalTensor,
    w_up: MetalTensor,
    x_pack: MetalTensor,
    counts: MetalTensor,
    ids: MetalTensor,
    inner: MetalTensor,
    n_hidden: usize,
    n_ffn: usize,
    n_expert: usize,
    topk: usize,
    n_tokens: usize,
    least: u32,
    greatest: u32,
)
    requires
        pre.did(
            post,
            result,
            moe_generic::generic_swiglu(
                ctx, pre.concurrent,
                w_gate, w_up, x_pack, counts, ids, inner, n_hidden, n_ffn, n_expert, topk,
                n_tokens, least, greatest,
            ),
        ),
    ensures
        swiglu_ended(
            pre, post, result, ctx,
            w_gate, w_up, x_pack, counts, ids, inner, n_hidden, n_ffn, n_expert, topk, n_tokens,
            least, greatest,
        ),
{
    let label = "moe_swiglu_grouped_slots_generic"@;
    let slots = slots_acceptable(
        x_pack, counts, ids, inner, n_hidden, n_ffn, n_expert, topk, n_tokens,
    );
    if slots && w_gate.dtype != w_up.dtype && !pre.concurrent {
        lemma_swiglu_mixed(
            pre, post, result, ctx,
            w_gate, w_up, x_pack, counts, ids, inner, n_hidden, n_ffn, n_expert, topk, n_tokens,
                least,
            greatest,
        );
    } else if w_gate.dtype == w_up.dtype {
        reading::lemma_compiled(ctx, swiglu_kernel(w_gate.dtype));
        reading::lemma_read(pre, post);
        numeric::law_div_up_covers(n_tokens, 16);
        numeric::law_div_up_covers(n_ffn, 64);
        if n_ffn > 0 && n_expert > 0 {
            lemma_bank(label, w_gate, n_hidden, n_ffn, n_expert);
            lemma_bank(label, w_up, n_hidden, n_ffn, n_expert);
        }
    }
}

/// SwiGLU of the experts with `min_count` to `max_count` slots.
pub proof fn law_moe_swiglu_f32_grouped_slots_generic_range(
    enc: &mut KernelEncoder,
    ctx: MetalContext,
    w_gate: MetalTensor,
    w_up: MetalTensor,
    x_pack: MetalTensor,
    counts: MetalTensor,
    ids: MetalTensor,
    inner: MetalTensor,
    n_hidden: usize,
    n_ffn: usize,
    n_expert: usize,
    topk: usize,
    n_tokens: usize,
    min_count: u32,
    max_count: u32,
    result: Result<(), MetalError>,
)
    requires
        call_ensures(
            moe_generic::encode_moe_swiglu_f32_grouped_slots_generic_range,
            (
                &ctx, enc, &w_gate, &w_up, &x_pack, &counts, &ids, &inner, n_hidden, n_ffn,
                n_expert, topk, n_tokens, min_count, max_count,
            ),
            result,
        ),
    ensures
        swiglu_ended(
            *old(enc), *final(enc), result, ctx,
            w_gate, w_up, x_pack, counts, ids, inner, n_hidden, n_ffn, n_expert, topk,
            n_tokens, min_count, max_count,
        ),
{
    lemma_swiglu(
        *old(enc), *final(enc), result, ctx,
        w_gate, w_up, x_pack, counts, ids, inner, n_hidden, n_ffn, n_expert, topk, n_tokens,
        min_count, max_count,
    );
}

/// SwiGLU of every expert, whatever the number of its slots.
pub proof fn law_moe_swiglu_f32_grouped_slots_generic(
    enc: &mut KernelEncoder,
    ctx: MetalContext,
    w_gate: MetalTensor,
    w_up: MetalTensor,
    x_pack: MetalTensor,
    counts: MetalTensor,
    ids: MetalTensor,
    inner: MetalTensor,
    n_hidden: usize,
    n_ffn: usize,
    n_expert: usize,
    topk: usize,
    n_tokens: usize,
    result: Result<(), MetalError>,
)
    requires
        call_ensures(
            moe_generic::encode_moe_swiglu_f32_grouped_slots_generic,
            (
                &ctx, enc, &w_gate, &w_up, &x_pack, &counts, &ids, &inner, n_hidden, n_ffn,
                n_expert, topk, n_tokens,
            ),
            result,
        ),
    ensures
        swiglu_ended(
            *old(enc), *final(enc), result, ctx,
            w_gate, w_up, x_pack, counts, ids, inner, n_hidden, n_ffn, n_expert, topk,
            n_tokens, 0, 0x7fff_ffff,
        ),
{
    lemma_swiglu(
        *old(enc), *final(enc), result, ctx,
        w_gate, w_up, x_pack, counts, ids, inner, n_hidden, n_ffn, n_expert, topk, n_tokens,
        0, 0x7fff_ffff,
    );
}

} // verus!
