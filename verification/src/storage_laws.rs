//! What holds of the sizes of tensors, of new tensors and of views.

use vstd::arithmetic::power2::*;
use vstd::prelude::*;

use crate::context::{
    Allocation, AllocationCensusRow, Buffer, Contents, Initial, MetalContext, Pipeline, StorageMode,
};
use crate::dtype::GgmlType;
use crate::error::{Datum, Fault, MetalError};
use crate::numeric;
use crate::shape;
use crate::tensor::{Binding, MetalTensor, MetalTensorProvenance, TensorDesc};

verus! {

/// The elements of a storage block.
pub open spec fn per_block(dtype: GgmlType) -> int {
    match dtype.layout() {
        Some((elems, _)) => elems as int,
        None => 0,
    }
}

/// The bytes of a storage block.
pub open spec fn block_size(dtype: GgmlType) -> int {
    match dtype.layout() {
        Some((_, bytes)) => bytes as int,
        None => 0,
    }
}

/// The product of the dimensions.
pub open spec fn volume(shape: Seq<u64>) -> int
    decreases shape.len(),
{
    if shape.len() == 0 {
        1
    } else {
        volume(shape.drop_last()) * shape.last()
    }
}

/// The product of the dimensions up to any of them has 64 bits.
pub open spec fn countable(shape: Seq<u64>) -> bool {
    forall|k: int| 0 <= k <= shape.len() ==> volume(#[trigger] shape.take(k)) <= u64::MAX
}

/// Counting stops where a product does not fit, and else counts all elements.
proof fn lemma_volume(shape: Seq<u64>)
    ensures
        shape::shape_elements(shape) is Some <==> countable(shape),
        shape::shape_elements(shape) matches Some(n) ==> n == volume(shape),
    decreases shape.len(),
{
    assert(shape.take(shape.len() as int) =~= shape);
    if shape.len() == 0 {
        assert forall|k: int| 0 <= k <= shape.len() implies volume(#[trigger] shape.take(k))
            <= u64::MAX by {
            assert(shape.take(k) =~= shape);
        }
    } else {
        let front = shape.drop_last();
        lemma_volume(front);
        if countable(shape) {
            assert forall|k: int| 0 <= k <= front.len() implies volume(#[trigger] front.take(k))
                <= u64::MAX by {
                assert(front.take(k) =~= shape.take(k));
            }
            assert(volume(shape.take(shape.len() as int)) <= u64::MAX);
        }
        if shape::shape_elements(shape) is Some {
            assert forall|k: int| 0 <= k <= shape.len() implies volume(#[trigger] shape.take(k))
                <= u64::MAX by {
                if k < shape.len() {
                    assert(front.take(k) =~= shape.take(k));
                }
            }
        }
    }
}

/// The elements of a shape are the product of its dimensions, where that and the
/// products on the way to it have 64 bits.
pub proof fn law_elements_are_the_product(shape: &[u64], result: Result<u64, MetalError>)
    requires
        call_ensures(shape::checked_shape_elements, (shape,), result),
    ensures
        match result {
            Ok(n) => countable(shape@) && n == volume(shape@),
            Err(e) => !countable(shape@) && e@ is BadShape,
        },
{
    lemma_volume(shape@);
}

/// Dense elements take their size each.
pub proof fn law_dense_elements_take_their_size(
    shape: &[u64],
    size: usize,
    result: Result<(usize, usize), MetalError>,
)
    requires
        call_ensures(shape::checked_shape_bytes, (shape, size), result),
    ensures
        match result {
            Ok((n, bytes)) => {
                &&& countable(shape@)
                &&& n == volume(shape@)
                &&& bytes == n * size
            },
            Err(e) => {
                &&& e@ is BadShape
                &&& countable(shape@) ==> volume(shape@) > usize::MAX || volume(shape@) * size
                    > usize::MAX
            },
        },
{
    lemma_volume(shape@);
}

/// Elements of a format are stored in whole blocks, and take the bytes of those.
pub proof fn law_blocks_take_their_bytes(
    shape: &[u64],
    dtype: GgmlType,
    result: Result<(usize, usize), MetalError>,
)
    requires
        call_ensures(shape::checked_ggml_shape_bytes, (shape, dtype), result),
    ensures
        match result {
            Ok((n, bytes)) => {
                &&& countable(shape@)
                &&& n == volume(shape@)
                &&& dtype.layout() is Some
                &&& n as int % per_block(dtype) == 0
                &&& bytes == (n as int / per_block(dtype)) * block_size(dtype)
            },
            Err(e) => {
                &&& e@ is BadShape
                &&& countable(shape@) && dtype.layout() is Some && volume(shape@)
                    % per_block(dtype) == 0 ==> volume(shape@) > usize::MAX || (volume(
                    shape@,
                ) / per_block(dtype)) * block_size(dtype) > usize::MAX
            },
        },
{
    lemma_volume(shape@);
    shape::lemma_layout_positive(dtype);
}

/// The bits of an element of a format, and the bytes of a block that hold anything
/// else: scales, offsets, signs and high bits.
pub open spec fn element_bits(dtype: GgmlType) -> Option<(int, int)> {
    match dtype {
        GgmlType::F32 | GgmlType::I32 => Some((32, 0)),
        GgmlType::F64 | GgmlType::I64 => Some((64, 0)),
        GgmlType::F16 | GgmlType::BF16 | GgmlType::I16 => Some((16, 0)),
        GgmlType::I8 => Some((8, 0)),
        GgmlType::Q4_0 | GgmlType::IQ4_NL => Some((4, 2)),
        GgmlType::Q4_1 => Some((4, 4)),
        GgmlType::Q5_0 => Some((5, 2)),
        GgmlType::Q5_1 => Some((5, 4)),
        GgmlType::Q8_0 => Some((8, 2)),
        GgmlType::Q8_1 => Some((8, 4)),
        GgmlType::Q2_K => Some((2, 20)),
        GgmlType::Q3_K => Some((3, 14)),
        GgmlType::Q4_K => Some((4, 16)),
        GgmlType::Q5_K => Some((5, 16)),
        GgmlType::Q6_K => Some((6, 18)),
        GgmlType::Q8_K => Some((8, 36)),
        GgmlType::IQ1_S => Some((1, 18)),
        GgmlType::IQ1_M => Some((1, 24)),
        GgmlType::IQ2_XXS => Some((2, 2)),
        GgmlType::IQ2_XS => Some((2, 10)),
        GgmlType::IQ2_S => Some((2, 18)),
        GgmlType::IQ3_XXS => Some((3, 2)),
        GgmlType::IQ3_S => Some((3, 14)),
        GgmlType::IQ4_XS => Some((4, 8)),
        GgmlType::MXFP4 => Some((4, 1)),
        GgmlType::Unknown => None,
    }
}

/// The formats that are stored in blocks of 32.
pub open spec fn in_small_blocks(dtype: GgmlType) -> bool {
    match dtype {
        GgmlType::Q4_0 | GgmlType::Q4_1 | GgmlType::Q5_0 | GgmlType::Q5_1 | GgmlType::Q8_0
        | GgmlType::Q8_1 | GgmlType::IQ4_NL | GgmlType::MXFP4 => true,
        _ => false,
    }
}

/// A block is as long as the bits of its elements and the rest that it holds. Blocks
/// have one, 32 or 256 elements.
pub proof fn law_blocks_hold_their_bits(dtype: GgmlType, result: Option<(u64, u64)>)
    requires
        call_ensures(GgmlType::storage_layout, (dtype,), result),
    ensures
        match result {
            Some((elems, bytes)) => {
                let (bits, rest) = element_bits(dtype)->0;
                &&& element_bits(dtype) is Some
                &&& bytes * 8 == elems * bits + rest * 8
                &&& elems == if rest == 0 {
                    1int
                } else if in_small_blocks(dtype) {
                    32
                } else {
                    256
                }
            },
            None => element_bits(dtype) is None,
        },
{
}

/// The element count of a tensor is that of its shape, and so is its byte count.
pub proof fn law_tensor_counts_its_shape(
    tensor: MetalTensor,
    elements: u64,
    count: usize,
    bytes: u64,
)
    requires
        call_ensures(MetalTensor::n_elements, (&tensor,), elements),
        call_ensures(MetalTensor::element_count, (&tensor,), count),
        call_ensures(MetalTensor::n_bytes, (&tensor,), bytes),
        countable(tensor.shape@),
        tensor.byte_length() is Some,
    ensures
        elements == volume(tensor.shape@),
        count == elements as usize,
        tensor.dtype.layout() is Some,
        bytes == (volume(tensor.shape@) / per_block(tensor.dtype))
            * block_size(tensor.dtype),
{
    lemma_volume(tensor.shape@);
    shape::lemma_layout_positive(tensor.dtype);
}

/// A tensor is bound where it starts, and is written only if it owns plain storage.
pub proof fn law_binding_is_the_start(tensor: MetalTensor, binding: Binding, writable: bool)
    requires
        call_ensures(MetalTensor::binding, (&tensor,), binding),
        call_ensures(MetalTensor::is_writable, (&tensor,), writable),
    ensures
        binding.buffer == tensor.buffer,
        binding.offset == tensor.offset,
        writable <==> tensor.provenance == MetalTensorProvenance::OwnedWritable,
{
}

/// A range is valid just where it is aligned and each of its bytes lies in the buffer.
pub proof fn law_valid_range_is_inside(
    tensor: MetalTensor,
    bytes: usize,
    alignment: u64,
    result: bool,
)
    requires
        call_ensures(MetalTensor::physical_range_valid, (&tensor, bytes, alignment), result),
    ensures
        result <==> tensor.offset % alignment == 0 && tensor.offset + bytes
            <= tensor.buffer.length,
{
}

/// Tensors of which each has a byte overlap just where one byte of one buffer is in
/// both. Those of different buffers never do; where a size is not known, those of one
/// buffer do.
pub proof fn law_overlap_is_a_shared_byte(a: MetalTensor, b: MetalTensor, result: bool)
    requires
        call_ensures(MetalTensor::ranges_overlap, (&a, &b), result),
    ensures
        a.buffer.id != b.buffer.id ==> !result,
        a.buffer.id == b.buffer.id && (a.byte_length() is None || b.byte_length() is None)
            ==> result,
        a.byte_length() is Some && b.byte_length() is Some && a.byte_length()->0 > 0
            && b.byte_length()->0 > 0 ==> (result <==> a.buffer.id == b.buffer.id && exists|at: int|
            #[trigger]
            is_byte_of(a, at) && is_byte_of(b, at)),
{
    if a.byte_length() is Some && b.byte_length() is Some && a.byte_length()->0 > 0
        && b.byte_length()->0 > 0 && result {
        let at = if a.offset > b.offset {
            a.offset as int
        } else {
            b.offset as int
        };
        assert(is_byte_of(a, at) && is_byte_of(b, at));
    }
}

/// The byte `at` of the tensor's buffer is one of the tensor's.
pub open spec fn is_byte_of(tensor: MetalTensor, at: int) -> bool {
    tensor.offset <= at < tensor.offset + tensor.byte_length()->0
}

/// The device has one buffer more, of this length and with these contents, and the
/// census, where one is under way, one row more that says so.
pub open spec fn one_buffer_more(
    pre: MetalContext,
    post: MetalContext,
    buffer: Buffer,
    length: int,
    contents: Initial,
) -> bool {
    &&& buffer.id == pre.allocations@.len() as u64
    &&& buffer.length == length
    &&& buffer.storage_mode == StorageMode::Shared
    &&& post.allocations@.len() == pre.allocations@.len() + 1
    &&& forall|i: int|
        0 <= i < pre.allocations@.len() ==> #[trigger] post.allocations@[i] == pre.allocations@[i]
    &&& post.allocations@.last().buffer == buffer
    &&& post.allocations@.last().contents@ == contents
    &&& post.limits == pre.limits
    &&& post.switches == pre.switches
    &&& post.pipelines == pre.pipelines
    &&& pre.census is None ==> post.census is None
    &&& pre.census matches Some(rows) ==> (post.census matches Some(now) && {
        &&& now@.len() == rows@.len() + 1
        &&& forall|i: int| 0 <= i < rows@.len() ==> #[trigger] now@[i] == rows@[i]
        &&& now@.last().requested_bytes == length
        &&& now@.last().buffer_length == length
        &&& now@.last().storage_mode == "shared"
    })
}

/// A request for a buffer is met just where the device allows its length, and else
/// changes nothing.
pub open spec fn buffer_met(
    pre: MetalContext,
    post: MetalContext,
    result: Result<Buffer, MetalError>,
    length: int,
    contents: Initial,
) -> bool {
    match result {
        Ok(buffer) => length <= pre.limits.max_buffer_length && one_buffer_more(
            pre, post, buffer, length, contents,
        ),
        Err(e) => length > pre.limits.max_buffer_length && post == pre && e@
            == Fault::BufferTooLarge(length, pre.limits.max_buffer_length as int),
    }
}

proof fn lemma_allocated(pre: MetalContext, post: MetalContext, length: usize, initial: Initial)
    requires
        MetalContext::allocated(pre, post, length, initial),
    ensures
        one_buffer_more(pre, post, pre.next_buffer(length), length as int, initial),
{
    assert forall|i: int| 0 <= i < pre.allocations@.len() implies #[trigger] post.allocations@[i]
        == pre.allocations@[i] by {
        assert(post.allocations@.drop_last()[i] == pre.allocations@[i]);
    }
}

/// Buffers without contents, with a copy of some bytes, and of zeros.
pub proof fn law_buffers_are_new(
    ctx: &mut MetalContext,
    length: usize,
    bytes: &[u8],
    result: Result<Buffer, MetalError>,
)
    requires
        bytes@.len() <= usize::MAX,
    ensures
        call_ensures(MetalContext::buffer_uninit, (ctx, length), result) ==> buffer_met(
            *old(ctx), *final(ctx), result, length as int, Initial::Uninitialized,
        ),
        call_ensures(MetalContext::buffer_from, (ctx, bytes), result) ==> buffer_met(
            *old(ctx), *final(ctx), result, bytes@.len() as int, Initial::Copied(bytes@),
        ),
        call_ensures(MetalContext::buffer_zeroed, (ctx, length), result) ==> buffer_met(
            *old(ctx), *final(ctx), result, length as int, Initial::ZeroFilled,
        ),
{
    let n = bytes@.len() as usize;
    if MetalContext::allocated(*old(ctx), *final(ctx), length, Initial::Uninitialized) {
        lemma_allocated(*old(ctx), *final(ctx), length, Initial::Uninitialized);
    }
    if MetalContext::allocated(*old(ctx), *final(ctx), length, Initial::ZeroFilled) {
        lemma_allocated(*old(ctx), *final(ctx), length, Initial::ZeroFilled);
    }
    if MetalContext::allocated(*old(ctx), *final(ctx), n, Initial::Copied(bytes@)) {
        lemma_allocated(*old(ctx), *final(ctx), n, Initial::Copied(bytes@));
    }
}

/// A census that was begun, and taken after a buffer was made, lists that buffer alone.
/// While it is under way there is one observer, and before and after it none.
pub proof fn law_census_lists_what_was_allocated(
    begun: &mut MetalContext,
    filled: &mut MetalContext,
    taken: &mut MetalContext,
    length: usize,
    buffer: Buffer,
    rows: Vec<AllocationCensusRow>,
    during: usize,
    after: usize,
)
    requires
        call_ensures(MetalContext::allocation_census_begin, (begun,), ()),
        *old(filled) == *final(begun),
        call_ensures(MetalContext::buffer_uninit, (filled, length), Ok(buffer)),
        *old(taken) == *final(filled),
        call_ensures(MetalContext::allocation_census_take, (taken,), rows),
        call_ensures(MetalContext::diagnostics_observer_active_count, (final(begun),), during),
        call_ensures(MetalContext::diagnostics_observer_active_count, (final(taken),), after),
    ensures
        rows@.len() == 1,
        rows@[0].requested_bytes == length,
        rows@[0].buffer_length == length,
        during == 1,
        after == 0,
        final(taken).allocations@.len() == old(begun).allocations@.len() + 1,
        final(taken).limits == old(begun).limits,
        final(taken).switches == old(begun).switches,
        final(taken).pipelines == old(begun).pipelines,
{
    law_buffers_are_new(filled, length, &[], Ok(buffer));
}

/// A pipeline is found by its name: the first of those that have it.
pub proof fn law_pipeline_is_found_by_name(
    ctx: MetalContext,
    name: &str,
    result: Result<&Pipeline, MetalError>,
)
    requires
        call_ensures(MetalContext::pipeline, (&ctx, name), result),
    ensures
        match result {
            Ok(p) => exists|i: int|
                0 <= i < ctx.pipelines@.len() && (#[trigger] ctx.pipelines@[i]) == *p
                    && ctx.pipelines@[i].name@ == name@ && forall|j: int|
                    0 <= j < i ==> (#[trigger] ctx.pipelines@[j]).name@ != name@,
            Err(e) => {
                &&& e@ == Fault::MissingPipeline(name@)
                &&& forall|i: int|
                    0 <= i < ctx.pipelines@.len() ==> (#[trigger] ctx.pipelines@[i]).name@ != name@
            },
        },
{
    crate::reading::lemma_compiled(ctx, name@);
    lemma_first(ctx, name@, 0);
}

proof fn lemma_first(ctx: MetalContext, name: Seq<char>, from: int)
    requires
        0 <= from,
    ensures
        match ctx.pipeline_from(name, from) {
            Some(i) => from <= i < ctx.pipelines@.len() && ctx.pipelines@[i].name@ == name
                && forall|j: int| from <= j < i ==> (#[trigger] ctx.pipelines@[j]).name@ != name,
            None => forall|j: int|
                from <= j < ctx.pipelines@.len() ==> (#[trigger] ctx.pipelines@[j]).name@ != name,
        },
    decreases ctx.pipelines@.len() - from,
{
    if from < ctx.pipelines@.len() && ctx.pipelines@[from].name@ != name {
        lemma_first(ctx, name, from + 1);
    }
}

/// A request for a tensor is met with one that starts at the first byte of a new
/// buffer.
pub open spec fn tensor_made(
    pre: MetalContext,
    post: MetalContext,
    tensor: MetalTensor,
    shape: Seq<u64>,
    dtype: GgmlType,
    provenance: MetalTensorProvenance,
    length: int,
    contents: Initial,
) -> bool {
    &&& one_buffer_more(pre, post, tensor.buffer, length, contents)
    &&& length <= pre.limits.max_buffer_length
    &&& tensor.offset == 0
    &&& tensor.shape@ == shape
    &&& tensor.dtype == dtype
    &&& tensor.provenance == provenance
}

/// The bytes of a shape of a format exist: it fills whole blocks and can be counted.
pub open spec fn sized(shape: Seq<u64>, dtype: GgmlType) -> bool {
    &&& countable(shape)
    &&& dtype.layout() is Some
    &&& volume(shape) % per_block(dtype) == 0
    &&& volume(shape) <= usize::MAX
    &&& size(shape, dtype) <= usize::MAX
}

/// The bytes of a shape of a format.
pub open spec fn size(shape: Seq<u64>, dtype: GgmlType) -> int {
    (volume(shape) / per_block(dtype)) * block_size(dtype)
}

proof fn lemma_size(shape: Seq<u64>, dtype: GgmlType)
    ensures
        match shape::block_bytes(shape, dtype) {
            Ok((n, bytes)) => sized(shape, dtype) && n == volume(shape) && bytes == size(
                shape,
                dtype,
            ),
            Err(f) => !sized(shape, dtype) && f is BadShape,
        },
{
    lemma_volume(shape);
    shape::lemma_layout_positive(dtype);
}

/// How a request for a tensor of `length` bytes ends: it is met where it is acceptable
/// and the device allows the length, and changes nothing else.
pub open spec fn tensor_met(
    pre: MetalContext,
    post: MetalContext,
    result: Result<MetalTensor, MetalError>,
    acceptable: bool,
    shape: Seq<u64>,
    dtype: GgmlType,
    provenance: MetalTensorProvenance,
    length: int,
    contents: Initial,
) -> bool {
    match result {
        Ok(tensor) => acceptable && tensor_made(
            pre, post, tensor, shape, dtype, provenance, length, contents,
        ),
        Err(e) => {
            &&& post == pre
            &&& !acceptable ==> e@ is BadShape
            &&& acceptable ==> length > pre.limits.max_buffer_length && e@ == Fault::BufferTooLarge(
                length,
                pre.limits.max_buffer_length as int,
            )
        },
    }
}

/// A tensor with a copy of bytes is writable and is made just where the bytes are as
/// many as its shape and format take.
pub proof fn law_from_bytes(
    ctx: &mut MetalContext,
    bytes: &[u8],
    shape: Vec<u64>,
    dtype: GgmlType,
    result: Result<MetalTensor, MetalError>,
)
    requires
        call_ensures(MetalTensor::from_bytes, (ctx, bytes, shape, dtype), result),
    ensures
        tensor_met(
            *old(ctx), *final(ctx), result,
            sized(shape@, dtype) && bytes@.len() == size(shape@, dtype),
            shape@, dtype, MetalTensorProvenance::OwnedWritable,
            bytes@.len() as int,
            Initial::Copied(bytes@),
        ),
        sized(shape@, dtype) && bytes@.len() != size(shape@, dtype) ==> match result {
            Err(e) => (e@ matches Fault::BadShape(_, _, shown) && shown =~= seq![
                Datum::Int(bytes@.len() as int),
                Datum::Shape(shape@),
                Datum::Dtype(dtype),
                Datum::Int(size(shape@, dtype)),
            ]),
            Ok(_) => false,
        },
{
    lemma_size(shape@, dtype);
    let n = bytes@.len() as usize;
    if MetalContext::allocated(*old(ctx), *final(ctx), n, Initial::Copied(bytes@)) {
        lemma_allocated(*old(ctx), *final(ctx), n, Initial::Copied(bytes@));
    }
}

/// The same of a tensor that a file describes.
pub proof fn law_from_gguf_tensor(
    ctx: &mut MetalContext,
    desc: TensorDesc,
    bytes: &[u8],
    result: Result<MetalTensor, MetalError>,
)
    requires
        call_ensures(MetalTensor::from_gguf_tensor, (ctx, &desc, bytes), result),
    ensures
        tensor_met(
            *old(ctx), *final(ctx), result,
            sized(desc.shape@, desc.dtype) && bytes@.len() == size(desc.shape@, desc.dtype),
            desc.shape@, desc.dtype, MetalTensorProvenance::OwnedWritable,
            bytes@.len() as int,
            Initial::Copied(bytes@),
        ),
{
    lemma_size(desc.shape@, desc.dtype);
    let n = bytes@.len() as usize;
    if MetalContext::allocated(*old(ctx), *final(ctx), n, Initial::Copied(bytes@)) {
        lemma_allocated(*old(ctx), *final(ctx), n, Initial::Copied(bytes@));
    }
}

/// A copied weight is read-only, and its file has to declare the size that it has.
pub proof fn law_copied_gguf_weight(
    ctx: &mut MetalContext,
    desc: TensorDesc,
    bytes: &[u8],
    result: Result<MetalTensor, MetalError>,
)
    requires
        call_ensures(MetalTensor::copied_gguf_weight, (ctx, &desc, bytes), result),
    ensures
        tensor_met(
            *old(ctx), *final(ctx), result,
            sized(desc.shape@, desc.dtype) && bytes@.len() == size(desc.shape@, desc.dtype)
                && desc.n_bytes == bytes@.len(),
            desc.shape@, desc.dtype, MetalTensorProvenance::OwnedWeightReadOnly,
            bytes@.len() as int,
            Initial::Copied(bytes@),
        ),
{
    lemma_size(desc.shape@, desc.dtype);
    let n = bytes@.len() as usize;
    if MetalContext::allocated(*old(ctx), *final(ctx), n, Initial::Copied(bytes@)) {
        lemma_allocated(*old(ctx), *final(ctx), n, Initial::Copied(bytes@));
    }
}

/// Tensors of single elements, with room for each of them and no contents.
pub proof fn law_dense_tensors(
    ctx: &mut MetalContext,
    shape: Vec<u64>,
    result: Result<MetalTensor, MetalError>,
)
    ensures
        call_ensures(MetalTensor::zeros_f32, (ctx, shape), result) ==> tensor_met(
            *old(ctx), *final(ctx), result, sized(shape@, GgmlType::F32), shape@, GgmlType::F32,
            MetalTensorProvenance::OwnedWritable, volume(shape@) * 4, Initial::Uninitialized,
        ),
        call_ensures(MetalTensor::zeros_i32, (ctx, shape), result) ==> tensor_met(
            *old(ctx), *final(ctx), result, sized(shape@, GgmlType::I32), shape@, GgmlType::I32,
            MetalTensorProvenance::OwnedWritable, volume(shape@) * 4, Initial::Uninitialized,
        ),
        call_ensures(MetalTensor::zeros_f16, (ctx, shape), result) ==> tensor_met(
            *old(ctx), *final(ctx), result, sized(shape@, GgmlType::F16), shape@, GgmlType::F16,
            MetalTensorProvenance::OwnedWritable, volume(shape@) * 2, Initial::Uninitialized,
        ),
{
    lemma_volume(shape@);
    lemma_size(shape@, GgmlType::F32);
    lemma_size(shape@, GgmlType::I32);
    lemma_size(shape@, GgmlType::F16);
    let n = volume(shape@);
    assert(n % 1 == 0 && n / 1 == n);
    assert(per_block(GgmlType::F32) == 1 && size(shape@, GgmlType::F32) == n * 4);
    assert(per_block(GgmlType::I32) == 1 && size(shape@, GgmlType::I32) == n * 4);
    assert(per_block(GgmlType::F16) == 1 && size(shape@, GgmlType::F16) == n * 2);
    let four = (volume(shape@) * 4) as usize;
    let two = (volume(shape@) * 2) as usize;
    if MetalContext::allocated(*old(ctx), *final(ctx), four, Initial::Uninitialized) {
        lemma_allocated(*old(ctx), *final(ctx), four, Initial::Uninitialized);
    }
    if MetalContext::allocated(*old(ctx), *final(ctx), two, Initial::Uninitialized) {
        lemma_allocated(*old(ctx), *final(ctx), two, Initial::Uninitialized);
    }
}

/// A tensor of 34-byte blocks of 32 elements, without contents.
pub proof fn law_zeros_q8_0(
    ctx: &mut MetalContext,
    shape: Vec<u64>,
    result: Result<MetalTensor, MetalError>,
)
    requires
        call_ensures(MetalTensor::zeros_q8_0, (ctx, shape), result),
    ensures
        tensor_met(
            *old(ctx), *final(ctx), result, sized(shape@, GgmlType::Q8_0), shape@, GgmlType::Q8_0,
            MetalTensorProvenance::OwnedWritable, (volume(shape@) / 32) * 34,
            Initial::Uninitialized,
        ),
{
    lemma_size(shape@, GgmlType::Q8_0);
    let n = ((volume(shape@) / 32) * 34) as usize;
    if MetalContext::allocated(*old(ctx), *final(ctx), n, Initial::Uninitialized) {
        lemma_allocated(*old(ctx), *final(ctx), n, Initial::Uninitialized);
    }
}

/// At least one byte.
pub open spec fn one_at_least(bytes: int) -> int {
    if bytes > 0 {
        bytes
    } else {
        1
    }
}

/// A tensor of any format, every byte of which is a zero that was copied.
pub proof fn law_zeros_dtype(
    ctx: &mut MetalContext,
    shape: Vec<u64>,
    dtype: GgmlType,
    result: Result<MetalTensor, MetalError>,
)
    requires
        call_ensures(MetalTensor::zeros_dtype, (ctx, shape, dtype), result),
    ensures
        tensor_met(
            *old(ctx), *final(ctx), result, sized(shape@, dtype), shape@, dtype,
            MetalTensorProvenance::OwnedWritable, one_at_least(size(shape@, dtype)),
            Initial::Copied(Seq::new(one_at_least(size(shape@, dtype)) as nat, |i: int| 0u8)),
        ),
{
    lemma_size(shape@, dtype);
    let n = one_at_least(size(shape@, dtype)) as usize;
    let zeros = Seq::new(n as nat, |i: int| 0u8);
    assert(zeros =~= Seq::new(one_at_least(size(shape@, dtype)) as nat, |i: int| 0u8)
        || !sized(shape@, dtype));
    if sized(shape@, dtype) {
        assert(shape::block_bytes(shape@, dtype)->Ok_0.1 == size(shape@, dtype));
        assert(numeric::larger(shape::block_bytes(shape@, dtype)->Ok_0.1, 1) == n);
        if MetalContext::allocated(*old(ctx), *final(ctx), n, Initial::Copied(zeros)) {
            lemma_allocated(*old(ctx), *final(ctx), n, Initial::Copied(zeros));
        }
    }
}

/// A tensor of any format that the device fills with zeros in place, where the host can
/// address its bytes and the device allows them.
pub proof fn law_zeros_dtype_unstaged(
    ctx: &mut MetalContext,
    shape: Vec<u64>,
    dtype: GgmlType,
    result: Result<MetalTensor, MetalError>,
)
    requires
        call_ensures(MetalTensor::zeros_dtype_unstaged, (ctx, shape, dtype), result),
    ensures
        match result {
            Ok(tensor) => {
                &&& sized(shape@, dtype)
                &&& one_at_least(size(shape@, dtype)) <= isize::MAX
                &&& tensor_made(
                    *old(ctx), *final(ctx), tensor, shape@, dtype,
                    MetalTensorProvenance::OwnedWritable, one_at_least(size(shape@, dtype)),
                    Initial::ZeroFilled,
                )
            },
            Err(e) => {
                &&& e@ is BadShape
                &&& *final(ctx) == *old(ctx)
                &&& sized(shape@, dtype) ==> one_at_least(size(shape@, dtype)) > isize::MAX
                    || one_at_least(size(shape@, dtype)) > old(ctx).limits.max_buffer_length
            },
        },
{
    lemma_size(shape@, dtype);
    let n = one_at_least(size(shape@, dtype)) as usize;
    if MetalContext::allocated(*old(ctx), *final(ctx), n, Initial::ZeroFilled) {
        lemma_allocated(*old(ctx), *final(ctx), n, Initial::ZeroFilled);
    }
}

/// A fresh buffer is accepted just where it is shared and long enough.
pub proof fn law_check_full_shared_extent(
    buffer: Buffer,
    extent: usize,
    result: Result<(), MetalError>,
)
    requires
        call_ensures(MetalTensor::check_full_shared_extent, (&buffer, extent), result),
    ensures
        result is Ok <==> buffer.storage_mode == StorageMode::Shared && extent <= buffer.length,
{
}

/// A view of a weight is read-only and is made just where its place is aligned to a
/// power of two and its bytes lie in the buffer.
pub proof fn law_owned_weight_view(
    buffer: Buffer,
    offset: u64,
    shape: Vec<u64>,
    dtype: GgmlType,
    required_alignment: usize,
    result: Result<MetalTensor, MetalError>,
)
    requires
        call_ensures(
            MetalTensor::owned_weight_view,
            (buffer, offset, shape, dtype, required_alignment),
            result,
        ),
    ensures
        match result {
            Ok(tensor) => weight_view_fits(buffer, offset, shape@, dtype, required_alignment as int)
                && is_weight_view(tensor, buffer, offset, shape@, dtype),
            Err(e) => e@ is BadShape && !weight_view_fits(
                buffer, offset, shape@, dtype, required_alignment as int,
            ),
        },
{
    lemma_size(shape@, dtype);
    reveal_with_fuel(is_pow2, 1);
}

/// The bytes of a weight at this place of a buffer can be viewed.
pub open spec fn weight_view_fits(
    buffer: Buffer,
    offset: u64,
    shape: Seq<u64>,
    dtype: GgmlType,
    alignment: int,
) -> bool {
    &&& is_pow2(alignment)
    &&& offset as int % alignment == 0
    &&& sized(shape, dtype)
    &&& offset + size(shape, dtype) <= buffer.length
}

/// The tensor is the weight at this place of the buffer, and kernels may not write it.
pub open spec fn is_weight_view(
    tensor: MetalTensor,
    buffer: Buffer,
    offset: u64,
    shape: Seq<u64>,
    dtype: GgmlType,
) -> bool {
    &&& tensor.buffer == buffer
    &&& tensor.offset == offset
    &&& tensor.shape@ == shape
    &&& tensor.dtype == dtype
    &&& tensor.provenance == MetalTensorProvenance::OwnedWeightReadOnly
}

/// A bank of Q6_K rows is the weight with `n_out` rows of `n_in` elements, in whole
/// blocks, at a multiple of 32 bytes.
pub proof fn law_q6_k_row_bank_weight_view(
    buffer: Buffer,
    offset: u64,
    n_in: usize,
    n_out: usize,
    result: Result<MetalTensor, MetalError>,
)
    requires
        call_ensures(
            MetalTensor::q6_k_row_bank_weight_view,
            (buffer, offset, n_in, n_out),
            result,
        ),
    ensures
        ({
            let shape = seq![n_in as u64, n_out as u64];
            let fits = {
                &&& 0 < n_in <= u32::MAX && n_in % 256 == 0
                &&& 0 < n_out <= u32::MAX
                &&& weight_view_fits(buffer, offset, shape, GgmlType::Q6_K, 32)
            };
            match result {
                Ok(tensor) => fits && is_weight_view(tensor, buffer, offset, shape, GgmlType::Q6_K),
                Err(e) => !fits && e@ is BadShape,
            }
        }),
{
    lemma_size(seq![n_in as u64, n_out as u64], GgmlType::Q6_K);
    reveal_with_fuel(is_pow2, 7);
}

/// A view from an element on starts that many elements after its tensor, and shares
/// everything but the shape with it.
pub proof fn law_view_subrange(
    tensor: MetalTensor,
    elem_offset: u64,
    shape: Vec<u64>,
    view: MetalTensor,
)
    requires
        call_ensures(MetalTensor::view_subrange, (&tensor, elem_offset, shape), view),
        tensor.dtype == GgmlType::F32 || tensor.dtype == GgmlType::I32 || tensor.dtype
            == GgmlType::F16,
        tensor.offset + elem_offset * block_size(tensor.dtype) <= u64::MAX,
    ensures
        view.buffer == tensor.buffer,
        view.offset == tensor.offset + elem_offset * block_size(tensor.dtype),
        view.shape@ == shape@,
        view.dtype == tensor.dtype,
        view.provenance == tensor.provenance,
{
}

/// A view from a byte on starts that many bytes after its tensor, and shares everything
/// but the shape with it.
pub proof fn law_view_bytes(
    tensor: MetalTensor,
    byte_offset: u64,
    shape: Vec<u64>,
    view: MetalTensor,
)
    requires
        call_ensures(MetalTensor::view_bytes, (&tensor, byte_offset, shape), view),
        tensor.offset + byte_offset <= u64::MAX,
    ensures
        view.buffer == tensor.buffer,
        view.offset == tensor.offset + byte_offset,
        view.shape@ == shape@,
        view.dtype == tensor.dtype,
        view.provenance == tensor.provenance,
{
}

/// A compact tensor of floats is accepted just where it has the shape, lies aligned
/// inside its buffer and may be written if it must be.
pub proof fn law_validate_compact_f32_tensor(
    kernel: &'static str,
    name: &'static str,
    tensor: MetalTensor,
    expected: &[u64],
    writable: bool,
    result: Result<(), MetalError>,
)
    requires
        call_ensures(
            crate::tensor::validate_compact_f32_tensor,
            (kernel, name, &tensor, expected, writable),
            result,
        ),
    ensures
        result is Ok <==> {
            &&& tensor.dtype == GgmlType::F32
            &&& tensor.shape@ == expected@
            &&& writable ==> tensor.provenance == MetalTensorProvenance::OwnedWritable
            &&& sized(expected@, GgmlType::F32)
            &&& tensor.offset % 4 == 0
            &&& tensor.offset + volume(expected@) * 4 <= tensor.buffer.length
        },
        result matches Err(e) ==> e@ is BadShape,
{
    lemma_volume(expected@);
}

/// The device says the limit it has, a buffer its length, and a tensor how it came to
/// be.
pub proof fn law_devices_say_what_they_have(
    ctx: MetalContext,
    limits: crate::context::DeviceLimits,
    switches: crate::context::KernelSwitches,
    pipelines: Vec<Pipeline>,
    buffer: Buffer,
    tensor: MetalTensor,
    n: usize,
    provenance: MetalTensorProvenance,
)
    ensures
        call_ensures(MetalContext::max_buffer_length, (&ctx,), n) ==> n
            == ctx.limits.max_buffer_length,
        call_ensures(Buffer::length, (&buffer,), n) ==> n == buffer.length,
        call_ensures(MetalTensor::provenance, (&tensor,), provenance) ==> provenance
            == tensor.provenance,
        call_ensures(MetalContext::new, (limits, switches, pipelines), ctx) ==> {
            &&& ctx.limits == limits
            &&& ctx.switches == switches
            &&& ctx.pipelines == pipelines
            &&& ctx.allocations@.len() == 0
            &&& ctx.census is None
        },
{
}

/// Two shapes are the same just where they have the same dimensions.
pub proof fn law_same_shape(a: &[u64], b: &[u64], result: bool)
    requires
        call_ensures(crate::tensor::same_shape, (a, b), result),
    ensures
        result <==> a@.len() == b@.len() && forall|i: int|
            0 <= i < a@.len() ==> #[trigger] a@[i] == b@[i],
{
    if a@.len() == b@.len() && forall|i: int| 0 <= i < a@.len() ==> #[trigger] a@[i] == b@[i] {
        assert(a@ =~= b@);
    }
}

} // verus!
