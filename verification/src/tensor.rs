//! Typed views into device buffers.

use vstd::arithmetic::power2::*;
use vstd::prelude::*;

use crate::context::{Buffer, Initial, MetalContext, StorageMode};
use crate::dtype::GgmlType;
use crate::error::{bad_shape, Fault, MetalError};
use crate::numeric;
use crate::numeric::{is_power_of_two, max_size};
use crate::shape;
use crate::shape::{checked_ggml_shape_bytes, checked_shape_bytes, checked_shape_elements};

verus! {

/// A tensor as a GGUF file describes it.
#[derive(Clone, Debug, PartialEq, Eq)]
pub struct TensorDesc {
    pub name: String,
    pub shape: Vec<u64>,
    pub dtype: GgmlType,
    pub shard_idx: usize,
    pub data_offset: u64,
    pub n_bytes: u64,
}

/// How a tensor came to be. Only tensors that own plain storage are written;
/// weights and mapped files are not.
#[derive(Clone, Copy, Debug, PartialEq, Eq, Structural)]
pub enum MetalTensorProvenance {
    OwnedWritable,
    OwnedWeightReadOnly,
    RetainedGgufReadOnly,
}

/// Where a tensor's bytes start.
#[derive(Clone, Copy, Debug, PartialEq, Eq, Structural)]
pub struct Binding {
    pub buffer: Buffer,
    pub offset: u64,
}

/// A typed, shaped view into a buffer. `offset` counts bytes from the start of
/// the buffer; views of one buffer share its storage.
#[derive(Clone, Debug)]
pub struct MetalTensor {
    pub buffer: Buffer,
    pub offset: u64,
    pub shape: Vec<u64>,
    pub dtype: GgmlType,
    pub provenance: MetalTensorProvenance,
}

/// The value of a [`MetalTensor`].
pub struct TensorView {
    pub buffer: Buffer,
    pub offset: u64,
    pub shape: Seq<u64>,
    pub dtype: GgmlType,
    pub provenance: MetalTensorProvenance,
}

impl View for MetalTensor {
    type V = TensorView;

    open spec fn view(&self) -> TensorView {
        TensorView {
            buffer: self.buffer,
            offset: self.offset,
            shape: self.shape@,
            dtype: self.dtype,
            provenance: self.provenance,
        }
    }
}

fn copy_shape(shape: &Vec<u64>) -> (r: Vec<u64>)
    ensures
        r@ == shape@,
{
    let mut copy: Vec<u64> = Vec::new();
    copy.extend_from_slice(shape.as_slice());
    assert(copy@ =~= shape@);
    copy
}

/// Whether two shapes are the same.
pub fn same_shape(a: &[u64], b: &[u64]) -> (r: bool)
    ensures
        r == (a@ == b@),
{
    if a.len() != b.len() {
        return false;
    }
    let mut i: usize = 0;
    while i < a.len()
        invariant
            i <= a@.len(),
            a@.len() == b@.len(),
            forall|j: int| 0 <= j < i ==> a@[j] == b@[j],
        decreases a@.len() - i,
    {
        if a[i] != b[i] {
            return false;
        }
        i = i + 1;
    }
    assert(a@ =~= b@);
    true
}

/// What a request for a new tensor does.
pub enum TensorRequest {
    Refused(Fault),
    /// A buffer of `length` bytes is asked for and the tensor starts at its first
    /// byte.
    Store {
        length: usize,
        initial: Initial,
        shape: Seq<u64>,
        dtype: GgmlType,
        provenance: MetalTensorProvenance,
    },
}

impl TensorRequest {
    /// The request met `pre` and left `post` and `result`.
    pub open spec fn did(
        self,
        pre: MetalContext,
        post: MetalContext,
        result: Result<MetalTensor, MetalError>,
    ) -> bool {
        match self {
            TensorRequest::Refused(fault) => post == pre && result is Err && result->Err_0@
                == fault,
            TensorRequest::Store { length, initial, shape, dtype, provenance } => if length
                > pre.limits.max_buffer_length {
                post == pre && result is Err && result->Err_0@ == Fault::BufferTooLarge(
                    length as int,
                    pre.limits.max_buffer_length as int,
                )
            } else {
                MetalContext::allocated(pre, post, length, initial) && result is Ok
                    && result->Ok_0@ == (TensorView {
                    buffer: pre.next_buffer(length),
                    offset: 0,
                    shape,
                    dtype,
                    provenance,
                })
            },
        }
    }

    /// A writable tensor of dense elements, uninitialized.
    pub open spec fn dense(shape: Seq<u64>, size: usize, dtype: GgmlType) -> TensorRequest {
        match shape::dense_bytes(shape, size) {
            Err(fault) => TensorRequest::Refused(fault),
            Ok((_, bytes)) => TensorRequest::Store {
                length: bytes,
                initial: Initial::Uninitialized,
                shape,
                dtype,
                provenance: MetalTensorProvenance::OwnedWritable,
            },
        }
    }
}

impl MetalTensor {
    /// The element count fits in 64 bits.
    pub open spec fn wf(self) -> bool {
        shape::shape_elements(self.shape@) is Some
    }

    /// The number of elements.
    pub open spec fn elements(self) -> u64 {
        shape::shape_elements(self.shape@)->0
    }

    /// The number of elements as a size of the host.
    pub open spec fn count(self) -> usize {
        self.elements() as usize
    }

    /// The number of bytes, where the shape fills whole blocks.
    pub open spec fn byte_length(self) -> Option<usize> {
        match shape::block_bytes(self.shape@, self.dtype) {
            Ok((_, bytes)) => Some(bytes),
            Err(_) => None,
        }
    }

    /// Where the bytes start.
    pub open spec fn place(self) -> Binding {
        Binding { buffer: self.buffer, offset: self.offset }
    }

    pub open spec fn writable(self) -> bool {
        self.provenance == MetalTensorProvenance::OwnedWritable
    }

    /// The byte `at` of the buffer belongs to the tensor.
    pub open spec fn covers(self, at: int) -> bool {
        self.byte_length() is Some && self.offset <= at < self.offset + self.byte_length()->0
    }

    /// The bytes are aligned and all inside the buffer.
    pub open spec fn range_valid(self, bytes: usize, alignment: u64) -> bool {
        self.offset % alignment == 0 && self.offset + bytes <= self.buffer.length
    }

    /// Both tensors lie in one buffer and their byte ranges meet. Where a byte
    /// range is not known, tensors of one buffer count as meeting.
    pub open spec fn overlaps(self, other: MetalTensor) -> bool {
        self.buffer.id == other.buffer.id && match (self.byte_length(), other.byte_length()) {
            (Some(a), Some(b)) => self.offset < other.offset + b && other.offset < self.offset + a,
            _ => true,
        }
    }

    pub fn provenance(&self) -> (r: MetalTensorProvenance)
        ensures
            r == self.provenance,
    {
        self.provenance
    }

    /// Whether kernels may write to the tensor.
    pub fn is_writable(&self) -> (r: bool)
        ensures
            r == self.writable(),
    {
        self.provenance == MetalTensorProvenance::OwnedWritable
    }

    /// Total element count.
    pub fn n_elements(&self) -> (r: u64)
        requires
            self.wf(),
        ensures
            r == self.elements(),
    {
        match checked_shape_elements(self.shape.as_slice()) {
            Ok(n) => n,
            Err(_) => 0,
        }
    }

    /// Total element count as a size of the host.
    pub fn element_count(&self) -> (r: usize)
        requires
            self.wf(),
        ensures
            r == self.count(),
    {
        #[verifier::truncate]
        (self.n_elements() as usize)
    }

    /// Total byte length.
    pub fn n_bytes(&self) -> (r: u64)
        requires
            self.byte_length() is Some,
        ensures
            r == self.byte_length()->0,
    {
        match checked_ggml_shape_bytes(self.shape.as_slice(), self.dtype) {
            Ok(counts) => counts.1 as u64,
            Err(_) => 0,
        }
    }

    /// Where the bytes start.
    pub fn binding(&self) -> (r: Binding)
        ensures
            r == self.place(),
    {
        Binding { buffer: self.buffer, offset: self.offset }
    }

    /// Whether `bytes` bytes from the tensor's offset are aligned and inside its
    /// buffer.
    pub fn physical_range_valid(&self, bytes: usize, alignment: u64) -> (r: bool)
        requires
            alignment > 0,
        ensures
            r == self.range_valid(bytes, alignment),
    {
        if self.offset % alignment != 0 {
            return false;
        }
        match self.offset.checked_add(bytes as u64) {
            Some(end) => end <= self.buffer.length as u64,
            None => false,
        }
    }

    /// Whether the two tensors share bytes.
    pub fn ranges_overlap(&self, other: &MetalTensor) -> (r: bool)
        ensures
            r == self.overlaps(*other),
    {
        if self.buffer.id != other.buffer.id {
            return false;
        }
        let a: usize = match checked_ggml_shape_bytes(self.shape.as_slice(), self.dtype) {
            Ok(counts) => counts.1,
            Err(_) => {
                return true;
            },
        };
        let b: usize = match checked_ggml_shape_bytes(other.shape.as_slice(), other.dtype) {
            Ok(counts) => counts.1,
            Err(_) => {
                return true;
            },
        };
        let starts_before: bool = match other.offset.checked_add(b as u64) {
            Some(end) => self.offset < end,
            None => true,
        };
        let reaches: bool = match self.offset.checked_add(a as u64) {
            Some(end) => other.offset < end,
            None => true,
        };
        starts_before && reaches
    }

    fn owned(buffer: Buffer, shape: Vec<u64>, dtype: GgmlType) -> (r: MetalTensor)
        ensures
            r@ == (TensorView {
                buffer,
                offset: 0,
                shape: shape@,
                dtype,
                provenance: MetalTensorProvenance::OwnedWritable,
            }),
    {
        MetalTensor {
            buffer,
            offset: 0,
            shape,
            dtype,
            provenance: MetalTensorProvenance::OwnedWritable,
        }
    }

    /// A copy of `bytes`, which have exactly the size that shape and format imply.
    pub open spec fn copied(bytes: Seq<u8>, shape: Seq<u64>, dtype: GgmlType) -> TensorRequest {
        match shape::block_bytes(shape, dtype) {
            Err(fault) => TensorRequest::Refused(fault),
            Ok((_, expected)) => if bytes.len() != expected {
                TensorRequest::Refused(
                    Fault::bad_shape(
                        "from_bytes"@,
                        "bytes.len()={} but shape={} dtype={} expects {} bytes"@,
                    ).num(bytes.len() as int).shape(shape).dtype(dtype).num(expected as int),
                )
            } else {
                TensorRequest::Store {
                    length: expected,
                    initial: Initial::Copied(bytes),
                    shape,
                    dtype,
                    provenance: MetalTensorProvenance::OwnedWritable,
                }
            },
        }
    }

    /// A tensor that starts with a copy of `bytes`.
    pub fn from_bytes(
        ctx: &mut MetalContext,
        bytes: &[u8],
        shape: Vec<u64>,
        dtype: GgmlType,
    ) -> (r: Result<MetalTensor, MetalError>)
        ensures
            Self::copied(bytes@, shape@, dtype).did(*old(ctx), *final(ctx), r),
    {
        let (_, expected) = match checked_ggml_shape_bytes(shape.as_slice(), dtype) {
            Ok(counts) => counts,
            Err(e) => {
                return Err(e);
            },
        };
        if bytes.len() != expected {
            return Err(
                bad_shape(
                    "from_bytes",
                    "bytes.len()={} but shape={} dtype={} expects {} bytes",
                ).num(bytes.len()).shape(shape.as_slice()).dtype(dtype).num(expected),
            );
        }
        match ctx.buffer_from(bytes) {
            Ok(buffer) => Ok(Self::owned(buffer, shape, dtype)),
            Err(e) => Err(e),
        }
    }

    /// A tensor that a GGUF file describes, with a copy of its bytes.
    pub fn from_gguf_tensor(ctx: &mut MetalContext, desc: &TensorDesc, bytes: &[u8]) -> (r: Result<
        MetalTensor,
        MetalError,
    >)
        ensures
            Self::copied(bytes@, desc.shape@, desc.dtype).did(*old(ctx), *final(ctx), r),
    {
        Self::from_bytes(ctx, bytes, copy_shape(&desc.shape), desc.dtype)
    }

    /// A read-only copy of a weight whose description, shape and bytes agree.
    pub open spec fn copied_weight(desc: TensorDesc, bytes: Seq<u8>) -> TensorRequest {
        match shape::block_bytes(desc.shape@, desc.dtype) {
            Err(fault) => TensorRequest::Refused(fault),
            Ok((_, expected)) => if bytes.len() != expected || desc.n_bytes != expected {
                TensorRequest::Refused(
                    Fault::bad_shape(
                        "copied_gguf_weight"@,
                        "tensor {} has bytes.len()={} n_bytes={} but shape={} dtype={} expects {} bytes"@,
                    ).name(desc.name@).num(bytes.len() as int).num(desc.n_bytes as int).shape(
                        desc.shape@,
                    ).dtype(desc.dtype).num(expected as int),
                )
            } else {
                TensorRequest::Store {
                    length: expected,
                    initial: Initial::Copied(bytes),
                    shape: desc.shape@,
                    dtype: desc.dtype,
                    provenance: MetalTensorProvenance::OwnedWeightReadOnly,
                }
            },
        }
    }

    /// A read-only copy of a weight that a GGUF file describes.
    pub fn copied_gguf_weight(
        ctx: &mut MetalContext,
        desc: &TensorDesc,
        bytes: &[u8],
    ) -> (r: Result<MetalTensor, MetalError>)
        ensures
            Self::copied_weight(*desc, bytes@).did(*old(ctx), *final(ctx), r),
    {
        let (_, expected) = match checked_ggml_shape_bytes(desc.shape.as_slice(), desc.dtype) {
            Ok(counts) => counts,
            Err(e) => {
                return Err(e);
            },
        };
        if bytes.len() != expected || desc.n_bytes != expected as u64 {
            return Err(
                bad_shape(
                    "copied_gguf_weight",
                    "tensor {} has bytes.len()={} n_bytes={} but shape={} dtype={} expects {} bytes",
                ).name(&desc.name).num(bytes.len()).num_u64(desc.n_bytes).shape(
                    desc.shape.as_slice(),
                ).dtype(desc.dtype).num(expected),
            );
        }
        let buffer = match ctx.buffer_from(bytes) {
            Ok(buffer) => buffer,
            Err(e) => {
                return Err(e);
            },
        };
        proof {
            reveal_with_fuel(is_pow2, 7);
        }
        Self::owned_weight_view(buffer, 0, copy_shape(&desc.shape), desc.dtype, 32)
    }

    /// What is wrong with a view of a weight at `offset`.
    pub open spec fn weight_view_fault(
        buffer: Buffer,
        offset: u64,
        shape: Seq<u64>,
        dtype: GgmlType,
        required_alignment: usize,
    ) -> Option<Fault> {
        let kernel = "owned_weight_view"@;
        if !is_pow2(required_alignment as int) {
            Some(
                Fault::bad_shape(kernel, "alignment {} is not a power of two"@).num(
                    required_alignment as int,
                ),
            )
        } else if offset > usize::MAX {
            Some(
                Fault::bad_shape(kernel, "offset {} does not fit usize"@).num(offset as int),
            )
        } else if offset as usize % required_alignment != 0 {
            Some(
                Fault::bad_shape(kernel, "offset {} is not aligned to {}"@).num(offset as int).num(
                    required_alignment as int,
                ),
            )
        } else {
            match shape::block_bytes(shape, dtype) {
                Err(fault) => Some(fault),
                Ok((_, bytes)) => if offset + bytes > usize::MAX {
                    Some(Fault::bad_shape(kernel, "view endpoint overflow"@))
                } else if offset + bytes > buffer.length {
                    Some(
                        Fault::bad_shape(kernel, "view [{}..{}) exceeds buffer length {}"@).num(
                            offset as int,
                        ).num(offset + bytes).num(buffer.length as int),
                    )
                } else {
                    None
                },
            }
        }
    }

    /// A read-only view of a weight that lies in a buffer.
    pub fn owned_weight_view(
        buffer: Buffer,
        offset: u64,
        shape: Vec<u64>,
        dtype: GgmlType,
        required_alignment: usize,
    ) -> (r: Result<MetalTensor, MetalError>)
        ensures
            match Self::weight_view_fault(buffer, offset, shape@, dtype, required_alignment) {
                Some(fault) => r is Err && r->Err_0@ == fault,
                None => r is Ok && r->Ok_0@ == (TensorView {
                    buffer,
                    offset,
                    shape: shape@,
                    dtype,
                    provenance: MetalTensorProvenance::OwnedWeightReadOnly,
                }),
            },
    {
        let kernel = "owned_weight_view";
        if !is_power_of_two(required_alignment) {
            return Err(
                bad_shape(kernel, "alignment {} is not a power of two").num(required_alignment),
            );
        }
        if offset > usize::MAX as u64 {
            return Err(bad_shape(kernel, "offset {} does not fit usize").num_u64(offset));
        }
        let start: usize = offset as usize;
        proof {
            reveal_with_fuel(is_pow2, 1);
        }
        if start % required_alignment != 0 {
            return Err(
                bad_shape(kernel, "offset {} is not aligned to {}").num(start).num(
                    required_alignment,
                ),
            );
        }
        let (_, bytes) = match checked_ggml_shape_bytes(shape.as_slice(), dtype) {
            Ok(counts) => counts,
            Err(e) => {
                return Err(e);
            },
        };
        let end: usize = match start.checked_add(bytes) {
            Some(end) => end,
            None => {
                return Err(bad_shape(kernel, "view endpoint overflow"));
            },
        };
        if end > buffer.length() {
            return Err(
                bad_shape(kernel, "view [{}..{}) exceeds buffer length {}").num(start).num(end).num(
                    buffer.length(),
                ),
            );
        }
        Ok(
            MetalTensor {
                buffer,
                offset,
                shape,
                dtype,
                provenance: MetalTensorProvenance::OwnedWeightReadOnly,
            },
        )
    }

    /// What is wrong with a bank of Q6_K rows at `offset`.
    pub open spec fn q6_k_row_bank_fault(
        buffer: Buffer,
        offset: u64,
        n_in: usize,
        n_out: usize,
    ) -> Option<Fault> {
        let kernel = "q6_k_row_bank_weight_view"@;
        if n_in == 0 || n_out == 0 || n_in % 256 != 0 {
            Some(
                Fault::bad_shape(
                    kernel,
                    "expected nonzero Q6_K rows with n_in divisible by 256, got n_in={} n_out={}"@,
                ).num(n_in as int).num(n_out as int),
            )
        } else if n_in > u32::MAX {
            Some(
                Fault::bad_shape(kernel, "n_in={} does not fit the Q6_K kernel argument"@).num(
                    n_in as int,
                ),
            )
        } else if n_out > u32::MAX {
            Some(
                Fault::bad_shape(kernel, "n_out={} does not fit the Q6_K kernel argument"@).num(
                    n_out as int,
                ),
            )
        } else {
            Self::weight_view_fault(
                buffer,
                offset,
                seq![n_in as u64, n_out as u64],
                GgmlType::Q6_K,
                32,
            )
        }
    }

    /// A read-only view of `n_out` Q6_K rows of `n_in` elements. Format and
    /// alignment are fixed.
    pub fn q6_k_row_bank_weight_view(
        buffer: Buffer,
        offset: u64,
        n_in: usize,
        n_out: usize,
    ) -> (r: Result<MetalTensor, MetalError>)
        ensures
            match Self::q6_k_row_bank_fault(buffer, offset, n_in, n_out) {
                Some(fault) => r is Err && r->Err_0@ == fault,
                None => r is Ok && r->Ok_0@ == (TensorView {
                    buffer,
                    offset,
                    shape: seq![n_in as u64, n_out as u64],
                    dtype: GgmlType::Q6_K,
                    provenance: MetalTensorProvenance::OwnedWeightReadOnly,
                }),
            },
    {
        let kernel = "q6_k_row_bank_weight_view";
        if n_in == 0 || n_out == 0 || n_in % 256 != 0 {
            return Err(
                bad_shape(
                    kernel,
                    "expected nonzero Q6_K rows with n_in divisible by 256, got n_in={} n_out={}",
                ).num(n_in).num(n_out),
            );
        }
        if n_in > u32::MAX as usize {
            return Err(
                bad_shape(kernel, "n_in={} does not fit the Q6_K kernel argument").num(n_in),
            );
        }
        if n_out > u32::MAX as usize {
            return Err(
                bad_shape(kernel, "n_out={} does not fit the Q6_K kernel argument").num(n_out),
            );
        }
        let shape: Vec<u64> = vec![n_in as u64, n_out as u64];
        assert(shape@ =~= seq![n_in as u64, n_out as u64]);
        Self::owned_weight_view(buffer, offset, shape, GgmlType::Q6_K, 32)
    }

    fn dense(ctx: &mut MetalContext, shape: Vec<u64>, size: usize, dtype: GgmlType) -> (r: Result<
        MetalTensor,
        MetalError,
    >)
        ensures
            TensorRequest::dense(shape@, size, dtype).did(*old(ctx), *final(ctx), r),
    {
        let (_, bytes) = match checked_shape_bytes(shape.as_slice(), size) {
            Ok(counts) => counts,
            Err(e) => {
                return Err(e);
            },
        };
        match ctx.buffer_uninit(bytes) {
            Ok(buffer) => Ok(Self::owned(buffer, shape, dtype)),
            Err(e) => Err(e),
        }
    }

    /// An F32 tensor for activations, uninitialized.
    pub fn zeros_f32(ctx: &mut MetalContext, shape: Vec<u64>) -> (r: Result<
        MetalTensor,
        MetalError,
    >)
        ensures
            TensorRequest::dense(shape@, 4, GgmlType::F32).did(*old(ctx), *final(ctx), r),
    {
        Self::dense(ctx, shape, 4, GgmlType::F32)
    }

    /// An I32 tensor for indices, uninitialized.
    pub fn zeros_i32(ctx: &mut MetalContext, shape: Vec<u64>) -> (r: Result<
        MetalTensor,
        MetalError,
    >)
        ensures
            TensorRequest::dense(shape@, 4, GgmlType::I32).did(*old(ctx), *final(ctx), r),
    {
        Self::dense(ctx, shape, 4, GgmlType::I32)
    }

    /// An F16 tensor, uninitialized.
    pub fn zeros_f16(ctx: &mut MetalContext, shape: Vec<u64>) -> (r: Result<
        MetalTensor,
        MetalError,
    >)
        ensures
            TensorRequest::dense(shape@, 2, GgmlType::F16).did(*old(ctx), *final(ctx), r),
    {
        Self::dense(ctx, shape, 2, GgmlType::F16)
    }

    /// A tensor of whole blocks.
    pub open spec fn blocks(shape: Seq<u64>, dtype: GgmlType, initial: Initial) -> TensorRequest {
        match shape::block_bytes(shape, dtype) {
            Err(fault) => TensorRequest::Refused(fault),
            Ok((_, bytes)) => TensorRequest::Store {
                length: bytes,
                initial,
                shape,
                dtype,
                provenance: MetalTensorProvenance::OwnedWritable,
            },
        }
    }

    /// A Q8_0 tensor, uninitialized. The shape counts elements.
    pub fn zeros_q8_0(ctx: &mut MetalContext, shape: Vec<u64>) -> (r: Result<
        MetalTensor,
        MetalError,
    >)
        ensures
            Self::blocks(shape@, GgmlType::Q8_0, Initial::Uninitialized).did(
                *old(ctx),
                *final(ctx),
                r,
            ),
    {
        let (_, bytes) = match checked_ggml_shape_bytes(shape.as_slice(), GgmlType::Q8_0) {
            Ok(counts) => counts,
            Err(e) => {
                return Err(e);
            },
        };
        match ctx.buffer_uninit(bytes) {
            Ok(buffer) => Ok(Self::owned(buffer, shape, GgmlType::Q8_0)),
            Err(e) => Err(e),
        }
    }

    /// A tensor of zero bytes, at least one.
    pub open spec fn zero_bytes(shape: Seq<u64>, dtype: GgmlType) -> TensorRequest {
        match shape::block_bytes(shape, dtype) {
            Err(fault) => TensorRequest::Refused(fault),
            Ok((_, bytes)) => TensorRequest::Store {
                length: numeric::larger(bytes, 1),
                initial: Initial::Copied(
                    Seq::new(numeric::larger(bytes, 1) as nat, |i: int| 0u8),
                ),
                shape,
                dtype,
                provenance: MetalTensorProvenance::OwnedWritable,
            },
        }
    }

    /// A tensor of any format whose bytes are all zero.
    pub fn zeros_dtype(ctx: &mut MetalContext, shape: Vec<u64>, dtype: GgmlType) -> (r: Result<
        MetalTensor,
        MetalError,
    >)
        ensures
            Self::zero_bytes(shape@, dtype).did(*old(ctx), *final(ctx), r),
    {
        let (_, bytes) = match checked_ggml_shape_bytes(shape.as_slice(), dtype) {
            Ok(counts) => counts,
            Err(e) => {
                return Err(e);
            },
        };
        let extent: usize = max_size(bytes, 1);
        let zeros: Vec<u8> = vec![0u8;extent];
        assert(zeros@ =~= Seq::new(extent as nat, |i: int| 0u8));
        match ctx.buffer_from(zeros.as_slice()) {
            Ok(buffer) => Ok(Self::owned(buffer, shape, dtype)),
            Err(e) => Err(e),
        }
    }

    /// A tensor of zero bytes, at least one, that needs no host copy of them.
    pub open spec fn zero_fill(
        shape: Seq<u64>,
        dtype: GgmlType,
        max_buffer_length: usize,
    ) -> TensorRequest {
        match shape::block_bytes(shape, dtype) {
            Err(fault) => TensorRequest::Refused(fault),
            Ok((_, bytes)) => if numeric::larger(bytes, 1) > isize::MAX || numeric::larger(bytes, 1)
                > max_buffer_length {
                TensorRequest::Refused(
                    Fault::bad_shape(
                        "zeros_dtype_unstaged"@,
                        "byte extent exceeds CPU or device buffer bounds"@,
                    ),
                )
            } else {
                TensorRequest::Store {
                    length: numeric::larger(bytes, 1),
                    initial: Initial::ZeroFilled,
                    shape,
                    dtype,
                    provenance: MetalTensorProvenance::OwnedWritable,
                }
            },
        }
    }

    /// Hold a fresh buffer to be shared and to have the whole extent.
    pub fn check_full_shared_extent(buffer: &Buffer, extent: usize) -> (r: Result<(), MetalError>)
        ensures
            r is Ok <==> buffer.storage_mode == StorageMode::Shared && buffer.length >= extent,
            r matches Err(e) ==> e@ == Fault::bad_shape(
                "zeros_dtype_unstaged"@,
                "allocation must provide the full shared byte extent"@,
            ),
    {
        if buffer.storage_mode != StorageMode::Shared || buffer.length() < extent {
            return Err(
                bad_shape(
                    "zeros_dtype_unstaged",
                    "allocation must provide the full shared byte extent",
                ),
            );
        }
        Ok(())
    }

    /// A tensor of any format whose bytes are all zero, filled in place.
    pub fn zeros_dtype_unstaged(
        ctx: &mut MetalContext,
        shape: Vec<u64>,
        dtype: GgmlType,
    ) -> (r: Result<MetalTensor, MetalError>)
        ensures
            Self::zero_fill(shape@, dtype, old(ctx).limits.max_buffer_length).did(
                *old(ctx),
                *final(ctx),
                r,
            ),
    {
        let (_, bytes) = match checked_ggml_shape_bytes(shape.as_slice(), dtype) {
            Ok(counts) => counts,
            Err(e) => {
                return Err(e);
            },
        };
        let extent: usize = max_size(bytes, 1);
        if extent > isize::MAX as usize || extent > ctx.max_buffer_length() {
            return Err(
                bad_shape(
                    "zeros_dtype_unstaged",
                    "byte extent exceeds CPU or device buffer bounds",
                ),
            );
        }
        let buffer = match ctx.buffer_zeroed(extent) {
            Ok(buffer) => buffer,
            Err(e) => {
                return Err(e);
            },
        };
        match Self::check_full_shared_extent(&buffer, extent) {
            Ok(()) => Ok(Self::owned(buffer, shape, dtype)),
            Err(e) => Err(e),
        }
    }

    /// The bytes of one element, for the formats that have single elements.
    pub open spec fn element_size(dtype: GgmlType) -> Option<u64> {
        match dtype {
            GgmlType::F32 | GgmlType::I32 => Some(4u64),
            GgmlType::F16 => Some(2u64),
            _ => None,
        }
    }

    /// A view of the elements from `elem_offset` on, sharing the storage.
    pub fn view_subrange(&self, elem_offset: u64, shape: Vec<u64>) -> (r: MetalTensor)
        requires
            Self::element_size(self.dtype) is Some,
            self.wf(),
            shape::shape_elements(shape@) is Some,
            elem_offset + shape::shape_elements(shape@)->0 <= self.elements(),
            self.offset + elem_offset * Self::element_size(self.dtype)->0 <= u64::MAX,
        ensures
            r@ == (TensorView {
                buffer: self.buffer,
                offset: (self.offset + elem_offset * Self::element_size(self.dtype)->0) as u64,
                shape: shape@,
                dtype: self.dtype,
                provenance: self.provenance,
            }),
    {
        let size: u64 = match self.dtype {
            GgmlType::F32 | GgmlType::I32 => 4,
            _ => 2,
        };
        MetalTensor {
            buffer: self.buffer,
            offset: self.offset + elem_offset * size,
            shape,
            dtype: self.dtype,
            provenance: self.provenance,
        }
    }

    /// A view of the bytes from `byte_offset` on, sharing the storage.
    pub fn view_bytes(&self, byte_offset: u64, shape: Vec<u64>) -> (r: MetalTensor)
        requires
            self.byte_length() is Some,
            shape::block_bytes(shape@, self.dtype) is Ok,
            byte_offset + shape::block_bytes(shape@, self.dtype)->Ok_0.1 <= self.byte_length()->0,
            self.offset + byte_offset <= u64::MAX,
        ensures
            r@ == (TensorView {
                buffer: self.buffer,
                offset: (self.offset + byte_offset) as u64,
                shape: shape@,
                dtype: self.dtype,
                provenance: self.provenance,
            }),
    {
        MetalTensor {
            buffer: self.buffer,
            offset: self.offset + byte_offset,
            shape,
            dtype: self.dtype,
            provenance: self.provenance,
        }
    }
}

/// A view by elements stays inside the bytes of its tensor, and is writable only
/// where the tensor is.
pub proof fn law_element_view_inside(tensor: MetalTensor, elem_offset: u64, view: MetalTensor)
    requires
        MetalTensor::element_size(tensor.dtype) is Some,
        tensor.byte_length() is Some,
        view.wf(),
        view.buffer == tensor.buffer,
        view.dtype == tensor.dtype,
        view.provenance == tensor.provenance,
        elem_offset + view.elements() <= tensor.elements(),
        view.offset == tensor.offset + elem_offset * MetalTensor::element_size(tensor.dtype)->0,
    ensures
        forall|at: int| #[trigger] view.covers(at) ==> tensor.covers(at),
        view.writable() == tensor.writable(),
{
    let size = MetalTensor::element_size(tensor.dtype)->0;
    if tensor.dtype == GgmlType::F16 {
        assert(elem_offset * size == elem_offset * 2);
        assert(tensor.byte_length()->0 == tensor.elements() * 2);
        assert(view.byte_length() is Some ==> view.byte_length()->0 == view.elements() * 2);
    } else {
        assert(elem_offset * size == elem_offset * 4);
        assert(tensor.byte_length()->0 == tensor.elements() * 4);
        assert(view.byte_length() is Some ==> view.byte_length()->0 == view.elements() * 4);
    }
}

/// A view by bytes stays inside the bytes of its tensor, and is writable only
/// where the tensor is.
pub proof fn law_byte_view_inside(tensor: MetalTensor, byte_offset: u64, view: MetalTensor)
    requires
        tensor.byte_length() is Some,
        view.byte_length() is Some,
        view.buffer == tensor.buffer,
        view.provenance == tensor.provenance,
        byte_offset + view.byte_length()->0 <= tensor.byte_length()->0,
        view.offset == tensor.offset + byte_offset,
    ensures
        forall|at: int| #[trigger] view.covers(at) ==> tensor.covers(at),
        view.writable() == tensor.writable(),
{
}

/// Overlap is symmetric, and tensors that share a byte of one buffer overlap.
pub proof fn law_overlap_finds_shared_bytes(a: MetalTensor, b: MetalTensor, at: int)
    ensures
        a.overlaps(b) == b.overlaps(a),
        a.buffer.id == b.buffer.id && a.covers(at) && b.covers(at) ==> a.overlaps(b),
{
}

/// Tensors made by different requests lie in different buffers, so they do not
/// overlap.
pub proof fn law_new_tensors_do_not_overlap(
    first: TensorRequest,
    second: TensorRequest,
    c0: MetalContext,
    c1: MetalContext,
    c2: MetalContext,
    a: MetalTensor,
    b: MetalTensor,
)
    requires
        first.did(c0, c1, Ok(a)),
        second.did(c1, c2, Ok(b)),
        c1.allocations@.len() <= u64::MAX,
    ensures
        !a.overlaps(b),
{
}

/// What is wrong with a compact F32 tensor of a kernel.
pub open spec fn compact_f32_fault(
    kernel: Seq<char>,
    name: Seq<char>,
    tensor: MetalTensor,
    expected: Seq<u64>,
    writable: bool,
) -> Option<Fault> {
    if tensor.dtype != GgmlType::F32 || tensor.shape@ != expected {
        Some(
            Fault::bad_shape(kernel, "{} expected F32 {}, got {} {}"@).label(name).shape(expected)
                .dtype(tensor.dtype).shape(tensor.shape@),
        )
    } else if writable && !tensor.writable() {
        Some(Fault::bad_shape(kernel, "{} must be writable"@).label(name))
    } else {
        match shape::dense_bytes(expected, 4) {
            Err(fault) => Some(fault),
            Ok((_, bytes)) => if !tensor.range_valid(bytes, 4) {
                Some(
                    Fault::bad_shape(
                        kernel,
                        "{} has an unaligned or out-of-buffer byte range"@,
                    ).label(name),
                )
            } else {
                None
            },
        }
    }
}

/// Hold a tensor to be compact, F32, inside its buffer, and writable where it
/// is written.
pub fn validate_compact_f32_tensor(
    kernel: &'static str,
    name: &'static str,
    tensor: &MetalTensor,
    expected: &[u64],
    writable: bool,
) -> (r: Result<(), MetalError>)
    ensures
        match compact_f32_fault(kernel@, name@, *tensor, expected@, writable) {
            Some(fault) => r is Err && r->Err_0@ == fault,
            None => r is Ok,
        },
{
    if tensor.dtype != GgmlType::F32 || !same_shape(tensor.shape.as_slice(), expected) {
        return Err(
            bad_shape(kernel, "{} expected F32 {}, got {} {}").label(name).shape(expected).dtype(
                tensor.dtype,
            ).shape(tensor.shape.as_slice()),
        );
    }
    if writable && !tensor.is_writable() {
        return Err(bad_shape(kernel, "{} must be writable").label(name));
    }
    let (_, bytes) = match checked_shape_bytes(expected, 4) {
        Ok(counts) => counts,
        Err(e) => {
            return Err(e);
        },
    };
    if !tensor.physical_range_valid(bytes, 4) {
        return Err(
            bad_shape(kernel, "{} has an unaligned or out-of-buffer byte range").label(name),
        );
    }
    Ok(())
}

} // verus!
