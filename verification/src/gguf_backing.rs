//! GGUF files mapped into memory and used in place.

use vstd::arithmetic::power2::*;
use vstd::prelude::*;

use crate::context::Buffer;
use crate::error::{gguf_no_copy, Fault, MetalError};
use crate::numeric::is_power_of_two;
use crate::shape;
use crate::shape::checked_ggml_shape_bytes;
use crate::tensor::{MetalTensor, MetalTensorProvenance, TensorDesc, TensorView};

verus! {

/// Whether a tensor can be used inside a mapped window, and if not, why.
#[derive(Clone, Copy, Debug, PartialEq, Eq, Structural)]
pub enum GgufBackingEligibility {
    Eligible,
    FinalPartialPage,
    WrongShard,
    BindingMisalignment,
    OutsideBacking,
}

/// A window of whole pages of one mapped shard.
#[derive(Clone, Copy, Debug, PartialEq, Eq, Structural)]
pub struct GgufBackingGeometry {
    pub shard_idx: usize,
    pub mapped_len: usize,
    pub mmap_offset: usize,
    pub exposed_len: usize,
    pub page_size: usize,
    pub required_alignment: usize,
}

/// What is wrong with the size that a description declares.
pub open spec fn desc_size_fault(desc: TensorDesc) -> Option<Fault> {
    match shape::block_bytes(desc.shape@, desc.dtype) {
        Err(fault) => Some(fault),
        Ok((_, expected)) => if desc.n_bytes > usize::MAX {
            Some(
                Fault::mapping("tensor {} n_bytes {} does not fit usize"@).name(desc.name@).num(
                    desc.n_bytes as int,
                ),
            )
        } else if expected != desc.n_bytes {
            Some(
                Fault::mapping(
                    "tensor {} shape/dtype expects {} bytes, descriptor declares {}"@,
                ).name(desc.name@).num(expected as int).num(desc.n_bytes as int),
            )
        } else {
            None
        },
    }
}

/// The size of a tensor, where its description declares it truly.
pub fn declared_size(desc: &TensorDesc) -> (r: Result<usize, MetalError>)
    ensures
        match desc_size_fault(*desc) {
            Some(fault) => r is Err && r->Err_0@ == fault,
            None => r is Ok && r->Ok_0 == desc.n_bytes,
        },
{
    let (_, expected) = match checked_ggml_shape_bytes(desc.shape.as_slice(), desc.dtype) {
        Ok(counts) => counts,
        Err(e) => {
            return Err(e);
        },
    };
    if desc.n_bytes > usize::MAX as u64 {
        return Err(
            gguf_no_copy("tensor {} n_bytes {} does not fit usize").name(&desc.name).num_u64(
                desc.n_bytes,
            ),
        );
    }
    let declared: usize = desc.n_bytes as usize;
    if expected != declared {
        return Err(
            gguf_no_copy("tensor {} shape/dtype expects {} bytes, descriptor declares {}").name(
                &desc.name,
            ).num(expected).num(declared),
        );
    }
    Ok(declared)
}

impl GgufBackingGeometry {
    /// The window consists of whole pages inside the mapping, and bindings are
    /// aligned to a power of two that divides a page.
    pub open spec fn wf(self) -> bool {
        &&& is_pow2(self.page_size as int)
        &&& is_pow2(self.required_alignment as int)
        &&& self.page_size % self.required_alignment == 0
        &&& self.mmap_offset % self.page_size == 0
        &&& self.exposed_len > 0
        &&& self.exposed_len % self.page_size == 0
        &&& self.mmap_offset + self.exposed_len <= self.mapped_len
    }

    /// What is wrong with a window.
    pub open spec fn window_fault(self) -> Option<Fault> {
        if !is_pow2(self.page_size as int) {
            Some(
                Fault::mapping("host page size {} is not a power of two"@).num(
                    self.page_size as int,
                ),
            )
        } else if !is_pow2(self.required_alignment as int) {
            Some(
                Fault::mapping("required binding alignment {} is not a power of two"@).num(
                    self.required_alignment as int,
                ),
            )
        } else if self.page_size % self.required_alignment != 0 {
            Some(
                Fault::mapping("required binding alignment {} does not divide page size {}"@).num(
                    self.required_alignment as int,
                ).num(self.page_size as int),
            )
        } else if self.mmap_offset % self.page_size != 0 {
            Some(
                Fault::mapping("window offset {} is not page aligned to {}"@).num(
                    self.mmap_offset as int,
                ).num(self.page_size as int),
            )
        } else if self.exposed_len == 0 {
            Some(
                Fault::mapping(
                    "window length must contain at least one complete {}-byte page"@,
                ).num(
                    self.page_size as int,
                ),
            )
        } else if self.exposed_len % self.page_size != 0 {
            Some(
                Fault::mapping("window length {} is not page aligned to {}"@).num(
                    self.exposed_len as int,
                ).num(self.page_size as int),
            )
        } else if self.mmap_offset + self.exposed_len > usize::MAX {
            Some(Fault::mapping("window offset and length overflow usize"@))
        } else if self.mmap_offset + self.exposed_len > self.mapped_len {
            Some(
                Fault::mapping("window range {}..{} exceeds mapped length {}"@).num(
                    self.mmap_offset as int,
                ).num(self.mmap_offset + self.exposed_len).num(self.mapped_len as int),
            )
        } else {
            None
        }
    }

    /// The window of all whole pages of a shard.
    pub open spec fn whole(
        shard_idx: usize,
        mapped_len: usize,
        page_size: usize,
        required_alignment: usize,
    ) -> GgufBackingGeometry {
        GgufBackingGeometry {
            shard_idx,
            mapped_len,
            mmap_offset: 0,
            exposed_len: (mapped_len / page_size * page_size) as usize,
            page_size,
            required_alignment,
        }
    }

    /// The window of all whole pages of a shard.
    pub fn new(
        shard_idx: usize,
        mapped_len: usize,
        page_size: usize,
        required_alignment: usize,
    ) -> (r: Result<GgufBackingGeometry, MetalError>)
        ensures
            match Self::whole(
                shard_idx,
                mapped_len,
                page_size,
                required_alignment,
            ).window_fault() {
                Some(fault) => r is Err && r->Err_0@ == fault,
                None => r == Ok::<GgufBackingGeometry, MetalError>(
                    Self::whole(shard_idx, mapped_len, page_size, required_alignment),
                ) && r->Ok_0.wf(),
            },
    {
        if !is_power_of_two(page_size) {
            return Err(
                gguf_no_copy("host page size {} is not a power of two").num(page_size),
            );
        }
        proof {
            reveal_with_fuel(is_pow2, 1);
            assert(mapped_len / page_size * page_size <= mapped_len) by (nonlinear_arith)
                requires
                    page_size > 0,
            ;
        }
        let exposed_len: usize = mapped_len / page_size * page_size;
        Self::new_window(shard_idx, mapped_len, 0, exposed_len, page_size, required_alignment)
    }

    /// A window of a shard.
    pub fn new_window(
        shard_idx: usize,
        mapped_len: usize,
        mmap_offset: usize,
        exposed_len: usize,
        page_size: usize,
        required_alignment: usize,
    ) -> (r: Result<GgufBackingGeometry, MetalError>)
        ensures
            match (GgufBackingGeometry {
                shard_idx,
                mapped_len,
                mmap_offset,
                exposed_len,
                page_size,
                required_alignment,
            }).window_fault() {
                Some(fault) => r is Err && r->Err_0@ == fault,
                None => r == Ok::<GgufBackingGeometry, MetalError>(
                    GgufBackingGeometry {
                        shard_idx,
                        mapped_len,
                        mmap_offset,
                        exposed_len,
                        page_size,
                        required_alignment,
                    },
                ) && r->Ok_0.wf(),
            },
    {
        if !is_power_of_two(page_size) {
            return Err(
                gguf_no_copy("host page size {} is not a power of two").num(page_size),
            );
        }
        if !is_power_of_two(required_alignment) {
            return Err(
                gguf_no_copy("required binding alignment {} is not a power of two").num(
                    required_alignment,
                ),
            );
        }
        proof {
            reveal_with_fuel(is_pow2, 1);
        }
        if page_size % required_alignment != 0 {
            return Err(
                gguf_no_copy("required binding alignment {} does not divide page size {}").num(
                    required_alignment,
                ).num(page_size),
            );
        }
        if mmap_offset % page_size != 0 {
            return Err(
                gguf_no_copy("window offset {} is not page aligned to {}").num(mmap_offset).num(
                    page_size,
                ),
            );
        }
        if exposed_len == 0 {
            return Err(
                gguf_no_copy("window length must contain at least one complete {}-byte page").num(
                    page_size,
                ),
            );
        }
        if exposed_len % page_size != 0 {
            return Err(
                gguf_no_copy("window length {} is not page aligned to {}").num(exposed_len).num(
                    page_size,
                ),
            );
        }
        let window_end: usize = match mmap_offset.checked_add(exposed_len) {
            Some(end) => end,
            None => {
                return Err(gguf_no_copy("window offset and length overflow usize"));
            },
        };
        if window_end > mapped_len {
            return Err(
                gguf_no_copy("window range {}..{} exceeds mapped length {}").num(mmap_offset).num(
                    window_end,
                ).num(mapped_len),
            );
        }
        Ok(
            GgufBackingGeometry {
                shard_idx,
                mapped_len,
                mmap_offset,
                exposed_len,
                page_size,
                required_alignment,
            },
        )
    }

    pub fn mapped_len(self) -> (r: usize)
        ensures
            r == self.mapped_len,
    {
        self.mapped_len
    }

    pub fn mmap_offset(self) -> (r: usize)
        ensures
            r == self.mmap_offset,
    {
        self.mmap_offset
    }

    pub fn exposed_len(self) -> (r: usize)
        ensures
            r == self.exposed_len,
    {
        self.exposed_len
    }

    pub fn page_size(self) -> (r: usize)
        ensures
            r == self.page_size,
    {
        self.page_size
    }

    pub fn required_alignment(self) -> (r: usize)
        ensures
            r == self.required_alignment,
    {
        self.required_alignment
    }

    /// Where a tensor lies with respect to the window.
    pub open spec fn eligibility(self, desc: TensorDesc) -> Result<GgufBackingEligibility, Fault> {
        let start = desc.data_offset;
        let end = desc.data_offset + desc.n_bytes;
        let window_end = self.mmap_offset + self.exposed_len;
        if desc_size_fault(desc) is Some {
            Err(desc_size_fault(desc)->0)
        } else if desc.shard_idx != self.shard_idx {
            Ok(GgufBackingEligibility::WrongShard)
        } else if start > usize::MAX {
            Err(
                Fault::mapping("tensor {} offset {} does not fit usize"@).name(desc.name@).num(
                    start as int,
                ),
            )
        } else if end > usize::MAX {
            Err(Fault::mapping("tensor {} range overflows usize"@).name(desc.name@))
        } else if end > self.mapped_len || start < self.mmap_offset || start >= window_end {
            Ok(GgufBackingEligibility::OutsideBacking)
        } else if end > window_end {
            if window_end == self.mapped_len / self.page_size * self.page_size {
                Ok(GgufBackingEligibility::FinalPartialPage)
            } else {
                Ok(GgufBackingEligibility::OutsideBacking)
            }
        } else if (start - self.mmap_offset) % self.required_alignment as int != 0 {
            Ok(GgufBackingEligibility::BindingMisalignment)
        } else {
            Ok(GgufBackingEligibility::Eligible)
        }
    }

    /// Where a tensor lies with respect to the window.
    pub fn classify(self, desc: &TensorDesc) -> (r: Result<GgufBackingEligibility, MetalError>)
        requires
            self.wf(),
        ensures
            match self.eligibility(*desc) {
                Ok(e) => r == Ok::<GgufBackingEligibility, MetalError>(e),
                Err(fault) => r is Err && r->Err_0@ == fault,
            },
    {
        classify_gguf_backing(desc, self)
    }
}

/// Where a tensor lies with respect to a window.
pub fn classify_gguf_backing(desc: &TensorDesc, geometry: GgufBackingGeometry) -> (r: Result<
    GgufBackingEligibility,
    MetalError,
>)
    requires
        geometry.wf(),
    ensures
        match geometry.eligibility(*desc) {
            Ok(e) => r == Ok::<GgufBackingEligibility, MetalError>(e),
            Err(fault) => r is Err && r->Err_0@ == fault,
        },
{
    let declared: usize = match declared_size(desc) {
        Ok(n) => n,
        Err(e) => {
            return Err(e);
        },
    };
    if desc.shard_idx != geometry.shard_idx {
        return Ok(GgufBackingEligibility::WrongShard);
    }
    if desc.data_offset > usize::MAX as u64 {
        return Err(
            gguf_no_copy("tensor {} offset {} does not fit usize").name(&desc.name).num_u64(
                desc.data_offset,
            ),
        );
    }
    let start: usize = desc.data_offset as usize;
    let end: usize = match start.checked_add(declared) {
        Some(end) => end,
        None => {
            return Err(gguf_no_copy("tensor {} range overflows usize").name(&desc.name));
        },
    };
    if end > geometry.mapped_len {
        return Ok(GgufBackingEligibility::OutsideBacking);
    }
    let window_end: usize = geometry.mmap_offset + geometry.exposed_len;
    if start < geometry.mmap_offset || start >= window_end {
        return Ok(GgufBackingEligibility::OutsideBacking);
    }
    proof {
        reveal_with_fuel(is_pow2, 1);
    }
    if end > window_end {
        proof {
            let mapped = geometry.mapped_len;
            let page = geometry.page_size;
            assert(mapped / page * page <= mapped) by (nonlinear_arith)
                requires
                    page > 0,
            ;
        }
        let complete_page_end: usize = geometry.mapped_len / geometry.page_size
            * geometry.page_size;
        if window_end == complete_page_end {
            return Ok(GgufBackingEligibility::FinalPartialPage);
        }
        return Ok(GgufBackingEligibility::OutsideBacking);
    }
    let buffer_offset: usize = start - geometry.mmap_offset;
    if buffer_offset % geometry.required_alignment != 0 {
        return Ok(GgufBackingEligibility::BindingMisalignment);
    }
    Ok(GgufBackingEligibility::Eligible)
}

/// An eligible tensor lies whole inside the window of its shard, at a place that
/// bindings may have.
pub proof fn law_eligible_is_inside(geometry: GgufBackingGeometry, desc: TensorDesc)
    requires
        geometry.eligibility(desc) == Ok::<GgufBackingEligibility, Fault>(
            GgufBackingEligibility::Eligible,
        ),
    ensures
        desc.shard_idx == geometry.shard_idx,
        geometry.mmap_offset <= desc.data_offset,
        desc.data_offset + desc.n_bytes <= geometry.mmap_offset + geometry.exposed_len,
        (desc.data_offset - geometry.mmap_offset) % geometry.required_alignment as int == 0,
        shape::block_bytes(desc.shape@, desc.dtype) is Ok,
        shape::block_bytes(desc.shape@, desc.dtype)->Ok_0.1 == desc.n_bytes,
{
}

/// A buffer over a window of a mapped shard.
#[derive(Clone, Copy)]
pub struct MetalGgufBacking {
    pub buffer: Buffer,
    pub geometry: GgufBackingGeometry,
}

/// What reading one byte of every page saw.
#[derive(Clone, Copy, Debug, PartialEq, Eq, Structural)]
pub struct GgufPrefaultReport {
    pub page_count: usize,
    pub covered_bytes: usize,
    pub checksum: u64,
}

/// The checksum of bytes: each step rotates it by five bits and mixes one in.
pub open spec fn prefault_checksum(samples: Seq<u8>) -> u64
    decreases samples.len(),
{
    if samples.len() == 0 {
        0
    } else {
        let before = prefault_checksum(samples.drop_last());
        ((before << 5u64) | (before >> 59u64)) ^ (samples.last() as u64)
    }
}

impl MetalGgufBacking {
    pub open spec fn wf(self) -> bool {
        self.geometry.wf()
    }

    pub fn mapped_len(&self) -> (r: usize)
        ensures
            r == self.geometry.mapped_len,
    {
        self.geometry.mapped_len()
    }

    pub fn exposed_len(&self) -> (r: usize)
        ensures
            r == self.geometry.exposed_len,
    {
        self.geometry.exposed_len()
    }

    pub fn mmap_offset(&self) -> (r: usize)
        ensures
            r == self.geometry.mmap_offset,
    {
        self.geometry.mmap_offset()
    }

    pub fn page_size(&self) -> (r: usize)
        ensures
            r == self.geometry.page_size,
    {
        self.geometry.page_size()
    }

    pub fn required_alignment(&self) -> (r: usize)
        ensures
            r == self.geometry.required_alignment,
    {
        self.geometry.required_alignment()
    }

    /// The bytes to read so that every page of the window is touched once.
    pub fn prefault_offsets(&self) -> (r: Vec<usize>)
        requires
            self.wf(),
        ensures
            r@.len() * self.geometry.page_size == self.geometry.exposed_len,
            forall|i: int| 0 <= i < r@.len() ==> #[trigger] r@[i] == i * self.geometry.page_size,
            forall|i: int| 0 <= i < r@.len() ==> #[trigger] r@[i] < self.geometry.exposed_len,
    {
        let page: usize = self.geometry.page_size;
        let exposed: usize = self.geometry.exposed_len;
        proof {
            reveal_with_fuel(is_pow2, 1);
            vstd::arithmetic::div_mod::lemma_fundamental_div_mod(exposed as int, page as int);
        }
        let ghost pages = exposed / page;
        assert(pages * page == page * pages && 0 * page == 0) by (nonlinear_arith);
        let mut offsets: Vec<usize> = Vec::new();
        let mut at: usize = 0;
        while at < exposed
            invariant
                page > 0,
                page == self.geometry.page_size,
                exposed == self.geometry.exposed_len,
                pages * page == exposed,
                at == offsets@.len() * page,
                offsets@.len() <= pages,
                forall|i: int| 0 <= i < offsets@.len() ==> #[trigger] offsets@[i] == i * page,
                forall|i: int| 0 <= i < offsets@.len() ==> #[trigger] offsets@[i] < exposed,
            decreases exposed - at,
        {
            let ghost n = offsets@.len();
            assert(n + 1 <= pages && (n + 1) * page == n * page + page && (n + 1) * page
                <= pages * page) by (nonlinear_arith)
                requires
                    n * page < pages * page,
                    page > 0,
            ;
            offsets.push(at);
            at = at + page;
        }
        assert(offsets@.len() == pages) by (nonlinear_arith)
            requires
                offsets@.len() * page >= pages * page,
                offsets@.len() <= pages,
                page > 0,
        ;
        offsets
    }

    /// The report on the bytes that were read, one per page.
    pub fn prefault_report(&self, samples: &[u8]) -> (r: GgufPrefaultReport)
        ensures
            r.page_count == samples@.len(),
            r.covered_bytes == self.geometry.exposed_len,
            r.checksum == prefault_checksum(samples@),
    {
        let mut checksum: u64 = 0;
        let mut i: usize = 0;
        assert(samples@.take(0) =~= Seq::<u8>::empty());
        while i < samples.len()
            invariant
                i <= samples@.len(),
                checksum == prefault_checksum(samples@.take(i as int)),
            decreases samples@.len() - i,
        {
            assert(samples@.take(i + 1).drop_last() =~= samples@.take(i as int));
            checksum = ((checksum << 5u64) | (checksum >> 59u64)) ^ (samples[i] as u64);
            i = i + 1;
        }
        assert(samples@.take(i as int) =~= samples@);
        GgufPrefaultReport {
            page_count: samples.len(),
            covered_bytes: self.exposed_len(),
            checksum,
        }
    }

    /// Where a tensor lies with respect to the window.
    pub fn classify(&self, desc: &TensorDesc) -> (r: Result<GgufBackingEligibility, MetalError>)
        requires
            self.wf(),
        ensures
            match self.geometry.eligibility(*desc) {
                Ok(e) => r == Ok::<GgufBackingEligibility, MetalError>(e),
                Err(fault) => r is Err && r->Err_0@ == fault,
            },
    {
        self.geometry.classify(desc)
    }

    /// The read-only view of an eligible tensor.
    pub open spec fn retained_view(self, desc: TensorDesc) -> TensorView {
        TensorView {
            buffer: self.buffer,
            offset: (desc.data_offset - self.geometry.mmap_offset) as u64,
            shape: desc.shape@,
            dtype: desc.dtype,
            provenance: MetalTensorProvenance::RetainedGgufReadOnly,
        }
    }

    /// A read-only view of a tensor, where it is eligible.
    pub fn tensor(&self, desc: &TensorDesc) -> (r: Result<
        (GgufBackingEligibility, Option<MetalTensor>),
        MetalError,
    >)
        requires
            self.wf(),
        ensures
            match self.geometry.eligibility(*desc) {
                Err(fault) => r is Err && r->Err_0@ == fault,
                Ok(e) => r is Ok && r->Ok_0.0 == e && match r->Ok_0.1 {
                    Some(tensor) => e == GgufBackingEligibility::Eligible && tensor@
                        == self.retained_view(*desc),
                    None => e != GgufBackingEligibility::Eligible,
                },
            },
    {
        let eligibility = match self.classify(desc) {
            Ok(e) => e,
            Err(e) => {
                return Err(e);
            },
        };
        if eligibility != GgufBackingEligibility::Eligible {
            return Ok((eligibility, None));
        }
        let mut shape: Vec<u64> = Vec::new();
        shape.extend_from_slice(desc.shape.as_slice());
        assert(shape@ =~= desc.shape@);
        let tensor = MetalTensor {
            buffer: self.buffer,
            offset: desc.data_offset - self.geometry.mmap_offset() as u64,
            shape,
            dtype: desc.dtype,
            provenance: MetalTensorProvenance::RetainedGgufReadOnly,
        };
        Ok((eligibility, Some(tensor)))
    }
}

/// The view of an eligible tensor is read-only and lies inside the window's
/// buffer.
pub proof fn law_retained_view_is_safe(
    backing: MetalGgufBacking,
    desc: TensorDesc,
    tensor: MetalTensor,
)
    requires
        backing.buffer.length >= backing.geometry.exposed_len,
        backing.geometry.eligibility(desc) == Ok::<GgufBackingEligibility, Fault>(
            GgufBackingEligibility::Eligible,
        ),
        tensor@ == backing.retained_view(desc),
    ensures
        !tensor.writable(),
        tensor.byte_length() is Some,
        tensor.byte_length()->0 == desc.n_bytes,
        forall|at: int| #[trigger] tensor.covers(at) ==> 0 <= at < backing.buffer.length,
{
}

/// One copy between buffers.
#[derive(Clone, Copy, Debug, PartialEq, Eq, Structural)]
pub struct BlitCopy {
    pub source: Buffer,
    pub source_offset: u64,
    pub destination: Buffer,
    pub destination_offset: u64,
    pub length: u64,
}

/// A recorder of copies.
pub struct BlitEncoder {
    pub copies: Vec<BlitCopy>,
}

impl BlitEncoder {
    pub fn begin() -> (r: BlitEncoder)
        ensures
            r.copies@.len() == 0,
    {
        BlitEncoder { copies: Vec::new() }
    }

    pub fn copy_buffer(&mut self, copy: BlitCopy)
        ensures
            final(self).copies@ == old(self).copies@.push(copy),
    {
        self.copies.push(copy);
    }
}

/// What is known of the release of a mapped buffer.
#[derive(Clone, Copy, Debug, PartialEq, Eq, Structural)]
pub struct DiagnosticGgufBlitReleaseReport {
    pub source_alive: bool,
    pub deallocator_calls: usize,
    pub deallocator_mismatches: usize,
}

/// A watch on the release of a mapped buffer, as of its last reading.
#[derive(Clone, Copy)]
pub struct DiagnosticGgufBlitReleaseProbe {
    pub source_alive: bool,
    pub deallocator_calls: usize,
    pub deallocator_mismatches: usize,
}

impl DiagnosticGgufBlitReleaseProbe {
    /// What the watch last read.
    pub fn report(&self) -> (r: DiagnosticGgufBlitReleaseReport)
        ensures
            r.source_alive == self.source_alive,
            r.deallocator_calls == self.deallocator_calls,
            r.deallocator_mismatches == self.deallocator_mismatches,
    {
        DiagnosticGgufBlitReleaseReport {
            source_alive: self.source_alive,
            deallocator_calls: self.deallocator_calls,
            deallocator_mismatches: self.deallocator_mismatches,
        }
    }
}

/// A mapped window that copies are made from.
pub struct DiagnosticGgufBlitSourceWindow {
    pub backing: MetalGgufBacking,
    pub probe: DiagnosticGgufBlitReleaseProbe,
}

impl DiagnosticGgufBlitSourceWindow {
    pub fn release_probe(&self) -> (r: DiagnosticGgufBlitReleaseProbe)
        ensures
            r == self.probe,
    {
        self.probe
    }

    pub fn shard_idx(&self) -> (r: usize)
        ensures
            r == self.backing.geometry.shard_idx,
    {
        self.backing.geometry.shard_idx
    }

    pub fn mmap_offset(&self) -> (r: u64)
        ensures
            r == self.backing.geometry.mmap_offset,
    {
        self.backing.geometry.mmap_offset() as u64
    }

    pub fn exposed_len(&self) -> (r: usize)
        ensures
            r == self.backing.geometry.exposed_len,
    {
        self.backing.exposed_len()
    }

    /// What is wrong with a copy out of the window.
    pub open spec fn copy_fault(
        self,
        shard_idx: usize,
        absolute_shard_offset: u64,
        destination: Buffer,
        destination_offset: u64,
        length: u64,
    ) -> Option<Fault> {
        let window = self.backing.geometry;
        let source_offset = absolute_shard_offset - window.mmap_offset;
        let source_end = source_offset + length;
        let destination_end = destination_offset + length;
        if shard_idx != window.shard_idx {
            Some(
                Fault::mapping("diagnostic blit source shard mismatch: expected {}, got {}"@).num(
                    window.shard_idx as int,
                ).num(shard_idx as int),
            )
        } else if source_offset < 0 {
            Some(
                Fault::mapping("diagnostic blit source offset {} precedes window {}"@).num(
                    absolute_shard_offset as int,
                ).num(window.mmap_offset as int),
            )
        } else if source_end > u64::MAX {
            Some(Fault::mapping("diagnostic blit source endpoint overflow"@))
        } else if destination_end > u64::MAX {
            Some(Fault::mapping("diagnostic blit destination endpoint overflow"@))
        } else if source_end > window.exposed_len {
            Some(
                Fault::mapping("diagnostic blit source endpoint {} exceeds window length {}"@).num(
                    source_end,
                ).num(window.exposed_len as int),
            )
        } else if destination_end > destination.length {
            Some(
                Fault::mapping("diagnostic blit destination endpoint {} exceeds length {}"@).num(
                    destination_end,
                ).num(destination.length as int),
            )
        } else if self.backing.buffer.id == destination.id {
            Some(
                Fault::mapping("diagnostic blit source and destination are the same resource"@),
            )
        } else {
            None
        }
    }

    /// Record a copy of `length` bytes of the shard into `destination`.
    pub fn encode_copy_to(
        &self,
        encoder: &mut BlitEncoder,
        shard_idx: usize,
        absolute_shard_offset: u64,
        destination: &Buffer,
        destination_offset: u64,
        length: u64,
    ) -> (r: Result<(), MetalError>)
        ensures
            match self.copy_fault(
                shard_idx,
                absolute_shard_offset,
                *destination,
                destination_offset,
                length,
            ) {
                Some(fault) => r is Err && r->Err_0@ == fault && final(encoder).copies@
                    == old(encoder).copies@,
                None => r is Ok && final(encoder).copies@ == old(encoder).copies@.push(
                    BlitCopy {
                        source: self.backing.buffer,
                        source_offset: (absolute_shard_offset
                            - self.backing.geometry.mmap_offset) as u64,
                        destination: *destination,
                        destination_offset,
                        length,
                    },
                ),
            },
    {
        if shard_idx != self.shard_idx() {
            return Err(
                gguf_no_copy("diagnostic blit source shard mismatch: expected {}, got {}").num(
                    self.shard_idx(),
                ).num(shard_idx),
            );
        }
        let source_offset: u64 = match absolute_shard_offset.checked_sub(self.mmap_offset()) {
            Some(n) => n,
            None => {
                return Err(
                    gguf_no_copy("diagnostic blit source offset {} precedes window {}").num_u64(
                        absolute_shard_offset,
                    ).num_u64(self.mmap_offset()),
                );
            },
        };
        let source_end: u64 = match source_offset.checked_add(length) {
            Some(n) => n,
            None => {
                return Err(gguf_no_copy("diagnostic blit source endpoint overflow"));
            },
        };
        let destination_end: u64 = match destination_offset.checked_add(length) {
            Some(n) => n,
            None => {
                return Err(gguf_no_copy("diagnostic blit destination endpoint overflow"));
            },
        };
        if source_end > self.exposed_len() as u64 {
            return Err(
                gguf_no_copy("diagnostic blit source endpoint {} exceeds window length {}").num_u64(
                    source_end,
                ).num(self.exposed_len()),
            );
        }
        if destination_end > destination.length() as u64 {
            return Err(
                gguf_no_copy("diagnostic blit destination endpoint {} exceeds length {}").num_u64(
                    destination_end,
                ).num(destination.length()),
            );
        }
        if self.backing.buffer.id == destination.id {
            return Err(
                gguf_no_copy("diagnostic blit source and destination are the same resource"),
            );
        }
        encoder.copy_buffer(
            BlitCopy {
                source: self.backing.buffer,
                source_offset,
                destination: *destination,
                destination_offset,
                length,
            },
        );
        Ok(())
    }
}

/// A recorded copy reads the asked bytes of the shard out of the window and writes
/// inside another buffer.
pub proof fn law_recorded_copy_is_inside(
    window: DiagnosticGgufBlitSourceWindow,
    shard_idx: usize,
    absolute_shard_offset: u64,
    destination: Buffer,
    destination_offset: u64,
    length: u64,
)
    requires
        window.copy_fault(
            shard_idx,
            absolute_shard_offset,
            destination,
            destination_offset,
            length,
        ) is None,
    ensures
        window.backing.geometry.mmap_offset <= absolute_shard_offset,
        absolute_shard_offset + length <= window.backing.geometry.mmap_offset
            + window.backing.geometry.exposed_len,
        destination_offset + length <= destination.length,
        window.backing.buffer.id != destination.id,
        length <= usize::MAX,
{
}

} // verus!
