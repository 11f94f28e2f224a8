//! What holds of windows of mapped files and of what is made of them.

use vstd::arithmetic::power2::*;
use vstd::prelude::*;

use crate::context::Buffer;
use crate::error::MetalError;
use crate::gguf_backing;
use crate::gguf_backing::{
    BlitEncoder, DiagnosticGgufBlitReleaseProbe, DiagnosticGgufBlitReleaseReport,
    DiagnosticGgufBlitSourceWindow, GgufBackingEligibility, GgufBackingGeometry, GgufPrefaultReport,
    MetalGgufBacking,
};
use crate::shape;
use crate::tensor::{MetalTensor, MetalTensorProvenance, TensorDesc};

verus! {

/// A window can be used: whole pages inside the mapping, with bindings at multiples of
/// a power of two that divides the page.
pub open spec fn window_usable(
    mapped_len: int,
    mmap_offset: int,
    exposed_len: int,
    page_size: int,
    alignment: int,
) -> bool {
    &&& is_pow2(page_size) && is_pow2(alignment) && page_size % alignment == 0
    &&& mmap_offset % page_size == 0
    &&& exposed_len > 0 && exposed_len % page_size == 0
    &&& mmap_offset + exposed_len <= mapped_len
}

/// A window is made just where it can be used, and is the one that was asked for.
pub proof fn law_new_window(
    shard_idx: usize,
    mapped_len: usize,
    mmap_offset: usize,
    exposed_len: usize,
    page_size: usize,
    required_alignment: usize,
    result: Result<GgufBackingGeometry, MetalError>,
)
    requires
        call_ensures(
            GgufBackingGeometry::new_window,
            (shard_idx, mapped_len, mmap_offset, exposed_len, page_size, required_alignment),
            result,
        ),
    ensures
        match result {
            Ok(window) => {
                &&& window_usable(
                    mapped_len as int, mmap_offset as int, exposed_len as int, page_size as int,
                    required_alignment as int,
                )
                &&& window.shard_idx == shard_idx
                &&& window.mapped_len == mapped_len
                &&& window.mmap_offset == mmap_offset
                &&& window.exposed_len == exposed_len
                &&& window.page_size == page_size
                &&& window.required_alignment == required_alignment
            },
            Err(e) => e@ is GgufNoCopy && !window_usable(
                mapped_len as int, mmap_offset as int, exposed_len as int, page_size as int,
                required_alignment as int,
            ),
        },
{
    reveal_with_fuel(is_pow2, 1);
}

/// The window of a whole shard starts at its first byte and leaves out less than a
/// page.
pub proof fn law_new(
    shard_idx: usize,
    mapped_len: usize,
    page_size: usize,
    required_alignment: usize,
    result: Result<GgufBackingGeometry, MetalError>,
)
    requires
        call_ensures(
            GgufBackingGeometry::new,
            (shard_idx, mapped_len, page_size, required_alignment),
            result,
        ),
    ensures
        ({
            let acceptable = is_pow2(page_size as int) && is_pow2(required_alignment as int)
                && page_size as int % required_alignment as int == 0 && mapped_len >= page_size;
            match result {
                Ok(window) => {
                    &&& acceptable
                    &&& window.shard_idx == shard_idx
                    &&& window.mapped_len == mapped_len
                    &&& window.mmap_offset == 0
                    &&& window.exposed_len <= mapped_len < window.exposed_len + page_size
                    &&& window.exposed_len as int % page_size as int == 0
                    &&& window.page_size == page_size
                    &&& window.required_alignment == required_alignment
                },
                Err(e) => !acceptable && e@ is GgufNoCopy,
            }
        }),
{
    reveal_with_fuel(is_pow2, 1);
    if page_size > 0 {
        crate::pages::lemma_page_floor(mapped_len as int, page_size as int);
        let exposed = crate::pages::page_floor(mapped_len as int, page_size as int);
        vstd::arithmetic::div_mod::lemma_small_mod(0nat, page_size as nat);
        if exposed > 0 {
            vstd::arithmetic::div_mod::lemma_mod_is_zero(exposed as nat, page_size as nat);
        }
        if mapped_len >= page_size {
            assert(exposed > 0);
        }
    }
}

/// A description declares the bytes that its shape and format take.
pub open spec fn declares_its_size(desc: TensorDesc) -> bool {
    shape::block_bytes(desc.shape@, desc.dtype) matches Ok((_, bytes)) && desc.n_bytes == bytes
}

/// The size of a tensor is accepted just where its description declares it truly.
pub proof fn law_declared_size(desc: TensorDesc, result: Result<usize, MetalError>)
    requires
        call_ensures(gguf_backing::declared_size, (&desc,), result),
    ensures
        result is Ok <==> declares_its_size(desc),
        result matches Ok(bytes) ==> bytes == desc.n_bytes,
{
}

/// Where a tensor lies: eligible is the one that lies whole in the window of its shard,
/// aligned; misaligned is one that lies in it otherwise; one that reaches over the end of
/// a window that ends with the shard's last whole page, but not over the end of the
/// shard, meets the final partial page; every other one of the shard is outside.
pub open spec fn lies(window: GgufBackingGeometry, desc: TensorDesc) -> GgufBackingEligibility {
    let start = desc.data_offset as int;
    let end = desc.data_offset + desc.n_bytes;
    let window_end = window.mmap_offset + window.exposed_len;
    let starts_inside = window.mmap_offset <= start < window_end;
    let last_page_end = window.mapped_len - window.mapped_len as int % window.page_size as int;
    if desc.shard_idx != window.shard_idx {
        GgufBackingEligibility::WrongShard
    } else if starts_inside && end <= window_end {
        if (start - window.mmap_offset) % window.required_alignment as int == 0 {
            GgufBackingEligibility::Eligible
        } else {
            GgufBackingEligibility::BindingMisalignment
        }
    } else if starts_inside && end <= window.mapped_len && window_end == last_page_end {
        GgufBackingEligibility::FinalPartialPage
    } else {
        GgufBackingEligibility::OutsideBacking
    }
}

/// A tensor is said to lie where it lies. Only one whose size is wrongly declared, or
/// whose bytes in this shard the host cannot address, is refused.
pub open spec fn classified(
    window: GgufBackingGeometry,
    desc: TensorDesc,
    result: Result<GgufBackingEligibility, MetalError>,
) -> bool {
    let acceptable = declares_its_size(desc) && (desc.shard_idx == window.shard_idx
        ==> desc.data_offset + desc.n_bytes <= usize::MAX);
    match result {
        Ok(where_) => acceptable && where_ == lies(window, desc),
        Err(_) => !acceptable,
    }
}

proof fn lemma_lies(window: GgufBackingGeometry, desc: TensorDesc)
    requires
        window.wf(),
    ensures
        ({
            let acceptable = declares_its_size(desc) && (desc.shard_idx == window.shard_idx
                ==> desc.data_offset + desc.n_bytes <= usize::MAX);
            match window.eligibility(desc) {
                Ok(e) => acceptable && e == lies(window, desc),
                Err(_) => !acceptable,
            }
        }),
{
    reveal_with_fuel(is_pow2, 1);
    let n = window.mapped_len as int;
    let page = window.page_size as int;
    vstd::arithmetic::div_mod::lemma_fundamental_div_mod(n, page);
    vstd::arithmetic::mul::lemma_mul_is_commutative(page, n / page);
}

/// All three ways to ask say where a tensor lies.
pub proof fn law_classify(
    window: GgufBackingGeometry,
    backing: MetalGgufBacking,
    desc: TensorDesc,
    result: Result<GgufBackingEligibility, MetalError>,
)
    requires
        window.wf(),
        backing.geometry == window,
    ensures
        call_ensures(gguf_backing::classify_gguf_backing, (&desc, window), result) ==> classified(
            window, desc, result,
        ),
        call_ensures(GgufBackingGeometry::classify, (window, &desc), result) ==> classified(
            window, desc, result,
        ),
        call_ensures(MetalGgufBacking::classify, (&backing, &desc), result) ==> classified(
            window, desc, result,
        ),
{
    lemma_lies(window, desc);
}

/// An eligible tensor becomes a read-only view that starts in the buffer where the
/// tensor starts in the window; no other one becomes a view.
pub proof fn law_tensor(
    backing: MetalGgufBacking,
    desc: TensorDesc,
    result: Result<(GgufBackingEligibility, Option<MetalTensor>), MetalError>,
)
    requires
        call_ensures(MetalGgufBacking::tensor, (&backing, &desc), result),
        backing.wf(),
    ensures
        ({
            let window = backing.geometry;
            let acceptable = declares_its_size(desc) && (desc.shard_idx == window.shard_idx
                ==> desc.data_offset + desc.n_bytes <= usize::MAX);
            match result {
                Ok((place, view)) => {
                    &&& acceptable
                    &&& place == lies(window, desc)
                    &&& view is Some <==> place == GgufBackingEligibility::Eligible
                    &&& view matches Some(tensor) ==> {
                        &&& tensor.buffer == backing.buffer
                        &&& window.mmap_offset + tensor.offset == desc.data_offset
                        &&& tensor.shape@ == desc.shape@
                        &&& tensor.dtype == desc.dtype
                        &&& tensor.provenance == MetalTensorProvenance::RetainedGgufReadOnly
                    }
                },
                Err(_) => !acceptable,
            }
        }),
{
    lemma_lies(backing.geometry, desc);
}

/// Every byte of the window lies in the page of just one of the offsets that are read.
pub proof fn law_every_page_is_read_once(backing: MetalGgufBacking, offsets: Vec<usize>, byte: int)
    requires
        call_ensures(MetalGgufBacking::prefault_offsets, (&backing,), offsets),
        backing.wf(),
        0 <= byte < backing.geometry.exposed_len,
    ensures
        exists|i: int|
            0 <= i < offsets@.len() && #[trigger] offsets@[i] <= byte < offsets@[i]
                + backing.geometry.page_size,
        forall|i: int, j: int|
            0 <= i < offsets@.len() && 0 <= j < offsets@.len() && #[trigger] offsets@[i] <= byte
                < offsets@[i] + backing.geometry.page_size && #[trigger] offsets@[j] <= byte
                < offsets@[j] + backing.geometry.page_size ==> i == j,
        forall|i: int|
            0 <= i < offsets@.len() ==> (#[trigger] offsets@[i]) as int
                % backing.geometry.page_size as int == 0,
{
    reveal_with_fuel(is_pow2, 1);
    let page = backing.geometry.page_size as int;
    let n = offsets@.len() as int;
    let q = byte / page;
    vstd::arithmetic::div_mod::lemma_fundamental_div_mod(byte, page);
    vstd::arithmetic::mul::lemma_mul_is_commutative(page, q);
    assert(0 <= q < n) by (nonlinear_arith)
        requires
            byte == q * page + byte % page,
            0 <= byte % page < page,
            0 <= byte < n * page,
            page > 0,
    ;
    assert(offsets@[q] == q * page);
    assert forall|i: int, j: int|
        0 <= i < n && 0 <= j < n && #[trigger] offsets@[i] <= byte < offsets@[i]
            + backing.geometry.page_size && #[trigger] offsets@[j] <= byte < offsets@[j]
            + backing.geometry.page_size implies i == j by {
        assert(i == j) by (nonlinear_arith)
            requires
                i * page <= byte < i * page + page,
                j * page <= byte < j * page + page,
                page > 0,
        ;
    }
    assert forall|i: int| 0 <= i < n implies (#[trigger] offsets@[i]) as int % page == 0 by {
        vstd::arithmetic::div_mod::lemma_mod_multiples_basic(i, page);
    }
}

/// One more sample turns the checksum by five bits and mixes the sample in. Without
/// samples it is zero. The report counts the samples and the bytes of the window.
pub proof fn law_prefault_report(
    backing: MetalGgufBacking,
    before: &[u8],
    samples: &[u8],
    earlier: GgufPrefaultReport,
    report: GgufPrefaultReport,
)
    requires
        call_ensures(MetalGgufBacking::prefault_report, (&backing, before), earlier),
        call_ensures(MetalGgufBacking::prefault_report, (&backing, samples), report),
    ensures
        report.page_count == samples@.len(),
        report.covered_bytes == backing.geometry.exposed_len,
        samples@.len() == 0 ==> report.checksum == 0,
        samples@.len() > 0 && before@ == samples@.drop_last() ==> report.checksum == turned(
            earlier.checksum,
        ) ^ (samples@.last() as u64),
{
}

/// A number with its bits moved up by five, the top ones coming in again below.
pub open spec fn turned(n: u64) -> u64 {
    (n << 5u64) | (n >> 59u64)
}

/// A copy is recorded just where it reads bytes of the window, writes bytes of another
/// buffer and is asked of the window's shard. It reads the bytes of the shard that were
/// asked for. Nothing else is recorded.
pub proof fn law_encode_copy_to(
    window: DiagnosticGgufBlitSourceWindow,
    encoder: &mut BlitEncoder,
    shard_idx: usize,
    absolute_shard_offset: u64,
    destination: Buffer,
    destination_offset: u64,
    length: u64,
    result: Result<(), MetalError>,
)
    requires
        call_ensures(
            DiagnosticGgufBlitSourceWindow::encode_copy_to,
            (
                &window, encoder, shard_idx, absolute_shard_offset, &destination,
                destination_offset, length,
            ),
            result,
        ),
    ensures
        ({
            let g = window.backing.geometry;
            let acceptable = {
                &&& shard_idx == g.shard_idx
                &&& g.mmap_offset <= absolute_shard_offset
                &&& absolute_shard_offset + length <= g.mmap_offset + g.exposed_len
                &&& destination_offset + length <= destination.length
                &&& destination.id != window.backing.buffer.id
            };
            let was = old(encoder).copies@;
            let now = final(encoder).copies@;
            &&& result is Ok <==> acceptable
            &&& result matches Err(e) ==> now == was && e@ is GgufNoCopy
            &&& result is Ok ==> {
                &&& now.len() == was.len() + 1
                &&& forall|i: int| 0 <= i < was.len() ==> #[trigger] now[i] == was[i]
                &&& now.last().source == window.backing.buffer
                &&& g.mmap_offset + now.last().source_offset == absolute_shard_offset
                &&& now.last().destination == destination
                &&& now.last().destination_offset == destination_offset
                &&& now.last().length == length
            }
        }),
{
}

/// A window and its buffer say what they were made of.
pub proof fn law_windows_say_what_they_are(
    window: GgufBackingGeometry,
    backing: MetalGgufBacking,
    source: DiagnosticGgufBlitSourceWindow,
    n: usize,
    wide: u64,
)
    requires
        backing.geometry == window,
        source.backing == backing,
    ensures
        call_ensures(GgufBackingGeometry::mapped_len, (window,), n) ==> n == window.mapped_len,
        call_ensures(GgufBackingGeometry::mmap_offset, (window,), n) ==> n == window.mmap_offset,
        call_ensures(GgufBackingGeometry::exposed_len, (window,), n) ==> n == window.exposed_len,
        call_ensures(GgufBackingGeometry::page_size, (window,), n) ==> n == window.page_size,
        call_ensures(GgufBackingGeometry::required_alignment, (window,), n) ==> n
            == window.required_alignment,
        call_ensures(MetalGgufBacking::mapped_len, (&backing,), n) ==> n == window.mapped_len,
        call_ensures(MetalGgufBacking::mmap_offset, (&backing,), n) ==> n == window.mmap_offset,
        call_ensures(MetalGgufBacking::exposed_len, (&backing,), n) ==> n == window.exposed_len,
        call_ensures(MetalGgufBacking::page_size, (&backing,), n) ==> n == window.page_size,
        call_ensures(MetalGgufBacking::required_alignment, (&backing,), n) ==> n
            == window.required_alignment,
        call_ensures(DiagnosticGgufBlitSourceWindow::shard_idx, (&source,), n) ==> n
            == window.shard_idx,
        call_ensures(DiagnosticGgufBlitSourceWindow::mmap_offset, (&source,), wide) ==> wide
            == window.mmap_offset,
        call_ensures(DiagnosticGgufBlitSourceWindow::exposed_len, (&source,), n) ==> n
            == window.exposed_len,
{
}

/// What a watch reports is what it read, and a window hands out the watch that it has.
pub proof fn law_release_is_reported(
    window: DiagnosticGgufBlitSourceWindow,
    probe: DiagnosticGgufBlitReleaseProbe,
    report: DiagnosticGgufBlitReleaseReport,
)
    requires
        call_ensures(DiagnosticGgufBlitSourceWindow::release_probe, (&window,), probe),
        call_ensures(DiagnosticGgufBlitReleaseProbe::report, (&probe,), report),
    ensures
        report.source_alive == window.probe.source_alive,
        report.deallocator_calls == window.probe.deallocator_calls,
        report.deallocator_mismatches == window.probe.deallocator_mismatches,
{
}

} // verus!
