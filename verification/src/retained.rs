//! Deciding which tensors of mapped GGUF shards are used in place.
//!
//! A plan lists windows of whole pages to expose as buffers and says of every
//! requested tensor whether it is a view into one of them, shares the bytes of an
//! earlier request, or has to be copied.

use vstd::arithmetic::power2::*;
use vstd::prelude::*;

use crate::error::{gguf_no_copy, Fault, MetalError};
use crate::gguf_backing;
use crate::gguf_backing::declared_size;
use crate::numeric::is_power_of_two;
use crate::pages;
use crate::pages::{checked_page_ceil, checked_page_floor};
use crate::source_ranges;
use crate::source_ranges::SourceRange;
use crate::tensor::{same_shape, TensorDesc};

verus! {

/// Why a tensor has to be copied.
#[derive(Clone, Copy, Debug, PartialEq, Eq, Structural)]
pub enum RetainedStorageFallback {
    MissingShard,
    BindingMisalignment,
    OutsideShard,
    FinalPartialPage,
    TensorExceedsWindow,
}

/// How a request is met.
#[derive(Clone, Copy, Debug, PartialEq, Eq, Structural)]
pub enum RetainedStorageDisposition {
    View { window_index: usize, buffer_offset: u64 },
    Alias { source_request_index: usize },
    CopyFallback { reason: RetainedStorageFallback },
}

/// A window of whole pages of one shard.
#[derive(Clone, Copy, Debug, PartialEq, Eq, Structural)]
pub struct RetainedStorageWindow {
    pub shard_idx: usize,
    pub mmap_offset: u64,
    pub length: usize,
}

/// A request and how it is met.
#[derive(Clone, Debug, PartialEq, Eq)]
pub struct RetainedStorageEntry {
    pub request_index: usize,
    pub name: String,
    pub shard_idx: usize,
    pub data_offset: u64,
    pub n_bytes: u64,
    pub disposition: RetainedStorageDisposition,
}

/// Windows, how each request is met, and the bytes that this accounts for.
#[derive(Clone, Debug, PartialEq, Eq)]
pub struct RetainedStoragePlan {
    pub page_size: usize,
    pub max_buffer_length: usize,
    pub usable_window_length: usize,
    pub required_alignment: usize,
    pub windows: Vec<RetainedStorageWindow>,
    pub entries: Vec<RetainedStorageEntry>,
    pub unique_view_bytes: u64,
    pub logical_view_bytes: u64,
    pub unique_fallback_bytes: u64,
    pub alias_bytes: u64,
}

/// The value of a [`RetainedStorageEntry`].
pub struct EntryView {
    pub request_index: usize,
    pub name: Seq<char>,
    pub shard_idx: usize,
    pub data_offset: u64,
    pub n_bytes: u64,
    pub disposition: RetainedStorageDisposition,
}

impl View for RetainedStorageEntry {
    type V = EntryView;

    open spec fn view(&self) -> EntryView {
        EntryView {
            request_index: self.request_index,
            name: self.name@,
            shard_idx: self.shard_idx,
            data_offset: self.data_offset,
            n_bytes: self.n_bytes,
            disposition: self.disposition,
        }
    }
}

/// Bytes by how they are met: views and copies count each range once, `logical_view`
/// counts every request whose range is viewed, `alias` the requests after the first
/// for a range.
pub struct Totals {
    pub unique_view: int,
    pub logical_view: int,
    pub unique_fallback: int,
    pub alias: int,
}

/// The value of a [`RetainedStoragePlan`].
pub struct PlanView {
    pub limits: PlanLimits,
    pub usable_window_length: usize,
    pub windows: Seq<RetainedStorageWindow>,
    pub entries: Seq<EntryView>,
    pub totals: Totals,
}

impl View for RetainedStoragePlan {
    type V = PlanView;

    open spec fn view(&self) -> PlanView {
        PlanView {
            limits: PlanLimits {
                page_size: self.page_size,
                max_buffer_length: self.max_buffer_length,
                required_alignment: self.required_alignment,
            },
            usable_window_length: self.usable_window_length,
            windows: self.windows@,
            entries: Seq::new(self.entries@.len(), |i: int| self.entries@[i]@),
            totals: Totals {
                unique_view: self.unique_view_bytes as int,
                logical_view: self.logical_view_bytes as int,
                unique_fallback: self.unique_fallback_bytes as int,
                alias: self.alias_bytes as int,
            },
        }
    }
}

/// The ranges that are asked for, in the order of the requests.
pub open spec fn ranges(requests: Seq<&TensorDesc>) -> Seq<SourceRange> {
    Seq::new(requests.len(), |i: int| SourceRange::of(requests[i]))
}

/// What a plan has to keep to.
#[derive(Clone, Copy)]
pub struct PlanLimits {
    pub page_size: usize,
    pub max_buffer_length: usize,
    pub required_alignment: usize,
}

impl PlanLimits {
    /// The longest window of whole pages.
    pub open spec fn usable(self) -> int {
        pages::page_floor(self.max_buffer_length as int, self.page_size as int)
    }

    pub open spec fn fault(self) -> Option<Fault> {
        if !is_pow2(self.page_size as int) {
            Some(
                Fault::mapping("host page size {} is not a power of two"@).num(
                    self.page_size as int,
                ),
            )
        } else if !is_pow2(self.required_alignment as int) {
            Some(
                Fault::mapping("required binding alignment {} is not a power of two"@).num(
                    self.required_alignment as int,
                ),
            )
        } else if self.page_size % self.required_alignment != 0 {
            Some(
                Fault::mapping("required binding alignment {} does not divide page size {}"@).num(
                    self.required_alignment as int,
                ).num(self.page_size as int),
            )
        } else if self.usable() == 0 {
            Some(
                Fault::mapping("Metal maxBufferLength {} exposes no complete {}-byte page"@).num(
                    self.max_buffer_length as int,
                ).num(self.page_size as int),
            )
        } else {
            None
        }
    }
}

/// What is wrong with a request, given those before it.
pub open spec fn request_fault(requests: Seq<&TensorDesc>, i: int) -> Option<Fault> {
    let desc = requests[i];
    let source = requests[source_ranges::source_of(ranges(requests), SourceRange::of(desc))];
    if gguf_backing::desc_size_fault(*desc) is Some {
        gguf_backing::desc_size_fault(*desc)
    } else if desc.n_bytes == 0 {
        Some(Fault::mapping("tensor {} has an empty storage range"@).name(desc.name@))
    } else if source.dtype != desc.dtype || source.shape@ != desc.shape@ {
        Some(
            Fault::mapping("aliased tensor {} is not representation-compatible with {}"@).name(
                desc.name@,
            ).name(source.name@),
        )
    } else {
        None
    }
}

/// What is wrong with the first faulty one of `n` requests.
pub open spec fn requests_fault(requests: Seq<&TensorDesc>, n: nat) -> Option<Fault>
    decreases n,
{
    if n == 0 {
        None
    } else {
        Fault::first(requests_fault(requests, (n - 1) as nat), request_fault(requests, n - 1))
    }
}

/// Why no plan is made.
pub enum Refusal {
    OffsetTooLarge,
    RangeTooLarge,
    Overlap,
    PageEndTooLarge,
}

/// Why a range has to be copied, if it has. `previous` is the range before it in
/// increasing order.
pub open spec fn ruling(
    mapped: Seq<usize>,
    limits: PlanLimits,
    range: SourceRange,
    previous: Option<SourceRange>,
) -> Result<Option<RetainedStorageFallback>, Refusal> {
    let page = limits.page_size as int;
    if range.shard_idx >= mapped.len() {
        Ok(Some(RetainedStorageFallback::MissingShard))
    } else if range.data_offset > usize::MAX {
        Err(Refusal::OffsetTooLarge)
    } else if range.end() > usize::MAX {
        Err(Refusal::RangeTooLarge)
    } else if previous is Some && previous->0.shard_idx == range.shard_idx && range.data_offset
        < previous->0.end() {
        Err(Refusal::Overlap)
    } else if range.data_offset as int % limits.required_alignment as int != 0 {
        Ok(Some(RetainedStorageFallback::BindingMisalignment))
    } else if range.end() > mapped[range.shard_idx as int] {
        Ok(Some(RetainedStorageFallback::OutsideShard))
    } else if range.end() + page - 1 > usize::MAX {
        Err(Refusal::PageEndTooLarge)
    } else if pages::page_ceil(range.end(), page) - pages::page_floor(
        range.data_offset as int,
        page,
    )
        > limits.usable() {
        Ok(Some(RetainedStorageFallback::TensorExceedsWindow))
    } else if range.end() > pages::page_floor(mapped[range.shard_idx as int] as int, page) {
        Ok(Some(RetainedStorageFallback::FinalPartialPage))
    } else {
        Ok(None)
    }
}

/// Windows and, for each range in increasing order, how it is met.
pub struct Placement {
    pub windows: Seq<RetainedStorageWindow>,
    pub dispositions: Seq<RetainedStorageDisposition>,
}

impl Placement {
    /// The last window can be extended to hold a range.
    pub open spec fn reaches(self, limits: PlanLimits, range: SourceRange) -> bool {
        &&& self.windows.len() > 0
        &&& self.windows.last().shard_idx == range.shard_idx
        &&& self.windows.last().mmap_offset <= range.data_offset
        &&& pages::page_ceil(range.end(), limits.page_size as int) - self.windows.last().mmap_offset
            <= limits.usable()
    }

    /// The windows that hold one more range: the last one extended, where that is
    /// possible, else a new one.
    pub open spec fn holding(self, limits: PlanLimits, range: SourceRange) -> Seq<
        RetainedStorageWindow,
    > {
        let page = limits.page_size as int;
        let end = pages::page_ceil(range.end(), page);
        if self.reaches(limits, range) {
            self.windows.drop_last().push(
                RetainedStorageWindow {
                    shard_idx: range.shard_idx,
                    mmap_offset: self.windows.last().mmap_offset,
                    length: (end - self.windows.last().mmap_offset) as usize,
                },
            )
        } else {
            let start = pages::page_floor(range.data_offset as int, page);
            self.windows.push(
                RetainedStorageWindow {
                    shard_idx: range.shard_idx,
                    mmap_offset: start as u64,
                    length: (end - start) as usize,
                },
            )
        }
    }

    /// One more range, viewed.
    pub open spec fn viewed(self, limits: PlanLimits, range: SourceRange) -> Placement {
        let windows = self.holding(limits, range);
        Placement {
            windows,
            dispositions: self.dispositions.push(
                RetainedStorageDisposition::View {
                    window_index: (windows.len() - 1) as usize,
                    buffer_offset: (range.data_offset - windows.last().mmap_offset) as u64,
                },
            ),
        }
    }

    /// One more range, copied.
    pub open spec fn copied(self, reason: RetainedStorageFallback) -> Placement {
        Placement {
            windows: self.windows,
            dispositions: self.dispositions.push(
                RetainedStorageDisposition::CopyFallback { reason },
            ),
        }
    }
}

/// The range before the one at `k`.
pub open spec fn previous(order: Seq<SourceRange>, k: int) -> Option<SourceRange> {
    if k > 0 {
        Some(order[k - 1])
    } else {
        None
    }
}

/// How the first `n` ranges are met, or which one is refused and why.
pub open spec fn placement(
    mapped: Seq<usize>,
    limits: PlanLimits,
    order: Seq<SourceRange>,
    n: nat,
) -> Result<Placement, (int, Refusal)>
    decreases n,
{
    if n == 0 {
        Ok(Placement { windows: seq![], dispositions: seq![] })
    } else {
        let k = n - 1;
        match placement(mapped, limits, order, k as nat) {
            Err(refused) => Err(refused),
            Ok(so_far) => match ruling(mapped, limits, order[k], previous(order, k)) {
                Err(why) => Err((k, why)),
                Ok(Some(reason)) => Ok(so_far.copied(reason)),
                Ok(None) => Ok(so_far.viewed(limits, order[k])),
            },
        }
    }
}

/// What is said of a refusal. `before` is the tensor before `desc` in increasing
/// order.
pub open spec fn refusal_fault(why: Refusal, desc: TensorDesc, before: TensorDesc) -> Fault {
    match why {
        Refusal::OffsetTooLarge => Fault::mapping("tensor {} offset {} does not fit usize"@).name(
            desc.name@,
        ).num(desc.data_offset as int),
        Refusal::RangeTooLarge => Fault::mapping("tensor {} range overflows usize"@).name(
            desc.name@,
        ),
        Refusal::Overlap => Fault::mapping(
            "tensor {} range starts at {} before prior tensor {} ends at {}"@,
        ).name(desc.name@).num(desc.data_offset as int).name(before.name@).num(
            SourceRange::of(&before).end(),
        ),
        Refusal::PageEndTooLarge => Fault::mapping("page-rounded endpoint overflow"@),
    }
}

/// How each request is met: the first one for a range as the range is, the others
/// by reference to it.
pub open spec fn settled(
    asked: Seq<SourceRange>,
    order: Seq<SourceRange>,
    placed: Placement,
) -> Seq<RetainedStorageDisposition> {
    Seq::new(
        asked.len(),
        |i: int|
            if source_ranges::source_of(asked, asked[i]) == i {
                placed.dispositions[order.index_of(asked[i])]
            } else {
                RetainedStorageDisposition::Alias {
                    source_request_index: source_ranges::source_of(asked, asked[i]) as usize,
                }
            },
    )
}

impl Totals {
    pub open spec fn zero() -> Totals {
        Totals { unique_view: 0, logical_view: 0, unique_fallback: 0, alias: 0 }
    }

    /// One more request counted.
    pub open spec fn counting(
        self,
        bytes: int,
        met: RetainedStorageDisposition,
        all: Seq<RetainedStorageDisposition>,
    ) -> Totals {
        match met {
            RetainedStorageDisposition::View { .. } => Totals {
                unique_view: self.unique_view + bytes,
                logical_view: self.logical_view + bytes,
                ..self
            },
            RetainedStorageDisposition::CopyFallback { .. } => Totals {
                unique_fallback: self.unique_fallback + bytes,
                ..self
            },
            RetainedStorageDisposition::Alias { source_request_index } => Totals {
                alias: self.alias + bytes,
                logical_view: self.logical_view + if all[source_request_index as int] is View {
                    bytes
                } else {
                    0
                },
                ..self
            },
        }
    }

    /// Which of the totals is too large.
    pub open spec fn fault(self) -> Option<Fault> {
        if self.unique_view > u64::MAX {
            Some(Fault::mapping("unique view byte accounting overflow"@))
        } else if self.unique_fallback > u64::MAX {
            Some(Fault::mapping("unique fallback byte accounting overflow"@))
        } else if self.alias > u64::MAX {
            Some(Fault::mapping("alias byte accounting overflow"@))
        } else if self.logical_view > u64::MAX {
            Some(Fault::mapping("logical view byte accounting overflow"@))
        } else {
            None
        }
    }
}

/// The bytes of the first `n` requests.
pub open spec fn tally(
    asked: Seq<SourceRange>,
    all: Seq<RetainedStorageDisposition>,
    n: nat,
) -> Totals
    decreases n,
{
    if n == 0 {
        Totals::zero()
    } else {
        tally(asked, all, (n - 1) as nat).counting(asked[n - 1].n_bytes as int, all[n - 1], all)
    }
}

/// The first total that is too large, counting the first `n` requests.
pub open spec fn tally_fault(
    asked: Seq<SourceRange>,
    all: Seq<RetainedStorageDisposition>,
    n: nat,
) -> Option<Fault>
    decreases n,
{
    if n == 0 {
        None
    } else {
        Fault::first(tally_fault(asked, all, (n - 1) as nat), tally(asked, all, n).fault())
    }
}

/// The plan for requests, or why there is none.
pub open spec fn planned(
    mapped: Seq<usize>,
    requests: Seq<&TensorDesc>,
    limits: PlanLimits,
) -> Result<PlanView, Fault> {
    let asked = ranges(requests);
    let order = source_ranges::ordered(asked);
    if limits.fault() is Some {
        Err(limits.fault()->0)
    } else if requests_fault(requests, requests.len()) is Some {
        Err(requests_fault(requests, requests.len())->0)
    } else {
        match placement(mapped, limits, order, order.len()) {
            Err((k, why)) => Err(
                refusal_fault(
                    why,
                    *requests[source_ranges::source_of(asked, order[k])],
                    *requests[source_ranges::source_of(asked, order[k - 1])],
                ),
            ),
            Ok(placed) => {
                let all = settled(asked, order, placed);
                if tally_fault(asked, all, asked.len()) is Some {
                    Err(tally_fault(asked, all, asked.len())->0)
                } else {
                    Ok(
                        PlanView {
                            limits,
                            usable_window_length: limits.usable() as usize,
                            windows: placed.windows,
                            entries: Seq::new(
                                requests.len(),
                                |i: int|
                                    EntryView {
                                        request_index: i as usize,
                                        name: requests[i].name@,
                                        shard_idx: requests[i].shard_idx,
                                        data_offset: requests[i].data_offset,
                                        n_bytes: requests[i].n_bytes,
                                        disposition: all[i],
                                    },
                            ),
                            totals: tally(asked, all, asked.len()),
                        },
                    )
                }
            },
        }
    }
}

/// The ranges of the requests at `picks`.
pub open spec fn picked(asked: Seq<SourceRange>, picks: Seq<usize>) -> Seq<SourceRange> {
    Seq::new(picks.len(), |k: int| asked[picks[k] as int])
}

/// How many of the sorted sources come before a range.
fn find_slot(requests: &[&TensorDesc], sorted: &Vec<usize>, range: &SourceRange) -> (at: usize)
    requires
        forall|k: int| 0 <= k < sorted@.len() ==> #[trigger] sorted@[k] < requests@.len(),
        source_ranges::increasing(picked(ranges(requests@), sorted@)),
    ensures
        at <= sorted@.len(),
        forall|k: int|
            0 <= k < at ==> (#[trigger] picked(ranges(requests@), sorted@)[k]).before(*range),
        forall|k: int|
            at <= k < sorted@.len() ==> !(#[trigger] picked(
                ranges(requests@),
                sorted@,
            )[k]).before(*range),
{
    let ghost order = picked(ranges(requests@), sorted@);
    let mut low: usize = 0;
    let mut high: usize = sorted.len();
    while low < high
        invariant
            low <= high <= sorted@.len(),
            forall|k: int| 0 <= k < sorted@.len() ==> #[trigger] sorted@[k] < requests@.len(),
            order == picked(ranges(requests@), sorted@),
            source_ranges::increasing(order),
            forall|k: int| 0 <= k < low ==> (#[trigger] order[k]).before(*range),
            forall|k: int| high <= k < sorted@.len() ==> !(#[trigger] order[k]).before(*range),
        decreases high - low,
    {
        let middle: usize = low + (high - low) / 2;
        let here = SourceRange::of(requests[sorted[middle]]);
        assert(here == order[middle as int]);
        if here.is_before(range) {
            assert forall|k: int| 0 <= k < middle + 1 implies (#[trigger] order[k]).before(
                *range,
            ) by {
                if k < middle {
                    assert(order[k].before(order[middle as int]));
                }
            }
            low = middle + 1;
        } else {
            assert forall|k: int| middle <= k < sorted@.len() implies !(
            #[trigger] order[k]).before(*range) by {
                if k > middle {
                    assert(order[middle as int].before(order[k]));
                }
            }
            high = middle;
        }
    }
    low
}

/// Which requests are the first for their ranges.
struct Sources {
    /// Those requests, by increasing range.
    sorted: Vec<usize>,
    /// For each request, the first one for its range.
    first: Vec<usize>,
}

impl Sources {
    /// What is known of the first `n` requests.
    spec fn cover(self, asked: Seq<SourceRange>, n: int) -> bool {
        &&& 0 <= n <= asked.len()
        &&& source_ranges::lists(picked(asked, self.sorted@), asked.take(n))
        &&& forall|k: int|
            0 <= k < self.sorted@.len() ==> (#[trigger] self.sorted@[k]) < n
                && source_ranges::is_first(
                asked,
                self.sorted@[k] as int,
                self.sorted@[k] as int,
            )
        &&& self.first@.len() == n
        &&& forall|i: int|
            0 <= i < n ==> source_ranges::is_first(asked, #[trigger] self.first@[i] as int, i)
    }
}

/// What is wrong with a request apart from those before it, else its range.
fn check_request(desc: &TensorDesc) -> (r: Result<SourceRange, MetalError>)
    ensures
        match gguf_backing::desc_size_fault(*desc) {
            Some(fault) => r is Err && r->Err_0@ == fault,
            None => if desc.n_bytes == 0 {
                r is Err && r->Err_0@ == Fault::mapping(
                    "tensor {} has an empty storage range"@,
                ).name(desc.name@)
            } else {
                r == Ok::<SourceRange, MetalError>(SourceRange::of(desc))
            },
        },
{
    let declared: usize = match declared_size(desc) {
        Ok(n) => n,
        Err(e) => {
            return Err(e);
        },
    };
    if declared == 0 {
        return Err(gguf_no_copy("tensor {} has an empty storage range").name(&desc.name));
    }
    Ok(SourceRange::of(desc))
}

fn find_sources(requests: &[&TensorDesc]) -> (r: Result<Sources, MetalError>)
    ensures
        match requests_fault(requests@, requests@.len()) {
            Some(fault) => r is Err && r->Err_0@ == fault,
            None => r is Ok && r->Ok_0.cover(ranges(requests@), requests@.len() as int),
        },
{
    let ghost asked = ranges(requests@);
    let mut found = Sources { sorted: Vec::new(), first: Vec::new() };
    assert(picked(asked, found.sorted@) =~= Seq::<SourceRange>::empty());
    assert(asked.take(0) =~= Seq::<SourceRange>::empty());
    let mut i: usize = 0;
    while i < requests.len()
        invariant
            i <= requests@.len(),
            asked == ranges(requests@),
            found.cover(asked, i as int),
            requests_fault(requests@, i as nat) is None,
        decreases requests@.len() - i,
    {
        let desc = requests[i];
        proof {
            source_ranges::lemma_source(asked, i as int);
            lemma_first_fault(requests@, i as nat, requests@.len());
            assert(requests_fault(requests@, (i + 1) as nat) == request_fault(
                requests@,
                i as int,
            ));
        }
        let range = match check_request(desc) {
            Ok(range) => range,
            Err(e) => {
                return Err(e);
            },
        };
        let ghost order = picked(asked, found.sorted@);
        let ghost before = asked.take(i as int);
        let at: usize = find_slot(requests, &found.sorted, &range);
        assert(asked.take(i + 1) =~= before.push(range));
        if at < found.sorted.len() && SourceRange::of(requests[found.sorted[at]]) == range {
            let first: usize = found.sorted[at];
            let existing = requests[first];
            assert(source_ranges::is_first(asked, first as int, i as int)) by {
                assert(source_ranges::is_first(asked, first as int, first as int));
            }
            if existing.dtype != desc.dtype || !same_shape(
                existing.shape.as_slice(),
                desc.shape.as_slice(),
            ) {
                return Err(
                    gguf_no_copy("aliased tensor {} is not representation-compatible with {}").name(
                        &desc.name,
                    ).name(&existing.name),
                );
            }
            proof {
                assert(order[at as int] == range);
                source_ranges::lemma_listing_again(order, before, range);
            }
            found.first.push(first);
        } else {
            proof {
                assert(!order.contains(range)) by {
                    if order.contains(range) {
                        let k = choose|k: int| 0 <= k < order.len() && order[k] == range;
                        if k < at {
                            assert(order[k].before(range));
                        } else if k > at {
                            assert(order[at as int].before(order[k]));
                        }
                    }
                }
                assert forall|k: int| at <= k < order.len() implies range.before(
                    #[trigger] order[k],
                ) by {
                    assert(order.contains(order[k]));
                }
                source_ranges::lemma_listing_insert(order, before, at as int, range);
                assert(!before.contains(range));
                assert(source_ranges::is_first(asked, i as int, i as int)) by {
                    assert forall|j: int| 0 <= j < i implies #[trigger] asked[j]
                        != asked[i as int] by {
                        assert(before[j] == asked[j]);
                    }
                }
            }
            let ghost sorted = found.sorted@;
            found.sorted.insert(at, i);
            found.first.push(i);
            proof {
                let more = found.sorted@;
                assert(picked(asked, more) =~= order.insert(at as int, range));
                assert forall|k: int| 0 <= k < more.len() implies (#[trigger] more[k]) < i + 1
                    && source_ranges::is_first(asked, more[k] as int, more[k] as int) by {
                    if k < at {
                        assert(more[k] == sorted[k]);
                    } else if k > at {
                        assert(more[k] == sorted[k - 1]);
                    }
                }
            }
        }
        i = i + 1;
    }
    assert(asked.take(i as int) =~= asked);
    Ok(found)
}

/// A fault among the first requests is a fault of them all.
proof fn lemma_first_fault(requests: Seq<&TensorDesc>, m: nat, n: nat)
    requires
        m < n,
        requests_fault(requests, m) is None,
    ensures
        request_fault(requests, m as int) is Some ==> requests_fault(requests, n)
            == request_fault(requests, m as int),
    decreases n,
{
    if n == m + 1 {
    } else {
        lemma_first_fault(requests, m, (n - 1) as nat);
    }
}

/// What is decided of a tensor, given the one before it in increasing order.
fn decide(
    shard_mapped_lengths: &[usize],
    limits: PlanLimits,
    desc: &TensorDesc,
    before: Option<&TensorDesc>,
) -> (r: Result<Option<RetainedStorageFallback>, MetalError>)
    requires
        limits.fault() is None,
        desc.n_bytes <= usize::MAX,
        before is Some && before->0.shard_idx == desc.shard_idx && desc.shard_idx
            < shard_mapped_lengths@.len() ==> SourceRange::of(before->0).end() <= usize::MAX,
    ensures
        match ruling(
            shard_mapped_lengths@,
            limits,
            SourceRange::of(desc),
            match before {
                Some(b) => Some(SourceRange::of(b)),
                None => None,
            },
        ) {
            Ok(reason) => r == Ok::<Option<RetainedStorageFallback>, MetalError>(reason),
            Err(why) => r is Err && r->Err_0@ == refusal_fault(why, *desc, *(before->0)),
        },
{
    proof {
        reveal_with_fuel(is_pow2, 1);
    }
    let page: usize = limits.page_size;
    if desc.shard_idx >= shard_mapped_lengths.len() {
        return Ok(Some(RetainedStorageFallback::MissingShard));
    }
    let mapped_len: usize = shard_mapped_lengths[desc.shard_idx];
    if desc.data_offset > usize::MAX as u64 {
        return Err(
            gguf_no_copy("tensor {} offset {} does not fit usize").name(&desc.name).num_u64(
                desc.data_offset,
            ),
        );
    }
    let start: usize = desc.data_offset as usize;
    let end: usize = match start.checked_add(desc.n_bytes as usize) {
        Some(end) => end,
        None => {
            return Err(gguf_no_copy("tensor {} range overflows usize").name(&desc.name));
        },
    };
    if let Some(b) = before {
        if b.shard_idx == desc.shard_idx {
            let previous_end: u64 = b.data_offset + b.n_bytes;
            if desc.data_offset < previous_end {
                return Err(
                    gguf_no_copy(
                        "tensor {} range starts at {} before prior tensor {} ends at {}",
                    ).name(
                        &desc.name,
                    ).num(start).name(&b.name).num_u64(previous_end),
                );
            }
        }
    }
    let window_start: usize = checked_page_floor(start, page);
    proof {
        pages::lemma_alignment(start as int, page as int, limits.required_alignment as int);
    }
    if (start - window_start) % limits.required_alignment != 0 {
        return Ok(Some(RetainedStorageFallback::BindingMisalignment));
    }
    if end > mapped_len {
        return Ok(Some(RetainedStorageFallback::OutsideShard));
    }
    let rounded_end: usize = match checked_page_ceil(end, page) {
        Ok(rounded) => rounded,
        Err(e) => {
            return Err(e);
        },
    };
    proof {
        pages::lemma_page_ceil(end as int, page as int);
    }
    let usable: usize = checked_page_floor(limits.max_buffer_length, page);
    if rounded_end - window_start > usable {
        return Ok(Some(RetainedStorageFallback::TensorExceedsWindow));
    }
    if end > checked_page_floor(mapped_len, page) {
        return Ok(Some(RetainedStorageFallback::FinalPartialPage));
    }
    Ok(None)
}

/// Make the windows hold a tensor: extend the last one where that is possible, else
/// add one.
fn hold(limits: PlanLimits, windows: &mut Vec<RetainedStorageWindow>, desc: &TensorDesc)
    requires
        limits.fault() is None,
        SourceRange::of(desc).end() + limits.page_size - 1 <= usize::MAX,
    ensures
        final(windows)@ == (Placement { windows: old(windows)@, dispositions: seq![] }).holding(
            limits,
            SourceRange::of(desc),
        ),
        final(windows)@.len() > 0,
        final(windows)@.last().mmap_offset <= desc.data_offset,
        final(windows)@.len() <= old(windows)@.len() + 1,
{
    proof {
        reveal_with_fuel(is_pow2, 1);
    }
    let page: usize = limits.page_size;
    let start: usize = desc.data_offset as usize;
    let end: usize = start + desc.n_bytes as usize;
    proof {
        pages::lemma_page_ceil(end as int, page as int);
    }
    let rounded_end: usize = (end + (page - 1)) / page * page;
    let usable: usize = checked_page_floor(limits.max_buffer_length, page);
    let count: usize = windows.len();
    if count > 0 {
        let last = windows[count - 1];
        if last.shard_idx == desc.shard_idx && last.mmap_offset <= desc.data_offset {
            let length: usize = rounded_end - last.mmap_offset as usize;
            if length <= usable {
                windows.set(
                    count - 1,
                    RetainedStorageWindow {
                        shard_idx: desc.shard_idx,
                        mmap_offset: last.mmap_offset,
                        length,
                    },
                );
                assert(windows@ =~= old(windows)@.drop_last().push(windows@.last()));
                return;
            }
        }
    }
    let window_start: usize = checked_page_floor(start, page);
    windows.push(
        RetainedStorageWindow {
            shard_idx: desc.shard_idx,
            mmap_offset: window_start as u64,
            length: rounded_end - window_start,
        },
    );
}

/// No later range mends a refusal.
proof fn lemma_first_refusal(
    mapped: Seq<usize>,
    limits: PlanLimits,
    order: Seq<SourceRange>,
    m: nat,
    n: nat,
)
    requires
        m <= n,
        placement(mapped, limits, order, m) is Err,
    ensures
        placement(mapped, limits, order, n) == placement(mapped, limits, order, m),
    decreases n,
{
    if m < n {
        lemma_first_refusal(mapped, limits, order, m, (n - 1) as nat);
    }
}

/// Decide of every source how it is met, and note that in `met`.
fn place_sources(
    shard_mapped_lengths: &[usize],
    limits: PlanLimits,
    requests: &[&TensorDesc],
    sorted: &Vec<usize>,
    met: &mut Vec<RetainedStorageDisposition>,
) -> (r: Result<Vec<RetainedStorageWindow>, MetalError>)
    requires
        limits.fault() is None,
        forall|i: int| 0 <= i < requests@.len() ==> (#[trigger] requests@[i]).n_bytes <= usize::MAX,
        forall|k: int| 0 <= k < sorted@.len() ==> #[trigger] sorted@[k] < requests@.len(),
        source_ranges::increasing(picked(ranges(requests@), sorted@)),
        old(met)@.len() == requests@.len(),
    ensures
        final(met)@.len() == requests@.len(),
        forall|i: int|
            0 <= i < requests@.len() && !sorted@.contains(i as usize) ==> #[trigger] final(met)@[i]
                == old(met)@[i],
        match placement(
            shard_mapped_lengths@,
            limits,
            picked(ranges(requests@), sorted@),
            sorted@.len(),
        ) {
            Ok(placed) => r is Ok && r->Ok_0@ == placed.windows && forall|k: int|
                0 <= k < sorted@.len() ==> final(met)@[#[trigger] sorted@[k] as int]
                    == placed.dispositions[k],
            Err((k, why)) => r is Err && r->Err_0@ == refusal_fault(
                why,
                *requests@[sorted@[k] as int],
                *requests@[sorted@[k - 1] as int],
            ),
        },
{
    let ghost order = picked(ranges(requests@), sorted@);
    let ghost mapped = shard_mapped_lengths@;
    let mut windows: Vec<RetainedStorageWindow> = Vec::new();
    let mut k: usize = 0;
    while k < sorted.len()
        invariant
            k <= sorted@.len(),
            limits.fault() is None,
            forall|i: int|
                0 <= i < requests@.len() ==> (#[trigger] requests@[i]).n_bytes <= usize::MAX,
            forall|j: int| 0 <= j < sorted@.len() ==> #[trigger] sorted@[j] < requests@.len(),
            order == picked(ranges(requests@), sorted@),
            mapped == shard_mapped_lengths@,
            source_ranges::increasing(order),
            met@.len() == requests@.len(),
            forall|i: int|
                0 <= i < requests@.len() && !sorted@.contains(i as usize) ==> #[trigger] met@[i]
                    == old(met)@[i],
            placement(mapped, limits, order, k as nat) is Ok,
            windows@ == placement(mapped, limits, order, k as nat)->Ok_0.windows,
            windows@.len() <= k,
            placement(mapped, limits, order, k as nat)->Ok_0.dispositions.len() == k,
            forall|j: int|
                0 <= j < k ==> met@[#[trigger] sorted@[j] as int] == placement(
                    mapped,
                    limits,
                    order,
                    k as nat,
                )->Ok_0.dispositions[j],
            k > 0 && order[k - 1].shard_idx < mapped.len() ==> order[k - 1].end() <= usize::MAX,
        decreases sorted@.len() - k,
    {
        let ghost so_far = placement(mapped, limits, order, k as nat)->Ok_0;
        let ghost noted = met@;
        let here: usize = sorted[k];
        let desc = requests[here];
        let before: Option<&TensorDesc> = if k > 0 {
            Some(requests[sorted[k - 1]])
        } else {
            None
        };
        assert(order[k as int] == SourceRange::of(desc));
        assert(k > 0 ==> order[k - 1] == SourceRange::of(before->0));
        proof {
            if ruling(mapped, limits, order[k as int], previous(order, k as int)) is Err {
                lemma_first_refusal(mapped, limits, order, (k + 1) as nat, sorted@.len());
            }
        }
        match decide(shard_mapped_lengths, limits, desc, before) {
            Err(e) => {
                return Err(e);
            },
            Ok(Some(reason)) => {
                met.set(here, RetainedStorageDisposition::CopyFallback { reason });
            },
            Ok(None) => {
                hold(limits, &mut windows, desc);
                let window_index: usize = windows.len() - 1;
                let buffer_offset: u64 = desc.data_offset - windows[window_index].mmap_offset;
                met.set(here, RetainedStorageDisposition::View { window_index, buffer_offset });
            },
        }
        proof {
            let now = placement(mapped, limits, order, (k + 1) as nat)->Ok_0;
            assert(now.dispositions =~= so_far.dispositions.push(met@[here as int]));
            assert forall|j: int| 0 <= j < k + 1 implies met@[#[trigger] sorted@[j] as int]
                == now.dispositions[j] by {
                if j < k {
                    assert(order[j].before(order[k as int]));
                    assert(sorted@[j] != here);
                    assert(met@[sorted@[j] as int] == noted[sorted@[j] as int]);
                }
            }
            assert(sorted@.contains(here)) by {
                assert(sorted@[k as int] == here);
            }
        }
        k = k + 1;
    }
    Ok(windows)
}

/// No later request mends a total that is too large.
proof fn lemma_first_tally_fault(
    asked: Seq<SourceRange>,
    all: Seq<RetainedStorageDisposition>,
    m: nat,
    n: nat,
)
    requires
        m <= n,
        tally_fault(asked, all, m) is Some,
    ensures
        tally_fault(asked, all, n) == tally_fault(asked, all, m),
    decreases n,
{
    if m < n {
        lemma_first_tally_fault(asked, all, m, (n - 1) as nat);
    }
}

/// Byte counts of a plan.
struct ByteTotals {
    unique_view: u64,
    logical_view: u64,
    unique_fallback: u64,
    alias: u64,
}

impl View for ByteTotals {
    type V = Totals;

    closed spec fn view(&self) -> Totals {
        Totals {
            unique_view: self.unique_view as int,
            logical_view: self.logical_view as int,
            unique_fallback: self.unique_fallback as int,
            alias: self.alias as int,
        }
    }
}

fn raised(total: u64, bytes: u64, overflow: &'static str) -> (r: Result<u64, MetalError>)
    ensures
        if total + bytes > u64::MAX {
            r is Err && r->Err_0@ == Fault::mapping(overflow@)
        } else {
            r is Ok && r->Ok_0 == total + bytes
        },
{
    match total.checked_add(bytes) {
        Some(sum) => Ok(sum),
        None => Err(gguf_no_copy(overflow)),
    }
}

impl ByteTotals {
    /// Count one more request.
    fn count(
        self,
        bytes: u64,
        met: RetainedStorageDisposition,
        all: &Vec<RetainedStorageDisposition>,
    ) -> (r: Result<ByteTotals, MetalError>)
        requires
            met matches RetainedStorageDisposition::Alias { source_request_index }
                ==> source_request_index < all@.len(),
        ensures
            match self@.counting(bytes as int, met, all@).fault() {
                Some(fault) => r is Err && r->Err_0@ == fault,
                None => r is Ok && r->Ok_0@ == self@.counting(bytes as int, met, all@),
            },
    {
        let mut totals = self;
        match met {
            RetainedStorageDisposition::View { .. } => {
                match raised(totals.unique_view, bytes, "unique view byte accounting overflow") {
                    Ok(sum) => {
                        totals.unique_view = sum;
                    },
                    Err(e) => {
                        return Err(e);
                    },
                }
                match raised(totals.logical_view, bytes, "logical view byte accounting overflow") {
                    Ok(sum) => {
                        totals.logical_view = sum;
                    },
                    Err(e) => {
                        return Err(e);
                    },
                }
            },
            RetainedStorageDisposition::CopyFallback { .. } => {
                match raised(
                    totals.unique_fallback,
                    bytes,
                    "unique fallback byte accounting overflow",
                ) {
                    Ok(sum) => {
                        totals.unique_fallback = sum;
                    },
                    Err(e) => {
                        return Err(e);
                    },
                }
            },
            RetainedStorageDisposition::Alias { source_request_index } => {
                match raised(totals.alias, bytes, "alias byte accounting overflow") {
                    Ok(sum) => {
                        totals.alias = sum;
                    },
                    Err(e) => {
                        return Err(e);
                    },
                }
                if let RetainedStorageDisposition::View { .. } = all[source_request_index] {
                    match raised(
                        totals.logical_view,
                        bytes,
                        "logical view byte accounting overflow",
                    ) {
                        Ok(sum) => {
                            totals.logical_view = sum;
                        },
                        Err(e) => {
                            return Err(e);
                        },
                    }
                }
            },
        }
        Ok(totals)
    }
}

/// The plan for requests, from how each of them is met.
fn account(
    limits: PlanLimits,
    windows: Vec<RetainedStorageWindow>,
    requests: &[&TensorDesc],
    met: &Vec<RetainedStorageDisposition>,
) -> (r: Result<RetainedStoragePlan, MetalError>)
    requires
        limits.fault() is None,
        met@.len() == requests@.len(),
        forall|i: int|
            0 <= i < met@.len() ==> ((#[trigger] met@[i]) matches RetainedStorageDisposition::Alias {
                source_request_index,
            } ==> source_request_index < met@.len()),
    ensures
        match tally_fault(ranges(requests@), met@, requests@.len()) {
            Some(fault) => r is Err && r->Err_0@ == fault,
            None => {
                &&& r is Ok
                &&& r->Ok_0@.limits == limits
                &&& r->Ok_0@.usable_window_length == limits.usable()
                &&& r->Ok_0@.windows == windows@
                &&& r->Ok_0@.totals == tally(ranges(requests@), met@, requests@.len())
                &&& r->Ok_0@.entries == Seq::new(
                    requests@.len(),
                    |i: int|
                        EntryView {
                            request_index: i as usize,
                            name: requests@[i].name@,
                            shard_idx: requests@[i].shard_idx,
                            data_offset: requests@[i].data_offset,
                            n_bytes: requests@[i].n_bytes,
                            disposition: met@[i],
                        },
                )
            },
        },
{
    let ghost asked = ranges(requests@);
    proof {
        reveal_with_fuel(is_pow2, 1);
    }
    let usable_window_length: usize = checked_page_floor(
        limits.max_buffer_length,
        limits.page_size,
    );
    let mut entries: Vec<RetainedStorageEntry> = Vec::new();
    let mut totals = ByteTotals { unique_view: 0, logical_view: 0, unique_fallback: 0, alias: 0 };
    let mut i: usize = 0;
    while i < requests.len()
        invariant
            i <= requests@.len(),
            asked == ranges(requests@),
            met@.len() == requests@.len(),
            forall|j: int|
                0 <= j < met@.len() ==> ((
                #[trigger] met@[j]) matches RetainedStorageDisposition::Alias {
                    source_request_index,
                } ==> source_request_index < met@.len()),
            tally_fault(asked, met@, i as nat) is None,
            totals@ == tally(asked, met@, i as nat),
            entries@.len() == i,
            forall|j: int|
                0 <= j < i ==> (#[trigger] entries@[j])@ == (EntryView {
                    request_index: j as usize,
                    name: requests@[j].name@,
                    shard_idx: requests@[j].shard_idx,
                    data_offset: requests@[j].data_offset,
                    n_bytes: requests@[j].n_bytes,
                    disposition: met@[j],
                }),
        decreases requests@.len() - i,
    {
        let desc = requests[i];
        proof {
            if tally_fault(asked, met@, (i + 1) as nat) is Some {
                lemma_first_tally_fault(asked, met@, (i + 1) as nat, requests@.len());
            }
        }
        totals = match totals.count(desc.n_bytes, met[i], met) {
            Ok(more) => more,
            Err(e) => {
                return Err(e);
            },
        };
        entries.push(
            RetainedStorageEntry {
                request_index: i,
                name: desc.name.clone(),
                shard_idx: desc.shard_idx,
                data_offset: desc.data_offset,
                n_bytes: desc.n_bytes,
                disposition: met[i],
            },
        );
        i = i + 1;
    }
    Ok(
        RetainedStoragePlan {
            page_size: limits.page_size,
            max_buffer_length: limits.max_buffer_length,
            usable_window_length,
            required_alignment: limits.required_alignment,
            windows,
            entries,
            unique_view_bytes: totals.unique_view,
            logical_view_bytes: totals.logical_view,
            unique_fallback_bytes: totals.unique_fallback,
            alias_bytes: totals.alias,
        },
    )
}

/// What is wrong with limits.
fn check_limits(limits: PlanLimits) -> (r: Result<(), MetalError>)
    ensures
        match limits.fault() {
            Some(fault) => r is Err && r->Err_0@ == fault,
            None => r is Ok,
        },
{
    if !is_power_of_two(limits.page_size) {
        return Err(
            gguf_no_copy("host page size {} is not a power of two").num(limits.page_size),
        );
    }
    if !is_power_of_two(limits.required_alignment) {
        return Err(
            gguf_no_copy("required binding alignment {} is not a power of two").num(
                limits.required_alignment,
            ),
        );
    }
    proof {
        reveal_with_fuel(is_pow2, 1);
    }
    if limits.page_size % limits.required_alignment != 0 {
        return Err(
            gguf_no_copy("required binding alignment {} does not divide page size {}").num(
                limits.required_alignment,
            ).num(limits.page_size),
        );
    }
    if checked_page_floor(limits.max_buffer_length, limits.page_size) == 0 {
        return Err(
            gguf_no_copy("Metal maxBufferLength {} exposes no complete {}-byte page").num(
                limits.max_buffer_length,
            ).num(limits.page_size),
        );
    }
    Ok(())
}

/// Every request of a faultless list is faultless.
pub proof fn lemma_no_fault(requests: Seq<&TensorDesc>, i: int, n: nat)
    requires
        0 <= i < n,
        requests_fault(requests, n) is None,
    ensures
        request_fault(requests, i) is None,
    decreases n,
{
    if i < n - 1 {
        lemma_no_fault(requests, i, (n - 1) as nat);
    }
}

/// A range is viewed or copied.
pub proof fn lemma_no_alias(mapped: Seq<usize>, limits: PlanLimits, order: Seq<SourceRange>, n: nat)
    ensures
        match placement(mapped, limits, order, n) {
            Ok(placed) => placed.dispositions.len() == n && forall|k: int|
                0 <= k < n ==> !((#[trigger] placed.dispositions[k]) is Alias),
            Err(_) => true,
        },
    decreases n,
{
    if n > 0 {
        lemma_no_alias(mapped, limits, order, (n - 1) as nat);
    }
}

/// Plan how requested tensors of mapped shards are met.
pub fn plan_retained_storage(
    shard_mapped_lengths: &[usize],
    requests: &[&TensorDesc],
    page_size: usize,
    max_buffer_length: usize,
    required_alignment: usize,
) -> (r: Result<RetainedStoragePlan, MetalError>)
    ensures
        match planned(
            shard_mapped_lengths@,
            requests@,
            (PlanLimits { page_size, max_buffer_length, required_alignment }),
        ) {
            Ok(plan) => r is Ok && r->Ok_0@ == plan,
            Err(fault) => r is Err && r->Err_0@ == fault,
        },
{
    let limits = PlanLimits { page_size, max_buffer_length, required_alignment };
    let ghost asked = ranges(requests@);
    let ghost n = requests@.len();
    match check_limits(limits) {
        Ok(_) => {},
        Err(e) => {
            return Err(e);
        },
    }
    let sources = match find_sources(requests) {
        Ok(sources) => sources,
        Err(e) => {
            return Err(e);
        },
    };
    let ghost order = picked(asked, sources.sorted@);
    proof {
        assert(asked.take(n as int) =~= asked);
        source_ranges::lemma_ordered(asked);
        assert(order == source_ranges::ordered(asked));
        assert forall|i: int| 0 <= i < n implies (#[trigger] requests@[i]).n_bytes
            <= usize::MAX by {
            lemma_no_fault(requests@, i, n);
        }
        assert forall|k: int| 0 <= k < sources.sorted@.len() implies #[trigger] sources.sorted@[k]
            == source_ranges::source_of(asked, order[k]) by {
            source_ranges::lemma_source(asked, sources.sorted@[k] as int);
        }
        assert forall|i: int| 0 <= i < n implies #[trigger] sources.first@[i] == source_ranges::source_of(
            asked,
            asked[i],
        ) by {
            source_ranges::lemma_source(asked, i);
        }
    }
    let mut met: Vec<RetainedStorageDisposition> = Vec::new();
    let mut i: usize = 0;
    while i < requests.len()
        invariant
            i <= requests@.len(),
            sources.first@.len() == requests@.len(),
            met@.len() == i,
            forall|j: int|
                0 <= j < i ==> #[trigger] met@[j] == (RetainedStorageDisposition::Alias {
                    source_request_index: sources.first@[j],
                }),
        decreases requests@.len() - i,
    {
        met.push(RetainedStorageDisposition::Alias { source_request_index: sources.first[i] });
        i = i + 1;
    }
    let ghost aliases = met@;
    let windows = match place_sources(
        shard_mapped_lengths,
        limits,
        requests,
        &sources.sorted,
        &mut met,
    ) {
        Ok(windows) => windows,
        Err(e) => {
            proof {
                lemma_refused_at(shard_mapped_lengths@, limits, order, order.len());
            }
            return Err(e);
        },
    };
    let ghost placed = placement(shard_mapped_lengths@, limits, order, order.len())->Ok_0;
    proof {
        let all = settled(asked, order, placed);
        assert forall|j: int| 0 <= j < n implies met@[j] == all[j] by {
            source_ranges::lemma_source(asked, j);
            if source_ranges::source_of(asked, asked[j]) == j {
                assert(asked.contains(asked[j]));
                assert(order.contains(asked[j]));
                let k = order.index_of(asked[j]);
                assert(order[k] == asked[j]);
                assert(sources.sorted@[k] == source_ranges::source_of(asked, order[k]));
            } else {
                assert(!sources.sorted@.contains(j as usize)) by {
                    if sources.sorted@.contains(j as usize) {
                        let k = choose|k: int|
                            0 <= k < sources.sorted@.len() && sources.sorted@[k] == j as usize;
                        assert(sources.sorted@[k] == source_ranges::source_of(asked, order[k]));
                        assert(order[k] == asked[j]);
                    }
                }
                assert(aliases[j] == RetainedStorageDisposition::Alias {
                    source_request_index: sources.first@[j],
                });
            }
        }
        assert(met@ =~= all);
        lemma_no_alias(shard_mapped_lengths@, limits, order, order.len());
        assert forall|j: int| 0 <= j < n implies ((
        #[trigger] met@[j]) matches RetainedStorageDisposition::Alias { source_request_index }
            ==> source_request_index < n) by {
            source_ranges::lemma_source(asked, j);
            assert(met@[j] == all[j]);
            if source_ranges::source_of(asked, asked[j]) == j {
                assert(asked.contains(asked[j]));
                assert(order.contains(asked[j]));
            }
        }
    }
    account(limits, windows, requests, &met)
}

/// A refusal names one of the ranges, and speaks of the one before it only where
/// there is one.
proof fn lemma_refused_at(
    mapped: Seq<usize>,
    limits: PlanLimits,
    order: Seq<SourceRange>,
    n: nat,
)
    ensures
        match placement(mapped, limits, order, n) {
            Err((k, why)) => 0 <= k < n && (why is Overlap ==> k > 0),
            Ok(_) => true,
        },
    decreases n,
{
    if n > 0 {
        lemma_refused_at(mapped, limits, order, (n - 1) as nat);
    }
}

} // verus!
