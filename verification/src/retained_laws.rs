//! What holds of every plan for retained storage.

use vstd::arithmetic::power2::*;
use vstd::prelude::*;

use crate::error::{Datum, Fault, MetalError};
use crate::gguf_backing::{GgufBackingEligibility, GgufBackingGeometry};
use crate::pages;
use crate::retained;
use crate::retained::{
    EntryView, Placement, PlanLimits, PlanView, RetainedStorageDisposition, RetainedStorageEntry,
    RetainedStorageFallback, RetainedStoragePlan, RetainedStorageWindow, Totals,
};
use crate::source_ranges;
use crate::source_ranges::SourceRange;
use crate::tensor::TensorDesc;

verus! {

/// A window of whole pages of a shard, no longer than a buffer may be.
pub open spec fn window_sound(
    mapped: Seq<usize>,
    limits: PlanLimits,
    window: RetainedStorageWindow,
) -> bool {
    &&& window.mmap_offset as int % limits.page_size as int == 0
    &&& window.length > 0
    &&& window.length as int % limits.page_size as int == 0
    &&& window.length <= limits.usable()
    &&& window.shard_idx < mapped.len()
    &&& window.mmap_offset + window.length <= mapped[window.shard_idx as int]
}

/// A view lies whole inside a window of its shard, at an aligned place.
pub open spec fn view_sound(
    limits: PlanLimits,
    windows: Seq<RetainedStorageWindow>,
    range: SourceRange,
    window_index: usize,
    buffer_offset: u64,
) -> bool {
    let window = windows[window_index as int];
    &&& window_index < windows.len()
    &&& window.shard_idx == range.shard_idx
    &&& range.data_offset == window.mmap_offset + buffer_offset
    &&& buffer_offset as int % limits.required_alignment as int == 0
    &&& buffer_offset + range.n_bytes <= window.length
}

/// What holds of the placement of the first `n` ranges.
spec fn placed_soundly(
    mapped: Seq<usize>,
    limits: PlanLimits,
    order: Seq<SourceRange>,
    n: nat,
    placed: Placement,
) -> bool {
    &&& placed.dispositions.len() == n
    &&& placed.windows.len() <= n
    &&& forall|w: int|
        0 <= w < placed.windows.len() ==> window_sound(
            mapped,
            limits,
            #[trigger] placed.windows[w],
        )
    &&& forall|k: int|
        0 <= k < n ==> ((
        #[trigger] placed.dispositions[k]) matches RetainedStorageDisposition::View {
            window_index,
            buffer_offset,
        } ==> view_sound(limits, placed.windows, order[k], window_index, buffer_offset))
    &&& placed.windows.len() > 0 ==> n > 0 && placed.windows.last().shard_idx <= order[n
        - 1].shard_idx && (placed.windows.last().shard_idx == order[n - 1].shard_idx
        ==> placed.windows.last().mmap_offset + placed.windows.last().length <= pages::page_ceil(
        order[n - 1].end(),
        limits.page_size as int,
    ))
}

/// Rounding up keeps order and stays below a multiple of the page size.
proof fn lemma_ceil_order(a: int, b: int, page: int)
    requires
        0 <= a <= b,
        page > 0,
    ensures
        pages::page_ceil(a, page) <= pages::page_ceil(b, page),
        b % page == 0 ==> pages::page_ceil(a, page) <= b,
{
    vstd::arithmetic::div_mod::lemma_div_is_ordered(a + page - 1, b + page - 1, page);
    vstd::arithmetic::mul::lemma_mul_inequality(
        (a + page - 1) / page,
        (b + page - 1) / page,
        page,
    );
    if b % page == 0 {
        pages::lemma_page_ceil(b, page);
        let up = pages::page_ceil(b, page);
        vstd::arithmetic::div_mod::lemma_fundamental_div_mod(b, page);
        vstd::arithmetic::div_mod::lemma_fundamental_div_mod(up, page);
        let x = b / page;
        let y = up / page;
        assert(y == x) by (nonlinear_arith)
            requires
                b == page * x,
                up == page * y,
                b <= up < b + page,
                page > 0,
        ;
    }
}

/// The difference of two multiples of the page size is one.
proof fn lemma_whole_pages(a: int, b: int, page: int)
    requires
        a % page == 0,
        b % page == 0,
        page > 0,
    ensures
        (a - b) % page == 0,
{
    pages::lemma_shift(a, b, page);
}

proof fn lemma_placed_soundly(
    mapped: Seq<usize>,
    limits: PlanLimits,
    order: Seq<SourceRange>,
    n: nat,
)
    requires
        limits.fault() is None,
        source_ranges::increasing(order),
        forall|k: int| 0 <= k < order.len() ==> (#[trigger] order[k]).n_bytes > 0,
        n <= order.len() <= usize::MAX,
        retained::placement(mapped, limits, order, n) is Ok,
    ensures
        placed_soundly(
            mapped,
            limits,
            order,
            n,
            retained::placement(mapped, limits, order, n)->Ok_0,
        ),
    decreases n,
{
    reveal_with_fuel(is_pow2, 1);
    if n > 0 {
        let k = n - 1;
        let page = limits.page_size as int;
        let range = order[k];
        lemma_placed_soundly(mapped, limits, order, k as nat);
        let so_far = retained::placement(mapped, limits, order, k as nat)->Ok_0;
        let now = retained::placement(mapped, limits, order, n)->Ok_0;
        if k > 0 {
            assert(order[k - 1].before(order[k]));
        }
        if range.shard_idx < mapped.len() {
            if k > 0 && order[k - 1].shard_idx == range.shard_idx {
                lemma_ceil_order(order[k - 1].end(), range.end(), page);
            }
        }
        match retained::ruling(mapped, limits, range, retained::previous(order, k))->Ok_0 {
            Some(_) => {
                assert(now.windows == so_far.windows);
                assert forall|j: int| 0 <= j < n implies ((
                #[trigger] now.dispositions[j]) matches RetainedStorageDisposition::View {
                    window_index,
                    buffer_offset,
                } ==> view_sound(limits, now.windows, order[j], window_index, buffer_offset)) by {
                    if j < k {
                        assert(now.dispositions[j] == so_far.dispositions[j]);
                    }
                }
            },
            None => {
                lemma_holding(mapped, limits, order, k, so_far);
            },
        }
    }
}

/// Holding one more range keeps windows and views sound.
proof fn lemma_holding(
    mapped: Seq<usize>,
    limits: PlanLimits,
    order: Seq<SourceRange>,
    k: int,
    so_far: Placement,
)
    requires
        limits.fault() is None,
        source_ranges::increasing(order),
        0 <= k < order.len() <= usize::MAX,
        order[k].n_bytes > 0,
        placed_soundly(mapped, limits, order, k as nat, so_far),
        retained::ruling(mapped, limits, order[k], retained::previous(order, k)) is Ok,
        retained::ruling(mapped, limits, order[k], retained::previous(order, k))->Ok_0 is None,
    ensures
        placed_soundly(
            mapped,
            limits,
            order,
            (k + 1) as nat,
            so_far.viewed(limits, order[k]),
        ),
{
    reveal_with_fuel(is_pow2, 1);
    let page = limits.page_size as int;
    let alignment = limits.required_alignment as int;
    let range = order[k];
    let now = so_far.viewed(limits, range);
    let old_windows = so_far.windows;
    let windows = now.windows;
    let start = pages::page_floor(range.data_offset as int, page);
    let end = pages::page_ceil(range.end(), page);
    let shard_end = pages::page_floor(mapped[range.shard_idx as int] as int, page);
    pages::lemma_page_floor(range.data_offset as int, page);
    pages::lemma_page_ceil(range.end(), page);
    pages::lemma_page_floor(mapped[range.shard_idx as int] as int, page);
    lemma_ceil_order(range.end(), shard_end, page);
    lemma_whole_pages(end, start, page);
    if k > 0 {
        assert(order[k - 1].before(order[k]));
        if order[k - 1].shard_idx == range.shard_idx {
            lemma_ceil_order(order[k - 1].end(), range.end(), page);
        }
    }
    let last = windows.last();
    if so_far.reaches(limits, range) {
        let grown = old_windows.last();
        assert(window_sound(mapped, limits, old_windows[old_windows.len() - 1]));
        lemma_whole_pages(end, grown.mmap_offset as int, page);
        assert(k > 0);
        assert(order[k - 1].shard_idx == range.shard_idx);
        assert(grown.length <= last.length);
    }
    assert(window_sound(mapped, limits, last));
    assert(last.mmap_offset + last.length == end);
    assert forall|w: int| 0 <= w < windows.len() implies window_sound(
        mapped,
        limits,
        #[trigger] windows[w],
    ) by {
        if w < windows.len() - 1 {
            assert(windows[w] == old_windows[w]);
        }
    }
    pages::lemma_multiple_of_pages(last.mmap_offset as int, page, alignment);
    pages::lemma_shift(range.data_offset as int, last.mmap_offset as int, alignment);
    assert forall|j: int| 0 <= j < k + 1 implies ((
    #[trigger] now.dispositions[j]) matches RetainedStorageDisposition::View {
        window_index,
        buffer_offset,
    } ==> view_sound(limits, windows, order[j], window_index, buffer_offset)) by {
        if j < k {
            assert(now.dispositions[j] == so_far.dispositions[j]);
            if let RetainedStorageDisposition::View { window_index, buffer_offset } =
                now.dispositions[j] {
                assert(view_sound(limits, old_windows, order[j], window_index, buffer_offset));
                if window_index < windows.len() - 1 {
                    assert(windows[window_index as int] == old_windows[window_index as int]);
                }
            }
        }
    }
}

/// The range of an entry.
pub open spec fn entry_range(entry: EntryView) -> SourceRange {
    SourceRange {
        shard_idx: entry.shard_idx,
        data_offset: entry.data_offset,
        n_bytes: entry.n_bytes,
    }
}

/// What an accepted plan was made of.
proof fn lemma_plan_parts(
    mapped: Seq<usize>,
    requests: Seq<&TensorDesc>,
    limits: PlanLimits,
    plan: PlanView,
)
    requires
        requests.len() <= usize::MAX,
        retained::planned(mapped, requests, limits) == Ok::<PlanView, Fault>(plan),
    ensures
        limits.fault() is None,
        source_ranges::lists(
            source_ranges::ordered(retained::ranges(requests)),
            retained::ranges(requests),
        ),
        forall|i: int|
            0 <= i < requests.len() ==> retained::request_fault(requests, i) is None
                && (#[trigger] requests[i]).n_bytes > 0,
        ({
            let order = source_ranges::ordered(retained::ranges(requests));
            &&& forall|k: int| 0 <= k < order.len() ==> (#[trigger] order[k]).n_bytes > 0
            &&& order.len() <= requests.len()
            &&& retained::placement(mapped, limits, order, order.len()) is Ok
            &&& placed_soundly(
                mapped,
                limits,
                order,
                order.len(),
                retained::placement(mapped, limits, order, order.len())->Ok_0,
            )
        }),
{
    let asked = retained::ranges(requests);
    let order = source_ranges::ordered(asked);
    source_ranges::lemma_ordered(asked);
    source_ranges::lemma_ordered_len(asked);
    assert forall|i: int| 0 <= i < requests.len() implies retained::request_fault(requests, i)
        is None && (#[trigger] requests[i]).n_bytes > 0 by {
        retained::lemma_no_fault(requests, i, requests.len());
    }
    assert forall|k: int| 0 <= k < order.len() implies (#[trigger] order[k]).n_bytes > 0 by {
        assert(order.contains(order[k]));
        let i = choose|i: int| 0 <= i < asked.len() && asked[i] == order[k];
        assert(requests[i].n_bytes > 0);
    }
    lemma_placed_soundly(mapped, limits, order, order.len());
}

/// Every window of a plan consists of whole pages inside its shard and is no longer
/// than a buffer may be.
pub proof fn law_windows_are_sound(
    mapped: Seq<usize>,
    requests: Seq<&TensorDesc>,
    limits: PlanLimits,
    plan: PlanView,
)
    requires
        requests.len() <= usize::MAX,
        retained::planned(mapped, requests, limits) == Ok::<PlanView, Fault>(plan),
    ensures
        forall|w: int|
            0 <= w < plan.windows.len() ==> window_sound(
                mapped,
                limits,
                #[trigger] plan.windows[w],
            ),
{
    lemma_plan_parts(mapped, requests, limits, plan);
}

/// Every request has its entry, in the order of the requests. A view lies whole
/// inside its window, at an aligned place and at the bytes of its tensor. An alias
/// refers to an earlier request for the same bytes that is itself no alias.
pub proof fn law_entries_are_sound(
    mapped: Seq<usize>,
    requests: Seq<&TensorDesc>,
    limits: PlanLimits,
    plan: PlanView,
)
    requires
        requests.len() <= usize::MAX,
        retained::planned(mapped, requests, limits) == Ok::<PlanView, Fault>(plan),
    ensures
        plan.entries.len() == requests.len(),
        forall|i: int|
            0 <= i < plan.entries.len() ==> {
                let entry = #[trigger] plan.entries[i];
                &&& entry.request_index == i
                &&& entry.name == requests[i].name@
                &&& entry_range(entry) == SourceRange::of(requests[i])
                &&& match entry.disposition {
                    RetainedStorageDisposition::View {
                        window_index,
                        buffer_offset,
                    } => view_sound(
                        limits,
                        plan.windows,
                        entry_range(entry),
                        window_index,
                        buffer_offset,
                    ),
                    RetainedStorageDisposition::Alias { source_request_index } => {
                        &&& source_request_index < i
                        &&& entry_range(plan.entries[source_request_index as int]) == entry_range(
                            entry,
                        )
                        &&& !(plan.entries[source_request_index as int].disposition is Alias)
                    },
                    RetainedStorageDisposition::CopyFallback { .. } => true,
                }
            },
{
    lemma_plan_parts(mapped, requests, limits, plan);
    let asked = retained::ranges(requests);
    let order = source_ranges::ordered(asked);
    let placed = retained::placement(mapped, limits, order, order.len())->Ok_0;
    let all = retained::settled(asked, order, placed);
    retained::lemma_no_alias(mapped, limits, order, order.len());
    assert forall|i: int| 0 <= i < plan.entries.len() implies match (
    #[trigger] plan.entries[i]).disposition {
        RetainedStorageDisposition::View { window_index, buffer_offset } => view_sound(
            limits,
            plan.windows,
            entry_range(plan.entries[i]),
            window_index,
            buffer_offset,
        ),
        RetainedStorageDisposition::Alias { source_request_index } => {
            &&& source_request_index < i
            &&& entry_range(plan.entries[source_request_index as int]) == entry_range(
                plan.entries[i],
            )
            &&& !(plan.entries[source_request_index as int].disposition is Alias)
        },
        RetainedStorageDisposition::CopyFallback { .. } => true,
    } by {
        lemma_settled(asked, order, placed, i);
        let s = source_ranges::source_of(asked, asked[i]);
        source_ranges::lemma_source(asked, i);
        lemma_settled(asked, order, placed, s);
        assert(plan.entries[i].disposition == all[i]);
        assert(plan.entries[s].disposition == all[s]);
        assert(asked[i] == entry_range(plan.entries[i]));
        assert(asked[s] == entry_range(plan.entries[s]));
    }
}

/// How a request is met, by the place of its range in the order.
proof fn lemma_settled(
    asked: Seq<SourceRange>,
    order: Seq<SourceRange>,
    placed: Placement,
    i: int,
)
    requires
        0 <= i < asked.len() <= usize::MAX,
        source_ranges::lists(order, asked),
    ensures
        ({
            let k = order.index_of(asked[i]);
            let s = source_ranges::source_of(asked, asked[i]);
            let all = retained::settled(asked, order, placed);
            &&& 0 <= k < order.len()
            &&& order[k] == asked[i]
            &&& 0 <= s <= i
            &&& asked[s] == asked[i]
            &&& source_ranges::source_of(asked, asked[s]) == s
            &&& all[s] == placed.dispositions[k]
            &&& s == i ==> all[i] == placed.dispositions[k]
            &&& s < i ==> all[i] == (RetainedStorageDisposition::Alias {
                source_request_index: s as usize,
            })
        }),
{
    source_ranges::lemma_source(asked, i);
    assert(asked.contains(asked[i]));
    assert(order.contains(asked[i]));
}

/// The geometry of a planned window.
pub open spec fn window_geometry(
    mapped: Seq<usize>,
    limits: PlanLimits,
    window: RetainedStorageWindow,
) -> GgufBackingGeometry {
    GgufBackingGeometry {
        shard_idx: window.shard_idx,
        mapped_len: mapped[window.shard_idx as int],
        mmap_offset: window.mmap_offset as usize,
        exposed_len: window.length,
        page_size: limits.page_size,
        required_alignment: limits.required_alignment,
    }
}

/// A tensor that a plan views is eligible in the window that the plan gives it, and
/// stands there at the offset that the plan gives it.
pub proof fn law_planned_views_are_eligible(
    mapped: Seq<usize>,
    requests: Seq<&TensorDesc>,
    limits: PlanLimits,
    plan: PlanView,
    i: int,
)
    requires
        requests.len() <= usize::MAX,
        retained::planned(mapped, requests, limits) == Ok::<PlanView, Fault>(plan),
        0 <= i < plan.entries.len(),
        plan.entries[i].disposition is View,
    ensures
        ({
            let at = plan.entries[i].disposition->window_index;
            let geometry = window_geometry(mapped, limits, plan.windows[at as int]);
            &&& at < plan.windows.len()
            &&& geometry.wf()
            &&& geometry.eligibility(*requests[i]) == Ok::<GgufBackingEligibility, Fault>(
                GgufBackingEligibility::Eligible,
            )
            &&& requests[i].data_offset - geometry.mmap_offset
                == plan.entries[i].disposition->buffer_offset
        }),
{
    lemma_plan_parts(mapped, requests, limits, plan);
    law_windows_are_sound(mapped, requests, limits, plan);
    law_entries_are_sound(mapped, requests, limits, plan);
    let at = plan.entries[i].disposition->window_index;
    let window = plan.windows[at as int];
    assert(window_sound(mapped, limits, window));
    assert(retained::request_fault(requests, i) is None && requests[i].n_bytes > 0);
}

/// Ranges of a mapped shard that a plan accepts do not share bytes.
proof fn lemma_no_overlap(
    mapped: Seq<usize>,
    limits: PlanLimits,
    order: Seq<SourceRange>,
    n: nat,
)
    requires
        source_ranges::increasing(order),
        n <= order.len(),
        retained::placement(mapped, limits, order, n) is Ok,
    ensures
        forall|i: int, j: int|
            0 <= i < j < n && order[j].shard_idx < mapped.len() && (
            #[trigger] order[i]).shard_idx == (#[trigger] order[j]).shard_idx ==> order[i].end()
                <= order[j].data_offset,
    decreases n,
{
    if n > 0 {
        let k = n - 1;
        lemma_no_overlap(mapped, limits, order, k as nat);
        assert forall|i: int, j: int|
            0 <= i < j < n && order[j].shard_idx < mapped.len() && (
            #[trigger] order[i]).shard_idx == (
            #[trigger] order[j]).shard_idx implies order[i].end() <= order[j].data_offset by {
            if j == k && i < k - 1 {
                assert(order[i].before(order[k - 1]));
                assert(order[k - 1].before(order[k]));
            }
        }
    }
}

/// Two requests for a mapped shard either ask for the same bytes or share none.
pub proof fn law_sources_are_disjoint(
    mapped: Seq<usize>,
    requests: Seq<&TensorDesc>,
    limits: PlanLimits,
    plan: PlanView,
    i: int,
    j: int,
)
    requires
        requests.len() <= usize::MAX,
        retained::planned(mapped, requests, limits) == Ok::<PlanView, Fault>(plan),
        0 <= i < requests.len(),
        0 <= j < requests.len(),
        requests[i].shard_idx == requests[j].shard_idx,
        requests[i].shard_idx < mapped.len(),
    ensures
        ({
            let a = SourceRange::of(requests[i]);
            let b = SourceRange::of(requests[j]);
            a == b || a.end() <= b.data_offset || b.end() <= a.data_offset
        }),
{
    lemma_plan_parts(mapped, requests, limits, plan);
    let asked = retained::ranges(requests);
    let order = source_ranges::ordered(asked);
    let placed = retained::placement(mapped, limits, order, order.len())->Ok_0;
    lemma_no_overlap(mapped, limits, order, order.len());
    lemma_settled(asked, order, placed, i);
    lemma_settled(asked, order, placed, j);
    let x = order.index_of(asked[i]);
    let y = order.index_of(asked[j]);
    assert(order[x] == SourceRange::of(requests[i]));
    assert(order[y] == SourceRange::of(requests[j]));
}

/// The range at `k` is viewed in the window at `w`.
spec fn views_in(placed: Placement, k: int, w: int) -> bool {
    placed.dispositions[k] matches RetainedStorageDisposition::View { window_index, .. }
        && window_index == w
}

/// The window at `w` starts with the page in which one of the first `n` ranges
/// starts, and views it.
spec fn starts_tight(
    limits: PlanLimits,
    order: Seq<SourceRange>,
    n: nat,
    placed: Placement,
    w: int,
) -> bool {
    exists|k: int|
        0 <= k < n && #[trigger] views_in(placed, k, w) && placed.windows[w].mmap_offset
            == pages::page_floor(order[k].data_offset as int, limits.page_size as int)
}

/// The window at `w` ends with the page in which one of the first `n` ranges ends,
/// and views it.
spec fn ends_tight(
    limits: PlanLimits,
    order: Seq<SourceRange>,
    n: nat,
    placed: Placement,
    w: int,
) -> bool {
    exists|k: int|
        0 <= k < n && #[trigger] views_in(placed, k, w) && placed.windows[w].mmap_offset
            + placed.windows[w].length == pages::page_ceil(
            order[k].end(),
            limits.page_size as int,
        )
}

/// A range lies too far behind the start of a window to be held by it.
spec fn out_of_reach(
    limits: PlanLimits,
    window: RetainedStorageWindow,
    range: SourceRange,
) -> bool {
    ||| window.shard_idx < range.shard_idx
    ||| window.shard_idx == range.shard_idx && pages::page_ceil(
        range.end(),
        limits.page_size as int,
    ) - window.mmap_offset > limits.usable()
}

/// The windows of the first `n` ranges are no larger and no more than they must be.
spec fn packed(
    limits: PlanLimits,
    order: Seq<SourceRange>,
    n: nat,
    placed: Placement,
) -> bool {
    &&& forall|w: int|
        0 <= w < placed.windows.len() ==> #[trigger] starts_tight(limits, order, n, placed, w)
    &&& forall|w: int|
        0 <= w < placed.windows.len() ==> #[trigger] ends_tight(limits, order, n, placed, w)
    &&& forall|w: int, v: int, k: int|
        0 <= w < v < placed.windows.len() && 0 <= k < n && #[trigger] views_in(placed, k, v)
            ==> out_of_reach(limits, #[trigger] placed.windows[w], order[k])
}

proof fn lemma_packed(
    mapped: Seq<usize>,
    limits: PlanLimits,
    order: Seq<SourceRange>,
    n: nat,
)
    requires
        limits.fault() is None,
        source_ranges::increasing(order),
        forall|k: int| 0 <= k < order.len() ==> (#[trigger] order[k]).n_bytes > 0,
        n <= order.len() <= usize::MAX,
        retained::placement(mapped, limits, order, n) is Ok,
    ensures
        packed(limits, order, n, retained::placement(mapped, limits, order, n)->Ok_0),
    decreases n,
{
    if n > 0 {
        let k = n - 1;
        let range = order[k];
        lemma_packed(mapped, limits, order, k as nat);
        lemma_placed_soundly(mapped, limits, order, k as nat);
        let so_far = retained::placement(mapped, limits, order, k as nat)->Ok_0;
        let now = retained::placement(mapped, limits, order, n)->Ok_0;
        assert(forall|j: int| 0 <= j < k ==> now.dispositions[j] == so_far.dispositions[j]);
        match retained::ruling(mapped, limits, range, retained::previous(order, k))->Ok_0 {
            Some(_) => {
                assert(now.windows == so_far.windows);
                lemma_packed_copy(limits, order, k, so_far, now);
            },
            None => {
                lemma_no_overlap(mapped, limits, order, n);
                lemma_packed_view(mapped, limits, order, k, so_far);
            },
        }
    }
}

/// Copying one more range leaves the windows as they must be.
proof fn lemma_packed_copy(
    limits: PlanLimits,
    order: Seq<SourceRange>,
    k: int,
    so_far: Placement,
    now: Placement,
)
    requires
        0 <= k < order.len(),
        packed(limits, order, k as nat, so_far),
        now.windows == so_far.windows,
        forall|j: int| 0 <= j < k ==> now.dispositions[j] == so_far.dispositions[j],
        !(now.dispositions[k] is View),
    ensures
        packed(limits, order, (k + 1) as nat, now),
{
    let n = (k + 1) as nat;
    assert forall|w: int| 0 <= w < now.windows.len() implies #[trigger] starts_tight(
        limits,
        order,
        n,
        now,
        w,
    ) by {
        assert(starts_tight(limits, order, k as nat, so_far, w));
        let j = choose|j: int|
            0 <= j < k && #[trigger] views_in(so_far, j, w) && so_far.windows[w].mmap_offset
                == pages::page_floor(order[j].data_offset as int, limits.page_size as int);
        assert(views_in(now, j, w));
    }
    assert forall|w: int| 0 <= w < now.windows.len() implies #[trigger] ends_tight(
        limits,
        order,
        n,
        now,
        w,
    ) by {
        assert(ends_tight(limits, order, k as nat, so_far, w));
        let j = choose|j: int|
            0 <= j < k && #[trigger] views_in(so_far, j, w) && so_far.windows[w].mmap_offset
                + so_far.windows[w].length == pages::page_ceil(
                order[j].end(),
                limits.page_size as int,
            );
        assert(views_in(now, j, w));
    }
    assert forall|w: int, v: int, j: int|
        0 <= w < v < now.windows.len() && 0 <= j < n && #[trigger] views_in(
            now,
            j,
            v,
        ) implies out_of_reach(limits, #[trigger] now.windows[w], order[j]) by {
        assert(views_in(so_far, j, v));
        assert(out_of_reach(limits, so_far.windows[w], order[j]));
    }
}

/// Viewing one more range leaves the windows as they must be.
proof fn lemma_packed_view(
    mapped: Seq<usize>,
    limits: PlanLimits,
    order: Seq<SourceRange>,
    k: int,
    so_far: Placement,
)
    requires
        limits.fault() is None,
        source_ranges::increasing(order),
        0 <= k < order.len() <= usize::MAX,
        order[k].n_bytes > 0,
        placed_soundly(mapped, limits, order, k as nat, so_far),
        packed(limits, order, k as nat, so_far),
        retained::ruling(mapped, limits, order[k], retained::previous(order, k)) is Ok,
        retained::ruling(mapped, limits, order[k], retained::previous(order, k))->Ok_0 is None,
        forall|j: int|
            0 <= j < k && (#[trigger] order[j]).shard_idx == order[k].shard_idx ==> order[j].end()
                <= order[k].data_offset,
    ensures
        packed(limits, order, (k + 1) as nat, so_far.viewed(limits, order[k])),
{
    reveal_with_fuel(is_pow2, 1);
    let page = limits.page_size as int;
    let range = order[k];
    let n = (k + 1) as nat;
    let now = so_far.viewed(limits, range);
    let old_windows = so_far.windows;
    let last = now.windows.len() - 1;
    pages::lemma_page_floor(range.data_offset as int, page);
    pages::lemma_page_ceil(range.end(), page);
    lemma_holding(mapped, limits, order, k, so_far);
    assert(views_in(now, k, last));
    assert(now.windows[last].mmap_offset + now.windows[last].length == pages::page_ceil(
        range.end(),
        page,
    ));
    assert forall|w: int| 0 <= w < now.windows.len() implies #[trigger] starts_tight(
        limits,
        order,
        n,
        now,
        w,
    ) by {
        if w < old_windows.len() {
            assert(starts_tight(limits, order, k as nat, so_far, w));
            let j = choose|j: int|
                0 <= j < k && #[trigger] views_in(so_far, j, w) && old_windows[w].mmap_offset
                    == pages::page_floor(order[j].data_offset as int, page);
            assert(now.dispositions[j] == so_far.dispositions[j]);
            assert(views_in(now, j, w));
        } else {
            assert(views_in(now, k, w));
        }
    }
    assert forall|w: int| 0 <= w < now.windows.len() implies #[trigger] ends_tight(
        limits,
        order,
        n,
        now,
        w,
    ) by {
        if w < last {
            assert(ends_tight(limits, order, k as nat, so_far, w));
            let j = choose|j: int|
                0 <= j < k && #[trigger] views_in(so_far, j, w) && old_windows[w].mmap_offset
                    + old_windows[w].length == pages::page_ceil(order[j].end(), page);
            assert(now.dispositions[j] == so_far.dispositions[j]);
            assert(views_in(now, j, w));
        }
    }
    assert forall|w: int, v: int, j: int|
        0 <= w < v < now.windows.len() && 0 <= j < n && #[trigger] views_in(
            now,
            j,
            v,
        ) implies out_of_reach(limits, #[trigger] now.windows[w], order[j]) by {
        assert(now.windows[w] == old_windows[w]);
        if j < k {
            assert(views_in(so_far, j, v));
        } else {
            lemma_beyond(mapped, limits, order, k, so_far, w);
        }
    }
}

/// A range that is viewed in the window after the one at `w` or in a later one is out
/// of its reach.
proof fn lemma_beyond(
    mapped: Seq<usize>,
    limits: PlanLimits,
    order: Seq<SourceRange>,
    k: int,
    so_far: Placement,
    w: int,
)
    requires
        limits.fault() is None,
        source_ranges::increasing(order),
        0 <= k < order.len() <= usize::MAX,
        placed_soundly(mapped, limits, order, k as nat, so_far),
        packed(limits, order, k as nat, so_far),
        forall|j: int|
            0 <= j < k && (#[trigger] order[j]).shard_idx == order[k].shard_idx ==> order[j].end()
                <= order[k].data_offset,
        0 <= w < so_far.holding(limits, order[k]).len() - 1,
    ensures
        out_of_reach(limits, so_far.windows[w], order[k]),
{
    reveal_with_fuel(is_pow2, 1);
    let page = limits.page_size as int;
    let range = order[k];
    let windows = so_far.windows;
    let last = windows.len() - 1;
    assert(starts_tight(limits, order, k as nat, so_far, last));
    let j = choose|j: int|
        0 <= j < k && #[trigger] views_in(so_far, j, last) && windows[last].mmap_offset
            == pages::page_floor(order[j].data_offset as int, page);
    assert(view_sound(
        limits,
        windows,
        order[j],
        last as usize,
        so_far.dispositions[j]->buffer_offset,
    ));
    assert(order[j].before(range));
    pages::lemma_page_floor(order[j].data_offset as int, page);
    if order[j].shard_idx == range.shard_idx {
        lemma_ceil_order(order[j].end(), range.end(), page);
    }
    if w < last {
        assert(out_of_reach(limits, windows[w], order[j]));
    }
}

/// The windows of an accepted plan are as they must be.
proof fn lemma_plan_packed(
    mapped: Seq<usize>,
    requests: Seq<&TensorDesc>,
    limits: PlanLimits,
    plan: PlanView,
)
    requires
        requests.len() <= usize::MAX,
        retained::planned(mapped, requests, limits) == Ok::<PlanView, Fault>(plan),
    ensures
        ({
            let order = source_ranges::ordered(retained::ranges(requests));
            let placed = retained::placement(mapped, limits, order, order.len())->Ok_0;
            &&& plan.windows == placed.windows
            &&& packed(limits, order, order.len(), placed)
        }),
{
    lemma_plan_parts(mapped, requests, limits, plan);
    let order = source_ranges::ordered(retained::ranges(requests));
    lemma_packed(mapped, limits, order, order.len());
}

/// The windows of a plan stand in strictly increasing order of shard and offset.
pub proof fn law_windows_increase(
    mapped: Seq<usize>,
    requests: Seq<&TensorDesc>,
    limits: PlanLimits,
    plan: PlanView,
)
    requires
        requests.len() <= usize::MAX,
        retained::planned(mapped, requests, limits) == Ok::<PlanView, Fault>(plan),
    ensures
        forall|w: int, v: int|
            0 <= w < v < plan.windows.len() ==> {
                let a = #[trigger] plan.windows[w];
                let b = #[trigger] plan.windows[v];
                a.shard_idx < b.shard_idx || a.shard_idx == b.shard_idx && a.mmap_offset
                    < b.mmap_offset
            },
{
    lemma_plan_parts(mapped, requests, limits, plan);
    lemma_plan_packed(mapped, requests, limits, plan);
    let page = limits.page_size as int;
    let order = source_ranges::ordered(retained::ranges(requests));
    let placed = retained::placement(mapped, limits, order, order.len())->Ok_0;
    assert forall|w: int, v: int| 0 <= w < v < plan.windows.len() implies {
        let a = #[trigger] plan.windows[w];
        let b = #[trigger] plan.windows[v];
        a.shard_idx < b.shard_idx || a.shard_idx == b.shard_idx && a.mmap_offset < b.mmap_offset
    } by {
        let a = plan.windows[w];
        let b = plan.windows[v];
        assert(ends_tight(limits, order, order.len(), placed, v));
        let k = choose|k: int|
            0 <= k < order.len() && #[trigger] views_in(placed, k, v)
                && placed.windows[v].mmap_offset + placed.windows[v].length == pages::page_ceil(
                order[k].end(),
                page,
            );
        assert(out_of_reach(limits, placed.windows[w], order[k]));
        assert(view_sound(
            limits,
            placed.windows,
            order[k],
            v as usize,
            placed.dispositions[k]->buffer_offset,
        ));
        assert(window_sound(mapped, limits, placed.windows[v]));
    }
}

/// The entry at `i` is viewed in the window at `w`.
pub open spec fn viewed_in(plan: PlanView, i: int, w: int) -> bool {
    plan.entries[i].disposition matches RetainedStorageDisposition::View { window_index, .. }
        && window_index == w
}

/// The request whose entry shows how the range at `k` is met.
proof fn lemma_viewed_in(
    mapped: Seq<usize>,
    requests: Seq<&TensorDesc>,
    limits: PlanLimits,
    plan: PlanView,
    k: int,
    w: int,
) -> (i: int)
    requires
        requests.len() <= usize::MAX,
        retained::planned(mapped, requests, limits) == Ok::<PlanView, Fault>(plan),
        ({
            let order = source_ranges::ordered(retained::ranges(requests));
            &&& 0 <= k < order.len()
            &&& views_in(retained::placement(mapped, limits, order, order.len())->Ok_0, k, w)
        }),
    ensures
        0 <= i < plan.entries.len(),
        viewed_in(plan, i, w),
        entry_range(plan.entries[i]) == source_ranges::ordered(retained::ranges(requests))[k],
{
    lemma_plan_parts(mapped, requests, limits, plan);
    let asked = retained::ranges(requests);
    let order = source_ranges::ordered(asked);
    let placed = retained::placement(mapped, limits, order, order.len())->Ok_0;
    assert(order.contains(order[k]));
    let at = choose|at: int| 0 <= at < asked.len() && asked[at] == order[k];
    lemma_settled(asked, order, placed, at);
    let x = order.index_of(order[k]);
    if x != k {
        assert(order[x].before(order[k]) || order[k].before(order[x]));
    }
    let i = source_ranges::source_of(asked, order[k]);
    assert(asked[i] == entry_range(plan.entries[i]));
    assert(plan.entries[i].disposition == retained::settled(asked, order, placed)[i]);
    i
}

/// The first page of a window holds the first byte of a tensor that is viewed in it,
/// and its last page the last byte of one.
pub proof fn law_windows_are_tight(
    mapped: Seq<usize>,
    requests: Seq<&TensorDesc>,
    limits: PlanLimits,
    plan: PlanView,
    w: int,
)
    requires
        requests.len() <= usize::MAX,
        retained::planned(mapped, requests, limits) == Ok::<PlanView, Fault>(plan),
        0 <= w < plan.windows.len(),
    ensures
        exists|i: int|
            0 <= i < plan.entries.len() && #[trigger] viewed_in(plan, i, w)
                && plan.windows[w].mmap_offset <= plan.entries[i].data_offset
                < plan.windows[w].mmap_offset + limits.page_size,
        exists|i: int|
            0 <= i < plan.entries.len() && #[trigger] viewed_in(plan, i, w)
                && plan.windows[w].mmap_offset + plan.windows[w].length - limits.page_size
                < entry_range(plan.entries[i]).end() <= plan.windows[w].mmap_offset
                + plan.windows[w].length,
{
    reveal_with_fuel(is_pow2, 1);
    lemma_plan_parts(mapped, requests, limits, plan);
    lemma_plan_packed(mapped, requests, limits, plan);
    let page = limits.page_size as int;
    let order = source_ranges::ordered(retained::ranges(requests));
    let placed = retained::placement(mapped, limits, order, order.len())->Ok_0;
    assert(starts_tight(limits, order, order.len(), placed, w));
    assert(ends_tight(limits, order, order.len(), placed, w));
    let opening = choose|k: int|
        0 <= k < order.len() && #[trigger] views_in(placed, k, w) && placed.windows[w].mmap_offset
            == pages::page_floor(order[k].data_offset as int, page);
    let closing = choose|k: int|
        0 <= k < order.len() && #[trigger] views_in(placed, k, w) && placed.windows[w].mmap_offset
            + placed.windows[w].length == pages::page_ceil(order[k].end(), page);
    pages::lemma_page_floor(order[opening].data_offset as int, page);
    pages::lemma_page_ceil(order[closing].end(), page);
    let i = lemma_viewed_in(mapped, requests, limits, plan, opening, w);
    let j = lemma_viewed_in(mapped, requests, limits, plan, closing, w);
    assert(viewed_in(plan, i, w) && viewed_in(plan, j, w));
}

/// A window holds a range.
pub open spec fn holds(window: RetainedStorageWindow, range: SourceRange) -> bool {
    &&& window.shard_idx == range.shard_idx
    &&& window.mmap_offset <= range.data_offset
    &&& range.end() <= window.mmap_offset + window.length
}

/// One of some windows holds a range.
pub open spec fn held(windows: Seq<RetainedStorageWindow>, range: SourceRange) -> bool {
    exists|w: int| 0 <= w < windows.len() && #[trigger] holds(windows[w], range)
}

/// A plan has as few windows as can be: any windows that start at a page, are no
/// longer than a buffer may be and hold every tensor that the plan views are at least
/// as many.
pub proof fn law_windows_are_fewest(
    mapped: Seq<usize>,
    requests: Seq<&TensorDesc>,
    limits: PlanLimits,
    plan: PlanView,
    others: Seq<RetainedStorageWindow>,
)
    requires
        requests.len() <= usize::MAX,
        retained::planned(mapped, requests, limits) == Ok::<PlanView, Fault>(plan),
        forall|w: int|
            0 <= w < others.len() ==> (#[trigger] others[w]).mmap_offset as int
                % limits.page_size as int == 0 && others[w].length <= limits.usable(),
        forall|i: int|
            0 <= i < plan.entries.len() && (#[trigger] plan.entries[i]).disposition is View
                ==> held(others, entry_range(plan.entries[i])),
    ensures
        plan.windows.len() <= others.len(),
{
    reveal_with_fuel(is_pow2, 1);
    lemma_plan_parts(mapped, requests, limits, plan);
    lemma_plan_packed(mapped, requests, limits, plan);
    let page = limits.page_size as int;
    let order = source_ranges::ordered(retained::ranges(requests));
    let placed = retained::placement(mapped, limits, order, order.len())->Ok_0;
    let opener = |w: int|
        choose|k: int|
            0 <= k < order.len() && #[trigger] views_in(placed, k, w)
                && placed.windows[w].mmap_offset == pages::page_floor(
                order[k].data_offset as int,
                page,
            );
    let holder = |w: int|
        choose|o: int| 0 <= o < others.len() && #[trigger] holds(others[o], order[opener(w)]);
    assert forall|w: int| 0 <= w < plan.windows.len() implies 0 <= #[trigger] holder(w)
        < others.len() && holds(others[holder(w)], order[opener(w)]) && 0 <= opener(w)
        < order.len() && views_in(placed, opener(w), w) && placed.windows[w].mmap_offset
        == pages::page_floor(order[opener(w)].data_offset as int, page) by {
        assert(starts_tight(limits, order, order.len(), placed, w));
        let i = lemma_viewed_in(mapped, requests, limits, plan, opener(w), w);
        assert(held(others, entry_range(plan.entries[i])));
    }
    let chosen = Seq::new(plan.windows.len(), holder);
    assert forall|w: int, v: int| 0 <= w < v < chosen.len() implies chosen[w] != chosen[v] by {
        if holder(w) == holder(v) {
            let other = others[holder(w)];
            let a = order[opener(w)];
            let b = order[opener(v)];
            assert(views_in(placed, opener(v), v));
            assert(out_of_reach(limits, placed.windows[w], b));
            assert(view_sound(
                limits,
                placed.windows,
                a,
                w as usize,
                placed.dispositions[opener(w)]->buffer_offset,
            ));
            lemma_same_holder(limits, other, placed.windows[w], a, b);
        }
    }
    assert forall|w: int, v: int|
        0 <= w < chosen.len() && 0 <= v < chosen.len() && w != v implies chosen[w] != chosen[v] by {
        if v < w {
            assert(chosen[v] != chosen[w]);
        }
    }
    let all = vstd::set_lib::set_int_range(0, others.len() as int);
    chosen.unique_seq_to_set();
    vstd::set_lib::lemma_int_range(0, others.len() as int);
    assert(chosen.to_set().subset_of(all)) by {
        assert forall|o: int| chosen.to_set().contains(o) implies all.contains(o) by {
            let w = choose|w: int| 0 <= w < chosen.len() && chosen[w] == o;
            assert(holder(w) == o);
        }
    }
    vstd::set_lib::lemma_len_subset(chosen.to_set(), all);
}

/// A window that holds the range with which another one starts reaches no further
/// than that one could.
proof fn lemma_same_holder(
    limits: PlanLimits,
    other: RetainedStorageWindow,
    window: RetainedStorageWindow,
    a: SourceRange,
    b: SourceRange,
)
    requires
        limits.fault() is None,
        other.mmap_offset as int % limits.page_size as int == 0,
        other.length <= limits.usable(),
        holds(other, a),
        holds(other, b),
        window.shard_idx == a.shard_idx,
        window.mmap_offset == pages::page_floor(
            a.data_offset as int,
            limits.page_size as int,
        ),
    ensures
        !out_of_reach(limits, window, b),
{
    reveal_with_fuel(is_pow2, 1);
    let page = limits.page_size as int;
    let start = other.mmap_offset as int;
    let reach = start + limits.usable();
    vstd::arithmetic::div_mod::lemma_div_is_ordered(start, a.data_offset as int, page);
    vstd::arithmetic::mul::lemma_mul_inequality(
        start / page,
        a.data_offset as int / page,
        page,
    );
    vstd::arithmetic::div_mod::lemma_fundamental_div_mod(start, page);
    vstd::arithmetic::mul::lemma_mul_is_commutative(page, start / page);
    assert(start <= window.mmap_offset);
    pages::lemma_page_floor(limits.max_buffer_length as int, page);
    pages::lemma_shift(reach, start, page);
    lemma_ceil_order(b.end(), reach, page);
}

/// The sum of what `f` gives of each element.
pub open spec fn sum<A>(s: Seq<A>, f: spec_fn(A) -> int) -> int
    decreases s.len(),
{
    if s.len() == 0 {
        0
    } else {
        sum(s.drop_last(), f) + f(s.last())
    }
}

proof fn lemma_sum_remove<A>(s: Seq<A>, f: spec_fn(A) -> int, at: int)
    requires
        0 <= at < s.len(),
    ensures
        sum(s, f) == sum(s.remove(at), f) + f(s[at]),
    decreases s.len(),
{
    if at == s.len() - 1 {
        assert(s.remove(at) =~= s.drop_last());
    } else {
        lemma_sum_remove(s.drop_last(), f, at);
        assert(s.remove(at).drop_last() =~= s.drop_last().remove(at));
        assert(s.remove(at).last() == s.last());
    }
}

/// A sum does not depend on the order.
proof fn lemma_sum_permuted<A>(a: Seq<A>, b: Seq<A>, f: spec_fn(A) -> int)
    requires
        a.to_multiset() == b.to_multiset(),
    ensures
        sum(a, f) == sum(b, f),
    decreases a.len(),
{
    a.to_multiset_ensures();
    b.to_multiset_ensures();
    if a.len() > 0 {
        let last = a.len() - 1;
        assert(a.contains(a[last]));
        assert(b.to_multiset().count(a[last]) > 0);
        assert(b.contains(a[last]));
        let at = choose|at: int| 0 <= at < b.len() && b[at] == a[last];
        vstd::seq_lib::to_multiset_remove(a, last);
        vstd::seq_lib::to_multiset_remove(b, at);
        lemma_sum_permuted(a.remove(last), b.remove(at), f);
        lemma_sum_remove(a, f, last);
        lemma_sum_remove(b, f, at);
    }
}

proof fn lemma_sum_push<A>(s: Seq<A>, f: spec_fn(A) -> int, a: A)
    ensures
        sum(s.push(a), f) == sum(s, f) + f(a),
{
    assert(s.push(a).drop_last() =~= s);
}

proof fn lemma_sum_insert<A>(s: Seq<A>, f: spec_fn(A) -> int, at: int, a: A)
    requires
        0 <= at <= s.len(),
    ensures
        sum(s.insert(at, a), f) == sum(s, f) + f(a),
{
    vstd::seq_lib::to_multiset_insert(s, at, a);
    vstd::seq_lib::to_multiset_build(s, a);
    lemma_sum_permuted(s.insert(at, a), s.push(a), f);
    lemma_sum_push(s, f, a);
}

/// Whether a placement views a range.
spec fn is_viewed(order: Seq<SourceRange>, placed: Placement, range: SourceRange) -> bool {
    placed.dispositions[order.index_of(range)] is View
}

spec fn bytes_if(order: Seq<SourceRange>, placed: Placement, viewed: bool) -> spec_fn(
    SourceRange,
) -> int {
    |range: SourceRange|
        if is_viewed(order, placed, range) == viewed {
            range.n_bytes as int
        } else {
            0
        }
}

/// The totals as sums over the ranges: over each once, and over all requests.
spec fn summed(
    asked: Seq<SourceRange>,
    order: Seq<SourceRange>,
    placed: Placement,
    n: int,
) -> Totals {
    let listed = source_ranges::ordered(asked.take(n));
    let unique_view = sum(listed, bytes_if(order, placed, true));
    let unique_fallback = sum(listed, bytes_if(order, placed, false));
    Totals {
        unique_view,
        logical_view: sum(asked.take(n), bytes_if(order, placed, true)),
        unique_fallback,
        alias: sum(asked.take(n), |range: SourceRange| range.n_bytes as int) - unique_view
            - unique_fallback,
    }
}

proof fn lemma_tally_is_summed(
    asked: Seq<SourceRange>,
    order: Seq<SourceRange>,
    placed: Placement,
    n: nat,
)
    requires
        n <= asked.len() <= usize::MAX,
        source_ranges::lists(order, asked),
        placed.dispositions.len() == order.len(),
        forall|k: int|
            0 <= k < order.len() ==> !((#[trigger] placed.dispositions[k]) is Alias),
    ensures
        retained::tally(asked, retained::settled(asked, order, placed), n) == summed(
            asked,
            order,
            placed,
            n as int,
        ),
    decreases n,
{
    let all = retained::settled(asked, order, placed);
    let bytes = |range: SourceRange| range.n_bytes as int;
    let shared = bytes_if(order, placed, true);
    let copied = bytes_if(order, placed, false);
    if n == 0 {
        let none = asked.take(0);
        source_ranges::lemma_ordered_len(none);
        assert(summed(asked, order, placed, 0) == Totals::zero());
    } else {
        let i = n - 1;
        let before = asked.take(i);
        let range = asked[i];
        lemma_tally_is_summed(asked, order, placed, i as nat);
        lemma_settled(asked, order, placed, i);
        source_ranges::lemma_source(asked, i);
        let s = source_ranges::source_of(asked, range);
        assert(asked.take(n as int) =~= before.push(range));
        lemma_sum_push(before, bytes, range);
        lemma_sum_push(before, shared, range);
        source_ranges::lemma_ordered_push(before, range);
        let listed = source_ranges::ordered(before);
        if s < i {
            assert(before[s] == range);
            assert(before.contains(range));
        } else {
            assert(!before.contains(range)) by {
                if before.contains(range) {
                    let j = choose|j: int| 0 <= j < before.len() && before[j] == range;
                    assert(asked[j] == range);
                }
            }
            let at = choose|at: int|
                0 <= at <= listed.len() && source_ranges::ordered(before.push(range))
                    == #[trigger] listed.insert(at, range);
            lemma_sum_insert(listed, shared, at, range);
            lemma_sum_insert(listed, copied, at, range);
        }
        assert(retained::tally(asked, all, n) == retained::tally(asked, all, i as nat).counting(
            range.n_bytes as int,
            all[i],
            all,
        ));
    }
}

/// Totals only grow, so the last ones decide whether any was too large.
proof fn lemma_last_totals_decide(
    asked: Seq<SourceRange>,
    all: Seq<RetainedStorageDisposition>,
    n: nat,
)
    ensures
        retained::tally_fault(asked, all, n) is None <==> retained::tally(
            asked,
            all,
            n,
        ).fault() is None,
    decreases n,
{
    if n > 0 {
        lemma_last_totals_decide(asked, all, (n - 1) as nat);
    }
}

/// How views, copies and aliases of the first `n` requests relate.
proof fn lemma_tally_adds_up(
    asked: Seq<SourceRange>,
    all: Seq<RetainedStorageDisposition>,
    n: nat,
)
    requires
        n <= asked.len(),
    ensures
        ({
            let totals = retained::tally(asked, all, n);
            &&& totals.unique_view + totals.unique_fallback + totals.alias == sum(
                asked.take(n as int),
                |range: SourceRange| range.n_bytes as int,
            )
            &&& totals.unique_view <= totals.logical_view <= totals.unique_view + totals.alias
        }),
    decreases n,
{
    let bytes = |range: SourceRange| range.n_bytes as int;
    if n > 0 {
        lemma_tally_adds_up(asked, all, (n - 1) as nat);
        assert(asked.take(n as int) =~= asked.take(n - 1).push(asked[n - 1]));
        lemma_sum_push(asked.take(n - 1), bytes, asked[n - 1]);
    }
}

/// Views, copies and aliases account for every requested byte once, and the bytes
/// that requests see through views are those of the views and of some aliases.
pub proof fn law_bytes_add_up(
    mapped: Seq<usize>,
    requests: Seq<&TensorDesc>,
    limits: PlanLimits,
    plan: PlanView,
)
    requires
        retained::planned(mapped, requests, limits) == Ok::<PlanView, Fault>(plan),
    ensures
        plan.totals.unique_view + plan.totals.unique_fallback + plan.totals.alias == sum(
            retained::ranges(requests),
            |range: SourceRange| range.n_bytes as int,
        ),
        plan.totals.unique_view <= plan.totals.logical_view <= plan.totals.unique_view
            + plan.totals.alias,
{
    let asked = retained::ranges(requests);
    let order = source_ranges::ordered(asked);
    let placed = retained::placement(mapped, limits, order, order.len())->Ok_0;
    lemma_tally_adds_up(asked, retained::settled(asked, order, placed), asked.len());
    assert(asked.take(asked.len() as int) =~= asked);
}

/// The ranges of permuted requests are the permuted ranges.
proof fn lemma_ranges_permuted(a: Seq<&TensorDesc>, b: Seq<&TensorDesc>)
    requires
        a.to_multiset() == b.to_multiset(),
    ensures
        retained::ranges(a).to_multiset() == retained::ranges(b).to_multiset(),
    decreases a.len(),
{
    let x = retained::ranges(a);
    let y = retained::ranges(b);
    a.to_multiset_ensures();
    b.to_multiset_ensures();
    if a.len() == 0 {
        assert(x =~= y);
    } else {
        let last = a.len() - 1;
        assert(a.contains(a[last]));
        assert(b.to_multiset().count(a[last]) > 0);
        assert(b.contains(a[last]));
        let at = choose|at: int| 0 <= at < b.len() && b[at] == a[last];
        vstd::seq_lib::to_multiset_remove(a, last);
        vstd::seq_lib::to_multiset_remove(b, at);
        lemma_ranges_permuted(a.remove(last), b.remove(at));
        assert(retained::ranges(a.remove(last)) =~= x.remove(last));
        assert(retained::ranges(b.remove(at)) =~= y.remove(at));
        let range = x[last];
        assert(x.remove(last).insert(last, range) =~= x);
        assert(y.remove(at).insert(at, range) =~= y);
        vstd::seq_lib::to_multiset_insert(x.remove(last), last, range);
        vstd::seq_lib::to_multiset_insert(y.remove(at), at, range);
    }
}

/// Permuted requests are faultless together.
proof fn lemma_faultless_permuted(a: Seq<&TensorDesc>, b: Seq<&TensorDesc>, n: nat)
    requires
        a.to_multiset() == b.to_multiset(),
        forall|i: int|
            0 <= i < a.len() ==> retained::request_fault(a, i) is None && (
            #[trigger] a[i]).n_bytes > 0,
        n <= b.len(),
    ensures
        retained::requests_fault(b, n) is None,
    decreases n,
{
    if n > 0 {
        let j = n - 1;
        lemma_faultless_permuted(a, b, j as nat);
        let x = retained::ranges(a);
        let y = retained::ranges(b);
        source_ranges::lemma_source(y, j);
        let t = source_ranges::source_of(y, y[j]);
        a.to_multiset_ensures();
        b.to_multiset_ensures();
        assert(b.contains(b[j]));
        assert(a.to_multiset().count(b[j]) > 0);
        let i = choose|i: int| 0 <= i < a.len() && a[i] == b[j];
        assert(b.contains(b[t]));
        assert(a.to_multiset().count(b[t]) > 0);
        let s = choose|s: int| 0 <= s < a.len() && a[s] == b[t];
        assert(retained::request_fault(a, i) is None && a[i].n_bytes > 0);
        assert(retained::request_fault(a, s) is None && a[s].n_bytes > 0);
        assert(x[i] == y[j] && x[s] == y[t]);
        assert(retained::request_fault(b, j) is None);
    }
}

/// The order of the requests does not matter: permuted requests are accepted
/// together, with the same windows and the same totals, and a range is met in the
/// same way wherever it is first asked for.
pub proof fn law_order_does_not_matter(
    mapped: Seq<usize>,
    a: Seq<&TensorDesc>,
    b: Seq<&TensorDesc>,
    limits: PlanLimits,
    plan: PlanView,
)
    requires
        a.len() <= usize::MAX,
        a.to_multiset() == b.to_multiset(),
        retained::planned(mapped, a, limits) == Ok::<PlanView, Fault>(plan),
    ensures
        retained::planned(mapped, b, limits) is Ok,
        ({
            let other = retained::planned(mapped, b, limits)->Ok_0;
            &&& other.limits == plan.limits
            &&& other.usable_window_length == plan.usable_window_length
            &&& other.windows == plan.windows
            &&& other.totals == plan.totals
            &&& other.entries.len() == plan.entries.len()
            &&& forall|i: int, j: int|
                0 <= i < plan.entries.len() && 0 <= j < other.entries.len() && entry_range(
                    #[trigger] plan.entries[i],
                ) == entry_range(#[trigger] other.entries[j]) && !(
                plan.entries[i].disposition is Alias) && !(
                other.entries[j].disposition is Alias) ==> plan.entries[i].disposition
                    == other.entries[j].disposition
        }),
{
    lemma_plan_parts(mapped, a, limits, plan);
    a.to_multiset_ensures();
    b.to_multiset_ensures();
    let x = retained::ranges(a);
    let y = retained::ranges(b);
    lemma_ranges_permuted(a, b);
    x.to_multiset_ensures();
    y.to_multiset_ensures();
    let order = source_ranges::ordered(x);
    source_ranges::lemma_ordered(y);
    assert(source_ranges::lists(order, y)) by {
        assert forall|range: SourceRange| #[trigger] order.contains(range) <==> y.contains(
            range,
        ) by {
            assert(x.contains(range) <==> x.to_multiset().count(range) > 0);
            assert(y.contains(range) <==> y.to_multiset().count(range) > 0);
        }
    }
    assert(source_ranges::ordered(y) == order);
    lemma_faultless_permuted(a, b, b.len());
    let placed = retained::placement(mapped, limits, order, order.len())->Ok_0;
    retained::lemma_no_alias(mapped, limits, order, order.len());
    let left = retained::settled(x, order, placed);
    let right = retained::settled(y, order, placed);
    lemma_tally_is_summed(x, order, placed, x.len());
    lemma_tally_is_summed(y, order, placed, y.len());
    assert(x.take(x.len() as int) =~= x);
    assert(y.take(y.len() as int) =~= y);
    lemma_sum_permuted(x, y, bytes_if(order, placed, true));
    lemma_sum_permuted(x, y, |range: SourceRange| range.n_bytes as int);
    assert(retained::tally(x, left, x.len()) == retained::tally(y, right, y.len()));
    lemma_last_totals_decide(x, left, x.len());
    lemma_last_totals_decide(y, right, y.len());
    let other = retained::planned(mapped, b, limits)->Ok_0;
    assert forall|i: int, j: int|
        0 <= i < plan.entries.len() && 0 <= j < other.entries.len() && entry_range(
            #[trigger] plan.entries[i],
        ) == entry_range(#[trigger] other.entries[j]) && !(plan.entries[i].disposition is Alias)
            && !(
        other.entries[j].disposition is Alias) implies plan.entries[i].disposition
        == other.entries[j].disposition by {
        lemma_settled(x, order, placed, i);
        lemma_settled(y, order, placed, j);
        assert(x[i] == y[j]);
        assert(plan.entries[i].disposition == left[i]);
        assert(other.entries[j].disposition == right[j]);
    }
}

/// The largest multiple of the page size that is no larger than `value`.
pub open spec fn down_to_page(value: int, page: int) -> int {
    value - value % page
}

/// The smallest multiple of the page size that is no smaller than `value`.
pub open spec fn up_to_page(value: int, page: int) -> int {
    (value + page - 1) - (value + page - 1) % page
}

/// The bytes of the whole pages that hold a tensor.
pub open spec fn covering(desc: TensorDesc, page: int) -> int {
    up_to_page(desc.data_offset + desc.n_bytes, page) - down_to_page(desc.data_offset as int, page)
}

/// The tensor lies in a shard that is mapped.
pub open spec fn in_mapped_shard(mapped: Seq<usize>, desc: TensorDesc) -> bool {
    desc.shard_idx < mapped.len()
}

/// Two tensors are the same bytes of the files.
pub open spec fn same_bytes(a: TensorDesc, b: TensorDesc) -> bool {
    a.shard_idx == b.shard_idx && a.data_offset == b.data_offset && a.n_bytes == b.n_bytes
}

/// A tensor can be used in place: its shard is mapped, it starts at a multiple of the
/// alignment, it ends with the shard's last whole page at the latest, and its pages are
/// no longer than a window can be.
pub open spec fn usable_in_place(
    mapped: Seq<usize>,
    desc: TensorDesc,
    page: int,
    longest: int,
    alignment: int,
) -> bool {
    &&& in_mapped_shard(mapped, desc)
    &&& desc.data_offset as int % alignment == 0
    &&& desc.data_offset + desc.n_bytes <= down_to_page(mapped[desc.shard_idx as int] as int, page)
    &&& covering(desc, page) <= down_to_page(longest, page)
}

/// The reason for which a tensor is copied holds of it.
pub open spec fn is_cause(
    reason: RetainedStorageFallback,
    mapped: Seq<usize>,
    desc: TensorDesc,
    page: int,
    longest: int,
    alignment: int,
) -> bool {
    let end = desc.data_offset + desc.n_bytes;
    let length = mapped[desc.shard_idx as int] as int;
    let aligned = desc.data_offset as int % alignment == 0;
    let short = covering(desc, page) <= down_to_page(longest, page);
    match reason {
        RetainedStorageFallback::MissingShard => !in_mapped_shard(mapped, desc),
        RetainedStorageFallback::BindingMisalignment => in_mapped_shard(mapped, desc) && !aligned,
        RetainedStorageFallback::OutsideShard => in_mapped_shard(mapped, desc) && aligned && end
            > length,
        RetainedStorageFallback::TensorExceedsWindow => in_mapped_shard(mapped, desc) && aligned
            && end <= length && !short,
        RetainedStorageFallback::FinalPartialPage => in_mapped_shard(mapped, desc) && aligned
            && short && down_to_page(length, page) < end <= length,
    }
}

/// Rounding to pages by remainders.
proof fn lemma_by_remainder(value: int, page: int)
    requires
        page > 0,
    ensures
        pages::page_floor(value, page) == down_to_page(value, page),
        pages::page_ceil(value, page) == up_to_page(value, page),
        down_to_page(value, page) <= value,
{
    vstd::arithmetic::div_mod::lemma_fundamental_div_mod(value, page);
    vstd::arithmetic::mul::lemma_mul_is_commutative(page, value / page);
    vstd::arithmetic::div_mod::lemma_mod_bound(value, page);
    let up = value + page - 1;
    vstd::arithmetic::div_mod::lemma_fundamental_div_mod(up, page);
    vstd::arithmetic::mul::lemma_mul_is_commutative(page, up / page);
}

/// How the range at `k` was ruled.
proof fn lemma_ruled(
    mapped: Seq<usize>,
    limits: PlanLimits,
    order: Seq<SourceRange>,
    n: nat,
    k: int,
)
    requires
        retained::placement(mapped, limits, order, n) is Ok,
        0 <= k < n <= order.len(),
    ensures
        ({
            let placed = retained::placement(mapped, limits, order, n)->Ok_0;
            let ruled = retained::ruling(mapped, limits, order[k], retained::previous(order, k));
            &&& placed.dispositions.len() == n
            &&& ruled is Ok
            &&& match ruled->Ok_0 {
                Some(reason) => placed.dispositions[k]
                    == (RetainedStorageDisposition::CopyFallback { reason }),
                None => placed.dispositions[k] is View,
            }
        }),
    decreases n,
{
    retained::lemma_no_alias(mapped, limits, order, n);
    retained::lemma_no_alias(mapped, limits, order, (n - 1) as nat);
    if k < n - 1 {
        lemma_ruled(mapped, limits, order, (n - 1) as nat, k);
    }
}

/// A request that repeats an earlier one's bytes shares them, and refers to the first
/// request for them. Of the others, those that can be used in place are viewed, and no
/// tensor is copied without a cause: each copy says the one reason that holds of it.
pub proof fn law_copies_have_a_cause(
    mapped: &[usize],
    requests: &[&TensorDesc],
    page_size: usize,
    max_buffer_length: usize,
    required_alignment: usize,
    plan: RetainedStoragePlan,
    i: int,
)
    requires
        requests@.len() <= usize::MAX,
        call_ensures(
            retained::plan_retained_storage,
            (mapped, requests, page_size, max_buffer_length, required_alignment),
            Ok(plan),
        ),
        0 <= i < requests@.len(),
    ensures
        ({
            let desc = *requests@[i];
            let repeats = exists|j: int| 0 <= j < i && same_bytes(*#[trigger] requests@[j], desc);
            let page = page_size as int;
            let longest = max_buffer_length as int;
            let alignment = required_alignment as int;
            let entry = plan.entries@[i];
            &&& plan.entries@.len() == requests@.len()
            &&& entry.request_index == i
            &&& entry.name@ == desc.name@
            &&& entry.shard_idx == desc.shard_idx
            &&& entry.data_offset == desc.data_offset
            &&& entry.n_bytes == desc.n_bytes
            &&& match entry.disposition {
                RetainedStorageDisposition::Alias { source_request_index } => {
                    &&& source_request_index < i
                    &&& same_bytes(*requests@[source_request_index as int], desc)
                    &&& forall|j: int|
                        0 <= j < source_request_index
                            ==> !same_bytes(*#[trigger] requests@[j], desc)
                },
                RetainedStorageDisposition::View { .. } => !repeats && usable_in_place(
                    mapped@, desc, page, longest, alignment,
                ),
                RetainedStorageDisposition::CopyFallback { reason } => {
                    &&& !repeats
                    &&& !usable_in_place(mapped@, desc, page, longest, alignment)
                    &&& is_cause(reason, mapped@, desc, page, longest, alignment)
                },
            }
        }),
{
    let limits = PlanLimits { page_size, max_buffer_length, required_alignment };
    let view = retained::planned(mapped@, requests@, limits)->Ok_0;
    assert(plan@ == view);
    lemma_plan_parts(mapped@, requests@, limits, view);
    let asked = retained::ranges(requests@);
    let order = source_ranges::ordered(asked);
    let placed = retained::placement(mapped@, limits, order, order.len())->Ok_0;
    let all = retained::settled(asked, order, placed);
    let desc = *requests@[i];
    assert(plan@.entries.len() == plan.entries@.len());
    assert(view.entries.len() == requests@.len());
    assert(plan@.entries[i] == plan.entries@[i]@);
    assert(plan.entries@[i].disposition == all[i]);
    assert(asked[i] == SourceRange::of(requests@[i]));
    lemma_settled(asked, order, placed, i);
    source_ranges::lemma_source(asked, i);
    let s = source_ranges::source_of(asked, asked[i]);
    assert forall|j: int| 0 <= j < requests@.len() implies (same_bytes(
        *#[trigger] requests@[j],
        desc,
    ) <==> asked[j] == asked[i]) by {}
    if s < i {
        assert(same_bytes(*requests@[s], desc));
        assert forall|j: int| 0 <= j < s implies !same_bytes(*#[trigger] requests@[j], desc) by {
            assert(asked[j] != asked[i]);
        }
    } else {
        assert forall|j: int| 0 <= j < i implies !same_bytes(*#[trigger] requests@[j], desc) by {
            assert(asked[j] != asked[i]);
        }
        let k = order.index_of(asked[i]);
        lemma_ruled(mapped@, limits, order, order.len(), k);
        reveal_with_fuel(is_pow2, 1);
        let page = page_size as int;
        let range = asked[i];
        lemma_by_remainder(range.end(), page);
        lemma_by_remainder(range.data_offset as int, page);
        lemma_by_remainder(max_buffer_length as int, page);
        if range.shard_idx < mapped@.len() {
            lemma_by_remainder(mapped@[range.shard_idx as int] as int, page);
        }
    }
}

/// Totals of a prefix as sums over the requests.
proof fn lemma_totals_sum(
    asked: Seq<SourceRange>,
    all: Seq<RetainedStorageDisposition>,
    entries: Seq<RetainedStorageEntry>,
    n: nat,
)
    requires
        n <= entries.len(),
        entries.len() == asked.len(),
        entries.len() == all.len(),
        forall|i: int|
            0 <= i < entries.len() ==> (#[trigger] entries[i]).disposition == all[i]
                && entries[i].n_bytes == asked[i].n_bytes,
        forall|i: int|
            0 <= i < entries.len() ==> ((
            #[trigger] entries[i]).disposition matches RetainedStorageDisposition::Alias {
                source_request_index,
            } ==> source_request_index < entries.len()),
    ensures
        ({
            let totals = retained::tally(asked, all, n);
            let first = entries.take(n as int);
            &&& totals.unique_view == sum(first, viewed_bytes())
            &&& totals.unique_fallback == sum(first, copied_bytes())
            &&& totals.alias == sum(first, shared_bytes())
            &&& totals.logical_view == sum(first, seen_bytes(entries))
        }),
    decreases n,
{
    if n > 0 {
        lemma_totals_sum(asked, all, entries, (n - 1) as nat);
        let before = entries.take(n - 1);
        let entry = entries[n - 1];
        assert(entries.take(n as int) =~= before.push(entry));
        lemma_sum_push(before, viewed_bytes(), entry);
        lemma_sum_push(before, copied_bytes(), entry);
        lemma_sum_push(before, shared_bytes(), entry);
        lemma_sum_push(before, seen_bytes(entries), entry);
    }
}

/// The bytes of an entry that is viewed.
pub open spec fn viewed_bytes() -> spec_fn(RetainedStorageEntry) -> int {
    |entry: RetainedStorageEntry|
        if entry.disposition is View {
            entry.n_bytes as int
        } else {
            0
        }
}

/// The bytes of an entry that is copied.
pub open spec fn copied_bytes() -> spec_fn(RetainedStorageEntry) -> int {
    |entry: RetainedStorageEntry|
        if entry.disposition is CopyFallback {
            entry.n_bytes as int
        } else {
            0
        }
}

/// The bytes of an entry that shares an earlier one's.
pub open spec fn shared_bytes() -> spec_fn(RetainedStorageEntry) -> int {
    |entry: RetainedStorageEntry|
        if entry.disposition is Alias {
            entry.n_bytes as int
        } else {
            0
        }
}

/// The bytes of an entry that is seen through a view, its own or that of the entry it
/// shares.
pub open spec fn seen_bytes(entries: Seq<RetainedStorageEntry>) -> spec_fn(
    RetainedStorageEntry,
) -> int {
    |entry: RetainedStorageEntry|
        match entry.disposition {
            RetainedStorageDisposition::View { .. } => entry.n_bytes as int,
            RetainedStorageDisposition::CopyFallback { .. } => 0,
            RetainedStorageDisposition::Alias { source_request_index } => if entries[
            source_request_index as int].disposition is View {
                entry.n_bytes as int
            } else {
                0
            },
        }
}

/// The byte counts of a plan are sums over its entries: of those that are viewed, of
/// those that are copied, of those that share another's bytes, and of all that are seen
/// through a view. The plan repeats the limits that it keeps to.
pub proof fn law_plan_counts_its_bytes(
    mapped: &[usize],
    requests: &[&TensorDesc],
    page_size: usize,
    max_buffer_length: usize,
    required_alignment: usize,
    plan: RetainedStoragePlan,
)
    requires
        requests@.len() <= usize::MAX,
        call_ensures(
            retained::plan_retained_storage,
            (mapped, requests, page_size, max_buffer_length, required_alignment),
            Ok(plan),
        ),
    ensures
        plan.unique_view_bytes == sum(plan.entries@, viewed_bytes()),
        plan.unique_fallback_bytes == sum(plan.entries@, copied_bytes()),
        plan.alias_bytes == sum(plan.entries@, shared_bytes()),
        plan.logical_view_bytes == sum(plan.entries@, seen_bytes(plan.entries@)),
        plan.page_size == page_size,
        plan.max_buffer_length == max_buffer_length,
        plan.required_alignment == required_alignment,
        plan.usable_window_length == down_to_page(max_buffer_length as int, page_size as int),
{
    let limits = PlanLimits { page_size, max_buffer_length, required_alignment };
    let view = retained::planned(mapped@, requests@, limits)->Ok_0;
    assert(plan@ == view);
    lemma_plan_parts(mapped@, requests@, limits, view);
    law_entries_are_sound(mapped@, requests@, limits, view);
    let asked = retained::ranges(requests@);
    let order = source_ranges::ordered(asked);
    let placed = retained::placement(mapped@, limits, order, order.len())->Ok_0;
    let all = retained::settled(asked, order, placed);
    let n = plan.entries@.len();
    assert(plan@.entries.len() == n);
    assert forall|i: int| 0 <= i < n implies (#[trigger] plan.entries@[i]).disposition == all[i]
        && plan.entries@[i].n_bytes == asked[i].n_bytes && (
    plan.entries@[i].disposition matches RetainedStorageDisposition::Alias { source_request_index }
        ==> source_request_index < n) by {
        assert(plan@.entries[i] == plan.entries@[i]@);
        assert(view.entries[i].request_index == i);
    }
    lemma_totals_sum(asked, all, plan.entries@, n);
    assert(plan.entries@.take(n as int) =~= plan.entries@);
    reveal_with_fuel(is_pow2, 1);
    lemma_by_remainder(max_buffer_length as int, page_size as int);
    pages::lemma_page_floor(max_buffer_length as int, page_size as int);
}

/// The limits of a plan make sense: powers of two, bindings aligned within pages, and
/// room for a page in a buffer.
pub open spec fn limits_usable(page: int, longest: int, alignment: int) -> bool {
    is_pow2(page) && is_pow2(alignment) && page % alignment == 0 && longest >= page
}

/// A request can be planned for by itself: it declares its size, which is not zero, and
/// the host can address its bytes where its shard is mapped, and its last page where it
/// may be viewed.
pub open spec fn request_usable(
    mapped: Seq<usize>,
    desc: TensorDesc,
    page: int,
    alignment: int,
) -> bool {
    let end = desc.data_offset + desc.n_bytes;
    &&& crate::shape::block_bytes(desc.shape@, desc.dtype) matches Ok((_, bytes)) && bytes
        == desc.n_bytes
    &&& desc.n_bytes > 0
    &&& in_mapped_shard(mapped, desc) ==> end <= usize::MAX
    &&& in_mapped_shard(mapped, desc) && desc.data_offset as int % alignment == 0 && end
        <= mapped[desc.shard_idx as int] ==> end + page - 1 <= usize::MAX
}

/// Two requests can be planned for together: for the same bytes they agree on what the
/// bytes are, and for different bytes of a mapped shard they share none.
pub open spec fn requests_agree(mapped: Seq<usize>, a: TensorDesc, b: TensorDesc) -> bool {
    &&& same_bytes(a, b) ==> a.dtype == b.dtype && a.shape@ == b.shape@
    &&& in_mapped_shard(mapped, a) && a.shard_idx == b.shard_idx && !same_bytes(a, b)
        ==> a.data_offset + a.n_bytes <= b.data_offset || b.data_offset + b.n_bytes
        <= a.data_offset
}

/// Every request can be planned for, by itself and together with every other.
pub open spec fn requests_usable(
    mapped: Seq<usize>,
    requests: Seq<&TensorDesc>,
    page: int,
    alignment: int,
) -> bool {
    &&& forall|i: int|
        0 <= i < requests.len() ==> request_usable(mapped, *#[trigger] requests[i], page, alignment)
    &&& forall|i: int, j: int|
        0 <= i < requests.len() && 0 <= j < requests.len() ==> requests_agree(
            mapped,
            *#[trigger] requests[i],
            *#[trigger] requests[j],
        )
}

/// Limits without a fault are those that make sense.
proof fn lemma_limits(limits: PlanLimits)
    ensures
        limits.fault() is None <==> limits_usable(
            limits.page_size as int,
            limits.max_buffer_length as int,
            limits.required_alignment as int,
        ),
{
    reveal_with_fuel(is_pow2, 1);
    if limits.page_size > 0 {
        pages::lemma_page_floor(limits.max_buffer_length as int, limits.page_size as int);
        if limits.max_buffer_length < limits.page_size {
            vstd::arithmetic::div_mod::lemma_basic_div(
                limits.max_buffer_length as int,
                limits.page_size as int,
            );
        }
    }
}

/// Requests none of which has a fault have none together.
proof fn lemma_faultless(requests: Seq<&TensorDesc>, n: nat)
    requires
        n <= requests.len(),
        forall|i: int| 0 <= i < requests.len() ==> retained::request_fault(requests, i) is None,
    ensures
        retained::requests_fault(requests, n) is None,
    decreases n,
{
    if n > 0 {
        lemma_faultless(requests, (n - 1) as nat);
        assert(retained::request_fault(requests, n - 1) is None);
    }
}

/// Ranges none of which is refused are all placed.
proof fn lemma_all_placed(
    mapped: Seq<usize>,
    limits: PlanLimits,
    order: Seq<SourceRange>,
    n: nat,
)
    requires
        n <= order.len(),
        forall|k: int|
            0 <= k < order.len() ==> (#[trigger] retained::ruling(
                mapped,
                limits,
                order[k],
                retained::previous(order, k),
            )) is Ok,
    ensures
        retained::placement(mapped, limits, order, n) is Ok,
    decreases n,
{
    if n > 0 {
        lemma_all_placed(mapped, limits, order, (n - 1) as nat);
        assert(retained::ruling(mapped, limits, order[n - 1], retained::previous(order,
            n - 1)) is Ok);
    }
}

/// A plan is made only for limits that make sense and for requests that can be planned
/// for; and for those it is made, as long as their bytes can be counted.
pub proof fn law_plan_is_made_just_when_it_can_be(
    mapped: &[usize],
    requests: &[&TensorDesc],
    page_size: usize,
    max_buffer_length: usize,
    required_alignment: usize,
    result: Result<RetainedStoragePlan, MetalError>,
)
    requires
        requests@.len() <= usize::MAX,
        call_ensures(
            retained::plan_retained_storage,
            (mapped, requests, page_size, max_buffer_length, required_alignment),
            result,
        ),
    ensures
        ({
            let page = page_size as int;
            let alignment = required_alignment as int;
            let acceptable = limits_usable(page, max_buffer_length as int, alignment)
                && requests_usable(mapped@, requests@, page, alignment);
            let bytes = sum(
                requests@,
                |desc: &TensorDesc| desc.n_bytes as int,
            );
            &&& result is Ok ==> acceptable
            &&& acceptable && bytes <= u64::MAX ==> result is Ok
        }),
{
    let limits = PlanLimits { page_size, max_buffer_length, required_alignment };
    let page = page_size as int;
    let alignment = required_alignment as int;
    lemma_limits(limits);
    if result is Ok {
        lemma_made_is_usable(mapped@, requests@, limits);
    }
    let bytes = sum(requests@, |desc: &TensorDesc| desc.n_bytes as int);
    if limits_usable(page, max_buffer_length as int, alignment) && requests_usable(
        mapped@,
        requests@,
        page,
        alignment,
    ) && bytes <= u64::MAX {
        lemma_usable_is_made(mapped@, requests@, limits);
    }
}

proof fn lemma_made_is_usable(mapped: Seq<usize>, requests: Seq<&TensorDesc>, limits: PlanLimits)
    requires
        requests.len() <= usize::MAX,
        retained::planned(mapped, requests, limits) is Ok,
    ensures
        requests_usable(
            mapped,
            requests,
            limits.page_size as int,
            limits.required_alignment as int,
        ),
{
    let plan = retained::planned(mapped, requests, limits)->Ok_0;
    let page = limits.page_size as int;
    let alignment = limits.required_alignment as int;
    lemma_plan_parts(mapped, requests, limits, plan);
    let asked = retained::ranges(requests);
    let order = source_ranges::ordered(asked);
    let placed = retained::placement(mapped, limits, order, order.len())->Ok_0;
    assert forall|i: int| 0 <= i < requests.len() implies request_usable(
        mapped,
        *#[trigger] requests[i],
        page,
        alignment,
    ) by {
        assert(retained::request_fault(requests, i) is None && requests[i].n_bytes > 0);
        lemma_settled(asked, order, placed, i);
        lemma_ruled(mapped, limits, order, order.len(), order.index_of(asked[i]));
        reveal_with_fuel(is_pow2, 1);
    }
    assert forall|i: int, j: int|
        0 <= i < requests.len() && 0 <= j < requests.len() implies requests_agree(
        mapped,
        *#[trigger] requests[i],
        *#[trigger] requests[j],
    ) by {
        assert(retained::request_fault(requests, i) is None && requests[i].n_bytes > 0);
        assert(retained::request_fault(requests, j) is None && requests[j].n_bytes > 0);
        if requests[i].shard_idx == requests[j].shard_idx && requests[i].shard_idx < mapped.len() {
            law_sources_are_disjoint(mapped, requests, limits, plan, i, j);
        }
    }
}

proof fn lemma_usable_is_made(mapped: Seq<usize>, requests: Seq<&TensorDesc>, limits: PlanLimits)
    requires
        requests.len() <= usize::MAX,
        limits.fault() is None,
        requests_usable(
            mapped,
            requests,
            limits.page_size as int,
            limits.required_alignment as int,
        ),
        sum(requests, |desc: &TensorDesc| desc.n_bytes as int) <= u64::MAX,
    ensures
        retained::planned(mapped, requests, limits) is Ok,
{
    let page = limits.page_size as int;
    let alignment = limits.required_alignment as int;
    let asked = retained::ranges(requests);
    let order = source_ranges::ordered(asked);
    source_ranges::lemma_ordered(asked);
    assert forall|i: int| 0 <= i < requests.len() implies retained::request_fault(requests, i)
        is None by {
        source_ranges::lemma_source(asked, i);
        let s = source_ranges::source_of(asked, asked[i]);
        assert(request_usable(mapped, *requests[i], page, alignment));
        assert(requests_agree(mapped, *requests[s], *requests[i]));
        assert(same_bytes(*requests[s], *requests[i]));
    }
    lemma_faultless(requests, requests.len());
    assert forall|k: int| 0 <= k < order.len() implies (#[trigger] retained::ruling(
        mapped,
        limits,
        order[k],
        retained::previous(order, k),
    )) is Ok by {
        assert(order.contains(order[k]));
        let i = choose|i: int| 0 <= i < asked.len() && asked[i] == order[k];
        assert(request_usable(mapped, *requests[i], page, alignment));
        if k > 0 {
            assert(order.contains(order[k - 1]));
            let j = choose|j: int| 0 <= j < asked.len() && asked[j] == order[k - 1];
            assert(request_usable(mapped, *requests[j], page, alignment));
            assert(order[k - 1].before(order[k]));
            assert(requests_agree(mapped, *requests[j], *requests[i]));
        }
    }
    lemma_all_placed(mapped, limits, order, order.len());
    let placed = retained::placement(mapped, limits, order, order.len())->Ok_0;
    let all = retained::settled(asked, order, placed);
    lemma_tally_adds_up(asked, all, asked.len());
    lemma_tally_is_positive(asked, all, asked.len());
    assert(asked.take(asked.len() as int) =~= asked);
    lemma_sum_of_ranges(requests);
    lemma_last_totals_decide(asked, all, asked.len());
}

/// Totals count no less than nothing.
proof fn lemma_tally_is_positive(
    asked: Seq<SourceRange>,
    all: Seq<RetainedStorageDisposition>,
    n: nat,
)
    ensures
        ({
            let totals = retained::tally(asked, all, n);
            &&& totals.unique_view >= 0 && totals.unique_fallback >= 0 && totals.alias >= 0
        }),
    decreases n,
{
    if n > 0 {
        lemma_tally_is_positive(asked, all, (n - 1) as nat);
    }
}

/// The bytes of the ranges are those of the requests.
proof fn lemma_sum_of_ranges(requests: Seq<&TensorDesc>)
    ensures
        sum(retained::ranges(requests), |range: SourceRange| range.n_bytes as int) == sum(
            requests,
            |desc: &TensorDesc| desc.n_bytes as int,
        ),
    decreases requests.len(),
{
    let f = |range: SourceRange| range.n_bytes as int;
    let g = |desc: &TensorDesc| desc.n_bytes as int;
    if requests.len() > 0 {
        lemma_sum_of_ranges(requests.drop_last());
        assert(retained::ranges(requests).drop_last() =~= retained::ranges(requests.drop_last()));
    }
}

/// Windows consist of whole pages of their shards, and none is longer than the longest
/// buffer. A view lies whole in its window, at an aligned place of its buffer, which is
/// the place in the file where its tensor starts.
pub proof fn law_views_lie_in_their_windows(
    mapped: &[usize],
    requests: &[&TensorDesc],
    page_size: usize,
    max_buffer_length: usize,
    required_alignment: usize,
    plan: RetainedStoragePlan,
)
    requires
        requests@.len() <= usize::MAX,
        call_ensures(
            retained::plan_retained_storage,
            (mapped, requests, page_size, max_buffer_length, required_alignment),
            Ok(plan),
        ),
    ensures
        forall|w: int|
            0 <= w < plan.windows@.len() ==> {
                let window = #[trigger] plan.windows@[w];
                &&& window.shard_idx < mapped@.len()
                &&& window.mmap_offset as int % page_size as int == 0
                &&& 0 < window.length <= max_buffer_length
                &&& window.length as int % page_size as int == 0
                &&& window.mmap_offset + window.length <= mapped@[window.shard_idx as int]
            },
        forall|i: int|
            0 <= i < plan.entries@.len() ==> ((
            #[trigger] plan.entries@[i]).disposition matches RetainedStorageDisposition::View {
                window_index,
                buffer_offset,
            } ==> {
                let window = plan.windows@[window_index as int];
                let desc = requests@[i];
                &&& window_index < plan.windows@.len()
                &&& window.shard_idx == desc.shard_idx
                &&& window.mmap_offset + buffer_offset == desc.data_offset
                &&& buffer_offset as int % required_alignment as int == 0
                &&& buffer_offset + desc.n_bytes <= window.length
            }),
{
    let limits = PlanLimits { page_size, max_buffer_length, required_alignment };
    let view = retained::planned(mapped@, requests@, limits)->Ok_0;
    assert(plan@ == view);
    assert(plan.windows@ == view.windows);
    lemma_plan_parts(mapped@, requests@, limits, view);
    law_windows_are_sound(mapped@, requests@, limits, view);
    law_entries_are_sound(mapped@, requests@, limits, view);
    reveal_with_fuel(is_pow2, 1);
    pages::lemma_page_floor(max_buffer_length as int, page_size as int);
    assert(plan@.entries.len() == plan.entries@.len());
    assert forall|w: int| 0 <= w < plan.windows@.len() implies {
        let window = #[trigger] plan.windows@[w];
        &&& window.shard_idx < mapped@.len()
        &&& window.mmap_offset as int % page_size as int == 0
        &&& 0 < window.length <= max_buffer_length
        &&& window.length as int % page_size as int == 0
        &&& window.mmap_offset + window.length <= mapped@[window.shard_idx as int]
    } by {
        assert(window_sound(mapped@, limits, view.windows[w]));
    }
    assert forall|i: int| 0 <= i < plan.entries@.len() implies ((
    #[trigger] plan.entries@[i]).disposition matches RetainedStorageDisposition::View {
        window_index,
        buffer_offset,
    } ==> {
        let window = plan.windows@[window_index as int];
        let desc = requests@[i];
        &&& window_index < plan.windows@.len()
        &&& window.shard_idx == desc.shard_idx
        &&& window.mmap_offset + buffer_offset == desc.data_offset
        &&& buffer_offset as int % required_alignment as int == 0
        &&& buffer_offset + desc.n_bytes <= window.length
    }) by {
        assert(plan@.entries[i] == plan.entries@[i]@);
        assert(view.entries[i].request_index == i);
    }
}

/// The first of the requests that is refused.
proof fn lemma_first_fault(requests: Seq<&TensorDesc>, i: int, n: nat)
    requires
        0 <= i < n <= requests.len(),
        forall|j: int| 0 <= j < i ==> retained::request_fault(requests, j) is None,
        retained::request_fault(requests, i) is Some,
    ensures
        retained::requests_fault(requests, n) == retained::request_fault(requests, i),
    decreases n,
{
    if i < n - 1 {
        lemma_first_fault(requests, i, (n - 1) as nat);
    } else {
        lemma_prefix_faultless(requests, i as nat);
    }
}

proof fn lemma_prefix_faultless(requests: Seq<&TensorDesc>, n: nat)
    requires
        forall|j: int| 0 <= j < n ==> retained::request_fault(requests, j) is None,
    ensures
        retained::requests_fault(requests, n) is None,
    decreases n,
{
    if n > 0 {
        lemma_prefix_faultless(requests, (n - 1) as nat);
        assert(retained::request_fault(requests, n - 1) is None);
    }
}

/// A request is as it should be, seen with those before it: its size is declared truly
/// and is not zero, and it is of the kind of the first request for the same bytes.
pub open spec fn in_order(requests: Seq<&TensorDesc>, i: int) -> bool {
    &&& crate::shape::block_bytes(requests[i].shape@, requests[i].dtype) matches Ok((_, bytes))
        && bytes == requests[i].n_bytes
    &&& requests[i].n_bytes > 0
    &&& forall|j: int|
        0 <= j < i && same_bytes(*#[trigger] requests[j], *requests[i]) && (forall|k: int|
            0 <= k < j ==> !same_bytes(*#[trigger] requests[k], *requests[i]))
            ==> requests[j].dtype == requests[i].dtype && requests[j].shape@ == requests[i].shape@
}

proof fn lemma_in_order(requests: Seq<&TensorDesc>, i: int)
    requires
        0 <= i < requests.len(),
    ensures
        in_order(requests, i) <==> retained::request_fault(requests, i) is None,
{
    let asked = retained::ranges(requests);
    source_ranges::lemma_source(asked, i);
    let s = source_ranges::source_of(asked, asked[i]);
    assert forall|j: int| 0 <= j < requests.len() implies (same_bytes(
        *#[trigger] requests[j],
        *requests[i],
    ) <==> asked[j] == asked[i]) by {}
    if s < i {
        assert(same_bytes(*requests[s], *requests[i]));
    }
}

/// Of the requests that are not as they should be, the first is refused by name: with
/// its size and the declared one, or as empty, or with the request that it does not
/// agree with.
pub proof fn law_refused_request_is_named(
    mapped: &[usize],
    requests: &[&TensorDesc],
    page_size: usize,
    max_buffer_length: usize,
    required_alignment: usize,
    result: Result<RetainedStoragePlan, MetalError>,
    i: int,
)
    requires
        requests@.len() <= usize::MAX,
        call_ensures(
            retained::plan_retained_storage,
            (mapped, requests, page_size, max_buffer_length, required_alignment),
            result,
        ),
        limits_usable(page_size as int, max_buffer_length as int, required_alignment as int),
        0 <= i < requests@.len(),
        forall|j: int| 0 <= j < i ==> in_order(requests@, j),
        !in_order(requests@, i),
        crate::shape::block_bytes(requests@[i].shape@, requests@[i].dtype) is Ok,
        requests@[i].n_bytes <= usize::MAX,
    ensures
        result is Err,
        ({
            let desc = requests@[i];
            let (_, bytes) = crate::shape::block_bytes(desc.shape@, desc.dtype)->Ok_0;
            match result->Err_0@ {
                Fault::GgufNoCopy(_, shown) => if bytes != desc.n_bytes {
                    shown =~= seq![
                        Datum::Name(desc.name@),
                        Datum::Int(bytes as int),
                        Datum::Int(desc.n_bytes as int),
                    ]
                } else if desc.n_bytes == 0 {
                    shown =~= seq![Datum::Name(desc.name@)]
                } else {
                    exists|j: int|
                        0 <= j < i && same_bytes(*#[trigger] requests@[j], *desc) && shown =~= seq![
                            Datum::Name(desc.name@),
                            Datum::Name(requests@[j].name@),
                        ]
                },
                _ => false,
            }
        }),
{
    let limits = PlanLimits { page_size, max_buffer_length, required_alignment };
    lemma_limits(limits);
    assert forall|j: int| 0 <= j < i implies retained::request_fault(requests@, j) is None by {
        assert(in_order(requests@, j));
        lemma_in_order(requests@, j);
    }
    lemma_in_order(requests@, i);
    lemma_first_fault(requests@, i, requests@.len());
    let asked = retained::ranges(requests@);
    source_ranges::lemma_source(asked, i);
    let s = source_ranges::source_of(asked, asked[i]);
    assert(asked[s] == asked[i]);
    assert(same_bytes(*requests@[s], *requests@[i]));
}

/// An overlap that is reported is one: the named tensor starts at the shown offset,
/// before the end of the other named tensor, which starts no later in the same shard.
pub proof fn law_reported_overlap_is_one(
    mapped: &[usize],
    requests: &[&TensorDesc],
    page_size: usize,
    max_buffer_length: usize,
    required_alignment: usize,
    e: MetalError,
)
    requires
        requests@.len() <= usize::MAX,
        call_ensures(
            retained::plan_retained_storage,
            (mapped, requests, page_size, max_buffer_length, required_alignment),
            Err(e),
        ),
        e@ matches Fault::GgufNoCopy(_, shown) && shown.len() == 4,
    ensures
        exists|i: int, j: int|
            0 <= i < requests@.len() && 0 <= j < requests@.len() && overlap_reported(
                e@,
                *#[trigger] requests@[i],
                *#[trigger] requests@[j],
            ),
{
    let limits = PlanLimits { page_size, max_buffer_length, required_alignment };
    let asked = retained::ranges(requests@);
    let order = source_ranges::ordered(asked);
    source_ranges::lemma_ordered(asked);
    assert(limits.fault() is None);
    if retained::requests_fault(requests@, requests@.len()) is Some {
        lemma_request_faults_are_short(requests@, requests@.len());
    }
    if retained::placement(mapped@, limits, order, order.len()) is Ok {
        let placed = retained::placement(mapped@, limits, order, order.len())->Ok_0;
        lemma_tally_faults_are_short(
            asked,
            retained::settled(asked, order, placed),
            asked.len(),
        );
    }
    let (k, why) = retained::placement(mapped@, limits, order, order.len())->Err_0;
    lemma_refused_at(mapped@, limits, order, order.len());
    assert(order.contains(order[k]));
    let at = choose|at: int| 0 <= at < asked.len() && asked[at] == order[k];
    source_ranges::lemma_source(asked, at);
    let i = source_ranges::source_of(asked, order[k]);
    assert(asked[i] == order[k]);
    if k > 0 {
        assert(order.contains(order[k - 1]));
        let before = choose|before: int| 0 <= before < asked.len() && asked[before] == order[k - 1];
        source_ranges::lemma_source(asked, before);
        let j = source_ranges::source_of(asked, order[k - 1]);
        assert(asked[j] == order[k - 1]);
        assert(order[k - 1].before(order[k]));
        assert(overlap_reported(e@, *requests@[i], *requests@[j]));
    }
}

/// The message says that `a` starts before `b` ends, and it does.
pub open spec fn overlap_reported(fault: Fault, a: TensorDesc, b: TensorDesc) -> bool {
    let end = b.data_offset + b.n_bytes;
    &&& fault matches Fault::GgufNoCopy(_, shown) && shown =~= seq![
        Datum::Name(a.name@),
        Datum::Int(a.data_offset as int),
        Datum::Name(b.name@),
        Datum::Int(end),
    ]
    &&& a.shard_idx == b.shard_idx
    &&& b.data_offset <= a.data_offset < end
}

/// Which range is refused, and why.
proof fn lemma_refused_at(
    mapped: Seq<usize>,
    limits: PlanLimits,
    order: Seq<SourceRange>,
    n: nat,
)
    requires
        n <= order.len(),
    ensures
        retained::placement(mapped, limits, order, n) matches Err((k, why)) ==> 0 <= k < n
            && retained::ruling(mapped, limits, order[k], retained::previous(order, k)) == Err::<
            Option<RetainedStorageFallback>,
            retained::Refusal,
        >(why),
    decreases n,
{
    if n > 0 {
        lemma_refused_at(mapped, limits, order, (n - 1) as nat);
    }
}

proof fn lemma_request_faults_are_short(requests: Seq<&TensorDesc>, n: nat)
    ensures
        retained::requests_fault(requests, n) matches Some(Fault::GgufNoCopy(_, shown))
            ==> shown.len() < 4,
    decreases n,
{
    if n > 0 {
        lemma_request_faults_are_short(requests, (n - 1) as nat);
    }
}

proof fn lemma_tally_faults_are_short(
    asked: Seq<SourceRange>,
    all: Seq<RetainedStorageDisposition>,
    n: nat,
)
    ensures
        retained::tally_fault(asked, all, n) matches Some(Fault::GgufNoCopy(_, shown))
            ==> shown.len() < 4,
    decreases n,
{
    if n > 0 {
        lemma_tally_faults_are_short(asked, all, (n - 1) as nat);
    }
}

} // verus!
