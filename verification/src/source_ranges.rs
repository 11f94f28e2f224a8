//! Byte ranges of shards, and their increasing order.

use vstd::prelude::*;

use crate::tensor::TensorDesc;

verus! {

/// The bytes of a shard that a tensor occupies.
#[derive(Clone, Copy, Debug, PartialEq, Eq, Structural)]
pub struct SourceRange {
    pub shard_idx: usize,
    pub data_offset: u64,
    pub n_bytes: u64,
}

impl SourceRange {
    #[verifier::allow_in_spec]
    pub fn of(desc: &TensorDesc) -> SourceRange
        returns
            (SourceRange {
                shard_idx: desc.shard_idx,
                data_offset: desc.data_offset,
                n_bytes: desc.n_bytes,
            }),
    {
        SourceRange {
            shard_idx: desc.shard_idx,
            data_offset: desc.data_offset,
            n_bytes: desc.n_bytes,
        }
    }

    pub open spec fn end(self) -> int {
        self.data_offset + self.n_bytes
    }

    /// By shard, then by offset, then by length.
    pub open spec fn before(self, other: SourceRange) -> bool {
        ||| self.shard_idx < other.shard_idx
        ||| self.shard_idx == other.shard_idx && self.data_offset < other.data_offset
        ||| self.shard_idx == other.shard_idx && self.data_offset == other.data_offset
            && self.n_bytes < other.n_bytes
    }

    /// Whether this range comes before another.
    pub fn is_before(&self, other: &SourceRange) -> (r: bool)
        ensures
            r == self.before(*other),
    {
        if self.shard_idx != other.shard_idx {
            return self.shard_idx < other.shard_idx;
        }
        if self.data_offset != other.data_offset {
            return self.data_offset < other.data_offset;
        }
        self.n_bytes < other.n_bytes
    }
}

/// The first request for a range.
pub open spec fn source_of(asked: Seq<SourceRange>, range: SourceRange) -> int {
    asked.index_of_first(range)->0
}

pub open spec fn increasing(order: Seq<SourceRange>) -> bool {
    forall|i: int, j: int| 0 <= i < j < order.len() ==> (#[trigger] order[i]).before(
        #[trigger] order[j],
    )
}

/// Each range that is asked for, once, in increasing order.
pub open spec fn lists(order: Seq<SourceRange>, asked: Seq<SourceRange>) -> bool {
    &&& increasing(order)
    &&& forall|range: SourceRange| #[trigger]
        order.contains(range) <==> asked.contains(range)
}

/// Each range that is asked for, once, in increasing order.
pub open spec fn ordered(asked: Seq<SourceRange>) -> Seq<SourceRange> {
    choose|order: Seq<SourceRange>| lists(order, asked)
}

/// Two increasing listings of the same ranges are the same.
pub proof fn lemma_listing_unique(a: Seq<SourceRange>, b: Seq<SourceRange>)
    requires
        increasing(a),
        increasing(b),
        forall|range: SourceRange| #[trigger] a.contains(range) <==> b.contains(range),
    ensures
        a == b,
    decreases a.len(),
{
    if a.len() == 0 {
        if b.len() > 0 {
            assert(b.contains(b[0]));
            assert(a.contains(b[0]));
        }
        assert(a =~= b);
    } else {
        assert(a.contains(a.last()));
        let j = choose|j: int| 0 <= j < b.len() && b[j] == a.last();
        assert(b.contains(b.last()));
        assert(a.contains(b.last()));
        let i = choose|i: int| 0 <= i < a.len() && a[i] == b.last();
        assert(a.last() == b.last()) by {
            if i != a.len() - 1 {
                assert(a[i].before(a[a.len() - 1]));
            }
            if j != b.len() - 1 {
                assert(b[j].before(b[b.len() - 1]));
            }
        }
        let x = a.drop_last();
        let y = b.drop_last();
        assert forall|range: SourceRange| #[trigger] x.contains(range) <==> y.contains(range) by {
            if x.contains(range) {
                let k = choose|k: int| 0 <= k < x.len() && x[k] == range;
                assert(a[k] == range);
                assert(a[k].before(a[a.len() - 1]));
                assert(a.contains(range));
                let m = choose|m: int| 0 <= m < b.len() && b[m] == range;
                assert(y[m] == range);
            }
            if y.contains(range) {
                let k = choose|k: int| 0 <= k < y.len() && y[k] == range;
                assert(b[k] == range);
                assert(b[k].before(b[b.len() - 1]));
                assert(a.contains(range));
                let m = choose|m: int| 0 <= m < a.len() && a[m] == range;
                assert(x[m] == range);
            }
        }
        lemma_listing_unique(x, y);
        assert(a =~= x.push(a.last()));
        assert(b =~= y.push(b.last()));
    }
}

/// A range that is not listed can be put where it belongs.
pub proof fn lemma_listing_insert(
    order: Seq<SourceRange>,
    asked: Seq<SourceRange>,
    at: int,
    range: SourceRange,
)
    requires
        lists(order, asked),
        0 <= at <= order.len(),
        forall|k: int| 0 <= k < at ==> (#[trigger] order[k]).before(range),
        forall|k: int| at <= k < order.len() ==> range.before(#[trigger] order[k]),
    ensures
        lists(order.insert(at, range), asked.push(range)),
{
    let more = order.insert(at, range);
    assert forall|i: int, j: int| 0 <= i < j < more.len() implies (#[trigger] more[i]).before(
        #[trigger] more[j],
    ) by {
        let x = if i < at {
            i
        } else {
            i - 1
        };
        let y = if j < at {
            j
        } else {
            j - 1
        };
        if i != at {
            assert(more[i] == order[x]);
        }
        if j != at {
            assert(more[j] == order[y]);
        }
    }
    assert forall|r: SourceRange| #[trigger] more.contains(r) <==> asked.push(range).contains(
        r,
    ) by {
        if more.contains(r) {
            let k = choose|k: int| 0 <= k < more.len() && more[k] == r;
            if k == at {
                assert(asked.push(range)[asked.len() as int] == r);
            } else {
                let x = if k < at {
                    k
                } else {
                    k - 1
                };
                assert(order[x] == r);
                assert(order.contains(r));
                let m = choose|m: int| 0 <= m < asked.len() && asked[m] == r;
                assert(asked.push(range)[m] == r);
            }
        }
        if asked.push(range).contains(r) {
            let m = choose|m: int|
                0 <= m < asked.push(range).len() && asked.push(range)[m] == r;
            if m == asked.len() {
                assert(more[at] == r);
            } else {
                assert(asked[m] == r);
                assert(asked.contains(r));
                assert(order.contains(r));
                let x = choose|x: int| 0 <= x < order.len() && order[x] == r;
                if x < at {
                    assert(more[x] == r);
                } else {
                    assert(more[x + 1] == r);
                }
            }
        }
    }
}

/// Asking again for a listed range changes no listing.
pub proof fn lemma_listing_again(
    order: Seq<SourceRange>,
    asked: Seq<SourceRange>,
    range: SourceRange,
)
    requires
        lists(order, asked),
        order.contains(range),
    ensures
        lists(order, asked.push(range)),
{
    assert forall|r: SourceRange| #[trigger] order.contains(r) <==> asked.push(range).contains(
        r,
    ) by {
        if order.contains(r) {
            assert(asked.contains(r));
            let m = choose|m: int| 0 <= m < asked.len() && asked[m] == r;
            assert(asked.push(range)[m] == r);
        }
        if asked.push(range).contains(r) {
            let m = choose|m: int|
                0 <= m < asked.push(range).len() && asked.push(range)[m] == r;
            if m < asked.len() {
                assert(asked[m] == r);
                assert(asked.contains(r));
            }
        }
    }
}

/// Where a range belongs in an increasing listing.
pub open spec fn slot(order: Seq<SourceRange>, range: SourceRange) -> int
    decreases order.len(),
{
    if order.len() == 0 || order.last().before(range) {
        order.len() as int
    } else {
        slot(order.drop_last(), range)
    }
}

pub proof fn lemma_slot(order: Seq<SourceRange>, range: SourceRange)
    requires
        increasing(order),
    ensures
        0 <= slot(order, range) <= order.len(),
        forall|k: int| 0 <= k < slot(order, range) ==> (#[trigger] order[k]).before(range),
        forall|k: int|
            slot(order, range) <= k < order.len() ==> !(#[trigger] order[k]).before(range),
    decreases order.len(),
{
    if order.len() == 0 {
    } else if order.last().before(range) {
        assert forall|k: int| 0 <= k < order.len() implies (#[trigger] order[k]).before(range) by {
            if k < order.len() - 1 {
                assert(order[k].before(order[order.len() - 1]));
            }
        }
    } else {
        let rest = order.drop_last();
        lemma_slot(rest, range);
        assert forall|k: int| 0 <= k < slot(order, range) implies (#[trigger] order[k]).before(
            range,
        ) by {
            assert(rest[k] == order[k]);
        }
        assert forall|k: int| slot(order, range) <= k < order.len() implies !(
        #[trigger] order[k]).before(range) by {
            if k < order.len() - 1 {
                assert(rest[k] == order[k]);
            }
        }
    }
}

/// Whatever is asked for, there is exactly one listing of it.
pub proof fn lemma_ordered(asked: Seq<SourceRange>)
    ensures
        lists(ordered(asked), asked),
        forall|order: Seq<SourceRange>| #[trigger] lists(order, asked) ==> order == ordered(asked),
    decreases asked.len(),
{
    assert(exists|order: Seq<SourceRange>| lists(order, asked)) by {
        if asked.len() == 0 {
            let none = Seq::<SourceRange>::empty();
            assert(lists(none, asked));
        } else {
            let rest = asked.drop_last();
            let range = asked.last();
            lemma_ordered(rest);
            let order = ordered(rest);
            assert(rest.push(range) =~= asked);
            if order.contains(range) {
                lemma_listing_again(order, rest, range);
                assert(lists(order, asked));
            } else {
                lemma_slot(order, range);
                let at = slot(order, range);
                assert forall|k: int| at <= k < order.len() implies range.before(
                    #[trigger] order[k],
                ) by {
                    assert(order.contains(order[k]));
                }
                lemma_listing_insert(order, rest, at, range);
                assert(lists(order.insert(at, range), asked));
            }
        }
    }
    assert forall|order: Seq<SourceRange>| #[trigger] lists(order, asked) implies order == ordered(
        asked,
    ) by {
        assert forall|range: SourceRange| #[trigger] order.contains(range) <==> ordered(
            asked,
        ).contains(range) by {
            assert(asked.contains(range) <==> ordered(asked).contains(range));
        }
        lemma_listing_unique(order, ordered(asked));
    }
}

/// Request `s` is the first for the range of request `i`.
pub open spec fn is_first(asked: Seq<SourceRange>, s: int, i: int) -> bool {
    &&& 0 <= s <= i
    &&& asked[s] == asked[i]
    &&& forall|j: int| 0 <= j < s ==> #[trigger] asked[j] != asked[i]
}

pub proof fn lemma_source(asked: Seq<SourceRange>, i: int)
    requires
        0 <= i < asked.len(),
    ensures
        is_first(asked, source_of(asked, asked[i]), i),
        forall|s: int| #[trigger] is_first(asked, s, i) ==> s == source_of(asked, asked[i]),
{
    asked.index_of_first_ensures(asked[i]);
    let first = source_of(asked, asked[i]);
    assert(asked.contains(asked[i]));
    assert forall|s: int| #[trigger] is_first(asked, s, i) implies s == first by {
        if s < first {
            assert(asked[s] != asked[i]);
        }
        if first < s {
            assert(asked[first] != asked[i]);
        }
    }
}

/// Asking for one more range lists it where it belongs, unless it is listed.
pub proof fn lemma_ordered_push(asked: Seq<SourceRange>, range: SourceRange)
    ensures
        asked.contains(range) ==> ordered(asked.push(range)) == ordered(asked),
        !asked.contains(range) ==> exists|at: int|
            0 <= at <= ordered(asked).len() && ordered(asked.push(range))
                == #[trigger] ordered(asked).insert(at, range),
{
    let order = ordered(asked);
    lemma_ordered(asked);
    lemma_ordered(asked.push(range));
    assert(order.contains(range) <==> asked.contains(range));
    if order.contains(range) {
        lemma_listing_again(order, asked, range);
    } else {
        lemma_slot(order, range);
        let at = slot(order, range);
        assert forall|k: int| at <= k < order.len() implies range.before(#[trigger] order[k]) by {
            assert(order.contains(order[k]));
        }
        lemma_listing_insert(order, asked, at, range);
        assert(ordered(asked.push(range)) == order.insert(at, range));
    }
}

/// A listing is no longer than what it lists.
pub proof fn lemma_ordered_len(asked: Seq<SourceRange>)
    ensures
        ordered(asked).len() <= asked.len(),
    decreases asked.len(),
{
    if asked.len() == 0 {
        lemma_ordered(asked);
        let order = ordered(asked);
        if order.len() > 0 {
            assert(order.contains(order[0]));
        }
    } else {
        let rest = asked.drop_last();
        lemma_ordered_len(rest);
        lemma_ordered_push(rest, asked.last());
        assert(rest.push(asked.last()) =~= asked);
    }
}

} // verus!
