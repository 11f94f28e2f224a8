//! Rounding to whole pages.

use vstd::prelude::*;

use crate::error::{gguf_no_copy, Fault, MetalError};

verus! {

pub open spec fn page_floor(value: int, page: int) -> int {
    value / page * page
}

pub open spec fn page_ceil(value: int, page: int) -> int {
    page_floor(value + page - 1, page)
}

/// The start of the page that holds a byte.
pub fn checked_page_floor(value: usize, page_size: usize) -> (r: usize)
    requires
        page_size > 0,
    ensures
        r == page_floor(value as int, page_size as int),
        r <= value < r + page_size,
        r as int % page_size as int == 0,
{
    proof {
        lemma_page_floor(value as int, page_size as int);
    }
    value / page_size * page_size
}

/// The end of the page that holds the last byte before an end.
pub fn checked_page_ceil(value: usize, page_size: usize) -> (r: Result<usize, MetalError>)
    requires
        page_size > 0,
    ensures
        if value + page_size - 1 > usize::MAX {
            r is Err && r->Err_0@ == Fault::mapping("page-rounded endpoint overflow"@)
        } else {
            r is Ok && r->Ok_0 == page_ceil(value as int, page_size as int)
        },
{
    match value.checked_add(page_size - 1) {
        Some(end) => {
            proof {
                lemma_page_floor(end as int, page_size as int);
            }
            Ok(end / page_size * page_size)
        },
        None => Err(gguf_no_copy("page-rounded endpoint overflow")),
    }
}

pub proof fn lemma_page_floor(value: int, page: int)
    requires
        value >= 0,
        page > 0,
    ensures
        0 <= page_floor(value, page) <= value < page_floor(value, page) + page,
        page_floor(value, page) % page == 0,
{
    vstd::arithmetic::div_mod::lemma_fundamental_div_mod(value, page);
    vstd::arithmetic::div_mod::lemma_mod_bound(value, page);
    vstd::arithmetic::mul::lemma_mul_is_commutative(page, value / page);
    vstd::arithmetic::div_mod::lemma_mod_multiples_basic(value / page, page);
    assert(value / page * page >= 0) by (nonlinear_arith)
        requires
            value >= 0,
            page > 0,
    ;
}

pub proof fn lemma_page_ceil(value: int, page: int)
    requires
        value >= 0,
        page > 0,
    ensures
        value <= page_ceil(value, page) < value + page,
        page_ceil(value, page) % page == 0,
{
    lemma_page_floor(value + page - 1, page);
}

/// The place of a range in its page says whether it is aligned.
pub proof fn lemma_alignment(offset: int, page: int, alignment: int)
    requires
        offset >= 0,
        page > 0,
        alignment > 0,
        page % alignment == 0,
    ensures
        (offset - page_floor(offset, page)) % alignment == offset % alignment,
{
    lemma_page_floor(offset, page);
    lemma_multiple_of_pages(page_floor(offset, page), page, alignment);
    lemma_shift(offset, page_floor(offset, page), alignment);
}

/// A multiple of the page size is a multiple of the alignment.
pub proof fn lemma_multiple_of_pages(value: int, page: int, alignment: int)
    requires
        value % page == 0,
        page > 0,
        alignment > 0,
        page % alignment == 0,
    ensures
        value % alignment == 0,
{
    vstd::arithmetic::div_mod::lemma_fundamental_div_mod(value, page);
    vstd::arithmetic::div_mod::lemma_fundamental_div_mod(page, alignment);
    let pages = value / page;
    let steps = page / alignment;
    assert(value == (pages * steps) * alignment) by (nonlinear_arith)
        requires
            value == page * pages,
            page == alignment * steps,
    ;
    vstd::arithmetic::div_mod::lemma_mod_multiples_basic(pages * steps, alignment);
}

/// Taking away a multiple of the alignment changes no remainder.
pub proof fn lemma_shift(value: int, base: int, alignment: int)
    requires
        base % alignment == 0,
        alignment > 0,
    ensures
        (value - base) % alignment == value % alignment,
{
    vstd::arithmetic::div_mod::lemma_sub_mod_noop(value, base, alignment);
    assert((value % alignment) - 0 == value % alignment);
    vstd::arithmetic::div_mod::lemma_mod_twice(value, alignment);
}

} // verus!
