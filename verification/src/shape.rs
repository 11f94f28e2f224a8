//! Element and byte counts of shapes.

use vstd::prelude::*;

use crate::dtype::GgmlType;
use crate::error::{bad_shape, Fault, MetalError};

verus! {

/// The number of elements, where every partial product fits in 64 bits.
pub open spec fn shape_elements(shape: Seq<u64>) -> Option<u64>
    decreases shape.len(),
{
    if shape.len() == 0 {
        Some(1u64)
    } else {
        match shape_elements(shape.drop_last()) {
            Some(n) => if n * shape.last() <= u64::MAX {
                Some((n * shape.last()) as u64)
            } else {
                None
            },
            None => None,
        }
    }
}

/// Elements and bytes of `shape` with dense elements of `size` bytes.
pub open spec fn dense_bytes(shape: Seq<u64>, size: usize) -> Result<(usize, usize), Fault> {
    match shape_elements(shape) {
        None => Err(Fault::bad_shape("shape"@, "element count of {} overflows"@).shape(shape)),
        Some(n) => if n > usize::MAX || n * size > usize::MAX {
            Err(Fault::bad_shape("shape"@, "byte count of {} overflows"@).shape(shape))
        } else {
            Ok((n as usize, (n * size) as usize))
        },
    }
}

/// Elements and bytes of `shape` stored in whole blocks of `dtype`.
pub open spec fn block_bytes(shape: Seq<u64>, dtype: GgmlType) -> Result<(usize, usize), Fault> {
    match shape_elements(shape) {
        None => Err(Fault::bad_shape("shape"@, "element count of {} overflows"@).shape(shape)),
        Some(n) => match dtype.layout() {
            None => Err(Fault::bad_shape("shape"@, "{} has no storage layout"@).dtype(dtype)),
            Some((elems, bytes)) => if n % elems != 0 {
                Err(
                    Fault::bad_shape("shape"@, "{} does not fill whole blocks of {}"@).shape(
                        shape,
                    ).dtype(dtype),
                )
            } else if n > usize::MAX || (n / elems) * bytes > usize::MAX {
                Err(Fault::bad_shape("shape"@, "byte count of {} overflows"@).shape(shape))
            } else {
                Ok((n as usize, ((n / elems) * bytes) as usize))
            },
        },
    }
}

/// Storage blocks have elements and bytes.
pub proof fn lemma_layout_positive(dtype: GgmlType)
    ensures
        dtype.layout() matches Some((elems, bytes)) ==> 0 < elems <= 256 && 0 < bytes <= 292,
{
}

/// A count that stops fitting stays so when dimensions are added.
proof fn lemma_overflow_persists(shape: Seq<u64>, i: int)
    requires
        0 <= i <= shape.len(),
        shape_elements(shape.take(i)) is None,
    ensures
        shape_elements(shape) is None,
    decreases shape.len() - i,
{
    if i == shape.len() {
        assert(shape.take(i) =~= shape);
    } else {
        assert(shape.take(i + 1).drop_last() =~= shape.take(i));
        lemma_overflow_persists(shape, i + 1);
    }
}

/// The number of elements of `shape`.
pub fn checked_shape_elements(shape: &[u64]) -> (r: Result<u64, MetalError>)
    ensures
        match shape_elements(shape@) {
            Some(n) => r == Ok::<u64, MetalError>(n),
            None => r is Err && r->Err_0@ == Fault::bad_shape(
                "shape"@,
                "element count of {} overflows"@,
            ).shape(shape@),
        },
{
    let mut n: u64 = 1;
    let mut i: usize = 0;
    assert(shape@.take(0) =~= Seq::<u64>::empty());
    while i < shape.len()
        invariant
            i <= shape@.len(),
            shape_elements(shape@.take(i as int)) == Some(n),
        decreases shape@.len() - i,
    {
        assert(shape@.take(i + 1).drop_last() =~= shape@.take(i as int));
        match n.checked_mul(shape[i]) {
            Some(next) => {
                n = next;
            },
            None => {
                proof {
                    lemma_overflow_persists(shape@, i + 1);
                }
                return Err(bad_shape("shape", "element count of {} overflows").shape(shape));
            },
        }
        i = i + 1;
    }
    assert(shape@.take(i as int) =~= shape@);
    Ok(n)
}

/// Elements and bytes of `shape` with dense elements of `size` bytes.
pub fn checked_shape_bytes(shape: &[u64], size: usize) -> (r: Result<(usize, usize), MetalError>)
    ensures
        match dense_bytes(shape@, size) {
            Ok(counts) => r == Ok::<(usize, usize), MetalError>(counts),
            Err(fault) => r is Err && r->Err_0@ == fault,
        },
{
    let n: u64 = match checked_shape_elements(shape) {
        Ok(n) => n,
        Err(e) => {
            return Err(e);
        },
    };
    if n > usize::MAX as u64 {
        return Err(bad_shape("shape", "byte count of {} overflows").shape(shape));
    }
    match (n as usize).checked_mul(size) {
        Some(bytes) => Ok((n as usize, bytes)),
        None => Err(bad_shape("shape", "byte count of {} overflows").shape(shape)),
    }
}

/// Elements and bytes of `shape` stored in whole blocks of `dtype`.
pub fn checked_ggml_shape_bytes(shape: &[u64], dtype: GgmlType) -> (r: Result<
    (usize, usize),
    MetalError,
>)
    ensures
        match block_bytes(shape@, dtype) {
            Ok(counts) => r == Ok::<(usize, usize), MetalError>(counts),
            Err(fault) => r is Err && r->Err_0@ == fault,
        },
{
    let n: u64 = match checked_shape_elements(shape) {
        Ok(n) => n,
        Err(e) => {
            return Err(e);
        },
    };
    proof {
        lemma_layout_positive(dtype);
    }
    match dtype.storage_layout() {
        None => Err(bad_shape("shape", "{} has no storage layout").dtype(dtype)),
        Some((elems, bytes)) => {
            if n % elems != 0 {
                return Err(
                    bad_shape("shape", "{} does not fill whole blocks of {}").shape(shape).dtype(
                        dtype,
                    ),
                );
            }
            if n > usize::MAX as u64 {
                return Err(bad_shape("shape", "byte count of {} overflows").shape(shape));
            }
            match (n / elems).checked_mul(bytes) {
                Some(total) if total <= usize::MAX as u64 => Ok((n as usize, total as usize)),
                _ => Err(bad_shape("shape", "byte count of {} overflows").shape(shape)),
            }
        },
    }
}

} // verus!
