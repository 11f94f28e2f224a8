//! Arithmetic shared by the encoders.

use vstd::arithmetic::power2::*;
use vstd::prelude::*;

verus! {

/// The quotient rounded up.
pub open spec fn div_up(a: usize, b: usize) -> usize {
    if a % b == 0 {
        a / b
    } else {
        (a / b + 1) as usize
    }
}

/// The quotient rounded up.
pub fn div_ceil(a: usize, b: usize) -> (r: usize)
    requires
        b > 0,
    ensures
        r == div_up(a, b),
{
    let q: usize = a / b;
    if a % b == 0 {
        q
    } else {
        proof {
            assert(q < usize::MAX) by (nonlinear_arith)
                requires
                    q == a / b,
                    b > 0,
                    a % b != 0,
                    a <= usize::MAX,
            ;
        }
        q + 1
    }
}

/// A rounded-up quotient is the least count of groups of `b` that cover `a`.
pub proof fn law_div_up_covers(a: usize, b: usize)
    requires
        b > 0,
    ensures
        div_up(a, b) * b >= a,
        div_up(a, b) > 0 ==> (div_up(a, b) - 1) * b < a,
{
    let q = (a / b) as int;
    let rem = (a % b) as int;
    let bi = b as int;
    vstd::arithmetic::div_mod::lemma_fundamental_div_mod(a as int, bi);
    assert(q * bi == bi * q) by (nonlinear_arith);
    assert((q + 1) * bi == q * bi + bi) by (nonlinear_arith);
    assert((q - 1) * bi == q * bi - bi) by (nonlinear_arith);
    assert(q < usize::MAX || rem == 0) by (nonlinear_arith)
        requires
            a == bi * q + rem,
            0 <= rem < bi,
            0 <= q,
            a <= usize::MAX,
    ;
}

/// A product that fits.
pub fn product(a: usize, b: usize) -> (r: usize)
    requires
        a * b <= usize::MAX,
    ensures
        r == a * b,
{
    proof {
        assert(0 <= a * b) by (nonlinear_arith);
    }
    a * b
}

/// The product of all factors, where every partial product fits.
pub open spec fn fold_product(factors: Seq<usize>) -> Option<usize>
    decreases factors.len(),
{
    if factors.len() == 0 {
        Some(1usize)
    } else {
        match fold_product(factors.drop_last()) {
            Some(n) => if n * factors.last() <= usize::MAX {
                Some((n * factors.last()) as usize)
            } else {
                None
            },
            None => None,
        }
    }
}

proof fn lemma_fold_overflow_persists(factors: Seq<usize>, i: int)
    requires
        0 <= i <= factors.len(),
        fold_product(factors.take(i)) is None,
    ensures
        fold_product(factors) is None,
    decreases factors.len() - i,
{
    if i == factors.len() {
        assert(factors.take(i) =~= factors);
    } else {
        assert(factors.take(i + 1).drop_last() =~= factors.take(i));
        lemma_fold_overflow_persists(factors, i + 1);
    }
}

/// The product of all factors, where every partial product fits.
pub fn checked_fold_product(factors: &[usize]) -> (r: Option<usize>)
    ensures
        r == fold_product(factors@),
{
    let mut n: usize = 1;
    let mut i: usize = 0;
    assert(factors@.take(0) =~= Seq::<usize>::empty());
    while i < factors.len()
        invariant
            i <= factors@.len(),
            fold_product(factors@.take(i as int)) == Some(n),
        decreases factors@.len() - i,
    {
        assert(factors@.take(i + 1).drop_last() =~= factors@.take(i as int));
        match n.checked_mul(factors[i]) {
            Some(next) => {
                n = next;
            },
            None => {
                proof {
                    lemma_fold_overflow_persists(factors@, i + 1);
                }
                return None;
            },
        }
        i = i + 1;
    }
    assert(factors@.take(i as int) =~= factors@);
    Some(n)
}

/// A product of two or three factors that exists is the product of numbers.
pub proof fn law_fold_product_is_product(a: usize, b: usize, c: usize)
    ensures
        fold_product(seq![a, b]) == (if a * b <= usize::MAX {
            Some((a * b) as usize)
        } else {
            None
        }),
        fold_product(seq![a, b, c]) == (if a * b <= usize::MAX && a * b * c <= usize::MAX {
            Some((a * b * c) as usize)
        } else {
            None
        }),
{
    reveal_with_fuel(fold_product, 4);
    assert(seq![a, b, c].drop_last() =~= seq![a, b]);
    assert(seq![a, b].drop_last() =~= seq![a]);
    assert(seq![a].drop_last() =~= Seq::<usize>::empty());
    assert(0 <= a * b) by (nonlinear_arith);
    assert(1 * a == a);
}

/// Whether `n` is a power of two.
pub fn is_power_of_two(n: usize) -> (r: bool)
    ensures
        r == is_pow2(n as int),
{
    if n == 0 {
        proof {
            reveal_with_fuel(is_pow2, 2);
        }
        return false;
    }
    let mut m: usize = n;
    while m % 2 == 0
        invariant
            m > 0,
            is_pow2(n as int) == is_pow2(m as int),
        decreases m,
    {
        proof {
            reveal_with_fuel(is_pow2, 2);
        }
        m = m / 2;
    }
    proof {
        reveal_with_fuel(is_pow2, 2);
    }
    m == 1
}

pub open spec fn smaller(a: usize, b: usize) -> usize {
    if a <= b {
        a
    } else {
        b
    }
}

/// The smaller of two sizes.
pub fn min_size(a: usize, b: usize) -> (r: usize)
    ensures
        r == smaller(a, b),
{
    if a <= b {
        a
    } else {
        b
    }
}

pub open spec fn larger(a: usize, b: usize) -> usize {
    if a >= b {
        a
    } else {
        b
    }
}

/// The larger of two sizes.
pub fn max_size(a: usize, b: usize) -> (r: usize)
    ensures
        r == larger(a, b),
{
    if a >= b {
        a
    } else {
        b
    }
}

} // verus!
