//! Single-precision numbers by their bits.

use vstd::prelude::*;

verus! {

/// A single-precision number, given by its IEEE 754 bits.
#[derive(Clone, Copy, Debug, PartialEq, Eq, Structural)]
pub struct F32Bits {
    pub bits: u32,
}

impl F32Bits {
    /// The sign bit is set.
    pub open spec fn negative(self) -> bool {
        self.bits >= 0x8000_0000
    }

    /// The bits without the sign. Numbers of one sign are ordered by them.
    pub open spec fn magnitude(self) -> u32 {
        self.bits % 0x8000_0000
    }

    /// Neither an infinity nor a NaN: the exponent is not the largest.
    pub open spec fn finite(self) -> bool {
        self.magnitude() < 0x7f80_0000
    }

    /// A finite number below zero. A zero of either sign is not.
    pub open spec fn below_zero(self) -> bool {
        self.negative() && self.magnitude() != 0
    }

    /// A finite number that is zero or less.
    pub open spec fn at_most_zero(self) -> bool {
        self.negative() || self.magnitude() == 0
    }

    /// A finite number that is one or less. One has the bits `0x3f80_0000`.
    pub open spec fn at_most_one(self) -> bool {
        self.negative() || self.magnitude() <= 0x3f80_0000
    }

    pub fn is_finite(self) -> (r: bool)
        ensures
            r == self.finite(),
    {
        self.bits % 0x8000_0000 < 0x7f80_0000
    }

    /// Whether a finite number is below zero.
    pub fn is_below_zero(self) -> (r: bool)
        requires
            self.finite(),
        ensures
            r == self.below_zero(),
    {
        self.bits >= 0x8000_0000 && self.bits % 0x8000_0000 != 0
    }

    /// Whether a finite number is zero or less.
    pub fn is_at_most_zero(self) -> (r: bool)
        requires
            self.finite(),
        ensures
            r == self.at_most_zero(),
    {
        self.bits >= 0x8000_0000 || self.bits % 0x8000_0000 == 0
    }

    /// Whether a finite number is one or less.
    pub fn is_at_most_one(self) -> (r: bool)
        requires
            self.finite(),
        ensures
            r == self.at_most_one(),
    {
        self.bits >= 0x8000_0000 || self.bits % 0x8000_0000 <= 0x3f80_0000
    }

    /// The place of the number in the total order: negative numbers run
    /// backwards from -1.
    pub open spec fn total_order(self) -> int {
        if self.negative() {
            -1 - self.magnitude()
        } else {
            self.magnitude() as int
        }
    }
}

/// A key that orders numbers as their total order does; `None` for a NaN.
pub fn greedy_total_order_key(bits: u32) -> (r: Option<u32>)
    ensures
        match r {
            Some(key) => F32Bits { bits }.magnitude() <= 0x7f80_0000 && key == F32Bits {
                bits,
            }.total_order() + 0x8000_0000,
            None => F32Bits { bits }.magnitude() > 0x7f80_0000,
        },
{
    let magnitude: u32 = bits % 0x8000_0000;
    if magnitude > 0x7f80_0000 {
        return None;
    }
    if bits >= 0x8000_0000 {
        Some(0x7fff_ffff - magnitude)
    } else {
        Some(0x8000_0000 + magnitude)
    }
}

/// The total order puts the finite numbers in their numeric order: numbers
/// below zero first, by falling magnitude, then the others by rising magnitude.
pub proof fn law_total_order_is_numeric(a: F32Bits, b: F32Bits)
    ensures
        a.negative() && !b.negative() ==> a.total_order() < b.total_order(),
        a.negative() && b.negative() ==> (a.total_order() < b.total_order() <==> a.magnitude()
            > b.magnitude()),
        !a.negative() && !b.negative() ==> (a.total_order() < b.total_order() <==> a.magnitude()
            < b.magnitude()),
        a.total_order() == b.total_order() <==> a == b,
{
}

} // verus!
