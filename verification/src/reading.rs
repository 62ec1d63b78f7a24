//! A temperature, kept as the bit pattern of an IEEE 754 single precision number.

use vstd::prelude::*;

verus! {

/// A temperature. `bits` is the bit pattern of the number.
#[derive(Clone, Copy, Debug, PartialEq, Eq)]
pub struct Reading {
    pub bits: u32,
}

impl Reading {
    /// The bit pattern without its sign.
    pub open spec fn magnitude(self) -> int {
        self.bits as int % 0x8000_0000
    }

    /// Whether the bit pattern is that of no number.
    pub open spec fn is_nan(self) -> bool {
        self.magnitude() > 0x7f80_0000
    }

    /// Whether two bit patterns are those of equal numbers: not-a-number equals
    /// nothing, the two zeros equal each other, and otherwise the bits are the same.
    pub open spec fn same(self, other: Reading) -> bool {
        &&& !self.is_nan()
        &&& !other.is_nan()
        &&& self.bits == other.bits || (self.magnitude() == 0 && other.magnitude() == 0)
    }

    /// Whether the two are equal numbers.
    pub fn equals(&self, other: &Reading) -> (r: bool)
        ensures
            r == self.same(*other),
    {
        let a: u32 = self.bits % 0x8000_0000;
        let b: u32 = other.bits % 0x8000_0000;
        a <= 0x7f80_0000 && b <= 0x7f80_0000 && (self.bits == other.bits || (a == 0 && b == 0))
    }
}

/// Equality of readings is that of single precision numbers. With the exponent all
/// ones and anything below it, bits are of no number, and equal nothing. The two
/// zeros are equal. Other bits are equal to themselves only.
pub proof fn law_same_is_equality_of_numbers(a: Reading, b: Reading)
    ensures
        0x7f80_0001 <= a.bits <= 0x7fff_ffff ==> !a.same(b) && !b.same(a),
        0xff80_0001 <= a.bits ==> !a.same(b) && !b.same(a),
        a.bits <= 0x7f80_0000 || 0x8000_0000 <= a.bits <= 0xff80_0000 ==> a.same(a),
        a.bits == 0 && b.bits == 0x8000_0000 ==> a.same(b) && b.same(a),
        a.bits != b.bits && a.bits != 0 && a.bits != 0x8000_0000 ==> !a.same(b) && !b.same(a),
        a.bits != b.bits && b.bits != 0 && b.bits != 0x8000_0000 ==> !a.same(b) && !b.same(a),
{
}

/// Readings that are numbers fall into classes of equal ones: what equals a reading
/// equals whatever the reading equals, in either order.
pub proof fn law_same_is_an_equivalence(a: Reading, b: Reading, c: Reading)
    ensures
        a.same(b) ==> b.same(a),
        a.same(b) && b.same(c) ==> a.same(c),
        a.same(a) <==> !a.is_nan(),
{
}

} // verus!
