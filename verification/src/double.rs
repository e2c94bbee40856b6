//! Doubles by the bits of their IEEE 754 form: one sign bit, eleven exponent bits, 52 fraction
//! bits.
use vstd::prelude::*;

verus! {

/// One more than the largest fraction.
pub const FRACTIONS: u64 = 4503599627370496;

/// The number of exponents.
pub const EXPONENTS: u64 = 2048;

/// The bits that stand for every double that is not a number.
pub const NOT_A_NUMBER: u64 = 9221120237041090560;

/// The exponent with all bits set marks the infinities and what is not a number.
pub open spec fn finite(bits: u64) -> bool {
    (bits as int / FRACTIONS as int) % EXPONENTS as int != EXPONENTS - 1
}

/// A double that is no number: not finite, and with a fraction.
pub open spec fn not_a_number(bits: u64) -> bool {
    !finite(bits) && bits as int % FRACTIONS as int != 0
}

/// The bits by which a double is told from another: a double that is not a number has many bit
/// forms, and none is told from another.
pub open spec fn told(bits: u64) -> u64 {
    if not_a_number(bits) {
        NOT_A_NUMBER
    } else {
        bits
    }
}

/// Tells whether a double is finite.
pub fn is_finite(bits: u64) -> (r: bool)
    ensures
        r == finite(bits),
{
    (bits / FRACTIONS) % EXPONENTS != EXPONENTS - 1
}

/// Tells apart which doubles are finite after `told`: the same as before.
pub proof fn lemma_told(bits: u64)
    ensures
        finite(told(bits)) == finite(bits),
        told(told(bits)) == told(bits),
{
}

} // verus!
