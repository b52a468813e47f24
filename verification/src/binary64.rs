//! IEEE 754 binary64 numbers as 64-bit patterns: one sign bit, eleven
//! exponent bits, fifty-two fraction bits.

use vstd::prelude::*;

verus! {

/// The sign bit alone: the pattern of negative zero.
pub const SIGN_BIT: u64 = 0x8000_0000_0000_0000;

/// Positive infinity. A larger magnitude is not a number.
pub const INFINITY: u64 = 0x7FF0_0000_0000_0000;

/// Positive zero.
pub const ZERO: u64 = 0;

/// The number one.
pub const ONE: u64 = 0x3FF0_0000_0000_0000;

/// The number two.
pub const TWO: u64 = 0x4000_0000_0000_0000;

/// The number six.
pub const SIX: u64 = 0x4018_0000_0000_0000;

/// Whether the sign bit is set.
pub open spec fn sign(bits: u64) -> bool {
    bits >= SIGN_BIT
}

/// The pattern without its sign bit. Among the patterns that are numbers,
/// a larger magnitude is a larger absolute value.
pub open spec fn magnitude(bits: u64) -> int {
    if sign(bits) {
        bits - SIGN_BIT
    } else {
        bits as int
    }
}

/// Whether the pattern is not a number: all exponent bits set and a
/// fraction other than zero.
pub open spec fn is_nan(bits: u64) -> bool {
    magnitude(bits) > INFINITY
}

/// An integer that orders the patterns as the numbers they stand for:
/// both zeros get 0, negative numbers the negated magnitude.
pub open spec fn rank(bits: u64) -> int {
    if sign(bits) {
        -magnitude(bits)
    } else {
        magnitude(bits)
    }
}

/// `a > b` as IEEE 754 defines it: false if either is not a number,
/// otherwise the order of the two numbers.
pub open spec fn greater(a: u64, b: u64) -> bool {
    !is_nan(a) && !is_nan(b) && rank(a) > rank(b)
}

/// `a > 0`: a number with the sign bit clear that is not zero. Positive
/// infinity is positive.
pub open spec fn positive(a: u64) -> bool {
    greater(a, ZERO)
}

/// The pattern without its sign bit.
pub fn magnitude_of(bits: u64) -> (m: u64)
    ensures
        m == magnitude(bits),
{
    if bits >= SIGN_BIT {
        bits - SIGN_BIT
    } else {
        bits
    }
}

/// Whether the pattern is not a number.
pub fn is_not_a_number(bits: u64) -> (r: bool)
    ensures
        r == is_nan(bits),
{
    magnitude_of(bits) > INFINITY
}

/// Decides `a > b` on the two patterns.
pub fn is_greater(a: u64, b: u64) -> (r: bool)
    ensures
        r == greater(a, b),
{
    if is_not_a_number(a) || is_not_a_number(b) {
        return false;
    }
    let a_size = magnitude_of(a);
    let b_size = magnitude_of(b);
    if a >= SIGN_BIT {
        b >= SIGN_BIT && a_size < b_size
    } else if b >= SIGN_BIT {
        a_size > 0 || b_size > 0
    } else {
        a_size > b_size
    }
}

/// Decides `a > 0` on the pattern.
pub fn is_positive(a: u64) -> (r: bool)
    ensures
        r == positive(a),
        r <==> 0 < a <= INFINITY,
{
    is_greater(a, ZERO)
}

/// No pattern is greater than itself, and of two patterns at most one is
/// greater than the other.
pub proof fn lemma_greater_is_strict(a: u64, b: u64)
    ensures
        !greater(a, a),
        greater(a, b) ==> !greater(b, a),
{
}

/// `greater` is transitive.
pub proof fn lemma_greater_is_transitive(a: u64, b: u64, c: u64)
    requires
        greater(a, b),
        greater(b, c),
    ensures
        greater(a, c),
{
}

/// What is greater than a positive number is positive.
pub proof fn lemma_greater_than_positive(a: u64, b: u64)
    requires
        greater(a, b),
        positive(b),
    ensures
        positive(a),
{
}

} // verus!
