use vstd::prelude::*;

verus! {

/// The word of `+0.0`.
pub const ZERO: u64 = 0;

/// The word of `1.0`.
pub const ONE: u64 = 0x3FF0_0000_0000_0000;

/// The word of `-1.0`.
pub const NEG_ONE: u64 = 0xBFF0_0000_0000_0000;

/// The word of `2.0`.
pub const TWO: u64 = 0x4000_0000_0000_0000;

/// The sign bit of a binary64 word.
pub const SIGN_BIT: u64 = 0x8000_0000_0000_0000;

/// The magnitude of positive infinity: all exponent bits set, no fraction bit.
pub const INFINITY_MAGNITUDE: u64 = 0x7FF0_0000_0000_0000;

/// The word without its sign bit.
pub open spec fn spec_magnitude(w: u64) -> int {
    if w >= SIGN_BIT {
        w - SIGN_BIT
    } else {
        w as int
    }
}

/// A word stands for a number, finite or infinite, unless its magnitude lies
/// above that of infinity.
pub open spec fn spec_is_nan(w: u64) -> bool {
    spec_magnitude(w) > INFINITY_MAGNITUDE
}

pub open spec fn spec_is_finite(w: u64) -> bool {
    spec_magnitude(w) < INFINITY_MAGNITUDE
}

/// Numbers of one sign are ordered as their magnitudes are, so a word's place
/// in the order is its magnitude, negated under the sign bit. Both zeros share
/// place 0.
pub open spec fn spec_ordinal(w: u64) -> int {
    if w >= SIGN_BIT {
        -spec_magnitude(w)
    } else {
        spec_magnitude(w)
    }
}

/// `a >= b` as binary64 numbers: false as soon as one of them is no number.
pub open spec fn spec_ge(a: u64, b: u64) -> bool {
    !spec_is_nan(a) && !spec_is_nan(b) && spec_ordinal(a) >= spec_ordinal(b)
}

pub fn magnitude(w: u64) -> (r: u64)
    ensures
        r == spec_magnitude(w),
{
    if w >= SIGN_BIT {
        w - SIGN_BIT
    } else {
        w
    }
}

pub fn is_nan(w: u64) -> (r: bool)
    ensures
        r == spec_is_nan(w),
{
    magnitude(w) > INFINITY_MAGNITUDE
}

pub fn is_finite(w: u64) -> (r: bool)
    ensures
        r == spec_is_finite(w),
{
    magnitude(w) < INFINITY_MAGNITUDE
}

pub fn ge(a: u64, b: u64) -> (r: bool)
    ensures
        r == spec_ge(a, b),
{
    let ma = magnitude(a);
    let mb = magnitude(b);
    if ma > INFINITY_MAGNITUDE || mb > INFINITY_MAGNITUDE {
        false
    } else if a < SIGN_BIT {
        b >= SIGN_BIT || ma >= mb
    } else if b < SIGN_BIT {
        ma == 0 && mb == 0
    } else {
        ma <= mb
    }
}

/// `a <= b` as binary64 numbers.
pub fn le(a: u64, b: u64) -> (r: bool)
    ensures
        r == spec_ge(b, a),
{
    ge(b, a)
}

} // verus!
