//! IEEE-754 binary64 values held as their raw bit patterns.
//!
//! The library keeps every real number as the `u64` that `to_bits` gives for
//! it, so that comparisons can be stated and proved over plain integers.
use vstd::prelude::*;

verus! {

/// The sign bit of a binary64 pattern.
pub const SIGN_BIT: u64 = 0x8000_0000_0000_0000;

/// The pattern of positive infinity; every larger magnitude is a NaN.
pub const INFINITY_BITS: u64 = 0x7ff0_0000_0000_0000;

/// The pattern of `0.0`.
pub const ZERO_BITS: u64 = 0;

/// The pattern of `1.0`.
pub const ONE_BITS: u64 = 0x3ff0_0000_0000_0000;

/// The pattern with the sign bit cleared.
pub open spec fn magnitude(b: u64) -> u64 {
    if b >= SIGN_BIT {
        (b - SIGN_BIT) as u64
    } else {
        b
    }
}

pub open spec fn is_nan(b: u64) -> bool {
    magnitude(b) > INFINITY_BITS
}

/// `+0.0` or `-0.0`.
pub open spec fn is_zero(b: u64) -> bool {
    magnitude(b) == 0
}

/// IEEE-754 equality: no NaN equals anything, the two zeros are equal,
/// and otherwise two values are equal exactly when their patterns are.
pub open spec fn same_value(a: u64, b: u64) -> bool {
    &&& !is_nan(a)
    &&& !is_nan(b)
    &&& (a == b || (is_zero(a) && is_zero(b)))
}

/// A key that orders the patterns as the values they encode: the negative
/// patterns, reversed, below the positive ones, with `-0.0` just under `+0.0`.
pub open spec fn ordinal(b: u64) -> int {
    if b >= SIGN_BIT {
        0xffff_ffff_ffff_ffff - b
    } else {
        b + SIGN_BIT
    }
}

/// How many representable steps (units in the last place) lie between two patterns.
pub open spec fn ulps_between(a: u64, b: u64) -> nat {
    let d = ordinal(a) - ordinal(b);
    if d >= 0 {
        d as nat
    } else {
        (-d) as nat
    }
}

/// Approximate equality with no absolute margin: equal, or at most
/// `max_ulps` representable steps apart.
pub open spec fn within_ulps(a: u64, b: u64, max_ulps: u64) -> bool {
    same_value(a, b) || ulps_between(a, b) <= max_ulps
}

fn magnitude_of(b: u64) -> (r: u64)
    ensures
        r == magnitude(b),
{
    if b >= SIGN_BIT {
        b - SIGN_BIT
    } else {
        b
    }
}

/// Exact floating-point equality (`==` on `f64`) of two bit patterns.
pub fn bits_eq(a: u64, b: u64) -> (r: bool)
    ensures
        r == same_value(a, b),
{
    let ma = magnitude_of(a);
    let mb = magnitude_of(b);
    if ma > INFINITY_BITS || mb > INFINITY_BITS {
        false
    } else {
        a == b || (ma == 0 && mb == 0)
    }
}

fn ordinal_of(b: u64) -> (r: u64)
    ensures
        r as int == ordinal(b),
{
    if b >= SIGN_BIT {
        0xffff_ffff_ffff_ffff - b
    } else {
        b + SIGN_BIT
    }
}

/// The number of units in the last place that separate two values.
pub fn ulps_apart(a: u64, b: u64) -> (r: u64)
    ensures
        r as nat == ulps_between(a, b),
{
    let oa = ordinal_of(a);
    let ob = ordinal_of(b);
    if oa >= ob {
        oa - ob
    } else {
        ob - oa
    }
}

/// Whether two values are equal or at most `max_ulps` units in the last place apart.
pub fn approx_eq_ulps(a: u64, b: u64, max_ulps: u64) -> (r: bool)
    ensures
        r == within_ulps(a, b, max_ulps),
{
    bits_eq(a, b) || ulps_apart(a, b) <= max_ulps
}

} // verus!
