//! The ket: a two-component vector of complex amplitudes.
use crate::ieee::{
    approx_eq_ulps, bits_eq, is_nan, magnitude, same_value, ulps_between, within_ulps,
    INFINITY_BITS, ONE_BITS, ZERO_BITS,
};
use vstd::prelude::*;

verus! {

/// A complex amplitude, each part held as its binary64 bit pattern.
#[derive(Debug, Clone, Copy)]
pub struct Amplitude {
    pub re: u64,
    pub im: u64,
}

impl Amplitude {
    /// Exact floating-point equality of both parts.
    pub open spec fn same(self, other: Amplitude) -> bool {
        same_value(self.re, other.re) && same_value(self.im, other.im)
    }

    /// Neither part is a NaN.
    pub open spec fn is_ordered(self) -> bool {
        !is_nan(self.re) && !is_nan(self.im)
    }

    /// Builds an amplitude from the bit patterns of its real and imaginary parts.
    pub fn new(re: u64, im: u64) -> (r: Amplitude)
        ensures
            r.re == re,
            r.im == im,
    {
        Amplitude { re, im }
    }

    /// `0 + 0i`, the additive identity.
    pub fn zero() -> (r: Amplitude)
        ensures
            r.re == ZERO_BITS,
            r.im == ZERO_BITS,
    {
        Amplitude { re: ZERO_BITS, im: ZERO_BITS }
    }

    /// `1 + 0i`, the multiplicative identity.
    pub fn one() -> (r: Amplitude)
        ensures
            r.re == ONE_BITS,
            r.im == ZERO_BITS,
    {
        Amplitude { re: ONE_BITS, im: ZERO_BITS }
    }
}

impl PartialEq for Amplitude {
    fn eq(&self, other: &Amplitude) -> (r: bool) {
        bits_eq(self.re, other.re) && bits_eq(self.im, other.im)
    }
}

impl vstd::std_specs::cmp::PartialEqSpecImpl for Amplitude {
    open spec fn obeys_eq_spec() -> bool {
        true
    }

    open spec fn eq_spec(&self, other: &Amplitude) -> bool {
        self.same(*other)
    }
}

/// A single-qubit state vector: the amplitudes of |0> and |1>.
///
/// Any pair of amplitudes is a value of this type; whether it is a physical
/// state is a separate question (see [`ValidQuantumState`]).
#[derive(Debug, Clone, Copy)]
pub struct Ket {
    pub first: Amplitude,
    pub second: Amplitude,
}

impl Ket {
    /// Component-wise exact equality.
    pub open spec fn same(self, other: Ket) -> bool {
        self.first.same(other.first) && self.second.same(other.second)
    }

    /// No component is a NaN.
    pub open spec fn is_ordered(self) -> bool {
        self.first.is_ordered() && self.second.is_ordered()
    }

    /// Builds a ket from its two amplitudes; no check is made.
    pub fn new(first: Amplitude, second: Amplitude) -> (r: Ket)
        ensures
            r.first == first,
            r.second == second,
    {
        Ket { first, second }
    }

    /// The ket `[1, 0]`, written |0>, analogous to the classical bit 0.
    pub fn zero() -> (r: Ket)
        ensures
            r.first.re == ONE_BITS && r.first.im == ZERO_BITS,
            r.second.re == ZERO_BITS && r.second.im == ZERO_BITS,
    {
        Ket { first: Amplitude::one(), second: Amplitude::zero() }
    }

    /// The ket `[0, 1]`, written |1>, analogous to the classical bit 1.
    pub fn one() -> (r: Ket)
        ensures
            r.first.re == ZERO_BITS && r.first.im == ZERO_BITS,
            r.second.re == ONE_BITS && r.second.im == ZERO_BITS,
    {
        Ket { first: Amplitude::zero(), second: Amplitude::one() }
    }
}

impl PartialEq for Ket {
    fn eq(&self, other: &Ket) -> (r: bool) {
        self.first == other.first && self.second == other.second
    }
}

impl vstd::std_specs::cmp::PartialEqSpecImpl for Ket {
    open spec fn obeys_eq_spec() -> bool {
        true
    }

    open spec fn eq_spec(&self, other: &Ket) -> bool {
        self.same(*other)
    }
}

/// A quantum state that can tell whether it is physically valid, that is,
/// whether the squared norms of its amplitudes sum to one.
pub trait ValidQuantumState {
    fn is_valid(&self) -> bool;
}

/// How far, in units in the last place, a sum of squared norms may stray
/// from `1.0` and still count as one.
pub const VALIDITY_ULPS: u64 = 2;

/// Whether a sum of squared amplitude norms, given as its bit pattern, counts
/// as one: rounding noise of at most two units in the last place is accepted.
/// An infinite or NaN sum never counts as one.
pub fn is_unit_norm(norm_sqr_sum: u64) -> (r: bool)
    ensures
        r == within_ulps(norm_sqr_sum, ONE_BITS, VALIDITY_ULPS),
        r == (ulps_between(norm_sqr_sum, ONE_BITS) <= VALIDITY_ULPS),
        magnitude(norm_sqr_sum) >= INFINITY_BITS ==> !r,
{
    approx_eq_ulps(norm_sqr_sum, ONE_BITS, VALIDITY_ULPS)
}

/// Every ket whose components are not NaN equals itself.
pub proof fn lemma_eq_reflexive(k: Ket)
    requires
        k.is_ordered(),
    ensures
        k.same(k),
{
}

/// Equality of kets is symmetric.
pub proof fn lemma_eq_symmetric(a: Ket, b: Ket)
    ensures
        a.same(b) == b.same(a),
{
}

/// Equality of kets is transitive.
pub proof fn lemma_eq_transitive(a: Ket, b: Ket, c: Ket)
    requires
        a.same(b),
        b.same(c),
    ensures
        a.same(c),
{
}

} // verus!
