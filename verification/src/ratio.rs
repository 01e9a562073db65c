//! Exact rational scale factors.
//!
//! Every subfeature kind converts between the integer text a sysfs attribute
//! holds (the raw, native reading) and an engineering-unit value through a
//! fixed multiplicative scale, kept here as an exact pair of unsigned
//! integers so that no precision is lost in the tables themselves.

use vstd::prelude::*;

verus! {

/// The ratio between two numbers.
///
/// As a scale factor, `denom / numer` converts an engineering-unit value to
/// the raw sysfs reading, and its reciprocal converts back.
#[derive(Clone, Copy, Debug, PartialEq, Eq, Structural)]
pub struct Ratio {
    pub numer: u64,
    pub denom: u64,
}

impl Ratio {
    /// Creates a `Ratio` without checking for `denom == 0` or reducing.
    pub fn new_raw(numer: u64, denom: u64) -> (r: Ratio)
        ensures
            r == (Ratio { numer, denom }),
    {
        Ratio { numer, denom }
    }

    /// The numerator.
    pub fn numer(&self) -> (r: u64)
        ensures
            r == self.numer,
    {
        self.numer
    }

    /// The denominator.
    pub fn denom(&self) -> (r: u64)
        ensures
            r == self.denom,
    {
        self.denom
    }

    /// A usable scale has neither component zero.
    pub open spec fn wf(self) -> bool {
        self.numer >= 1 && self.denom >= 1
    }
}

/// The integer nearest to `a / b` for positive `b`, ties rounded towards
/// positive infinity.
pub open spec fn rounded_div(a: int, b: int) -> int {
    if 2 * (a % b) < b {
        a / b
    } else {
        a / b + 1
    }
}

/// The engineering-unit value of the raw reading `r` under `scale`, as an
/// exact fraction (numerator, denominator).
pub open spec fn to_unity_frac(r: int, scale: Ratio) -> (int, int) {
    (r * scale.numer, scale.denom as int)
}

/// The raw reading nearest to the engineering-unit value `p / q` under
/// `scale`.
pub open spec fn to_native_rounded(p: int, q: int, scale: Ratio) -> int {
    rounded_div(p * scale.denom, q * scale.numer)
}

/// Converting a raw reading to its engineering-unit value and that value
/// back to a raw reading, at exact rational precision, returns the original
/// reading, for every scale with nonzero components.
pub proof fn lemma_scale_round_trip(r: int, scale: Ratio)
    requires
        scale.wf(),
    ensures
        to_native_rounded(to_unity_frac(r, scale).0, to_unity_frac(r, scale).1, scale) == r,
{
    let n = scale.numer as int;
    let d = scale.denom as int;
    assert(d * n >= 1) by (nonlinear_arith)
        requires
            n >= 1,
            d >= 1,
    ;
    assert((r * n) * d == r * (d * n)) by (nonlinear_arith);
    vstd::arithmetic::div_mod::lemma_mod_multiples_basic(r, d * n);
    vstd::arithmetic::div_mod::lemma_div_multiples_vanish(r, d * n);
    assert(r * (d * n) == (d * n) * r) by (nonlinear_arith);
}

} // verus!
