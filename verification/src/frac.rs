//! Exact rational numbers with a positive denominator.
//!
//! Zoom factors and world coordinates are ratios of pixel counts, so the
//! whole kernel is stated over this type instead of floating point. Values
//! are not normalised; contracts compare fractions by cross-multiplication.

use vstd::arithmetic::div_mod::lemma_fundamental_div_mod;
use vstd::prelude::*;

verus! {

/// An exact rational number `num / den` with a positive denominator.
#[derive(Clone, Copy, Debug, PartialEq, Eq, Structural)]
pub struct Frac {
    pub num: i64,
    pub den: i64,
}

impl Frac {
    /// The denominator is positive, so the value `num / den` is defined.
    pub open spec fn wf(self) -> bool {
        self.den >= 1
    }

    /// Both parts are small enough that cross-multiplying two such
    /// fractions stays far inside the `i64` range.
    pub open spec fn bounded(self, b: int) -> bool {
        &&& -b <= self.num <= b
        &&& 1 <= self.den <= b
    }

    /// `self <= other`, by cross-multiplication.
    pub open spec fn le(self, other: Frac) -> bool {
        self.num * other.den <= other.num * self.den
    }

    /// `self == other` as values, by cross-multiplication.
    pub open spec fn eq_val(self, other: Frac) -> bool {
        self.num * other.den == other.num * self.den
    }

    /// The largest integer at most `self` (the denominator is positive, so
    /// Euclidean division is the floor).
    pub open spec fn floor(self) -> int {
        self.num / self.den
    }

    /// The nearest integer to `self`, halves rounding up.
    pub open spec fn round(self) -> int {
        (2 * self.num + self.den) / (2 * self.den)
    }

    /// `self >= 1`.
    pub open spec fn at_least_one(self) -> bool {
        self.num >= self.den
    }

    /// `self` is a whole number.
    pub open spec fn is_integer(self) -> bool {
        self.num % self.den == 0
    }

    /// The smaller of two fractions by value; `self` when they are equal.
    pub open spec fn spec_min(self, other: Frac) -> Frac {
        if self.le(other) {
            self
        } else {
            other
        }
    }

    /// The smaller of two fractions by value.
    pub fn min(self, other: Frac) -> (r: Frac)
        requires
            self.bounded(crate::MAX_DIM as int),
            other.bounded(crate::MAX_DIM as int),
        ensures
            r == self.spec_min(other),
    {
        proof {
            lemma_cross_mul_bounded(self, other, crate::MAX_DIM as int);
            lemma_cross_mul_bounded(other, self, crate::MAX_DIM as int);
        }
        if self.num * other.den <= other.num * self.den {
            self
        } else {
            other
        }
    }

    /// `self` clamped from below to 1.
    pub open spec fn spec_clamp_one(self) -> Frac {
        if self.at_least_one() {
            self
        } else {
            Frac { num: 1, den: 1 }
        }
    }

    /// `self` clamped from below to 1.
    pub fn clamp_one(self) -> (r: Frac)
        ensures
            r == self.spec_clamp_one(),
    {
        if self.num >= self.den {
            self
        } else {
            Frac { num: 1, den: 1 }
        }
    }
}

/// The cross-product of two fractions whose parts are bounded by `bound`
/// stays within `bound * bound`.
pub proof fn lemma_cross_mul_bounded(a: Frac, b: Frac, bound: int)
    by (nonlinear_arith)
    requires
        a.bounded(bound),
        b.bounded(bound),
        bound >= 1,
    ensures
        -bound * bound <= a.num * b.den <= bound * bound,
{
}

/// The quotient of non-negative `a` by positive `b` lies between 0 and `a`.
pub proof fn lemma_div_range(a: int, b: int)
    requires
        0 <= a,
        1 <= b,
    ensures
        0 <= a / b <= a,
{
    lemma_fundamental_div_mod(a, b);
    let q = a / b;
    let r = a % b;
    assert(0 <= q <= a) by (nonlinear_arith)
        requires
            a == b * q + r,
            0 <= r < b,
            1 <= b,
            0 <= a,
    ;
}

/// A fraction whose value is at least one has a floor of at least one.
pub proof fn lemma_div_at_least_one(n: int, d: int)
    requires
        1 <= d <= n,
    ensures
        1 <= n / d,
{
    lemma_fundamental_div_mod(n, d);
    let q = n / d;
    let r = n % d;
    assert(1 <= q) by (nonlinear_arith)
        requires
            n == d * q + r,
            0 <= r < d,
            1 <= d <= n,
    ;
}

/// Rounding a positive fraction `n / d` to the nearest whole number, halves
/// up, gives a result between 0 and `n`.
pub proof fn lemma_round_range(n: int, d: int)
    requires
        1 <= n,
        1 <= d,
    ensures
        0 <= (2 * n + d) / (2 * d) <= n,
{
    lemma_fundamental_div_mod(2 * n + d, 2 * d);
    let q = (2 * n + d) / (2 * d);
    let r = (2 * n + d) % (2 * d);
    assert(0 <= q <= n) by (nonlinear_arith)
        requires
            2 * n + d == 2 * d * q + r,
            0 <= r < 2 * d,
            1 <= d,
            1 <= n,
    ;
}

} // verus!
