use vstd::prelude::*;

verus! {

/// The product of two `u64` values fits in a `u128`.
proof fn lemma_product_fits_u128(a: u64, b: u64)
    ensures
        0 <= (a as int) * (b as int) <= u128::MAX,
{
    assert(0 <= (a as int) * (b as int) <= u64::MAX * u64::MAX) by (nonlinear_arith)
        requires
            0 <= a <= u64::MAX,
            0 <= b <= u64::MAX,
    ;
}

/// A non-negative fraction `num / den`.
///
/// Fractions are not reduced: two ratios with the same value may have
/// different fields, so compare values with `same_value`.
#[derive(Clone, Copy, Debug)]
pub struct Ratio {
    pub num: u64,
    pub den: u64,
}

impl Ratio {
    /// A ratio is meaningful when its denominator is positive.
    pub open spec fn wf(self) -> bool {
        self.den > 0
    }

    /// `self` has the value `n / d` (for `d > 0`).
    pub open spec fn has_value(self, n: int, d: int) -> bool {
        self.num * d == n * self.den
    }

    pub fn new(num: u64, den: u64) -> (r: Ratio)
        requires
            den > 0,
        ensures
            r.num == num,
            r.den == den,
            r.wf(),
    {
        Ratio { num, den }
    }

    /// Whether the two fractions denote the same number.
    pub fn same_value(&self, other: &Ratio) -> (r: bool)
        ensures
            r == self.has_value(other.num as int, other.den as int),
    {
        proof {
            lemma_product_fits_u128(self.num, other.den);
            lemma_product_fits_u128(other.num, self.den);
        }
        (self.num as u128) * (other.den as u128) == (other.num as u128) * (self.den as u128)
    }

    /// Whether `self <= other` as numbers.
    pub fn le(&self, other: &Ratio) -> (r: bool)
        ensures
            r == (self.num * other.den <= other.num * self.den),
    {
        proof {
            lemma_product_fits_u128(self.num, other.den);
            lemma_product_fits_u128(other.num, self.den);
        }
        (self.num as u128) * (other.den as u128) <= (other.num as u128) * (self.den as u128)
    }
}

} // verus!
