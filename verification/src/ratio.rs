//! Exact fractions for the two real-valued quantities of an evaluation.

use vstd::prelude::*;

verus! {

/// A quotient of two mathematical integers. It stands for the real number
/// `num / den` whenever `den` is not zero.
pub struct Fraction {
    pub num: int,
    pub den: int,
}

impl Fraction {
    /// The fraction denotes a number.
    pub open spec fn defined(self) -> bool {
        self.den != 0
    }

    /// Both fractions denote the same number.
    pub open spec fn same_value(self, other: Fraction) -> bool {
        self.defined() && other.defined() && self.num * other.den == other.num * self.den
    }

    /// The fraction is written over a positive denominator and lies in `[0, 1]`.
    pub open spec fn in_unit_interval(self) -> bool {
        self.den > 0 && 0 <= self.num <= self.den
    }

    /// The product with `num / den`.
    pub open spec fn times(self, num: int, den: int) -> Fraction {
        Fraction { num: self.num * num, den: self.den * den }
    }

    /// The sum with the integer `k`.
    pub open spec fn plus(self, k: int) -> Fraction {
        Fraction { num: self.num + k * self.den, den: self.den }
    }

    /// Numerator and denominator are both representable in a `Ratio`.
    pub open spec fn representable(self) -> bool {
        i128::MIN <= self.num <= i128::MAX && i128::MIN <= self.den <= i128::MAX
    }
}

/// An exact fraction with machine-integer parts.
///
/// A `Ratio` is not kept in lowest terms, and its denominator may have either
/// sign; a zero denominator marks a quotient that is not a number.
#[derive(Debug, Clone, Copy)]
pub struct Ratio {
    pub num: i128,
    pub den: i128,
}

impl View for Ratio {
    type V = Fraction;

    open spec fn view(&self) -> Fraction {
        Fraction { num: self.num as int, den: self.den as int }
    }
}

impl Ratio {
    /// The fraction `num / den`.
    pub fn new(num: i128, den: i128) -> (r: Ratio)
        ensures
            r@ == (Fraction { num: num as int, den: den as int }),
    {
        Ratio { num, den }
    }

    /// The fraction `0 / 1`.
    pub fn zero() -> (r: Ratio)
        ensures
            r@ == (Fraction { num: 0, den: 1 }),
    {
        Ratio { num: 0, den: 1 }
    }

    /// Whether the denominator is not zero.
    pub fn is_defined(&self) -> (b: bool)
        ensures
            b == self@.defined(),
    {
        self.den != 0
    }

    /// Whether the fraction is written over a positive denominator and lies
    /// in `[0, 1]`.
    pub fn is_in_unit_interval(&self) -> (b: bool)
        ensures
            b == self@.in_unit_interval(),
    {
        self.den > 0 && 0 <= self.num && self.num <= self.den
    }
}

impl Default for Ratio {
    fn default() -> (r: Ratio)
        ensures
            r@ == (Fraction { num: 0, den: 1 }),
    {
        Ratio { num: 0, den: 1 }
    }
}

} // verus!
