//! What a matrix asks of the type of its coefficients.

use vstd::prelude::*;

verus! {

/// A machine number that stands for a mathematical integer.
///
/// Contracts speak of a coefficient through [`value`](Coefficient::value), so
/// sums and products are those of the integers. The executable operations are
/// partial: each asks that its result has room in the type, which
/// [`fits`](Coefficient::fits) decides.
pub trait Coefficient: Copy {
    /// The integer that the coefficient stands for.
    spec fn value(self) -> int;

    /// Whether the type has room for the integer `v`.
    spec fn fits(v: int) -> bool;

    /// The type has room for the integer of each of its coefficients.
    proof fn value_fits(self)
        ensures
            Self::fits(self.value()),
    ;

    /// Coefficients that stand for the same integer are the same coefficient.
    proof fn value_is_injective(a: Self, b: Self)
        requires
            a.value() == b.value(),
        ensures
            a == b,
    ;

    /// The type has room for both identity elements.
    proof fn units_fit()
        ensures
            Self::fits(0),
            Self::fits(1),
    ;

    /// The additive identity.
    fn zero() -> (r: Self)
        ensures
            r.value() == 0,
    ;

    /// The multiplicative identity.
    fn one() -> (r: Self)
        ensures
            r.value() == 1,
    ;

    /// The sum of two coefficients, where the type has room for it.
    fn sum(self, rhs: Self) -> (r: Self)
        requires
            Self::fits(self.value() + rhs.value()),
        ensures
            r.value() == self.value() + rhs.value(),
    ;

    /// The product of two coefficients, where the type has room for it.
    fn product(self, rhs: Self) -> (r: Self)
        requires
            Self::fits(self.value() * rhs.value()),
        ensures
            r.value() == self.value() * rhs.value(),
    ;
}

} // verus!
