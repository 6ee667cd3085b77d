//! The numbers that vectors and matrices are made of.
//!
//! The library never looks inside a number. It asks for the operations
//! below and states every result of its own over their spec functions.

use vstd::prelude::*;

verus! {

/// A number with the arithmetic that the library needs.
///
/// Each executable method returns what the spec function beside it names:
/// a function of the operands and of nothing else. No law of arithmetic is
/// asked for (no commutativity, no zero that absorbs, no exact division), so
/// that floats can stand behind it. An implementation outside this crate is
/// trusted to keep to that.
pub trait Number: Sized + Copy {
    /// `self + other`.
    spec fn sum(self, other: Self) -> Self;

    /// `self - other`.
    spec fn difference(self, other: Self) -> Self;

    /// `self * other`.
    spec fn product(self, other: Self) -> Self;

    /// `self / other`.
    spec fn quotient(self, other: Self) -> Self;

    /// `-self`.
    spec fn negation(self) -> Self;

    /// The square root of `self`.
    spec fn square_root(self) -> Self;

    /// The absolute value of `self`.
    spec fn absolute(self) -> Self;

    /// The number one.
    spec fn unit() -> Self;

    /// The number zero.
    spec fn nought() -> Self;

    /// Whether `self` compares equal to zero.
    spec fn is_zero(self) -> bool;

    /// Whether `self` is strictly less than `bound`.
    spec fn is_below(self, bound: Self) -> bool;

    fn plus(self, other: Self) -> (r: Self)
        ensures
            r == self.sum(other),
    ;

    fn minus(self, other: Self) -> (r: Self)
        ensures
            r == self.difference(other),
    ;

    fn times(self, other: Self) -> (r: Self)
        ensures
            r == self.product(other),
    ;

    fn over(self, other: Self) -> (r: Self)
        ensures
            r == self.quotient(other),
    ;

    fn negated(self) -> (r: Self)
        ensures
            r == self.negation(),
    ;

    fn sqrt(self) -> (r: Self)
        ensures
            r == self.square_root(),
    ;

    fn abs(self) -> (r: Self)
        ensures
            r == self.absolute(),
    ;

    fn one() -> (r: Self)
        ensures
            r == Self::unit(),
    ;

    fn zero() -> (r: Self)
        ensures
            r == Self::nought(),
    ;

    fn zero_valued(self) -> (r: bool)
        ensures
            r == self.is_zero(),
    ;

    fn below(self, bound: Self) -> (r: bool)
        ensures
            r == self.is_below(bound),
    ;
}

} // verus!
