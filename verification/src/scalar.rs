//! The arithmetic that a coordinate type has to supply.

use vstd::prelude::*;

verus! {

/// A coordinate type: a number format with the four basic operations,
/// negation, a square root and an order.
///
/// Each operation comes as a pair. The specification function names the
/// result as a function of the operands; the executable method returns
/// exactly that value and always returns. Nothing else is asked of a format:
/// it may round, saturate, or hold values that compare as neither less nor
/// equal. An implementation answers for the pairing itself, so whatever is
/// proved about a format holds as far as its methods compute what its
/// specification functions name.
pub trait VertexFormat: Copy + Sized {
    /// The additive identity.
    spec fn zero_spec() -> Self;

    /// The sum `self + rhs`.
    spec fn add_spec(self, rhs: Self) -> Self;

    /// The difference `self - rhs`.
    spec fn sub_spec(self, rhs: Self) -> Self;

    /// The product `self * rhs`.
    spec fn mul_spec(self, rhs: Self) -> Self;

    /// The quotient `self / rhs`.
    spec fn div_spec(self, rhs: Self) -> Self;

    /// The additive inverse `-self`.
    spec fn neg_spec(self) -> Self;

    /// The square root of `self`.
    spec fn sqrt_spec(self) -> Self;

    /// Whether `self` is strictly below `rhs`.
    spec fn less_spec(self, rhs: Self) -> bool;

    /// Whether `self` and `rhs` are the same number. Two values may be the
    /// same number without being the same value, and a value need not be the
    /// same number as itself.
    spec fn equal_spec(self, rhs: Self) -> bool;

    fn zero() -> (r: Self)
        ensures
            r == Self::zero_spec(),
    ;

    fn add(self, rhs: Self) -> (r: Self)
        ensures
            r == self.add_spec(rhs),
    ;

    fn sub(self, rhs: Self) -> (r: Self)
        ensures
            r == self.sub_spec(rhs),
    ;

    fn mul(self, rhs: Self) -> (r: Self)
        ensures
            r == self.mul_spec(rhs),
    ;

    fn div(self, rhs: Self) -> (r: Self)
        ensures
            r == self.div_spec(rhs),
    ;

    fn neg(self) -> (r: Self)
        ensures
            r == self.neg_spec(),
    ;

    fn sqrt(self) -> (r: Self)
        ensures
            r == self.sqrt_spec(),
    ;

    fn less(self, rhs: Self) -> (r: bool)
        ensures
            r == self.less_spec(rhs),
    ;

    fn equal(self, rhs: Self) -> (r: bool)
        ensures
            r == self.equal_spec(rhs),
    ;
}

/// `a > b`, read as `b < a`.
pub open spec fn gt_spec<T: VertexFormat>(a: T, b: T) -> bool {
    b.less_spec(a)
}

/// `a >= b`, read as `a > b` or `a == b`.
pub open spec fn ge_spec<T: VertexFormat>(a: T, b: T) -> bool {
    gt_spec(a, b) || a.equal_spec(b)
}

/// Whether `a` is strictly below zero.
pub open spec fn is_negative<T: VertexFormat>(a: T) -> bool {
    a.less_spec(T::zero_spec())
}

/// Whether `a` is strictly above zero.
pub open spec fn is_positive<T: VertexFormat>(a: T) -> bool {
    gt_spec(a, T::zero_spec())
}

/// The magnitude of `a`: its negation where it is negative, else `a` itself.
pub open spec fn abs_spec<T: VertexFormat>(a: T) -> T {
    if is_negative(a) {
        a.neg_spec()
    } else {
        a
    }
}

/// Tests `a > b`.
pub fn gt<T: VertexFormat>(a: T, b: T) -> (r: bool)
    ensures
        r == gt_spec(a, b),
{
    b.less(a)
}

/// Tests `a >= b`.
pub fn ge<T: VertexFormat>(a: T, b: T) -> (r: bool)
    ensures
        r == ge_spec(a, b),
{
    b.less(a) || a.equal(b)
}

/// Computes the magnitude of `a`.
pub fn abs<T: VertexFormat>(a: T) -> (r: T)
    ensures
        r == abs_spec(a),
{
    if a.less(T::zero()) {
        a.neg()
    } else {
        a
    }
}

} // verus!
