//! The scalar a vector is made of.
//!
//! The geometry is written against [`Scalar`], the list of operations it
//! needs from a number type. The trait promises nothing about what the
//! operations return: every contract in this crate that involves scalar
//! arithmetic is stated through the relations below, each of which holds
//! of exactly the values that the corresponding operation can return.

use vstd::prelude::*;

verus! {

/// A number type the geometry can compute with: an ordered field with a
/// square root, read from text.
pub trait Scalar: Copy {
    /// The additive identity.
    fn zero() -> Self;

    /// The multiplicative identity.
    fn one() -> Self;

    /// One half.
    fn half() -> Self;

    /// `self + rhs`.
    fn add(self, rhs: Self) -> Self;

    /// `self - rhs`.
    fn sub(self, rhs: Self) -> Self;

    /// `self * rhs`.
    fn mul(self, rhs: Self) -> Self;

    /// `self / rhs`.
    fn div(self, rhs: Self) -> Self;

    /// `-self`.
    fn neg(self) -> Self;

    /// The square root of `self`.
    fn sqrt(self) -> Self;

    /// The lesser of `self` and `other`.
    fn min(self, other: Self) -> Self;

    /// The greater of `self` and `other`.
    fn max(self, other: Self) -> Self;

    /// The number that `token` spells, if it spells one.
    fn parse(token: &str) -> Option<Self>;
}

/// `r` is a value that `T::zero()` can return.
pub open spec fn is_zero<T: Scalar>(r: T) -> bool {
    call_ensures(T::zero, (), r)
}

/// `r` is a value that `T::one()` can return.
pub open spec fn is_one<T: Scalar>(r: T) -> bool {
    call_ensures(T::one, (), r)
}

/// `r` is a value that `T::half()` can return.
pub open spec fn is_half<T: Scalar>(r: T) -> bool {
    call_ensures(T::half, (), r)
}

/// `r` is a value that `a.add(b)` can return.
pub open spec fn is_sum<T: Scalar>(a: T, b: T, r: T) -> bool {
    call_ensures(T::add, (a, b), r)
}

/// `r` is a value that `a.sub(b)` can return.
pub open spec fn is_difference<T: Scalar>(a: T, b: T, r: T) -> bool {
    call_ensures(T::sub, (a, b), r)
}

/// `r` is a value that `a.mul(b)` can return.
pub open spec fn is_product<T: Scalar>(a: T, b: T, r: T) -> bool {
    call_ensures(T::mul, (a, b), r)
}

/// `r` is a value that `a.div(b)` can return.
pub open spec fn is_quotient<T: Scalar>(a: T, b: T, r: T) -> bool {
    call_ensures(T::div, (a, b), r)
}

/// `r` is a value that `a.neg()` can return.
pub open spec fn is_negation<T: Scalar>(a: T, r: T) -> bool {
    call_ensures(T::neg, (a,), r)
}

/// `r` is a value that `a.sqrt()` can return.
pub open spec fn is_root<T: Scalar>(a: T, r: T) -> bool {
    call_ensures(T::sqrt, (a,), r)
}

/// `r` is a value that `a.min(b)` can return.
pub open spec fn is_lesser<T: Scalar>(a: T, b: T, r: T) -> bool {
    call_ensures(T::min, (a, b), r)
}

/// `r` is a value that `a.max(b)` can return.
pub open spec fn is_greater<T: Scalar>(a: T, b: T, r: T) -> bool {
    call_ensures(T::max, (a, b), r)
}

/// `r` is a value that `T::parse` can return for a token spelled `token`.
pub open spec fn is_parsed<T: Scalar>(token: Seq<char>, r: Option<T>) -> bool {
    exists|s: &str| s@ == token && call_ensures(T::parse, (s,), r)
}

/// `r` is a value of `a * b - c * d`.
pub open spec fn is_product_difference<T: Scalar>(a: T, b: T, c: T, d: T, r: T) -> bool {
    exists|p: T, q: T|
        #![trigger is_difference(p, q, r)]
        is_product(a, b, p) && is_product(c, d, q) && is_difference(p, q, r)
}

/// `r` is a value of the least of `a`, `b` and `c`: `a.min(b).min(c)`.
pub open spec fn is_least<T: Scalar>(a: T, b: T, c: T, r: T) -> bool {
    exists|m: T| #![trigger is_lesser(m, c, r)] is_lesser(a, b, m) && is_lesser(m, c, r)
}

/// `r` is a value of the greatest of `a`, `b` and `c`: `a.max(b).max(c)`.
pub open spec fn is_greatest<T: Scalar>(a: T, b: T, c: T, r: T) -> bool {
    exists|m: T| #![trigger is_greater(m, c, r)] is_greater(a, b, m) && is_greater(m, c, r)
}

/// `a * b - c * d`.
pub fn product_difference<T: Scalar>(a: T, b: T, c: T, d: T) -> (r: T)
    ensures
        is_product_difference(a, b, c, d, r),
{
    let p = a.mul(b);
    let q = c.mul(d);
    let r = p.sub(q);
    assert(is_difference(p, q, r));
    r
}

/// The least of `a`, `b` and `c`.
pub fn least<T: Scalar>(a: T, b: T, c: T) -> (r: T)
    ensures
        is_least(a, b, c, r),
{
    let m = a.min(b);
    let r = m.min(c);
    assert(is_lesser(m, c, r));
    r
}

/// The greatest of `a`, `b` and `c`.
pub fn greatest<T: Scalar>(a: T, b: T, c: T) -> (r: T)
    ensures
        is_greatest(a, b, c, r),
{
    let m = a.max(b);
    let r = m.max(c);
    assert(is_greater(m, c, r));
    r
}

/// The product of `T` does not depend on the order of its factors: a value
/// of `a * b` is a value of `b * a`.
pub open spec fn product_commutes<T: Scalar>() -> bool {
    forall|a: T, b: T, p: T| #[trigger] is_product(a, b, p) ==> is_product(b, a, p)
}

/// Negating a difference of `T` turns it round: the negation of a value of
/// `a - b` is a value of `b - a`.
pub open spec fn difference_reverses<T: Scalar>() -> bool {
    forall|a: T, b: T, d: T, n: T|
        #![trigger is_difference(a, b, d), is_negation(d, n)]
        is_difference(a, b, d) && is_negation(d, n) ==> is_difference(b, a, n)
}

/// `value` reads the scalars of `T` as real numbers, and the operations of
/// `T` are then those of the real numbers: what an operation returns has
/// the value that the same operation on the values of its operands gives.
/// A quotient is only asked for where the divisor is not zero, and a root
/// only of what is not negative.
pub open spec fn is_exact<T: Scalar>(value: spec_fn(T) -> real) -> bool {
    &&& forall|r: T| #[trigger] is_zero(r) ==> value(r) == 0real
    &&& forall|r: T| #[trigger] is_one(r) ==> value(r) == 1real
    &&& forall|r: T| #[trigger] is_half(r) ==> value(r) + value(r) == 1real
    &&& forall|a: T, b: T, r: T| #[trigger] is_sum(a, b, r) ==> value(r) == value(a) + value(b)
    &&& forall|a: T, b: T, r: T|
        #[trigger] is_difference(a, b, r) ==> value(r) == value(a) - value(b)
    &&& forall|a: T, b: T, r: T| #[trigger] is_product(a, b, r) ==> value(r) == value(a) * value(b)
    &&& forall|a: T, b: T, r: T|
        #[trigger] is_quotient(a, b, r) && value(b) != 0real ==> value(r) * value(b) == value(a)
    &&& forall|a: T, r: T| #[trigger] is_negation(a, r) ==> value(r) == -value(a)
    &&& forall|a: T, r: T|
        #[trigger] is_root(a, r) && value(a) >= 0real ==> value(r) >= 0real && value(r) * value(r)
            == value(a)
    &&& forall|a: T, b: T, r: T|
        #[trigger] is_lesser(a, b, r) ==> value(r) == if value(a) <= value(b) {
            value(a)
        } else {
            value(b)
        }
    &&& forall|a: T, b: T, r: T|
        #[trigger] is_greater(a, b, r) ==> value(r) == if value(a) >= value(b) {
            value(a)
        } else {
            value(b)
        }
}

} // verus!
