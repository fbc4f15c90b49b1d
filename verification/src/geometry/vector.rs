//! Three-component vectors.
//!
//! What an operation returns is stated through relations over the scalar
//! relations of [`crate::scalar`]: `Vector3::is_dot(u, v, r)` says that `r`
//! is a value that `u.x * v.x + u.y * v.y + u.z * v.z` can take.

use crate::scalar::{self, Scalar};
use vstd::prelude::*;

verus! {

/// A vector with components `x`, `y` and `z`.
#[derive(Debug, Clone, Copy)]
pub struct Vector3<T: Scalar> {
    pub x: T,
    pub y: T,
    pub z: T,
}

impl<T: Scalar> Vector3<T> {
    /// The component at position `index`: `x`, `y`, `z` for 0, 1, 2.
    pub open spec fn component(self, index: int) -> T {
        if index == 0 {
            self.x
        } else if index == 1 {
            self.y
        } else {
            self.z
        }
    }

    /// This vector with the component at position `index` replaced.
    pub open spec fn with_component(self, index: int, value: T) -> Self {
        if index == 0 {
            Vector3 { x: value, y: self.y, z: self.z }
        } else if index == 1 {
            Vector3 { x: self.x, y: value, z: self.z }
        } else {
            Vector3 { x: self.x, y: self.y, z: value }
        }
    }

    /// Each component of `r` is zero.
    pub open spec fn is_zeros(r: Self) -> bool {
        scalar::is_zero(r.x) && scalar::is_zero(r.y) && scalar::is_zero(r.z)
    }

    /// Each component of `r` is one.
    pub open spec fn is_ones(r: Self) -> bool {
        scalar::is_one(r.x) && scalar::is_one(r.y) && scalar::is_one(r.z)
    }

    /// Each component of `r` is the sum of that component of `u` and of
    /// `v`: `r = u + v`, component by component.
    pub open spec fn is_sum(u: Self, v: Self, r: Self) -> bool {
        &&& scalar::is_sum(u.x, v.x, r.x)
        &&& scalar::is_sum(u.y, v.y, r.y)
        &&& scalar::is_sum(u.z, v.z, r.z)
    }

    /// Each component of `r` is the sum of that component of `u` and
    /// of `s`: `r = u + s`, component by component.
    pub open spec fn is_sum_with(u: Self, s: T, r: Self) -> bool {
        &&& scalar::is_sum(u.x, s, r.x)
        &&& scalar::is_sum(u.y, s, r.y)
        &&& scalar::is_sum(u.z, s, r.z)
    }

    /// Each component of `r` is the difference of that component of `u` and of
    /// `v`: `r = u - v`, component by component.
    pub open spec fn is_difference(u: Self, v: Self, r: Self) -> bool {
        &&& scalar::is_difference(u.x, v.x, r.x)
        &&& scalar::is_difference(u.y, v.y, r.y)
        &&& scalar::is_difference(u.z, v.z, r.z)
    }

    /// Each component of `r` is the difference of that component of `u` and
    /// of `s`: `r = u - s`, component by component.
    pub open spec fn is_difference_with(u: Self, s: T, r: Self) -> bool {
        &&& scalar::is_difference(u.x, s, r.x)
        &&& scalar::is_difference(u.y, s, r.y)
        &&& scalar::is_difference(u.z, s, r.z)
    }

    /// Each component of `r` is the product of that component of `u` and of
    /// `v`: `r = u * v`, component by component.
    pub open spec fn is_product(u: Self, v: Self, r: Self) -> bool {
        &&& scalar::is_product(u.x, v.x, r.x)
        &&& scalar::is_product(u.y, v.y, r.y)
        &&& scalar::is_product(u.z, v.z, r.z)
    }

    /// Each component of `r` is the product of that component of `u` and
    /// of `s`: `r = u * s`, component by component.
    pub open spec fn is_product_with(u: Self, s: T, r: Self) -> bool {
        &&& scalar::is_product(u.x, s, r.x)
        &&& scalar::is_product(u.y, s, r.y)
        &&& scalar::is_product(u.z, s, r.z)
    }

    /// Each component of `r` is the quotient of that component of `u` and of
    /// `v`: `r = u / v`, component by component.
    pub open spec fn is_quotient(u: Self, v: Self, r: Self) -> bool {
        &&& scalar::is_quotient(u.x, v.x, r.x)
        &&& scalar::is_quotient(u.y, v.y, r.y)
        &&& scalar::is_quotient(u.z, v.z, r.z)
    }

    /// Each component of `r` is the quotient of that component of `u` and
    /// of `s`: `r = u / s`, component by component.
    pub open spec fn is_quotient_with(u: Self, s: T, r: Self) -> bool {
        &&& scalar::is_quotient(u.x, s, r.x)
        &&& scalar::is_quotient(u.y, s, r.y)
        &&& scalar::is_quotient(u.z, s, r.z)
    }

    /// Each component of `r` is the negation of that component of `u`.
    pub open spec fn is_negation(u: Self, r: Self) -> bool {
        &&& scalar::is_negation(u.x, r.x)
        &&& scalar::is_negation(u.y, r.y)
        &&& scalar::is_negation(u.z, r.z)
    }

    /// `r` is a value of the dot product of `u` and `v`:
    /// `(u.x * v.x + u.y * v.y) + u.z * v.z`.
    pub open spec fn is_dot(u: Self, v: Self, r: T) -> bool {
        exists|a: T, b: T, c: T, s: T|
            #![trigger scalar::is_sum(a, b, s), scalar::is_sum(s, c, r)]
            {
                &&& scalar::is_product(u.x, v.x, a)
                &&& scalar::is_product(u.y, v.y, b)
                &&& scalar::is_product(u.z, v.z, c)
                &&& scalar::is_sum(a, b, s)
                &&& scalar::is_sum(s, c, r)
            }
    }

    /// `r` is a value of the right-handed cross product of `u` and `v`:
    ///
    /// - `r.x = u.y * v.z - u.z * v.y`
    /// - `r.y = u.z * v.x - u.x * v.z`
    /// - `r.z = u.x * v.y - u.y * v.x`
    pub open spec fn is_cross(u: Self, v: Self, r: Self) -> bool {
        &&& scalar::is_product_difference(u.y, v.z, u.z, v.y, r.x)
        &&& scalar::is_product_difference(u.z, v.x, u.x, v.z, r.y)
        &&& scalar::is_product_difference(u.x, v.y, u.y, v.x, r.z)
    }

    /// `r` is a value of the magnitude of `u`: the square root of the dot
    /// product of `u` with itself.
    pub open spec fn is_mag(u: Self, r: T) -> bool {
        exists|d: T|
            #![trigger scalar::is_root(d, r)]
            Self::is_dot(u, u, d) && scalar::is_root(d, r)
    }

    /// `r` is a value of the unit vector of `u`: `u` divided by its
    /// magnitude.
    pub open spec fn is_unit(u: Self, r: Self) -> bool {
        exists|m: T|
            #![trigger Self::is_mag(u, m)]
            Self::is_mag(u, m) && Self::is_quotient_with(u, m, r)
    }

    /// Builds the vector `(x, y, z)`.
    pub fn new(x: T, y: T, z: T) -> (v: Vector3<T>)
        ensures
            v == (Vector3 { x, y, z }),
    {
        Vector3 { x, y, z }
    }

    /// The vector of three zeros.
    pub fn zeros() -> (r: Vector3<T>)
        ensures
            Self::is_zeros(r),
    {
        Vector3 { x: T::zero(), y: T::zero(), z: T::zero() }
    }

    /// The vector of three ones.
    pub fn ones() -> (r: Vector3<T>)
        ensures
            Self::is_ones(r),
    {
        Vector3 { x: T::one(), y: T::one(), z: T::one() }
    }

    /// The dot product `u . v`.
    pub fn dot(u: &Vector3<T>, v: &Vector3<T>) -> (r: T)
        ensures
            Self::is_dot(*u, *v, r),
    {
        let a = u.x.mul(v.x);
        let b = u.y.mul(v.y);
        let c = u.z.mul(v.z);
        let s = a.add(b);
        let r = s.add(c);
        assert(scalar::is_sum(a, b, s) && scalar::is_sum(s, c, r));
        r
    }

    /// The cross product `u x v`.
    pub fn cross(u: &Vector3<T>, v: &Vector3<T>) -> (r: Vector3<T>)
        ensures
            Self::is_cross(*u, *v, r),
    {
        let i = scalar::product_difference(u.y, v.z, u.z, v.y);
        let j = scalar::product_difference(u.z, v.x, u.x, v.z);
        let k = scalar::product_difference(u.x, v.y, u.y, v.x);
        Vector3::new(i, j, k)
    }

    /// The magnitude of the vector, its Euclidean norm.
    pub fn mag(&self) -> (r: T)
        ensures
            Self::is_mag(*self, r),
    {
        let d = Self::dot(self, self);
        let r = d.sqrt();
        assert(scalar::is_root(d, r));
        r
    }

    /// The vector scaled to magnitude one. Nothing guards against a
    /// magnitude of zero: the result is then whatever the division gives.
    pub fn unit(&self) -> (r: Vector3<T>)
        ensures
            Self::is_unit(*self, r),
    {
        let m = self.mag();
        let r = self.div_scalar(m);
        r
    }

    /// A reference to the component at position `index`.
    pub fn index(&self, index: usize) -> (r: &T)
        requires
            index < 3,
        ensures
            *r == self.component(index as int),
    {
        if index == 0 {
            &self.x
        } else if index == 1 {
            &self.y
        } else {
            &self.z
        }
    }

    /// A mutable reference to the component at position `index`.
    pub fn index_mut(&mut self, index: usize) -> (r: &mut T)
        requires
            index < 3,
        ensures
            *r == old(self).component(index as int),
            *final(self) == old(self).with_component(index as int, *final(r)),
    {
        if index == 0 {
            &mut self.x
        } else if index == 1 {
            &mut self.y
        } else {
            &mut self.z
        }
    }

    /// `self + v`, component by component.
    pub fn add(self, v: Vector3<T>) -> (r: Vector3<T>)
        ensures
            Self::is_sum(self, v, r),
    {
        Vector3 { x: self.x.add(v.x), y: self.y.add(v.y), z: self.z.add(v.z) }
    }

    /// `self + s`, component by component.
    pub fn add_scalar(self, s: T) -> (r: Vector3<T>)
        ensures
            Self::is_sum_with(self, s, r),
    {
        Vector3 { x: self.x.add(s), y: self.y.add(s), z: self.z.add(s) }
    }

    /// Replaces the vector by `self + v`, component by component.
    pub fn add_assign(&mut self, v: Vector3<T>)
        ensures
            Self::is_sum(*old(self), v, *final(self)),
    {
        self.x = self.x.add(v.x);
        self.y = self.y.add(v.y);
        self.z = self.z.add(v.z);
    }

    /// Replaces the vector by `self + s`, component by component.
    pub fn add_assign_scalar(&mut self, s: T)
        ensures
            Self::is_sum_with(*old(self), s, *final(self)),
    {
        self.x = self.x.add(s);
        self.y = self.y.add(s);
        self.z = self.z.add(s);
    }

    /// `self - v`, component by component.
    pub fn sub(self, v: Vector3<T>) -> (r: Vector3<T>)
        ensures
            Self::is_difference(self, v, r),
    {
        Vector3 { x: self.x.sub(v.x), y: self.y.sub(v.y), z: self.z.sub(v.z) }
    }

    /// `self - s`, component by component.
    pub fn sub_scalar(self, s: T) -> (r: Vector3<T>)
        ensures
            Self::is_difference_with(self, s, r),
    {
        Vector3 { x: self.x.sub(s), y: self.y.sub(s), z: self.z.sub(s) }
    }

    /// Replaces the vector by `self - v`, component by component.
    pub fn sub_assign(&mut self, v: Vector3<T>)
        ensures
            Self::is_difference(*old(self), v, *final(self)),
    {
        self.x = self.x.sub(v.x);
        self.y = self.y.sub(v.y);
        self.z = self.z.sub(v.z);
    }

    /// Replaces the vector by `self - s`, component by component.
    pub fn sub_assign_scalar(&mut self, s: T)
        ensures
            Self::is_difference_with(*old(self), s, *final(self)),
    {
        self.x = self.x.sub(s);
        self.y = self.y.sub(s);
        self.z = self.z.sub(s);
    }

    /// `self * v`, component by component.
    pub fn mul(self, v: Vector3<T>) -> (r: Vector3<T>)
        ensures
            Self::is_product(self, v, r),
    {
        Vector3 { x: self.x.mul(v.x), y: self.y.mul(v.y), z: self.z.mul(v.z) }
    }

    /// `self * s`, component by component.
    pub fn mul_scalar(self, s: T) -> (r: Vector3<T>)
        ensures
            Self::is_product_with(self, s, r),
    {
        Vector3 { x: self.x.mul(s), y: self.y.mul(s), z: self.z.mul(s) }
    }

    /// Replaces the vector by `self * v`, component by component.
    pub fn mul_assign(&mut self, v: Vector3<T>)
        ensures
            Self::is_product(*old(self), v, *final(self)),
    {
        self.x = self.x.mul(v.x);
        self.y = self.y.mul(v.y);
        self.z = self.z.mul(v.z);
    }

    /// Replaces the vector by `self * s`, component by component.
    pub fn mul_assign_scalar(&mut self, s: T)
        ensures
            Self::is_product_with(*old(self), s, *final(self)),
    {
        self.x = self.x.mul(s);
        self.y = self.y.mul(s);
        self.z = self.z.mul(s);
    }

    /// `self / v`, component by component.
    pub fn div(self, v: Vector3<T>) -> (r: Vector3<T>)
        ensures
            Self::is_quotient(self, v, r),
    {
        Vector3 { x: self.x.div(v.x), y: self.y.div(v.y), z: self.z.div(v.z) }
    }

    /// `self / s`, component by component.
    pub fn div_scalar(self, s: T) -> (r: Vector3<T>)
        ensures
            Self::is_quotient_with(self, s, r),
    {
        Vector3 { x: self.x.div(s), y: self.y.div(s), z: self.z.div(s) }
    }

    /// Replaces the vector by `self / v`, component by component.
    pub fn div_assign(&mut self, v: Vector3<T>)
        ensures
            Self::is_quotient(*old(self), v, *final(self)),
    {
        self.x = self.x.div(v.x);
        self.y = self.y.div(v.y);
        self.z = self.z.div(v.z);
    }

    /// Replaces the vector by `self / s`, component by component.
    pub fn div_assign_scalar(&mut self, s: T)
        ensures
            Self::is_quotient_with(*old(self), s, *final(self)),
    {
        self.x = self.x.div(s);
        self.y = self.y.div(s);
        self.z = self.z.div(s);
    }

    /// `-self`, component by component.
    pub fn neg(self) -> (r: Vector3<T>)
        ensures
            Self::is_negation(self, r),
    {
        Vector3 { x: self.x.neg(), y: self.y.neg(), z: self.z.neg() }
    }
}

/// The dot product is symmetric: over a scalar whose product commutes, a
/// value of `u . v` is a value of `v . u`.
pub proof fn lemma_dot_symmetric<T: Scalar>(u: Vector3<T>, v: Vector3<T>, r: T)
    requires
        scalar::product_commutes::<T>(),
        Vector3::is_dot(u, v, r),
    ensures
        Vector3::is_dot(v, u, r),
{
}

/// Turning the factors of `a * b - c * d` round and negating: over a scalar
/// whose product commutes and whose difference reverses under negation, the
/// negation of a value of `a * b - c * d` is a value of `d * c - b * a`.
proof fn lemma_product_difference_reverses<T: Scalar>(a: T, b: T, c: T, d: T, r: T, n: T)
    requires
        scalar::product_commutes::<T>(),
        scalar::difference_reverses::<T>(),
        scalar::is_product_difference(a, b, c, d, r),
        scalar::is_negation(r, n),
    ensures
        scalar::is_product_difference(d, c, b, a, n),
{
}

/// The cross product is antisymmetric: over a scalar whose product commutes
/// and whose difference reverses under negation, the negation of a value of
/// `v x u` is a value of `u x v`.
pub proof fn lemma_cross_antisymmetric<T: Scalar>(
    u: Vector3<T>,
    v: Vector3<T>,
    c: Vector3<T>,
    n: Vector3<T>,
)
    requires
        scalar::product_commutes::<T>(),
        scalar::difference_reverses::<T>(),
        Vector3::is_cross(v, u, c),
        Vector3::is_negation(c, n),
    ensures
        Vector3::is_cross(u, v, n),
{
    lemma_product_difference_reverses(v.y, u.z, v.z, u.y, c.x, n.x);
    lemma_product_difference_reverses(v.z, u.x, v.x, u.z, c.y, n.y);
    lemma_product_difference_reverses(v.x, u.y, v.y, u.x, c.z, n.z);
}

} // verus!
