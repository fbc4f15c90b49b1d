//! What the geometry computes over an exact scalar.
//!
//! A scalar is exact where its operations are those of the real numbers
//! (see [`crate::scalar::is_exact`]). The laws of vector algebra then hold
//! to the letter; over floating-point numbers they hold up to rounding.

use crate::geometry::bbox::BoundingBox;
use crate::geometry::triangle::Triangle;
use crate::geometry::vector::Vector3;
use crate::scalar::{self, Scalar};
use vstd::prelude::*;

verus! {

/// A product does not depend on the order of its factors.
proof fn lemma_commute(a: real, b: real)
    by (nonlinear_arith)
    ensures
        a * b == b * a,
{
}

/// A product of three does not depend on which factor stands outside.
proof fn lemma_rotate(a: real, b: real, c: real)
    by (nonlinear_arith)
    ensures
        a * (b * c) == b * (a * c),
        a * (b * c) == c * (b * a),
{
}

/// A factor goes into a difference.
proof fn lemma_distribute(a: real, p: real, q: real)
    by (nonlinear_arith)
    ensures
        a * (p - q) == a * p - a * q,
{
}

/// A factor comes out of a sum of three.
proof fn lemma_factor(p: real, q: real, r: real, m: real)
    by (nonlinear_arith)
    ensures
        p * m + q * m + r * m == (p + q + r) * m,
{
}

/// The square of a product is the product of the squares.
proof fn lemma_square_of_product(a: real, n: real)
    by (nonlinear_arith)
    ensures
        (a * n) * (a * n) == (a * a) * (n * n),
{
}

/// A square is not negative, and is zero only as the square of zero.
proof fn lemma_square(a: real)
    by (nonlinear_arith)
    ensures
        a * a >= 0real,
        a * a == 0real <==> a == 0real,
{
}

/// What leaves a number that is not zero unchanged when multiplied with it
/// is one.
proof fn lemma_cancel(k: real, s: real)
    by (nonlinear_arith)
    requires
        k * s == s,
        s != 0real,
    ensures
        k == 1real,
{
}

/// The root of one that is not negative is one.
proof fn lemma_root_of_one(r: real)
    by (nonlinear_arith)
    requires
        r * r == 1real,
        r >= 0real,
    ensures
        r == 1real,
{
}

/// Two halves of a number make the number.
proof fn lemma_halves(s: real, h: real)
    by (nonlinear_arith)
    requires
        h + h == 1real,
    ensures
        s * h + s * h == s,
{
}

/// The dot product of `u` and `v` where `value` reads their components.
pub open spec fn dot_value<T: Scalar>(value: spec_fn(T) -> real, u: Vector3<T>, v: Vector3<T>)
    -> real {
    value(u.x) * value(v.x) + value(u.y) * value(v.y) + value(u.z) * value(v.z)
}

/// Over an exact scalar the dot product has the value of the sum of the
/// products of the components, and so it does not depend on the order of
/// the two vectors.
pub proof fn lemma_exact_dot<T: Scalar>(
    value: spec_fn(T) -> real,
    u: Vector3<T>,
    v: Vector3<T>,
    r: T,
)
    requires
        scalar::is_exact(value),
        Vector3::is_dot(u, v, r),
    ensures
        value(r) == dot_value(value, u, v),
        value(r) == dot_value(value, v, u),
{
    lemma_commute(value(u.x), value(v.x));
    lemma_commute(value(u.y), value(v.y));
    lemma_commute(value(u.z), value(v.z));
}

/// Over an exact scalar the cross product has the components of the
/// right-handed cross product.
pub proof fn lemma_exact_cross<T: Scalar>(
    value: spec_fn(T) -> real,
    u: Vector3<T>,
    v: Vector3<T>,
    c: Vector3<T>,
)
    requires
        scalar::is_exact(value),
        Vector3::is_cross(u, v, c),
    ensures
        value(c.x) == value(u.y) * value(v.z) - value(u.z) * value(v.y),
        value(c.y) == value(u.z) * value(v.x) - value(u.x) * value(v.z),
        value(c.z) == value(u.x) * value(v.y) - value(u.y) * value(v.x),
{
}

/// Over an exact scalar the cross product stands at right angles to both
/// of its factors: its dot product with either is zero.
pub proof fn lemma_exact_cross_orthogonal<T: Scalar>(
    value: spec_fn(T) -> real,
    u: Vector3<T>,
    v: Vector3<T>,
    c: Vector3<T>,
    du: T,
    dv: T,
)
    requires
        scalar::is_exact(value),
        Vector3::is_cross(u, v, c),
        Vector3::is_dot(u, c, du),
        Vector3::is_dot(v, c, dv),
    ensures
        value(du) == 0real,
        value(dv) == 0real,
{
    lemma_exact_cross(value, u, v, c);
    lemma_exact_dot(value, u, c, du);
    lemma_exact_dot(value, v, c, dv);
    let (ux, uy, uz) = (value(u.x), value(u.y), value(u.z));
    let (vx, vy, vz) = (value(v.x), value(v.y), value(v.z));
    lemma_distribute(ux, uy * vz, uz * vy);
    lemma_distribute(uy, uz * vx, ux * vz);
    lemma_distribute(uz, ux * vy, uy * vx);
    lemma_rotate(ux, uy, vz);
    lemma_rotate(ux, uz, vy);
    lemma_rotate(uy, uz, vx);
    lemma_distribute(vx, uy * vz, uz * vy);
    lemma_distribute(vy, uz * vx, ux * vz);
    lemma_distribute(vz, ux * vy, uy * vx);
    lemma_rotate(vx, uy, vz);
    lemma_rotate(vx, uz, vy);
    lemma_rotate(vy, ux, vz);
}

/// Over an exact scalar the cross product changes its sign with the order
/// of its factors.
pub proof fn lemma_exact_cross_antisymmetric<T: Scalar>(
    value: spec_fn(T) -> real,
    u: Vector3<T>,
    v: Vector3<T>,
    c: Vector3<T>,
    d: Vector3<T>,
)
    requires
        scalar::is_exact(value),
        Vector3::is_cross(u, v, c),
        Vector3::is_cross(v, u, d),
    ensures
        value(c.x) == -value(d.x),
        value(c.y) == -value(d.y),
        value(c.z) == -value(d.z),
{
    lemma_exact_cross(value, u, v, c);
    lemma_exact_cross(value, v, u, d);
    lemma_commute(value(u.y), value(v.z));
    lemma_commute(value(u.z), value(v.y));
    lemma_commute(value(u.z), value(v.x));
    lemma_commute(value(u.x), value(v.z));
    lemma_commute(value(u.x), value(v.y));
    lemma_commute(value(u.y), value(v.x));
}

/// Over an exact scalar the unit vector of a vector that is not zero has
/// magnitude one.
pub proof fn lemma_exact_unit_magnitude<T: Scalar>(
    value: spec_fn(T) -> real,
    v: Vector3<T>,
    unit: Vector3<T>,
    mag: T,
)
    requires
        scalar::is_exact(value),
        value(v.x) != 0real || value(v.y) != 0real || value(v.z) != 0real,
        Vector3::is_unit(v, unit),
        Vector3::is_mag(unit, mag),
    ensures
        value(mag) == 1real,
{
    let m = choose|m: T|
        #![trigger Vector3::is_mag(v, m)]
        Vector3::is_mag(v, m) && Vector3::is_quotient_with(v, m, unit);
    let d = choose|d: T|
        #![trigger scalar::is_root(d, m)]
        Vector3::is_dot(v, v, d) && scalar::is_root(d, m);
    let e = choose|e: T|
        #![trigger scalar::is_root(e, mag)]
        Vector3::is_dot(unit, unit, e) && scalar::is_root(e, mag);
    lemma_exact_dot(value, v, v, d);
    lemma_exact_dot(value, unit, unit, e);
    let (x, y, z) = (value(v.x), value(v.y), value(v.z));
    let (a, b, c) = (value(unit.x), value(unit.y), value(unit.z));
    let n = value(m);
    let r = value(mag);
    let s = x * x + y * y + z * z;
    lemma_square(x);
    lemma_square(y);
    lemma_square(z);
    assert(value(d) == s && s > 0real);
    assert(n * n == s && n >= 0real);
    lemma_square(n);
    assert(n != 0real);
    assert(a * n == x && b * n == y && c * n == z);
    lemma_square(a);
    lemma_square(b);
    lemma_square(c);
    assert(r * r == a * a + b * b + c * c && r >= 0real);
    lemma_square_of_product(a, n);
    lemma_square_of_product(b, n);
    lemma_square_of_product(c, n);
    lemma_factor(a * a, b * b, c * c, n * n);
    assert((r * r) * s == s);
    lemma_cancel(r * r, s);
    lemma_root_of_one(r);
}

/// Over an exact scalar the bounding box of a triangle holds its corners:
/// on each axis no corner lies below `min` or above `max`, and so `min` is
/// no greater than `max`.
pub proof fn lemma_exact_bbox_holds_corners<T: Scalar>(
    value: spec_fn(T) -> real,
    t: Triangle<T>,
    b: BoundingBox<T>,
    corner: int,
    axis: int,
)
    requires
        scalar::is_exact(value),
        Triangle::is_bbox(t, b),
        0 <= corner < 3,
        0 <= axis < 3,
    ensures
        value(b.min.component(axis)) <= value(t.corner(corner).component(axis)),
        value(t.corner(corner).component(axis)) <= value(b.max.component(axis)),
        value(b.min.component(axis)) <= value(b.max.component(axis)),
{
}

/// Over an exact scalar, on each axis: the size of a box is `max - min`,
/// its center lies midway between `min` and `max`, and its half size is
/// half its size.
pub proof fn lemma_exact_box<T: Scalar>(
    value: spec_fn(T) -> real,
    b: BoundingBox<T>,
    size: Vector3<T>,
    center: Vector3<T>,
    halfsize: Vector3<T>,
    axis: int,
)
    requires
        scalar::is_exact(value),
        BoundingBox::is_size(b, size),
        BoundingBox::is_center(b, center),
        BoundingBox::is_halfsize(b, halfsize),
        0 <= axis < 3,
    ensures
        value(size.component(axis)) == value(b.max.component(axis)) - value(
            b.min.component(axis),
        ),
        value(center.component(axis)) + value(center.component(axis)) == value(
            b.max.component(axis),
        ) + value(b.min.component(axis)),
        value(halfsize.component(axis)) + value(halfsize.component(axis)) == value(
            size.component(axis),
        ),
{
    let (s, h) = choose|s: Vector3<T>, h: T|
        #![trigger Vector3::is_product_with(s, h, center)]
        {
            &&& Vector3::is_sum(b.max, b.min, s)
            &&& scalar::is_half(h)
            &&& Vector3::is_product_with(s, h, center)
        };
    let (d, k) = choose|d: Vector3<T>, k: T|
        #![trigger Vector3::is_product_with(d, k, halfsize)]
        {
            &&& Vector3::is_difference(b.max, b.min, d)
            &&& scalar::is_half(k)
            &&& Vector3::is_product_with(d, k, halfsize)
        };
    lemma_halves(value(s.component(axis)), value(h));
    lemma_halves(value(d.component(axis)), value(k));
}

} // verus!
