//! Triangles in space.

use crate::geometry::bbox::BoundingBox;
use crate::geometry::vector::Vector3;
use crate::scalar::{self, Scalar};
use vstd::prelude::*;

verus! {

/// A triangle with corners `p`, `q` and `r`. The order of the corners is
/// the winding, which decides the side that the normal points to. Corners
/// may coincide or lie on one line.
#[derive(Debug, Clone, Copy)]
pub struct Triangle<T: Scalar> {
    pub p: Vector3<T>,
    pub q: Vector3<T>,
    pub r: Vector3<T>,
}

impl<T: Scalar> Triangle<T> {
    /// The corner at position `index`: `p`, `q`, `r` for 0, 1, 2.
    pub open spec fn corner(self, index: int) -> Vector3<T> {
        if index == 0 {
            self.p
        } else if index == 1 {
            self.q
        } else {
            self.r
        }
    }

    /// This triangle with the corner at position `index` replaced.
    pub open spec fn with_corner(self, index: int, value: Vector3<T>) -> Self {
        if index == 0 {
            Triangle { p: value, q: self.q, r: self.r }
        } else if index == 1 {
            Triangle { p: self.p, q: value, r: self.r }
        } else {
            Triangle { p: self.p, q: self.q, r: value }
        }
    }

    /// `c` is a value of the cross product of the two edges that leave `p`:
    /// `(q - p) x (r - p)`.
    pub open spec fn is_edge_cross(t: Self, c: Vector3<T>) -> bool {
        exists|u: Vector3<T>, v: Vector3<T>|
            #![trigger Vector3::is_cross(u, v, c)]
            {
                &&& Vector3::is_difference(t.q, t.p, u)
                &&& Vector3::is_difference(t.r, t.p, v)
                &&& Vector3::is_cross(u, v, c)
            }
    }

    /// `n` is a value of the unit normal: the unit vector of
    /// `(q - p) x (r - p)`.
    pub open spec fn is_normal(t: Self, n: Vector3<T>) -> bool {
        exists|c: Vector3<T>|
            #![trigger Vector3::is_unit(c, n)]
            Self::is_edge_cross(t, c) && Vector3::is_unit(c, n)
    }

    /// `a` is a value of the area: the magnitude of `(q - p) x (r - p)`,
    /// times one half.
    pub open spec fn is_area(t: Self, a: T) -> bool {
        exists|c: Vector3<T>, m: T, h: T|
            #![trigger Vector3::is_mag(c, m), scalar::is_product(m, h, a)]
            {
                &&& Self::is_edge_cross(t, c)
                &&& Vector3::is_mag(c, m)
                &&& scalar::is_half(h)
                &&& scalar::is_product(m, h, a)
            }
    }

    /// `b` is a value of the bounding box: on each axis, `min` is the least
    /// and `max` the greatest of the three corners' coordinates.
    pub open spec fn is_bbox(t: Self, b: BoundingBox<T>) -> bool {
        &&& scalar::is_least(t.p.x, t.q.x, t.r.x, b.min.x)
        &&& scalar::is_least(t.p.y, t.q.y, t.r.y, b.min.y)
        &&& scalar::is_least(t.p.z, t.q.z, t.r.z, b.min.z)
        &&& scalar::is_greatest(t.p.x, t.q.x, t.r.x, b.max.x)
        &&& scalar::is_greatest(t.p.y, t.q.y, t.r.y, b.max.y)
        &&& scalar::is_greatest(t.p.z, t.q.z, t.r.z, b.max.z)
    }

    /// The triangle with corners `p`, `q` and `r`, wound in this order.
    pub fn new(p: Vector3<T>, q: Vector3<T>, r: Vector3<T>) -> (t: Triangle<T>)
        ensures
            t == (Triangle { p, q, r }),
    {
        Triangle { p, q, r }
    }

    /// The cross product of the two edges that leave `p`.
    fn edge_cross(&self) -> (c: Vector3<T>)
        ensures
            Self::is_edge_cross(*self, c),
    {
        let u = self.q.sub(self.p);
        let v = self.r.sub(self.p);
        let c = Vector3::cross(&u, &v);
        c
    }

    /// The unit normal. Where the corners lie on one line it is whatever
    /// the division by a zero magnitude gives.
    pub fn normal(&self) -> (n: Vector3<T>)
        ensures
            Self::is_normal(*self, n),
    {
        let c = self.edge_cross();
        let n = c.unit();
        n
    }

    /// The least box along the axes that holds the three corners.
    pub fn bbox(&self) -> (b: BoundingBox<T>)
        ensures
            Self::is_bbox(*self, b),
    {
        let min = Vector3::new(
            scalar::least(self.p.x, self.q.x, self.r.x),
            scalar::least(self.p.y, self.q.y, self.r.y),
            scalar::least(self.p.z, self.q.z, self.r.z),
        );
        let max = Vector3::new(
            scalar::greatest(self.p.x, self.q.x, self.r.x),
            scalar::greatest(self.p.y, self.q.y, self.r.y),
            scalar::greatest(self.p.z, self.q.z, self.r.z),
        );
        BoundingBox::new(min, max)
    }

    /// The area.
    pub fn area(&self) -> (a: T)
        ensures
            Self::is_area(*self, a),
    {
        let c = self.edge_cross();
        let m = c.mag();
        let h = T::half();
        let a = m.mul(h);
        assert(Vector3::is_mag(c, m) && scalar::is_product(m, h, a));
        a
    }

    /// A reference to the corner at position `index`.
    pub fn index(&self, index: usize) -> (r: &Vector3<T>)
        requires
            index < 3,
        ensures
            *r == self.corner(index as int),
    {
        if index == 0 {
            &self.p
        } else if index == 1 {
            &self.q
        } else {
            &self.r
        }
    }

    /// A mutable reference to the corner at position `index`.
    pub fn index_mut(&mut self, index: usize) -> (r: &mut Vector3<T>)
        requires
            index < 3,
        ensures
            *r == old(self).corner(index as int),
            *final(self) == old(self).with_corner(index as int, *final(r)),
    {
        if index == 0 {
            &mut self.p
        } else if index == 1 {
            &mut self.q
        } else {
            &mut self.r
        }
    }
}

} // verus!
