//! Axis-aligned bounding boxes.

use crate::geometry::vector::Vector3;
use crate::scalar::{self, Scalar};
use vstd::prelude::*;

verus! {

/// A box with edges along the axes, given by its least and its greatest
/// corner. A box is meant to have `min` no greater than `max` on each axis;
/// nothing here looks whether it does.
#[derive(Debug, Clone, Copy)]
pub struct BoundingBox<T: Scalar> {
    pub min: Vector3<T>,
    pub max: Vector3<T>,
}

impl<T: Scalar> BoundingBox<T> {
    /// `r` is a value of the box's size: `max - min`.
    pub open spec fn is_size(b: Self, r: Vector3<T>) -> bool {
        Vector3::is_difference(b.max, b.min, r)
    }

    /// `r` is a value of the box's center: `(max + min) * 1/2`.
    pub open spec fn is_center(b: Self, r: Vector3<T>) -> bool {
        exists|s: Vector3<T>, h: T|
            #![trigger Vector3::is_product_with(s, h, r)]
            {
                &&& Vector3::is_sum(b.max, b.min, s)
                &&& scalar::is_half(h)
                &&& Vector3::is_product_with(s, h, r)
            }
    }

    /// `r` is a value of half the box's size: `(max - min) * 1/2`.
    pub open spec fn is_halfsize(b: Self, r: Vector3<T>) -> bool {
        exists|s: Vector3<T>, h: T|
            #![trigger Vector3::is_product_with(s, h, r)]
            {
                &&& Vector3::is_difference(b.max, b.min, s)
                &&& scalar::is_half(h)
                &&& Vector3::is_product_with(s, h, r)
            }
    }

    /// The box from corner `min` to corner `max`.
    pub fn new(min: Vector3<T>, max: Vector3<T>) -> (b: BoundingBox<T>)
        ensures
            b == (BoundingBox { min, max }),
    {
        BoundingBox { min, max }
    }

    /// The least corner.
    pub fn min(&self) -> (r: Vector3<T>)
        ensures
            r == self.min,
    {
        self.min
    }

    /// The greatest corner.
    pub fn max(&self) -> (r: Vector3<T>)
        ensures
            r == self.max,
    {
        self.max
    }

    /// The extent of the box along each axis.
    pub fn size(&self) -> (r: Vector3<T>)
        ensures
            Self::is_size(*self, r),
    {
        self.max.sub(self.min)
    }

    /// The point in the middle of the box.
    pub fn center(&self) -> (r: Vector3<T>)
        ensures
            Self::is_center(*self, r),
    {
        let s = self.max.add(self.min);
        let h = T::half();
        let r = s.mul_scalar(h);
        r
    }

    /// Half the extent of the box along each axis.
    pub fn halfsize(&self) -> (r: Vector3<T>)
        ensures
            Self::is_halfsize(*self, r),
    {
        let s = self.max.sub(self.min);
        let h = T::half();
        let r = s.mul_scalar(h);
        r
    }
}

} // verus!
