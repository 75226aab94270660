//! Three-component vectors over a coordinate type.

use vstd::prelude::*;
use crate::scalar::VertexFormat;

verus! {

/// A point or a direction in space.
#[derive(Debug, PartialEq)]
pub struct Vec3<T: VertexFormat> {
    pub x: T,
    pub y: T,
    pub z: T,
}

impl<T: VertexFormat> Clone for Vec3<T> {
    fn clone(&self) -> (r: Self)
        ensures
            r == *self,
    {
        *self
    }
}

impl<T: VertexFormat> Copy for Vec3<T> {

}

impl<T: VertexFormat> Vec3<T> {
    /// The component-wise sum.
    pub open spec fn add_spec(self, other: Self) -> Self {
        Vec3 {
            x: self.x.add_spec(other.x),
            y: self.y.add_spec(other.y),
            z: self.z.add_spec(other.z),
        }
    }

    /// The component-wise difference.
    pub open spec fn sub_spec(self, other: Self) -> Self {
        Vec3 {
            x: self.x.sub_spec(other.x),
            y: self.y.sub_spec(other.y),
            z: self.z.sub_spec(other.z),
        }
    }

    /// Every component multiplied by `factor`.
    pub open spec fn mul_spec(self, factor: T) -> Self {
        Vec3 {
            x: self.x.mul_spec(factor),
            y: self.y.mul_spec(factor),
            z: self.z.mul_spec(factor),
        }
    }

    /// Every component negated.
    pub open spec fn neg_spec(self) -> Self {
        Vec3 { x: self.x.neg_spec(), y: self.y.neg_spec(), z: self.z.neg_spec() }
    }

    /// The dot product, summed from the `x` term onwards.
    pub open spec fn dot_spec(self, other: Self) -> T {
        self.x.mul_spec(other.x).add_spec(self.y.mul_spec(other.y)).add_spec(
            self.z.mul_spec(other.z),
        )
    }

    /// The cross product of `self` with `other`, in that order.
    pub open spec fn cross_spec(self, other: Self) -> Self {
        Vec3 {
            x: self.y.mul_spec(other.z).sub_spec(self.z.mul_spec(other.y)),
            y: self.z.mul_spec(other.x).sub_spec(self.x.mul_spec(other.z)),
            z: self.x.mul_spec(other.y).sub_spec(self.y.mul_spec(other.x)),
        }
    }

    /// The Euclidean length: the root of the vector's dot product with itself.
    pub open spec fn length_spec(self) -> T {
        self.dot_spec(self).sqrt_spec()
    }

    /// Every component divided by the vector's length.
    pub open spec fn normalize_spec(self) -> Self {
        let len = self.length_spec();
        Vec3 { x: self.x.div_spec(len), y: self.y.div_spec(len), z: self.z.div_spec(len) }
    }

    /// Whether every component is the number zero.
    pub open spec fn is_zero_spec(self) -> bool {
        &&& self.x.equal_spec(T::zero_spec())
        &&& self.y.equal_spec(T::zero_spec())
        &&& self.z.equal_spec(T::zero_spec())
    }

    pub fn new(x: T, y: T, z: T) -> (r: Self)
        ensures
            r == (Vec3 { x, y, z }),
    {
        Vec3 { x, y, z }
    }

    pub fn add(&self, other: &Self) -> (r: Self)
        ensures
            r == self.add_spec(*other),
    {
        Vec3 { x: self.x.add(other.x), y: self.y.add(other.y), z: self.z.add(other.z) }
    }

    pub fn sub(&self, other: &Self) -> (r: Self)
        ensures
            r == self.sub_spec(*other),
    {
        Vec3 { x: self.x.sub(other.x), y: self.y.sub(other.y), z: self.z.sub(other.z) }
    }

    pub fn mul(&self, factor: T) -> (r: Self)
        ensures
            r == self.mul_spec(factor),
    {
        Vec3 { x: self.x.mul(factor), y: self.y.mul(factor), z: self.z.mul(factor) }
    }

    pub fn neg(&self) -> (r: Self)
        ensures
            r == self.neg_spec(),
    {
        Vec3 { x: self.x.neg(), y: self.y.neg(), z: self.z.neg() }
    }

    pub fn dot(&self, other: &Self) -> (r: T)
        ensures
            r == self.dot_spec(*other),
    {
        self.x.mul(other.x).add(self.y.mul(other.y)).add(self.z.mul(other.z))
    }

    pub fn cross(&self, other: &Self) -> (r: Self)
        ensures
            r == self.cross_spec(*other),
    {
        Vec3 {
            x: self.y.mul(other.z).sub(self.z.mul(other.y)),
            y: self.z.mul(other.x).sub(self.x.mul(other.z)),
            z: self.x.mul(other.y).sub(self.y.mul(other.x)),
        }
    }

    pub fn length(&self) -> (r: T)
        ensures
            r == self.length_spec(),
    {
        self.dot(self).sqrt()
    }

    pub fn normalize(&self) -> (r: Self)
        ensures
            r == self.normalize_spec(),
    {
        let len = self.length();
        Vec3 { x: self.x.div(len), y: self.y.div(len), z: self.z.div(len) }
    }

    pub fn is_zero(&self) -> (r: bool)
        ensures
            r == self.is_zero_spec(),
    {
        self.x.equal(T::zero()) && self.y.equal(T::zero()) && self.z.equal(T::zero())
    }
}

} // verus!
