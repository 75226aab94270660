//! Rays and the record of where one struck a surface.

use vstd::prelude::*;
use crate::scalar::VertexFormat;
use crate::vector::Vec3;

verus! {

/// A half-line: the points `origin + direction * t` for `t` not below zero.
/// The direction need not have unit length.
#[derive(Debug, PartialEq)]
pub struct Ray<T: VertexFormat> {
    pub origin: Vec3<T>,
    pub direction: Vec3<T>,
}

/// Where a ray met a surface, and the surface normal there, turned towards
/// the side the ray came from.
#[derive(Debug, PartialEq)]
pub struct Intersection<T: VertexFormat> {
    pub point: Vec3<T>,
    pub normal: Vec3<T>,
}

impl<T: VertexFormat> Clone for Ray<T> {
    fn clone(&self) -> (r: Self)
        ensures
            r == *self,
    {
        *self
    }
}

impl<T: VertexFormat> Copy for Ray<T> {

}

impl<T: VertexFormat> Clone for Intersection<T> {
    fn clone(&self) -> (r: Self)
        ensures
            r == *self,
    {
        *self
    }
}

impl<T: VertexFormat> Copy for Intersection<T> {

}

impl<T: VertexFormat> Ray<T> {
    /// The point of the ray at parameter `t`.
    pub open spec fn at_spec(self, t: T) -> Vec3<T> {
        self.origin.add_spec(self.direction.mul_spec(t))
    }

    pub fn new(origin: Vec3<T>, direction: Vec3<T>) -> (r: Self)
        ensures
            r == (Ray { origin, direction }),
    {
        Ray { origin, direction }
    }

    pub fn at(&self, t: T) -> (r: Vec3<T>)
        ensures
            r == self.at_spec(t),
    {
        self.origin.add(&self.direction.mul(t))
    }
}

} // verus!
