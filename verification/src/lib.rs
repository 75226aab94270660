//! Ray-triangle intersection over an abstract coordinate arithmetic.
//!
//! A [`mesh::Triangle`] carries its three vertices together with the plane
//! they span. [`mesh::Triangle::intersect`] cuts a [`ray::Ray`] with that
//! plane and accepts the cut point when a crossing-number test on a
//! two-dimensional projection finds it inside the triangle's outline.
//!
//! Every contract is phrased over the operations of [`scalar::VertexFormat`]:
//! the library fixes which operations are applied to which operands and in
//! which order, and leaves their meaning to the coordinate type.

pub mod scalar;
pub mod vector;
pub mod ray;
pub mod outline;
pub mod mesh;
pub mod planar;
