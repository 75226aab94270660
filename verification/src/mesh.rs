//! A triangle in space and the test of a ray against it.

use vstd::prelude::*;
use crate::outline::{
    contains_origin, encloses_origin, lemma_origin_outside_one_sided_outline, wholly_above,
    wholly_below, wholly_left, wholly_right,
};
use crate::planar::{
    corner_agrees, cut_agrees, lemma_classifies_as_geometry, off_the_boundary, read,
    strictly_inside,
};
use crate::ray::{Intersection, Ray};
use crate::scalar::{abs, abs_spec, ge, ge_spec, gt, is_negative, is_positive, VertexFormat};
use crate::vector::Vec3;

verus! {

/// Why three points do not make a triangle.
#[derive(Clone, Copy, Debug, PartialEq, Eq)]
pub enum TriangleError {
    /// The two edges that leave the first vertex span no area: their cross
    /// product has length zero, so the plane has no normal.
    DegenerateTriangle,
}

/// How the axis that the inside test projects along is chosen from the
/// normal.
#[derive(Clone, Copy, Debug, PartialEq, Eq)]
pub enum AxisRule {
    /// Compare the normal's components as they are, signs included. A normal
    /// whose largest component by magnitude is negative makes this rule pick
    /// another axis than the one the normal is most aligned with.
    Signed,
    /// Compare the magnitudes of the normal's components.
    Magnitude,
}

/// The unit normal of the plane through `v1`, `v2`, `v3`: the normalized
/// cross product of the edges `v2 - v1` and `v3 - v1`. The order of the
/// vertices decides to which side it points.
pub open spec fn plane_normal<T: VertexFormat>(v1: Vec3<T>, v2: Vec3<T>, v3: Vec3<T>) -> Vec3<T> {
    v2.sub_spec(v1).cross_spec(v3.sub_spec(v1)).normalize_spec()
}

/// The offset `d` of the plane through `v1` with the given normal, such that
/// `dot(normal, p) + d` is zero for the points `p` of the plane.
pub open spec fn plane_offset<T: VertexFormat>(v1: Vec3<T>, normal: Vec3<T>) -> T {
    v1.dot_spec(normal).neg_spec()
}

/// Whether `v1`, `v2`, `v3` span no area: the cross product of the edges
/// `v2 - v1` and `v3 - v1` has length zero.
pub open spec fn degenerate<T: VertexFormat>(v1: Vec3<T>, v2: Vec3<T>, v3: Vec3<T>) -> bool {
    v2.sub_spec(v1).cross_spec(v3.sub_spec(v1)).length_spec().equal_spec(T::zero_spec())
}

/// The axis picked by comparing the components of `n` as they are: `0` for
/// `x` where `x` is at least `y` and `z`, else `1` for `y` where `y` is at
/// least `x` and `z`, else `2` for `z`.
pub open spec fn leading_axis<T: VertexFormat>(n: Vec3<T>) -> u8 {
    if ge_spec(n.x, n.y) && ge_spec(n.x, n.z) {
        0
    } else if ge_spec(n.y, n.x) && ge_spec(n.y, n.z) {
        1
    } else {
        2
    }
}

/// The axis along which a triangle with normal `n` is projected under `rule`.
pub open spec fn dropped_axis<T: VertexFormat>(n: Vec3<T>, rule: AxisRule) -> u8 {
    match rule {
        AxisRule::Signed => leading_axis(n),
        AxisRule::Magnitude => leading_axis(
            Vec3 { x: abs_spec(n.x), y: abs_spec(n.y), z: abs_spec(n.z) },
        ),
    }
}

/// The two coordinates of `v` that are left when `axis` is dropped: `(y, z)`
/// without `x` (axis `0`), `(x, z)` without `y` (axis `1`), and `(x, y)`
/// without `z` (any other axis).
pub open spec fn project_spec<T: VertexFormat>(v: Vec3<T>, axis: u8) -> (T, T) {
    if axis == 0 {
        (v.y, v.z)
    } else if axis == 1 {
        (v.x, v.z)
    } else {
        (v.x, v.y)
    }
}

/// What a triangle is: its vertices in order, the plane derived from them,
/// and how it is to be tested.
pub struct TriangleView<T: VertexFormat> {
    pub vertices: Seq<Vec3<T>>,
    pub normal: Vec3<T>,
    pub d: T,
    pub double_sided: bool,
    pub axis_rule: AxisRule,
}

impl<T: VertexFormat> TriangleView<T> {
    /// There are three vertices, they span an area, and the normal and the
    /// offset are those of the plane through them.
    pub open spec fn wf(self) -> bool {
        &&& self.vertices.len() == 3
        &&& !degenerate(self.vertices[0], self.vertices[1], self.vertices[2])
        &&& self.normal == plane_normal(self.vertices[0], self.vertices[1], self.vertices[2])
        &&& self.d == plane_offset(self.vertices[0], self.normal)
    }

    /// The axis along which the triangle is projected for the inside test.
    pub open spec fn axis(self) -> u8 {
        dropped_axis(self.normal, self.axis_rule)
    }

    /// The triangle's outline as seen from `p` along the dropped axis: each
    /// vertex moved by `-p`, so that `p` becomes the origin, then projected.
    pub open spec fn outline_around(self, p: Vec3<T>) -> Seq<(T, T)> {
        Seq::new(3, |i: int| project_spec(self.vertices[i].sub_spec(p), self.axis()))
    }

    /// Whether the point `p` of the triangle's plane counts as inside the
    /// triangle.
    pub open spec fn contains(self, p: Vec3<T>) -> bool {
        encloses_origin(self.outline_around(p))
    }

    /// The rate at which `ray` approaches the plane: the dot product of the
    /// normal and the ray's direction. It is zero for a ray parallel to the
    /// plane and positive for one that meets the plane from behind.
    pub open spec fn approach(self, ray: Ray<T>) -> T {
        self.normal.dot_spec(ray.direction)
    }

    /// The parameter `t` at which the line of `ray` meets the plane.
    pub open spec fn ray_parameter(self, ray: Ray<T>) -> T {
        self.normal.dot_spec(ray.origin).add_spec(self.d).neg_spec().div_spec(self.approach(ray))
    }

    /// The point at which the line of `ray` meets the plane.
    pub open spec fn plane_hit(self, ray: Ray<T>) -> Vec3<T> {
        ray.at_spec(self.ray_parameter(ray))
    }

    /// The normal turned towards the side `ray` comes from: negated where the
    /// ray meets the plane from behind.
    pub open spec fn facing_normal(self, ray: Ray<T>) -> Vec3<T> {
        if is_positive(self.approach(ray)) {
            self.normal.neg_spec()
        } else {
            self.normal
        }
    }

    /// Whether `ray` strikes the triangle. It does not where its direction is
    /// the zero vector, where it runs parallel to the plane, where it meets a
    /// single-sided triangle from behind, where the plane lies behind its
    /// origin, or where it meets the plane outside the triangle.
    pub open spec fn struck_by(self, ray: Ray<T>) -> bool {
        &&& !ray.direction.is_zero_spec()
        &&& !self.approach(ray).equal_spec(T::zero_spec())
        &&& self.double_sided || !is_positive(self.approach(ray))
        &&& !is_negative(self.ray_parameter(ray))
        &&& self.contains(self.plane_hit(ray))
    }
}

/// Two triangles with the same vertices have the same plane: the normal and
/// the offset are functions of the vertices and their order, so making a
/// triangle again from the same three points gives the same values.
pub proof fn lemma_plane_follows_from_vertices<T: VertexFormat>(
    a: TriangleView<T>,
    b: TriangleView<T>,
)
    requires
        a.wf(),
        b.wf(),
        a.vertices == b.vertices,
    ensures
        a.normal == b.normal,
        a.d == b.d,
{
}

/// Sidedness matters only from behind. A ray that meets the plane from
/// behind never strikes the single-sided triangle; any other ray strikes the
/// single-sided triangle exactly when it strikes the double-sided one, at the
/// same point and with the same normal.
pub proof fn lemma_sidedness<T: VertexFormat>(tri: TriangleView<T>, ray: Ray<T>)
    ensures
        ({
            let front_only = TriangleView { double_sided: false, ..tri };
            let both = TriangleView { double_sided: true, ..tri };
            &&& is_positive(tri.approach(ray)) ==> !front_only.struck_by(ray)
            &&& is_positive(tri.approach(ray)) ==> both.facing_normal(ray) == tri.normal.neg_spec()
            &&& !is_positive(tri.approach(ray)) ==> (front_only.struck_by(ray) <==> both.struck_by(
                ray,
            ))
            &&& front_only.plane_hit(ray) == both.plane_hit(ray)
            &&& front_only.facing_normal(ray) == both.facing_normal(ray)
        }),
{
    let front_only = TriangleView { double_sided: false, ..tri };
    let both = TriangleView { double_sided: true, ..tri };
    assert(front_only.outline_around(front_only.plane_hit(ray)) =~= both.outline_around(
        both.plane_hit(ray),
    ));
}

/// A ray that meets the plane at a point with the whole triangle to one side
/// of it, as seen along the dropped axis, does not strike the triangle.
pub proof fn lemma_hit_beside_triangle_misses<T: VertexFormat>(tri: TriangleView<T>, ray: Ray<T>)
    requires
        ({
            let outline = tri.outline_around(tri.plane_hit(ray));
            wholly_below(outline) || wholly_above(outline) || wholly_left(outline) || wholly_right(
                outline,
            )
        }),
    ensures
        !tri.struck_by(ray),
{
    lemma_origin_outside_one_sided_outline(tri.outline_around(tri.plane_hit(ray)));
}

/// The inside test of a triangle is right wherever the format's signs are.
/// Let `reading` give each coordinate of the triangle's outline around `p` an
/// exact integer value. If the format agrees with the reading on the side of
/// each axis on which each corner lies and on the sign of each cut that the
/// test consults, and `p` lies on no edge of the outline, then `p` counts as
/// inside exactly when it lies strictly inside the outline that the reading
/// describes.
pub proof fn lemma_contains_as_geometry<T: VertexFormat>(
    tri: TriangleView<T>,
    p: Vec3<T>,
    reading: spec_fn(T) -> int,
)
    requires
        ({
            let o = tri.outline_around(p);
            &&& corner_agrees(reading, o[0])
            &&& corner_agrees(reading, o[1])
            &&& corner_agrees(reading, o[2])
            &&& cut_agrees(reading, o[0], o[1])
            &&& cut_agrees(reading, o[1], o[2])
            &&& cut_agrees(reading, o[2], o[0])
            &&& off_the_boundary(read(reading, o[0]), read(reading, o[1]), read(reading, o[2]))
        }),
    ensures
        ({
            let o = tri.outline_around(p);
            tri.contains(p) <==> strictly_inside(
                read(reading, o[0]),
                read(reading, o[1]),
                read(reading, o[2]),
            )
        }),
{
    let o = tri.outline_around(p);
    lemma_classifies_as_geometry(reading, o[0], o[1], o[2]);
    assert(o =~= seq![o[0], o[1], o[2]]);
}

/// Three vertices in order, with the unit normal and the offset of their
/// plane, both fixed when the triangle is made.
pub struct Triangle<T: VertexFormat> {
    vertices: [Vec3<T>; 3],
    normal: Vec3<T>,
    d: T,
    double_sided: bool,
    axis_rule: AxisRule,
}

impl<T: VertexFormat> View for Triangle<T> {
    type V = TriangleView<T>;

    closed spec fn view(&self) -> TriangleView<T> {
        TriangleView {
            vertices: self.vertices@,
            normal: self.normal,
            d: self.d,
            double_sided: self.double_sided,
            axis_rule: self.axis_rule,
        }
    }
}

impl<T: VertexFormat> Triangle<T> {
    #[verifier::type_invariant]
    spec fn inv(&self) -> bool {
        self@.wf()
    }

    /// Makes the triangle with the vertices `v1`, `v2`, `v3`, double-sided
    /// and projected by [`AxisRule::Signed`]. Fails where the vertices span
    /// no area.
    pub fn new(v1: Vec3<T>, v2: Vec3<T>, v3: Vec3<T>) -> (r: Result<Triangle<T>, TriangleError>)
        ensures
            r.is_err() <==> degenerate(v1, v2, v3),
            r matches Err(e) ==> e == TriangleError::DegenerateTriangle,
            r matches Ok(t) ==> {
                &&& t@.wf()
                &&& t@.vertices == seq![v1, v2, v3]
                &&& t@.normal == plane_normal(v1, v2, v3)
                &&& t@.d == plane_offset(v1, plane_normal(v1, v2, v3))
                &&& t@.double_sided
                &&& t@.axis_rule == AxisRule::Signed
            },
    {
        let span = v2.sub(&v1).cross(&v3.sub(&v1));
        if span.length().equal(T::zero()) {
            return Err(TriangleError::DegenerateTriangle);
        }
        let normal = span.normalize();
        let d = v1.dot(&normal).neg();
        let vertices = [v1, v2, v3];
        assert(vertices@ =~= seq![v1, v2, v3]);
        Ok(Triangle { vertices, normal, d, double_sided: true, axis_rule: AxisRule::Signed })
    }

    /// The vertices, in the order in which they were given.
    pub fn vertices(&self) -> (r: &[Vec3<T>; 3])
        ensures
            r@ == self@.vertices,
    {
        &self.vertices
    }

    /// The unit normal of the triangle's plane.
    pub fn normal(&self) -> (r: &Vec3<T>)
        ensures
            *r == self@.normal,
    {
        &self.normal
    }

    /// The offset of the triangle's plane.
    pub fn d(&self) -> (r: T)
        ensures
            r == self@.d,
    {
        self.d
    }

    /// Whether the triangle is struck from behind as well as from the front.
    pub fn double_sided(&self) -> (r: bool)
        ensures
            r == self@.double_sided,
    {
        self.double_sided
    }

    /// The rule by which the axis of projection is picked.
    pub fn axis_rule(&self) -> (r: AxisRule)
        ensures
            r == self@.axis_rule,
    {
        self.axis_rule
    }

    /// The same triangle, struck from both sides or from the front only.
    pub fn with_double_sided(self, double_sided: bool) -> (r: Self)
        ensures
            r@ == (TriangleView { double_sided, ..self@ }),
            r@.wf(),
    {
        proof {
            use_type_invariant(&self);
        }
        Triangle {
            vertices: self.vertices,
            normal: self.normal,
            d: self.d,
            double_sided,
            axis_rule: self.axis_rule,
        }
    }

    /// The same triangle, projected for the inside test by `axis_rule`.
    pub fn with_axis_rule(self, axis_rule: AxisRule) -> (r: Self)
        ensures
            r@ == (TriangleView { axis_rule, ..self@ }),
            r@.wf(),
    {
        proof {
            use_type_invariant(&self);
        }
        Triangle {
            vertices: self.vertices,
            normal: self.normal,
            d: self.d,
            double_sided: self.double_sided,
            axis_rule,
        }
    }

    /// Picks the axis to project along: `0`, `1` or `2` for `x`, `y` or `z`.
    pub fn axis_to_drop(&self) -> (axis: u8)
        ensures
            axis == self@.axis(),
            axis <= 2,
    {
        let n = match self.axis_rule {
            AxisRule::Signed => self.normal,
            AxisRule::Magnitude => Vec3 {
                x: abs(self.normal.x),
                y: abs(self.normal.y),
                z: abs(self.normal.z),
            },
        };
        if ge(n.x, n.y) && ge(n.x, n.z) {
            0
        } else if ge(n.y, n.x) && ge(n.y, n.z) {
            1
        } else {
            2
        }
    }

    /// Drops one coordinate of `vector`.
    pub fn project(&self, vector: &Vec3<T>, axis_to_drop: u8) -> (uv: (T, T))
        ensures
            uv == project_spec(*vector, axis_to_drop),
    {
        if axis_to_drop == 0 {
            (vector.y, vector.z)
        } else if axis_to_drop == 1 {
            (vector.x, vector.z)
        } else {
            (vector.x, vector.y)
        }
    }

    /// Decides whether a point of the triangle's plane counts as inside the
    /// triangle.
    pub fn projection_intersection(&self, plane_intersection: &Vec3<T>) -> (inside: bool)
        ensures
            inside == self@.contains(*plane_intersection),
    {
        let axis_to_drop = self.axis_to_drop();
        let mut uv_vector: Vec<(T, T)> = Vec::new();
        uv_vector.push(self.project(&self.vertices[0].sub(plane_intersection), axis_to_drop));
        uv_vector.push(self.project(&self.vertices[1].sub(plane_intersection), axis_to_drop));
        uv_vector.push(self.project(&self.vertices[2].sub(plane_intersection), axis_to_drop));
        assert(uv_vector@ =~= self@.outline_around(*plane_intersection));
        contains_origin(&uv_vector)
    }

    /// Tests `ray` against the triangle and reports where it strikes.
    pub fn intersect(&self, ray: &Ray<T>) -> (r: Option<Intersection<T>>)
        ensures
            r.is_some() <==> self@.struck_by(*ray),
            r matches Some(hit) ==> {
                &&& hit.point == self@.plane_hit(*ray)
                &&& hit.normal == self@.facing_normal(*ray)
            },
            // A ray at right angles to the normal runs along the plane and misses.
            self@.approach(*ray).equal_spec(T::zero_spec()) ==> r.is_none(),
            // Nothing is struck behind the ray's origin.
            r matches Some(hit) ==> {
                &&& !is_negative(self@.ray_parameter(*ray))
                &&& hit.point == ray.at_spec(self@.ray_parameter(*ray))
            },
            // From behind, a double-sided triangle shows the negated normal
            // and a single-sided one is not struck.
            is_positive(self@.approach(*ray)) ==> match r {
                Some(hit) => self@.double_sided && hit.normal == self@.normal.neg_spec(),
                None => true,
            },
            is_positive(self@.approach(*ray)) && !self@.double_sided ==> r.is_none(),
            !is_positive(self@.approach(*ray)) ==> match r {
                Some(hit) => hit.normal == self@.normal,
                None => true,
            },
            // A ray without a direction strikes nothing.
            ray.direction.is_zero_spec() ==> r.is_none(),
    {
        if ray.direction.is_zero() {
            return None;
        }
        let v_d = self.normal.dot(&ray.direction);
        if v_d.equal(T::zero()) {
            return None;
        }
        let back_face = gt(v_d, T::zero());
        if back_face && !self.double_sided {
            return None;
        }
        let t = self.normal.dot(&ray.origin).add(self.d).neg().div(v_d);
        if t.less(T::zero()) {
            return None;
        }
        let normal = if back_face {
            self.normal.neg()
        } else {
            self.normal
        };
        let intersection_point = ray.at(t);
        if self.projection_intersection(&intersection_point) {
            Some(Intersection { point: intersection_point, normal })
        } else {
            None
        }
    }

    /// The point the triangle is placed at: its first vertex.
    pub fn location(&self) -> (r: &Vec3<T>)
        ensures
            *r == self@.vertices[0],
    {
        &self.vertices[0]
    }
}

} // verus!
