//! The crossing-number test against exact plane geometry.
//!
//! A coordinate format may round, so nothing geometric follows from its
//! arithmetic alone. What can be said is conditional: give every coordinate
//! of a three-cornered outline an exact integer reading in some common unit;
//! where the format's comparisons against zero, and the interpolated cuts it
//! consults, have the signs that exact arithmetic gives them, the test
//! answers as geometry does.

use vstd::prelude::*;
use crate::outline::{axis_cut, crosses, crossings, encloses_origin, straddles};
use crate::scalar::{is_negative, is_positive, VertexFormat};

verus! {

/// Twice the signed area of the triangle from the origin to `p` and on to
/// `q`: positive where that turn is counter-clockwise, zero where the origin
/// lies on the line through `p` and `q`.
pub open spec fn turn(p: (int, int), q: (int, int)) -> int {
    p.0 * q.1 - q.0 * p.1
}

/// Whether the origin lies strictly inside the triangle `p`, `q`, `r`: it
/// lies strictly on the same side of all three edges.
pub open spec fn strictly_inside(p: (int, int), q: (int, int), r: (int, int)) -> bool {
    ||| turn(p, q) > 0 && turn(q, r) > 0 && turn(r, p) > 0
    ||| turn(p, q) < 0 && turn(q, r) < 0 && turn(r, p) < 0
}

/// Whether the origin lies on the edge from `p` to `q`, ends included: it
/// lies on the line through both and within the box they span.
pub open spec fn on_edge(p: (int, int), q: (int, int)) -> bool {
    turn(p, q) == 0 && p.0 * q.0 <= 0 && p.1 * q.1 <= 0
}

/// Whether the origin lies on none of the edges of the triangle `p`, `q`,
/// `r`.
pub open spec fn off_the_boundary(p: (int, int), q: (int, int), r: (int, int)) -> bool {
    !on_edge(p, q) && !on_edge(q, r) && !on_edge(r, p)
}

/// The corner `a` as `reading` sees it.
pub open spec fn read<T: VertexFormat>(reading: spec_fn(T) -> int, a: (T, T)) -> (int, int) {
    (reading(a.0), reading(a.1))
}

/// Whether the format places the corner `a` on the sides of the axes on which
/// its reading lies.
pub open spec fn corner_agrees<T: VertexFormat>(reading: spec_fn(T) -> int, a: (T, T)) -> bool {
    &&& is_negative(a.1) <==> reading(a.1) < 0
    &&& is_positive(a.0) <==> reading(a.0) > 0
}

/// Whether, on the edge from `a` to `b`, the cut that the format
/// interpolates is positive exactly when the exact cut is. The exact cut is
/// `turn / (b.v - a.v)` and so has the sign of `turn * (b.v - a.v)`. Nothing
/// is asked of an edge that does not straddle the `u` axis, nor of one whose
/// ends both or neither lie at positive `u`: there the test consults no cut.
pub open spec fn cut_agrees<T: VertexFormat>(
    reading: spec_fn(T) -> int,
    a: (T, T),
    b: (T, T),
) -> bool {
    straddles(a, b) && is_positive(a.0) != is_positive(b.0) ==> (is_positive(axis_cut(a, b)) <==> turn(
        read(reading, a),
        read(reading, b),
    ) * (reading(b.1) - reading(a.1)) > 0)
}

/// Whether the edge from `p` to `q` meets the positive `u` axis, by the rule
/// of the test in exact arithmetic.
spec fn meets(p: (int, int), q: (int, int)) -> bool {
    &&& (p.1 < 0) != (q.1 < 0)
    &&& {
        ||| p.0 > 0 && q.0 > 0
        ||| (p.0 > 0 || q.0 > 0) && turn(p, q) * (q.1 - p.1) > 0
    }
}

/// On an edge that straddles the `u` axis and does not pass through the
/// origin, the origin is off the edge's line, and the rule counts the edge
/// exactly when it rises with the origin to its left or falls with the origin
/// to its right.
proof fn lemma_meets_by_turn(p: (int, int), q: (int, int))
    requires
        (p.1 < 0) != (q.1 < 0),
        !on_edge(p, q),
    ensures
        turn(p, q) != 0,
        meets(p, q) <==> (if p.1 < 0 {
            turn(p, q) > 0
        } else {
            turn(p, q) < 0
        }),
{
    let t = turn(p, q);
    let dy = q.1 - p.1;
    assert(p.1 * q.1 <= 0) by (nonlinear_arith)
        requires
            (p.1 < 0) != (q.1 < 0),
    ;
    assert(t == 0 ==> p.0 * q.0 <= 0) by (nonlinear_arith)
        requires
            t == p.0 * q.1 - q.0 * p.1,
            (p.1 < 0) != (q.1 < 0),
    ;
    assert(p.1 < 0 ==> (t * dy > 0 <==> t > 0)) by (nonlinear_arith)
        requires
            dy == q.1 - p.1,
            (p.1 < 0) != (q.1 < 0),
    ;
    assert(!(p.1 < 0) ==> (t * dy > 0 <==> t < 0)) by (nonlinear_arith)
        requires
            dy == q.1 - p.1,
            (p.1 < 0) != (q.1 < 0),
    ;
    assert(p.0 > 0 && q.0 > 0 && p.1 < 0 ==> t > 0) by (nonlinear_arith)
        requires
            t == p.0 * q.1 - q.0 * p.1,
            (p.1 < 0) != (q.1 < 0),
    ;
    assert(p.0 > 0 && q.0 > 0 && !(p.1 < 0) ==> t < 0) by (nonlinear_arith)
        requires
            t == p.0 * q.1 - q.0 * p.1,
            (p.1 < 0) != (q.1 < 0),
    ;
    assert(p.0 <= 0 && q.0 <= 0 && p.1 < 0 ==> t <= 0) by (nonlinear_arith)
        requires
            t == p.0 * q.1 - q.0 * p.1,
            (p.1 < 0) != (q.1 < 0),
    ;
    assert(p.0 <= 0 && q.0 <= 0 && !(p.1 < 0) ==> t >= 0) by (nonlinear_arith)
        requires
            t == p.0 * q.1 - q.0 * p.1,
            (p.1 < 0) != (q.1 < 0),
    ;
}

/// The turns of a triangle's edges, each weighted by the height of the
/// corner opposite, cancel.
proof fn lemma_turns_cancel(p: (int, int), q: (int, int), r: (int, int))
    ensures
        r.1 * turn(p, q) + p.1 * turn(q, r) + q.1 * turn(r, p) == 0,
{
    assert(r.1 * (p.0 * q.1 - q.0 * p.1) + p.1 * (q.0 * r.1 - r.0 * q.1) + q.1 * (r.0 * p.1 - p.0
        * r.1) == 0) by (nonlinear_arith);
}

/// Let `a` lie on one side of the `u` axis and `b`, `c` on the other, the
/// origin on neither edge at `a`, and off the edge from `b` to `c`. Where
/// the origin lies on the same side of both edges at `a`, it lies strictly
/// on that side of the third edge too.
proof fn lemma_third_turn(a: (int, int), b: (int, int), c: (int, int))
    requires
        (a.1 < 0) != (b.1 < 0),
        (b.1 < 0) == (c.1 < 0),
        !on_edge(b, c),
        (turn(a, b) > 0 && turn(c, a) > 0) || (turn(a, b) < 0 && turn(c, a) < 0),
    ensures
        turn(a, b) > 0 ==> turn(b, c) > 0,
        turn(a, b) < 0 ==> turn(b, c) < 0,
{
    lemma_turns_cancel(a, b, c);
    let (tab, tbc, tca) = (turn(a, b), turn(b, c), turn(c, a));
    lemma_weight_sign(c.1, tab);
    lemma_weight_sign(a.1, tbc);
    lemma_weight_sign(b.1, tca);
    if tbc == 0 {
        // Both weights at `a` vanish, so `b` and `c` lie on the axis, and
        // the turns at `a` put them on opposite sides of the origin.
        assert(b.1 == 0 && c.1 == 0);
        assert(tab == -(b.0 * a.1) && tca == c.0 * a.1) by (nonlinear_arith)
            requires
                tab == a.0 * b.1 - b.0 * a.1,
                tca == c.0 * a.1 - a.0 * c.1,
                b.1 == 0,
                c.1 == 0,
        ;
        lemma_weight_sign(b.0, a.1);
        lemma_weight_sign(c.0, a.1);
        lemma_weight_sign(b.0, c.0);
        assert(b.1 * c.1 == 0) by (nonlinear_arith)
            requires
                b.1 == 0,
        ;
        assert(on_edge(b, c));
    }
}

/// In exact arithmetic, an odd number of a triangle's edges meet the
/// positive `u` axis exactly when the origin lies strictly inside, as long
/// as the origin lies on no edge.
proof fn lemma_exact_parity(p: (int, int), q: (int, int), r: (int, int))
    requires
        off_the_boundary(p, q, r),
    ensures
        (meets(p, q) != meets(q, r)) != meets(r, p) <==> strictly_inside(p, q, r),
{
    lemma_turns_cancel(p, q, r);
    let (tp, tq, tr) = (turn(p, q), turn(q, r), turn(r, p));
    let (wp, wq, wr) = (r.1 * tp, p.1 * tq, q.1 * tr);
    assert(wp + wq + wr == 0);
    lemma_weight_sign(r.1, tp);
    lemma_weight_sign(p.1, tq);
    lemma_weight_sign(q.1, tr);
    if (p.1 < 0) != (q.1 < 0) {
        lemma_meets_by_turn(p, q);
    }
    if (q.1 < 0) != (r.1 < 0) {
        lemma_meets_by_turn(q, r);
    }
    if (r.1 < 0) != (p.1 < 0) {
        lemma_meets_by_turn(r, p);
    }
    let odd = (meets(p, q) != meets(q, r)) != meets(r, p);
    if odd && !strictly_inside(p, q, r) {
        // Two edges straddle the axis; the origin lies on the same side of
        // both, and so of the third.
        if (q.1 < 0) == (r.1 < 0) {
            lemma_third_turn(p, q, r);
        } else if (r.1 < 0) == (p.1 < 0) {
            lemma_third_turn(q, r, p);
        } else {
            lemma_third_turn(r, p, q);
        }
    }
}

/// The sign of a product from the signs of its factors.
proof fn lemma_weight_sign(y: int, t: int)
    ensures
        y > 0 && t > 0 ==> y * t > 0,
        y > 0 && t < 0 ==> y * t < 0,
        y < 0 && t > 0 ==> y * t < 0,
        y < 0 && t < 0 ==> y * t > 0,
        y == 0 ==> y * t == 0,
        t == 0 ==> y * t == 0,
{
    assert(y > 0 && t > 0 ==> y * t > 0) by (nonlinear_arith);
    assert(y > 0 && t < 0 ==> y * t < 0) by (nonlinear_arith);
    assert(y < 0 && t > 0 ==> y * t < 0) by (nonlinear_arith);
    assert(y < 0 && t < 0 ==> y * t > 0) by (nonlinear_arith);
    assert(y == 0 ==> y * t == 0) by (nonlinear_arith);
    assert(t == 0 ==> y * t == 0) by (nonlinear_arith);
}

/// Where the format agrees with the reading on an edge, it counts the edge
/// exactly when the exact rule does.
proof fn lemma_crosses_as_read<T: VertexFormat>(reading: spec_fn(T) -> int, a: (T, T), b: (T, T))
    requires
        corner_agrees(reading, a),
        corner_agrees(reading, b),
        cut_agrees(reading, a, b),
    ensures
        crosses(a, b) <==> meets(read(reading, a), read(reading, b)),
{
}

/// The crossing-number test is right wherever the format's signs are. Let
/// `reading` give each coordinate of the outline `a`, `b`, `c` an exact
/// integer value. If the format agrees with the reading on the side of each
/// axis on which each corner lies, and on the sign of each cut that the test
/// consults, and the origin lies on no edge, then the origin counts as
/// inside exactly when it lies strictly inside the triangle that the reading
/// describes. On the boundary the test promises nothing.
pub proof fn lemma_classifies_as_geometry<T: VertexFormat>(
    reading: spec_fn(T) -> int,
    a: (T, T),
    b: (T, T),
    c: (T, T),
)
    requires
        corner_agrees(reading, a),
        corner_agrees(reading, b),
        corner_agrees(reading, c),
        cut_agrees(reading, a, b),
        cut_agrees(reading, b, c),
        cut_agrees(reading, c, a),
        off_the_boundary(read(reading, a), read(reading, b), read(reading, c)),
    ensures
        encloses_origin(seq![a, b, c]) <==> strictly_inside(
            read(reading, a),
            read(reading, b),
            read(reading, c),
        ),
{
    let outline = seq![a, b, c];
    lemma_crosses_as_read(reading, a, b);
    lemma_crosses_as_read(reading, b, c);
    lemma_crosses_as_read(reading, c, a);
    lemma_exact_parity(read(reading, a), read(reading, b), read(reading, c));
    reveal_with_fuel(crossings, 4);
    assert(outline[0] == a && outline[1] == b && outline[2] == c);
    assert(outline.len() == 3);
    assert(1int % 3 == 1 && 2int % 3 == 2 && 3int % 3 == 0);
}

} // verus!
