//! The crossing-number test: is the origin of the plane inside a closed
//! outline?
//!
//! An outline is a sequence of corners `(u, v)`, each joined to the next and
//! the last to the first. A half-line is cast from the origin along the
//! positive `u` axis, and the edges it meets are counted. The origin is
//! inside when that count is odd. Corners with `v` not below zero count as
//! lying above the axis, so an edge ending on the axis is met at most once;
//! where the origin lies on the outline itself the answer follows from the
//! arithmetic and carries no geometric promise.

use vstd::prelude::*;
use vstd::arithmetic::div_mod::{lemma_mod_pos_bound, lemma_mod_self_0, lemma_small_mod};
use crate::scalar::{gt, is_negative, is_positive, VertexFormat};

verus! {

/// Whether the edge from `a` to `b` passes from one side of the `u` axis to
/// the other.
pub open spec fn straddles<T: VertexFormat>(a: (T, T), b: (T, T)) -> bool {
    is_negative(a.1) != is_negative(b.1)
}

/// The `u` coordinate at which the line through `a` and `b` meets the `u`
/// axis, by linear interpolation from `a`.
pub open spec fn axis_cut<T: VertexFormat>(a: (T, T), b: (T, T)) -> T {
    a.0.sub_spec(a.1.mul_spec(b.0.sub_spec(a.0)).div_spec(b.1.sub_spec(a.1)))
}

/// Whether the edge from `a` to `b` meets the positive `u` axis: it
/// straddles the axis, and either both ends lie at positive `u`, or one of
/// them does and so does the point where the edge cuts the axis.
pub open spec fn crosses<T: VertexFormat>(a: (T, T), b: (T, T)) -> bool {
    &&& straddles(a, b)
    &&& {
        ||| is_positive(a.0) && is_positive(b.0)
        ||| (is_positive(a.0) || is_positive(b.0)) && is_positive(axis_cut(a, b))
    }
}

/// How many of the first `n` edges of `outline` meet the positive `u` axis.
/// Edge `k` runs from corner `k` to corner `k + 1`, the last edge back to
/// corner `0`.
pub open spec fn crossings<T: VertexFormat>(outline: Seq<(T, T)>, n: nat) -> nat
    decreases n,
{
    if n == 0 {
        0
    } else {
        let k = (n - 1) as int;
        let met: nat = if crosses(outline[k], outline[(k + 1) % (outline.len() as int)]) {
            1
        } else {
            0
        };
        crossings(outline, (n - 1) as nat) + met
    }
}

/// Whether the origin counts as inside `outline`: an odd number of its edges
/// meet the positive `u` axis.
pub open spec fn encloses_origin<T: VertexFormat>(outline: Seq<(T, T)>) -> bool {
    crossings(outline, outline.len()) % 2 == 1
}

/// Whether every corner of `outline` lies below the `u` axis.
pub open spec fn wholly_below<T: VertexFormat>(outline: Seq<(T, T)>) -> bool {
    forall|i: int| 0 <= i < outline.len() ==> is_negative((#[trigger] outline[i]).1)
}

/// Whether no corner of `outline` lies below the `u` axis.
pub open spec fn wholly_above<T: VertexFormat>(outline: Seq<(T, T)>) -> bool {
    forall|i: int| 0 <= i < outline.len() ==> !is_negative((#[trigger] outline[i]).1)
}

/// Whether no corner of `outline` lies at positive `u`.
pub open spec fn wholly_left<T: VertexFormat>(outline: Seq<(T, T)>) -> bool {
    forall|i: int| 0 <= i < outline.len() ==> !is_positive((#[trigger] outline[i]).0)
}

/// Whether every corner of `outline` lies at positive `u`.
pub open spec fn wholly_right<T: VertexFormat>(outline: Seq<(T, T)>) -> bool {
    forall|i: int| 0 <= i < outline.len() ==> is_positive((#[trigger] outline[i]).0)
}

/// Where no edge among the first `n` meets the positive `u` axis, the count
/// is zero.
proof fn lemma_crossings_none<T: VertexFormat>(outline: Seq<(T, T)>, n: nat)
    requires
        n <= outline.len(),
        forall|k: int|
            0 <= k < n ==> !crosses(
                #[trigger] outline[k],
                outline[(k + 1) % (outline.len() as int)],
            ),
    ensures
        crossings(outline, n) == 0,
    decreases n,
{
    if n > 0 {
        lemma_crossings_none(outline, (n - 1) as nat);
    }
}

/// Where every corner lies at positive `u`, each straddling edge is counted,
/// so after `n` edges the count is odd exactly when corner `n` lies on the
/// other side of the `u` axis than corner `0`.
proof fn lemma_crossings_follow_side<T: VertexFormat>(outline: Seq<(T, T)>, n: nat)
    requires
        0 < outline.len(),
        n <= outline.len(),
        wholly_right(outline),
    ensures
        crossings(outline, n) % 2 == 1 <==> straddles(
            outline[0],
            outline[(n as int) % (outline.len() as int)],
        ),
    decreases n,
{
    let len = outline.len() as int;
    if n == 0 {
        lemma_small_mod(0, len as nat);
    } else {
        let k = (n - 1) as int;
        lemma_crossings_follow_side(outline, k as nat);
        lemma_small_mod(k as nat, len as nat);
        lemma_mod_pos_bound(k + 1, len);
        let a = outline[k];
        let b = outline[(k + 1) % len];
        assert(crosses(a, b) == straddles(a, b));
    }
}

/// The origin counts as outside an outline that lies wholly to one side of
/// it: below the `u` axis, not below it, at positive `u`, or not at positive
/// `u`. This holds in every coordinate format, whatever its arithmetic.
pub proof fn lemma_origin_outside_one_sided_outline<T: VertexFormat>(outline: Seq<(T, T)>)
    requires
        wholly_below(outline) || wholly_above(outline) || wholly_left(outline) || wholly_right(
            outline,
        ),
    ensures
        !encloses_origin(outline),
{
    let len = outline.len() as int;
    if len > 0 {
        if wholly_right(outline) {
            lemma_crossings_follow_side(outline, outline.len());
            lemma_mod_self_0(len);
        } else {
            assert forall|k: int| 0 <= k < len implies !crosses(
                #[trigger] outline[k],
                outline[(k + 1) % len],
            ) by {
                lemma_mod_pos_bound(k + 1, len);
            }
            lemma_crossings_none(outline, outline.len());
        }
    }
}

/// Interpolates where the line through `a` and `b` meets the `u` axis.
pub fn cut_of_axis<T: VertexFormat>(a: (T, T), b: (T, T)) -> (cut: T)
    ensures
        cut == axis_cut(a, b),
{
    a.0.sub(a.1.mul(b.0.sub(a.0)).div(b.1.sub(a.1)))
}

/// Tests whether the edge from `a` to `b` meets the positive `u` axis, given
/// that it straddles the axis.
fn meets_positive_axis<T: VertexFormat>(a: (T, T), b: (T, T)) -> (r: bool)
    requires
        straddles(a, b),
    ensures
        r == crosses(a, b),
{
    let a_right = gt(a.0, T::zero());
    let b_right = gt(b.0, T::zero());
    if a_right && b_right {
        true
    } else if a_right || b_right {
        gt(cut_of_axis(a, b), T::zero())
    } else {
        false
    }
}

/// Counts the edges of `outline` that meet the positive `u` axis.
pub fn crossing_number<T: VertexFormat>(outline: &Vec<(T, T)>) -> (count: usize)
    ensures
        count == crossings(outline@, outline@.len()),
{
    let n: usize = outline.len();
    if n == 0 {
        return 0;
    }
    let mut below: bool = outline[0].1.less(T::zero());
    let mut count: usize = 0;
    let mut i: usize = 0;
    while i < n
        invariant
            n == outline@.len(),
            0 < n,
            i <= n,
            count <= i,
            count == crossings(outline@, i as nat),
            below == is_negative(outline@[(i as int) % (n as int)].1),
        decreases n - i,
    {
        let next: usize = (i + 1) % n;
        proof {
            lemma_small_mod(i as nat, n as nat);
            if i + 1 < n {
                lemma_small_mod((i + 1) as nat, n as nat);
            } else {
                lemma_mod_self_0(n as int);
            }
        }
        let a = outline[i];
        let b = outline[next];
        let next_below: bool = b.1.less(T::zero());
        if below != next_below {
            if meets_positive_axis(a, b) {
                count = count + 1;
            }
        }
        below = next_below;
        i = i + 1;
    }
    count
}

/// Decides whether the origin counts as inside `outline`.
pub fn contains_origin<T: VertexFormat>(outline: &Vec<(T, T)>) -> (r: bool)
    ensures
        r == encloses_origin(outline@),
{
    crossing_number(outline) % 2 == 1
}

} // verus!
