//! Properties of rectangles and borders that hold across operations.
use vstd::prelude::*;

use super::{fits_i32, max_int, min_int, u32_as_i32, Border, Point, Position, Rect};

verus! {

/// Intersection is symmetric: `a` meets `b` exactly when `b` meets `a`.
pub proof fn lemma_intersects_symmetric(a: Rect, b: Rect)
    ensures
        a.intersects_spec(b) == b.intersects_spec(a),
{
}

/// Removing a border that was just added gives back the original rectangle,
/// and the removal itself never overflows.
pub proof fn lemma_remove_border_undoes_add_border(r: Rect, b: Border)
    requires
        r.add_border_ok(b),
    ensures
        r.add_border_spec(b).remove_border_ok(b),
        r.add_border_spec(b).remove_border_spec(b) == r,
{
}

/// Moving by `p` and then by `q` is moving by `p + q`.
pub proof fn lemma_offset_compose(r: Rect, p: Position, q: Position)
    requires
        fits_i32(r.pos.x + p.x),
        fits_i32(r.pos.y + p.y),
        fits_i32(r.pos.x + p.x + q.x),
        fits_i32(r.pos.y + p.y + q.y),
        fits_i32(p.x + q.x),
        fits_i32(p.y + q.y),
    ensures
        r.offset_spec(p).offset_spec(q) == r.offset_spec(
            Point { x: (p.x + q.x) as i32, y: (p.y + q.y) as i32 },
        ),
{
}

/// Clipping two intersecting rectangles gives their exact intersection: the clipped
/// rectangle lies inside both, and contains exactly the points that both contain.
pub proof fn lemma_clip_is_intersection(a: Rect, b: Rect, p: Position)
    requires
        a.clip_ok(b),
        a.small(),
        b.small(),
        a.intersects_spec(b),
    ensures
        a.clip_spec(b) matches Some(c) && {
            &&& c.small()
            &&& c.ends_ok()
            &&& c.inside_spec(a)
            &&& c.inside_spec(b)
            &&& c.contains_spec(p) == (a.contains_spec(p) && b.contains_spec(p))
        },
{
}

/// Clipping against a rectangle that does not intersect gives nothing.
pub proof fn lemma_clip_disjoint(a: Rect, b: Rect)
    requires
        !a.intersects_spec(b),
    ensures
        a.clip_spec(b) is None,
{
}

/// The merged rectangle covers both rectangles (when its extent fits an `i32`).
pub proof fn lemma_merge_covers(a: Rect, b: Rect, p: Position)
    requires
        a.merge_ok(b),
        a.small(),
        b.small(),
    ensures
        a.merge_spec(b).small(),
        a.inside_spec(a.merge_spec(b)),
        b.inside_spec(a.merge_spec(b)),
        a.contains_spec(p) || b.contains_spec(p) ==> a.merge_spec(b).contains_spec(p),
{
}

/// Merging is commutative.
pub proof fn lemma_merge_commutative(a: Rect, b: Rect)
    ensures
        a.merge_spec(b) == b.merge_spec(a),
{
}

/// The rectangle built from two corners does not depend on their order, and
/// contains both corners (when its last column and row can be computed).
pub proof fn lemma_from_coords_corners(x0: i32, y0: i32, x1: i32, y1: i32)
    requires
        fits_i32(x1 - x0),
        fits_i32(y1 - y0),
        x1 - x0 != i32::MIN,
        y1 - y0 != i32::MIN,
        x1 - x0 != i32::MAX,
        y1 - y0 != i32::MAX,
        x0 - x1 != i32::MAX,
        y0 - y1 != i32::MAX,
        x0 < i32::MAX,
        x1 < i32::MAX,
        y0 < i32::MAX,
        y1 < i32::MAX,
    ensures
        Rect::from_coords_spec(x0, y0, x1, y1) == Rect::from_coords_spec(x1, y1, x0, y0),
        Rect::from_coords_spec(x0, y0, x1, y1).ends_ok(),
        Rect::from_coords_spec(x0, y0, x1, y1).contains_spec(Point { x: x0, y: y0 }),
        Rect::from_coords_spec(x0, y0, x1, y1).contains_spec(Point { x: x1, y: y1 }),
{
}

/// A rectangle whose border fits inside it is split by [`Border::calc_rects`] into
/// rectangles that lie inside it and do not overlap each other.
pub proof fn lemma_calc_rects_disjoint_inside(b: Border, bounds: Rect)
    requires
        bounds.small(),
        bounds.ends_ok(),
        b.left + b.right <= bounds.size.w,
        b.top + b.bottom <= bounds.size.h,
    ensures
        b.calc_rects_ok(bounds),
        forall|i: int|
            0 <= i < b.rects_spec(bounds).len() ==> #[trigger] b.rects_spec(bounds)[i].inside_spec(
                bounds,
            ),
        forall|i: int, j: int|
            0 <= i < b.rects_spec(bounds).len() && 0 <= j < b.rects_spec(bounds).len() && i != j
                ==> !b.rects_spec(bounds)[i].intersects_spec(b.rects_spec(bounds)[j]),
{
    let s = b.rects_spec(bounds);
    assert forall|i: int| 0 <= i < s.len() implies #[trigger] s[i].inside_spec(bounds) by {
        let r = s[i];
        assert(r == b.top_rect(bounds) || r == b.left_rect(bounds) || r == b.right_rect(bounds)
            || r == b.bottom_rect(bounds));
    }
    assert forall|i: int, j: int|
        0 <= i < s.len() && 0 <= j < s.len() && i != j implies !s[i].intersects_spec(s[j]) by {
        let top = b.top_rect(bounds);
        let left = b.left_rect(bounds);
        let right = b.right_rect(bounds);
        let bottom = b.bottom_rect(bounds);
        assert(!top.intersects_spec(left) && !top.intersects_spec(right) && !top.intersects_spec(bottom));
        assert(!left.intersects_spec(right) && !left.intersects_spec(bottom));
        assert(!right.intersects_spec(bottom));
        assert(!left.intersects_spec(top) && !right.intersects_spec(top) && !bottom.intersects_spec(top));
        assert(!right.intersects_spec(left) && !bottom.intersects_spec(left));
        assert(!bottom.intersects_spec(right));
    }
}

/// The rectangles of [`Border::calc_rects`] cover exactly the border of `bounds`: a
/// point lies in one of them exactly when it lies in `bounds` but not in the inner
/// rectangle left by [`Rect::remove_border`].
pub proof fn lemma_calc_rects_cover_border(b: Border, bounds: Rect, p: Position)
    requires
        bounds.small(),
        bounds.ends_ok(),
        b.left + b.right <= bounds.size.w,
        b.top + b.bottom <= bounds.size.h,
    ensures
        (exists|i: int| 0 <= i < b.rects_spec(bounds).len() && #[trigger] b.rects_spec(bounds)[i].contains_spec(p))
            == (bounds.contains_spec(p) && !bounds.remove_border_spec(b).contains_spec(p)),
{
    let s = b.rects_spec(bounds);
    let top = b.top_rect(bounds);
    let left = b.left_rect(bounds);
    let right = b.right_rect(bounds);
    let bottom = b.bottom_rect(bounds);
    let inner = bounds.remove_border_spec(b);
    let in_border = bounds.contains_spec(p) && !inner.contains_spec(p);
    let i_left: int = if b.top > 0 { 1 } else { 0 };
    let i_right: int = i_left + if b.left > 0 { 1int } else { 0 };
    let i_bottom: int = i_right + if b.right > 0 { 1int } else { 0 };
    assert(s.len() == i_bottom + if b.bottom > 0 { 1int } else { 0 });
    assert(b.top > 0 ==> s[0] == top);
    assert(b.left > 0 ==> s[i_left] == left);
    assert(b.right > 0 ==> s[i_right] == right);
    assert(b.bottom > 0 ==> s[i_bottom] == bottom);
    if in_border {
        if top.contains_spec(p) {
            assert(s[0].contains_spec(p));
        } else if left.contains_spec(p) {
            assert(s[i_left].contains_spec(p));
        } else if right.contains_spec(p) {
            assert(s[i_right].contains_spec(p));
        } else {
            assert(bottom.contains_spec(p));
            assert(s[i_bottom].contains_spec(p));
        }
    }
    assert forall|i: int| 0 <= i < s.len() && #[trigger] s[i].contains_spec(p) implies in_border by {
        assert(s[i] == top || s[i] == left || s[i] == right || s[i] == bottom);
    }
}

} // verus!
