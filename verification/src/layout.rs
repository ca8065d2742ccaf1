//! Helper methods for composing widget layouts.
use vstd::prelude::*;

use crate::geometry::{half_toward_zero, cast_i32, fits_i32, fits_u32, u32_as_i32, Bounds, BoundsMut, Point, Rect, VAlign};

verus! {

/// `x` of an object of size `me` placed left of `other` with `margin` pixels between.
pub open spec fn left_of_x(me: Rect, other: Rect, margin: u32) -> int {
    other.pos.x - u32_as_i32((me.size.w + margin) as u32)
}

/// `x` of an object placed right of `other` with `margin` pixels between.
pub open spec fn right_of_x(other: Rect, margin: u32) -> int {
    other.pos.x + u32_as_i32((other.size.w + margin) as u32)
}

/// `y` of an object of size `me` placed above `other` with `margin` pixels between.
pub open spec fn above_y(me: Rect, other: Rect, margin: u32) -> int {
    other.pos.y - u32_as_i32((me.size.h + margin) as u32)
}

/// `y` of an object placed below `other` with `margin` pixels between.
pub open spec fn below_y(other: Rect, margin: u32) -> int {
    other.pos.y + u32_as_i32((other.size.h + margin) as u32)
}

/// `x` of an object of size `me` whose right edge is aligned with `other`'s, plus `offset`.
pub open spec fn align_right_x(me: Rect, other: Rect, offset: i32) -> int {
    other.pos.x + u32_as_i32(other.size.w) - u32_as_i32(me.size.w) + offset
}

/// `y` of an object of size `me` whose bottom edge is aligned with `other`'s, plus `offset`.
pub open spec fn align_bottom_y(me: Rect, other: Rect, offset: i32) -> int {
    other.pos.y + u32_as_i32(other.size.h) - u32_as_i32(me.size.h) + offset
}

/// `x` of an object of size `me` centered horizontally on `other`, plus `offset`.
pub open spec fn align_hcenter_x(me: Rect, other: Rect, offset: i32) -> int {
    other.pos.x + half_toward_zero(u32_as_i32(other.size.w) - u32_as_i32(me.size.w)) + offset
}

/// `y` of an object of size `me` centered vertically on `other`, plus `offset`.
pub open spec fn align_vcenter_y(me: Rect, other: Rect, offset: i32) -> int {
    other.pos.y + half_toward_zero(u32_as_i32(other.size.h) - u32_as_i32(me.size.h)) + offset
}

/// No overflow in [`Layout::left_of`].
pub open spec fn left_of_ok(me: Rect, other: Rect, margin: u32) -> bool {
    fits_u32(me.size.w + margin) && fits_i32(left_of_x(me, other, margin))
}

/// No overflow in [`Layout::right_of`].
pub open spec fn right_of_ok(other: Rect, margin: u32) -> bool {
    fits_u32(other.size.w + margin) && fits_i32(right_of_x(other, margin))
}

/// No overflow in [`Layout::above`].
pub open spec fn above_ok(me: Rect, other: Rect, margin: u32) -> bool {
    fits_u32(me.size.h + margin) && fits_i32(above_y(me, other, margin))
}

/// No overflow in [`Layout::below`].
pub open spec fn below_ok(other: Rect, margin: u32) -> bool {
    fits_u32(other.size.h + margin) && fits_i32(below_y(other, margin))
}

/// No overflow in [`Layout::align_right`].
pub open spec fn align_right_ok(me: Rect, other: Rect, offset: i32) -> bool {
    &&& fits_i32(other.pos.x + u32_as_i32(other.size.w))
    &&& fits_i32(other.pos.x + u32_as_i32(other.size.w) - u32_as_i32(me.size.w))
    &&& fits_i32(align_right_x(me, other, offset))
}

/// No overflow in [`Layout::align_bottom`].
pub open spec fn align_bottom_ok(me: Rect, other: Rect, offset: i32) -> bool {
    &&& fits_i32(other.pos.y + u32_as_i32(other.size.h))
    &&& fits_i32(other.pos.y + u32_as_i32(other.size.h) - u32_as_i32(me.size.h))
    &&& fits_i32(align_bottom_y(me, other, offset))
}

/// No overflow in [`Layout::align_hcenter`].
pub open spec fn align_hcenter_ok(me: Rect, other: Rect, offset: i32) -> bool {
    &&& fits_i32(u32_as_i32(other.size.w) - u32_as_i32(me.size.w))
    &&& fits_i32(
        other.pos.x + half_toward_zero(u32_as_i32(other.size.w) - u32_as_i32(me.size.w)),
    )
    &&& fits_i32(align_hcenter_x(me, other, offset))
}

/// No overflow in [`Layout::align_vcenter`].
pub open spec fn align_vcenter_ok(me: Rect, other: Rect, offset: i32) -> bool {
    &&& fits_i32(u32_as_i32(other.size.h) - u32_as_i32(me.size.h))
    &&& fits_i32(
        other.pos.y + half_toward_zero(u32_as_i32(other.size.h) - u32_as_i32(me.size.h)),
    )
    &&& fits_i32(align_vcenter_y(me, other, offset))
}

/// `me` moved horizontally to `x`.
pub open spec fn at_x(me: Rect, x: int) -> Rect {
    me.with_pos_spec(Point { x: x as i32, y: me.pos.y })
}

/// `me` moved vertically to `y`.
pub open spec fn at_y(me: Rect, y: int) -> Rect {
    me.with_pos_spec(Point { x: me.pos.x, y: y as i32 })
}

/// `x` or `y` of the rectangle `b` centered inside `outer` along one axis.
pub open spec fn center_coord(outer_pos: int, outer_len: u32, len: u32) -> int {
    outer_pos + half_toward_zero(u32_as_i32(outer_len) - u32_as_i32(len))
}

/// Bounds extension for placing widgets relative to others.
///
/// Each method moves the object (its size is kept) and returns it for chaining.
pub trait Layout: BoundsMut + Sized {
    /// Places this object to the left of `other`, `margin` pixels apart.
    fn left_of<B: Bounds>(&mut self, other: &B, margin: u32) -> (r: &mut Self)
        requires
            left_of_ok(old(self).bounds_view(), other.bounds_view(), margin),
        ensures
            r.bounds_view() == at_x(
                old(self).bounds_view(),
                left_of_x(old(self).bounds_view(), other.bounds_view(), margin),
            ),
            *final(self) == *final(r),
    {
        let w = self.get_size().w + margin;
        let pos = self.get_position().with_x(other.get_position().x - cast_i32(w));
        self.set_position(pos);
        self
    }

    /// Places this object to the right of `other`, `margin` pixels apart.
    fn right_of<B: Bounds>(&mut self, other: &B, margin: u32) -> (r: &mut Self)
        requires
            right_of_ok(other.bounds_view(), margin),
        ensures
            r.bounds_view() == at_x(old(self).bounds_view(), right_of_x(other.bounds_view(), margin)),
            *final(self) == *final(r),
    {
        let w = other.get_size().w + margin;
        let pos = self.get_position().with_x(other.get_position().x + cast_i32(w));
        self.set_position(pos);
        self
    }

    /// Places this object above `other`, `margin` pixels apart.
    fn above<B: Bounds>(&mut self, other: &B, margin: u32) -> (r: &mut Self)
        requires
            above_ok(old(self).bounds_view(), other.bounds_view(), margin),
        ensures
            r.bounds_view() == at_y(
                old(self).bounds_view(),
                above_y(old(self).bounds_view(), other.bounds_view(), margin),
            ),
            *final(self) == *final(r),
    {
        let h = self.get_size().h + margin;
        let pos = self.get_position().with_y(other.get_position().y - cast_i32(h));
        self.set_position(pos);
        self
    }

    /// Places this object below `other`, `margin` pixels apart.
    fn below<B: Bounds>(&mut self, other: &B, margin: u32) -> (r: &mut Self)
        requires
            below_ok(other.bounds_view(), margin),
        ensures
            r.bounds_view() == at_y(old(self).bounds_view(), below_y(other.bounds_view(), margin)),
            *final(self) == *final(r),
    {
        let h = other.get_size().h + margin;
        let pos = self.get_position().with_y(other.get_position().y + cast_i32(h));
        self.set_position(pos);
        self
    }

    /// Aligns the left edge with `other`'s, plus `offset`.
    fn align_left<B: Bounds>(&mut self, other: &B, offset: i32) -> (r: &mut Self)
        requires
            fits_i32(other.bounds_view().pos.x + offset),
        ensures
            r.bounds_view() == at_x(old(self).bounds_view(), other.bounds_view().pos.x + offset),
            *final(self) == *final(r),
    {
        let pos = self.get_position().with_x(other.get_position().x + offset);
        self.set_position(pos);
        self
    }

    /// Aligns the right edge with `other`'s, plus `offset`.
    fn align_right<B: Bounds>(&mut self, other: &B, offset: i32) -> (r: &mut Self)
        requires
            align_right_ok(old(self).bounds_view(), other.bounds_view(), offset),
        ensures
            r.bounds_view() == at_x(
                old(self).bounds_view(),
                align_right_x(old(self).bounds_view(), other.bounds_view(), offset),
            ),
            *final(self) == *final(r),
    {
        let o = other.get_bounds();
        let w = self.get_size().w;
        let pos = self.get_position().with_x(o.pos.x + cast_i32(o.size.w) - cast_i32(w) + offset);
        self.set_position(pos);
        self
    }

    /// Aligns the top edge with `other`'s, plus `offset`.
    fn align_top<B: Bounds>(&mut self, other: &B, offset: i32) -> (r: &mut Self)
        requires
            fits_i32(other.bounds_view().pos.y + offset),
        ensures
            r.bounds_view() == at_y(old(self).bounds_view(), other.bounds_view().pos.y + offset),
            *final(self) == *final(r),
    {
        let pos = self.get_position().with_y(other.get_position().y + offset);
        self.set_position(pos);
        self
    }

    /// Aligns the bottom edge with `other`'s, plus `offset`.
    fn align_bottom<B: Bounds>(&mut self, other: &B, offset: i32) -> (r: &mut Self)
        requires
            align_bottom_ok(old(self).bounds_view(), other.bounds_view(), offset),
        ensures
            r.bounds_view() == at_y(
                old(self).bounds_view(),
                align_bottom_y(old(self).bounds_view(), other.bounds_view(), offset),
            ),
            *final(self) == *final(r),
    {
        let o = other.get_bounds();
        let h = self.get_size().h;
        let pos = self.get_position().with_y(o.pos.y + cast_i32(o.size.h) - cast_i32(h) + offset);
        self.set_position(pos);
        self
    }

    /// Centers horizontally on `other`, plus `offset`.
    fn align_hcenter<B: Bounds>(&mut self, other: &B, offset: i32) -> (r: &mut Self)
        requires
            align_hcenter_ok(old(self).bounds_view(), other.bounds_view(), offset),
        ensures
            r.bounds_view() == at_x(
                old(self).bounds_view(),
                align_hcenter_x(old(self).bounds_view(), other.bounds_view(), offset),
            ),
            *final(self) == *final(r),
    {
        let o = other.get_bounds();
        let w = self.get_size().w;
        let d = (cast_i32(o.size.w) - cast_i32(w)) / 2;
        let pos = self.get_position().with_x(o.pos.x + d + offset);
        self.set_position(pos);
        self
    }

    /// Centers vertically on `other`, plus `offset`.
    fn align_vcenter<B: Bounds>(&mut self, other: &B, offset: i32) -> (r: &mut Self)
        requires
            align_vcenter_ok(old(self).bounds_view(), other.bounds_view(), offset),
        ensures
            r.bounds_view() == at_y(
                old(self).bounds_view(),
                align_vcenter_y(old(self).bounds_view(), other.bounds_view(), offset),
            ),
            *final(self) == *final(r),
    {
        let o = other.get_bounds();
        let h = self.get_size().h;
        let d = (cast_i32(o.size.h) - cast_i32(h)) / 2;
        let pos = self.get_position().with_y(o.pos.y + d + offset);
        self.set_position(pos);
        self
    }

    /// Centers this object inside `other`.
    fn center_inside<B: Bounds>(&mut self, other: &B) -> (r: &mut Self)
        requires
            fits_i32(u32_as_i32(other.bounds_view().size.w) - u32_as_i32(old(self).bounds_view().size.w)),
            fits_i32(u32_as_i32(other.bounds_view().size.h) - u32_as_i32(old(self).bounds_view().size.h)),
            fits_i32(
                center_coord(
                    other.bounds_view().pos.x as int,
                    other.bounds_view().size.w,
                    old(self).bounds_view().size.w,
                ),
            ),
            fits_i32(
                center_coord(
                    other.bounds_view().pos.y as int,
                    other.bounds_view().size.h,
                    old(self).bounds_view().size.h,
                ),
            ),
        ensures
            r.bounds_view() == old(self).bounds_view().with_pos_spec(
                Point {
                    x: center_coord(
                        other.bounds_view().pos.x as int,
                        other.bounds_view().size.w,
                        old(self).bounds_view().size.w,
                    ) as i32,
                    y: center_coord(
                        other.bounds_view().pos.y as int,
                        other.bounds_view().size.h,
                        old(self).bounds_view().size.h,
                    ) as i32,
                },
            ),
            *final(self) == *final(r),
    {
        let b = other.get_bounds();
        let outer = b.size.as_position();
        let inner = self.get_size().as_position();
        let hx = (outer.x - inner.x) / 2;
        let hy = (outer.y - inner.y) / 2;
        self.set_position(Point { x: b.pos.x + hx, y: b.pos.y + hy });
        self
    }
}

impl<T: BoundsMut> Layout for T {

}

/// An object placed right of, left of, below or above another (with any margin) does
/// not overlap it, when the sizes and margins involved fit an `i32`.
pub proof fn lemma_relative_placement_clear(me: Rect, other: Rect, margin: u32)
    requires
        me.small(),
        other.small(),
    ensures
        other.size.w + margin <= i32::MAX && fits_i32(right_of_x(other, margin)) ==> !at_x(me, right_of_x(other, margin)).intersects_spec(
            other,
        ),
        other.size.h + margin <= i32::MAX && fits_i32(below_y(other, margin)) ==> !at_y(me, below_y(other, margin)).intersects_spec(
            other,
        ),
        me.size.w + margin <= i32::MAX && fits_i32(left_of_x(me, other, margin)) ==> !at_x(
            me,
            left_of_x(me, other, margin),
        ).intersects_spec(other),
        me.size.h + margin <= i32::MAX && fits_i32(above_y(me, other, margin)) ==> !at_y(
            me,
            above_y(me, other, margin),
        ).intersects_spec(other),
{
}

/// Where the placements of [`Layout`] put an object `me` relative to `other` (sizes and
/// margins fitting an `i32`): right of `other` starts `margin` columns after its right
/// edge, left of it ends `margin` columns before its left edge, below and above
/// likewise with rows; aligned right or bottom, the far edges coincide (moved by
/// `offset`); centered (also by [`Layout::center_inside`]), the space left on either
/// side differs by at most one, the extra one on the far side when `me` is the smaller.
pub proof fn lemma_placements(me: Rect, other: Rect, margin: u32, offset: i32)
    requires
        me.small(),
        other.small(),
        me.size.w + margin <= i32::MAX,
        me.size.h + margin <= i32::MAX,
        other.size.w + margin <= i32::MAX,
        other.size.h + margin <= i32::MAX,
    ensures
        right_of_x(other, margin) == other.pos.x + other.size.w + margin,
        left_of_x(me, other, margin) + me.size.w + margin == other.pos.x,
        below_y(other, margin) == other.pos.y + other.size.h + margin,
        above_y(me, other, margin) + me.size.h + margin == other.pos.y,
        align_right_x(me, other, offset) + me.size.w == other.pos.x + other.size.w + offset,
        align_bottom_y(me, other, offset) + me.size.h == other.pos.y + other.size.h + offset,
        ({
            let left = align_hcenter_x(me, other, offset) - offset - other.pos.x;
            let right = other.pos.x + other.size.w - (align_hcenter_x(me, other, offset) - offset + me.size.w);
            &&& -1 <= right - left <= 1
            &&& me.size.w <= other.size.w ==> 0 <= left <= right
        }),
        ({
            let top = align_vcenter_y(me, other, offset) - offset - other.pos.y;
            let bottom = other.pos.y + other.size.h - (align_vcenter_y(me, other, offset) - offset + me.size.h);
            &&& -1 <= bottom - top <= 1
            &&& me.size.h <= other.size.h ==> 0 <= top <= bottom
        }),
        ({
            let x = center_coord(other.pos.x as int, other.size.w, me.size.w);
            let left = x - other.pos.x;
            let right = other.pos.x + other.size.w - (x + me.size.w);
            &&& -1 <= right - left <= 1
            &&& me.size.w <= other.size.w ==> 0 <= left <= right
        }),
{
}

/// The bounds of every object of a sequence.
pub open spec fn views<T: Bounds>(items: Seq<T>) -> Seq<Rect> {
    items.map_values(|t: T| t.bounds_view())
}

/// How [`foreach`] chains its calls, for objects `orig` that became `fin`: the call for
/// object `i` (from 1 on) received `prevs[i]` as the previous object and answered
/// `fin[i]` with `nexts[i]`, the object to pass on as the next previous one (`None`:
/// the updated object itself); the first call received the first object.
pub open spec fn foreach_chain<'a, T: 'a, F: Fn(&T, &T, &T) -> (T, Option<&'a T>)>(
    f: F,
    orig: Seq<T>,
    fin: Seq<T>,
    prevs: Seq<T>,
    nexts: Seq<Option<&'a T>>,
) -> bool {
    &&& prevs.len() == orig.len()
    &&& nexts.len() == orig.len()
    &&& orig.len() > 1 ==> prevs[1] == orig[0]
    &&& forall|i: int|
        1 <= i < orig.len() ==> call_ensures(f, (&orig[i], &prevs[i], &orig[0]), (#[trigger] fin[i], nexts[i]))
    &&& forall|i: int|
        1 <= i < orig.len() - 1 ==> #[trigger] prevs[i + 1] == match nexts[i] {
            Some(r) => *r,
            None => fin[i],
        }
}

/// Runs a layout expression for a collection of objects.
///
/// Each object after the first is replaced by the first part of
/// `f(object, previous, first)`, where `first` is the first object and `previous` is
/// what the call before passed on: the second part of its answer, or, when that is
/// `None`, the object it updated (the first call gets the first object). The first
/// object is left as it is.
pub fn foreach<'a, T: 'a, F: Fn(&T, &T, &T) -> (T, Option<&'a T>)>(items: &mut Vec<T>, f: F)
    requires
        forall|a: &T, b: &T, c: &T| call_requires(f, (a, b, c)),
    ensures
        final(items).len() == old(items).len(),
        old(items).len() > 0 ==> final(items)@[0] == old(items)@[0],
        exists|prevs: Seq<T>, nexts: Seq<Option<&'a T>>|
            #[trigger] foreach_chain(f, old(items)@, final(items)@, prevs, nexts),
{
    let ghost orig = items@;
    let n = items.len();
    if n == 0 {
        assert(foreach_chain(f, orig, items@, Seq::<T>::empty(), Seq::<Option<&'a T>>::empty()));
        return;
    }
    let ghost mut prevs: Seq<T> = seq![orig[0]];
    let ghost mut nexts: Seq<Option<&'a T>> = seq![None];
    let mut pass: Option<&'a T> = None;
    let mut i: usize = 1;
    while i < n
        invariant
            n == items.len() == orig.len(),
            n > 0,
            1 <= i <= n,
            prevs.len() == i,
            nexts.len() == i,
            forall|a: &T, b: &T, c: &T| call_requires(f, (a, b, c)),
            items@[0] == orig[0],
            forall|j: int| i <= j < n ==> items@[j] == orig[j],
            forall|j: int|
                1 <= j < i ==> call_ensures(f, (&orig[j], &prevs[j], &orig[0]), (#[trigger] items@[j], nexts[j])),
            i == 1 ==> pass is None,
            i > 1 ==> pass == nexts[i - 1],
            forall|j: int|
                1 <= j < i - 1 ==> #[trigger] prevs[j + 1] == match nexts[j] {
                    Some(r) => *r,
                    None => items@[j],
                },
            i > 1 ==> prevs[1] == orig[0],
        decreases n - i,
    {
        let (next, next_pass) = {
            let prev: &T = match pass {
                Some(r) => r,
                None => &items[i - 1],
            };
            proof {
                prevs = prevs.push(*prev);
            }
            f(&items[i], prev, &items[0])
        };
        items.set(i, next);
        proof {
            nexts = nexts.push(next_pass);
        }
        pass = next_pass;
        i = i + 1;
    }
    assert(foreach_chain(f, orig, items@, prevs, nexts));
}

/// The state of [`flow_horiz`] after placing some of the objects.
pub struct FlowState {
    /// Bounds of all the objects.
    pub rects: Seq<Rect>,
    /// Bounds of the first object of the current row, as placed.
    pub first: Rect,
    /// Bounds of the last object placed.
    pub prev: Rect,
    /// Rectangle covering the current row.
    pub row: Rect,
    /// Index of the first object of the current row.
    pub row_start: int,
}

/// The layout parameters of [`flow_horiz`].
pub struct FlowParams {
    pub valign: VAlign,
    pub max_width: u32,
    pub hspacing: u32,
    pub vspacing: u32,
}

/// `rects` with the objects in `from..to` moved down by `dy`.
pub open spec fn shift_down(rects: Seq<Rect>, from: int, to: int, dy: int) -> Seq<Rect> {
    Seq::new(
        rects.len(),
        |j: int|
            if from <= j < to {
                at_y(rects[j], rects[j].pos.y + dy)
            } else {
                rects[j]
            },
    )
}

/// All objects in `from..to` can be moved down by `dy` without overflow.
pub open spec fn shift_down_ok(rects: Seq<Rect>, from: int, to: int, dy: int) -> bool {
    forall|j: int| from <= j < to ==> fits_i32(#[trigger] rects[j].pos.y + dy)
}

/// Vertical placement of `me` next to `prev`, according to `valign`.
pub open spec fn valign_y(valign: VAlign, me: Rect, prev: Rect) -> int {
    match valign {
        VAlign::Top => prev.pos.y as int,
        VAlign::Center => align_vcenter_y(me, prev, 0),
        VAlign::Bottom => align_bottom_y(me, prev, 0),
    }
}

/// No overflow in the vertical placement of `me` next to `prev`.
pub open spec fn valign_ok(valign: VAlign, me: Rect, prev: Rect) -> bool {
    match valign {
        VAlign::Top => true,
        VAlign::Center => align_vcenter_ok(me, prev, 0),
        VAlign::Bottom => align_bottom_ok(me, prev, 0),
    }
}

/// The object `item` does not fit in the current row and starts a new one.
pub open spec fn breaks_row(st: FlowState, item: Rect, p: FlowParams) -> bool {
    st.row.size.w + item.size.w + p.hspacing > p.max_width
}

/// How far the current row must move down to start at the height of its first object.
pub open spec fn row_offset(st: FlowState) -> int {
    st.first.pos.y - st.row.pos.y
}

/// Places the object `i` (its predecessors already placed).
///
/// If it fits in the current row, it goes right of the previous object, aligned
/// vertically with it; the row grows to cover it. Otherwise the current row is first
/// moved down (when its first object lies below the row's top), and the object starts
/// a new row below it, aligned with the first object of the previous row.
pub open spec fn flow_step(st: FlowState, i: int, p: FlowParams) -> FlowState {
    let item = st.rects[i];
    if breaks_row(st, item, p) {
        let off = row_offset(st);
        let rects1 = if off > 0 {
            shift_down(st.rects, st.row_start, i, off)
        } else {
            st.rects
        };
        let row1 = if off > 0 {
            at_y(st.row, st.row.pos.y + off)
        } else {
            st.row
        };
        let placed = item.with_pos_spec(
            Point { x: st.first.pos.x, y: below_y(row1, p.vspacing) as i32 },
        );
        FlowState {
            rects: rects1.update(i, placed),
            first: placed,
            prev: placed,
            row: placed,
            row_start: i,
        }
    } else {
        let moved = at_x(item, right_of_x(st.prev, p.hspacing));
        let placed = at_y(moved, valign_y(p.valign, moved, st.prev));
        FlowState {
            rects: st.rects.update(i, placed),
            first: st.first,
            prev: placed,
            row: st.row.merge_spec(placed),
            row_start: st.row_start,
        }
    }
}

/// [`flow_step`] computes without overflow.
pub open spec fn flow_step_ok(st: FlowState, i: int, p: FlowParams) -> bool {
    let item = st.rects[i];
    &&& fits_u32(st.row.size.w + item.size.w)
    &&& fits_u32(st.row.size.w + item.size.w + p.hspacing)
    &&& if breaks_row(st, item, p) {
        let off = row_offset(st);
        let row1 = if off > 0 {
            at_y(st.row, st.row.pos.y + off)
        } else {
            st.row
        };
        &&& fits_i32(off)
        &&& off > 0 ==> fits_i32(st.row.pos.y + off) && shift_down_ok(
            st.rects,
            st.row_start,
            i,
            off,
        )
        &&& below_ok(row1, p.vspacing)
    } else {
        let moved = at_x(item, right_of_x(st.prev, p.hspacing));
        let placed = at_y(moved, valign_y(p.valign, moved, st.prev));
        &&& right_of_ok(st.prev, p.hspacing)
        &&& valign_ok(p.valign, moved, st.prev)
        &&& st.row.merge_ok(placed)
    }
}

/// The state of [`flow_horiz`] once the objects `0..k` are placed (`k >= 1`).
pub open spec fn flow_upto(rects: Seq<Rect>, k: int, p: FlowParams) -> FlowState
    decreases k,
{
    if k <= 1 {
        FlowState { rects, first: rects[0], prev: rects[0], row: rects[0], row_start: 0 }
    } else {
        flow_step(flow_upto(rects, k - 1, p), k - 1, p)
    }
}

/// The final positions computed by [`flow_horiz`]: every object placed, then the last
/// row moved down when its first object lies below the row's top.
pub open spec fn flow_result(rects: Seq<Rect>, p: FlowParams) -> Seq<Rect> {
    if rects.len() == 0 {
        rects
    } else {
        let st = flow_upto(rects, rects.len() as int, p);
        let off = row_offset(st);
        if off > 0 {
            shift_down(st.rects, st.row_start, rects.len() as int, off)
        } else {
            st.rects
        }
    }
}

/// [`flow_horiz`] computes without overflow.
pub open spec fn flow_ok(rects: Seq<Rect>, p: FlowParams) -> bool {
    rects.len() > 0 ==> {
        &&& forall|k: int| 1 <= k < rects.len() ==> #[trigger] flow_step_ok(flow_upto(rects, k, p), k, p)
        &&& fits_i32(row_offset(flow_upto(rects, rects.len() as int, p)))
        &&& row_offset(flow_upto(rects, rects.len() as int, p)) > 0 ==> shift_down_ok(
            flow_upto(rects, rects.len() as int, p).rects,
            flow_upto(rects, rects.len() as int, p).row_start,
            rects.len() as int,
            row_offset(flow_upto(rects, rects.len() as int, p)),
        )
    }
}

/// Basic facts about the state of [`flow_horiz`].
pub proof fn lemma_flow_upto_shape(rects: Seq<Rect>, k: int, p: FlowParams)
    requires
        1 <= k <= rects.len(),
    ensures
        flow_upto(rects, k, p).rects.len() == rects.len(),
        0 <= flow_upto(rects, k, p).row_start < k,
        forall|j: int| k <= j < rects.len() ==> #[trigger] flow_upto(rects, k, p).rects[j] == rects[j],
        forall|j: int|
            0 <= j < rects.len() ==> #[trigger] flow_upto(rects, k, p).rects[j].size == rects[j].size,
        flow_upto(rects, k, p).rects[0].pos.x == rects[0].pos.x,
    decreases k,
{
    if k > 1 {
        lemma_flow_upto_shape(rects, k - 1, p);
    }
}

/// [`flow_horiz`] only moves objects: it keeps their number and their sizes, and the
/// first object keeps its horizontal position.
pub proof fn lemma_flow_keeps_sizes(rects: Seq<Rect>, p: FlowParams)
    ensures
        flow_result(rects, p).len() == rects.len(),
        forall|j: int| 0 <= j < rects.len() ==> #[trigger] flow_result(rects, p)[j].size == rects[j].size,
        rects.len() > 0 ==> flow_result(rects, p)[0].pos.x == rects[0].pos.x,
{
    if rects.len() > 0 {
        lemma_flow_upto_shape(rects, rects.len() as int, p);
    }
}

/// While objects are placed, the last one placed is the previous object, and the first
/// object of the current row keeps the column it was placed at.
proof fn lemma_flow_state_links(rects: Seq<Rect>, k: int, p: FlowParams)
    requires
        1 <= k <= rects.len(),
    ensures
        flow_upto(rects, k, p).prev == flow_upto(rects, k, p).rects[k - 1],
        flow_upto(rects, k, p).first.pos.x == flow_upto(rects, k, p).rects[flow_upto(rects, k, p).row_start].pos.x,
    decreases k,
{
    lemma_flow_upto_shape(rects, k, p);
    if k > 1 {
        lemma_flow_state_links(rects, k - 1, p);
        lemma_flow_upto_shape(rects, k - 1, p);
        let st = flow_upto(rects, k - 1, p);
        if breaks_row(st, st.rects[k - 1], p) {
        } else {
            assert(flow_upto(rects, k, p).rects[st.row_start] == st.rects[st.row_start]);
        }
    }
}

/// Once placed, an object keeps its column: later steps only move it vertically.
proof fn lemma_flow_column_kept(rects: Seq<Rect>, j: int, m: int, p: FlowParams)
    requires
        0 <= j < m <= rects.len(),
    ensures
        flow_upto(rects, m, p).rects[j].pos.x == flow_upto(rects, j + 1, p).rects[j].pos.x,
    decreases m,
{
    if m > j + 1 {
        lemma_flow_column_kept(rects, j, m - 1, p);
        lemma_flow_upto_shape(rects, m - 1, p);
        let st = flow_upto(rects, m - 1, p);
        if breaks_row(st, st.rects[m - 1], p) && row_offset(st) > 0 {
            assert(shift_down(st.rects, st.row_start, m - 1, row_offset(st))[j].pos.x == st.rects[j].pos.x);
        }
    }
}

/// How [`flow_horiz`] places each object after the first.
///
/// The object starts a new row exactly when the current row, widened by the object and
/// the horizontal spacing, would be wider than `max_width`. In the final layout, an
/// object that stays in the row lies `hspacing` right of the previous object, and an
/// object that starts a row lies in the column of the first object of the row before.
/// When placed, an object in a row is aligned vertically with the previous object as
/// `valign` asks, and an object that starts a row lies `vspacing` below the row before
/// (moved down first when its first object lies below its top).
pub proof fn lemma_flow_placement(rects: Seq<Rect>, k: int, p: FlowParams)
    requires
        flow_ok(rects, p),
        1 <= k < rects.len(),
    ensures
        ({
            let st = flow_upto(rects, k, p);
            let next = flow_upto(rects, k + 1, p);
            let res = flow_result(rects, p);
            &&& (next.row_start == k) == breaks_row(st, rects[k], p)
            &&& !breaks_row(st, rects[k], p) ==> {
                &&& res[k].pos.x == right_of_x(res[k - 1], p.hspacing)
                &&& next.rects[k].pos.y == valign_y(
                    p.valign,
                    at_x(rects[k], right_of_x(st.rects[k - 1], p.hspacing)),
                    st.rects[k - 1],
                )
            }
            &&& breaks_row(st, rects[k], p) ==> {
                &&& res[k].pos.x == res[st.row_start].pos.x
                &&& next.rects[k].pos.y == below_y(
                    if row_offset(st) > 0 {
                        at_y(st.row, st.row.pos.y + row_offset(st))
                    } else {
                        st.row
                    },
                    p.vspacing,
                )
            }
        }),
{
    let n = rects.len() as int;
    let st = flow_upto(rects, k, p);
    let next = flow_upto(rects, k + 1, p);
    let last = flow_upto(rects, n, p);
    let res = flow_result(rects, p);
    lemma_flow_upto_shape(rects, k, p);
    lemma_flow_upto_shape(rects, k + 1, p);
    lemma_flow_upto_shape(rects, n, p);
    lemma_flow_state_links(rects, k, p);
    assert(flow_step_ok(flow_upto(rects, k, p), k, p));
    assert(st.rects[k] == rects[k]);
    lemma_flow_column_kept(rects, k, n, p);
    lemma_flow_column_kept(rects, k - 1, n, p);
    lemma_flow_column_kept(rects, k - 1, k, p);
    lemma_flow_column_kept(rects, st.row_start, n, p);
    lemma_flow_column_kept(rects, st.row_start, k, p);
    assert(res[k].pos.x == last.rects[k].pos.x);
    assert(res[k - 1].pos.x == last.rects[k - 1].pos.x);
    assert(res[k - 1].size == rects[k - 1].size);
    assert(res[st.row_start].pos.x == last.rects[st.row_start].pos.x);
}

/// The first object of the row that object `j` was placed in.
pub open spec fn row_start_of(rects: Seq<Rect>, j: int, p: FlowParams) -> int {
    flow_upto(rects, j + 1, p).row_start
}

/// The height at which object `s` was placed by [`flow_horiz`] (for the first object
/// of a row: just below the row before, or where the very first object is).
pub open spec fn placed_y(rects: Seq<Rect>, s: int, p: FlowParams) -> int {
    flow_upto(rects, s + 1, p).rects[s].pos.y as int
}

/// What holds of the rows while objects are placed: the objects of the finished rows
/// lie no higher than where the first object of their row was placed; the objects of
/// the current row lie no higher than the top of the row rectangle; the row's first
/// object is where it was placed.
pub open spec fn flow_rows_inv(rects: Seq<Rect>, k: int, p: FlowParams) -> bool {
    let st = flow_upto(rects, k, p);
    &&& forall|j: int|
        0 <= j < st.row_start ==> #[trigger] st.rects[j].pos.y >= placed_y(rects, row_start_of(rects, j, p), p)
    &&& forall|j: int| st.row_start <= j < k ==> #[trigger] st.rects[j].pos.y >= st.row.pos.y
    &&& forall|j: int| st.row_start <= j < k ==> #[trigger] row_start_of(rects, j, p) == st.row_start
    &&& st.first.pos.y == placed_y(rects, st.row_start, p)
    &&& st.rects[st.row_start] == st.first
}

#[verifier::spinoff_prover]
#[verifier::rlimit(40)]
proof fn lemma_flow_rows_inv(rects: Seq<Rect>, k: int, p: FlowParams)
    requires
        flow_ok(rects, p),
        1 <= k <= rects.len(),
    ensures
        flow_rows_inv(rects, k, p),
    decreases k,
{
    lemma_flow_upto_shape(rects, k, p);
    if k > 1 {
        let i = k - 1;
        lemma_flow_rows_inv(rects, i, p);
        lemma_flow_upto_shape(rects, i, p);
        let st = flow_upto(rects, i, p);
        let nx = flow_upto(rects, k, p);
        assert(flow_step_ok(flow_upto(rects, i, p), i, p));
        assert(nx == flow_step(st, i, p));
        if breaks_row(st, st.rects[i], p) {
            let off = row_offset(st);
            assert forall|j: int| 0 <= j < nx.row_start implies #[trigger] nx.rects[j].pos.y >= placed_y(
                rects,
                row_start_of(rects, j, p),
                p,
            ) by {
                if j < st.row_start {
                    assert(st.rects[j].pos.y >= placed_y(rects, row_start_of(rects, j, p), p));
                } else {
                    assert(st.rects[j].pos.y >= st.row.pos.y);
                    assert(row_start_of(rects, j, p) == st.row_start);
                }
            }
        } else {
            assert forall|j: int| 0 <= j < nx.row_start implies #[trigger] nx.rects[j].pos.y >= placed_y(
                rects,
                row_start_of(rects, j, p),
                p,
            ) by {
                assert(st.rects[j].pos.y >= placed_y(rects, row_start_of(rects, j, p), p));
            }
            assert forall|j: int| nx.row_start <= j < k implies #[trigger] nx.rects[j].pos.y >= nx.row.pos.y by {
                if j < i {
                    assert(st.rects[j].pos.y >= st.row.pos.y);
                }
            }
            assert forall|j: int| nx.row_start <= j < k implies #[trigger] row_start_of(rects, j, p)
                == nx.row_start by {
                if j < i {
                    assert(row_start_of(rects, j, p) == st.row_start);
                }
            }
        }
    }
}

/// No row of [`flow_horiz`] reaches above where its first object was placed: in the
/// final layout, every object lies no higher than the height at which the first object
/// of its row was placed (for the first object of a later row, just below the row
/// before it; the objects of a row that reached higher are moved down together).
pub proof fn lemma_flow_row_tops(rects: Seq<Rect>, p: FlowParams, j: int)
    requires
        flow_ok(rects, p),
        0 <= j < rects.len(),
    ensures
        flow_result(rects, p)[j].pos.y >= placed_y(rects, row_start_of(rects, j, p), p),
{
    let n = rects.len() as int;
    lemma_flow_rows_inv(rects, n, p);
    lemma_flow_upto_shape(rects, n, p);
    let st = flow_upto(rects, n, p);
    if j < st.row_start {
        assert(st.rects[j].pos.y >= placed_y(rects, row_start_of(rects, j, p), p));
    } else {
        assert(st.rects[j].pos.y >= st.row.pos.y);
        assert(row_start_of(rects, j, p) == st.row_start);
    }
}

/// Every object's width, with the horizontal spacing added, fits an `i32` (beyond that,
/// placing an object right of another wraps around).
pub open spec fn flow_widths_small(rects: Seq<Rect>, p: FlowParams) -> bool {
    forall|i: int| 0 <= i < rects.len() ==> #[trigger] rects[i].size.w + p.hspacing <= i32::MAX
}

/// While objects are placed, the row rectangle starts at the left edge of the row's
/// first object and ends at the right edge of the last object placed, which lies no
/// further left than the first.
pub open spec fn flow_row_span_inv(rects: Seq<Rect>, k: int, p: FlowParams) -> bool {
    let st = flow_upto(rects, k, p);
    let s = st.row_start;
    &&& st.row.pos.x == st.rects[s].pos.x
    &&& st.row.size.w == st.rects[k - 1].pos.x + st.rects[k - 1].size.w - st.rects[s].pos.x
    &&& st.row.size.w <= i32::MAX
    &&& st.rects[k - 1].pos.x >= st.rects[s].pos.x
}

proof fn lemma_flow_row_span(rects: Seq<Rect>, k: int, p: FlowParams)
    requires
        flow_ok(rects, p),
        flow_widths_small(rects, p),
        1 <= k <= rects.len(),
    ensures
        flow_row_span_inv(rects, k, p),
        k < rects.len() && !breaks_row(flow_upto(rects, k, p), rects[k], p) ==> flow_upto(rects, k + 1, p).row.size.w
            == flow_upto(rects, k, p).row.size.w + rects[k].size.w + p.hspacing,
    decreases k,
{
    lemma_flow_upto_shape(rects, k, p);
    lemma_flow_state_links(rects, k, p);
    if k > 1 {
        lemma_flow_row_span(rects, k - 1, p);
        lemma_flow_upto_shape(rects, k - 1, p);
        lemma_flow_state_links(rects, k - 1, p);
        assert(flow_step_ok(flow_upto(rects, k - 1, p), k - 1, p));
        assert(rects[k - 2].size.w + p.hspacing <= i32::MAX);
        assert(rects[k - 1].size.w + p.hspacing <= i32::MAX);
    } else {
        assert(rects[0].size.w + p.hspacing <= i32::MAX);
    }
    if k < rects.len() {
        let st = flow_upto(rects, k, p);
        assert(flow_step_ok(flow_upto(rects, k, p), k, p));
        assert(rects[k - 1].size.w + p.hspacing <= i32::MAX);
        assert(rects[k].size.w + p.hspacing <= i32::MAX);
        assert(st.rects[k] == rects[k]);
    }
}

/// No row of [`flow_horiz`] that holds more than one object is wider than `max_width`:
/// in the final layout, from the left edge of a row's first object `s` to the right
/// edge of any later object `k` of the row there are at most `max_width` columns.
pub proof fn lemma_flow_rows_fit(rects: Seq<Rect>, p: FlowParams, s: int, k: int)
    requires
        flow_ok(rects, p),
        flow_widths_small(rects, p),
        0 <= s < k < rects.len(),
        row_start_of(rects, k, p) == s,
    ensures
        flow_result(rects, p)[k].pos.x + flow_result(rects, p)[k].size.w - flow_result(rects, p)[s].pos.x
            <= p.max_width,
{
    let n = rects.len() as int;
    lemma_flow_row_span(rects, k, p);
    lemma_flow_row_span(rects, k + 1, p);
    lemma_flow_upto_shape(rects, k, p);
    lemma_flow_upto_shape(rects, k + 1, p);
    lemma_flow_upto_shape(rects, n, p);
    let st = flow_upto(rects, k, p);
    assert(!breaks_row(st, st.rects[k], p));
    assert(st.rects[k] == rects[k]);
    lemma_flow_column_kept(rects, k, n, p);
    lemma_flow_column_kept(rects, s, n, p);
    lemma_flow_column_kept(rects, s, k + 1, p);
}

/// [`flow_horiz`] starts a new row only for an object that does not fit: when object
/// `k` starts a row, the row before it, from the left edge of its first object to the
/// right edge of object `k - 1`, widened by the spacing and object `k`, would be wider
/// than `max_width`.
pub proof fn lemma_flow_rows_break(rects: Seq<Rect>, p: FlowParams, k: int)
    requires
        flow_ok(rects, p),
        flow_widths_small(rects, p),
        1 <= k < rects.len(),
        row_start_of(rects, k, p) == k,
    ensures
        ({
            let res = flow_result(rects, p);
            let s = row_start_of(rects, k - 1, p);
            res[k - 1].pos.x + res[k - 1].size.w + p.hspacing + res[k].size.w - res[s].pos.x > p.max_width
        }),
{
    let n = rects.len() as int;
    lemma_flow_row_span(rects, k, p);
    lemma_flow_upto_shape(rects, k, p);
    lemma_flow_upto_shape(rects, k + 1, p);
    lemma_flow_upto_shape(rects, n, p);
    let st = flow_upto(rects, k, p);
    let s = st.row_start;
    assert(st.rects[k] == rects[k]);
    assert(breaks_row(st, st.rects[k], p));
    lemma_flow_column_kept(rects, k - 1, n, p);
    lemma_flow_column_kept(rects, k - 1, k, p);
    lemma_flow_column_kept(rects, s, n, p);
    lemma_flow_column_kept(rects, s, k, p);
}

/// Moves the objects `from..to` down by `dy`.
fn shift_items_down<T: BoundsMut>(items: &mut Vec<T>, from: usize, to: usize, dy: i32)
    requires
        from <= to <= old(items).len(),
        shift_down_ok(views(old(items)@), from as int, to as int, dy as int),
    ensures
        final(items).len() == old(items).len(),
        views(final(items)@) == shift_down(views(old(items)@), from as int, to as int, dy as int),
{
    let ghost orig = views(items@);
    let mut j = from;
    while j < to
        invariant
            from <= j <= to <= items.len(),
            items.len() == orig.len(),
            shift_down_ok(orig, from as int, to as int, dy as int),
            views(items@) == shift_down(orig, from as int, j as int, dy as int),
        decreases to - j,
    {
        proof {
            assert(views(items@)[j as int] == orig[j as int]);
        }
        let ghost before = items@;
        let pos = items[j].get_position();
        let moved = pos.offset(0, dy);
        items[j].set_position(moved);
        proof {
            assert(items@.len() == before.len());
            assert(forall|k: int| 0 <= k < before.len() && k != j ==> items@[k] == before[k]);
            assert(items@[j as int].bounds_view() == at_y(orig[j as int], orig[j as int].pos.y + dy));
            let prev_views = shift_down(orig, from as int, j as int, dy as int);
            assert forall|k: int| 0 <= k < orig.len() implies #[trigger] views(items@)[k]
                == shift_down(orig, from as int, j + 1, dy as int)[k] by {
                if k != j {
                    assert(views(before)[k] == prev_views[k]);
                }
            }
            assert(views(items@) =~= shift_down(orig, from as int, j + 1, dy as int));
        }
        j = j + 1;
    }
}

/// Places a collection of widgets horizontally in sequence, starting a new row if necessary.
///
/// Objects keep their sizes; their positions are those of [`flow_result`].
pub fn flow_horiz<T: BoundsMut>(
    items: &mut Vec<T>,
    valign: VAlign,
    max_width: u32,
    hspacing: u32,
    vspacing: u32,
)
    requires
        flow_ok(views(old(items)@), FlowParams { valign, max_width, hspacing, vspacing }),
    ensures
        views(final(items)@) == flow_result(
            views(old(items)@),
            FlowParams { valign, max_width, hspacing, vspacing },
        ),
{
    let ghost p = FlowParams { valign, max_width, hspacing, vspacing };
    let ghost orig = views(items@);
    let n = items.len();
    if n == 0 {
        return;
    }
    let mut first = items[0].get_bounds();
    let mut prev = first;
    let mut row = first;
    let mut row_start: usize = 0;
    let mut i: usize = 1;
    while i < n
        invariant
            1 <= i <= n == items.len() == orig.len(),
            orig == views(old(items)@),
            p == (FlowParams { valign, max_width, hspacing, vspacing }),
            flow_ok(orig, p),
            views(items@) == flow_upto(orig, i as int, p).rects,
            first == flow_upto(orig, i as int, p).first,
            prev == flow_upto(orig, i as int, p).prev,
            row == flow_upto(orig, i as int, p).row,
            row_start == flow_upto(orig, i as int, p).row_start,
        decreases n - i,
    {
        let ghost st = flow_upto(orig, i as int, p);
        proof {
            lemma_flow_upto_shape(orig, i as int, p);
            assert(flow_step_ok(st, i as int, p));
            assert(flow_upto(orig, i + 1, p) == flow_step(st, i as int, p));
            assert(views(items@)[i as int] == st.rects[i as int]);
        }
        let item_w = items[i].get_size().w;
        if row.size.w + item_w + hspacing > max_width {
            let offset = first.pos.y - row.pos.y;
            if offset > 0 {
                row.pos.y = row.pos.y + offset;
                shift_items_down(items, row_start, i, offset);
            }
            proof {
                assert(views(items@)[i as int] == st.rects[i as int]);
            }
            items[i].below(&row, vspacing).align_left(&first, 0);
            first = items[i].get_bounds();
            row_start = i;
            prev = first;
            row = first;
            proof {
                assert(views(items@) =~= flow_step(st, i as int, p).rects);
            }
        } else {
            let pr = prev;
            match valign {
                VAlign::Top => {
                    items[i].right_of(&pr, hspacing).align_top(&pr, 0);
                },
                VAlign::Center => {
                    items[i].right_of(&pr, hspacing).align_vcenter(&pr, 0);
                },
                VAlign::Bottom => {
                    items[i].right_of(&pr, hspacing).align_bottom(&pr, 0);
                },
            }
            let item_bounds = items[i].get_bounds();
            prev = item_bounds;
            row = row.merge(item_bounds);
            proof {
                assert(views(items@) =~= flow_step(st, i as int, p).rects);
            }
        }
        i = i + 1;
    }
    proof {
        lemma_flow_upto_shape(orig, n as int, p);
    }
    let offset = first.pos.y - row.pos.y;
    if offset > 0 {
        shift_items_down(items, row_start, n, offset);
    }
}

} // verus!
