//! Axis-aligned rectangles.
use vstd::prelude::*;

use super::{
    half_toward_zero, cast_i32, cast_u32, fits_i32, fits_i32_wide, fits_u32, i32_as_u32, max_int, min_int, u32_as_i32, Border,
    Point, Position, Size,
};

verus! {

/// Defines a rectangle.
#[derive(Debug, Clone, Copy, PartialEq, Eq, Structural, Hash)]
pub struct Rect {
    /// Position of the top left corner.
    pub pos: Position,
    /// Rectangle size.
    pub size: Size,
}

impl Rect {
    /// Last column covered by the rectangle: `x + (w as i32) - 1`.
    pub open spec fn end_x_spec(self) -> int {
        self.pos.x + u32_as_i32(self.size.w) - 1
    }

    /// Last row covered by the rectangle: `y + (h as i32) - 1`.
    pub open spec fn end_y_spec(self) -> int {
        self.pos.y + u32_as_i32(self.size.h) - 1
    }

    /// The last column can be computed in `i32` without overflow.
    pub open spec fn end_x_ok(self) -> bool {
        fits_i32(self.pos.x + u32_as_i32(self.size.w)) && fits_i32(self.end_x_spec())
    }

    /// The last row can be computed in `i32` without overflow.
    pub open spec fn end_y_ok(self) -> bool {
        fits_i32(self.pos.y + u32_as_i32(self.size.h)) && fits_i32(self.end_y_spec())
    }

    /// The last column and row can be computed in `i32` without overflow.
    pub open spec fn ends_ok(self) -> bool {
        self.end_x_ok() && self.end_y_ok()
    }

    /// [`Rect::contains`] computes without overflow: the last column is computed once
    /// `p` is right of the first, the last row once `p` is within the columns and
    /// below the first row.
    pub open spec fn contains_ok(self, p: Position) -> bool {
        &&& p.x >= self.pos.x ==> self.end_x_ok()
        &&& (p.x >= self.pos.x && p.x <= self.end_x_spec() && p.y >= self.pos.y) ==> self.end_y_ok()
    }

    /// [`Rect::intersects`] computes without overflow (its comparisons stop at the
    /// first one that fails).
    pub open spec fn intersects_ok(self, other: Rect) -> bool {
        &&& other.end_x_ok()
        &&& self.pos.x <= other.end_x_spec() ==> self.end_x_ok()
        &&& (self.pos.x <= other.end_x_spec() && self.end_x_spec() >= other.pos.x) ==> other.end_y_ok()
        &&& (self.pos.x <= other.end_x_spec() && self.end_x_spec() >= other.pos.x && self.pos.y
            <= other.end_y_spec()) ==> self.end_y_ok()
    }

    /// [`Rect::inside`] computes without overflow (its comparisons stop at the first
    /// one that fails).
    pub open spec fn inside_ok(self, other: Rect) -> bool {
        &&& self.pos.x >= other.pos.x ==> self.end_x_ok() && other.end_x_ok()
        &&& (self.pos.x >= other.pos.x && self.end_x_spec() <= other.end_x_spec() && self.pos.y
            >= other.pos.y) ==> self.end_y_ok() && other.end_y_ok()
    }

    /// `p` lies within the columns and rows covered by this rectangle.
    pub open spec fn contains_spec(self, p: Position) -> bool {
        &&& self.pos.x <= p.x <= self.end_x_spec()
        &&& self.pos.y <= p.y <= self.end_y_spec()
    }

    /// The two rectangles share at least one pixel.
    pub open spec fn intersects_spec(self, other: Rect) -> bool {
        &&& self.pos.x <= other.end_x_spec()
        &&& self.end_x_spec() >= other.pos.x
        &&& self.pos.y <= other.end_y_spec()
        &&& self.end_y_spec() >= other.pos.y
    }

    /// Every pixel of this rectangle lies within `other`.
    pub open spec fn inside_spec(self, other: Rect) -> bool {
        &&& self.pos.x >= other.pos.x
        &&& self.end_x_spec() <= other.end_x_spec()
        &&& self.pos.y >= other.pos.y
        &&& self.end_y_spec() <= other.end_y_spec()
    }

    /// Both dimensions are small enough to be used as `i32` without wrapping.
    pub open spec fn small(self) -> bool {
        self.size.w <= i32::MAX && self.size.h <= i32::MAX
    }

    /// Creates a rectangle from its position and size.
    pub fn new(pos: Position, size: Size) -> (r: Rect)
        ensures
            r.pos == pos,
            r.size == size,
    {
        Rect { pos, size }
    }

    /// Creates a rectangle of the given size centered on `center`.
    pub fn new_centered(center: Position, size: Size) -> (r: Rect)
        requires
            fits_i32(center.x - half_toward_zero(u32_as_i32(size.w))),
            fits_i32(center.y - half_toward_zero(u32_as_i32(size.h))),
        ensures
            r.pos.x == center.x - half_toward_zero(u32_as_i32(size.w)),
            r.pos.y == center.y - half_toward_zero(u32_as_i32(size.h)),
            r.size == size,
    {
        let half = size.as_point();
        let hx = half.x / 2;
        let hy = half.y / 2;
        Rect { pos: Point { x: center.x - hx, y: center.y - hy }, size }
    }

    /// Creates a rectangle of the given size at the origin.
    pub fn new_at_origin(size: Size) -> (r: Rect)
        ensures
            r.pos.x == 0,
            r.pos.y == 0,
            r.size == size,
    {
        Rect { pos: Point { x: 0, y: 0 }, size }
    }

    /// Creates a rectangle from its position and size components.
    pub fn from_components(x: i32, y: i32, w: u32, h: u32) -> (r: Rect)
        ensures
            r.pos.x == x,
            r.pos.y == y,
            r.size.w == w,
            r.size.h == h,
    {
        Rect { pos: Point { x, y }, size: Size { w, h } }
    }

    /// The rectangle whose opposite corner pixels are `(x0, y0)` and `(x1, y1)`.
    pub open spec fn from_coords_spec(x0: i32, y0: i32, x1: i32, y1: i32) -> Rect {
        Rect {
            pos: Point {
                x: min_int(x0 as int, x1 as int) as i32,
                y: min_int(y0 as int, y1 as int) as i32,
            },
            size: Size {
                w: (max_int(x0 as int, x1 as int) - min_int(x0 as int, x1 as int) + 1) as u32,
                h: (max_int(y0 as int, y1 as int) - min_int(y0 as int, y1 as int) + 1) as u32,
            },
        }
    }

    /// Creates the smallest rectangle that covers the two corner pixels `(x0, y0)` and `(x1, y1)`.
    pub fn from_coords(x0: i32, y0: i32, x1: i32, y1: i32) -> (r: Rect)
        requires
            fits_i32(x1 - x0),
            fits_i32(y1 - y0),
            x1 - x0 != i32::MIN,
            y1 - y0 != i32::MIN,
        ensures
            r == Rect::from_coords_spec(x0, y0, x1, y1),
    {
        let dx = x1 - x0;
        let dy = y1 - y0;
        let adx: i32 = if dx < 0 { -dx } else { dx };
        let ady: i32 = if dy < 0 { -dy } else { dy };
        Rect {
            pos: Point { x: if x0 <= x1 { x0 } else { x1 }, y: if y0 <= y1 { y0 } else { y1 } },
            size: Size { w: cast_u32(adx) + 1, h: cast_u32(ady) + 1 },
        }
    }

    /// Horizontal position.
    pub fn x(self) -> (r: i32)
        ensures
            r == self.pos.x,
    {
        self.pos.x
    }

    /// Vertical position.
    pub fn y(self) -> (r: i32)
        ensures
            r == self.pos.y,
    {
        self.pos.y
    }

    /// Width.
    pub fn w(self) -> (r: u32)
        ensures
            r == self.size.w,
    {
        self.size.w
    }

    /// Height.
    pub fn h(self) -> (r: u32)
        ensures
            r == self.size.h,
    {
        self.size.h
    }

    /// Last column covered by the rectangle.
    pub fn end_x(self) -> (r: i32)
        requires
            fits_i32(self.pos.x + u32_as_i32(self.size.w)),
            fits_i32(self.end_x_spec()),
        ensures
            r == self.end_x_spec(),
    {
        self.pos.x + cast_i32(self.size.w) - 1
    }

    /// Last row covered by the rectangle.
    pub fn end_y(self) -> (r: i32)
        requires
            fits_i32(self.pos.y + u32_as_i32(self.size.h)),
            fits_i32(self.end_y_spec()),
        ensures
            r == self.end_y_spec(),
    {
        self.pos.y + cast_i32(self.size.h) - 1
    }

    /// Top left corner.
    pub fn top_left(self) -> (r: Position)
        ensures
            r == self.pos,
    {
        self.pos
    }

    /// Top right corner (last column, first row).
    pub fn top_right(self) -> (r: Position)
        requires
            self.end_x_ok(),
        ensures
            r.x == self.end_x_spec(),
            r.y == self.pos.y,
    {
        Point { x: self.end_x(), y: self.y() }
    }

    /// Bottom left corner (first column, last row).
    pub fn bottom_left(self) -> (r: Position)
        requires
            self.end_y_ok(),
        ensures
            r.x == self.pos.x,
            r.y == self.end_y_spec(),
    {
        Point { x: self.x(), y: self.end_y() }
    }

    /// Bottom right corner (last column, last row).
    pub fn bottom_right(self) -> (r: Position)
        requires
            self.ends_ok(),
        ensures
            r.x == self.end_x_spec(),
            r.y == self.end_y_spec(),
    {
        Point { x: self.end_x(), y: self.end_y() }
    }

    /// Checks if the point lies inside the rectangle.
    pub fn contains(self, p: Position) -> (r: bool)
        requires
            self.contains_ok(p),
        ensures
            r == self.contains_spec(p),
    {
        p.x >= self.x() && p.x <= self.end_x() && p.y >= self.y() && p.y <= self.end_y()
    }

    /// Checks if the two rectangles share at least one pixel.
    pub fn intersects(self, other: Rect) -> (r: bool)
        requires
            self.intersects_ok(other),
        ensures
            r == self.intersects_spec(other),
    {
        self.x() <= other.end_x() && self.end_x() >= other.x() && self.y() <= other.end_y()
            && self.end_y() >= other.y()
    }

    /// Checks if this rectangle lies completely inside `other`.
    pub fn inside(self, other: Rect) -> (r: bool)
        requires
            self.inside_ok(other),
        ensures
            r == self.inside_spec(other),
    {
        self.x() >= other.x() && self.end_x() <= other.end_x() && self.y() >= other.y()
            && self.end_y() <= other.end_y()
    }

    /// Returns this rectangle moved to `pos`.
    pub fn with_pos(self, pos: Position) -> (r: Rect)
        ensures
            r.pos == pos,
            r.size == self.size,
    {
        Rect { pos, size: self.size }
    }

    /// Returns this rectangle resized to `size`.
    pub fn with_size(self, size: Size) -> (r: Rect)
        ensures
            r.pos == self.pos,
            r.size == size,
    {
        Rect { pos: self.pos, size }
    }

    /// Returns this rectangle moved to the origin.
    pub fn at_origin(self) -> (r: Rect)
        ensures
            r.pos.x == 0,
            r.pos.y == 0,
            r.size == self.size,
    {
        Rect { pos: Point { x: 0, y: 0 }, size: self.size }
    }

    /// Returns the rectangle that starts at the origin and ends where this one ends.
    pub fn expand_to_origin(self) -> (r: Rect)
        requires
            fits_i32(self.pos.x + u32_as_i32(self.size.w)),
            fits_i32(self.pos.y + u32_as_i32(self.size.h)),
        ensures
            r.pos.x == 0,
            r.pos.y == 0,
            r.size.w == i32_as_u32((self.pos.x + u32_as_i32(self.size.w)) as i32),
            r.size.h == i32_as_u32((self.pos.y + u32_as_i32(self.size.h)) as i32),
    {
        let end = self.pos + self.size.as_point();
        Rect { pos: Point { x: 0, y: 0 }, size: end.as_size() }
    }

    /// This rectangle moved by `p`.
    pub open spec fn offset_spec(self, p: Position) -> Rect {
        Rect {
            pos: Point { x: (self.pos.x + p.x) as i32, y: (self.pos.y + p.y) as i32 },
            size: self.size,
        }
    }

    /// Returns this rectangle moved by `p`.
    pub fn offset(self, p: Position) -> (r: Rect)
        requires
            fits_i32(self.pos.x + p.x),
            fits_i32(self.pos.y + p.y),
        ensures
            r == self.offset_spec(p),
    {
        Rect { pos: self.pos + p, size: self.size }
    }

    /// The conditions under which [`Rect::add_border`] computes without overflow.
    pub open spec fn add_border_ok(self, border: Border) -> bool {
        &&& border.left != 0x8000_0000
        &&& border.top != 0x8000_0000
        &&& fits_i32(self.pos.x - u32_as_i32(border.left))
        &&& fits_i32(self.pos.y - u32_as_i32(border.top))
        &&& fits_u32(border.left + border.right)
        &&& fits_u32(border.top + border.bottom)
        &&& fits_u32(self.size.w + border.left + border.right)
        &&& fits_u32(self.size.h + border.top + border.bottom)
    }

    /// This rectangle grown outwards by the border widths.
    pub open spec fn add_border_spec(self, border: Border) -> Rect {
        Rect {
            pos: Point {
                x: (self.pos.x - u32_as_i32(border.left)) as i32,
                y: (self.pos.y - u32_as_i32(border.top)) as i32,
            },
            size: Size {
                w: (self.size.w + border.left + border.right) as u32,
                h: (self.size.h + border.top + border.bottom) as u32,
            },
        }
    }

    /// Grows the rectangle outwards by the border widths.
    pub fn add_border(self, border: Border) -> (r: Rect)
        requires
            self.add_border_ok(border),
        ensures
            r == self.add_border_spec(border),
    {
        let dx = cast_i32(border.left);
        let dy = cast_i32(border.top);
        Rect {
            pos: self.pos.offset(-dx, -dy),
            size: self.size + Size { w: border.total_width(), h: border.total_height() },
        }
    }

    /// The conditions under which [`Rect::remove_border`] computes without overflow.
    pub open spec fn remove_border_ok(self, border: Border) -> bool {
        &&& fits_i32(self.pos.x + u32_as_i32(border.left))
        &&& fits_i32(self.pos.y + u32_as_i32(border.top))
        &&& fits_u32(border.left + border.right)
        &&& fits_u32(border.top + border.bottom)
    }

    /// This rectangle shrunk inwards by the border widths, sizes saturating at zero.
    pub open spec fn remove_border_spec(self, border: Border) -> Rect {
        Rect {
            pos: Point {
                x: (self.pos.x + u32_as_i32(border.left)) as i32,
                y: (self.pos.y + u32_as_i32(border.top)) as i32,
            },
            size: Size {
                w: max_int(self.size.w - (border.left + border.right), 0) as u32,
                h: max_int(self.size.h - (border.top + border.bottom), 0) as u32,
            },
        }
    }

    /// Shrinks the rectangle inwards by the border widths (sizes saturate at zero).
    pub fn remove_border(self, border: Border) -> (r: Rect)
        requires
            self.remove_border_ok(border),
        ensures
            r == self.remove_border_spec(border),
    {
        let tw = border.total_width();
        let th = border.total_height();
        Rect {
            pos: self.pos.offset(cast_i32(border.left), cast_i32(border.top)),
            size: Size {
                w: if self.size.w >= tw { self.size.w - tw } else { 0 },
                h: if self.size.h >= th { self.size.h - th } else { 0 },
            },
        }
    }

    /// Columns cut from the left by [`Rect::clip_inside`].
    pub open spec fn clip_dx(self, bounds: Rect) -> int {
        max_int(bounds.pos.x - self.pos.x, 0)
    }

    /// Rows cut from the top by [`Rect::clip_inside`].
    pub open spec fn clip_dy(self, bounds: Rect) -> int {
        max_int(bounds.pos.y - self.pos.y, 0)
    }

    /// Columns removed from the width by [`Rect::clip_inside`].
    pub open spec fn clip_dw(self, bounds: Rect) -> int {
        max_int(self.end_x_spec() - bounds.end_x_spec(), 0) + self.clip_dx(bounds)
    }

    /// Rows removed from the height by [`Rect::clip_inside`].
    pub open spec fn clip_dh(self, bounds: Rect) -> int {
        max_int(self.end_y_spec() - bounds.end_y_spec(), 0) + self.clip_dy(bounds)
    }

    /// The conditions under which [`Rect::clip_inside`] computes without overflow.
    pub open spec fn clip_ok(self, bounds: Rect) -> bool {
        &&& self.intersects_ok(bounds)
        &&& self.intersects_spec(bounds) ==> {
            &&& fits_i32(bounds.pos.x - self.pos.x)
            &&& fits_i32(bounds.pos.y - self.pos.y)
            &&& fits_i32(self.end_x_spec() - bounds.end_x_spec())
            &&& fits_i32(self.end_y_spec() - bounds.end_y_spec())
            &&& fits_i32(self.clip_dw(bounds))
            &&& fits_i32(self.clip_dh(bounds))
            &&& fits_i32(self.pos.x + self.clip_dx(bounds))
            &&& fits_i32(self.pos.y + self.clip_dy(bounds))
            &&& self.size.w >= self.clip_dw(bounds)
            &&& self.size.h >= self.clip_dh(bounds)
        }
    }

    /// This rectangle clipped against `bounds`: `None` when they don't intersect.
    pub open spec fn clip_spec(self, bounds: Rect) -> Option<Rect> {
        if self.intersects_spec(bounds) {
            Some(
                Rect {
                    pos: Point {
                        x: (self.pos.x + self.clip_dx(bounds)) as i32,
                        y: (self.pos.y + self.clip_dy(bounds)) as i32,
                    },
                    size: Size {
                        w: (self.size.w - self.clip_dw(bounds)) as u32,
                        h: (self.size.h - self.clip_dh(bounds)) as u32,
                    },
                },
            )
        } else {
            None
        }
    }

    /// Whether [`Rect::offset`] by `p` computes without overflow.
    pub fn can_offset(self, p: Position) -> (r: bool)
        ensures
            r == (fits_i32(self.pos.x + p.x) && fits_i32(self.pos.y + p.y)),
    {
        fits_i32_wide(self.pos.x as i64 + p.x as i64) && fits_i32_wide(self.pos.y as i64 + p.y as i64)
    }

    /// The last column, computed in `i64`.
    fn end_x_wide(self) -> (r: i64)
        ensures
            r == self.end_x_spec(),
    {
        self.pos.x as i64 + cast_i32(self.size.w) as i64 - 1
    }

    /// The last row, computed in `i64`.
    fn end_y_wide(self) -> (r: i64)
        ensures
            r == self.end_y_spec(),
    {
        self.pos.y as i64 + cast_i32(self.size.h) as i64 - 1
    }

    /// Whether the last column can be computed in `i32`.
    fn can_end_x(self) -> (r: bool)
        ensures
            r == self.end_x_ok(),
    {
        fits_i32_wide(self.pos.x as i64 + cast_i32(self.size.w) as i64) && fits_i32_wide(self.end_x_wide())
    }

    /// Whether the last row can be computed in `i32`.
    fn can_end_y(self) -> (r: bool)
        ensures
            r == self.end_y_ok(),
    {
        fits_i32_wide(self.pos.y as i64 + cast_i32(self.size.h) as i64) && fits_i32_wide(self.end_y_wide())
    }

    /// Whether [`Rect::intersects`] with `other` computes without overflow.
    pub fn can_intersect(self, other: Rect) -> (r: bool)
        ensures
            r == self.intersects_ok(other),
    {
        if !other.can_end_x() {
            return false;
        }
        if self.pos.x as i64 <= other.end_x_wide() {
            if !self.can_end_x() {
                return false;
            }
            if self.end_x_wide() >= other.pos.x as i64 {
                if !other.can_end_y() {
                    return false;
                }
                if self.pos.y as i64 <= other.end_y_wide() && !self.can_end_y() {
                    return false;
                }
            }
        }
        true
    }

    /// Whether [`Rect::clip_inside`] against `bounds` computes without overflow.
    pub fn can_clip(self, bounds: Rect) -> (r: bool)
        ensures
            r == self.clip_ok(bounds),
    {
        if !self.can_intersect(bounds) {
            return false;
        }
        let ex_a = self.end_x_wide();
        let ey_a = self.end_y_wide();
        let ex_b = bounds.end_x_wide();
        let ey_b = bounds.end_y_wide();
        let meets = self.pos.x as i64 <= ex_b && ex_a >= bounds.pos.x as i64 && self.pos.y as i64 <= ey_b && ey_a
            >= bounds.pos.y as i64;
        if !meets {
            return true;
        }
        let ddx = bounds.pos.x as i64 - self.pos.x as i64;
        let ddy = bounds.pos.y as i64 - self.pos.y as i64;
        let ex = ex_a - ex_b;
        let ey = ey_a - ey_b;
        let dx: i64 = if ddx > 0 { ddx } else { 0 };
        let dy: i64 = if ddy > 0 { ddy } else { 0 };
        let dw: i64 = (if ex > 0 { ex } else { 0 }) + dx;
        let dh: i64 = (if ey > 0 { ey } else { 0 }) + dy;
        fits_i32_wide(ddx) && fits_i32_wide(ddy) && fits_i32_wide(ex) && fits_i32_wide(ey) && fits_i32_wide(dw)
            && fits_i32_wide(dh) && fits_i32_wide(self.pos.x as i64 + dx) && fits_i32_wide(self.pos.y as i64 + dy)
            && self.size.w as i64 >= dw && self.size.h as i64 >= dh
    }

    /// Clips this rectangle against `bounds`.
    ///
    /// Returns `None` when the rectangles don't intersect.
    pub fn clip_inside(self, bounds: Rect) -> (r: Option<Rect>)
        requires
            self.clip_ok(bounds),
        ensures
            r == self.clip_spec(bounds),
    {
        if self.intersects(bounds) {
            let ddx = bounds.x() - self.x();
            let ddy = bounds.y() - self.y();
            let dx: i32 = if ddx > 0 { ddx } else { 0 };
            let dy: i32 = if ddy > 0 { ddy } else { 0 };
            let ex = self.end_x() - bounds.end_x();
            let ey = self.end_y() - bounds.end_y();
            let ex: i32 = if ex > 0 { ex } else { 0 };
            let ey: i32 = if ey > 0 { ey } else { 0 };
            let dsize = Size { w: cast_u32(ex + dx), h: cast_u32(ey + dy) };
            Some(Rect { pos: self.pos + Point { x: dx, y: dy }, size: self.size - dsize })
        } else {
            None
        }
    }

    /// Right edge (exclusive) used by [`Rect::merge`]: `x + (w as i32)`.
    pub open spec fn right_spec(self) -> int {
        self.pos.x + u32_as_i32(self.size.w)
    }

    /// Bottom edge (exclusive) used by [`Rect::merge`]: `y + (h as i32)`.
    pub open spec fn bottom_spec(self) -> int {
        self.pos.y + u32_as_i32(self.size.h)
    }

    /// The conditions under which [`Rect::merge`] computes without overflow.
    pub open spec fn merge_ok(self, other: Rect) -> bool {
        &&& fits_i32(self.right_spec())
        &&& fits_i32(self.bottom_spec())
        &&& fits_i32(other.right_spec())
        &&& fits_i32(other.bottom_spec())
        &&& fits_i32(
            max_int(self.right_spec(), other.right_spec()) - min_int(
                self.pos.x as int,
                other.pos.x as int,
            ),
        )
        &&& fits_i32(
            max_int(self.bottom_spec(), other.bottom_spec()) - min_int(
                self.pos.y as int,
                other.pos.y as int,
            ),
        )
    }

    /// The rectangle from the smallest corner to the largest exclusive end of both.
    pub open spec fn merge_spec(self, other: Rect) -> Rect {
        let x = min_int(self.pos.x as int, other.pos.x as int);
        let y = min_int(self.pos.y as int, other.pos.y as int);
        Rect {
            pos: Point { x: x as i32, y: y as i32 },
            size: Size {
                w: i32_as_u32((max_int(self.right_spec(), other.right_spec()) - x) as i32) as u32,
                h: i32_as_u32((max_int(self.bottom_spec(), other.bottom_spec()) - y) as i32) as u32,
            },
        }
    }

    /// The smallest rectangle that covers both rectangles.
    pub fn merge(self, other: Rect) -> (r: Rect)
        requires
            self.merge_ok(other),
        ensures
            r == self.merge_spec(other),
    {
        let top_left = Point {
            x: if self.x() <= other.x() { self.x() } else { other.x() },
            y: if self.y() <= other.y() { self.y() } else { other.y() },
        };
        let r0 = self.x() + cast_i32(self.w());
        let r1 = other.x() + cast_i32(other.w());
        let b0 = self.y() + cast_i32(self.h());
        let b1 = other.y() + cast_i32(other.h());
        let bot_right = Point { x: if r0 >= r1 { r0 } else { r1 }, y: if b0 >= b1 { b0 } else { b1 } };
        Rect { pos: top_left, size: (bot_right - top_left).as_size() }
    }

    /// Returns this rectangle with its position transformed by `f`.
    pub fn map_pos<F: FnOnce(Position) -> Position>(self, f: F) -> (r: Rect)
        requires
            call_requires(f, (self.pos,)),
        ensures
            call_ensures(f, (self.pos,), r.pos),
            r.size == self.size,
    {
        Rect { pos: f(self.pos), size: self.size }
    }

    /// Returns this rectangle with its size transformed by `f`.
    pub fn map_size<F: FnOnce(Size) -> Size>(self, f: F) -> (r: Rect)
        requires
            call_requires(f, (self.size,)),
        ensures
            r.pos == self.pos,
            call_ensures(f, (self.size,), r.size),
    {
        Rect { pos: self.pos, size: f(self.size) }
    }

    /// Splits the rectangle into its position and size.
    pub fn into_parts(self) -> (r: (Position, Size))
        ensures
            r == (self.pos, self.size),
    {
        (self.pos, self.size)
    }

    /// Splits the rectangle into `(x, y, w, h)`.
    pub fn into_components(self) -> (r: (i32, i32, u32, u32))
        ensures
            r == (self.pos.x, self.pos.y, self.size.w, self.size.h),
    {
        (self.pos.x, self.pos.y, self.size.w, self.size.h)
    }
}

impl Default for Rect {
    fn default() -> (r: Rect)
        ensures
            r.pos.x == 0,
            r.pos.y == 0,
            r.size.w == 0,
            r.size.h == 0,
    {
        Rect { pos: Point { x: 0, y: 0 }, size: Size { w: 0, h: 0 } }
    }
}

impl From<Size> for Rect {
    fn from(size: Size) -> (r: Rect) {
        Rect::new_at_origin(size)
    }
}

impl vstd::std_specs::convert::FromSpecImpl<Size> for Rect {
    open spec fn obeys_from_spec() -> bool {
        true
    }

    open spec fn from_spec(size: Size) -> Rect {
        Rect { pos: Point { x: 0, y: 0 }, size }
    }
}

} // verus!
