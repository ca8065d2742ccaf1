//! Rectangle borders.
use vstd::prelude::*;

use super::{cast_i32, fits_i32, fits_u32, u32_as_i32, Point, Rect, Size};

verus! {

/// Defines the borders of a rectangle.
#[derive(Debug, Clone, Copy, PartialEq, Eq, Structural, Hash)]
pub struct Border {
    /// The left border width.
    pub left: u32,
    /// The right border width.
    pub right: u32,
    /// The top border height.
    pub top: u32,
    /// The bottom border height.
    pub bottom: u32,
}

impl Border {
    /// Creates a border with all sides of the same width.
    pub fn all(width: u32) -> (r: Border)
        ensures
            r.left == width,
            r.right == width,
            r.top == width,
            r.bottom == width,
    {
        Border { left: width, right: width, top: width, bottom: width }
    }

    /// Creates a border with symmetric sides.
    pub fn symmetric(h_width: u32, v_width: u32) -> (r: Border)
        ensures
            r.left == h_width,
            r.right == h_width,
            r.top == v_width,
            r.bottom == v_width,
    {
        Border { left: h_width, right: h_width, top: v_width, bottom: v_width }
    }

    /// The total width of horizontal borders.
    pub fn total_width(self) -> (r: u32)
        requires
            fits_u32(self.left + self.right),
        ensures
            r == self.left + self.right,
    {
        self.left + self.right
    }

    /// The total height of vertical borders.
    pub fn total_height(self) -> (r: u32)
        requires
            fits_u32(self.top + self.bottom),
        ensures
            r == self.top + self.bottom,
    {
        self.top + self.bottom
    }

    /// Obtains the components as an array `[left, right, top, bottom]`.
    pub fn components(self) -> (r: [u32; 4])
        ensures
            r@ == seq![self.left, self.right, self.top, self.bottom],
    {
        [self.left, self.right, self.top, self.bottom]
    }

    /// The top border strip of `bounds`.
    pub open spec fn top_rect(self, bounds: Rect) -> Rect {
        Rect { pos: bounds.pos, size: Size { w: bounds.size.w, h: self.top } }
    }

    /// The left border strip of `bounds`, below the top strip.
    pub open spec fn left_rect(self, bounds: Rect) -> Rect {
        Rect {
            pos: Point { x: bounds.pos.x, y: (bounds.pos.y + u32_as_i32(self.top)) as i32 },
            size: Size { w: self.left, h: (bounds.size.h - self.top) as u32 },
        }
    }

    /// The right border strip of `bounds`, below the top strip.
    pub open spec fn right_rect(self, bounds: Rect) -> Rect {
        Rect {
            pos: Point {
                x: (bounds.pos.x + u32_as_i32((bounds.size.w - self.right) as u32)) as i32,
                y: (bounds.pos.y + u32_as_i32(self.top)) as i32,
            },
            size: Size { w: self.right, h: (bounds.size.h - self.top) as u32 },
        }
    }

    /// The bottom border strip of `bounds`, between the left and right strips.
    pub open spec fn bottom_rect(self, bounds: Rect) -> Rect {
        Rect {
            pos: Point {
                x: (bounds.pos.x + u32_as_i32(self.left)) as i32,
                y: (bounds.pos.y + u32_as_i32((bounds.size.h - self.bottom) as u32)) as i32,
            },
            size: Size { w: (bounds.size.w - self.left - self.right) as u32, h: self.bottom },
        }
    }

    /// The strips produced by [`Border::calc_rects`]: top, left, right and bottom,
    /// each one only when its border width is not zero.
    pub open spec fn rects_spec(self, bounds: Rect) -> Seq<Rect> {
        (if self.top > 0 { seq![self.top_rect(bounds)] } else { seq![] }) + (if self.left > 0 {
            seq![self.left_rect(bounds)]
        } else {
            seq![]
        }) + (if self.right > 0 { seq![self.right_rect(bounds)] } else { seq![] }) + (if self.bottom
            > 0 {
            seq![self.bottom_rect(bounds)]
        } else {
            seq![]
        })
    }

    /// The conditions under which [`Border::calc_rects`] computes without overflow.
    pub open spec fn calc_rects_ok(self, bounds: Rect) -> bool {
        &&& (self.left > 0 || self.right > 0) ==> {
            &&& bounds.size.h >= self.top
            &&& fits_i32(bounds.pos.y + u32_as_i32(self.top))
        }
        &&& self.right > 0 ==> {
            &&& bounds.size.w >= self.right
            &&& fits_i32(bounds.pos.x + u32_as_i32((bounds.size.w - self.right) as u32))
        }
        &&& self.bottom > 0 ==> {
            &&& bounds.size.h >= self.bottom
            &&& bounds.size.w >= self.left + self.right
            &&& fits_i32(bounds.pos.x + u32_as_i32(self.left))
            &&& fits_i32(bounds.pos.y + u32_as_i32((bounds.size.h - self.bottom) as u32))
        }
    }

    /// Applies this border definition to the specified rectangle.
    ///
    /// This produces up to four non-overlapping rectangles, in the order top, left,
    /// right, bottom; sides with zero width produce no rectangle.
    pub fn calc_rects(&self, bounds: Rect) -> (r: Vec<Rect>)
        requires
            self.calc_rects_ok(bounds),
        ensures
            r@ == self.rects_spec(bounds),
    {
        let mut out: Vec<Rect> = Vec::new();
        if self.top > 0 {
            out.push(Rect { pos: bounds.pos, size: bounds.size.with_height(self.top) });
        }
        let ghost after_top = out@;
        if self.left > 0 {
            out.push(
                Rect {
                    pos: bounds.pos.offset(0, cast_i32(self.top)),
                    size: Size { w: self.left, h: bounds.size.h - self.top },
                },
            );
        }
        let ghost after_left = out@;
        if self.right > 0 {
            out.push(
                Rect {
                    pos: bounds.pos.offset(
                        cast_i32(bounds.size.w - self.right),
                        cast_i32(self.top),
                    ),
                    size: Size { w: self.right, h: bounds.size.h - self.top },
                },
            );
        }
        let ghost after_right = out@;
        if self.bottom > 0 {
            out.push(
                Rect {
                    pos: bounds.pos.offset(
                        cast_i32(self.left),
                        cast_i32(bounds.size.h - self.bottom),
                    ),
                    size: Size { w: bounds.size.w - self.left - self.right, h: self.bottom },
                },
            );
        }
        assert(out@ =~= self.rects_spec(bounds));
        out
    }
}

impl Default for Border {
    fn default() -> (r: Border)
        ensures
            r.left == 0,
            r.right == 0,
            r.top == 0,
            r.bottom == 0,
    {
        Border { left: 0, right: 0, top: 0, bottom: 0 }
    }
}

} // verus!
