//! Integer geometry: points, sizes, rectangles, borders and alignment.
use vstd::prelude::*;

mod align;
mod border;
mod bounds;
mod rect;
pub mod laws;

pub use align::{Alignment, HAlign, VAlign};
pub use border::Border;
pub use bounds::{Bounds, BoundsMut};
pub use rect::Rect;

verus! {

/// True when `v` can be stored in an `i32`.
pub open spec fn fits_i32(v: int) -> bool {
    i32::MIN <= v <= i32::MAX
}

/// True when `v` can be stored in an `u32`.
pub open spec fn fits_u32(v: int) -> bool {
    0 <= v <= u32::MAX
}

/// The value of the cast `v as i32` (two's complement reinterpretation).
pub open spec fn u32_as_i32(v: u32) -> int {
    if v <= 0x7fff_ffff {
        v as int
    } else {
        v - 0x1_0000_0000
    }
}

/// The value of the cast `v as u32` (two's complement reinterpretation).
pub open spec fn i32_as_u32(v: i32) -> int {
    if v >= 0 {
        v as int
    } else {
        v + 0x1_0000_0000
    }
}

/// Halves an integer rounding toward zero, like `/ 2` on `i32`.
pub open spec fn half_toward_zero(v: int) -> int {
    if v >= 0 {
        v / 2
    } else {
        -((-v) / 2)
    }
}

/// The smaller of two integers.
pub open spec fn min_int(a: int, b: int) -> int {
    if a <= b {
        a
    } else {
        b
    }
}

/// The larger of two integers.
pub open spec fn max_int(a: int, b: int) -> int {
    if a >= b {
        a
    } else {
        b
    }
}

/// Whether a value computed in `i64` fits an `i32`.
pub fn fits_i32_wide(v: i64) -> (r: bool)
    ensures
        r == fits_i32(v as int),
{
    -2147483648i64 <= v && v <= 2147483647i64
}

/// Reinterprets an unsigned 32-bit value as a signed one, like `v as i32`.
pub fn cast_i32(v: u32) -> (r: i32)
    ensures
        r == u32_as_i32(v),
{
    assert(v <= 0x7fff_ffff ==> (v as i32) as int == v as int) by (bit_vector);
    assert(v > 0x7fff_ffff ==> (v as i32) as int == v as int - 0x1_0000_0000) by (bit_vector);
    v as i32
}

/// Reinterprets a signed 32-bit value as an unsigned one, like `v as u32`.
pub fn cast_u32(v: i32) -> (r: u32)
    ensures
        r == i32_as_u32(v),
{
    assert(v >= 0 ==> (v as u32) as int == v as int) by (bit_vector);
    assert(v < 0 ==> (v as u32) as int == v as int + 0x1_0000_0000) by (bit_vector);
    v as u32
}

/// A point (or a displacement) in integer pixel coordinates.
#[derive(Debug, Clone, Copy, PartialEq, Eq, Structural, Hash)]
pub struct Point {
    pub x: i32,
    pub y: i32,
}

/// A position on screen.
pub type Position = Point;

/// A size in pixels.
#[derive(Debug, Clone, Copy, PartialEq, Eq, Structural, Hash)]
pub struct Size {
    /// Width.
    pub w: u32,
    /// Height.
    pub h: u32,
}

impl Point {
    /// Creates a point from its coordinates.
    pub fn new(x: i32, y: i32) -> (r: Point)
        ensures
            r.x == x,
            r.y == y,
    {
        Point { x, y }
    }

    /// The origin `(0, 0)`.
    pub fn zero() -> (r: Point)
        ensures
            r.x == 0,
            r.y == 0,
    {
        Point { x: 0, y: 0 }
    }

    /// Returns this point displaced by `(dx, dy)`.
    pub fn offset(self, dx: i32, dy: i32) -> (r: Point)
        requires
            fits_i32(self.x + dx),
            fits_i32(self.y + dy),
        ensures
            r.x == self.x + dx,
            r.y == self.y + dy,
    {
        Point { x: self.x + dx, y: self.y + dy }
    }

    /// Returns this point with another `x` coordinate.
    pub fn with_x(self, x: i32) -> (r: Point)
        ensures
            r.x == x,
            r.y == self.y,
    {
        Point { x, y: self.y }
    }

    /// Returns this point with another `y` coordinate.
    pub fn with_y(self, y: i32) -> (r: Point)
        ensures
            r.x == self.x,
            r.y == y,
    {
        Point { x: self.x, y }
    }

    /// Whether subtracting `rhs` from this point computes without overflow.
    pub fn can_sub(self, rhs: Point) -> (r: bool)
        ensures
            r == (fits_i32(self.x - rhs.x) && fits_i32(self.y - rhs.y)),
    {
        fits_i32_wide(self.x as i64 - rhs.x as i64) && fits_i32_wide(self.y as i64 - rhs.y as i64)
    }

    /// Reinterprets the coordinates as a size (each coordinate cast to `u32`).
    pub fn as_size(self) -> (r: Size)
        ensures
            r.w == i32_as_u32(self.x),
            r.h == i32_as_u32(self.y),
    {
        Size { w: cast_u32(self.x), h: cast_u32(self.y) }
    }
}

impl Default for Point {
    fn default() -> (r: Point)
        ensures
            r.x == 0,
            r.y == 0,
    {
        Point { x: 0, y: 0 }
    }
}

impl std::ops::Add for Point {
    type Output = Point;

    fn add(self, rhs: Point) -> (r: Point) {
        Point { x: self.x + rhs.x, y: self.y + rhs.y }
    }
}

impl vstd::std_specs::ops::AddSpecImpl for Point {
    open spec fn obeys_add_spec() -> bool {
        true
    }

    open spec fn add_req(self, rhs: Point) -> bool {
        fits_i32(self.x + rhs.x) && fits_i32(self.y + rhs.y)
    }

    open spec fn add_spec(self, rhs: Point) -> Point {
        Point { x: (self.x + rhs.x) as i32, y: (self.y + rhs.y) as i32 }
    }
}

impl std::ops::Sub for Point {
    type Output = Point;

    fn sub(self, rhs: Point) -> (r: Point) {
        Point { x: self.x - rhs.x, y: self.y - rhs.y }
    }
}

impl vstd::std_specs::ops::SubSpecImpl for Point {
    open spec fn obeys_sub_spec() -> bool {
        true
    }

    open spec fn sub_req(self, rhs: Point) -> bool {
        fits_i32(self.x - rhs.x) && fits_i32(self.y - rhs.y)
    }

    open spec fn sub_spec(self, rhs: Point) -> Point {
        Point { x: (self.x - rhs.x) as i32, y: (self.y - rhs.y) as i32 }
    }
}

impl Size {
    /// Creates a size from its width and height.
    pub fn new(w: u32, h: u32) -> (r: Size)
        ensures
            r.w == w,
            r.h == h,
    {
        Size { w, h }
    }

    /// The empty size `0x0`.
    pub fn zero() -> (r: Size)
        ensures
            r.w == 0,
            r.h == 0,
    {
        Size { w: 0, h: 0 }
    }

    /// Reinterprets the size as a point (each component cast to `i32`).
    pub fn as_point(self) -> (r: Point)
        ensures
            r.x == u32_as_i32(self.w),
            r.y == u32_as_i32(self.h),
    {
        Point { x: cast_i32(self.w), y: cast_i32(self.h) }
    }

    /// Same as [`Size::as_point`].
    pub fn as_position(self) -> (r: Position)
        ensures
            r.x == u32_as_i32(self.w),
            r.y == u32_as_i32(self.h),
    {
        self.as_point()
    }

    /// Returns this size with another width.
    pub fn with_width(self, w: u32) -> (r: Size)
        ensures
            r.w == w,
            r.h == self.h,
    {
        Size { w, h: self.h }
    }

    /// Returns this size with another height.
    pub fn with_height(self, h: u32) -> (r: Size)
        ensures
            r.w == self.w,
            r.h == h,
    {
        Size { w: self.w, h }
    }

    /// Number of pixels covered (`w * h`).
    pub fn area(self) -> (r: usize)
        requires
            self.w * self.h <= usize::MAX,
        ensures
            r == self.w * self.h,
    {
        (self.w as usize) * (self.h as usize)
    }

    /// True when either dimension is zero.
    pub open spec fn zero_area(self) -> bool {
        self.w == 0 || self.h == 0
    }

    /// Checks if either dimension is zero.
    pub fn is_zero_area(self) -> (r: bool)
        ensures
            r == self.zero_area(),
    {
        self.w == 0 || self.h == 0
    }

    /// Returns this size, or `default` if this size has zero area.
    pub fn nonzero_or(self, default: Size) -> (r: Size)
        ensures
            r == (if self.zero_area() {
                default
            } else {
                self
            }),
    {
        if self.is_zero_area() {
            default
        } else {
            self
        }
    }

    /// Returns `Some(self)` unless this size has zero area.
    pub fn get_nonzero(self) -> (r: Option<Size>)
        ensures
            r == (if self.zero_area() {
                None
            } else {
                Some(self)
            }),
    {
        if self.is_zero_area() {
            None
        } else {
            Some(self)
        }
    }
}

impl Default for Size {
    fn default() -> (r: Size)
        ensures
            r.w == 0,
            r.h == 0,
    {
        Size { w: 0, h: 0 }
    }
}

impl std::ops::Add for Size {
    type Output = Size;

    fn add(self, rhs: Size) -> (r: Size) {
        Size { w: self.w + rhs.w, h: self.h + rhs.h }
    }
}

impl vstd::std_specs::ops::AddSpecImpl for Size {
    open spec fn obeys_add_spec() -> bool {
        true
    }

    open spec fn add_req(self, rhs: Size) -> bool {
        fits_u32(self.w + rhs.w) && fits_u32(self.h + rhs.h)
    }

    open spec fn add_spec(self, rhs: Size) -> Size {
        Size { w: (self.w + rhs.w) as u32, h: (self.h + rhs.h) as u32 }
    }
}

impl std::ops::Sub for Size {
    type Output = Size;

    fn sub(self, rhs: Size) -> (r: Size) {
        Size { w: self.w - rhs.w, h: self.h - rhs.h }
    }
}

impl vstd::std_specs::ops::SubSpecImpl for Size {
    open spec fn obeys_sub_spec() -> bool {
        true
    }

    open spec fn sub_req(self, rhs: Size) -> bool {
        self.w >= rhs.w && self.h >= rhs.h
    }

    open spec fn sub_spec(self, rhs: Size) -> Size {
        Size { w: (self.w - rhs.w) as u32, h: (self.h - rhs.h) as u32 }
    }
}

} // verus!
