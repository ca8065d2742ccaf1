//! Object alignment.
use vstd::prelude::*;

verus! {

/// Horizontal alignment.
#[derive(Debug, Clone, Copy, PartialEq, Eq, Structural, Hash)]
pub enum HAlign {
    Left,
    Center,
    Right,
}

/// Vertical alignment.
#[derive(Debug, Clone, Copy, PartialEq, Eq, Structural, Hash)]
pub enum VAlign {
    Top,
    Center,
    Bottom,
}

/// Defines an object's alignment.
#[derive(Debug, Clone, Copy, PartialEq, Eq, Structural, Hash)]
pub struct Alignment {
    pub horizontal: HAlign,
    pub vertical: VAlign,
}

impl Alignment {
    /// Aligns horizontally as given and vertically to the top.
    pub fn from_horizontal(horizontal: HAlign) -> (r: Alignment)
        ensures
            r.horizontal == horizontal,
            r.vertical == VAlign::Top,
    {
        Alignment { horizontal, vertical: VAlign::Top }
    }

    /// Aligns vertically as given and horizontally to the left.
    pub fn from_vertical(vertical: VAlign) -> (r: Alignment)
        ensures
            r.horizontal == HAlign::Left,
            r.vertical == vertical,
    {
        Alignment { horizontal: HAlign::Left, vertical }
    }
}

impl Default for Alignment {
    fn default() -> (r: Alignment)
        ensures
            r.horizontal == HAlign::Left,
            r.vertical == VAlign::Top,
    {
        Alignment { horizontal: HAlign::Left, vertical: VAlign::Top }
    }
}

} // verus!
