//! The empty widget.
use vstd::prelude::*;

use crate::geometry::{Bounds, BoundsMut, Point, Position, Rect, Size};
use crate::widget::{ObjectId, WidgetId};

verus! {

/// The empty widget.
///
/// It's a "null" widget that does nothing (it only occupies space).
/// Can be used as a filler.
#[derive(Debug, Clone, Copy, PartialEq, Eq, Structural, Hash)]
pub struct Empty {
    bounds: Rect,
}

impl Empty {
    /// Creates an empty widget at the origin with zero size.
    pub fn new() -> (r: Empty)
        ensures
            r.bounds_view() == (Rect { pos: Point { x: 0, y: 0 }, size: Size { w: 0, h: 0 } }),
    {
        Empty { bounds: Rect { pos: Point { x: 0, y: 0 }, size: Size { w: 0, h: 0 } } }
    }

    /// Creates an empty widget occupying `bounds`.
    pub fn with_bounds(bounds: Rect) -> (r: Empty)
        ensures
            r.bounds_view() == bounds,
    {
        Empty { bounds }
    }

    /// Creates an empty widget of the given size at the origin.
    pub fn with_size(size: Size) -> (r: Empty)
        ensures
            r.bounds_view() == (Rect { pos: Point { x: 0, y: 0 }, size }),
    {
        Empty { bounds: Rect::new_at_origin(size) }
    }
}

impl Default for Empty {
    fn default() -> (r: Empty)
        ensures
            r.bounds_view() == (Rect { pos: Point { x: 0, y: 0 }, size: Size { w: 0, h: 0 } }),
    {
        Empty::new()
    }
}

impl ObjectId for Empty {
    open spec fn object_id(&self) -> WidgetId {
        WidgetId::empty_spec()
    }

    fn get_id(&self) -> (r: WidgetId) {
        WidgetId::empty()
    }
}

impl Bounds for Empty {
    closed spec fn bounds_view(&self) -> Rect {
        self.bounds
    }

    fn get_position(&self) -> (r: Position) {
        self.bounds.pos
    }

    fn get_size(&self) -> (r: Size) {
        self.bounds.size
    }

    fn get_bounds(&self) -> (r: Rect) {
        self.bounds
    }
}

impl BoundsMut for Empty {
    fn set_position(&mut self, position: Position) {
        self.bounds.pos = position;
    }

    fn set_size(&mut self, size: Size) {
        self.bounds.size = size;
    }

    fn set_bounds(&mut self, bounds: Rect) {
        self.bounds = bounds;
    }
}

} // verus!
