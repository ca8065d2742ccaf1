//! Objects that occupy a rectangle.
use vstd::prelude::*;

use super::{Position, Rect, Size};

verus! {

/// Defines the drawing bounds of an object.
pub trait Bounds {
    /// The rectangle occupied by the object.
    spec fn bounds_view(&self) -> Rect;

    /// Gets the object position.
    fn get_position(&self) -> (r: Position)
        ensures
            r == self.bounds_view().pos,
    ;

    /// Gets the object size.
    fn get_size(&self) -> (r: Size)
        ensures
            r == self.bounds_view().size,
    ;

    /// Gets bounds as a Rect.
    fn get_bounds(&self) -> (r: Rect)
        ensures
            r == self.bounds_view(),
    {
        Rect { pos: self.get_position(), size: self.get_size() }
    }
}

/// Writable bounds.
pub trait BoundsMut: Bounds {
    /// Sets the object position.
    fn set_position(&mut self, position: Position)
        ensures
            final(self).bounds_view() == old(self).bounds_view().with_pos_spec(position),
    ;

    /// Sets the object size.
    fn set_size(&mut self, size: Size)
        ensures
            final(self).bounds_view() == old(self).bounds_view().with_size_spec(size),
    ;

    /// Sets the object bounds.
    fn set_bounds(&mut self, bounds: Rect)
        ensures
            final(self).bounds_view() == bounds,
    {
        self.set_position(bounds.pos);
        self.set_size(bounds.size);
    }
}

impl Rect {
    /// This rectangle moved to `pos`.
    pub open spec fn with_pos_spec(self, pos: Position) -> Rect {
        Rect { pos, size: self.size }
    }

    /// This rectangle resized to `size`.
    pub open spec fn with_size_spec(self, size: Size) -> Rect {
        Rect { pos: self.pos, size }
    }
}

impl Bounds for Rect {
    open spec fn bounds_view(&self) -> Rect {
        *self
    }

    fn get_position(&self) -> (r: Position) {
        self.pos
    }

    fn get_size(&self) -> (r: Size) {
        self.size
    }

    fn get_bounds(&self) -> (r: Rect) {
        *self
    }
}

impl BoundsMut for Rect {
    fn set_position(&mut self, position: Position) {
        self.pos = position;
    }

    fn set_size(&mut self, size: Size) {
        self.size = size;
    }

    fn set_bounds(&mut self, bounds: Rect) {
        *self = bounds;
    }
}

} // verus!
