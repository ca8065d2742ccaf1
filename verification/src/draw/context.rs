//! Draw context attached to a widget.
use vstd::prelude::*;

use crate::geometry::{fits_i32, Point, Position, Rect};

verus! {

/// Draw context attached to a widget: the backend, the clipping viewport (in window
/// coordinates), the offset that maps widget coordinates to window coordinates, and the
/// widget's viewport origin.
#[derive(Debug)]
pub struct DrawContext<'b, B> {
    backend: &'b mut B,
    viewport: Rect,
    offset: Position,
    vp_orig: Position,
}

impl<'b, B> DrawContext<'b, B> {
    /// The clipping viewport.
    pub closed spec fn viewport_spec(&self) -> Rect {
        self.viewport
    }

    /// The offset from widget to window coordinates.
    pub closed spec fn offset_spec(&self) -> Position {
        self.offset
    }

    /// The viewport origin.
    pub closed spec fn origin_spec(&self) -> Position {
        self.vp_orig
    }

    /// The backend.
    pub closed spec fn backend_spec(&self) -> B {
        *self.backend
    }

    /// Creates a new context from the specified backend, for the whole viewport.
    pub fn new(backend: &'b mut B, viewport: Rect) -> (r: Self)
        ensures
            r.viewport_spec() == viewport,
            r.offset_spec() == viewport.pos,
            r.origin_spec() == (Point { x: 0, y: 0 }),
            r.backend_spec() == *old(backend),
    {
        DrawContext { backend, viewport, offset: viewport.pos, vp_orig: Point { x: 0, y: 0 } }
    }

    /// Returns the viewport origin (coordinates of top-left corner).
    pub fn origin(&self) -> (r: Position)
        ensures
            r == self.origin_spec(),
    {
        self.vp_orig
    }

    /// Returns the clipping viewport.
    pub fn viewport(&self) -> (r: Rect)
        ensures
            r == self.viewport_spec(),
    {
        self.viewport
    }

    /// Returns the offset from widget to window coordinates.
    pub fn offset(&self) -> (r: Position)
        ensures
            r == self.offset_spec(),
    {
        self.offset
    }

    /// Gives access to the backend.
    pub fn backend(&mut self) -> (r: &mut B)
        ensures
            *r == old(self).backend_spec(),
            final(self).backend_spec() == *final(r),
            final(self).viewport_spec() == old(self).viewport_spec(),
            final(self).offset_spec() == old(self).offset_spec(),
            final(self).origin_spec() == old(self).origin_spec(),
    {
        self.backend
    }

    /// The conditions under which [`DrawContext::child_context`] computes without overflow.
    pub open spec fn child_ok(&self, child_bounds: Rect, child_origin: Position) -> bool {
        let vp = child_bounds.offset_spec(self.offset_spec());
        &&& fits_i32(child_bounds.pos.x + self.offset_spec().x)
        &&& fits_i32(child_bounds.pos.y + self.offset_spec().y)
        &&& vp.clip_ok(self.viewport_spec())
        &&& fits_i32(vp.pos.x - child_origin.x)
        &&& fits_i32(vp.pos.y - child_origin.y)
    }

    /// Whether [`DrawContext::child_context`] computes without overflow.
    pub fn can_draw_child(&self, child_bounds: Rect, child_origin: Position) -> (r: bool)
        ensures
            r == self.child_ok(child_bounds, child_origin),
    {
        let offset = self.offset;
        if !child_bounds.can_offset(offset) {
            return false;
        }
        let vp = child_bounds.offset(offset);
        vp.can_clip(self.viewport) && vp.pos.can_sub(child_origin)
    }

    /// The context in which a child with bounds `child_bounds` (relative to this
    /// context) and viewport origin `child_origin` is drawn.
    ///
    /// The child's viewport is its bounds in window coordinates, clipped against this
    /// viewport; `None` when nothing of the child is visible.
    pub fn child_context<'a>(&'a mut self, child_bounds: Rect, child_origin: Position) -> (r: Option<DrawContext<'a, B>>)
        requires
            old(self).child_ok(child_bounds, child_origin),
        ensures
            ({
                let vp = child_bounds.offset_spec(old(self).offset_spec());
                &&& r is Some <==> vp.clip_spec(old(self).viewport_spec()) is Some
                &&& r matches Some(c) ==> {
                    &&& Some(c.viewport_spec()) == vp.clip_spec(old(self).viewport_spec())
                    &&& c.offset_spec() == (Point {
                        x: (vp.pos.x - child_origin.x) as i32,
                        y: (vp.pos.y - child_origin.y) as i32,
                    })
                    &&& c.origin_spec() == child_origin
                    &&& c.backend_spec() == old(self).backend_spec()
                }
            }),
    {
        let child_vp = child_bounds.offset(self.offset);
        match child_vp.clip_inside(self.viewport) {
            Some(viewport) => Some(
                DrawContext {
                    backend: &mut *self.backend,
                    viewport,
                    offset: child_vp.pos - child_origin,
                    vp_orig: child_origin,
                },
            ),
            None => None,
        }
    }
}

} // verus!
