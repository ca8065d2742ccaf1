//! Types used to communicate with the drawing backend.
use vstd::prelude::*;

mod color;
mod context;
mod queue;

pub use color::{pack_argb, unpack_argb};
pub use context::DrawContext;
pub use queue::{
    can_gl_scissor, can_render_step, command_viewport, commands_after_tris, gl_scissor, gl_scissor_ok, gl_scissor_spec,
    lemma_batching, lemma_render_scissor_inside, render_step, render_step_of, render_step_ok, window_rect, DrawCmdData,
    DrawCommand, DrawQueue, RenderStep,
};

use crate::geometry::Rect;
use crate::widget::IdCounter;

verus! {

/// Unique texture id.
#[derive(Debug, Clone, Copy, PartialEq, Eq, Structural, PartialOrd, Ord, Hash)]
pub struct TextureId(usize);

impl TextureId {
    /// The raw id number.
    pub closed spec fn raw(self) -> usize {
        self.0
    }

    /// Ids are equal exactly when their raw numbers are.
    pub proof fn lemma_raw(a: TextureId, b: TextureId)
        ensures
            (a.raw() == b.raw()) == (a == b),
    {
    }

    /// Creates a new texture id, drawn from `ids`.
    pub fn new(ids: &mut IdCounter) -> (r: TextureId)
        ensures
            r.raw() == old(ids).peek(),
            final(ids).peek() == crate::widget::id_next_after(old(ids).peek()),
    {
        TextureId(ids.next_id())
    }

    /// Gets the raw id number.
    pub fn get(self) -> (r: usize)
        ensures
            r == self.raw(),
    {
        self.0
    }
}

/// A rectangle is drawn when it has an area and shares pixels with the viewport.
pub fn rect_visible(rect: Rect, viewport: Rect) -> (r: bool)
    requires
        !rect.size.zero_area() ==> rect.intersects_ok(viewport),
    ensures
        r == (!rect.size.zero_area() && rect.intersects_spec(viewport)),
{
    !rect.size.is_zero_area() && rect.intersects(viewport)
}

} // verus!
