//! Decisions of top level windows and of the main loop that drives them.
use vstd::prelude::*;

use crate::geometry::{fits_i32, i32_as_u32, u32_as_i32, Point, Rect, Size};

verus! {

/// Width of a window whose size is not set.
pub const DEFAULT_WINDOW_WIDTH: u32 = 320;

/// Height of a window whose size is not set.
pub const DEFAULT_WINDOW_HEIGHT: u32 = 240;

/// The size of a window whose size is not set (320x240).
pub open spec fn default_window_size_spec() -> Size {
    Size { w: DEFAULT_WINDOW_WIDTH, h: DEFAULT_WINDOW_HEIGHT }
}

/// The size of a window whose size is not set (320x240).
pub fn default_window_size() -> (r: Size)
    ensures
        r == default_window_size_spec(),
{
    Size { w: DEFAULT_WINDOW_WIDTH, h: DEFAULT_WINDOW_HEIGHT }
}

/// The size needed to show a child with bounds `child` from the window's origin
/// (the child's far corner), or the default window size when that is empty.
pub open spec fn content_size_spec(child: Rect) -> Size {
    let s = Size {
        w: i32_as_u32((child.pos.x + u32_as_i32(child.size.w)) as i32) as u32,
        h: i32_as_u32((child.pos.y + u32_as_i32(child.size.h)) as i32) as u32,
    };
    if s.zero_area() {
        default_window_size_spec()
    } else {
        s
    }
}

/// The far corner of the child can be computed without overflow.
pub open spec fn content_ok(child: Rect) -> bool {
    fits_i32(child.pos.x + u32_as_i32(child.size.w)) && fits_i32(child.pos.y + u32_as_i32(child.size.h))
}

/// Whether the far corner of the content can be computed without overflow.
pub fn can_fit_content(child_bounds: Rect) -> (r: bool)
    ensures
        r == content_ok(child_bounds),
{
    crate::geometry::fits_i32_wide(child_bounds.pos.x as i64 + crate::geometry::cast_i32(child_bounds.size.w) as i64)
        && crate::geometry::fits_i32_wide(
        child_bounds.pos.y as i64 + crate::geometry::cast_i32(child_bounds.size.h) as i64,
    )
}

/// The size a window takes to show its content, given the content's bounds.
pub fn content_size(child_bounds: Rect) -> (r: Size)
    requires
        content_ok(child_bounds),
    ensures
        r == content_size_spec(child_bounds),
{
    child_bounds.expand_to_origin().size.nonzero_or(default_window_size())
}

/// The viewport a window without a size offers its content on the first layout:
/// from the origin to the content's far corner, or of the default size.
pub fn initial_viewport(child_bounds: Rect) -> (r: Rect)
    requires
        content_ok(child_bounds),
    ensures
        r == (Rect { pos: Point { x: 0, y: 0 }, size: content_size_spec(child_bounds) }),
{
    let r = child_bounds.expand_to_origin();
    Rect { pos: r.pos, size: r.size.nonzero_or(default_window_size()) }
}

/// A window without a size takes the size its content reaches from the origin: the
/// content's far corner, as a width and a height; when that has no area (a zero width
/// or height), it takes 320x240 instead.
pub proof fn lemma_content_size(child: Rect)
    requires
        content_ok(child),
        child.small(),
        child.pos.x + child.size.w >= 0,
        child.pos.y + child.size.h >= 0,
    ensures
        child.pos.x + child.size.w > 0 && child.pos.y + child.size.h > 0 ==> content_size_spec(child).w
            == child.pos.x + child.size.w && content_size_spec(child).h == child.pos.y + child.size.h,
        child.pos.x + child.size.w == 0 || child.pos.y + child.size.h == 0 ==> content_size_spec(child).w == 320
            && content_size_spec(child).h == 240,
{
}

/// The title of a window: its own, or `"Window"`.
pub fn window_title(title: &Option<String>) -> (r: String)
    ensures
        title matches Some(t) ==> r@ == t@,
        title is None ==> r@ == "Window"@,
{
    match title {
        Some(t) => t.clone(),
        None => "Window".to_owned(),
    }
}

/// What the main loop does with a window after one of its events.
#[derive(Debug, Clone, Copy, PartialEq, Eq, Structural)]
pub enum WindowAction {
    /// Update the window's layout and ask for a redraw.
    UpdateAndRedraw,
    /// Tell the window it is destroyed, and forget it.
    Destroy,
    /// Nothing to do.
    Nothing,
}

/// The action for a window event: a change of the window itself (moved, resized,
/// focused, rescaled, new theme) or an event its content consumed asks for an update
/// and a redraw; otherwise an unconsumed close request destroys the window.
pub fn window_event_action(window_changed: bool, consumed: bool, close_requested: bool) -> (r:
    WindowAction)
    ensures
        window_changed || consumed ==> r == WindowAction::UpdateAndRedraw,
        !(window_changed || consumed) && close_requested ==> r == WindowAction::Destroy,
        !(window_changed || consumed || close_requested) ==> r == WindowAction::Nothing,
{
    if window_changed || consumed {
        WindowAction::UpdateAndRedraw
    } else if close_requested {
        WindowAction::Destroy
    } else {
        WindowAction::Nothing
    }
}

/// The application ends once all its events are handled and no window is left.
pub fn should_exit(open_windows: usize) -> (r: bool)
    ensures
        r == (open_windows == 0),
{
    open_windows == 0
}

} // verus!
