//! Decisions taken when dispatching a toplevel event into a widget tree.
use vstd::prelude::*;

use crate::event::{
    lemma_set_then_is_set, lemma_set_unset_independent, lemma_unset_then_not_set, ButtonState, EventResult,
    KeyModState, MouseButton, MouseButtonsState,
};
use crate::geometry::{fits_i32, Point, Position, Rect};
use crate::widget::WidgetId;

verus! {

/// What the dispatcher reads of an input event (payloads it does not read are dropped).
#[derive(Debug, Clone, Copy, PartialEq, Eq, Structural)]
pub enum EventKind {
    /// Raw keyboard input.
    Keyboard,
    /// Processed keyboard input as an unicode character.
    Character,
    /// Keyboard modifier state changed.
    ModifiersChanged(KeyModState),
    /// Mouse pointer moved to a new position.
    PointerMoved,
    /// Other mouse motion (scroll, pressure, tilt).
    OtherMotion,
    /// Mouse button input.
    MouseButton(ButtonState, MouseButton),
    /// Pointer has crossed the window boundaries.
    PointerInside(bool),
    /// A file has been dropped into the window.
    FileDropped,
    /// Window resized.
    Resized,
    /// Window moved.
    Moved,
    /// Window focused state.
    Focused,
    /// Window close button pressed.
    CloseRequest,
    /// Window has been created.
    Created,
    /// Window has been destroyed.
    Destroyed,
}

/// How an event travels through the widget tree.
#[derive(Debug, Clone, Copy, PartialEq, Eq, Structural)]
pub enum DispatchMode {
    /// Sent to every widget until one consumes it.
    Broadcast,
    /// Sent to the widgets under the pointer until one consumes it.
    Positional,
    /// Already handled by the pointer tracking.
    PointerTracking,
}

/// The dispatch mode of each kind of event.
pub open spec fn dispatch_mode_spec(kind: EventKind) -> DispatchMode {
    match kind {
        EventKind::PointerMoved | EventKind::OtherMotion | EventKind::MouseButton(..)
        | EventKind::FileDropped => DispatchMode::Positional,
        EventKind::PointerInside(_) => DispatchMode::PointerTracking,
        _ => DispatchMode::Broadcast,
    }
}

/// Chooses how an event travels through the widget tree: position dependent events
/// (pointer motion, mouse buttons, dropped files) go to the widgets under the pointer,
/// pointer crossings are handled by the pointer tracking, and all others are broadcast.
pub fn dispatch_mode(kind: EventKind) -> (r: DispatchMode)
    ensures
        r == dispatch_mode_spec(kind),
{
    match kind {
        EventKind::PointerMoved | EventKind::OtherMotion | EventKind::MouseButton(..)
        | EventKind::FileDropped => DispatchMode::Positional,
        EventKind::PointerInside(_) => DispatchMode::PointerTracking,
        _ => DispatchMode::Broadcast,
    }
}

/// What the pointer tracking does with an event, before the event is dispatched.
#[derive(Debug, Clone, Copy, PartialEq, Eq, Structural)]
pub enum PointerPhase {
    /// Find the widget under the pointer (telling it that the pointer entered when it
    /// is a new one), then record it with [`DispatchState::pointer_moved`].
    FindInside,
    /// The pointer left the window: forget the widget under it with
    /// [`DispatchState::pointer_left`].
    Left,
    /// Nothing to track.
    Nothing,
}

/// The pointer tracking phase of each kind of event.
pub open spec fn pointer_phase_spec(kind: EventKind) -> PointerPhase {
    match kind {
        EventKind::PointerMoved => PointerPhase::FindInside,
        EventKind::PointerInside(false) => PointerPhase::Left,
        _ => PointerPhase::Nothing,
    }
}

/// Chooses what the pointer tracking does: a move of the pointer looks for the widget
/// under it, the pointer leaving the window forgets that widget, and other events
/// leave the tracking alone. In the first two cases the widget the pointer left (if
/// any) is then told so, before the event itself is dispatched by [`dispatch_mode`].
pub fn pointer_phase(kind: EventKind) -> (r: PointerPhase)
    ensures
        r == pointer_phase_spec(kind),
{
    match kind {
        EventKind::PointerMoved => PointerPhase::FindInside,
        EventKind::PointerInside(false) => PointerPhase::Left,
        _ => PointerPhase::Nothing,
    }
}

/// Input state kept by the dispatcher between events.
#[derive(Debug, Clone, Copy, PartialEq, Eq, Structural)]
pub struct DispatchState {
    /// Current keyboard modifier state.
    pub mod_state: KeyModState,
    /// Current mouse button state.
    pub button_state: MouseButtonsState,
    /// The widget that was last under the pointer.
    pub last_inside: Option<WidgetId>,
}

/// The event can be recorded: its mouse button, if any, has a bit in the state mask.
pub open spec fn recordable(kind: EventKind) -> bool {
    kind matches EventKind::MouseButton(_, b) ==> b.has_mask()
}

impl DispatchState {
    /// No modifier, no button pressed, no widget under the pointer.
    pub fn new() -> (r: DispatchState)
        ensures
            !r.mod_state.shift && !r.mod_state.ctrl && !r.mod_state.alt && !r.mod_state.meta,
            r.button_state.0 == 0,
            r.last_inside is None,
    {
        DispatchState {
            mod_state: KeyModState { shift: false, ctrl: false, alt: false, meta: false },
            button_state: MouseButtonsState(0),
            last_inside: None,
        }
    }

    /// The state after recording `kind`.
    pub open spec fn record_spec(self, kind: EventKind) -> DispatchState {
        match kind {
            EventKind::MouseButton(ButtonState::Pressed, b) => DispatchState {
                button_state: MouseButtonsState(self.button_state.0 | b.mask_spec()),
                ..self
            },
            EventKind::MouseButton(ButtonState::Released, b) => DispatchState {
                button_state: MouseButtonsState(self.button_state.0 & !b.mask_spec()),
                ..self
            },
            EventKind::ModifiersChanged(m) => DispatchState { mod_state: m, ..self },
            _ => self,
        }
    }

    /// Updates the input state: button presses and releases change the button state,
    /// modifier changes replace the modifier state; other events change nothing.
    pub fn update_state(&mut self, kind: EventKind)
        requires
            recordable(kind),
        ensures
            *final(self) == old(self).record_spec(kind),
    {
        match kind {
            EventKind::MouseButton(ButtonState::Pressed, b) => {
                self.button_state.set(b);
            },
            EventKind::MouseButton(ButtonState::Released, b) => {
                self.button_state.unset(b);
            },
            EventKind::ModifiersChanged(m) => {
                self.mod_state = m;
            },
            _ => {},
        }
    }

    /// The pointer moved and `inside` is now the widget under it.
    ///
    /// When that widget changed, it is recorded, and the widget that was under the
    /// pointer before is returned: it must be told that the pointer left.
    pub fn pointer_moved(&mut self, inside: Option<WidgetId>) -> (outside_target: Option<
        Option<WidgetId>,
    >)
        ensures
            old(self).last_inside == inside ==> outside_target is None && *final(self) == *old(
                self,
            ),
            old(self).last_inside != inside ==> outside_target == Some(old(self).last_inside)
                && *final(self) == (DispatchState { last_inside: inside, ..*old(self) }),
    {
        if same_widget(self.last_inside, inside) {
            None
        } else {
            let prev = self.last_inside;
            self.last_inside = inside;
            Some(prev)
        }
    }

    /// The pointer left the window: forgets the widget under the pointer and returns it.
    pub fn pointer_left(&mut self) -> (outside_target: Option<WidgetId>)
        ensures
            outside_target == old(self).last_inside,
            *final(self) == (DispatchState { last_inside: None, ..*old(self) }),
    {
        let prev = self.last_inside;
        self.last_inside = None;
        prev
    }
}

/// Where a parent's children are placed in window coordinates: the parent's absolute
/// position minus the origin of its (scrolled) viewport.
pub open spec fn children_origin(parent_abs_pos: Position, parent_vp_orig: Position) -> Point {
    Point { x: (parent_abs_pos.x - parent_vp_orig.x) as i32, y: (parent_abs_pos.y - parent_vp_orig.y) as i32 }
}

/// The children origin of a parent can be computed without overflow.
pub open spec fn children_origin_ok(parent_abs_pos: Position, parent_vp_orig: Position) -> bool {
    fits_i32(parent_abs_pos.x - parent_vp_orig.x) && fits_i32(parent_abs_pos.y - parent_vp_orig.y)
}

/// The absolute position of a child at `pos` can be computed without overflow.
pub open spec fn child_abs_pos_ok(parent_abs_pos: Position, parent_vp_orig: Position, pos: Position) -> bool {
    &&& children_origin_ok(parent_abs_pos, parent_vp_orig)
    &&& fits_i32(children_origin(parent_abs_pos, parent_vp_orig).x + pos.x)
    &&& fits_i32(children_origin(parent_abs_pos, parent_vp_orig).y + pos.y)
}

/// The position in window coordinates of a widget at `pos` inside a parent at
/// `parent_abs_pos` whose viewport origin is `parent_vp_orig`.
pub fn child_abs_pos(parent_abs_pos: Position, parent_vp_orig: Position, pos: Position) -> (r: Position)
    requires
        child_abs_pos_ok(parent_abs_pos, parent_vp_orig, pos),
    ensures
        r.x == parent_abs_pos.x - parent_vp_orig.x + pos.x,
        r.y == parent_abs_pos.y - parent_vp_orig.y + pos.y,
{
    parent_abs_pos - parent_vp_orig + pos
}

/// Whether [`child_abs_pos`] computes without overflow.
pub fn can_place_child_pos(parent_abs_pos: Position, parent_vp_orig: Position, pos: Position) -> (r: bool)
    ensures
        r == child_abs_pos_ok(parent_abs_pos, parent_vp_orig, pos),
{
    if !parent_abs_pos.can_sub(parent_vp_orig) {
        return false;
    }
    let base = parent_abs_pos - parent_vp_orig;
    base.x as i64 + pos.x as i64 >= -2147483648i64 && base.x as i64 + pos.x as i64 <= 2147483647i64
        && base.y as i64 + pos.y as i64 >= -2147483648i64 && base.y as i64 + pos.y as i64 <= 2147483647i64
}

/// The visible bounds of a child can be computed without overflow.
pub open spec fn child_abs_bounds_ok(parent_abs_bounds: Rect, parent_vp_orig: Position, bounds: Rect) -> bool {
    let d = children_origin(parent_abs_bounds.pos, parent_vp_orig);
    &&& children_origin_ok(parent_abs_bounds.pos, parent_vp_orig)
    &&& fits_i32(bounds.pos.x + d.x)
    &&& fits_i32(bounds.pos.y + d.y)
    &&& bounds.offset_spec(d).clip_ok(parent_abs_bounds)
}

/// The visible part, in window coordinates, of a widget with `bounds` inside a parent
/// whose visible bounds are `parent_abs_bounds`: the bounds moved to the parent's
/// children origin and clipped against the parent's visible bounds.
pub open spec fn child_abs_bounds_spec(parent_abs_bounds: Rect, parent_vp_orig: Position, bounds: Rect) -> Option<Rect> {
    bounds.offset_spec(children_origin(parent_abs_bounds.pos, parent_vp_orig)).clip_spec(parent_abs_bounds)
}

/// Whether [`child_abs_bounds`] computes without overflow.
pub fn can_place_child_bounds(parent_abs_bounds: Rect, parent_vp_orig: Position, bounds: Rect) -> (r: bool)
    ensures
        r == child_abs_bounds_ok(parent_abs_bounds, parent_vp_orig, bounds),
{
    if !parent_abs_bounds.pos.can_sub(parent_vp_orig) {
        return false;
    }
    let d = parent_abs_bounds.pos - parent_vp_orig;
    if !bounds.can_offset(d) {
        return false;
    }
    bounds.offset(d).can_clip(parent_abs_bounds)
}

/// Computes the visible part, in window coordinates, of a widget with `bounds` inside
/// a parent whose visible bounds are `parent_abs_bounds` and whose viewport origin is
/// `parent_vp_orig`; `None` when nothing of it is visible.
pub fn child_abs_bounds(parent_abs_bounds: Rect, parent_vp_orig: Position, bounds: Rect) -> (r: Option<Rect>)
    requires
        child_abs_bounds_ok(parent_abs_bounds, parent_vp_orig, bounds),
    ensures
        r == child_abs_bounds_spec(parent_abs_bounds, parent_vp_orig, bounds),
{
    let d = parent_abs_bounds.pos - parent_vp_orig;
    bounds.offset(d).clip_inside(parent_abs_bounds)
}

/// A child's visible bounds lie inside its parent's visible bounds, and hold exactly
/// the points that both the parent's visible bounds and the child's moved bounds hold;
/// a child that shares no pixel with its parent is not visible.
pub proof fn lemma_child_bounds_inside_parent(
    parent_abs_bounds: Rect,
    parent_vp_orig: Position,
    bounds: Rect,
    p: Position,
)
    requires
        child_abs_bounds_ok(parent_abs_bounds, parent_vp_orig, bounds),
        parent_abs_bounds.small(),
        bounds.small(),
    ensures
        ({
            let moved = bounds.offset_spec(children_origin(parent_abs_bounds.pos, parent_vp_orig));
            match child_abs_bounds_spec(parent_abs_bounds, parent_vp_orig, bounds) {
                Some(c) => c.inside_spec(parent_abs_bounds) && c.contains_spec(p) == (moved.contains_spec(p)
                    && parent_abs_bounds.contains_spec(p)),
                None => !moved.intersects_spec(parent_abs_bounds),
            }
        }),
{
    let moved = bounds.offset_spec(children_origin(parent_abs_bounds.pos, parent_vp_orig));
    if moved.intersects_spec(parent_abs_bounds) {
        crate::geometry::laws::lemma_clip_is_intersection(moved, parent_abs_bounds, p);
    }
}

/// What a walk through the widget tree has found out so far about an event: whether a
/// widget consumed it, and the event context of the widget that did (`C`).
#[derive(Debug, Clone, Copy)]
pub struct ConsumeState<C> {
    /// A widget consumed the event: the walk stops.
    pub consumed: bool,
    /// The context of the widget that consumed the event, or the starting context.
    pub ctx: C,
}

impl<C> ConsumeState<C> {
    /// Nothing consumed yet, from the context `ctx`.
    pub fn new(ctx: C) -> (r: ConsumeState<C>)
        ensures
            !r.consumed,
            r.ctx == ctx,
    {
        ConsumeState { consumed: false, ctx }
    }

    /// Records what a widget answered to the event, in the widget's context `ctx`: a
    /// widget that consumes the event is recorded with its context; an event that is
    /// passed on changes nothing.
    pub fn record(&mut self, res: EventResult, ctx: C)
        ensures
            res == EventResult::Consumed ==> final(self).consumed && final(self).ctx == ctx,
            res == EventResult::Pass ==> *final(self) == *old(self),
    {
        if res.consumed() {
            self.consumed = true;
            self.ctx = ctx;
        }
    }

    /// The walk is over once a widget consumed the event.
    pub fn finished(&self) -> (r: bool)
        ensures
            r == self.consumed,
    {
        self.consumed
    }
}

/// Whether dispatching an event was consumed: by a widget it was sent to, by the
/// widget the pointer entered, or by the one the pointer left.
pub fn dispatch_consumed(event: bool, entered: bool, left: bool) -> (r: bool)
    ensures
        r == (event || entered || left),
{
    event || entered || left
}

/// How each kind of event travels: every pointer motion (a move, a scroll or another
/// motion), every mouse button and every dropped file goes to the widgets under the
/// pointer; the pointer crossing the window's edge goes to the pointer tracking; every
/// other kind (keys, characters, modifiers, window changes and requests) is broadcast.
pub proof fn lemma_dispatch_modes()
    ensures
        dispatch_mode_spec(EventKind::PointerMoved) == DispatchMode::Positional,
        dispatch_mode_spec(EventKind::OtherMotion) == DispatchMode::Positional,
        forall|s: ButtonState, b: MouseButton|
            #[trigger] dispatch_mode_spec(EventKind::MouseButton(s, b)) == DispatchMode::Positional,
        dispatch_mode_spec(EventKind::FileDropped) == DispatchMode::Positional,
        forall|inside: bool|
            #[trigger] dispatch_mode_spec(EventKind::PointerInside(inside)) == DispatchMode::PointerTracking,
        dispatch_mode_spec(EventKind::Keyboard) == DispatchMode::Broadcast,
        dispatch_mode_spec(EventKind::Character) == DispatchMode::Broadcast,
        forall|m: KeyModState| #[trigger] dispatch_mode_spec(EventKind::ModifiersChanged(m)) == DispatchMode::Broadcast,
        dispatch_mode_spec(EventKind::Resized) == DispatchMode::Broadcast,
        dispatch_mode_spec(EventKind::Moved) == DispatchMode::Broadcast,
        dispatch_mode_spec(EventKind::Focused) == DispatchMode::Broadcast,
        dispatch_mode_spec(EventKind::CloseRequest) == DispatchMode::Broadcast,
        dispatch_mode_spec(EventKind::Created) == DispatchMode::Broadcast,
        dispatch_mode_spec(EventKind::Destroyed) == DispatchMode::Broadcast,
{
}

/// Only a move of the pointer and the pointer leaving the window touch the pointer
/// tracking: a move looks for the widget under the pointer, leaving forgets it, and
/// every other kind of event (the pointer entering the window, other motion, buttons,
/// dropped files, keys, window changes) leaves the tracking alone.
pub proof fn lemma_pointer_phases()
    ensures
        pointer_phase_spec(EventKind::PointerMoved) == PointerPhase::FindInside,
        pointer_phase_spec(EventKind::PointerInside(false)) == PointerPhase::Left,
        pointer_phase_spec(EventKind::PointerInside(true)) == PointerPhase::Nothing,
        pointer_phase_spec(EventKind::OtherMotion) == PointerPhase::Nothing,
        forall|s: ButtonState, b: MouseButton|
            #[trigger] pointer_phase_spec(EventKind::MouseButton(s, b)) == PointerPhase::Nothing,
        pointer_phase_spec(EventKind::FileDropped) == PointerPhase::Nothing,
        pointer_phase_spec(EventKind::Keyboard) == PointerPhase::Nothing,
        pointer_phase_spec(EventKind::Character) == PointerPhase::Nothing,
        forall|m: KeyModState| #[trigger] pointer_phase_spec(EventKind::ModifiersChanged(m)) == PointerPhase::Nothing,
        pointer_phase_spec(EventKind::Resized) == PointerPhase::Nothing,
        pointer_phase_spec(EventKind::Moved) == PointerPhase::Nothing,
        pointer_phase_spec(EventKind::Focused) == PointerPhase::Nothing,
        pointer_phase_spec(EventKind::CloseRequest) == PointerPhase::Nothing,
        pointer_phase_spec(EventKind::Created) == PointerPhase::Nothing,
        pointer_phase_spec(EventKind::Destroyed) == PointerPhase::Nothing,
{
}

/// What recording an event does to the input state: a modifier change replaces the
/// modifier state with the new one, whatever it was; pressing a button marks it
/// pressed and releasing it marks it released, every button with another bit keeping
/// its state; no event changes the widget under the pointer, a modifier change leaves
/// the buttons alone, a button leaves the modifiers alone, and any other event changes
/// nothing.
pub proof fn lemma_record_effects(st: DispatchState, kind: EventKind, c: MouseButton)
    requires
        recordable(kind),
        c.has_mask(),
    ensures
        st.record_spec(kind).last_inside == st.last_inside,
        kind matches EventKind::ModifiersChanged(m) ==> st.record_spec(kind).mod_state == m
            && st.record_spec(kind).button_state == st.button_state,
        kind matches EventKind::MouseButton(bs, b) ==> {
            &&& st.record_spec(kind).mod_state == st.mod_state
            &&& st.record_spec(kind).button_state.is_set_spec(b) == (bs == ButtonState::Pressed)
            &&& b.bit_index() != c.bit_index() ==> st.record_spec(kind).button_state.is_set_spec(c)
                == st.button_state.is_set_spec(c)
        },
        !(kind is ModifiersChanged) && !(kind is MouseButton) ==> st.record_spec(kind) == st,
{
    if let EventKind::MouseButton(bs, b) = kind {
        match bs {
            ButtonState::Pressed => {
                lemma_set_then_is_set(st.button_state.0, b);
            },
            ButtonState::Released => {
                lemma_unset_then_not_set(st.button_state.0, b);
            },
        }
        if b.bit_index() != c.bit_index() {
            lemma_set_unset_independent(st.button_state.0, b, c);
        }
    }
}

/// Compares two optional widget ids.
fn same_widget(a: Option<WidgetId>, b: Option<WidgetId>) -> (r: bool)
    ensures
        r == (a == b),
{
    match (a, b) {
        (Some(x), Some(y)) => x == y,
        (None, None) => true,
        _ => false,
    }
}

} // verus!
