use widgets::event::{
    child_abs_bounds, child_abs_pos, dispatch_consumed, dispatch_mode, pointer_phase, ButtonState, ConsumeState, PointerPhase, DispatchMode, DispatchState, EventKind, EventResult, Key, KeyModState,
    KeySide, MouseButton, MouseButtonsState,
};
use widgets::geometry::{Point, Rect};
use widgets::widget::{IdCounter, WidgetId};

#[test]
fn mouse_button_numbers_and_masks() {
    assert_eq!(MouseButton::Left.number(), 1);
    assert_eq!(MouseButton::Middle.number(), 2);
    assert_eq!(MouseButton::Right.number(), 3);
    assert_eq!(MouseButton::Other(9).number(), 9);
    assert_eq!(MouseButton::Left.mask(), 1);
    assert_eq!(MouseButton::Middle.mask(), 2);
    assert_eq!(MouseButton::Right.mask(), 4);
    assert_eq!(MouseButton::Other(5).mask(), 32);
    assert_eq!(MouseButton::Other(63).mask(), 1u64 << 63);
}

#[test]
fn mouse_buttons_state_set_unset() {
    let mut s = MouseButtonsState::default();
    assert!(!s.left() && !s.middle() && !s.right());
    s.set(MouseButton::Left);
    assert!(s.left() && !s.middle() && !s.right());
    s.set(MouseButton::Other(7));
    assert!(s.is_set(MouseButton::Other(7)));
    assert!(s.left());
    s.unset(MouseButton::Left);
    assert!(!s.left());
    assert!(s.is_set(MouseButton::Other(7)));
    s.set(MouseButton::Right);
    assert_eq!(s, MouseButtonsState((1 << 7) | 4));
    s.unset(MouseButton::Other(7));
    s.unset(MouseButton::Right);
    assert_eq!(s, MouseButtonsState::new());
}

#[test]
fn mouse_buttons_share_bits_with_low_other_buttons() {
    // Other(0), Other(1) and Other(2) use the bits of left, middle and right
    let mut s = MouseButtonsState::new();
    s.set(MouseButton::Other(1));
    assert!(s.middle());
}

#[test]
fn event_result_helpers() {
    assert!(EventResult::Consumed.consumed());
    assert!(!EventResult::Pass.consumed());
    assert_eq!(EventResult::Consumed.then_some(3), Some(3));
    assert_eq!(EventResult::Pass.then_some(3), None);
    assert_eq!(EventResult::Consumed.then(|| 4), Some(4));
    assert_eq!(EventResult::Pass.then(|| 4), None);
    assert_eq!(EventResult::default(), EventResult::Pass);
    assert_eq!(ButtonState::default(), ButtonState::Released);
    let m = KeyModState::default();
    assert!(!m.shift && !m.ctrl && !m.alt && !m.meta);
    assert_ne!(Key::Shift(KeySide::Left), Key::Shift(KeySide::Right));
    assert_eq!(Key::Num(1, false), Key::Num(1, false));
}

#[test]
fn dispatch_modes() {
    assert_eq!(dispatch_mode(EventKind::Keyboard), DispatchMode::Broadcast);
    assert_eq!(dispatch_mode(EventKind::CloseRequest), DispatchMode::Broadcast);
    assert_eq!(dispatch_mode(EventKind::Resized), DispatchMode::Broadcast);
    assert_eq!(dispatch_mode(EventKind::PointerMoved), DispatchMode::Positional);
    assert_eq!(
        dispatch_mode(EventKind::MouseButton(ButtonState::Pressed, MouseButton::Left)),
        DispatchMode::Positional
    );
    assert_eq!(dispatch_mode(EventKind::FileDropped), DispatchMode::Positional);
    assert_eq!(dispatch_mode(EventKind::PointerInside(true)), DispatchMode::PointerTracking);
}

#[test]
fn dispatch_state_records_input() {
    let mut st = DispatchState::new();
    st.update_state(EventKind::MouseButton(ButtonState::Pressed, MouseButton::Right));
    assert!(st.button_state.right());
    st.update_state(EventKind::MouseButton(ButtonState::Released, MouseButton::Right));
    assert!(!st.button_state.right());
    let m = KeyModState { shift: true, ctrl: false, alt: true, meta: false };
    st.update_state(EventKind::ModifiersChanged(m));
    assert_eq!(st.mod_state, m);
    let before = st;
    st.update_state(EventKind::Character);
    assert_eq!(st, before);
}

#[test]
fn dispatch_state_tracks_pointer() {
    let mut ids = IdCounter::new();
    let a = WidgetId::new(&mut ids);
    let b = WidgetId::new(&mut ids);
    let mut st = DispatchState::new();
    assert_eq!(st.pointer_moved(Some(a)), Some(None));
    assert_eq!(st.last_inside, Some(a));
    assert_eq!(st.pointer_moved(Some(a)), None);
    assert_eq!(st.pointer_moved(Some(b)), Some(Some(a)));
    assert_eq!(st.pointer_left(), Some(b));
    assert_eq!(st.last_inside, None);
    assert_eq!(st.pointer_left(), None);
}

#[test]
fn child_positions_follow_parent_viewport() {
    // parent at (100, 50) scrolled by (10, 20): a child at (5, 5) is at (95, 35)
    let p = child_abs_pos(Point::new(100, 50), Point::new(10, 20), Point::new(5, 5));
    assert_eq!(p, Point::new(95, 35));
    assert_eq!(child_abs_pos(Point::zero(), Point::zero(), Point::new(-3, 7)), Point::new(-3, 7));
}

#[test]
fn child_bounds_are_clipped_to_parent() {
    let parent = Rect::from_components(10, 10, 100, 100);
    // moved to (10 - 0 + 90, 10 + 90) = (100, 100), size 30x30, clipped to 10x10
    let c = child_abs_bounds(parent, Point::zero(), Rect::from_components(90, 90, 30, 30));
    assert_eq!(c, Some(Rect::from_components(100, 100, 10, 10)));
    // scrolling the parent by (50, 0) moves the child out to the left
    let c = child_abs_bounds(parent, Point::new(50, 0), Rect::from_components(0, 0, 20, 20));
    assert_eq!(c, None);
    // partly scrolled out
    let c = child_abs_bounds(parent, Point::new(5, 5), Rect::from_components(0, 0, 20, 20));
    assert_eq!(c, Some(Rect::from_components(10, 10, 15, 15)));
}

#[test]
fn consume_state_keeps_the_consumer() {
    let mut st = ConsumeState::new(0u32);
    assert!(!st.finished());
    st.record(EventResult::Pass, 1);
    assert!(!st.finished());
    assert_eq!(st.ctx, 0);
    st.record(EventResult::Consumed, 2);
    assert!(st.finished());
    assert_eq!(st.ctx, 2);
}

#[test]
fn dispatch_result_is_any_consumed() {
    assert!(!dispatch_consumed(false, false, false));
    assert!(dispatch_consumed(false, true, false));
    assert!(dispatch_consumed(false, false, true));
    assert!(dispatch_consumed(true, false, false));
}

#[test]
fn pointer_tracking_phases() {
    assert_eq!(pointer_phase(EventKind::PointerMoved), PointerPhase::FindInside);
    assert_eq!(pointer_phase(EventKind::PointerInside(false)), PointerPhase::Left);
    assert_eq!(pointer_phase(EventKind::PointerInside(true)), PointerPhase::Nothing);
    assert_eq!(pointer_phase(EventKind::OtherMotion), PointerPhase::Nothing);
    assert_eq!(pointer_phase(EventKind::Keyboard), PointerPhase::Nothing);
}
