//! Input state definitions: buttons, keys, modifiers and event results.
use vstd::prelude::*;

mod dispatcher;

pub use dispatcher::{
    can_place_child_bounds, can_place_child_pos, child_abs_bounds, child_abs_bounds_ok, child_abs_bounds_spec,
    child_abs_pos, child_abs_pos_ok, children_origin, children_origin_ok, dispatch_consumed, dispatch_mode,
    lemma_child_bounds_inside_parent, lemma_dispatch_modes, lemma_pointer_phases, lemma_record_effects, pointer_phase,
    pointer_phase_spec, ConsumeState, DispatchMode, DispatchState, EventKind, PointerPhase,
};

verus! {

/// Raw key id from hardware.
pub type ScanCode = u32;

/// Defines if it's a key from the numpad.
pub type IsNumpad = bool;

/// State of keys or mouse buttons.
#[derive(Debug, Clone, Copy, PartialEq, Eq, Structural, Hash)]
pub enum ButtonState {
    Released,
    Pressed,
}

impl Default for ButtonState {
    fn default() -> (r: ButtonState)
        ensures
            r == ButtonState::Released,
    {
        ButtonState::Released
    }
}

/// Mouse buttons.
#[derive(Debug, Clone, Copy, PartialEq, Eq, Structural, Hash)]
pub enum MouseButton {
    Left,
    Middle,
    Right,
    Other(u8),
}

impl MouseButton {
    /// The button number: 1, 2 and 3 for left, middle and right, `n` for `Other(n)`.
    pub open spec fn number_spec(self) -> u8 {
        match self {
            MouseButton::Left => 1,
            MouseButton::Middle => 2,
            MouseButton::Right => 3,
            MouseButton::Other(n) => n,
        }
    }

    /// The bit that represents this button in a [`MouseButtonsState`]:
    /// 0, 1 and 2 for left, middle and right, `n` for `Other(n)`.
    pub open spec fn bit_index(self) -> u64 {
        match self {
            MouseButton::Left => 0,
            MouseButton::Middle => 1,
            MouseButton::Right => 2,
            MouseButton::Other(n) => n as u64,
        }
    }

    /// The bitmask of this button: a single bit at [`MouseButton::bit_index`].
    pub open spec fn mask_spec(self) -> u64 {
        1u64 << self.bit_index()
    }

    /// The button has a bit in a 64-bit mask (always true but for `Other(n)` with `n >= 64`).
    pub open spec fn has_mask(self) -> bool {
        self.bit_index() < 64
    }

    /// Gets the button number.
    pub fn number(self) -> (r: u8)
        ensures
            r == self.number_spec(),
    {
        match self {
            MouseButton::Left => 1,
            MouseButton::Middle => 2,
            MouseButton::Right => 3,
            MouseButton::Other(n) => n,
        }
    }

    /// Gets the bitmask for this button.
    pub fn mask(self) -> (r: u64)
        requires
            self.has_mask(),
        ensures
            r == self.mask_spec(),
            r != 0,
    {
        let r = match self {
            MouseButton::Left => {
                assert(1u64 << 0u64 == 1) by (bit_vector);
                1u64
            },
            MouseButton::Middle => {
                assert(1u64 << 1u64 == 2) by (bit_vector);
                2u64
            },
            MouseButton::Right => {
                assert(1u64 << 2u64 == 4) by (bit_vector);
                4u64
            },
            MouseButton::Other(n) => 1u64 << n,
        };
        let ghost i = self.bit_index();
        assert(i < 64 ==> 1u64 << i != 0) by (bit_vector);
        r
    }
}

/// Keyboard modifier state.
#[derive(Debug, Clone, Copy, PartialEq, Eq, Structural, Hash)]
pub struct KeyModState {
    pub shift: bool,
    pub ctrl: bool,
    pub alt: bool,
    pub meta: bool,
}

impl Default for KeyModState {
    fn default() -> (r: KeyModState)
        ensures
            !r.shift && !r.ctrl && !r.alt && !r.meta,
    {
        KeyModState { shift: false, ctrl: false, alt: false, meta: false }
    }
}

/// Mouse button state for all buttons: one bit per button.
#[derive(Debug, Clone, Copy, PartialEq, Eq, Structural, Hash)]
pub struct MouseButtonsState(pub u64);

impl MouseButtonsState {
    /// No button pressed.
    pub fn new() -> (r: MouseButtonsState)
        ensures
            r.0 == 0,
    {
        MouseButtonsState(0)
    }

    /// The button's bit is set.
    pub open spec fn is_set_spec(self, button: MouseButton) -> bool {
        self.0 & button.mask_spec() != 0
    }

    /// Sets the specificed button as pressed.
    pub fn set(&mut self, button: MouseButton)
        requires
            button.has_mask(),
        ensures
            final(self).0 == old(self).0 | button.mask_spec(),
    {
        self.0 = self.0 | button.mask();
    }

    /// Sets the specificed button as released.
    pub fn unset(&mut self, button: MouseButton)
        requires
            button.has_mask(),
        ensures
            final(self).0 == old(self).0 & !button.mask_spec(),
    {
        self.0 = self.0 & !button.mask();
    }

    /// Checks if the specified button is pressed.
    pub fn is_set(self, button: MouseButton) -> (r: bool)
        requires
            button.has_mask(),
        ensures
            r == self.is_set_spec(button),
    {
        self.0 & button.mask() != 0
    }

    /// Checks if the left button is pressed.
    pub fn left(self) -> (r: bool)
        ensures
            r == self.is_set_spec(MouseButton::Left),
    {
        self.is_set(MouseButton::Left)
    }

    /// Checks if the middle button is pressed.
    pub fn middle(self) -> (r: bool)
        ensures
            r == self.is_set_spec(MouseButton::Middle),
    {
        self.is_set(MouseButton::Middle)
    }

    /// Checks if the right button is pressed.
    pub fn right(self) -> (r: bool)
        ensures
            r == self.is_set_spec(MouseButton::Right),
    {
        self.is_set(MouseButton::Right)
    }
}

impl Default for MouseButtonsState {
    fn default() -> (r: MouseButtonsState)
        ensures
            r.0 == 0,
    {
        MouseButtonsState(0)
    }
}

/// After pressing a button, it reads as pressed.
pub proof fn lemma_set_then_is_set(s: u64, b: MouseButton)
    requires
        b.has_mask(),
    ensures
        MouseButtonsState(s | b.mask_spec()).is_set_spec(b),
{
    let i = b.bit_index();
    assert(i < 64 ==> (s | (1u64 << i)) & (1u64 << i) != 0) by (bit_vector);
}

/// After releasing a button, it reads as released.
pub proof fn lemma_unset_then_not_set(s: u64, b: MouseButton)
    requires
        b.has_mask(),
    ensures
        !MouseButtonsState(s & !b.mask_spec()).is_set_spec(b),
{
    let i = b.bit_index();
    assert(i < 64 ==> (s & !(1u64 << i)) & (1u64 << i) == 0) by (bit_vector);
}

/// Pressing or releasing a button leaves every button with another bit unchanged.
pub proof fn lemma_set_unset_independent(s: u64, b: MouseButton, c: MouseButton)
    requires
        b.has_mask(),
        c.has_mask(),
        b.bit_index() != c.bit_index(),
    ensures
        MouseButtonsState(s | b.mask_spec()).is_set_spec(c) == MouseButtonsState(s).is_set_spec(c),
        MouseButtonsState(s & !b.mask_spec()).is_set_spec(c) == MouseButtonsState(s).is_set_spec(
            c,
        ),
{
    let i = b.bit_index();
    let j = c.bit_index();
    assert(i < 64 && j < 64 && i != j ==> (((s | (1u64 << i)) & (1u64 << j) != 0) == ((s & (1u64
        << j)) != 0))) by (bit_vector);
    assert(i < 64 && j < 64 && i != j ==> (((s & !(1u64 << i)) & (1u64 << j) != 0) == ((s & (1u64
        << j)) != 0))) by (bit_vector);
}

/// Side for duplicated modifier keys.
#[derive(Debug, Clone, Copy, PartialEq, Eq, Structural, Hash)]
pub enum KeySide {
    Left,
    Right,
}

/// Symbolic key definition.
#[derive(Debug, Clone, Copy, PartialEq, Eq, Structural, Hash)]
pub enum Key {
    /// Number keys
    Num(u8, IsNumpad),
    /// Letters
    Letter(char),
    /// Function keys
    Fn(u8),
    /// The space bar
    Space,
    Escape,
    BackSpace,
    Tab,
    Enter(IsNumpad),
    CapsLock,
    Shift(KeySide),
    Control(KeySide),
    Alt(KeySide),
    Super(KeySide),
    Meta(KeySide),
    Compose,
    PrintScr,
    ScrollLock,
    Pause,
    Insert,
    Delete,
    Home,
    End,
    PageUp,
    PageDown,
    Up,
    Down,
    Left,
    Right,
    NumLock,
    NumpadDelete,
    NumpadEnter,
    Plus(IsNumpad),
    Minus(IsNumpad),
    Multiply(IsNumpad),
    Slash(IsNumpad),
    Backslash,
    Comma(IsNumpad),
    Period,
    Colon,
    Semicolon,
    Apostrophe,
    Grave,
    LBracket,
    RBracket,
    Equals(IsNumpad),
    /// unknown key, raw id in scancode
    Unk,
}

/// The result of processing an input event.
#[derive(Debug, Clone, Copy, PartialEq, Eq, Structural, Hash)]
pub enum EventResult {
    /// Event was completely ignored, will propagate.
    Pass,
    /// Event was consumed, do not propagate. Will trigger a redraw.
    Consumed,
}

impl EventResult {
    /// Checks if the event was consumed.
    pub fn consumed(self) -> (r: bool)
        ensures
            r == (self == EventResult::Consumed),
    {
        match self {
            EventResult::Pass => false,
            EventResult::Consumed => true,
        }
    }

    /// Returns `Some(val)` if the event was consumed, or `None` otherwise.
    pub fn then_some<T>(self, val: T) -> (r: Option<T>)
        ensures
            r == (if self == EventResult::Consumed {
                Some(val)
            } else {
                None
            }),
    {
        match self {
            EventResult::Pass => None,
            EventResult::Consumed => Some(val),
        }
    }

    /// Returns `Some(f())` if the event was consumed, or `None` otherwise.
    pub fn then<T, F: FnOnce() -> T>(self, f: F) -> (r: Option<T>)
        requires
            self == EventResult::Consumed ==> call_requires(f, ()),
        ensures
            self == EventResult::Pass ==> r is None,
            self == EventResult::Consumed ==> (r matches Some(v) && call_ensures(f, (), v)),
    {
        match self {
            EventResult::Pass => None,
            EventResult::Consumed => Some(f()),
        }
    }
}

impl Default for EventResult {
    fn default() -> (r: EventResult)
        ensures
            r == EventResult::Pass,
    {
        EventResult::Pass
    }
}

} // verus!
