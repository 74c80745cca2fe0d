//! Stable, platform-independent identities for keys, mouse buttons and
//! event kinds. These enumerations are closed: every platform identity
//! maps to exactly one of them, with `Unknown` as the fallback.

use vstd::prelude::*;

verus! {

/// Stable identity of a logical keyboard key. `Unknown` stands for every
/// platform key outside this enumeration's coverage.
#[derive(Clone, Copy, Debug, PartialEq, Eq, Structural)]
pub enum KeyCode {
    Alt,
    AltGr,
    Backspace,
    CapsLock,
    ControlLeft,
    ControlRight,
    Delete,
    DownArrow,
    End,
    Escape,
    F1,
    F2,
    F3,
    F4,
    F5,
    F6,
    F7,
    F8,
    F9,
    F10,
    F11,
    F12,
    Home,
    LeftArrow,
    MetaLeft,
    MetaRight,
    NumLock,
    PageDown,
    PageUp,
    Return,
    RightArrow,
    ShiftLeft,
    ShiftRight,
    Space,
    Tab,
    UpArrow,
    PrintScreen,
    ScrollLock,
    Pause,
    Insert,
    Unknown,
}

/// Stable identity of a mouse button. `Unknown` stands for every platform
/// button outside this enumeration's coverage.
#[derive(Clone, Copy, Debug, PartialEq, Eq, Structural)]
pub enum ButtonType {
    Left,
    Right,
    Middle,
    Unknown,
}

/// Discriminant of an event envelope: which of the six kinds of input
/// occurrence it carries.
#[derive(Clone, Copy, Debug, PartialEq, Eq, Structural)]
pub enum EventTypeValue {
    KeyPress,
    KeyRelease,
    MouseMove,
    ButtonPress,
    ButtonRelease,
    Wheel,
}

} // verus!
