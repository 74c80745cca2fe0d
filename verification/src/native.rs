//! Plain-data model of a native input occurrence: the identities and
//! payloads the platform hook reports, held as values this crate can
//! reason about. The set of key and button identities matches the
//! platform hook library's own (`rdev::Key` / `rdev::Button`), so the
//! boundary conversion outside this crate is a one-to-one renaming.

use vstd::prelude::*;

verus! {

/// A platform key identity. `Unknown` carries the raw platform scan code
/// of a key the platform itself could not name.
#[derive(Clone, Copy, Debug, PartialEq, Eq, Structural)]
pub enum NativeKey {
    Alt,
    AltGr,
    Backspace,
    CapsLock,
    ControlLeft,
    ControlRight,
    Delete,
    DownArrow,
    End,
    Escape,
    F1,
    F10,
    F11,
    F12,
    F2,
    F3,
    F4,
    F5,
    F6,
    F7,
    F8,
    F9,
    Home,
    LeftArrow,
    MetaLeft,
    MetaRight,
    PageDown,
    PageUp,
    Return,
    RightArrow,
    ShiftLeft,
    ShiftRight,
    Space,
    Tab,
    UpArrow,
    PrintScreen,
    ScrollLock,
    Pause,
    NumLock,
    BackQuote,
    Num1,
    Num2,
    Num3,
    Num4,
    Num5,
    Num6,
    Num7,
    Num8,
    Num9,
    Num0,
    Minus,
    Equal,
    KeyQ,
    KeyW,
    KeyE,
    KeyR,
    KeyT,
    KeyY,
    KeyU,
    KeyI,
    KeyO,
    KeyP,
    LeftBracket,
    RightBracket,
    KeyA,
    KeyS,
    KeyD,
    KeyF,
    KeyG,
    KeyH,
    KeyJ,
    KeyK,
    KeyL,
    SemiColon,
    Quote,
    BackSlash,
    IntlBackslash,
    KeyZ,
    KeyX,
    KeyC,
    KeyV,
    KeyB,
    KeyN,
    KeyM,
    Comma,
    Dot,
    Slash,
    Insert,
    KpReturn,
    KpMinus,
    KpPlus,
    KpMultiply,
    KpDivide,
    Kp0,
    Kp1,
    Kp2,
    Kp3,
    Kp4,
    Kp5,
    Kp6,
    Kp7,
    Kp8,
    Kp9,
    KpDelete,
    Function,
    Unknown(u32),
}

/// A platform mouse-button identity. `Unknown` carries the raw platform
/// button index of a button the platform itself could not name.
#[derive(Clone, Copy, Debug, PartialEq, Eq, Structural)]
pub enum NativeButton {
    Left,
    Right,
    Middle,
    Unknown(u8),
}

/// The kind and payload of one native occurrence. Mouse coordinates are
/// carried as the IEEE-754 bit patterns of the platform's floating-point
/// pixel values: the transport layer passes them through uninterpreted,
/// and the bit pattern keeps them exact.
#[derive(Clone, Copy, Debug, PartialEq, Eq, Structural)]
pub enum NativeEventType {
    KeyPress(NativeKey),
    KeyRelease(NativeKey),
    MouseMove { x_bits: u64, y_bits: u64 },
    ButtonPress(NativeButton),
    ButtonRelease(NativeButton),
    Wheel { delta_x: i64, delta_y: i64 },
}

/// One native occurrence as observed by the platform hook: its kind and
/// payload, an optional source label, and its timestamp in signed
/// milliseconds relative to the Unix epoch (negative: before the epoch).
#[derive(Clone, Debug, PartialEq)]
pub struct NativeEvent {
    pub event_type: NativeEventType,
    pub name: Option<String>,
    pub time_ms: i128,
}

} // verus!
