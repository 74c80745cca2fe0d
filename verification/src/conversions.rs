//! The taxonomy tables between platform identities and stable codes,
//! and the envelope conversions in both directions. The native-to-stable
//! direction is total, with `Unknown` as the fallback for identities
//! outside the stable enumeration's coverage; the stable-to-native
//! direction is total over the stable enumeration, with `Unknown`
//! mapping to a sentinel native value carrying no identifying payload.

use vstd::prelude::*;

use crate::enums::{ButtonType, EventTypeValue, KeyCode};
use crate::events::{
    ButtonPressEvent, ButtonReleaseEvent, ConversionError, InputEvent, KeyPressEvent,
    KeyReleaseEvent, MouseMoveEvent, WheelEvent,
};
use crate::native::{NativeButton, NativeEvent, NativeEventType, NativeKey};

verus! {

/// The stable code of a platform button identity.
pub open spec fn spec_button_to_type(btn: NativeButton) -> ButtonType {
    match btn {
        NativeButton::Left => ButtonType::Left,
        NativeButton::Right => ButtonType::Right,
        NativeButton::Middle => ButtonType::Middle,
        NativeButton::Unknown(_) => ButtonType::Unknown,
    }
}

/// The platform button identity of a stable code; `Unknown` maps to the
/// zero-indexed sentinel button.
pub open spec fn spec_type_to_button(btn: ButtonType) -> NativeButton {
    match btn {
        ButtonType::Left => NativeButton::Left,
        ButtonType::Right => NativeButton::Right,
        ButtonType::Middle => NativeButton::Middle,
        ButtonType::Unknown => NativeButton::Unknown(0),
    }
}

/// Maps a platform button identity to its stable code. Total: an
/// unrecognized button yields `ButtonType::Unknown`, never an error.
pub fn button_to_type(btn: &NativeButton) -> (r: ButtonType)
    ensures
        r == spec_button_to_type(*btn),
{
    match btn {
        NativeButton::Left => ButtonType::Left,
        NativeButton::Right => ButtonType::Right,
        NativeButton::Middle => ButtonType::Middle,
        NativeButton::Unknown(_) => ButtonType::Unknown,
    }
}

/// Maps a stable button code back to a platform button identity. Total
/// over the stable enumeration: `Unknown` yields the sentinel button.
pub fn type_to_button(btn: ButtonType) -> (r: NativeButton)
    ensures
        r == spec_type_to_button(btn),
{
    match btn {
        ButtonType::Left => NativeButton::Left,
        ButtonType::Right => NativeButton::Right,
        ButtonType::Middle => NativeButton::Middle,
        ButtonType::Unknown => NativeButton::Unknown(0),
    }
}

/// The stable code of a platform key identity; every identity outside
/// the stable enumeration's coverage yields `KeyCode::Unknown`.
pub open spec fn spec_key_to_type(key: NativeKey) -> KeyCode {
    match key {
        NativeKey::Alt => KeyCode::Alt,
        NativeKey::AltGr => KeyCode::AltGr,
        NativeKey::Backspace => KeyCode::Backspace,
        NativeKey::CapsLock => KeyCode::CapsLock,
        NativeKey::ControlLeft => KeyCode::ControlLeft,
        NativeKey::ControlRight => KeyCode::ControlRight,
        NativeKey::Delete => KeyCode::Delete,
        NativeKey::DownArrow => KeyCode::DownArrow,
        NativeKey::End => KeyCode::End,
        NativeKey::Escape => KeyCode::Escape,
        NativeKey::F1 => KeyCode::F1,
        NativeKey::F10 => KeyCode::F10,
        NativeKey::F11 => KeyCode::F11,
        NativeKey::F12 => KeyCode::F12,
        NativeKey::F2 => KeyCode::F2,
        NativeKey::F3 => KeyCode::F3,
        NativeKey::F4 => KeyCode::F4,
        NativeKey::F5 => KeyCode::F5,
        NativeKey::F6 => KeyCode::F6,
        NativeKey::F7 => KeyCode::F7,
        NativeKey::F8 => KeyCode::F8,
        NativeKey::F9 => KeyCode::F9,
        NativeKey::Home => KeyCode::Home,
        NativeKey::LeftArrow => KeyCode::LeftArrow,
        NativeKey::MetaLeft => KeyCode::MetaLeft,
        NativeKey::MetaRight => KeyCode::MetaRight,
        NativeKey::NumLock => KeyCode::NumLock,
        NativeKey::PageDown => KeyCode::PageDown,
        NativeKey::PageUp => KeyCode::PageUp,
        NativeKey::Return => KeyCode::Return,
        NativeKey::RightArrow => KeyCode::RightArrow,
        NativeKey::ShiftLeft => KeyCode::ShiftLeft,
        NativeKey::ShiftRight => KeyCode::ShiftRight,
        NativeKey::Space => KeyCode::Space,
        NativeKey::Tab => KeyCode::Tab,
        NativeKey::UpArrow => KeyCode::UpArrow,
        NativeKey::PrintScreen => KeyCode::PrintScreen,
        NativeKey::ScrollLock => KeyCode::ScrollLock,
        NativeKey::Pause => KeyCode::Pause,
        NativeKey::Insert => KeyCode::Insert,
        _ => KeyCode::Unknown,
    }
}

/// The platform key identity of a stable code; `Unknown` maps to the
/// zero-coded sentinel key.
pub open spec fn spec_type_to_key(key: KeyCode) -> NativeKey {
    match key {
        KeyCode::Alt => NativeKey::Alt,
        KeyCode::AltGr => NativeKey::AltGr,
        KeyCode::Backspace => NativeKey::Backspace,
        KeyCode::CapsLock => NativeKey::CapsLock,
        KeyCode::ControlLeft => NativeKey::ControlLeft,
        KeyCode::ControlRight => NativeKey::ControlRight,
        KeyCode::Delete => NativeKey::Delete,
        KeyCode::DownArrow => NativeKey::DownArrow,
        KeyCode::End => NativeKey::End,
        KeyCode::Escape => NativeKey::Escape,
        KeyCode::F1 => NativeKey::F1,
        KeyCode::F10 => NativeKey::F10,
        KeyCode::F11 => NativeKey::F11,
        KeyCode::F12 => NativeKey::F12,
        KeyCode::F2 => NativeKey::F2,
        KeyCode::F3 => NativeKey::F3,
        KeyCode::F4 => NativeKey::F4,
        KeyCode::F5 => NativeKey::F5,
        KeyCode::F6 => NativeKey::F6,
        KeyCode::F7 => NativeKey::F7,
        KeyCode::F8 => NativeKey::F8,
        KeyCode::F9 => NativeKey::F9,
        KeyCode::Home => NativeKey::Home,
        KeyCode::LeftArrow => NativeKey::LeftArrow,
        KeyCode::MetaLeft => NativeKey::MetaLeft,
        KeyCode::MetaRight => NativeKey::MetaRight,
        KeyCode::NumLock => NativeKey::NumLock,
        KeyCode::PageDown => NativeKey::PageDown,
        KeyCode::PageUp => NativeKey::PageUp,
        KeyCode::Return => NativeKey::Return,
        KeyCode::RightArrow => NativeKey::RightArrow,
        KeyCode::ShiftLeft => NativeKey::ShiftLeft,
        KeyCode::ShiftRight => NativeKey::ShiftRight,
        KeyCode::Space => NativeKey::Space,
        KeyCode::Tab => NativeKey::Tab,
        KeyCode::UpArrow => NativeKey::UpArrow,
        KeyCode::PrintScreen => NativeKey::PrintScreen,
        KeyCode::ScrollLock => NativeKey::ScrollLock,
        KeyCode::Pause => NativeKey::Pause,
        KeyCode::Insert => NativeKey::Insert,
        KeyCode::Unknown => NativeKey::Unknown(0),
    }
}

/// Maps a platform key identity to its stable code. Total: an
/// unrecognized key yields `KeyCode::Unknown`, never an error.
pub fn key_to_type(key: &NativeKey) -> (r: KeyCode)
    ensures
        r == spec_key_to_type(*key),
{
    match key {
        NativeKey::Alt => KeyCode::Alt,
        NativeKey::AltGr => KeyCode::AltGr,
        NativeKey::Backspace => KeyCode::Backspace,
        NativeKey::CapsLock => KeyCode::CapsLock,
        NativeKey::ControlLeft => KeyCode::ControlLeft,
        NativeKey::ControlRight => KeyCode::ControlRight,
        NativeKey::Delete => KeyCode::Delete,
        NativeKey::DownArrow => KeyCode::DownArrow,
        NativeKey::End => KeyCode::End,
        NativeKey::Escape => KeyCode::Escape,
        NativeKey::F1 => KeyCode::F1,
        NativeKey::F10 => KeyCode::F10,
        NativeKey::F11 => KeyCode::F11,
        NativeKey::F12 => KeyCode::F12,
        NativeKey::F2 => KeyCode::F2,
        NativeKey::F3 => KeyCode::F3,
        NativeKey::F4 => KeyCode::F4,
        NativeKey::F5 => KeyCode::F5,
        NativeKey::F6 => KeyCode::F6,
        NativeKey::F7 => KeyCode::F7,
        NativeKey::F8 => KeyCode::F8,
        NativeKey::F9 => KeyCode::F9,
        NativeKey::Home => KeyCode::Home,
        NativeKey::LeftArrow => KeyCode::LeftArrow,
        NativeKey::MetaLeft => KeyCode::MetaLeft,
        NativeKey::MetaRight => KeyCode::MetaRight,
        NativeKey::NumLock => KeyCode::NumLock,
        NativeKey::PageDown => KeyCode::PageDown,
        NativeKey::PageUp => KeyCode::PageUp,
        NativeKey::Return => KeyCode::Return,
        NativeKey::RightArrow => KeyCode::RightArrow,
        NativeKey::ShiftLeft => KeyCode::ShiftLeft,
        NativeKey::ShiftRight => KeyCode::ShiftRight,
        NativeKey::Space => KeyCode::Space,
        NativeKey::Tab => KeyCode::Tab,
        NativeKey::UpArrow => KeyCode::UpArrow,
        NativeKey::PrintScreen => KeyCode::PrintScreen,
        NativeKey::ScrollLock => KeyCode::ScrollLock,
        NativeKey::Pause => KeyCode::Pause,
        NativeKey::Insert => KeyCode::Insert,
        _ => KeyCode::Unknown,
    }
}

/// Maps a stable key code back to a platform key identity. Total over
/// the stable enumeration: `Unknown` yields the sentinel key.
pub fn type_to_key(key: KeyCode) -> (r: NativeKey)
    ensures
        r == spec_type_to_key(key),
{
    match key {
        KeyCode::Alt => NativeKey::Alt,
        KeyCode::AltGr => NativeKey::AltGr,
        KeyCode::Backspace => NativeKey::Backspace,
        KeyCode::CapsLock => NativeKey::CapsLock,
        KeyCode::ControlLeft => NativeKey::ControlLeft,
        KeyCode::ControlRight => NativeKey::ControlRight,
        KeyCode::Delete => NativeKey::Delete,
        KeyCode::DownArrow => NativeKey::DownArrow,
        KeyCode::End => NativeKey::End,
        KeyCode::Escape => NativeKey::Escape,
        KeyCode::F1 => NativeKey::F1,
        KeyCode::F10 => NativeKey::F10,
        KeyCode::F11 => NativeKey::F11,
        KeyCode::F12 => NativeKey::F12,
        KeyCode::F2 => NativeKey::F2,
        KeyCode::F3 => NativeKey::F3,
        KeyCode::F4 => NativeKey::F4,
        KeyCode::F5 => NativeKey::F5,
        KeyCode::F6 => NativeKey::F6,
        KeyCode::F7 => NativeKey::F7,
        KeyCode::F8 => NativeKey::F8,
        KeyCode::F9 => NativeKey::F9,
        KeyCode::Home => NativeKey::Home,
        KeyCode::LeftArrow => NativeKey::LeftArrow,
        KeyCode::MetaLeft => NativeKey::MetaLeft,
        KeyCode::MetaRight => NativeKey::MetaRight,
        KeyCode::NumLock => NativeKey::NumLock,
        KeyCode::PageDown => NativeKey::PageDown,
        KeyCode::PageUp => NativeKey::PageUp,
        KeyCode::Return => NativeKey::Return,
        KeyCode::RightArrow => NativeKey::RightArrow,
        KeyCode::ShiftLeft => NativeKey::ShiftLeft,
        KeyCode::ShiftRight => NativeKey::ShiftRight,
        KeyCode::Space => NativeKey::Space,
        KeyCode::Tab => NativeKey::Tab,
        KeyCode::UpArrow => NativeKey::UpArrow,
        KeyCode::PrintScreen => NativeKey::PrintScreen,
        KeyCode::ScrollLock => NativeKey::ScrollLock,
        KeyCode::Pause => NativeKey::Pause,
        KeyCode::Insert => NativeKey::Insert,
        KeyCode::Unknown => NativeKey::Unknown(0),
    }
}

/// A native timestamp (signed milliseconds relative to the Unix epoch)
/// normalized to the envelope's clock: non-negative milliseconds since
/// the epoch. Anything before the epoch becomes zero; anything beyond
/// the representable range saturates.
pub open spec fn spec_normalize_time(ms: i128) -> u64 {
    if ms < 0 {
        0u64
    } else if ms > u64::MAX as i128 {
        u64::MAX
    } else {
        ms as u64
    }
}

/// Normalizes a native timestamp to envelope time. A timestamp at or
/// before the epoch yields zero, never a negative or wrapped value.
pub fn normalize_time(ms: i128) -> (r: u64)
    ensures
        r == spec_normalize_time(ms),
        ms <= 0 ==> r == 0,
        0 <= ms <= u64::MAX ==> r == ms,
{
    if ms < 0 {
        0u64
    } else if ms > u64::MAX as i128 {
        u64::MAX
    } else {
        ms as u64
    }
}

/// The discriminant an envelope built from a native occurrence of this
/// kind carries.
pub open spec fn spec_event_type_of(t: NativeEventType) -> EventTypeValue {
    match t {
        NativeEventType::KeyPress(_) => EventTypeValue::KeyPress,
        NativeEventType::KeyRelease(_) => EventTypeValue::KeyRelease,
        NativeEventType::MouseMove { .. } => EventTypeValue::MouseMove,
        NativeEventType::ButtonPress(_) => EventTypeValue::ButtonPress,
        NativeEventType::ButtonRelease(_) => EventTypeValue::ButtonRelease,
        NativeEventType::Wheel { .. } => EventTypeValue::Wheel,
    }
}

/// The envelope a native occurrence converts to: the discriminant of its
/// kind, the one matching payload with key/button identities mapped to
/// stable codes, the source label carried through, and the timestamp
/// normalized.
pub open spec fn spec_from_native(n: NativeEvent) -> InputEvent {
    InputEvent {
        event_type: spec_event_type_of(n.event_type),
        key_press: match n.event_type {
            NativeEventType::KeyPress(k) => Some(KeyPressEvent { key: spec_key_to_type(k) }),
            _ => None,
        },
        key_release: match n.event_type {
            NativeEventType::KeyRelease(k) => Some(KeyReleaseEvent { key: spec_key_to_type(k) }),
            _ => None,
        },
        mouse_move: match n.event_type {
            NativeEventType::MouseMove { x_bits, y_bits } => Some(
                MouseMoveEvent { x_bits, y_bits },
            ),
            _ => None,
        },
        button_press: match n.event_type {
            NativeEventType::ButtonPress(b) => Some(
                ButtonPressEvent { button: spec_button_to_type(b) },
            ),
            _ => None,
        },
        button_release: match n.event_type {
            NativeEventType::ButtonRelease(b) => Some(
                ButtonReleaseEvent { button: spec_button_to_type(b) },
            ),
            _ => None,
        },
        wheel: match n.event_type {
            NativeEventType::Wheel { delta_x, delta_y } => Some(WheelEvent { delta_x, delta_y }),
            _ => None,
        },
        name: n.name,
        time: spec_normalize_time(n.time_ms),
    }
}

/// Builds the envelope for one native occurrence. Infallible: exactly
/// one payload slot comes out populated, and it matches the
/// discriminant.
pub fn from_native(native: NativeEvent) -> (r: InputEvent)
    ensures
        r == spec_from_native(native),
        r.wf(),
        r.event_type == spec_event_type_of(native.event_type),
        r.name == native.name,
        r.time == spec_normalize_time(native.time_ms),
{
    let time: u64 = normalize_time(native.time_ms);
    let name = native.name;
    match native.event_type {
        NativeEventType::KeyPress(k) => InputEvent {
            event_type: EventTypeValue::KeyPress,
            key_press: Some(KeyPressEvent { key: key_to_type(&k) }),
            key_release: None,
            mouse_move: None,
            button_press: None,
            button_release: None,
            wheel: None,
            name,
            time,
        },
        NativeEventType::KeyRelease(k) => InputEvent {
            event_type: EventTypeValue::KeyRelease,
            key_press: None,
            key_release: Some(KeyReleaseEvent { key: key_to_type(&k) }),
            mouse_move: None,
            button_press: None,
            button_release: None,
            wheel: None,
            name,
            time,
        },
        NativeEventType::MouseMove { x_bits, y_bits } => InputEvent {
            event_type: EventTypeValue::MouseMove,
            key_press: None,
            key_release: None,
            mouse_move: Some(MouseMoveEvent { x_bits, y_bits }),
            button_press: None,
            button_release: None,
            wheel: None,
            name,
            time,
        },
        NativeEventType::ButtonPress(b) => InputEvent {
            event_type: EventTypeValue::ButtonPress,
            key_press: None,
            key_release: None,
            mouse_move: None,
            button_press: Some(ButtonPressEvent { button: button_to_type(&b) }),
            button_release: None,
            wheel: None,
            name,
            time,
        },
        NativeEventType::ButtonRelease(b) => InputEvent {
            event_type: EventTypeValue::ButtonRelease,
            key_press: None,
            key_release: None,
            mouse_move: None,
            button_press: None,
            button_release: Some(ButtonReleaseEvent { button: button_to_type(&b) }),
            wheel: None,
            name,
            time,
        },
        NativeEventType::Wheel { delta_x, delta_y } => InputEvent {
            event_type: EventTypeValue::Wheel,
            key_press: None,
            key_release: None,
            mouse_move: None,
            button_press: None,
            button_release: None,
            wheel: Some(WheelEvent { delta_x, delta_y }),
            name,
            time,
        },
    }
}

/// The native command an envelope's payload converts to, if the payload
/// slot named by the discriminant is populated; `None` exactly when it
/// is absent.
pub open spec fn spec_native_command(e: InputEvent) -> Option<NativeEventType> {
    match e.event_type {
        EventTypeValue::KeyPress => match e.key_press {
            Some(p) => Some(NativeEventType::KeyPress(spec_type_to_key(p.key))),
            None => None,
        },
        EventTypeValue::KeyRelease => match e.key_release {
            Some(p) => Some(NativeEventType::KeyRelease(spec_type_to_key(p.key))),
            None => None,
        },
        EventTypeValue::MouseMove => match e.mouse_move {
            Some(p) => Some(NativeEventType::MouseMove { x_bits: p.x_bits, y_bits: p.y_bits }),
            None => None,
        },
        EventTypeValue::ButtonPress => match e.button_press {
            Some(p) => Some(NativeEventType::ButtonPress(spec_type_to_button(p.button))),
            None => None,
        },
        EventTypeValue::ButtonRelease => match e.button_release {
            Some(p) => Some(NativeEventType::ButtonRelease(spec_type_to_button(p.button))),
            None => None,
        },
        EventTypeValue::Wheel => match e.wheel {
            Some(p) => Some(NativeEventType::Wheel { delta_x: p.delta_x, delta_y: p.delta_y }),
            None => None,
        },
    }
}

/// The native occurrence an envelope converts back to, or the error
/// naming the discriminant whose payload slot was empty.
pub open spec fn spec_to_native(e: InputEvent) -> Result<NativeEvent, ConversionError> {
    match spec_native_command(e) {
        Some(cmd) => Ok(
            NativeEvent { event_type: cmd, name: e.name, time_ms: e.time as i128 },
        ),
        None => Err(ConversionError::MissingPayload(e.event_type)),
    }
}

/// Converts an envelope back to a native occurrence. Succeeds exactly
/// when the payload slot named by the discriminant is populated (other
/// slots are not inspected); an empty matching slot yields
/// `MissingPayload` carrying the discriminant. Payload values pass
/// through uninterpreted; the timestamp converts back to signed
/// milliseconds relative to the epoch, always representable.
pub fn to_native(event: InputEvent) -> (r: Result<NativeEvent, ConversionError>)
    ensures
        r == spec_to_native(event),
        r is Ok <==> event.has_matching_payload(),
        !event.has_matching_payload() ==> r == Err::<NativeEvent, ConversionError>(
            ConversionError::MissingPayload(event.event_type),
        ),
{
    let time_ms: i128 = event.time as i128;
    let name = event.name;
    let cmd: NativeEventType = match event.event_type {
        EventTypeValue::KeyPress => match event.key_press {
            Some(p) => NativeEventType::KeyPress(type_to_key(p.key)),
            None => {
                return Err(ConversionError::MissingPayload(EventTypeValue::KeyPress));
            },
        },
        EventTypeValue::KeyRelease => match event.key_release {
            Some(p) => NativeEventType::KeyRelease(type_to_key(p.key)),
            None => {
                return Err(ConversionError::MissingPayload(EventTypeValue::KeyRelease));
            },
        },
        EventTypeValue::MouseMove => match event.mouse_move {
            Some(p) => NativeEventType::MouseMove { x_bits: p.x_bits, y_bits: p.y_bits },
            None => {
                return Err(ConversionError::MissingPayload(EventTypeValue::MouseMove));
            },
        },
        EventTypeValue::ButtonPress => match event.button_press {
            Some(p) => NativeEventType::ButtonPress(type_to_button(p.button)),
            None => {
                return Err(ConversionError::MissingPayload(EventTypeValue::ButtonPress));
            },
        },
        EventTypeValue::ButtonRelease => match event.button_release {
            Some(p) => NativeEventType::ButtonRelease(type_to_button(p.button)),
            None => {
                return Err(ConversionError::MissingPayload(EventTypeValue::ButtonRelease));
            },
        },
        EventTypeValue::Wheel => match event.wheel {
            Some(p) => NativeEventType::Wheel { delta_x: p.delta_x, delta_y: p.delta_y },
            None => {
                return Err(ConversionError::MissingPayload(EventTypeValue::Wheel));
            },
        },
    };
    Ok(NativeEvent { event_type: cmd, name, time_ms })
}

/// Law: for every well-formed envelope, converting to a native
/// occurrence and back reproduces the envelope exactly — discriminant,
/// payload values, source label and timestamp.
pub proof fn lemma_envelope_round_trip(e: InputEvent)
    requires
        e.wf(),
    ensures
        spec_to_native(e) is Ok,
        spec_from_native(spec_to_native(e)->Ok_0) == e,
{
    let n = spec_to_native(e)->Ok_0;
    match e.event_type {
        EventTypeValue::KeyPress => {
            lemma_key_code_round_trip(e.key_press->Some_0.key);
        },
        EventTypeValue::KeyRelease => {
            lemma_key_code_round_trip(e.key_release->Some_0.key);
        },
        EventTypeValue::MouseMove => {},
        EventTypeValue::ButtonPress => {
            lemma_button_code_round_trip(e.button_press->Some_0.button);
        },
        EventTypeValue::ButtonRelease => {
            lemma_button_code_round_trip(e.button_release->Some_0.button);
        },
        EventTypeValue::Wheel => {},
    }
}

/// Law: converting a platform key to its stable code and back either
/// reproduces the key or, exactly when the key is outside the stable
/// enumeration's coverage, yields the sentinel key — never an unrelated
/// identity.
pub proof fn lemma_key_taxonomy_round_trip(key: NativeKey)
    ensures
        spec_key_to_type(key) != KeyCode::Unknown ==> spec_type_to_key(spec_key_to_type(key))
            == key,
        spec_key_to_type(key) == KeyCode::Unknown ==> spec_type_to_key(spec_key_to_type(key))
            == NativeKey::Unknown(0),
{
}

/// Law: converting a stable key code to a platform identity and back
/// reproduces the code, for every code in the stable enumeration.
pub proof fn lemma_key_code_round_trip(key: KeyCode)
    ensures
        spec_key_to_type(spec_type_to_key(key)) == key,
{
}

/// Law: converting a platform button to its stable code and back either
/// reproduces the button or, exactly when the button is outside the
/// stable enumeration's coverage, yields the sentinel button — never an
/// unrelated identity.
pub proof fn lemma_button_taxonomy_round_trip(btn: NativeButton)
    ensures
        spec_button_to_type(btn) != ButtonType::Unknown ==> spec_type_to_button(
            spec_button_to_type(btn),
        ) == btn,
        spec_button_to_type(btn) == ButtonType::Unknown ==> spec_type_to_button(
            spec_button_to_type(btn),
        ) == NativeButton::Unknown(0),
{
}

/// Law: converting a stable button code to a platform identity and back
/// reproduces the code, for every code in the stable enumeration.
pub proof fn lemma_button_code_round_trip(btn: ButtonType)
    ensures
        spec_button_to_type(spec_type_to_button(btn)) == btn,
{
}

} // verus!
