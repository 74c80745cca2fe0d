//! The schema-level event envelope: one discriminant plus six mutually
//! exclusive optional payload slots, of which exactly one is populated
//! and must correspond to the discriminant. This sparse shape exists
//! because the envelope crosses a boundary without tagged-union support.

use vstd::prelude::*;

use crate::enums::{ButtonType, EventTypeValue, KeyCode};

verus! {

/// Payload of a key-press occurrence.
#[derive(Clone, Copy, Debug, PartialEq, Eq, Structural)]
pub struct KeyPressEvent {
    pub key: KeyCode,
}

/// Payload of a key-release occurrence.
#[derive(Clone, Copy, Debug, PartialEq, Eq, Structural)]
pub struct KeyReleaseEvent {
    pub key: KeyCode,
}

/// Payload of a mouse-move occurrence. The coordinates are the IEEE-754
/// bit patterns of the platform's floating-point pixel values, passed
/// through uninterpreted.
#[derive(Clone, Copy, Debug, PartialEq, Eq, Structural)]
pub struct MouseMoveEvent {
    pub x_bits: u64,
    pub y_bits: u64,
}

/// Payload of a button-press occurrence.
#[derive(Clone, Copy, Debug, PartialEq, Eq, Structural)]
pub struct ButtonPressEvent {
    pub button: ButtonType,
}

/// Payload of a button-release occurrence.
#[derive(Clone, Copy, Debug, PartialEq, Eq, Structural)]
pub struct ButtonReleaseEvent {
    pub button: ButtonType,
}

/// Payload of a wheel occurrence: signed scroll deltas.
#[derive(Clone, Copy, Debug, PartialEq, Eq, Structural)]
pub struct WheelEvent {
    pub delta_x: i64,
    pub delta_y: i64,
}

/// The event envelope: a discriminant, six optional payload slots of
/// which the one named by the discriminant is populated, an optional
/// source label, and a timestamp in whole milliseconds since the Unix
/// epoch.
#[derive(Clone, Debug, PartialEq)]
pub struct InputEvent {
    /// Which kind of occurrence this envelope carries.
    pub event_type: EventTypeValue,
    /// Key-press data, present exactly for `KeyPress` envelopes.
    pub key_press: Option<KeyPressEvent>,
    /// Key-release data, present exactly for `KeyRelease` envelopes.
    pub key_release: Option<KeyReleaseEvent>,
    /// Mouse-move data, present exactly for `MouseMove` envelopes.
    pub mouse_move: Option<MouseMoveEvent>,
    /// Button-press data, present exactly for `ButtonPress` envelopes.
    pub button_press: Option<ButtonPressEvent>,
    /// Button-release data, present exactly for `ButtonRelease` envelopes.
    pub button_release: Option<ButtonReleaseEvent>,
    /// Wheel data, present exactly for `Wheel` envelopes.
    pub wheel: Option<WheelEvent>,
    /// Optional window/source label, platform-dependent.
    pub name: Option<String>,
    /// Milliseconds since the Unix epoch, never negative.
    pub time: u64,
}

impl InputEvent {
    /// The payload slot named by the discriminant is populated.
    pub open spec fn has_matching_payload(&self) -> bool {
        match self.event_type {
            EventTypeValue::KeyPress => self.key_press is Some,
            EventTypeValue::KeyRelease => self.key_release is Some,
            EventTypeValue::MouseMove => self.mouse_move is Some,
            EventTypeValue::ButtonPress => self.button_press is Some,
            EventTypeValue::ButtonRelease => self.button_release is Some,
            EventTypeValue::Wheel => self.wheel is Some,
        }
    }

    /// Every payload slot other than the one named by the discriminant
    /// is absent.
    pub open spec fn others_absent(&self) -> bool {
        &&& self.event_type != EventTypeValue::KeyPress ==> self.key_press is None
        &&& self.event_type != EventTypeValue::KeyRelease ==> self.key_release is None
        &&& self.event_type != EventTypeValue::MouseMove ==> self.mouse_move is None
        &&& self.event_type != EventTypeValue::ButtonPress ==> self.button_press is None
        &&& self.event_type != EventTypeValue::ButtonRelease ==> self.button_release is None
        &&& self.event_type != EventTypeValue::Wheel ==> self.wheel is None
    }

    /// Envelope invariant: exactly one payload slot is populated, and it
    /// is the one named by the discriminant.
    pub open spec fn wf(&self) -> bool {
        self.has_matching_payload() && self.others_absent()
    }
}

/// Failure of the reverse (envelope to native) conversion: the payload
/// slot named by the discriminant is absent.
#[derive(Clone, Copy, Debug, PartialEq, Eq, Structural)]
pub enum ConversionError {
    MissingPayload(EventTypeValue),
}

/// Failure of the simulation path: the envelope was malformed, or the
/// platform rejected the injection (the detail string is the platform's).
#[derive(Clone, Debug, PartialEq)]
pub enum SimulationError {
    InvalidPayload,
    PlatformRejected(String),
}

/// Size of the main display in whole pixels, as the platform reports it.
#[derive(Clone, Copy, Debug, PartialEq, Eq, Structural)]
pub struct DisplaySize {
    pub width: u64,
    pub height: u64,
}

} // verus!
