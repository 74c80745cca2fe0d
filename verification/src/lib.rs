//! A transport layer between a platform input-hook facility and a stable,
//! serializable event schema: taxonomy tables mapping platform key/button
//! identities to stable codes and back, an event envelope with timestamp
//! normalization, and the pure halves of the listener and simulator paths.
//! The platform hook and injection calls themselves live outside this crate.

pub mod conversions;
pub mod enums;
pub mod events;
pub mod native;

pub use enums::{ButtonType, EventTypeValue, KeyCode};
pub use events::{
    ButtonPressEvent, ButtonReleaseEvent, ConversionError, DisplaySize, InputEvent, KeyPressEvent,
    KeyReleaseEvent, MouseMoveEvent, SimulationError, WheelEvent,
};
pub use native::{NativeButton, NativeEvent, NativeEventType, NativeKey};

use vstd::prelude::*;

verus! {

/// The native command the simulation path injects for an envelope: the
/// reverse conversion, with a malformed envelope (empty matching payload
/// slot) reported as `InvalidPayload` before any platform call could be
/// attempted. The platform injection itself happens outside this crate,
/// only on an `Ok` command.
pub fn simulation_command(event: InputEvent) -> (r: Result<NativeEvent, SimulationError>)
    ensures
        r is Ok <==> event.has_matching_payload(),
        event.has_matching_payload() ==> r == Ok::<NativeEvent, SimulationError>(
            conversions::spec_to_native(event)->Ok_0,
        ),
        !event.has_matching_payload() ==> r == Err::<NativeEvent, SimulationError>(
            SimulationError::InvalidPayload,
        ),
{
    match conversions::to_native(event) {
        Ok(n) => Ok(n),
        Err(ConversionError::MissingPayload(_)) => Err(SimulationError::InvalidPayload),
    }
}

} // verus!
