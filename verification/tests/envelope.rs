use input_bridge::conversions::{from_native, normalize_time, to_native};
use input_bridge::simulation_command;
use input_bridge::{
    ButtonPressEvent, ButtonReleaseEvent, ButtonType, ConversionError, EventTypeValue, InputEvent,
    KeyCode, KeyPressEvent, KeyReleaseEvent, MouseMoveEvent, NativeButton, NativeEvent,
    NativeEventType, NativeKey, SimulationError, WheelEvent,
};

fn native(event_type: NativeEventType, time_ms: i128) -> NativeEvent {
    NativeEvent { event_type, name: None, time_ms }
}

fn hollow(event_type: EventTypeValue, time: u64) -> InputEvent {
    InputEvent {
        event_type,
        key_press: None,
        key_release: None,
        mouse_move: None,
        button_press: None,
        button_release: None,
        wheel: None,
        name: None,
        time,
    }
}

fn populated_slots(e: &InputEvent) -> Vec<EventTypeValue> {
    let mut slots = Vec::new();
    if e.key_press.is_some() {
        slots.push(EventTypeValue::KeyPress);
    }
    if e.key_release.is_some() {
        slots.push(EventTypeValue::KeyRelease);
    }
    if e.mouse_move.is_some() {
        slots.push(EventTypeValue::MouseMove);
    }
    if e.button_press.is_some() {
        slots.push(EventTypeValue::ButtonPress);
    }
    if e.button_release.is_some() {
        slots.push(EventTypeValue::ButtonRelease);
    }
    if e.wheel.is_some() {
        slots.push(EventTypeValue::Wheel);
    }
    slots
}

fn sample_natives() -> Vec<(NativeEventType, EventTypeValue)> {
    vec![
        (NativeEventType::KeyPress(NativeKey::Space), EventTypeValue::KeyPress),
        (NativeEventType::KeyRelease(NativeKey::Escape), EventTypeValue::KeyRelease),
        (
            NativeEventType::MouseMove { x_bits: 10u64, y_bits: 20u64 },
            EventTypeValue::MouseMove,
        ),
        (NativeEventType::ButtonPress(NativeButton::Left), EventTypeValue::ButtonPress),
        (NativeEventType::ButtonRelease(NativeButton::Right), EventTypeValue::ButtonRelease),
        (
            NativeEventType::Wheel { delta_x: 1, delta_y: -1 },
            EventTypeValue::Wheel,
        ),
    ]
}

#[test]
fn each_kind_populates_exactly_the_matching_slot() {
    for (kind, discriminant) in sample_natives() {
        let envelope = from_native(native(kind, 0));
        assert_eq!(envelope.event_type, discriminant);
        assert_eq!(populated_slots(&envelope), vec![discriminant]);
    }
}

#[test]
fn round_trip_reproduces_every_well_formed_envelope() {
    let mut envelopes = Vec::new();
    let mut e = hollow(EventTypeValue::KeyPress, 1);
    e.key_press = Some(KeyPressEvent { key: KeyCode::Tab });
    envelopes.push(e);
    let mut e = hollow(EventTypeValue::KeyRelease, 2);
    e.key_release = Some(KeyReleaseEvent { key: KeyCode::Unknown });
    envelopes.push(e);
    let mut e = hollow(EventTypeValue::MouseMove, 3);
    e.mouse_move = Some(MouseMoveEvent {
        x_bits: (120.5f64).to_bits(),
        y_bits: (64.0f64).to_bits(),
    });
    envelopes.push(e);
    let mut e = hollow(EventTypeValue::ButtonPress, 4);
    e.button_press = Some(ButtonPressEvent { button: ButtonType::Middle });
    envelopes.push(e);
    let mut e = hollow(EventTypeValue::ButtonRelease, 5);
    e.button_release = Some(ButtonReleaseEvent { button: ButtonType::Unknown });
    envelopes.push(e);
    let mut e = hollow(EventTypeValue::Wheel, 6);
    e.wheel = Some(WheelEvent { delta_x: -2, delta_y: 9 });
    e.name = Some(String::from("window"));
    envelopes.push(e);

    for envelope in envelopes {
        let back = to_native(envelope.clone()).expect("well-formed envelope must convert");
        assert_eq!(from_native(back), envelope);
    }
}

#[test]
fn missing_matching_payload_fails_with_the_discriminant() {
    let discriminants = vec![
        EventTypeValue::KeyPress,
        EventTypeValue::KeyRelease,
        EventTypeValue::MouseMove,
        EventTypeValue::ButtonPress,
        EventTypeValue::ButtonRelease,
        EventTypeValue::Wheel,
    ];
    for discriminant in discriminants {
        let result = to_native(hollow(discriminant, 0));
        assert_eq!(result, Err(ConversionError::MissingPayload(discriminant)));
    }
}

#[test]
fn key_press_without_payload_is_rejected_before_any_injection() {
    let envelope = hollow(EventTypeValue::KeyPress, 100);
    assert_eq!(
        to_native(envelope.clone()),
        Err(ConversionError::MissingPayload(EventTypeValue::KeyPress))
    );
    assert_eq!(simulation_command(envelope), Err(SimulationError::InvalidPayload));
}

#[test]
fn simulation_command_carries_the_converted_occurrence() {
    let mut envelope = hollow(EventTypeValue::KeyPress, 50);
    envelope.key_press = Some(KeyPressEvent { key: KeyCode::Return });
    let command = simulation_command(envelope).expect("well-formed envelope must convert");
    assert_eq!(command.event_type, NativeEventType::KeyPress(NativeKey::Return));
    assert_eq!(command.time_ms, 50);
}

#[test]
fn epoch_timestamp_normalizes_to_zero() {
    assert_eq!(normalize_time(0), 0);
}

#[test]
fn pre_epoch_timestamp_normalizes_to_zero_not_negative() {
    assert_eq!(normalize_time(-1), 0);
    assert_eq!(normalize_time(-1_000_000), 0);
    assert_eq!(normalize_time(i128::MIN), 0);
}

#[test]
fn oversized_timestamp_saturates() {
    assert_eq!(normalize_time(u64::MAX as i128), u64::MAX);
    assert_eq!(normalize_time(u64::MAX as i128 + 1), u64::MAX);
    assert_eq!(normalize_time(i128::MAX), u64::MAX);
}

#[test]
fn mouse_move_scenario_converts_exactly() {
    let occurrence = native(
        NativeEventType::MouseMove {
            x_bits: (120.5f64).to_bits(),
            y_bits: (64.0f64).to_bits(),
        },
        1500,
    );
    let envelope = from_native(occurrence);
    assert_eq!(envelope.event_type, EventTypeValue::MouseMove);
    let payload = envelope.mouse_move.expect("mouse_move payload must be present");
    assert_eq!(f64::from_bits(payload.x_bits), 120.5);
    assert_eq!(f64::from_bits(payload.y_bits), 64.0);
    assert_eq!(envelope.time, 1500);
    assert!(envelope.key_press.is_none());
    assert!(envelope.key_release.is_none());
    assert!(envelope.button_press.is_none());
    assert!(envelope.button_release.is_none());
    assert!(envelope.wheel.is_none());
}

#[test]
fn wheel_scenario_converts_exactly() {
    let mut envelope = hollow(EventTypeValue::Wheel, 2000);
    envelope.wheel = Some(WheelEvent { delta_x: 0, delta_y: -3 });
    let back = to_native(envelope).expect("well-formed envelope must convert");
    assert_eq!(back.event_type, NativeEventType::Wheel { delta_x: 0, delta_y: -3 });
    assert_eq!(back.time_ms, 2000);
}

#[test]
fn source_label_is_carried_through_unchanged() {
    let occurrence = NativeEvent {
        event_type: NativeEventType::KeyPress(NativeKey::KeyA),
        name: Some(String::from("editor")),
        time_ms: 7,
    };
    let envelope = from_native(occurrence);
    assert_eq!(envelope.name, Some(String::from("editor")));
    let back = to_native(envelope).expect("well-formed envelope must convert");
    assert_eq!(back.name, Some(String::from("editor")));
}

#[test]
fn uncovered_key_arrives_as_unknown_data_not_an_error() {
    let envelope = from_native(native(NativeEventType::KeyPress(NativeKey::Kp5), 0));
    assert_eq!(
        envelope.key_press,
        Some(KeyPressEvent { key: KeyCode::Unknown })
    );
}
