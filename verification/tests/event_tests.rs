use laptop_sensor_daemon::event::{
    apply_dbus_value_to_event, parse_system_event, DeviceEvent, DeviceState, PropertyValue,
    SystemEvent,
};

fn property(name: &str, value: PropertyValue) -> SystemEvent {
    SystemEvent::SensorProperty { name: name.to_string(), value }
}

#[test]
fn tablet_mode_switch_always_gives_an_event() {
    let e = parse_system_event(SystemEvent::TabletMode(true)).unwrap();
    assert_eq!(e.tablet_mode, Some(true));
    assert_eq!(e.orientation, None);
    assert_eq!(e.tilt, None);
    assert_eq!(e.light_level, None);
    assert_eq!(e.proximity_near, None);
    let e = parse_system_event(SystemEvent::TabletMode(false)).unwrap();
    assert_eq!(e.tablet_mode, Some(false));
}

#[test]
fn orientation_property_gives_orientation() {
    let e = parse_system_event(property(
        "AccelerometerOrientation",
        PropertyValue::Text("left-up".to_string()),
    ))
    .unwrap();
    assert_eq!(e.orientation, Some("left-up".to_string()));
    assert_eq!(e.tilt, None);
    assert_eq!(e.tablet_mode, None);
}

#[test]
fn tilt_property_gives_tilt() {
    let e = parse_system_event(property(
        "AccelerometerTilt",
        PropertyValue::Text("face-up".to_string()),
    ))
    .unwrap();
    assert_eq!(e.tilt, Some("face-up".to_string()));
    assert_eq!(e.orientation, None);
}

#[test]
fn light_level_property_gives_light_level() {
    let bits = 401.5f64.to_bits();
    let e = parse_system_event(property("LightLevel", PropertyValue::Number(bits))).unwrap();
    assert_eq!(e.light_level, Some(bits));
    assert_eq!(f64::from_bits(e.light_level.unwrap()), 401.5);
}

#[test]
fn proximity_property_gives_proximity() {
    let e = parse_system_event(property("ProximityNear", PropertyValue::Flag(true))).unwrap();
    assert_eq!(e.proximity_near, Some(true));
}

#[test]
fn mistyped_or_unknown_property_gives_nothing() {
    assert!(parse_system_event(property("LightLevel", PropertyValue::Flag(true))).is_none());
    assert!(parse_system_event(property(
        "AccelerometerOrientation",
        PropertyValue::Number(3)
    ))
    .is_none());
    assert!(parse_system_event(property("ProximityNear", PropertyValue::Other)).is_none());
    assert!(parse_system_event(property("HasAccelerometer", PropertyValue::Flag(true))).is_none());
    assert!(parse_system_event(property("lightlevel", PropertyValue::Number(1))).is_none());
}

#[test]
fn apply_event_overwrites_only_carried_readings() {
    let mut state = DeviceState::new();
    state.tablet_mode = Some(false);
    state.orientation = Some("normal".to_string());
    state.light_level = Some(10.0f64.to_bits());
    let mut event = DeviceEvent::new();
    event.orientation = Some("bottom-up".to_string());
    event.proximity_near = Some(true);
    state.apply_event(&event);
    assert_eq!(state.tablet_mode, Some(false));
    assert_eq!(state.orientation, Some("bottom-up".to_string()));
    assert_eq!(state.tilt, None);
    assert_eq!(state.light_level, Some(10.0f64.to_bits()));
    assert_eq!(state.proximity_near, Some(true));
}

#[test]
fn apply_event_twice_is_apply_once() {
    let mut event = DeviceEvent::new();
    event.tilt = Some("tilted-down".to_string());
    event.tablet_mode = Some(true);
    let mut once = DeviceState::new();
    once.apply_event(&event);
    let mut twice = once.snapshot();
    twice.apply_event(&event);
    assert_eq!(once, twice);
}

#[test]
fn later_event_wins() {
    let mut first = DeviceEvent::new();
    first.orientation = Some("left-up".to_string());
    first.tablet_mode = Some(true);
    let mut second = DeviceEvent::new();
    second.orientation = Some("right-up".to_string());
    let mut state = DeviceState::default();
    state.apply_event(&first);
    state.apply_event(&second);
    assert_eq!(state.orientation, Some("right-up".to_string()));
    assert_eq!(state.tablet_mode, Some(true));
}

#[test]
fn apply_value_writes_known_properties() {
    let mut event = DeviceEvent::default();
    apply_dbus_value_to_event("AccelerometerTilt", &PropertyValue::Text("normal".to_string()), &mut event);
    apply_dbus_value_to_event("LightLevel", &PropertyValue::Number(0.25f64.to_bits()), &mut event);
    apply_dbus_value_to_event("ProximityNear", &PropertyValue::Flag(false), &mut event);
    apply_dbus_value_to_event(
        "AccelerometerOrientation",
        &PropertyValue::Text("normal".to_string()),
        &mut event,
    );
    assert_eq!(event.tilt, Some("normal".to_string()));
    assert_eq!(event.light_level, Some(0.25f64.to_bits()));
    assert_eq!(event.proximity_near, Some(false));
    assert_eq!(event.orientation, Some("normal".to_string()));
    assert_eq!(event.tablet_mode, None);
}

#[test]
fn apply_value_ignores_unknown_or_mistyped() {
    let mut event = DeviceEvent::default();
    event.tilt = Some("face-up".to_string());
    let before = event.duplicate();
    apply_dbus_value_to_event("AccelerometerTilt", &PropertyValue::Flag(true), &mut event);
    apply_dbus_value_to_event("HasProximity", &PropertyValue::Flag(true), &mut event);
    apply_dbus_value_to_event("LightLevel", &PropertyValue::Text("1".to_string()), &mut event);
    apply_dbus_value_to_event("ProximityNear", &PropertyValue::Other, &mut event);
    assert_eq!(event, before);
}

#[test]
fn parse_agrees_with_apply_value() {
    let cases = vec![
        ("AccelerometerOrientation", PropertyValue::Text("normal".to_string())),
        ("LightLevel", PropertyValue::Number(7)),
        ("LightLevel", PropertyValue::Text("7".to_string())),
        ("Unknown", PropertyValue::Flag(true)),
    ];
    for (name, value) in cases {
        let mut written = DeviceEvent::default();
        apply_dbus_value_to_event(name, &value, &mut written);
        let parsed = parse_system_event(property(name, value));
        if written == DeviceEvent::default() {
            assert!(parsed.is_none());
        } else {
            assert_eq!(parsed, Some(written));
        }
    }
}
