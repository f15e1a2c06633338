use laptop_sensor_daemon::event::{DeviceEvent, DeviceState, PropertyValue, SystemEvent};
use laptop_sensor_daemon::event::parse_system_event;
use laptop_sensor_daemon::processor::process_system_event;
use laptop_sensor_daemon::service::{notify_and_update, ServiceProperty};

#[test]
fn properties_before_any_reading() {
    let state = DeviceState::new();
    assert_eq!(state.tablet_mode_property(), false);
    assert_eq!(state.orientation_property(), "undefined");
    assert_eq!(state.tilt_property(), "undefined");
    assert_eq!(f64::from_bits(state.light_level_property()), 0.0);
}

#[test]
fn properties_show_readings() {
    let mut state = DeviceState::new();
    state.tablet_mode = Some(true);
    state.orientation = Some("bottom-up".to_string());
    state.tilt = Some("face-up".to_string());
    state.light_level = Some(401.5f64.to_bits());
    assert_eq!(state.tablet_mode_property(), true);
    assert_eq!(state.orientation_property(), "bottom-up");
    assert_eq!(state.tilt_property(), "face-up");
    assert_eq!(f64::from_bits(state.light_level_property()), 401.5);
}

#[test]
fn update_announces_changed_properties_in_order() {
    let mut state = DeviceState::new();
    let mut event = DeviceEvent::new();
    event.light_level = Some(3.0f64.to_bits());
    event.tablet_mode = Some(true);
    event.orientation = Some("left-up".to_string());
    let changed = notify_and_update(&mut state, &event);
    assert_eq!(
        changed,
        vec![ServiceProperty::TabletMode, ServiceProperty::Orientation, ServiceProperty::LightLevel]
    );
    assert_eq!(state.orientation, Some("left-up".to_string()));
}

#[test]
fn repeated_update_announces_nothing() {
    let mut state = DeviceState::new();
    let mut event = DeviceEvent::new();
    event.tilt = Some("normal".to_string());
    assert_eq!(notify_and_update(&mut state, &event), vec![ServiceProperty::Tilt]);
    assert_eq!(notify_and_update(&mut state, &event), vec![]);
}

#[test]
fn reading_equal_to_default_announces_nothing() {
    let mut state = DeviceState::new();
    let mut event = DeviceEvent::new();
    event.tablet_mode = Some(false);
    event.orientation = Some("undefined".to_string());
    assert_eq!(notify_and_update(&mut state, &event), vec![]);
    assert_eq!(state.tablet_mode, Some(false));
}

#[test]
fn proximity_is_never_announced() {
    let mut state = DeviceState::new();
    let mut event = DeviceEvent::new();
    event.proximity_near = Some(true);
    assert_eq!(notify_and_update(&mut state, &event), vec![]);
    assert_eq!(state.proximity_near, Some(true));
}

#[test]
fn processor_publishes_state_and_broadcasts_to_subscribers() {
    let mut state = DeviceState::new();
    let out = process_system_event(&mut state, SystemEvent::TabletMode(true), 2).unwrap();
    assert_eq!(out.state, state);
    assert_eq!(state.tablet_mode, Some(true));
    assert!(out.broadcast);
    assert_eq!(out.event.tablet_mode, Some(true));
    assert_eq!(out.event.orientation, None);
}

#[test]
fn processor_without_subscribers_does_not_broadcast() {
    let mut state = DeviceState::new();
    let sys = SystemEvent::SensorProperty {
        name: "AccelerometerOrientation".to_string(),
        value: PropertyValue::Text("right-up".to_string()),
    };
    let out = process_system_event(&mut state, sys, 0).unwrap();
    assert!(!out.broadcast);
    assert_eq!(out.event.orientation, Some("right-up".to_string()));
    assert_eq!(out.state.orientation, Some("right-up".to_string()));
}

#[test]
fn processor_ignores_unrecognized_notifications() {
    let mut state = DeviceState::new();
    state.tilt = Some("normal".to_string());
    let before = state.snapshot();
    let sys = SystemEvent::SensorProperty {
        name: "HasAmbientLight".to_string(),
        value: PropertyValue::Flag(true),
    };
    assert!(process_system_event(&mut state, sys, 5).is_none());
    assert_eq!(state, before);
}

fn sample_notifications() -> Vec<SystemEvent> {
    vec![
        SystemEvent::TabletMode(true),
        SystemEvent::SensorProperty {
            name: "AccelerometerOrientation".to_string(),
            value: PropertyValue::Text("left-up".to_string()),
        },
        SystemEvent::SensorProperty {
            name: "HasAccelerometer".to_string(),
            value: PropertyValue::Flag(true),
        },
        SystemEvent::SensorProperty {
            name: "LightLevel".to_string(),
            value: PropertyValue::Number(12.5f64.to_bits()),
        },
        SystemEvent::TabletMode(false),
        SystemEvent::SensorProperty {
            name: "AccelerometerOrientation".to_string(),
            value: PropertyValue::Text("normal".to_string()),
        },
    ]
}

#[test]
fn processor_run_state_is_replay_of_parsed_events() {
    let mut state = DeviceState::default();
    let mut last_published = None;
    for sys in sample_notifications() {
        if let Some(out) = process_system_event(&mut state, sys, 1) {
            last_published = Some(out.state);
        }
    }
    let mut expected = DeviceState::default();
    for sys in sample_notifications() {
        if let Some(e) = parse_system_event(sys) {
            expected.apply_event(&e);
        }
    }
    assert_eq!(state, expected);
    assert_eq!(last_published, Some(expected));
    assert_eq!(state.tablet_mode, Some(false));
    assert_eq!(state.orientation, Some("normal".to_string()));
    assert_eq!(state.light_level, Some(12.5f64.to_bits()));
}

#[test]
fn processor_run_broadcasts_parsed_events_in_order() {
    let mut state = DeviceState::default();
    let mut broadcast = Vec::new();
    for sys in sample_notifications() {
        if let Some(out) = process_system_event(&mut state, sys, 1) {
            if out.broadcast {
                broadcast.push(out.event);
            }
        }
    }
    let expected: Vec<DeviceEvent> =
        sample_notifications().into_iter().filter_map(parse_system_event).collect();
    assert_eq!(broadcast.len(), 5);
    assert_eq!(broadcast, expected);
}

#[test]
fn catching_up_with_later_state() {
    let mut served = DeviceState::default();
    served.tilt = Some("normal".to_string());
    let mut latest = served.snapshot();
    let mut missed = DeviceEvent::new();
    missed.orientation = Some("bottom-up".to_string());
    missed.tablet_mode = Some(true);
    latest.apply_event(&missed);
    let changed = notify_and_update(&mut served, &latest.to_event());
    assert_eq!(served, latest);
    assert_eq!(changed, vec![ServiceProperty::TabletMode, ServiceProperty::Orientation]);
}
