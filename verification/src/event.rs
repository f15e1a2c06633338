//! Device events and the device state they update.
//!
//! A light level is a double in lux. This library never computes with it: it only
//! stores and forwards it, so it is held here by its IEEE-754 bit pattern
//! (`f64::to_bits`), which callers turn back into a double with `f64::from_bits`.

use vstd::prelude::*;
use crate::text::str_eq;

verus! {

/// A sensor property value, as far as the event logic reads it.
///
/// A D-Bus variant converts to a string only when it holds a string, to a boolean
/// only when it holds a boolean and to a double only when it holds a double, so a
/// value is at most one of these; any other variant is `Other`.
#[derive(Debug, Clone, PartialEq)]
pub enum PropertyValue {
    Text(String),
    Flag(bool),
    /// A double, by its IEEE-754 bit pattern.
    Number(u64),
    Other,
}

/// A raw notification from one of the daemon's sources.
#[derive(Debug, Clone, PartialEq)]
pub enum SystemEvent {
    /// The tablet-mode switch reported a position (`true`: tablet mode).
    TabletMode(bool),
    /// The sensor proxy reported a property value.
    SensorProperty { name: String, value: PropertyValue },
}

/// The current readings of the device; `None` where no reading arrived yet.
#[derive(Debug, Clone, PartialEq)]
pub struct DeviceState {
    pub tablet_mode: Option<bool>,
    pub orientation: Option<String>,
    pub tilt: Option<String>,
    /// Light level in lux, by its IEEE-754 bit pattern.
    pub light_level: Option<u64>,
    pub proximity_near: Option<bool>,
}

/// A set of new readings; `None` where the event carries no reading.
#[derive(Debug, Clone, PartialEq)]
pub struct DeviceEvent {
    pub tablet_mode: Option<bool>,
    pub orientation: Option<String>,
    pub tilt: Option<String>,
    /// Light level in lux, by its IEEE-754 bit pattern.
    pub light_level: Option<u64>,
    pub proximity_near: Option<bool>,
}

/// The mathematical model of both a device state and a device event.
pub struct Readings {
    pub tablet_mode: Option<bool>,
    pub orientation: Option<Seq<char>>,
    pub tilt: Option<Seq<char>>,
    pub light_level: Option<u64>,
    pub proximity_near: Option<bool>,
}

pub open spec fn opt_text(o: Option<String>) -> Option<Seq<char>> {
    match o {
        Some(s) => Some(s@),
        None => None,
    }
}

/// `top` where it holds a value, else `base`.
pub open spec fn prefer<T>(base: Option<T>, top: Option<T>) -> Option<T> {
    match top {
        Some(v) => Some(v),
        None => base,
    }
}

impl Readings {
    /// No readings at all.
    pub open spec fn empty() -> Readings {
        Readings {
            tablet_mode: None,
            orientation: None,
            tilt: None,
            light_level: None,
            proximity_near: None,
        }
    }

    /// These readings updated by `event`: each reading the event carries replaces
    /// the old one, every other reading stays.
    pub open spec fn overlay(self, event: Readings) -> Readings {
        Readings {
            tablet_mode: prefer(self.tablet_mode, event.tablet_mode),
            orientation: prefer(self.orientation, event.orientation),
            tilt: prefer(self.tilt, event.tilt),
            light_level: prefer(self.light_level, event.light_level),
            proximity_near: prefer(self.proximity_near, event.proximity_near),
        }
    }

    /// How many readings are present.
    pub open spec fn count(self) -> nat {
        (if self.tablet_mode is Some { 1nat } else { 0nat })
            + (if self.orientation is Some { 1nat } else { 0nat })
            + (if self.tilt is Some { 1nat } else { 0nat })
            + (if self.light_level is Some { 1nat } else { 0nat })
            + (if self.proximity_near is Some { 1nat } else { 0nat })
    }
}

impl View for DeviceState {
    type V = Readings;

    open spec fn view(&self) -> Readings {
        Readings {
            tablet_mode: self.tablet_mode,
            orientation: opt_text(self.orientation),
            tilt: opt_text(self.tilt),
            light_level: self.light_level,
            proximity_near: self.proximity_near,
        }
    }
}

impl View for DeviceEvent {
    type V = Readings;

    open spec fn view(&self) -> Readings {
        Readings {
            tablet_mode: self.tablet_mode,
            orientation: opt_text(self.orientation),
            tilt: opt_text(self.tilt),
            light_level: self.light_level,
            proximity_near: self.proximity_near,
        }
    }
}

/// Name of the sensor-proxy property holding the screen orientation.
pub open spec fn orientation_key() -> Seq<char> {
    "AccelerometerOrientation"@
}

/// Name of the sensor-proxy property holding the tilt.
pub open spec fn tilt_key() -> Seq<char> {
    "AccelerometerTilt"@
}

/// Name of the sensor-proxy property holding the ambient light level.
pub open spec fn light_level_key() -> Seq<char> {
    "LightLevel"@
}

/// Name of the sensor-proxy property holding the proximity reading.
pub open spec fn proximity_key() -> Seq<char> {
    "ProximityNear"@
}

/// Whether a sensor property becomes a reading: the name is one of the four known
/// properties and the value has the type that property carries.
pub open spec fn property_recognized(key: Seq<char>, value: PropertyValue) -> bool {
    if key == orientation_key() {
        value is Text
    } else if key == tilt_key() {
        value is Text
    } else if key == light_level_key() {
        value is Number
    } else if key == proximity_key() {
        value is Flag
    } else {
        false
    }
}

/// `event` with the reading that a sensor property gives, where it gives one.
pub open spec fn with_property(key: Seq<char>, value: PropertyValue, event: Readings) -> Readings {
    if key == orientation_key() {
        match value {
            PropertyValue::Text(s) => Readings { orientation: Some(s@), ..event },
            _ => event,
        }
    } else if key == tilt_key() {
        match value {
            PropertyValue::Text(s) => Readings { tilt: Some(s@), ..event },
            _ => event,
        }
    } else if key == light_level_key() {
        match value {
            PropertyValue::Number(bits) => Readings { light_level: Some(bits), ..event },
            _ => event,
        }
    } else if key == proximity_key() {
        match value {
            PropertyValue::Flag(b) => Readings { proximity_near: Some(b), ..event },
            _ => event,
        }
    } else {
        event
    }
}

/// The device event a raw notification gives, if any.
pub open spec fn parsed_event(sys_event: SystemEvent) -> Option<Readings> {
    match sys_event {
        SystemEvent::TabletMode(b) => Some(Readings { tablet_mode: Some(b), ..Readings::empty() }),
        SystemEvent::SensorProperty { name, value } => {
            if property_recognized(name@, value) {
                Some(with_property(name@, value, Readings::empty()))
            } else {
                None
            }
        },
    }
}

pub open spec fn opt_readings(e: Option<DeviceEvent>) -> Option<Readings> {
    match e {
        Some(ev) => Some(ev@),
        None => None,
    }
}

fn copy_text(o: &Option<String>) -> (r: Option<String>)
    ensures
        opt_text(r) == opt_text(*o),
{
    match o {
        Some(s) => Some(s.clone()),
        None => None,
    }
}

impl DeviceState {
    /// A state with no readings.
    pub fn new() -> (s: DeviceState)
        ensures
            s@ == Readings::empty(),
    {
        DeviceState {
            tablet_mode: None,
            orientation: None,
            tilt: None,
            light_level: None,
            proximity_near: None,
        }
    }

    /// A copy of this state.
    pub fn snapshot(&self) -> (s: DeviceState)
        ensures
            s@ == self@,
    {
        DeviceState {
            tablet_mode: self.tablet_mode,
            orientation: copy_text(&self.orientation),
            tilt: copy_text(&self.tilt),
            light_level: self.light_level,
            proximity_near: self.proximity_near,
        }
    }

    /// An event carrying every reading of this state.
    pub fn to_event(&self) -> (e: DeviceEvent)
        ensures
            e@ == self@,
    {
        DeviceEvent {
            tablet_mode: self.tablet_mode,
            orientation: copy_text(&self.orientation),
            tilt: copy_text(&self.tilt),
            light_level: self.light_level,
            proximity_near: self.proximity_near,
        }
    }

    /// Takes every reading that `event` carries; keeps the others.
    pub fn apply_event(&mut self, event: &DeviceEvent)
        ensures
            final(self)@ == old(self)@.overlay(event@),
    {
        if let Some(v) = event.tablet_mode {
            self.tablet_mode = Some(v);
        }
        if let Some(v) = &event.orientation {
            self.orientation = Some(v.clone());
        }
        if let Some(v) = &event.tilt {
            self.tilt = Some(v.clone());
        }
        if let Some(v) = event.light_level {
            self.light_level = Some(v);
        }
        if let Some(v) = event.proximity_near {
            self.proximity_near = Some(v);
        }
    }
}

impl Default for DeviceState {
    fn default() -> (s: DeviceState)
        ensures
            s@ == Readings::empty(),
    {
        DeviceState::new()
    }
}

impl DeviceEvent {
    /// An event with no readings.
    pub fn new() -> (e: DeviceEvent)
        ensures
            e@ == Readings::empty(),
    {
        DeviceEvent {
            tablet_mode: None,
            orientation: None,
            tilt: None,
            light_level: None,
            proximity_near: None,
        }
    }

    /// A copy of this event.
    pub fn duplicate(&self) -> (e: DeviceEvent)
        ensures
            e@ == self@,
    {
        DeviceEvent {
            tablet_mode: self.tablet_mode,
            orientation: copy_text(&self.orientation),
            tilt: copy_text(&self.tilt),
            light_level: self.light_level,
            proximity_near: self.proximity_near,
        }
    }
}

impl Default for DeviceEvent {
    fn default() -> (e: DeviceEvent)
        ensures
            e@ == Readings::empty(),
    {
        DeviceEvent::new()
    }
}

/// Turns a raw notification into a device event.
///
/// A tablet-mode switch position always gives an event carrying that position. A
/// sensor property gives an event carrying its single reading when the property is
/// one of `AccelerometerOrientation`, `AccelerometerTilt` (strings), `LightLevel`
/// (a double) or `ProximityNear` (a boolean) and its value has that type; any other
/// property, or a value of another type, gives `None`.
pub fn parse_system_event(sys_event: SystemEvent) -> (r: Option<DeviceEvent>)
    ensures
        opt_readings(r) == parsed_event(sys_event),
{
    let mut event = DeviceEvent::default();
    let mut has_changes: bool = false;

    match sys_event {
        SystemEvent::TabletMode(is_tablet) => {
            event.tablet_mode = Some(is_tablet);
            has_changes = true;
        },
        SystemEvent::SensorProperty { name, value } => {
            let key = name.as_str();
            if str_eq(key, "AccelerometerOrientation") {
                if let PropertyValue::Text(s) = value {
                    event.orientation = Some(s);
                    has_changes = true;
                }
            } else if str_eq(key, "AccelerometerTilt") {
                if let PropertyValue::Text(s) = value {
                    event.tilt = Some(s);
                    has_changes = true;
                }
            } else if str_eq(key, "LightLevel") {
                if let PropertyValue::Number(v) = value {
                    event.light_level = Some(v);
                    has_changes = true;
                }
            } else if str_eq(key, "ProximityNear") {
                if let PropertyValue::Flag(v) = value {
                    event.proximity_near = Some(v);
                    has_changes = true;
                }
            }
        },
    }

    if has_changes {
        Some(event)
    } else {
        None
    }
}

/// Writes into `event` the reading that the sensor property `key` with `value`
/// gives: `AccelerometerOrientation` and `AccelerometerTilt` take a string,
/// `LightLevel` a double, `ProximityNear` a boolean. An unknown name, or a value of
/// another type, leaves `event` as it was.
pub fn apply_dbus_value_to_event(key: &str, value: &PropertyValue, event: &mut DeviceEvent)
    ensures
        final(event)@ == with_property(key@, *value, old(event)@),
{
    if str_eq(key, "AccelerometerOrientation") {
        if let PropertyValue::Text(s) = value {
            event.orientation = Some(s.clone());
        }
    } else if str_eq(key, "AccelerometerTilt") {
        if let PropertyValue::Text(s) = value {
            event.tilt = Some(s.clone());
        }
    } else if str_eq(key, "LightLevel") {
        if let PropertyValue::Number(v) = value {
            event.light_level = Some(*v);
        }
    } else if str_eq(key, "ProximityNear") {
        if let PropertyValue::Flag(v) = value {
            event.proximity_near = Some(*v);
        }
    }
}

/// Applying the same event twice leaves the state as applying it once.
pub proof fn lemma_apply_event_idempotent(state: Readings, event: Readings)
    ensures
        state.overlay(event).overlay(event) == state.overlay(event),
{
}

/// Applying one event and then another equals applying once the first event
/// updated by the second: of two readings of the same kind, the later one wins.
pub proof fn lemma_apply_events_compose(state: Readings, first: Readings, second: Readings)
    ensures
        state.overlay(first).overlay(second) == state.overlay(first.overlay(second)),
{
}

/// A state that missed some events catches up by applying, as one event, a later
/// state that those events produced from it.
pub proof fn lemma_catch_up_with_later_state(state: Readings, missed: Readings)
    ensures
        state.overlay(state.overlay(missed)) == state.overlay(missed),
{
}

/// Applying an event without readings changes nothing.
pub proof fn lemma_apply_empty_event(state: Readings)
    ensures
        state.overlay(Readings::empty()) == state,
{
}

/// Every event that a raw notification gives carries exactly one reading.
pub proof fn lemma_parsed_event_has_one_reading(sys_event: SystemEvent)
    ensures
        parsed_event(sys_event) matches Some(r) ==> r.count() == 1,
{
}

/// A sensor property that is not recognized leaves an event as it was; a recognized
/// one changes only the reading it names.
pub proof fn lemma_unrecognized_property_is_ignored(key: Seq<char>, value: PropertyValue, event: Readings)
    ensures
        !property_recognized(key, value) ==> with_property(key, value, event) == event,
        property_recognized(key, value) ==> with_property(key, value, event) == event.overlay(
            with_property(key, value, Readings::empty()),
        ),
{
}

/// Parsing a sensor property agrees with writing it into an empty event: parsing
/// gives an event exactly when the write changes the empty event, and then gives
/// the written event.
pub proof fn lemma_parse_agrees_with_apply_value(name: String, value: PropertyValue)
    ensures
        parsed_event(SystemEvent::SensorProperty { name, value }) == (if with_property(
            name@,
            value,
            Readings::empty(),
        ) != Readings::empty() {
            Some(with_property(name@, value, Readings::empty()))
        } else {
            None::<Readings>
        }),
{
}

/// The four sensor property names are distinct.
proof fn lemma_property_names_distinct()
    ensures
        orientation_key() != tilt_key(),
        orientation_key() != light_level_key(),
        orientation_key() != proximity_key(),
        tilt_key() != light_level_key(),
        tilt_key() != proximity_key(),
        light_level_key() != proximity_key(),
{
    reveal_strlit("AccelerometerOrientation");
    reveal_strlit("AccelerometerTilt");
    reveal_strlit("LightLevel");
    reveal_strlit("ProximityNear");
    assert(orientation_key().len() == 24);
    assert(tilt_key().len() == 17);
    assert(light_level_key().len() == 10);
    assert(proximity_key().len() == 13);
}

/// Each reading that an event carries replaces the state's reading of that kind; each
/// reading the event does not carry stays as it was. This holds for all five kinds.
pub proof fn lemma_event_readings_replace_state_readings(state: Readings, event: Readings)
    ensures
        event.tablet_mode matches Some(b) ==> state.overlay(event).tablet_mode == Some(b),
        event.tablet_mode is None ==> state.overlay(event).tablet_mode == state.tablet_mode,
        event.orientation matches Some(o) ==> state.overlay(event).orientation == Some(o),
        event.orientation is None ==> state.overlay(event).orientation == state.orientation,
        event.tilt matches Some(t) ==> state.overlay(event).tilt == Some(t),
        event.tilt is None ==> state.overlay(event).tilt == state.tilt,
        event.light_level matches Some(l) ==> state.overlay(event).light_level == Some(l),
        event.light_level is None ==> state.overlay(event).light_level == state.light_level,
        event.proximity_near matches Some(p) ==> state.overlay(event).proximity_near == Some(p),
        event.proximity_near is None ==> state.overlay(event).proximity_near
            == state.proximity_near,
{
}

/// Writing a sensor property into an event: a string `AccelerometerOrientation` or
/// `AccelerometerTilt`, a double `LightLevel` or a boolean `ProximityNear` sets that
/// one reading to the value, whatever the event held before, and keeps the others.
pub proof fn lemma_write_property_sets_its_reading(text: String, bits: u64, flag: bool, event: Readings)
    ensures
        with_property("AccelerometerOrientation"@, PropertyValue::Text(text), event) == (Readings { orientation: Some(text@), ..event }),
        with_property("AccelerometerTilt"@, PropertyValue::Text(text), event) == (Readings { tilt: Some(text@), ..event }),
        with_property("LightLevel"@, PropertyValue::Number(bits), event) == (Readings { light_level: Some(bits), ..event }),
        with_property("ProximityNear"@, PropertyValue::Flag(flag), event) == (Readings { proximity_near: Some(flag), ..event }),
{
    lemma_property_names_distinct();
}

/// Writing a value of the wrong type into a known sensor property leaves the event as
/// it was.
pub proof fn lemma_write_mistyped_property_is_ignored(value: PropertyValue, event: Readings)
    ensures
        !(value is Text) ==> with_property("AccelerometerOrientation"@, value, event) == event,
        !(value is Text) ==> with_property("AccelerometerTilt"@, value, event) == event,
        !(value is Number) ==> with_property("LightLevel"@, value, event) == event,
        !(value is Flag) ==> with_property("ProximityNear"@, value, event) == event,
{
    lemma_property_names_distinct();
}

/// A tablet-mode switch position always parses to the event that carries exactly
/// that position.
pub proof fn lemma_parse_tablet_mode(b: bool)
    ensures
        parsed_event(SystemEvent::TabletMode(b)) == Some(
            Readings {
                tablet_mode: Some(b),
                orientation: None,
                tilt: None,
                light_level: None,
                proximity_near: None,
            },
        ),
{
}

/// Every string `AccelerometerOrientation` or `AccelerometerTilt` parses to the event
/// that carries exactly that orientation or tilt; any other value parses to nothing.
pub proof fn lemma_parse_text_properties(name: String, value: PropertyValue)
    ensures
        name@ == "AccelerometerOrientation"@ ==> parsed_event(
            SystemEvent::SensorProperty { name, value },
        ) == (match value {
            PropertyValue::Text(s) => Some(
                Readings {
                    tablet_mode: None,
                    orientation: Some(s@),
                    tilt: None,
                    light_level: None,
                    proximity_near: None,
                },
            ),
            _ => None,
        }),
        name@ == "AccelerometerTilt"@ ==> parsed_event(SystemEvent::SensorProperty { name, value })
            == (match value {
            PropertyValue::Text(s) => Some(
                Readings {
                    tablet_mode: None,
                    orientation: None,
                    tilt: Some(s@),
                    light_level: None,
                    proximity_near: None,
                },
            ),
            _ => None,
        }),
{
    lemma_property_names_distinct();
}

/// Every double `LightLevel`, zero included, parses to the event that carries exactly
/// that light level; any other value parses to nothing.
pub proof fn lemma_parse_light_level(name: String, value: PropertyValue)
    ensures
        name@ == "LightLevel"@ ==> parsed_event(SystemEvent::SensorProperty { name, value }) == (
        match value {
            PropertyValue::Number(bits) => Some(
                Readings {
                    tablet_mode: None,
                    orientation: None,
                    tilt: None,
                    light_level: Some(bits),
                    proximity_near: None,
                },
            ),
            _ => None,
        }),
{
    lemma_property_names_distinct();
}

/// Every boolean `ProximityNear` parses to the event that carries exactly that
/// proximity reading; any other value parses to nothing.
pub proof fn lemma_parse_proximity(name: String, value: PropertyValue)
    ensures
        name@ == "ProximityNear"@ ==> parsed_event(SystemEvent::SensorProperty { name, value })
            == (match value {
            PropertyValue::Flag(b) => Some(
                Readings {
                    tablet_mode: None,
                    orientation: None,
                    tilt: None,
                    light_level: None,
                    proximity_near: Some(b),
                },
            ),
            _ => None,
        }),
{
    lemma_property_names_distinct();
}

/// A property with any other name parses to nothing, whatever its value.
pub proof fn lemma_parse_unknown_property(name: String, value: PropertyValue)
    requires
        name@ != "AccelerometerOrientation"@,
        name@ != "AccelerometerTilt"@,
        name@ != "LightLevel"@,
        name@ != "ProximityNear"@,
    ensures
        parsed_event(SystemEvent::SensorProperty { name, value }) is None,
{
}

/// The model of a state or an event holds each of its five readings, the strings by
/// their characters.
pub proof fn lemma_views_hold_every_reading(state: DeviceState, event: DeviceEvent)
    ensures
        state@.tablet_mode == state.tablet_mode,
        state.orientation matches Some(o) ==> state@.orientation == Some(o@),
        state.orientation is None ==> state@.orientation is None,
        state.tilt matches Some(t) ==> state@.tilt == Some(t@),
        state.tilt is None ==> state@.tilt is None,
        state@.light_level == state.light_level,
        state@.proximity_near == state.proximity_near,
        event@.tablet_mode == event.tablet_mode,
        event.orientation matches Some(o) ==> event@.orientation == Some(o@),
        event.orientation is None ==> event@.orientation is None,
        event.tilt matches Some(t) ==> event@.tilt == Some(t@),
        event.tilt is None ==> event@.tilt is None,
        event@.light_level == event.light_level,
        event@.proximity_near == event.proximity_near,
{
}

} // verus!
