//! The read-only properties that the daemon exposes on D-Bus, and which of them an
//! update announces.
//!
//! The interface `org.sbchild.LaptopSensorDaemon` exposes `TabletMode` (a boolean,
//! `false` before any reading), `Orientation` and `Tilt` (strings, `"undefined"`
//! before any reading) and `LightLevel` (a double in lux, `0.0` before any reading).
//! The proximity reading is kept in the state but not exposed. A
//! `PropertiesChanged` signal carries only the properties whose value really changed.

use vstd::prelude::*;
use crate::event::{DeviceEvent, DeviceState, Readings};

verus! {

/// A property of the daemon's D-Bus interface.
#[derive(Debug, Clone, Copy, PartialEq, Eq, Structural)]
pub enum ServiceProperty {
    TabletMode,
    Orientation,
    Tilt,
    LightLevel,
}

/// The text that `Orientation` and `Tilt` show before any reading arrived.
pub open spec fn undefined_text() -> Seq<char> {
    "undefined"@
}

/// The value of `TabletMode` for these readings.
pub open spec fn exposed_tablet_mode(r: Readings) -> bool {
    match r.tablet_mode {
        Some(b) => b,
        None => false,
    }
}

/// The value of `Orientation` for these readings.
pub open spec fn exposed_orientation(r: Readings) -> Seq<char> {
    match r.orientation {
        Some(s) => s,
        None => undefined_text(),
    }
}

/// The value of `Tilt` for these readings.
pub open spec fn exposed_tilt(r: Readings) -> Seq<char> {
    match r.tilt {
        Some(s) => s,
        None => undefined_text(),
    }
}

/// The value of `LightLevel` for these readings, by its IEEE-754 bit pattern; the
/// bit pattern `0` is the double `0.0`.
pub open spec fn exposed_light_level(r: Readings) -> u64 {
    match r.light_level {
        Some(bits) => bits,
        None => 0,
    }
}

/// Whether the value of property `p` differs between `before` and `after`.
pub open spec fn property_changed(p: ServiceProperty, before: Readings, after: Readings) -> bool {
    match p {
        ServiceProperty::TabletMode => exposed_tablet_mode(before) != exposed_tablet_mode(after),
        ServiceProperty::Orientation => exposed_orientation(before) != exposed_orientation(after),
        ServiceProperty::Tilt => exposed_tilt(before) != exposed_tilt(after),
        ServiceProperty::LightLevel => exposed_light_level(before) != exposed_light_level(after),
    }
}

/// The properties whose value differs between `before` and `after`, in the order
/// `TabletMode`, `Orientation`, `Tilt`, `LightLevel`.
pub open spec fn announced(before: Readings, after: Readings) -> Seq<ServiceProperty> {
    let s0 = if property_changed(ServiceProperty::TabletMode, before, after) {
        seq![ServiceProperty::TabletMode]
    } else {
        Seq::empty()
    };
    let s1 = if property_changed(ServiceProperty::Orientation, before, after) {
        s0.push(ServiceProperty::Orientation)
    } else {
        s0
    };
    let s2 = if property_changed(ServiceProperty::Tilt, before, after) {
        s1.push(ServiceProperty::Tilt)
    } else {
        s1
    };
    if property_changed(ServiceProperty::LightLevel, before, after) {
        s2.push(ServiceProperty::LightLevel)
    } else {
        s2
    }
}

impl DeviceState {
    /// The value of the `TabletMode` property: the tablet-mode reading, or `false`.
    pub fn tablet_mode_property(&self) -> (b: bool)
        ensures
            b == exposed_tablet_mode(self@),
    {
        match self.tablet_mode {
            Some(b) => b,
            None => false,
        }
    }

    /// The value of the `Orientation` property: the orientation reading, or
    /// `"undefined"`.
    pub fn orientation_property(&self) -> (s: String)
        ensures
            s@ == exposed_orientation(self@),
    {
        match &self.orientation {
            Some(s) => s.clone(),
            None => "undefined".to_owned(),
        }
    }

    /// The value of the `Tilt` property: the tilt reading, or `"undefined"`.
    pub fn tilt_property(&self) -> (s: String)
        ensures
            s@ == exposed_tilt(self@),
    {
        match &self.tilt {
            Some(s) => s.clone(),
            None => "undefined".to_owned(),
        }
    }

    /// The value of the `LightLevel` property by its bit pattern: the light reading,
    /// or `0`, the bit pattern of `0.0`.
    pub fn light_level_property(&self) -> (bits: u64)
        ensures
            bits == exposed_light_level(self@),
    {
        match self.light_level {
            Some(bits) => bits,
            None => 0,
        }
    }
}

/// Applies `event` to the exposed state and returns the properties to announce in a
/// `PropertiesChanged` signal: those whose value the event changed.
pub fn notify_and_update(state: &mut DeviceState, event: &DeviceEvent) -> (changed: Vec<
    ServiceProperty,
>)
    ensures
        final(state)@ == old(state)@.overlay(event@),
        changed@ == announced(old(state)@, final(state)@),
{
    let tablet_before = state.tablet_mode_property();
    let orientation_before = state.orientation_property();
    let tilt_before = state.tilt_property();
    let light_before: u64 = state.light_level_property();

    state.apply_event(event);

    let mut changed: Vec<ServiceProperty> = Vec::new();
    if state.tablet_mode_property() != tablet_before {
        changed.push(ServiceProperty::TabletMode);
    }
    if state.orientation_property() != orientation_before {
        changed.push(ServiceProperty::Orientation);
    }
    if state.tilt_property() != tilt_before {
        changed.push(ServiceProperty::Tilt);
    }
    if state.light_level_property() != light_before {
        changed.push(ServiceProperty::LightLevel);
    }
    changed
}

/// A property is announced exactly when its value changed, and at most once.
pub proof fn lemma_announced_iff_changed(before: Readings, after: Readings, p: ServiceProperty)
    ensures
        announced(before, after).contains(p) <==> property_changed(p, before, after),
        announced(before, after).no_duplicates(),
{
    broadcast use vstd::seq_lib::lemma_seq_contains_after_push;

    let e: Seq<ServiceProperty> = Seq::empty();
    assert(!e.contains(p));
    assert(seq![ServiceProperty::TabletMode] == e.push(ServiceProperty::TabletMode));
}

/// Applying an event a second time announces nothing.
pub proof fn lemma_repeated_event_announces_nothing(state: Readings, event: Readings)
    ensures
        announced(state.overlay(event), state.overlay(event).overlay(event)) == Seq::<ServiceProperty>::empty(),
{
}

/// An event that carries no exposed reading (at most a proximity reading) announces
/// nothing.
pub proof fn lemma_unexposed_event_announces_nothing(state: Readings, event: Readings)
    requires
        event.tablet_mode is None,
        event.orientation is None,
        event.tilt is None,
        event.light_level is None,
    ensures
        announced(state, state.overlay(event)) == Seq::<ServiceProperty>::empty(),
{
}

/// After an update, each exposed property shows the reading that the event carried,
/// where it carried one.
pub proof fn lemma_exposed_after_update(state: Readings, event: Readings)
    ensures
        event.tablet_mode matches Some(b) ==> exposed_tablet_mode(state.overlay(event)) == b,
        event.orientation matches Some(s) ==> exposed_orientation(state.overlay(event)) == s,
        event.tilt matches Some(s) ==> exposed_tilt(state.overlay(event)) == s,
        event.light_level matches Some(bits) ==> exposed_light_level(state.overlay(event)) == bits,
{
}

/// `TabletMode` is announced exactly when the value a client reads for it changes:
/// entering tablet mode (`false` to `true`) and leaving it (`true` to `false`) alike.
pub proof fn lemma_tablet_mode_announced_iff_value_changes(before: Readings, after: Readings)
    ensures
        announced(before, after).contains(ServiceProperty::TabletMode) <==> before.tablet_mode.unwrap_or(false)
            != after.tablet_mode.unwrap_or(false),
{
    broadcast use vstd::seq_lib::lemma_seq_contains_after_push;

    let e: Seq<ServiceProperty> = Seq::empty();
    assert(!e.contains(ServiceProperty::TabletMode));
    assert(seq![ServiceProperty::TabletMode] == e.push(ServiceProperty::TabletMode));
}

/// `Orientation`, `Tilt` and `LightLevel` are each announced exactly when the value
/// a client reads for it changes, where an absent reading reads as `"undefined"`,
/// `"undefined"` and `0.0` (bit pattern `0`).
pub proof fn lemma_other_properties_announced_iff_value_changes(before: Readings, after: Readings)
    ensures
        announced(before, after).contains(ServiceProperty::Orientation) <==> before.orientation.unwrap_or(
            "undefined"@,
        ) != after.orientation.unwrap_or("undefined"@),
        announced(before, after).contains(ServiceProperty::Tilt) <==> before.tilt.unwrap_or(
            "undefined"@,
        ) != after.tilt.unwrap_or("undefined"@),
        announced(before, after).contains(ServiceProperty::LightLevel) <==> before.light_level.unwrap_or(
            0u64,
        ) != after.light_level.unwrap_or(0u64),
{
    broadcast use vstd::seq_lib::lemma_seq_contains_after_push;

    let e: Seq<ServiceProperty> = Seq::empty();
    assert(!e.contains(ServiceProperty::Orientation));
    assert(!e.contains(ServiceProperty::Tilt));
    assert(!e.contains(ServiceProperty::LightLevel));
    assert(seq![ServiceProperty::TabletMode] == e.push(ServiceProperty::TabletMode));
}

/// The values clients read: each reading where there is one, else `false` for
/// `TabletMode`, `"undefined"` for `Orientation` and `Tilt`, and `0.0` (bit pattern
/// `0`) for `LightLevel`.
pub proof fn lemma_exposed_values(r: Readings)
    ensures
        exposed_tablet_mode(r) == r.tablet_mode.unwrap_or(false),
        exposed_orientation(r) == r.orientation.unwrap_or("undefined"@),
        exposed_tilt(r) == r.tilt.unwrap_or("undefined"@),
        exposed_light_level(r) == r.light_level.unwrap_or(0u64),
{
}

} // verus!
