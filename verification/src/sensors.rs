//! Which sensors of the sensor proxy service to claim and to release.
//!
//! The sensor proxy announces its sensors through the boolean properties
//! `HasAccelerometer`, `HasAmbientLight` and `HasProximity`. The daemon claims every
//! sensor that is present, and on shutdown releases every sensor whose claim
//! succeeded.

use vstd::prelude::*;
use crate::event::PropertyValue;
use crate::text::str_eq;

verus! {

/// A sensor of the sensor proxy service.
#[derive(Debug, Clone, Copy, PartialEq, Eq, Structural)]
pub enum SensorKind {
    Accelerometer,
    AmbientLight,
    Proximity,
}

/// One flag per sensor.
#[derive(Debug, Clone, Copy, PartialEq, Eq, Structural)]
pub struct SensorSet {
    pub accelerometer: bool,
    pub ambient_light: bool,
    pub proximity: bool,
}

/// Whether index `i` of `props` holds the property named `key`.
pub open spec fn key_at(props: Seq<(String, PropertyValue)>, i: int, key: Seq<char>) -> bool {
    0 <= i < props.len() && props[i].0@ == key
}

/// Whether index `i` is the first index of `props` holding the property `key`.
pub open spec fn first_key_at(props: Seq<(String, PropertyValue)>, i: int, key: Seq<char>) -> bool {
    key_at(props, i, key) && forall|j: int| 0 <= j < i ==> !key_at(props, j, key)
}

/// The value of the property named `key`: the first entry with that name, if any.
/// In a property list with distinct names this is the value of the one entry.
pub open spec fn lookup(props: Seq<(String, PropertyValue)>, key: Seq<char>) -> Option<PropertyValue> {
    if exists|i: int| first_key_at(props, i, key) {
        Some(props[choose|i: int| first_key_at(props, i, key)].1)
    } else {
        None
    }
}

/// The boolean property named `key`; `false` when it is absent or not a boolean.
pub open spec fn flag_property(props: Seq<(String, PropertyValue)>, key: Seq<char>) -> bool {
    match lookup(props, key) {
        Some(PropertyValue::Flag(b)) => b,
        _ => false,
    }
}

/// Reads the boolean property `key` from a list of properties; `false` when no
/// property has that name or its value is not a boolean.
pub fn property_flag(props: &Vec<(String, PropertyValue)>, key: &str) -> (b: bool)
    ensures
        b == flag_property(props@, key@),
{
    let mut i: usize = 0;
    while i < props.len()
        invariant
            i <= props.len(),
            forall|j: int| 0 <= j < i ==> !key_at(props@, j, key@),
        decreases props.len() - i,
    {
        if str_eq(props[i].0.as_str(), key) {
            proof {
                assert(first_key_at(props@, i as int, key@));
                let k: int = choose|k: int| first_key_at(props@, k, key@);
                assert(k == i as int) by {
                    if k < i as int {
                        assert(!key_at(props@, k, key@));
                    } else if k > i as int {
                        assert(!key_at(props@, i as int, key@));
                    }
                }
            }
            return match &props[i].1 {
                PropertyValue::Flag(b) => *b,
                _ => false,
            };
        }
        i = i + 1;
    }
    proof {
        assert(!exists|k: int| first_key_at(props@, k, key@));
    }
    false
}

/// Which sensors the property list of the sensor proxy announces: each flag is the
/// boolean property `HasAccelerometer`, `HasAmbientLight` or `HasProximity`, or
/// `false` when that property is absent or not a boolean.
pub fn sensor_capabilities(props: &Vec<(String, PropertyValue)>) -> (caps: SensorSet)
    ensures
        caps.accelerometer == flag_property(props@, "HasAccelerometer"@),
        caps.ambient_light == flag_property(props@, "HasAmbientLight"@),
        caps.proximity == flag_property(props@, "HasProximity"@),
{
    SensorSet {
        accelerometer: property_flag(props, "HasAccelerometer"),
        ambient_light: property_flag(props, "HasAmbientLight"),
        proximity: property_flag(props, "HasProximity"),
    }
}

/// The sensors to claim, in the order accelerometer, ambient light, proximity.
pub open spec fn claim_order(present: SensorSet) -> Seq<SensorKind> {
    let s0 = if present.accelerometer {
        seq![SensorKind::Accelerometer]
    } else {
        Seq::empty()
    };
    let s1 = if present.ambient_light {
        s0.push(SensorKind::AmbientLight)
    } else {
        s0
    };
    if present.proximity {
        s1.push(SensorKind::Proximity)
    } else {
        s1
    }
}

/// The sensors to release, in the order ambient light, accelerometer, proximity.
pub open spec fn release_order(claimed: SensorSet) -> Seq<SensorKind> {
    let s0 = if claimed.ambient_light {
        seq![SensorKind::AmbientLight]
    } else {
        Seq::empty()
    };
    let s1 = if claimed.accelerometer {
        s0.push(SensorKind::Accelerometer)
    } else {
        s0
    };
    if claimed.proximity {
        s1.push(SensorKind::Proximity)
    } else {
        s1
    }
}

/// Whether sensor `k` is in the set.
pub open spec fn member(set: SensorSet, k: SensorKind) -> bool {
    match k {
        SensorKind::Accelerometer => set.accelerometer,
        SensorKind::AmbientLight => set.ambient_light,
        SensorKind::Proximity => set.proximity,
    }
}

/// The sensors to claim at startup: every sensor that is present.
pub fn sensors_to_claim(present: SensorSet) -> (claims: Vec<SensorKind>)
    ensures
        claims@ == claim_order(present),
{
    let mut claims: Vec<SensorKind> = Vec::new();
    if present.accelerometer {
        claims.push(SensorKind::Accelerometer);
    }
    if present.ambient_light {
        claims.push(SensorKind::AmbientLight);
    }
    if present.proximity {
        claims.push(SensorKind::Proximity);
    }
    claims
}

/// The sensors to release at shutdown: every sensor whose claim succeeded.
pub fn sensors_to_release(claimed: SensorSet) -> (releases: Vec<SensorKind>)
    ensures
        releases@ == release_order(claimed),
{
    let mut releases: Vec<SensorKind> = Vec::new();
    if claimed.ambient_light {
        releases.push(SensorKind::AmbientLight);
    }
    if claimed.accelerometer {
        releases.push(SensorKind::Accelerometer);
    }
    if claimed.proximity {
        releases.push(SensorKind::Proximity);
    }
    releases
}

/// A sensor is claimed exactly when it is present, and released exactly when its
/// claim succeeded; none of them twice.
pub proof fn lemma_claims_and_releases_match_sets(present: SensorSet, claimed: SensorSet, k: SensorKind)
    ensures
        claim_order(present).contains(k) <==> member(present, k),
        release_order(claimed).contains(k) <==> member(claimed, k),
        claim_order(present).no_duplicates(),
        release_order(claimed).no_duplicates(),
{
    broadcast use vstd::seq_lib::lemma_seq_contains_after_push;

    let e: Seq<SensorKind> = Seq::empty();
    assert(!e.contains(k));
    assert(seq![SensorKind::Accelerometer] == e.push(SensorKind::Accelerometer));
    assert(seq![SensorKind::AmbientLight] == e.push(SensorKind::AmbientLight));
}

/// The flag read for a name is the value of the first entry with that name, wherever
/// in the list that entry stands: its boolean, or `false` when it is not a boolean.
pub proof fn lemma_flag_is_first_entry_with_name(props: Seq<(String, PropertyValue)>, key: Seq<char>, i: int)
    requires
        0 <= i < props.len(),
        props[i].0@ == key,
        forall|j: int| 0 <= j < i ==> props[j].0@ != key,
    ensures
        flag_property(props, key) == (match props[i].1 {
            PropertyValue::Flag(b) => b,
            _ => false,
        }),
{
    assert(first_key_at(props, i, key));
    let k: int = choose|k: int| first_key_at(props, k, key);
    assert(k == i) by {
        if k < i {
            assert(!key_at(props, k, key));
        } else if k > i {
            assert(!key_at(props, i, key));
        }
    }
}

/// The flag read for a name that no entry has is `false`.
pub proof fn lemma_flag_of_absent_name(props: Seq<(String, PropertyValue)>, key: Seq<char>)
    requires
        forall|j: int| 0 <= j < props.len() ==> props[j].0@ != key,
    ensures
        !flag_property(props, key),
{
    assert(!exists|k: int| first_key_at(props, k, key));
}

/// Each sensor is claimed exactly when it is present and released exactly when its
/// claim succeeded; with every sensor, claims go accelerometer, ambient light,
/// proximity and releases go ambient light, accelerometer, proximity.
pub proof fn lemma_claims_and_releases_per_sensor(present: SensorSet, claimed: SensorSet)
    ensures
        claim_order(present).contains(SensorKind::Accelerometer) <==> present.accelerometer,
        claim_order(present).contains(SensorKind::AmbientLight) <==> present.ambient_light,
        claim_order(present).contains(SensorKind::Proximity) <==> present.proximity,
        release_order(claimed).contains(SensorKind::Accelerometer) <==> claimed.accelerometer,
        release_order(claimed).contains(SensorKind::AmbientLight) <==> claimed.ambient_light,
        release_order(claimed).contains(SensorKind::Proximity) <==> claimed.proximity,
        claim_order(SensorSet { accelerometer: true, ambient_light: true, proximity: true }) == seq![
            SensorKind::Accelerometer,
            SensorKind::AmbientLight,
            SensorKind::Proximity,
        ],
        release_order(SensorSet { accelerometer: true, ambient_light: true, proximity: true })
            == seq![SensorKind::AmbientLight, SensorKind::Accelerometer, SensorKind::Proximity],
{
    lemma_claims_and_releases_match_sets(present, claimed, SensorKind::Accelerometer);
    lemma_claims_and_releases_match_sets(present, claimed, SensorKind::AmbientLight);
    lemma_claims_and_releases_match_sets(present, claimed, SensorKind::Proximity);
}

} // verus!
