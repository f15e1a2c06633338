//! Reading the tablet-mode switch from evdev input devices.
//!
//! Input devices are the nodes `/dev/input/event*`. A switch event carries the event
//! type `EV_SW`, the switch code and the switch position (`1`: set).

use vstd::prelude::*;
use crate::event::SystemEvent;
use crate::text::str_eq;

verus! {

/// The evdev event type of switch events, `EV_SW`.
pub open spec fn switch_event_type_spec() -> u16 {
    5
}

/// The evdev switch code of the tablet-mode switch, `SW_TABLET_MODE`.
pub open spec fn tablet_mode_switch_spec() -> u16 {
    1
}

/// Reads `evdev::EventType::SWITCH`, which evdev defines as the event type `0x05`.
#[verifier::external_body]
fn switch_event_type() -> (t: u16)
    ensures
        t == switch_event_type_spec(),
{
    evdev::EventType::SWITCH.0
}

/// Reads `evdev::SwitchCode::SW_TABLET_MODE`, which evdev defines as the switch code
/// `0x01`.
#[verifier::external_body]
fn tablet_mode_switch_code() -> (c: u16)
    ensures
        c == tablet_mode_switch_spec(),
{
    evdev::SwitchCode::SW_TABLET_MODE.0
}

/// The tablet-mode position that an input event reports, if it reports one.
pub open spec fn tablet_mode_reading(event_type: u16, code: u16, value: i32) -> Option<bool> {
    if event_type == switch_event_type_spec() && code == tablet_mode_switch_spec() {
        Some(value == 1)
    } else {
        None
    }
}

/// The notification that an input event with this type, code and value gives: a
/// tablet-mode switch event gives its position (`true` when the value is `1`); any
/// other input event gives nothing.
pub fn tablet_mode_event(event_type: u16, code: u16, value: i32) -> (r: Option<SystemEvent>)
    ensures
        r == (match tablet_mode_reading(event_type, code, value) {
            Some(b) => Some(SystemEvent::TabletMode(b)),
            None => None,
        }),
{
    if event_type == switch_event_type() && code == tablet_mode_switch_code() {
        Some(SystemEvent::TabletMode(value == 1))
    } else {
        None
    }
}

/// Whether a directory entry with this file name is an input event node: it is not
/// a directory and its name starts with `event`.
pub open spec fn is_event_node_spec(file_name: Seq<char>, is_dir: bool) -> bool {
    !is_dir && "event"@.is_prefix_of(file_name)
}

/// Decides whether a directory entry of `/dev/input` is an input event node worth
/// opening: not a directory, and its file name starts with `event`.
pub fn is_event_node(file_name: &str, is_dir: bool) -> (r: bool)
    ensures
        r == is_event_node_spec(file_name@, is_dir),
{
    proof {
        reveal_strlit("event");
    }
    if is_dir {
        return false;
    }
    let len: usize = file_name.unicode_len();
    if len < 5 {
        return false;
    }
    let head = file_name.substring_char(0, 5);
    let r = str_eq(head, "event");
    assert(r == (file_name@.subrange(0, 5) == "event"@));
    r
}

/// A tablet-mode switch event is an input event of type `EV_SW` (5) with code
/// `SW_TABLET_MODE` (1); it reports tablet mode exactly when its value is 1.
pub proof fn lemma_tablet_mode_reading_values(event_type: u16, code: u16, value: i32)
    ensures
        (event_type == 5 && code == 1) ==> tablet_mode_reading(event_type, code, value) == Some(
            value == 1,
        ),
        !(event_type == 5 && code == 1) ==> tablet_mode_reading(event_type, code, value) is None,
{
}

/// An input event node is a non-directory entry whose name begins with the five
/// characters `e`, `v`, `e`, `n`, `t`.
pub proof fn lemma_event_node_names(file_name: Seq<char>, is_dir: bool)
    ensures
        is_event_node_spec(file_name, is_dir) <==> (!is_dir && file_name.len() >= 5
            && file_name[0] == 'e' && file_name[1] == 'v' && file_name[2] == 'e'
            && file_name[3] == 'n' && file_name[4] == 't'),
{
    reveal_strlit("event");
    let ev: Seq<char> = "event"@;
    assert(ev.len() == 5);
    assert(ev[0] == 'e' && ev[1] == 'v' && ev[2] == 'e' && ev[3] == 'n' && ev[4] == 't');
    if !is_dir && file_name.len() >= 5 && file_name[0] == 'e' && file_name[1] == 'v'
        && file_name[2] == 'e' && file_name[3] == 'n' && file_name[4] == 't' {
        assert(file_name.subrange(0, 5) =~= "event"@);
    }
    if is_event_node_spec(file_name, is_dir) {
        let head: Seq<char> = file_name.subrange(0, 5);
        assert(head == ev);
        assert(head[0] == file_name[0] && head[1] == file_name[1] && head[2] == file_name[2]);
        assert(head[3] == file_name[3] && head[4] == file_name[4]);
    }
}

} // verus!
