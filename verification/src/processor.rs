//! One step of the daemon's event processor.
//!
//! The processor receives raw notifications one at a time. For each one that gives a
//! device event it updates the state it holds, publishes a copy of the new state,
//! and broadcasts the event when anyone subscribes to events.

use vstd::prelude::*;
use crate::event::{
    parse_system_event, parsed_event, DeviceEvent, DeviceState, Readings,
    SystemEvent,
};

verus! {

/// What the processor sends out after a notification that gave a device event.
pub struct ProcessorOutput {
    /// The new state, to publish to the state watchers.
    pub state: DeviceState,
    /// The device event that the notification gave.
    pub event: DeviceEvent,
    /// Whether to broadcast the event: only when someone subscribes to events.
    pub broadcast: bool,
}

/// The state after the processor handles `sys_event` in state `state`: updated by
/// the event the notification gives, or unchanged when it gives none.
pub open spec fn next_state(state: Readings, sys_event: SystemEvent) -> Readings {
    match parsed_event(sys_event) {
        Some(e) => state.overlay(e),
        None => state,
    }
}

/// The state after the processor handles the notifications `events` in order,
/// starting in `state`.
pub open spec fn replay(state: Readings, events: Seq<SystemEvent>) -> Readings
    decreases events.len(),
{
    if events.len() == 0 {
        state
    } else {
        next_state(replay(state, events.drop_last()), events.last())
    }
}

/// The device events that the notifications `events` give, in order, leaving out the
/// notifications that give none.
pub open spec fn parsed_events(events: Seq<SystemEvent>) -> Seq<Readings>
    decreases events.len(),
{
    if events.len() == 0 {
        Seq::empty()
    } else {
        match parsed_event(events.last()) {
            Some(e) => parsed_events(events.drop_last()).push(e),
            None => parsed_events(events.drop_last()),
        }
    }
}

/// The events that a run of the processor broadcasts, in order, given what it sent
/// out after each notification.
pub open spec fn broadcast_stream(outs: Seq<Option<ProcessorOutput>>) -> Seq<Readings>
    decreases outs.len(),
{
    if outs.len() == 0 {
        Seq::empty()
    } else {
        match outs.last() {
            Some(o) => if o.broadcast {
                broadcast_stream(outs.drop_last()).push(o.event@)
            } else {
                broadcast_stream(outs.drop_last())
            },
            None => broadcast_stream(outs.drop_last()),
        }
    }
}

/// Whether `outs` and `states` are what successive calls of `process_system_event`
/// on `events` give, with `subscribers[i]` subscribers at the `i`-th call: `states[0]`
/// is the state before the first call and `states[i + 1]` the state after call `i`.
pub open spec fn is_run(
    states: Seq<Readings>,
    events: Seq<SystemEvent>,
    subscribers: Seq<usize>,
    outs: Seq<Option<ProcessorOutput>>,
) -> bool {
    &&& states.len() == events.len() + 1
    &&& subscribers.len() == events.len()
    &&& outs.len() == events.len()
    &&& forall|i: int|
        0 <= i < events.len() ==> #[trigger] states[i + 1] == next_state(states[i], events[i])
            && output_matches(outs[i], events[i], subscribers[i], states[i + 1])
}

/// Whether `out` is what the processor sends after `sys_event`, with `subscribers`
/// event subscribers, when its state becomes `after`.
pub open spec fn output_matches(
    out: Option<ProcessorOutput>,
    sys_event: SystemEvent,
    subscribers: usize,
    after: Readings,
) -> bool {
    match parsed_event(sys_event) {
        None => out is None,
        Some(e) => match out {
            Some(o) => {
                &&& o.state@ == after
                &&& o.event@ == e
                &&& o.broadcast == (subscribers > 0)
            },
            None => false,
        },
    }
}

/// Handles one raw notification: a notification that gives a device event updates
/// `state` with it, and the new state is published; the event is broadcast only when
/// there is at least one subscriber. A notification that gives no event changes
/// nothing and sends nothing.
pub fn process_system_event(
    state: &mut DeviceState,
    sys_event: SystemEvent,
    subscribers: usize,
) -> (out: Option<ProcessorOutput>)
    ensures
        final(state)@ == next_state(old(state)@, sys_event),
        output_matches(out, sys_event, subscribers, final(state)@),
        parsed_event(sys_event) is None ==> (final(state)@ == old(state)@ && out is None),
        forall|e: Readings|
            parsed_event(sys_event) == Some(e) ==> (final(state)@ == old(state)@.overlay(e)
                && out is Some && out.unwrap().state@ == old(state)@.overlay(e)
                && out.unwrap().event@ == e && out.unwrap().broadcast == (subscribers > 0)),
{
    match parse_system_event(sys_event) {
        Some(device_event) => {
            state.apply_event(&device_event);
            let published = state.snapshot();
            Some(ProcessorOutput { state: published, event: device_event, broadcast: subscribers > 0 })
        },
        None => None,
    }
}

/// One step of the processor: a notification that parses to an event updates the
/// state by it (the readings the event carries replace the old ones); one that parses
/// to nothing leaves the state as it was.
pub proof fn lemma_step_applies_parsed_event(state: Readings, sys_event: SystemEvent)
    ensures
        parsed_event(sys_event) is None ==> next_state(state, sys_event) == state,
        forall|e: Readings|
            parsed_event(sys_event) == Some(e) ==> next_state(state, sys_event) == state.overlay(e),
{
}

/// Over a whole run of the processor, the state is the starting state updated, in
/// order, by every device event that the notifications give; starting from the
/// empty state, this is the state that the processor publishes last.
pub proof fn lemma_run_state_is_replay(
    states: Seq<Readings>,
    events: Seq<SystemEvent>,
    subscribers: Seq<usize>,
    outs: Seq<Option<ProcessorOutput>>,
)
    requires
        is_run(states, events, subscribers, outs),
    ensures
        states.last() == replay(states[0], events),
    decreases events.len(),
{
    if events.len() > 0 {
        let n = events.len() - 1;
        assert(states[n + 1] == next_state(states[n], events[n]));
        lemma_run_state_is_replay(
            states.drop_last(),
            events.drop_last(),
            subscribers.drop_last(),
            outs.drop_last(),
        );
    }
}

/// While there is a subscriber at every step, the processor broadcasts, in order,
/// exactly the device events that the notifications give, and nothing for the
/// notifications that give none.
pub proof fn lemma_run_broadcasts_parsed_events(
    states: Seq<Readings>,
    events: Seq<SystemEvent>,
    subscribers: Seq<usize>,
    outs: Seq<Option<ProcessorOutput>>,
)
    requires
        is_run(states, events, subscribers, outs),
        forall|i: int| 0 <= i < subscribers.len() ==> #[trigger] subscribers[i] > 0,
    ensures
        broadcast_stream(outs) == parsed_events(events),
    decreases events.len(),
{
    if events.len() > 0 {
        let n = events.len() - 1;
        assert(states[n + 1] == next_state(states[n], events[n]));
        assert(subscribers[n] > 0);
        lemma_run_broadcasts_parsed_events(
            states.drop_last(),
            events.drop_last(),
            subscribers.drop_last(),
            outs.drop_last(),
        );
    }
}

} // verus!
