use vstd::prelude::*;
use crate::temp_sensor::address::DeviceAddress;
use crate::temp_sensor::command::{CommandFrame, CONVERT_TEMP, READ_SCRATCH};
use crate::temp_sensor::error::SensorError;
use crate::temp_sensor::logic::decode;
use crate::temp_sensor::search::is_first_ds18b20;
use crate::temp_sensor::temp_sensor::{
    closing_outcome, Action, Event, Outcome, Phase, SensorModel, CONVERSION_WAIT_MS,
    POWER_SETTLE_MS,
};

verus! {

/// The state after `events` were handled one after the other, and the
/// actions that were named on the way.
pub open spec fn run(m: SensorModel, events: Seq<Event>) -> (SensorModel, Seq<Action>)
    decreases events.len(),
{
    if events.len() == 0 {
        (m, Seq::<Action>::empty())
    } else {
        let first = m.step(events[0]);
        let rest = run(first.0, events.drop_first());
        (rest.0, seq![first.1] + rest.1)
    }
}

/// Every event of `events` is one that the session accepts when it arrives.
pub open spec fn admissible(m: SensorModel, events: Seq<Event>) -> bool
    decreases events.len(),
{
    events.len() == 0 || (m.phase.accepts(events[0]) && admissible(
        m.step(events[0]).0,
        events.drop_first(),
    ))
}

/// `events` are the answers of one whole reading started on `m`: each is
/// accepted, and the last one brings the session back to idle.
pub open spec fn complete_reading(m: SensorModel, events: Seq<Event>) -> bool {
    &&& m.phase is Idle
    &&& admissible(m.begin().0, events)
    &&& run(m.begin().0, events).0.phase is Idle
}

/// The actions of a reading started on `m` and answered by `events`.
pub open spec fn reading_actions(m: SensorModel, events: Seq<Event>) -> Seq<Action> {
    seq![m.begin().1] + run(m.begin().0, events).1
}

/// The state in which a reading started on `m` and answered by `events` leaves the session.
pub open spec fn after_reading(m: SensorModel, events: Seq<Event>) -> SensorModel {
    run(m.begin().0, events).0
}

/// The levels that `actions` drive the power pin to, in order: `true` for high.
pub open spec fn power_trace(actions: Seq<Action>) -> Seq<bool>
    decreases actions.len(),
{
    if actions.len() == 0 {
        Seq::<bool>::empty()
    } else {
        let rest = power_trace(actions.drop_first());
        match actions[0] {
            Action::PowerOn => seq![true] + rest,
            Action::PowerOff => seq![false] + rest,
            _ => rest,
        }
    }
}

/// The action belongs to a bus search.
pub open spec fn is_search(action: Action) -> bool {
    action is StartSearch || action is NextDevice
}

/// `actions` end with a `Finish`, and hold no other.
pub open spec fn finishes_at_end(actions: Seq<Action>) -> bool {
    &&& actions.len() > 0
    &&& actions.last() is Finish
    &&& forall|i: int| 0 <= i < actions.len() - 1 ==> !(#[trigger] actions[i] is Finish)
}

/// The events that report `devices` as found, one after the other.
pub open spec fn found(devices: Seq<DeviceAddress>) -> Seq<Event> {
    Seq::new(devices.len(), |i: int| Event::Device(devices[i]))
}

/// A step on an accepted event keeps the session well formed.
pub proof fn lemma_step_keeps_wf(m: SensorModel, event: Event)
    requires
        m.wf(),
        m.phase.accepts(event),
    ensures
        m.step(event).0.wf(),
{
}

/// Handling accepted events keeps the session well formed, and names one
/// action for each event.
pub proof fn lemma_run_keeps_wf(m: SensorModel, events: Seq<Event>)
    requires
        m.wf(),
        admissible(m, events),
    ensures
        run(m, events).0.wf(),
        run(m, events).1.len() == events.len(),
    decreases events.len(),
{
    if events.len() > 0 {
        lemma_run_keeps_wf(m.step(events[0]).0, events.drop_first());
    }
}

/// Once the power-off is answered the reading is over: one more event, one
/// `Finish`, and the power pin is not touched again.
proof fn lemma_powering_down_suffix(m: SensorModel, events: Seq<Event>)
    requires
        m.phase is PoweringDown,
        admissible(m, events),
        run(m, events).0.phase is Idle,
    ensures
        events.len() == 1,
        run(m, events).1 == seq![Action::Finish(closing_outcome(m.phase->PoweringDown_0, events[0]))],
        run(m, events).0 == (SensorModel { phase: Phase::Idle, ..m }),
        power_trace(run(m, events).1) == Seq::<bool>::empty(),
        finishes_at_end(run(m, events).1),
{
    let rest = events.drop_first();
    let m1 = m.step(events[0]).0;
    assert(m1.phase is Idle);
    assert(admissible(m1, rest));
    assert(rest.len() == 0);
    assert(run(m1, rest).1 == Seq::<Action>::empty());
    let actions = run(m, events).1;
    assert(actions == seq![Action::Finish(closing_outcome(m.phase->PoweringDown_0, events[0]))]);
    assert(actions.drop_first() == Seq::<Action>::empty());
    assert(power_trace(actions.drop_first()) == Seq::<bool>::empty());
}

/// From a powered phase to the end of the reading the power pin is driven
/// exactly once, low, and `Finish` comes last and only there.
proof fn lemma_powered_suffix(m: SensorModel, events: Seq<Event>)
    requires
        m.wf(),
        m.phase.powered(),
        admissible(m, events),
        run(m, events).0.phase is Idle,
    ensures
        power_trace(run(m, events).1) == seq![false],
        finishes_at_end(run(m, events).1),
        events.len() >= 2,
    decreases events.len(),
{
    let first = m.step(events[0]);
    let rest = events.drop_first();
    let tail = run(first.0, rest).1;
    let actions = run(m, events).1;
    assert(actions == seq![first.1] + tail);
    assert(actions[0] == first.1);
    assert(actions.drop_first() == tail);
    if first.0.phase.powered() {
        lemma_powered_suffix(first.0, rest);
    } else {
        lemma_powering_down_suffix(first.0, rest);
        assert(first.1 is PowerOff);
        assert(seq![false] + Seq::<bool>::empty() == seq![false]);
    }
    assert(finishes_at_end(actions)) by {
        assert(actions.last() == tail.last());
        assert forall|i: int| 0 <= i < actions.len() - 1 implies !(#[trigger] actions[i] is Finish) by {
            if i > 0 {
                assert(actions[i] == tail[i - 1]);
            }
        }
    }
}

/// Power bracketing. In a whole reading the power pin is driven high first.
/// If that fails, the reading ends at once with the pin's error and the pin
/// is not driven again. Otherwise the pin is driven low exactly once, as the
/// last action before the reading finishes, whatever happened in between.
pub proof fn lemma_power_bracket(m: SensorModel, events: Seq<Event>)
    requires
        m.wf(),
        complete_reading(m, events),
    ensures
        events.len() >= 1,
        reading_actions(m, events).len() == events.len() + 1,
        reading_actions(m, events)[0] == Action::PowerOn,
        finishes_at_end(reading_actions(m, events)),
        events[0] matches Event::Failed(code) ==> {
            &&& events.len() == 1
            &&& power_trace(reading_actions(m, events)) == seq![true]
            &&& reading_actions(m, events).last() == Action::Finish(
                Outcome { result: Err(SensorError::PowerControl(code)), power_down_error: None },
            )
        },
        !(events[0] is Failed) ==> {
            &&& events.len() >= 3
            &&& power_trace(reading_actions(m, events)) == seq![true, false]
            &&& reading_actions(m, events)[events.len() - 1] == Action::PowerOff
        },
{
    let m0 = m.begin().0;
    let first = m0.step(events[0]);
    let rest = events.drop_first();
    let tail = run(first.0, rest).1;
    let body = run(m0, events).1;
    let actions = reading_actions(m, events);
    lemma_run_keeps_wf(m0, events);
    assert(body == seq![first.1] + tail);
    assert(actions.drop_first() == body);
    assert(body.drop_first() == tail);
    assert(body[0] == first.1);
    if events[0] is Failed {
        assert(first.0.phase is Idle);
        assert(admissible(first.0, rest));
        assert(rest.len() == 0);
        assert(tail == Seq::<Action>::empty());
        assert(power_trace(tail) == Seq::<bool>::empty());
        assert(power_trace(body) == Seq::<bool>::empty());
        assert(power_trace(actions) == seq![true] + Seq::<bool>::empty());
        assert(seq![true] + Seq::<bool>::empty() == seq![true]);
    } else {
        assert(first.0.phase is Settling);
        lemma_powered_suffix(first.0, rest);
        assert(power_trace(body) == seq![false]);
        assert(power_trace(actions) == seq![true] + seq![false]);
        assert(seq![true] + seq![false] == seq![true, false]);
        lemma_power_off_precedes_finish(first.0, rest);
        assert(actions[events.len() - 1] == tail[rest.len() - 2]);
    }
    assert(finishes_at_end(actions)) by {
        assert(actions.last() == body.last());
        assert(body.last() == if tail.len() > 0 {
            tail.last()
        } else {
            first.1
        });
        assert forall|i: int| 0 <= i < actions.len() - 1 implies !(#[trigger] actions[i] is Finish) by {
            if i == 1 {
                assert(actions[i] == first.1);
            } else if i > 1 {
                assert(actions[i] == tail[i - 2]);
            }
        }
    }
}

/// From a powered phase to the end of the reading, the action just before
/// `Finish` is the power-off.
proof fn lemma_power_off_precedes_finish(m: SensorModel, events: Seq<Event>)
    requires
        m.wf(),
        m.phase.powered(),
        admissible(m, events),
        run(m, events).0.phase is Idle,
    ensures
        events.len() >= 2,
        run(m, events).1.len() == events.len(),
        run(m, events).1[events.len() - 2] == Action::PowerOff,
    decreases events.len(),
{
    let first = m.step(events[0]);
    let rest = events.drop_first();
    let tail = run(first.0, rest).1;
    let actions = run(m, events).1;
    lemma_run_keeps_wf(m, events);
    assert(actions == seq![first.1] + tail);
    if first.0.phase.powered() {
        lemma_power_off_precedes_finish(first.0, rest);
        assert(actions[events.len() - 2] == tail[rest.len() - 2]);
    } else {
        lemma_powering_down_suffix(first.0, rest);
        assert(first.1 is PowerOff);
        assert(actions[0] == first.1);
    }
}

/// Address caching, one run. A session that knows its device keeps that
/// address and asks for no search, whatever the events.
pub proof fn lemma_cached_address_is_kept(m: SensorModel, events: Seq<Event>)
    requires
        m.wf(),
        m.address is Some,
        admissible(m, events),
    ensures
        run(m, events).0.address == m.address,
        forall|i: int| 0 <= i < run(m, events).1.len() ==> !is_search(#[trigger] run(m, events).1[i]),
    decreases events.len(),
{
    if events.len() > 0 {
        let first = m.step(events[0]);
        let rest = events.drop_first();
        let tail = run(first.0, rest).1;
        let actions = run(m, events).1;
        lemma_cached_address_is_kept(first.0, rest);
        assert(actions == seq![first.1] + tail);
        assert forall|i: int| 0 <= i < actions.len() implies !is_search(#[trigger] actions[i]) by {
            if i > 0 {
                assert(actions[i] == tail[i - 1]);
            }
        }
    }
}

/// A run that ends a reading with a temperature leaves the address of the
/// device in the session.
proof fn lemma_temperature_needs_address(m: SensorModel, events: Seq<Event>)
    requires
        m.wf(),
        !(m.phase is Idle),
        admissible(m, events),
        run(m, events).0.phase is Idle,
        run(m, events).1.last() matches Action::Finish(outcome) && outcome.result is Ok,
    ensures
        run(m, events).0.address is Some,
    decreases events.len(),
{
    let first = m.step(events[0]);
    let rest = events.drop_first();
    let tail = run(first.0, rest).1;
    let actions = run(m, events).1;
    assert(actions == seq![first.1] + tail);
    if first.0.phase is Idle {
        assert(admissible(first.0, rest));
        assert(rest.len() == 0);
        assert(tail == Seq::<Action>::empty());
        assert(actions.last() == first.1);
    } else {
        lemma_run_keeps_wf(first.0, rest);
        assert(tail.len() > 0);
        assert(actions.last() == tail.last());
        lemma_temperature_needs_address(first.0, rest);
    }
}

/// Address caching. After a reading that gave a temperature the session
/// knows its device, and the next reading, however it goes, asks for no
/// search and leaves the address as it is.
pub proof fn lemma_second_reading_does_not_search(
    m: SensorModel,
    first: Seq<Event>,
    second: Seq<Event>,
)
    requires
        m.wf(),
        complete_reading(m, first),
        reading_actions(m, first).last() matches Action::Finish(outcome) && outcome.result is Ok,
        admissible(after_reading(m, first).begin().0, second),
    ensures
        after_reading(m, first).address is Some,
        after_reading(after_reading(m, first), second).address == after_reading(m, first).address,
        forall|i: int|
            0 <= i < reading_actions(after_reading(m, first), second).len() ==> !is_search(
                #[trigger] reading_actions(after_reading(m, first), second)[i],
            ),
{
    let m0 = m.begin().0;
    let m1 = after_reading(m, first);
    lemma_run_keeps_wf(m0, first);
    assert(first.len() > 0);
    assert(reading_actions(m, first).last() == run(m0, first).1.last());
    lemma_temperature_needs_address(m0, first);
    let m2 = m1.begin().0;
    lemma_cached_address_is_kept(m2, second);
    let body = run(m2, second).1;
    let actions = reading_actions(m1, second);
    assert forall|i: int| 0 <= i < actions.len() implies !is_search(#[trigger] actions[i]) by {
        if i > 0 {
            assert(actions[i] == body[i - 1]);
        }
    }
}

/// Family filtering. A search that reports `devices`, of which the one at
/// `n` is the first DS18B20, passes over the `n` devices before it, selects
/// that one, and goes on to reset the bus for the conversion.
pub proof fn lemma_search_selects_first_ds18b20(
    m: SensorModel,
    devices: Seq<DeviceAddress>,
    n: int,
)
    requires
        m.wf(),
        m.phase is Searching,
        is_first_ds18b20(devices, n),
    ensures
        admissible(m, found(devices.take(n + 1))),
        run(m, found(devices.take(n + 1))).0 == (SensorModel {
            address: Some(devices[n]),
            phase: Phase::ResettingForConversion,
        }),
        run(m, found(devices.take(n + 1))).1 == Seq::new(n as nat, |i: int| Action::NextDevice)
            + seq![Action::ResetBus],
    decreases n,
{
    let events = found(devices.take(n + 1));
    let first = m.step(events[0]);
    let rest = events.drop_first();
    assert(events[0] == Event::Device(devices[0]));
    if n == 0 {
        assert(rest == Seq::<Event>::empty());
        assert(admissible(first.0, rest));
        assert(run(first.0, rest).1 == Seq::<Action>::empty());
        assert(run(m, events).1 == Seq::new(0nat, |i: int| Action::NextDevice) + seq![
            Action::ResetBus,
        ]);
    } else {
        let later = devices.drop_first();
        assert(is_first_ds18b20(later, n - 1)) by {
            assert forall|j: int| 0 <= j < n - 1 implies !later[j].spec_is_ds18b20() by {
                assert(later[j] == devices[j + 1]);
            }
        }
        assert(rest == found(later.take(n)));
        assert(first.0 == m);
        lemma_search_selects_first_ds18b20(m, later, n - 1);
        assert(admissible(first.0, rest));
        assert(run(m, events).1 == Seq::new(n as nat, |i: int| Action::NextDevice) + seq![
            Action::ResetBus,
        ]);
    }
}

/// Family filtering, no match. A search that reports only devices of other
/// families and then ends passes over each of them and gives up with
/// `DeviceNotFound`; the power is switched off next, and no address is cached.
pub proof fn lemma_search_without_ds18b20(m: SensorModel, devices: Seq<DeviceAddress>)
    requires
        m.wf(),
        m.phase is Searching,
        forall|j: int| 0 <= j < devices.len() ==> !(#[trigger] devices[j]).spec_is_ds18b20(),
    ensures
        admissible(m, found(devices) + seq![Event::NoMoreDevices]),
        run(m, found(devices) + seq![Event::NoMoreDevices]).0 == (SensorModel {
            address: None,
            phase: Phase::PoweringDown(Err(SensorError::DeviceNotFound)),
        }),
        run(m, found(devices) + seq![Event::NoMoreDevices]).1 == Seq::new(
            devices.len(),
            |i: int| Action::NextDevice,
        ) + seq![Action::PowerOff],
    decreases devices.len(),
{
    let events = found(devices) + seq![Event::NoMoreDevices];
    let first = m.step(events[0]);
    let rest = events.drop_first();
    if devices.len() == 0 {
        assert(events[0] == Event::NoMoreDevices);
        assert(rest == Seq::<Event>::empty());
        assert(admissible(first.0, rest));
        assert(run(first.0, rest).1 == Seq::<Action>::empty());
        assert(run(m, events).1 == Seq::new(0nat, |i: int| Action::NextDevice) + seq![
            Action::PowerOff,
        ]);
    } else {
        let later = devices.drop_first();
        assert(events[0] == Event::Device(devices[0]));
        assert(rest == found(later) + seq![Event::NoMoreDevices]);
        assert(first.0 == m);
        lemma_search_without_ds18b20(m, later);
        assert(admissible(first.0, rest));
        assert(run(m, events).1 == Seq::new(devices.len(), |i: int| Action::NextDevice) + seq![
            Action::PowerOff,
        ]);
    }
}

/// The events of a reading in which every action succeeds and the
/// scratchpad holds `scratchpad`, for a session that knows its device.
pub open spec fn smooth_events(scratchpad: [u8; 9]) -> Seq<Event> {
    seq![
        Event::Done,
        Event::Done,
        Event::Done,
        Event::Done,
        Event::Done,
        Event::Done,
        Event::Done,
        Event::Scratchpad(scratchpad),
        Event::Done,
    ]
}

/// The actions of a reading for the device at `address` in which nothing
/// fails: power on, settle, reset, start the conversion, wait for it, reset,
/// ask for the scratchpad, read it, power off, and finish with `outcome`.
pub open spec fn smooth_actions(address: DeviceAddress, outcome: Outcome) -> Seq<Action> {
    seq![
        Action::PowerOn,
        Action::Delay(POWER_SETTLE_MS),
        Action::ResetBus,
        Action::Write(CommandFrame { address, opcode: CONVERT_TEMP }),
        Action::Delay(CONVERSION_WAIT_MS),
        Action::ResetBus,
        Action::Write(CommandFrame { address, opcode: READ_SCRATCH }),
        Action::ReadScratchpad,
        Action::PowerOff,
        Action::Finish(outcome),
    ]
}

/// The order of a reading. For a session that knows its device, a reading in
/// which every action succeeds names exactly the actions of `smooth_actions`
/// and ends with the temperature that the first two scratchpad bytes hold.
pub proof fn lemma_smooth_reading(m: SensorModel, scratchpad: [u8; 9])
    requires
        m.wf(),
        m.phase is Idle,
        m.address is Some,
    ensures
        complete_reading(m, smooth_events(scratchpad)),
        after_reading(m, smooth_events(scratchpad)) == m,
        reading_actions(m, smooth_events(scratchpad)) == smooth_actions(
            m.address.unwrap(),
            Outcome { result: Ok(decode(scratchpad@[0], scratchpad@[1])), power_down_error: None },
        ),
{
    let e0 = smooth_events(scratchpad);
    let m0 = m.begin().0;
    let s1 = m0.step(e0[0]);
    let e1 = e0.drop_first();
    let s2 = s1.0.step(e1[0]);
    let e2 = e1.drop_first();
    let s3 = s2.0.step(e2[0]);
    let e3 = e2.drop_first();
    let s4 = s3.0.step(e3[0]);
    let e4 = e3.drop_first();
    let s5 = s4.0.step(e4[0]);
    let e5 = e4.drop_first();
    let s6 = s5.0.step(e5[0]);
    let e6 = e5.drop_first();
    let s7 = s6.0.step(e6[0]);
    let e7 = e6.drop_first();
    let s8 = s7.0.step(e7[0]);
    let e8 = e7.drop_first();
    let s9 = s8.0.step(e8[0]);
    let e9 = e8.drop_first();
    assert(e9.len() == 0);
    assert(admissible(s9.0, e9));
    assert(admissible(s8.0, e8));
    assert(admissible(s7.0, e7));
    assert(admissible(s6.0, e6));
    assert(admissible(s5.0, e5));
    assert(admissible(s4.0, e4));
    assert(admissible(s3.0, e3));
    assert(admissible(s2.0, e2));
    assert(admissible(s1.0, e1));
    assert(admissible(m0, e0));
    assert(run(s9.0, e9) == (s9.0, Seq::<Action>::empty()));
    assert(run(s8.0, e8) == (s9.0, seq![s9.1] + run(s9.0, e9).1));
    assert(run(s7.0, e7) == (s9.0, seq![s8.1] + run(s8.0, e8).1));
    assert(run(s6.0, e6) == (s9.0, seq![s7.1] + run(s7.0, e7).1));
    assert(run(s5.0, e5) == (s9.0, seq![s6.1] + run(s6.0, e6).1));
    assert(run(s4.0, e4) == (s9.0, seq![s5.1] + run(s5.0, e5).1));
    assert(run(s3.0, e3) == (s9.0, seq![s4.1] + run(s4.0, e4).1));
    assert(run(s2.0, e2) == (s9.0, seq![s3.1] + run(s3.0, e3).1));
    assert(run(s1.0, e1) == (s9.0, seq![s2.1] + run(s2.0, e2).1));
    assert(run(m0, e0) == (s9.0, seq![s1.1] + run(s1.0, e1).1));
    assert(s9.0 == m);
    assert(reading_actions(m, e0) == smooth_actions(
        m.address.unwrap(),
        Outcome { result: Ok(decode(scratchpad@[0], scratchpad@[1])), power_down_error: None },
    ));
}

/// No failure is swallowed. When a bus reset, a write, the scratchpad read
/// or the start of the search fails with `code`, the next action is the
/// power-off, and the reading then finishes with that transport error,
/// whether or not the power-off itself succeeds; a failed power-off is
/// reported beside it.
pub proof fn lemma_transport_failure_is_reported(m: SensorModel, code: i32, closing: Event)
    requires
        m.wf(),
        m.phase.powered(),
        m.phase.accepts(Event::Failed(code)),
        !(m.phase is Searching),
        closing is Done || closing is Failed,
    ensures
        m.step(Event::Failed(code)).1 == Action::PowerOff,
        m.step(Event::Failed(code)).0.phase.accepts(closing),
        m.step(Event::Failed(code)).0.step(closing).0 == (SensorModel { phase: Phase::Idle, ..m }),
        m.step(Event::Failed(code)).0.step(closing).1 == Action::Finish(
            Outcome {
                result: Err(SensorError::Transport(code)),
                power_down_error: match closing {
                    Event::Failed(power_code) => Some(power_code),
                    _ => None,
                },
            },
        ),
{
}

/// A failed lookup during the search is passed over like a device of
/// another family: the search goes on with the next lookup.
pub proof fn lemma_search_passes_over(m: SensorModel, event: Event)
    requires
        m.wf(),
        m.phase is Searching,
        event is Failed || (event matches Event::Device(other) && !other.spec_is_ds18b20()),
    ensures
        m.step(event) == (m, Action::NextDevice),
{
}

/// The reading has not settled on an unexpected family as its result.
pub open spec fn family_is_no_result(phase: Phase) -> bool {
    !(phase matches Phase::PoweringDown(Err(SensorError::UnexpectedFamily(_))))
}

proof fn lemma_family_is_never_the_result(m: SensorModel, events: Seq<Event>)
    requires
        m.wf(),
        !(m.phase is Idle),
        family_is_no_result(m.phase),
        admissible(m, events),
        run(m, events).0.phase is Idle,
    ensures
        run(m, events).1.len() > 0,
        run(m, events).1.last() matches Action::Finish(outcome) && !(outcome.result matches Err(
            SensorError::UnexpectedFamily(_),
        )),
    decreases events.len(),
{
    let first = m.step(events[0]);
    let rest = events.drop_first();
    let tail = run(first.0, rest).1;
    let actions = run(m, events).1;
    assert(actions == seq![first.1] + tail);
    if first.0.phase is Idle {
        assert(admissible(first.0, rest));
        assert(rest.len() == 0);
        assert(tail == Seq::<Action>::empty());
        assert(actions.last() == first.1);
    } else {
        lemma_family_is_never_the_result(first.0, rest);
        assert(actions.last() == tail.last());
    }
}

/// A device of another family is passed over, never reported as the
/// failure of a reading: a whole reading ends with a temperature, a
/// transport error, a power error or `DeviceNotFound`.
pub proof fn lemma_outcome_is_never_unexpected_family(m: SensorModel, events: Seq<Event>)
    requires
        m.wf(),
        complete_reading(m, events),
    ensures
        reading_actions(m, events).last() matches Action::Finish(outcome) && !(outcome.result matches Err(
            SensorError::UnexpectedFamily(_),
        )),
{
    lemma_family_is_never_the_result(m.begin().0, events);
    assert(reading_actions(m, events).last() == run(m.begin().0, events).1.last());
}

} // verus!
