//! Properties of the aggregation model that hold for every input, stated
//! and proved over the spec functions the executable contracts use.

use vstd::prelude::*;
use crate::input::{Button, Event, EventKind, button_code};
use crate::gamepad::{GamepadView, gamepad_view_wf, default_gamepad_view, apply_kind_view,
    refresh_view};
use crate::snapshot::{InputMessageView, SampleView, apply_event_view, drain_view, cycle_view};

verus! {

/// How many events of a sequence press button `b`.
pub open spec fn count_presses(evs: Seq<Event>, b: Button) -> int
    decreases evs.len(),
{
    if evs.len() == 0 {
        0
    } else {
        count_presses(evs.drop_last(), b) + if evs.last().kind == EventKind::ButtonPressed(b) {
            1int
        } else {
            0int
        }
    }
}

/// How many events of a sequence release button `b`.
pub open spec fn count_releases(evs: Seq<Event>, b: Button) -> int
    decreases evs.len(),
{
    if evs.len() == 0 {
        0
    } else {
        count_releases(evs.drop_last(), b) + if evs.last().kind == EventKind::ButtonReleased(b) {
            1int
        } else {
            0int
        }
    }
}

/// A counter table entry holding exactly `n` observed transitions: absent
/// while none has been seen, else the count.
pub open spec fn counter_entry(n: int) -> Option<usize> {
    if n == 0 {
        None
    } else {
        Some(n as usize)
    }
}

proof fn lemma_count_bounds(evs: Seq<Event>, b: Button)
    ensures
        0 <= count_presses(evs, b) <= evs.len(),
        0 <= count_releases(evs, b) <= evs.len(),
    decreases evs.len(),
{
    if evs.len() > 0 {
        lemma_count_bounds(evs.drop_last(), b);
    }
}

/// Counter correctness: after draining any sequence of press and release
/// events of one button `b` on one previously-unseen gamepad `id`, the
/// down counter holds exactly the number of presses and the up counter
/// exactly the number of releases — no more, no fewer.
pub proof fn lemma_counter_correctness(
    m: Map<u64, GamepadView>,
    evs: Seq<Event>,
    id: u64,
    b: Button,
    now: u64,
)
    requires
        !m.dom().contains(id),
        0 < evs.len() <= usize::MAX,
        forall|i: int| 0 <= i < evs.len() ==> (#[trigger] evs[i]).gamepad_id == id,
        forall|i: int|
            0 <= i < evs.len() ==> ((#[trigger] evs[i]).kind == EventKind::ButtonPressed(b)
                || evs[i].kind == EventKind::ButtonReleased(b)),
    ensures
        drain_view(m, evs, now).dom().contains(id),
        gamepad_view_wf(drain_view(m, evs, now)[id]),
        drain_view(m, evs, now)[id].button_down_event_counter[button_code(b)] == counter_entry(
            count_presses(evs, b),
        ),
        drain_view(m, evs, now)[id].button_up_event_counter[button_code(b)] == counter_entry(
            count_releases(evs, b),
        ),
    decreases evs.len(),
{
    lemma_count_bounds(evs.drop_last(), b);
    if evs.len() == 1 {
        assert(evs.drop_last().len() == 0);
        assert(evs.last() == evs[0]);
    } else {
        lemma_counter_correctness(m, evs.drop_last(), id, b, now);
        assert(evs.last() == evs[evs.len() - 1]);
    }
}

/// Isolation: an event for a previously-unseen gamepad id adds exactly one
/// record — the default one moved through the event — and leaves every
/// other gamepad's record untouched.
pub proof fn lemma_isolation(m: Map<u64, GamepadView>, ev: Event, now: u64)
    requires
        !m.dom().contains(ev.gamepad_id),
    ensures
        apply_event_view(m, ev, now).dom() =~= m.dom().insert(ev.gamepad_id),
        apply_event_view(m, ev, now)[ev.gamepad_id] == apply_kind_view(
            default_gamepad_view(),
            ev.kind,
            now,
        ),
        forall|other: u64|
            m.dom().contains(other) && other != ev.gamepad_id ==> apply_event_view(m, ev, now)[
                other
            ] == #[trigger] m[other],
{
}

/// Partial refresh: a poll of a disconnected gamepad leaves the level
/// table (and the counters, axis values and last-event time) exactly as
/// they were, while still overwriting the connection flag and the name.
pub proof fn lemma_partial_refresh(g: GamepadView, name: Seq<char>, pairs: Seq<(Button, bool)>)
    ensures
        refresh_view(g, false, name, pairs).button_pressed == g.button_pressed,
        refresh_view(g, false, name, pairs).button_down_event_counter
            == g.button_down_event_counter,
        refresh_view(g, false, name, pairs).button_up_event_counter == g.button_up_event_counter,
        refresh_view(g, false, name, pairs).axis_state == g.axis_state,
        refresh_view(g, false, name, pairs).last_event_time == g.last_event_time,
        !refresh_view(g, false, name, pairs).connected,
        refresh_view(g, false, name, pairs).name == name,
{
}

/// Monotonic stamping: a cycle stamps exactly its `now`, so two cycles
/// run at increasing instants publish strictly increasing times, whatever
/// else they drain or sample.
pub proof fn lemma_monotonic_stamping(
    v1: InputMessageView,
    evs1: Seq<Event>,
    sample1: Option<SampleView>,
    t1: u64,
    v2: InputMessageView,
    evs2: Seq<Event>,
    sample2: Option<SampleView>,
    t2: u64,
)
    requires
        t1 < t2,
    ensures
        cycle_view(v1, evs1, sample1, t1).time < cycle_view(v2, evs2, sample2, t2).time,
{
}

proof fn lemma_drain_persists(m: Map<u64, GamepadView>, evs: Seq<Event>, now: u64, id: u64)
    requires
        m.dom().contains(id),
    ensures
        drain_view(m, evs, now).dom().contains(id),
    decreases evs.len(),
{
    if evs.len() > 0 {
        lemma_drain_persists(m, evs.drop_last(), now, id);
    }
}

/// The number of transitions a counter table entry records.
pub open spec fn counter_value(c: Option<usize>) -> int {
    match c {
        None => 0,
        Some(n) => n as int,
    }
}

/// Counters are monotonic: no event ever lowers a press or release
/// counter of any button.
pub proof fn lemma_counters_monotonic(g: GamepadView, kind: EventKind, now: u64)
    requires
        gamepad_view_wf(g),
    ensures
        forall|i: int|
            0 <= i < g.button_down_event_counter.len() ==> counter_value(
                g.button_down_event_counter[i],
            ) <= counter_value(
                #[trigger] apply_kind_view(g, kind, now).button_down_event_counter[i],
            ),
        forall|i: int|
            0 <= i < g.button_up_event_counter.len() ==> counter_value(
                g.button_up_event_counter[i],
            ) <= counter_value(
                #[trigger] apply_kind_view(g, kind, now).button_up_event_counter[i],
            ),
{
}

/// Under a monotonic clock, the last-event timestamp only moves forward.
pub proof fn lemma_last_event_time_monotonic(g: GamepadView, kind: EventKind, now: u64)
    requires
        g.last_event_time <= now,
    ensures
        g.last_event_time <= apply_kind_view(g, kind, now).last_event_time,
{
}

/// Persistence: a gamepad id, once in the snapshot, is still there after
/// any cycle — whatever events are drained and whether or not anything was
/// sampled. Disconnection never deletes a record.
pub proof fn lemma_gamepads_persist(
    v: InputMessageView,
    evs: Seq<Event>,
    sample: Option<SampleView>,
    now: u64,
    id: u64,
)
    requires
        v.gamepads.dom().contains(id),
    ensures
        cycle_view(v, evs, sample, now).gamepads.dom().contains(id),
{
    lemma_drain_persists(v.gamepads, evs, now, id);
}

/// An idle cycle — nothing queued, nothing enumerated — republishes every
/// record exactly as it was, only the publish time moving.
pub proof fn lemma_idle_cycle(v: InputMessageView, now: u64)
    ensures
        cycle_view(v, Seq::empty(), None, now).gamepads == v.gamepads,
        cycle_view(v, Seq::empty(), None, now).time == now,
{
}

} // verus!
