//! One gamepad's accumulated record and the two ways it is updated:
//! discrete events (durable, accumulating) and direct polls (last-write-wins).

use vstd::prelude::*;
use crate::input::{Button, EventKind, button_code, axis_code, button_index, axis_index, NUM_BUTTONS,
    NUM_AXES};

verus! {

/// Mathematical model of a [`GamepadMessage`]. The four tables are fixed
/// length, indexed by [`button_code`] / [`axis_code`]; `None` marks a key the
/// wire form leaves out.
#[verifier::ext_equal]
pub ghost struct GamepadView {
    pub name: Seq<char>,
    pub button_down_event_counter: Seq<Option<usize>>,
    pub button_up_event_counter: Seq<Option<usize>>,
    pub button_pressed: Seq<Option<bool>>,
    pub axis_state: Seq<Option<u32>>,
    pub connected: bool,
    pub last_event_time: u64,
}

/// One gamepad's accumulated state. Counters and axis values come from
/// events; `button_pressed` comes from polls; `connected` and `name` come
/// from both channels. Timestamps are milliseconds since the epoch, `0`
/// standing for "no event yet".
pub struct GamepadMessage {
    pub name: String,
    pub button_down_event_counter: Vec<Option<usize>>,
    pub button_up_event_counter: Vec<Option<usize>>,
    pub button_pressed: Vec<Option<bool>>,
    pub axis_state: Vec<Option<u32>>,
    pub connected: bool,
    pub last_event_time: u64,
}

impl View for GamepadMessage {
    type V = GamepadView;

    open spec fn view(&self) -> GamepadView {
        GamepadView {
            name: self.name@,
            button_down_event_counter: self.button_down_event_counter@,
            button_up_event_counter: self.button_up_event_counter@,
            button_pressed: self.button_pressed@,
            axis_state: self.axis_state@,
            connected: self.connected,
            last_event_time: self.last_event_time,
        }
    }
}

/// The tables have their fixed lengths.
pub open spec fn gamepad_view_wf(g: GamepadView) -> bool {
    &&& g.button_down_event_counter.len() == NUM_BUTTONS
    &&& g.button_up_event_counter.len() == NUM_BUTTONS
    &&& g.button_pressed.len() == NUM_BUTTONS
    &&& g.axis_state.len() == NUM_AXES
}

/// A fresh record: empty name, no counters, no levels, no axis values,
/// disconnected, epoch timestamp.
pub open spec fn default_gamepad_view() -> GamepadView {
    GamepadView {
        name: Seq::empty(),
        button_down_event_counter: Seq::new(NUM_BUTTONS as nat, |i: int| None),
        button_up_event_counter: Seq::new(NUM_BUTTONS as nat, |i: int| None),
        button_pressed: Seq::new(NUM_BUTTONS as nat, |i: int| None),
        axis_state: Seq::new(NUM_AXES as nat, |i: int| None),
        connected: false,
        last_event_time: 0,
    }
}

/// One press or release bumps a lazily-created counter; at the top of the
/// machine range the counter stays put instead of wrapping.
pub open spec fn inc_counter(c: Option<usize>) -> Option<usize> {
    match c {
        None => Some(1usize),
        Some(n) => if n < usize::MAX {
            Some((n + 1) as usize)
        } else {
            Some(n)
        },
    }
}

/// What one event does to one gamepad record: presses and releases bump
/// their counters, an axis change overwrites the last value, connect and
/// disconnect flip the flag; each of those also moves `last_event_time`
/// forward to `now`. An unrecognized kind changes nothing.
pub open spec fn apply_kind_view(g: GamepadView, kind: EventKind, now: u64) -> GamepadView {
    match kind {
        EventKind::ButtonPressed(b) => GamepadView {
            button_down_event_counter: g.button_down_event_counter.update(
                button_code(b),
                inc_counter(g.button_down_event_counter[button_code(b)]),
            ),
            last_event_time: now,
            ..g
        },
        EventKind::ButtonReleased(b) => GamepadView {
            button_up_event_counter: g.button_up_event_counter.update(
                button_code(b),
                inc_counter(g.button_up_event_counter[button_code(b)]),
            ),
            last_event_time: now,
            ..g
        },
        EventKind::AxisChanged(a, bits) => GamepadView {
            axis_state: g.axis_state.update(axis_code(a), Some(bits)),
            last_event_time: now,
            ..g
        },
        EventKind::Connected => GamepadView { connected: true, last_event_time: now, ..g },
        EventKind::Disconnected => GamepadView { connected: false, last_event_time: now, ..g },
        EventKind::Other => g,
    }
}

/// Folding a polled `(button, level)` list into the level table, in order;
/// a button named twice keeps its later level.
pub open spec fn apply_level_pairs(
    levels: Seq<Option<bool>>,
    pairs: Seq<(Button, bool)>,
) -> Seq<Option<bool>>
    decreases pairs.len(),
{
    if pairs.len() == 0 {
        levels
    } else {
        apply_level_pairs(levels, pairs.drop_last()).update(
            button_code(pairs.last().0),
            Some(pairs.last().1),
        )
    }
}

/// What one direct poll does to one gamepad record: `connected` and `name`
/// are always overwritten; the level table is rewritten from the polled
/// pairs only while the device is connected — levels of a disconnected
/// device are not queryable and keep their last value. Counters, axis
/// values and `last_event_time` are never touched by a poll.
pub open spec fn refresh_view(
    g: GamepadView,
    connected: bool,
    name: Seq<char>,
    pairs: Seq<(Button, bool)>,
) -> GamepadView {
    if connected {
        GamepadView {
            connected: connected,
            name: name,
            button_pressed: apply_level_pairs(g.button_pressed, pairs),
            ..g
        }
    } else {
        GamepadView { connected: connected, name: name, ..g }
    }
}

proof fn lemma_apply_level_pairs_len(levels: Seq<Option<bool>>, pairs: Seq<(Button, bool)>)
    requires
        levels.len() == NUM_BUTTONS,
    ensures
        apply_level_pairs(levels, pairs).len() == levels.len(),
    decreases pairs.len(),
{
    if pairs.len() > 0 {
        lemma_apply_level_pairs_len(levels, pairs.drop_last());
    }
}

impl Default for GamepadMessage {
    /// A fresh record, as [`default_gamepad_view`] describes it.
    fn default() -> (r: Self)
        ensures
            r@ =~= default_gamepad_view(),
            gamepad_view_wf(r@),
    {
        let r = GamepadMessage {
            name: String::new(),
            button_down_event_counter: vec![None; NUM_BUTTONS],
            button_up_event_counter: vec![None; NUM_BUTTONS],
            button_pressed: vec![None; NUM_BUTTONS],
            axis_state: vec![None; NUM_AXES],
            connected: false,
            last_event_time: 0,
        };
        proof {
            assert(r@.button_down_event_counter =~= default_gamepad_view().button_down_event_counter);
            assert(r@.button_up_event_counter =~= default_gamepad_view().button_up_event_counter);
            assert(r@.button_pressed =~= default_gamepad_view().button_pressed);
            assert(r@.axis_state =~= default_gamepad_view().axis_state);
        }
        r
    }
}

impl GamepadMessage {
    /// Table lengths are as [`gamepad_view_wf`] asks.
    pub open spec fn wf(&self) -> bool {
        gamepad_view_wf(self@)
    }

    /// Apply one discrete event to this record, stamping `now` as the
    /// last-event time for every recognized kind.
    pub fn apply_kind(&mut self, kind: EventKind, now: u64)
        requires
            old(self).wf(),
        ensures
            final(self).wf(),
            final(self)@ =~= apply_kind_view(old(self)@, kind, now),
    {
        match kind {
            EventKind::ButtonPressed(b) => {
                let i = button_index(b);
                let cur: usize = match self.button_down_event_counter[i] {
                    Some(n) => n,
                    None => 0,
                };
                let bumped: usize = if cur < usize::MAX {
                    cur + 1
                } else {
                    cur
                };
                self.button_down_event_counter.set(i, Some(bumped));
                self.last_event_time = now;
            },
            EventKind::ButtonReleased(b) => {
                let i = button_index(b);
                let cur: usize = match self.button_up_event_counter[i] {
                    Some(n) => n,
                    None => 0,
                };
                let bumped: usize = if cur < usize::MAX {
                    cur + 1
                } else {
                    cur
                };
                self.button_up_event_counter.set(i, Some(bumped));
                self.last_event_time = now;
            },
            EventKind::AxisChanged(a, bits) => {
                let i = axis_index(a);
                self.axis_state.set(i, Some(bits));
                self.last_event_time = now;
            },
            EventKind::Connected => {
                self.connected = true;
                self.last_event_time = now;
            },
            EventKind::Disconnected => {
                self.connected = false;
                self.last_event_time = now;
            },
            EventKind::Other => {},
        }
    }

    /// Overwrite this record's poll-refreshed fields from one direct poll,
    /// as [`refresh_view`] describes.
    pub fn refresh(&mut self, connected: bool, name: String, pairs: &Vec<(Button, bool)>)
        requires
            old(self).wf(),
        ensures
            final(self).wf(),
            final(self)@ =~= refresh_view(old(self)@, connected, name@, pairs@),
    {
        self.connected = connected;
        self.name = name;
        if connected {
            let ghost levels0 = self.button_pressed@;
            let ghost entry = *self;
            let mut j: usize = 0;
            while j < pairs.len()
                invariant
                    j <= pairs.len(),
                    self.button_pressed@ =~= apply_level_pairs(
                        levels0,
                        pairs@.subrange(0, j as int),
                    ),
                    self.button_pressed@.len() == NUM_BUTTONS,
                    *self == (GamepadMessage { button_pressed: self.button_pressed, ..entry }),
                decreases pairs.len() - j,
            {
                let (b, level) = pairs[j];
                let i = button_index(b);
                self.button_pressed.set(i, Some(level));
                proof {
                    let prefix = pairs@.subrange(0, j as int);
                    let next = pairs@.subrange(0, j as int + 1);
                    assert(next.drop_last() =~= prefix);
                    assert(next.last() == (b, level));
                }
                j = j + 1;
            }
            proof {
                assert(pairs@.subrange(0, pairs@.len() as int) =~= pairs@);
                lemma_apply_level_pairs_len(levels0, pairs@);
            }
        }
    }
}

} // verus!
