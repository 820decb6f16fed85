//! The published snapshot: one record per gamepad id plus a publish
//! timestamp, and the per-tick cycle that drains events into it, refreshes
//! one gamepad from a poll, and stamps the time.

use vstd::prelude::*;
use crate::input::{Button, Event};
use crate::gamepad::{GamepadMessage, GamepadView, gamepad_view_wf, default_gamepad_view,
    apply_kind_view, refresh_view};

verus! {

/// Mathematical model of an [`InputMessage`]: the gamepad records as a map
/// keyed by id, and the publish timestamp in milliseconds since the epoch.
#[verifier::ext_equal]
pub ghost struct InputMessageView {
    pub gamepads: Map<u64, GamepadView>,
    pub time: u64,
}

/// The aggregated snapshot. `gamepads` holds one entry per gamepad id ever
/// seen, in first-seen order; an id is never removed, disconnection only
/// flips its record's flag.
pub struct InputMessage {
    pub gamepads: Vec<(u64, GamepadMessage)>,
    pub time: u64,
}

/// One direct poll of a gamepad, as the device source answered it: its id,
/// connection flag, display name, and the polled `(button, level)` pairs.
pub struct PolledSample {
    pub gamepad_id: u64,
    pub connected: bool,
    pub name: String,
    pub button_levels: Vec<(Button, bool)>,
}

/// Mathematical model of a [`PolledSample`].
#[verifier::ext_equal]
pub ghost struct SampleView {
    pub gamepad_id: u64,
    pub connected: bool,
    pub name: Seq<char>,
    pub button_levels: Seq<(Button, bool)>,
}

impl View for PolledSample {
    type V = SampleView;

    open spec fn view(&self) -> SampleView {
        SampleView {
            gamepad_id: self.gamepad_id,
            connected: self.connected,
            name: self.name@,
            button_levels: self.button_levels@,
        }
    }
}

pub open spec fn opt_sample_view(s: Option<PolledSample>) -> Option<SampleView> {
    match s {
        Some(p) => Some(p@),
        None => None,
    }
}

/// No two entries carry the same gamepad id.
pub open spec fn unique_keys(s: Seq<(u64, GamepadMessage)>) -> bool {
    forall|i: int, j: int|
        #![trigger s[i].0, s[j].0]
        0 <= i < j < s.len() ==> s[i].0 != s[j].0
}

/// The entry list read as a map from gamepad id to record model.
pub open spec fn table_view(s: Seq<(u64, GamepadMessage)>) -> Map<u64, GamepadView>
    decreases s.len(),
{
    if s.len() == 0 {
        Map::empty()
    } else {
        table_view(s.drop_last()).insert(s.last().0, s.last().1@)
    }
}

/// Some entry carries id `k`.
pub open spec fn has_key(s: Seq<(u64, GamepadMessage)>, k: u64) -> bool {
    exists|i: int| 0 <= i < s.len() && (#[trigger] s[i]).0 == k
}

/// Membership in the map view is exactly membership in the entry list.
pub proof fn lemma_table_view_contains(s: Seq<(u64, GamepadMessage)>, k: u64)
    ensures
        table_view(s).dom().contains(k) <==> has_key(s, k),
    decreases s.len(),
{
    if s.len() > 0 {
        lemma_table_view_contains(s.drop_last(), k);
        if s.last().0 == k {
            assert(s[s.len() - 1].0 == k);
        } else {
            if has_key(s, k) {
                let i = choose|i: int| 0 <= i < s.len() && (#[trigger] s[i]).0 == k;
                assert(s.drop_last()[i].0 == k);
            }
            if has_key(s.drop_last(), k) {
                let i = choose|i: int|
                    0 <= i < s.drop_last().len() && (#[trigger] s.drop_last()[i]).0 == k;
                assert(s[i].0 == k);
            }
        }
    }
}

/// With unique keys, the map view sends entry `i`'s id to entry `i`'s record.
pub proof fn lemma_table_view_get(s: Seq<(u64, GamepadMessage)>, i: int)
    requires
        unique_keys(s),
        0 <= i < s.len(),
    ensures
        table_view(s).dom().contains(s[i].0),
        table_view(s)[s[i].0] == s[i].1@,
    decreases s.len(),
{
    if i < s.len() - 1 {
        assert(unique_keys(s.drop_last()));
        assert(s.drop_last()[i] == s[i]);
        lemma_table_view_get(s.drop_last(), i);
        assert(s[i].0 != s.last().0);
    }
}

/// Replacing entry `i`'s record, id kept, is an insert in the map view.
pub proof fn lemma_table_view_update(s: Seq<(u64, GamepadMessage)>, i: int, g: GamepadMessage)
    requires
        unique_keys(s),
        0 <= i < s.len(),
    ensures
        table_view(s.update(i, (s[i].0, g))) =~= table_view(s).insert(s[i].0, g@),
    decreases s.len(),
{
    let t = s.update(i, (s[i].0, g));
    if i == s.len() - 1 {
        assert(t.drop_last() =~= s.drop_last());
        assert(t.last() == (s[i].0, g));
        assert(table_view(t) =~= table_view(s).insert(s[i].0, g@));
    } else {
        assert(unique_keys(s.drop_last()));
        assert(s.drop_last()[i] == s[i]);
        lemma_table_view_update(s.drop_last(), i, g);
        assert(t.drop_last() =~= s.drop_last().update(i, (s[i].0, g)));
        assert(t.last() == s.last());
        assert(s[i].0 != s.last().0);
        assert(table_view(t) =~= table_view(s).insert(s[i].0, g@));
    }
}

/// What one drained event does to the gamepad map: the one targeted record
/// — a fresh default one if the id is new — moves through
/// [`apply_kind_view`]; every other record is untouched.
pub open spec fn apply_event_view(
    m: Map<u64, GamepadView>,
    ev: Event,
    now: u64,
) -> Map<u64, GamepadView> {
    let prev = if m.dom().contains(ev.gamepad_id) {
        m[ev.gamepad_id]
    } else {
        default_gamepad_view()
    };
    m.insert(ev.gamepad_id, apply_kind_view(prev, ev.kind, now))
}

/// What one direct poll does to the gamepad map: the one sampled record —
/// a fresh default one if the id is new — moves through [`refresh_view`];
/// every other record is untouched.
pub open spec fn refresh_map_view(
    m: Map<u64, GamepadView>,
    id: u64,
    connected: bool,
    name: Seq<char>,
    pairs: Seq<(Button, bool)>,
) -> Map<u64, GamepadView> {
    let prev = if m.dom().contains(id) {
        m[id]
    } else {
        default_gamepad_view()
    };
    m.insert(id, refresh_view(prev, connected, name, pairs))
}

/// Draining a queue of events: each is applied in the order reported.
pub open spec fn drain_view(
    m: Map<u64, GamepadView>,
    evs: Seq<Event>,
    now: u64,
) -> Map<u64, GamepadView>
    decreases evs.len(),
{
    if evs.len() == 0 {
        m
    } else {
        apply_event_view(drain_view(m, evs.drop_last(), now), evs.last(), now)
    }
}

/// One full publish cycle over the model: drain all queued events, refresh
/// the sampled gamepad if one was enumerated, stamp the publish time.
pub open spec fn cycle_view(
    v: InputMessageView,
    evs: Seq<Event>,
    sample: Option<SampleView>,
    now: u64,
) -> InputMessageView {
    let drained = drain_view(v.gamepads, evs, now);
    let sampled = match sample {
        Some(s) => refresh_map_view(drained, s.gamepad_id, s.connected, s.name, s.button_levels),
        None => drained,
    };
    InputMessageView { gamepads: sampled, time: now }
}

impl View for InputMessage {
    type V = InputMessageView;

    open spec fn view(&self) -> InputMessageView {
        InputMessageView { gamepads: table_view(self.gamepads@), time: self.time }
    }
}

impl InputMessage {
    /// Ids are unique and every record has its tables at full length.
    pub open spec fn wf(&self) -> bool {
        &&& unique_keys(self.gamepads@)
        &&& forall|i: int|
            0 <= i < self.gamepads@.len() ==> gamepad_view_wf((#[trigger] self.gamepads@[i]).1@)
    }

    /// An empty snapshot stamped with `now`.
    pub fn new(now: u64) -> (r: Self)
        ensures
            r.wf(),
            r@.gamepads =~= Map::<u64, GamepadView>::empty(),
            r@.time == now,
    {
        InputMessage { gamepads: Vec::new(), time: now }
    }

    /// Index of the entry for `id`, if one exists.
    fn find(&self, id: u64) -> (r: Option<usize>)
        ensures
            match r {
                Some(i) => i < self.gamepads@.len() && self.gamepads@[i as int].0 == id,
                None => !has_key(self.gamepads@, id),
            },
    {
        let mut i: usize = 0;
        while i < self.gamepads.len()
            invariant
                i <= self.gamepads@.len(),
                forall|j: int| 0 <= j < i ==> (#[trigger] self.gamepads@[j]).0 != id,
            decreases self.gamepads@.len() - i,
        {
            if self.gamepads[i].0 == id {
                return Some(i);
            }
            i = i + 1;
        }
        None
    }

    /// The record for `id`, if that gamepad has been seen.
    pub fn gamepad(&self, id: u64) -> (r: Option<&GamepadMessage>)
        requires
            self.wf(),
        ensures
            match r {
                Some(g) => self@.gamepads.dom().contains(id) && g@ == self@.gamepads[id],
                None => !self@.gamepads.dom().contains(id),
            },
    {
        proof {
            lemma_table_view_contains(self.gamepads@, id);
        }
        match self.find(id) {
            Some(i) => {
                proof {
                    lemma_table_view_get(self.gamepads@, i as int);
                }
                Some(&self.gamepads[i].1)
            },
            None => None,
        }
    }

    /// Apply one discrete device-source event, creating the record for a
    /// first-seen id; no other record and not the publish time changes.
    pub fn apply_event(&mut self, ev: Event, now: u64)
        requires
            old(self).wf(),
        ensures
            final(self).wf(),
            final(self)@.gamepads =~= apply_event_view(old(self)@.gamepads, ev, now),
            final(self).time == old(self).time,
    {
        proof {
            lemma_table_view_contains(self.gamepads@, ev.gamepad_id);
        }
        match self.find(ev.gamepad_id) {
            Some(i) => {
                let ghost s0 = self.gamepads@;
                proof {
                    lemma_table_view_get(s0, i as int);
                }
                let (k, mut g) = self.gamepads.remove(i);
                g.apply_kind(ev.kind, now);
                self.gamepads.insert(i, (k, g));
                proof {
                    assert(self.gamepads@ =~= s0.update(i as int, (s0[i as int].0, g)));
                    lemma_table_view_update(s0, i as int, g);
                    assert(unique_keys(self.gamepads@));
                }
            },
            None => {
                let ghost s0 = self.gamepads@;
                let mut g = GamepadMessage::default();
                g.apply_kind(ev.kind, now);
                self.gamepads.push((ev.gamepad_id, g));
                proof {
                    assert(self.gamepads@.drop_last() =~= s0);
                    assert(unique_keys(self.gamepads@));
                }
            },
        }
    }

    /// Overwrite one gamepad's poll-refreshed fields from a direct poll,
    /// creating the record for a first-seen id; no other record and not
    /// the publish time changes.
    pub fn refresh_polled_state(
        &mut self,
        id: u64,
        connected: bool,
        name: String,
        pairs: &Vec<(Button, bool)>,
    )
        requires
            old(self).wf(),
        ensures
            final(self).wf(),
            final(self)@.gamepads =~= refresh_map_view(
                old(self)@.gamepads,
                id,
                connected,
                name@,
                pairs@,
            ),
            final(self).time == old(self).time,
    {
        proof {
            lemma_table_view_contains(self.gamepads@, id);
        }
        match self.find(id) {
            Some(i) => {
                let ghost s0 = self.gamepads@;
                proof {
                    lemma_table_view_get(s0, i as int);
                }
                let (k, mut g) = self.gamepads.remove(i);
                g.refresh(connected, name, pairs);
                self.gamepads.insert(i, (k, g));
                proof {
                    assert(self.gamepads@ =~= s0.update(i as int, (s0[i as int].0, g)));
                    lemma_table_view_update(s0, i as int, g);
                    assert(unique_keys(self.gamepads@));
                }
            },
            None => {
                let ghost s0 = self.gamepads@;
                let mut g = GamepadMessage::default();
                g.refresh(connected, name, pairs);
                self.gamepads.push((id, g));
                proof {
                    assert(self.gamepads@.drop_last() =~= s0);
                    assert(unique_keys(self.gamepads@));
                }
            },
        }
    }

    /// One full publish cycle: drain `events` in order, refresh from
    /// `sample` if the device source enumerated a gamepad this tick, and
    /// stamp `now` as the publish time. The caller serializes and
    /// publishes the result afterwards.
    pub fn run_cycle(&mut self, events: &Vec<Event>, sample: Option<PolledSample>, now: u64)
        requires
            old(self).wf(),
        ensures
            final(self).wf(),
            final(self)@ =~= cycle_view(old(self)@, events@, opt_sample_view(sample), now),
    {
        let mut idx: usize = 0;
        while idx < events.len()
            invariant
                idx <= events@.len(),
                self.wf(),
                self@.gamepads =~= drain_view(
                    old(self)@.gamepads,
                    events@.subrange(0, idx as int),
                    now,
                ),
                self.time == old(self).time,
            decreases events@.len() - idx,
        {
            let ev = events[idx];
            self.apply_event(ev, now);
            proof {
                assert(events@.subrange(0, idx as int + 1).drop_last() =~= events@.subrange(
                    0,
                    idx as int,
                ));
                assert(events@.subrange(0, idx as int + 1).last() == ev);
            }
            idx = idx + 1;
        }
        proof {
            assert(events@.subrange(0, events@.len() as int) =~= events@);
        }
        match sample {
            Some(s) => {
                let PolledSample { gamepad_id, connected, name, button_levels } = s;
                self.refresh_polled_state(gamepad_id, connected, name, &button_levels);
            },
            None => {},
        }
        self.time = now;
    }
}

} // verus!
