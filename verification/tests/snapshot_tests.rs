use gamepad_remote::input::{button_index, axis_index, Axis, Button, Event, EventKind};
use gamepad_remote::snapshot::{InputMessage, PolledSample};

fn ev(id: u64, kind: EventKind) -> Event {
    Event { gamepad_id: id, kind }
}

#[test]
fn connected_event_with_polled_name() {
    let mut m = InputMessage::new(0);
    let events = vec![ev(0, EventKind::Connected)];
    let sample = PolledSample {
        gamepad_id: 0,
        connected: true,
        name: String::from("Pad A"),
        button_levels: Vec::new(),
    };
    m.run_cycle(&events, Some(sample), 42);

    assert_eq!(m.gamepads.len(), 1);
    let pad = m.gamepad(0).unwrap();
    assert_eq!(pad.name, "Pad A");
    assert!(pad.connected);
    assert!(pad.button_down_event_counter.iter().all(|c| c.is_none()));
    assert!(pad.button_up_event_counter.iter().all(|c| c.is_none()));
    assert!(pad.axis_state.iter().all(|a| a.is_none()));
    assert_eq!(pad.last_event_time, 42);
    assert_eq!(m.time, 42);
}

#[test]
fn press_then_release_counts_once_each() {
    let mut m = InputMessage::new(0);
    m.apply_event(ev(0, EventKind::ButtonPressed(Button::South)), 5);
    m.apply_event(ev(0, EventKind::ButtonReleased(Button::South)), 6);

    let pad = m.gamepad(0).unwrap();
    assert_eq!(pad.button_down_event_counter[button_index(Button::South)], Some(1));
    assert_eq!(pad.button_up_event_counter[button_index(Button::South)], Some(1));
    assert_eq!(pad.button_down_event_counter[button_index(Button::East)], None);
    assert_eq!(pad.last_event_time, 6);
}

#[test]
fn axis_change_last_write_wins() {
    let mut m = InputMessage::new(0);
    let first = 0.73f32.to_bits();
    let second = (-0.2f32).to_bits();
    m.apply_event(ev(0, EventKind::AxisChanged(Axis::LeftStickX, first)), 1);
    m.apply_event(ev(0, EventKind::AxisChanged(Axis::LeftStickX, second)), 2);

    let pad = m.gamepad(0).unwrap();
    assert_eq!(pad.axis_state[axis_index(Axis::LeftStickX)], Some(second));
    assert_eq!(f32::from_bits(pad.axis_state[axis_index(Axis::LeftStickX)].unwrap()), -0.2);
    assert_eq!(pad.axis_state[axis_index(Axis::LeftStickY)], None);
}

#[test]
fn counters_match_event_tallies_exactly() {
    let mut m = InputMessage::new(0);
    for _ in 0..7 {
        m.apply_event(ev(3, EventKind::ButtonPressed(Button::West)), 10);
    }
    for _ in 0..4 {
        m.apply_event(ev(3, EventKind::ButtonReleased(Button::West)), 11);
    }
    let pad = m.gamepad(3).unwrap();
    assert_eq!(pad.button_down_event_counter[button_index(Button::West)], Some(7));
    assert_eq!(pad.button_up_event_counter[button_index(Button::West)], Some(4));
}

#[test]
fn events_create_and_isolate_records() {
    let mut m = InputMessage::new(0);
    m.apply_event(ev(1, EventKind::ButtonPressed(Button::Start)), 1);
    assert_eq!(m.gamepads.len(), 1);
    m.apply_event(ev(2, EventKind::Connected), 2);
    assert_eq!(m.gamepads.len(), 2);

    let one = m.gamepad(1).unwrap();
    assert_eq!(one.button_down_event_counter[button_index(Button::Start)], Some(1));
    assert!(!one.connected);
    assert_eq!(one.last_event_time, 1);

    let two = m.gamepad(2).unwrap();
    assert_eq!(two.button_down_event_counter[button_index(Button::Start)], None);
    assert!(two.connected);
    assert_eq!(two.last_event_time, 2);

    m.apply_event(ev(1, EventKind::ButtonPressed(Button::Start)), 3);
    assert_eq!(m.gamepads.len(), 2);
    assert_eq!(m.gamepad(2).unwrap().last_event_time, 2);
}

#[test]
fn disconnected_poll_keeps_levels_but_refreshes_identity() {
    let mut m = InputMessage::new(0);
    let levels = vec![(Button::South, true), (Button::East, false)];
    m.refresh_polled_state(0, true, String::from("Old Name"), &levels);
    {
        let pad = m.gamepad(0).unwrap();
        assert_eq!(pad.button_pressed[button_index(Button::South)], Some(true));
        assert_eq!(pad.button_pressed[button_index(Button::East)], Some(false));
    }

    let stale = vec![(Button::South, false), (Button::East, true)];
    m.refresh_polled_state(0, false, String::from("New Name"), &stale);
    let pad = m.gamepad(0).unwrap();
    assert_eq!(pad.button_pressed[button_index(Button::South)], Some(true));
    assert_eq!(pad.button_pressed[button_index(Button::East)], Some(false));
    assert!(!pad.connected);
    assert_eq!(pad.name, "New Name");
}

#[test]
fn poll_does_not_touch_event_accumulated_fields() {
    let mut m = InputMessage::new(0);
    m.apply_event(ev(0, EventKind::ButtonPressed(Button::South)), 7);
    m.apply_event(ev(0, EventKind::AxisChanged(Axis::DPadX, 0.5f32.to_bits())), 8);

    let levels: Vec<(Button, bool)> =
        Button::all_buttons().into_iter().map(|b| (b, false)).collect();
    m.refresh_polled_state(0, true, String::from("Pad"), &levels);

    let pad = m.gamepad(0).unwrap();
    assert_eq!(pad.button_down_event_counter[button_index(Button::South)], Some(1));
    assert_eq!(pad.axis_state[axis_index(Axis::DPadX)], Some(0.5f32.to_bits()));
    assert_eq!(pad.last_event_time, 8);
    for b in Button::all_buttons() {
        assert_eq!(pad.button_pressed[button_index(b)], Some(false));
    }
    assert_eq!(pad.button_pressed[button_index(Button::Unknown)], None);
}

#[test]
fn duplicate_level_pair_later_wins() {
    let mut m = InputMessage::new(0);
    let levels = vec![(Button::South, true), (Button::South, false)];
    m.refresh_polled_state(9, true, String::from("Pad"), &levels);
    let pad = m.gamepad(9).unwrap();
    assert_eq!(pad.button_pressed[button_index(Button::South)], Some(false));
}

#[test]
fn cycle_times_strictly_increase() {
    let mut m = InputMessage::new(0);
    let no_events: Vec<Event> = Vec::new();
    m.run_cycle(&no_events, None, 100);
    let t1 = m.time;
    m.run_cycle(&no_events, None, 150);
    let t2 = m.time;
    assert!(t1 < t2);
    assert_eq!(t1, 100);
    assert_eq!(t2, 150);
}

#[test]
fn records_survive_cycles_that_enumerate_nothing() {
    let mut m = InputMessage::new(0);
    let seed = vec![
        ev(4, EventKind::Connected),
        ev(4, EventKind::ButtonPressed(Button::North)),
        ev(4, EventKind::Disconnected),
    ];
    m.run_cycle(&seed, None, 10);
    assert!(!m.gamepad(4).unwrap().connected);

    let no_events: Vec<Event> = Vec::new();
    for now in [20u64, 30, 40] {
        m.run_cycle(&no_events, None, now);
        let pad = m.gamepad(4).unwrap();
        assert_eq!(pad.button_down_event_counter[button_index(Button::North)], Some(1));
        assert!(!pad.connected);
        assert_eq!(pad.last_event_time, 10);
        assert_eq!(m.time, now);
    }
    assert_eq!(m.gamepads.len(), 1);
}

#[test]
fn unrecognized_event_only_creates_the_record() {
    let mut m = InputMessage::new(0);
    m.apply_event(ev(6, EventKind::Other), 99);
    assert_eq!(m.gamepads.len(), 1);
    let pad = m.gamepad(6).unwrap();
    assert!(!pad.connected);
    assert_eq!(pad.last_event_time, 0);
    assert!(pad.button_down_event_counter.iter().all(|c| c.is_none()));
}

#[test]
fn connect_disconnect_flip_the_flag() {
    let mut m = InputMessage::new(0);
    m.apply_event(ev(0, EventKind::Connected), 1);
    assert!(m.gamepad(0).unwrap().connected);
    m.apply_event(ev(0, EventKind::Disconnected), 2);
    let pad = m.gamepad(0).unwrap();
    assert!(!pad.connected);
    assert_eq!(pad.last_event_time, 2);
}

#[test]
fn unknown_button_has_its_own_counter_slot() {
    let mut m = InputMessage::new(0);
    m.apply_event(ev(0, EventKind::ButtonPressed(Button::Unknown)), 1);
    let pad = m.gamepad(0).unwrap();
    assert_eq!(pad.button_down_event_counter[button_index(Button::Unknown)], Some(1));
    assert_eq!(pad.button_down_event_counter[button_index(Button::South)], None);
}

#[test]
fn enumerations_cover_the_pollable_sets() {
    let buttons = Button::all_buttons();
    assert_eq!(buttons.len(), 19);
    assert_eq!(buttons[0], Button::South);
    assert_eq!(buttons[18], Button::DPadRight);
    assert!(!buttons.contains(&Button::Unknown));

    let axes = Axis::all_axes();
    assert_eq!(axes.len(), 8);
    assert_eq!(axes[0], Axis::LeftStickX);
    assert_eq!(axes[7], Axis::DPadY);
    assert!(!axes.contains(&Axis::Unknown));
}

#[test]
fn cycle_drains_events_in_reported_order() {
    let mut m = InputMessage::new(0);
    let events = vec![
        ev(0, EventKind::AxisChanged(Axis::RightZ, 1.0f32.to_bits())),
        ev(0, EventKind::AxisChanged(Axis::RightZ, 0.25f32.to_bits())),
        ev(0, EventKind::ButtonPressed(Button::Z)),
        ev(0, EventKind::ButtonPressed(Button::Z)),
    ];
    m.run_cycle(&events, None, 60);
    let pad = m.gamepad(0).unwrap();
    assert_eq!(pad.axis_state[axis_index(Axis::RightZ)], Some(0.25f32.to_bits()));
    assert_eq!(pad.button_down_event_counter[button_index(Button::Z)], Some(2));
    assert_eq!(m.time, 60);
}

#[test]
fn fresh_snapshot_is_empty_and_stamped() {
    let m = InputMessage::new(7);
    assert_eq!(m.time, 7);
    assert!(m.gamepads.is_empty());
    assert!(m.gamepad(0).is_none());
}

#[test]
fn poll_alone_creates_a_record() {
    let mut m = InputMessage::new(0);
    let events: Vec<Event> = Vec::new();
    let sample = PolledSample {
        gamepad_id: 3,
        connected: true,
        name: String::from("Pad B"),
        button_levels: vec![(Button::South, true)],
    };
    m.run_cycle(&events, Some(sample), 9);

    assert_eq!(m.gamepads.len(), 1);
    let pad = m.gamepad(3).unwrap();
    assert_eq!(pad.name, "Pad B");
    assert!(pad.connected);
    assert_eq!(pad.button_pressed[button_index(Button::South)], Some(true));
    assert_eq!(pad.last_event_time, 0);
    assert!(pad.button_down_event_counter.iter().all(|c| c.is_none()));
}
