//! The closed button and axis taxonomies of the device source, and the
//! discrete events it reports.

use vstd::prelude::*;

verus! {

/// Number of logical buttons, `Button::Unknown` included.
pub const NUM_BUTTONS: usize = 20;

/// Number of logical axes, `Axis::Unknown` included.
pub const NUM_AXES: usize = 9;

/// A logical gamepad button. `Unknown` is the catch-all for upstream
/// values not modeled here.
#[derive(Clone, Copy, Debug, PartialEq, Eq, Structural, Hash)]
pub enum Button {
    South,
    East,
    North,
    West,
    C,
    Z,
    LeftTrigger,
    LeftTrigger2,
    RightTrigger,
    RightTrigger2,
    Select,
    Start,
    Mode,
    LeftThumb,
    RightThumb,
    DPadUp,
    DPadDown,
    DPadLeft,
    DPadRight,
    Unknown,
}

/// A logical gamepad axis. `Unknown` is the catch-all for upstream
/// values not modeled here.
#[derive(Clone, Copy, Debug, PartialEq, Eq, Structural, Hash)]
pub enum Axis {
    LeftStickX,
    LeftStickY,
    LeftZ,
    RightStickX,
    RightStickY,
    RightZ,
    DPadX,
    DPadY,
    Unknown,
}

/// Position of a button in the fixed per-gamepad tables.
pub open spec fn button_code(b: Button) -> int {
    match b {
        Button::South => 0,
        Button::East => 1,
        Button::North => 2,
        Button::West => 3,
        Button::C => 4,
        Button::Z => 5,
        Button::LeftTrigger => 6,
        Button::LeftTrigger2 => 7,
        Button::RightTrigger => 8,
        Button::RightTrigger2 => 9,
        Button::Select => 10,
        Button::Start => 11,
        Button::Mode => 12,
        Button::LeftThumb => 13,
        Button::RightThumb => 14,
        Button::DPadUp => 15,
        Button::DPadDown => 16,
        Button::DPadLeft => 17,
        Button::DPadRight => 18,
        Button::Unknown => 19,
    }
}

/// Position of an axis in the fixed per-gamepad tables.
pub open spec fn axis_code(a: Axis) -> int {
    match a {
        Axis::LeftStickX => 0,
        Axis::LeftStickY => 1,
        Axis::LeftZ => 2,
        Axis::RightStickX => 3,
        Axis::RightStickY => 4,
        Axis::RightZ => 5,
        Axis::DPadX => 6,
        Axis::DPadY => 7,
        Axis::Unknown => 8,
    }
}

/// Executable form of [`button_code`].
pub fn button_index(b: Button) -> (r: usize)
    ensures
        r == button_code(b),
        r < NUM_BUTTONS,
{
    match b {
        Button::South => 0,
        Button::East => 1,
        Button::North => 2,
        Button::West => 3,
        Button::C => 4,
        Button::Z => 5,
        Button::LeftTrigger => 6,
        Button::LeftTrigger2 => 7,
        Button::RightTrigger => 8,
        Button::RightTrigger2 => 9,
        Button::Select => 10,
        Button::Start => 11,
        Button::Mode => 12,
        Button::LeftThumb => 13,
        Button::RightThumb => 14,
        Button::DPadUp => 15,
        Button::DPadDown => 16,
        Button::DPadLeft => 17,
        Button::DPadRight => 18,
        Button::Unknown => 19,
    }
}

/// Executable form of [`axis_code`].
pub fn axis_index(a: Axis) -> (r: usize)
    ensures
        r == axis_code(a),
        r < NUM_AXES,
{
    match a {
        Axis::LeftStickX => 0,
        Axis::LeftStickY => 1,
        Axis::LeftZ => 2,
        Axis::RightStickX => 3,
        Axis::RightStickY => 4,
        Axis::RightZ => 5,
        Axis::DPadX => 6,
        Axis::DPadY => 7,
        Axis::Unknown => 8,
    }
}

impl Button {
    /// The buttons whose pressed level the device source can be asked for,
    /// in the order a poll walks them. `Unknown` is not pollable.
    pub fn all_buttons() -> (r: Vec<Button>)
        ensures
            r@ =~= seq![
                Button::South,
                Button::East,
                Button::North,
                Button::West,
                Button::C,
                Button::Z,
                Button::LeftTrigger,
                Button::LeftTrigger2,
                Button::RightTrigger,
                Button::RightTrigger2,
                Button::Select,
                Button::Start,
                Button::Mode,
                Button::LeftThumb,
                Button::RightThumb,
                Button::DPadUp,
                Button::DPadDown,
                Button::DPadLeft,
                Button::DPadRight,
            ],
    {
        vec![
            Button::South,
            Button::East,
            Button::North,
            Button::West,
            Button::C,
            Button::Z,
            Button::LeftTrigger,
            Button::LeftTrigger2,
            Button::RightTrigger,
            Button::RightTrigger2,
            Button::Select,
            Button::Start,
            Button::Mode,
            Button::LeftThumb,
            Button::RightThumb,
            Button::DPadUp,
            Button::DPadDown,
            Button::DPadLeft,
            Button::DPadRight,
        ]
    }
}

impl Axis {
    /// The axes the snapshot can carry a value for, `Unknown` excluded.
    pub fn all_axes() -> (r: Vec<Axis>)
        ensures
            r@ =~= seq![
                Axis::LeftStickX,
                Axis::LeftStickY,
                Axis::LeftZ,
                Axis::RightStickX,
                Axis::RightStickY,
                Axis::RightZ,
                Axis::DPadX,
                Axis::DPadY,
            ],
    {
        vec![
            Axis::LeftStickX,
            Axis::LeftStickY,
            Axis::LeftZ,
            Axis::RightStickX,
            Axis::RightStickY,
            Axis::RightZ,
            Axis::DPadX,
            Axis::DPadY,
        ]
    }
}

/// What one discrete device-source event did. An axis value travels as the
/// bit pattern of its 32-bit floating-point reading; the library never
/// interprets it, only stores the latest one.
#[derive(Clone, Copy, Debug, PartialEq, Eq, Structural)]
pub enum EventKind {
    ButtonPressed(Button),
    ButtonReleased(Button),
    AxisChanged(Axis, u32),
    Connected,
    Disconnected,
    Other,
}

/// One discrete event, tagged with the gamepad it concerns.
#[derive(Clone, Copy, Debug, PartialEq, Eq, Structural)]
pub struct Event {
    pub gamepad_id: u64,
    pub kind: EventKind,
}

} // verus!
