//! The logical inputs of the controller and the buttons of the gamepad.

use vstd::prelude::*;

verus! {

/// Sign of a direction on an axis.
pub type Direction = bool;

pub const POSITIVE: Direction = true;

pub const NEGATIVE: Direction = false;

/// Whether a key or button is down.
pub type Pressed = bool;

pub const PRESSED: Pressed = true;

pub const RELEASED: Pressed = false;

/// The keys of the controller, as the keymap names them.
#[derive(Clone, Copy, Debug, PartialEq, Eq, Hash, Structural)]
pub enum B0xxRaw {
    A,
    B,
    L,
    R,
    X,
    Y,
    Z,
    Start,
    Left,
    Right,
    Down,
    Up,
    MX,
    MY,
    LS,
    MS,
    CU,
    CD,
    CL,
    CR,
}

#[derive(Clone, Copy, Debug, PartialEq, Eq, Hash, Structural)]
pub enum Stick {
    A,
    C,
}

#[derive(Clone, Copy, Debug, PartialEq, Eq, Hash, Structural)]
pub enum Axis {
    X,
    Y,
}

#[derive(Clone, Copy, Debug, PartialEq, Eq, Hash, Structural)]
pub enum Shield {
    Light,
    Medium,
}

/// Buttons whose state no resolver reads.
#[derive(Clone, Copy, Debug, PartialEq, Eq, Hash, Structural)]
pub enum ButtonPure {
    A,
    X,
    Y,
    Z,
    Start,
}

/// Buttons whose held state changes the A-stick magnitudes.
#[derive(Clone, Copy, Debug, PartialEq, Eq, Hash, Structural)]
pub enum ButtonImpure {
    B,
    L,
    R,
}

#[derive(Clone, Copy, Debug, PartialEq, Eq, Hash, Structural)]
pub enum Pure {
    Button(ButtonPure),
    Shield(Shield),
}

#[derive(Clone, Copy, Debug, PartialEq, Eq, Hash, Structural)]
pub enum Impure {
    Button(ButtonImpure),
    Stick(Stick, Axis, Direction),
    ModX,
    ModY,
}

/// A key classified by how the translator treats it.
#[derive(Clone, Copy, Debug, PartialEq, Eq, Hash, Structural)]
pub enum B0xx {
    Pure(Pure),
    Impure(Impure),
}

/// A button the translator emits.
#[derive(Clone, Copy, Debug, PartialEq, Eq, Hash, Structural)]
pub enum Button {
    Pure(ButtonPure),
    Impure(ButtonImpure),
    DPad(Axis, Direction),
}

/// The digital buttons of the gamepad.
#[derive(Clone, Copy, Debug, PartialEq, Eq, Hash, Structural)]
pub enum GCButton {
    A,
    B,
    DUp,
    DDown,
    DLeft,
    DRight,
    L,
    R,
    X,
    Y,
    Z,
    Start,
}

/// Time of a key event as the kernel stamps it.
#[derive(Clone, Copy, Debug, PartialEq, Eq, Hash, Structural)]
pub struct TimeVal {
    pub tv_sec: i64,
    pub tv_usec: i64,
}

/// A press or release of a controller key.
#[derive(Clone, Copy, Debug, PartialEq, Eq, Hash, Structural)]
pub struct B0xxEvent {
    pub time: TimeVal,
    pub btn: B0xxRaw,
    pub pressed: Pressed,
}

impl B0xxEvent {
    /// An event stamped at time zero.
    pub fn new_without_time(btn: B0xxRaw, pressed: Pressed) -> (r: B0xxEvent)
        ensures
            r.btn == btn,
            r.pressed == pressed,
            r.time == (TimeVal { tv_sec: 0, tv_usec: 0 }),
    {
        B0xxEvent { time: TimeVal { tv_sec: 0, tv_usec: 0 }, btn, pressed }
    }
}

impl B0xx {
    pub open spec fn spec_from(t: B0xxRaw) -> B0xx {
        match t {
            B0xxRaw::A => B0xx::Pure(Pure::Button(ButtonPure::A)),
            B0xxRaw::X => B0xx::Pure(Pure::Button(ButtonPure::X)),
            B0xxRaw::Y => B0xx::Pure(Pure::Button(ButtonPure::Y)),
            B0xxRaw::Z => B0xx::Pure(Pure::Button(ButtonPure::Z)),
            B0xxRaw::Start => B0xx::Pure(Pure::Button(ButtonPure::Start)),
            B0xxRaw::B => B0xx::Impure(Impure::Button(ButtonImpure::B)),
            B0xxRaw::L => B0xx::Impure(Impure::Button(ButtonImpure::L)),
            B0xxRaw::R => B0xx::Impure(Impure::Button(ButtonImpure::R)),
            B0xxRaw::Left => B0xx::Impure(Impure::Stick(Stick::A, Axis::X, NEGATIVE)),
            B0xxRaw::Right => B0xx::Impure(Impure::Stick(Stick::A, Axis::X, POSITIVE)),
            B0xxRaw::Down => B0xx::Impure(Impure::Stick(Stick::A, Axis::Y, NEGATIVE)),
            B0xxRaw::Up => B0xx::Impure(Impure::Stick(Stick::A, Axis::Y, POSITIVE)),
            B0xxRaw::MX => B0xx::Impure(Impure::ModX),
            B0xxRaw::MY => B0xx::Impure(Impure::ModY),
            B0xxRaw::LS => B0xx::Pure(Pure::Shield(Shield::Light)),
            B0xxRaw::MS => B0xx::Pure(Pure::Shield(Shield::Medium)),
            B0xxRaw::CU => B0xx::Impure(Impure::Stick(Stick::C, Axis::Y, POSITIVE)),
            B0xxRaw::CD => B0xx::Impure(Impure::Stick(Stick::C, Axis::Y, NEGATIVE)),
            B0xxRaw::CR => B0xx::Impure(Impure::Stick(Stick::C, Axis::X, POSITIVE)),
            B0xxRaw::CL => B0xx::Impure(Impure::Stick(Stick::C, Axis::X, NEGATIVE)),
        }
    }
}

impl From<B0xxRaw> for B0xx {
    fn from(t: B0xxRaw) -> (r: B0xx) {
        match t {
            B0xxRaw::A => B0xx::Pure(Pure::Button(ButtonPure::A)),
            B0xxRaw::X => B0xx::Pure(Pure::Button(ButtonPure::X)),
            B0xxRaw::Y => B0xx::Pure(Pure::Button(ButtonPure::Y)),
            B0xxRaw::Z => B0xx::Pure(Pure::Button(ButtonPure::Z)),
            B0xxRaw::Start => B0xx::Pure(Pure::Button(ButtonPure::Start)),
            B0xxRaw::B => B0xx::Impure(Impure::Button(ButtonImpure::B)),
            B0xxRaw::L => B0xx::Impure(Impure::Button(ButtonImpure::L)),
            B0xxRaw::R => B0xx::Impure(Impure::Button(ButtonImpure::R)),
            B0xxRaw::Left => B0xx::Impure(Impure::Stick(Stick::A, Axis::X, NEGATIVE)),
            B0xxRaw::Right => B0xx::Impure(Impure::Stick(Stick::A, Axis::X, POSITIVE)),
            B0xxRaw::Down => B0xx::Impure(Impure::Stick(Stick::A, Axis::Y, NEGATIVE)),
            B0xxRaw::Up => B0xx::Impure(Impure::Stick(Stick::A, Axis::Y, POSITIVE)),
            B0xxRaw::MX => B0xx::Impure(Impure::ModX),
            B0xxRaw::MY => B0xx::Impure(Impure::ModY),
            B0xxRaw::LS => B0xx::Pure(Pure::Shield(Shield::Light)),
            B0xxRaw::MS => B0xx::Pure(Pure::Shield(Shield::Medium)),
            B0xxRaw::CU => B0xx::Impure(Impure::Stick(Stick::C, Axis::Y, POSITIVE)),
            B0xxRaw::CD => B0xx::Impure(Impure::Stick(Stick::C, Axis::Y, NEGATIVE)),
            B0xxRaw::CR => B0xx::Impure(Impure::Stick(Stick::C, Axis::X, POSITIVE)),
            B0xxRaw::CL => B0xx::Impure(Impure::Stick(Stick::C, Axis::X, NEGATIVE)),
        }
    }
}

impl vstd::std_specs::convert::FromSpecImpl<B0xxRaw> for B0xx {
    open spec fn obeys_from_spec() -> bool {
        true
    }

    open spec fn from_spec(t: B0xxRaw) -> B0xx {
        B0xx::spec_from(t)
    }
}

impl GCButton {
    pub open spec fn spec_from(button: Button) -> GCButton {
        match button {
            Button::Pure(ButtonPure::A) => GCButton::A,
            Button::Pure(ButtonPure::X) => GCButton::X,
            Button::Pure(ButtonPure::Y) => GCButton::Y,
            Button::Pure(ButtonPure::Z) => GCButton::Z,
            Button::Pure(ButtonPure::Start) => GCButton::Start,
            Button::Impure(ButtonImpure::B) => GCButton::B,
            Button::Impure(ButtonImpure::L) => GCButton::L,
            Button::Impure(ButtonImpure::R) => GCButton::R,
            Button::DPad(Axis::Y, dir) => if dir { GCButton::DUp } else { GCButton::DDown },
            Button::DPad(Axis::X, dir) => if dir { GCButton::DRight } else { GCButton::DLeft },
        }
    }
}

impl From<Button> for GCButton {
    fn from(button: Button) -> (r: GCButton) {
        match button {
            Button::Pure(ButtonPure::A) => GCButton::A,
            Button::Pure(ButtonPure::X) => GCButton::X,
            Button::Pure(ButtonPure::Y) => GCButton::Y,
            Button::Pure(ButtonPure::Z) => GCButton::Z,
            Button::Pure(ButtonPure::Start) => GCButton::Start,
            Button::Impure(ButtonImpure::B) => GCButton::B,
            Button::Impure(ButtonImpure::L) => GCButton::L,
            Button::Impure(ButtonImpure::R) => GCButton::R,
            Button::DPad(Axis::Y, POSITIVE) => GCButton::DUp,
            Button::DPad(Axis::Y, NEGATIVE) => GCButton::DDown,
            Button::DPad(Axis::X, POSITIVE) => GCButton::DRight,
            Button::DPad(Axis::X, NEGATIVE) => GCButton::DLeft,
        }
    }
}

impl vstd::std_specs::convert::FromSpecImpl<Button> for GCButton {
    open spec fn obeys_from_spec() -> bool {
        true
    }

    open spec fn from_spec(button: Button) -> GCButton {
        GCButton::spec_from(button)
    }
}

impl From<ButtonImpure> for GCButton {
    fn from(button: ButtonImpure) -> (r: GCButton) {
        match button {
            ButtonImpure::B => GCButton::B,
            ButtonImpure::L => GCButton::L,
            ButtonImpure::R => GCButton::R,
        }
    }
}

impl vstd::std_specs::convert::FromSpecImpl<ButtonImpure> for GCButton {
    open spec fn obeys_from_spec() -> bool {
        true
    }

    open spec fn from_spec(button: ButtonImpure) -> GCButton {
        GCButton::spec_from(Button::Impure(button))
    }
}

} // verus!
