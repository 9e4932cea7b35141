//! Commands produced by the translator, and their encoding as lines of the
//! emulator's text pipe.

use crate::analog::{Analog, Trigger};
use crate::input::{Button, ButtonImpure, GCButton, Pressed, Stick, PRESSED, RELEASED};
use vstd::prelude::*;

verus! {

/// A position of a stick: x, then y.
pub type GCStickInput = (Analog, Analog);

pub type AStickInput = GCStickInput;

pub type CStickInput = GCStickInput;

/// What one event makes the translator emit; some variants stand for two
/// commands that must go out in a fixed order.
#[derive(Clone, Copy, Debug, PartialEq, Eq, Hash)]
pub enum Input {
    Button(Button, Pressed),
    Stick(Stick, GCStickInput),
    Trigger(Trigger),
    /// Move the A-stick, then press the button.
    ModifiedPress(AStickInput, ButtonImpure),
    /// Release the button, then move the A-stick.
    ReleaseModifier(ButtonImpure, AStickInput),
    /// Move the C-stick, then the A-stick.
    CStickModifier { a: AStickInput, c: CStickInput },
}

/// A single command of the text pipe.
#[derive(Clone, Copy, Debug, PartialEq, Eq, Hash)]
pub enum DolphinPipeInput {
    Button(GCButton, Pressed),
    Trigger(Trigger),
    Stick(Stick, GCStickInput),
}

impl Input {
    /// The A-stick position this emits, if any.
    pub open spec fn a_position(self) -> Option<GCStickInput> {
        match self {
            Input::Stick(Stick::A, a) => Some(a),
            Input::ModifiedPress(a, _) => Some(a),
            Input::ReleaseModifier(_, a) => Some(a),
            Input::CStickModifier { a, .. } => Some(a),
            _ => None,
        }
    }

    /// The C-stick position this emits, if any.
    pub open spec fn c_position(self) -> Option<GCStickInput> {
        match self {
            Input::Stick(Stick::C, c) => Some(c),
            Input::CStickModifier { c, .. } => Some(c),
            _ => None,
        }
    }

    /// Every stick coordinate this emits lies in `[-80, 80]`, and every
    /// trigger value in `[0, 140]`.
    pub open spec fn in_range(self) -> bool {
        &&& self.a_position() matches Some(a) ==> -80 <= a.0@ <= 80 && -80 <= a.1@ <= 80
        &&& self.c_position() matches Some(c) ==> -80 <= c.0@ <= 80 && -80 <= c.1@ <= 80
        &&& self matches Input::Trigger(t) ==> 0 <= t@ <= 140
    }

    /// The single commands, in the order they go out.
    pub open spec fn pipe_inputs(self) -> Seq<DolphinPipeInput> {
        match self {
            Input::Button(button, pressed) => seq![
                DolphinPipeInput::Button(GCButton::spec_from(button), pressed),
            ],
            Input::Trigger(trigger) => seq![DolphinPipeInput::Trigger(trigger)],
            Input::Stick(stick, position) => seq![DolphinPipeInput::Stick(stick, position)],
            Input::ModifiedPress(a, button) => seq![
                DolphinPipeInput::Stick(Stick::A, a),
                DolphinPipeInput::Button(GCButton::spec_from(Button::Impure(button)), true),
            ],
            Input::ReleaseModifier(button, a) => seq![
                DolphinPipeInput::Button(GCButton::spec_from(Button::Impure(button)), false),
                DolphinPipeInput::Stick(Stick::A, a),
            ],
            Input::CStickModifier { a, c } => seq![
                DolphinPipeInput::Stick(Stick::C, c),
                DolphinPipeInput::Stick(Stick::A, a),
            ],
        }
    }

    pub fn into_pipe_inputs(self) -> (r: Vec<DolphinPipeInput>)
        ensures
            r@ == self.pipe_inputs(),
    {
        match self {
            Input::Button(button, pressed) => vec![
                DolphinPipeInput::Button(GCButton::from(button), pressed),
            ],
            Input::Trigger(trigger) => vec![DolphinPipeInput::Trigger(trigger)],
            Input::Stick(stick, position) => vec![DolphinPipeInput::Stick(stick, position)],
            Input::ModifiedPress(a, button) => vec![
                DolphinPipeInput::Stick(Stick::A, a),
                DolphinPipeInput::Button(GCButton::from(button), PRESSED),
            ],
            Input::ReleaseModifier(button, a) => vec![
                DolphinPipeInput::Button(GCButton::from(button), RELEASED),
                DolphinPipeInput::Stick(Stick::A, a),
            ],
            Input::CStickModifier { a, c } => vec![
                DolphinPipeInput::Stick(Stick::C, c),
                DolphinPipeInput::Stick(Stick::A, a),
            ],
        }
    }
}

} // verus!
