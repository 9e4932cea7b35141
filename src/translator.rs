//! The translator: holds the controller state, resolves both sticks from it
//! and emits what changed after each key event.

use crate::analog::{group_analog, Analog, Trigger};
use crate::axis::{AxisState, DualModeAxisState};
use crate::input::{
    Axis, B0xx, B0xxEvent, B0xxRaw, Button, ButtonImpure, Direction, Impure, Pressed, Pure, Shield, Stick, PRESSED,
    RELEASED,
};
use crate::output::{GCStickInput, Input};
use crate::shield::ShieldState;
use vstd::prelude::*;

verus! {

broadcast use group_analog;

/// The held buttons and modifiers that the stick resolvers read.
#[derive(Clone, Copy, Debug, PartialEq, Eq, Hash, Structural)]
pub struct B0xxState {
    pub b: bool,
    pub l: bool,
    pub r: bool,
    pub mod_x: bool,
    pub mod_y: bool,
}

impl B0xxState {
    pub open spec fn spec_default() -> B0xxState {
        B0xxState { b: false, l: false, r: false, mod_x: false, mod_y: false }
    }

    /// Exactly one of the modifiers is held, and it is `ModX`.
    pub open spec fn mod_x_only(self) -> bool {
        self.mod_x && !self.mod_y
    }

    /// Exactly one of the modifiers is held, and it is `ModY`.
    pub open spec fn mod_y_only(self) -> bool {
        self.mod_y && !self.mod_x
    }

    pub open spec fn lr(self) -> bool {
        self.l || self.r
    }

    pub open spec fn with_button(self, button: ButtonImpure, pressed: Pressed) -> B0xxState {
        match button {
            ButtonImpure::B => B0xxState { b: pressed, ..self },
            ButtonImpure::L => B0xxState { l: pressed, ..self },
            ButtonImpure::R => B0xxState { r: pressed, ..self },
        }
    }

    pub fn set_button(&mut self, button: ButtonImpure, pressed: Pressed)
        ensures
            *final(self) == old(self).with_button(button, pressed),
    {
        match button {
            ButtonImpure::B => self.b = pressed,
            ButtonImpure::L => self.l = pressed,
            ButtonImpure::R => self.r = pressed,
        }
    }
}

impl Default for B0xxState {
    fn default() -> (r: B0xxState)
        ensures
            r == B0xxState::spec_default(),
    {
        B0xxState { b: false, l: false, r: false, mod_x: false, mod_y: false }
    }
}

/// `m` with the sign of the direction.
pub open spec fn signed(m: int, dir: Direction) -> int {
    if dir {
        m
    } else {
        -m
    }
}

/// Magnitude of the A-stick when only its x axis is active.
pub open spec fn a_cardinal_x(flags: B0xxState, opposing_held: bool) -> int {
    if opposing_held {
        80
    } else if flags.mod_x_only() {
        53
    } else if flags.mod_y_only() {
        if flags.b {
            53
        } else {
            27
        }
    } else {
        80
    }
}

/// Magnitude of the A-stick when only its y axis is active.
pub open spec fn a_cardinal_y(flags: B0xxState) -> int {
    if flags.mod_x_only() {
        43
    } else if flags.mod_y_only() {
        59
    } else {
        80
    }
}

/// Magnitudes `(|x|, |y|)` of the A-stick when both its axes are active.
pub open spec fn a_diagonal(
    flags: B0xxState,
    c_cardinal: Option<(Axis, Direction)>,
    y_dir: Direction,
    crouch_walk_option_select: bool,
) -> (int, int) {
    if flags.mod_x_only() {
        if flags.lr() {
            (51, 30)
        } else {
            match c_cardinal {
                Some((Axis::Y, false)) => (56, 29),
                Some((Axis::X, false)) => (63, 39),
                Some((Axis::Y, true)) => (56, 41),
                Some((Axis::X, true)) => (49, 42),
                None => (59, 25),
            }
        }
    } else if flags.mod_y_only() {
        if flags.lr() {
            if y_dir {
                (38, 70)
            } else {
                (40, 68)
            }
        } else {
            match c_cardinal {
                Some((Axis::X, true)) => (51, 61),
                Some((Axis::Y, true)) => (41, 56),
                Some((Axis::X, false)) => (39, 63),
                Some((Axis::Y, false)) => (29, 56),
                None => (25, 59),
            }
        }
    } else if crouch_walk_option_select && !y_dir {
        (57, 55)
    } else {
        (56, 56)
    }
}

/// The A-stick coordinate for the given flags, A-stick axes, C-stick
/// cardinal and option.
#[verifier::opaque]
pub open spec fn a_stick_spec(
    flags: B0xxState,
    x: AxisState,
    y: AxisState,
    c_cardinal: Option<(Axis, Direction)>,
    crouch_walk_option_select: bool,
) -> (int, int) {
    match (x, y) {
        (AxisState::Null(_), AxisState::Null(_)) => (0, 0),
        (AxisState::Active(x_dir, opposing_held), AxisState::Null(_)) => (
            signed(a_cardinal_x(flags, opposing_held), x_dir),
            0,
        ),
        (AxisState::Null(_), AxisState::Active(y_dir, _)) => (
            0,
            signed(a_cardinal_y(flags), y_dir),
        ),
        (AxisState::Active(x_dir, _), AxisState::Active(y_dir, _)) => {
            let (mx, my) = a_diagonal(flags, c_cardinal, y_dir, crouch_walk_option_select);
            (signed(mx, x_dir), signed(my, y_dir))
        },
    }
}

/// The C-stick coordinate for the given flags, active C-stick directions
/// and A-stick axes.
#[verifier::opaque]
pub open spec fn c_stick_spec(
    flags: B0xxState,
    c_x: Option<Direction>,
    c_y: Option<Direction>,
    a_x: AxisState,
    a_y: AxisState,
) -> (int, int) {
    match (c_x, c_y) {
        (None, None) => (0, 0),
        (Some(x_dir), None) => match (a_x, a_y) {
            (AxisState::Null(_), AxisState::Active(y_dir, _)) if flags.mod_x_only() => (
                signed(65, x_dir),
                signed(23, y_dir),
            ),
            _ => (signed(80, x_dir), 0),
        },
        (None, Some(y_dir)) => (0, signed(80, y_dir)),
        (Some(x_dir), Some(y_dir)) => (signed(42, x_dir), signed(68, y_dir)),
    }
}

/// The stick position with the given coordinates.
pub open spec fn stick_of(p: (int, int)) -> GCStickInput {
    (Analog::from_int(p.0), Analog::from_int(p.1))
}

fn signed_analog(m: i8, dir: Direction) -> (r: Analog)
    requires
        0 <= m <= 80,
    ensures
        r@ == signed(m as int, dir),
{
    Analog::new(m).neg_not(dir)
}

fn a_cardinal_x_exec(flags: B0xxState, opposing_held: bool) -> (r: i8)
    ensures
        r == a_cardinal_x(flags, opposing_held),
{
    let mod_x_only = flags.mod_x && !flags.mod_y;
    let mod_y_only = flags.mod_y && !flags.mod_x;
    if !opposing_held && (mod_x_only || (mod_y_only && flags.b)) {
        53
    } else if !opposing_held && mod_y_only {
        27
    } else {
        80
    }
}

fn a_cardinal_y_exec(flags: B0xxState) -> (r: i8)
    ensures
        r == a_cardinal_y(flags),
{
    if flags.mod_x && !flags.mod_y {
        43
    } else if flags.mod_y && !flags.mod_x {
        59
    } else {
        80
    }
}

fn a_diagonal_exec(
    flags: B0xxState,
    c_cardinal: Option<(Axis, Direction)>,
    y_dir: Direction,
    crouch_walk_option_select: bool,
) -> (r: (i8, i8))
    ensures
        (r.0 as int, r.1 as int) == a_diagonal(flags, c_cardinal, y_dir, crouch_walk_option_select),
{
    let lr = flags.l || flags.r;
    if flags.mod_x && !flags.mod_y {
        if lr {
            (51, 30)
        } else {
            match c_cardinal {
                Some((Axis::Y, false)) => (56, 29),
                Some((Axis::X, false)) => (63, 39),
                Some((Axis::Y, true)) => (56, 41),
                Some((Axis::X, true)) => (49, 42),
                None => (59, 25),
            }
        }
    } else if flags.mod_y && !flags.mod_x {
        if lr {
            if y_dir {
                (38, 70)
            } else {
                (40, 68)
            }
        } else {
            match c_cardinal {
                Some((Axis::X, true)) => (51, 61),
                Some((Axis::Y, true)) => (41, 56),
                Some((Axis::X, false)) => (39, 63),
                Some((Axis::Y, false)) => (29, 56),
                None => (25, 59),
            }
        }
    } else if crouch_walk_option_select && !y_dir {
        (57, 55)
    } else {
        (56, 56)
    }
}


/// The A-stick: its two axes and the position last emitted for it.
#[derive(Clone, Copy, Debug, PartialEq, Eq, Hash)]
pub struct StickState {
    pub x: AxisState,
    pub y: AxisState,
    pub gc_input: GCStickInput,
}

impl StickState {
    /// Records `input` as emitted if it differs from the last position, and
    /// returns it in that case.
    pub fn update(&mut self, input: GCStickInput) -> (r: Option<GCStickInput>)
        ensures
            *final(self) == (StickState { gc_input: input, ..*old(self) }),
            r == (if input != old(self).gc_input {
                Some(input)
            } else {
                None
            }),
    {
        if self.gc_input.0 != input.0 || self.gc_input.1 != input.1 {
            self.gc_input = input;
            Some(input)
        } else {
            None
        }
    }
}

impl Default for StickState {
    fn default() -> (r: StickState)
        ensures
            r == (StickState {
                x: AxisState::spec_default(),
                y: AxisState::spec_default(),
                gc_input: stick_of((0, 0)),
            }),
    {
        StickState {
            x: AxisState::default(),
            y: AxisState::default(),
            gc_input: (Analog::new(0), Analog::new(0)),
        }
    }
}

/// The C-stick: its two axes, which may latch D-pad buttons, and the
/// position last emitted for it.
#[derive(Clone, Copy, Debug, PartialEq, Eq, Hash)]
pub struct CStickState {
    pub x: DualModeAxisState,
    pub y: DualModeAxisState,
    pub gc_input: GCStickInput,
}

impl CStickState {
    pub open spec fn axis(self, axis: Axis) -> DualModeAxisState {
        match axis {
            Axis::X => self.x,
            Axis::Y => self.y,
        }
    }

    pub open spec fn spec_unique_cardinal(self) -> Option<(Axis, Direction)> {
        match (self.x.spec_active_unique(), self.y.spec_active_unique()) {
            (Some(dir), None) => Some((Axis::X, dir)),
            (None, Some(dir)) => Some((Axis::Y, dir)),
            _ => None,
        }
    }

    /// The state after the key of `(axis, dir)`, and whether a latched
    /// direction was released.
    pub open spec fn next(self, axis: Axis, dir: Direction, pressed: Pressed, dpad_enabled: bool) -> (
        CStickState,
        bool,
    ) {
        match axis {
            Axis::X => {
                let (x, released) = self.x.next(dir, pressed, dpad_enabled);
                (CStickState { x, ..self }, released)
            },
            Axis::Y => {
                let (y, released) = self.y.next(dir, pressed, dpad_enabled);
                (CStickState { y, ..self }, released)
            },
        }
    }

    /// The axis and direction that is the only one active, if its opposite
    /// is not held either.
    pub fn unique_cardinal(&self) -> (r: Option<(Axis, Direction)>)
        ensures
            r == self.spec_unique_cardinal(),
    {
        match (self.x.active_unique(), self.y.active_unique()) {
            (Some(dir), None) => Some((Axis::X, dir)),
            (None, Some(dir)) => Some((Axis::Y, dir)),
            _ => None,
        }
    }

    /// Records `input` as emitted if it differs from the last position, and
    /// returns it in that case.
    pub fn update(&mut self, input: GCStickInput) -> (r: Option<GCStickInput>)
        ensures
            *final(self) == (CStickState { gc_input: input, ..*old(self) }),
            r == (if input != old(self).gc_input {
                Some(input)
            } else {
                None
            }),
    {
        if self.gc_input.0 != input.0 || self.gc_input.1 != input.1 {
            self.gc_input = input;
            Some(input)
        } else {
            None
        }
    }

    /// Returns whether a latched direction was released.
    pub fn transition(&mut self, axis: Axis, dir: Direction, pressed: Pressed, dpad_enabled: bool) -> (r:
        bool)
        ensures
            (*final(self), r) == old(self).next(axis, dir, pressed, dpad_enabled),
    {
        match axis {
            Axis::X => self.x.transition(dir, pressed, dpad_enabled),
            Axis::Y => self.y.transition(dir, pressed, dpad_enabled),
        }
    }
}

impl Default for CStickState {
    fn default() -> (r: CStickState)
        ensures
            r == (CStickState {
                x: DualModeAxisState::spec_default(),
                y: DualModeAxisState::spec_default(),
                gc_input: stick_of((0, 0)),
            }),
    {
        CStickState {
            x: DualModeAxisState::default(),
            y: DualModeAxisState::default(),
            gc_input: (Analog::new(0), Analog::new(0)),
        }
    }
}


/// The whole translator state.
#[derive(Clone, Copy, Debug, PartialEq, Eq, Hash)]
pub struct Main {
    pub state: B0xxState,
    pub a_stick: StickState,
    pub c_stick: CStickState,
    pub shield_state: ShieldState,
}

impl Main {
    pub open spec fn spec_default() -> Main {
        Main {
            state: B0xxState::spec_default(),
            a_stick: StickState {
                x: AxisState::spec_default(),
                y: AxisState::spec_default(),
                gc_input: stick_of((0, 0)),
            },
            c_stick: CStickState {
                x: DualModeAxisState::spec_default(),
                y: DualModeAxisState::spec_default(),
                gc_input: stick_of((0, 0)),
            },
            shield_state: ShieldState::Null,
        }
    }

    /// The A-stick coordinate the current state asks for.
    pub open spec fn a_target(self, crouch_walk_option_select: bool) -> (int, int) {
        a_stick_spec(
            self.state,
            self.a_stick.x,
            self.a_stick.y,
            self.c_stick.spec_unique_cardinal(),
            crouch_walk_option_select,
        )
    }

    /// The C-stick coordinate the current state asks for.
    pub open spec fn c_target(self) -> (int, int) {
        c_stick_spec(
            self.state,
            self.c_stick.x.spec_active(),
            self.c_stick.y.spec_active(),
            self.a_stick.x,
            self.a_stick.y,
        )
    }

    /// The positions recorded as last emitted are those the state asks for.
    pub open spec fn synced(self, crouch_walk_option_select: bool) -> bool {
        &&& self.a_stick.gc_input == stick_of(self.a_target(crouch_walk_option_select))
        &&& self.c_stick.gc_input == stick_of(self.c_target())
    }

    /// Resolves both sticks and emits those that moved: the C-stick first
    /// when both did.
    pub open spec fn resolved(self, crouch_walk_option_select: bool) -> (Main, Option<Input>) {
        let a = stick_of(self.a_target(crouch_walk_option_select));
        let c = stick_of(self.c_target());
        let a_moved = a != self.a_stick.gc_input;
        let c_moved = c != self.c_stick.gc_input;
        (
            Main {
                a_stick: StickState { gc_input: a, ..self.a_stick },
                c_stick: CStickState { gc_input: c, ..self.c_stick },
                ..self
            },
            if a_moved && c_moved {
                Some(Input::CStickModifier { a, c })
            } else if a_moved {
                Some(Input::Stick(Stick::A, a))
            } else if c_moved {
                Some(Input::Stick(Stick::C, c))
            } else {
                None
            },
        )
    }

    /// A shield pedal goes to the shield layering, which may set the trigger.
    pub open spec fn step_shield(self, shield: Shield, pressed: Pressed) -> (Main, Option<Input>) {
        let (shield_state, trigger) = self.shield_state.next(shield, pressed);
        (
            Main { shield_state, ..self },
            match trigger {
                Some(v) => Some(Input::Trigger(Trigger::from_int(v))),
                None => None,
            },
        )
    }

    /// An impure button sets its flag and emits the button, together with
    /// the A-stick if that moved: the stick first on a press, last on a
    /// release.
    pub open spec fn step_button(
        self,
        button: ButtonImpure,
        pressed: Pressed,
        crouch_walk_option_select: bool,
    ) -> (Main, Option<Input>) {
        let m = Main { state: self.state.with_button(button, pressed), ..self };
        let a = stick_of(m.a_target(crouch_walk_option_select));
        (
            Main { a_stick: StickState { gc_input: a, ..m.a_stick }, ..m },
            Some(
                if a == self.a_stick.gc_input {
                    Input::Button(Button::Impure(button), pressed)
                } else if pressed {
                    Input::ModifiedPress(a, button)
                } else {
                    Input::ReleaseModifier(button, a)
                },
            ),
        )
    }

    /// A C-stick direction: with both modifiers held a press latches the
    /// D-pad button; releasing a latched key releases it; otherwise both
    /// sticks are resolved.
    pub open spec fn step_c(
        self,
        axis: Axis,
        dir: Direction,
        pressed: Pressed,
        crouch_walk_option_select: bool,
    ) -> (Main, Option<Input>) {
        let dpad_enabled = self.state.mod_x && self.state.mod_y;
        let (c_stick, latch_released) = self.c_stick.next(axis, dir, pressed, dpad_enabled);
        let m = Main { c_stick, ..self };
        if dpad_enabled && pressed && c_stick.axis(axis).latched(dir) {
            (m, Some(Input::Button(Button::DPad(axis, dir), true)))
        } else if latch_released {
            (m, Some(Input::Button(Button::DPad(axis, dir), false)))
        } else {
            m.resolved(crouch_walk_option_select)
        }
    }

    /// The state after a key event, and what it emits.
    pub open spec fn step(self, btn: B0xxRaw, pressed: Pressed, crouch_walk_option_select: bool) -> (
        Main,
        Option<Input>,
    ) {
        match B0xx::spec_from(btn) {
            B0xx::Pure(Pure::Button(button)) => (
                self,
                Some(Input::Button(Button::Pure(button), pressed)),
            ),
            B0xx::Pure(Pure::Shield(shield)) => self.step_shield(shield, pressed),
            B0xx::Impure(Impure::Button(button)) => self.step_button(
                button,
                pressed,
                crouch_walk_option_select,
            ),
            B0xx::Impure(Impure::Stick(Stick::C, axis, dir)) => self.step_c(
                axis,
                dir,
                pressed,
                crouch_walk_option_select,
            ),
            B0xx::Impure(key) => self.with_key(key, pressed).resolved(crouch_walk_option_select),
        }
    }

    /// The state after an A-stick direction or a modifier, before the
    /// sticks are resolved.
    pub open spec fn with_key(self, key: Impure, pressed: Pressed) -> Main {
        match key {
            Impure::Stick(Stick::A, Axis::X, dir) => Main {
                a_stick: StickState { x: self.a_stick.x.next(dir, pressed), ..self.a_stick },
                ..self
            },
            Impure::Stick(Stick::A, Axis::Y, dir) => Main {
                a_stick: StickState { y: self.a_stick.y.next(dir, pressed), ..self.a_stick },
                ..self
            },
            Impure::ModX => Main { state: B0xxState { mod_x: pressed, ..self.state }, ..self },
            Impure::ModY => Main { state: B0xxState { mod_y: pressed, ..self.state }, ..self },
            _ => self,
        }
    }

    fn c_stick_input(&self) -> (r: GCStickInput)
        ensures
            r == stick_of(self.c_target()),
    {
        reveal(c_stick_spec);
        let mod_x_only = self.state.mod_x && !self.state.mod_y;
        match (self.c_stick.x.active(), self.c_stick.y.active()) {
            (None, None) => (Analog::new(0), Analog::new(0)),
            (Some(x_dir), None) => match (self.a_stick.x, self.a_stick.y) {
                (AxisState::Null(_), AxisState::Active(y_dir, _)) if mod_x_only => (
                    signed_analog(65, x_dir),
                    signed_analog(23, y_dir),
                ),
                _ => (signed_analog(80, x_dir), Analog::new(0)),
            },
            (None, Some(y_dir)) => (Analog::new(0), signed_analog(80, y_dir)),
            (Some(x_dir), Some(y_dir)) => (signed_analog(42, x_dir), signed_analog(68, y_dir)),
        }
    }

    fn a_stick_input(&self, crouch_walk_option_select: bool) -> (r: GCStickInput)
        ensures
            r == stick_of(self.a_target(crouch_walk_option_select)),
    {
        reveal(a_stick_spec);
        match (self.a_stick.x, self.a_stick.y) {
            (AxisState::Null(_), AxisState::Null(_)) => (Analog::new(0), Analog::new(0)),
            (AxisState::Active(x_dir, opposing_held), AxisState::Null(_)) => (
                signed_analog(a_cardinal_x_exec(self.state, opposing_held), x_dir),
                Analog::new(0),
            ),
            (AxisState::Null(_), AxisState::Active(y_dir, _)) => (
                Analog::new(0),
                signed_analog(a_cardinal_y_exec(self.state), y_dir),
            ),
            (AxisState::Active(x_dir, _), AxisState::Active(y_dir, _)) => {
                let (x, y) = a_diagonal_exec(
                    self.state,
                    self.c_stick.unique_cardinal(),
                    y_dir,
                    crouch_walk_option_select,
                );
                (signed_analog(x, x_dir), signed_analog(y, y_dir))
            },
        }
    }

    /// Resolves the C-stick; returns its position if it moved.
    pub fn update_c_stick(&mut self) -> (r: Option<GCStickInput>)
        ensures
            *final(self) == (Main {
                c_stick: CStickState { gc_input: stick_of(old(self).c_target()), ..old(self).c_stick },
                ..*old(self)
            }),
            r == (if stick_of(old(self).c_target()) != old(self).c_stick.gc_input {
                Some(stick_of(old(self).c_target()))
            } else {
                None
            }),
    {
        let input = self.c_stick_input();
        self.c_stick.update(input)
    }

    /// Resolves the A-stick; returns its position if it moved.
    pub fn update_a_stick(&mut self, crouch_walk_option_select: bool) -> (r: Option<GCStickInput>)
        ensures
            *final(self) == (Main {
                a_stick: StickState {
                    gc_input: stick_of(old(self).a_target(crouch_walk_option_select)),
                    ..old(self).a_stick
                },
                ..*old(self)
            }),
            r == (if stick_of(old(self).a_target(crouch_walk_option_select))
                != old(self).a_stick.gc_input {
                Some(stick_of(old(self).a_target(crouch_walk_option_select)))
            } else {
                None
            }),
    {
        let input = self.a_stick_input(crouch_walk_option_select);
        self.a_stick.update(input)
    }

    /// Resolves both sticks; returns the positions that moved.
    fn resolve(&mut self, crouch_walk_option_select: bool) -> (r: Option<Input>)
        ensures
            (*final(self), r) == old(self).resolved(crouch_walk_option_select),
    {
        let new_a = self.update_a_stick(crouch_walk_option_select);
        let new_c = self.update_c_stick();
        match (new_a, new_c) {
            (None, None) => None,
            (Some(a), None) => Some(Input::Stick(Stick::A, a)),
            (None, Some(c)) => Some(Input::Stick(Stick::C, c)),
            (Some(a), Some(c)) => Some(Input::CStickModifier { a, c }),
        }
    }

    fn process_shield(&mut self, shield: Shield, pressed: Pressed) -> (r: Option<Input>)
        ensures
            (*final(self), r) == old(self).step_shield(shield, pressed),
    {
        match self.shield_state.transition(shield, pressed) {
            Some(trigger) => Some(Input::Trigger(trigger)),
            None => None,
        }
    }

    fn process_button(
        &mut self,
        button: ButtonImpure,
        pressed: Pressed,
        crouch_walk_option_select: bool,
    ) -> (r: Option<Input>)
        ensures
            (*final(self), r) == old(self).step_button(button, pressed, crouch_walk_option_select),
    {
        self.state.set_button(button, pressed);
        Some(
            match self.update_a_stick(crouch_walk_option_select) {
                Some(new) => if pressed {
                    Input::ModifiedPress(new, button)
                } else {
                    Input::ReleaseModifier(button, new)
                },
                None => Input::Button(Button::Impure(button), pressed),
            },
        )
    }

    fn process_c(
        &mut self,
        axis: Axis,
        dir: Direction,
        pressed: Pressed,
        crouch_walk_option_select: bool,
    ) -> (r: Option<Input>)
        ensures
            (*final(self), r) == old(self).step_c(axis, dir, pressed, crouch_walk_option_select),
    {
        let dpad_enabled = self.state.mod_x && self.state.mod_y;
        let latch_released = self.c_stick.transition(axis, dir, pressed, dpad_enabled);
        let latched = match axis {
            Axis::X => self.c_stick.x.is_latched(dir),
            Axis::Y => self.c_stick.y.is_latched(dir),
        };
        if dpad_enabled && pressed && latched {
            Some(Input::Button(Button::DPad(axis, dir), PRESSED))
        } else if latch_released {
            Some(Input::Button(Button::DPad(axis, dir), RELEASED))
        } else {
            self.resolve(crouch_walk_option_select)
        }
    }

    /// Applies one key event and returns what it emits.
    pub fn process_b0xx(&mut self, event: B0xxEvent, crouch_walk_option_select: bool) -> (r: Option<
        Input,
    >)
        ensures
            (*final(self), r) == old(self).step(event.btn, event.pressed, crouch_walk_option_select),
    {
        let B0xxEvent { time: _, btn, pressed } = event;
        let impure = match B0xx::from(btn) {
            B0xx::Pure(Pure::Button(button)) => {
                return Some(Input::Button(Button::Pure(button), pressed));
            },
            B0xx::Pure(Pure::Shield(shield)) => {
                return self.process_shield(shield, pressed);
            },
            B0xx::Impure(impure) => impure,
        };
        match impure {
            Impure::Button(button) => {
                return self.process_button(button, pressed, crouch_walk_option_select);
            },
            Impure::Stick(Stick::C, axis, dir) => {
                return self.process_c(axis, dir, pressed, crouch_walk_option_select);
            },
            Impure::Stick(Stick::A, Axis::X, dir) => self.a_stick.x.transition(dir, pressed),
            Impure::Stick(Stick::A, Axis::Y, dir) => self.a_stick.y.transition(dir, pressed),
            Impure::ModX => self.state.mod_x = pressed,
            Impure::ModY => self.state.mod_y = pressed,
        }
        self.resolve(crouch_walk_option_select)
    }
}

impl Default for Main {
    fn default() -> (r: Main)
        ensures
            r == Main::spec_default(),
    {
        Main {
            state: B0xxState::default(),
            a_stick: StickState::default(),
            c_stick: CStickState::default(),
            shield_state: ShieldState::default(),
        }
    }
}

} // verus!
