//! What holds of the translator over every state and key event.

use crate::analog::group_analog;
use crate::axis::AxisState;
use crate::input::{Axis, B0xx, B0xxRaw, Button, ButtonImpure, Direction, Impure, Stick};
use crate::output::{GCStickInput, Input};
use crate::translator::{a_stick_spec, c_stick_spec, stick_of, B0xxState, Main};
use vstd::prelude::*;

verus! {

broadcast use group_analog;

/// Both coordinates lie in `[-80, 80]`.
pub open spec fn in_stick_range(p: (int, int)) -> bool {
    -80 <= p.0 <= 80 && -80 <= p.1 <= 80
}

proof fn lemma_targets_in_range(m: Main, crouch_walk_option_select: bool)
    ensures
        in_stick_range(m.a_target(crouch_walk_option_select)),
        in_stick_range(m.c_target()),
        stick_of(m.a_target(crouch_walk_option_select)).0@ == m.a_target(crouch_walk_option_select).0,
        stick_of(m.a_target(crouch_walk_option_select)).1@ == m.a_target(crouch_walk_option_select).1,
        stick_of(m.c_target()).0@ == m.c_target().0,
        stick_of(m.c_target()).1@ == m.c_target().1,
{
    reveal(a_stick_spec);
    reveal(c_stick_spec);
}

proof fn lemma_resolved_in_range(m: Main, crouch_walk_option_select: bool)
    ensures
        m.resolved(crouch_walk_option_select).1 matches Some(i) ==> i.in_range(),
{
    lemma_targets_in_range(m, crouch_walk_option_select);
}

/// Every stick coordinate emitted lies in `[-80, 80]` and every trigger
/// value in `[0, 140]`.
pub proof fn lemma_emitted_in_range(m: Main, btn: B0xxRaw, pressed: bool, crouch_walk_option_select: bool)
    ensures
        m.step(btn, pressed, crouch_walk_option_select).1 matches Some(i) ==> i.in_range(),
{
    match B0xx::spec_from(btn) {
        B0xx::Pure(_) => {},
        B0xx::Impure(Impure::Button(button)) => {
            let m2 = Main { state: m.state.with_button(button, pressed), ..m };
            lemma_targets_in_range(m2, crouch_walk_option_select);
        },
        B0xx::Impure(Impure::Stick(Stick::C, axis, dir)) => {
            let dpad_enabled = m.state.mod_x && m.state.mod_y;
            let (c_stick, _) = m.c_stick.next(axis, dir, pressed, dpad_enabled);
            lemma_resolved_in_range(Main { c_stick, ..m }, crouch_walk_option_select);
        },
        B0xx::Impure(key) => {
            lemma_resolved_in_range(m.with_key(key, pressed), crouch_walk_option_select);
        },
    }
}

/// The A-stick position emitted, if any.
pub open spec fn emitted_a(r: Option<Input>) -> Option<GCStickInput> {
    match r {
        Some(i) => i.a_position(),
        None => None,
    }
}

/// The C-stick position emitted, if any.
pub open spec fn emitted_c(r: Option<Input>) -> Option<GCStickInput> {
    match r {
        Some(i) => i.c_position(),
        None => None,
    }
}

proof fn lemma_resolved_last_emitted(m: Main, crouch_walk_option_select: bool)
    ensures
        ({
            let (m2, r) = m.resolved(crouch_walk_option_select);
            &&& emitted_a(r) matches Some(a) ==> m2.a_stick.gc_input == a && a != m.a_stick.gc_input
            &&& emitted_a(r) is None ==> m2.a_stick.gc_input == m.a_stick.gc_input
            &&& emitted_c(r) matches Some(c) ==> m2.c_stick.gc_input == c && c != m.c_stick.gc_input
            &&& emitted_c(r) is None ==> m2.c_stick.gc_input == m.c_stick.gc_input
        }),
{
}

/// After every event the position recorded as last emitted for each stick
/// is the one emitted most recently: a stick is emitted only when its new
/// position differs from the recorded one, which it then replaces, and
/// otherwise the record stays.
pub proof fn lemma_last_emitted(m: Main, btn: B0xxRaw, pressed: bool, crouch_walk_option_select: bool)
    ensures
        ({
            let (m2, r) = m.step(btn, pressed, crouch_walk_option_select);
            &&& emitted_a(r) matches Some(a) ==> m2.a_stick.gc_input == a && a != m.a_stick.gc_input
            &&& emitted_a(r) is None ==> m2.a_stick.gc_input == m.a_stick.gc_input
            &&& emitted_c(r) matches Some(c) ==> m2.c_stick.gc_input == c && c != m.c_stick.gc_input
            &&& emitted_c(r) is None ==> m2.c_stick.gc_input == m.c_stick.gc_input
        }),
{
    match B0xx::spec_from(btn) {
        B0xx::Pure(_) => {},
        B0xx::Impure(Impure::Button(_)) => {},
        B0xx::Impure(Impure::Stick(Stick::C, axis, dir)) => {
            let dpad_enabled = m.state.mod_x && m.state.mod_y;
            let (c_stick, _) = m.c_stick.next(axis, dir, pressed, dpad_enabled);
            lemma_resolved_last_emitted(Main { c_stick, ..m }, crouch_walk_option_select);
        },
        B0xx::Impure(key) => {
            lemma_resolved_last_emitted(m.with_key(key, pressed), crouch_walk_option_select);
        },
    }
}

/// Whatever a key event emits for the A-stick is the position the new state
/// asks for.
proof fn lemma_emitted_a_is_target(m: Main, btn: B0xxRaw, pressed: bool, crouch_walk_option_select: bool)
    ensures
        ({
            let (m2, r) = m.step(btn, pressed, crouch_walk_option_select);
            emitted_a(r) matches Some(a) ==> a == stick_of(m2.a_target(crouch_walk_option_select))
        }),
{
    match B0xx::spec_from(btn) {
        B0xx::Pure(_) => {},
        B0xx::Impure(Impure::Button(_)) => {},
        B0xx::Impure(Impure::Stick(Stick::C, axis, dir)) => {},
        B0xx::Impure(key) => {},
    }
}

/// SOCD resolution: each coordinate of the A-stick is positive exactly when
/// its axis has the positive direction active, negative exactly when it has
/// the negative one, and zero when neither is active. Two held opposing
/// keys thus never cancel out to a sum: one of them is active.
pub proof fn lemma_socd(
    flags: B0xxState,
    x: AxisState,
    y: AxisState,
    c_cardinal: Option<(Axis, Direction)>,
    crouch_walk_option_select: bool,
)
    ensures
        ({
            let p = a_stick_spec(flags, x, y, c_cardinal, crouch_walk_option_select);
            &&& p.0 > 0 <==> x.spec_active() == Some(true)
            &&& p.0 < 0 <==> x.spec_active() == Some(false)
            &&& p.1 > 0 <==> y.spec_active() == Some(true)
            &&& p.1 < 0 <==> y.spec_active() == Some(false)
        }),
{
    reveal(a_stick_spec);
}

/// Of two opposing keys, the one pressed later is the active one, and the
/// state records that the other is held.
pub proof fn lemma_second_press_wins(s: AxisState, dir: Direction)
    requires
        s.held(!dir),
        !s.held(dir),
    ensures
        s.next(dir, true) == AxisState::Active(dir, true),
{
}

/// SOCD on what the translator emits: the signs of an emitted A-stick
/// position are those of the directions active on the A-stick axes.
pub proof fn lemma_emitted_socd(m: Main, btn: B0xxRaw, pressed: bool, crouch_walk_option_select: bool)
    ensures
        ({
            let (m2, r) = m.step(btn, pressed, crouch_walk_option_select);
            emitted_a(r) matches Some(a) ==> {
                &&& a.0@ > 0 <==> m2.a_stick.x.spec_active() == Some(true)
                &&& a.0@ < 0 <==> m2.a_stick.x.spec_active() == Some(false)
                &&& a.1@ > 0 <==> m2.a_stick.y.spec_active() == Some(true)
                &&& a.1@ < 0 <==> m2.a_stick.y.spec_active() == Some(false)
            }
        }),
{
    let (m2, r) = m.step(btn, pressed, crouch_walk_option_select);
    lemma_emitted_a_is_target(m, btn, pressed, crouch_walk_option_select);
    lemma_targets_in_range(m2, crouch_walk_option_select);
    lemma_socd(
        m2.state,
        m2.a_stick.x,
        m2.a_stick.y,
        m2.c_stick.spec_unique_cardinal(),
        crouch_walk_option_select,
    );
}

/// Whether `btn` is the key of the C-stick direction `(axis, dir)`.
pub open spec fn is_c_key(btn: B0xxRaw, axis: Axis, dir: Direction) -> bool {
    B0xx::spec_from(btn) == B0xx::Impure(Impure::Stick(Stick::C, axis, dir))
}

/// D-pad latch: with both modifiers held, pressing a C-stick direction
/// presses its D-pad button and leaves the C-stick where it was; the button
/// stays latched through every other event, modifiers released included,
/// and is released exactly when the key that latched it is.
pub proof fn lemma_dpad_latch(
    m: Main,
    btn: B0xxRaw,
    pressed: bool,
    crouch_walk_option_select: bool,
    axis: Axis,
    dir: Direction,
)
    ensures
        ({
            let (m2, r) = m.step(btn, pressed, crouch_walk_option_select);
            &&& (m.state.mod_x && m.state.mod_y && is_c_key(btn, axis, dir) && pressed
                && !m.c_stick.axis(axis).held(dir)) ==> {
                &&& m2.c_stick.axis(axis).latched(dir)
                &&& r == Some(Input::Button(Button::DPad(axis, dir), true))
                &&& m2.c_stick.gc_input == m.c_stick.gc_input
            }
            &&& (m.c_stick.axis(axis).latched(dir) && !(is_c_key(btn, axis, dir) && !pressed))
                ==> {
                &&& m2.c_stick.axis(axis).latched(dir)
                &&& r != Some(Input::Button(Button::DPad(axis, dir), false))
            }
            &&& (m.c_stick.axis(axis).latched(dir) && is_c_key(btn, axis, dir) && !pressed) ==> {
                &&& !m2.c_stick.axis(axis).latched(dir)
                &&& r == Some(Input::Button(Button::DPad(axis, dir), false))
            }
        }),
{
    match B0xx::spec_from(btn) {
        B0xx::Pure(_) => {},
        B0xx::Impure(Impure::Button(_)) => {},
        B0xx::Impure(Impure::Stick(Stick::C, axis2, dir2)) => {},
        B0xx::Impure(key) => {},
    }
}

/// Releasing an impure button leaves the A-stick at the position for the
/// state without that button.
pub proof fn lemma_impure_release(
    m: Main,
    btn: B0xxRaw,
    button: ButtonImpure,
    crouch_walk_option_select: bool,
)
    requires
        B0xx::spec_from(btn) == B0xx::Impure(Impure::Button(button)),
    ensures
        ({
            let (m2, r) = m.step(btn, false, crouch_walk_option_select);
            &&& m2.state == m.state.with_button(button, false)
            &&& m2.a_stick.gc_input == stick_of(m2.a_target(crouch_walk_option_select))
        }),
{
}

/// Every event keeps the positions recorded as last emitted equal to those
/// the state asks for.
pub proof fn lemma_synced(m: Main, btn: B0xxRaw, pressed: bool, crouch_walk_option_select: bool)
    requires
        m.synced(crouch_walk_option_select),
    ensures
        m.step(btn, pressed, crouch_walk_option_select).0.synced(crouch_walk_option_select),
{
    match B0xx::spec_from(btn) {
        B0xx::Pure(_) => {},
        B0xx::Impure(Impure::Button(button)) => {
            reveal(c_stick_spec);
        },
        B0xx::Impure(Impure::Stick(Stick::C, axis, dir)) => {
            let dpad_enabled = m.state.mod_x && m.state.mod_y;
            m.c_stick.x.lemma_latch_keeps_readings(dir, pressed, dpad_enabled);
            m.c_stick.y.lemma_latch_keeps_readings(dir, pressed, dpad_enabled);
        },
        B0xx::Impure(key) => {},
    }
}

/// The initial state asks for the positions it records.
pub proof fn lemma_default_synced(crouch_walk_option_select: bool)
    ensures
        Main::spec_default().synced(crouch_walk_option_select),
{
    reveal(a_stick_spec);
    reveal(c_stick_spec);
}

/// Pressing and releasing a single pure button or shield pedal from the
/// initial state returns the translator to the initial state: both sticks
/// at `(0, 0)` and the trigger released.
pub proof fn lemma_pure_round_trip(btn: B0xxRaw, crouch_walk_option_select: bool)
    requires
        B0xx::spec_from(btn) is Pure,
    ensures
        ({
            let m1 = Main::spec_default().step(btn, true, crouch_walk_option_select).0;
            let (m2, r) = m1.step(btn, false, crouch_walk_option_select);
            &&& m2 == Main::spec_default()
            &&& r matches Some(Input::Trigger(t)) ==> t@ == 0
        }),
{
}

/// Pressing a modifier, then an A-stick direction, then releasing the
/// modifier leaves the A-stick where pressing that direction alone would.
pub proof fn lemma_modifier_release(modifier: B0xxRaw, direction: B0xxRaw, crouch_walk_option_select: bool)
    requires
        modifier == B0xxRaw::MX || modifier == B0xxRaw::MY,
        B0xx::spec_from(direction) matches B0xx::Impure(Impure::Stick(Stick::A, _, _)),
    ensures
        ({
            let m0 = Main::spec_default();
            let m1 = m0.step(modifier, true, crouch_walk_option_select).0;
            let m2 = m1.step(direction, true, crouch_walk_option_select).0;
            let m3 = m2.step(modifier, false, crouch_walk_option_select).0;
            m3.a_stick.gc_input == m0.step(direction, true, crouch_walk_option_select).0.a_stick.gc_input
        }),
{
    reveal(a_stick_spec);
    reveal(c_stick_spec);
}

} // verus!
