//! The keymap: which keyboard key stands for which controller key.

use crate::input::{B0xxEvent, B0xxRaw, TimeVal};
use vstd::prelude::*;

verus! {

/// Event type of key presses and releases.
pub const EV_KEY: u16 = 1;

/// Event value of a key held down long enough to repeat.
pub const VALUE_REPEAT: i32 = 2;

/// Event value of a key press.
pub const VALUE_PRESS: i32 = 1;

pub const KEY_ESC: u16 = 1;

pub const KEY_BACKSPACE: u16 = 14;

pub const KEY_E: u16 = 18;

pub const KEY_R: u16 = 19;

pub const KEY_T: u16 = 20;

pub const KEY_Y: u16 = 21;

pub const KEY_U: u16 = 22;

pub const KEY_O: u16 = 24;

pub const KEY_ENTER: u16 = 28;

pub const KEY_LEFTCTRL: u16 = 29;

pub const KEY_S: u16 = 31;

pub const KEY_F: u16 = 33;

pub const KEY_G: u16 = 34;

pub const KEY_H: u16 = 35;

pub const KEY_SEMICOLON: u16 = 39;

pub const KEY_LEFTSHIFT: u16 = 42;

pub const KEY_Z: u16 = 44;

pub const KEY_C: u16 = 46;

pub const KEY_N: u16 = 49;

pub const KEY_SPACE: u16 = 57;

pub const KEY_DOWN: u16 = 108;

/// A raw input event: its time, type, code and value.
#[derive(Clone, Copy, Debug, PartialEq, Eq, Hash, Structural)]
pub struct KeyEvent {
    pub time: TimeVal,
    pub ev_type: u16,
    pub code: u16,
    pub value: i32,
}

/// Maps keyboard events to controller events.
#[derive(Clone, Copy, Debug, PartialEq, Eq, Hash, Structural)]
pub struct Remapper;

/// The controller key of a keyboard key, if it has one.
pub open spec fn key_of(ev_type: u16, code: u16) -> Option<B0xxRaw> {
    if ev_type != EV_KEY {
        None
    } else if code == KEY_SEMICOLON {
        Some(B0xxRaw::L)
    } else if code == KEY_O {
        Some(B0xxRaw::Left)
    } else if code == KEY_E {
        Some(B0xxRaw::Down)
    } else if code == KEY_U {
        Some(B0xxRaw::Right)
    } else if code == KEY_LEFTSHIFT {
        Some(B0xxRaw::MX)
    } else if code == KEY_LEFTCTRL {
        Some(B0xxRaw::MY)
    } else if code == KEY_Y || code == KEY_F {
        Some(B0xxRaw::Start)
    } else if code == KEY_G {
        Some(B0xxRaw::R)
    } else if code == KEY_C {
        Some(B0xxRaw::Y)
    } else if code == KEY_R {
        Some(B0xxRaw::LS)
    } else if code == KEY_S {
        Some(B0xxRaw::MS)
    } else if code == KEY_H {
        Some(B0xxRaw::B)
    } else if code == KEY_T {
        Some(B0xxRaw::X)
    } else if code == KEY_N {
        Some(B0xxRaw::Z)
    } else if code == KEY_Z {
        Some(B0xxRaw::Up)
    } else if code == KEY_ESC {
        Some(B0xxRaw::CD)
    } else if code == KEY_BACKSPACE {
        Some(B0xxRaw::CL)
    } else if code == KEY_DOWN {
        Some(B0xxRaw::CU)
    } else if code == KEY_ENTER {
        Some(B0xxRaw::CR)
    } else if code == KEY_SPACE {
        Some(B0xxRaw::A)
    } else {
        None
    }
}

/// Every controller key has exactly one keyboard key, but for `Start`,
/// which has two.
pub proof fn lemma_keymap_one_key_each(c1: u16, c2: u16)
    requires
        c1 != c2,
        key_of(EV_KEY, c1) is Some,
        key_of(EV_KEY, c1) == key_of(EV_KEY, c2),
    ensures
        key_of(EV_KEY, c1) == Some(B0xxRaw::Start),
{
}

impl Remapper {
    pub fn keyboard_to_b0xx(&self, ev_type: u16, code: u16) -> (r: Option<B0xxRaw>)
        ensures
            r == key_of(ev_type, code),
    {
        if ev_type != EV_KEY {
            return None;
        }
        match code {
            KEY_SEMICOLON => Some(B0xxRaw::L),
            KEY_O => Some(B0xxRaw::Left),
            KEY_E => Some(B0xxRaw::Down),
            KEY_U => Some(B0xxRaw::Right),
            KEY_LEFTSHIFT => Some(B0xxRaw::MX),
            KEY_LEFTCTRL => Some(B0xxRaw::MY),
            KEY_Y | KEY_F => Some(B0xxRaw::Start),
            KEY_G => Some(B0xxRaw::R),
            KEY_C => Some(B0xxRaw::Y),
            KEY_R => Some(B0xxRaw::LS),
            KEY_S => Some(B0xxRaw::MS),
            KEY_H => Some(B0xxRaw::B),
            KEY_T => Some(B0xxRaw::X),
            KEY_N => Some(B0xxRaw::Z),
            KEY_Z => Some(B0xxRaw::Up),
            KEY_ESC => Some(B0xxRaw::CD),
            KEY_BACKSPACE => Some(B0xxRaw::CL),
            KEY_DOWN => Some(B0xxRaw::CU),
            KEY_ENTER => Some(B0xxRaw::CR),
            KEY_SPACE => Some(B0xxRaw::A),
            _ => None,
        }
    }

    /// The controller event of a keyboard event; repeats and keys outside
    /// the keymap give none. A value of one is a press, any other a release.
    pub fn evdev_to_b0xx(&self, event: KeyEvent) -> (r: Option<B0xxEvent>)
        ensures
            r == (if event.value == VALUE_REPEAT {
                None
            } else {
                match key_of(event.ev_type, event.code) {
                    Some(btn) => Some(
                        B0xxEvent { time: event.time, btn, pressed: event.value == VALUE_PRESS },
                    ),
                    None => None,
                }
            }),
    {
        if event.value == VALUE_REPEAT {
            return None;
        }
        match self.keyboard_to_b0xx(event.ev_type, event.code) {
            Some(btn) => Some(B0xxEvent { time: event.time, btn, pressed: event.value == VALUE_PRESS }),
            None => None,
        }
    }
}

} // verus!
