//! Layering of the light and medium shield pedals onto the left trigger.

use crate::analog::{Trigger, LIGHT_SHIELD, MEDIUM_SHIELD};
use crate::input::{Pressed, Shield, PRESSED, RELEASED};
use vstd::prelude::*;

verus! {

broadcast use crate::analog::group_analog;

/// Which shield pedals are held, and in which order they were pressed.
#[derive(Clone, Copy, Debug, PartialEq, Eq, Hash, Structural)]
pub enum ShieldState {
    Null,
    /// Medium alone; whether the medium pedal is still held.
    M(bool),
    L,
    /// Medium, then light.
    ML,
    /// Light, then medium.
    LM,
}

/// The trigger value a shield pedal stands for.
pub open spec fn shield_value(s: Shield) -> int {
    match s {
        Shield::Light => LIGHT_SHIELD as int,
        Shield::Medium => MEDIUM_SHIELD as int,
    }
}

impl ShieldState {
    /// The state after the event, and the trigger value to emit, if any
    /// (zero releases the trigger).
    pub open spec fn next(self, shield: Shield, pressed: Pressed) -> (ShieldState, Option<int>) {
        match (self, shield, pressed) {
            (ShieldState::Null, Shield::Light, true) => (ShieldState::L, Some(LIGHT_SHIELD as int)),
            (ShieldState::Null, Shield::Medium, true) => (
                ShieldState::M(true),
                Some(MEDIUM_SHIELD as int),
            ),
            (ShieldState::M(_), Shield::Light, true) => (ShieldState::ML, Some(LIGHT_SHIELD as int)),
            (ShieldState::L, Shield::Medium, true) => (ShieldState::LM, Some(MEDIUM_SHIELD as int)),
            (ShieldState::ML, Shield::Light, false) => (ShieldState::M(false), Some(0)),
            (ShieldState::LM, Shield::Light, false) => (ShieldState::M(true), None),
            (ShieldState::ML, Shield::Medium, false) => (ShieldState::L, None),
            (ShieldState::LM, Shield::Medium, false) => (ShieldState::L, Some(LIGHT_SHIELD as int)),
            (ShieldState::M(true), Shield::Medium, false) => (ShieldState::Null, Some(0)),
            (ShieldState::L, Shield::Light, false) => (ShieldState::Null, Some(0)),
            (ShieldState::M(false), Shield::Medium, false) => (ShieldState::Null, None),
            _ => (self, None),
        }
    }

    pub fn transition(&mut self, shield: Shield, pressed: Pressed) -> (r: Option<Trigger>)
        ensures
            *final(self) == old(self).next(shield, pressed).0,
            match r {
                Some(t) => old(self).next(shield, pressed).1 == Some(t@),
                None => old(self).next(shield, pressed).1 is None,
            },
    {
        let (new, rtn) = match (*self, shield, pressed) {
            (ShieldState::Null, Shield::Light, PRESSED) => (ShieldState::L, Some(Trigger::from(shield))),
            (ShieldState::Null, Shield::Medium, PRESSED) => (
                ShieldState::M(PRESSED),
                Some(Trigger::from(shield)),
            ),
            (ShieldState::M(_), Shield::Light, PRESSED) => (ShieldState::ML, Some(Trigger::from(shield))),
            (ShieldState::L, Shield::Medium, PRESSED) => (ShieldState::LM, Some(Trigger::from(shield))),
            (ShieldState::ML, Shield::Light, RELEASED) => (ShieldState::M(RELEASED), Some(Trigger::new(0))),
            (ShieldState::LM, Shield::Light, RELEASED) => (ShieldState::M(PRESSED), None),
            (ShieldState::ML, Shield::Medium, RELEASED) => (ShieldState::L, None),
            (ShieldState::LM, Shield::Medium, RELEASED) => (
                ShieldState::L,
                Some(Trigger::from(Shield::Light)),
            ),
            (ShieldState::M(PRESSED), Shield::Medium, RELEASED) | (
                ShieldState::L,
                Shield::Light,
                RELEASED,
            ) => (ShieldState::Null, Some(Trigger::new(0))),
            (ShieldState::M(RELEASED), Shield::Medium, RELEASED) => (ShieldState::Null, None),
            _ => (*self, None),
        };
        *self = new;
        rtn
    }
}

impl Default for ShieldState {
    fn default() -> (r: ShieldState)
        ensures
            r == ShieldState::Null,
    {
        ShieldState::Null
    }
}

impl From<Shield> for Trigger {
    fn from(s: Shield) -> (r: Trigger) {
        match s {
            Shield::Light => Trigger::new(LIGHT_SHIELD),
            Shield::Medium => Trigger::new(MEDIUM_SHIELD),
        }
    }
}

impl vstd::std_specs::convert::FromSpecImpl<Shield> for Trigger {
    open spec fn obeys_from_spec() -> bool {
        true
    }

    open spec fn from_spec(s: Shield) -> Trigger {
        Trigger::from_int(shield_value(s))
    }
}

} // verus!
