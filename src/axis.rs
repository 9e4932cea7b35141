//! Per-axis state machines: SOCD resolution for a pair of opposing
//! directions, and the C-stick variant that can latch directions as D-pad
//! buttons.

use crate::input::{Direction, Pressed, PRESSED, RELEASED};
use vstd::prelude::*;

verus! {

/// SOCD state of one pair of opposing directions.
#[derive(Clone, Copy, Debug, PartialEq, Eq, Hash, Structural)]
pub enum AxisState {
    /// No direction is active; the direction, if any, is held but suppressed.
    Null(Option<Direction>),
    /// The direction is active, and whether the opposing direction is held.
    Active(Direction, Pressed),
}

impl AxisState {
    pub open spec fn spec_default() -> AxisState {
        AxisState::Null(None)
    }

    /// The state after pressing (or releasing) the key of `dir`: the newer
    /// of two opposing presses wins, and a suppressed direction is not
    /// revived when the winner is released. Other events change nothing.
    pub open spec fn next(self, dir: Direction, pressed: Pressed) -> AxisState {
        match self {
            AxisState::Null(None) => if pressed {
                AxisState::Active(dir, false)
            } else {
                self
            },
            AxisState::Null(Some(held)) => if !pressed && held == dir {
                AxisState::Null(None)
            } else if pressed && held != dir {
                AxisState::Active(dir, true)
            } else {
                self
            },
            AxisState::Active(active, false) => if !pressed && dir == active {
                AxisState::Null(None)
            } else if pressed && dir != active {
                AxisState::Active(dir, true)
            } else {
                self
            },
            AxisState::Active(active, true) => if pressed {
                self
            } else if dir == active {
                AxisState::Null(Some(!active))
            } else {
                AxisState::Active(active, false)
            },
        }
    }

    /// Whether the key of `dir` is held.
    pub open spec fn held(self, dir: Direction) -> bool {
        match self {
            AxisState::Null(held) => held == Some(dir),
            AxisState::Active(active, opposing) => active == dir || opposing,
        }
    }

    pub open spec fn spec_active(self) -> Option<Direction> {
        match self {
            AxisState::Null(_) => None,
            AxisState::Active(dir, _) => Some(dir),
        }
    }

    pub open spec fn spec_active_unique(self) -> Option<Direction> {
        match self {
            AxisState::Active(dir, false) => Some(dir),
            _ => None,
        }
    }

    pub open spec fn spec_state_in_dir(self, dir: Direction) -> AxisButtonState {
        match self {
            AxisState::Null(held) => AxisButtonState::Inactive(held == Some(dir)),
            AxisState::Active(active, opposing) => if active == dir {
                AxisButtonState::Active
            } else {
                AxisButtonState::Inactive(opposing)
            },
        }
    }

    /// The active direction, whether or not its opposite is held.
    pub fn active(self) -> (r: Option<Direction>)
        ensures
            r == self.spec_active(),
    {
        match self {
            AxisState::Null(_) => None,
            AxisState::Active(dir, _) => Some(dir),
        }
    }

    /// The active direction, if its opposite is not held.
    pub fn active_unique(self) -> (r: Option<Direction>)
        ensures
            r == self.spec_active_unique(),
    {
        match self {
            AxisState::Null(_) => None,
            AxisState::Active(dir, opposing) => if opposing {
                None
            } else {
                Some(dir)
            },
        }
    }

    /// The state of the key of `dir` alone.
    pub fn state_in_dir(self, dir: Direction) -> (r: AxisButtonState)
        ensures
            r == self.spec_state_in_dir(dir),
    {
        match self {
            AxisState::Null(held) => AxisButtonState::Inactive(
                match held {
                    Some(d) => d == dir,
                    None => false,
                },
            ),
            AxisState::Active(active, opposing) => {
                if active == dir {
                    AxisButtonState::Active
                } else {
                    AxisButtonState::Inactive(opposing)
                }
            },
        }
    }

    pub fn transition(&mut self, dir: Direction, pressed: Pressed)
        ensures
            *final(self) == old(self).next(dir, pressed),
    {
        *self = match *self {
            AxisState::Null(None) => if pressed {
                AxisState::Active(dir, RELEASED)
            } else {
                *self
            },
            AxisState::Null(Some(held)) => if !pressed && held == dir {
                AxisState::Null(None)
            } else if pressed && held != dir {
                AxisState::Active(dir, PRESSED)
            } else {
                *self
            },
            AxisState::Active(active, opposing) => if !opposing {
                if !pressed && dir == active {
                    AxisState::Null(None)
                } else if pressed && dir != active {
                    AxisState::Active(dir, PRESSED)
                } else {
                    *self
                }
            } else if pressed {
                *self
            } else if dir == active {
                AxisState::Null(Some(!active))
            } else {
                AxisState::Active(active, RELEASED)
            },
        };
    }
}

impl Default for AxisState {
    fn default() -> (r: AxisState)
        ensures
            r == AxisState::spec_default(),
    {
        AxisState::Null(None)
    }
}

/// State of the key of one direction.
#[derive(Clone, Copy, Debug, PartialEq, Eq, Hash, Structural)]
pub enum AxisButtonState {
    Active,
    /// Not active, and whether the key is held.
    Inactive(Pressed),
}

impl AxisButtonState {
    pub fn from_pressed(pressed: Pressed) -> (r: AxisButtonState)
        ensures
            r == (if pressed {
                AxisButtonState::Active
            } else {
                AxisButtonState::Inactive(false)
            }),
    {
        if pressed {
            AxisButtonState::Active
        } else {
            AxisButtonState::Inactive(RELEASED)
        }
    }
}

/// State of one C-stick axis, whose directions may be latched as D-pad
/// buttons while their keys are held.
#[derive(Clone, Copy, Debug, PartialEq, Eq, Hash, Structural)]
pub enum DualModeAxisState {
    /// No direction is latched.
    Neither(AxisState),
    /// The opposite of this direction is latched; this one has the state.
    Single(Direction, AxisButtonState),
    /// Both directions are latched.
    Both,
}

impl DualModeAxisState {
    pub open spec fn spec_default() -> DualModeAxisState {
        DualModeAxisState::Neither(AxisState::Null(None))
    }

    /// Whether the direction is latched as a D-pad button.
    pub open spec fn latched(self, dir: Direction) -> bool {
        match self {
            DualModeAxisState::Neither(_) => false,
            DualModeAxisState::Single(normal, _) => normal != dir,
            DualModeAxisState::Both => true,
        }
    }

    /// Whether the key of `dir` is held.
    pub open spec fn held(self, dir: Direction) -> bool {
        match self {
            DualModeAxisState::Neither(s) => s.held(dir),
            DualModeAxisState::Single(normal, state) => normal != dir || state
                != AxisButtonState::Inactive(false),
            DualModeAxisState::Both => true,
        }
    }

    /// The state after pressing (or releasing) the key of `dir`, where a
    /// press latches it if `latch_on_press`; and whether a latched
    /// direction was released. Pressing a held key changes nothing.
    pub open spec fn next(self, dir: Direction, pressed: Pressed, latch_on_press: bool) -> (
        DualModeAxisState,
        bool,
    ) {
        match self {
            DualModeAxisState::Both => if pressed {
                (self, false)
            } else {
                (DualModeAxisState::Single(dir, AxisButtonState::Inactive(false)), true)
            },
            DualModeAxisState::Single(normal, state) => if dir == normal {
                if !pressed {
                    (DualModeAxisState::Single(normal, AxisButtonState::Inactive(false)), false)
                } else if state != AxisButtonState::Inactive(false) {
                    (self, false)
                } else if latch_on_press {
                    (DualModeAxisState::Both, false)
                } else {
                    (DualModeAxisState::Single(normal, AxisButtonState::Active), false)
                }
            } else if pressed {
                (self, false)
            } else {
                (
                    DualModeAxisState::Neither(
                        match state {
                            AxisButtonState::Active => AxisState::Active(normal, false),
                            AxisButtonState::Inactive(held) => AxisState::Null(
                                if held {
                                    Some(normal)
                                } else {
                                    None
                                },
                            ),
                        },
                    ),
                    true,
                )
            },
            DualModeAxisState::Neither(s) => if pressed && latch_on_press && !s.held(dir) {
                (DualModeAxisState::Single(!dir, s.spec_state_in_dir(!dir)), false)
            } else {
                (DualModeAxisState::Neither(s.next(dir, pressed)), false)
            },
        }
    }

    pub open spec fn spec_active(self) -> Option<Direction> {
        match self {
            DualModeAxisState::Neither(s) => s.spec_active(),
            DualModeAxisState::Single(dir, AxisButtonState::Active) => Some(dir),
            _ => None,
        }
    }

    pub open spec fn spec_active_unique(self) -> Option<Direction> {
        match self {
            DualModeAxisState::Neither(s) => s.spec_active_unique(),
            DualModeAxisState::Single(dir, AxisButtonState::Active) => Some(dir),
            _ => None,
        }
    }

    /// The active direction, leaving out latched directions.
    pub fn active(self) -> (r: Option<Direction>)
        ensures
            r == self.spec_active(),
    {
        match self {
            DualModeAxisState::Both => None,
            DualModeAxisState::Single(dir, state) => match state {
                AxisButtonState::Active => Some(dir),
                AxisButtonState::Inactive(_) => None,
            },
            DualModeAxisState::Neither(s) => s.active(),
        }
    }

    /// The active direction, if the opposite one is latched or not held.
    pub fn active_unique(self) -> (r: Option<Direction>)
        ensures
            r == self.spec_active_unique(),
    {
        match self {
            DualModeAxisState::Both => None,
            DualModeAxisState::Single(dir, state) => match state {
                AxisButtonState::Active => Some(dir),
                AxisButtonState::Inactive(_) => None,
            },
            DualModeAxisState::Neither(s) => s.active_unique(),
        }
    }

    /// Latching a direction, or releasing a latched one, leaves what the
    /// stick reads of the axis as it was.
    pub proof fn lemma_latch_keeps_readings(self, dir: Direction, pressed: Pressed, latch_on_press: bool)
        ensures
            ({
                let (n, released) = self.next(dir, pressed, latch_on_press);
                (released || (pressed && latch_on_press && n.latched(dir))) ==> {
                    &&& n.spec_active() == self.spec_active()
                    &&& n.spec_active_unique() == self.spec_active_unique()
                }
            }),
    {
    }

    pub fn is_latched(self, dir: Direction) -> (r: bool)
        ensures
            r == self.latched(dir),
    {
        match self {
            DualModeAxisState::Neither(_) => false,
            DualModeAxisState::Single(normal, _) => normal != dir,
            DualModeAxisState::Both => true,
        }
    }

    /// Returns whether a latched direction was released.
    pub fn transition(&mut self, dir: Direction, pressed: Pressed, latch_on_press: bool) -> (r:
        bool)
        ensures
            (*final(self), r) == old(self).next(dir, pressed, latch_on_press),
    {
        let (new_state, latch_released) = match *self {
            DualModeAxisState::Both => if pressed {
                (*self, false)
            } else {
                (DualModeAxisState::Single(dir, AxisButtonState::Inactive(RELEASED)), true)
            },
            DualModeAxisState::Single(normal, state) => {
                if dir == normal {
                    if !pressed {
                        (DualModeAxisState::Single(normal, AxisButtonState::from_pressed(pressed)), false)
                    } else if state != AxisButtonState::Inactive(RELEASED) {
                        (*self, false)
                    } else if latch_on_press {
                        (DualModeAxisState::Both, false)
                    } else {
                        (DualModeAxisState::Single(normal, AxisButtonState::from_pressed(pressed)), false)
                    }
                } else if pressed {
                    (*self, false)
                } else {
                    let s = match state {
                        AxisButtonState::Active => AxisState::Active(normal, RELEASED),
                        AxisButtonState::Inactive(held) => AxisState::Null(
                            if held {
                                Some(normal)
                            } else {
                                None
                            },
                        ),
                    };
                    (DualModeAxisState::Neither(s), true)
                }
            },
            DualModeAxisState::Neither(s) => {
                let dir_held = match s {
                    AxisState::Null(held) => held == Some(dir),
                    AxisState::Active(active, opposing) => active == dir || opposing,
                };
                if pressed && latch_on_press && !dir_held {
                    (DualModeAxisState::Single(!dir, s.state_in_dir(!dir)), false)
                } else {
                    let mut s = s;
                    s.transition(dir, pressed);
                    (DualModeAxisState::Neither(s), false)
                }
            },
        };
        *self = new_state;
        latch_released
    }
}

impl Default for DualModeAxisState {
    fn default() -> (r: DualModeAxisState)
        ensures
            r == DualModeAxisState::spec_default(),
    {
        DualModeAxisState::Neither(AxisState::default())
    }
}

} // verus!
