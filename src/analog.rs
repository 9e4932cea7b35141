//! Bounded numeric domains of the gamepad: stick coordinates and trigger
//! magnitudes.

use vstd::prelude::*;

verus! {

/// A stick coordinate on one axis, always within `[-80, 80]`.
#[derive(Clone, Copy, Debug, PartialEq, Eq, Hash, Structural)]
pub struct Analog {
    v: i8,
}

impl View for Analog {
    type V = int;

    closed spec fn view(&self) -> int {
        self.v as int
    }
}

impl Analog {
    /// The coordinate `v`, for `v` in `[-80, 80]`.
    pub closed spec fn from_int(v: int) -> Analog {
        Analog { v: v as i8 }
    }

    pub broadcast proof fn lemma_from_int(v: int)
        requires
            -80 <= v <= 80,
        ensures
            (#[trigger] Analog::from_int(v))@ == v,
    {
    }

    /// Coordinates are determined by their value.
    pub broadcast proof fn lemma_view_injective(a: Analog, b: Analog)
        ensures
            #[trigger] a@ == #[trigger] b@ <==> a == b,
    {
    }

    #[verifier::type_invariant]
    spec fn in_range(self) -> bool {
        -80 <= self.v <= 80
    }

    pub fn new(v: i8) -> (r: Analog)
        requires
            -80 <= v <= 80,
        ensures
            r@ == v,
    {
        Analog { v }
    }

    pub fn get(self) -> (r: i8)
        ensures
            r == self@,
            -80 <= r <= 80,
    {
        proof {
            use_type_invariant(&self);
        }
        self.v
    }

    /// The coordinate itself when `positive`, its negation otherwise.
    pub fn neg_not(self, positive: bool) -> (r: Analog)
        ensures
            r@ == if positive { self@ } else { -self@ },
    {
        proof {
            use_type_invariant(&self);
        }
        if positive {
            self
        } else {
            Analog { v: -self.v }
        }
    }
}

/// A trigger magnitude, always within `[0, 140]`; zero means released.
#[derive(Clone, Copy, Debug, PartialEq, Eq, Hash, Structural)]
pub struct Trigger {
    v: u8,
}

impl View for Trigger {
    type V = int;

    closed spec fn view(&self) -> int {
        self.v as int
    }
}

/// Trigger value of the light shield.
pub const LIGHT_SHIELD: u8 = 49;

/// Trigger value of the medium shield.
pub const MEDIUM_SHIELD: u8 = 94;

impl Trigger {
    /// The magnitude `v`, for `v` in `[0, 140]`.
    pub closed spec fn from_int(v: int) -> Trigger {
        Trigger { v: v as u8 }
    }

    pub broadcast proof fn lemma_from_int(v: int)
        requires
            0 <= v <= 140,
        ensures
            (#[trigger] Trigger::from_int(v))@ == v,
    {
    }

    /// Magnitudes are determined by their value.
    pub broadcast proof fn lemma_view_injective(a: Trigger, b: Trigger)
        ensures
            #[trigger] a@ == #[trigger] b@ <==> a == b,
    {
    }

    #[verifier::type_invariant]
    spec fn in_range(self) -> bool {
        self.v <= 140
    }

    pub fn new(v: u8) -> (r: Trigger)
        requires
            v <= 140,
        ensures
            r@ == v,
    {
        Trigger { v }
    }

    pub fn get(self) -> (r: u8)
        ensures
            r == self@,
            r <= 140,
    {
        proof {
            use_type_invariant(&self);
        }
        self.v
    }
}

pub broadcast group group_analog {
    Analog::lemma_from_int,
    Analog::lemma_view_injective,
    Trigger::lemma_from_int,
    Trigger::lemma_view_injective,
}

} // verus!
