//! Positions on the color wheel, in whole degrees.
use vstd::prelude::*;

verus! {

/// A position on the color wheel, in whole degrees, always in `[0, 360)`.
#[derive(Debug, Clone, Copy, PartialEq, Eq, Structural)]
pub struct Angle {
    degrees: u16,
}

impl View for Angle {
    type V = int;

    closed spec fn view(&self) -> int {
        self.degrees as int
    }
}

impl Angle {
    #[verifier::type_invariant]
    spec fn normalized(self) -> bool {
        self.degrees < 360
    }

    /// The angle of `d` degrees, brought into `[0, 360)`.
    pub closed spec fn from_degrees(d: int) -> Angle {
        Angle { degrees: (d % 360) as u16 }
    }

    /// The angle that `from_degrees` builds has the remainder as its degrees.
    pub broadcast proof fn lemma_from_degrees(d: int)
        ensures
            #[trigger] Angle::from_degrees(d)@ == d % 360,
    {
    }

    /// Two angles with the same degrees are the same angle.
    pub proof fn lemma_view_injective(a: Angle, b: Angle)
        requires
            a@ == b@,
        ensures
            a == b,
    {
    }

    /// The angle of `d` degrees, taken modulo 360.
    pub fn new(d: u16) -> (r: Angle)
        ensures
            r == Angle::from_degrees(d as int),
            r@ == d % 360,
    {
        Angle { degrees: d % 360 }
    }

    /// The degrees, in `[0, 360)`.
    pub fn degrees(self) -> (r: u16)
        ensures
            r == self@,
            r < 360,
    {
        proof {
            use_type_invariant(&self);
        }
        self.degrees
    }
}

impl core::ops::Add for Angle {
    type Output = Angle;

    /// Turns `self` on by `other`, wrapping past 360.
    fn add(self, other: Angle) -> (r: Angle)
        ensures
            r@ == (self@ + other@) % 360,
    {
        proof {
            use_type_invariant(&self);
            use_type_invariant(&other);
        }
        Angle { degrees: (self.degrees + other.degrees) % 360 }
    }
}

impl vstd::std_specs::ops::AddSpecImpl for Angle {
    open spec fn obeys_add_spec() -> bool {
        true
    }

    open spec fn add_req(self, other: Angle) -> bool {
        true
    }

    open spec fn add_spec(self, other: Angle) -> Angle {
        Angle::from_degrees(self@ + other@)
    }
}

impl core::ops::Sub for Angle {
    type Output = Angle;

    /// Turns `self` back by `other`, wrapping below 0.
    fn sub(self, other: Angle) -> (r: Angle)
        ensures
            r@ == (self@ - other@) % 360,
    {
        proof {
            use_type_invariant(&self);
            use_type_invariant(&other);
        }
        Angle { degrees: (self.degrees + 360 - other.degrees) % 360 }
    }
}

impl vstd::std_specs::ops::SubSpecImpl for Angle {
    open spec fn obeys_sub_spec() -> bool {
        true
    }

    open spec fn sub_req(self, other: Angle) -> bool {
        true
    }

    open spec fn sub_spec(self, other: Angle) -> Angle {
        Angle::from_degrees(self@ - other@)
    }
}

} // verus!
