//! Energy units and the truncating conversions between them.

use vstd::prelude::*;

verus! {

/// The common energy unit, in which efficiency and blending are computed.
pub type BTU = u32;

/// Number of joules in one BTU.
pub const JOULES_PER_BTU: u32 = 1055;

/// Number of calories in one BTU.
pub const CALORIES_PER_BTU: u32 = 251;

/// An amount of energy in joules.
#[derive(Eq, PartialEq, Debug, Clone, Copy)]
pub struct Joule(pub u32);

/// An amount of energy in calories.
#[derive(Eq, PartialEq, Debug, Clone, Copy)]
pub struct Calorie(pub u32);

/// A unit of energy that converts to and from the common unit.
///
/// Conversion to the common unit truncates; conversion from it is exact, so a
/// value taken from the common unit and back is unchanged.
pub trait EnergyUnit: Sized {
    /// The value in the common unit (truncated).
    spec fn btu_value(&self) -> BTU;

    /// The largest common-unit value this unit can represent.
    spec fn max_btu() -> BTU;

    /// The value of this unit that stands for `b` in the common unit.
    spec fn from_btu_spec(b: BTU) -> Self;

    /// Converting from the common unit and back gives the same value.
    proof fn lemma_btu_round_trip(b: BTU)
        requires
            b <= Self::max_btu(),
        ensures
            Self::from_btu_spec(b).btu_value() == b,
    ;

    /// Converts to the common unit, truncating.
    fn to_btu(self) -> (r: BTU)
        ensures
            r == self.btu_value(),
    ;

    /// Converts from the common unit.
    fn from_btu(b: BTU) -> (r: Self)
        requires
            b <= Self::max_btu(),
        ensures
            r == Self::from_btu_spec(b),
            r.btu_value() == b,
    ;
}

impl EnergyUnit for BTU {
    open spec fn btu_value(&self) -> BTU {
        *self
    }

    open spec fn max_btu() -> BTU {
        u32::MAX
    }

    open spec fn from_btu_spec(b: BTU) -> BTU {
        b
    }

    proof fn lemma_btu_round_trip(b: BTU) {
    }

    fn to_btu(self) -> (r: BTU) {
        self
    }

    fn from_btu(b: BTU) -> (r: BTU) {
        b
    }
}

impl EnergyUnit for Joule {
    open spec fn btu_value(&self) -> BTU {
        self.0 / JOULES_PER_BTU
    }

    open spec fn max_btu() -> BTU {
        u32::MAX / JOULES_PER_BTU
    }

    open spec fn from_btu_spec(b: BTU) -> Joule {
        Joule((b * JOULES_PER_BTU) as u32)
    }

    proof fn lemma_btu_round_trip(b: BTU) {
        assert((b * 1055) / 1055 == b) by (nonlinear_arith);
    }

    fn to_btu(self) -> (r: BTU) {
        self.0 / JOULES_PER_BTU
    }

    fn from_btu(b: BTU) -> (r: Joule) {
        proof {
            Self::lemma_btu_round_trip(b);
        }
        Joule(b * JOULES_PER_BTU)
    }
}

impl EnergyUnit for Calorie {
    open spec fn btu_value(&self) -> BTU {
        self.0 / CALORIES_PER_BTU
    }

    open spec fn max_btu() -> BTU {
        u32::MAX / CALORIES_PER_BTU
    }

    open spec fn from_btu_spec(b: BTU) -> Calorie {
        Calorie((b * CALORIES_PER_BTU) as u32)
    }

    proof fn lemma_btu_round_trip(b: BTU) {
        assert((b * 251) / 251 == b) by (nonlinear_arith);
    }

    fn to_btu(self) -> (r: BTU) {
        self.0 / CALORIES_PER_BTU
    }

    fn from_btu(b: BTU) -> (r: Calorie) {
        proof {
            Self::lemma_btu_round_trip(b);
        }
        Calorie(b * CALORIES_PER_BTU)
    }
}

} // verus!
