//! Fuels, containers of fuel, and blends of two fuels.

use std::marker::PhantomData;
use vstd::prelude::*;
use crate::units::{BTU, EnergyUnit, Joule, Calorie};

verus! {

/// A technology for storing energy for later consumption.
///
/// A fuel is known by its type alone: it has a native unit and a fixed
/// energy density per unit amount, expressed in that unit.
pub trait Fuel {
    /// The unit in which this fuel's energy is expressed.
    type Output: EnergyUnit;

    /// Whether the fuel type is well formed (a blend's weight is a percent).
    spec fn well_formed() -> bool;

    /// The energy contained in one unit of fuel.
    spec fn density() -> Self::Output;

    /// The energy contained in one unit of fuel.
    fn energy_density() -> (r: Self::Output)
        requires
            Self::well_formed(),
        ensures
            r == Self::density(),
    ;
}

/// The energy density of `F` in the common unit.
pub open spec fn density_btu<F: Fuel>() -> BTU {
    F::density().btu_value()
}

/// Diesel: 100 BTU per unit, natively in joules.
pub struct Diesel;

impl Fuel for Diesel {
    type Output = Joule;

    open spec fn well_formed() -> bool {
        true
    }

    open spec fn density() -> Joule {
        Joule::from_btu_spec(100)
    }

    fn energy_density() -> (r: Joule) {
        Joule::from_btu(100)
    }
}

/// A lithium battery: 200 BTU per unit, natively in calories.
pub struct LithiumBattery;

impl Fuel for LithiumBattery {
    type Output = Calorie;

    open spec fn well_formed() -> bool {
        true
    }

    open spec fn density() -> Calorie {
        Calorie::from_btu_spec(200)
    }

    fn energy_density() -> (r: Calorie) {
        Calorie::from_btu(200)
    }
}

/// Uranium: 1000 BTU per unit, natively in joules.
pub struct Uranium;

impl Fuel for Uranium {
    type Output = Joule;

    open spec fn well_formed() -> bool {
        true
    }

    open spec fn density() -> Joule {
        Joule::from_btu_spec(1000)
    }

    fn energy_density() -> (r: Joule) {
        Joule::from_btu(1000)
    }
}

/// A fuel that is renewable. Providers may require it of the fuels they accept.
pub trait IsRenewable {}

impl IsRenewable for LithiumBattery {}

/// A quantity of fuel of type `F`.
pub struct FuelContainer<F: Fuel> {
    amount: u32,
    _marker: PhantomData<F>,
}

impl<F: Fuel> View for FuelContainer<F> {
    type V = u32;

    /// The amount of fuel held.
    closed spec fn view(&self) -> u32 {
        self.amount
    }
}

impl<F: Fuel> FuelContainer<F> {
    /// A container holding `amount` units of fuel.
    pub fn new(amount: u32) -> (r: Self)
        ensures
            r@ == amount,
    {
        FuelContainer { amount, _marker: PhantomData }
    }

    /// The amount of fuel held.
    pub fn amount(&self) -> (r: u32)
        ensures
            r == self@,
    {
        self.amount
    }
}

/// The even blend of two densities in the common unit: their truncated average.
pub open spec fn even_blend(d1: BTU, d2: BTU) -> BTU {
    ((d1 + d2) / 2) as u32
}

/// The blend of two densities in the common unit, weighted by `c` percent
/// towards the first, rounded to the nearest integer (halves down, so that
/// at 50 percent it agrees with the truncated average of the even blend).
pub open spec fn weighted_blend(c: u8, d1: BTU, d2: BTU) -> BTU {
    ((d1 * c + d2 * (100 - c) + 49) / 100) as u32
}

/// An even blend of two fuels, itself a fuel whose unit is the common unit.
pub struct Mixed<F1: Fuel, F2: Fuel>(PhantomData<(F1, F2)>);

impl<F1: Fuel, F2: Fuel> Fuel for Mixed<F1, F2> {
    type Output = BTU;

    open spec fn well_formed() -> bool {
        F1::well_formed() && F2::well_formed()
    }

    open spec fn density() -> BTU {
        even_blend(density_btu::<F1>(), density_btu::<F2>())
    }

    fn energy_density() -> (r: BTU) {
        let d1 = F1::energy_density().to_btu();
        let d2 = F2::energy_density().to_btu();
        ((d1 as u64 + d2 as u64) / 2) as u32
    }
}

/// A blend of two fuels in which the first weighs `C` percent and the second
/// the rest. `C` must be at most 100.
pub struct CustomMixed<const C: u8, F1, F2>(PhantomData<(F1, F2)>);

impl<const C: u8, F1: Fuel, F2: Fuel> Fuel for CustomMixed<C, F1, F2> {
    type Output = BTU;

    open spec fn well_formed() -> bool {
        C <= 100 && F1::well_formed() && F2::well_formed()
    }

    open spec fn density() -> BTU {
        weighted_blend(C, density_btu::<F1>(), density_btu::<F2>())
    }

    fn energy_density() -> (r: BTU) {
        let d1 = F1::energy_density().to_btu() as u64;
        let d2 = F2::energy_density().to_btu() as u64;
        let c = C as u64;
        assert(d1 * c + d2 * (100 - c) <= u32::MAX * 100) by (nonlinear_arith)
            requires
                d1 <= u32::MAX,
                d2 <= u32::MAX,
                c <= 100,
        ;
        ((d1 * c + d2 * (100 - c) + 49) / 100) as u32
    }
}

/// Even blending does not depend on the order of the two fuels.
pub proof fn lemma_even_blend_symmetric<F1: Fuel, F2: Fuel>()
    ensures
        <Mixed<F1, F2> as Fuel>::density() == <Mixed<F2, F1> as Fuel>::density(),
{
}

/// A weighted blend at 50 percent has the density of the even blend, for
/// every pair of fuels.
pub proof fn lemma_half_weighted_is_even<F1: Fuel, F2: Fuel>()
    ensures
        <CustomMixed<50, F1, F2> as Fuel>::density() == <Mixed<F1, F2> as Fuel>::density(),
{
}

} // verus!
