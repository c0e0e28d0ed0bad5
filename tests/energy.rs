use std::marker::PhantomData;

use fuel_energy::fuel::{CustomMixed, Diesel, Fuel, FuelContainer, LithiumBattery, Mixed, Uranium};
use fuel_energy::provider::{
    omni_80_energy, BritishEngine, GreenEngine, InternalCombustion, NuclearReactor, OmniGenerator,
    ProvideEnergy,
};
use fuel_energy::units::{Calorie, EnergyUnit, Joule, BTU};

#[test]
fn nuclear() {
    let mut nr = NuclearReactor;
    assert_eq!(nr.provide_energy(FuelContainer::<Uranium>::new(10)).to_btu(), 9900);
    assert_eq!(nr.provide_energy(FuelContainer::<Uranium>::new(10)).to_btu(), 9900);
}

#[test]
fn ic_1() {
    let mut ic = InternalCombustion::<3>::new(120);
    assert_eq!(ic.provide_energy(FuelContainer::<Diesel>::new(10)).to_btu(), 1000);
    assert_eq!(ic.provide_energy(FuelContainer::<Diesel>::new(10)).to_btu(), 1000);
    assert_eq!(ic.provide_energy(FuelContainer::<Diesel>::new(10)).to_btu(), 1000);
    assert_eq!(ic.provide_energy(FuelContainer::<Diesel>::new(10)).to_btu(), 990);
}

#[test]
fn omni_1() {
    let mut og = OmniGenerator::<100>;
    assert_eq!(og.provide_energy(FuelContainer::<Uranium>::new(10)).to_btu(), 10000);
    assert_eq!(og.provide_energy(FuelContainer::<Diesel>::new(10)).to_btu(), 1000);
    assert_eq!(og.provide_energy(FuelContainer::<LithiumBattery>::new(10)).to_btu(), 2000);
}

#[test]
fn mixed_1() {
    assert_eq!(Mixed::<Diesel, LithiumBattery>::energy_density().to_btu(), 150);
}

#[test]
fn custom_mixed_1() {
    // A weight of 50 gives the even blend.
    assert_eq!(
        CustomMixed::<50, Diesel, LithiumBattery>::energy_density().to_btu(),
        Mixed::<Diesel, LithiumBattery>::energy_density()
    );
}

#[test]
fn omni_80_1() {
    let amount = 10;
    let expected_btu_output = 1200;
    let btu_output = omni_80_energy(amount);
    assert_eq!(btu_output, expected_btu_output)
}

#[test]
fn unit_conversions_truncate() {
    assert_eq!(Joule(2109).to_btu(), 1);
    assert_eq!(Joule(2110).to_btu(), 2);
    assert_eq!(Calorie(250).to_btu(), 0);
    assert_eq!(Calorie(502).to_btu(), 2);
    assert_eq!(Joule::from_btu(3), Joule(3165));
    assert_eq!(Calorie::from_btu(3), Calorie(753));
    assert_eq!(<BTU as EnergyUnit>::from_btu(7), 7);
    // Joules to the common unit and back is not a round trip.
    assert_eq!(Joule::from_btu(Joule(2109).to_btu()), Joule(1055));
}

#[test]
fn fuel_densities() {
    assert_eq!(Diesel::energy_density(), Joule(105500));
    assert_eq!(LithiumBattery::energy_density(), Calorie(50200));
    assert_eq!(Uranium::energy_density(), Joule(1055000));
}

#[test]
fn ideal_is_density_times_amount() {
    let og = OmniGenerator::<0>;
    assert_eq!(og.provide_energy_ideal(FuelContainer::<Uranium>::new(7)).to_btu(), 7000);
    assert_eq!(og.provide_energy_ideal(FuelContainer::<LithiumBattery>::new(3)).to_btu(), 600);
    assert_eq!(og.provide_energy_ideal(FuelContainer::<Diesel>::new(0)).to_btu(), 0);
}

#[test]
fn efficiency_saturates_at_100() {
    let og = OmniGenerator::<0>;
    let high = og.provide_energy_with_efficiency(FuelContainer::<Diesel>::new(10), 150);
    let full = og.provide_energy_with_efficiency(FuelContainer::<Diesel>::new(10), 100);
    assert_eq!(high, full);
    assert_eq!(high, Joule(1055000));
}

#[test]
fn efficiency_rounds_to_nearest() {
    let og = OmniGenerator::<0>;
    // 1 unit of diesel is 100 BTU, and 33% of it is 33.
    assert_eq!(og.provide_energy_with_efficiency(FuelContainer::<Diesel>::new(1), 33).to_btu(), 33);
    // 3 units of uranium at 1% is 30 BTU; 5 units of diesel at 1% is 5 BTU.
    assert_eq!(og.provide_energy_with_efficiency(FuelContainer::<Uranium>::new(3), 1).to_btu(), 30);
    // 1 unit of lithium (200 BTU) at 1% is 2 BTU; 1 unit of a 150 blend at 1% is 1.5, so 2.
    let blend = og.provide_energy_with_efficiency(FuelContainer::<Mixed<Diesel, LithiumBattery>>::new(1), 1);
    assert_eq!(blend, 2);
    assert_eq!(og.provide_energy_with_efficiency(FuelContainer::<Diesel>::new(10), 0).to_btu(), 0);
}

#[test]
fn omni_generator_saturates() {
    let mut og = OmniGenerator::<200>;
    assert_eq!(og.provide_energy(FuelContainer::<Uranium>::new(10)).to_btu(), 10000);
}

#[test]
fn decay_every_two_calls_stops_at_one() {
    let mut ic = InternalCombustion::<2>::new(3);
    let mut got = Vec::new();
    for _ in 0..8 {
        got.push(ic.provide_energy(FuelContainer::<Diesel>::new(100)).to_btu());
    }
    // Efficiencies 3, 3, 2, 2, 1, 1, 1, 1 on 10000 BTU.
    assert_eq!(got, vec![300, 300, 200, 200, 100, 100, 100, 100]);
}

#[test]
fn decay_never_increases() {
    let mut ic = InternalCombustion::<1>::new(5);
    let mut last = u32::MAX;
    for _ in 0..10 {
        let e = ic.provide_energy(FuelContainer::<Diesel>::new(100)).to_btu();
        assert!(e <= last);
        assert!(e >= 100);
        last = e;
    }
}

#[test]
fn decay_from_zero_stays_zero() {
    let mut ic = InternalCombustion::<1>::new(0);
    for _ in 0..3 {
        assert_eq!(ic.provide_energy(FuelContainer::<Diesel>::new(10)).to_btu(), 0);
    }
}

#[test]
fn container_amount() {
    assert_eq!(FuelContainer::<Diesel>::new(0).amount(), 0);
    assert_eq!(FuelContainer::<Uranium>::new(42).amount(), 42);
}

#[test]
fn blend_symmetry() {
    assert_eq!(
        Mixed::<Diesel, LithiumBattery>::energy_density(),
        Mixed::<LithiumBattery, Diesel>::energy_density()
    );
    assert_eq!(
        Mixed::<Uranium, Diesel>::energy_density(),
        Mixed::<Diesel, Uranium>::energy_density()
    );
}

#[test]
fn even_blend_truncates() {
    // (100 + 150) / 2 = 125; (1000 + 150) / 2 = 575.
    assert_eq!(Mixed::<Diesel, Mixed<Diesel, LithiumBattery>>::energy_density(), 125);
    assert_eq!(Mixed::<Uranium, Mixed<Diesel, LithiumBattery>>::energy_density(), 575);
    // (100 + 125) / 2 = 112.5, truncated.
    assert_eq!(
        Mixed::<Diesel, Mixed<Diesel, Mixed<Diesel, LithiumBattery>>>::energy_density(),
        112
    );
}

#[test]
fn weighted_blend_values() {
    assert_eq!(CustomMixed::<100, Uranium, Diesel>::energy_density(), 1000);
    assert_eq!(CustomMixed::<0, Uranium, Diesel>::energy_density(), 100);
    assert_eq!(CustomMixed::<25, Uranium, Diesel>::energy_density(), 325);
    assert_eq!(CustomMixed::<50, Uranium, Diesel>::energy_density(), 550);
    // 125 * 0.33 + 100 * 0.67 = 108.25, rounded to 108; 125 * 0.5 + 100 * 0.5 = 112.5,
    // rounded down to 112, as the even blend truncates it.
    type Blend = Mixed<Diesel, Mixed<Diesel, LithiumBattery>>;
    assert_eq!(CustomMixed::<33, Blend, Diesel>::energy_density(), 108);
    assert_eq!(CustomMixed::<50, Blend, Diesel>::energy_density(), 112);
}

#[test]
fn omni_80_on_blend() {
    assert_eq!(omni_80_energy(0), 0);
    assert_eq!(omni_80_energy(1), 120);
    let mut og = OmniGenerator::<80>;
    assert_eq!(og.provide_energy(FuelContainer::<Mixed<Diesel, LithiumBattery>>::new(10)), 1200);
}

#[test]
fn green_engine_on_renewable() {
    let mut g = GreenEngine::<LithiumBattery>(PhantomData);
    assert_eq!(g.provide_energy(FuelContainer::new(10)), Calorie(502000));
    assert_eq!(g.provide_energy(FuelContainer::new(10)).to_btu(), 2000);
}

#[test]
fn british_engine_on_common_unit_fuel() {
    let mut b = BritishEngine::<Mixed<Diesel, Uranium>>(PhantomData);
    assert_eq!(b.provide_energy(FuelContainer::new(10)), 5500);
    let mut c = BritishEngine::<CustomMixed<10, Uranium, LithiumBattery>>(PhantomData);
    assert_eq!(c.provide_energy(FuelContainer::new(2)), 560);
}

#[test]
fn energy_feedback() {
    assert_eq!(fuel_energy::provider::how_hard_was_this_section(), 3);
    assert_eq!(fuel_energy::provider::how_many_hours_did_you_spend_on_this_section(), 215);
}
