//! Providers that turn a container of fuel into energy.

use std::marker::PhantomData;
use vstd::prelude::*;
use vstd::arithmetic::div_mod::{lemma_fundamental_div_mod, lemma_fundamental_div_mod_converse};
use crate::fuel::{density_btu, Diesel, Fuel, FuelContainer, IsRenewable, Mixed, LithiumBattery, Uranium};
use crate::units::{BTU, EnergyUnit, Joule};

verus! {

/// An efficiency in percent, saturated at 100.
pub open spec fn clamp_efficiency(e: u8) -> int {
    if e > 100 { 100 } else { e as int }
}

/// The energy of `amount` units of `F`, in the common unit.
pub open spec fn ideal_btu<F: Fuel>(amount: u32) -> int {
    density_btu::<F>() * amount
}

/// `total` scaled by the efficiency `e` (saturated at 100), rounded to the
/// nearest integer, halves up.
pub open spec fn scaled_btu(total: int, e: u8) -> int {
    (total * clamp_efficiency(e) + 50) / 100
}

/// Whether `amount` units of `F` at efficiency `e` can be computed: the total
/// fits the common unit, and the scaled result fits the fuel's native unit.
pub open spec fn energy_fits<F: Fuel>(amount: u32, e: u8) -> bool {
    &&& ideal_btu::<F>(amount) <= u32::MAX
    &&& scaled_btu(ideal_btu::<F>(amount), e) <= F::Output::max_btu()
}

/// The energy produced from `amount` units of `F` at efficiency `e`, in the
/// fuel's native unit.
pub open spec fn energy_output<F: Fuel>(amount: u32, e: u8) -> F::Output {
    F::Output::from_btu_spec(scaled_btu(ideal_btu::<F>(amount), e) as u32)
}

/// Something that can provide energy from fuel of type `F`, like a power plant.
///
/// A provider is a state machine: each call of `provide_energy` applies the
/// efficiency `next_efficiency` and moves the provider to a state that the
/// old one `advances_to`.
/// Stateless providers stay as they are. Stateful providers keep their
/// counters in themselves and are called through `&mut`, so each serves one
/// caller at a time.
pub trait ProvideEnergy<F: Fuel>: Sized {
    /// The efficiency, in percent, that the next call applies.
    spec fn next_efficiency(&self) -> u8;

    /// Whether `next` is this provider after one more call.
    spec fn advances_to(&self, next: &Self) -> bool;

    /// Whether the provider can take one more call.
    spec fn ready(&self) -> bool;

    /// Consumes the container and returns the energy produced, in the fuel's
    /// native unit.
    fn provide_energy(&mut self, f: FuelContainer<F>) -> (r: F::Output)
        requires
            old(self).ready(),
            F::well_formed(),
            energy_fits::<F>(f@, old(self).next_efficiency()),
        ensures
            r == energy_output::<F>(f@, old(self).next_efficiency()),
            old(self).advances_to(&*final(self)),
    ;

    /// Converts the fuel in `f` at efficiency `e` percent, saturated at 100.
    fn provide_energy_with_efficiency(&self, f: FuelContainer<F>, e: u8) -> (r: F::Output)
        requires
            F::well_formed(),
            energy_fits::<F>(f@, e),
        ensures
            r == energy_output::<F>(f@, e),
    {
        let efficiency: u8 = if e > 100 { 100 } else { e };
        let density: BTU = F::energy_density().to_btu();
        let total: u32 = density * f.amount();
        let adjusted: u64 = (total as u64 * efficiency as u64 + 50) / 100;
        F::Output::from_btu(adjusted as u32)
    }

    /// Converts the fuel in `f` at full efficiency.
    fn provide_energy_ideal(&self, f: FuelContainer<F>) -> (r: F::Output)
        requires
            F::well_formed(),
            energy_fits::<F>(f@, 100),
        ensures
            r == energy_output::<F>(f@, 100),
    {
        self.provide_energy_with_efficiency(f, 100)
    }
}

/// At full efficiency, the energy produced is, in the common unit, exactly the
/// fuel's density in the common unit times the amount.
pub proof fn lemma_ideal_energy_is_density_times_amount<F: Fuel>(amount: u32)
    requires
        energy_fits::<F>(amount, 100),
    ensures
        energy_output::<F>(amount, 100).btu_value() == density_btu::<F>() * amount,
{
    let total = ideal_btu::<F>(amount);
    assert((total * 100 + 50) / 100 == total) by (nonlinear_arith)
        requires
            total >= 0,
    ;
    F::Output::lemma_btu_round_trip(total as u32);
}

/// Any efficiency above 100 percent produces what 100 percent produces.
pub proof fn lemma_efficiency_saturates<F: Fuel>(amount: u32, e: u8)
    requires
        e >= 100,
    ensures
        energy_output::<F>(amount, e) == energy_output::<F>(amount, 100),
        energy_fits::<F>(amount, e) == energy_fits::<F>(amount, 100),
{
}


/// A nuclear reactor: consumes only uranium, at 99 percent efficiency.
pub struct NuclearReactor;

impl ProvideEnergy<Uranium> for NuclearReactor {
    open spec fn next_efficiency(&self) -> u8 {
        99
    }

    open spec fn advances_to(&self, next: &Self) -> bool {
        *next == *self
    }

    open spec fn ready(&self) -> bool {
        true
    }

    fn provide_energy(&mut self, f: FuelContainer<Uranium>) -> (r: Joule) {
        self.provide_energy_with_efficiency(f, 99)
    }
}

/// A combustion engine that consumes only diesel, and whose efficiency drops
/// by one percent point every `DECAY` calls, never below 1.
///
/// It holds its call count and current efficiency; calls take it by `&mut`,
/// so one engine serves one caller at a time.
pub struct InternalCombustion<const DECAY: u32> {
    efficiency: u8,
    call_count: u32,
}

/// The state of a decaying engine: the efficiency applied by its last call
/// (or its initial one) and the number of calls made.
pub struct EngineState {
    pub efficiency: u8,
    pub call_count: u32,
}

impl EngineState {
    /// The state of an engine before any call, with initial efficiency `e`
    /// saturated at 100.
    pub open spec fn initial(e: u8) -> EngineState {
        EngineState { efficiency: clamp_efficiency(e) as u8, call_count: 0 }
    }

    /// The efficiency applied by the next call: the current one, lowered by one
    /// when the call count is a positive multiple of `decay` and it is above 1.
    pub open spec fn next_efficiency(self, decay: u32) -> u8 {
        if self.call_count % decay == 0 && self.call_count >= decay && self.efficiency > 1 {
            (self.efficiency - 1) as u8
        } else {
            self.efficiency
        }
    }

    /// The state after one more call.
    pub open spec fn step(self, decay: u32) -> EngineState {
        EngineState {
            efficiency: self.next_efficiency(decay),
            call_count: (self.call_count + 1) as u32,
        }
    }

    /// The state after `n` more calls.
    pub open spec fn after_calls(self, decay: u32, n: nat) -> EngineState
        decreases n,
    {
        if n == 0 {
            self
        } else {
            self.after_calls(decay, (n - 1) as nat).step(decay)
        }
    }
}

impl<const DECAY: u32> View for InternalCombustion<DECAY> {
    type V = EngineState;

    closed spec fn view(&self) -> EngineState {
        EngineState { efficiency: self.efficiency, call_count: self.call_count }
    }
}

impl<const DECAY: u32> InternalCombustion<DECAY> {
    /// A new engine with initial efficiency `efficiency`, saturated at 100.
    pub fn new(efficiency: u8) -> (r: Self)
        ensures
            r@ == EngineState::initial(efficiency),
    {
        let e: u8 = if efficiency > 100 { 100 } else { efficiency };
        InternalCombustion { efficiency: e, call_count: 0 }
    }
}

impl<const DECAY: u32> ProvideEnergy<Diesel> for InternalCombustion<DECAY> {
    open spec fn next_efficiency(&self) -> u8 {
        self@.next_efficiency(DECAY)
    }

    open spec fn advances_to(&self, next: &Self) -> bool {
        next@ == self@.step(DECAY)
    }

    open spec fn ready(&self) -> bool {
        DECAY > 0 && self@.call_count < u32::MAX
    }

    fn provide_energy(&mut self, f: FuelContainer<Diesel>) -> (r: Joule) {
        if self.call_count % DECAY == 0 && self.efficiency > 1 && self.call_count >= DECAY {
            self.efficiency = self.efficiency - 1;
        }
        self.call_count = self.call_count + 1;
        self.provide_energy_with_efficiency(f, self.efficiency)
    }
}

/// The efficiency that an engine started at `e` percent (saturated at 100)
/// applies on its call number `n`, counting from 0, when it loses one point
/// every `decay` calls and never goes below 1 by decay.
pub open spec fn decayed_efficiency(e: u8, decay: u32, n: nat) -> int {
    let start = clamp_efficiency(e);
    if start <= 1 {
        start
    } else if start - (n as int) / (decay as int) >= 1 {
        start - (n as int) / (decay as int)
    } else {
        1
    }
}

proof fn lemma_div_step(n: int, d: int)
    requires
        n >= 1,
        d > 0,
    ensures
        n / d == (n - 1) / d + (if n % d == 0 { 1int } else { 0int }),
        n % d == 0 ==> n >= d,
{
    lemma_fundamental_div_mod(n - 1, d);
    let q = (n - 1) / d;
    let r = (n - 1) % d;
    if r == d - 1 {
        assert(n == (q + 1) * d + 0) by (nonlinear_arith)
            requires
                n - 1 == d * q + r,
                r == d - 1,
        ;
        lemma_fundamental_div_mod_converse(n, d, q + 1, 0);
        assert(q >= 0) by (nonlinear_arith)
            requires
                n - 1 == d * q + r,
                0 <= r < d,
                n >= 1,
        ;
        assert(n >= d) by (nonlinear_arith)
            requires
                n == (q + 1) * d,
                q >= 0,
                d > 0,
        ;
    } else {
        assert(n == q * d + (r + 1)) by (nonlinear_arith)
            requires
                n - 1 == d * q + r,
        ;
        lemma_fundamental_div_mod_converse(n, d, q, r + 1);
    }
}

proof fn lemma_div_add_divisor(n: int, d: int)
    requires
        n >= 0,
        d > 0,
    ensures
        (n + d) / d == n / d + 1,
{
    lemma_fundamental_div_mod(n, d);
    assert(n + d == (n / d + 1) * d + n % d) by (nonlinear_arith)
        requires
            n == d * (n / d) + n % d,
    ;
    lemma_fundamental_div_mod_converse(n + d, d, n / d + 1, n % d);
}

/// The decay schedule: after `n` calls, an engine made with efficiency `e`
/// has counted `n` calls, holds the efficiency its last call applied, and
/// applies `decayed_efficiency(e, DECAY, n)` on its next call.
pub proof fn lemma_decay_schedule<const DECAY: u32>(e: u8, n: nat)
    requires
        DECAY > 0,
        n <= u32::MAX,
    ensures
        EngineState::initial(e).after_calls(DECAY, n).call_count == n,
        EngineState::initial(e).after_calls(DECAY, n).efficiency == (if n == 0 {
            clamp_efficiency(e)
        } else {
            decayed_efficiency(e, DECAY, (n - 1) as nat)
        }),
        EngineState::initial(e).after_calls(DECAY, n).next_efficiency(DECAY)
            == decayed_efficiency(e, DECAY, n),
    decreases n,
{
    if n == 0 {
        assert(0int / (DECAY as int) == 0);
    } else {
        lemma_decay_schedule::<DECAY>(e, (n - 1) as nat);
        lemma_div_step(n as int, DECAY as int);
    }
}

proof fn lemma_decayed_efficiency_bounds(e: u8, decay: u32, n: nat)
    requires
        decay > 0,
    ensures
        decayed_efficiency(e, decay, n + 1) <= decayed_efficiency(e, decay, n),
        decayed_efficiency(e, decay, n) - decayed_efficiency(e, decay, (n + decay) as nat) <= 1,
        decayed_efficiency(e, decay, n) <= clamp_efficiency(e),
        clamp_efficiency(e) >= 1 ==> decayed_efficiency(e, decay, n) >= 1,
{
    lemma_div_step(n + 1int, decay as int);
    lemma_div_add_divisor(n as int, decay as int);
    lemma_fundamental_div_mod(n as int, decay as int);
}

/// For an engine made with efficiency `e`, the efficiency applied by its calls
/// never rises from one call to the next, drops by at most one point over any
/// `DECAY` consecutive calls, never exceeds the initial one (saturated at 100),
/// and never falls below 1 unless it started there.
pub proof fn lemma_decay_monotone<const DECAY: u32>(e: u8, n: nat)
    requires
        DECAY > 0,
        n + DECAY <= u32::MAX,
    ensures
        EngineState::initial(e).after_calls(DECAY, n + 1).next_efficiency(DECAY)
            <= EngineState::initial(e).after_calls(DECAY, n).next_efficiency(DECAY),
        EngineState::initial(e).after_calls(DECAY, n).next_efficiency(DECAY)
            - EngineState::initial(e).after_calls(DECAY, (n + DECAY) as nat).next_efficiency(DECAY) <= 1,
        EngineState::initial(e).after_calls(DECAY, n).next_efficiency(DECAY) <= clamp_efficiency(e),
        clamp_efficiency(e) >= 1 ==> EngineState::initial(e).after_calls(DECAY, n).next_efficiency(DECAY) >= 1,
{
    lemma_decay_schedule::<DECAY>(e, n);
    lemma_decay_schedule::<DECAY>(e, n + 1);
    lemma_decay_schedule::<DECAY>(e, (n + DECAY) as nat);
    lemma_decayed_efficiency_bounds(e, DECAY, n);
}

/// A generator that consumes any fuel at a fixed efficiency of `EFFICIENCY`
/// percent, saturated at 100.
pub struct OmniGenerator<const EFFICIENCY: u8>;

impl<const EFFICIENCY: u8, F: Fuel> ProvideEnergy<F> for OmniGenerator<EFFICIENCY> {
    open spec fn next_efficiency(&self) -> u8 {
        EFFICIENCY
    }

    open spec fn advances_to(&self, next: &Self) -> bool {
        *next == *self
    }

    open spec fn ready(&self) -> bool {
        true
    }

    fn provide_energy(&mut self, f: FuelContainer<F>) -> (r: F::Output) {
        self.provide_energy_with_efficiency(f, EFFICIENCY)
    }
}

/// The energy, in the common unit, that an 80 percent generator produces from
/// `amount` units of an even blend of diesel and lithium battery.
pub fn omni_80_energy(amount: u32) -> (r: BTU)
    requires
        150 * amount <= u32::MAX,
    ensures
        r == (150 * amount * 80 + 50) / 100,
{
    let fuel_container: FuelContainer<Mixed<Diesel, LithiumBattery>> = FuelContainer::new(amount);
    let mut og = OmniGenerator::<80>;
    og.provide_energy(fuel_container).to_btu()
}

/// An engine that consumes only renewable fuels, at full efficiency.
pub struct GreenEngine<F: Fuel + IsRenewable>(pub PhantomData<F>);

impl<F: Fuel + IsRenewable> ProvideEnergy<F> for GreenEngine<F> {
    open spec fn next_efficiency(&self) -> u8 {
        100
    }

    open spec fn advances_to(&self, next: &Self) -> bool {
        *next == *self
    }

    open spec fn ready(&self) -> bool {
        true
    }

    fn provide_energy(&mut self, f: FuelContainer<F>) -> (r: F::Output) {
        self.provide_energy_ideal(f)
    }
}

/// An engine that consumes only fuels whose unit is the common unit, at full
/// efficiency.
pub struct BritishEngine<F: Fuel<Output = BTU>>(pub PhantomData<F>);

impl<F: Fuel<Output = BTU>> ProvideEnergy<F> for BritishEngine<F> {
    open spec fn next_efficiency(&self) -> u8 {
        100
    }

    open spec fn advances_to(&self, next: &Self) -> bool {
        *next == *self
    }

    open spec fn ready(&self) -> bool {
        true
    }

    fn provide_energy(&mut self, f: FuelContainer<F>) -> (r: F::Output) {
        self.provide_energy_ideal(f)
    }
}

/// How hard the author found the fuel and provider modules, from 0 (very easy) to 255 (very hard).
pub fn how_hard_was_this_section() -> (r: u8)
    ensures
        r == 3,
{
    3
}

/// How many hours the author spent on the fuel and provider modules.
pub fn how_many_hours_did_you_spend_on_this_section() -> (r: u8)
    ensures
        r == 215,
{
    215
}

} // verus!
