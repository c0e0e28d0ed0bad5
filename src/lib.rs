//! Fuels, energy units and the providers that turn fuel into energy.

pub mod units;
pub mod fuel;
pub mod provider;
pub mod builder;
