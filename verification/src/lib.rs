//! Scalper trader bot library: domain types, a market simulator and a
//! scalping strategy, with their behaviour stated as Verus contracts.
use vstd::prelude::*;

pub mod adapters;
pub mod clock;
pub mod exchange;
pub mod keyed;
pub mod prelude;
pub mod simulator;
pub mod strategy;
pub mod sums;
pub mod text;
pub mod types;

verus! {

/// The package version.
pub const VERSION: &'static str = "0.1.0";

} // verus!
