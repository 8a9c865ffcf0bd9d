//! A simulated exchange for testing and backtesting strategies.

pub mod engine;
pub mod market;

pub use engine::SimulatorEngine;
pub use market::{MarketCondition, SimulatedMarket, SimulatedMarketConfig};
