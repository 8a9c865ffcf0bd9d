//! Trading strategies.

pub mod decision;
pub mod scalper;
pub mod settings;

pub use decision::{MarketState, StrategyAction, StrategyDecision};
pub use scalper::ScalpingStrategy;
pub use settings::TradingSettings;
