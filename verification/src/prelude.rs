//! The items most programs need, for one `use`.

pub use crate::exchange::{ExchangeError, ExchangeInfo};
pub use crate::simulator::{SimulatedMarket, SimulatedMarketConfig, SimulatorEngine};
pub use crate::strategy::{ScalpingStrategy, StrategyAction, StrategyDecision, TradingSettings};
pub use crate::types::{
    Currency, Money, Order, OrderBook, OrderId, OrderSide, OrderStatus, OrderType, Position, Price, Quantity, Trade,
    TradeId,
};
