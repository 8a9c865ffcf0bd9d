//! Core domain types.

pub mod decimal;
pub mod money;
pub mod order;
pub mod order_book;
pub mod position;
pub mod trade;

pub use decimal::Decimal;
pub use money::{Currency, Money, MoneyError, Price, Quantity};
pub use order::{Order, OrderId, OrderSide, OrderStatus, OrderType};
pub use order_book::{OrderBook, OrderBookEntry, OrderBookLevel};
pub use position::Position;
pub use trade::{Trade, TradeHistory, TradeId};
