//! Settings of the scalping strategy.
use vstd::prelude::*;
use crate::text::owned;
use crate::types::decimal::{Decimal, DecimalView, dv, decimal_checked_mul, product_of};

verus! {

/// The settings of a trading strategy for one instrument.
#[derive(Debug)]
pub struct TradingSettings {
    /// The instrument traded.
    pub instrument: String,
    /// Whether trading is switched on.
    pub enabled: bool,
    /// The minimum profit, in price steps.
    pub minimum_profit_steps: u32,
    /// The price step (tick size).
    pub price_step: Decimal,
    /// The lots of each buy order.
    pub lot_size: u64,
    /// The most lots to hold.
    pub max_position_lots: u64,
    /// How many order book levels to weigh for liquidity.
    pub market_order_book_depth: usize,
    /// Bid lots needed (within the depth) before buying.
    pub minimum_market_order_size_to_buy: u64,
    /// Ask lots needed (within the depth) before selling.
    pub minimum_market_order_size_to_sell: u64,
    /// Bid lots needed before moving a buy order to a new best bid.
    pub minimum_market_order_size_to_change_buy_price: u64,
    /// Ask lots needed before moving a sell order to a better ask.
    pub minimum_market_order_size_to_change_sell_price: u64,
    /// The trading window as seconds of the UTC day (start, end); `None`
    /// trades at any time.
    pub trading_hours: Option<(u32, u32)>,
}

impl Clone for TradingSettings {
    fn clone(&self) -> (r: Self)
        ensures
            r == *self,
    {
        TradingSettings {
            instrument: self.instrument.clone(),
            enabled: self.enabled,
            minimum_profit_steps: self.minimum_profit_steps,
            price_step: self.price_step,
            lot_size: self.lot_size,
            max_position_lots: self.max_position_lots,
            market_order_book_depth: self.market_order_book_depth,
            minimum_market_order_size_to_buy: self.minimum_market_order_size_to_buy,
            minimum_market_order_size_to_sell: self.minimum_market_order_size_to_sell,
            minimum_market_order_size_to_change_buy_price: self.minimum_market_order_size_to_change_buy_price,
            minimum_market_order_size_to_change_sell_price: self.minimum_market_order_size_to_change_sell_price,
            trading_hours: self.trading_hours,
        }
    }
}

/// The minimum profit: price step times profit steps.
pub open spec fn minimum_profit_spec(s: TradingSettings) -> DecimalView {
    product_of(s.price_step@, dv(s.minimum_profit_steps as int, 0))
}

/// Whether a second of the UTC day lies in the trading window: from start
/// to end inclusive, or across midnight when the start is after the end.
pub open spec fn trading_time_spec(hours: Option<(u32, u32)>, second: int) -> bool {
    match hours {
        None => true,
        Some((start, end)) => if start <= end {
            start <= second && second <= end
        } else {
            start <= second || second <= end
        },
    }
}

impl TradingSettings {
    /// Settings for an instrument: enabled at any time, one profit step of
    /// 0.01, one lot per order, at most one lot held, one level of depth, and
    /// one lot of liquidity needed for every decision.
    pub fn new(instrument: &str) -> (r: TradingSettings)
        ensures
            r.instrument@ == instrument@,
            r.enabled,
            r.minimum_profit_steps == 1,
            r.price_step@ == dv(1, 2),
            r.lot_size == 1,
            r.max_position_lots == 1,
            r.market_order_book_depth == 1,
            r.minimum_market_order_size_to_buy == 1,
            r.minimum_market_order_size_to_sell == 1,
            r.minimum_market_order_size_to_change_buy_price == 1,
            r.minimum_market_order_size_to_change_sell_price == 1,
            r.trading_hours is None,
    {
        TradingSettings {
            instrument: owned(instrument),
            enabled: true,
            minimum_profit_steps: 1,
            price_step: Decimal::new(1, 2),
            lot_size: 1,
            max_position_lots: 1,
            market_order_book_depth: 1,
            minimum_market_order_size_to_buy: 1,
            minimum_market_order_size_to_sell: 1,
            minimum_market_order_size_to_change_buy_price: 1,
            minimum_market_order_size_to_change_sell_price: 1,
            trading_hours: None,
        }
    }

    /// With the minimum profit in price steps.
    pub fn with_minimum_profit_steps(self, steps: u32) -> (r: TradingSettings)
        ensures
            r == (TradingSettings { minimum_profit_steps: steps, ..self }),
    {
        TradingSettings { minimum_profit_steps: steps, ..self }
    }

    /// With the price step.
    pub fn with_price_step(self, step: Decimal) -> (r: TradingSettings)
        ensures
            r == (TradingSettings { price_step: step, ..self }),
    {
        TradingSettings { price_step: step, ..self }
    }

    /// With the lots of each order.
    pub fn with_lot_size(self, lots: u64) -> (r: TradingSettings)
        ensures
            r == (TradingSettings { lot_size: lots, ..self }),
    {
        TradingSettings { lot_size: lots, ..self }
    }

    /// With the most lots to hold.
    pub fn with_max_position(self, lots: u64) -> (r: TradingSettings)
        ensures
            r == (TradingSettings { max_position_lots: lots, ..self }),
    {
        TradingSettings { max_position_lots: lots, ..self }
    }

    /// With the bid lots needed before buying.
    pub fn with_min_order_size_to_buy(self, lots: u64) -> (r: TradingSettings)
        ensures
            r == (TradingSettings { minimum_market_order_size_to_buy: lots, ..self }),
    {
        TradingSettings { minimum_market_order_size_to_buy: lots, ..self }
    }

    /// With the ask lots needed before selling.
    pub fn with_min_order_size_to_sell(self, lots: u64) -> (r: TradingSettings)
        ensures
            r == (TradingSettings { minimum_market_order_size_to_sell: lots, ..self }),
    {
        TradingSettings { minimum_market_order_size_to_sell: lots, ..self }
    }

    /// With the bid lots needed before moving a buy order.
    pub fn with_min_order_size_to_change_buy_price(self, lots: u64) -> (r: TradingSettings)
        ensures
            r == (TradingSettings { minimum_market_order_size_to_change_buy_price: lots, ..self }),
    {
        TradingSettings { minimum_market_order_size_to_change_buy_price: lots, ..self }
    }

    /// With the ask lots needed before moving a sell order.
    pub fn with_min_order_size_to_change_sell_price(self, lots: u64) -> (r: TradingSettings)
        ensures
            r == (TradingSettings { minimum_market_order_size_to_change_sell_price: lots, ..self }),
    {
        TradingSettings { minimum_market_order_size_to_change_sell_price: lots, ..self }
    }

    /// With the number of order book levels to weigh.
    pub fn with_order_book_depth(self, depth: usize) -> (r: TradingSettings)
        ensures
            r == (TradingSettings { market_order_book_depth: depth, ..self }),
    {
        TradingSettings { market_order_book_depth: depth, ..self }
    }

    /// With a trading window, in seconds of the UTC day.
    pub fn with_trading_hours(self, start: u32, end: u32) -> (r: TradingSettings)
        ensures
            r == (TradingSettings { trading_hours: Some((start, end)), ..self }),
    {
        TradingSettings { trading_hours: Some((start, end)), ..self }
    }

    /// Switches trading on or off.
    pub fn with_enabled(self, enabled: bool) -> (r: TradingSettings)
        ensures
            r == (TradingSettings { enabled, ..self }),
    {
        TradingSettings { enabled, ..self }
    }

    /// The minimum profit: price step times profit steps.
    pub fn minimum_profit(&self) -> (r: Decimal)
        requires
            decimal_checked_mul(self.price_step@, dv(self.minimum_profit_steps as int, 0)) is Some,
        ensures
            r@ == minimum_profit_spec(*self),
    {
        self.price_step.mul(&Decimal::from_u64(self.minimum_profit_steps as u64))
    }

    /// Whether a second of the UTC day lies in the trading window.
    pub fn is_trading_time(&self, second: u32) -> (r: bool)
        ensures
            r == trading_time_spec(self.trading_hours, second as int),
    {
        match self.trading_hours {
            None => true,
            Some((start, end)) => if start <= end {
                start <= second && second <= end
            } else {
                start <= second || second <= end
            },
        }
    }
}

} // verus!
