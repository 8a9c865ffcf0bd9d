use scalper_trader_bot::adapters::binance::{BinanceAdapter, BinanceConfig};
use scalper_trader_bot::adapters::tbank::{TBankAdapter, TBankConfig};
use scalper_trader_bot::clock::Timestamp;
use scalper_trader_bot::exchange::ExchangeError;
use scalper_trader_bot::simulator::{SimulatedMarket, SimulatedMarketConfig, SimulatorEngine};
use scalper_trader_bot::strategy::scalper::OwnedLots;
use scalper_trader_bot::strategy::{MarketState, ScalpingStrategy, StrategyAction, TradingSettings};
use scalper_trader_bot::types::{
    Currency, Decimal, Money, MoneyError, Order, OrderBook, OrderBookLevel, OrderId, OrderSide, OrderStatus,
    Position, Price, Quantity, TradeId,
};

fn usd_price(mantissa: i64, scale: u32) -> Price {
    Price::new(Decimal::new(mantissa, scale), Currency::usd()).unwrap()
}

fn engine_with_market() -> SimulatorEngine {
    let mut engine = SimulatorEngine::new();
    engine.add_market(SimulatedMarketConfig {
        symbol: "TEST".to_string(),
        currency: Currency::usd(),
        initial_price: Decimal::from_i64(100),
        ..Default::default()
    });
    engine.add_balance(Currency::usd(), Decimal::from_i64(10000));
    engine.connect().unwrap();
    engine
}

#[test]
fn decimal_arithmetic_keeps_digits() {
    let a = Decimal::new(15, 1);
    let b = Decimal::new(225, 2);
    let sum = a.add(&b);
    assert_eq!(sum.mantissa(), 375);
    assert_eq!(sum.scale(), 2);
    assert_eq!(sum.to_string(), "3.75");
    let diff = b.sub(&a);
    assert_eq!(diff.mantissa(), 75);
    assert_eq!(diff.scale(), 2);
    let product = a.mul(&b);
    assert_eq!(product.mantissa(), 3375);
    assert_eq!(product.scale(), 3);
    let quotient = Decimal::from_i64(7).div(&Decimal::from_i64(2));
    assert!(quotient.eq_value(&Decimal::new(35, 1)));
    assert!(Decimal::from_i64(7).checked_div(&Decimal::zero()).is_none());
    assert!(a.lt(&b));
    assert!(!b.lt(&a));
    assert!(Decimal::new(10, 1).eq_value(&Decimal::from_i64(1)));
    assert_eq!(Decimal::new(10, 1).to_string(), "1.0");
}

#[test]
fn decimal_zero_operand_keeps_other_representation() {
    let zero = Decimal::new(0, 3);
    let x = Decimal::new(5, 1);
    let sum = zero.add(&x);
    assert_eq!(sum.mantissa(), 5);
    assert_eq!(sum.scale(), 1);
    let product = zero.mul(&x);
    assert_eq!(product.mantissa(), 0);
    assert_eq!(product.scale(), 0);
}

#[test]
fn money_addition_commutes() {
    let a = Money::new(Decimal::new(15, 1), Currency::usd());
    let b = Money::new(Decimal::new(225, 2), Currency::usd());
    let ab = a.add(&b).unwrap().amount();
    let ba = b.add(&a).unwrap().amount();
    assert_eq!(ab.mantissa(), ba.mantissa());
    assert_eq!(ab.scale(), ba.scale());
}

#[test]
fn quantity_add_then_subtract_restores_value() {
    let a = Quantity::new(Decimal::new(55, 1)).unwrap();
    let b = Quantity::new(Decimal::new(225, 2)).unwrap();
    let back = a.add(b).subtract(b);
    assert!(back.value().eq_value(&a.value()));
}

#[test]
fn quantity_subtract_clamps_at_zero() {
    let a = Quantity::from_lots(3);
    let b = Quantity::from_lots(10);
    assert!(a.subtract(b).is_zero());
}

#[test]
fn price_step_round_trip() {
    let price = usd_price(10001, 2);
    let step = Decimal::new(1, 2);
    let back = price.add_step(step).subtract_step(step);
    assert!(back.value().eq_value(&price.value()));
}

#[test]
fn price_subtract_step_clamps_at_zero() {
    let price = usd_price(1, 2);
    let lower = price.subtract_step(Decimal::from_i64(1));
    assert!(lower.value().is_zero());
}

#[test]
fn money_errors() {
    let a = Money::new(Decimal::from_i64(1), Currency::usd());
    let b = Money::new(Decimal::from_i64(1), Currency::rub());
    assert!(matches!(a.subtract(&b), Err(MoneyError::CurrencyMismatch { .. })));
    assert!(matches!(Price::new(Decimal::from_i64(-1), Currency::usd()), Err(MoneyError::NegativePrice)));
    assert!(matches!(Quantity::new(Decimal::from_i64(-1)), Err(MoneyError::NegativeQuantity)));
}

#[test]
fn currency_codes_are_upper_case() {
    assert_eq!(Currency::new("eth").code(), "ETH");
    assert_eq!(Currency::new("Usdt").code(), "USDT");
    assert_eq!(Currency::usdt().code(), "USDT");
}

#[test]
fn terminal_orders_stay_finished() {
    let mut order = Order::market("AAPL", OrderSide::Buy, Quantity::from_lots(2));
    order.submit();
    order.fill(Quantity::from_lots(2));
    assert_eq!(order.status(), OrderStatus::Filled);
    order.submit();
    order.cancel();
    assert_eq!(order.status(), OrderStatus::Filled);
    assert!(!order.status().is_active());
}

#[test]
fn cancel_is_idempotent_on_an_order() {
    let mut order = Order::market("AAPL", OrderSide::Buy, Quantity::from_lots(2));
    order.cancel();
    assert_eq!(order.status(), OrderStatus::Cancelled);
    order.cancel();
    assert_eq!(order.status(), OrderStatus::Cancelled);
}

#[test]
fn engine_refuses_a_second_cancel() {
    let mut engine = engine_with_market();
    let order = Order::limit("TEST", OrderSide::Buy, Quantity::from_lots(1), usd_price(50, 0));
    let submitted = engine.submit_order(order).unwrap();
    engine.cancel_order(submitted.id()).unwrap();
    let second = engine.cancel_order(submitted.id());
    assert!(matches!(second, Err(ExchangeError::OrderRejected(ref m)) if m == "Cannot cancel a completed order"));
}

#[test]
fn engine_errors() {
    let mut engine = engine_with_market();
    assert!(matches!(engine.get_order_book("NOPE"), Err(ExchangeError::InstrumentNotFound(ref s)) if s == "NOPE"));
    let unknown = OrderId::new("missing");
    assert!(matches!(engine.cancel_order(&unknown), Err(ExchangeError::OrderNotFound(_))));
    assert!(matches!(engine.get_order(&unknown), Err(ExchangeError::OrderNotFound(_))));
    let order = Order::market("NOPE", OrderSide::Buy, Quantity::from_lots(1));
    assert!(matches!(engine.submit_order(order), Err(ExchangeError::InstrumentNotFound(_))));
}

#[test]
fn engine_buy_pays_value_and_commission() {
    let mut engine = engine_with_market();
    engine.set_commission_rate(Decimal::zero());
    let order = Order::market("TEST", OrderSide::Buy, Quantity::from_lots(10));
    engine.submit_order(order).unwrap();
    // the best ask is 100 + 0.01 with a spread of two steps of 0.01
    let balance = engine.get_balance(&Currency::usd()).unwrap();
    assert!(balance.amount().eq_value(&Decimal::new(89999, 1)));
}

#[test]
fn market_price_never_below_step() {
    let mut market = SimulatedMarket::default_market();
    market.set_price(Decimal::zero());
    assert!(market.mid_price().eq_value(&Decimal::new(1, 2)));
    market.set_price(Decimal::from_i64(5));
    market.move_price(Decimal::from_i64(-1000));
    assert!(market.mid_price().eq_value(&Decimal::new(1, 2)));
}

#[test]
fn position_reduce_never_negative() {
    let mut pos = Position::new("AAPL", Quantity::from_lots(3), usd_price(100, 0));
    pos.reduce(Quantity::from_lots(10));
    assert!(pos.is_empty());
    assert!(pos.average_price().value().is_zero());
}

#[test]
fn order_book_levels_are_sorted() {
    let bids = vec![
        OrderBookLevel::new(usd_price(97, 0), Quantity::from_lots(1), 1),
        OrderBookLevel::new(usd_price(99, 0), Quantity::from_lots(2), 1),
        OrderBookLevel::new(usd_price(98, 0), Quantity::from_lots(3), 1),
    ];
    let asks = vec![
        OrderBookLevel::new(usd_price(103, 0), Quantity::from_lots(1), 1),
        OrderBookLevel::new(usd_price(101, 0), Quantity::from_lots(2), 1),
    ];
    let book = OrderBook::with_levels("TEST", bids, asks);
    let b = book.bids();
    assert!(b[0].price().value().eq_value(&Decimal::from_i64(99)));
    assert!(b[1].price().value().eq_value(&Decimal::from_i64(98)));
    assert!(b[2].price().value().eq_value(&Decimal::from_i64(97)));
    assert!(book.best_ask().unwrap().price().value().eq_value(&Decimal::from_i64(101)));
}

#[test]
fn sells_take_the_cheapest_lots_first() {
    let mut lots = OwnedLots::new();
    lots.add(usd_price(101, 0), Quantity::from_lots(5));
    lots.add(usd_price(100, 0), Quantity::from_lots(5));
    lots.add(usd_price(102, 0), Quantity::from_lots(5));
    let last = lots.remove(Quantity::from_lots(7)).unwrap();
    assert!(last.value().eq_value(&Decimal::from_i64(101)));
    assert_eq!(lots.total_quantity().as_lots(), 8);
    assert!(lots.lowest_price().unwrap().value().eq_value(&Decimal::from_i64(101)));
}

#[test]
fn adding_at_a_known_price_joins_the_holding() {
    let mut lots = OwnedLots::new();
    lots.add(usd_price(100, 0), Quantity::from_lots(2));
    lots.add(usd_price(100, 0), Quantity::from_lots(3));
    assert_eq!(lots.total_quantity().as_lots(), 5);
    lots.clear();
    assert!(lots.lowest_price().is_none());
}

fn book_around_100() -> OrderBook {
    let bids = vec![OrderBookLevel::new(usd_price(9999, 2), Quantity::from_lots(100), 5)];
    let asks = vec![OrderBookLevel::new(usd_price(10001, 2), Quantity::from_lots(100), 5)];
    OrderBook::with_levels("TEST", bids, asks)
}

fn settings() -> TradingSettings {
    TradingSettings::new("TEST")
        .with_minimum_profit_steps(2)
        .with_price_step(Decimal::new(1, 2))
        .with_lot_size(1)
        .with_max_position(10)
        .with_min_order_size_to_buy(5)
        .with_min_order_size_to_sell(5)
        .with_order_book_depth(3)
}

fn state(cash: i64) -> MarketState {
    MarketState {
        instrument: "TEST".to_string(),
        order_book: book_around_100(),
        position: None,
        active_orders: Vec::new(),
        available_cash: Decimal::from_i64(cash),
        timestamp: Timestamp::now(),
    }
}

#[test]
fn strategy_buys_one_lot_at_the_best_bid() {
    let strategy = ScalpingStrategy::new(settings());
    let decision = strategy.decide(&state(10000));
    assert_eq!(decision.reason(), Some("Placing new buy order at best bid"));
    assert_eq!(decision.actions().len(), 1);
    match &decision.actions()[0] {
        StrategyAction::Buy { quantity, price: Some(p) } => {
            assert_eq!(quantity.as_lots(), 1);
            assert!(p.value().eq_value(&Decimal::new(9999, 2)));
        },
        other => panic!("unexpected action {:?}", other),
    }
}

#[test]
fn strategy_sells_held_lots_with_minimum_profit() {
    let mut strategy = ScalpingStrategy::new(settings());
    let mut buy = Order::limit("TEST", OrderSide::Buy, Quantity::from_lots(10), usd_price(100, 0));
    buy.submit();
    buy.fill(Quantity::from_lots(10));
    strategy.on_order_filled(&buy);
    let decision = strategy.decide(&state(10000));
    assert_eq!(decision.reason(), Some("Placing new sell order with minimum profit"));
    match &decision.actions()[0] {
        StrategyAction::Sell { quantity, price: Some(p) } => {
            assert_eq!(quantity.as_lots(), 10);
            assert!(p.value().eq_value(&Decimal::new(10002, 2)));
        },
        other => panic!("unexpected action {:?}", other),
    }
}

#[test]
fn strategy_holds_outside_trading_hours() {
    let now = Timestamp::now().seconds_of_day();
    let start = (now + 3600) % 86400;
    let end = (now + 7200) % 86400;
    let strategy = ScalpingStrategy::new(settings().with_trading_hours(start, end));
    let decision = strategy.decide(&state(10000));
    assert!(decision.is_hold());
    assert_eq!(decision.reason(), Some("No action needed"));
}

#[test]
fn strategy_holds_when_disabled() {
    let strategy = ScalpingStrategy::new(settings().with_enabled(false));
    assert!(strategy.decide(&state(10000)).is_hold());
}

#[test]
fn strategy_cancel_of_untracked_buy_changes_nothing() {
    let mut strategy = ScalpingStrategy::new(settings());
    let order = Order::market("TEST", OrderSide::Buy, Quantity::from_lots(1));
    strategy.on_order_cancelled(&order);
    assert!(strategy.active_buy_order().is_none());
    assert_eq!(strategy.active_sell_order_count(), 0);
}

#[test]
fn trading_window_across_midnight() {
    let s = TradingSettings::new("X").with_trading_hours(82800, 3600);
    assert!(s.is_trading_time(0));
    assert!(s.is_trading_time(86399));
    assert!(!s.is_trading_time(43200));
    let day = TradingSettings::new("X").with_trading_hours(32400, 61200);
    assert!(day.is_trading_time(32400));
    assert!(day.is_trading_time(61200));
    assert!(!day.is_trading_time(61201));
}

#[test]
fn minimum_profit_is_steps_times_step() {
    let s = settings();
    assert!(s.minimum_profit().eq_value(&Decimal::new(2, 2)));
}

#[test]
fn seconds_of_day_before_the_epoch() {
    assert_eq!(Timestamp::from_parts(-1, 0).seconds_of_day(), 86399);
    assert_eq!(Timestamp::from_parts(86400 + 5, 0).seconds_of_day(), 5);
}

#[test]
fn clock_and_identifiers() {
    let now = Timestamp::now();
    assert!(now.nanos < 2_000_000_000);
    assert!(now.seconds > 0);
    let id = OrderId::generate();
    let text = id.as_str();
    assert_eq!(text.len(), 36);
    assert_eq!(&text[8..9], "-");
    assert_eq!(TradeId::generate().as_str().len(), 36);
}

#[test]
fn adapters_report_their_state() {
    let mut tbank = TBankAdapter::new(TBankConfig::new("t", "a"));
    assert!(matches!(tbank.get_order_book("X"), Err(ExchangeError::ConnectionFailed(ref m)) if m == "Not connected"));
    assert!(matches!(tbank.connect(), Err(ExchangeError::ConfigurationError(_))));
    let binance = BinanceAdapter::new(BinanceConfig::new("k", "s"));
    assert!(matches!(binance.get_balance(&Currency::usd()), Err(ExchangeError::ConnectionFailed(_))));
}

#[test]
fn engine_keeps_one_entry_per_key() {
    let mut engine = engine_with_market();
    engine.add_market(SimulatedMarketConfig { symbol: "TEST".to_string(), ..Default::default() });
    engine.add_balance(Currency::usd(), Decimal::from_i64(500));
    assert_eq!(engine.get_balances().unwrap().len(), 1);
    assert!(engine.get_balance(&Currency::usd()).unwrap().amount().eq_value(&Decimal::from_i64(500)));
    assert_eq!(engine.list_instruments().unwrap().len(), 2);
    let order = Order::market("TEST", OrderSide::Buy, Quantity::from_lots(1));
    engine.submit_order(order).unwrap();
    let order = Order::market("TEST", OrderSide::Buy, Quantity::from_lots(1));
    engine.submit_order(order).unwrap();
    assert_eq!(engine.get_positions().unwrap().len(), 1);
    assert_eq!(engine.get_position("TEST").unwrap().quantity().as_lots(), 2);
}

#[test]
fn decimal_exact_division_and_text() {
    let q = Decimal::from_i64(1000).div(&Decimal::from_i64(10));
    assert!(q.eq_value(&Decimal::from_i64(100)));
    let q = Decimal::new(10, 0).div(&Decimal::new(4, 0));
    assert!(q.eq_value(&Decimal::new(25, 1)));
    assert_eq!(Decimal::new(10002, 2).to_string(), "100.02");
    assert_eq!(Decimal::new(-5, 3).to_string(), "-0.005");
    assert_eq!(Decimal::new(0, 2).to_string(), "0.00");
    assert_eq!(Decimal::zero().to_string(), "0");
}

#[test]
fn selling_more_than_held_leaves_nothing() {
    let mut lots = OwnedLots::new();
    lots.add(usd_price(100, 0), Quantity::from_lots(3));
    lots.add(usd_price(99, 0), Quantity::from_lots(2));
    lots.remove(Quantity::from_lots(9));
    assert!(lots.total_quantity().is_zero());
}

#[test]
fn realized_profit_does_not_depend_on_trade_order() {
    let trade = |side: OrderSide, price: i64| {
        scalper_trader_bot::types::Trade::new(
            OrderId::generate(),
            "AAPL",
            side,
            Quantity::from_lots(10),
            usd_price(price, 0),
            Money::new(Decimal::from_i64(1), Currency::usd()),
        )
    };
    let mut a = scalper_trader_bot::types::TradeHistory::new();
    a.add(trade(OrderSide::Buy, 100));
    a.add(trade(OrderSide::Sell, 110));
    let mut b = scalper_trader_bot::types::TradeHistory::new();
    b.add(trade(OrderSide::Sell, 110));
    b.add(trade(OrderSide::Buy, 100));
    let pa = a.realized_pnl("AAPL", &Currency::usd());
    let pb = b.realized_pnl("AAPL", &Currency::usd());
    assert!(pa.eq_value(&pb));
    assert!(pa.eq_value(&Decimal::from_i64(98)));
}

#[test]
fn engine_sell_returns_proceeds_less_commission() {
    let mut engine = engine_with_market();
    engine.set_commission_rate(Decimal::zero());
    engine.submit_order(Order::market("TEST", OrderSide::Buy, Quantity::from_lots(10))).unwrap();
    engine.submit_order(Order::market("TEST", OrderSide::Sell, Quantity::from_lots(10))).unwrap();
    let balance = engine.get_balance(&Currency::usd()).unwrap();
    assert!(balance.amount().eq_value(&Decimal::new(99998, 1)));
    assert!(engine.get_position("TEST").unwrap().quantity().is_zero());
}

#[test]
fn every_generated_level_holds_the_base_liquidity() {
    let market = SimulatedMarket::new(SimulatedMarketConfig {
        symbol: "LIQ".to_string(),
        base_liquidity: 37,
        book_depth: 12,
        ..Default::default()
    });
    let bids = market.generate_bids();
    let asks = market.generate_asks();
    assert_eq!(bids.len(), 12);
    assert_eq!(asks.len(), 12);
    for level in bids.iter().chain(asks.iter()) {
        assert_eq!(level.total_quantity().as_lots(), 37);
    }
}

#[test]
fn quantities_with_digits_after_the_point_count_as_no_lots() {
    assert_eq!(Quantity::new(Decimal::new(100, 1)).unwrap().as_lots(), 0);
    assert_eq!(Quantity::new(Decimal::new(5, 2)).unwrap().as_lots(), 0);
    assert_eq!(Quantity::new(Decimal::new(0, 3)).unwrap().as_lots(), 0);
    assert_eq!(Quantity::new(Decimal::new(42, 0)).unwrap().as_lots(), 42);
    assert_eq!(Quantity::new(Decimal::from_u64(u64::MAX)).unwrap().as_lots(), u64::MAX);
}

fn huge_quantity() -> Quantity {
    Quantity::new(Decimal::from_i128_with_scale(79_228_162_514_264_337_593_543_950_335, 0)).unwrap()
}

#[test]
fn checked_depths_and_totals_report_overflow() {
    let book = book_around_100();
    assert_eq!(book.checked_bid_depth(3).unwrap().as_lots(), 100);
    assert_eq!(book.checked_ask_depth(0).unwrap().as_lots(), 0);
    let bids = vec![
        OrderBookLevel::new(usd_price(9999, 2), huge_quantity(), 1),
        OrderBookLevel::new(usd_price(9998, 2), huge_quantity(), 1),
    ];
    let deep = OrderBook::with_levels("TEST", bids, Vec::new());
    assert!(deep.checked_bid_depth(1).is_some());
    assert!(deep.checked_bid_depth(2).is_none());
    assert!(deep.checked_ask_depth(5).is_some());

    let mut lots = OwnedLots::new();
    lots.add(usd_price(100, 0), Quantity::from_lots(3));
    lots.add(usd_price(101, 0), Quantity::from_lots(4));
    assert_eq!(lots.checked_total_quantity().unwrap().as_lots(), 7);
    lots.add(usd_price(102, 0), huge_quantity());
    assert!(lots.checked_total_quantity().is_none());
}

#[test]
fn try_decide_agrees_with_decide_or_reports_overflow() {
    let strategy = ScalpingStrategy::new(settings());
    let plain = strategy.decide(&state(10000));
    let tried = strategy.try_decide(&state(10000)).unwrap();
    assert_eq!(tried.reason(), plain.reason());
    assert_eq!(tried.actions().len(), plain.actions().len());

    let bids = vec![
        OrderBookLevel::new(usd_price(9999, 2), huge_quantity(), 1),
        OrderBookLevel::new(usd_price(9998, 2), huge_quantity(), 1),
    ];
    let asks = vec![OrderBookLevel::new(usd_price(10001, 2), Quantity::from_lots(100), 5)];
    let overflowing = MarketState {
        instrument: "TEST".to_string(),
        order_book: OrderBook::with_levels("TEST", bids, asks),
        position: None,
        active_orders: Vec::new(),
        available_cash: Decimal::from_i64(10000),
        timestamp: Timestamp::now(),
    };
    assert!(strategy.try_decide(&overflowing).is_none());
}

#[test]
fn try_submit_order_agrees_with_submit_order_or_reports_overflow() {
    let mut engine = SimulatorEngine::new();
    engine.add_market(SimulatedMarketConfig {
        symbol: "TEST".to_string(),
        currency: Currency::usd(),
        initial_price: Decimal::from_i64(100),
        ..Default::default()
    });
    engine.add_balance(Currency::usd(), Decimal::from_i64(10000));
    let order = Order::market("TEST", OrderSide::Buy, Quantity::from_lots(10));
    let filled = engine.try_submit_order(order).unwrap().unwrap();
    assert_eq!(filled.status(), OrderStatus::Filled);
    assert_eq!(engine.get_position("TEST").unwrap().quantity().as_lots(), 10);
    let missing = Order::market("NOPE", OrderSide::Buy, Quantity::from_lots(1));
    assert!(matches!(engine.try_submit_order(missing), Some(Err(ExchangeError::InstrumentNotFound(ref s))) if s == "NOPE"));

    let mut huge = SimulatorEngine::new();
    huge.add_market(SimulatedMarketConfig {
        symbol: "HUGE".to_string(),
        currency: Currency::usd(),
        initial_price: Decimal::from_i128_with_scale(79_228_162_514_264_337_593_543_950_335, 0),
        price_step: Decimal::from_i64(1),
        spread_ticks: 2,
        ..Default::default()
    });
    huge.add_balance(Currency::usd(), Decimal::from_i64(10000));
    let order = Order::market("HUGE", OrderSide::Buy, Quantity::from_lots(1));
    assert!(huge.try_submit_order(order).is_none());
    assert!(huge.list_active_orders().unwrap().is_empty());
    assert!(huge.get_balance(&Currency::usd()).unwrap().amount().eq_value(&Decimal::from_i64(10000)));
}

#[test]
fn try_tick_and_try_advance_agree_with_tick_and_advance() {
    let mut plain = engine_with_market();
    let mut tried = engine_with_market();
    plain.tick();
    assert!(tried.try_tick());
    plain.advance(4);
    assert!(tried.try_advance(4));
    let a = plain.market("TEST").unwrap();
    let b = tried.market("TEST").unwrap();
    assert_eq!(a.tick_count(), 5);
    assert_eq!(b.tick_count(), 5);
    assert!(a.mid_price().eq_value(&b.mid_price()));
    assert!(tried.try_advance(0));
    assert_eq!(tried.market("TEST").unwrap().tick_count(), 5);
}

#[test]
fn can_add_reports_overflow_of_a_lot() {
    let mut lots = OwnedLots::new();
    assert!(lots.can_add(&usd_price(100, 0), Quantity::from_lots(3)));
    lots.add(usd_price(100, 0), huge_quantity());
    assert!(!lots.can_add(&usd_price(100, 0), Quantity::from_lots(1)));
    assert!(lots.can_add(&usd_price(101, 0), Quantity::from_lots(1)));
}
