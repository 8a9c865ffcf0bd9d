use scalper_trader_bot::exchange::ExchangeError;
use scalper_trader_bot::simulator::{MarketCondition, SimulatedMarket, SimulatedMarketConfig, SimulatorEngine};
use scalper_trader_bot::types::{Currency, Decimal, Order, OrderSide, OrderStatus, Price, Quantity};

fn dec(n: i64) -> Decimal {
    Decimal::from_i64(n)
}

fn create_test_engine() -> SimulatorEngine {
    let mut engine = SimulatorEngine::new();
    engine.add_market(SimulatedMarketConfig {
        symbol: "TEST".to_string(),
        currency: Currency::usd(),
        initial_price: dec(100),
        ..Default::default()
    });
    engine.add_balance(Currency::usd(), dec(10000));
    engine.connect().unwrap();
    engine
}

fn create_test_simulator() -> SimulatorEngine {
    let mut engine = SimulatorEngine::new();
    engine.add_market(SimulatedMarketConfig {
        symbol: "TEST/USD".to_string(),
        currency: Currency::usd(),
        initial_price: dec(100),
        price_step: Decimal::new(1, 2),
        lot_size: 1,
        spread_ticks: 2,
        base_liquidity: 100,
        book_depth: 10,
    });
    engine.add_balance(Currency::usd(), dec(10000));
    engine.connect().expect("Failed to connect");
    engine
}

#[test]
fn test_market_creation() {
    let market = SimulatedMarket::default_market();
    assert_eq!(market.symbol(), "TEST");
    assert_eq!(market.mid_price(), dec(100));
}

#[test]
fn market_test_best_bid_ask() {
    let market = SimulatedMarket::default_market();
    let bid = market.best_bid();
    let ask = market.best_ask();
    assert!(bid.value().lt(&ask.value()));
    assert_eq!(market.spread(), Decimal::new(2, 2));
}

#[test]
fn test_generate_order_book() {
    let market = SimulatedMarket::default_market();
    let bids = market.generate_bids();
    let asks = market.generate_asks();

    assert_eq!(bids.len(), 10);
    assert_eq!(asks.len(), 10);

    for i in 1..bids.len() {
        assert!(bids[i - 1].price().value().gt(&bids[i].price().value()));
    }
    for i in 1..asks.len() {
        assert!(asks[i - 1].price().value().lt(&asks[i].price().value()));
    }
}

#[test]
fn test_market_tick() {
    let mut market = SimulatedMarket::default_market();
    let initial_price = market.mid_price();

    for _ in 0..100 {
        market.tick();
    }

    assert_ne!(market.mid_price(), initial_price);
    assert_eq!(market.tick_count(), 100);
}

#[test]
fn test_market_conditions() {
    let config = SimulatedMarketConfig { initial_price: dec(100), ..Default::default() };

    let mut bullish_market = SimulatedMarket::new(config.clone());
    bullish_market.set_condition(MarketCondition::Bullish);
    bullish_market.set_volatility(Decimal::new(5, 3));

    let initial = bullish_market.mid_price();
    for _ in 0..100 {
        bullish_market.tick();
    }
    let bullish_final = bullish_market.mid_price();

    let mut bearish_market = SimulatedMarket::new(config);
    bearish_market.set_condition(MarketCondition::Bearish);
    bearish_market.set_volatility(Decimal::new(5, 3));
    for _ in 0..100 {
        bearish_market.tick();
    }
    let bearish_final = bearish_market.mid_price();

    assert!(
        bullish_final.ge(&initial) || bearish_final.le(&initial),
        "At least one market should show expected trend"
    );
}

#[test]
fn test_manual_price_control() {
    let mut market = SimulatedMarket::default_market();

    market.set_price(dec(150));
    assert_eq!(market.mid_price(), dec(150));

    market.move_price(dec(-10));
    assert_eq!(market.mid_price(), dec(140));

    market.set_price(Decimal::zero());
    assert!(market.mid_price().gt(&Decimal::zero()));
}

#[test]
fn test_engine_creation() {
    let engine = create_test_engine();
    assert!(engine.is_connected());
    assert_eq!(engine.info().name, "Simulator");
}

#[test]
fn test_get_order_book() {
    let engine = create_test_engine();
    let book = engine.get_order_book("TEST").unwrap();

    assert_eq!(book.instrument(), "TEST");
    assert!(!book.bids().is_empty());
    assert!(!book.asks().is_empty());
}

#[test]
fn test_submit_market_buy_order() {
    let mut engine = create_test_engine();

    let order = Order::market("TEST", OrderSide::Buy, Quantity::from_lots(10));
    let submitted = engine.submit_order(order).unwrap();

    assert_eq!(submitted.status(), OrderStatus::Filled);
    assert_eq!(submitted.filled_quantity().as_lots(), 10);

    let position = engine.get_position("TEST").unwrap();
    assert_eq!(position.quantity().as_lots(), 10);

    let balance = engine.get_balance(&Currency::usd()).unwrap();
    assert!(balance.amount().lt(&dec(10000)));
}

#[test]
fn test_submit_limit_order() {
    let mut engine = create_test_engine();

    let low_price = Price::new(dec(90), Currency::usd()).unwrap();
    let order = Order::limit("TEST", OrderSide::Buy, Quantity::from_lots(10), low_price);
    let submitted = engine.submit_order(order).unwrap();

    assert_eq!(submitted.status(), OrderStatus::Submitted);

    engine.market_mut("TEST").unwrap().set_price(dec(89));
    engine.tick();

    let updated = engine.get_order(submitted.id()).unwrap();
    assert_eq!(updated.status(), OrderStatus::Filled);
}

#[test]
fn test_sell_order() {
    let mut engine = create_test_engine();

    let buy = Order::market("TEST", OrderSide::Buy, Quantity::from_lots(10));
    engine.submit_order(buy).unwrap();

    let sell = Order::market("TEST", OrderSide::Sell, Quantity::from_lots(5));
    let sold = engine.submit_order(sell).unwrap();

    assert_eq!(sold.status(), OrderStatus::Filled);

    let position = engine.get_position("TEST").unwrap();
    assert_eq!(position.quantity().as_lots(), 5);
}

#[test]
fn test_insufficient_funds() {
    let mut engine = create_test_engine();
    let order = Order::market("TEST", OrderSide::Buy, Quantity::from_lots(1000));
    let result = engine.submit_order(order);
    assert!(matches!(result, Err(ExchangeError::InsufficientFunds { .. })));
}

#[test]
fn test_insufficient_position() {
    let mut engine = create_test_engine();
    let order = Order::market("TEST", OrderSide::Sell, Quantity::from_lots(10));
    let result = engine.submit_order(order);
    assert!(matches!(result, Err(ExchangeError::InsufficientPosition { .. })));
}

#[test]
fn test_cancel_order() {
    let mut engine = create_test_engine();

    let low_price = Price::new(dec(50), Currency::usd()).unwrap();
    let order = Order::limit("TEST", OrderSide::Buy, Quantity::from_lots(10), low_price);
    let submitted = engine.submit_order(order).unwrap();

    engine.cancel_order(submitted.id()).unwrap();

    let cancelled = engine.get_order(submitted.id()).unwrap();
    assert_eq!(cancelled.status(), OrderStatus::Cancelled);
}

#[test]
fn engine_test_trade_history() {
    let mut engine = create_test_engine();

    let order = Order::market("TEST", OrderSide::Buy, Quantity::from_lots(10));
    engine.submit_order(order).unwrap();

    let trades = engine.get_trades(10).unwrap();
    assert_eq!(trades.len(), 1);
    assert_eq!(trades[0].quantity().as_lots(), 10);
}

#[test]
fn test_full_buy_sell_cycle() {
    let mut engine = create_test_simulator();

    let buy_order = Order::market("TEST/USD", OrderSide::Buy, Quantity::from_lots(10));
    let filled_buy = engine.submit_order(buy_order).expect("Buy failed");
    assert!(filled_buy.status().is_terminal());
    assert_eq!(filled_buy.filled_quantity().as_lots(), 10);

    let position = engine.get_position("TEST/USD").expect("Position not found");
    assert_eq!(position.quantity().as_lots(), 10);

    let sell_order = Order::market("TEST/USD", OrderSide::Sell, Quantity::from_lots(10));
    let filled_sell = engine.submit_order(sell_order).expect("Sell failed");
    assert!(filled_sell.status().is_terminal());
    assert_eq!(filled_sell.filled_quantity().as_lots(), 10);

    let position = engine.get_position("TEST/USD").expect("Position not found");
    assert!(position.is_empty());

    let trades = engine.get_trades(10).expect("Trades not found");
    assert_eq!(trades.len(), 2);
}

#[test]
fn test_market_simulation_with_ticks() {
    let mut engine = create_test_simulator();

    let initial_book = engine.get_order_book("TEST/USD").unwrap();
    let initial_mid = initial_book.mid_price().unwrap();

    engine.advance(100);

    let new_book = engine.get_order_book("TEST/USD").unwrap();
    let new_mid = new_book.mid_price().unwrap();

    assert!(new_mid.gt(&Decimal::zero()));
    println!("Price changed from {} to {}", initial_mid.to_string(), new_mid.to_string());
}

#[test]
fn test_bullish_market_simulation() {
    let mut engine = create_test_simulator();

    engine.market_mut("TEST/USD").unwrap().set_condition(MarketCondition::Bullish);

    let initial_book = engine.get_order_book("TEST/USD").unwrap();
    let initial_mid = initial_book.mid_price().unwrap();

    engine.advance(500);

    let final_book = engine.get_order_book("TEST/USD").unwrap();
    let final_mid = final_book.mid_price().unwrap();

    println!("Bullish: {} -> {}", initial_mid.to_string(), final_mid.to_string());
}

#[test]
fn test_order_book_depth() {
    let engine = create_test_simulator();

    let book = engine.get_order_book("TEST/USD").unwrap();

    assert!(!book.bids().is_empty());
    assert!(!book.asks().is_empty());

    let bids = book.bids();
    for i in 1..bids.len() {
        assert!(bids[i - 1].price().value().gt(&bids[i].price().value()));
    }

    let asks = book.asks();
    for i in 1..asks.len() {
        assert!(asks[i - 1].price().value().lt(&asks[i].price().value()));
    }

    let spread = book.spread().unwrap();
    assert!(spread.gt(&Decimal::zero()));
}

#[test]
fn test_version_is_not_empty() {
    assert!(!scalper_trader_bot::VERSION.is_empty());
}

#[test]
fn test_version_matches_cargo_toml() {
    assert!(scalper_trader_bot::VERSION.starts_with("0."));
}

#[test]
fn test_try_get_order_book() {
    let engine = create_test_simulator();
    let book = engine.try_get_order_book("TEST/USD").unwrap().unwrap();
    let plain = engine.get_order_book("TEST/USD").unwrap();
    assert_eq!(book.bids().len(), 10);
    assert_eq!(book.bids().len(), plain.bids().len());
    assert_eq!(book.bids()[0].price().value().to_string(), "99.99");
    assert_eq!(book.asks()[0].price().value().to_string(), "100.01");
    assert!(matches!(engine.try_get_order_book("NOPE"), Some(Err(ExchangeError::InstrumentNotFound(ref s))) if s == "NOPE"));

    let mut huge = SimulatorEngine::new();
    huge.add_market(SimulatedMarketConfig {
        symbol: "HUGE".to_string(),
        currency: Currency::usd(),
        initial_price: Decimal::from_i128_with_scale(79_228_162_514_264_337_593_543_950_335, 0),
        price_step: dec(1),
        spread_ticks: 2,
        ..Default::default()
    });
    assert!(huge.try_get_order_book("HUGE").is_none());
}
