use scalper_trader_bot::clock::Timestamp;
use scalper_trader_bot::strategy::scalper::OwnedLots;
use scalper_trader_bot::strategy::{MarketState, ScalpingStrategy, StrategyAction, StrategyDecision, TradingSettings};
use scalper_trader_bot::simulator::{SimulatedMarketConfig, SimulatorEngine};
use scalper_trader_bot::types::{
    Currency, Decimal, Order, OrderBook, OrderBookLevel, OrderSide, Price, Quantity,
};

fn usd_price(mantissa: i64, scale: u32) -> Price {
    Price::new(Decimal::new(mantissa, scale), Currency::usd()).unwrap()
}

fn create_test_settings() -> TradingSettings {
    TradingSettings::new("TEST")
        .with_minimum_profit_steps(2)
        .with_price_step(Decimal::new(1, 2))
        .with_lot_size(1)
        .with_max_position(10)
        .with_min_order_size_to_buy(5)
        .with_min_order_size_to_sell(5)
        .with_order_book_depth(3)
}

fn create_test_order_book() -> OrderBook {
    let bids = vec![
        OrderBookLevel::new(usd_price(9999, 2), Quantity::from_lots(100), 5),
        OrderBookLevel::new(usd_price(9998, 2), Quantity::from_lots(200), 10),
    ];
    let asks = vec![
        OrderBookLevel::new(usd_price(10001, 2), Quantity::from_lots(100), 5),
        OrderBookLevel::new(usd_price(10002, 2), Quantity::from_lots(200), 10),
    ];
    OrderBook::with_levels("TEST", bids, asks)
}

fn create_test_state() -> MarketState {
    MarketState {
        instrument: "TEST".to_string(),
        order_book: create_test_order_book(),
        position: None,
        active_orders: Vec::new(),
        available_cash: Decimal::from_i64(10000),
        timestamp: Timestamp::now(),
    }
}

fn filled_order(side: OrderSide, lots: u64, price: Price) -> Order {
    let mut order = Order::limit("TEST", side, Quantity::from_lots(lots), price);
    order.submit();
    order.fill(Quantity::from_lots(lots));
    order
}

#[test]
fn test_strategy_creation() {
    let strategy = ScalpingStrategy::new(create_test_settings());
    assert_eq!(strategy.name(), "Scalping Strategy");
}

#[test]
fn test_should_buy_with_liquidity() {
    let strategy = ScalpingStrategy::new(create_test_settings());
    let state = create_test_state();

    let decision = strategy.decide(&state);
    assert!(!decision.is_hold());

    let has_buy = decision.actions().iter().any(|a| matches!(a, StrategyAction::Buy { .. }));
    assert!(has_buy);
}

#[test]
fn test_should_not_buy_without_liquidity() {
    let strategy = ScalpingStrategy::new(create_test_settings().with_min_order_size_to_buy(1000));
    let state = create_test_state();
    assert!(strategy.decide(&state).is_hold());
}

#[test]
fn test_should_not_buy_without_cash() {
    let strategy = ScalpingStrategy::new(create_test_settings());
    let mut state = create_test_state();
    state.available_cash = Decimal::zero();
    assert!(strategy.decide(&state).is_hold());
}

#[test]
fn test_on_order_filled_buy() {
    let mut strategy = ScalpingStrategy::new(create_test_settings());
    let order = filled_order(OrderSide::Buy, 5, usd_price(100, 0));

    strategy.on_order_filled(&order);

    assert_eq!(strategy.owned_lots().total_quantity().as_lots(), 5);
}

#[test]
fn test_on_order_filled_sell() {
    let mut strategy = ScalpingStrategy::new(create_test_settings());
    strategy.on_order_filled(&filled_order(OrderSide::Buy, 10, usd_price(100, 0)));

    let order = filled_order(OrderSide::Sell, 5, usd_price(10002, 2));
    strategy.on_order_filled(&order);

    assert_eq!(strategy.owned_lots().total_quantity().as_lots(), 5);
}

#[test]
fn test_sell_price_calculation() {
    let strategy = ScalpingStrategy::new(create_test_settings());
    let sell_price = strategy.get_sell_price(&usd_price(100, 0));
    assert_eq!(sell_price.value(), Decimal::new(10002, 2));
}

#[test]
fn test_strategy_reset() {
    let mut strategy = ScalpingStrategy::new(create_test_settings());
    strategy.on_order_filled(&filled_order(OrderSide::Buy, 10, usd_price(100, 0)));

    strategy.reset();

    assert!(strategy.owned_lots().total_quantity().is_zero());
    assert!(strategy.active_buy_order().is_none());
    assert_eq!(strategy.active_sell_order_count(), 0);
}

#[test]
fn test_owned_lots_fifo() {
    let mut lots = OwnedLots::new();
    lots.add(usd_price(100, 0), Quantity::from_lots(5));
    lots.add(usd_price(101, 0), Quantity::from_lots(5));

    assert_eq!(lots.total_quantity().as_lots(), 10);

    lots.remove(Quantity::from_lots(3));
    assert_eq!(lots.total_quantity().as_lots(), 7);

    let lowest = lots.lowest_price().unwrap();
    assert_eq!(lowest.value(), Decimal::from_i64(100));
}

#[test]
fn test_strategy_action_creation() {
    let buy = StrategyAction::market_buy(Quantity::from_lots(10));
    assert!(matches!(buy, StrategyAction::Buy { price: None, .. }));

    let sell = StrategyAction::market_sell(Quantity::from_lots(5));
    assert!(matches!(sell, StrategyAction::Sell { price: None, .. }));
}

#[test]
fn test_strategy_decision() {
    let mut decision = StrategyDecision::new();
    decision.add_action(StrategyAction::market_buy(Quantity::from_lots(10)));
    decision.add_action(StrategyAction::market_sell(Quantity::from_lots(5)));

    assert_eq!(decision.actions().len(), 2);
    assert!(!decision.is_hold());
}

#[test]
fn test_hold_decision() {
    let decision = StrategyDecision::hold_with_reason("Market closed");
    assert!(decision.is_hold());
    assert_eq!(decision.reason(), Some("Market closed"));
}

fn create_test_simulator() -> SimulatorEngine {
    let mut engine = SimulatorEngine::new();
    engine.add_market(SimulatedMarketConfig {
        symbol: "TEST/USD".to_string(),
        currency: Currency::usd(),
        initial_price: Decimal::from_i64(100),
        price_step: Decimal::new(1, 2),
        lot_size: 1,
        spread_ticks: 2,
        base_liquidity: 100,
        book_depth: 10,
    });
    engine.add_balance(Currency::usd(), Decimal::from_i64(10000));
    engine.connect().expect("Failed to connect");
    engine
}

fn create_integration_settings() -> TradingSettings {
    TradingSettings::new("TEST/USD")
        .with_minimum_profit_steps(2)
        .with_price_step(Decimal::new(1, 2))
        .with_lot_size(1)
        .with_max_position(10)
        .with_min_order_size_to_buy(10)
        .with_min_order_size_to_sell(10)
        .with_order_book_depth(3)
}

#[test]
fn test_strategy_decision_with_cash() {
    let engine = create_test_simulator();
    let strategy = ScalpingStrategy::new(create_integration_settings());

    let order_book = engine.get_order_book("TEST/USD").unwrap();
    let balance = engine.get_balance(&Currency::usd()).unwrap();

    let state = MarketState {
        instrument: "TEST/USD".to_string(),
        order_book,
        position: None,
        active_orders: Vec::new(),
        available_cash: balance.amount(),
        timestamp: Timestamp::now(),
    };

    let decision = strategy.decide(&state);
    assert!(!decision.is_hold(), "Strategy should suggest a buy action");
}

#[test]
fn test_strategy_decision_without_cash() {
    let engine = create_test_simulator();
    let strategy = ScalpingStrategy::new(create_integration_settings());

    let order_book = engine.get_order_book("TEST/USD").unwrap();

    let state = MarketState {
        instrument: "TEST/USD".to_string(),
        order_book,
        position: None,
        active_orders: Vec::new(),
        available_cash: Decimal::zero(),
        timestamp: Timestamp::now(),
    };

    let decision = strategy.decide(&state);
    assert!(decision.is_hold(), "Strategy should hold without cash");
}

#[test]
fn test_strategy_lifecycle() {
    let mut strategy = ScalpingStrategy::new(create_integration_settings());

    let mut buy_order = Order::limit("TEST/USD", OrderSide::Buy, Quantity::from_lots(5), usd_price(100, 0));
    buy_order.submit();
    buy_order.fill(Quantity::from_lots(5));
    strategy.on_order_filled(&buy_order);

    let mut sell_order = Order::limit("TEST/USD", OrderSide::Sell, Quantity::from_lots(5), usd_price(10002, 2));
    sell_order.submit();
    sell_order.fill(Quantity::from_lots(5));
    strategy.on_order_filled(&sell_order);

    strategy.reset();
}
