use scalper_trader_bot::types::{
    Currency, Decimal, Money, Order, OrderBook, OrderBookLevel, OrderId, OrderSide, OrderStatus, OrderType,
    Position, Price, Quantity, Trade, TradeHistory,
};

fn usd_price(mantissa: i64, scale: u32) -> Price {
    Price::new(Decimal::new(mantissa, scale), Currency::usd()).unwrap()
}

fn dec(n: i64) -> Decimal {
    Decimal::from_i64(n)
}

#[test]
fn test_currency_creation() {
    let usd = Currency::new("usd");
    assert_eq!(usd.code(), "USD");
}

#[test]
fn test_predefined_currencies() {
    assert_eq!(Currency::usd().code(), "USD");
    assert_eq!(Currency::rub().code(), "RUB");
    assert_eq!(Currency::btc().code(), "BTC");
}

#[test]
fn test_money_creation() {
    let money = Money::new(Decimal::new(10050, 2), Currency::usd());
    assert_eq!(money.currency().code(), "USD");
}

#[test]
fn test_money_add() {
    let a = Money::new(dec(100), Currency::usd());
    let b = Money::new(dec(50), Currency::usd());
    let result = a.add(&b).unwrap();
    assert_eq!(result.amount(), dec(150));
}

#[test]
fn test_money_currency_mismatch() {
    let a = Money::new(dec(100), Currency::usd());
    let b = Money::new(dec(50), Currency::rub());
    assert!(a.add(&b).is_err());
}

#[test]
fn test_price_creation() {
    let price = usd_price(10050, 2);
    assert_eq!(price.currency().code(), "USD");
}

#[test]
fn test_negative_price_rejected() {
    let result = Price::new(dec(-100), Currency::usd());
    assert!(result.is_err());
}

#[test]
fn test_price_step_operations() {
    let price = usd_price(100, 0);
    let higher = price.add_step(dec(1));
    assert_eq!(higher.value(), dec(101));
}

#[test]
fn test_quantity_from_lots() {
    let qty = Quantity::from_lots(10);
    assert_eq!(qty.as_lots(), 10);
}

#[test]
fn test_negative_quantity_rejected() {
    let result = Quantity::new(dec(-1));
    assert!(result.is_err());
}

#[test]
fn test_quantity_operations() {
    let a = Quantity::from_lots(10);
    let b = Quantity::from_lots(3);
    assert_eq!(a.add(b).as_lots(), 13);
    assert_eq!(a.subtract(b).as_lots(), 7);
}

#[test]
fn test_order_id_generation() {
    let id1 = OrderId::generate();
    let id2 = OrderId::generate();
    assert_ne!(id1, id2);
}

#[test]
fn test_order_id_from_string() {
    let id = OrderId::new("test-order-123");
    assert_eq!(id.as_str(), "test-order-123");
}

#[test]
fn test_limit_order_creation() {
    let price = usd_price(100, 0);
    let qty = Quantity::from_lots(10);
    let order = Order::limit("AAPL", OrderSide::Buy, qty, price);

    assert_eq!(order.instrument(), "AAPL");
    assert_eq!(order.side(), OrderSide::Buy);
    assert_eq!(order.order_type(), OrderType::Limit);
    assert_eq!(order.status(), OrderStatus::Pending);
}

#[test]
fn test_market_order_creation() {
    let qty = Quantity::from_lots(5);
    let order = Order::market("BTC/USDT", OrderSide::Sell, qty);

    assert_eq!(order.instrument(), "BTC/USDT");
    assert_eq!(order.side(), OrderSide::Sell);
    assert_eq!(order.order_type(), OrderType::Market);
    assert!(order.price().is_none());
}

#[test]
fn test_order_fill() {
    let price = usd_price(100, 0);
    let qty = Quantity::from_lots(10);
    let mut order = Order::limit("AAPL", OrderSide::Buy, qty, price);

    order.submit();
    assert_eq!(order.status(), OrderStatus::Submitted);

    order.fill(Quantity::from_lots(5));
    assert_eq!(order.status(), OrderStatus::PartiallyFilled);
    assert_eq!(order.filled_quantity().as_lots(), 5);
    assert_eq!(order.remaining_quantity().as_lots(), 5);

    order.fill(Quantity::from_lots(5));
    assert_eq!(order.status(), OrderStatus::Filled);
    assert_eq!(order.remaining_quantity().as_lots(), 0);
}

#[test]
fn test_order_cancel() {
    let qty = Quantity::from_lots(10);
    let mut order = Order::market("AAPL", OrderSide::Buy, qty);

    order.submit();
    order.cancel();

    assert_eq!(order.status(), OrderStatus::Cancelled);
}

#[test]
fn test_status_is_terminal() {
    assert!(OrderStatus::Filled.is_terminal());
    assert!(OrderStatus::Cancelled.is_terminal());
    assert!(OrderStatus::Rejected.is_terminal());
    assert!(!OrderStatus::Pending.is_terminal());
    assert!(!OrderStatus::Submitted.is_terminal());
}

fn create_test_order_book() -> OrderBook {
    let bids = vec![
        OrderBookLevel::new(usd_price(99, 0), Quantity::from_lots(100), 5),
        OrderBookLevel::new(usd_price(98, 0), Quantity::from_lots(200), 10),
    ];
    let asks = vec![
        OrderBookLevel::new(usd_price(101, 0), Quantity::from_lots(150), 7),
        OrderBookLevel::new(usd_price(102, 0), Quantity::from_lots(250), 12),
    ];
    OrderBook::with_levels("TEST", bids, asks)
}

#[test]
fn test_order_book_creation() {
    let book = create_test_order_book();
    assert_eq!(book.instrument(), "TEST");
    assert_eq!(book.bids().len(), 2);
    assert_eq!(book.asks().len(), 2);
}

#[test]
fn order_book_test_best_bid_ask() {
    let book = create_test_order_book();

    let best_bid = book.best_bid().unwrap();
    assert_eq!(best_bid.price().value(), dec(99));

    let best_ask = book.best_ask().unwrap();
    assert_eq!(best_ask.price().value(), dec(101));
}

#[test]
fn test_spread() {
    let book = create_test_order_book();
    let spread = book.spread().unwrap();
    assert_eq!(spread, dec(2));
}

#[test]
fn test_mid_price() {
    let book = create_test_order_book();
    let mid = book.mid_price().unwrap();
    assert_eq!(mid, dec(100));
}

#[test]
fn test_bid_depth() {
    let book = create_test_order_book();
    assert_eq!(book.bid_depth(1).as_lots(), 100);
    assert_eq!(book.bid_depth(2).as_lots(), 300);
}

#[test]
fn test_ask_depth() {
    let book = create_test_order_book();
    assert_eq!(book.ask_depth(1).as_lots(), 150);
    assert_eq!(book.ask_depth(2).as_lots(), 400);
}

#[test]
fn test_has_liquidity() {
    let book = create_test_order_book();
    assert!(book.has_liquidity(OrderSide::Buy, Quantity::from_lots(100)));
    assert!(!book.has_liquidity(OrderSide::Buy, Quantity::from_lots(500)));
    assert!(book.has_liquidity(OrderSide::Sell, Quantity::from_lots(200)));
    assert!(!book.has_liquidity(OrderSide::Sell, Quantity::from_lots(400)));
}

fn create_test_position() -> Position {
    Position::new("AAPL", Quantity::from_lots(10), usd_price(100, 0))
}

#[test]
fn test_position_creation() {
    let pos = create_test_position();
    assert_eq!(pos.instrument(), "AAPL");
    assert_eq!(pos.quantity().as_lots(), 10);
    assert_eq!(pos.average_price().value(), dec(100));
}

#[test]
fn test_empty_position() {
    let pos = Position::empty("AAPL", Currency::usd());
    assert!(pos.is_empty());
    assert_eq!(pos.quantity().as_lots(), 0);
}

#[test]
fn test_cost_basis() {
    let pos = create_test_position();
    let cost = pos.cost_basis();
    assert_eq!(cost.amount(), dec(1000));
}

#[test]
fn test_unrealized_pnl_profit() {
    let pos = create_test_position();
    let pnl = pos.unrealized_pnl(&usd_price(110, 0));
    assert_eq!(pnl.amount(), dec(100));
    assert!(pnl.is_positive());
}

#[test]
fn test_unrealized_pnl_loss() {
    let pos = create_test_position();
    let pnl = pos.unrealized_pnl(&usd_price(90, 0));
    assert_eq!(pnl.amount(), dec(-100));
}

#[test]
fn test_add_to_position() {
    let mut pos = create_test_position();
    pos.add(Quantity::from_lots(10), &usd_price(120, 0));

    assert_eq!(pos.quantity().as_lots(), 20);
    assert_eq!(pos.average_price().value(), dec(110));
}

#[test]
fn test_reduce_position() {
    let mut pos = create_test_position();
    pos.reduce(Quantity::from_lots(5));

    assert_eq!(pos.quantity().as_lots(), 5);
    assert_eq!(pos.average_price().value(), dec(100));
}

#[test]
fn test_close_position() {
    let mut pos = create_test_position();
    pos.reduce(Quantity::from_lots(10));
    assert!(pos.is_empty());
}

#[test]
fn test_market_value() {
    let pos = create_test_position();
    let value = pos.market_value(&usd_price(105, 0));
    assert_eq!(value.amount(), dec(1050));
}

fn create_test_trade(side: OrderSide, price: i64, quantity: u64) -> Trade {
    Trade::new(
        OrderId::generate(),
        "AAPL",
        side,
        Quantity::from_lots(quantity),
        usd_price(price, 0),
        Money::new(dec(1), Currency::usd()),
    )
}

#[test]
fn test_trade_creation() {
    let trade = create_test_trade(OrderSide::Buy, 100, 10);
    assert_eq!(trade.instrument(), "AAPL");
    assert_eq!(trade.side(), OrderSide::Buy);
    assert_eq!(trade.quantity().as_lots(), 10);
}

#[test]
fn test_gross_value() {
    let trade = create_test_trade(OrderSide::Buy, 100, 10);
    assert_eq!(trade.gross_value().amount(), dec(1000));
}

#[test]
fn test_net_value_buy() {
    let trade = create_test_trade(OrderSide::Buy, 100, 10);
    assert_eq!(trade.net_value().unwrap().amount(), dec(1001));
}

#[test]
fn test_net_value_sell() {
    let trade = create_test_trade(OrderSide::Sell, 100, 10);
    assert_eq!(trade.net_value().unwrap().amount(), dec(999));
}

#[test]
fn trade_test_trade_history() {
    let mut history = TradeHistory::new();
    history.add(create_test_trade(OrderSide::Buy, 100, 10));
    history.add(create_test_trade(OrderSide::Sell, 110, 10));

    assert_eq!(history.count(), 2);
    assert_eq!(history.buys().len(), 1);
    assert_eq!(history.sells().len(), 1);
}

#[test]
fn test_total_commission() {
    let mut history = TradeHistory::new();
    history.add(create_test_trade(OrderSide::Buy, 100, 10));
    history.add(create_test_trade(OrderSide::Sell, 110, 10));

    let commission = history.total_commission(&Currency::usd());
    assert_eq!(commission.amount(), dec(2));
}

#[test]
fn test_realized_pnl() {
    let mut history = TradeHistory::new();
    history.add(create_test_trade(OrderSide::Buy, 100, 10));
    history.add(create_test_trade(OrderSide::Sell, 110, 10));

    let pnl = history.realized_pnl("AAPL", &Currency::usd());
    assert_eq!(pnl, dec(98));
}

#[test]
fn test_realized_pnl_loss() {
    let mut history = TradeHistory::new();
    history.add(create_test_trade(OrderSide::Buy, 100, 10));
    history.add(create_test_trade(OrderSide::Sell, 95, 10));

    let pnl = history.realized_pnl("AAPL", &Currency::usd());
    assert_eq!(pnl, dec(-52));
}
