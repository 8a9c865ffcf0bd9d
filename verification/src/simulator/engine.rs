//! The simulated exchange: markets, orders, positions, balances and trades.
//!
//! Orders are filled completely at the best price of their market when
//! their limit allows it and the account can pay (buys) or holds the
//! quantity (sells). A fill moves cash, the position, the order and the
//! trade record together.
use vstd::prelude::*;
use crate::exchange::error::{ExchangeError, instrument_not_found, order_not_found, order_rejected};
use crate::exchange::info::{ExchangeInfo, InstrumentInfo, InstrumentView, instruments_view, clone_instruments};
use crate::keyed::{
    first_index, upsert, index_or_none, lemma_first_index, lemma_first_index_step,
    lemma_first_index_prefix, lemma_first_index_none, lemma_push_new_key,
};
use crate::simulator::market::{
    SimulatedMarket, SimulatedMarketConfig, MarketView, MarketCondition, ask_defined, side_defined,
    best_ask_spec, best_bid_spec, levels_defined, levels_spec, tick_defined, after_tick,
};
use crate::text::{owned, str_eq, concat};
use crate::types::decimal::{
    Decimal, DecimalView, dv, decimal_checked_add, decimal_checked_sub, decimal_checked_mul,
    decimal_text, sum_of, difference_of, product_of, add_fits, sub_fits, mul_fits, exact_sum, exact_product,
    lemma_exact_sum_value, lemma_exact_difference_value, lemma_val_sign,
};
use crate::types::money::{Currency, Money, MoneyView, Price, PriceView, Quantity};
use crate::types::order::{
    Order, OrderId, OrderSide, OrderStatus, OrderView, status_active, status_terminal,
    status_after_fill, status_after_submit, status_after_cancel, remaining_of,
};
use crate::types::order_book::{OrderBook, BookView, sort_levels_spec};
use crate::types::position::{Position, PositionView, add_defined, position_after_add, position_after_reduce};
use crate::types::trade::{Trade, TradeView};

verus! {

/// A trade, its random identifier aside.
pub struct TradeCore {
    pub order_id: Seq<char>,
    pub instrument: Seq<char>,
    pub side: OrderSide,
    pub quantity: DecimalView,
    pub price: PriceView,
    pub commission: MoneyView,
}

/// A trade without its identifier.
pub open spec fn trade_core(t: TradeView) -> TradeCore {
    TradeCore {
        order_id: t.order_id,
        instrument: t.instrument,
        side: t.side,
        quantity: t.quantity,
        price: t.price,
        commission: t.commission,
    }
}

/// The cores of a sequence of trades.
pub open spec fn trade_cores(s: Seq<Trade>) -> Seq<TradeCore> {
    s.map_values(|t: Trade| trade_core(t@))
}

/// The content of a [`SimulatorEngine`].
pub struct EngineView {
    pub name: Seq<char>,
    pub id: Seq<char>,
    pub info_connected: bool,
    pub instruments: Seq<InstrumentView>,
    pub markets: Seq<MarketView>,
    pub orders: Seq<OrderView>,
    pub positions: Seq<PositionView>,
    pub balances: Seq<MoneyView>,
    pub trades: Seq<TradeCore>,
    pub connected: bool,
    pub commission_rate: DecimalView,
}

/// The symbols of markets.
pub open spec fn market_keys(s: Seq<MarketView>) -> Seq<Seq<char>> {
    s.map_values(|m: MarketView| m.config.symbol@)
}

/// The identifiers of orders.
pub open spec fn order_keys(s: Seq<OrderView>) -> Seq<Seq<char>> {
    s.map_values(|o: OrderView| o.id)
}

/// The instruments of positions.
pub open spec fn position_keys(s: Seq<PositionView>) -> Seq<Seq<char>> {
    s.map_values(|p: PositionView| p.instrument)
}

/// The currencies of balances.
pub open spec fn balance_keys(s: Seq<MoneyView>) -> Seq<Seq<char>> {
    s.map_values(|b: MoneyView| b.currency)
}

/// The market of a symbol, `-1` where there is none.
pub open spec fn market_at(e: EngineView, symbol: Seq<char>) -> int {
    first_index(market_keys(e.markets), symbol)
}

/// The order of an identifier, `-1` where there is none.
pub open spec fn order_at(e: EngineView, id: Seq<char>) -> int {
    first_index(order_keys(e.orders), id)
}

/// The position in an instrument, `-1` where there is none.
pub open spec fn position_at(e: EngineView, instrument: Seq<char>) -> int {
    first_index(position_keys(e.positions), instrument)
}

/// The balance of a currency, `-1` where there is none.
pub open spec fn balance_at(e: EngineView, currency: Seq<char>) -> int {
    first_index(balance_keys(e.balances), currency)
}

/// The price at which an order fills against a market: the best ask for a
/// buy and the best bid for a sell, where the order's limit (if any) allows it.
pub open spec fn fill_price(m: MarketView, o: OrderView) -> Option<PriceView> {
    match o.side {
        OrderSide::Buy => {
            let ask = best_ask_spec(m);
            match o.price {
                Some(l) => if l.value.val() >= ask.value.val() {
                    Some(ask)
                } else {
                    None
                },
                None => Some(ask),
            }
        },
        OrderSide::Sell => {
            let bid = best_bid_spec(m);
            match o.price {
                Some(l) => if l.value.val() <= bid.value.val() {
                    Some(bid)
                } else {
                    None
                },
                None => Some(bid),
            }
        },
    }
}

/// A fill that can be executed: the order at `order`, filling `quantity`
/// at `price`, paying `commission`.
pub struct FillPlan {
    pub order: int,
    pub price: PriceView,
    pub quantity: DecimalView,
    pub commission: DecimalView,
}

/// The position into which a buy of `instrument` goes: the existing one, or a
/// new empty one.
pub open spec fn position_for_buy(e: EngineView, instrument: Seq<char>, currency: Seq<char>) -> PositionView {
    let pi = position_at(e, instrument);
    if pi >= 0 {
        e.positions[pi]
    } else {
        PositionView {
            instrument,
            quantity: dv(0, 0),
            average_price: PriceView { value: dv(0, 0), currency },
            currency,
        }
    }
}

/// Price times quantity of a fill.
pub open spec fn plan_value(p: FillPlan) -> DecimalView {
    product_of(p.price.value, p.quantity)
}

/// The account allows the fill: a buy needs a balance in the price's
/// currency of at least price times quantity plus commission; a sell needs a
/// position in the order's instrument of at least the quantity.
pub open spec fn can_fill(e: EngineView, o: OrderView, p: FillPlan) -> bool {
    match o.side {
        OrderSide::Buy => {
            let bi = balance_at(e, p.price.currency);
            bi >= 0 && e.balances[bi].amount.val() >= sum_of(plan_value(p), p.commission).val()
        },
        OrderSide::Sell => {
            let pi = position_at(e, o.instrument);
            pi >= 0 && e.positions[pi].quantity.val() >= p.quantity.val()
        },
    }
}

/// The fill of the order `id` against the market `instrument`, if it can
/// happen: the market and the order exist, the price allows it (see
/// [`fill_price`]), and the account allows it (see [`can_fill`]); the whole
/// remaining quantity is filled and the commission is the commission rate
/// times price times quantity.
pub open spec fn fill_plan(e: EngineView, id: Seq<char>, instrument: Seq<char>) -> Option<FillPlan> {
    let mi = market_at(e, instrument);
    let oi = order_at(e, id);
    if mi < 0 || oi < 0 {
        None
    } else {
        let o = e.orders[oi];
        match fill_price(e.markets[mi], o) {
            None => None,
            Some(price) => {
                let q = remaining_of(o);
                let value = product_of(price.value, q);
                let plan = FillPlan { order: oi, price, quantity: q, commission: product_of(value, e.commission_rate) };
                if can_fill(e, o, plan) {
                    Some(plan)
                } else {
                    None
                }
            },
        }
    }
}

/// A fill honours the order's limit: a limit sell never fills below its
/// limit price and a limit buy never above it; an order without a limit
/// fills at the best price of its side (the best bid for a sell, the best
/// ask for a buy). The whole remaining quantity of the order is filled.
pub proof fn lemma_fill_respects_limit(e: EngineView, id: Seq<char>, instrument: Seq<char>)
    ensures
        fill_plan(e, id, instrument) matches Some(p) ==> {
            let o = e.orders[order_at(e, id)];
            let m = e.markets[market_at(e, instrument)];
            &&& p.order == order_at(e, id)
            &&& p.quantity == remaining_of(o)
            &&& (o.side is Sell && o.price is Some ==> p.price.value.val() >= o.price->Some_0.value.val())
            &&& (o.side is Buy && o.price is Some ==> p.price.value.val() <= o.price->Some_0.value.val())
            &&& (o.side is Sell ==> p.price == best_bid_spec(m))
            &&& (o.side is Buy ==> p.price == best_ask_spec(m))
        },
{
}

/// What a fill changes does not overflow: the order's filled quantity; for a
/// buy, where there is a balance, the cost plus commission and the balance
/// less that, and the position's new cost and average; for a sell where
/// there is a balance, the proceeds less commission and the balance plus
/// them.
pub open spec fn fill_effects_defined(e: EngineView, o: OrderView, p: FillPlan) -> bool {
    let bi = balance_at(e, p.price.currency);
    let value = plan_value(p);
    &&& decimal_checked_add(o.filled_quantity, p.quantity) is Some
    &&& match o.side {
        OrderSide::Buy => {
            &&& bi >= 0 ==> {
                &&& decimal_checked_add(value, p.commission) is Some
                &&& decimal_checked_sub(e.balances[bi].amount, sum_of(value, p.commission)) is Some
            }
            &&& add_defined(position_for_buy(e, o.instrument, p.price.currency), p.quantity, p.price.value)
        },
        OrderSide::Sell => bi >= 0 ==> {
            &&& decimal_checked_sub(value, p.commission) is Some
            &&& decimal_checked_add(e.balances[bi].amount, difference_of(value, p.commission)) is Some
        },
    }
}

/// The arithmetic of filling the order `id` against the market `instrument`
/// does not overflow: the best price of the order's side; where the price
/// allows a fill, price times quantity, the commission and, for a buy, their
/// sum; and where the account allows the fill, what it changes (see
/// [`fill_effects_defined`]).
pub open spec fn fill_defined(e: EngineView, id: Seq<char>, instrument: Seq<char>) -> bool {
    let mi = market_at(e, instrument);
    let oi = order_at(e, id);
    mi >= 0 && oi >= 0 ==> {
        let m = e.markets[mi];
        let o = e.orders[oi];
        &&& side_defined(m, o.side is Buy)
        &&& fill_price(m, o) matches Some(price) ==> {
            let q = remaining_of(o);
            let value = product_of(price.value, q);
            let plan = FillPlan { order: oi, price, quantity: q, commission: product_of(value, e.commission_rate) };
            &&& decimal_checked_mul(price.value, q) is Some
            &&& decimal_checked_mul(value, e.commission_rate) is Some
            &&& o.side is Buy ==> decimal_checked_add(value, plan.commission) is Some
            &&& can_fill(e, o, plan) ==> fill_effects_defined(e, o, plan)
        }
    }
}

/// The order after a fill of `q`.
pub open spec fn order_after_fill(o: OrderView, q: DecimalView) -> OrderView {
    OrderView {
        filled_quantity: sum_of(o.filled_quantity, q),
        status: status_after_fill(sum_of(o.filled_quantity, q), o.quantity),
        ..o
    }
}

/// The engine after executing a fill: a buy pays price times quantity plus
/// commission out of the balance in the price's currency (where there is
/// one) and adds to the position (opening it where needed); a sell receives
/// price times quantity less commission into that balance (where there is
/// one) and reduces the position (where there is one); the trade is recorded
/// and the order records the fill.
pub open spec fn after_fill(e: EngineView, p: FillPlan) -> EngineView {
    let o = e.orders[p.order];
    let currency = p.price.currency;
    let bi = balance_at(e, currency);
    let pi = position_at(e, o.instrument);
    let value = plan_value(p);
    let trade = TradeCore {
        order_id: o.id,
        instrument: o.instrument,
        side: o.side,
        quantity: p.quantity,
        price: p.price,
        commission: MoneyView { amount: p.commission, currency },
    };
    let e2 = match o.side {
        OrderSide::Buy => EngineView {
            balances: if bi >= 0 {
                e.balances.update(
                    bi,
                    MoneyView { amount: difference_of(e.balances[bi].amount, sum_of(value, p.commission)), currency },
                )
            } else {
                e.balances
            },
            positions: upsert(
                e.positions,
                pi,
                position_after_add(position_for_buy(e, o.instrument, currency), p.quantity, p.price.value),
            ),
            ..e
        },
        OrderSide::Sell => EngineView {
            balances: if bi >= 0 {
                e.balances.update(
                    bi,
                    MoneyView { amount: sum_of(e.balances[bi].amount, difference_of(value, p.commission)), currency },
                )
            } else {
                e.balances
            },
            positions: if pi >= 0 {
                e.positions.update(pi, position_after_reduce(e.positions[pi], p.quantity))
            } else {
                e.positions
            },
            ..e
        },
    };
    EngineView {
        trades: e2.trades.push(trade),
        orders: e2.orders.update(p.order, order_after_fill(o, p.quantity)),
        ..e2
    }
}

/// The engine with the order `id` marked submitted where it is pending.
pub open spec fn mark_submitted(e: EngineView, id: Seq<char>) -> EngineView {
    let oi = order_at(e, id);
    if oi >= 0 && e.orders[oi].status == OrderStatus::Pending {
        EngineView {
            orders: e.orders.update(oi, OrderView { status: status_after_submit(e.orders[oi].status), ..e.orders[oi] }),
            ..e
        }
    } else {
        e
    }
}

/// One step of order processing: a pending order is marked submitted, then
/// filled where [`fill_plan`] allows it.
pub open spec fn process_one(e: EngineView, id: Seq<char>, instrument: Seq<char>) -> EngineView {
    let e1 = mark_submitted(e, id);
    match fill_plan(e1, id, instrument) {
        Some(p) => after_fill(e1, p),
        None => e1,
    }
}

/// The arithmetic of one step of order processing does not overflow.
pub open spec fn step_defined(e: EngineView, id: Seq<char>, instrument: Seq<char>) -> bool {
    fill_defined(mark_submitted(e, id), id, instrument)
}

/// The identifiers and instruments of the active orders, in order.
pub open spec fn active_orders(s: Seq<OrderView>) -> Seq<(Seq<char>, Seq<char>)>
    decreases s.len(),
{
    if s.len() == 0 {
        Seq::empty()
    } else if status_active(s.last().status) {
        active_orders(s.drop_last()).push((s.last().id, s.last().instrument))
    } else {
        active_orders(s.drop_last())
    }
}

/// Order processing over the listed orders, one after the other.
pub open spec fn process_all(e: EngineView, pending: Seq<(Seq<char>, Seq<char>)>) -> EngineView
    decreases pending.len(),
{
    if pending.len() == 0 {
        e
    } else {
        let prev = process_all(e, pending.drop_last());
        process_one(prev, pending.last().0, pending.last().1)
    }
}

/// Processing every order that is active at the start.
pub open spec fn process_pending(e: EngineView) -> EngineView {
    process_all(e, active_orders(e.orders))
}

/// The arithmetic of processing the listed orders does not overflow.
pub open spec fn process_all_defined(e: EngineView, pending: Seq<(Seq<char>, Seq<char>)>) -> bool
    decreases pending.len(),
{
    if pending.len() == 0 {
        true
    } else {
        &&& process_all_defined(e, pending.drop_last())
        &&& step_defined(process_all(e, pending.drop_last()), pending.last().0, pending.last().1)
    }
}

/// The arithmetic of processing every active order does not overflow.
pub open spec fn process_defined(e: EngineView) -> bool {
    process_all_defined(e, active_orders(e.orders))
}

/// The markets after one tick each.
pub open spec fn markets_after_tick(s: Seq<MarketView>) -> Seq<MarketView> {
    s.map_values(|m: MarketView| after_tick(m))
}

/// The orders whose status is active, in order.
pub open spec fn active_order_views(s: Seq<OrderView>) -> Seq<OrderView>
    decreases s.len(),
{
    if s.len() == 0 {
        s
    } else if status_active(s.last().status) {
        active_order_views(s.drop_last()).push(s.last())
    } else {
        active_order_views(s.drop_last())
    }
}

/// The orders of an instrument, in order.
pub open spec fn orders_of(s: Seq<OrderView>, instrument: Seq<char>) -> Seq<OrderView>
    decreases s.len(),
{
    if s.len() == 0 {
        s
    } else if s.last().instrument == instrument {
        orders_of(s.drop_last(), instrument).push(s.last())
    } else {
        orders_of(s.drop_last(), instrument)
    }
}

/// The trades of an instrument, in order.
pub open spec fn trades_of(s: Seq<TradeCore>, instrument: Seq<char>) -> Seq<TradeCore>
    decreases s.len(),
{
    if s.len() == 0 {
        s
    } else if s.last().instrument == instrument {
        trades_of(s.drop_last(), instrument).push(s.last())
    } else {
        trades_of(s.drop_last(), instrument)
    }
}

/// The last `limit` entries (all of them where there are fewer).
pub open spec fn last_n<T>(s: Seq<T>, limit: nat) -> Seq<T> {
    if limit >= s.len() {
        s
    } else {
        s.skip(s.len() - limit)
    }
}

/// The views of a sequence of orders.
pub open spec fn orders_view(s: Seq<Order>) -> Seq<OrderView> {
    s.map_values(|o: Order| o@)
}

/// The views of a sequence of positions.
pub open spec fn positions_view(s: Seq<Position>) -> Seq<PositionView> {
    s.map_values(|p: Position| p@)
}

/// The views of a sequence of balances.
pub open spec fn balances_view(s: Seq<Money>) -> Seq<MoneyView> {
    s.map_values(|b: Money| b@)
}

/// The views of a sequence of markets.
pub open spec fn markets_view(s: Seq<SimulatedMarket>) -> Seq<MarketView> {
    s.map_values(|m: SimulatedMarket| m@)
}

/// Replacing one market replaces its view.
pub broadcast proof fn lemma_markets_view_update(v: Seq<SimulatedMarket>, i: int, x: SimulatedMarket)
    requires
        0 <= i < v.len(),
    ensures
        #[trigger] markets_view(v.update(i, x)) == markets_view(v).update(i, x@),
{
    assert(markets_view(v.update(i, x)) =~= markets_view(v).update(i, x@));
}

/// The simulated exchange.
#[derive(Debug)]
pub struct SimulatorEngine {
    info: ExchangeInfo,
    markets: Vec<SimulatedMarket>,
    orders: Vec<Order>,
    positions: Vec<Position>,
    balances: Vec<Money>,
    trades: Vec<Trade>,
    connected: bool,
    commission_rate: Decimal,
}

impl View for SimulatorEngine {
    type V = EngineView;

    closed spec fn view(&self) -> EngineView {
        EngineView {
            name: self.info.name@,
            id: self.info.id@,
            info_connected: self.info.connected,
            instruments: instruments_view(self.info.instruments@),
            markets: markets_view(self.markets@),
            orders: orders_view(self.orders@),
            positions: positions_view(self.positions@),
            balances: balances_view(self.balances@),
            trades: trade_cores(self.trades@),
            connected: self.connected,
            commission_rate: self.commission_rate@,
        }
    }
}


/// A fill plan in executable form.
struct ExecPlan {
    order: usize,
    price: Price,
    quantity: Quantity,
    commission: Decimal,
}

impl ExecPlan {
    spec fn view(&self) -> FillPlan {
        FillPlan { order: self.order as int, price: self.price@, quantity: self.quantity@, commission: self.commission@ }
    }
}

/// The view of an optional plan.
spec fn opt_plan(p: Option<ExecPlan>) -> Option<FillPlan> {
    match p {
        Some(x) => Some(x.view()),
        None => None,
    }
}

/// A plan that [`after_fill`] can execute.
pub open spec fn plan_valid(e: EngineView, p: FillPlan) -> bool {
    let o = e.orders[p.order];
    &&& 0 <= p.order < e.orders.len()
    &&& decimal_checked_mul(p.price.value, p.quantity) is Some
    &&& fill_effects_defined(e, o, p)
}

/// A plan of [`fill_plan`] fills the order found under `id`, which the
/// account allows.
proof fn lemma_fill_plan_shape(e: EngineView, id: Seq<char>, instrument: Seq<char>)
    requires
        fill_plan(e, id, instrument) is Some,
    ensures
        0 <= fill_plan(e, id, instrument)->Some_0.order < e.orders.len(),
        fill_plan(e, id, instrument)->Some_0.order == order_at(e, id),
        can_fill(
            e,
            e.orders[fill_plan(e, id, instrument)->Some_0.order],
            fill_plan(e, id, instrument)->Some_0,
        ),
{
    lemma_first_index(order_keys(e.orders), id);
}

/// A plan of [`fill_plan`] whose arithmetic does not overflow can be executed.
pub proof fn lemma_fill_plan_valid(e: EngineView, id: Seq<char>, instrument: Seq<char>)
    requires
        fill_plan(e, id, instrument) is Some,
        fill_defined(e, id, instrument),
    ensures
        plan_valid(e, fill_plan(e, id, instrument)->Some_0),
        fill_plan(e, id, instrument)->Some_0.order == order_at(e, id),
        e.orders[order_at(e, id)].id == id,
{
    lemma_first_index(order_keys(e.orders), id);
    lemma_first_index(market_keys(e.markets), instrument);
}

/// The engine with a market (re)placed under its symbol.
pub open spec fn fresh_market(config: SimulatedMarketConfig) -> MarketView {
    MarketView {
        config,
        mid: config.initial_price@,
        condition: MarketCondition::Ranging,
        volatility: dv(1, 3),
        tick_count: 0,
    }
}

/// The instrument record of a simulated market.
pub open spec fn simulated_instrument(config: SimulatedMarketConfig) -> InstrumentView {
    InstrumentView {
        symbol: config.symbol@,
        name: config.symbol@ + " (Simulated)"@,
        currency: config.currency@,
        min_quantity: dv(1, 0),
        quantity_step: dv(1, 0),
        price_step: config.price_step@,
        lot_size: config.lot_size,
        trading_enabled: true,
    }
}

/// The engine after one tick: each market ticks, then the active orders are
/// processed.
pub open spec fn tick_spec(e: EngineView) -> EngineView {
    process_pending(EngineView { markets: markets_after_tick(e.markets), ..e })
}

/// The engine after `n` ticks.
pub open spec fn advance_spec(e: EngineView, n: nat) -> EngineView
    decreases n,
{
    if n == 0 {
        e
    } else {
        tick_spec(advance_spec(e, (n - 1) as nat))
    }
}

/// The order as submitted to the engine: marked submitted and stored under
/// its identifier.
pub open spec fn with_submitted(e: EngineView, o: OrderView) -> EngineView {
    EngineView {
        orders: upsert(e.orders, order_at(e, o.id), OrderView { status: status_after_submit(o.status), ..o }),
        ..e
    }
}

/// The price against which a buy is checked for funds: its limit, or else
/// the best ask.
pub open spec fn buy_check_price(m: MarketView, o: OrderView) -> DecimalView {
    match o.price {
        Some(l) => l.value,
        None => best_ask_spec(m).value,
    }
}

/// The cash available in a currency, zero where there is no balance.
pub open spec fn available_cash(e: EngineView, currency: Seq<char>) -> DecimalView {
    if balance_at(e, currency) >= 0 {
        e.balances[balance_at(e, currency)].amount
    } else {
        dv(0, 0)
    }
}

/// The quantity held of an instrument, zero where there is no position.
pub open spec fn held_quantity(e: EngineView, instrument: Seq<char>) -> DecimalView {
    if position_at(e, instrument) >= 0 {
        e.positions[position_at(e, instrument)].quantity
    } else {
        dv(0, 0)
    }
}

/// Why a submission is refused, if it is.
pub enum Refusal {
    /// No market for the instrument.
    NoMarket,
    /// The cash does not cover price times quantity.
    Funds { required: DecimalView, available: DecimalView },
    /// The position does not cover the quantity.
    Holdings { required: DecimalView, available: DecimalView },
}

/// The refusal of a submission: an unknown instrument; for a buy, cash below
/// price times quantity; for a sell, a position below the quantity. `None`
/// where the order is accepted.
pub open spec fn refusal(e: EngineView, o: OrderView) -> Option<Refusal> {
    let mi = market_at(e, o.instrument);
    if mi < 0 {
        Some(Refusal::NoMarket)
    } else {
        let m = e.markets[mi];
        match o.side {
            OrderSide::Buy => {
                let required = product_of(buy_check_price(m, o), o.quantity);
                let available = available_cash(e, m.config.currency@);
                if available.val() < required.val() {
                    Some(Refusal::Funds { required, available })
                } else {
                    None
                }
            },
            OrderSide::Sell => {
                let available = held_quantity(e, o.instrument);
                if available.val() < o.quantity.val() {
                    Some(Refusal::Holdings { required: o.quantity, available })
                } else {
                    None
                }
            },
        }
    }
}

/// The error that reports a refusal.
pub open spec fn refusal_error(err: ExchangeError, why: Refusal, instrument: Seq<char>) -> bool {
    match why {
        Refusal::NoMarket => err matches ExchangeError::InstrumentNotFound(s) && s@ == instrument,
        Refusal::Funds { required, available } => err matches ExchangeError::InsufficientFunds {
            required: r,
            available: a,
        } && r@ == decimal_text(required) && a@ == decimal_text(available),
        Refusal::Holdings { required, available } => err matches ExchangeError::InsufficientPosition {
            required: r,
            available: a,
        } && r@ == decimal_text(required) && a@ == decimal_text(available),
    }
}

/// The arithmetic of a submission does not overflow: for a buy, the best
/// ask and price times quantity of the funds check; where the order is
/// accepted, the processing of the active orders that follows.
pub open spec fn submit_defined(e: EngineView, o: OrderView) -> bool {
    let mi = market_at(e, o.instrument);
    &&& mi >= 0 && o.side is Buy ==> {
        &&& ask_defined(e.markets[mi])
        &&& decimal_checked_mul(buy_check_price(e.markets[mi], o), o.quantity) is Some
    }
    &&& refusal(e, o) is None ==> process_defined(with_submitted(e, o))
}

/// The arithmetic of a tick does not overflow: every market ticks, and the
/// active orders are then processed.
pub open spec fn tick_ready(e: EngineView) -> bool {
    &&& forall|k: int| 0 <= k < e.markets.len() ==> tick_defined(#[trigger] e.markets[k])
    &&& process_defined(EngineView { markets: markets_after_tick(e.markets), ..e })
}

/// The arithmetic of `n` ticks does not overflow.
pub open spec fn advance_ready(e: EngineView, n: nat) -> bool
    decreases n,
{
    if n == 0 {
        true
    } else {
        advance_ready(e, (n - 1) as nat) && tick_ready(advance_spec(e, (n - 1) as nat))
    }
}

/// Ticking `n` times has its arithmetic defined where ticking more does.
proof fn lemma_advance_ready_prefix(e: EngineView, n: nat, m: nat)
    requires
        advance_ready(e, n),
        0 < m <= n,
    ensures
        tick_ready(advance_spec(e, (m - 1) as nat)),
    decreases n,
{
    if m < n {
        lemma_advance_ready_prefix(e, (n - 1) as nat, m);
    }
}

/// The order book of a market can be generated.
pub open spec fn book_defined(m: MarketView) -> bool {
    levels_defined(m, false) && levels_defined(m, true)
}

/// Processing the listed orders has its arithmetic defined at every step.
proof fn lemma_process_all_defined_step(e: EngineView, pending: Seq<(Seq<char>, Seq<char>)>, i: int)
    requires
        process_all_defined(e, pending),
        0 <= i < pending.len(),
    ensures
        step_defined(process_all(e, pending.take(i)), pending[i].0, pending[i].1),
    decreases pending.len(),
{
    if i == pending.len() - 1 {
        assert(pending.take(i) =~= pending.drop_last());
    } else {
        lemma_process_all_defined_step(e, pending.drop_last(), i);
        assert(pending.drop_last().take(i) =~= pending.take(i));
    }
}

/// The index at which a submitted order is stored.
pub open spec fn index_of_submitted(e: EngineView, o: OrderView) -> int {
    if order_at(e, o.id) >= 0 {
        order_at(e, o.id)
    } else {
        e.orders.len() as int
    }
}

/// Processing one order keeps the identifiers of the stored orders.
proof fn lemma_process_one_keeps_keys(e: EngineView, id: Seq<char>, instrument: Seq<char>)
    ensures
        order_keys(process_one(e, id, instrument).orders) == order_keys(e.orders),
{
    let oi = order_at(e, id);
    lemma_first_index(order_keys(e.orders), id);
    let e1 = mark_submitted(e, id);
    assert(order_keys(e1.orders) =~= order_keys(e.orders));
    match fill_plan(e1, id, instrument) {
        Some(p) => {
            lemma_fill_plan_shape(e1, id, instrument);
            assert(order_keys(after_fill(e1, p).orders) =~= order_keys(e1.orders));
        },
        None => {},
    }
}

/// Processing orders keeps the identifiers of the stored orders.
proof fn lemma_process_all_keeps_keys(e: EngineView, pending: Seq<(Seq<char>, Seq<char>)>)
    ensures
        order_keys(process_all(e, pending).orders) == order_keys(e.orders),
    decreases pending.len(),
{
    if pending.len() > 0 {
        lemma_process_all_keeps_keys(e, pending.drop_last());
        lemma_process_one_keeps_keys(process_all(e, pending.drop_last()), pending.last().0, pending.last().1);
    }
}

/// Processing the active orders keeps the identifiers of the stored orders.
proof fn lemma_process_keeps_order_keys(e: EngineView)
    ensures
        order_keys(process_pending(e).orders) == order_keys(e.orders),
{
    lemma_process_all_keeps_keys(e, active_orders(e.orders));
}

impl SimulatorEngine {
    /// An exchange named `Simulator`, disconnected, with no markets, orders,
    /// positions, balances or trades, and a commission rate of 0.01%.
    pub fn new() -> (r: SimulatorEngine)
        ensures
            r@ == (EngineView {
                name: "Simulator"@,
                id: "simulator"@,
                info_connected: false,
                instruments: Seq::empty(),
                markets: Seq::empty(),
                orders: Seq::empty(),
                positions: Seq::empty(),
                balances: Seq::empty(),
                trades: Seq::empty(),
                connected: false,
                commission_rate: dv(1, 4),
            }),
            keys_distinct(r@),
    {
        let r = SimulatorEngine {
            info: ExchangeInfo {
                name: owned("Simulator"),
                id: owned("simulator"),
                connected: false,
                instruments: Vec::new(),
            },
            markets: Vec::new(),
            orders: Vec::new(),
            positions: Vec::new(),
            balances: Vec::new(),
            trades: Vec::new(),
            connected: false,
            commission_rate: Decimal::new(1, 4),
        };
        assert(instruments_view(r.info.instruments@) =~= Seq::empty());
        assert(markets_view(r.markets@) =~= Seq::empty());
        assert(orders_view(r.orders@) =~= Seq::empty());
        assert(positions_view(r.positions@) =~= Seq::empty());
        assert(balances_view(r.balances@) =~= Seq::empty());
        assert(trade_cores(r.trades@) =~= Seq::empty());
        r
    }

    fn find_market(&self, symbol: &str) -> (r: Option<usize>)
        ensures
            index_or_none(r) == market_at(self@, symbol@),
            r matches Some(i) ==> i < self@.markets.len() && i < self.markets@.len(),
    {
        let ghost keys = market_keys(self@.markets);
        assert(keys.take(0) =~= Seq::<Seq<char>>::empty());
        let mut i: usize = 0;
        while i < self.markets.len()
            invariant
                i <= self.markets@.len(),
                keys == market_keys(self@.markets),
                keys.len() == self.markets@.len(),
                first_index(keys.take(i as int), symbol@) == -1,
            decreases self.markets@.len() - i,
        {
            proof {
                lemma_first_index_step(keys, symbol@, i as int);
            }
            assert(keys[i as int] == self.markets@[i as int]@.config.symbol@);
            if str_eq(self.markets[i].symbol(), symbol) {
                proof {
                    lemma_first_index_prefix(keys, symbol@, i as int + 1);
                }
                return Some(i);
            }
            i = i + 1;
        }
        proof {
            lemma_first_index_none(keys, symbol@);
        }
        None
    }

    fn find_order(&self, id: &str) -> (r: Option<usize>)
        ensures
            index_or_none(r) == order_at(self@, id@),
            r matches Some(i) ==> i < self@.orders.len() && i < self.orders@.len(),
    {
        let ghost keys = order_keys(self@.orders);
        assert(keys.take(0) =~= Seq::<Seq<char>>::empty());
        let mut i: usize = 0;
        while i < self.orders.len()
            invariant
                i <= self.orders@.len(),
                keys == order_keys(self@.orders),
                keys.len() == self.orders@.len(),
                first_index(keys.take(i as int), id@) == -1,
            decreases self.orders@.len() - i,
        {
            proof {
                lemma_first_index_step(keys, id@, i as int);
            }
            assert(keys[i as int] == self.orders@[i as int]@.id);
            if str_eq(self.orders[i].id().as_str(), id) {
                proof {
                    lemma_first_index_prefix(keys, id@, i as int + 1);
                }
                return Some(i);
            }
            i = i + 1;
        }
        proof {
            lemma_first_index_none(keys, id@);
        }
        None
    }

    fn find_position(&self, instrument: &str) -> (r: Option<usize>)
        ensures
            index_or_none(r) == position_at(self@, instrument@),
            r matches Some(i) ==> i < self@.positions.len() && i < self.positions@.len(),
    {
        let ghost keys = position_keys(self@.positions);
        assert(keys.take(0) =~= Seq::<Seq<char>>::empty());
        let mut i: usize = 0;
        while i < self.positions.len()
            invariant
                i <= self.positions@.len(),
                keys == position_keys(self@.positions),
                keys.len() == self.positions@.len(),
                first_index(keys.take(i as int), instrument@) == -1,
            decreases self.positions@.len() - i,
        {
            proof {
                lemma_first_index_step(keys, instrument@, i as int);
            }
            assert(keys[i as int] == self.positions@[i as int]@.instrument);
            if str_eq(self.positions[i].instrument(), instrument) {
                proof {
                    lemma_first_index_prefix(keys, instrument@, i as int + 1);
                }
                return Some(i);
            }
            i = i + 1;
        }
        proof {
            lemma_first_index_none(keys, instrument@);
        }
        None
    }

    fn find_balance(&self, currency: &str) -> (r: Option<usize>)
        ensures
            index_or_none(r) == balance_at(self@, currency@),
            r matches Some(i) ==> i < self@.balances.len() && i < self.balances@.len(),
    {
        let ghost keys = balance_keys(self@.balances);
        assert(keys.take(0) =~= Seq::<Seq<char>>::empty());
        let mut i: usize = 0;
        while i < self.balances.len()
            invariant
                i <= self.balances@.len(),
                keys == balance_keys(self@.balances),
                keys.len() == self.balances@.len(),
                first_index(keys.take(i as int), currency@) == -1,
            decreases self.balances@.len() - i,
        {
            proof {
                lemma_first_index_step(keys, currency@, i as int);
            }
            assert(keys[i as int] == self.balances@[i as int]@.currency);
            if str_eq(self.balances[i].currency().code(), currency) {
                proof {
                    lemma_first_index_prefix(keys, currency@, i as int + 1);
                }
                return Some(i);
            }
            i = i + 1;
        }
        proof {
            lemma_first_index_none(keys, currency@);
        }
        None
    }

    /// Adds a market (replacing one of the same symbol) and records its
    /// instrument, named after the symbol with ` (Simulated)`.
    pub fn add_market(&mut self, config: SimulatedMarketConfig)
        ensures
            final(self)@ == (EngineView {
                instruments: old(self)@.instruments.push(simulated_instrument(config)),
                markets: upsert(old(self)@.markets, market_at(old(self)@, config.symbol@), fresh_market(config)),
                ..old(self)@
            }),
    {
        let symbol = config.symbol.clone();
        let info = InstrumentInfo {
            symbol: symbol.clone(),
            name: concat(symbol.as_str(), " (Simulated)"),
            currency: config.currency.clone(),
            min_quantity: Decimal::from_u64(1),
            quantity_step: Decimal::from_u64(1),
            price_step: config.price_step,
            lot_size: config.lot_size,
            trading_enabled: true,
        };
        let found = self.find_market(symbol.as_str());
        let market = SimulatedMarket::new(config);
        self.info.instruments.push(info);
        assert(instruments_view(self.info.instruments@) =~= old(self)@.instruments.push(simulated_instrument(config)));
        match found {
            Some(i) => {
                self.markets.set(i, market);
            },
            None => {
                self.markets.push(market);
            },
        }
        assert(markets_view(self.markets@) =~= upsert(
            old(self)@.markets,
            market_at(old(self)@, config.symbol@),
            fresh_market(config),
        ));
    }

    /// Sets the balance of a currency (replacing an existing one).
    pub fn add_balance(&mut self, currency: Currency, amount: Decimal)
        ensures
            final(self)@ == (EngineView {
                balances: upsert(
                    old(self)@.balances,
                    balance_at(old(self)@, currency@),
                    MoneyView { amount: amount@, currency: currency@ },
                ),
                ..old(self)@
            }),
    {
        let found = self.find_balance(currency.code());
        let money = Money::new(amount, currency);
        match found {
            Some(i) => {
                self.balances.set(i, money);
            },
            None => {
                self.balances.push(money);
            },
        }
        assert(balances_view(self.balances@) =~= upsert(
            old(self)@.balances,
            balance_at(old(self)@, money@.currency),
            money@,
        ));
    }

    /// Sets the commission rate.
    pub fn set_commission_rate(&mut self, rate: Decimal)
        ensures
            final(self)@ == (EngineView { commission_rate: rate@, ..old(self)@ }),
    {
        self.commission_rate = rate;
    }

    /// The market of a symbol.
    pub fn market(&self, symbol: &str) -> (r: Option<&SimulatedMarket>)
        ensures
            market_at(self@, symbol@) < 0 ==> r is None,
            market_at(self@, symbol@) >= 0 ==> r is Some && r->Some_0@ == self@.markets[market_at(self@, symbol@)],
    {
        match self.find_market(symbol) {
            Some(i) => Some(&self.markets[i]),
            None => None,
        }
    }

    /// The fill of the order `id` against the market `instrument`, if any
    /// (see [`fill_plan`]).
    fn calculate_fill_info_by_id(&self, id: &str, instrument: &str) -> (r: Option<ExecPlan>)
        requires
            fill_defined(self@, id@, instrument@),
        ensures
            opt_plan(r) == fill_plan(self@, id@, instrument@),
            r matches Some(p) ==> p.order < self.orders@.len(),
    {
        let mi = match self.find_market(instrument) {
            Some(i) => i,
            None => return None,
        };
        let oi = match self.find_order(id) {
            Some(i) => i,
            None => return None,
        };
        let m = &self.markets[mi];
        let o = &self.orders[oi];
        assert(self@.markets[mi as int] == m@);
        assert(self@.orders[oi as int] == o@);
        let price = match o.side() {
            OrderSide::Buy => {
                let ask = m.best_ask();
                match o.price() {
                    Some(l) => {
                        if l.value().ge(&ask.value()) {
                            ask
                        } else {
                            return None;
                        }
                    },
                    None => ask,
                }
            },
            OrderSide::Sell => {
                let bid = m.best_bid();
                match o.price() {
                    Some(l) => {
                        if l.value().le(&bid.value()) {
                            bid
                        } else {
                            return None;
                        }
                    },
                    None => bid,
                }
            },
        };
        assert(fill_price(m@, o@) == Some(price@));
        let q = o.remaining_quantity();
        let value = price.value().mul(&q.value());
        let commission = value.mul(&self.commission_rate);
        let plan = ExecPlan { order: oi, price, quantity: q, commission };
        assert(plan_value(plan.view()) == value@);
        let allowed = match o.side() {
            OrderSide::Buy => {
                let required = value.add(&commission);
                match self.find_balance(plan.price.currency().code()) {
                    Some(bi) => {
                        assert(self@.balances[bi as int] == self.balances@[bi as int]@);
                        self.balances[bi].amount().ge(&required)
                    },
                    None => false,
                }
            },
            OrderSide::Sell => {
                match self.find_position(o.instrument()) {
                    Some(pi) => {
                        assert(self@.positions[pi as int] == self.positions@[pi as int]@);
                        self.positions[pi].quantity().ge(&q)
                    },
                    None => false,
                }
            },
        };
        if allowed {
            Some(plan)
        } else {
            None
        }
    }

    /// Executes a fill (see [`after_fill`]).
    fn execute_fill_by_id(&mut self, plan: ExecPlan)
        requires
            plan_valid(old(self)@, plan.view()),
        ensures
            final(self)@ == after_fill(old(self)@, plan.view()),
    {
        let ghost e = self@;
        let ghost p = plan.view();
        let oi = plan.order;
        assert(e.orders[oi as int] == self.orders@[oi as int]@);
        let side = self.orders[oi].side();
        let order_id = self.orders[oi].id().clone();
        let instrument = owned(self.orders[oi].instrument());
        let currency = plan.price.currency().clone();
        let value = plan.price.value().mul(&plan.quantity.value());
        let commission = Money::new(plan.commission, currency.clone());
        match side {
            OrderSide::Buy => {
                match self.find_balance(currency.code()) {
                    Some(bi) => {
                        assert(e.balances[bi as int] == self.balances@[bi as int]@);
                        let total = value.add(&plan.commission);
                        let remaining = self.balances[bi].amount().sub(&total);
                        self.balances.set(bi, Money::new(remaining, currency.clone()));
                    },
                    None => {},
                }
                let found = self.find_position(instrument.as_str());
                match found {
                    Some(pi) => {
                        assert(e.positions[pi as int] == self.positions@[pi as int]@);
                        let mut pos = self.positions[pi].clone();
                        pos.add(plan.quantity, &plan.price);
                        self.positions.set(pi, pos);
                    },
                    None => {
                        let mut pos = Position::empty(instrument.as_str(), currency.clone());
                        pos.add(plan.quantity, &plan.price);
                        self.positions.push(pos);
                    },
                }
            },
            OrderSide::Sell => {
                match self.find_balance(currency.code()) {
                    Some(bi) => {
                        assert(e.balances[bi as int] == self.balances@[bi as int]@);
                        let net = value.sub(&plan.commission);
                        let cash = self.balances[bi].amount().add(&net);
                        self.balances.set(bi, Money::new(cash, currency.clone()));
                    },
                    None => {},
                }
                match self.find_position(instrument.as_str()) {
                    Some(pi) => {
                        assert(e.positions[pi as int] == self.positions@[pi as int]@);
                        let mut pos = self.positions[pi].clone();
                        pos.reduce(plan.quantity);
                        self.positions.set(pi, pos);
                    },
                    None => {},
                }
            },
        }
        let trade = Trade::new(order_id, instrument.as_str(), side, plan.quantity, plan.price, commission);
        self.trades.push(trade);
        let mut o = self.orders[oi].clone();
        o.fill(plan.quantity);
        self.orders.set(oi, o);
        assert(balances_view(self.balances@) =~= after_fill(e, p).balances);
        assert(positions_view(self.positions@) =~= after_fill(e, p).positions);
        assert(trade_cores(self.trades@) =~= after_fill(e, p).trades);
        assert(orders_view(self.orders@) =~= after_fill(e, p).orders);
    }

    /// Marks the order `id` submitted where it is pending.
    fn mark_submitted_exec(&mut self, id: &OrderId)
        ensures
            final(self)@ == mark_submitted(old(self)@, id@),
    {
        match self.find_order(id.as_str()) {
            Some(i) => {
                assert(self@.orders[i as int] == self.orders@[i as int]@);
                if self.orders[i].status() == OrderStatus::Pending {
                    let mut o = self.orders[i].clone();
                    o.submit();
                    self.orders.set(i, o);
                    assert(orders_view(self.orders@) =~= old(self)@.orders.update(
                        i as int,
                        OrderView { status: status_after_submit(old(self)@.orders[i as int].status), ..old(self)@.orders[i as int] },
                    ));
                }
            },
            None => {},
        }
    }

    /// Fills the order `id` against the market `instrument` where
    /// [`fill_plan`] allows it.
    fn fill_exec(&mut self, id: &OrderId, instrument: &str)
        requires
            fill_defined(old(self)@, id@, instrument@),
        ensures
            final(self)@ == match fill_plan(old(self)@, id@, instrument@) {
                Some(p) => after_fill(old(self)@, p),
                None => old(self)@,
            },
    {
        match self.calculate_fill_info_by_id(id.as_str(), instrument) {
            Some(plan) => {
                proof {
                    lemma_fill_plan_valid(self@, id@, instrument@);
                }
                self.execute_fill_by_id(plan);
            },
            None => {},
        }
    }

    /// One step of order processing (see [`process_one`]).
    fn process_one_exec(&mut self, id: &OrderId, instrument: &str)
        requires
            step_defined(old(self)@, id@, instrument@),
        ensures
            final(self)@ == process_one(old(self)@, id@, instrument@),
    {
        self.mark_submitted_exec(id);
        self.fill_exec(id, instrument);
    }

    /// Whether the arithmetic of filling the order `id` against the market
    /// `instrument` can be done (see [`fill_defined`]).
    fn fill_computable(&self, id: &str, instrument: &str) -> (r: bool)
        ensures
            r == fill_defined(self@, id@, instrument@),
    {
        let mi = match self.find_market(instrument) {
            Some(i) => i,
            None => return true,
        };
        let oi = match self.find_order(id) {
            Some(i) => i,
            None => return true,
        };
        let m = &self.markets[mi];
        let o = &self.orders[oi];
        assert(self@.markets[mi as int] == m@);
        assert(self@.orders[oi as int] == o@);
        let price = match o.side() {
            OrderSide::Buy => {
                let ask = match m.checked_best_ask() {
                    Some(a) => a,
                    None => return false,
                };
                match o.price() {
                    Some(l) => {
                        if l.value().ge(&ask.value()) {
                            ask
                        } else {
                            return true;
                        }
                    },
                    None => ask,
                }
            },
            OrderSide::Sell => {
                let bid = match m.checked_best_bid() {
                    Some(b) => b,
                    None => return false,
                };
                match o.price() {
                    Some(l) => {
                        if l.value().le(&bid.value()) {
                            bid
                        } else {
                            return true;
                        }
                    },
                    None => bid,
                }
            },
        };
        assert(fill_price(m@, o@) == Some(price@));
        let q = o.remaining_quantity();
        let value = match price.value().checked_mul(&q.value()) {
            Some(v) => v,
            None => return false,
        };
        let commission = match value.checked_mul(&self.commission_rate) {
            Some(c) => c,
            None => return false,
        };
        let ghost plan = FillPlan { order: oi as int, price: price@, quantity: q@, commission: commission@ };
        assert(plan_value(plan) == value@);
        match o.side() {
            OrderSide::Buy => {
                let required = match value.checked_add(&commission) {
                    Some(t) => t,
                    None => return false,
                };
                let bi = match self.find_balance(price.currency().code()) {
                    Some(bi) => bi,
                    None => return true,
                };
                assert(self@.balances[bi as int] == self.balances@[bi as int]@);
                if !self.balances[bi].amount().ge(&required) {
                    return true;
                }
                if o.filled_quantity().checked_add(q).is_none() {
                    return false;
                }
                if self.balances[bi].amount().checked_sub(&required).is_none() {
                    return false;
                }
                match self.find_position(o.instrument()) {
                    Some(pi) => {
                        assert(self@.positions[pi as int] == self.positions@[pi as int]@);
                        self.positions[pi].add_computable(q, &price)
                    },
                    None => {
                        let pos = Position::empty(o.instrument(), price.currency().clone());
                        pos.add_computable(q, &price)
                    },
                }
            },
            OrderSide::Sell => {
                let pi = match self.find_position(o.instrument()) {
                    Some(pi) => pi,
                    None => return true,
                };
                assert(self@.positions[pi as int] == self.positions@[pi as int]@);
                if !self.positions[pi].quantity().ge(&q) {
                    return true;
                }
                if o.filled_quantity().checked_add(q).is_none() {
                    return false;
                }
                match self.find_balance(price.currency().code()) {
                    Some(bi) => {
                        assert(self@.balances[bi as int] == self.balances@[bi as int]@);
                        let net = match value.checked_sub(&commission) {
                            Some(n) => n,
                            None => return false,
                        };
                        self.balances[bi].amount().checked_add(&net).is_some()
                    },
                    None => true,
                }
            },
        }
    }

    /// The identifiers and instruments of the active orders, in order.
    fn active_snapshot(&self) -> (r: Vec<(OrderId, String)>)
        ensures
            r@.map_values(|x: (OrderId, String)| (x.0@, x.1@)) == active_orders(self@.orders),
    {
        let ghost s = self@.orders;
        let mut out: Vec<(OrderId, String)> = Vec::new();
        let mut i: usize = 0;
        while i < self.orders.len()
            invariant
                i <= self.orders@.len(),
                s == self@.orders,
                out@.map_values(|x: (OrderId, String)| (x.0@, x.1@)) == active_orders(s.take(i as int)),
            decreases self.orders@.len() - i,
        {
            let ghost prev = out@;
            assert(s.take(i as int + 1).drop_last() =~= s.take(i as int));
            assert(s[i as int] == self.orders@[i as int]@);
            if self.orders[i].status().is_active() {
                out.push((self.orders[i].id().clone(), owned(self.orders[i].instrument())));
                assert(out@.map_values(|x: (OrderId, String)| (x.0@, x.1@)) =~= prev.map_values(
                    |x: (OrderId, String)| (x.0@, x.1@),
                ).push((s[i as int].id, s[i as int].instrument)));
            }
            i = i + 1;
        }
        assert(s.take(self.orders@.len() as int) =~= s);
        out
    }

    /// Processes every order that is active at the start, one after the
    /// other (see [`process_pending`]).
    fn process_pending_orders(&mut self)
        requires
            process_defined(old(self)@),
        ensures
            final(self)@ == process_pending(old(self)@),
    {
        let pending = self.active_snapshot();
        let ghost list = pending@.map_values(|x: (OrderId, String)| (x.0@, x.1@));
        let mut i: usize = 0;
        while i < pending.len()
            invariant
                i <= pending@.len(),
                list == pending@.map_values(|x: (OrderId, String)| (x.0@, x.1@)),
                list == active_orders(old(self)@.orders),
                process_all_defined(old(self)@, list),
                self@ == process_all(old(self)@, list.take(i as int)),
            decreases pending@.len() - i,
        {
            assert(list.take(i as int + 1).drop_last() =~= list.take(i as int));
            assert(list[i as int] == (pending@[i as int].0@, pending@[i as int].1@));
            proof {
                lemma_process_all_defined_step(old(self)@, list, i as int);
            }
            self.process_one_exec(&pending[i].0, pending[i].1.as_str());
            i = i + 1;
        }
        assert(list.take(pending@.len() as int) =~= list);
    }

    /// Processes the active orders as [`process_pending_orders`] does, where
    /// the arithmetic of every step can be done; `false` at the first step
    /// where it cannot, the steps before it done.
    ///
    /// [`process_pending_orders`]: Self::process_pending_orders
    fn try_process_pending_orders(&mut self) -> (r: bool)
        ensures
            r == process_defined(old(self)@),
            r ==> final(self)@ == process_pending(old(self)@),
    {
        let pending = self.active_snapshot();
        let ghost list = pending@.map_values(|x: (OrderId, String)| (x.0@, x.1@));
        let mut i: usize = 0;
        while i < pending.len()
            invariant
                i <= pending@.len(),
                list == pending@.map_values(|x: (OrderId, String)| (x.0@, x.1@)),
                list == active_orders(old(self)@.orders),
                process_all_defined(old(self)@, list.take(i as int)),
                self@ == process_all(old(self)@, list.take(i as int)),
            decreases pending@.len() - i,
        {
            assert(list.take(i as int + 1).drop_last() =~= list.take(i as int));
            assert(list[i as int] == (pending@[i as int].0@, pending@[i as int].1@));
            let ghost before = self@;
            self.mark_submitted_exec(&pending[i].0);
            if !self.fill_computable(pending[i].0.as_str(), pending[i].1.as_str()) {
                proof {
                    assert(!step_defined(before, list[i as int].0, list[i as int].1));
                    if process_all_defined(old(self)@, list) {
                        lemma_process_all_defined_step(old(self)@, list, i as int);
                    }
                }
                return false;
            }
            self.fill_exec(&pending[i].0, pending[i].1.as_str());
            i = i + 1;
        }
        assert(list.take(pending@.len() as int) =~= list);
        true
    }

    /// Advances every market by one tick, then processes the active orders
    /// (see [`tick_spec`]).
    pub fn tick(&mut self)
        requires
            tick_ready(old(self)@),
        ensures
            final(self)@ == tick_spec(old(self)@),
    {
        let ghost before = old(self)@.markets;
        let mut i: usize = 0;
        while i < self.markets.len()
            invariant
                i <= self.markets@.len(),
                self.markets@.len() == before.len(),
                forall|k: int| 0 <= k < before.len() ==> tick_defined(#[trigger] before[k]),
                self@ == (EngineView { markets: self@.markets, ..old(self)@ }),
                forall|k: int| 0 <= k < i ==> #[trigger] self@.markets[k] == after_tick(before[k]),
                forall|k: int| i <= k < before.len() ==> #[trigger] self@.markets[k] == before[k],
            decreases self.markets@.len() - i,
        {
            let ghost prev = self.markets@;
            assert(self@.markets[i as int] == prev[i as int]@);
            assert(tick_defined(before[i as int]));
            self.markets[i].tick();
            assert(markets_view(self.markets@) =~= markets_view(prev).update(i as int, self.markets@[i as int]@));
            i = i + 1;
        }
        assert(self@.markets =~= markets_after_tick(before));
        self.process_pending_orders();
    }

    /// Advances by `ticks` ticks.
    pub fn advance(&mut self, ticks: u64)
        requires
            advance_ready(old(self)@, ticks as nat),
        ensures
            final(self)@ == advance_spec(old(self)@, ticks as nat),
    {
        let mut i: u64 = 0;
        while i < ticks
            invariant
                i <= ticks,
                advance_ready(old(self)@, ticks as nat),
                self@ == advance_spec(old(self)@, i as nat),
            decreases ticks - i,
        {
            proof {
                lemma_advance_ready_prefix(old(self)@, ticks as nat, (i + 1) as nat);
            }
            self.tick();
            i = i + 1;
        }
    }

    /// [`tick`](Self::tick) for any state: `false` where the arithmetic of
    /// the tick overflows (see [`tick_ready`]), the tick done otherwise.
    /// Where a market cannot tick, the markets before it have ticked; where
    /// processing the orders overflows, the steps before it are done.
    pub fn try_tick(&mut self) -> (r: bool)
        ensures
            r == tick_ready(old(self)@),
            r ==> final(self)@ == tick_spec(old(self)@),
    {
        let ghost before = old(self)@.markets;
        let mut i: usize = 0;
        while i < self.markets.len()
            invariant
                i <= self.markets@.len(),
                before == old(self)@.markets,
                self.markets@.len() == before.len(),
                forall|k: int| 0 <= k < i ==> tick_defined(#[trigger] before[k]),
                self@ == (EngineView { markets: self@.markets, ..old(self)@ }),
                forall|k: int| 0 <= k < i ==> #[trigger] self@.markets[k] == after_tick(before[k]),
                forall|k: int| i <= k < before.len() ==> #[trigger] self@.markets[k] == before[k],
            decreases self.markets@.len() - i,
        {
            let ghost prev = self.markets@;
            assert(self@.markets[i as int] == prev[i as int]@);
            if !self.markets[i].try_tick() {
                assert(!tick_defined(old(self)@.markets[i as int]));
                return false;
            }
            assert(markets_view(self.markets@) =~= markets_view(prev).update(i as int, self.markets@[i as int]@));
            i = i + 1;
        }
        assert(self@.markets =~= markets_after_tick(before));
        self.try_process_pending_orders()
    }

    /// [`advance`](Self::advance) for any state: `false` where the
    /// arithmetic of one of the ticks overflows (see [`advance_ready`]), the
    /// ticks done otherwise; the ticks before the overflowing one are done.
    pub fn try_advance(&mut self, ticks: u64) -> (r: bool)
        ensures
            r == advance_ready(old(self)@, ticks as nat),
            r ==> final(self)@ == advance_spec(old(self)@, ticks as nat),
    {
        let mut i: u64 = 0;
        while i < ticks
            invariant
                i <= ticks,
                advance_ready(old(self)@, i as nat),
                self@ == advance_spec(old(self)@, i as nat),
            decreases ticks - i,
        {
            if !self.try_tick() {
                proof {
                    if advance_ready(old(self)@, ticks as nat) {
                        lemma_advance_ready_prefix(old(self)@, ticks as nat, (i + 1) as nat);
                    }
                }
                return false;
            }
            i = i + 1;
        }
        true
    }

    /// Opens the connection.
    pub fn connect(&mut self) -> (r: Result<(), ExchangeError>)
        ensures
            r is Ok,
            final(self)@ == (EngineView { connected: true, info_connected: true, ..old(self)@ }),
    {
        self.connected = true;
        self.info.connected = true;
        Ok(())
    }

    /// Closes the connection.
    pub fn disconnect(&mut self) -> (r: Result<(), ExchangeError>)
        ensures
            r is Ok,
            final(self)@ == (EngineView { connected: false, info_connected: false, ..old(self)@ }),
    {
        self.connected = false;
        self.info.connected = false;
        Ok(())
    }

    /// Whether the connection is open.
    pub fn is_connected(&self) -> (r: bool)
        ensures
            r == self@.connected,
    {
        self.connected
    }

    /// Information about the exchange.
    pub fn info(&self) -> (r: &ExchangeInfo)
        ensures
            r.name@ == self@.name,
            r.id@ == self@.id,
            r.connected == self@.info_connected,
            instruments_view(r.instruments@) == self@.instruments,
    {
        &self.info
    }

    /// The exchange name.
    pub fn name(&self) -> (r: &str)
        ensures
            r@ == self@.name,
    {
        self.info.name.as_str()
    }

    /// The exchange identifier.
    pub fn id(&self) -> (r: &str)
        ensures
            r@ == self@.id,
    {
        self.info.id.as_str()
    }

    /// The order book of a market: its generated bid and ask levels, sorted.
    /// An unknown instrument is an error.
    pub fn get_order_book(&self, instrument: &str) -> (r: Result<OrderBook, ExchangeError>)
        requires
            market_at(self@, instrument@) >= 0 ==> book_defined(self@.markets[market_at(self@, instrument@)]),
        ensures
            market_at(self@, instrument@) < 0 ==> instrument_not_found(r, instrument@),
            market_at(self@, instrument@) >= 0 ==> {
                let m = self@.markets[market_at(self@, instrument@)];
                &&& r is Ok
                &&& r->Ok_0@ == (BookView {
                    instrument: instrument@,
                    bids: sort_levels_spec(levels_spec(m, false), true),
                    asks: sort_levels_spec(levels_spec(m, true), false),
                })
            },
    {
        let mi = match self.find_market(instrument) {
            Some(i) => i,
            None => return Err(ExchangeError::InstrumentNotFound(owned(instrument))),
        };
        let m = &self.markets[mi];
        assert(self@.markets[mi as int] == m@);
        let bids = m.generate_bids();
        let asks = m.generate_asks();
        Ok(OrderBook::with_levels(instrument, bids, asks))
    }

    /// [`get_order_book`](Self::get_order_book) for any state: `None` where
    /// generating the market's levels overflows, the same result otherwise.
    pub fn try_get_order_book(&self, instrument: &str) -> (r: Option<Result<OrderBook, ExchangeError>>)
        ensures
            market_at(self@, instrument@) < 0 ==> r is Some && instrument_not_found(r->Some_0, instrument@),
            market_at(self@, instrument@) >= 0 ==> {
                let m = self@.markets[market_at(self@, instrument@)];
                &&& !book_defined(m) ==> r is None
                &&& book_defined(m) ==> r is Some && r->Some_0 is Ok && r->Some_0->Ok_0@ == (BookView {
                    instrument: instrument@,
                    bids: sort_levels_spec(levels_spec(m, false), true),
                    asks: sort_levels_spec(levels_spec(m, true), false),
                })
            },
    {
        let mi = match self.find_market(instrument) {
            Some(i) => i,
            None => return Some(Err(ExchangeError::InstrumentNotFound(owned(instrument)))),
        };
        let m = &self.markets[mi];
        assert(self@.markets[mi as int] == m@);
        let bids = match m.checked_generate_bids() {
            Some(b) => b,
            None => return None,
        };
        let asks = match m.checked_generate_asks() {
            Some(a) => a,
            None => return None,
        };
        Some(Ok(OrderBook::with_levels(instrument, bids, asks)))
    }

    /// The first instrument record with the symbol.
    pub fn get_instrument_info(&self, instrument: &str) -> (r: Result<InstrumentInfo, ExchangeError>)
        ensures
            (exists|i: int| 0 <= i < self@.instruments.len() && self@.instruments[i].symbol == instrument@)
                ==> r is Ok,
            r is Ok ==> exists|i: int|
                0 <= i < self@.instruments.len() && self@.instruments[i].symbol == instrument@ && r->Ok_0@
                    == self@.instruments[i] && forall|j: int| 0 <= j < i ==> self@.instruments[j].symbol != instrument@,
            r is Err ==> instrument_not_found(r, instrument@),
    {
        let mut i: usize = 0;
        while i < self.info.instruments.len()
            invariant
                i <= self.info.instruments@.len(),
                forall|j: int| 0 <= j < i ==> self@.instruments[j].symbol != instrument@,
            decreases self.info.instruments@.len() - i,
        {
            assert(self@.instruments[i as int] == self.info.instruments@[i as int]@);
            if str_eq(self.info.instruments[i].symbol.as_str(), instrument) {
                return Ok(self.info.instruments[i].clone());
            }
            i = i + 1;
        }
        Err(ExchangeError::InstrumentNotFound(owned(instrument)))
    }

    /// All instrument records.
    pub fn list_instruments(&self) -> (r: Result<Vec<InstrumentInfo>, ExchangeError>)
        ensures
            r is Ok && instruments_view(r->Ok_0@) == self@.instruments,
    {
        Ok(clone_instruments(&self.info.instruments))
    }

    /// Submits an order. It is refused (see [`refusal`]) when its instrument
    /// has no market, when a buy costs more than the cash in the market's
    /// currency (at its limit price, or the best ask for a market order), or
    /// when a sell exceeds the position. Otherwise it is marked submitted,
    /// stored under its identifier, the active orders are processed, and the
    /// stored order is returned.
    pub fn submit_order(&mut self, order: Order) -> (r: Result<Order, ExchangeError>)
        requires
            submit_defined(old(self)@, order@),
        ensures
            refusal(old(self)@, order@) matches Some(why) ==> r is Err && refusal_error(r->Err_0, why, order@.instrument)
                && final(self)@ == old(self)@,
            refusal(old(self)@, order@) is None ==> {
                let e = process_pending(with_submitted(old(self)@, order@));
                &&& final(self)@ == e
                &&& r is Ok
                &&& order_at(e, order@.id) >= 0
                &&& r->Ok_0@ == e.orders[order_at(e, order@.id)]
            },
    {
        let ghost ov = order@;
        let mut order = order;
        let mi = match self.find_market(order.instrument()) {
            Some(i) => i,
            None => return Err(ExchangeError::InstrumentNotFound(owned(order.instrument()))),
        };
        let m = &self.markets[mi];
        assert(self@.markets[mi as int] == m@);
        match order.side() {
            OrderSide::Buy => {
                let ask = m.best_ask();
                let price = match order.price() {
                    Some(p) => p.value(),
                    None => ask.value(),
                };
                let required = price.mul(&order.quantity().value());
                let available = match self.find_balance(m.config().currency.code()) {
                    Some(bi) => {
                        assert(self@.balances[bi as int] == self.balances@[bi as int]@);
                        self.balances[bi].amount()
                    },
                    None => Decimal::zero(),
                };
                if available.lt(&required) {
                    return Err(
                        ExchangeError::InsufficientFunds {
                            required: required.to_string(),
                            available: available.to_string(),
                        },
                    );
                }
            },
            OrderSide::Sell => {
                let required = order.quantity();
                let available = match self.find_position(order.instrument()) {
                    Some(pi) => {
                        assert(self@.positions[pi as int] == self.positions@[pi as int]@);
                        self.positions[pi].quantity()
                    },
                    None => Quantity::zero(),
                };
                if available.lt(&required) {
                    return Err(
                        ExchangeError::InsufficientPosition {
                            required: required.to_string(),
                            available: available.to_string(),
                        },
                    );
                }
            },
        }
        order.submit();
        let stored = order.clone();
        match self.find_order(order.id().as_str()) {
            Some(i) => {
                self.orders.set(i, stored);
            },
            None => {
                self.orders.push(stored);
            },
        }
        assert(orders_view(self.orders@) =~= with_submitted(old(self)@, ov).orders);
        assert(self@ == with_submitted(old(self)@, ov));
        proof {
            lemma_first_index(order_keys(self@.orders), ov.id);
            assert(order_keys(self@.orders)[index_of_submitted(old(self)@, ov)] == ov.id);
        }
        self.process_pending_orders();
        proof {
            lemma_process_keeps_order_keys(with_submitted(old(self)@, ov));
            lemma_first_index(order_keys(self@.orders), ov.id);
        }
        let i = self.find_order(order.id().as_str()).unwrap();
        assert(self@.orders[i as int] == self.orders@[i as int]@);
        Ok(self.orders[i].clone())
    }

    /// [`submit_order`](Self::submit_order) for any state: `None` where the
    /// decimal arithmetic of the submission overflows (see
    /// [`submit_defined`]), and otherwise the result of `submit_order`, with
    /// the same effect. An overflow in the funds check leaves the engine as
    /// it was; one in processing the active orders leaves the order stored
    /// and the steps before the overflowing one done.
    pub fn try_submit_order(&mut self, order: Order) -> (r: Option<Result<Order, ExchangeError>>)
        ensures
            !submit_defined(old(self)@, order@) ==> r is None,
            submit_defined(old(self)@, order@) ==> r is Some,
            submit_defined(old(self)@, order@) ==> (refusal(old(self)@, order@) matches Some(why) ==> r->Some_0 is Err
                && refusal_error(r->Some_0->Err_0, why, order@.instrument) && final(self)@ == old(self)@),
            refusal(old(self)@, order@) is None && submit_defined(old(self)@, order@) ==> {
                let e = process_pending(with_submitted(old(self)@, order@));
                &&& final(self)@ == e
                &&& r->Some_0 is Ok
                &&& order_at(e, order@.id) >= 0
                &&& r->Some_0->Ok_0@ == e.orders[order_at(e, order@.id)]
            },
    {
        let ghost ov = order@;
        let mut order = order;
        let mi = match self.find_market(order.instrument()) {
            Some(i) => i,
            None => return Some(Err(ExchangeError::InstrumentNotFound(owned(order.instrument())))),
        };
        let m = &self.markets[mi];
        assert(self@.markets[mi as int] == m@);
        match order.side() {
            OrderSide::Buy => {
                let ask = match m.checked_best_ask() {
                    Some(a) => a,
                    None => return None,
                };
                let price = match order.price() {
                    Some(p) => p.value(),
                    None => ask.value(),
                };
                let required = match price.checked_mul(&order.quantity().value()) {
                    Some(x) => x,
                    None => return None,
                };
                let available = match self.find_balance(m.config().currency.code()) {
                    Some(bi) => {
                        assert(self@.balances[bi as int] == self.balances@[bi as int]@);
                        self.balances[bi].amount()
                    },
                    None => Decimal::zero(),
                };
                if available.lt(&required) {
                    return Some(
                        Err(
                            ExchangeError::InsufficientFunds {
                                required: required.to_string(),
                                available: available.to_string(),
                            },
                        ),
                    );
                }
            },
            OrderSide::Sell => {
                let required = order.quantity();
                let available = match self.find_position(order.instrument()) {
                    Some(pi) => {
                        assert(self@.positions[pi as int] == self.positions@[pi as int]@);
                        self.positions[pi].quantity()
                    },
                    None => Quantity::zero(),
                };
                if available.lt(&required) {
                    return Some(
                        Err(
                            ExchangeError::InsufficientPosition {
                                required: required.to_string(),
                                available: available.to_string(),
                            },
                        ),
                    );
                }
            },
        }
        order.submit();
        let stored = order.clone();
        match self.find_order(order.id().as_str()) {
            Some(i) => {
                self.orders.set(i, stored);
            },
            None => {
                self.orders.push(stored);
            },
        }
        assert(orders_view(self.orders@) =~= with_submitted(old(self)@, ov).orders);
        assert(self@ == with_submitted(old(self)@, ov));
        proof {
            lemma_first_index(order_keys(self@.orders), ov.id);
            assert(order_keys(self@.orders)[index_of_submitted(old(self)@, ov)] == ov.id);
        }
        if !self.try_process_pending_orders() {
            return None;
        }
        proof {
            lemma_process_keeps_order_keys(with_submitted(old(self)@, ov));
            lemma_first_index(order_keys(self@.orders), ov.id);
        }
        let i = self.find_order(order.id().as_str()).unwrap();
        assert(self@.orders[i as int] == self.orders@[i as int]@);
        Some(Ok(self.orders[i].clone()))
    }

    /// Cancels an active order. An unknown order, or one that is already
    /// filled, cancelled, rejected or expired, is an error.
    pub fn cancel_order(&mut self, order_id: &OrderId) -> (r: Result<(), ExchangeError>)
        ensures
            order_at(old(self)@, order_id@) < 0 ==> order_not_found(r, order_id@) && final(self)@ == old(self)@,
            order_at(old(self)@, order_id@) >= 0 && status_terminal(
                old(self)@.orders[order_at(old(self)@, order_id@)].status,
            ) ==> order_rejected(r, "Cannot cancel a completed order"@) && final(self)@ == old(self)@,
            order_at(old(self)@, order_id@) >= 0 && !status_terminal(
                old(self)@.orders[order_at(old(self)@, order_id@)].status,
            ) ==> r is Ok && final(self)@ == (EngineView {
                orders: old(self)@.orders.update(
                    order_at(old(self)@, order_id@),
                    OrderView {
                        status: status_after_cancel(old(self)@.orders[order_at(old(self)@, order_id@)].status),
                        ..old(self)@.orders[order_at(old(self)@, order_id@)]
                    },
                ),
                ..old(self)@
            }),
    {
        let i = match self.find_order(order_id.as_str()) {
            Some(i) => i,
            None => return Err(ExchangeError::OrderNotFound(order_id.clone())),
        };
        assert(self@.orders[i as int] == self.orders@[i as int]@);
        if self.orders[i].status().is_terminal() {
            return Err(ExchangeError::OrderRejected(owned("Cannot cancel a completed order")));
        }
        let mut o = self.orders[i].clone();
        o.cancel();
        self.orders.set(i, o);
        assert(orders_view(self.orders@) =~= old(self)@.orders.update(
            i as int,
            OrderView { status: status_after_cancel(old(self)@.orders[i as int].status), ..old(self)@.orders[i as int] },
        ));
        Ok(())
    }

    /// The order with the identifier.
    pub fn get_order(&self, order_id: &OrderId) -> (r: Result<Order, ExchangeError>)
        ensures
            order_at(self@, order_id@) < 0 ==> order_not_found(r, order_id@),
            order_at(self@, order_id@) >= 0 ==> r is Ok && r->Ok_0@ == self@.orders[order_at(self@, order_id@)],
    {
        match self.find_order(order_id.as_str()) {
            Some(i) => {
                assert(self@.orders[i as int] == self.orders@[i as int]@);
                Ok(self.orders[i].clone())
            },
            None => Err(ExchangeError::OrderNotFound(order_id.clone())),
        }
    }

    /// The active orders, in order.
    pub fn list_active_orders(&self) -> (r: Result<Vec<Order>, ExchangeError>)
        ensures
            r is Ok && orders_view(r->Ok_0@) == active_order_views(self@.orders),
    {
        let ghost s = self@.orders;
        let mut out: Vec<Order> = Vec::new();
        let mut i: usize = 0;
        while i < self.orders.len()
            invariant
                i <= self.orders@.len(),
                s == self@.orders,
                orders_view(out@) == active_order_views(s.take(i as int)),
            decreases self.orders@.len() - i,
        {
            let ghost prev = out@;
            assert(s.take(i as int + 1).drop_last() =~= s.take(i as int));
            assert(s[i as int] == self.orders@[i as int]@);
            if self.orders[i].status().is_active() {
                out.push(self.orders[i].clone());
                assert(orders_view(out@) =~= orders_view(prev).push(s[i as int]));
            }
            i = i + 1;
        }
        assert(s.take(self.orders@.len() as int) =~= s);
        Ok(out)
    }

    /// The orders of an instrument, in order.
    pub fn list_orders_for_instrument(&self, instrument: &str) -> (r: Result<Vec<Order>, ExchangeError>)
        ensures
            r is Ok && orders_view(r->Ok_0@) == orders_of(self@.orders, instrument@),
    {
        let ghost s = self@.orders;
        let mut out: Vec<Order> = Vec::new();
        let mut i: usize = 0;
        while i < self.orders.len()
            invariant
                i <= self.orders@.len(),
                s == self@.orders,
                orders_view(out@) == orders_of(s.take(i as int), instrument@),
            decreases self.orders@.len() - i,
        {
            let ghost prev = out@;
            assert(s.take(i as int + 1).drop_last() =~= s.take(i as int));
            assert(s[i as int] == self.orders@[i as int]@);
            if str_eq(self.orders[i].instrument(), instrument) {
                out.push(self.orders[i].clone());
                assert(orders_view(out@) =~= orders_view(prev).push(s[i as int]));
            }
            i = i + 1;
        }
        assert(s.take(self.orders@.len() as int) =~= s);
        Ok(out)
    }

    /// All positions.
    pub fn get_positions(&self) -> (r: Result<Vec<Position>, ExchangeError>)
        ensures
            r is Ok && positions_view(r->Ok_0@) == self@.positions,
    {
        let mut out: Vec<Position> = Vec::new();
        let mut i: usize = 0;
        while i < self.positions.len()
            invariant
                i <= self.positions@.len(),
                out@.len() == i,
                forall|k: int| 0 <= k < i ==> #[trigger] out@[k]@ == self.positions@[k]@,
            decreases self.positions@.len() - i,
        {
            out.push(self.positions[i].clone());
            i = i + 1;
        }
        assert(positions_view(out@) =~= self@.positions);
        Ok(out)
    }

    /// The position in an instrument.
    pub fn get_position(&self, instrument: &str) -> (r: Result<Position, ExchangeError>)
        ensures
            position_at(self@, instrument@) < 0 ==> instrument_not_found(r, instrument@),
            position_at(self@, instrument@) >= 0 ==> r is Ok && r->Ok_0@ == self@.positions[position_at(
                self@,
                instrument@,
            )],
    {
        match self.find_position(instrument) {
            Some(i) => {
                assert(self@.positions[i as int] == self.positions@[i as int]@);
                Ok(self.positions[i].clone())
            },
            None => Err(ExchangeError::InstrumentNotFound(owned(instrument))),
        }
    }

    /// The cash balance of a currency.
    pub fn get_balance(&self, currency: &Currency) -> (r: Result<Money, ExchangeError>)
        ensures
            balance_at(self@, currency@) < 0 ==> instrument_not_found(r, currency@),
            balance_at(self@, currency@) >= 0 ==> r is Ok && r->Ok_0@ == self@.balances[balance_at(self@, currency@)],
    {
        match self.find_balance(currency.code()) {
            Some(i) => {
                assert(self@.balances[i as int] == self.balances@[i as int]@);
                Ok(self.balances[i].clone())
            },
            None => Err(ExchangeError::InstrumentNotFound(owned(currency.code()))),
        }
    }

    /// All cash balances.
    pub fn get_balances(&self) -> (r: Result<Vec<Money>, ExchangeError>)
        ensures
            r is Ok && balances_view(r->Ok_0@) == self@.balances,
    {
        let mut out: Vec<Money> = Vec::new();
        let mut i: usize = 0;
        while i < self.balances.len()
            invariant
                i <= self.balances@.len(),
                out@.len() == i,
                forall|k: int| 0 <= k < i ==> #[trigger] out@[k]@ == self.balances@[k]@,
            decreases self.balances@.len() - i,
        {
            out.push(self.balances[i].clone());
            i = i + 1;
        }
        assert(balances_view(out@) =~= self@.balances);
        Ok(out)
    }

    /// The last `limit` trades, oldest first.
    pub fn get_trades(&self, limit: usize) -> (r: Result<Vec<Trade>, ExchangeError>)
        ensures
            r is Ok && trade_cores(r->Ok_0@) == last_n(self@.trades, limit as nat),
    {
        let start = self.trades.len().saturating_sub(limit);
        let mut out: Vec<Trade> = Vec::new();
        let mut i: usize = start;
        while i < self.trades.len()
            invariant
                start <= i <= self.trades@.len(),
                start == (if limit >= self.trades@.len() { 0 } else { self.trades@.len() - limit }),
                out@.len() == i - start,
                forall|k: int| 0 <= k < i - start ==> #[trigger] trade_core(out@[k]@) == trade_core(
                    self.trades@[start + k]@,
                ),
            decreases self.trades@.len() - i,
        {
            out.push(self.trades[i].clone());
            i = i + 1;
        }
        assert(trade_cores(out@) =~= last_n(self@.trades, limit as nat));
        Ok(out)
    }

    /// The last `limit` trades of an instrument, oldest first.
    pub fn get_trades_for_instrument(&self, instrument: &str, limit: usize) -> (r: Result<Vec<Trade>, ExchangeError>)
        ensures
            r is Ok && trade_cores(r->Ok_0@) == last_n(trades_of(self@.trades, instrument@), limit as nat),
    {
        let ghost s = self@.trades;
        let mut selected: Vec<Trade> = Vec::new();
        let mut i: usize = 0;
        while i < self.trades.len()
            invariant
                i <= self.trades@.len(),
                s == self@.trades,
                trade_cores(selected@) == trades_of(s.take(i as int), instrument@),
            decreases self.trades@.len() - i,
        {
            let ghost prev = selected@;
            assert(s.take(i as int + 1).drop_last() =~= s.take(i as int));
            assert(s[i as int] == trade_core(self.trades@[i as int]@));
            if str_eq(self.trades[i].instrument(), instrument) {
                selected.push(self.trades[i].clone());
                assert(trade_cores(selected@) =~= trade_cores(prev).push(s[i as int]));
            }
            i = i + 1;
        }
        assert(s.take(self.trades@.len() as int) =~= s);
        let ghost all = trade_cores(selected@);
        let start = selected.len().saturating_sub(limit);
        let mut out: Vec<Trade> = Vec::new();
        let mut j: usize = start;
        while j < selected.len()
            invariant
                start <= j <= selected@.len(),
                all == trade_cores(selected@),
                start == (if limit >= selected@.len() { 0 } else { selected@.len() - limit }),
                out@.len() == j - start,
                forall|k: int| 0 <= k < j - start ==> #[trigger] trade_core(out@[k]@) == trade_core(
                    selected@[start + k]@,
                ),
            decreases selected@.len() - j,
        {
            out.push(selected[j].clone());
            j = j + 1;
        }
        assert(trade_cores(out@) =~= last_n(all, limit as nat));
        Ok(out)
    }

    /// The market of a symbol, for changing it.
    pub fn market_mut(&mut self, symbol: &str) -> (r: Option<&mut SimulatedMarket>)
        ensures
            market_at(old(self)@, symbol@) < 0 ==> r is None && final(self)@ == old(self)@,
            market_at(old(self)@, symbol@) >= 0 ==> r is Some && (*r.unwrap())@ == old(self)@.markets[market_at(
                old(self)@,
                symbol@,
            )] && final(self)@ == (EngineView {
                markets: old(self)@.markets.update(market_at(old(self)@, symbol@), (*final(r.unwrap()))@),
                ..old(self)@
            }),
    {
        broadcast use lemma_markets_view_update;

        match self.find_market(symbol) {
            Some(i) => {
                assert(self@.markets[i as int] == self.markets@[i as int]@);
                Some(&mut self.markets[i])
            },
            None => None,
        }
    }

    /// The trades so far, oldest first.
    pub fn trade_history(&self) -> (r: &[Trade])
        ensures
            trade_cores(r@) == self@.trades,
    {
        self.trades.as_slice()
    }
}

/// The engine after the order at `id` is cancelled.
pub open spec fn after_cancel(e: EngineView, id: Seq<char>) -> EngineView {
    let i = order_at(e, id);
    EngineView {
        orders: e.orders.update(i, OrderView { status: status_after_cancel(e.orders[i].status), ..e.orders[i] }),
        ..e
    }
}

/// An order cancelled once is found again and is finished, so cancelling it
/// a second time is refused and changes nothing.
pub proof fn lemma_cancel_twice_refused(e: EngineView, id: Seq<char>)
    requires
        order_at(e, id) >= 0,
        !status_terminal(e.orders[order_at(e, id)].status),
    ensures
        order_at(after_cancel(e, id), id) == order_at(e, id),
        status_terminal(after_cancel(e, id).orders[order_at(e, id)].status),
        after_cancel(e, id).balances == e.balances,
        after_cancel(e, id).positions == e.positions,
        after_cancel(e, id).trades == e.trades,
{
    lemma_first_index(order_keys(e.orders), id);
    assert(order_keys(after_cancel(e, id).orders) =~= order_keys(e.orders));
}

/// Each market symbol, order identifier, position instrument and balance
/// currency occurs at most once: the engine keys each of them as a map does.
pub open spec fn keys_distinct(e: EngineView) -> bool {
    &&& market_keys(e.markets).no_duplicates()
    &&& order_keys(e.orders).no_duplicates()
    &&& position_keys(e.positions).no_duplicates()
    &&& balance_keys(e.balances).no_duplicates()
}

/// A fill keeps every key once and the order and market keys as they are.
proof fn lemma_after_fill_keys(e: EngineView, p: FillPlan)
    requires
        keys_distinct(e),
        0 <= p.order < e.orders.len(),
    ensures
        keys_distinct(after_fill(e, p)),
        order_keys(after_fill(e, p).orders) == order_keys(e.orders),
        market_keys(after_fill(e, p).markets) == market_keys(e.markets),
{
    let o = e.orders[p.order];
    let currency = p.price.currency;
    let bi = balance_at(e, currency);
    let pi = position_at(e, o.instrument);
    let f = after_fill(e, p);
    lemma_first_index(balance_keys(e.balances), currency);
    lemma_first_index(position_keys(e.positions), o.instrument);
    assert(order_keys(f.orders) =~= order_keys(e.orders));
    assert(market_keys(f.markets) =~= market_keys(e.markets));
    match o.side {
        OrderSide::Buy => {
            assert(balance_keys(f.balances) =~= balance_keys(e.balances));
            let np = position_after_add(position_for_buy(e, o.instrument, currency), p.quantity, p.price.value);
            assert(np.instrument == o.instrument);
            if pi >= 0 {
                assert(position_keys(f.positions) =~= position_keys(e.positions));
            } else {
                assert(position_keys(f.positions) =~= position_keys(e.positions).push(o.instrument));
                lemma_push_new_key(position_keys(e.positions), o.instrument);
            }
        },
        OrderSide::Sell => {
            assert(balance_keys(f.balances) =~= balance_keys(e.balances));
            assert(position_keys(f.positions) =~= position_keys(e.positions));
        },
    }
}

/// Processing one order keeps every key once.
proof fn lemma_process_one_distinct(e: EngineView, id: Seq<char>, instrument: Seq<char>)
    requires
        keys_distinct(e),
    ensures
        keys_distinct(process_one(e, id, instrument)),
        market_keys(process_one(e, id, instrument).markets) == market_keys(e.markets),
{
    let oi = order_at(e, id);
    lemma_first_index(order_keys(e.orders), id);
    let e1 = mark_submitted(e, id);
    assert(order_keys(e1.orders) =~= order_keys(e.orders));
    match fill_plan(e1, id, instrument) {
        Some(p) => {
            lemma_fill_plan_shape(e1, id, instrument);
            lemma_after_fill_keys(e1, p);
        },
        None => {},
    }
}

/// Processing orders one after the other keeps every key once.
proof fn lemma_process_all_distinct(e: EngineView, pending: Seq<(Seq<char>, Seq<char>)>)
    requires
        keys_distinct(e),
    ensures
        keys_distinct(process_all(e, pending)),
        market_keys(process_all(e, pending).markets) == market_keys(e.markets),
    decreases pending.len(),
{
    if pending.len() > 0 {
        lemma_process_all_distinct(e, pending.drop_last());
        lemma_process_one_distinct(process_all(e, pending.drop_last()), pending.last().0, pending.last().1);
    }
}

/// Ticking keeps every key once.
proof fn lemma_tick_distinct(e: EngineView)
    requires
        keys_distinct(e),
    ensures
        keys_distinct(tick_spec(e)),
{
    let m = EngineView { markets: markets_after_tick(e.markets), ..e };
    assert(market_keys(m.markets) =~= market_keys(e.markets));
    lemma_process_all_distinct(m, active_orders(m.orders));
}

/// Ticking `n` times keeps every key once.
proof fn lemma_advance_distinct(e: EngineView, n: nat)
    requires
        keys_distinct(e),
    ensures
        keys_distinct(advance_spec(e, n)),
    decreases n,
{
    if n > 0 {
        lemma_advance_distinct(e, (n - 1) as nat);
        lemma_tick_distinct(advance_spec(e, (n - 1) as nat));
    }
}

/// The engine keeps each market symbol, order identifier, position
/// instrument and balance currency once, as the maps of a keyed store do:
/// a new engine has no keys, and adding a market or a balance, submitting an
/// order (with the processing that follows), cancelling an order, ticking
/// and advancing all keep every key once.
pub proof fn lemma_keys_stay_distinct(
    e: EngineView,
    config: SimulatedMarketConfig,
    currency: Seq<char>,
    amount: DecimalView,
    o: OrderView,
    id: Seq<char>,
    n: nat,
)
    requires
        keys_distinct(e),
    ensures
        keys_distinct(
            EngineView {
                instruments: e.instruments.push(simulated_instrument(config)),
                markets: upsert(e.markets, market_at(e, config.symbol@), fresh_market(config)),
                ..e
            },
        ),
        keys_distinct(
            EngineView {
                balances: upsert(e.balances, balance_at(e, currency), MoneyView { amount, currency }),
                ..e
            },
        ),
        keys_distinct(process_pending(with_submitted(e, o))),
        order_at(e, id) >= 0 ==> keys_distinct(after_cancel(e, id)),
        keys_distinct(tick_spec(e)),
        keys_distinct(advance_spec(e, n)),
{
    let mi = market_at(e, config.symbol@);
    lemma_first_index(market_keys(e.markets), config.symbol@);
    let em = EngineView {
        instruments: e.instruments.push(simulated_instrument(config)),
        markets: upsert(e.markets, mi, fresh_market(config)),
        ..e
    };
    if mi >= 0 {
        assert(market_keys(em.markets) =~= market_keys(e.markets));
    } else {
        assert(market_keys(em.markets) =~= market_keys(e.markets).push(config.symbol@));
        lemma_push_new_key(market_keys(e.markets), config.symbol@);
    }
    let bi = balance_at(e, currency);
    lemma_first_index(balance_keys(e.balances), currency);
    let eb = EngineView { balances: upsert(e.balances, bi, MoneyView { amount, currency }), ..e };
    if bi >= 0 {
        assert(balance_keys(eb.balances) =~= balance_keys(e.balances));
    } else {
        assert(balance_keys(eb.balances) =~= balance_keys(e.balances).push(currency));
        lemma_push_new_key(balance_keys(e.balances), currency);
    }
    let oi = order_at(e, o.id);
    lemma_first_index(order_keys(e.orders), o.id);
    let es = with_submitted(e, o);
    if oi >= 0 {
        assert(order_keys(es.orders) =~= order_keys(e.orders));
    } else {
        assert(order_keys(es.orders) =~= order_keys(e.orders).push(o.id));
        lemma_push_new_key(order_keys(e.orders), o.id);
    }
    lemma_process_all_distinct(es, active_orders(es.orders));
    if order_at(e, id) >= 0 {
        lemma_first_index(order_keys(e.orders), id);
        assert(order_keys(after_cancel(e, id).orders) =~= order_keys(e.orders));
    }
    lemma_tick_distinct(e);
    lemma_advance_distinct(e, n);
}

/// The numbers a fill reads are well formed, its quantity is not below zero,
/// and its arithmetic is unrounded: price times quantity; for a buy the cost
/// plus commission and the balance less that (where there is a balance), and
/// the position plus the quantity; for a sell the proceeds less commission
/// and the balance plus them (where there is a balance), and the position
/// less the quantity (where there is a position).
pub open spec fn fill_exact(e: EngineView, p: FillPlan) -> bool {
    let o = e.orders[p.order];
    let bi = balance_at(e, p.price.currency);
    let pi = position_at(e, o.instrument);
    let value = plan_value(p);
    &&& p.price.value.wf()
    &&& p.quantity.wf()
    &&& p.quantity.mantissa >= 0
    &&& p.commission.wf()
    &&& mul_fits(p.price.value, p.quantity)
    &&& bi >= 0 ==> e.balances[bi].amount.wf()
    &&& pi >= 0 ==> e.positions[pi].quantity.wf()
    &&& match o.side {
        OrderSide::Buy => {
            &&& bi >= 0 ==> add_fits(value, p.commission) && sub_fits(
                e.balances[bi].amount,
                sum_of(value, p.commission),
            )
            &&& add_fits(position_for_buy(e, o.instrument, p.price.currency).quantity, p.quantity)
        },
        OrderSide::Sell => {
            &&& pi >= 0 ==> sub_fits(e.positions[pi].quantity, p.quantity)
            &&& bi >= 0 ==> sub_fits(value, p.commission) && add_fits(
                e.balances[bi].amount,
                difference_of(value, p.commission),
            )
        },
    }
}

/// A key appended to keys where it is new is found at the end.
proof fn lemma_first_index_pushed(keys: Seq<Seq<char>>, k: Seq<char>)
    requires
        first_index(keys, k) < 0,
    ensures
        first_index(keys.push(k), k) == keys.len(),
{
    assert(keys.push(k).drop_last() =~= keys);
}

/// A fill moves cash and the position together, and records one trade: a buy
/// takes price times quantity plus commission from the cash in the price's
/// currency (where it has a balance) and adds the quantity to the position in
/// the instrument (opening it where needed); a sell takes the quantity from
/// the position, never below zero (where there is a position), and adds
/// price times quantity less commission to the cash (where the currency has a
/// balance). This holds where the fill's arithmetic is unrounded.
#[verifier::spinoff_prover]
pub proof fn lemma_fill_moves_cash_and_position(e: EngineView, p: FillPlan)
    requires
        0 <= p.order < e.orders.len(),
        fill_exact(e, p),
    ensures
        ({
            let o = e.orders[p.order];
            let f = after_fill(e, p);
            let cur = p.price.currency;
            let value = plan_value(p).val();
            &&& f.trades.len() == e.trades.len() + 1
            &&& o.side is Buy ==> {
                &&& available_cash(f, cur).val() == available_cash(e, cur).val() - (if balance_at(e, cur) >= 0 {
                    value + p.commission.val()
                } else {
                    0
                })
                &&& held_quantity(f, o.instrument).val() == held_quantity(e, o.instrument).val() + p.quantity.val()
            }
            &&& o.side is Sell ==> {
                &&& available_cash(f, cur).val() == available_cash(e, cur).val() + (if balance_at(e, cur) >= 0 {
                    value - p.commission.val()
                } else {
                    0
                })
                &&& held_quantity(f, o.instrument).val() == (if held_quantity(e, o.instrument).val()
                    >= p.quantity.val() {
                    held_quantity(e, o.instrument).val() - p.quantity.val()
                } else {
                    0
                })
            }
        }),
{
    let o = e.orders[p.order];
    let f = after_fill(e, p);
    let cur = p.price.currency;
    let bi = balance_at(e, cur);
    let pi = position_at(e, o.instrument);
    let v = plan_value(p);
    lemma_first_index(balance_keys(e.balances), cur);
    lemma_first_index(position_keys(e.positions), o.instrument);
    assert(v == exact_product(p.price.value, p.quantity));
    assert(v.wf());
    match o.side {
        OrderSide::Buy => {
            assert(balance_keys(f.balances) =~= balance_keys(e.balances));
            if bi >= 0 {
                lemma_exact_sum_value(v, p.commission);
                let req = sum_of(v, p.commission);
                assert(req.wf());
                lemma_exact_difference_value(e.balances[bi].amount, req);
            }
            let pos = position_for_buy(e, o.instrument, cur);
            let np = position_after_add(pos, p.quantity, p.price.value);
            if pi >= 0 {
                assert(position_keys(f.positions) =~= position_keys(e.positions));
            } else {
                assert(position_keys(f.positions) =~= position_keys(e.positions).push(o.instrument));
                lemma_first_index_pushed(position_keys(e.positions), o.instrument);
                assert(0 * crate::types::decimal::pow10(28) == 0);
            }
            assert(pos.quantity.wf());
            lemma_exact_sum_value(pos.quantity, p.quantity);
            if p.quantity.mantissa == 0 {
                lemma_val_sign(p.quantity);
            }
        },
        OrderSide::Sell => {
            assert(balance_keys(f.balances) =~= balance_keys(e.balances));
            assert(position_keys(f.positions) =~= position_keys(e.positions));
            if bi >= 0 {
                lemma_exact_difference_value(v, p.commission);
                let net = difference_of(v, p.commission);
                assert(net.wf());
                lemma_exact_sum_value(e.balances[bi].amount, net);
            }
            lemma_val_sign(p.quantity);
            if pi >= 0 {
                let held = e.positions[pi].quantity;
                lemma_exact_difference_value(held, p.quantity);
                lemma_val_sign(difference_of(held, p.quantity));
            } else {
                assert(0 * crate::types::decimal::pow10(28) == 0);
            }
        },
    }
}

} // verus!
