//! Executed trades and trade histories.
use vstd::prelude::*;
use crate::clock::Timestamp;
use crate::text::{owned, str_eq};
use crate::types::decimal::{
    Decimal, DecimalView, dv, decimal_checked_add, decimal_checked_sub, decimal_checked_mul,
    decimal_checked_div, sum_of, difference_of, product_of, quotient_of, add_fits, mul_fits, exact_sum,
    exact_product, lemma_exact_sum_value, lemma_val_sign,
};
use crate::sums::{seq_sum, lemma_seq_sum_permutation};
use crate::types::money::{Currency, Money, MoneyError, MoneyView, Price, PriceView, Quantity, mismatch};
use crate::types::order::{OrderId, OrderSide, random_uuid_text, uuid_shaped};

verus! {

/// The identifier of a trade.
#[derive(Debug, Eq, Hash)]
pub struct TradeId(String);

impl View for TradeId {
    type V = Seq<char>;

    closed spec fn view(&self) -> Seq<char> {
        self.0@
    }
}

impl Clone for TradeId {
    fn clone(&self) -> (r: Self)
        ensures
            r == *self,
    {
        TradeId(self.0.clone())
    }
}

impl PartialEq for TradeId {
    fn eq(&self, other: &TradeId) -> (r: bool) {
        self.0 == other.0
    }
}

impl vstd::std_specs::cmp::PartialEqSpecImpl for TradeId {
    open spec fn obeys_eq_spec() -> bool {
        true
    }

    open spec fn eq_spec(&self, other: &TradeId) -> bool {
        self@ == other@
    }
}

impl TradeId {
    /// An identifier from text.
    pub fn new(id: &str) -> (r: TradeId)
        ensures
            r@ == id@,
    {
        TradeId(owned(id))
    }

    /// A fresh random identifier (a version 4 UUID).
    pub fn generate() -> (r: TradeId)
        ensures
            uuid_shaped(r@),
    {
        TradeId(random_uuid_text())
    }

    /// The identifier as text.
    pub fn as_str(&self) -> (r: &str)
        ensures
            r@ == self@,
    {
        self.0.as_str()
    }

    /// The identifier as an owned string.
    pub fn to_string(&self) -> (r: String)
        ensures
            r@ == self@,
    {
        self.0.clone()
    }
}

/// The content of a [`Trade`], its timestamp aside.
pub struct TradeView {
    pub id: Seq<char>,
    pub order_id: Seq<char>,
    pub instrument: Seq<char>,
    pub side: OrderSide,
    pub quantity: DecimalView,
    pub price: PriceView,
    pub commission: MoneyView,
}

/// An executed trade.
#[derive(Debug)]
pub struct Trade {
    id: TradeId,
    order_id: OrderId,
    instrument: String,
    side: OrderSide,
    quantity: Quantity,
    price: Price,
    commission: Money,
    executed_at: Timestamp,
}

impl View for Trade {
    type V = TradeView;

    closed spec fn view(&self) -> TradeView {
        TradeView {
            id: self.id@,
            order_id: self.order_id@,
            instrument: self.instrument@,
            side: self.side,
            quantity: self.quantity@,
            price: self.price@,
            commission: self.commission@,
        }
    }
}

impl Clone for Trade {
    fn clone(&self) -> (r: Self)
        ensures
            r@ == self@,
    {
        Trade {
            id: self.id.clone(),
            order_id: self.order_id.clone(),
            instrument: self.instrument.clone(),
            side: self.side,
            quantity: self.quantity,
            price: self.price.clone(),
            commission: self.commission.clone(),
            executed_at: self.executed_at,
        }
    }
}

/// Price times quantity of a trade.
pub open spec fn gross_of(t: TradeView) -> DecimalView {
    product_of(t.price.value, t.quantity)
}

impl Trade {
    /// A trade executed now, with a fresh identifier.
    pub fn new(
        order_id: OrderId,
        instrument: &str,
        side: OrderSide,
        quantity: Quantity,
        price: Price,
        commission: Money,
    ) -> (r: Trade)
        ensures
            r@.order_id == order_id@,
            r@.instrument == instrument@,
            r@.side == side,
            r@.quantity == quantity@,
            r@.price == price@,
            r@.commission == commission@,
            uuid_shaped(r@.id),
    {
        Trade {
            id: TradeId::generate(),
            order_id,
            instrument: owned(instrument),
            side,
            quantity,
            price,
            commission,
            executed_at: Timestamp::now(),
        }
    }

    /// A trade executed at the given time, with a fresh identifier.
    pub fn with_timestamp(
        order_id: OrderId,
        instrument: &str,
        side: OrderSide,
        quantity: Quantity,
        price: Price,
        commission: Money,
        executed_at: Timestamp,
    ) -> (r: Trade)
        ensures
            r@.order_id == order_id@,
            r@.instrument == instrument@,
            r@.side == side,
            r@.quantity == quantity@,
            r@.price == price@,
            r@.commission == commission@,
            uuid_shaped(r@.id),
            r.executed_at_spec() == executed_at,
    {
        Trade {
            id: TradeId::generate(),
            order_id,
            instrument: owned(instrument),
            side,
            quantity,
            price,
            commission,
            executed_at,
        }
    }

    /// The identifier.
    pub fn id(&self) -> (r: &TradeId)
        ensures
            r@ == self@.id,
    {
        &self.id
    }

    /// The order the trade executed.
    pub fn order_id(&self) -> (r: &OrderId)
        ensures
            r@ == self@.order_id,
    {
        &self.order_id
    }

    /// The instrument.
    pub fn instrument(&self) -> (r: &str)
        ensures
            r@ == self@.instrument,
    {
        self.instrument.as_str()
    }

    /// The side.
    pub fn side(&self) -> (r: OrderSide)
        ensures
            r == self@.side,
    {
        self.side
    }

    /// The quantity traded.
    pub fn quantity(&self) -> (r: Quantity)
        ensures
            r@ == self@.quantity,
    {
        self.quantity
    }

    /// The execution price.
    pub fn price(&self) -> (r: &Price)
        ensures
            r@ == self@.price,
    {
        &self.price
    }

    /// The commission paid.
    pub fn commission(&self) -> (r: &Money)
        ensures
            r@ == self@.commission,
    {
        &self.commission
    }

    /// When the trade executed.
    pub closed spec fn executed_at_spec(&self) -> Timestamp {
        self.executed_at
    }

    /// When the trade executed.
    pub fn executed_at(&self) -> (r: Timestamp)
        ensures
            r == self.executed_at_spec(),
    {
        self.executed_at
    }

    /// Price times quantity, in the price's currency.
    pub fn gross_value(&self) -> (r: Money)
        requires
            decimal_checked_mul(self@.price.value, self@.quantity) is Some,
        ensures
            r@ == (MoneyView { amount: gross_of(self@), currency: self@.price.currency }),
    {
        Money::new(self.price.value().mul(&self.quantity.value()), self.price.currency().clone())
    }

    /// Gross value plus commission for a buy, minus commission for a sell;
    /// an error when the commission is in another currency.
    pub fn net_value(&self) -> (r: Result<Money, MoneyError>)
        requires
            decimal_checked_mul(self@.price.value, self@.quantity) is Some,
            self@.commission.currency == self@.price.currency ==> match self@.side {
                OrderSide::Buy => decimal_checked_add(gross_of(self@), self@.commission.amount) is Some,
                OrderSide::Sell => decimal_checked_sub(gross_of(self@), self@.commission.amount) is Some,
            },
        ensures
            self@.commission.currency != self@.price.currency ==> mismatch(
                r,
                self@.price.currency,
                self@.commission.currency,
            ),
            self@.commission.currency == self@.price.currency ==> r is Ok && r->Ok_0@ == (MoneyView {
                amount: match self@.side {
                    OrderSide::Buy => sum_of(gross_of(self@), self@.commission.amount),
                    OrderSide::Sell => difference_of(gross_of(self@), self@.commission.amount),
                },
                currency: self@.price.currency,
            }),
    {
        let gross = self.gross_value();
        match self.side {
            OrderSide::Buy => gross.add(&self.commission),
            OrderSide::Sell => gross.subtract(&self.commission),
        }
    }

    /// Whether this is a buy.
    pub fn is_buy(&self) -> (r: bool)
        ensures
            r == (self@.side == OrderSide::Buy),
    {
        self.side == OrderSide::Buy
    }

    /// Whether this is a sell.
    pub fn is_sell(&self) -> (r: bool)
        ensures
            r == (self@.side == OrderSide::Sell),
    {
        self.side == OrderSide::Sell
    }
}

/// The views of a sequence of trades.
pub open spec fn trades_view(s: Seq<Trade>) -> Seq<TradeView> {
    s.map_values(|t: Trade| t@)
}

/// The views of a sequence of trade references.
pub open spec fn trade_refs_view(s: Seq<&Trade>) -> Seq<TradeView> {
    s.map_values(|t: &Trade| t@)
}

/// The trades that satisfy `keep`, in their order.
pub open spec fn filter_trades(s: Seq<TradeView>, keep: spec_fn(TradeView) -> bool) -> Seq<TradeView>
    decreases s.len(),
{
    if s.len() == 0 {
        s
    } else if keep(s.last()) {
        filter_trades(s.drop_last(), keep).push(s.last())
    } else {
        filter_trades(s.drop_last(), keep)
    }
}

/// The trades of an instrument, in their order.
pub open spec fn trades_for(s: Seq<TradeView>, instrument: Seq<char>) -> Seq<TradeView> {
    filter_trades(s, |t: TradeView| t.instrument == instrument)
}

/// The trades of a side, in their order.
pub open spec fn trades_of_side(s: Seq<TradeView>, side: OrderSide) -> Seq<TradeView> {
    filter_trades(s, |t: TradeView| t.side == side)
}

/// The commissions in `currency` of the first `n` trades, added from zero.
pub open spec fn commission_total(s: Seq<TradeView>, currency: Seq<char>, n: nat) -> DecimalView
    decreases n,
{
    if n == 0 {
        dv(0, 0)
    } else {
        let acc = commission_total(s, currency, (n - 1) as nat);
        if s[n - 1].commission.currency == currency {
            sum_of(acc, s[n - 1].commission.amount)
        } else {
            acc
        }
    }
}

/// Every addition in [`commission_total`] over the first `n` trades is defined.
pub open spec fn commission_total_defined(s: Seq<TradeView>, currency: Seq<char>, n: nat) -> bool {
    forall|k: nat|
        k < n && s[k as int].commission.currency == currency ==> decimal_checked_add(
            #[trigger] commission_total(s, currency, k),
            s[k as int].commission.amount,
        ) is Some
}

/// Running totals of [`TradeHistory::realized_pnl`].
pub struct PnlTotals {
    pub buy_cost: DecimalView,
    pub buy_qty: DecimalView,
    pub sell_revenue: DecimalView,
    pub sell_qty: DecimalView,
    pub commission: DecimalView,
}

/// The totals after the first `n` of `trades` (all of one instrument): trades
/// in another currency are skipped; every other trade adds its commission,
/// whatever its currency, and adds price times quantity and quantity to the
/// totals of its side.
pub open spec fn pnl_totals(s: Seq<TradeView>, currency: Seq<char>, n: nat) -> PnlTotals
    decreases n,
{
    if n == 0 {
        PnlTotals {
            buy_cost: dv(0, 0),
            buy_qty: dv(0, 0),
            sell_revenue: dv(0, 0),
            sell_qty: dv(0, 0),
            commission: dv(0, 0),
        }
    } else {
        let acc = pnl_totals(s, currency, (n - 1) as nat);
        let t = s[n - 1];
        if t.price.currency != currency {
            acc
        } else {
            let value = product_of(t.price.value, t.quantity);
            let commission = sum_of(acc.commission, t.commission.amount);
            match t.side {
                OrderSide::Buy => PnlTotals {
                    buy_cost: sum_of(acc.buy_cost, value),
                    buy_qty: sum_of(acc.buy_qty, t.quantity),
                    commission,
                    ..acc
                },
                OrderSide::Sell => PnlTotals {
                    sell_revenue: sum_of(acc.sell_revenue, value),
                    sell_qty: sum_of(acc.sell_qty, t.quantity),
                    commission,
                    ..acc
                },
            }
        }
    }
}

/// Every operation of step `k` of [`pnl_totals`] is defined.
pub open spec fn pnl_step_defined(s: Seq<TradeView>, currency: Seq<char>, k: nat) -> bool {
    let acc = pnl_totals(s, currency, k);
    let t = s[k as int];
    t.price.currency == currency ==> {
        let value = product_of(t.price.value, t.quantity);
        &&& decimal_checked_mul(t.price.value, t.quantity) is Some
        &&& decimal_checked_add(acc.commission, t.commission.amount) is Some
        &&& match t.side {
            OrderSide::Buy => decimal_checked_add(acc.buy_cost, value) is Some && decimal_checked_add(
                acc.buy_qty,
                t.quantity,
            ) is Some,
            OrderSide::Sell => decimal_checked_add(acc.sell_revenue, value) is Some && decimal_checked_add(
                acc.sell_qty,
                t.quantity,
            ) is Some,
        }
    }
}

/// What a trade adds to the buy cost of [`pnl_totals`], as a number.
pub open spec fn buy_cost_term(c: Seq<char>) -> spec_fn(TradeView) -> int {
    |t: TradeView| if t.price.currency == c && t.side is Buy { product_of(t.price.value, t.quantity).val() } else { 0 }
}

/// What a trade adds to the bought quantity of [`pnl_totals`], as a number.
pub open spec fn buy_qty_term(c: Seq<char>) -> spec_fn(TradeView) -> int {
    |t: TradeView| if t.price.currency == c && t.side is Buy { t.quantity.val() } else { 0 }
}

/// What a trade adds to the sale revenue of [`pnl_totals`], as a number.
pub open spec fn sell_revenue_term(c: Seq<char>) -> spec_fn(TradeView) -> int {
    |t: TradeView| if t.price.currency == c && t.side is Sell { product_of(t.price.value, t.quantity).val() } else { 0 }
}

/// What a trade adds to the sold quantity of [`pnl_totals`], as a number.
pub open spec fn sell_qty_term(c: Seq<char>) -> spec_fn(TradeView) -> int {
    |t: TradeView| if t.price.currency == c && t.side is Sell { t.quantity.val() } else { 0 }
}

/// What a trade adds to the commission of [`pnl_totals`], as a number.
pub open spec fn commission_term(c: Seq<char>) -> spec_fn(TradeView) -> int {
    |t: TradeView| if t.price.currency == c { t.commission.amount.val() } else { 0 }
}

/// The numbers of every trade are well formed.
pub open spec fn trades_valid(s: Seq<TradeView>) -> bool {
    forall|i: int|
        0 <= i < s.len() ==> {
            &&& (#[trigger] s[i]).price.value.wf()
            &&& s[i].quantity.wf()
            &&& s[i].commission.amount.wf()
        }
}

/// Step `k` of [`pnl_totals`] is unrounded: the trade's value and every
/// sum it enters.
pub open spec fn pnl_step_exact(s: Seq<TradeView>, currency: Seq<char>, k: nat) -> bool {
    let acc = pnl_totals(s, currency, k);
    let t = s[k as int];
    t.price.currency == currency ==> {
        let value = product_of(t.price.value, t.quantity);
        &&& mul_fits(t.price.value, t.quantity)
        &&& add_fits(acc.commission, t.commission.amount)
        &&& match t.side {
            OrderSide::Buy => add_fits(acc.buy_cost, value) && add_fits(acc.buy_qty, t.quantity),
            OrderSide::Sell => add_fits(acc.sell_revenue, value) && add_fits(acc.sell_qty, t.quantity),
        }
    }
}

/// Every step of [`pnl_totals`] over the first `n` trades is unrounded.
pub open spec fn pnl_exact(s: Seq<TradeView>, currency: Seq<char>, n: nat) -> bool {
    forall|k: nat| k < n ==> #[trigger] pnl_step_exact(s, currency, k)
}

/// Unrounded totals are the sums of their terms.
proof fn lemma_pnl_totals_value(s: Seq<TradeView>, c: Seq<char>, n: nat)
    requires
        trades_valid(s),
        pnl_exact(s, c, n),
        n <= s.len(),
    ensures
        ({
            let p = pnl_totals(s, c, n);
            let u = s.take(n as int);
            &&& p.buy_cost.val() == seq_sum(u, buy_cost_term(c)) && p.buy_cost.wf()
            &&& p.buy_qty.val() == seq_sum(u, buy_qty_term(c)) && p.buy_qty.wf()
            &&& p.sell_revenue.val() == seq_sum(u, sell_revenue_term(c)) && p.sell_revenue.wf()
            &&& p.sell_qty.val() == seq_sum(u, sell_qty_term(c)) && p.sell_qty.wf()
            &&& p.commission.val() == seq_sum(u, commission_term(c)) && p.commission.wf()
        }),
    decreases n,
{
    if n == 0 {
        assert(s.take(0) =~= Seq::<TradeView>::empty());
        assert(0 * crate::types::decimal::pow10(28) == 0);
    } else {
        let k = (n - 1) as nat;
        assert(pnl_exact(s, c, k));
        lemma_pnl_totals_value(s, c, k);
        let acc = pnl_totals(s, c, k);
        let tr = s[k as int];
        assert(s.take(n as int).drop_last() =~= s.take(k as int));
        assert(s.take(n as int).last() == tr);
        assert(tr.price.value.wf() && tr.quantity.wf() && tr.commission.amount.wf());
        if tr.price.currency == c {
            assert(pnl_step_exact(s, c, k));
            let value = product_of(tr.price.value, tr.quantity);
            assert(value == exact_product(tr.price.value, tr.quantity));
            assert(value.wf());
            lemma_exact_sum_value(acc.commission, tr.commission.amount);
            match tr.side {
                OrderSide::Buy => {
                    lemma_exact_sum_value(acc.buy_cost, value);
                    lemma_exact_sum_value(acc.buy_qty, tr.quantity);
                },
                OrderSide::Sell => {
                    lemma_exact_sum_value(acc.sell_revenue, value);
                    lemma_exact_sum_value(acc.sell_qty, tr.quantity);
                },
            }
        }
    }
}

/// The totals from which a realized profit is computed do not depend on the
/// order of the trades: histories holding the same trades, whose steps are
/// all unrounded, give totals of the same value.
pub proof fn lemma_pnl_totals_order_independent(s1: Seq<TradeView>, s2: Seq<TradeView>, c: Seq<char>)
    requires
        s1.to_multiset() =~= s2.to_multiset(),
        trades_valid(s1),
        trades_valid(s2),
        pnl_exact(s1, c, s1.len()),
        pnl_exact(s2, c, s2.len()),
    ensures
        ({
            let p1 = pnl_totals(s1, c, s1.len());
            let p2 = pnl_totals(s2, c, s2.len());
            &&& p1.buy_cost.val() == p2.buy_cost.val()
            &&& p1.buy_qty.val() == p2.buy_qty.val()
            &&& p1.sell_revenue.val() == p2.sell_revenue.val()
            &&& p1.sell_qty.val() == p2.sell_qty.val()
            &&& p1.commission.val() == p2.commission.val()
        }),
{
    lemma_pnl_totals_value(s1, c, s1.len());
    lemma_pnl_totals_value(s2, c, s2.len());
    assert(s1.take(s1.len() as int) =~= s1);
    assert(s2.take(s2.len() as int) =~= s2);
    lemma_seq_sum_permutation(s1, s2, buy_cost_term(c));
    lemma_seq_sum_permutation(s1, s2, buy_qty_term(c));
    lemma_seq_sum_permutation(s1, s2, sell_revenue_term(c));
    lemma_seq_sum_permutation(s1, s2, sell_qty_term(c));
    lemma_seq_sum_permutation(s1, s2, commission_term(c));
}

/// The profit from matched buy and sell quantities: the smaller of the two
/// total quantities times the difference of the average sell and buy
/// prices, less all commissions; zero when nothing is matched.
pub open spec fn realized_pnl_of(t: PnlTotals) -> DecimalView {
    let matched = if t.sell_qty.val() < t.buy_qty.val() {
        t.sell_qty
    } else {
        t.buy_qty
    };
    if matched.mantissa == 0 {
        dv(0, 0)
    } else {
        let avg_buy = if t.buy_qty.mantissa == 0 {
            dv(0, 0)
        } else {
            quotient_of(t.buy_cost, t.buy_qty)
        };
        let avg_sell = if t.sell_qty.mantissa == 0 {
            dv(0, 0)
        } else {
            quotient_of(t.sell_revenue, t.sell_qty)
        };
        difference_of(product_of(difference_of(avg_sell, avg_buy), matched), t.commission)
    }
}

/// Realized profit needs both sides: with nothing bought or nothing sold,
/// no round trip is complete and the realized profit is zero.
pub proof fn lemma_realized_pnl_needs_both_sides(t: PnlTotals)
    requires
        t.buy_qty.mantissa >= 0,
        t.sell_qty.mantissa >= 0,
        t.buy_qty.mantissa == 0 || t.sell_qty.mantissa == 0,
    ensures
        realized_pnl_of(t) == dv(0, 0),
{
    lemma_val_sign(t.buy_qty);
    lemma_val_sign(t.sell_qty);
}

/// Only completed round trips count: the realized profit is the difference
/// of the average sell and buy prices times a quantity that is one of the
/// two totals and no more than either (so lots bought and not yet sold, or
/// sold beyond what was bought, add no price term), less all commissions.
pub proof fn lemma_realized_pnl_counts_matched_quantity(t: PnlTotals)
    requires
        t.buy_qty.mantissa > 0,
        t.sell_qty.mantissa > 0,
    ensures
        exists|q: DecimalView|
            (q == t.buy_qty || q == t.sell_qty) && q.val() <= t.buy_qty.val() && q.val() <= t.sell_qty.val()
                && #[trigger] realized_pnl_of(t) == difference_of(
                product_of(
                    difference_of(quotient_of(t.sell_revenue, t.sell_qty), quotient_of(t.buy_cost, t.buy_qty)),
                    q,
                ),
                t.commission,
            ),
{
    lemma_val_sign(t.buy_qty);
    lemma_val_sign(t.sell_qty);
    let q = if t.sell_qty.val() < t.buy_qty.val() {
        t.sell_qty
    } else {
        t.buy_qty
    };
    assert(q.mantissa != 0);
    assert(realized_pnl_of(t) == difference_of(
        product_of(
            difference_of(quotient_of(t.sell_revenue, t.sell_qty), quotient_of(t.buy_cost, t.buy_qty)),
            q,
        ),
        t.commission,
    ));
}

/// Every operation of [`realized_pnl_of`] is defined.
pub open spec fn realized_pnl_defined(t: PnlTotals) -> bool {
    let matched = if t.sell_qty.val() < t.buy_qty.val() {
        t.sell_qty
    } else {
        t.buy_qty
    };
    matched.mantissa != 0 ==> {
        let avg_buy = if t.buy_qty.mantissa == 0 {
            dv(0, 0)
        } else {
            quotient_of(t.buy_cost, t.buy_qty)
        };
        let avg_sell = if t.sell_qty.mantissa == 0 {
            dv(0, 0)
        } else {
            quotient_of(t.sell_revenue, t.sell_qty)
        };
        &&& t.buy_qty.mantissa != 0 ==> decimal_checked_div(t.buy_cost, t.buy_qty) is Some
        &&& t.sell_qty.mantissa != 0 ==> decimal_checked_div(t.sell_revenue, t.sell_qty) is Some
        &&& decimal_checked_sub(avg_sell, avg_buy) is Some
        &&& decimal_checked_mul(difference_of(avg_sell, avg_buy), matched) is Some
        &&& decimal_checked_sub(product_of(difference_of(avg_sell, avg_buy), matched), t.commission) is Some
    }
}

/// A record of trades.
#[derive(Debug)]
pub struct TradeHistory {
    trades: Vec<Trade>,
}

impl View for TradeHistory {
    type V = Seq<TradeView>;

    closed spec fn view(&self) -> Seq<TradeView> {
        trades_view(self.trades@)
    }
}

impl TradeHistory {
    /// An empty history.
    pub fn new() -> (r: TradeHistory)
        ensures
            r@ == Seq::<TradeView>::empty(),
    {
        let r = TradeHistory { trades: Vec::new() };
        assert(r@ =~= Seq::<TradeView>::empty());
        r
    }

    /// Appends a trade.
    pub fn add(&mut self, trade: Trade)
        ensures
            final(self)@ == old(self)@.push(trade@),
    {
        self.trades.push(trade);
        assert(self@ =~= old(self)@.push(trade@));
    }

    /// All trades, oldest first.
    pub fn trades(&self) -> (r: &[Trade])
        ensures
            trades_view(r@) == self@,
    {
        self.trades.as_slice()
    }

    /// The number of trades.
    pub fn count(&self) -> (r: usize)
        ensures
            r == self@.len(),
    {
        self.trades.len()
    }

    /// The trades of an instrument, in their order.
    pub fn for_instrument(&self, instrument: &str) -> (r: Vec<&Trade>)
        ensures
            trade_refs_view(r@) == trades_for(self@, instrument@),
    {
        let ghost keep = |t: TradeView| t.instrument == instrument@;
        let mut out: Vec<&Trade> = Vec::new();
        let mut i: usize = 0;
        while i < self.trades.len()
            invariant
                i <= self.trades@.len(),
                keep == (|t: TradeView| t.instrument == instrument@),
                trade_refs_view(out@) == filter_trades(self@.take(i as int), keep),
            decreases self.trades@.len() - i,
        {
            let t = &self.trades[i];
            let ghost prev = out@;
            assert(self@.take(i as int + 1).drop_last() =~= self@.take(i as int));
            assert(self@[i as int] == t@);
            if str_eq(t.instrument(), instrument) {
                out.push(t);
            }
            assert(trade_refs_view(out@) =~= if keep(t@) {
                trade_refs_view(prev).push(t@)
            } else {
                trade_refs_view(prev)
            });
            i = i + 1;
        }
        assert(self@.take(self.trades@.len() as int) =~= self@);
        out
    }

    /// The trades of one side, in their order.
    fn of_side(&self, side: OrderSide) -> (r: Vec<&Trade>)
        ensures
            trade_refs_view(r@) == trades_of_side(self@, side),
    {
        let ghost keep = |t: TradeView| t.side == side;
        let mut out: Vec<&Trade> = Vec::new();
        let mut i: usize = 0;
        while i < self.trades.len()
            invariant
                i <= self.trades@.len(),
                keep == (|t: TradeView| t.side == side),
                trade_refs_view(out@) == filter_trades(self@.take(i as int), keep),
            decreases self.trades@.len() - i,
        {
            let t = &self.trades[i];
            let ghost prev = out@;
            assert(self@.take(i as int + 1).drop_last() =~= self@.take(i as int));
            assert(self@[i as int] == t@);
            if t.side == side {
                out.push(t);
            }
            assert(trade_refs_view(out@) =~= if keep(t@) {
                trade_refs_view(prev).push(t@)
            } else {
                trade_refs_view(prev)
            });
            i = i + 1;
        }
        assert(self@.take(self.trades@.len() as int) =~= self@);
        out
    }

    /// The buys, in their order.
    pub fn buys(&self) -> (r: Vec<&Trade>)
        ensures
            trade_refs_view(r@) == trades_of_side(self@, OrderSide::Buy),
    {
        self.of_side(OrderSide::Buy)
    }

    /// The sells, in their order.
    pub fn sells(&self) -> (r: Vec<&Trade>)
        ensures
            trade_refs_view(r@) == trades_of_side(self@, OrderSide::Sell),
    {
        self.of_side(OrderSide::Sell)
    }

    /// The sum of the commissions paid in `currency`.
    pub fn total_commission(&self, currency: &Currency) -> (r: Money)
        requires
            commission_total_defined(self@, currency@, self@.len()),
        ensures
            r@ == (MoneyView { amount: commission_total(self@, currency@, self@.len()), currency: currency@ }),
    {
        let mut acc = Money::zero(currency.clone());
        let mut i: usize = 0;
        while i < self.trades.len()
            invariant
                i <= self.trades@.len(),
                commission_total_defined(self@, currency@, self@.len()),
                acc@ == (MoneyView { amount: commission_total(self@, currency@, i as nat), currency: currency@ }),
            decreases self.trades@.len() - i,
        {
            let t = &self.trades[i];
            assert(self@[i as int] == t@);
            if *t.commission.currency() == *currency {
                assert(decimal_checked_add(commission_total(self@, currency@, i as nat), t@.commission.amount) is Some);
                acc = match acc.add(&t.commission) {
                    Ok(m) => m,
                    Err(_) => acc,
                };
            }
            i = i + 1;
        }
        acc
    }

    /// The realized profit of the trades of `instrument` priced in `currency`
    /// (see [`pnl_totals`] and [`realized_pnl_of`]).
    pub fn realized_pnl(&self, instrument: &str, currency: &Currency) -> (r: Decimal)
        requires
            forall|k: nat|
                k < trades_for(self@, instrument@).len() ==> #[trigger] pnl_step_defined(
                    trades_for(self@, instrument@),
                    currency@,
                    k,
                ),
            realized_pnl_defined(
                pnl_totals(trades_for(self@, instrument@), currency@, trades_for(self@, instrument@).len()),
            ),
        ensures
            r@ == realized_pnl_of(
                pnl_totals(trades_for(self@, instrument@), currency@, trades_for(self@, instrument@).len()),
            ),
    {
        let trades = self.for_instrument(instrument);
        let ghost s = trades_for(self@, instrument@);
        let mut buy_cost = Decimal::zero();
        let mut buy_qty = Decimal::zero();
        let mut sell_revenue = Decimal::zero();
        let mut sell_qty = Decimal::zero();
        let mut commission = Decimal::zero();
        let mut i: usize = 0;
        while i < trades.len()
            invariant
                i <= trades@.len(),
                trade_refs_view(trades@) == s,
                forall|k: nat| k < s.len() ==> #[trigger] pnl_step_defined(s, currency@, k),
                (PnlTotals {
                    buy_cost: buy_cost@,
                    buy_qty: buy_qty@,
                    sell_revenue: sell_revenue@,
                    sell_qty: sell_qty@,
                    commission: commission@,
                }) == pnl_totals(s, currency@, i as nat),
            decreases trades@.len() - i,
        {
            let t = trades[i];
            assert(s[i as int] == t@);
            assert(pnl_step_defined(s, currency@, i as nat));
            if *t.price().currency() == *currency {
                let value = t.price().value().mul(&t.quantity().value());
                commission = commission.add(&t.commission().amount());
                match t.side() {
                    OrderSide::Buy => {
                        buy_cost = buy_cost.add(&value);
                        buy_qty = buy_qty.add(&t.quantity().value());
                    },
                    OrderSide::Sell => {
                        sell_revenue = sell_revenue.add(&value);
                        sell_qty = sell_qty.add(&t.quantity().value());
                    },
                }
            }
            i = i + 1;
        }
        let matched = buy_qty.min(&sell_qty);
        if matched.is_zero() {
            return Decimal::zero();
        }
        let avg_buy = if buy_qty.is_zero() {
            Decimal::zero()
        } else {
            buy_cost.div(&buy_qty)
        };
        let avg_sell = if sell_qty.is_zero() {
            Decimal::zero()
        } else {
            sell_revenue.div(&sell_qty)
        };
        avg_sell.sub(&avg_buy).mul(&matched).sub(&commission)
    }
}

} // verus!
