//! What a strategy decides: actions, decisions, and the market state it
//! decides on.
use vstd::prelude::*;
use crate::clock::Timestamp;
use crate::text::owned;
use crate::types::decimal::{Decimal, DecimalView};
use crate::types::money::{Price, PriceView, Quantity};
use crate::types::order::{Order, OrderId, OrderView, opt_price_view};
use crate::types::order_book::{OrderBook, BookView};
use crate::types::position::{Position, PositionView};
use crate::simulator::engine::orders_view;

verus! {

/// The content of a [`StrategyAction`].
pub enum ActionView {
    Buy { quantity: DecimalView, price: Option<PriceView> },
    Sell { quantity: DecimalView, price: Option<PriceView> },
    Cancel { order_id: Seq<char> },
    ModifyPrice { order_id: Seq<char>, new_price: PriceView },
    Hold,
}

/// An action that a strategy asks for.
#[derive(Debug)]
pub enum StrategyAction {
    /// Place a buy order (a limit order when a price is given).
    Buy { quantity: Quantity, price: Option<Price> },
    /// Place a sell order (a limit order when a price is given).
    Sell { quantity: Quantity, price: Option<Price> },
    /// Cancel an order.
    Cancel { order_id: OrderId },
    /// Move an order to a new price.
    ModifyPrice { order_id: OrderId, new_price: Price },
    /// Do nothing.
    Hold,
}

impl View for StrategyAction {
    type V = ActionView;

    open spec fn view(&self) -> ActionView {
        match self {
            StrategyAction::Buy { quantity, price } => ActionView::Buy {
                quantity: quantity@,
                price: opt_price_view(*price),
            },
            StrategyAction::Sell { quantity, price } => ActionView::Sell {
                quantity: quantity@,
                price: opt_price_view(*price),
            },
            StrategyAction::Cancel { order_id } => ActionView::Cancel { order_id: order_id@ },
            StrategyAction::ModifyPrice { order_id, new_price } => ActionView::ModifyPrice {
                order_id: order_id@,
                new_price: new_price@,
            },
            StrategyAction::Hold => ActionView::Hold,
        }
    }
}

/// A copy of an optional price.
fn clone_price(p: &Option<Price>) -> (r: Option<Price>)
    ensures
        opt_price_view(r) == opt_price_view(*p),
{
    match p {
        Some(x) => Some(x.clone()),
        None => None,
    }
}

impl Clone for StrategyAction {
    fn clone(&self) -> (r: Self)
        ensures
            r@ == self@,
    {
        match self {
            StrategyAction::Buy { quantity, price } => StrategyAction::Buy {
                quantity: *quantity,
                price: clone_price(price),
            },
            StrategyAction::Sell { quantity, price } => StrategyAction::Sell {
                quantity: *quantity,
                price: clone_price(price),
            },
            StrategyAction::Cancel { order_id } => StrategyAction::Cancel { order_id: order_id.clone() },
            StrategyAction::ModifyPrice { order_id, new_price } => StrategyAction::ModifyPrice {
                order_id: order_id.clone(),
                new_price: new_price.clone(),
            },
            StrategyAction::Hold => StrategyAction::Hold,
        }
    }
}

impl StrategyAction {
    /// A market buy.
    pub fn market_buy(quantity: Quantity) -> (r: StrategyAction)
        ensures
            r@ == (ActionView::Buy { quantity: quantity@, price: None }),
    {
        StrategyAction::Buy { quantity, price: None }
    }

    /// A limit buy.
    pub fn limit_buy(quantity: Quantity, price: Price) -> (r: StrategyAction)
        ensures
            r@ == (ActionView::Buy { quantity: quantity@, price: Some(price@) }),
    {
        StrategyAction::Buy { quantity, price: Some(price) }
    }

    /// A market sell.
    pub fn market_sell(quantity: Quantity) -> (r: StrategyAction)
        ensures
            r@ == (ActionView::Sell { quantity: quantity@, price: None }),
    {
        StrategyAction::Sell { quantity, price: None }
    }

    /// A limit sell.
    pub fn limit_sell(quantity: Quantity, price: Price) -> (r: StrategyAction)
        ensures
            r@ == (ActionView::Sell { quantity: quantity@, price: Some(price@) }),
    {
        StrategyAction::Sell { quantity, price: Some(price) }
    }

    /// A cancellation.
    pub fn cancel(order_id: OrderId) -> (r: StrategyAction)
        ensures
            r@ == (ActionView::Cancel { order_id: order_id@ }),
    {
        StrategyAction::Cancel { order_id }
    }

    /// Doing nothing.
    pub fn hold() -> (r: StrategyAction)
        ensures
            r@ == ActionView::Hold,
    {
        StrategyAction::Hold
    }

    /// Whether this is the hold action.
    pub fn is_hold(&self) -> (r: bool)
        ensures
            r == (self@ is Hold),
    {
        match self {
            StrategyAction::Hold => true,
            _ => false,
        }
    }
}

/// The content of a [`StrategyDecision`].
pub struct DecisionView {
    pub actions: Seq<ActionView>,
    pub reason: Option<Seq<char>>,
}

/// The views of a sequence of actions.
pub open spec fn actions_view(s: Seq<StrategyAction>) -> Seq<ActionView> {
    s.map_values(|a: StrategyAction| a@)
}

/// A decision holds when it has no actions or only hold actions.
pub open spec fn decision_holds(d: DecisionView) -> bool {
    forall|i: int| 0 <= i < d.actions.len() ==> #[trigger] d.actions[i] is Hold
}

/// The view of an optional string.
pub open spec fn opt_text(s: Option<String>) -> Option<Seq<char>> {
    match s {
        Some(x) => Some(x@),
        None => None,
    }
}

/// The actions a strategy decided on, with an optional reason.
#[derive(Debug)]
pub struct StrategyDecision {
    actions: Vec<StrategyAction>,
    reason: Option<String>,
}

impl View for StrategyDecision {
    type V = DecisionView;

    closed spec fn view(&self) -> DecisionView {
        DecisionView { actions: actions_view(self.actions@), reason: opt_text(self.reason) }
    }
}

impl Default for StrategyDecision {
    fn default() -> (r: Self)
        ensures
            r@ == (DecisionView { actions: Seq::empty(), reason: None }),
    {
        StrategyDecision::new()
    }
}

impl StrategyDecision {
    /// No actions and no reason.
    pub fn new() -> (r: StrategyDecision)
        ensures
            r@ == (DecisionView { actions: Seq::empty(), reason: None }),
    {
        let r = StrategyDecision { actions: Vec::new(), reason: None };
        assert(actions_view(r.actions@) =~= Seq::empty());
        r
    }

    /// One action and no reason.
    pub fn single(action: StrategyAction) -> (r: StrategyDecision)
        ensures
            r@ == (DecisionView { actions: seq![action@], reason: None }),
    {
        let mut actions = Vec::new();
        actions.push(action);
        let r = StrategyDecision { actions, reason: None };
        assert(actions_view(r.actions@) =~= seq![action@]);
        r
    }

    /// The hold action and no reason.
    pub fn hold() -> (r: StrategyDecision)
        ensures
            r@ == (DecisionView { actions: seq![ActionView::Hold], reason: None }),
    {
        StrategyDecision::single(StrategyAction::Hold)
    }

    /// The hold action with a reason.
    pub fn hold_with_reason(reason: &str) -> (r: StrategyDecision)
        ensures
            r@ == (DecisionView { actions: seq![ActionView::Hold], reason: Some(reason@) }),
    {
        let mut actions = Vec::new();
        actions.push(StrategyAction::Hold);
        let r = StrategyDecision { actions, reason: Some(owned(reason)) };
        assert(actions_view(r.actions@) =~= seq![ActionView::Hold]);
        r
    }

    /// Appends an action.
    pub fn add_action(&mut self, action: StrategyAction)
        ensures
            final(self)@ == (DecisionView { actions: old(self)@.actions.push(action@), ..old(self)@ }),
    {
        self.actions.push(action);
        assert(actions_view(self.actions@) =~= old(self)@.actions.push(action@));
    }

    /// The decision with a reason.
    pub fn with_reason(self, reason: &str) -> (r: StrategyDecision)
        ensures
            r@ == (DecisionView { reason: Some(reason@), ..self@ }),
    {
        StrategyDecision { actions: self.actions, reason: Some(owned(reason)) }
    }

    /// The actions, in order.
    pub fn actions(&self) -> (r: &[StrategyAction])
        ensures
            actions_view(r@) == self@.actions,
    {
        self.actions.as_slice()
    }

    /// The reason, if any.
    pub fn reason(&self) -> (r: Option<&str>)
        ensures
            match r {
                Some(s) => self@.reason == Some(s@),
                None => self@.reason is None,
            },
    {
        match &self.reason {
            Some(s) => Some(s.as_str()),
            None => None,
        }
    }

    /// Whether the decision holds: no actions, or only hold actions.
    pub fn is_hold(&self) -> (r: bool)
        ensures
            r == decision_holds(self@),
    {
        let mut i: usize = 0;
        while i < self.actions.len()
            invariant
                i <= self.actions@.len(),
                forall|k: int| 0 <= k < i ==> #[trigger] self@.actions[k] is Hold,
            decreases self.actions@.len() - i,
        {
            assert(self@.actions[i as int] == self.actions@[i as int]@);
            if !self.actions[i].is_hold() {
                return false;
            }
            i = i + 1;
        }
        true
    }
}

/// The content of a [`MarketState`].
pub struct StateView {
    pub instrument: Seq<char>,
    pub book: BookView,
    pub position: Option<PositionView>,
    pub active_orders: Seq<OrderView>,
    pub available_cash: DecimalView,
    pub timestamp: Timestamp,
}

/// The market as a strategy sees it.
#[derive(Debug)]
pub struct MarketState {
    /// The instrument traded.
    pub instrument: String,
    /// The current order book.
    pub order_book: OrderBook,
    /// The current position.
    pub position: Option<Position>,
    /// The active orders.
    pub active_orders: Vec<Order>,
    /// The cash available.
    pub available_cash: Decimal,
    /// The current time.
    pub timestamp: Timestamp,
}

impl View for MarketState {
    type V = StateView;

    open spec fn view(&self) -> StateView {
        StateView {
            instrument: self.instrument@,
            book: self.order_book@,
            position: match self.position {
                Some(p) => Some(p@),
                None => None,
            },
            active_orders: orders_view(self.active_orders@),
            available_cash: self.available_cash@,
            timestamp: self.timestamp,
        }
    }
}

} // verus!
