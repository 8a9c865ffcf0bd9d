//! Orders and their life cycle.
use vstd::prelude::*;
use crate::clock::Timestamp;
use crate::text::owned;
use crate::types::decimal::{DecimalView, dv, decimal_checked_add, sum_of, add_fits, exact_sum};
use crate::types::money::{Price, PriceView, Quantity};

verus! {

/// The shape of a UUID in hyphenated text form: 36 characters, with hyphens
/// after the 8th, 12th, 16th and 20th digit.
pub open spec fn uuid_shaped(s: Seq<char>) -> bool {
    &&& s.len() == 36
    &&& s[8] == '-'
    &&& s[13] == '-'
    &&& s[18] == '-'
    &&& s[23] == '-'
}

/// `uuid::Uuid::new_v4`, written by its `Display` (hyphenated lower-case
/// hex). The digits are random, so only the shape of the text is stated.
#[verifier::external_body]
pub(crate) fn random_uuid_text() -> (r: String)
    ensures
        uuid_shaped(r@),
{
    uuid::Uuid::new_v4().to_string()
}

/// The identifier of an order.
#[derive(Debug, Eq, Hash)]
pub struct OrderId(String);

impl View for OrderId {
    type V = Seq<char>;

    closed spec fn view(&self) -> Seq<char> {
        self.0@
    }
}

impl Clone for OrderId {
    fn clone(&self) -> (r: Self)
        ensures
            r == *self,
    {
        OrderId(self.0.clone())
    }
}

impl PartialEq for OrderId {
    fn eq(&self, other: &OrderId) -> (r: bool) {
        self.0 == other.0
    }
}

impl vstd::std_specs::cmp::PartialEqSpecImpl for OrderId {
    open spec fn obeys_eq_spec() -> bool {
        true
    }

    open spec fn eq_spec(&self, other: &OrderId) -> bool {
        self@ == other@
    }
}

impl OrderId {
    /// An identifier from text.
    pub fn new(id: &str) -> (r: OrderId)
        ensures
            r@ == id@,
    {
        OrderId(owned(id))
    }

    /// A fresh random identifier (a version 4 UUID).
    pub fn generate() -> (r: OrderId)
        ensures
            uuid_shaped(r@),
    {
        OrderId(random_uuid_text())
    }

    /// The identifier as text.
    pub fn as_str(&self) -> (r: &str)
        ensures
            r@ == self@,
    {
        self.0.as_str()
    }

    /// The identifier as an owned string.
    pub fn to_string(&self) -> (r: String)
        ensures
            r@ == self@,
    {
        self.0.clone()
    }
}

/// The direction of an order.
#[derive(Clone, Copy, Debug, PartialEq, Eq, Structural)]
pub enum OrderSide {
    /// Acquire the asset.
    Buy,
    /// Dispose of the asset.
    Sell,
}

impl OrderSide {
    /// `BUY` or `SELL`.
    pub fn to_string(&self) -> (r: String)
        ensures
            r@ == (match self {
                OrderSide::Buy => "BUY"@,
                OrderSide::Sell => "SELL"@,
            }),
    {
        match self {
            OrderSide::Buy => owned("BUY"),
            OrderSide::Sell => owned("SELL"),
        }
    }
}

/// How an order executes.
#[derive(Clone, Copy, Debug, PartialEq, Eq, Structural)]
pub enum OrderType {
    /// At the current market price.
    Market,
    /// At the given price or better.
    Limit,
}

impl OrderType {
    /// `MARKET` or `LIMIT`.
    pub fn to_string(&self) -> (r: String)
        ensures
            r@ == (match self {
                OrderType::Market => "MARKET"@,
                OrderType::Limit => "LIMIT"@,
            }),
    {
        match self {
            OrderType::Market => owned("MARKET"),
            OrderType::Limit => owned("LIMIT"),
        }
    }
}

/// The state of an order.
#[derive(Clone, Copy, Debug, PartialEq, Eq, Structural)]
pub enum OrderStatus {
    /// Not yet sent.
    Pending,
    /// Sent to the exchange.
    Submitted,
    /// Partly executed.
    PartiallyFilled,
    /// Completely executed.
    Filled,
    /// Cancelled.
    Cancelled,
    /// Refused by the exchange.
    Rejected,
    /// Expired.
    Expired,
}

/// The states from which an order does not move on by itself.
pub open spec fn status_terminal(s: OrderStatus) -> bool {
    s is Filled || s is Cancelled || s is Rejected || s is Expired
}

/// The states in which an order can still execute.
pub open spec fn status_active(s: OrderStatus) -> bool {
    s is Pending || s is Submitted || s is PartiallyFilled
}

impl OrderStatus {
    /// Whether the order is in a final state.
    pub fn is_terminal(&self) -> (r: bool)
        ensures
            r == status_terminal(*self),
    {
        match self {
            OrderStatus::Filled | OrderStatus::Cancelled | OrderStatus::Rejected | OrderStatus::Expired => true,
            _ => false,
        }
    }

    /// Whether the order can still execute.
    pub fn is_active(&self) -> (r: bool)
        ensures
            r == status_active(*self),
    {
        match self {
            OrderStatus::Pending | OrderStatus::Submitted | OrderStatus::PartiallyFilled => true,
            _ => false,
        }
    }

    /// The status in upper case, words joined by `_`.
    pub fn to_string(&self) -> (r: String)
        ensures
            r@ == (match self {
                OrderStatus::Pending => "PENDING"@,
                OrderStatus::Submitted => "SUBMITTED"@,
                OrderStatus::PartiallyFilled => "PARTIALLY_FILLED"@,
                OrderStatus::Filled => "FILLED"@,
                OrderStatus::Cancelled => "CANCELLED"@,
                OrderStatus::Rejected => "REJECTED"@,
                OrderStatus::Expired => "EXPIRED"@,
            }),
    {
        match self {
            OrderStatus::Pending => owned("PENDING"),
            OrderStatus::Submitted => owned("SUBMITTED"),
            OrderStatus::PartiallyFilled => owned("PARTIALLY_FILLED"),
            OrderStatus::Filled => owned("FILLED"),
            OrderStatus::Cancelled => owned("CANCELLED"),
            OrderStatus::Rejected => owned("REJECTED"),
            OrderStatus::Expired => owned("EXPIRED"),
        }
    }
}

/// The content of an [`Order`], its timestamps aside.
pub struct OrderView {
    pub id: Seq<char>,
    pub instrument: Seq<char>,
    pub side: OrderSide,
    pub order_type: OrderType,
    pub quantity: DecimalView,
    pub filled_quantity: DecimalView,
    pub price: Option<PriceView>,
    pub status: OrderStatus,
}

/// The view of an optional price.
pub open spec fn opt_price_view(p: Option<Price>) -> Option<PriceView> {
    match p {
        Some(x) => Some(x@),
        None => None,
    }
}

/// The status after a fill that brought the filled quantity to `filled`.
pub open spec fn status_after_fill(filled: DecimalView, quantity: DecimalView) -> OrderStatus {
    if filled.val() >= quantity.val() {
        OrderStatus::Filled
    } else {
        OrderStatus::PartiallyFilled
    }
}

/// The status after a submission.
pub open spec fn status_after_submit(s: OrderStatus) -> OrderStatus {
    if s is Pending {
        OrderStatus::Submitted
    } else {
        s
    }
}

/// The status after a cancellation.
pub open spec fn status_after_cancel(s: OrderStatus) -> OrderStatus {
    if status_active(s) {
        OrderStatus::Cancelled
    } else {
        s
    }
}

/// A trading order.
#[derive(Debug)]
pub struct Order {
    id: OrderId,
    instrument: String,
    side: OrderSide,
    order_type: OrderType,
    quantity: Quantity,
    filled_quantity: Quantity,
    price: Option<Price>,
    status: OrderStatus,
    created_at: Timestamp,
    updated_at: Timestamp,
}

impl View for Order {
    type V = OrderView;

    closed spec fn view(&self) -> OrderView {
        OrderView {
            id: self.id@,
            instrument: self.instrument@,
            side: self.side,
            order_type: self.order_type,
            quantity: self.quantity@,
            filled_quantity: self.filled_quantity@,
            price: opt_price_view(self.price),
            status: self.status,
        }
    }
}

impl Clone for Order {
    fn clone(&self) -> (r: Self)
        ensures
            r@ == self@,
    {
        Order {
            id: self.id.clone(),
            instrument: self.instrument.clone(),
            side: self.side,
            order_type: self.order_type,
            quantity: self.quantity,
            filled_quantity: self.filled_quantity,
            price: match &self.price {
                Some(p) => Some(p.clone()),
                None => None,
            },
            status: self.status,
            created_at: self.created_at,
            updated_at: self.updated_at,
        }
    }
}

impl Order {
    /// A new pending limit order with a fresh identifier and nothing filled.
    pub fn limit(instrument: &str, side: OrderSide, quantity: Quantity, price: Price) -> (r: Order)
        ensures
            r@.instrument == instrument@,
            r@.side == side,
            r@.order_type == OrderType::Limit,
            r@.quantity == quantity@,
            r@.filled_quantity == dv(0, 0),
            r@.price == Some(price@),
            r@.status == OrderStatus::Pending,
            r.created_at_spec() == r.updated_at_spec(),
            uuid_shaped(r@.id),
    {
        let now = Timestamp::now();
        Order {
            id: OrderId::generate(),
            instrument: owned(instrument),
            side,
            order_type: OrderType::Limit,
            quantity,
            filled_quantity: Quantity::zero(),
            price: Some(price),
            status: OrderStatus::Pending,
            created_at: now,
            updated_at: now,
        }
    }

    /// A new pending market order with a fresh identifier and nothing filled.
    pub fn market(instrument: &str, side: OrderSide, quantity: Quantity) -> (r: Order)
        ensures
            r@.instrument == instrument@,
            r@.side == side,
            r@.order_type == OrderType::Market,
            r@.quantity == quantity@,
            r@.filled_quantity == dv(0, 0),
            r@.price == None::<PriceView>,
            r@.status == OrderStatus::Pending,
            r.created_at_spec() == r.updated_at_spec(),
            uuid_shaped(r@.id),
    {
        let now = Timestamp::now();
        Order {
            id: OrderId::generate(),
            instrument: owned(instrument),
            side,
            order_type: OrderType::Market,
            quantity,
            filled_quantity: Quantity::zero(),
            price: None,
            status: OrderStatus::Pending,
            created_at: now,
            updated_at: now,
        }
    }

    /// The identifier.
    pub fn id(&self) -> (r: &OrderId)
        ensures
            r@ == self@.id,
    {
        &self.id
    }

    /// The instrument.
    pub fn instrument(&self) -> (r: &str)
        ensures
            r@ == self@.instrument,
    {
        self.instrument.as_str()
    }

    /// The side.
    pub fn side(&self) -> (r: OrderSide)
        ensures
            r == self@.side,
    {
        self.side
    }

    /// The order type.
    pub fn order_type(&self) -> (r: OrderType)
        ensures
            r == self@.order_type,
    {
        self.order_type
    }

    /// The requested quantity.
    pub fn quantity(&self) -> (r: Quantity)
        ensures
            r@ == self@.quantity,
    {
        self.quantity
    }

    /// The quantity filled so far.
    pub fn filled_quantity(&self) -> (r: Quantity)
        ensures
            r@ == self@.filled_quantity,
    {
        self.filled_quantity
    }

    /// The quantity still to fill: requested minus filled, and zero where
    /// that would go below zero.
    pub fn remaining_quantity(&self) -> (r: Quantity)
        ensures
            crate::types::decimal::decimal_checked_sub(self@.quantity, self@.filled_quantity) is Some,
            r@ == remaining_of(self@),
    {
        self.quantity.subtract(self.filled_quantity)
    }

    /// The limit price, if any.
    pub fn price(&self) -> (r: Option<&Price>)
        ensures
            match r {
                Some(p) => self@.price == Some(p@),
                None => self@.price is None,
            },
    {
        match &self.price {
            Some(p) => Some(p),
            None => None,
        }
    }

    /// The current status.
    pub fn status(&self) -> (r: OrderStatus)
        ensures
            r == self@.status,
    {
        self.status
    }

    /// When the order was created.
    pub closed spec fn created_at_spec(&self) -> Timestamp {
        self.created_at
    }

    /// When the order last changed.
    pub closed spec fn updated_at_spec(&self) -> Timestamp {
        self.updated_at
    }

    /// When the order was created.
    pub fn created_at(&self) -> (r: Timestamp)
        ensures
            r == self.created_at_spec(),
    {
        self.created_at
    }

    /// When the order last changed.
    pub fn updated_at(&self) -> (r: Timestamp)
        ensures
            r == self.updated_at_spec(),
    {
        self.updated_at
    }

    /// Sets the status.
    pub fn set_status(&mut self, status: OrderStatus)
        ensures
            final(self)@ == (OrderView { status, ..old(self)@ }),
            final(self).created_at_spec() == old(self).created_at_spec(),
    {
        self.status = status;
        self.updated_at = Timestamp::now();
    }

    /// Records an execution of `quantity`: the filled quantity grows by it,
    /// and the order is filled once the filled quantity reaches the requested
    /// one, partly filled before.
    pub fn fill(&mut self, quantity: Quantity)
        requires
            decimal_checked_add(old(self)@.filled_quantity, quantity@) is Some,
        ensures
            final(self)@ == (OrderView {
                filled_quantity: sum_of(old(self)@.filled_quantity, quantity@),
                status: status_after_fill(
                    sum_of(old(self)@.filled_quantity, quantity@),
                    old(self)@.quantity,
                ),
                ..old(self)@
            }),
            add_fits(old(self)@.filled_quantity, quantity@) ==> final(self)@.filled_quantity
                == exact_sum(old(self)@.filled_quantity, quantity@),
            final(self).created_at_spec() == old(self).created_at_spec(),
    {
        self.filled_quantity = self.filled_quantity.add(quantity);
        self.updated_at = Timestamp::now();
        if self.filled_quantity.ge(&self.quantity) {
            self.status = OrderStatus::Filled;
        } else {
            self.status = OrderStatus::PartiallyFilled;
        }
    }

    /// Marks a pending order as submitted; any other order is left as it is.
    pub fn submit(&mut self)
        ensures
            final(self)@ == (OrderView { status: status_after_submit(old(self)@.status), ..old(self)@ }),
            final(self).created_at_spec() == old(self).created_at_spec(),
            !(old(self)@.status is Pending) ==> final(self).updated_at_spec() == old(self).updated_at_spec(),
    {
        if self.status == OrderStatus::Pending {
            self.status = OrderStatus::Submitted;
            self.updated_at = Timestamp::now();
        }
    }

    /// Cancels an active order; a finished order is left as it is.
    pub fn cancel(&mut self)
        ensures
            final(self)@ == (OrderView { status: status_after_cancel(old(self)@.status), ..old(self)@ }),
            final(self).created_at_spec() == old(self).created_at_spec(),
            !status_active(old(self)@.status) ==> final(self).updated_at_spec() == old(self).updated_at_spec(),
    {
        if self.status.is_active() {
            self.status = OrderStatus::Cancelled;
            self.updated_at = Timestamp::now();
        }
    }

    /// Whether this is a buy order.
    pub fn is_buy(&self) -> (r: bool)
        ensures
            r == (self@.side == OrderSide::Buy),
    {
        self.side == OrderSide::Buy
    }

    /// Whether this is a sell order.
    pub fn is_sell(&self) -> (r: bool)
        ensures
            r == (self@.side == OrderSide::Sell),
    {
        self.side == OrderSide::Sell
    }
}

/// The quantity still to fill.
pub open spec fn remaining_of(o: OrderView) -> DecimalView {
    let d = crate::types::decimal::difference_of(o.quantity, o.filled_quantity);
    if d.mantissa < 0 {
        dv(0, 0)
    } else {
        d
    }
}

/// A finished order stays as it is: submitting or cancelling an order in a
/// terminal state leaves its status unchanged.
pub proof fn lemma_terminal_status_is_final(s: OrderStatus)
    requires
        status_terminal(s),
    ensures
        status_after_submit(s) == s,
        status_after_cancel(s) == s,
        !status_active(s),
{
}

/// Cancelling an order that is not finished finishes it as cancelled, so a
/// second cancellation changes nothing (and an exchange refuses it).
pub proof fn lemma_cancel_finishes(s: OrderStatus)
    requires
        !status_terminal(s),
    ensures
        status_after_cancel(s) == OrderStatus::Cancelled,
        status_terminal(status_after_cancel(s)),
        status_after_cancel(status_after_cancel(s)) == status_after_cancel(s),
{
}

/// Every status is either active or terminal, never both.
pub proof fn lemma_status_active_or_terminal(s: OrderStatus)
    ensures
        status_active(s) != status_terminal(s),
{
}

/// A fill that brings the filled quantity up to the requested one finishes
/// the order; a smaller one leaves it partly filled and active.
pub proof fn lemma_fill_status(filled: DecimalView, quantity: DecimalView)
    ensures
        filled.val() >= quantity.val() ==> status_terminal(status_after_fill(filled, quantity)),
        filled.val() < quantity.val() ==> status_active(status_after_fill(filled, quantity)),
{
}

} // verus!
