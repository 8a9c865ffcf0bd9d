//! Positions: holdings of an instrument with their average price.
use vstd::prelude::*;
use crate::text::owned;
use crate::types::decimal::{
    Decimal, DecimalView, dv, decimal_checked_add, decimal_checked_sub, decimal_checked_mul,
    decimal_checked_div, sum_of, difference_of, product_of, quotient_of, mul_fits, add_fits, exact_sum,
    exact_product, exact_quotient_at, pow10, max_scale, MAX_SCALE, lemma_exact_product_value,
    lemma_exact_sum_value, lemma_val_sign,
};
use crate::types::money::{Currency, Money, MoneyView, Price, PriceView, Quantity};

verus! {

/// The content of a [`Position`].
pub struct PositionView {
    pub instrument: Seq<char>,
    pub quantity: DecimalView,
    pub average_price: PriceView,
    pub currency: Seq<char>,
}

/// A holding of an instrument.
#[derive(Debug)]
pub struct Position {
    instrument: String,
    quantity: Quantity,
    average_price: Price,
    currency: Currency,
}

impl View for Position {
    type V = PositionView;

    closed spec fn view(&self) -> PositionView {
        PositionView {
            instrument: self.instrument@,
            quantity: self.quantity@,
            average_price: self.average_price@,
            currency: self.currency@,
        }
    }
}

impl Clone for Position {
    fn clone(&self) -> (r: Self)
        ensures
            r@ == self@,
    {
        Position {
            instrument: self.instrument.clone(),
            quantity: self.quantity,
            average_price: self.average_price.clone(),
            currency: self.currency.clone(),
        }
    }
}

/// The cost of the current holding and of an addition, and the new quantity,
/// are defined, and so is the new average where the new quantity is not zero.
pub open spec fn add_defined(p: PositionView, quantity: DecimalView, price: DecimalView) -> bool {
    quantity.mantissa != 0 ==> {
        let cost = product_of(p.average_price.value, p.quantity);
        let extra = product_of(price, quantity);
        let q = sum_of(p.quantity, quantity);
        &&& decimal_checked_mul(p.average_price.value, p.quantity) is Some
        &&& decimal_checked_mul(price, quantity) is Some
        &&& decimal_checked_add(p.quantity, quantity) is Some
        &&& decimal_checked_add(cost, extra) is Some
        &&& q.mantissa != 0 ==> decimal_checked_div(sum_of(cost, extra), q) is Some
    }
}

/// The position after buying `quantity` at `price`: the quantities add up
/// and the average price becomes total cost over total quantity (zero for a
/// zero total quantity); an average below zero leaves the old one in place.
pub open spec fn position_after_add(p: PositionView, quantity: DecimalView, price: DecimalView) -> PositionView {
    if quantity.mantissa == 0 {
        p
    } else {
        let cost = product_of(p.average_price.value, p.quantity);
        let extra = product_of(price, quantity);
        let q = sum_of(p.quantity, quantity);
        let avg = if q.mantissa == 0 {
            dv(0, 0)
        } else {
            quotient_of(sum_of(cost, extra), q)
        };
        PositionView {
            quantity: q,
            average_price: if avg.mantissa < 0 {
                p.average_price
            } else {
                PriceView { value: avg, currency: p.currency }
            },
            ..p
        }
    }
}

/// The position after selling `quantity`: the quantity shrinks, never below
/// zero, and a closed position gets a zero average price.
pub open spec fn position_after_reduce(p: PositionView, quantity: DecimalView) -> PositionView {
    let d = difference_of(p.quantity, quantity);
    let q = if d.mantissa < 0 {
        dv(0, 0)
    } else {
        d
    };
    PositionView {
        quantity: q,
        average_price: if q.mantissa == 0 {
            PriceView { value: dv(0, 0), currency: p.currency }
        } else {
            p.average_price
        },
        ..p
    }
}

/// The average after a buy, from the values the buy computes: where
/// nothing is rounded, the average times the new quantity is the total cost,
/// and a buy into an empty position averages at the buy price.
proof fn lemma_average_of_buy(
    a: DecimalView,
    q: DecimalView,
    p: DecimalView,
    n: DecimalView,
    cost: DecimalView,
    extra: DecimalView,
    total: DecimalView,
    nq: DecimalView,
    avg: DecimalView,
)
    requires
        a.wf(),
        q.wf(),
        p.wf(),
        n.wf(),
        q.mantissa >= 0,
        n.mantissa > 0,
        mul_fits(a, q) ==> cost == exact_product(a, q),
        mul_fits(p, n) ==> extra == exact_product(p, n),
        add_fits(q, n) ==> nq == exact_sum(q, n),
        add_fits(cost, extra) ==> total == exact_sum(cost, extra),
        forall|m: int, s: nat| #[trigger] exact_quotient_at(total, nq, m, s) ==> avg.val() == m * pow10(
            (MAX_SCALE - s) as nat,
        ),
    ensures
        q.mantissa == 0 && mul_fits(p, n) && add_fits(q, n) ==> avg.val() == p.val(),
        mul_fits(a, q) && mul_fits(p, n) && add_fits(q, n) && add_fits(exact_product(a, q), exact_product(p, n))
            && (exists|m: int, s: nat|
            #[trigger] exact_quotient_at(exact_sum(exact_product(a, q), exact_product(p, n)), exact_sum(q, n), m, s))
            ==> avg.val() * nq.val() == a.val() * q.val() + p.val() * n.val(),
{
    let big = pow10(MAX_SCALE as nat);
    if q.mantissa == 0 && mul_fits(p, n) && add_fits(q, n) {
        lemma_exact_product_value(p, n);
        assert(mul_fits(a, q));
        assert(cost == dv(0, 0));
        let e = exact_product(p, n);
        assert(add_fits(cost, extra)) by {
            assert(max_scale(cost, extra) == e.scale);
            assert(cost.aligned(e.scale) == 0);
            assert(extra.aligned(e.scale) == e.mantissa * pow10(0));
            assert(pow10(0) == 1);
        }
        assert(total == extra);
        assert(nq == n);
        assert(p.mantissa * pow10((MAX_SCALE - p.scale) as nat) * n.val() == extra.val() * big);
        assert(exact_quotient_at(total, nq, p.mantissa, p.scale));
    }
    if mul_fits(a, q) && mul_fits(p, n) && add_fits(q, n) && add_fits(exact_product(a, q), exact_product(p, n))
        && (exists|m: int, s: nat|
        #[trigger] exact_quotient_at(exact_sum(exact_product(a, q), exact_product(p, n)), exact_sum(q, n), m, s)) {
        let (m, s) = choose|m: int, s: nat|
            #[trigger] exact_quotient_at(exact_sum(exact_product(a, q), exact_product(p, n)), exact_sum(q, n), m, s);
        assert(exact_quotient_at(total, nq, m, s));
        lemma_exact_product_value(a, q);
        lemma_exact_product_value(p, n);
        lemma_exact_sum_value(cost, extra);
        let f = m * pow10((MAX_SCALE - s) as nat);
        assert(avg.val() == f);
        assert(f * nq.val() == total.val() * big);
        assert(total.val() * big == cost.val() * big + extra.val() * big) by (nonlinear_arith)
            requires
                total.val() == cost.val() + extra.val(),
        ;
    }
}

impl Position {
    /// A position; its currency is that of the average price.
    pub fn new(instrument: &str, quantity: Quantity, average_price: Price) -> (r: Position)
        ensures
            r@ == (PositionView {
                instrument: instrument@,
                quantity: quantity@,
                average_price: average_price@,
                currency: average_price@.currency,
            }),
    {
        let currency = average_price.currency().clone();
        Position { instrument: owned(instrument), quantity, average_price, currency }
    }

    /// A position holding nothing, at a zero average price.
    pub fn empty(instrument: &str, currency: Currency) -> (r: Position)
        ensures
            r@ == (PositionView {
                instrument: instrument@,
                quantity: dv(0, 0),
                average_price: PriceView { value: dv(0, 0), currency: currency@ },
                currency: currency@,
            }),
    {
        let average_price = match Price::new(Decimal::zero(), currency.clone()) {
            Ok(p) => p,
            Err(_) => {
                assert(false);
                Price::new(Decimal::zero(), currency.clone()).unwrap()
            },
        };
        Position { instrument: owned(instrument), quantity: Quantity::zero(), average_price, currency }
    }

    /// The instrument.
    pub fn instrument(&self) -> (r: &str)
        ensures
            r@ == self@.instrument,
    {
        self.instrument.as_str()
    }

    /// The quantity held.
    pub fn quantity(&self) -> (r: Quantity)
        ensures
            r@ == self@.quantity,
    {
        self.quantity
    }

    /// The average price.
    pub fn average_price(&self) -> (r: &Price)
        ensures
            r@ == self@.average_price,
    {
        &self.average_price
    }

    /// The currency.
    pub fn currency(&self) -> (r: &Currency)
        ensures
            r@ == self@.currency,
    {
        &self.currency
    }

    /// Whether nothing is held.
    pub fn is_empty(&self) -> (r: bool)
        ensures
            r == (self@.quantity.mantissa == 0),
    {
        self.quantity.is_zero()
    }

    /// Average price times quantity.
    pub fn cost_basis(&self) -> (r: Money)
        requires
            decimal_checked_mul(self@.average_price.value, self@.quantity) is Some,
        ensures
            r@ == (MoneyView {
                amount: product_of(self@.average_price.value, self@.quantity),
                currency: self@.currency,
            }),
    {
        Money::new(self.average_price.value().mul(&self.quantity.value()), self.currency.clone())
    }

    /// Current value minus cost, zero for an empty position.
    pub fn unrealized_pnl(&self, current_price: &Price) -> (r: Money)
        requires
            self@.quantity.mantissa != 0 ==> {
                &&& decimal_checked_mul(current_price@.value, self@.quantity) is Some
                &&& decimal_checked_mul(self@.average_price.value, self@.quantity) is Some
                &&& decimal_checked_sub(
                    product_of(current_price@.value, self@.quantity),
                    product_of(self@.average_price.value, self@.quantity),
                ) is Some
            },
        ensures
            self@.quantity.mantissa == 0 ==> r@ == (MoneyView { amount: dv(0, 0), currency: self@.currency }),
            self@.quantity.mantissa != 0 ==> r@ == (MoneyView {
                amount: difference_of(
                    product_of(current_price@.value, self@.quantity),
                    product_of(self@.average_price.value, self@.quantity),
                ),
                currency: self@.currency,
            }),
    {
        if self.quantity.is_zero() {
            return Money::zero(self.currency.clone());
        }
        let current_value = current_price.value().mul(&self.quantity.value());
        let cost = self.average_price.value().mul(&self.quantity.value());
        Money::new(current_value.sub(&cost), self.currency.clone())
    }

    /// `(current - average) / average * 100`, zero for a zero average price.
    pub fn unrealized_pnl_percent(&self, current_price: &Price) -> (r: Decimal)
        requires
            self@.average_price.value.mantissa != 0 ==> {
                let d = difference_of(current_price@.value, self@.average_price.value);
                &&& decimal_checked_sub(current_price@.value, self@.average_price.value) is Some
                &&& decimal_checked_div(d, self@.average_price.value) is Some
                &&& decimal_checked_mul(quotient_of(d, self@.average_price.value), dv(100, 0)) is Some
            },
        ensures
            self@.average_price.value.mantissa == 0 ==> r@ == dv(0, 0),
            self@.average_price.value.mantissa != 0 ==> r@ == product_of(
                quotient_of(
                    difference_of(current_price@.value, self@.average_price.value),
                    self@.average_price.value,
                ),
                dv(100, 0),
            ),
    {
        let avg = self.average_price.value();
        if avg.is_zero() {
            return Decimal::zero();
        }
        current_price.value().sub(&avg).div(&avg).mul(&Decimal::from_u64(100))
    }

    /// Whether [`Position::add`] can add `quantity` at `price` without overflow.
    pub fn can_add(&self, quantity: Quantity, price: &Price) -> (r: bool)
        ensures
            r == add_defined(self@, quantity@, price@.value),
    {
        if quantity.is_zero() {
            return true;
        }
        let current_cost = match self.average_price.value().checked_mul(&self.quantity.value()) {
            Some(c) => c,
            None => return false,
        };
        let additional_cost = match price.value().checked_mul(&quantity.value()) {
            Some(c) => c,
            None => return false,
        };
        let new_quantity = match self.quantity.value().checked_add(&quantity.value()) {
            Some(q) => q,
            None => return false,
        };
        let total = match current_cost.checked_add(&additional_cost) {
            Some(t) => t,
            None => return false,
        };
        new_quantity.is_zero() || total.checked_div(&new_quantity).is_some()
    }

    /// Whether adding `quantity` at `price` can be computed (see
    /// [`add_defined`]).
    pub fn add_computable(&self, quantity: Quantity, price: &Price) -> (r: bool)
        ensures
            r == add_defined(self@, quantity@, price@.value),
    {
        if quantity.is_zero() {
            return true;
        }
        let current_cost = match self.average_price.value().checked_mul(&self.quantity.value()) {
            Some(c) => c,
            None => return false,
        };
        let additional_cost = match price.value().checked_mul(&quantity.value()) {
            Some(c) => c,
            None => return false,
        };
        let new_quantity = match self.quantity.checked_add(quantity) {
            Some(q) => q,
            None => return false,
        };
        let total = match current_cost.checked_add(&additional_cost) {
            Some(t) => t,
            None => return false,
        };
        if new_quantity.is_zero() {
            return true;
        }
        total.checked_div(&new_quantity.value()).is_some()
    }

    /// Adds `quantity` bought at `price` (see [`position_after_add`]).
    ///
    /// Where nothing is rounded, the quantities add up, the new average
    /// price times the new quantity is the old average times the old
    /// quantity plus the price times the quantity bought, and a buy into an
    /// empty position takes the buy price as its average.
    pub fn add(&mut self, quantity: Quantity, price: &Price)
        requires
            add_defined(old(self)@, quantity@, price@.value),
        ensures
            final(self)@ == position_after_add(old(self)@, quantity@, price@.value),
            quantity@.mantissa != 0 && add_fits(old(self)@.quantity, quantity@) ==> final(self)@.quantity.val()
                == old(self)@.quantity.val() + quantity@.val(),
            quantity@.mantissa != 0 && old(self)@.quantity.mantissa == 0 && price@.value.mantissa >= 0
                && mul_fits(price@.value, quantity@) && add_fits(old(self)@.quantity, quantity@)
                ==> final(self)@.average_price.value.val() == price@.value.val(),
            ({
                let a = old(self)@.average_price.value;
                let q = old(self)@.quantity;
                let p = price@.value;
                let n = quantity@;
                n.mantissa != 0 && a.mantissa >= 0 && p.mantissa >= 0 && mul_fits(a, q) && mul_fits(p, n) && add_fits(
                    q,
                    n,
                ) && add_fits(exact_product(a, q), exact_product(p, n)) && (exists|m: int, s: nat|
                    #[trigger] exact_quotient_at(
                        exact_sum(exact_product(a, q), exact_product(p, n)),
                        exact_sum(q, n),
                        m,
                        s,
                    )) ==> final(self)@.average_price.value.val() * final(self)@.quantity.val() == a.val() * q.val()
                    + p.val() * n.val()
            }),
    {
        if quantity.is_zero() {
            return;
        }
        let ghost a0 = self@.average_price.value;
        let ghost q0 = self@.quantity;
        let ghost p0 = price@.value;
        let ghost n0 = quantity@;
        self.quantity.lemma_not_negative();
        quantity.lemma_not_negative();
        let _ = self.average_price.value().mantissa();
        let _ = self.quantity.value().mantissa();
        let _ = price.value().mantissa();
        let _ = quantity.value().mantissa();
        let current_cost = self.average_price.value().mul(&self.quantity.value());
        let additional_cost = price.value().mul(&quantity.value());
        let new_quantity = self.quantity.add(quantity);
        let new_average = if new_quantity.is_zero() {
            Decimal::zero()
        } else {
            let total = current_cost.add(&additional_cost);
            let avg = total.div(&new_quantity.value());
            proof {
                lemma_average_of_buy(
                    a0,
                    q0,
                    p0,
                    n0,
                    current_cost@,
                    additional_cost@,
                    total@,
                    new_quantity@,
                    avg@,
                );
                lemma_val_sign(p0);
                lemma_val_sign(a0);
                lemma_val_sign(q0);
                lemma_val_sign(n0);
                lemma_val_sign(avg@);
                if add_fits(q0, n0) {
                    lemma_exact_sum_value(q0, n0);
                }
                let av = avg@.val();
                let nv = new_quantity@.val();
                let rhs = a0.val() * q0.val() + p0.val() * n0.val();
                if a0.mantissa >= 0 && p0.mantissa >= 0 && av * nv == rhs && nv > 0 {
                    assert(rhs >= 0) by (nonlinear_arith)
                        requires
                            rhs == a0.val() * q0.val() + p0.val() * n0.val(),
                            a0.val() >= 0,
                            q0.val() >= 0,
                            p0.val() >= 0,
                            n0.val() >= 0,
                    ;
                    assert(av >= 0) by (nonlinear_arith)
                        requires
                            av * nv >= 0,
                            nv > 0,
                    ;
                }
            }
            avg
        };
        proof {
            if add_fits(q0, n0) {
                lemma_exact_sum_value(q0, n0);
                lemma_val_sign(q0);
                lemma_val_sign(n0);
                lemma_val_sign(new_quantity@);
            }
        }
        self.quantity = new_quantity;
        match Price::new(new_average, self.currency.clone()) {
            Ok(p) => {
                self.average_price = p;
            },
            Err(_) => {},
        }
    }

    /// Removes `quantity` sold (see [`position_after_reduce`]).
    pub fn reduce(&mut self, quantity: Quantity)
        ensures
            decimal_checked_sub(old(self)@.quantity, quantity@) is Some,
            final(self)@ == position_after_reduce(old(self)@, quantity@),
    {
        self.quantity = self.quantity.subtract(quantity);
        if self.quantity.is_zero() {
            match Price::new(Decimal::zero(), self.currency.clone()) {
                Ok(p) => {
                    self.average_price = p;
                },
                Err(_) => {},
            }
        }
    }

    /// Current price times quantity.
    pub fn market_value(&self, current_price: &Price) -> (r: Money)
        requires
            decimal_checked_mul(current_price@.value, self@.quantity) is Some,
        ensures
            r@ == (MoneyView { amount: product_of(current_price@.value, self@.quantity), currency: self@.currency }),
    {
        Money::new(current_price.value().mul(&self.quantity.value()), self.currency.clone())
    }
}

/// Selling never takes a position below zero, and a position sold out has
/// a zero average price.
pub proof fn lemma_reduce_not_negative(p: PositionView, quantity: DecimalView)
    ensures
        position_after_reduce(p, quantity).quantity.mantissa >= 0,
        position_after_reduce(p, quantity).quantity.mantissa == 0 ==> position_after_reduce(
            p,
            quantity,
        ).average_price.value == dv(0, 0),
        position_after_reduce(p, quantity).instrument == p.instrument,
{
}

} // verus!
