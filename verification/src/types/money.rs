//! Monetary types: currencies, amounts of money, prices and quantities.
use vstd::prelude::*;
use crate::text::{
    to_uppercase, uppercase, all_ascii, ascii_upper, parse_u64, parse_u64_spec, unsigned_body, all_digits, is_digit,
    digits_value,
};
use crate::types::decimal::{
    Decimal, DecimalView, dv, decimal_checked_add, decimal_checked_sub, decimal_checked_mul,
    sum_of, difference_of, product_of, add_fits, sub_fits, mul_fits, exact_sum,
    exact_difference, exact_product, lemma_add_then_subtract, lemma_val_sign, decimal_text, digits, pad_zeros,
    magnitude, digit_char,
};

verus! {

/// A currency code such as `USD`, always in upper case.
#[derive(Debug, Eq, Hash)]
pub struct Currency(String);

impl View for Currency {
    type V = Seq<char>;

    closed spec fn view(&self) -> Seq<char> {
        self.0@
    }
}

impl Clone for Currency {
    fn clone(&self) -> (r: Self)
        ensures
            r == *self,
    {
        Currency(self.0.clone())
    }
}

impl PartialEq for Currency {
    fn eq(&self, other: &Currency) -> (r: bool) {
        self.0 == other.0
    }
}

impl vstd::std_specs::cmp::PartialEqSpecImpl for Currency {
    open spec fn obeys_eq_spec() -> bool {
        true
    }

    open spec fn eq_spec(&self, other: &Currency) -> bool {
        self@ == other@
    }
}

impl Currency {
    /// A currency from its code, turned to upper case.
    pub fn new(code: &str) -> (r: Currency)
        ensures
            r@ == uppercase(code@),
            all_ascii(code@) ==> r@ == ascii_upper(code@),
    {
        Currency(to_uppercase(code))
    }

    /// The currency code.
    pub fn code(&self) -> (r: &str)
        ensures
            r@ == self@,
    {
        self.0.as_str()
    }

    /// US Dollar.
    pub fn usd() -> (r: Currency)
        ensures
            r@ == uppercase("USD"@),
            r@ == "USD"@,
    {
        proof {
            reveal_strlit("USD");
            assert(ascii_upper("USD"@) =~= "USD"@);
        }
        Currency::new("USD")
    }

    /// Russian Ruble.
    pub fn rub() -> (r: Currency)
        ensures
            r@ == uppercase("RUB"@),
            r@ == "RUB"@,
    {
        proof {
            reveal_strlit("RUB");
            assert(ascii_upper("RUB"@) =~= "RUB"@);
        }
        Currency::new("RUB")
    }

    /// Bitcoin.
    pub fn btc() -> (r: Currency)
        ensures
            r@ == uppercase("BTC"@),
            r@ == "BTC"@,
    {
        proof {
            reveal_strlit("BTC");
            assert(ascii_upper("BTC"@) =~= "BTC"@);
        }
        Currency::new("BTC")
    }

    /// Ethereum.
    pub fn eth() -> (r: Currency)
        ensures
            r@ == uppercase("ETH"@),
            r@ == "ETH"@,
    {
        proof {
            reveal_strlit("ETH");
            assert(ascii_upper("ETH"@) =~= "ETH"@);
        }
        Currency::new("ETH")
    }

    /// Tether (USDT).
    pub fn usdt() -> (r: Currency)
        ensures
            r@ == uppercase("USDT"@),
            r@ == "USDT"@,
    {
        proof {
            reveal_strlit("USDT");
            assert(ascii_upper("USDT"@) =~= "USDT"@);
        }
        Currency::new("USDT")
    }

    /// The code as text.
    pub fn to_string(&self) -> (r: String)
        ensures
            r@ == self@,
    {
        self.0.clone()
    }
}

/// `r` is the error that reports two currencies as `expected` and `actual`.
pub open spec fn mismatch<T>(r: Result<T, MoneyError>, expected: Seq<char>, actual: Seq<char>) -> bool {
    &&& r is Err
    &&& r->Err_0 matches MoneyError::CurrencyMismatch { expected: e, actual: a }
    &&& e@ == expected
    &&& a@ == actual
}

/// Errors of money operations.
#[derive(Debug)]
pub enum MoneyError {
    /// Two amounts of different currencies were combined.
    CurrencyMismatch { expected: Currency, actual: Currency },
    /// A price below zero.
    NegativePrice,
    /// A quantity below zero.
    NegativeQuantity,
    /// A number that has no decimal form.
    InvalidDecimal,
}

impl Clone for MoneyError {
    fn clone(&self) -> (r: Self)
        ensures
            r == *self,
    {
        match self {
            MoneyError::CurrencyMismatch { expected, actual } => MoneyError::CurrencyMismatch {
                expected: expected.clone(),
                actual: actual.clone(),
            },
            MoneyError::NegativePrice => MoneyError::NegativePrice,
            MoneyError::NegativeQuantity => MoneyError::NegativeQuantity,
            MoneyError::InvalidDecimal => MoneyError::InvalidDecimal,
        }
    }
}

/// The content of a [`Money`] value.
pub struct MoneyView {
    pub amount: DecimalView,
    pub currency: Seq<char>,
}

/// An amount in a currency.
#[derive(Debug)]
pub struct Money {
    amount: Decimal,
    currency: Currency,
}

impl View for Money {
    type V = MoneyView;

    closed spec fn view(&self) -> MoneyView {
        MoneyView { amount: self.amount@, currency: self.currency@ }
    }
}

impl Clone for Money {
    fn clone(&self) -> (r: Self)
        ensures
            r@ == self@,
    {
        Money { amount: self.amount, currency: self.currency.clone() }
    }
}

impl Money {
    /// An amount in a currency.
    pub fn new(amount: Decimal, currency: Currency) -> (r: Money)
        ensures
            r@ == (MoneyView { amount: amount@, currency: currency@ }),
    {
        Money { amount, currency }
    }

    /// The amount.
    pub fn amount(&self) -> (r: Decimal)
        ensures
            r@ == self@.amount,
    {
        self.amount
    }

    /// The currency.
    pub fn currency(&self) -> (r: &Currency)
        ensures
            r@ == self@.currency,
    {
        &self.currency
    }

    /// Zero in a currency.
    pub fn zero(currency: Currency) -> (r: Money)
        ensures
            r@ == (MoneyView { amount: dv(0, 0), currency: currency@ }),
    {
        Money { amount: Decimal::zero(), currency }
    }

    /// Whether the amount is zero.
    pub fn is_zero(&self) -> (r: bool)
        ensures
            r == (self@.amount.mantissa == 0),
    {
        self.amount.is_zero()
    }

    /// Whether the amount is above zero.
    pub fn is_positive(&self) -> (r: bool)
        ensures
            r == (self@.amount.mantissa > 0),
    {
        self.amount.is_sign_positive() && !self.amount.is_zero()
    }

    /// The sum of two amounts of one currency.
    pub fn add(&self, other: &Money) -> (r: Result<Money, MoneyError>)
        requires
            self@.currency == other@.currency ==> decimal_checked_add(self@.amount, other@.amount) is Some,
        ensures
            self@.currency != other@.currency ==> mismatch(r, self@.currency, other@.currency),
            self@.currency == other@.currency ==> r is Ok && r->Ok_0@ == (MoneyView {
                amount: sum_of(self@.amount, other@.amount),
                currency: self@.currency,
            }),
            self@.currency == other@.currency && add_fits(self@.amount, other@.amount) ==> r->Ok_0@.amount
                == exact_sum(self@.amount, other@.amount),
    {
        if self.currency != other.currency {
            return Err(
                MoneyError::CurrencyMismatch {
                    expected: self.currency.clone(),
                    actual: other.currency.clone(),
                },
            );
        }
        Ok(Money { amount: self.amount.add(&other.amount), currency: self.currency.clone() })
    }

    /// The difference of two amounts of one currency.
    pub fn subtract(&self, other: &Money) -> (r: Result<Money, MoneyError>)
        requires
            self@.currency == other@.currency ==> decimal_checked_sub(self@.amount, other@.amount) is Some,
        ensures
            self@.currency != other@.currency ==> mismatch(r, self@.currency, other@.currency),
            self@.currency == other@.currency ==> r is Ok && r->Ok_0@ == (MoneyView {
                amount: difference_of(self@.amount, other@.amount),
                currency: self@.currency,
            }),
            self@.currency == other@.currency && sub_fits(self@.amount, other@.amount) ==> r->Ok_0@.amount
                == exact_difference(self@.amount, other@.amount),
    {
        if self.currency != other.currency {
            return Err(
                MoneyError::CurrencyMismatch {
                    expected: self.currency.clone(),
                    actual: other.currency.clone(),
                },
            );
        }
        Ok(Money { amount: self.amount.sub(&other.amount), currency: self.currency.clone() })
    }

    /// The amount multiplied by a quantity.
    pub fn multiply(&self, quantity: Quantity) -> (r: Money)
        requires
            decimal_checked_mul(self@.amount, quantity@) is Some,
        ensures
            r@ == (MoneyView { amount: product_of(self@.amount, quantity@), currency: self@.currency }),
            mul_fits(self@.amount, quantity@) ==> r@.amount == exact_product(self@.amount, quantity@),
    {
        Money { amount: self.amount.mul(&quantity.value()), currency: self.currency.clone() }
    }
}

/// The content of a [`Price`].
pub struct PriceView {
    pub value: DecimalView,
    pub currency: Seq<char>,
}

/// A price in a currency.
#[derive(Debug)]
pub struct Price {
    value: Decimal,
    currency: Currency,
}

impl View for Price {
    type V = PriceView;

    closed spec fn view(&self) -> PriceView {
        PriceView { value: self.value@, currency: self.currency@ }
    }
}

impl Clone for Price {
    fn clone(&self) -> (r: Self)
        ensures
            r@ == self@,
    {
        Price { value: self.value, currency: self.currency.clone() }
    }
}

impl Price {
    /// A price; refused when below zero.
    pub fn new(value: Decimal, currency: Currency) -> (r: Result<Price, MoneyError>)
        ensures
            value@.mantissa < 0 ==> r == Err::<Price, MoneyError>(MoneyError::NegativePrice),
            value@.mantissa >= 0 ==> r is Ok && r->Ok_0@ == (PriceView { value: value@, currency: currency@ }),
    {
        if value.is_sign_negative() {
            return Err(MoneyError::NegativePrice);
        }
        Ok(Price { value, currency })
    }

    /// The value.
    pub fn value(&self) -> (r: Decimal)
        ensures
            r@ == self@.value,
    {
        self.value
    }

    /// The currency.
    pub fn currency(&self) -> (r: &Currency)
        ensures
            r@ == self@.currency,
    {
        &self.currency
    }

    /// The price raised by a step.
    pub fn add_step(&self, step: Decimal) -> (r: Price)
        requires
            decimal_checked_add(self@.value, step@) is Some,
        ensures
            r@ == (PriceView { value: sum_of(self@.value, step@), currency: self@.currency }),
            add_fits(self@.value, step@) ==> r@.value == exact_sum(self@.value, step@),
    {
        Price { value: self.value.add(&step), currency: self.currency.clone() }
    }

    /// The price lowered by a step, and zero where that would go below zero.
    pub fn subtract_step(&self, step: Decimal) -> (r: Price)
        requires
            decimal_checked_sub(self@.value, step@) is Some,
        ensures
            r@.currency == self@.currency,
            difference_of(self@.value, step@).mantissa < 0 ==> r@.value == dv(0, 0),
            difference_of(self@.value, step@).mantissa >= 0 ==> r@.value == difference_of(self@.value, step@),
            sub_fits(self@.value, step@) ==> difference_of(self@.value, step@) == exact_difference(self@.value, step@),
    {
        let new_value = self.value.sub(&step);
        Price {
            value: if new_value.is_sign_negative() {
                Decimal::zero()
            } else {
                new_value
            },
            currency: self.currency.clone(),
        }
    }

    /// `self - other` for prices of one currency.
    pub fn difference(&self, other: &Price) -> (r: Result<Decimal, MoneyError>)
        requires
            self@.currency == other@.currency ==> decimal_checked_sub(self@.value, other@.value) is Some,
        ensures
            self@.currency != other@.currency ==> mismatch(r, self@.currency, other@.currency),
            self@.currency == other@.currency ==> r is Ok && r->Ok_0@ == difference_of(self@.value, other@.value),
            self@.currency == other@.currency && sub_fits(self@.value, other@.value) ==> r->Ok_0@
                == exact_difference(self@.value, other@.value),
    {
        if self.currency != other.currency {
            return Err(
                MoneyError::CurrencyMismatch {
                    expected: self.currency.clone(),
                    actual: other.currency.clone(),
                },
            );
        }
        Ok(self.value.sub(&other.value))
    }
}

/// The whole number of lots that the text of a decimal reads as, and zero
/// where it does not read as a `u64` (it has a point, a sign, or is too
/// large).
pub open spec fn lots_of(d: DecimalView) -> nat {
    match parse_u64_spec(decimal_text(d)) {
        Some(n) => n as nat,
        None => 0,
    }
}

/// The digits of `n` are decimal digits that read back as `n`.
proof fn lemma_digits_read_back(n: nat)
    ensures
        all_digits(digits(n)),
        digits_value(digits(n)) == n,
    decreases n,
{
    if n > 0 {
        lemma_digits_read_back(n / 10);
        let s = digits(n);
        let c = digit_char(n % 10);
        assert(s.drop_last() =~= digits(n / 10));
        assert(s.last() == c);
        assert(c as int == 48 + n % 10);
        assert forall|i: int| 0 <= i < s.len() implies is_digit(#[trigger] s[i]) by {
            if i < s.len() - 1 {
                assert(s[i] == digits(n / 10)[i]);
            }
        }
    }
}

/// A whole number that fits a `u64`, written with no digits after the point,
/// reads back as itself: that many lots.
pub proof fn lemma_whole_number_is_its_lots(n: nat)
    requires
        n <= u64::MAX,
    ensures
        parse_u64_spec(decimal_text(dv(n as int, 0))) == Some(n as u64),
        lots_of(dv(n as int, 0)) == n,
{
    let t = decimal_text(dv(n as int, 0));
    if n == 0 {
        let z = seq!['0'];
        assert(digits(0) =~= Seq::<char>::empty());
        assert(t =~= z);
        assert(unsigned_body(z) =~= z);
        assert(z.drop_last() =~= Seq::<char>::empty());
        assert(digits_value(Seq::<char>::empty()) == 0);
        assert(z.last() == '0');
        assert('0' as int == 48);
        assert(digits_value(z) == 0);
        assert(all_digits(z));
    } else {
        lemma_digits_read_back(n);
        assert(magnitude(n as int) == n);
        assert(t =~= digits(n));
        assert(t.len() > 0);
        assert(is_digit(t[0]));
        assert(unsigned_body(t) =~= t);
    }
}

/// A decimal with digits after the point is written with a point, so its
/// text is no whole number: it counts as no lots.
pub proof fn lemma_fraction_is_no_lots(d: DecimalView)
    requires
        d.scale > 0,
    ensures
        parse_u64_spec(decimal_text(d)) is None,
        lots_of(d) == 0,
{
    let ds = pad_zeros(digits(magnitude(d.mantissa)), d.scale);
    let w = ds.len() - d.scale;
    let pre = if w == 0 {
        seq!['0']
    } else {
        ds.take(w)
    };
    let body = pre + seq!['.'] + ds.skip(w);
    let t = decimal_text(d);
    let k: int = if d.mantissa < 0 {
        pre.len() + 1int
    } else {
        pre.len() as int
    };
    assert(t =~= if d.mantissa < 0 {
        seq!['-'] + body
    } else {
        body
    });
    assert(body[pre.len() as int] == '.');
    assert(t[k] == '.');
    assert(1 <= k < t.len());
    let b = unsigned_body(t);
    if t.len() > 0 && t[0] == '+' {
        assert(b[k - 1] == '.');
        assert(!is_digit(b[k - 1]));
    } else {
        assert(b[k] == '.');
        assert(!is_digit(b[k]));
    }
    assert(!all_digits(b));
}

/// A quantity of an asset, never below zero.
#[derive(Clone, Copy, Debug)]
pub struct Quantity(Decimal);

impl Quantity {
    #[verifier::type_invariant]
    spec fn not_negative(self) -> bool {
        self.0@.mantissa >= 0
    }
}

impl View for Quantity {
    type V = DecimalView;

    closed spec fn view(&self) -> DecimalView {
        self.0@
    }
}

impl Quantity {
    /// A quantity; refused when below zero.
    pub fn new(value: Decimal) -> (r: Result<Quantity, MoneyError>)
        ensures
            value@.mantissa < 0 ==> r == Err::<Quantity, MoneyError>(MoneyError::NegativeQuantity),
            value@.mantissa >= 0 ==> r is Ok && r->Ok_0@ == value@,
    {
        if value.is_sign_negative() {
            return Err(MoneyError::NegativeQuantity);
        }
        Ok(Quantity(value))
    }

    /// A whole number of lots.
    pub fn from_lots(lots: u64) -> (r: Quantity)
        ensures
            r@ == dv(lots as int, 0),
    {
        Quantity(Decimal::from_u64(lots))
    }

    /// The value.
    pub fn value(&self) -> (r: Decimal)
        ensures
            r@ == self@,
            r@.mantissa >= 0,
    {
        proof {
            use_type_invariant(self);
        }
        self.0
    }

    /// The quantity as a whole number of lots: the value when it is written
    /// without a decimal point, and zero otherwise (`10.0` gives zero).
    pub fn as_lots(&self) -> (r: u64)
        ensures
            r == lots_of(self@),
    {
        let text = self.0.to_string();
        match parse_u64(text.as_str()) {
            Some(n) => n,
            None => 0,
        }
    }

    /// Whether the quantity is zero.
    pub fn is_zero(&self) -> (r: bool)
        ensures
            r == (self@.mantissa == 0),
    {
        self.0.is_zero()
    }

    /// Zero lots.
    pub fn zero() -> (r: Quantity)
        ensures
            r@ == dv(0, 0),
    {
        Quantity(Decimal::zero())
    }

    /// The sum of two quantities.
    pub fn add(&self, other: Quantity) -> (r: Quantity)
        requires
            decimal_checked_add(self@, other@) is Some,
        ensures
            r@ == sum_of(self@, other@),
            add_fits(self@, other@) ==> r@ == exact_sum(self@, other@),
    {
        proof {
            use_type_invariant(self);
            use_type_invariant(&other);
        }
        Quantity(self.0.add(&other.0))
    }

    /// The sum of two quantities, or `None` where it overflows.
    pub fn checked_add(&self, other: Quantity) -> (r: Option<Quantity>)
        ensures
            decimal_checked_add(self@, other@) is None ==> r is None,
            decimal_checked_add(self@, other@) is Some ==> r is Some && r->Some_0@ == sum_of(self@, other@),
    {
        proof {
            use_type_invariant(self);
            use_type_invariant(&other);
        }
        match self.0.checked_add(&other.0) {
            Some(d) => Some(Quantity(d)),
            None => None,
        }
    }

    /// The view of every quantity is not below zero.
    pub fn lemma_not_negative(&self)
        ensures
            self@.mantissa >= 0,
    {
        proof {
            use_type_invariant(self);
        }
    }

    /// The difference of two quantities, and zero where it would go below zero.
    pub fn subtract(&self, other: Quantity) -> (r: Quantity)
        ensures
            decimal_checked_sub(self@, other@) is Some,
            difference_of(self@, other@).mantissa < 0 ==> r@ == dv(0, 0),
            difference_of(self@, other@).mantissa >= 0 ==> r@ == difference_of(self@, other@),
            sub_fits(self@, other@) ==> difference_of(self@, other@) == exact_difference(self@, other@),
    {
        proof {
            use_type_invariant(self);
            use_type_invariant(&other);
        }
        let result = self.0.checked_sub(&other.0).unwrap();
        if result.is_sign_negative() {
            Quantity::zero()
        } else {
            Quantity(result)
        }
    }

    /// The quantity written in decimal digits.
    pub fn to_string(&self) -> (r: String)
        ensures
            r@ == crate::types::decimal::decimal_text(self@),
    {
        self.0.to_string()
    }

    /// `self < other` by value.
    pub fn lt(&self, other: &Quantity) -> (r: bool)
        ensures
            r == (self@.val() < other@.val()),
    {
        self.0.lt(&other.0)
    }

    /// `self <= other` by value.
    pub fn le(&self, other: &Quantity) -> (r: bool)
        ensures
            r == (self@.val() <= other@.val()),
    {
        self.0.le(&other.0)
    }

    /// `self >= other` by value.
    pub fn ge(&self, other: &Quantity) -> (r: bool)
        ensures
            r == (self@.val() >= other@.val()),
    {
        self.0.ge(&other.0)
    }
}

/// Adding a quantity and then subtracting the same quantity gives back the
/// value first held, where neither step is rounded; the subtraction is not
/// clamped at zero.
pub proof fn lemma_quantity_add_then_subtract(a: DecimalView, b: DecimalView)
    requires
        a.wf(),
        b.wf(),
        a.mantissa >= 0,
        b.mantissa >= 0,
        add_fits(a, b),
        sub_fits(exact_sum(a, b), b),
    ensures
        exact_difference(exact_sum(a, b), b).val() == a.val(),
        exact_difference(exact_sum(a, b), b).mantissa >= 0,
{
    lemma_add_then_subtract(a, b);
    lemma_val_sign(a);
    lemma_val_sign(exact_difference(exact_sum(a, b), b));
}

/// Raising a price by a step and lowering it by the same step gives back
/// the value of the price, where neither step is rounded; the lowering is not
/// clamped at zero.
pub proof fn lemma_price_step_round_trip(price: DecimalView, step: DecimalView)
    requires
        price.wf(),
        step.wf(),
        price.mantissa >= 0,
        add_fits(price, step),
        sub_fits(exact_sum(price, step), step),
    ensures
        exact_difference(exact_sum(price, step), step).val() == price.val(),
        exact_difference(exact_sum(price, step), step).mantissa >= 0,
{
    lemma_add_then_subtract(price, step);
    lemma_val_sign(price);
    lemma_val_sign(exact_difference(exact_sum(price, step), step));
}

} // verus!
