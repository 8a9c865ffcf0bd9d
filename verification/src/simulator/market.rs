//! A simulated market: a mid price that moves tick by tick, and an order
//! book generated around it.
use vstd::prelude::*;
use crate::text::{owned, parse_u64, parse_u64_spec};
use crate::types::decimal::{
    Decimal, DecimalView, dv, opt_view, decimal_checked_add, decimal_checked_sub, decimal_checked_mul,
    sum_of, difference_of, product_of, decimal_text, pow10, mul_fits, add_fits, MAX_MANTISSA, sub_fits,
    max_scale, lemma_exact_product_value, lemma_exact_sum_value, lemma_exact_difference_value, lemma_val_sign,
    lemma_pow10_positive,
};
use crate::types::money::{Currency, Price, PriceView, Quantity, lemma_fraction_is_no_lots,
    lemma_whole_number_is_its_lots};
use crate::types::order_book::{OrderBookLevel, LevelView, levels_view};

verus! {

/// The trend of a simulated market.
#[derive(Clone, Copy, Debug, PartialEq, Eq, Structural)]
pub enum MarketCondition {
    /// Prices drift up.
    Bullish,
    /// Prices drift down.
    Bearish,
    /// Prices move sideways with low volatility.
    Ranging,
    /// Prices move widely.
    Volatile,
}

impl Default for MarketCondition {
    fn default() -> (r: Self)
        ensures
            r == MarketCondition::Ranging,
    {
        MarketCondition::Ranging
    }
}

/// The settings of a simulated market.
#[derive(Debug)]
pub struct SimulatedMarketConfig {
    /// The instrument symbol.
    pub symbol: String,
    /// The currency of prices.
    pub currency: Currency,
    /// The starting mid price.
    pub initial_price: Decimal,
    /// The price step (tick size).
    pub price_step: Decimal,
    /// The lot size.
    pub lot_size: u64,
    /// The spread in price steps.
    pub spread_ticks: u32,
    /// Lots at each generated level.
    pub base_liquidity: u64,
    /// Number of generated levels on each side.
    pub book_depth: usize,
}

impl Clone for SimulatedMarketConfig {
    fn clone(&self) -> (r: Self)
        ensures
            r == *self,
    {
        SimulatedMarketConfig {
            symbol: self.symbol.clone(),
            currency: self.currency.clone(),
            initial_price: self.initial_price,
            price_step: self.price_step,
            lot_size: self.lot_size,
            spread_ticks: self.spread_ticks,
            base_liquidity: self.base_liquidity,
            book_depth: self.book_depth,
        }
    }
}

impl Default for SimulatedMarketConfig {
    /// Symbol `TEST` in US dollars at 100, step 0.01, lot size 1, a spread of
    /// two steps, 100 lots per level and ten levels.
    fn default() -> (r: Self)
        ensures
            r.symbol@ == "TEST"@,
            r.currency@ == crate::text::uppercase("USD"@),
            r.currency@ == "USD"@,
            r.initial_price@ == dv(100, 0),
            r.price_step@ == dv(1, 2),
            r.lot_size == 1,
            r.spread_ticks == 2,
            r.base_liquidity == 100,
            r.book_depth == 10,
    {
        SimulatedMarketConfig {
            symbol: owned("TEST"),
            currency: Currency::usd(),
            initial_price: Decimal::from_u64(100),
            price_step: Decimal::new(1, 2),
            lot_size: 1,
            spread_ticks: 2,
            base_liquidity: 100,
            book_depth: 10,
        }
    }
}

/// The content of a [`SimulatedMarket`].
pub struct MarketView {
    pub config: SimulatedMarketConfig,
    pub mid: DecimalView,
    pub condition: MarketCondition,
    pub volatility: DecimalView,
    pub tick_count: u64,
}

/// Half the spread: the price step times half the spread ticks, rounded down.
pub open spec fn half_spread(c: SimulatedMarketConfig) -> DecimalView {
    product_of(c.price_step@, dv((c.spread_ticks / 2) as int, 0))
}

/// The best bid can be computed.
pub open spec fn bid_defined(m: MarketView) -> bool {
    &&& decimal_checked_mul(m.config.price_step@, dv((m.config.spread_ticks / 2) as int, 0)) is Some
    &&& decimal_checked_sub(m.mid, half_spread(m.config)) is Some
}

/// The best ask can be computed.
pub open spec fn ask_defined(m: MarketView) -> bool {
    &&& decimal_checked_mul(m.config.price_step@, dv((m.config.spread_ticks / 2) as int, 0)) is Some
    &&& decimal_checked_add(m.mid, half_spread(m.config)) is Some
}

/// The best price of one side can be computed: the ask when `up`, the bid
/// otherwise.
pub open spec fn side_defined(m: MarketView, up: bool) -> bool {
    if up {
        ask_defined(m)
    } else {
        bid_defined(m)
    }
}

/// A price, or zero where the value is below zero.
pub open spec fn price_or_zero(v: DecimalView, currency: Seq<char>) -> PriceView {
    if v.mantissa < 0 {
        PriceView { value: dv(0, 0), currency }
    } else {
        PriceView { value: v, currency }
    }
}

/// The best bid: mid price less half the spread, never below zero.
pub open spec fn best_bid_spec(m: MarketView) -> PriceView {
    price_or_zero(difference_of(m.mid, half_spread(m.config)), m.config.currency@)
}

/// The best ask: mid price plus half the spread, never below zero.
pub open spec fn best_ask_spec(m: MarketView) -> PriceView {
    price_or_zero(sum_of(m.mid, half_spread(m.config)), m.config.currency@)
}

/// The offset of level `i` from the best price: `i` price steps.
pub open spec fn level_offset(c: SimulatedMarketConfig, i: int) -> DecimalView {
    product_of(c.price_step@, dv((i as u32) as int, 0))
}

/// The liquidity multiplier of level `i`: `1 + i/10`.
pub open spec fn level_multiplier(i: int) -> DecimalView {
    sum_of(dv(1, 0), dv((i as i64) as int, 1))
}

/// What parsing the text of `d` as a whole number gives, or `default` where
/// the text is not one (it has a decimal point, a sign, or is too large).
pub open spec fn parse_lots_or(d: DecimalView, default: u64) -> u64 {
    match parse_u64_spec(decimal_text(d)) {
        Some(n) => n,
        None => default,
    }
}

/// The lots of level `i`: the base liquidity times the multiplier, where
/// that reads as a whole number, and the base liquidity otherwise. The
/// first level's multiplier is `1`; every later one has a digit after the
/// point, which the product keeps (`100 × 1.1` is written `110.0`), so it does
/// not read as a whole number and the level holds the base liquidity.
pub open spec fn level_lots(c: SimulatedMarketConfig, i: int) -> u64 {
    parse_lots_or(product_of(dv(c.base_liquidity as int, 0), level_multiplier(i)), c.base_liquidity)
}

/// Every level holds the base liquidity. The first level's multiplier is
/// `1`; the product of any later one has a digit after the point, so its text
/// is no whole number and the base liquidity stands.
pub proof fn lemma_levels_hold_base_liquidity(c: SimulatedMarketConfig, i: int)
    requires
        0 <= i <= 1_000_000_000,
    ensures
        level_lots(c, i) == c.base_liquidity,
{
    let b = c.base_liquidity as int;
    let m = level_multiplier(i);
    assert((i as i64) as int == i);
    assert(pow10(0) == 1);
    assert(pow10(1) == 10) by {
        reveal_with_fuel(pow10, 2);
    }
    if i == 0 {
        assert(m == dv(1, 0));
        if b == 0 {
            assert(product_of(dv(b, 0), m) == dv(0, 0));
            lemma_whole_number_is_its_lots(0);
        } else {
            assert(mul_fits(dv(b, 0), m));
            assert(product_of(dv(b, 0), m) == dv(b, 0));
            lemma_whole_number_is_its_lots(b as nat);
        }
    } else {
        assert(dv(1, 0).aligned(1) == 10);
        assert(dv(i, 1).aligned(1) == i * pow10(0));
        assert(i * pow10(0) == i);
        assert(add_fits(dv(1, 0), dv(i, 1)));
        assert(m == dv(10 + i, 1));
        if b == 0 {
            assert(product_of(dv(b, 0), m) == dv(0, 0));
            lemma_whole_number_is_its_lots(0);
        } else {
            assert(b * (10 + i) <= MAX_MANTISSA) by (nonlinear_arith)
                requires
                    0 < b < 18446744073709551616,
                    0 < i <= 1_000_000_000,
            ;
            let p = product_of(dv(b, 0), m);
            assert(p == dv(b * (10 + i), 1));
            lemma_fraction_is_no_lots(p);
        }
    }
}

/// The number of orders at level `i`: `5 + i`.
pub open spec fn level_count(i: int) -> u32 {
    ((5 + i) % 4294967296) as u32
}

/// Level `i` of one side, `best` being the best price of that side and `up`
/// telling whether levels rise (asks) or fall (bids) from it.
pub open spec fn level_spec(c: SimulatedMarketConfig, best: PriceView, i: int, up: bool) -> LevelView {
    let v = if up {
        sum_of(best.value, level_offset(c, i))
    } else {
        difference_of(best.value, level_offset(c, i))
    };
    LevelView {
        price: if v.mantissa < 0 {
            best
        } else {
            PriceView { value: v, currency: c.currency@ }
        },
        total_quantity: dv(level_lots(c, i) as int, 0),
        order_count: level_count(i),
    }
}

/// Level `i` of one side can be computed.
pub open spec fn level_defined(c: SimulatedMarketConfig, best: PriceView, i: int, up: bool) -> bool {
    &&& decimal_checked_mul(c.price_step@, dv((i as u32) as int, 0)) is Some
    &&& up ==> decimal_checked_add(best.value, level_offset(c, i)) is Some
    &&& !up ==> decimal_checked_sub(best.value, level_offset(c, i)) is Some
    &&& decimal_checked_add(dv(1, 0), dv((i as i64) as int, 1)) is Some
    &&& decimal_checked_mul(dv(c.base_liquidity as int, 0), level_multiplier(i)) is Some
}

/// The best price of one side: the best ask when `up`, the best bid otherwise.
pub open spec fn side_best(m: MarketView, up: bool) -> PriceView {
    if up {
        best_ask_spec(m)
    } else {
        best_bid_spec(m)
    }
}

/// All levels of one side can be computed.
pub open spec fn levels_defined(m: MarketView, up: bool) -> bool {
    &&& side_defined(m, up)
    &&& forall|i: int|
        0 <= i < m.config.book_depth ==> #[trigger] level_defined(
            m.config,
            side_best(m, up),
            i,
            up,
        )
}

/// The generated levels of one side.
pub open spec fn levels_spec(m: MarketView, up: bool) -> Seq<LevelView> {
    Seq::new(
        m.config.book_depth as nat,
        |i: int|
            level_spec(
                m.config,
                side_best(m, up),
                i,
                up,
            ),
    )
}

/// The pseudo-random factor of tick number `seed`, in hundredths: between
/// -50 and 49.
pub open spec fn random_hundredths(seed: u64) -> int {
    ((seed * 1103515245 + 12345) % 100) - 50
}

/// The price change of a tick: mid price times volatility times the random
/// factor, then biased up by 0.3 steps (bullish), down by 0.3 steps
/// (bearish), halved (ranging) or doubled (volatile).
pub open spec fn price_change_spec(m: MarketView, seed: u64) -> DecimalView {
    let base = product_of(product_of(m.mid, m.volatility), dv(random_hundredths(seed), 2));
    match m.condition {
        MarketCondition::Bullish => sum_of(base, product_of(m.config.price_step@, dv(3, 1))),
        MarketCondition::Bearish => difference_of(base, product_of(m.config.price_step@, dv(3, 1))),
        MarketCondition::Ranging => product_of(base, dv(5, 1)),
        MarketCondition::Volatile => product_of(base, dv(2, 0)),
    }
}

/// The market condition biases a tick by 0.3 price steps either way: for the
/// same market and tick, the change of a bullish market exceeds that of a
/// bearish one by 0.6 price steps (where nothing is rounded).
pub proof fn lemma_bullish_bearish_bias(m: MarketView, seed: u64)
    requires
        product_of(product_of(m.mid, m.volatility), dv(random_hundredths(seed), 2)).wf(),
        m.config.price_step@.wf(),
        mul_fits(m.config.price_step@, dv(3, 1)),
        add_fits(
            product_of(product_of(m.mid, m.volatility), dv(random_hundredths(seed), 2)),
            product_of(m.config.price_step@, dv(3, 1)),
        ),
        sub_fits(
            product_of(product_of(m.mid, m.volatility), dv(random_hundredths(seed), 2)),
            product_of(m.config.price_step@, dv(3, 1)),
        ),
    ensures
        10 * (price_change_spec(MarketView { condition: MarketCondition::Bullish, ..m }, seed).val()
            - price_change_spec(MarketView { condition: MarketCondition::Bearish, ..m }, seed).val()) == 6
            * m.config.price_step@.val(),
{
    let base = product_of(product_of(m.mid, m.volatility), dv(random_hundredths(seed), 2));
    let step = m.config.price_step@;
    let bias = product_of(step, dv(3, 1));
    lemma_exact_bias(step);
    lemma_exact_sum_value(base, bias);
    lemma_exact_difference_value(base, bias);
}

/// The bias of a bullish or bearish tick, 0.3 price steps, is exact where it
/// fits.
proof fn lemma_exact_bias(step: DecimalView)
    requires
        step.wf(),
        mul_fits(step, dv(3, 1)),
    ensures
        product_of(step, dv(3, 1)).wf(),
        10 * product_of(step, dv(3, 1)).val() == 3 * step.val(),
        step.mantissa >= 0 ==> product_of(step, dv(3, 1)).val() >= 0,
{
    let bias = product_of(step, dv(3, 1));
    lemma_exact_product_value(step, dv(3, 1));
    assert(pow10(1) == 10) by {
        reveal_with_fuel(pow10, 2);
    }
    let p27 = pow10(27);
    assert(pow10(28) == 10 * p27);
    assert(dv(3, 1).val() == 3 * p27);
    assert(bias.val() * (10 * p27) == step.val() * (3 * p27));
    lemma_pow10_positive(27);
    assert(10 * bias.val() == 3 * step.val()) by (nonlinear_arith)
        requires
            bias.val() * (10 * p27) == step.val() * (3 * p27),
            p27 >= 1,
    ;
    lemma_val_sign(step);
}

/// With no volatility a bullish tick never lowers the mid price: the change
/// is the bias of 0.3 price steps up (where nothing is rounded).
pub proof fn lemma_calm_bullish_tick_never_falls(m: MarketView)
    requires
        m.condition is Bullish,
        m.volatility.mantissa == 0,
        m.mid.wf(),
        m.config.price_step@.wf(),
        m.config.price_step@.mantissa >= 0,
        mul_fits(m.config.price_step@, dv(3, 1)),
        add_fits(m.mid, product_of(m.config.price_step@, dv(3, 1))),
    ensures
        after_tick(m).mid.val() >= m.mid.val(),
{
    let step = m.config.price_step@;
    let bias = product_of(step, dv(3, 1));
    let seed = (m.tick_count + 1) as u64;
    lemma_exact_bias(step);
    assert(mul_fits(m.mid, m.volatility));
    assert(product_of(m.mid, m.volatility) == dv(0, 0));
    let base = product_of(product_of(m.mid, m.volatility), dv(random_hundredths(seed), 2));
    assert(base == dv(0, 0));
    assert(add_fits(base, bias)) by {
        assert(max_scale(base, bias) == bias.scale);
        assert(base.aligned(bias.scale) == 0);
        assert(pow10(0) == 1);
        assert(bias.aligned(bias.scale) == bias.mantissa * pow10(0));
        assert(bias.mantissa * pow10(0) == bias.mantissa);
    }
    assert(price_change_spec(m, seed) == bias);
    lemma_exact_sum_value(m.mid, bias);
}

/// The price change of a tick can be computed.
pub open spec fn price_change_defined(m: MarketView, seed: u64) -> bool {
    let base = product_of(product_of(m.mid, m.volatility), dv(random_hundredths(seed), 2));
    &&& seed * 1103515245 + 12345 <= u64::MAX
    &&& decimal_checked_mul(m.mid, m.volatility) is Some
    &&& decimal_checked_mul(product_of(m.mid, m.volatility), dv(random_hundredths(seed), 2)) is Some
    &&& match m.condition {
        MarketCondition::Bullish => decimal_checked_mul(m.config.price_step@, dv(3, 1)) is Some
            && decimal_checked_add(base, product_of(m.config.price_step@, dv(3, 1))) is Some,
        MarketCondition::Bearish => decimal_checked_mul(m.config.price_step@, dv(3, 1)) is Some
            && decimal_checked_sub(base, product_of(m.config.price_step@, dv(3, 1))) is Some,
        MarketCondition::Ranging => decimal_checked_mul(base, dv(5, 1)) is Some,
        MarketCondition::Volatile => decimal_checked_mul(base, dv(2, 0)) is Some,
    }
}

/// A tick can be computed: the tick counter has room, and the change and the
/// new price do not overflow.
pub open spec fn tick_defined(m: MarketView) -> bool {
    &&& m.tick_count < u64::MAX
    &&& price_change_defined(m, (m.tick_count + 1) as u64)
    &&& decimal_checked_add(m.mid, price_change_spec(m, (m.tick_count + 1) as u64)) is Some
}

/// A price raised to the price step where it falls below it.
pub open spec fn floor_at_step(v: DecimalView, step: DecimalView) -> DecimalView {
    if v.val() < step.val() {
        step
    } else {
        v
    }
}

/// The market after a tick: the counter advances and the mid price moves by
/// [`price_change_spec`], never below the price step.
pub open spec fn after_tick(m: MarketView) -> MarketView {
    let seed = (m.tick_count + 1) as u64;
    MarketView {
        tick_count: seed,
        mid: floor_at_step(sum_of(m.mid, price_change_spec(m, seed)), m.config.price_step@),
        ..m
    }
}

/// A simulated market.
#[derive(Debug)]
pub struct SimulatedMarket {
    config: SimulatedMarketConfig,
    current_mid_price: Decimal,
    condition: MarketCondition,
    volatility: Decimal,
    tick_count: u64,
}

impl View for SimulatedMarket {
    type V = MarketView;

    closed spec fn view(&self) -> MarketView {
        MarketView {
            config: self.config,
            mid: self.current_mid_price@,
            condition: self.condition,
            volatility: self.volatility@,
            tick_count: self.tick_count,
        }
    }
}

impl Clone for SimulatedMarket {
    fn clone(&self) -> (r: Self)
        ensures
            r@ == self@,
    {
        SimulatedMarket {
            config: self.config.clone(),
            current_mid_price: self.current_mid_price,
            condition: self.condition,
            volatility: self.volatility,
            tick_count: self.tick_count,
        }
    }
}

impl SimulatedMarket {
    /// A market at its initial price, ranging, with a volatility of 0.001 and
    /// no ticks yet.
    pub fn new(config: SimulatedMarketConfig) -> (r: SimulatedMarket)
        ensures
            r@ == (MarketView {
                config,
                mid: config.initial_price@,
                condition: MarketCondition::Ranging,
                volatility: dv(1, 3),
                tick_count: 0,
            }),
    {
        let initial_price = config.initial_price;
        SimulatedMarket {
            config,
            current_mid_price: initial_price,
            condition: MarketCondition::Ranging,
            volatility: Decimal::new(1, 3),
            tick_count: 0,
        }
    }

    /// A market with the default configuration.
    pub fn default_market() -> (r: SimulatedMarket)
        ensures
            r@.config.symbol@ == "TEST"@,
            r@.config.currency@ == "USD"@,
            r@.config.initial_price@ == dv(100, 0),
            r@.mid == dv(100, 0),
            r@.config.price_step@ == dv(1, 2),
            r@.config.lot_size == 1,
            r@.config.spread_ticks == 2,
            r@.config.base_liquidity == 100,
            r@.config.book_depth == 10,
            r@.condition == MarketCondition::Ranging,
            r@.volatility == dv(1, 3),
            r@.tick_count == 0,
    {
        SimulatedMarket::new(SimulatedMarketConfig::default())
    }

    /// The configuration.
    pub fn config(&self) -> (r: &SimulatedMarketConfig)
        ensures
            *r == self@.config,
    {
        &self.config
    }

    /// The symbol.
    pub fn symbol(&self) -> (r: &str)
        ensures
            r@ == self@.config.symbol@,
    {
        self.config.symbol.as_str()
    }

    /// The mid price.
    pub fn mid_price(&self) -> (r: Decimal)
        ensures
            r@ == self@.mid,
    {
        self.current_mid_price
    }

    /// Half the spread, where it can be computed.
    fn checked_half_spread(&self) -> (r: Option<Decimal>)
        ensures
            opt_view(r) == decimal_checked_mul(self@.config.price_step@, dv((self@.config.spread_ticks / 2) as int, 0)),
            r is Some ==> r->Some_0@ == half_spread(self@.config),
    {
        self.config.price_step.checked_mul(&Decimal::from_u64((self.config.spread_ticks / 2) as u64))
    }

    /// The best bid, or `None` where the arithmetic overflows.
    pub fn checked_best_bid(&self) -> (r: Option<Price>)
        ensures
            bid_defined(self@) ==> r is Some && r->Some_0@ == best_bid_spec(self@),
            !bid_defined(self@) ==> r is None,
    {
        let half = match self.checked_half_spread() {
            Some(h) => h,
            None => return None,
        };
        let v = match self.current_mid_price.checked_sub(&half) {
            Some(v) => v,
            None => return None,
        };
        match Price::new(v, self.config.currency.clone()) {
            Ok(p) => Some(p),
            Err(_) => Some(Price::new(Decimal::zero(), self.config.currency.clone()).unwrap()),
        }
    }

    /// The best ask, or `None` where the arithmetic overflows.
    pub fn checked_best_ask(&self) -> (r: Option<Price>)
        ensures
            ask_defined(self@) ==> r is Some && r->Some_0@ == best_ask_spec(self@),
            !ask_defined(self@) ==> r is None,
    {
        let half = match self.checked_half_spread() {
            Some(h) => h,
            None => return None,
        };
        let v = match self.current_mid_price.checked_add(&half) {
            Some(v) => v,
            None => return None,
        };
        match Price::new(v, self.config.currency.clone()) {
            Ok(p) => Some(p),
            Err(_) => Some(Price::new(Decimal::zero(), self.config.currency.clone()).unwrap()),
        }
    }

    /// The best bid: mid price less half the spread, never below zero.
    pub fn best_bid(&self) -> (r: Price)
        requires
            bid_defined(self@),
        ensures
            r@ == best_bid_spec(self@),
    {
        self.checked_best_bid().unwrap()
    }

    /// The best ask: mid price plus half the spread, never below zero.
    pub fn best_ask(&self) -> (r: Price)
        requires
            ask_defined(self@),
        ensures
            r@ == best_ask_spec(self@),
    {
        self.checked_best_ask().unwrap()
    }

    /// The spread: price step times spread ticks.
    pub fn spread(&self) -> (r: Decimal)
        requires
            decimal_checked_mul(self@.config.price_step@, dv(self@.config.spread_ticks as int, 0)) is Some,
        ensures
            r@ == product_of(self@.config.price_step@, dv(self@.config.spread_ticks as int, 0)),
    {
        self.config.price_step.mul(&Decimal::from_u64(self.config.spread_ticks as u64))
    }

    /// The market condition.
    pub fn condition(&self) -> (r: MarketCondition)
        ensures
            r == self@.condition,
    {
        self.condition
    }

    /// Sets the market condition.
    pub fn set_condition(&mut self, condition: MarketCondition)
        ensures
            final(self)@ == (MarketView { condition, ..old(self)@ }),
    {
        self.condition = condition;
    }

    /// Sets the volatility (0.01 for 1%).
    pub fn set_volatility(&mut self, volatility: Decimal)
        ensures
            final(self)@ == (MarketView { volatility: volatility@, ..old(self)@ }),
    {
        self.volatility = volatility;
    }

    /// Level `i` of one side, where it can be computed.
    fn checked_level(&self, best: &Price, i: usize, up: bool) -> (r: Option<OrderBookLevel>)
        requires
            best@.currency == self@.config.currency@,
        ensures
            level_defined(self@.config, best@, i as int, up) ==> r is Some && r->Some_0@ == level_spec(
                self@.config,
                best@,
                i as int,
                up,
            ),
            !level_defined(self@.config, best@, i as int, up) ==> r is None,
    {
        let offset = match self.config.price_step.checked_mul(&Decimal::from_u64((#[verifier::truncate] (i as u32)) as u64)) {
            Some(o) => o,
            None => return None,
        };
        let v = if up {
            best.value().checked_add(&offset)
        } else {
            best.value().checked_sub(&offset)
        };
        let v = match v {
            Some(v) => v,
            None => return None,
        };
        let multiplier = match Decimal::from_u64(1).checked_add(&Decimal::new(#[verifier::truncate] (i as i64), 1)) {
            Some(m) => m,
            None => return None,
        };
        let liquidity = match Decimal::from_u64(self.config.base_liquidity).checked_mul(&multiplier) {
            Some(l) => l,
            None => return None,
        };
        let price = match Price::new(v, self.config.currency.clone()) {
            Ok(p) => p,
            Err(_) => best.clone(),
        };
        let text = liquidity.to_string();
        let lots = match parse_u64(text.as_str()) {
            Some(n) => n,
            None => self.config.base_liquidity,
        };
        let count = ((i as u128 + 5) % 4294967296) as u32;
        Some(OrderBookLevel::new(price, Quantity::from_lots(lots), count))
    }

    /// The generated levels of one side, where they can be computed.
    fn checked_levels(&self, up: bool) -> (r: Option<Vec<OrderBookLevel>>)
        ensures
            levels_defined(self@, up) ==> r is Some && levels_view(r->Some_0@) == levels_spec(self@, up),
            !levels_defined(self@, up) ==> r is None,
    {
        let best = if up {
            self.checked_best_ask()
        } else {
            self.checked_best_bid()
        };
        let best = match best {
            Some(b) => b,
            None => return None,
        };
        let ghost bv = side_best(self@, up);
        let mut out: Vec<OrderBookLevel> = Vec::new();
        let mut i: usize = 0;
        while i < self.config.book_depth
            invariant
                i <= self@.config.book_depth,
                side_defined(self@, up),
                best@ == bv,
                bv == side_best(self@, up),
                out@.len() == i,
                forall|k: int| 0 <= k < i ==> #[trigger] out@[k]@ == level_spec(self@.config, bv, k, up),
                forall|k: int| 0 <= k < i ==> #[trigger] level_defined(self@.config, bv, k, up),
            decreases self@.config.book_depth - i,
        {
            match self.checked_level(&best, i, up) {
                Some(l) => {
                    out.push(l);
                },
                None => {
                    return None;
                },
            }
            i = i + 1;
        }
        assert(levels_view(out@) =~= levels_spec(self@, up));
        Some(out)
    }

    /// The generated bid levels, or `None` where the arithmetic overflows.
    pub fn checked_generate_bids(&self) -> (r: Option<Vec<OrderBookLevel>>)
        ensures
            levels_defined(self@, false) ==> r is Some && levels_view(r->Some_0@) == levels_spec(self@, false),
            !levels_defined(self@, false) ==> r is None,
    {
        self.checked_levels(false)
    }

    /// The generated ask levels, or `None` where the arithmetic overflows.
    pub fn checked_generate_asks(&self) -> (r: Option<Vec<OrderBookLevel>>)
        ensures
            levels_defined(self@, true) ==> r is Some && levels_view(r->Some_0@) == levels_spec(self@, true),
            !levels_defined(self@, true) ==> r is None,
    {
        self.checked_levels(true)
    }

    /// The bid levels: `book_depth` levels falling one price step at a time
    /// from the best bid (see [`level_spec`]).
    pub fn generate_bids(&self) -> (r: Vec<OrderBookLevel>)
        requires
            levels_defined(self@, false),
        ensures
            levels_view(r@) == levels_spec(self@, false),
    {
        self.checked_levels(false).unwrap()
    }

    /// The ask levels: `book_depth` levels rising one price step at a time
    /// from the best ask (see [`level_spec`]).
    pub fn generate_asks(&self) -> (r: Vec<OrderBookLevel>)
        requires
            levels_defined(self@, true),
        ensures
            levels_view(r@) == levels_spec(self@, true),
    {
        self.checked_levels(true).unwrap()
    }

    /// The price change of the tick numbered `seed`, where it can be computed.
    fn calculate_price_change(&self, seed: u64) -> (r: Option<Decimal>)
        ensures
            price_change_defined(self@, seed) ==> r is Some && r->Some_0@ == price_change_spec(self@, seed),
            !price_change_defined(self@, seed) ==> r is None,
    {
        if seed > (u64::MAX - 12345) / 1103515245 {
            return None;
        }
        let pseudo_random = ((seed * 1103515245 + 12345) % 100) as i64 - 50;
        let random_factor = Decimal::new(pseudo_random, 2);
        let scaled = match self.current_mid_price.checked_mul(&self.volatility) {
            Some(x) => x,
            None => return None,
        };
        let base_change = match scaled.checked_mul(&random_factor) {
            Some(x) => x,
            None => return None,
        };
        match self.condition {
            MarketCondition::Bullish => {
                let bias = match self.config.price_step.checked_mul(&Decimal::new(3, 1)) {
                    Some(b) => b,
                    None => return None,
                };
                base_change.checked_add(&bias)
            },
            MarketCondition::Bearish => {
                let bias = match self.config.price_step.checked_mul(&Decimal::new(3, 1)) {
                    Some(b) => b,
                    None => return None,
                };
                base_change.checked_sub(&bias)
            },
            MarketCondition::Ranging => base_change.checked_mul(&Decimal::new(5, 1)),
            MarketCondition::Volatile => base_change.checked_mul(&Decimal::from_u64(2)),
        }
    }

    /// Advances one tick (see [`after_tick`]) where that can be computed,
    /// and tells whether it did; otherwise the market stays as it is.
    pub fn try_tick(&mut self) -> (r: bool)
        ensures
            r == tick_defined(old(self)@),
            r ==> final(self)@ == after_tick(old(self)@),
            !r ==> final(self)@ == old(self)@,
    {
        if self.tick_count == u64::MAX {
            return false;
        }
        let seed = self.tick_count + 1;
        let change = match self.calculate_price_change(seed) {
            Some(c) => c,
            None => return false,
        };
        let moved = match self.current_mid_price.checked_add(&change) {
            Some(m) => m,
            None => return false,
        };
        self.tick_count = seed;
        self.current_mid_price = if moved.lt(&self.config.price_step) {
            self.config.price_step
        } else {
            moved
        };
        true
    }

    /// Advances one tick (see [`after_tick`]).
    pub fn tick(&mut self)
        requires
            tick_defined(old(self)@),
        ensures
            final(self)@ == after_tick(old(self)@),
    {
        self.try_tick();
    }

    /// Moves the mid price by `delta`, never below the price step.
    pub fn move_price(&mut self, delta: Decimal)
        requires
            decimal_checked_add(old(self)@.mid, delta@) is Some,
        ensures
            final(self)@ == (MarketView {
                mid: floor_at_step(sum_of(old(self)@.mid, delta@), old(self)@.config.price_step@),
                ..old(self)@
            }),
    {
        let moved = self.current_mid_price.add(&delta);
        self.current_mid_price = if moved.lt(&self.config.price_step) {
            self.config.price_step
        } else {
            moved
        };
    }

    /// Sets the mid price, raised to the price step where it is below it.
    pub fn set_price(&mut self, price: Decimal)
        ensures
            final(self)@ == (MarketView {
                mid: if old(self)@.config.price_step@.val() >= price@.val() {
                    old(self)@.config.price_step@
                } else {
                    price@
                },
                ..old(self)@
            }),
    {
        self.current_mid_price = price.max(&self.config.price_step);
    }

    /// The number of ticks so far.
    pub fn tick_count(&self) -> (r: u64)
        ensures
            r == self@.tick_count,
    {
        self.tick_count
    }
}

/// The mid price never falls below the price step: a tick, a move or a
/// price set leaves it at least one step.
pub proof fn lemma_mid_price_floor(m: MarketView, v: DecimalView)
    ensures
        floor_at_step(v, m.config.price_step@).val() >= m.config.price_step@.val(),
        after_tick(m).mid.val() >= m.config.price_step@.val(),
        after_tick(m).config == m.config,
        after_tick(m).tick_count == m.tick_count + 1 || m.tick_count == u64::MAX,
{
}

} // verus!
