//! The scalping strategy: buy at the best bid, sell at a price that secures
//! a minimum profit over the cheapest lots held.
use vstd::prelude::*;
use crate::keyed::{
    first_index, index_or_none, lemma_first_index_step, lemma_first_index_prefix, lemma_first_index_none,
};
use crate::simulator::engine::{order_keys, orders_view};
use crate::strategy::decision::{
    ActionView, DecisionView, MarketState, StateView, StrategyAction, StrategyDecision, opt_text,
};
use crate::strategy::settings::{TradingSettings, minimum_profit_spec, trading_time_spec};
use crate::clock::seconds_of_day_spec;
use crate::text::str_eq;
use crate::types::decimal::{
    Decimal, DecimalView, dv, decimal_checked_add, decimal_checked_mul, decimal_text, sum_of,
    difference_of, product_of, add_fits, sub_fits, lemma_exact_sum_value, lemma_exact_difference_value,
    lemma_val_sign, mul_fits, lemma_exact_product_value, lemma_pow10_positive, pow10, MAX_SCALE,
};
use crate::sums::{seq_sum, lemma_seq_sum_remove, lemma_seq_sum_permutation};
use crate::types::money::{Price, PriceView, Quantity, lots_of};
use crate::types::order::{Order, OrderId, OrderSide};
use crate::types::order_book::{BookView, depth_of, depth_defined, min_nat};

verus! {

/// A holding of lots bought at one price.
pub type LotView = (PriceView, DecimalView);

/// The key of a holding: the text of its price.
pub open spec fn lot_keys(s: Seq<LotView>) -> Seq<Seq<char>> {
    s.map_values(|l: LotView| decimal_text(l.0.value))
}

/// The holdings after buying `q` lots at `price`: added to the holding with
/// the same price text, or a new holding.
pub open spec fn lots_after_add(s: Seq<LotView>, price: PriceView, q: DecimalView) -> Seq<LotView> {
    let i = first_index(lot_keys(s), decimal_text(price.value));
    if i >= 0 {
        s.update(i, (s[i].0, sum_of(s[i].1, q)))
    } else {
        s.push((price, sum_of(dv(0, 0), q)))
    }
}

/// The addition of [`lots_after_add`] does not overflow.
pub open spec fn lots_add_defined(s: Seq<LotView>, price: PriceView, q: DecimalView) -> bool {
    let i = first_index(lot_keys(s), decimal_text(price.value));
    if i >= 0 {
        decimal_checked_add(s[i].1, q) is Some
    } else {
        decimal_checked_add(dv(0, 0), q) is Some
    }
}

/// The lots of the first `n` holdings, added from zero.
pub open spec fn lots_total(s: Seq<LotView>, n: nat) -> DecimalView
    decreases n,
{
    if n == 0 {
        dv(0, 0)
    } else {
        sum_of(lots_total(s, (n - 1) as nat), s[n - 1].1)
    }
}

/// Every addition of [`lots_total`] over the first `n` holdings is defined.
pub open spec fn lots_total_defined(s: Seq<LotView>, n: nat) -> bool {
    forall|k: nat| k < n ==> decimal_checked_add(#[trigger] lots_total(s, k), s[k as int].1) is Some
}

/// The first holding of the lowest price, `-1` when there is none.
pub open spec fn lowest_lot(s: Seq<LotView>) -> int
    decreases s.len(),
{
    if s.len() == 0 {
        -1
    } else {
        let i = lowest_lot(s.drop_last());
        if i < 0 || s.last().0.value.val() < s[i].0.value.val() {
            s.len() - 1
        } else {
            i
        }
    }
}

/// `x` placed into `s` after every trailing holding of a price not above it.
pub open spec fn insert_lot(s: Seq<LotView>, x: LotView) -> Seq<LotView>
    decreases s.len(),
{
    if s.len() == 0 {
        seq![x]
    } else if s.last().0.value.val() <= x.0.value.val() {
        s.push(x)
    } else {
        insert_lot(s.drop_last(), x).push(s.last())
    }
}

/// The holdings sorted from the lowest price up, equal prices keeping their
/// order.
pub open spec fn sort_lots_spec(s: Seq<LotView>) -> Seq<LotView>
    decreases s.len(),
{
    if s.len() == 0 {
        s
    } else {
        insert_lot(sort_lots_spec(s.drop_last()), s.last())
    }
}

/// `a - b`, and zero where that would go below zero.
pub open spec fn clamped_difference(a: DecimalView, b: DecimalView) -> DecimalView {
    if difference_of(a, b).mantissa < 0 {
        dv(0, 0)
    } else {
        difference_of(a, b)
    }
}

/// Selling `to_remove` lots from holdings sorted by price: whole holdings
/// are used up from the front until what is left to remove is smaller than
/// the next holding, which then shrinks. The result is the remaining
/// holdings and the price of the last holding touched.
pub open spec fn consume(s: Seq<LotView>, to_remove: DecimalView, last: Option<PriceView>) -> (
    Seq<LotView>,
    Option<PriceView>,
)
    decreases s.len(),
{
    if s.len() == 0 || to_remove.mantissa == 0 {
        (s, last)
    } else if s[0].1.val() <= to_remove.val() {
        consume(s.skip(1), clamped_difference(to_remove, s[0].1), Some(s[0].0))
    } else {
        (seq![(s[0].0, clamped_difference(s[0].1, to_remove))] + s.skip(1), Some(s[0].0))
    }
}

/// The view of a holding.
pub open spec fn lot_view(l: (Price, Quantity)) -> LotView {
    (l.0@, l.1@)
}

/// The views of holdings.
pub open spec fn lots_view(s: Seq<(Price, Quantity)>) -> Seq<LotView> {
    s.map_values(|l: (Price, Quantity)| lot_view(l))
}

/// The lots owned, by purchase price.
#[derive(Debug)]
pub struct OwnedLots {
    lots: Vec<(Price, Quantity)>,
}

impl OwnedLots {
    /// The holdings, in the order in which their prices were first bought.
    pub closed spec fn view(&self) -> Seq<LotView> {
        lots_view(self.lots@)
    }

    /// No lots.
    pub fn new() -> (r: OwnedLots)
        ensures
            r.view() == Seq::<LotView>::empty(),
    {
        let r = OwnedLots { lots: Vec::new() };
        assert(r.view() =~= Seq::<LotView>::empty());
        r
    }

    fn find(&self, key: &String) -> (r: Option<usize>)
        ensures
            index_or_none(r) == first_index(lot_keys(self.view()), key@),
            r matches Some(i) ==> i < self.lots@.len(),
    {
        let ghost keys = lot_keys(self.view());
        assert(keys.take(0) =~= Seq::<Seq<char>>::empty());
        let mut i: usize = 0;
        while i < self.lots.len()
            invariant
                i <= self.lots@.len(),
                keys == lot_keys(self.view()),
                keys.len() == self.lots@.len(),
                first_index(keys.take(i as int), key@) == -1,
            decreases self.lots@.len() - i,
        {
            proof {
                lemma_first_index_step(keys, key@, i as int);
            }
            assert(keys[i as int] == decimal_text(self.lots@[i as int].0@.value));
            let text = self.lots[i].0.value().to_string();
            if text == *key {
                proof {
                    lemma_first_index_prefix(keys, key@, i as int + 1);
                }
                return Some(i);
            }
            i = i + 1;
        }
        proof {
            lemma_first_index_none(keys, key@);
        }
        None
    }

    /// Whether `quantity` can be added at `price` without overflow (see
    /// [`lots_add_defined`]).
    pub fn can_add(&self, price: &Price, quantity: Quantity) -> (r: bool)
        ensures
            r == lots_add_defined(self.view(), price@, quantity@),
    {
        let key = price.value().to_string();
        match self.find(&key) {
            Some(i) => {
                assert(self.view()[i as int] == lot_view(self.lots@[i as int]));
                self.lots[i].1.checked_add(quantity).is_some()
            },
            None => Quantity::zero().checked_add(quantity).is_some(),
        }
    }

    /// Adds lots bought at a price (see [`lots_after_add`]).
    pub fn add(&mut self, price: Price, quantity: Quantity)
        requires
            lots_add_defined(old(self).view(), price@, quantity@),
        ensures
            final(self).view() == lots_after_add(old(self).view(), price@, quantity@),
    {
        let key = price.value().to_string();
        match self.find(&key) {
            Some(i) => {
                assert(self.view()[i as int] == lot_view(self.lots@[i as int]));
                let p = self.lots[i].0.clone();
                let q = self.lots[i].1.add(quantity);
                self.lots.set(i, (p, q));
            },
            None => {
                let q = Quantity::zero().add(quantity);
                self.lots.push((price, q));
            },
        }
        assert(self.view() =~= lots_after_add(old(self).view(), price@, quantity@));
    }

    /// The total number of lots.
    pub fn total_quantity(&self) -> (r: Quantity)
        requires
            lots_total_defined(self.view(), self.view().len()),
        ensures
            r@ == lots_total(self.view(), self.view().len()),
    {
        let mut acc = Quantity::zero();
        let mut i: usize = 0;
        while i < self.lots.len()
            invariant
                i <= self.lots@.len(),
                self.view().len() == self.lots@.len(),
                lots_total_defined(self.view(), self.view().len()),
                acc@ == lots_total(self.view(), i as nat),
            decreases self.lots@.len() - i,
        {
            assert(self.view()[i as int] == lot_view(self.lots@[i as int]));
            assert(decimal_checked_add(lots_total(self.view(), i as nat), self.view()[i as int].1) is Some);
            acc = acc.add(self.lots[i].1);
            i = i + 1;
        }
        acc
    }

    /// The total quantity held, or `None` where adding it up overflows.
    pub fn checked_total_quantity(&self) -> (r: Option<Quantity>)
        ensures
            lots_total_defined(self.view(), self.view().len()) ==> r is Some && r->Some_0@ == lots_total(
                self.view(),
                self.view().len(),
            ),
            !lots_total_defined(self.view(), self.view().len()) ==> r is None,
    {
        let ghost s = self.view();
        let mut acc = Quantity::zero();
        let mut i: usize = 0;
        while i < self.lots.len()
            invariant
                i <= self.lots@.len(),
                s == self.view(),
                s.len() == self.lots@.len(),
                lots_total_defined(s, i as nat),
                acc@ == lots_total(s, i as nat),
            decreases self.lots@.len() - i,
        {
            assert(s[i as int] == lot_view(self.lots@[i as int]));
            match acc.checked_add(self.lots[i].1) {
                Some(q) => {
                    acc = q;
                },
                None => {
                    assert(decimal_checked_add(lots_total(s, i as nat), s[i as int].1) is None);
                    return None;
                },
            }
            assert(lots_total_defined(s, i as nat + 1)) by {
                assert forall|k: nat| k < i as nat + 1 implies decimal_checked_add(
                    #[trigger] lots_total(s, k),
                    s[k as int].1,
                ) is Some by {
                    if k < i as nat {
                    }
                }
            }
            i = i + 1;
        }
        Some(acc)
    }

    /// The first holding of the lowest price.
    pub fn lowest_price(&self) -> (r: Option<&Price>)
        ensures
            lowest_lot(self.view()) < 0 ==> r is None,
            lowest_lot(self.view()) >= 0 ==> r is Some && r->Some_0@ == self.view()[lowest_lot(self.view())].0,
    {
        let ghost s = self.view();
        let mut best: Option<usize> = None;
        let mut i: usize = 0;
        while i < self.lots.len()
            invariant
                i <= self.lots@.len(),
                s == self.view(),
                s.len() == self.lots@.len(),
                index_or_none(best) == lowest_lot(s.take(i as int)),
                best matches Some(b) ==> b < i,
            decreases self.lots@.len() - i,
        {
            assert(s.take(i as int + 1).drop_last() =~= s.take(i as int));
            assert(s[i as int] == lot_view(self.lots@[i as int]));
            match best {
                Some(b) => {
                    assert(s[b as int] == lot_view(self.lots@[b as int]));
                    assert(s.take(i as int)[b as int] == s[b as int]);
                    if self.lots[i].0.value().lt(&self.lots[b].0.value()) {
                        best = Some(i);
                    }
                },
                None => {
                    best = Some(i);
                },
            }
            i = i + 1;
        }
        assert(s.take(self.lots@.len() as int) =~= s);
        match best {
            Some(b) => {
                assert(s[b as int] == lot_view(self.lots@[b as int]));
                Some(&self.lots[b].0)
            },
            None => None,
        }
    }

    /// Removes every holding.
    pub fn clear(&mut self)
        ensures
            final(self).view() == Seq::<LotView>::empty(),
    {
        self.lots = Vec::new();
        assert(self.view() =~= Seq::<LotView>::empty());
    }

    /// Removes sold lots, cheapest first (see [`consume`]); returns the
    /// price of the last holding touched.
    pub fn remove(&mut self, quantity: Quantity) -> (r: Option<Price>)
        ensures
            (final(self).view(), opt_price(r)) == consume(sort_lots_spec(old(self).view()), quantity@, None),
    {
        let mut taken: Vec<(Price, Quantity)> = Vec::new();
        std::mem::swap(&mut taken, &mut self.lots);
        let sorted = sort_lots(taken);
        let ghost s = lots_view(sorted@);
        let mut to_remove = quantity;
        let mut last: Option<Price> = None;
        let mut i: usize = 0;
        assert(s.skip(0) =~= s);
        while i < sorted.len() && !to_remove.is_zero()
            invariant
                i <= sorted@.len(),
                s == lots_view(sorted@),
                s == sort_lots_spec(old(self).view()),
                consume(s, quantity@, None) == consume(s.skip(i as int), to_remove@, opt_price(last)),
            decreases sorted@.len() - i,
        {
            assert(s[i as int] == lot_view(sorted@[i as int]));
            assert(s.skip(i as int)[0] == s[i as int]);
            assert(s.skip(i as int).skip(1) =~= s.skip(i as int + 1));
            let held = sorted[i].1;
            if held.le(&to_remove) {
                to_remove = to_remove.subtract(held);
                last = Some(sorted[i].0.clone());
                i = i + 1;
            } else {
                let mut rest: Vec<(Price, Quantity)> = Vec::new();
                rest.push((sorted[i].0.clone(), held.subtract(to_remove)));
                let mut j: usize = i + 1;
                while j < sorted.len()
                    invariant
                        i < j <= sorted@.len(),
                        s == lots_view(sorted@),
                        rest@.len() == j - i,
                        lot_view(rest@[0]) == (s[i as int].0, clamped_difference(s[i as int].1, to_remove@)),
                        forall|k: int| 1 <= k < j - i ==> #[trigger] lot_view(rest@[k]) == s[i + k],
                    decreases sorted@.len() - j,
                {
                    rest.push((sorted[j].0.clone(), sorted[j].1));
                    assert(s[j as int] == lot_view(sorted@[j as int]));
                    j = j + 1;
                }
                self.lots = rest;
                let r = Some(sorted[i].0.clone());
                assert(self.view() =~= seq![(s[i as int].0, clamped_difference(s[i as int].1, to_remove@))] + s.skip(
                    i as int + 1,
                ));
                return r;
            }
        }
        let mut rest: Vec<(Price, Quantity)> = Vec::new();
        let mut j: usize = i;
        while j < sorted.len()
            invariant
                i <= j <= sorted@.len(),
                s == lots_view(sorted@),
                rest@.len() == j - i,
                forall|k: int| 0 <= k < j - i ==> #[trigger] lot_view(rest@[k]) == s[i + k],
            decreases sorted@.len() - j,
        {
            rest.push((sorted[j].0.clone(), sorted[j].1));
            assert(s[j as int] == lot_view(sorted@[j as int]));
            j = j + 1;
        }
        self.lots = rest;
        assert(self.view() =~= s.skip(i as int));
        last
    }
}

/// The view of an optional price.
pub open spec fn opt_price(p: Option<Price>) -> Option<PriceView> {
    match p {
        Some(x) => Some(x@),
        None => None,
    }
}

/// Inserting where the trailing holdings from `j` on must follow `x`.
proof fn lemma_insert_lot_at(s: Seq<LotView>, x: LotView, j: int)
    requires
        0 <= j <= s.len(),
        forall|k: int| j <= k < s.len() ==> (#[trigger] s[k]).0.value.val() > x.0.value.val(),
        j == 0 || s[j - 1].0.value.val() <= x.0.value.val(),
    ensures
        insert_lot(s, x) == s.take(j).push(x) + s.skip(j),
    decreases s.len(),
{
    if s.len() == 0 {
        assert(s.take(j).push(x) + s.skip(j) =~= seq![x]);
    } else if j == s.len() {
        assert(s.take(j).push(x) + s.skip(j) =~= s.push(x));
    } else {
        let t = s.drop_last();
        assert(s[s.len() - 1].0.value.val() > x.0.value.val());
        assert forall|k: int| j <= k < t.len() implies (#[trigger] t[k]).0.value.val() > x.0.value.val() by {
            assert(t[k] == s[k]);
        }
        if j > 0 {
            assert(t[j - 1] == s[j - 1]);
        }
        lemma_insert_lot_at(t, x, j);
        assert((t.take(j).push(x) + t.skip(j)).push(s.last()) =~= s.take(j).push(x) + s.skip(j));
    }
}

/// Holdings from the lowest price up.
pub open spec fn lots_sorted(s: Seq<LotView>) -> bool {
    forall|i: int, j: int| 0 <= i < j < s.len() ==> s[i].0.value.val() <= s[j].0.value.val()
}

/// Inserting keeps the holdings sorted and adds the one holding.
proof fn lemma_insert_lot_sorted(s: Seq<LotView>, x: LotView)
    requires
        lots_sorted(s),
    ensures
        lots_sorted(insert_lot(s, x)),
        insert_lot(s, x).to_multiset() =~= s.to_multiset().insert(x),
    decreases s.len(),
{
    broadcast use vstd::seq_lib::group_to_multiset_ensures;
    if s.len() == 0 {
        assert(seq![x] =~= Seq::<LotView>::empty().push(x));
    } else if s.last().0.value.val() <= x.0.value.val() {
        assert forall|i: int, j: int| 0 <= i < j < s.push(x).len() implies s.push(x)[i].0.value.val()
            <= s.push(x)[j].0.value.val() by {
            if j == s.len() && i < s.len() - 1 {
                assert(s[i].0.value.val() <= s[s.len() - 1].0.value.val());
            }
        }
    } else {
        let t = s.drop_last();
        assert(s =~= t.push(s.last()));
        lemma_insert_lot_sorted(t, x);
        let u = insert_lot(t, x);
        assert forall|i: int, j: int| 0 <= i < j < u.push(s.last()).len() implies u.push(s.last())[i].0.value.val()
            <= u.push(s.last())[j].0.value.val() by {
            if j == u.len() {
                assert(u.to_multiset().count(u[i]) > 0);
                assert(u.to_multiset() =~= t.to_multiset().insert(x));
                if u[i] != x {
                    assert(t.to_multiset().count(u[i]) > 0);
                    let k = choose|k: int| 0 <= k < t.len() && t[k] == u[i];
                    assert(t[k] == s[k]);
                }
            }
        }
    }
}

/// Sorting the holdings puts them in order of price and keeps every one.
pub proof fn lemma_sort_lots(s: Seq<LotView>)
    ensures
        lots_sorted(sort_lots_spec(s)),
        sort_lots_spec(s).to_multiset() =~= s.to_multiset(),
        sort_lots_spec(s).len() == s.len(),
    decreases s.len(),
{
    broadcast use vstd::seq_lib::group_to_multiset_ensures;
    if s.len() > 0 {
        lemma_sort_lots(s.drop_last());
        lemma_insert_lot_sorted(sort_lots_spec(s.drop_last()), s.last());
        assert(s =~= s.drop_last().push(s.last()));
    }
    assert(s.to_multiset().len() == s.len());
    assert(sort_lots_spec(s).to_multiset().len() == sort_lots_spec(s).len());
}

/// What selling leaves of holdings: the holdings without their first `k`,
/// the first remaining one possibly reduced.
proof fn lemma_consume_shape(s: Seq<LotView>, q: DecimalView, last: Option<PriceView>) -> (k: int)
    ensures
        0 <= k <= s.len(),
        consume(s, q, last).0.len() == s.len() - k,
        forall|j: int| 0 < j < s.len() - k ==> #[trigger] consume(s, q, last).0[j] == s[k + j],
        k < s.len() ==> consume(s, q, last).0[0].0 == s[k].0,
    decreases s.len(),
{
    if s.len() == 0 || q.mantissa == 0 {
        0
    } else if s[0].1.val() <= q.val() {
        let k1 = lemma_consume_shape(s.skip(1), clamped_difference(q, s[0].1), Some(s[0].0));
        assert forall|j: int| 0 < j < s.len() - (k1 + 1) implies #[trigger] consume(s, q, last).0[j] == s[k1 + 1
            + j] by {
            assert(s.skip(1)[k1 + j] == s[k1 + 1 + j]);
        }
        if k1 + 1 < s.len() {
            assert(s.skip(1)[k1] == s[k1 + 1]);
        }
        k1 + 1
    } else {
        0
    }
}

/// Sales take the cheapest lots first: after selling `q` lots from the
/// holdings sorted by price, the first `k` holdings are sold out, the next
/// one may be reduced, the rest remain whole, and no holding sold out cost
/// more than any holding that remains.
pub proof fn lemma_sell_cheapest_first(lots: Seq<LotView>, q: DecimalView) -> (k: int)
    ensures
        0 <= k <= lots.len(),
        ({
            let s = sort_lots_spec(lots);
            let r = consume(s, q, None).0;
            &&& r.len() == lots.len() - k
            &&& forall|j: int| 0 < j < r.len() ==> #[trigger] r[j] == s[k + j]
            &&& r.len() > 0 ==> r[0].0 == s[k].0
            &&& forall|i: int, j: int|
                0 <= i < k && 0 <= j < r.len() ==> (#[trigger] s[i]).0.value.val() <= (#[trigger] r[j]).0.value.val()
        }),
{
    lemma_sort_lots(lots);
    let s = sort_lots_spec(lots);
    let k = lemma_consume_shape(s, q, None);
    let r = consume(s, q, None).0;
    assert forall|i: int, j: int| 0 <= i < k && 0 <= j < r.len() implies (#[trigger] s[i]).0.value.val()
        <= (#[trigger] r[j]).0.value.val() by {
        if j == 0 {
            assert(r[0].0 == s[k].0);
        } else {
            assert(r[j] == s[k + j]);
        }
    }
    k
}

/// Inserting a holding adds its key to the keys.
proof fn lemma_insert_lot_keys(s: Seq<LotView>, x: LotView)
    ensures
        lot_keys(insert_lot(s, x)).to_multiset() =~= lot_keys(s).to_multiset().insert(decimal_text(x.0.value)),
    decreases s.len(),
{
    broadcast use vstd::seq_lib::group_to_multiset_ensures;
    broadcast use vstd::multiset::group_multiset_axioms;
    let k = decimal_text(x.0.value);
    if s.len() == 0 {
        assert(lot_keys(seq![x]) =~= Seq::<Seq<char>>::empty().push(k));
        assert(lot_keys(s) =~= Seq::<Seq<char>>::empty());
    } else if s.last().0.value.val() <= x.0.value.val() {
        assert(lot_keys(s.push(x)) =~= lot_keys(s).push(k));
    } else {
        let t = s.drop_last();
        let kl = decimal_text(s.last().0.value);
        lemma_insert_lot_keys(t, x);
        assert(lot_keys(insert_lot(t, x).push(s.last())) =~= lot_keys(insert_lot(t, x)).push(kl));
        assert(lot_keys(s) =~= lot_keys(t).push(kl));
        assert(lot_keys(t).to_multiset().insert(k).insert(kl) =~= lot_keys(t).to_multiset().insert(kl).insert(k));
    }
}

/// Sorting the holdings keeps their keys.
proof fn lemma_sort_lots_keys(s: Seq<LotView>)
    ensures
        lot_keys(sort_lots_spec(s)).to_multiset() =~= lot_keys(s).to_multiset(),
    decreases s.len(),
{
    broadcast use vstd::seq_lib::group_to_multiset_ensures;
    if s.len() == 0 {
    } else {
        lemma_sort_lots_keys(s.drop_last());
        lemma_insert_lot_keys(sort_lots_spec(s.drop_last()), s.last());
        assert(lot_keys(s) =~= lot_keys(s.drop_last()).push(decimal_text(s.last().0.value)));
    }
}

/// The holdings keep one entry per price text, as a map keyed by it does:
/// buying at a price adds to the entry of that price or opens a new one, and
/// selling, cheapest first, leaves each remaining price once.
pub proof fn lemma_lot_keys_stay_distinct(s: Seq<LotView>, price: PriceView, q: DecimalView)
    requires
        lot_keys(s).no_duplicates(),
    ensures
        lot_keys(lots_after_add(s, price, q)).no_duplicates(),
        lot_keys(consume(sort_lots_spec(s), q, None).0).no_duplicates(),
{
    let k = decimal_text(price.value);
    let i = first_index(lot_keys(s), k);
    crate::keyed::lemma_first_index(lot_keys(s), k);
    if i >= 0 {
        assert(lot_keys(lots_after_add(s, price, q)) =~= lot_keys(s));
    } else {
        assert(lot_keys(lots_after_add(s, price, q)) =~= lot_keys(s).push(k));
        crate::keyed::lemma_push_new_key(lot_keys(s), k);
    }
    let sorted = sort_lots_spec(s);
    lemma_sort_lots_keys(s);
    lot_keys(s).lemma_multiset_has_no_duplicates();
    lot_keys(sorted).lemma_multiset_has_no_duplicates_conv();
    let n = lemma_consume_shape(sorted, q, None);
    let r = consume(sorted, q, None).0;
    assert forall|j: int| 0 <= j < r.len() implies lot_keys(r)[j] == lot_keys(sorted).skip(n)[j] by {
        if j > 0 {
            assert(r[j] == sorted[n + j]);
        }
    }
    assert(lot_keys(r) =~= lot_keys(sorted).skip(n));
}

/// The lots of a holding, as a number.
pub open spec fn lot_value(l: LotView) -> int {
    l.1.val()
}

/// Holdings whose lots are well formed and not below zero.
pub open spec fn lots_valid(s: Seq<LotView>) -> bool {
    forall|i: int| 0 <= i < s.len() ==> (#[trigger] s[i]).1.wf() && s[i].1.mantissa >= 0
}

/// Every partial sum of the lots of the first `n` holdings is unrounded.
pub open spec fn lots_total_exact(s: Seq<LotView>, n: nat) -> bool {
    forall|k: nat| k < n ==> add_fits(#[trigger] lots_total(s, k), s[k as int].1)
}

/// Every subtraction of a sale of `q` lots from the holdings (see
/// [`consume`]) is unrounded.
pub open spec fn consume_exact(s: Seq<LotView>, q: DecimalView) -> bool
    decreases s.len(),
{
    if s.len() == 0 || q.mantissa == 0 {
        true
    } else if s[0].1.val() <= q.val() {
        sub_fits(q, s[0].1) && consume_exact(s.skip(1), clamped_difference(q, s[0].1))
    } else {
        sub_fits(s[0].1, q)
    }
}

/// Unrounded partial sums of the lots are the sums of their values.
proof fn lemma_lots_total_value(s: Seq<LotView>, n: nat)
    requires
        lots_valid(s),
        lots_total_exact(s, n),
        n <= s.len(),
    ensures
        lots_total(s, n).val() == seq_sum(s.take(n as int), |l: LotView| lot_value(l)),
        lots_total(s, n).wf(),
    decreases n,
{
    if n > 0 {
        let k = (n - 1) as nat;
        assert(lots_total_exact(s, k));
        lemma_lots_total_value(s, k);
        assert(add_fits(lots_total(s, k), s[k as int].1));
        assert(s[k as int].1.wf());
        lemma_exact_sum_value(lots_total(s, k), s[k as int].1);
        assert(s.take(n as int).drop_last() =~= s.take(k as int));
        assert(s.take(n as int).last() == s[k as int]);
        assert(lots_total(s, n) == crate::types::decimal::exact_sum(lots_total(s, k), s[k as int].1));
    } else {
        assert(s.take(0) =~= Seq::<LotView>::empty());
        assert(0 * crate::types::decimal::pow10(28) == 0);
    }
}

/// The unrounded difference of two well formed numbers, where it is not
/// below zero, is well formed and is the difference of the values.
proof fn lemma_clamped_difference(a: DecimalView, b: DecimalView)
    requires
        a.wf(),
        b.wf(),
        sub_fits(a, b),
        a.val() >= b.val(),
    ensures
        clamped_difference(a, b) == difference_of(a, b),
        clamped_difference(a, b).val() == a.val() - b.val(),
        clamped_difference(a, b).wf(),
        clamped_difference(a, b).mantissa >= 0,
{
    lemma_exact_difference_value(a, b);
    lemma_val_sign(difference_of(a, b));
}

/// Selling `q` lots from holdings leaves their total less `q`, and nothing
/// where fewer were held, where every subtraction is unrounded.
proof fn lemma_consume_value(s: Seq<LotView>, q: DecimalView, last: Option<PriceView>)
    requires
        lots_valid(s),
        q.wf(),
        q.mantissa >= 0,
        consume_exact(s, q),
    ensures
        lots_valid(consume(s, q, last).0),
        seq_sum(consume(s, q, last).0, |l: LotView| lot_value(l)) == if seq_sum(s, |l: LotView| lot_value(l))
            >= q.val() {
            seq_sum(s, |l: LotView| lot_value(l)) - q.val()
        } else {
            0
        },
    decreases s.len(),
{
    let f = |l: LotView| lot_value(l);
    lemma_val_sign(q);
    if s.len() == 0 {
    } else {
        lemma_seq_sum_remove(s, f, 0);
        assert(s.remove(0) =~= s.skip(1));
        lemma_seq_sum_nonneg(s.skip(1));
        assert(s[0].1.wf());
        lemma_val_sign(s[0].1);
        if q.mantissa == 0 {
            lemma_seq_sum_nonneg(s);
        } else if s[0].1.val() <= q.val() {
            lemma_clamped_difference(q, s[0].1);
            assert forall|i: int| 0 <= i < s.skip(1).len() implies (#[trigger] s.skip(1)[i]).1.wf()
                && s.skip(1)[i].1.mantissa >= 0 by {
                assert(s.skip(1)[i] == s[i + 1]);
            }
            lemma_consume_value(s.skip(1), clamped_difference(q, s[0].1), Some(s[0].0));
        } else {
            lemma_clamped_difference(s[0].1, q);
            let x = (s[0].0, clamped_difference(s[0].1, q));
            let r = seq![x] + s.skip(1);
            lemma_seq_sum_remove(r, f, 0);
            assert(r.remove(0) =~= s.skip(1));
            assert forall|i: int| 0 <= i < r.len() implies (#[trigger] r[i]).1.wf() && r[i].1.mantissa >= 0 by {
                if i > 0 {
                    assert(r[i] == s[i]);
                }
            }
        }
    }
}

/// Holdings that are not below zero add up to no less than zero.
proof fn lemma_seq_sum_nonneg(s: Seq<LotView>)
    requires
        lots_valid(s),
    ensures
        seq_sum(s, |l: LotView| lot_value(l)) >= 0,
    decreases s.len(),
{
    if s.len() > 0 {
        assert forall|i: int| 0 <= i < s.drop_last().len() implies (#[trigger] s.drop_last()[i]).1.wf()
            && s.drop_last()[i].1.mantissa >= 0 by {
            assert(s.drop_last()[i] == s[i]);
        }
        lemma_seq_sum_nonneg(s.drop_last());
        assert(s[s.len() - 1].1.wf());
        lemma_val_sign(s.last().1);
    }
}

/// Selling `q` lots lowers the total held by `q`, and to nothing where
/// fewer were held, where every sum and difference involved is unrounded:
/// the total before, the sale from the holdings sorted by price, and the
/// total after.
pub proof fn lemma_remove_total(s: Seq<LotView>, q: DecimalView)
    requires
        lots_valid(s),
        q.wf(),
        q.mantissa >= 0,
        lots_total_exact(s, s.len()),
        consume_exact(sort_lots_spec(s), q),
        lots_total_exact(consume(sort_lots_spec(s), q, None).0, consume(sort_lots_spec(s), q, None).0.len()),
    ensures
        held(consume(sort_lots_spec(s), q, None).0).val() == if held(s).val() >= q.val() {
            held(s).val() - q.val()
        } else {
            0
        },
{
    broadcast use vstd::seq_lib::group_to_multiset_ensures;
    let f = |l: LotView| lot_value(l);
    let sorted = sort_lots_spec(s);
    let r = consume(sorted, q, None).0;
    lemma_lots_total_value(s, s.len());
    assert(s.take(s.len() as int) =~= s);
    lemma_sort_lots(s);
    assert forall|i: int| 0 <= i < sorted.len() implies (#[trigger] sorted[i]).1.wf() && sorted[i].1.mantissa
        >= 0 by {
        assert(sorted.to_multiset().count(sorted[i]) > 0);
        assert(s.to_multiset().count(sorted[i]) > 0);
        let k = choose|k: int| 0 <= k < s.len() && s[k] == sorted[i];
        assert(s[k].1.wf());
    }
    lemma_seq_sum_permutation(sorted, s, f);
    lemma_consume_value(sorted, q, None);
    lemma_lots_total_value(r, r.len());
    assert(r.take(r.len() as int) =~= r);
}

/// Places `x` after every trailing holding of a price not above it.
fn insert_lot_exec(v: &mut Vec<(Price, Quantity)>, x: (Price, Quantity))
    ensures
        lots_view(final(v)@) == insert_lot(lots_view(old(v)@), lot_view(x)),
{
    let ghost s = lots_view(v@);
    let xv = x.0.value();
    let mut j = v.len();
    let mut done = false;
    while j > 0 && !done
        invariant
            j <= v.len(),
            v@ == old(v)@,
            s == lots_view(v@),
            xv@ == x.0@.value,
            forall|k: int| j <= k < s.len() ==> (#[trigger] s[k]).0.value.val() > x.0@.value.val(),
            done ==> j > 0 && s[j - 1].0.value.val() <= x.0@.value.val(),
        decreases j + (if done { 0int } else { 1int }),
    {
        assert(s[j - 1] == lot_view(v@[j - 1]));
        if v[j - 1].0.value().le(&xv) {
            done = true;
        } else {
            j = j - 1;
        }
    }
    proof {
        if j > 0 {
            assert(s[j - 1] == lot_view(v@[j - 1]));
        }
        lemma_insert_lot_at(s, lot_view(x), j as int);
    }
    v.insert(j, x);
    assert(lots_view(v@) =~= s.take(j as int).push(lot_view(x)) + s.skip(j as int));
}

/// The holdings sorted from the lowest price up, equal prices keeping their
/// order.
fn sort_lots(lots: Vec<(Price, Quantity)>) -> (r: Vec<(Price, Quantity)>)
    ensures
        lots_view(r@) == sort_lots_spec(lots_view(lots@)),
{
    let ghost s = lots_view(lots@);
    let mut out: Vec<(Price, Quantity)> = Vec::new();
    let mut rest = lots;
    let n = rest.len();
    let mut i: usize = 0;
    while i < n
        invariant
            rest@.len() + i == n,
            n == s.len(),
            forall|k: int| 0 <= k < rest@.len() ==> #[trigger] lot_view(rest@[k]) == s[i + k],
            lots_view(out@) == sort_lots_spec(s.take(i as int)),
        decreases n - i,
    {
        let x = rest.remove(0);
        assert(lot_view(x) == s[i as int]);
        insert_lot_exec(&mut out, x);
        assert(s.take(i as int + 1).drop_last() =~= s.take(i as int));
        i = i + 1;
    }
    assert(s.take(n as int) =~= s);
    out
}


/// The content of a [`ScalpingStrategy`].
pub struct StrategyView {
    pub settings: TradingSettings,
    pub lots: Seq<LotView>,
    pub buy_order: Option<Seq<char>>,
    pub sell_orders: Seq<(Seq<char>, PriceView)>,
}

/// All lots held.
pub open spec fn held(lots: Seq<LotView>) -> DecimalView {
    lots_total(lots, lots.len())
}

/// Adding up the lots held does not overflow.
pub open spec fn held_defined(lots: Seq<LotView>) -> bool {
    lots_total_defined(lots, lots.len())
}

/// The bid quantity within the first `n` levels.
pub open spec fn bid_depth_spec(b: BookView, n: usize) -> DecimalView {
    depth_of(b.bids, min_nat(n as nat, b.bids.len()))
}

/// The ask quantity within the first `n` levels.
pub open spec fn ask_depth_spec(b: BookView, n: usize) -> DecimalView {
    depth_of(b.asks, min_nat(n as nat, b.asks.len()))
}

/// Adding up the bid quantity within the first `n` levels does not overflow.
pub open spec fn bid_depth_defined(b: BookView, n: usize) -> bool {
    depth_defined(b.bids, min_nat(n as nat, b.bids.len()))
}

/// Adding up the ask quantity within the first `n` levels does not overflow.
pub open spec fn ask_depth_defined(b: BookView, n: usize) -> bool {
    depth_defined(b.asks, min_nat(n as nat, b.asks.len()))
}

/// The sell price for lots bought at `buy`: the minimum profit above it.
pub open spec fn sell_price_spec(s: TradingSettings, buy: PriceView) -> PriceView {
    PriceView { value: sum_of(buy.value, minimum_profit_spec(s)), currency: buy.currency }
}

/// Computing [`sell_price_spec`] does not overflow.
pub open spec fn sell_price_defined(s: TradingSettings, buy: PriceView) -> bool {
    &&& decimal_checked_mul(s.price_step@, dv(s.minimum_profit_steps as int, 0)) is Some
    &&& decimal_checked_add(buy.value, minimum_profit_spec(s)) is Some
}

/// The index of the first active order with identifier `id`, `-1` for none.
pub open spec fn order_index(m: StateView, id: Seq<char>) -> int {
    first_index(order_keys(m.active_orders), id)
}

/// Whether the strategy would place a new buy order: trading is enabled and
/// within its hours, no buy order is active, fewer lots than the maximum are
/// held, the bids within the depth hold enough lots, and the cash covers a
/// lot at the best ask (when there is one).
pub open spec fn should_buy_spec(st: StrategyView, m: StateView) -> bool {
    let s = st.settings;
    &&& s.enabled
    &&& trading_time_spec(s.trading_hours, seconds_of_day_spec(m.timestamp.seconds as int))
    &&& st.buy_order is None
    &&& lots_of(held(st.lots)) < s.max_position_lots
    &&& lots_of(bid_depth_spec(m.book, s.market_order_book_depth)) >= s.minimum_market_order_size_to_buy
    &&& (m.book.asks.len() == 0 || m.available_cash.val() >= product_of(
        m.book.asks[0].price.value,
        dv(s.lot_size as int, 0),
    ).val())
}

/// The arithmetic that [`should_buy_spec`] reaches does not overflow.
pub open spec fn should_buy_defined(st: StrategyView, m: StateView) -> bool {
    let s = st.settings;
    let reached = s.enabled && trading_time_spec(s.trading_hours, seconds_of_day_spec(m.timestamp.seconds as int))
        && st.buy_order is None;
    &&& reached ==> held_defined(st.lots)
    &&& reached && lots_of(held(st.lots)) < s.max_position_lots ==> bid_depth_defined(
        m.book,
        s.market_order_book_depth,
    )
    &&& reached && lots_of(held(st.lots)) < s.max_position_lots && lots_of(
        bid_depth_spec(m.book, s.market_order_book_depth),
    ) >= s.minimum_market_order_size_to_buy && m.book.asks.len() > 0 ==> decimal_checked_mul(
        m.book.asks[0].price.value,
        dv(s.lot_size as int, 0),
    ) is Some
}

/// Whether the strategy would sell: lots are held and the asks within the
/// depth hold enough lots.
pub open spec fn should_sell_spec(st: StrategyView, m: StateView) -> bool {
    &&& held(st.lots).mantissa != 0
    &&& lots_of(ask_depth_spec(m.book, st.settings.market_order_book_depth))
        >= st.settings.minimum_market_order_size_to_sell
}

/// The arithmetic that [`should_sell_spec`] reaches does not overflow.
pub open spec fn should_sell_defined(st: StrategyView, m: StateView) -> bool {
    &&& held_defined(st.lots)
    &&& held(st.lots).mantissa != 0 ==> ask_depth_defined(m.book, st.settings.market_order_book_depth)
}

/// The active buy order to move to the best bid, with that price: when the
/// order is among the active orders with a limit price, the best bid's price
/// differs from it by value, and the bids within the depth hold enough lots.
pub open spec fn adjust_buy_spec(st: StrategyView, m: StateView) -> Option<(Seq<char>, PriceView)> {
    match st.buy_order {
        None => None,
        Some(id) => {
            let i = order_index(m, id);
            if i < 0 || m.active_orders[i].price is None || m.book.bids.len() == 0 {
                None
            } else if m.book.bids[0].price.value.val() != m.active_orders[i].price->Some_0.value.val()
                && lots_of(bid_depth_spec(m.book, st.settings.market_order_book_depth))
                >= st.settings.minimum_market_order_size_to_change_buy_price {
                Some((id, m.book.bids[0].price))
            } else {
                None
            }
        },
    }
}

/// The arithmetic that [`adjust_buy_spec`] reaches does not overflow.
pub open spec fn adjust_buy_defined(st: StrategyView, m: StateView) -> bool {
    match st.buy_order {
        None => true,
        Some(id) => {
            let i = order_index(m, id);
            i >= 0 && m.active_orders[i].price is Some && m.book.bids.len() > 0
                && m.book.bids[0].price.value.val() != m.active_orders[i].price->Some_0.value.val()
                ==> bid_depth_defined(m.book, st.settings.market_order_book_depth)
        },
    }
}

/// One step of the search for a sell order to move.
pub enum SellStep {
    /// The search ends with nothing to move.
    Stop,
    /// This order moves to this price.
    Found(Seq<char>, PriceView),
    /// The search goes on with the next order.
    Next,
}

/// The step for the `k`-th tracked sell order: the search stops when the
/// order is not active, has no limit price, or there is no ask; it finds the
/// order when the best ask is below its price yet not below the sell price of
/// the cheapest lots held, and the asks within the depth hold enough lots.
pub open spec fn sell_step(st: StrategyView, m: StateView, k: int) -> SellStep {
    let id = st.sell_orders[k].0;
    let i = order_index(m, id);
    if i < 0 || m.active_orders[i].price is None || m.book.asks.len() == 0 {
        SellStep::Stop
    } else {
        let ask = m.book.asks[0].price;
        let low = lowest_lot(st.lots);
        if ask.value.val() < m.active_orders[i].price->Some_0.value.val() && low >= 0
            && ask.value.val() >= sell_price_spec(st.settings, st.lots[low].0).value.val()
            && lots_of(ask_depth_spec(m.book, st.settings.market_order_book_depth))
            >= st.settings.minimum_market_order_size_to_change_sell_price {
            SellStep::Found(id, ask)
        } else {
            SellStep::Next
        }
    }
}

/// The arithmetic of [`sell_step`] does not overflow.
pub open spec fn sell_step_defined(st: StrategyView, m: StateView, k: int) -> bool {
    let id = st.sell_orders[k].0;
    let i = order_index(m, id);
    let ask = m.book.asks[0].price;
    let low = lowest_lot(st.lots);
    i >= 0 && m.active_orders[i].price is Some && m.book.asks.len() > 0
        && ask.value.val() < m.active_orders[i].price->Some_0.value.val() && low >= 0 ==> {
        &&& sell_price_defined(st.settings, st.lots[low].0)
        &&& ask.value.val() >= sell_price_spec(st.settings, st.lots[low].0).value.val()
            ==> ask_depth_defined(m.book, st.settings.market_order_book_depth)
    }
}

/// The tracked sell order to move, searched from the `k`-th on.
pub open spec fn adjust_sell_from(st: StrategyView, m: StateView, k: int) -> Option<(Seq<char>, PriceView)>
    decreases st.sell_orders.len() - k,
{
    if k < 0 || k >= st.sell_orders.len() {
        None
    } else {
        match sell_step(st, m, k) {
            SellStep::Stop => None,
            SellStep::Found(id, p) => Some((id, p)),
            SellStep::Next => adjust_sell_from(st, m, k + 1),
        }
    }
}

/// The search of [`adjust_sell_from`] does not overflow.
pub open spec fn adjust_sell_defined_from(st: StrategyView, m: StateView, k: int) -> bool
    decreases st.sell_orders.len() - k,
{
    if k < 0 || k >= st.sell_orders.len() {
        true
    } else {
        &&& sell_step_defined(st, m, k)
        &&& sell_step(st, m, k) is Next ==> adjust_sell_defined_from(st, m, k + 1)
    }
}

/// What the strategy decides, in this order of precedence: move the buy
/// order to the best bid; move a sell order to the best ask; buy a lot at the
/// best bid; sell all lots held at the sell price of the cheapest ones (when
/// no sell order is tracked); otherwise hold.
pub open spec fn decision_spec(st: StrategyView, m: StateView) -> DecisionView {
    let s = st.settings;
    let lot = dv(s.lot_size as int, 0);
    match adjust_buy_spec(st, m) {
        Some((id, p)) => DecisionView {
            actions: seq![ActionView::Cancel { order_id: id }, ActionView::Buy { quantity: lot, price: Some(p) }],
            reason: Some("Adjusting buy order to new best bid"@),
        },
        None => match adjust_sell_from(st, m, 0) {
            Some((id, p)) => DecisionView {
                actions: seq![ActionView::Cancel { order_id: id }, ActionView::Sell { quantity: lot, price: Some(p) }],
                reason: Some("Adjusting sell order to better price"@),
            },
            None => if should_buy_spec(st, m) && m.book.bids.len() > 0 {
                DecisionView {
                    actions: seq![ActionView::Buy { quantity: lot, price: Some(m.book.bids[0].price) }],
                    reason: Some("Placing new buy order at best bid"@),
                }
            } else if should_sell_spec(st, m) && st.sell_orders.len() == 0 && lowest_lot(st.lots) >= 0 {
                DecisionView {
                    actions: seq![
                        ActionView::Sell {
                            quantity: held(st.lots),
                            price: Some(sell_price_spec(s, st.lots[lowest_lot(st.lots)].0)),
                        },
                    ],
                    reason: Some("Placing new sell order with minimum profit"@),
                }
            } else {
                DecisionView { actions: seq![ActionView::Hold], reason: Some("No action needed"@) }
            },
        },
    }
}

/// A new buy is placed only within the limits of the settings: trading is
/// enabled, no buy order is active, fewer lots than the maximum are held,
/// the bids within the depth hold at least the minimum, and the order is a
/// limit buy of one lot at the best bid.
pub proof fn lemma_new_buy_conditions(st: StrategyView, m: StateView)
    requires
        decision_spec(st, m).actions.len() == 1,
        decision_spec(st, m).actions[0] is Buy,
    ensures
        st.settings.enabled,
        st.buy_order is None,
        lots_of(held(st.lots)) < st.settings.max_position_lots,
        lots_of(bid_depth_spec(m.book, st.settings.market_order_book_depth))
            >= st.settings.minimum_market_order_size_to_buy,
        m.book.bids.len() > 0,
        decision_spec(st, m).actions[0] == (ActionView::Buy {
            quantity: dv(st.settings.lot_size as int, 0),
            price: Some(m.book.bids[0].price),
        }),
        m.book.asks.len() > 0 ==> m.available_cash.val() >= product_of(
            m.book.asks[0].price.value,
            dv(st.settings.lot_size as int, 0),
        ).val(),
{
    assert(adjust_buy_spec(st, m) is None);
    assert(adjust_sell_from(st, m, 0) is None);
    assert(should_buy_spec(st, m));
}

/// A new buy is affordable: whenever the decision is a single buy (a new
/// buy order at the best bid), the available cash covers `lot_size` units at
/// the best ask, where there is one.
pub proof fn lemma_new_buy_is_affordable(st: StrategyView, m: StateView)
    requires
        decision_spec(st, m).actions.len() == 1,
        decision_spec(st, m).actions[0] is Buy,
        m.book.asks.len() > 0,
        m.book.asks[0].price.value.wf(),
        mul_fits(m.book.asks[0].price.value, dv(st.settings.lot_size as int, 0)),
    ensures
        m.available_cash.val() >= m.book.asks[0].price.value.val() * st.settings.lot_size,
{
    lemma_new_buy_conditions(st, m);

    let a = m.book.asks[0].price.value;
    let lot = dv(st.settings.lot_size as int, 0);
    assert(adjust_buy_spec(st, m) is None);
    assert(adjust_sell_from(st, m, 0) is None);
    assert(should_buy_spec(st, m));
    lemma_exact_product_value(a, lot);
    lemma_pow10_positive(MAX_SCALE as nat);
    assert(lot.val() == st.settings.lot_size * pow10(MAX_SCALE as nat));
    let pv = product_of(a, lot).val();
    let big = pow10(MAX_SCALE as nat);
    assert(pv * big == a.val() * (st.settings.lot_size * big));
    assert(pv == a.val() * st.settings.lot_size) by (nonlinear_arith)
        requires
            pv * big == a.val() * (st.settings.lot_size * big),
            big >= 1,
    ;
}

/// The arithmetic that [`decision_spec`] reaches does not overflow.
pub open spec fn decide_defined(st: StrategyView, m: StateView) -> bool {
    let no_adjust = adjust_buy_spec(st, m) is None && adjust_sell_from(st, m, 0) is None;
    let no_buy = !(should_buy_spec(st, m) && m.book.bids.len() > 0);
    &&& adjust_buy_defined(st, m)
    &&& adjust_buy_spec(st, m) is None ==> adjust_sell_defined_from(st, m, 0)
    &&& no_adjust ==> should_buy_defined(st, m)
    &&& no_adjust && no_buy ==> should_sell_defined(st, m)
    &&& no_adjust && no_buy && should_sell_spec(st, m) && st.sell_orders.len() == 0 && lowest_lot(st.lots) >= 0
        ==> sell_price_defined(st.settings, st.lots[lowest_lot(st.lots)].0)
}

/// The tracked sell orders without the first one of identifier `id`.
pub open spec fn without_sell_order(s: Seq<(Seq<char>, PriceView)>, id: Seq<char>) -> Seq<(Seq<char>, PriceView)> {
    let i = first_index(s.map_values(|e: (Seq<char>, PriceView)| e.0), id);
    if i >= 0 {
        s.remove(i)
    } else {
        s
    }
}

/// The view of tracked sell orders.
pub open spec fn sell_orders_view(s: Seq<(String, Price)>) -> Seq<(Seq<char>, PriceView)> {
    s.map_values(|e: (String, Price)| (e.0@, e.1@))
}

/// The view of an optional order and price.
pub open spec fn opt_pair(r: Option<(String, Price)>) -> Option<(Seq<char>, PriceView)> {
    match r {
        Some((id, p)) => Some((id@, p@)),
        None => None,
    }
}


/// The first active order with identifier `id`.
fn find_order<'a>(orders: &'a Vec<Order>, id: &str) -> (r: Option<&'a Order>)
    ensures
        first_index(order_keys(orders_view(orders@)), id@) < 0 ==> r is None,
        first_index(order_keys(orders_view(orders@)), id@) >= 0 ==> r is Some && r->Some_0@ == orders_view(
            orders@,
        )[first_index(order_keys(orders_view(orders@)), id@)],
{
    let ghost keys = order_keys(orders_view(orders@));
    assert(keys.take(0) =~= Seq::<Seq<char>>::empty());
    let mut i: usize = 0;
    while i < orders.len()
        invariant
            i <= orders@.len(),
            keys == order_keys(orders_view(orders@)),
            keys.len() == orders@.len(),
            first_index(keys.take(i as int), id@) == -1,
        decreases orders@.len() - i,
    {
        proof {
            lemma_first_index_step(keys, id@, i as int);
        }
        assert(keys[i as int] == orders@[i as int]@.id);
        if str_eq(orders[i].id().as_str(), id) {
            proof {
                lemma_first_index_prefix(keys, id@, i as int + 1);
            }
            return Some(&orders[i]);
        }
        i = i + 1;
    }
    proof {
        lemma_first_index_none(keys, id@);
    }
    None
}

/// A scalping strategy: buy a lot at the best bid when the market is liquid
/// and cash allows, track the lots bought by price, and sell them at a price
/// that secures the minimum profit over the cheapest lots.
#[derive(Debug)]
pub struct ScalpingStrategy {
    settings: TradingSettings,
    owned_lots: OwnedLots,
    active_buy_order: Option<String>,
    active_sell_orders: Vec<(String, Price)>,
}

impl View for ScalpingStrategy {
    type V = StrategyView;

    closed spec fn view(&self) -> StrategyView {
        StrategyView {
            settings: self.settings,
            lots: self.owned_lots.view(),
            buy_order: opt_text(self.active_buy_order),
            sell_orders: sell_orders_view(self.active_sell_orders@),
        }
    }
}

impl ScalpingStrategy {
    /// A strategy with the given settings, holding nothing and tracking no
    /// order.
    pub fn new(settings: TradingSettings) -> (r: ScalpingStrategy)
        ensures
            r@ == (StrategyView {
                settings,
                lots: Seq::empty(),
                buy_order: None,
                sell_orders: Seq::empty(),
            }),
    {
        let r = ScalpingStrategy {
            settings,
            owned_lots: OwnedLots::new(),
            active_buy_order: None,
            active_sell_orders: Vec::new(),
        };
        assert(sell_orders_view(r.active_sell_orders@) =~= Seq::empty());
        r
    }

    /// The settings.
    pub fn settings(&self) -> (r: &TradingSettings)
        ensures
            *r == self@.settings,
    {
        &self.settings
    }

    /// The name of the strategy.
    pub fn name(&self) -> (r: &'static str)
        ensures
            r@ == "Scalping Strategy"@,
    {
        "Scalping Strategy"
    }

    /// The lots held.
    pub fn owned_lots(&self) -> (r: &OwnedLots)
        ensures
            r.view() == self@.lots,
    {
        &self.owned_lots
    }

    /// The identifier of the buy order tracked, if any.
    pub fn active_buy_order(&self) -> (r: Option<&str>)
        ensures
            match r {
                Some(s) => self@.buy_order == Some(s@),
                None => self@.buy_order is None,
            },
    {
        match &self.active_buy_order {
            Some(s) => Some(s.as_str()),
            None => None,
        }
    }

    /// The number of sell orders tracked.
    pub fn active_sell_order_count(&self) -> (r: usize)
        ensures
            r == self@.sell_orders.len(),
    {
        self.active_sell_orders.len()
    }

    /// The price at which lots bought at `buy_price` are sold: the minimum
    /// profit above it.
    pub fn get_sell_price(&self, buy_price: &Price) -> (r: Price)
        requires
            sell_price_defined(self@.settings, buy_price@),
        ensures
            r@ == sell_price_spec(self@.settings, buy_price@),
    {
        buy_price.add_step(self.settings.minimum_profit())
    }

    /// Whether to place a new buy order (see [`should_buy_spec`]).
    fn should_buy(&self, state: &MarketState) -> (r: bool)
        requires
            should_buy_defined(self@, state@),
        ensures
            r == should_buy_spec(self@, state@),
    {
        if !self.settings.enabled {
            return false;
        }
        let second = state.timestamp.seconds_of_day();
        if !self.settings.is_trading_time(second) {
            return false;
        }
        if self.active_buy_order.is_some() {
            return false;
        }
        let current = self.owned_lots.total_quantity().as_lots();
        if current >= self.settings.max_position_lots {
            return false;
        }
        let bid_depth = state.order_book.bid_depth(self.settings.market_order_book_depth);
        if bid_depth.as_lots() < self.settings.minimum_market_order_size_to_buy {
            return false;
        }
        match state.order_book.best_ask() {
            Some(best_ask) => {
                let lot_cost = best_ask.price().value().mul(&Decimal::from_u64(self.settings.lot_size));
                if state.available_cash.lt(&lot_cost) {
                    return false;
                }
            },
            None => {},
        }
        true
    }

    /// Whether to sell the lots held (see [`should_sell_spec`]).
    fn should_sell(&self, state: &MarketState) -> (r: bool)
        requires
            should_sell_defined(self@, state@),
        ensures
            r == should_sell_spec(self@, state@),
    {
        if self.owned_lots.total_quantity().is_zero() {
            return false;
        }
        let ask_depth = state.order_book.ask_depth(self.settings.market_order_book_depth);
        if ask_depth.as_lots() < self.settings.minimum_market_order_size_to_sell {
            return false;
        }
        true
    }

    /// The buy order to move to the best bid (see [`adjust_buy_spec`]).
    fn should_adjust_buy_order(&self, state: &MarketState) -> (r: Option<(String, Price)>)
        requires
            adjust_buy_defined(self@, state@),
        ensures
            opt_pair(r) == adjust_buy_spec(self@, state@),
    {
        let order_id = match &self.active_buy_order {
            Some(id) => id,
            None => return None,
        };
        let current_order = match find_order(&state.active_orders, order_id.as_str()) {
            Some(o) => o,
            None => return None,
        };
        let current_price = match current_order.price() {
            Some(p) => p,
            None => return None,
        };
        let best_bid = match state.order_book.best_bid() {
            Some(b) => b,
            None => return None,
        };
        if !best_bid.price().value().eq_value(&current_price.value()) {
            let bid_depth = state.order_book.bid_depth(self.settings.market_order_book_depth);
            if bid_depth.as_lots() >= self.settings.minimum_market_order_size_to_change_buy_price {
                return Some((order_id.clone(), best_bid.price().clone()));
            }
        }
        None
    }

    /// The sell order to move to the best ask (see [`adjust_sell_from`]).
    fn should_adjust_sell_order(&self, state: &MarketState) -> (r: Option<(String, Price)>)
        requires
            adjust_sell_defined_from(self@, state@, 0),
        ensures
            opt_pair(r) == adjust_sell_from(self@, state@, 0),
    {
        let mut k: usize = 0;
        while k < self.active_sell_orders.len()
            invariant
                k <= self@.sell_orders.len(),
                self@.sell_orders.len() == self.active_sell_orders@.len(),
                adjust_sell_from(self@, state@, 0) == adjust_sell_from(self@, state@, k as int),
                adjust_sell_defined_from(self@, state@, k as int),
            decreases self.active_sell_orders@.len() - k,
        {
            let order_id = &self.active_sell_orders[k].0;
            assert(self@.sell_orders[k as int].0 == order_id@);
            let order = match find_order(&state.active_orders, order_id.as_str()) {
                Some(o) => o,
                None => return None,
            };
            let current_price = match order.price() {
                Some(p) => p,
                None => return None,
            };
            let best_ask = match state.order_book.best_ask() {
                Some(a) => a,
                None => return None,
            };
            if best_ask.price().value().lt(&current_price.value()) {
                match self.owned_lots.lowest_price() {
                    Some(lowest_buy) => {
                        let min_sell = self.get_sell_price(lowest_buy);
                        if best_ask.price().value().ge(&min_sell.value()) {
                            let ask_depth = state.order_book.ask_depth(self.settings.market_order_book_depth);
                            if ask_depth.as_lots() >= self.settings.minimum_market_order_size_to_change_sell_price {
                                return Some((order_id.clone(), best_ask.price().clone()));
                            }
                        }
                    },
                    None => {},
                }
            }
            k = k + 1;
        }
        None
    }

    /// What to do in the given market state (see [`decision_spec`]).
    pub fn decide(&self, state: &MarketState) -> (r: StrategyDecision)
        requires
            decide_defined(self@, state@),
        ensures
            r@ == decision_spec(self@, state@),
    {
        self.create_actions(state)
    }

    /// The actions for a market state, in order of precedence (see
    /// [`decision_spec`]).
    fn create_actions(&self, state: &MarketState) -> (r: StrategyDecision)
        requires
            decide_defined(self@, state@),
        ensures
            r@ == decision_spec(self@, state@),
    {
        let mut decision = StrategyDecision::new();
        match self.should_adjust_buy_order(state) {
            Some((order_id, new_price)) => {
                decision.add_action(StrategyAction::cancel(OrderId::new(order_id.as_str())));
                decision.add_action(StrategyAction::limit_buy(Quantity::from_lots(self.settings.lot_size), new_price));
                assert(decision@.actions =~= decision_spec(self@, state@).actions);
                return decision.with_reason("Adjusting buy order to new best bid");
            },
            None => {},
        }
        match self.should_adjust_sell_order(state) {
            Some((order_id, new_price)) => {
                decision.add_action(StrategyAction::cancel(OrderId::new(order_id.as_str())));
                decision.add_action(StrategyAction::limit_sell(Quantity::from_lots(self.settings.lot_size), new_price));
                assert(decision@.actions =~= decision_spec(self@, state@).actions);
                return decision.with_reason("Adjusting sell order to better price");
            },
            None => {},
        }
        if self.should_buy(state) {
            match state.order_book.best_bid() {
                Some(bid) => {
                    decision.add_action(
                        StrategyAction::limit_buy(Quantity::from_lots(self.settings.lot_size), bid.price().clone()),
                    );
                    return decision.with_reason("Placing new buy order at best bid");
                },
                None => {},
            }
        }
        if self.should_sell(state) && self.active_sell_orders.len() == 0 {
            match self.owned_lots.lowest_price() {
                Some(lowest_buy) => {
                    let sell_price = self.get_sell_price(lowest_buy);
                    decision.add_action(StrategyAction::limit_sell(self.owned_lots.total_quantity(), sell_price));
                    return decision.with_reason("Placing new sell order with minimum profit");
                },
                None => {},
            }
        }
        StrategyDecision::hold_with_reason("No action needed")
    }

    /// What to do in the given market state, for any state: `None` where
    /// the decimal arithmetic of the decision overflows (see
    /// [`decide_defined`]), the decision of [`decide`](Self::decide)
    /// otherwise.
    pub fn try_decide(&self, state: &MarketState) -> (r: Option<StrategyDecision>)
        ensures
            decide_defined(self@, state@) ==> r is Some && r->Some_0@ == decision_spec(self@, state@),
            !decide_defined(self@, state@) ==> r is None,
    {
        if self.decide_computable(state) {
            Some(self.create_actions(state))
        } else {
            None
        }
    }

    /// Whether the sell price for lots bought at `buy` can be computed.
    fn sell_price_computable(&self, buy: &Price) -> (r: bool)
        ensures
            r == sell_price_defined(self@.settings, buy@),
    {
        match self.settings.price_step.checked_mul(&Decimal::from_u64(self.settings.minimum_profit_steps as u64)) {
            Some(profit) => buy.value().checked_add(&profit).is_some(),
            None => false,
        }
    }

    /// Whether the arithmetic of [`should_buy_spec`] can be done.
    fn should_buy_computable(&self, state: &MarketState) -> (r: bool)
        ensures
            r == should_buy_defined(self@, state@),
    {
        if !self.settings.enabled {
            return true;
        }
        let second = state.timestamp.seconds_of_day();
        if !self.settings.is_trading_time(second) {
            return true;
        }
        if self.active_buy_order.is_some() {
            return true;
        }
        let current = match self.owned_lots.checked_total_quantity() {
            Some(q) => q,
            None => return false,
        };
        if current.as_lots() >= self.settings.max_position_lots {
            return true;
        }
        let bid_depth = match state.order_book.checked_bid_depth(self.settings.market_order_book_depth) {
            Some(q) => q,
            None => return false,
        };
        if bid_depth.as_lots() < self.settings.minimum_market_order_size_to_buy {
            return true;
        }
        match state.order_book.best_ask() {
            Some(best_ask) => best_ask.price().value().checked_mul(&Decimal::from_u64(self.settings.lot_size)).is_some(),
            None => true,
        }
    }

    /// Whether the arithmetic of [`should_sell_spec`] can be done.
    fn should_sell_computable(&self, state: &MarketState) -> (r: bool)
        ensures
            r == should_sell_defined(self@, state@),
    {
        let held = match self.owned_lots.checked_total_quantity() {
            Some(q) => q,
            None => return false,
        };
        if held.is_zero() {
            return true;
        }
        state.order_book.checked_ask_depth(self.settings.market_order_book_depth).is_some()
    }

    /// Whether the arithmetic of [`adjust_buy_spec`] can be done.
    fn adjust_buy_computable(&self, state: &MarketState) -> (r: bool)
        ensures
            r == adjust_buy_defined(self@, state@),
    {
        let order_id = match &self.active_buy_order {
            Some(id) => id,
            None => return true,
        };
        let current_order = match find_order(&state.active_orders, order_id.as_str()) {
            Some(o) => o,
            None => return true,
        };
        let current_price = match current_order.price() {
            Some(p) => p,
            None => return true,
        };
        let best_bid = match state.order_book.best_bid() {
            Some(b) => b,
            None => return true,
        };
        if !best_bid.price().value().eq_value(&current_price.value()) {
            return state.order_book.checked_bid_depth(self.settings.market_order_book_depth).is_some();
        }
        true
    }

    /// Whether the arithmetic of [`adjust_sell_from`] can be done.
    fn adjust_sell_computable(&self, state: &MarketState) -> (r: bool)
        ensures
            r == adjust_sell_defined_from(self@, state@, 0),
    {
        let mut k: usize = 0;
        while k < self.active_sell_orders.len()
            invariant
                k <= self@.sell_orders.len(),
                self@.sell_orders.len() == self.active_sell_orders@.len(),
                adjust_sell_defined_from(self@, state@, 0) == adjust_sell_defined_from(self@, state@, k as int),
            decreases self.active_sell_orders@.len() - k,
        {
            let order_id = &self.active_sell_orders[k].0;
            assert(self@.sell_orders[k as int].0 == order_id@);
            let order = match find_order(&state.active_orders, order_id.as_str()) {
                Some(o) => o,
                None => return true,
            };
            let current_price = match order.price() {
                Some(p) => p,
                None => return true,
            };
            let best_ask = match state.order_book.best_ask() {
                Some(a) => a,
                None => return true,
            };
            if best_ask.price().value().lt(&current_price.value()) {
                match self.owned_lots.lowest_price() {
                    Some(lowest_buy) => {
                        if !self.sell_price_computable(lowest_buy) {
                            return false;
                        }
                        let min_sell = self.get_sell_price(lowest_buy);
                        if best_ask.price().value().ge(&min_sell.value()) {
                            let ask_depth = match state.order_book.checked_ask_depth(
                                self.settings.market_order_book_depth,
                            ) {
                                Some(q) => q,
                                None => return false,
                            };
                            if ask_depth.as_lots() >= self.settings.minimum_market_order_size_to_change_sell_price {
                                return true;
                            }
                        }
                    },
                    None => {},
                }
            }
            k = k + 1;
        }
        true
    }

    /// Whether the arithmetic of [`decision_spec`] can be done.
    fn decide_computable(&self, state: &MarketState) -> (r: bool)
        ensures
            r == decide_defined(self@, state@),
    {
        if !self.adjust_buy_computable(state) {
            return false;
        }
        if self.should_adjust_buy_order(state).is_some() {
            return true;
        }
        if !self.adjust_sell_computable(state) {
            return false;
        }
        if self.should_adjust_sell_order(state).is_some() {
            return true;
        }
        if !self.should_buy_computable(state) {
            return false;
        }
        if self.should_buy(state) && state.order_book.best_bid().is_some() {
            return true;
        }
        if !self.should_sell_computable(state) {
            return false;
        }
        if self.should_sell(state) && self.active_sell_orders.len() == 0 {
            match self.owned_lots.lowest_price() {
                Some(lowest_buy) => {
                    return self.sell_price_computable(lowest_buy);
                },
                None => {},
            }
        }
        true
    }

    /// Records a filled order: a buy adds its filled lots at its limit
    /// price (when it has one) and clears the tracked buy order; a sell
    /// removes its filled lots, cheapest first, and stops tracking it.
    pub fn on_order_filled(&mut self, order: &Order)
        requires
            order@.side is Buy && order@.price is Some ==> lots_add_defined(
                old(self)@.lots,
                order@.price->Some_0,
                order@.filled_quantity,
            ),
        ensures
            order@.side is Buy ==> final(self)@ == (StrategyView {
                lots: match order@.price {
                    Some(p) => lots_after_add(old(self)@.lots, p, order@.filled_quantity),
                    None => old(self)@.lots,
                },
                buy_order: None,
                ..old(self)@
            }),
            order@.side is Sell ==> final(self)@ == (StrategyView {
                lots: consume(sort_lots_spec(old(self)@.lots), order@.filled_quantity, None).0,
                sell_orders: without_sell_order(old(self)@.sell_orders, order@.id),
                ..old(self)@
            }),
    {
        match order.side() {
            OrderSide::Buy => {
                match order.price() {
                    Some(price) => {
                        self.owned_lots.add(price.clone(), order.filled_quantity());
                    },
                    None => {},
                }
                self.active_buy_order = None;
            },
            OrderSide::Sell => {
                let _ = self.owned_lots.remove(order.filled_quantity());
                self.remove_sell_order(order.id().as_str());
            },
        }
    }

    /// Records a cancelled order: a buy clears the tracked buy order when it
    /// is that order; a sell stops being tracked.
    pub fn on_order_cancelled(&mut self, order: &Order)
        ensures
            order@.side is Buy ==> final(self)@ == (StrategyView {
                buy_order: if old(self)@.buy_order == Some(order@.id) {
                    None
                } else {
                    old(self)@.buy_order
                },
                ..old(self)@
            }),
            order@.side is Sell ==> final(self)@ == (StrategyView {
                sell_orders: without_sell_order(old(self)@.sell_orders, order@.id),
                ..old(self)@
            }),
    {
        match order.side() {
            OrderSide::Buy => {
                let same = match &self.active_buy_order {
                    Some(id) => str_eq(id.as_str(), order.id().as_str()),
                    None => false,
                };
                if same {
                    self.active_buy_order = None;
                }
            },
            OrderSide::Sell => {
                self.remove_sell_order(order.id().as_str());
            },
        }
    }

    /// Forgets the lots held and every tracked order.
    pub fn reset(&mut self)
        ensures
            final(self)@ == (StrategyView {
                settings: old(self)@.settings,
                lots: Seq::empty(),
                buy_order: None,
                sell_orders: Seq::empty(),
            }),
    {
        self.owned_lots.clear();
        self.active_buy_order = None;
        self.active_sell_orders = Vec::new();
        assert(sell_orders_view(self.active_sell_orders@) =~= Seq::empty());
    }

    /// Stops tracking the first sell order of identifier `id`.
    fn remove_sell_order(&mut self, id: &str)
        ensures
            final(self)@ == (StrategyView {
                sell_orders: without_sell_order(old(self)@.sell_orders, id@),
                ..old(self)@
            }),
    {
        let ghost s = old(self)@.sell_orders;
        let ghost keys = s.map_values(|e: (Seq<char>, PriceView)| e.0);
        assert(keys.take(0) =~= Seq::<Seq<char>>::empty());
        let mut i: usize = 0;
        while i < self.active_sell_orders.len()
            invariant
                i <= self.active_sell_orders@.len(),
                *self == *old(self),
                s == self@.sell_orders,
                keys == s.map_values(|e: (Seq<char>, PriceView)| e.0),
                keys.len() == self.active_sell_orders@.len(),
                first_index(keys.take(i as int), id@) == -1,
            decreases self.active_sell_orders@.len() - i,
        {
            proof {
                lemma_first_index_step(keys, id@, i as int);
            }
            assert(keys[i as int] == self.active_sell_orders@[i as int].0@);
            if str_eq(self.active_sell_orders[i].0.as_str(), id) {
                proof {
                    lemma_first_index_prefix(keys, id@, i as int + 1);
                }
                let _ = self.active_sell_orders.remove(i);
                assert(sell_orders_view(self.active_sell_orders@) =~= s.remove(i as int));
                return;
            }
            i = i + 1;
        }
        proof {
            lemma_first_index_none(keys, id@);
        }
    }
}

} // verus!
