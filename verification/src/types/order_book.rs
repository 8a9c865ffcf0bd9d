//! Order books: bid and ask price levels of an instrument.
use vstd::prelude::*;
use crate::clock::Timestamp;
use crate::text::owned;
use crate::types::decimal::{
    Decimal, DecimalView, dv, decimal_checked_add, decimal_checked_sub,
    sum_of, difference_of, quotient_of,
};
use crate::types::money::{Price, PriceView, Quantity};
use crate::types::order::OrderSide;

verus! {

/// The content of an [`OrderBookEntry`].
pub struct EntryView {
    pub price: PriceView,
    pub quantity: DecimalView,
}

/// A single entry of an order book.
#[derive(Debug)]
pub struct OrderBookEntry {
    price: Price,
    quantity: Quantity,
}

impl View for OrderBookEntry {
    type V = EntryView;

    closed spec fn view(&self) -> EntryView {
        EntryView { price: self.price@, quantity: self.quantity@ }
    }
}

impl Clone for OrderBookEntry {
    fn clone(&self) -> (r: Self)
        ensures
            r@ == self@,
    {
        OrderBookEntry { price: self.price.clone(), quantity: self.quantity }
    }
}

impl OrderBookEntry {
    /// An entry.
    pub fn new(price: Price, quantity: Quantity) -> (r: OrderBookEntry)
        ensures
            r@ == (EntryView { price: price@, quantity: quantity@ }),
    {
        OrderBookEntry { price, quantity }
    }

    /// The price.
    pub fn price(&self) -> (r: &Price)
        ensures
            r@ == self@.price,
    {
        &self.price
    }

    /// The quantity.
    pub fn quantity(&self) -> (r: Quantity)
        ensures
            r@ == self@.quantity,
    {
        self.quantity
    }
}

/// The content of an [`OrderBookLevel`].
pub struct LevelView {
    pub price: PriceView,
    pub total_quantity: DecimalView,
    pub order_count: u32,
}

/// The orders resting at one price, aggregated.
#[derive(Debug)]
pub struct OrderBookLevel {
    price: Price,
    total_quantity: Quantity,
    order_count: u32,
}

impl View for OrderBookLevel {
    type V = LevelView;

    closed spec fn view(&self) -> LevelView {
        LevelView { price: self.price@, total_quantity: self.total_quantity@, order_count: self.order_count }
    }
}

impl Clone for OrderBookLevel {
    fn clone(&self) -> (r: Self)
        ensures
            r@ == self@,
    {
        OrderBookLevel { price: self.price.clone(), total_quantity: self.total_quantity, order_count: self.order_count }
    }
}

impl OrderBookLevel {
    /// A price level.
    pub fn new(price: Price, total_quantity: Quantity, order_count: u32) -> (r: OrderBookLevel)
        ensures
            r@ == (LevelView { price: price@, total_quantity: total_quantity@, order_count }),
    {
        OrderBookLevel { price, total_quantity, order_count }
    }

    /// The price.
    pub fn price(&self) -> (r: &Price)
        ensures
            r@ == self@.price,
    {
        &self.price
    }

    /// The total quantity at this price.
    pub fn total_quantity(&self) -> (r: Quantity)
        ensures
            r@ == self@.total_quantity,
    {
        self.total_quantity
    }

    /// The number of orders at this price.
    pub fn order_count(&self) -> (r: u32)
        ensures
            r == self@.order_count,
    {
        self.order_count
    }
}

/// The views of a sequence of levels.
pub open spec fn levels_view(s: Seq<OrderBookLevel>) -> Seq<LevelView> {
    s.map_values(|l: OrderBookLevel| l@)
}

/// The price by which a level is ordered.
pub open spec fn level_key(l: LevelView) -> int {
    l.price.value.val()
}

/// `a` may stand before `b`: higher prices first when `descending`, lower
/// prices first otherwise.
pub open spec fn in_order(a: LevelView, b: LevelView, descending: bool) -> bool {
    if descending {
        level_key(a) >= level_key(b)
    } else {
        level_key(a) <= level_key(b)
    }
}

/// `x` placed into `s` after every trailing level that may stand before it.
pub open spec fn insert_level(s: Seq<LevelView>, x: LevelView, descending: bool) -> Seq<LevelView>
    decreases s.len(),
{
    if s.len() == 0 {
        seq![x]
    } else if in_order(s.last(), x, descending) {
        s.push(x)
    } else {
        insert_level(s.drop_last(), x, descending).push(s.last())
    }
}

/// The levels sorted by price, levels of equal price keeping their order
/// (the result of a stable sort).
pub open spec fn sort_levels_spec(s: Seq<LevelView>, descending: bool) -> Seq<LevelView>
    decreases s.len(),
{
    if s.len() == 0 {
        s
    } else {
        insert_level(sort_levels_spec(s.drop_last(), descending), s.last(), descending)
    }
}

/// Every level may stand before every later one.
pub open spec fn sorted_levels(s: Seq<LevelView>, descending: bool) -> bool {
    forall|i: int, j: int| 0 <= i < j < s.len() ==> in_order(s[i], s[j], descending)
}

/// Inserting where the trailing levels from `j` on must follow `x`.
proof fn lemma_insert_at(s: Seq<LevelView>, x: LevelView, descending: bool, j: int)
    requires
        0 <= j <= s.len(),
        forall|k: int| j <= k < s.len() ==> !in_order(#[trigger] s[k], x, descending),
        j == 0 || in_order(s[j - 1], x, descending),
    ensures
        insert_level(s, x, descending) == s.take(j).push(x) + s.skip(j),
    decreases s.len(),
{
    if s.len() == 0 {
        assert(s.take(j).push(x) + s.skip(j) =~= seq![x]);
    } else if j == s.len() {
        assert(s.take(j).push(x) + s.skip(j) =~= s.push(x));
    } else {
        let t = s.drop_last();
        assert(!in_order(s[s.len() - 1], x, descending));
        assert forall|k: int| j <= k < t.len() implies !in_order(#[trigger] t[k], x, descending) by {
            assert(t[k] == s[k]);
        }
        if j > 0 {
            assert(t[j - 1] == s[j - 1]);
        }
        lemma_insert_at(t, x, descending, j);
        assert(t.take(j).push(x) + t.skip(j) + seq![s.last()] =~= s.take(j).push(x) + s.skip(j));
        assert((t.take(j).push(x) + t.skip(j)).push(s.last()) =~= t.take(j).push(x) + t.skip(j) + seq![s.last()]);
    }
}

/// Inserting keeps the levels sorted.
proof fn lemma_insert_sorted(s: Seq<LevelView>, x: LevelView, descending: bool)
    requires
        sorted_levels(s, descending),
    ensures
        sorted_levels(insert_level(s, x, descending), descending),
        insert_level(s, x, descending).to_multiset() =~= s.to_multiset().insert(x),
    decreases s.len(),
{
    broadcast use vstd::seq_lib::group_to_multiset_ensures;
    if s.len() == 0 {
        assert(seq![x] =~= Seq::<LevelView>::empty().push(x));
    } else if in_order(s.last(), x, descending) {
        assert forall|i: int, j: int| 0 <= i < j < s.push(x).len() implies in_order(
            s.push(x)[i],
            s.push(x)[j],
            descending,
        ) by {
            if j == s.len() && i < s.len() - 1 {
                assert(in_order(s[i], s[s.len() - 1], descending));
            }
        }
    } else {
        let t = s.drop_last();
        assert(s =~= t.push(s.last()));
        lemma_insert_sorted(t, x, descending);
        let u = insert_level(t, x, descending);
        assert forall|i: int, j: int| 0 <= i < j < u.push(s.last()).len() implies in_order(
            u.push(s.last())[i],
            u.push(s.last())[j],
            descending,
        ) by {
            if j == u.len() {
                // every level of u is either x or a level of t, both may precede s.last()
                assert(u.to_multiset().count(u[i]) > 0);
                assert(u.to_multiset() =~= t.to_multiset().insert(x));
                if u[i] != x {
                    assert(t.to_multiset().count(u[i]) > 0);
                    let k = choose|k: int| 0 <= k < t.len() && t[k] == u[i];
                    assert(t[k] == s[k]);
                }
            }
        }
    }
}

/// Sorting yields sorted levels holding the same levels.
pub proof fn lemma_sort_levels(s: Seq<LevelView>, descending: bool)
    ensures
        sorted_levels(sort_levels_spec(s, descending), descending),
        sort_levels_spec(s, descending).to_multiset() =~= s.to_multiset(),
    decreases s.len(),
{
    broadcast use vstd::seq_lib::group_to_multiset_ensures;
    if s.len() > 0 {
        lemma_sort_levels(s.drop_last(), descending);
        lemma_insert_sorted(sort_levels_spec(s.drop_last(), descending), s.last(), descending);
        assert(s =~= s.drop_last().push(s.last()));
    }
}

/// Sorting sorted levels leaves them as they are.
pub proof fn lemma_sort_sorted_identity(s: Seq<LevelView>, descending: bool)
    requires
        sorted_levels(s, descending),
    ensures
        sort_levels_spec(s, descending) == s,
    decreases s.len(),
{
    if s.len() > 0 {
        let t = s.drop_last();
        assert(sorted_levels(t, descending));
        lemma_sort_sorted_identity(t, descending);
        assert(s =~= t.push(s.last()));
    }
}

/// Places `x` into `v` after every trailing level that may stand before it.
fn insert_level_exec(v: &mut Vec<OrderBookLevel>, x: OrderBookLevel, descending: bool)
    ensures
        levels_view(final(v)@) == insert_level(levels_view(old(v)@), x@, descending),
{
    let ghost s = levels_view(v@);
    let xv = x.price.value();
    let mut j = v.len();
    let mut done = false;
    while j > 0 && !done
        invariant
            j <= v.len(),
            v@ == old(v)@,
            s == levels_view(v@),
            xv@ == x@.price.value,
            forall|k: int| j <= k < s.len() ==> !in_order(#[trigger] s[k], x@, descending),
            done ==> j > 0 && in_order(s[j - 1], x@, descending),
        decreases j + (if done { 0int } else { 1int }),
    {
        let kv = v[j - 1].price.value();
        assert(s[j - 1] == v@[j - 1]@);
        let before = if descending {
            kv.ge(&xv)
        } else {
            kv.le(&xv)
        };
        if before {
            done = true;
        } else {
            j = j - 1;
        }
    }
    proof {
        if j > 0 {
            assert(s[j - 1] == v@[j - 1]@);
        }
        lemma_insert_at(s, x@, descending, j as int);
    }
    v.insert(j, x);
    assert(levels_view(v@) =~= s.take(j as int).push(x@) + s.skip(j as int));
}

/// The levels sorted by price, levels of equal price keeping their order.
pub fn sort_levels(levels: Vec<OrderBookLevel>, descending: bool) -> (r: Vec<OrderBookLevel>)
    ensures
        levels_view(r@) == sort_levels_spec(levels_view(levels@), descending),
{
    let ghost s = levels_view(levels@);
    let mut out: Vec<OrderBookLevel> = Vec::new();
    let mut rest = levels;
    let n = rest.len();
    let mut i: usize = 0;
    while i < n
        invariant
            rest@.len() + i == n,
            n == s.len(),
            forall|k: int| 0 <= k < rest@.len() ==> #[trigger] rest@[k]@ == s[i + k],
            levels_view(out@) == sort_levels_spec(s.take(i as int), descending),
        decreases n - i,
    {
        let x = rest.remove(0);
        assert(x@ == s[i as int]);
        insert_level_exec(&mut out, x, descending);
        assert(s.take(i as int + 1).drop_last() =~= s.take(i as int));
        i = i + 1;
    }
    assert(s.take(n as int) =~= s);
    out
}

/// The content of an [`OrderBook`], its timestamp aside.
pub struct BookView {
    pub instrument: Seq<char>,
    pub bids: Seq<LevelView>,
    pub asks: Seq<LevelView>,
}

/// Bids run from the highest price down, asks from the lowest price up.
pub open spec fn book_sorted(b: BookView) -> bool {
    sorted_levels(b.bids, true) && sorted_levels(b.asks, false)
}

/// The sum of the quantities of the first `n` levels, added from the front.
pub open spec fn depth_of(s: Seq<LevelView>, n: nat) -> DecimalView
    decreases n,
{
    if n == 0 {
        dv(0, 0)
    } else {
        sum_of(depth_of(s, (n - 1) as nat), s[n - 1].total_quantity)
    }
}

/// Every partial sum of the first `n` levels' quantities is defined.
pub open spec fn depth_defined(s: Seq<LevelView>, n: nat) -> bool {
    forall|k: nat| k < n ==> decimal_checked_add(#[trigger] depth_of(s, k), s[k as int].total_quantity) is Some
}

/// The smaller of two counts.
pub open spec fn min_nat(a: nat, b: nat) -> nat {
    if a <= b {
        a
    } else {
        b
    }
}

/// The levels from which a buy (asks) or a sell (bids) is filled.
pub open spec fn opposite_levels(b: BookView, side: OrderSide) -> Seq<LevelView> {
    match side {
        OrderSide::Buy => b.asks,
        OrderSide::Sell => b.bids,
    }
}

/// The sum of the quantities of the first `n` levels.
fn depth_exec(levels: &Vec<OrderBookLevel>, n: usize) -> (r: Quantity)
    requires
        n <= levels@.len(),
        depth_defined(levels_view(levels@), n as nat),
    ensures
        r@ == depth_of(levels_view(levels@), n as nat),
{
    let ghost s = levels_view(levels@);
    let mut acc = Quantity::zero();
    let mut i: usize = 0;
    while i < n
        invariant
            i <= n <= levels@.len(),
            s == levels_view(levels@),
            depth_defined(s, n as nat),
            acc@ == depth_of(s, i as nat),
        decreases n - i,
    {
        assert(s[i as int] == levels@[i as int]@);
        assert(decimal_checked_add(depth_of(s, i as nat), s[i as int].total_quantity) is Some);
        acc = acc.add(levels[i].total_quantity);
        i = i + 1;
    }
    acc
}

/// The sum of the quantities of the first `n` levels, or `None` where one
/// of its additions overflows.
fn checked_depth_exec(levels: &Vec<OrderBookLevel>, n: usize) -> (r: Option<Quantity>)
    requires
        n <= levels@.len(),
    ensures
        depth_defined(levels_view(levels@), n as nat) ==> r is Some && r->Some_0@ == depth_of(
            levels_view(levels@),
            n as nat,
        ),
        !depth_defined(levels_view(levels@), n as nat) ==> r is None,
{
    let ghost s = levels_view(levels@);
    let mut acc = Quantity::zero();
    let mut i: usize = 0;
    while i < n
        invariant
            i <= n <= levels@.len(),
            s == levels_view(levels@),
            depth_defined(s, i as nat),
            acc@ == depth_of(s, i as nat),
        decreases n - i,
    {
        assert(s[i as int] == levels@[i as int]@);
        match acc.checked_add(levels[i].total_quantity) {
            Some(q) => {
                acc = q;
            },
            None => {
                assert(decimal_checked_add(depth_of(s, i as nat), s[i as int].total_quantity) is None);
                return None;
            },
        }
        assert(depth_defined(s, i as nat + 1)) by {
            assert forall|k: nat| k < i as nat + 1 implies decimal_checked_add(
                #[trigger] depth_of(s, k),
                s[k as int].total_quantity,
            ) is Some by {
                if k < i as nat {
                }
            }
        }
        i = i + 1;
    }
    Some(acc)
}

/// A snapshot of the order book of an instrument.
#[derive(Debug)]
pub struct OrderBook {
    instrument: String,
    bids: Vec<OrderBookLevel>,
    asks: Vec<OrderBookLevel>,
    timestamp: Timestamp,
}

impl View for OrderBook {
    type V = BookView;

    closed spec fn view(&self) -> BookView {
        BookView { instrument: self.instrument@, bids: levels_view(self.bids@), asks: levels_view(self.asks@) }
    }
}

/// Copies of the levels.
fn clone_levels(v: &Vec<OrderBookLevel>) -> (r: Vec<OrderBookLevel>)
    ensures
        levels_view(r@) == levels_view(v@),
{
    let mut out: Vec<OrderBookLevel> = Vec::new();
    let mut i: usize = 0;
    while i < v.len()
        invariant
            i <= v@.len(),
            out@.len() == i,
            forall|k: int| 0 <= k < i ==> #[trigger] out@[k]@ == v@[k]@,
        decreases v@.len() - i,
    {
        let c = v[i].clone();
        out.push(c);
        i = i + 1;
    }
    assert(levels_view(out@) =~= levels_view(v@));
    out
}

impl Clone for OrderBook {
    fn clone(&self) -> (r: Self)
        ensures
            r@ == self@,
    {
        OrderBook {
            instrument: self.instrument.clone(),
            bids: clone_levels(&self.bids),
            asks: clone_levels(&self.asks),
            timestamp: self.timestamp,
        }
    }
}

impl OrderBook {
    /// An empty book, stamped with the current time.
    pub fn new(instrument: &str) -> (r: OrderBook)
        ensures
            r@ == (BookView { instrument: instrument@, bids: Seq::empty(), asks: Seq::empty() }),
    {
        let r = OrderBook {
            instrument: owned(instrument),
            bids: Vec::new(),
            asks: Vec::new(),
            timestamp: Timestamp::now(),
        };
        assert(levels_view(r.bids@) =~= Seq::<LevelView>::empty());
        assert(levels_view(r.asks@) =~= Seq::<LevelView>::empty());
        r
    }

    /// A book with the given levels: bids sorted from the highest price
    /// down, asks from the lowest price up, equal prices keeping their order.
    pub fn with_levels(instrument: &str, bids: Vec<OrderBookLevel>, asks: Vec<OrderBookLevel>) -> (r: OrderBook)
        ensures
            r@ == (BookView {
                instrument: instrument@,
                bids: sort_levels_spec(levels_view(bids@), true),
                asks: sort_levels_spec(levels_view(asks@), false),
            }),
            book_sorted(r@),
    {
        proof {
            lemma_sort_levels(levels_view(bids@), true);
            lemma_sort_levels(levels_view(asks@), false);
        }
        OrderBook {
            instrument: owned(instrument),
            bids: sort_levels(bids, true),
            asks: sort_levels(asks, false),
            timestamp: Timestamp::now(),
        }
    }

    /// The instrument.
    pub fn instrument(&self) -> (r: &str)
        ensures
            r@ == self@.instrument,
    {
        self.instrument.as_str()
    }

    /// The bid levels.
    pub fn bids(&self) -> (r: &[OrderBookLevel])
        ensures
            levels_view(r@) == self@.bids,
    {
        self.bids.as_slice()
    }

    /// The ask levels.
    pub fn asks(&self) -> (r: &[OrderBookLevel])
        ensures
            levels_view(r@) == self@.asks,
    {
        self.asks.as_slice()
    }

    /// When the snapshot was taken.
    pub closed spec fn timestamp_spec(&self) -> Timestamp {
        self.timestamp
    }

    /// When the snapshot was taken.
    pub fn timestamp(&self) -> (r: Timestamp)
        ensures
            r == self.timestamp_spec(),
    {
        self.timestamp
    }

    /// The first bid level: the highest bid in a sorted book.
    pub fn best_bid(&self) -> (r: Option<&OrderBookLevel>)
        ensures
            self@.bids.len() == 0 ==> r is None,
            self@.bids.len() > 0 ==> r is Some && r->Some_0@ == self@.bids[0],
    {
        if self.bids.len() == 0 {
            None
        } else {
            Some(&self.bids[0])
        }
    }

    /// The first ask level: the lowest ask in a sorted book.
    pub fn best_ask(&self) -> (r: Option<&OrderBookLevel>)
        ensures
            self@.asks.len() == 0 ==> r is None,
            self@.asks.len() > 0 ==> r is Some && r->Some_0@ == self@.asks[0],
    {
        if self.asks.len() == 0 {
            None
        } else {
            Some(&self.asks[0])
        }
    }

    /// Best ask minus best bid, when both exist and share a currency.
    pub fn spread(&self) -> (r: Option<Decimal>)
        requires
            self@.bids.len() > 0 && self@.asks.len() > 0 && self@.asks[0].price.currency
                == self@.bids[0].price.currency ==> decimal_checked_sub(
                self@.asks[0].price.value,
                self@.bids[0].price.value,
            ) is Some,
        ensures
            (self@.bids.len() == 0 || self@.asks.len() == 0 || self@.asks[0].price.currency
                != self@.bids[0].price.currency) ==> r is None,
            (self@.bids.len() > 0 && self@.asks.len() > 0 && self@.asks[0].price.currency
                == self@.bids[0].price.currency) ==> r is Some && r->Some_0@ == difference_of(
                self@.asks[0].price.value,
                self@.bids[0].price.value,
            ),
    {
        if self.bids.len() == 0 || self.asks.len() == 0 {
            return None;
        }
        match self.asks[0].price.difference(&self.bids[0].price) {
            Ok(d) => Some(d),
            Err(_) => None,
        }
    }

    /// `(best bid + best ask) / 2`, when both exist.
    pub fn mid_price(&self) -> (r: Option<Decimal>)
        requires
            self@.bids.len() > 0 && self@.asks.len() > 0 ==> decimal_checked_add(
                self@.bids[0].price.value,
                self@.asks[0].price.value,
            ) is Some,
        ensures
            (self@.bids.len() == 0 || self@.asks.len() == 0) ==> r is None,
            (self@.bids.len() > 0 && self@.asks.len() > 0) ==> r is Some && r->Some_0@ == quotient_of(
                sum_of(self@.bids[0].price.value, self@.asks[0].price.value),
                dv(2, 0),
            ),
    {
        if self.bids.len() == 0 || self.asks.len() == 0 {
            return None;
        }
        let sum = self.bids[0].price.value().add(&self.asks[0].price.value());
        let two = Decimal::from_u64(2);
        assert(two@.val() == 2 * crate::types::decimal::pow10(28));
        let q = sum.checked_div(&two);
        Some(q.unwrap())
    }

    /// Adds a bid level, keeping the bids sorted.
    pub fn add_bid(&mut self, level: OrderBookLevel)
        ensures
            final(self)@ == (BookView {
                bids: sort_levels_spec(old(self)@.bids.push(level@), true),
                asks: sort_levels_spec(old(self)@.asks, false),
                ..old(self)@
            }),
    {
        let mut bids: Vec<OrderBookLevel> = Vec::new();
        std::mem::swap(&mut bids, &mut self.bids);
        bids.push(level);
        assert(levels_view(bids@) =~= old(self)@.bids.push(level@));
        self.bids = sort_levels(bids, true);
        let mut asks: Vec<OrderBookLevel> = Vec::new();
        std::mem::swap(&mut asks, &mut self.asks);
        self.asks = sort_levels(asks, false);
    }

    /// Adds an ask level, keeping the asks sorted.
    pub fn add_ask(&mut self, level: OrderBookLevel)
        ensures
            final(self)@ == (BookView {
                bids: sort_levels_spec(old(self)@.bids, true),
                asks: sort_levels_spec(old(self)@.asks.push(level@), false),
                ..old(self)@
            }),
    {
        let mut asks: Vec<OrderBookLevel> = Vec::new();
        std::mem::swap(&mut asks, &mut self.asks);
        asks.push(level);
        assert(levels_view(asks@) =~= old(self)@.asks.push(level@));
        self.asks = sort_levels(asks, false);
        let mut bids: Vec<OrderBookLevel> = Vec::new();
        std::mem::swap(&mut bids, &mut self.bids);
        self.bids = sort_levels(bids, true);
    }

    /// Replaces the bids, sorting them.
    pub fn set_bids(&mut self, bids: Vec<OrderBookLevel>)
        ensures
            final(self)@ == (BookView {
                bids: sort_levels_spec(levels_view(bids@), true),
                asks: sort_levels_spec(old(self)@.asks, false),
                ..old(self)@
            }),
    {
        self.bids = sort_levels(bids, true);
        let mut asks: Vec<OrderBookLevel> = Vec::new();
        std::mem::swap(&mut asks, &mut self.asks);
        self.asks = sort_levels(asks, false);
    }

    /// Replaces the asks, sorting them.
    pub fn set_asks(&mut self, asks: Vec<OrderBookLevel>)
        ensures
            final(self)@ == (BookView {
                bids: sort_levels_spec(old(self)@.bids, true),
                asks: sort_levels_spec(levels_view(asks@), false),
                ..old(self)@
            }),
    {
        self.asks = sort_levels(asks, false);
        let mut bids: Vec<OrderBookLevel> = Vec::new();
        std::mem::swap(&mut bids, &mut self.bids);
        self.bids = sort_levels(bids, true);
    }

    /// Stamps the book with the current time: a fresh clock reading, whose
    /// nanoseconds stay below two seconds; the levels stay as they are.
    pub fn update_timestamp(&mut self)
        ensures
            final(self)@ == old(self)@,
            final(self).timestamp_spec().nanos < 2_000_000_000,
    {
        self.timestamp = Timestamp::now();
    }

    /// The total quantity of the first `levels` bid levels.
    pub fn bid_depth(&self, levels: usize) -> (r: Quantity)
        requires
            depth_defined(self@.bids, min_nat(levels as nat, self@.bids.len())),
        ensures
            r@ == depth_of(self@.bids, min_nat(levels as nat, self@.bids.len())),
    {
        let n = if levels <= self.bids.len() {
            levels
        } else {
            self.bids.len()
        };
        depth_exec(&self.bids, n)
    }

    /// The total quantity of the first `levels` bid levels, or `None` where
    /// adding it up overflows.
    pub fn checked_bid_depth(&self, levels: usize) -> (r: Option<Quantity>)
        ensures
            depth_defined(self@.bids, min_nat(levels as nat, self@.bids.len())) ==> r is Some && r->Some_0@
                == depth_of(self@.bids, min_nat(levels as nat, self@.bids.len())),
            !depth_defined(self@.bids, min_nat(levels as nat, self@.bids.len())) ==> r is None,
    {
        let n = if levels <= self.bids.len() {
            levels
        } else {
            self.bids.len()
        };
        checked_depth_exec(&self.bids, n)
    }

    /// The total quantity of the first `levels` ask levels, or `None` where
    /// adding it up overflows.
    pub fn checked_ask_depth(&self, levels: usize) -> (r: Option<Quantity>)
        ensures
            depth_defined(self@.asks, min_nat(levels as nat, self@.asks.len())) ==> r is Some && r->Some_0@
                == depth_of(self@.asks, min_nat(levels as nat, self@.asks.len())),
            !depth_defined(self@.asks, min_nat(levels as nat, self@.asks.len())) ==> r is None,
    {
        let n = if levels <= self.asks.len() {
            levels
        } else {
            self.asks.len()
        };
        checked_depth_exec(&self.asks, n)
    }

    /// The total quantity of the first `levels` ask levels.
    pub fn ask_depth(&self, levels: usize) -> (r: Quantity)
        requires
            depth_defined(self@.asks, min_nat(levels as nat, self@.asks.len())),
        ensures
            r@ == depth_of(self@.asks, min_nat(levels as nat, self@.asks.len())),
    {
        let n = if levels <= self.asks.len() {
            levels
        } else {
            self.asks.len()
        };
        depth_exec(&self.asks, n)
    }

    /// Whether the levels that would fill an order of `side` (the asks for a
    /// buy, the bids for a sell) hold at least `quantity` in all.
    pub fn has_liquidity(&self, side: OrderSide, quantity: Quantity) -> (r: bool)
        requires
            depth_defined(opposite_levels(self@, side), opposite_levels(self@, side).len()),
        ensures
            r == (depth_of(opposite_levels(self@, side), opposite_levels(self@, side).len()).val()
                >= quantity@.val()),
    {
        let total = match side {
            OrderSide::Buy => depth_exec(&self.asks, self.asks.len()),
            OrderSide::Sell => depth_exec(&self.bids, self.bids.len()),
        };
        total.ge(&quantity)
    }
}

} // verus!
