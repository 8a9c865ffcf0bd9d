//! Fixed-precision decimal numbers held as a mantissa and a scale.
//!
//! A value is `mantissa / 10^scale` with `|mantissa| < 2^96` and
//! `scale <= 28`, the representation of `rust_decimal::Decimal`. The digits
//! after the point are part of the value's identity (`10.0` and `10` are equal
//! numbers but print differently), so results keep the scale that the
//! arithmetic of `rust_decimal` gives them. The arithmetic itself is done by
//! `rust_decimal`.
use vstd::prelude::*;

verus! {

/// `10` raised to `n`.
pub open spec fn pow10(n: nat) -> nat
    decreases n,
{
    if n == 0 {
        1
    } else {
        10 * pow10((n - 1) as nat)
    }
}

/// Largest magnitude of a mantissa (`2^96 - 1`).
pub const MAX_MANTISSA: i128 = 79228162514264337593543950335i128;

/// Largest number of digits after the decimal point.
pub const MAX_SCALE: u32 = 28u32;

/// The mathematical content of a [`Decimal`].
pub struct DecimalView {
    pub mantissa: int,
    pub scale: nat,
}

impl DecimalView {
    /// The bounds of the representation.
    pub open spec fn wf(self) -> bool {
        &&& -MAX_MANTISSA <= self.mantissa <= MAX_MANTISSA
        &&& self.scale <= MAX_SCALE
    }

    /// The number, counted in units of `10^-28`.
    pub open spec fn val(self) -> int {
        self.mantissa * pow10((MAX_SCALE - self.scale) as nat)
    }

    /// The mantissa brought to `scale` digits after the point.
    pub open spec fn aligned(self, scale: nat) -> int {
        self.mantissa * pow10((scale - self.scale) as nat)
    }
}

/// The decimal `mantissa / 10^scale`.
pub open spec fn dv(mantissa: int, scale: nat) -> DecimalView {
    DecimalView { mantissa, scale }
}

/// The larger of two scales.
pub open spec fn max_scale(a: DecimalView, b: DecimalView) -> nat {
    if a.scale >= b.scale {
        a.scale
    } else {
        b.scale
    }
}

/// Whether a magnitude fits a mantissa.
pub open spec fn fits(x: int) -> bool {
    -MAX_MANTISSA <= x <= MAX_MANTISSA
}

/// `a + b` is computed without rounding: both operands and the sum fit a
/// mantissa at the larger of the two scales.
pub open spec fn add_fits(a: DecimalView, b: DecimalView) -> bool {
    let s = max_scale(a, b);
    &&& fits(a.aligned(s))
    &&& fits(b.aligned(s))
    &&& fits(a.aligned(s) + b.aligned(s))
}

/// `a - b` is computed without rounding.
pub open spec fn sub_fits(a: DecimalView, b: DecimalView) -> bool {
    let s = max_scale(a, b);
    &&& fits(a.aligned(s))
    &&& fits(b.aligned(s))
    &&& fits(a.aligned(s) - b.aligned(s))
}

/// `a * b` is computed without rounding.
pub open spec fn mul_fits(a: DecimalView, b: DecimalView) -> bool {
    ||| a.mantissa == 0
    ||| b.mantissa == 0
    ||| (a.scale + b.scale <= MAX_SCALE && fits(a.mantissa * b.mantissa))
}

/// The sum as `rust_decimal` represents it when nothing is rounded: a zero
/// operand gives back the other operand, otherwise the scale is the larger one.
pub open spec fn exact_sum(a: DecimalView, b: DecimalView) -> DecimalView {
    if a.mantissa == 0 {
        b
    } else if b.mantissa == 0 {
        a
    } else {
        let s = max_scale(a, b);
        dv(a.aligned(s) + b.aligned(s), s)
    }
}

/// The difference as `rust_decimal` represents it when nothing is rounded.
pub open spec fn exact_difference(a: DecimalView, b: DecimalView) -> DecimalView {
    if a.mantissa == 0 {
        dv(-b.mantissa, b.scale)
    } else if b.mantissa == 0 {
        a
    } else {
        let s = max_scale(a, b);
        dv(a.aligned(s) - b.aligned(s), s)
    }
}

/// The product as `rust_decimal` represents it when nothing is rounded: a
/// zero factor gives `0` with no digits after the point.
pub open spec fn exact_product(a: DecimalView, b: DecimalView) -> DecimalView {
    if a.mantissa == 0 || b.mantissa == 0 {
        dv(0, 0)
    } else {
        dv(a.mantissa * b.mantissa, a.scale + b.scale)
    }
}

/// Powers of ten multiply by adding exponents.
proof fn lemma_pow10_add(a: nat, b: nat)
    ensures
        pow10(a + b) == pow10(a) * pow10(b),
    decreases a,
{
    if a > 0 {
        let c = (a - 1) as nat;
        lemma_pow10_add(c, b);
        assert((a + b) as nat - 1 == c + b);
        assert(pow10(a + b) == 10 * pow10(c + b));
        assert(pow10(a) == 10 * pow10(c));
        assert(10 * (pow10(c) * pow10(b)) == (10 * pow10(c)) * pow10(b)) by (nonlinear_arith);
    } else {
        assert(pow10(a) == 1);
        assert(a + b == b);
    }
}

/// Powers of ten are positive.
pub proof fn lemma_pow10_positive(n: nat)
    ensures
        pow10(n) >= 1,
    decreases n,
{
    if n > 0 {
        lemma_pow10_positive((n - 1) as nat);
    }
}

/// A value is not below zero exactly when its mantissa is not.
pub proof fn lemma_val_sign(d: DecimalView)
    ensures
        (d.val() >= 0) == (d.mantissa >= 0),
        (d.val() == 0) == (d.mantissa == 0),
{
    let p = pow10((MAX_SCALE - d.scale) as nat);
    lemma_pow10_positive((MAX_SCALE - d.scale) as nat);
    if d.mantissa >= 0 {
        assert(d.mantissa * p >= 0) by (nonlinear_arith)
            requires
                d.mantissa >= 0,
                p >= 1,
        ;
    } else {
        assert(d.mantissa * p < 0) by (nonlinear_arith)
            requires
                d.mantissa < 0,
                p >= 1,
        ;
    }
    if d.mantissa > 0 {
        assert(d.mantissa * p > 0) by (nonlinear_arith)
            requires
                d.mantissa > 0,
                p >= 1,
        ;
    }
}

/// A number brought to more digits after the point keeps its value.
proof fn lemma_aligned_val(d: DecimalView, s: nat)
    requires
        d.scale <= s <= MAX_SCALE,
    ensures
        dv(d.aligned(s), s).val() == d.val(),
{
    let x = pow10((s - d.scale) as nat);
    let y = pow10((MAX_SCALE - s) as nat);
    lemma_pow10_add((s - d.scale) as nat, (MAX_SCALE - s) as nat);
    assert((s - d.scale) as nat + (MAX_SCALE - s) as nat == (MAX_SCALE - d.scale) as nat);
    assert((d.mantissa * x) * y == d.mantissa * (x * y)) by (nonlinear_arith);
}

/// The unrounded sum adds the values: `exact_sum(a, b)` is `a + b`.
pub proof fn lemma_exact_sum_value(a: DecimalView, b: DecimalView)
    requires
        a.wf(),
        b.wf(),
    ensures
        exact_sum(a, b).val() == a.val() + b.val(),
{
    if a.mantissa != 0 && b.mantissa != 0 {
        let s = max_scale(a, b);
        lemma_aligned_val(a, s);
        lemma_aligned_val(b, s);
        let y = pow10((MAX_SCALE - s) as nat);
        assert((a.aligned(s) + b.aligned(s)) * y == a.aligned(s) * y + b.aligned(s) * y) by (nonlinear_arith);
    } else if a.mantissa == 0 {
        assert(0 * pow10((MAX_SCALE - a.scale) as nat) == 0);
    } else {
        assert(0 * pow10((MAX_SCALE - b.scale) as nat) == 0);
    }
}

/// The unrounded difference subtracts the values: `exact_difference(a, b)`
/// is `a - b`.
pub proof fn lemma_exact_difference_value(a: DecimalView, b: DecimalView)
    requires
        a.wf(),
        b.wf(),
    ensures
        exact_difference(a, b).val() == a.val() - b.val(),
{
    if a.mantissa != 0 && b.mantissa != 0 {
        let s = max_scale(a, b);
        lemma_aligned_val(a, s);
        lemma_aligned_val(b, s);
        let y = pow10((MAX_SCALE - s) as nat);
        assert((a.aligned(s) - b.aligned(s)) * y == a.aligned(s) * y - b.aligned(s) * y) by (nonlinear_arith);
    } else if a.mantissa == 0 {
        assert(0 * pow10((MAX_SCALE - a.scale) as nat) == 0);
        let y = pow10((MAX_SCALE - b.scale) as nat);
        assert((-b.mantissa) * y == -(b.mantissa * y)) by (nonlinear_arith);
    } else {
        assert(0 * pow10((MAX_SCALE - b.scale) as nat) == 0);
    }
}

/// The unrounded product multiplies the values: `exact_product(a, b)` is
/// `a * b` (values counted in units of `10^-28`, hence the factor).
pub proof fn lemma_exact_product_value(a: DecimalView, b: DecimalView)
    requires
        a.wf(),
        b.wf(),
        mul_fits(a, b),
    ensures
        exact_product(a, b).val() * pow10(MAX_SCALE as nat) == a.val() * b.val(),
        exact_product(a, b).wf(),
{
    let pa = pow10((MAX_SCALE - a.scale) as nat);
    let pb = pow10((MAX_SCALE - b.scale) as nat);
    let big = pow10(MAX_SCALE as nat);
    if a.mantissa == 0 || b.mantissa == 0 {
        assert(exact_product(a, b) == dv(0, 0));
        assert(0 * pow10(MAX_SCALE as nat) == 0);
        assert(dv(0, 0).val() == 0);
        if a.mantissa == 0 {
            assert(a.val() == 0);
        } else {
            assert(b.val() == 0);
        }
        assert(a.val() * b.val() == 0) by (nonlinear_arith)
            requires
                a.val() == 0 || b.val() == 0,
        ;
    } else {
        let s = a.scale + b.scale;
        let ps = pow10((MAX_SCALE - s) as nat);
        lemma_pow10_add((MAX_SCALE - s) as nat, MAX_SCALE as nat);
        lemma_pow10_add((MAX_SCALE - a.scale) as nat, (MAX_SCALE - b.scale) as nat);
        assert((MAX_SCALE - s) as nat + MAX_SCALE as nat == (MAX_SCALE - a.scale) as nat + (MAX_SCALE
            - b.scale) as nat);
        assert(ps * big == pa * pb);
        assert(exact_product(a, b).val() == (a.mantissa * b.mantissa) * ps);
        assert((a.mantissa * b.mantissa) * ps * big == (a.mantissa * pa) * (b.mantissa * pb)) by (nonlinear_arith)
            requires
                ps * big == pa * pb,
        ;
    }
}

/// Addition commutes: both orders are unrounded together and give the same
/// value; unless both operands are zero (then the zero kept is the second
/// one) they give the same number, digits after the point included.
pub proof fn lemma_exact_sum_commutes(a: DecimalView, b: DecimalView)
    requires
        a.wf(),
        b.wf(),
    ensures
        add_fits(a, b) == add_fits(b, a),
        exact_sum(a, b).val() == exact_sum(b, a).val(),
        a.mantissa != 0 || b.mantissa != 0 ==> exact_sum(a, b) == exact_sum(b, a),
{
    lemma_exact_sum_value(a, b);
    lemma_exact_sum_value(b, a);
    let s = max_scale(a, b);
    assert(max_scale(b, a) == s);
    assert(a.aligned(s) + b.aligned(s) == b.aligned(s) + a.aligned(s));
}

/// Adding `b` and then subtracting it, unrounded both times, gives back the
/// value of `a`.
pub proof fn lemma_add_then_subtract(a: DecimalView, b: DecimalView)
    requires
        a.wf(),
        b.wf(),
        exact_sum(a, b).wf(),
    ensures
        exact_difference(exact_sum(a, b), b).val() == a.val(),
{
    lemma_exact_sum_value(a, b);
    lemma_exact_difference_value(exact_sum(a, b), b);
}

/// What `rust_decimal::Decimal::checked_add` returns.
pub uninterp spec fn decimal_checked_add(a: DecimalView, b: DecimalView) -> Option<DecimalView>;

/// What `rust_decimal::Decimal::checked_sub` returns.
pub uninterp spec fn decimal_checked_sub(a: DecimalView, b: DecimalView) -> Option<DecimalView>;

/// What `rust_decimal::Decimal::checked_mul` returns.
pub uninterp spec fn decimal_checked_mul(a: DecimalView, b: DecimalView) -> Option<DecimalView>;

/// What `rust_decimal::Decimal::checked_div` returns.
pub uninterp spec fn decimal_checked_div(a: DecimalView, b: DecimalView) -> Option<DecimalView>;

/// The character of a decimal digit.
pub open spec fn digit_char(d: nat) -> char {
    ((48 + d) as u32) as char
}

/// The decimal digits of `n`, most significant first; none for zero.
pub open spec fn digits(n: nat) -> Seq<char>
    decreases n,
{
    if n == 0 {
        Seq::empty()
    } else {
        digits(n / 10).push(digit_char(n % 10))
    }
}

/// `s` with zeros in front, up to `k` characters.
pub open spec fn pad_zeros(s: Seq<char>, k: nat) -> Seq<char> {
    if s.len() >= k {
        s
    } else {
        Seq::new((k - s.len()) as nat, |i: int| '0') + s
    }
}

/// The magnitude of an integer.
pub open spec fn magnitude(x: int) -> nat {
    if x < 0 {
        (-x) as nat
    } else {
        x as nat
    }
}

/// What `rust_decimal::Decimal`'s `Display` writes for a number: the digits
/// of the mantissa's magnitude, padded with zeros to at least the scale; a
/// point before the last `scale` of them (with a `0` in front where nothing
/// stands before it), no point for scale zero, `0` for a zero of scale zero,
/// and `-` in front of a number below zero.
pub open spec fn decimal_text(d: DecimalView) -> Seq<char> {
    let ds = pad_zeros(digits(magnitude(d.mantissa)), d.scale);
    let w = ds.len() - d.scale;
    let body = if d.scale == 0 {
        if ds.len() == 0 {
            seq!['0']
        } else {
            ds
        }
    } else {
        (if w == 0 {
            seq!['0']
        } else {
            ds.take(w)
        }) + seq!['.'] + ds.skip(w)
    };
    if d.mantissa < 0 {
        seq!['-'] + body
    } else {
        body
    }
}

/// The sum, where `rust_decimal` gives one: the unrounded sum where nothing
/// needs rounding.
pub open spec fn sum_of(a: DecimalView, b: DecimalView) -> DecimalView {
    if add_fits(a, b) {
        exact_sum(a, b)
    } else {
        decimal_checked_add(a, b).unwrap()
    }
}

/// The difference, where `rust_decimal` gives one: the unrounded
/// difference where nothing needs rounding.
pub open spec fn difference_of(a: DecimalView, b: DecimalView) -> DecimalView {
    if sub_fits(a, b) {
        exact_difference(a, b)
    } else {
        decimal_checked_sub(a, b).unwrap()
    }
}

/// The product, where `rust_decimal` gives one: the unrounded product where
/// nothing needs rounding.
pub open spec fn product_of(a: DecimalView, b: DecimalView) -> DecimalView {
    if mul_fits(a, b) {
        exact_product(a, b)
    } else {
        decimal_checked_mul(a, b).unwrap()
    }
}

/// `m / 10^s` is exactly `a / b`, with `m` fitting a mantissa and `s` at
/// most the largest scale.
pub open spec fn exact_quotient_at(a: DecimalView, b: DecimalView, m: int, s: nat) -> bool {
    &&& s <= MAX_SCALE
    &&& fits(m)
    &&& b.mantissa != 0
    &&& m * pow10((MAX_SCALE - s) as nat) * b.val() == a.val() * pow10(MAX_SCALE as nat)
}

/// The quotient, where `rust_decimal` gives one.
pub open spec fn quotient_of(a: DecimalView, b: DecimalView) -> DecimalView {
    decimal_checked_div(a, b).unwrap()
}

/// The view of an optional decimal.
pub open spec fn opt_view(d: Option<Decimal>) -> Option<DecimalView> {
    match d {
        Some(x) => Some(x@),
        None => None,
    }
}

/// A decimal number `mantissa / 10^scale`.
#[derive(Clone, Copy, Debug)]
pub struct Decimal {
    mantissa: i128,
    scale: u32,
}

impl Decimal {
    #[verifier::type_invariant]
    spec fn well_formed(self) -> bool {
        &&& -MAX_MANTISSA <= self.mantissa <= MAX_MANTISSA
        &&& self.scale <= MAX_SCALE
    }
}

impl View for Decimal {
    type V = DecimalView;

    closed spec fn view(&self) -> DecimalView {
        dv(self.mantissa as int, self.scale as nat)
    }
}

/// `rust_decimal::Decimal::checked_add`: `None` on overflow; exact, with the
/// representation of [`exact_sum`], when nothing needs rounding; the sum of
/// two numbers that are not below zero is not below zero.
#[verifier::external_body]
fn rd_checked_add(a: Decimal, b: Decimal) -> (r: Option<Decimal>)
    ensures
        opt_view(r) == decimal_checked_add(a@, b@),
        add_fits(a@, b@) ==> opt_view(r) == Some(exact_sum(a@, b@)),
        a@.mantissa >= 0 && b@.mantissa >= 0 && r is Some ==> r->Some_0@.mantissa >= 0,
{
    let x = rust_decimal::Decimal::from_i128_with_scale(a.mantissa, a.scale);
    let y = rust_decimal::Decimal::from_i128_with_scale(b.mantissa, b.scale);
    match x.checked_add(y) {
        Some(d) => Some(Decimal { mantissa: d.mantissa(), scale: d.scale() }),
        None => None,
    }
}

/// `rust_decimal::Decimal::checked_sub`: `None` on overflow; exact, with the
/// representation of [`exact_difference`], when nothing needs rounding; the
/// difference of two numbers that are not below zero does not overflow (its
/// magnitude is at most the larger one's).
#[verifier::external_body]
fn rd_checked_sub(a: Decimal, b: Decimal) -> (r: Option<Decimal>)
    ensures
        opt_view(r) == decimal_checked_sub(a@, b@),
        sub_fits(a@, b@) ==> opt_view(r) == Some(exact_difference(a@, b@)),
        a@.mantissa >= 0 && b@.mantissa >= 0 ==> r is Some,
{
    let x = rust_decimal::Decimal::from_i128_with_scale(a.mantissa, a.scale);
    let y = rust_decimal::Decimal::from_i128_with_scale(b.mantissa, b.scale);
    match x.checked_sub(y) {
        Some(d) => Some(Decimal { mantissa: d.mantissa(), scale: d.scale() }),
        None => None,
    }
}

/// `rust_decimal::Decimal::checked_mul`: `None` on overflow; exact, with the
/// representation of [`exact_product`], when nothing needs rounding.
#[verifier::external_body]
fn rd_checked_mul(a: Decimal, b: Decimal) -> (r: Option<Decimal>)
    ensures
        opt_view(r) == decimal_checked_mul(a@, b@),
        mul_fits(a@, b@) ==> opt_view(r) == Some(exact_product(a@, b@)),
{
    let x = rust_decimal::Decimal::from_i128_with_scale(a.mantissa, a.scale);
    let y = rust_decimal::Decimal::from_i128_with_scale(b.mantissa, b.scale);
    match x.checked_mul(y) {
        Some(d) => Some(Decimal { mantissa: d.mantissa(), scale: d.scale() }),
        None => None,
    }
}

/// `rust_decimal::Decimal::checked_div`: `None` for a zero divisor; a
/// divisor of magnitude at least one does not overflow; where the quotient
/// has an exact form (at most 28 digits after the point, a mantissa that
/// fits), that is its value. Where the quotient must be rounded, which digits
/// it keeps is not stated here, nor how many digits after the point an exact
/// quotient is written with.
#[verifier::external_body]
fn rd_checked_div(a: Decimal, b: Decimal) -> (r: Option<Decimal>)
    ensures
        opt_view(r) == decimal_checked_div(a@, b@),
        b@.mantissa == 0 ==> r is None,
        b@.val() >= pow10(MAX_SCALE as nat) || b@.val() <= -pow10(MAX_SCALE as nat) ==> r is Some,
        forall|m: int, s: nat| #[trigger] exact_quotient_at(a@, b@, m, s) ==> r is Some
            && r->Some_0@.val() == m * pow10((MAX_SCALE - s) as nat),
{
    let x = rust_decimal::Decimal::from_i128_with_scale(a.mantissa, a.scale);
    let y = rust_decimal::Decimal::from_i128_with_scale(b.mantissa, b.scale);
    match x.checked_div(y) {
        Some(d) => Some(Decimal { mantissa: d.mantissa(), scale: d.scale() }),
        None => None,
    }
}

/// `<rust_decimal::Decimal as ToString>::to_string`: the decimal digits of
/// the number, as [`decimal_text`] states them.
#[verifier::external_body]
fn rd_to_string(a: Decimal) -> (r: String)
    ensures
        r@ == decimal_text(a@),
{
    let x = rust_decimal::Decimal::from_i128_with_scale(a.mantissa, a.scale);
    x.to_string()
}

/// `<rust_decimal::Decimal as PartialOrd>::lt`, an order by numeric value.
#[verifier::external_body]
fn rd_lt(a: Decimal, b: Decimal) -> (r: bool)
    ensures
        r == (a@.val() < b@.val()),
{
    let x = rust_decimal::Decimal::from_i128_with_scale(a.mantissa, a.scale);
    let y = rust_decimal::Decimal::from_i128_with_scale(b.mantissa, b.scale);
    x < y
}

/// `<rust_decimal::Decimal as PartialEq>::eq`, equality of numeric value.
#[verifier::external_body]
fn rd_eq(a: Decimal, b: Decimal) -> (r: bool)
    ensures
        r == (a@.val() == b@.val()),
{
    let x = rust_decimal::Decimal::from_i128_with_scale(a.mantissa, a.scale);
    let y = rust_decimal::Decimal::from_i128_with_scale(b.mantissa, b.scale);
    x == y
}

impl Decimal {
    /// The decimal `num / 10^scale`.
    pub fn new(num: i64, scale: u32) -> (r: Decimal)
        requires
            scale <= MAX_SCALE,
        ensures
            r@ == dv(num as int, scale as nat),
    {
        Decimal { mantissa: num as i128, scale }
    }

    /// The decimal `num / 10^scale`, for a mantissa of at most 96 bits.
    pub fn from_i128_with_scale(num: i128, scale: u32) -> (r: Decimal)
        requires
            scale <= MAX_SCALE,
            -MAX_MANTISSA <= num <= MAX_MANTISSA,
        ensures
            r@ == dv(num as int, scale as nat),
    {
        Decimal { mantissa: num, scale }
    }

    /// A whole number.
    pub fn from_u64(n: u64) -> (r: Decimal)
        ensures
            r@ == dv(n as int, 0),
    {
        Decimal { mantissa: n as i128, scale: 0 }
    }

    /// A whole number.
    pub fn from_i64(n: i64) -> (r: Decimal)
        ensures
            r@ == dv(n as int, 0),
    {
        Decimal { mantissa: n as i128, scale: 0 }
    }

    /// Zero with no digits after the point.
    pub fn zero() -> (r: Decimal)
        ensures
            r@ == dv(0, 0),
    {
        Decimal { mantissa: 0, scale: 0 }
    }

    /// The mantissa.
    pub fn mantissa(&self) -> (r: i128)
        ensures
            r == self@.mantissa,
            self@.wf(),
    {
        proof {
            use_type_invariant(self);
        }
        self.mantissa
    }

    /// The number of digits after the point.
    pub fn scale(&self) -> (r: u32)
        ensures
            r == self@.scale,
            self@.wf(),
    {
        proof {
            use_type_invariant(self);
        }
        self.scale
    }

    /// Whether the number is zero.
    pub fn is_zero(&self) -> (r: bool)
        ensures
            r == (self@.mantissa == 0),
    {
        self.mantissa == 0
    }

    /// Whether the number is below zero.
    pub fn is_sign_negative(&self) -> (r: bool)
        ensures
            r == (self@.mantissa < 0),
    {
        self.mantissa < 0
    }

    /// Whether the number is zero or above.
    pub fn is_sign_positive(&self) -> (r: bool)
        ensures
            r == (self@.mantissa >= 0),
    {
        self.mantissa >= 0
    }

    /// The sum, or `None` on overflow.
    pub fn checked_add(&self, other: &Decimal) -> (r: Option<Decimal>)
        ensures
            opt_view(r) == decimal_checked_add(self@, other@),
            add_fits(self@, other@) ==> opt_view(r) == Some(exact_sum(self@, other@)),
            self@.mantissa >= 0 && other@.mantissa >= 0 && r is Some ==> r->Some_0@.mantissa >= 0,
    {
        rd_checked_add(*self, *other)
    }

    /// The difference, or `None` on overflow.
    pub fn checked_sub(&self, other: &Decimal) -> (r: Option<Decimal>)
        ensures
            opt_view(r) == decimal_checked_sub(self@, other@),
            sub_fits(self@, other@) ==> opt_view(r) == Some(exact_difference(self@, other@)),
            self@.mantissa >= 0 && other@.mantissa >= 0 ==> r is Some,
    {
        rd_checked_sub(*self, *other)
    }

    /// The product, or `None` on overflow.
    pub fn checked_mul(&self, other: &Decimal) -> (r: Option<Decimal>)
        ensures
            opt_view(r) == decimal_checked_mul(self@, other@),
            mul_fits(self@, other@) ==> opt_view(r) == Some(exact_product(self@, other@)),
    {
        rd_checked_mul(*self, *other)
    }

    /// The quotient, or `None` for a zero divisor or on overflow.
    pub fn checked_div(&self, other: &Decimal) -> (r: Option<Decimal>)
        ensures
            opt_view(r) == decimal_checked_div(self@, other@),
            other@.mantissa == 0 ==> r is None,
            other@.val() >= pow10(MAX_SCALE as nat) || other@.val() <= -pow10(MAX_SCALE as nat)
                ==> r is Some,
            forall|m: int, s: nat| #[trigger] exact_quotient_at(self@, other@, m, s) ==> r is Some
                && r->Some_0@.val() == m * pow10((MAX_SCALE - s) as nat),
    {
        rd_checked_div(*self, *other)
    }

    /// The sum, for operands whose sum does not overflow.
    pub fn add(&self, other: &Decimal) -> (r: Decimal)
        requires
            decimal_checked_add(self@, other@) is Some,
        ensures
            r@ == sum_of(self@, other@),
            add_fits(self@, other@) ==> r@ == exact_sum(self@, other@),
            self@.mantissa >= 0 && other@.mantissa >= 0 ==> r@.mantissa >= 0,
    {
        rd_checked_add(*self, *other).unwrap()
    }

    /// The difference, for operands whose difference does not overflow.
    pub fn sub(&self, other: &Decimal) -> (r: Decimal)
        requires
            decimal_checked_sub(self@, other@) is Some,
        ensures
            r@ == difference_of(self@, other@),
            sub_fits(self@, other@) ==> r@ == exact_difference(self@, other@),
    {
        rd_checked_sub(*self, *other).unwrap()
    }

    /// The product, for operands whose product does not overflow.
    pub fn mul(&self, other: &Decimal) -> (r: Decimal)
        requires
            decimal_checked_mul(self@, other@) is Some,
        ensures
            r@ == product_of(self@, other@),
            mul_fits(self@, other@) ==> r@ == exact_product(self@, other@),
    {
        rd_checked_mul(*self, *other).unwrap()
    }

    /// The quotient, for a non-zero divisor and a quotient that does not overflow.
    pub fn div(&self, other: &Decimal) -> (r: Decimal)
        requires
            decimal_checked_div(self@, other@) is Some,
        ensures
            r@ == quotient_of(self@, other@),
            forall|m: int, s: nat| #[trigger] exact_quotient_at(self@, other@, m, s) ==> r@.val() == m * pow10(
                (MAX_SCALE - s) as nat,
            ),
    {
        rd_checked_div(*self, *other).unwrap()
    }

    /// The number written in decimal digits.
    pub fn to_string(&self) -> (r: String)
        ensures
            r@ == decimal_text(self@),
    {
        rd_to_string(*self)
    }

    /// `self < other` by value.
    pub fn lt(&self, other: &Decimal) -> (r: bool)
        ensures
            r == (self@.val() < other@.val()),
    {
        rd_lt(*self, *other)
    }

    /// `self <= other` by value.
    pub fn le(&self, other: &Decimal) -> (r: bool)
        ensures
            r == (self@.val() <= other@.val()),
    {
        !rd_lt(*other, *self)
    }

    /// `self > other` by value.
    pub fn gt(&self, other: &Decimal) -> (r: bool)
        ensures
            r == (self@.val() > other@.val()),
    {
        rd_lt(*other, *self)
    }

    /// `self >= other` by value.
    pub fn ge(&self, other: &Decimal) -> (r: bool)
        ensures
            r == (self@.val() >= other@.val()),
    {
        !rd_lt(*self, *other)
    }

    /// Equality by value (`1.0` equals `1`).
    pub fn eq_value(&self, other: &Decimal) -> (r: bool)
        ensures
            r == (self@.val() == other@.val()),
    {
        rd_eq(*self, *other)
    }

    /// The smaller value; `self` when the two are equal.
    pub fn min(&self, other: &Decimal) -> (r: Decimal)
        ensures
            r@ == (if other@.val() < self@.val() { other@ } else { self@ }),
    {
        if rd_lt(*other, *self) {
            *other
        } else {
            *self
        }
    }

    /// The larger value; `other` when the two are equal.
    pub fn max(&self, other: &Decimal) -> (r: Decimal)
        ensures
            r@ == (if other@.val() >= self@.val() { other@ } else { self@ }),
    {
        if rd_lt(*other, *self) {
            *self
        } else {
            *other
        }
    }
}

impl PartialEq for Decimal {
    fn eq(&self, other: &Decimal) -> (r: bool) {
        rd_eq(*self, *other)
    }
}

impl vstd::std_specs::cmp::PartialEqSpecImpl for Decimal {
    open spec fn obeys_eq_spec() -> bool {
        true
    }

    open spec fn eq_spec(&self, other: &Decimal) -> bool {
        self@.val() == other@.val()
    }
}

} // verus!
