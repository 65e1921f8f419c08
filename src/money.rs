//! Exact fixed-point money amounts and invoice totals.
//!
//! An [`Amount`] is `mantissa / 10^scale`, in the range that a
//! `rust_decimal::Decimal` can hold; the arithmetic itself is done by that
//! crate.

use rust_decimal::Decimal;
use vstd::prelude::*;

verus! {

/// Largest scale (digits after the point) an amount may carry.
pub const MAX_SCALE: u32 = 28;

/// Exclusive bound on the magnitude of a mantissa: `2^96`.
pub const MANTISSA_BOUND: i128 = 0x1_0000_0000_0000_0000_0000_0000;

/// A decimal amount `mantissa / 10^scale`.
#[derive(Clone, Copy, Debug)]
pub struct Amount {
    pub mantissa: i128,
    pub scale: u32,
}

/// `10^n`.
pub open spec fn pow10(n: nat) -> int
    decreases n,
{
    if n == 0 {
        1
    } else {
        10 * pow10((n - 1) as nat)
    }
}

/// A mantissa that fits in 96 bits.
pub open spec fn fits(v: int) -> bool {
    -MANTISSA_BOUND < v < MANTISSA_BOUND
}

impl Amount {
    /// Representable: a 96-bit mantissa and a scale of at most 28.
    pub open spec fn wf(self) -> bool {
        fits(self.mantissa as int) && self.scale <= MAX_SCALE
    }

    /// The mantissa this amount has when written at scale `s` (for `s` at
    /// least its own scale): the amount times `10^s`.
    pub open spec fn at_scale(self, s: nat) -> int {
        self.mantissa * pow10((s - self.scale) as nat)
    }

    /// Zero, at scale zero.
    pub fn zero() -> (r: Amount)
        ensures
            r.wf(),
            r.mantissa == 0,
            r.scale == 0,
    {
        Amount { mantissa: 0, scale: 0 }
    }

    /// A whole number, at scale zero.
    pub open spec fn from_int_spec(n: i32) -> Amount {
        Amount { mantissa: n as i128, scale: 0 }
    }

    /// A whole number, at scale zero.
    #[verifier::when_used_as_spec(from_int_spec)]
    pub fn from_int(n: i32) -> (r: Amount)
        ensures
            r.wf(),
            r == Amount::from_int_spec(n),
    {
        Amount { mantissa: n as i128, scale: 0 }
    }
}

/// Powers of ten are positive.
pub proof fn lemma_pow10_positive(n: nat)
    ensures
        pow10(n) >= 1,
    decreases n,
{
    if n > 0 {
        lemma_pow10_positive((n - 1) as nat);
    }
}

/// `10^(a+b) = 10^a * 10^b`.
pub proof fn lemma_pow10_add(a: nat, b: nat)
    ensures
        pow10(a + b) == pow10(a) * pow10(b),
    decreases a,
{
    if a > 0 {
        lemma_pow10_add((a - 1) as nat, b);
        assert(pow10(a + b) == 10 * pow10((a - 1 + b) as nat));
        assert(10 * (pow10((a - 1) as nat) * pow10(b)) == (10 * pow10((a - 1) as nat)) * pow10(b))
            by (nonlinear_arith);
    }
}

/// Writing an amount at a larger scale multiplies its mantissa by the power
/// of ten in between.
pub proof fn lemma_at_scale_shift(x: Amount, s: nat, t: nat)
    requires
        x.scale <= s <= t,
    ensures
        x.at_scale(t) == x.at_scale(s) * pow10((t - s) as nat),
{
    lemma_pow10_add((s - x.scale) as nat, (t - s) as nat);
    assert((t - x.scale) as nat == ((s - x.scale) as nat + (t - s) as nat));
    let p = pow10((s - x.scale) as nat);
    let q = pow10((t - s) as nat);
    assert(x.mantissa * (p * q) == (x.mantissa * p) * q) by (nonlinear_arith);
}

/// A magnitude does not shrink when multiplied by a power of ten.
pub proof fn lemma_fits_down(v: int, k: nat)
    requires
        fits(v * pow10(k)),
    ensures
        fits(v),
{
    lemma_pow10_positive(k);
    let p = pow10(k);
    if v > 0 {
        assert(v * p >= v) by (nonlinear_arith)
            requires
                v > 0,
                p >= 1,
        ;
    } else if v < 0 {
        assert(v * p <= v) by (nonlinear_arith)
            requires
                v < 0,
                p >= 1,
        ;
    }
}

/// `r` is the exact product of `a` and `b` whenever that product fits in 96
/// bits at the sum of their scales and that sum is at most 28; its scale is
/// then at most that sum.
pub open spec fn exact_product(a: Amount, b: Amount, r: Option<Amount>) -> bool {
    let s = (a.scale + b.scale) as nat;
    fits(a.mantissa * b.mantissa) && s <= MAX_SCALE ==> (r matches Some(x) && x.scale <= s
        && x.at_scale(s) == a.mantissa * b.mantissa)
}

/// The larger of two scales.
pub open spec fn common_scale(a: Amount, b: Amount) -> nat {
    if a.scale >= b.scale {
        a.scale as nat
    } else {
        b.scale as nat
    }
}

/// `r` is the exact sum of `a` and `b` whenever both and their sum fit in 96
/// bits at the larger of their scales; its scale is then at most that one.
pub open spec fn exact_sum(a: Amount, b: Amount, r: Option<Amount>) -> bool {
    let s = common_scale(a, b);
    fits(a.at_scale(s)) && fits(b.at_scale(s)) && fits(a.at_scale(s) + b.at_scale(s)) ==> (
    r matches Some(x) && x.scale <= s && x.at_scale(s) == a.at_scale(s) + b.at_scale(s))
}

/// Relies on rust_decimal's `Decimal::checked_mul`: a product whose mantissa
/// fits in 96 bits at the sum of the two scales (at most 28) is exact, at a
/// scale no larger than that sum; a larger product is rounded or refused.
#[verifier::external_body]
fn decimal_mul(a: Amount, b: Amount) -> (r: Option<Amount>)
    requires
        a.wf(),
        b.wf(),
    ensures
        r matches Some(x) ==> x.wf(),
        exact_product(a, b, r),
{
    let x = Decimal::from_i128_with_scale(a.mantissa, a.scale);
    let y = Decimal::from_i128_with_scale(b.mantissa, b.scale);
    match x.checked_mul(y) {
        Some(d) => Some(Amount { mantissa: d.mantissa(), scale: d.scale() }),
        None => None,
    }
}

/// Relies on rust_decimal's `Decimal::checked_add`: when both operands and
/// their sum fit in 96 bits at the larger of the two scales, the sum is exact
/// and its scale is at most that one; otherwise it is rounded or refused.
#[verifier::external_body]
fn decimal_add(a: Amount, b: Amount) -> (r: Option<Amount>)
    requires
        a.wf(),
        b.wf(),
    ensures
        r matches Some(x) ==> x.wf(),
        exact_sum(a, b, r),
{
    let x = Decimal::from_i128_with_scale(a.mantissa, a.scale);
    let y = Decimal::from_i128_with_scale(b.mantissa, b.scale);
    match x.checked_add(y) {
        Some(d) => Some(Amount { mantissa: d.mantissa(), scale: d.scale() }),
        None => None,
    }
}

/// One line of an invoice as it is submitted.
#[derive(Clone, Debug)]
pub struct NewInvoiceItem {
    pub description: String,
    pub quantity: i32,
    pub unit_price: Amount,
}

/// Every unit price is representable.
pub open spec fn items_wf(items: Seq<NewInvoiceItem>) -> bool {
    forall|i: int| 0 <= i < items.len() ==> (#[trigger] items[i]).unit_price.wf()
}

/// Whether every unit price is representable.
pub fn items_wf_exec(items: &Vec<NewInvoiceItem>) -> (r: bool)
    ensures
        r == items_wf(items@),
{
    let mut k: usize = 0;
    while k < items.len()
        invariant
            k <= items@.len(),
            forall|i: int| 0 <= i < k ==> (#[trigger] items@[i]).unit_price.wf(),
        decreases items@.len() - k,
    {
        let p = items[k].unit_price;
        if !(-MANTISSA_BOUND < p.mantissa && p.mantissa < MANTISSA_BOUND && p.scale <= MAX_SCALE) {
            return false;
        }
        k = k + 1;
    }
    true
}

/// The largest scale among the unit prices (zero for no items).
pub open spec fn max_scale(items: Seq<NewInvoiceItem>) -> nat
    decreases items.len(),
{
    if items.len() == 0 {
        0
    } else {
        let m = max_scale(items.drop_last());
        let s = items.last().unit_price.scale as nat;
        if s > m {
            s
        } else {
            m
        }
    }
}

/// A line's total, `unit_price * quantity`, written at scale `s`.
pub open spec fn line_at_scale(item: NewInvoiceItem, s: nat) -> int {
    item.unit_price.at_scale(s) * item.quantity
}

/// The subtotal `Σ unit_price * quantity`, written at scale `s`.
pub open spec fn subtotal_at_scale(items: Seq<NewInvoiceItem>, s: nat) -> int
    decreases items.len(),
{
    if items.len() == 0 {
        0
    } else {
        subtotal_at_scale(items.drop_last(), s) + line_at_scale(items.last(), s)
    }
}

/// Every line total and every running sum fits in 96 bits at scale `s`, and
/// `s` is within the decimal range.
pub open spec fn totals_in_range(items: Seq<NewInvoiceItem>, s: nat) -> bool {
    &&& s <= MAX_SCALE
    &&& forall|i: int| 0 <= i < items.len() ==> fits(line_at_scale(#[trigger] items[i], s))
    &&& forall|k: int| 0 <= k <= items.len() ==> fits(#[trigger] subtotal_at_scale(items.take(k), s))
}

/// `Σ unit_price * quantity` over the items, as the amount of the subtotal at
/// the largest scale of the prices.
pub open spec fn subtotal_value(items: Seq<NewInvoiceItem>) -> int {
    subtotal_at_scale(items, max_scale(items))
}

proof fn lemma_max_scale_bounds(items: Seq<NewInvoiceItem>, k: int)
    requires
        0 <= k < items.len(),
    ensures
        items[k].unit_price.scale <= max_scale(items),
        max_scale(items.take(k)) <= max_scale(items),
    decreases items.len(),
{
    let d = items.drop_last();
    if k < items.len() - 1 {
        lemma_max_scale_bounds(d, k);
        assert(d.take(k) =~= items.take(k));
    } else {
        assert(d =~= items.take(k));
    }
}

proof fn lemma_line_at_scale(item: NewInvoiceItem, top: nat)
    requires
        item.unit_price.scale <= top,
    ensures
        line_at_scale(item, top) == (item.unit_price.mantissa * item.quantity) * pow10(
            (top - item.unit_price.scale) as nat),
{
    let m = item.unit_price.mantissa as int;
    let q = item.quantity as int;
    let d = pow10((top - item.unit_price.scale) as nat);
    assert((m * d) * q == (m * q) * d) by (nonlinear_arith);
}

/// One step of the running sum: adding a line total to the sum so far, both
/// within range at scale `top`, gives the exact next running sum there.
proof fn lemma_add_step(acc: Amount, line: Amount, item: NewInvoiceItem, sum: Option<Amount>, top: nat)
    requires
        acc.wf(),
        line.wf(),
        acc.scale <= top,
        item.unit_price.scale <= top,
        line.scale <= item.unit_price.scale,
        line.at_scale(item.unit_price.scale as nat) == item.unit_price.mantissa * item.quantity,
        fits(acc.at_scale(top)),
        fits(line_at_scale(item, top)),
        fits(acc.at_scale(top) + line_at_scale(item, top)),
        exact_sum(acc, line, sum),
    ensures
        sum matches Some(x) && x.scale <= common_scale(acc, line) && x.at_scale(top)
            == acc.at_scale(top) + line_at_scale(item, top),
{
    let p = item.unit_price;
    let s = common_scale(acc, line);
    let ps = p.scale as nat;
    lemma_at_scale_shift(line, ps, top);
    assert(line.at_scale(top) == (p.mantissa * item.quantity) * pow10((top - ps) as nat));
    lemma_line_at_scale(item, top);
    let d = pow10((top - s) as nat);
    lemma_at_scale_shift(acc, s, top);
    lemma_at_scale_shift(line, s, top);
    lemma_fits_down(acc.at_scale(s), (top - s) as nat);
    lemma_fits_down(line.at_scale(s), (top - s) as nat);
    assert((acc.at_scale(s) + line.at_scale(s)) * d == acc.at_scale(s) * d + line.at_scale(s) * d)
        by (nonlinear_arith);
    lemma_fits_down(acc.at_scale(s) + line.at_scale(s), (top - s) as nat);
    let x = sum.unwrap();
    lemma_at_scale_shift(x, s, top);
}

/// The line total `unit_price * quantity`.
pub fn line_total(item: &NewInvoiceItem) -> (r: Option<Amount>)
    requires
        item.unit_price.wf(),
    ensures
        r matches Some(x) ==> x.wf(),
        exact_product(item.unit_price, Amount::from_int_spec(item.quantity), r),
{
    decimal_mul(item.unit_price, Amount::from_int(item.quantity))
}

/// The exact subtotal `Σ unit_price * quantity` of the items.
///
/// Whenever the line totals and running sums stay within the decimal range,
/// the result is `Some` and equals the exact sum; outside that range the
/// decimal arithmetic may refuse (`None`).
pub fn subtotal(items: &Vec<NewInvoiceItem>) -> (r: Option<Amount>)
    requires
        items_wf(items@),
    ensures
        r matches Some(x) ==> x.wf(),
        totals_in_range(items@, max_scale(items@)) ==> (r matches Some(x) && x.scale <= max_scale(
            items@) && x.at_scale(max_scale(items@)) == subtotal_value(items@)),
{
    let ghost top = max_scale(items@);
    let mut acc = Amount::zero();
    let mut k: usize = 0;
    while k < items.len()
        invariant
            k <= items@.len(),
            items_wf(items@),
            top == max_scale(items@),
            acc.wf(),
            totals_in_range(items@, top) ==> (acc.scale <= max_scale(items@.take(k as int))
                && acc.at_scale(top) == subtotal_at_scale(items@.take(k as int), top)),
        decreases items@.len() - k,
    {
        let item = &items[k];
        let ghost pre = items@.take(k as int);
        let ghost post = items@.take(k + 1);
        proof {
            assert(post.drop_last() =~= pre);
            assert(post.last() == items@[k as int]);
            if k + 1 < items@.len() {
                lemma_max_scale_bounds(items@, k + 1);
            } else {
                assert(post =~= items@);
            }
            lemma_max_scale_bounds(items@, k as int);
        }
        let ghost in_range = totals_in_range(items@, top);
        proof {
            if in_range {
                let p = item.unit_price;
                assert(fits(line_at_scale(items@[k as int], top)));
                assert(fits(subtotal_at_scale(post, top)));
                lemma_pow10_positive((top - p.scale) as nat);
                lemma_line_at_scale(*item, top);
                lemma_fits_down(p.mantissa * item.quantity, (top - p.scale) as nat);
            }
        }
        let line = match line_total(item) {
            Some(x) => x,
            None => {
                return None;
            },
        };
        let sum = decimal_add(acc, line);
        proof {
            if in_range {
                lemma_add_step(acc, line, *item, sum, top);
            }
        }
        match sum {
            Some(x) => {
                acc = x;
            },
            None => {
                return None;
            },
        }
        k = k + 1;
    }
    proof {
        assert(items@.take(items@.len() as int) =~= items@);
    }
    Some(acc)
}

} // verus!
