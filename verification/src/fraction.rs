//! Unsigned fixed-point rates with eighteen decimal places.

use vstd::prelude::*;

verus! {

/// The raw value that stands for 1.0 (`10^18`).
pub const FRACTION_SCALE: u128 = 1_000_000_000_000_000_000u128;

/// An unsigned fixed-point number: the field holds the value times `10^18`.
#[derive(Debug, Clone, Copy, PartialEq, Eq, Structural, PartialOrd, Ord)]
pub struct Fraction(pub u128);

/// The raw value of `a * b`, truncated toward zero.
pub open spec fn product(a: Fraction, b: Fraction) -> int {
    (a.0 as int * b.0 as int) / (FRACTION_SCALE as int)
}

impl Fraction {
    /// The fraction 1.0.
    pub fn one() -> (r: Fraction)
        ensures
            r.0 == FRACTION_SCALE,
    {
        Fraction(FRACTION_SCALE)
    }

    /// The fraction 0.
    pub fn zero() -> (r: Fraction)
        ensures
            r.0 == 0,
    {
        Fraction(0)
    }

    /// `percent / 100` as a fraction; exact, since `10^18` is a multiple of 100.
    pub fn from_percent(percent: u64) -> (r: Fraction)
        ensures
            r.0 == percent as int * FRACTION_SCALE as int / 100,
            r.0 * 100 == percent as int * FRACTION_SCALE as int,
    {
        proof {
            assert(percent as int * FRACTION_SCALE as int <= u128::MAX) by (nonlinear_arith)
                requires
                    percent <= u64::MAX,
                    FRACTION_SCALE == 1_000_000_000_000_000_000u128,
            ;
        }
        Fraction((percent as u128) * FRACTION_SCALE / 100)
    }

    /// `bps / 10_000` as a fraction; exact, since `10^18` is a multiple of `10^4`.
    pub fn from_bps(bps: u16) -> (r: Fraction)
        ensures
            r.0 == bps as int * FRACTION_SCALE as int / 10_000,
            r.0 * 10_000 == bps as int * FRACTION_SCALE as int,
    {
        proof {
            assert(bps as int * FRACTION_SCALE as int <= u128::MAX) by (nonlinear_arith)
                requires
                    bps <= u16::MAX,
                    FRACTION_SCALE == 1_000_000_000_000_000_000u128,
            ;
        }
        Fraction((bps as u128) * FRACTION_SCALE / 10_000)
    }

    /// `self - other`; the difference must not be negative.
    pub fn sub(self, other: Fraction) -> (r: Fraction)
        requires
            other.0 <= self.0,
        ensures
            r.0 == self.0 - other.0,
    {
        Fraction(self.0 - other.0)
    }

    /// `self * other`, truncated toward zero; the raw product must fit in 128 bits.
    pub fn mul(self, other: Fraction) -> (r: Fraction)
        requires
            self.0 * other.0 <= u128::MAX,
        ensures
            r.0 == product(self, other),
            r.0 * FRACTION_SCALE <= self.0 * other.0,
            self.0 * other.0 < (r.0 + 1) * FRACTION_SCALE,
    {
        proof {
            lemma_product_truncates(self, other);
        }
        Fraction((self.0 * other.0) / FRACTION_SCALE)
    }

    /// `self + other`; the sum must fit in 128 bits.
    pub fn add(self, other: Fraction) -> (r: Fraction)
        requires
            self.0 + other.0 <= u128::MAX,
        ensures
            r.0 == self.0 + other.0,
    {
        Fraction(self.0 + other.0)
    }
}

/// The product is the exact product of the raw values, scaled back by `10^18`
/// and truncated toward zero: the largest raw value whose scaled-up value does
/// not exceed the exact product.
pub proof fn lemma_product_truncates(a: Fraction, b: Fraction)
    ensures
        product(a, b) * FRACTION_SCALE <= a.0 * b.0,
        a.0 * b.0 < (product(a, b) + 1) * FRACTION_SCALE,
{
    let x = a.0 as int * b.0 as int;
    let d = FRACTION_SCALE as int;
    vstd::arithmetic::div_mod::lemma_fundamental_div_mod(x, d);
    vstd::arithmetic::div_mod::lemma_mod_bound(x, d);
    assert(product(a, b) == x / d);
    assert((x / d) * d == d * (x / d)) by (nonlinear_arith);
    assert((x / d + 1) * d == d * (x / d) + d) by (nonlinear_arith);
}

/// Multiplying by 1.0 gives the value back: a referral share of 100% of the
/// protocol take rate is the whole take rate.
pub proof fn lemma_mul_by_one(x: Fraction)
    ensures
        product(x, Fraction(FRACTION_SCALE)) == x.0,
{
    assert((x.0 as int * FRACTION_SCALE as int) / (FRACTION_SCALE as int) == x.0 as int) by (nonlinear_arith)
        requires
            FRACTION_SCALE > 0,
    ;
}

/// The product grows with the rate: a larger rate never gives a smaller product.
pub proof fn lemma_mul_monotonic(x: Fraction, r1: Fraction, r2: Fraction)
    requires
        r1.0 <= r2.0,
    ensures
        product(x, r1) <= product(x, r2),
{
    assert(x.0 as int * r1.0 as int <= x.0 as int * r2.0 as int) by (nonlinear_arith)
        requires
            r1.0 <= r2.0,
            x.0 >= 0,
    ;
    vstd::arithmetic::div_mod::lemma_div_is_ordered(
        x.0 as int * r1.0 as int,
        x.0 as int * r2.0 as int,
        FRACTION_SCALE as int,
    );
}

/// A rate of at most 1.0 never gives more than the value it is applied to, and
/// a rate of at least 1.0 never gives less: the absolute referral rate stays
/// within the protocol take rate exactly when the referral share is at most 100%
/// (up to truncation toward zero).
pub proof fn lemma_rate_bounds_product(x: Fraction, r: Fraction)
    ensures
        r.0 <= FRACTION_SCALE ==> product(x, r) <= x.0,
        r.0 >= FRACTION_SCALE ==> product(x, r) >= x.0,
{
    lemma_mul_by_one(x);
    if r.0 <= FRACTION_SCALE {
        lemma_mul_monotonic(x, r, Fraction(FRACTION_SCALE));
    }
    if r.0 >= FRACTION_SCALE {
        lemma_mul_monotonic(x, Fraction(FRACTION_SCALE), r);
    }
}

/// A rate in basis points and the same rate in percent are the same fraction.
pub proof fn lemma_bps_agrees_with_percent(percent: u64)
    requires
        percent * 100 <= u16::MAX,
    ensures
        (percent * 100) * (FRACTION_SCALE as int) / 10_000 == percent * (FRACTION_SCALE as int) / 100,
{
    assert((percent * 100) * (FRACTION_SCALE as int) / 10_000 == percent * 10_000_000_000_000_000) by (nonlinear_arith)
        requires
            FRACTION_SCALE == 1_000_000_000_000_000_000u128,
    ;
    assert(percent * (FRACTION_SCALE as int) / 100 == percent * 10_000_000_000_000_000) by (nonlinear_arith)
        requires
            FRACTION_SCALE == 1_000_000_000_000_000_000u128,
    ;
}

/// On a debt of 1.0 that compounds at `interest` and owes a fixed host fee at
/// `fixed`, the net new variable debt `new_debt - previous_debt - fixed_host_fee`
/// (with `new_debt = previous_debt * interest` and
/// `fixed_host_fee = previous_debt * fixed - previous_debt`) is not negative
/// exactly when the interest rate is at least the fixed rate; otherwise the
/// subtraction underflows.
pub proof fn lemma_net_new_variable_debt_nonnegative(previous_debt: Fraction, interest: Fraction, fixed: Fraction)
    requires
        previous_debt.0 == FRACTION_SCALE,
    ensures
        (product(previous_debt, interest) - previous_debt.0) - (product(previous_debt, fixed) - previous_debt.0) >= 0
            <==> interest.0 >= fixed.0,
{
    assert(product(previous_debt, interest) == interest.0) by (nonlinear_arith)
        requires
            previous_debt.0 == FRACTION_SCALE,
            FRACTION_SCALE > 0,
    ;
    assert(product(previous_debt, fixed) == fixed.0) by (nonlinear_arith)
        requires
            previous_debt.0 == FRACTION_SCALE,
            FRACTION_SCALE > 0,
    ;
}

/// For any previous debt, compounding at an interest rate at least the fixed
/// rate never makes the net new variable debt
/// `new_debt - previous_debt - fixed_host_fee` negative (the subtraction of the
/// fixed host fee cannot underflow).
pub proof fn lemma_net_new_variable_debt_nonnegative_any_debt(
    previous_debt: Fraction,
    interest: Fraction,
    fixed: Fraction,
)
    requires
        interest.0 >= fixed.0,
    ensures
        (product(previous_debt, interest) - previous_debt.0) - (product(previous_debt, fixed) - previous_debt.0) >= 0,
{
    lemma_mul_monotonic(previous_debt, fixed, interest);
}

} // verus!
