use klend_guard::fraction::{Fraction, FRACTION_SCALE};

#[test]
fn one_and_zero() {
    assert_eq!(Fraction::one().0, 1_000_000_000_000_000_000);
    assert_eq!(Fraction::zero().0, 0);
    assert_eq!(FRACTION_SCALE, 1_000_000_000_000_000_000);
}

#[test]
fn percent_and_bps_exact_values() {
    assert_eq!(Fraction::from_percent(1).0, 10_000_000_000_000_000);
    assert_eq!(Fraction::from_percent(105).0, 1_050_000_000_000_000_000);
    assert_eq!(Fraction::from_bps(1).0, 100_000_000_000_000);
    assert_eq!(Fraction::from_bps(u16::MAX).0, 6_553_500_000_000_000_000);
    assert_eq!(Fraction::from_percent(u64::MAX).0, u64::MAX as u128 * 10_000_000_000_000_000);
}

#[test]
fn bps_agrees_with_percent() {
    for percent in [0u64, 1, 10, 100, 655] {
        assert_eq!(Fraction::from_bps((percent * 100) as u16), Fraction::from_percent(percent));
    }
}

#[test]
fn mul_truncates_toward_zero() {
    let third = Fraction(333_333_333_333_333_333);
    assert_eq!(Fraction::from_percent(300).mul(third).0, 999_999_999_999_999_999);
    assert_eq!(Fraction(1).mul(Fraction(1)).0, 0);
}

#[test]
fn mul_by_one_gives_value_back() {
    for x in [0u128, 1, 42, 1_234_567_890_123_456_789, 340_282_366_920_938_463_463] {
        assert_eq!(Fraction(x).mul(Fraction::one()), Fraction(x));
    }
}

#[test]
fn referral_share_at_most_one_stays_within_take_rate() {
    let take = Fraction::from_percent(10);
    for bps in [0u16, 1, 2_500, 9_999, 10_000] {
        assert!(take.mul(Fraction::from_bps(bps)) <= take);
    }
    for bps in [10_000u16, 10_001, 20_000, u16::MAX] {
        assert!(take.mul(Fraction::from_bps(bps)) >= take);
    }
}

#[test]
fn add_and_sub() {
    let a = Fraction::from_percent(7);
    let b = Fraction::from_percent(5);
    assert_eq!(a.add(b), Fraction::from_percent(12));
    assert_eq!(a.add(b).sub(b), a);
    assert_eq!(a.sub(b), Fraction::from_percent(2));
    assert_eq!(a.sub(a), Fraction::zero());
}

#[test]
fn net_new_variable_debt_nonnegative_when_interest_covers_fixed_rate() {
    let previous = Fraction::from_percent(100);
    let interest = Fraction::from_percent(105);
    let fixed = Fraction::from_percent(101);
    let new_debt = previous.mul(interest);
    let fixed_host_fee = previous.mul(fixed).sub(previous);
    let net = new_debt.sub(previous).sub(fixed_host_fee);
    assert_eq!(net, Fraction::from_percent(4));
}

#[test]
fn net_new_variable_debt_would_underflow_when_fixed_rate_exceeds_interest() {
    let previous = Fraction::from_percent(100);
    let interest = Fraction::from_percent(101);
    let fixed = Fraction::from_percent(105);
    let net_new = previous.mul(interest).sub(previous);
    let fixed_host_fee = previous.mul(fixed).sub(previous);
    assert!(fixed_host_fee > net_new);
    assert_eq!(net_new.0.checked_sub(fixed_host_fee.0), None);
}

#[test]
fn net_new_variable_debt_nonnegative_for_any_debt_when_interest_covers_fixed_rate() {
    for previous_raw in [1u128, 3, 999_999_999_999, 123_456_789_000_000_000_000] {
        let previous = Fraction(previous_raw);
        for (interest_pct, fixed_pct) in [(101u64, 101u64), (105, 101), (200, 150), (100, 100)] {
            let new_debt = previous.mul(Fraction::from_percent(interest_pct));
            let fixed_total = previous.mul(Fraction::from_percent(fixed_pct));
            let net_new = new_debt.0 as i128 - previous.0 as i128;
            let fixed_host_fee = fixed_total.0 as i128 - previous.0 as i128;
            assert!(net_new - fixed_host_fee >= 0);
        }
    }
}
