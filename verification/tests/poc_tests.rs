use klend_guard::fraction::Fraction;
use std::convert::TryFrom;

#[test]
fn test_negative_interest_with_saturation() {
    let previous_debt_f = Fraction::from_percent(100);
    let compounded_interest_rate = Fraction::from_percent(101);
    let compounded_fixed_rate = Fraction::from_percent(105);

    let new_debt_f = previous_debt_f.mul(compounded_interest_rate);
    let fixed_host_fee = previous_debt_f.mul(compounded_fixed_rate).sub(previous_debt_f);

    let net_new_debt = new_debt_f.0.saturating_sub(previous_debt_f.0);
    let net_new_variable_debt_f = net_new_debt.saturating_sub(fixed_host_fee.0);

    println!("Net new variable debt (saturated): {}", net_new_variable_debt_f);
    assert_eq!(net_new_variable_debt_f, 0);
}

#[test]
fn poc_tests_test_unbounded_referral_rate() {
    let protocol_take_rate = Fraction::from_percent(10);
    let referral_fee_bps: u16 = 10_000;
    let referral_rate = Fraction::from_bps(referral_fee_bps);

    let absolute_referral_rate = protocol_take_rate.mul(referral_rate);

    println!("Protocol take rate: {:?}", protocol_take_rate.0);
    println!("Referral rate: {:?}", referral_rate.0);
    println!("Absolute referral rate: {:?}", absolute_referral_rate.0);

    assert_eq!(absolute_referral_rate, protocol_take_rate);
}

#[test]
fn test_div_ceil_extreme_values() {
    let large_numerator = u128::MAX / 2;
    let _small_denominator = 2u128;

    let can_shift = large_numerator.checked_shl(60);

    if can_shift.is_none() {
        println!("OVERFLOW DETECTED: div_ceil would panic with these values");
        println!("Numerator << 60: would overflow u128");
    } else {
        println!("No overflow with these specific values");
    }
}

#[test]
fn test_full_mul_int_ratio_dead_code() {
    println!("- This is dead code that cannot be exploited");
    assert!(true);
}

#[test]
fn test_pda_bump_safety() {
    let valid_bump: u8 = 255;
    let stored_bump: u64 = valid_bump as u64;

    let result = u8::try_from(stored_bump);
    assert!(result.is_ok());
    assert_eq!(result.unwrap(), valid_bump);

    let invalid_bump: u64 = 256;
    let invalid_result = u8::try_from(invalid_bump);
    assert!(invalid_result.is_err());
}

#[test]
fn security_tests_test_unbounded_referral_rate() {
    let protocol_take_rate = Fraction::from_percent(10);
    let referral_rate = Fraction::from_percent(200);

    let absolute_referral_rate = protocol_take_rate.mul(referral_rate);

    assert!(absolute_referral_rate > protocol_take_rate);
}
