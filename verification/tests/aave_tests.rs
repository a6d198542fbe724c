use ecosystem_token::aave::{
    calculate_aave_interest, calculate_apy, claim_aave_yields, deposit_usdc_to_aave,
    interest_whole_units, validate_aave_deposit, AaveError, DecimalParts,
};
use rust_decimal::Decimal;

fn to_decimal(d: DecimalParts) -> Decimal {
    Decimal::from_parts(d.lo, d.mid, d.hi, d.negative, d.scale)
}

#[test]
fn aave_deposit_always_validates() {
    assert_eq!(validate_aave_deposit(0), Ok(()));
    assert_eq!(deposit_usdc_to_aave(u64::MAX), Ok(()));
}

#[test]
fn aave_interest_four_percent_a_year() {
    // 1_000_000 at 4% for 365 days = 40_000
    assert_eq!(calculate_aave_interest(1_000_000, 365), Ok(40_000));
    // 1_000_000 * 0.04 * 100 / 365 = 10958.9... -> 10958
    assert_eq!(calculate_aave_interest(1_000_000, 100), Ok(10_958));
    assert_eq!(calculate_aave_interest(0, 365), Ok(0));
    assert_eq!(calculate_aave_interest(1_000_000, 0), Ok(0));
}

#[test]
fn aave_interest_overflow_is_refused() {
    assert_eq!(
        calculate_aave_interest(u64::MAX, u64::MAX),
        Err(AaveError::AaveIntegrationError)
    );
    // about 7.4e19 whole units: more than u64 holds
    assert_eq!(
        calculate_aave_interest(u64::MAX, 36_500),
        Err(AaveError::AaveIntegrationError)
    );
}

#[test]
fn aave_claim_counts_whole_days() {
    let now = 1_700_000_000;
    assert_eq!(claim_aave_yields(1_000_000, now - 365 * 86_400, now), Ok(40_000));
    // less than a day: nothing
    assert_eq!(claim_aave_yields(1_000_000, now - 86_399, now), Ok(0));
}

#[test]
fn apy_from_interest() {
    let apy = calculate_apy(1_000_000, 40_000, 365).unwrap();
    assert_eq!(to_decimal(apy), Decimal::from(4));
    // a zero principal divides by zero
    assert_eq!(calculate_apy(0, 40_000, 365), Err(AaveError::AaveIntegrationError));
    assert_eq!(calculate_apy(1_000_000, 40_000, 0), Err(AaveError::AaveIntegrationError));
}

#[test]
fn whole_units_truncate() {
    // 12.345 -> 12
    let d = DecimalParts { negative: false, scale: 3, hi: 0, mid: 0, lo: 12_345 };
    assert_eq!(interest_whole_units(d), Ok(12));
    // negative values are refused
    let n = DecimalParts { negative: true, scale: 0, hi: 0, mid: 0, lo: 5 };
    assert_eq!(interest_whole_units(n), Err(AaveError::AaveIntegrationError));
    // a negative zero is zero
    let z = DecimalParts { negative: true, scale: 2, hi: 0, mid: 0, lo: 0 };
    assert_eq!(interest_whole_units(z), Ok(0));
    // beyond u64: refused
    let big = DecimalParts { negative: false, scale: 0, hi: 1, mid: 0, lo: 0 };
    assert_eq!(interest_whole_units(big), Err(AaveError::AaveIntegrationError));
}
