use ecosystem_token::morpho::{
    accrue_yield_index, calculate_fee, calculate_holder_yield, calculate_investment_amount,
    calculate_morpho_yield, holder_apy_bps, is_eligible_pool_type, scale_to_holder_rate,
    CAMPAIGN_YIELD_BPS,
    NORMAL_YIELD_BPS, SECONDS_PER_YEAR, YIELD_INDEX_PRECISION,
};
use ecosystem_token::math::{apply_bps, apply_bps_exact};
use ecosystem_token::state::MorphoPoolType;

#[test]
fn test_launchpad_fee_within_purchase() {
    // Launchpad investor, amount <= original: 0.1% fee
    let result = calculate_fee(1_000_000, true, 2_000_000);
    assert_eq!(result.total_fee, 1_000); // 0.1% of 1_000_000
    assert_eq!(result.excess_portion_fee, 0);
}

#[test]
fn test_launchpad_fee_excess() {
    // Launchpad investor, amount > original: split fee
    let result = calculate_fee(3_000_000, true, 1_000_000);
    let expected_launchpad = 1_000; // 0.1% of 1_000_000
    let expected_excess = 10_000; // 0.5% of 2_000_000
    assert_eq!(result.launchpad_portion_fee, expected_launchpad);
    assert_eq!(result.excess_portion_fee, expected_excess);
    assert_eq!(result.total_fee, expected_launchpad + expected_excess);
}

#[test]
fn test_standard_fee() {
    // Non-launchpad: always 0.5%
    let result = calculate_fee(1_000_000, false, 0);
    assert_eq!(result.total_fee, 5_000); // 0.5% of 1_000_000
}

#[test]
fn test_campaign_yield() {
    let now = 1_700_000_000i64;
    let expires = now + 1000;
    assert_eq!(holder_apy_bps(expires, now), CAMPAIGN_YIELD_BPS); // 70%
}

#[test]
fn test_normal_yield_after_campaign() {
    let now = 1_700_000_000i64;
    let expires = now - 1000; // expired
    assert_eq!(holder_apy_bps(expires, now), NORMAL_YIELD_BPS); // 45%
}

#[test]
fn test_yield_index_accrual() {
    let index = YIELD_INDEX_PRECISION; // start at 1.0
    let one_year = SECONDS_PER_YEAR as i64;
    let new_index = accrue_yield_index(index, NORMAL_YIELD_BPS, one_year);
    // After 1 year at 45% APY, index should be ~1.45x
    let ratio = new_index * 100 / index;
    assert!(ratio >= 144 && ratio <= 146, "ratio was {}", ratio);
}

#[test]
fn test_pool_eligibility() {
    assert!(is_eligible_pool_type(&MorphoPoolType::StablecoinIsolatedVault));
    assert!(is_eligible_pool_type(&MorphoPoolType::FixedAssetCollateralTier));
    assert!(is_eligible_pool_type(&MorphoPoolType::CashEquivalentBacked));
}

#[test]
fn yield_index_one_year_exact() {
    // 1e12 * 4500 * 31_536_000 / (10_000 * 31_536_000) = 0.45e12
    assert_eq!(
        accrue_yield_index(YIELD_INDEX_PRECISION, NORMAL_YIELD_BPS, 31_536_000),
        1_450_000_000_000
    );
}

#[test]
fn yield_index_unchanged_without_elapsed_time() {
    assert_eq!(accrue_yield_index(123, 4_500, 0), 123);
    assert_eq!(accrue_yield_index(123, 4_500, -50), 123);
}

#[test]
fn yield_index_saturates() {
    assert_eq!(accrue_yield_index(u128::MAX, 7_000, 1_000), u128::MAX);
    assert!(accrue_yield_index(u128::MAX / 2, 7_000, i64::MAX) >= u128::MAX / 2);
}

#[test]
fn yield_index_never_decreases_over_longer_time() {
    let a = accrue_yield_index(YIELD_INDEX_PRECISION, 7_000, 100_000);
    let b = accrue_yield_index(YIELD_INDEX_PRECISION, 7_000, 200_000);
    assert!(YIELD_INDEX_PRECISION <= a && a <= b);
}

#[test]
fn holder_yield_from_index_delta() {
    // index grew by 0.45: a balance of 1_000_000 earns 450_000
    assert_eq!(
        calculate_holder_yield(1_450_000_000_000, 1_000_000_000_000, 1_000_000),
        450_000
    );
    assert_eq!(calculate_holder_yield(1_000, 1_000, 5), 0);
    assert_eq!(calculate_holder_yield(900, 1_000, 5), 0);
    assert_eq!(calculate_holder_yield(2_000_000_000_000, 1_000_000_000_000, 0), 0);
}

#[test]
fn holder_yield_caps_at_u64_max() {
    assert_eq!(calculate_holder_yield(u128::MAX, 0, u64::MAX), u64::MAX);
}

#[test]
fn holder_yield_grows_with_index() {
    let low = calculate_holder_yield(1_100_000_000_000, 1_000_000_000_000, 5_000_000);
    let high = calculate_holder_yield(1_300_000_000_000, 1_000_000_000_000, 5_000_000);
    assert_eq!(low, 500_000);
    assert_eq!(high, 1_500_000);
}

#[test]
fn campaign_rate_requires_a_started_campaign() {
    assert_eq!(holder_apy_bps(0, -5), NORMAL_YIELD_BPS);
    assert_eq!(holder_apy_bps(100, 100), NORMAL_YIELD_BPS);
    assert_eq!(holder_apy_bps(100, 99), CAMPAIGN_YIELD_BPS);
}

#[test]
fn launchpad_fee_without_recorded_purchase_is_standard() {
    let result = calculate_fee(1_000_000, true, 0);
    assert_eq!(result.total_fee, 5_000);
    assert_eq!(result.launchpad_portion_fee, 0);
    assert_eq!(result.excess_portion_fee, 5_000);
}

#[test]
fn launchpad_fee_never_exceeds_standard_fee() {
    for (amount, original) in [(3_000_000u64, 1_000_000u64), (999, 10), (1_000_000, 2_000_000)] {
        let launchpad = calculate_fee(amount, true, original);
        let standard = calculate_fee(amount, false, original);
        assert!(launchpad.total_fee <= standard.total_fee);
        assert_eq!(
            launchpad.total_fee,
            launchpad.launchpad_portion_fee + launchpad.excess_portion_fee
        );
    }
}

#[test]
fn fee_rounds_down_and_saturates() {
    assert_eq!(calculate_fee(199, false, 0).total_fee, 0);
    assert_eq!(calculate_fee(200, false, 0).total_fee, 1);
    assert_eq!(calculate_fee(u64::MAX, false, 0).total_fee, u64::MAX / 10_000);
}

#[test]
fn investment_amount_is_ratio_of_pool() {
    assert_eq!(calculate_investment_amount(1_000_000, 8_000), 800_000);
    assert_eq!(calculate_investment_amount(0, 8_000), 0);
    assert_eq!(calculate_investment_amount(u64::MAX, 8_000), u64::MAX / 10_000);
}

#[test]
fn morpho_yield_simple_interest() {
    // 1_000_000 at 10% for one year = 100_000
    assert_eq!(calculate_morpho_yield(1_000_000, 1_000, 31_536_000), 100_000);
    assert_eq!(calculate_morpho_yield(0, 1_000, 31_536_000), 0);
    assert_eq!(calculate_morpho_yield(1_000_000, 1_000, 0), 0);
    assert_eq!(calculate_morpho_yield(u64::MAX, u64::MAX, u64::MAX), u64::MAX);
}

#[test]
fn holder_rate_scales_normal_rate_yield() {
    assert_eq!(scale_to_holder_rate(45_000, NORMAL_YIELD_BPS), 45_000);
    assert_eq!(scale_to_holder_rate(45_000, CAMPAIGN_YIELD_BPS), 70_000);
    // rounds down
    assert_eq!(scale_to_holder_rate(1, CAMPAIGN_YIELD_BPS), 1);
    assert_eq!(scale_to_holder_rate(0, CAMPAIGN_YIELD_BPS), 0);
    // capped at u64::MAX
    assert_eq!(scale_to_holder_rate(u64::MAX, CAMPAIGN_YIELD_BPS), u64::MAX);
}

#[test]
fn basis_point_shares() {
    // the saturating product caps early, the exact one does not
    assert_eq!(apply_bps(u64::MAX, 5_000), u64::MAX / 10_000);
    assert_eq!(apply_bps_exact(u64::MAX, 5_000), u64::MAX / 2);
    assert_eq!(apply_bps_exact(10_003, 4_000), 4_001);
    assert_eq!(apply_bps_exact(u64::MAX, 20_000), u64::MAX);
}
