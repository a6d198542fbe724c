use ecosystem_token::yield_strategy::{
    calculate_accrued_yield, split_investment, validate_keeper_report, StrategyStatus,
    YieldStrategyError, SECONDS_PER_YEAR,
};

#[test]
fn test_split_investment_80_20() {
    let (invest, liquid) = split_investment(1_000_000).unwrap();
    assert_eq!(invest, 800_000);
    assert_eq!(liquid, 200_000);
    assert_eq!(invest + liquid, 1_000_000);
}

#[test]
fn test_split_investment_zero() {
    let (invest, liquid) = split_investment(0).unwrap();
    assert_eq!(invest, 0);
    assert_eq!(liquid, 0);
}

#[test]
fn test_sky_yield_one_year() {
    // 1,000,000 USDC at 6% APY for 1 year = 60,000 USDC yield
    let yield_amount = calculate_accrued_yield(
        1_000_000_000_000, // 1M USDC (6 decimals)
        600,               // 6% in bps
        0,
        SECONDS_PER_YEAR as i64,
    );
    // Should be ~60,000 USDC (60_000_000_000 micro-USDC)
    assert!(yield_amount > 59_000_000_000 && yield_amount < 61_000_000_000);
}

#[test]
fn test_ethena_yield_one_year() {
    // 1,000,000 USDT at 20% APY for 1 year = 200,000 yield
    let yield_amount = calculate_accrued_yield(
        1_000_000_000_000,
        2_000, // 20% in bps
        0,
        SECONDS_PER_YEAR as i64,
    );
    assert!(yield_amount > 199_000_000_000 && yield_amount < 201_000_000_000);
}

#[test]
fn test_no_yield_when_no_time_elapsed() {
    let yield_amount = calculate_accrued_yield(1_000_000, 600, 1000, 1000);
    assert_eq!(yield_amount, 0);
}

#[test]
fn test_keeper_report_within_tolerance() {
    let result = validate_keeper_report(
        1_000_000,
        1_050_000, // 5% above expected: within 10% tolerance
        &StrategyStatus::PendingExecution,
        &StrategyStatus::PendingExecution,
        1000,
        2000,
    );
    assert!(result.is_ok());
}

#[test]
fn test_keeper_report_out_of_range() {
    let result = validate_keeper_report(
        1_000_000,
        500_000, // 50% below: out of 10% tolerance
        &StrategyStatus::PendingExecution,
        &StrategyStatus::PendingExecution,
        1000,
        2000,
    );
    assert!(result.is_err());
}

#[test]
fn split_investment_rounds_toward_liquid() {
    assert_eq!(split_investment(1).unwrap(), (0, 1));
    assert_eq!(split_investment(7).unwrap(), (5, 2));
}

#[test]
fn split_investment_overflow_is_refused() {
    assert_eq!(split_investment(u64::MAX / 8_000 + 1), Err(YieldStrategyError::MathOverflow));
    let total = u64::MAX / 8_000;
    let (invest, liquid) = split_investment(total).unwrap();
    assert_eq!(invest + liquid, total);
}

#[test]
fn accrued_yield_exact_and_edges() {
    assert_eq!(calculate_accrued_yield(1_000_000_000_000, 600, 0, 31_536_000), 60_000_000_000);
    assert_eq!(calculate_accrued_yield(0, 600, 0, 100), 0);
    assert_eq!(calculate_accrued_yield(1_000, 0, 0, 100), 0);
    assert_eq!(calculate_accrued_yield(1_000, 600, 100, 50), 0);
    assert_eq!(calculate_accrued_yield(u64::MAX, u64::MAX, 0, i64::MAX), u64::MAX);
}

#[test]
fn keeper_report_errors() {
    assert_eq!(
        validate_keeper_report(
            1_000_000,
            1_000_000,
            &StrategyStatus::PendingExecution,
            &StrategyStatus::Active,
            1,
            2
        ),
        Err(YieldStrategyError::InvalidStrategyStatus)
    );
    assert_eq!(
        validate_keeper_report(
            1_000_000,
            1_000_000,
            &StrategyStatus::Active,
            &StrategyStatus::Active,
            3,
            2
        ),
        Err(YieldStrategyError::InvalidTimestamp)
    );
    assert_eq!(
        validate_keeper_report(
            1_000_000,
            1_100_001,
            &StrategyStatus::Active,
            &StrategyStatus::Active,
            2,
            2
        ),
        Err(YieldStrategyError::KeeperReportOutOfRange)
    );
}

#[test]
fn keeper_report_bounds_are_inclusive() {
    let ok = |reported| {
        validate_keeper_report(
            1_000_000,
            reported,
            &StrategyStatus::Active,
            &StrategyStatus::Active,
            0,
            0,
        )
    };
    assert_eq!(ok(900_000), Ok(()));
    assert_eq!(ok(1_100_000), Ok(()));
    assert_eq!(ok(899_999), Err(YieldStrategyError::KeeperReportOutOfRange));
    // nothing expected: any amount passes
    assert_eq!(
        validate_keeper_report(0, 5, &StrategyStatus::Active, &StrategyStatus::Active, 0, 0),
        Ok(())
    );
    // large amounts keep their 10% tolerance
    let big = 20_000_000_000_000_000u64;
    assert_eq!(
        validate_keeper_report(big, big + 1, &StrategyStatus::Active, &StrategyStatus::Active, 0, 0),
        Ok(())
    );
    assert_eq!(
        validate_keeper_report(big, big + big / 10, &StrategyStatus::Active, &StrategyStatus::Active, 0, 0),
        Ok(())
    );
    assert_eq!(
        validate_keeper_report(big, big + big / 10 + 1, &StrategyStatus::Active, &StrategyStatus::Active, 0, 0),
        Err(YieldStrategyError::KeeperReportOutOfRange)
    );
    // the upper bound saturates at u64::MAX
    assert_eq!(
        validate_keeper_report(u64::MAX, u64::MAX, &StrategyStatus::Active, &StrategyStatus::Active, 0, 0),
        Ok(())
    );
}
