use ecosystem_token::errors::EcosystemError;
use ecosystem_token::rwa::{
    business_seconds_elapsed, calculate_emergency_redemption, calculate_rwa_yield, day_of_week,
    is_weekend, record_rwa_investment, unstake_status_message, UnstakeStatus,
};

#[test]
fn test_day_of_week() {
    // Jan 1 2024 00:00:00 UTC = 1704067200 -> Monday
    assert_eq!(day_of_week(1704067200), 1);
    // Jan 6 2024 = Saturday
    assert_eq!(day_of_week(1704499200), 6);
    // Jan 7 2024 = Sunday
    assert_eq!(day_of_week(1704585600), 0);
}

#[test]
fn test_business_seconds_weekend_pause() {
    // Start on Friday, end on Monday
    let friday_6pm: i64 = 1704412800; // rough Friday timestamp
    let monday_6am: i64 = friday_6pm + (3 * 86_400); // 3 days later
    let elapsed = business_seconds_elapsed(friday_6pm, monday_6am);
    // Should be less than 72 hours (3 days) since weekend is excluded
    assert!(elapsed < 3 * 86_400);
}

#[test]
fn test_rwa_yield() {
    // 1000 USDC at 5% APY for 365 days = 50 USDC yield
    let yield_1yr = calculate_rwa_yield(1_000_000_000, 365 * 24 * 3600).unwrap();
    // Should be approximately 50 USDC (50_000_000 microUSDC)
    assert!(yield_1yr > 49_000_000 && yield_1yr < 51_000_000);
}

#[test]
fn epoch_was_a_thursday() {
    assert_eq!(day_of_week(0), 4);
    assert!(!is_weekend(0));
    assert!(is_weekend(2 * 86_400)); // Saturday 3 Jan 1970
    assert!(is_weekend(3 * 86_400)); // Sunday 4 Jan 1970
    assert!(!is_weekend(4 * 86_400)); // Monday
}

#[test]
fn day_of_week_before_epoch() {
    // 31 Dec 1969 23:59:59 UTC was a Wednesday
    assert_eq!(day_of_week(-1), 3);
    assert_eq!(day_of_week(-86_400), 3);
    // 30 Dec 1969 23:59:59 was a Tuesday
    assert_eq!(day_of_week(-86_401), 2);
    // 27 Dec 1969 was a Saturday
    assert!(is_weekend(-5 * 86_400));
    assert!(!is_weekend(-1));
}

#[test]
fn business_seconds_across_the_epoch() {
    // Wed 31 Dec 1969 12:00 to Thu 1 Jan 1970 12:00: all weekday time
    assert_eq!(business_seconds_elapsed(-43_200, 43_200), 86_400);
    // Sat 27 Dec 1969 00:00 to Mon 29 Dec 1969 00:00: all weekend
    assert_eq!(business_seconds_elapsed(-5 * 86_400, -3 * 86_400), 0);
}

#[test]
fn business_seconds_friday_to_monday_counts_friday_only() {
    let friday = 1704412800; // Fri 5 Jan 2024 00:00 UTC
    assert_eq!(business_seconds_elapsed(friday, friday + 3 * 86_400), 86_400);
    // Friday 18:00 to Monday 06:00: 6 hours Friday + 6 hours Monday
    let fri_6pm = friday + 18 * 3_600;
    let mon_6am = friday + 3 * 86_400 + 6 * 3_600;
    assert_eq!(business_seconds_elapsed(fri_6pm, mon_6am), 12 * 3_600);
}

#[test]
fn business_seconds_zero_over_weekend_and_backwards() {
    let saturday = 1704499200;
    assert_eq!(business_seconds_elapsed(saturday, saturday + 2 * 86_400), 0);
    assert_eq!(business_seconds_elapsed(saturday + 10, saturday), 0);
    assert_eq!(business_seconds_elapsed(saturday, saturday), 0);
}

#[test]
fn business_seconds_are_additive() {
    let start = 1704412800 + 5_000;
    let mid = start + 200_000;
    let end = mid + 333_333;
    assert_eq!(
        business_seconds_elapsed(start, mid) + business_seconds_elapsed(mid, end),
        business_seconds_elapsed(start, end)
    );
}

#[test]
fn business_seconds_full_week() {
    let monday = 1704067200;
    assert_eq!(business_seconds_elapsed(monday, monday + 7 * 86_400), 5 * 86_400);
}

#[test]
fn unstake_status_counts_down() {
    let monday = 1704067200;
    assert_eq!(unstake_status_message(monday, monday + 2 * 86_400), UnstakeStatus::Ready);
    assert_eq!(
        unstake_status_message(monday, monday + 3_600 + 120),
        UnstakeStatus::Pending {
            remaining_business_seconds: 172_800 - 3_720,
            remaining_hours: 46,
            remaining_minutes: 58,
            paused_for_weekend: false,
        }
    );
    // requested Friday 00:00, checked Saturday noon: Friday counted, paused now
    let friday = 1704412800;
    assert_eq!(
        unstake_status_message(friday, friday + 86_400 + 43_200),
        UnstakeStatus::Pending {
            remaining_business_seconds: 86_400,
            remaining_hours: 24,
            remaining_minutes: 0,
            paused_for_weekend: true,
        }
    );
}

#[test]
fn rwa_yield_exact_and_edges() {
    assert_eq!(calculate_rwa_yield(1_000_000_000, 31_536_000), Ok(50_000_000));
    assert_eq!(calculate_rwa_yield(0, 31_536_000), Ok(0));
    assert_eq!(calculate_rwa_yield(1_000, 0), Ok(0));
}

#[test]
fn rwa_yield_overflow_is_refused() {
    // the quotient leaves u64
    assert_eq!(calculate_rwa_yield(u64::MAX, u64::MAX / 1_000), Err(EcosystemError::MathOverflow));
    // the product leaves u128
    assert_eq!(calculate_rwa_yield(u64::MAX, u64::MAX), Err(EcosystemError::MathOverflow));
}

#[test]
fn rwa_investment_share() {
    assert_eq!(record_rwa_investment(1_000_000, 70), 700_000);
    assert_eq!(record_rwa_investment(u64::MAX, 2), 0);
}

#[test]
fn emergency_redemption_after_slippage() {
    assert_eq!(calculate_emergency_redemption(1_000_000, 100), 990_000);
    assert_eq!(calculate_emergency_redemption(1_000_000, 20_000), 0);
    assert_eq!(calculate_emergency_redemption(u64::MAX, 0), 0);
}

#[test]
fn business_seconds_every_week_counts_five_days() {
    for start in [0i64, 1, 1704067200, 1704412800 + 64_800, 1704499200 + 7, -1, -5 * 86_400 + 3] {
        assert_eq!(business_seconds_elapsed(start, start + 604_800), 432_000);
    }
}
