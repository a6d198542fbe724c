//! Yield strategies (USDC to sUSDS via Sky, USDT to sUSDe via Ethena): the
//! 80/20 invest/liquid split, simple-interest accrual on a position, and the
//! checks a keeper report must pass.

use vstd::prelude::*;
use crate::math::{sat_u64, sat_u128, saturating_mul_u128};

verus! {

/// Share of each pool kept liquid for immediate redemptions: 20%.
pub const LIQUID_RESERVE_BPS: u64 = 2_000;

/// Share routed to the yield strategy: 80%.
pub const INVESTMENT_BPS: u64 = 8_000;

/// Sky Savings Rate baseline APY in basis points (~6% nominal).
pub const SKY_BASE_APY_BPS: u64 = 600;

/// Ethena sUSDe baseline APY in basis points (~20% nominal, variable).
pub const ETHENA_BASE_APY_BPS: u64 = 2_000;

/// Seconds per year for the APY to per-second rate calculation.
pub const SECONDS_PER_YEAR: u64 = 31_536_000;

/// The two strategies.
#[derive(Clone, Copy, Debug, PartialEq, Eq, Structural)]
pub enum StrategyType {
    /// USDC to USDS to sUSDS via Sky Protocol.
    SkyUsds,
    /// USDT to USDe to sUSDe via Ethena through Meteora.
    EthenaUsde,
}

/// Where a strategy position stands.
#[derive(Clone, Copy, Debug, PartialEq, Eq, Structural)]
pub enum StrategyStatus {
    /// No active position.
    Inactive,
    /// Investment queued, keeper has not yet confirmed execution.
    PendingExecution,
    /// Keeper confirmed the cross-chain position is live.
    Active,
    /// Withdrawal requested, keeper unwinding the position.
    PendingWithdrawal,
}

/// Errors of the yield strategies.
#[derive(Clone, Copy, Debug, PartialEq, Eq, Structural)]
pub enum YieldStrategyError {
    /// Arithmetic overflow in yield calculation.
    MathOverflow,
    /// Strategy is not in the expected status for this operation.
    InvalidStrategyStatus,
    /// Keeper report timestamp is in the future.
    InvalidTimestamp,
    /// Keeper reported amount is outside the 10% tolerance range.
    KeeperReportOutOfRange,
    /// Pool has insufficient balance for this investment.
    InsufficientPoolBalance,
    /// Investment already active: withdraw before re-investing.
    InvestmentAlreadyActive,
    /// No active investment to withdraw.
    NoActiveInvestment,
}

/// The amount invested from a pool of `total`: 80% of it, rounded down.
pub open spec fn invest_share(total: int) -> int {
    total * INVESTMENT_BPS / 10_000
}

/// Calculate how much to invest versus keep liquid.
///
/// Returns `(invest_amount, liquid_amount)`; both sum to `total_pool_amount`.
/// Fails with `MathOverflow` when `total_pool_amount * 8000` leaves `u64`.
pub fn split_investment(total_pool_amount: u64) -> (r: Result<(u64, u64), YieldStrategyError>)
    ensures
        total_pool_amount * INVESTMENT_BPS > u64::MAX <==> r is Err,
        r is Err ==> r == Err::<(u64, u64), YieldStrategyError>(YieldStrategyError::MathOverflow),
        r matches Ok((invest, liquid)) ==> {
            &&& invest == invest_share(total_pool_amount as int)
            &&& invest + liquid == total_pool_amount
        },
{
    if total_pool_amount == 0 {
        return Ok((0, 0));
    }
    let product = match total_pool_amount.checked_mul(INVESTMENT_BPS) {
        Some(v) => v,
        None => return Err(YieldStrategyError::MathOverflow),
    };
    let invest = product / 10_000;
    let liquid = match total_pool_amount.checked_sub(invest) {
        Some(v) => v,
        None => return Err(YieldStrategyError::MathOverflow),
    };
    Ok((invest, liquid))
}

/// Simple-interest yield on a position since `last_update_ts`:
/// `invested * apy * seconds / (10000 * SECONDS_PER_YEAR)`, the products
/// saturating at `u128::MAX` and the result capped at `u64::MAX`; zero when
/// nothing is invested, the rate is zero or no time has passed.
pub open spec fn accrued_yield(invested_amount: int, apy_bps: int, last_update_ts: int, now_ts: int) -> int {
    if invested_amount == 0 || apy_bps == 0 || now_ts <= last_update_ts {
        0
    } else {
        sat_u64(
            sat_u128(sat_u128(invested_amount * apy_bps) * (now_ts - last_update_ts))
                / (10_000 * SECONDS_PER_YEAR),
        )
    }
}

/// Accrue yield on an active position using simple interest.
/// Returns the yield earned since `last_update_ts`.
pub fn calculate_accrued_yield(invested_amount: u64, apy_bps: u64, last_update_ts: i64, now_ts: i64) -> (r: u64)
    requires
        now_ts - last_update_ts <= i64::MAX,
    ensures
        r == accrued_yield(invested_amount as int, apy_bps as int, last_update_ts as int, now_ts as int),
{
    if invested_amount == 0 || apy_bps == 0 || now_ts <= last_update_ts {
        return 0;
    }
    let seconds_elapsed = (now_ts - last_update_ts) as u64;
    let amount = saturating_mul_u128(
        saturating_mul_u128(invested_amount as u128, apy_bps as u128),
        seconds_elapsed as u128,
    ) / (10_000u128 * (SECONDS_PER_YEAR as u128));
    if amount > u64::MAX as u128 {
        u64::MAX
    } else {
        amount as u64
    }
}

/// The tolerance a keeper report is allowed around `expected`: 10% of it
/// (1000 bps), rounded down.
pub open spec fn report_tolerance(expected: int) -> int {
    expected / 10
}

/// Whether `reported` lies within the tolerance around `expected` (bounds
/// saturating at 0 and `u64::MAX`); any report is in range when nothing was expected.
pub open spec fn report_in_range(expected: int, reported: int) -> bool {
    expected > 0 ==> (sat_u64(expected - report_tolerance(expected)) <= reported
        && reported <= sat_u64(expected + report_tolerance(expected)))
}

/// The verdict on a keeper report: the status must match, the report may not
/// lie in the future, and the amount must be within 10% of what was expected.
pub open spec fn keeper_report_verdict(
    expected_amount: int,
    reported_amount: int,
    expected_status: StrategyStatus,
    actual_status: StrategyStatus,
    report_ts: int,
    now_ts: int,
) -> Result<(), YieldStrategyError> {
    if expected_status != actual_status {
        Err(YieldStrategyError::InvalidStrategyStatus)
    } else if report_ts > now_ts {
        Err(YieldStrategyError::InvalidTimestamp)
    } else if !report_in_range(expected_amount, reported_amount) {
        Err(YieldStrategyError::KeeperReportOutOfRange)
    } else {
        Ok(())
    }
}

/// Validate a keeper report before applying it to on-chain state.
/// Checks:
///   1. Position is in the expected status
///   2. Timestamp is not in the future
///   3. Reported amount is within +-10% of expected (slippage guard)
pub fn validate_keeper_report(
    expected_amount: u64,
    reported_amount: u64,
    expected_status: &StrategyStatus,
    actual_status: &StrategyStatus,
    report_ts: i64,
    now_ts: i64,
) -> (r: Result<(), YieldStrategyError>)
    ensures
        r == keeper_report_verdict(
            expected_amount as int,
            reported_amount as int,
            *expected_status,
            *actual_status,
            report_ts as int,
            now_ts as int,
        ),
        r is Ok && expected_amount > 0 ==> expected_amount - expected_amount / 10 <= reported_amount
            <= expected_amount + expected_amount / 10,
{
    if *expected_status != *actual_status {
        return Err(YieldStrategyError::InvalidStrategyStatus);
    }
    if report_ts > now_ts {
        return Err(YieldStrategyError::InvalidTimestamp);
    }
    if expected_amount > 0 {
        let tolerance = expected_amount / 10;
        let lower = expected_amount.saturating_sub(tolerance);
        let upper = expected_amount.saturating_add(tolerance);
        if !(reported_amount >= lower && reported_amount <= upper) {
            return Err(YieldStrategyError::KeeperReportOutOfRange);
        }
    }
    Ok(())
}

/// 80% of a pool is invested and 20% kept liquid: the invested part is the
/// largest amount whose five-fold is at most four times the pool, so the
/// liquid rest is at least a fifth of the pool and less than a fifth plus one.
pub proof fn lemma_invest_share_is_eighty_percent(total: u64)
    ensures
        invest_share(total as int) * 5 <= total * 4 < (invest_share(total as int) + 1) * 5,
        (total - invest_share(total as int)) * 5 >= total,
{
}

/// A year of simple interest at `apy_bps` earns exactly `apy_bps / 10000` of
/// the invested amount (rounded down), wherever the product stays in `u64`.
pub proof fn lemma_accrued_yield_for_a_year(invested_amount: u64, apy_bps: u64, last_update_ts: i64)
    requires
        invested_amount * apy_bps <= u64::MAX,
    ensures
        accrued_yield(
            invested_amount as int,
            apy_bps as int,
            last_update_ts as int,
            last_update_ts + SECONDS_PER_YEAR,
        ) == invested_amount * apy_bps / 10_000,
{
    let x = invested_amount * apy_bps;
    assert(0 <= x && x * SECONDS_PER_YEAR <= u128::MAX) by (nonlinear_arith)
        requires
            x == invested_amount * apy_bps,
            invested_amount >= 0,
            apy_bps >= 0,
            x <= u64::MAX,
    ;
    vstd::arithmetic::div_mod::lemma_div_denominator(x * SECONDS_PER_YEAR, SECONDS_PER_YEAR as int, 10_000);
    vstd::arithmetic::div_mod::lemma_div_multiples_vanish(x, SECONDS_PER_YEAR as int);
    assert(SECONDS_PER_YEAR * x == x * SECONDS_PER_YEAR) by (nonlinear_arith);
    if invested_amount == 0 || apy_bps == 0 {
        assert(x == 0) by (nonlinear_arith)
            requires
                x == invested_amount * apy_bps,
                invested_amount == 0 || apy_bps == 0,
        ;
    }
}

/// A keeper report with the expected status and no future timestamp is
/// accepted exactly when its amount is within 10% (rounded down) of what
/// was expected, or when nothing was expected.
pub proof fn lemma_keeper_report_within_ten_percent(
    expected: u64,
    reported: u64,
    status: StrategyStatus,
    report_ts: i64,
    now_ts: i64,
)
    requires
        report_ts <= now_ts,
    ensures
        (keeper_report_verdict(
            expected as int,
            reported as int,
            status,
            status,
            report_ts as int,
            now_ts as int,
        ) is Ok) <==> (expected == 0 || (expected - expected / 10 <= reported && reported
            <= expected + expected / 10)),
{
}

} // verus!
