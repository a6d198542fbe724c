//! Morpho investment arithmetic: the global yield index, holder yield,
//! fee tiers, pool eligibility and the invested share of the pool.

use vstd::prelude::*;
use crate::state::MorphoPoolType;
use vstd::arithmetic::div_mod::{lemma_div_is_ordered, lemma_fundamental_div_mod};
use vstd::arithmetic::mul::lemma_mul_inequality;
use crate::math::{apply_bps, bps_of, sat_u128, sat_u64, saturating_mul_u128, saturating_mul_u64};

verus! {

/// Precision multiplier for the yield index (1e12).
pub const YIELD_INDEX_PRECISION: u128 = 1_000_000_000_000;

/// Normal holder APY: 45%.
pub const NORMAL_YIELD_BPS: u64 = 4_500;

/// Campaign holder APY: 70% (for the first 6 months after purchase).
pub const CAMPAIGN_YIELD_BPS: u64 = 7_000;

/// Campaign duration: 6 months in seconds.
pub const CAMPAIGN_DURATION_SECONDS: i64 = 15_552_000;

/// 80% of the pool is invested, 20% kept liquid for redemptions.
pub const INVESTMENT_RATIO_BPS: u64 = 8_000;

/// Seconds per year for APY calculation.
pub const SECONDS_PER_YEAR: u64 = 31_536_000;

/// Basis points times seconds per year: the divisor that turns
/// `amount * apy_bps * seconds` into an amount.
pub open spec fn annual_bps_divisor() -> int {
    10_000 * SECONDS_PER_YEAR
}

/// The global yield index after `seconds_elapsed` seconds at `apy_bps`:
/// `index + index * apy * time / (10000 * SECONDS_PER_YEAR)`, each product and
/// the final sum saturating at `u128::MAX`; unchanged when no time passed.
pub open spec fn accrued_index(current_index: int, apy_bps: int, seconds_elapsed: int) -> int {
    if seconds_elapsed <= 0 {
        current_index
    } else {
        sat_u128(
            current_index + sat_u128(sat_u128(current_index * apy_bps) * seconds_elapsed)
                / annual_bps_divisor(),
        )
    }
}

/// Calculate the updated global yield index.
/// Called whenever the index needs to be refreshed (mint, burn, claim).
pub fn accrue_yield_index(current_index: u128, apy_bps: u64, seconds_elapsed: i64) -> (r: u128)
    ensures
        r == accrued_index(current_index as int, apy_bps as int, seconds_elapsed as int),
        r >= current_index,
{
    if seconds_elapsed <= 0 {
        return current_index;
    }
    let delta = saturating_mul_u128(
        saturating_mul_u128(current_index, apy_bps as u128),
        seconds_elapsed as u128,
    ) / (10_000u128 * (SECONDS_PER_YEAR as u128));
    current_index.saturating_add(delta)
}

/// Yield owed to a holder whose snapshot is `holder_snapshot` when the index
/// stands at `current_index`: `(current - snapshot) * balance / PRECISION`,
/// the product saturating at `u128::MAX` and the result capped at `u64::MAX`.
pub open spec fn holder_yield(current_index: int, holder_snapshot: int, token_balance: int) -> int {
    if current_index <= holder_snapshot || token_balance == 0 {
        0
    } else {
        sat_u64(
            sat_u128((current_index - holder_snapshot) * token_balance)
                / (YIELD_INDEX_PRECISION as int),
        )
    }
}

/// Calculate yield owed to a holder since their last snapshot.
pub fn calculate_holder_yield(current_index: u128, holder_snapshot: u128, token_balance: u64) -> (r: u64)
    ensures
        r == holder_yield(current_index as int, holder_snapshot as int, token_balance as int),
{
    if current_index <= holder_snapshot || token_balance == 0 {
        return 0;
    }
    let index_delta = current_index - holder_snapshot;
    let yield_amount = saturating_mul_u128(index_delta, token_balance as u128)
        / YIELD_INDEX_PRECISION;
    if yield_amount > u64::MAX as u128 {
        u64::MAX
    } else {
        yield_amount as u64
    }
}

/// The APY that applies to a holder: the campaign rate while a campaign
/// (`campaign_expires_at > 0`) has not yet expired, the normal rate otherwise.
pub open spec fn apy_for_holder(campaign_expires_at: int, now: int) -> u64 {
    if campaign_expires_at > 0 && now < campaign_expires_at {
        CAMPAIGN_YIELD_BPS
    } else {
        NORMAL_YIELD_BPS
    }
}

/// Determine APY for a holder based on campaign status.
pub fn holder_apy_bps(campaign_expires_at: i64, now: i64) -> (r: u64)
    ensures
        r == apy_for_holder(campaign_expires_at as int, now as int),
{
    if campaign_expires_at > 0 && now < campaign_expires_at {
        CAMPAIGN_YIELD_BPS
    } else {
        NORMAL_YIELD_BPS
    }
}

/// A holder's yield at their own rate. The shared index grows at the normal
/// rate, so the yield it gives a holder is scaled by `apy_bps / NORMAL_YIELD_BPS`
/// (the product taken exactly, the result capped at `u64::MAX`); at the normal
/// rate it is unchanged.
pub open spec fn yield_at_rate(normal_rate_yield: int, apy_bps: int) -> int {
    sat_u64(normal_rate_yield * apy_bps / (NORMAL_YIELD_BPS as int))
}

/// Scale a yield computed from the shared (normal-rate) index to the
/// holder's own APY.
pub fn scale_to_holder_rate(normal_rate_yield: u64, apy_bps: u64) -> (r: u64)
    ensures
        r == yield_at_rate(normal_rate_yield as int, apy_bps as int),
{
    let a = normal_rate_yield as u128;
    let b = apy_bps as u128;
    assert(a * b <= u64::MAX * u64::MAX) by (nonlinear_arith)
        requires
            a <= u64::MAX,
            b <= u64::MAX,
    ;
    let scaled = a * b / (NORMAL_YIELD_BPS as u128);
    if scaled > u64::MAX as u128 {
        u64::MAX
    } else {
        scaled as u64
    }
}

/// Launchpad investor fee rate: 0.1% (10 bps).
pub const LAUNCHPAD_FEE_BPS: u64 = 10;

/// Standard trader fee rate: 0.5% (50 bps).
pub const STANDARD_FEE_BPS: u64 = 50;

/// `amount * rate / 10000`, the product saturating at `u64::MAX`.
pub open spec fn fee_at_rate(amount: int, rate: int) -> int {
    bps_of(amount, rate)
}

/// The fee on `amount` at `rate` basis points, the product saturating.
fn fee_at(amount: u64, rate: u64) -> (r: u64)
    ensures
        r == fee_at_rate(amount as int, rate as int),
{
    apply_bps(amount, rate)
}

/// Result of fee calculation.
pub struct FeeResult {
    pub total_fee: u64,
    pub launchpad_portion_fee: u64,
    pub excess_portion_fee: u64,
}

/// The fee tiers:
/// - launchpad investor with a recorded purchase, amount within it: the
///   launchpad rate on the amount;
/// - launchpad investor, amount above the purchase: the launchpad rate on the
///   purchase plus the standard rate on the excess;
/// - everyone else: the standard rate on the amount.
pub open spec fn fee_spec(amount: int, is_launchpad_investor: bool, original_purchase: int) -> (
    int,
    int,
    int,
) {
    if is_launchpad_investor && original_purchase > 0 {
        if amount <= original_purchase {
            let fee = fee_at_rate(amount, LAUNCHPAD_FEE_BPS as int);
            (fee, fee, 0)
        } else {
            let launchpad_fee = fee_at_rate(original_purchase, LAUNCHPAD_FEE_BPS as int);
            let excess_fee = fee_at_rate(amount - original_purchase, STANDARD_FEE_BPS as int);
            (sat_u64(launchpad_fee + excess_fee), launchpad_fee, excess_fee)
        }
    } else {
        let fee = fee_at_rate(amount, STANDARD_FEE_BPS as int);
        (fee, 0, fee)
    }
}

/// Calculate fee based on holder tier.
///
/// - Launchpad investor (whitelisted):
///     amount <= original_purchase: fee = amount x 0.1%
///     amount > original_purchase: fee = (original x 0.1%) + (excess x 0.5%)
/// - Standard trader / non-whitelisted: fee = amount x 0.5% (always)
///
/// All fees go 100% to the protocol treasury.
pub fn calculate_fee(amount: u64, is_launchpad_investor: bool, original_purchase: u64) -> (r: FeeResult)
    ensures
        (r.total_fee as int, r.launchpad_portion_fee as int, r.excess_portion_fee as int)
            == fee_spec(amount as int, is_launchpad_investor, original_purchase as int),
        r.total_fee == r.launchpad_portion_fee + r.excess_portion_fee,
        r.total_fee <= amount,
{
    if is_launchpad_investor && original_purchase > 0 {
        if amount <= original_purchase {
            let fee = fee_at(amount, LAUNCHPAD_FEE_BPS);
            FeeResult { total_fee: fee, launchpad_portion_fee: fee, excess_portion_fee: 0 }
        } else {
            let launchpad_fee = fee_at(original_purchase, LAUNCHPAD_FEE_BPS);
            let excess = amount - original_purchase;
            let excess_fee = fee_at(excess, STANDARD_FEE_BPS);
            let total = launchpad_fee.saturating_add(excess_fee);
            FeeResult {
                total_fee: total,
                launchpad_portion_fee: launchpad_fee,
                excess_portion_fee: excess_fee,
            }
        }
    } else {
        let fee = fee_at(amount, STANDARD_FEE_BPS);
        FeeResult { total_fee: fee, launchpad_portion_fee: 0, excess_portion_fee: fee }
    }
}

/// The pool types eligible for investment: all three kinds that a
/// `MorphoPoolType` can name.
pub open spec fn eligible_pool_type(pool_type: MorphoPoolType) -> bool {
    match pool_type {
        MorphoPoolType::StablecoinIsolatedVault => true,
        MorphoPoolType::FixedAssetCollateralTier => true,
        MorphoPoolType::CashEquivalentBacked => true,
    }
}

/// Validate that a pool type meets investment criteria.
pub fn is_eligible_pool_type(pool_type: &MorphoPoolType) -> (r: bool)
    ensures
        r == eligible_pool_type(*pool_type),
        r,
{
    match pool_type {
        MorphoPoolType::StablecoinIsolatedVault => true,
        MorphoPoolType::FixedAssetCollateralTier => true,
        MorphoPoolType::CashEquivalentBacked => true,
    }
}

/// Calculate how much USDC should be invested based on the investment ratio.
pub fn calculate_investment_amount(total_liquid_usdc: u64, investment_ratio_bps: u64) -> (r: u64)
    ensures
        r == bps_of(total_liquid_usdc as int, investment_ratio_bps as int),
{
    apply_bps(total_liquid_usdc, investment_ratio_bps)
}

/// Simple-interest yield `invested * apy * seconds / (10000 * SECONDS_PER_YEAR)`,
/// the products saturating at `u128::MAX` and the result capped at `u64::MAX`;
/// zero when nothing is invested or no time passed.
pub open spec fn morpho_yield(invested_usdc: int, pool_apy_bps: int, seconds_elapsed: int) -> int {
    if invested_usdc == 0 || seconds_elapsed == 0 {
        0
    } else {
        sat_u64(
            sat_u128(sat_u128(invested_usdc * pool_apy_bps) * seconds_elapsed)
                / annual_bps_divisor(),
        )
    }
}

/// Calculate Morpho yield earned over a period, using the pool's reported APY.
pub fn calculate_morpho_yield(invested_usdc: u64, pool_apy_bps: u64, seconds_elapsed: u64) -> (r: u64)
    ensures
        r == morpho_yield(invested_usdc as int, pool_apy_bps as int, seconds_elapsed as int),
{
    if invested_usdc == 0 || seconds_elapsed == 0 {
        return 0;
    }
    let yield_amount = saturating_mul_u128(
        saturating_mul_u128(invested_usdc as u128, pool_apy_bps as u128),
        seconds_elapsed as u128,
    ) / (10_000u128 * (SECONDS_PER_YEAR as u128));
    if yield_amount > u64::MAX as u128 {
        u64::MAX
    } else {
        yield_amount as u64
    }
}

proof fn lemma_floor_sum(x: int, y: int, k: int)
    requires
        0 <= x,
        0 <= y,
        0 < k,
    ensures
        x / k + y / k <= (x + y) / k,
{
    lemma_fundamental_div_mod(x, k);
    lemma_fundamental_div_mod(y, k);
    lemma_fundamental_div_mod(x + y, k);
    assert(k * (x / k + y / k) <= x + y) by (nonlinear_arith)
        requires
            x == k * (x / k) + x % k,
            y == k * (y / k) + y % k,
            0 <= x % k,
            0 <= y % k,
    ;
    assert(x / k + y / k <= (x + y) / k) by (nonlinear_arith)
        requires
            k * (x / k + y / k) <= x + y,
            x + y == k * ((x + y) / k) + (x + y) % k,
            (x + y) % k < k,
            0 < k,
    ;
}

/// A launchpad investor never pays more than a standard trader on the same
/// amount (where `amount * STANDARD_FEE_BPS` does not saturate).
pub proof fn lemma_launchpad_fee_never_exceeds_standard(amount: u64, original_purchase: u64)
    requires
        amount * STANDARD_FEE_BPS <= u64::MAX,
    ensures
        fee_spec(amount as int, true, original_purchase as int).0 <= fee_spec(
            amount as int,
            false,
            original_purchase as int,
        ).0,
{
    let a = amount as int;
    let o = original_purchase as int;
    if o > 0 {
        if a <= o {
            lemma_div_is_ordered(a * 10, a * 50, 10_000);
        } else {
            lemma_mul_inequality(o, a, 50);
            lemma_div_is_ordered(o * 10, o * 50, 10_000);
            lemma_mul_inequality(a - o, a, 50);
            lemma_floor_sum(o * 50, (a - o) * 50, 10_000);
            assert(o * 50 + (a - o) * 50 == a * 50) by (nonlinear_arith);
        }
    }
}

/// The index grows with time: accruing for longer never gives a smaller index.
pub proof fn lemma_accrual_monotone_in_time(current_index: u128, apy_bps: u64, earlier: int, later: int)
    requires
        earlier <= later,
    ensures
        accrued_index(current_index as int, apy_bps as int, earlier) <= accrued_index(
            current_index as int,
            apy_bps as int,
            later,
        ),
{
    let p = sat_u128(current_index * apy_bps);
    assert(0 <= current_index * apy_bps) by (nonlinear_arith);
    if earlier > 0 {
        lemma_mul_inequality(earlier, later, p);
        assert(p * earlier == earlier * p && p * later == later * p) by (nonlinear_arith);
        lemma_div_is_ordered(sat_u128(p * earlier), sat_u128(p * later), annual_bps_divisor());
    } else if later > 0 {
        assert(0 <= p * later) by (nonlinear_arith)
            requires
                0 <= p,
                0 < later,
        ;
        vstd::arithmetic::div_mod::lemma_div_pos_is_pos(sat_u128(p * later), annual_bps_divisor());
    }
}

/// The yield owed to a holder grows with the index.
pub proof fn lemma_holder_yield_monotone_in_index(
    lower_index: u128,
    higher_index: u128,
    holder_snapshot: u128,
    token_balance: u64,
)
    requires
        lower_index <= higher_index,
    ensures
        holder_yield(lower_index as int, holder_snapshot as int, token_balance as int) <= holder_yield(
            higher_index as int,
            holder_snapshot as int,
            token_balance as int,
        ),
{
    let b = token_balance as int;
    if lower_index > holder_snapshot && token_balance != 0 {
        lemma_mul_inequality(
            lower_index - holder_snapshot,
            higher_index - holder_snapshot,
            b,
        );
        lemma_div_is_ordered(
            sat_u128((lower_index - holder_snapshot) * b),
            sat_u128((higher_index - holder_snapshot) * b),
            YIELD_INDEX_PRECISION as int,
        );
    }
}

/// The fee tiers in basis points of 10000: wherever the products stay
/// within `u64`, a standard trader pays `amount * 50 / 10000` (0.5%); a
/// launchpad investor with a recorded purchase pays `amount * 10 / 10000`
/// (0.1%) within that purchase, and beyond it 0.1% of the purchase plus 0.5%
/// of the excess, each part rounded down on its own.
pub proof fn lemma_fee_tiers(amount: u64, original_purchase: u64)
    requires
        amount * 50 <= u64::MAX,
    ensures
        fee_spec(amount as int, false, original_purchase as int) == (
            amount * 50 / 10_000,
            0int,
            amount * 50 / 10_000,
        ),
        original_purchase == 0 ==> fee_spec(amount as int, true, original_purchase as int)
            == fee_spec(amount as int, false, original_purchase as int),
        0 < original_purchase && amount <= original_purchase ==> fee_spec(
            amount as int,
            true,
            original_purchase as int,
        ) == (amount * 10 / 10_000, amount * 10 / 10_000, 0int),
        0 < original_purchase < amount ==> fee_spec(amount as int, true, original_purchase as int)
            == (
            original_purchase * 10 / 10_000 + (amount - original_purchase) * 50 / 10_000,
            original_purchase * 10 / 10_000,
            (amount - original_purchase) * 50 / 10_000,
        ),
{
    let a = amount as int;
    let o = original_purchase as int;
    if 0 < o < a {
        lemma_mul_inequality(o, a, 50);
        lemma_mul_inequality(a - o, a, 50);
        lemma_floor_sum(o * 10, (a - o) * 50, 10_000);
        assert(o * 10 <= o * 50);
        assert((o * 10 + (a - o) * 50) <= a * 50) by (nonlinear_arith)
            requires
                0 < o < a,
        ;
        lemma_div_is_ordered(o * 10 + (a - o) * 50, a * 50, 10_000);
    }
}

/// A year of accrual at `apy_bps` grows the index by exactly `apy_bps / 10000`
/// of itself (rounded down), wherever the products stay within `u128`.
pub proof fn lemma_index_grows_by_the_rate_in_a_year(current_index: u128, apy_bps: u64)
    requires
        current_index * apy_bps * SECONDS_PER_YEAR <= u128::MAX,
        current_index + current_index * apy_bps / 10_000 <= u128::MAX,
    ensures
        accrued_index(current_index as int, apy_bps as int, SECONDS_PER_YEAR as int) == current_index
            + current_index * apy_bps / 10_000,
{
    let x = current_index * apy_bps;
    assert(0 <= x) by (nonlinear_arith)
        requires
            x == current_index * apy_bps,
            current_index >= 0,
            apy_bps >= 0,
    ;
    assert(x * SECONDS_PER_YEAR == current_index * apy_bps * SECONDS_PER_YEAR) by (nonlinear_arith)
        requires
            x == current_index * apy_bps,
    ;
    assert(x <= x * SECONDS_PER_YEAR) by (nonlinear_arith)
        requires
            0 <= x,
    ;
    vstd::arithmetic::div_mod::lemma_div_denominator(x * SECONDS_PER_YEAR, SECONDS_PER_YEAR as int, 10_000);
    assert(SECONDS_PER_YEAR * 10_000 == annual_bps_divisor());
    vstd::arithmetic::div_mod::lemma_div_multiples_vanish(x, SECONDS_PER_YEAR as int);
    assert(SECONDS_PER_YEAR * x == x * SECONDS_PER_YEAR) by (nonlinear_arith);
}

/// A holder earns their balance times the index's growth: when the index has
/// grown by exactly 1.0 (`YIELD_INDEX_PRECISION`) since the holder's snapshot,
/// the holder is owed exactly their token balance.
pub proof fn lemma_index_growth_of_one_pays_the_balance(snapshot: u128, token_balance: u64)
    requires
        snapshot + YIELD_INDEX_PRECISION <= u128::MAX,
    ensures
        holder_yield(snapshot + YIELD_INDEX_PRECISION, snapshot as int, token_balance as int)
            == token_balance,
{
    let b = token_balance as int;
    assert(YIELD_INDEX_PRECISION * b <= u128::MAX) by (nonlinear_arith)
        requires
            0 <= b <= u64::MAX,
    ;
    vstd::arithmetic::div_mod::lemma_div_multiples_vanish(b, YIELD_INDEX_PRECISION as int);
}

} // verus!
