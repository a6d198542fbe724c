//! Real-world-asset (RUSDY) module: the business-hours unstaking clock
//! (weekends excluded), RWA yield, and the amounts routed to or redeemed
//! from the RWA position.

use vstd::prelude::*;
use vstd::arithmetic::div_mod::{
    lemma_fundamental_div_mod, lemma_fundamental_div_mod_converse, lemma_mod_add_multiples_vanish,
};
use crate::errors::EcosystemError;

verus! {

/// RUSDY token mint on Solana mainnet (to be replaced by the real mint before deploy).
pub const RUSDY_MINT: &'static str = "RuSDyTokenMintAddress1111111111111111111111";

/// Simulated RUSDY annual yield (~5% APY for RWA tokens), in basis points.
pub const RUSDY_APY_BPS: u64 = 500;

/// 48 business hours in seconds (2 days x 24 hours x 3600 seconds).
pub const UNSTAKE_BUSINESS_SECONDS: i64 = 172_800;

/// Seconds in a day.
pub const SECONDS_PER_DAY: i64 = 86_400;

const SUNDAY: i64 = 0;

const SATURDAY: i64 = 6;

/// Day of the week of a timestamp (0 = Sunday, ..., 6 = Saturday): the day
/// it falls in counted from the epoch (rounding down, so 31 Dec 1969 is day
/// -1), where 1 Jan 1970 was a Thursday.
pub open spec fn weekday(ts: int) -> int {
    (ts / 86_400 + 4) % 7
}

/// A timestamp that falls on a Saturday or a Sunday.
pub open spec fn weekend(ts: int) -> bool {
    weekday(ts) == 0 || weekday(ts) == 6
}

/// Returns the day of week for a given Unix timestamp:
/// 0 = Sunday, 1 = Monday, ..., 5 = Friday, 6 = Saturday.
pub fn day_of_week(ts: i64) -> (r: i64)
    ensures
        r == weekday(ts as int),
        0 <= r < 7,
{
    let days_since_epoch = ts.checked_div_euclid(86_400).unwrap();
    (days_since_epoch + 4).checked_rem_euclid(7).unwrap()
}

/// Returns true if the given timestamp falls on a weekend.
pub fn is_weekend(ts: i64) -> (r: bool)
    ensures
        r == weekend(ts as int),
{
    let dow = day_of_week(ts);
    dow == SUNDAY || dow == SATURDAY
}

/// Where the stretch of time that the clock counts in one step from `cursor`
/// ends: the end of `cursor`'s day (`cursor + 86400 - cursor mod 86400`), or
/// `now` if that comes first.
pub open spec fn chunk_end(cursor: int, now: int) -> int {
    let day_end = cursor + 86_400 - cursor % 86_400;
    if day_end < now {
        day_end
    } else {
        now
    }
}

/// Business seconds from `cursor` to `now` as the unstaking clock counts
/// them: time is taken in steps that end at `chunk_end`, and a step counts in
/// full when its first second is not on a weekend, and not at all otherwise.
pub open spec fn business_seconds(cursor: int, now: int) -> int
    decreases now - cursor,
{
    if cursor >= now {
        0
    } else {
        let next = chunk_end(cursor, now);
        if next <= cursor {
            0
        } else {
            (if weekend(cursor) {
                0int
            } else {
                next - cursor
            }) + business_seconds(next, now)
        }
    }
}

/// The number of seconds `t` with `start <= t < now` that do not fall on a weekend.
pub open spec fn weekday_second_count(start: int, now: int) -> int
    decreases now - start,
{
    if now <= start {
        0
    } else {
        weekday_second_count(start, now - 1) + (if weekend(now - 1) {
            0int
        } else {
            1int
        })
    }
}

proof fn lemma_chunk_advances(cursor: int, now: int)
    requires
        cursor < now,
    ensures
        cursor < chunk_end(cursor, now) <= now,
{
    lemma_fundamental_div_mod(cursor, 86_400);
}

/// Within one chunk every second has the cursor's day.
proof fn lemma_chunk_same_day(cursor: int, now: int, t: int)
    requires
        cursor <= t < chunk_end(cursor, now),
    ensures
        weekend(t) == weekend(cursor),
{
    lemma_fundamental_div_mod(cursor, 86_400);
    let q = cursor / 86_400;
    let r = cursor % 86_400;
    lemma_fundamental_div_mod_converse(t, 86_400, q, r + (t - cursor));
}

/// Counting is additive over adjacent intervals.
proof fn lemma_count_split(start: int, mid: int, end: int)
    requires
        start <= mid <= end,
    ensures
        weekday_second_count(start, end) == weekday_second_count(start, mid)
            + weekday_second_count(mid, end),
    decreases end - mid,
{
    if end > mid {
        lemma_count_split(start, mid, end - 1);
    }
}

/// On an interval where every second has the same weekend status the count
/// is all of it or none of it.
proof fn lemma_count_uniform(cursor: int, end: int, now: int)
    requires
        cursor <= end <= chunk_end(cursor, now),
    ensures
        weekday_second_count(cursor, end) == if weekend(cursor) {
            0
        } else {
            end - cursor
        },
    decreases end - cursor,
{
    if end > cursor {
        lemma_count_uniform(cursor, end - 1, now);
        lemma_chunk_same_day(cursor, now, end - 1);
    }
}

/// The unstaking clock counts exactly the weekday seconds: the business
/// seconds from `cursor` to `now` are the number of seconds `t` with
/// `cursor <= t < now` that do not fall on a Saturday or a Sunday.
pub proof fn lemma_business_seconds_counts(cursor: int, now: int)
    ensures
        business_seconds(cursor, now) == weekday_second_count(cursor, now),
    decreases now - cursor,
{
    if cursor < now {
        lemma_chunk_advances(cursor, now);
        let next = chunk_end(cursor, now);
        lemma_business_seconds_counts(next, now);
        lemma_count_split(cursor, next, now);
        lemma_count_uniform(cursor, next, now);
    }
}

/// The clock never counts more than the time that passed, nor anything when
/// no time passed.
pub proof fn lemma_business_seconds_bounds(cursor: int, now: int)
    ensures
        0 <= business_seconds(cursor, now),
        cursor <= now ==> business_seconds(cursor, now) <= now - cursor,
        now <= cursor ==> business_seconds(cursor, now) == 0,
    decreases now - cursor,
{
    if cursor < now {
        lemma_chunk_advances(cursor, now);
        lemma_business_seconds_bounds(chunk_end(cursor, now), now);
    }
}

/// Calculates how many business seconds have elapsed between start and now.
/// Weekends (Saturday and Sunday) are excluded from the count.
pub fn business_seconds_elapsed(start_ts: i64, now_ts: i64) -> (r: i64)
    requires
        now_ts - start_ts <= i64::MAX,
    ensures
        r == business_seconds(start_ts as int, now_ts as int),
        0 <= r,
        start_ts <= now_ts ==> r <= now_ts - start_ts,
        now_ts <= start_ts ==> r == 0,
        r == weekday_second_count(start_ts as int, now_ts as int),
{
    proof {
        lemma_business_seconds_bounds(start_ts as int, now_ts as int);
        lemma_business_seconds_counts(start_ts as int, now_ts as int);
    }
    if now_ts <= start_ts {
        return 0;
    }
    let mut elapsed: i64 = 0;
    let mut cursor: i64 = start_ts;
    while cursor < now_ts
        invariant
            start_ts <= cursor <= now_ts,
            now_ts - start_ts <= i64::MAX,
            0 <= elapsed <= cursor - start_ts,
            elapsed + business_seconds(cursor as int, now_ts as int) == business_seconds(
                start_ts as int,
                now_ts as int,
            ),
        decreases now_ts - cursor,
    {
        proof {
            lemma_chunk_advances(cursor as int, now_ts as int);
            lemma_fundamental_div_mod(cursor as int, 86_400);
        }
        let seconds_remaining_in_day = 86_400 - cursor.checked_rem_euclid(86_400).unwrap();
        let until_now = now_ts - cursor;
        let chunk = if seconds_remaining_in_day < until_now {
            seconds_remaining_in_day
        } else {
            until_now
        };
        if !is_weekend(cursor) {
            elapsed += chunk;
        }
        cursor += chunk;
    }
    elapsed
}

/// The unstaking clock is additive: the business seconds counted over two
/// adjacent stretches of time add up to those counted over the whole (the
/// timer resumes where it paused).
pub proof fn lemma_business_seconds_additive(start: int, mid: int, now: int)
    requires
        start <= mid <= now,
    ensures
        business_seconds(start, now) == business_seconds(start, mid) + business_seconds(mid, now),
{
    lemma_business_seconds_counts(start, now);
    lemma_business_seconds_counts(start, mid);
    lemma_business_seconds_counts(mid, now);
    lemma_count_split(start, mid, now);
}

/// Seconds in a week.
pub open spec fn week_seconds() -> int {
    604_800int
}

/// A second and the same second a week later fall on the same day of the week.
proof fn lemma_weekend_weekly(t: int)
    ensures
        weekend(t + week_seconds()) == weekend(t),
{
    lemma_fundamental_div_mod(t, 86_400);
    lemma_fundamental_div_mod_converse(t + week_seconds(), 86_400, t / 86_400 + 7, t % 86_400);
    lemma_mod_add_multiples_vanish(t / 86_400 + 4, 7);
}

/// Shifting a week-long window by one second keeps its weekday count.
proof fn lemma_week_count_shift(s: int)
    ensures
        weekday_second_count(s + 1, s + 1 + week_seconds()) == weekday_second_count(
            s,
            s + week_seconds(),
        ),
{
    lemma_count_split(s, s + 1, s + 1 + week_seconds());
    lemma_weekend_weekly(s);
    assert(weekday_second_count(s, s + 1) == weekday_second_count(s, s) + (if weekend(s) {
        0int
    } else {
        1int
    }));
}

/// Every week-long window has the weekday count of the first week after the epoch.
proof fn lemma_week_count_constant(s: int)
    ensures
        weekday_second_count(s, s + week_seconds()) == weekday_second_count(0, week_seconds()),
    decreases (if s < 0 {
        -s
    } else {
        s
    }),
{
    if s > 0 {
        lemma_week_count_constant(s - 1);
        lemma_week_count_shift(s - 1);
    } else if s < 0 {
        lemma_week_count_constant(s + 1);
        lemma_week_count_shift(s);
    }
}

/// The weekday seconds of day `d` after the epoch: all of it on a weekday,
/// none on a weekend.
proof fn lemma_day_count(d: int)
    ensures
        weekday_second_count(d * 86_400, d * 86_400 + 86_400) == if (d + 4) % 7 == 0 || (d + 4) % 7
            == 6 {
            0int
        } else {
            86_400int
        },
{
    let c = d * 86_400;
    lemma_fundamental_div_mod_converse(c, 86_400, d, 0);
    assert(chunk_end(c, c + 86_400) == c + 86_400);
    lemma_count_uniform(c, c + 86_400, c + 86_400);
}

/// The unstaking clock counts exactly five days in every week: over any
/// seven consecutive days (604800 seconds) it counts 432000 business seconds.
pub proof fn lemma_business_seconds_weekly(start: int)
    ensures
        business_seconds(start, start + 604_800) == 432_000,
{
    lemma_business_seconds_counts(start, start + 604_800);
    lemma_week_count_constant(start);
    // the first week after the epoch runs Thursday to Wednesday: days 2 and 3
    // (Saturday and Sunday) count nothing, the other five count in full
    lemma_day_count(0);
    lemma_day_count(1);
    lemma_day_count(2);
    lemma_day_count(3);
    lemma_day_count(4);
    lemma_day_count(5);
    lemma_day_count(6);
    lemma_count_split(0, 86_400, 604_800);
    lemma_count_split(86_400, 172_800, 604_800);
    lemma_count_split(172_800, 259_200, 604_800);
    lemma_count_split(259_200, 345_600, 604_800);
    lemma_count_split(345_600, 432_000, 604_800);
    lemma_count_split(432_000, 518_400, 604_800);
}

/// The state of an unstaking countdown, for display.
#[derive(Clone, Copy, Debug, PartialEq, Eq, Structural)]
pub enum UnstakeStatus {
    /// Funds are ready to be claimed.
    Ready,
    /// Countdown still running.
    Pending {
        remaining_business_seconds: i64,
        remaining_hours: i64,
        remaining_minutes: i64,
        /// Timer is currently paused because it is a weekend.
        paused_for_weekend: bool,
    },
}

/// Business seconds still to wait before an unstake requested at
/// `requested_at` can complete, at time `now` (never negative).
pub open spec fn remaining_unstake_seconds(requested_at: int, now: int) -> int {
    let remaining = UNSTAKE_BUSINESS_SECONDS - business_seconds(requested_at, now);
    if remaining < 0 {
        0
    } else {
        remaining
    }
}

/// The countdown at `now` for an unstake requested at `requested_at`: ready
/// once 48 business hours have passed, else the business time still to wait,
/// in seconds and as hours and minutes, and whether the clock is paused now.
pub open spec fn unstake_status(requested_at: int, now: int) -> UnstakeStatus {
    let remaining = remaining_unstake_seconds(requested_at, now);
    if remaining == 0 {
        UnstakeStatus::Ready
    } else {
        UnstakeStatus::Pending {
            remaining_business_seconds: remaining as i64,
            remaining_hours: (remaining / 3600) as i64,
            remaining_minutes: ((remaining % 3600) / 60) as i64,
            paused_for_weekend: weekend(now),
        }
    }
}

/// Returns the countdown for the dashboard.
pub fn unstake_status_message(requested_at: i64, now_ts: i64) -> (r: UnstakeStatus)
    requires
        now_ts - requested_at <= i64::MAX,
    ensures
        r == unstake_status(requested_at as int, now_ts as int),
{
    let elapsed = business_seconds_elapsed(requested_at, now_ts);
    let diff = UNSTAKE_BUSINESS_SECONDS - elapsed;
    let remaining = if diff > 0 {
        diff
    } else {
        0
    };
    if remaining == 0 {
        return UnstakeStatus::Ready;
    }
    let is_currently_weekend = is_weekend(now_ts);
    let remaining_hours = remaining / 3600;
    let remaining_minutes = (remaining % 3600) / 60;
    UnstakeStatus::Pending {
        remaining_business_seconds: remaining,
        remaining_hours,
        remaining_minutes,
        paused_for_weekend: is_currently_weekend,
    }
}

/// Seconds in a 365-day year, the period of the RWA yield rate.
pub const RWA_SECONDS_PER_YEAR: u128 = 31_536_000;

/// RUSDY simple-interest yield `principal * apy_bps * seconds / (10000 * year)`,
/// or `None` when the product leaves `u128` or the quotient leaves `u64`.
pub open spec fn rwa_yield(principal_usdc: int, seconds_elapsed: int) -> Option<int> {
    if principal_usdc == 0 || seconds_elapsed == 0 {
        Some(0)
    } else {
        let numerator = principal_usdc * RUSDY_APY_BPS * seconds_elapsed;
        let quotient = numerator / (10_000 * RWA_SECONDS_PER_YEAR);
        if numerator > u128::MAX || quotient > u64::MAX {
            None
        } else {
            Some(quotient)
        }
    }
}

/// Calculate RUSDY yield earned on principal over a time period, with checked
/// integer arithmetic: every multiplication before the single division.
pub fn calculate_rwa_yield(principal_usdc: u64, seconds_elapsed: u64) -> (r: Result<u64, EcosystemError>)
    ensures
        r == (match rwa_yield(principal_usdc as int, seconds_elapsed as int) {
            Some(v) => Ok::<u64, EcosystemError>(v as u64),
            None => Err(EcosystemError::MathOverflow),
        }),
{
    if principal_usdc == 0 || seconds_elapsed == 0 {
        return Ok(0);
    }
    proof {
        vstd::arithmetic::mul::lemma_mul_is_associative(
            principal_usdc as int,
            RUSDY_APY_BPS as int,
            seconds_elapsed as int,
        );
    }
    let partial = match (principal_usdc as u128).checked_mul(RUSDY_APY_BPS as u128) {
        Some(v) => v,
        None => return Err(EcosystemError::MathOverflow),
    };
    let numerator = match partial.checked_mul(seconds_elapsed as u128) {
        Some(v) => v,
        None => return Err(EcosystemError::MathOverflow),
    };
    let denominator = match 10_000u128.checked_mul(RWA_SECONDS_PER_YEAR) {
        Some(v) => v,
        None => return Err(EcosystemError::MathOverflow),
    };
    let yield_amount = numerator / denominator;
    if yield_amount > u64::MAX as u128 {
        Err(EcosystemError::MathOverflow)
    } else {
        Ok(yield_amount as u64)
    }
}

/// `balance * pct / 100`, or 0 when the product overflows `u64`.
pub open spec fn rwa_investment_amount(treasury_usdc_balance: int, investment_pct: int) -> int {
    if treasury_usdc_balance * investment_pct > u64::MAX {
        0
    } else {
        treasury_usdc_balance * investment_pct / 100
    }
}

/// USDC amount to route to the RWA position: `investment_pct` percent of the
/// treasury balance.
pub fn record_rwa_investment(treasury_usdc_balance: u64, investment_pct: u64) -> (r: u64)
    ensures
        r == rwa_investment_amount(treasury_usdc_balance as int, investment_pct as int),
{
    let product = match treasury_usdc_balance.checked_mul(investment_pct) {
        Some(v) => v,
        None => 0,
    };
    product / 100
}

/// Minimum USDC expected from redeeming `rusdy_amount` after a slippage of
/// `slippage_bps` (saturating at 100%), or 0 when the product overflows `u64`.
pub open spec fn redemption_after_slippage(rusdy_amount: int, slippage_bps: int) -> int {
    let kept_bps = if slippage_bps >= 10_000 {
        0
    } else {
        10_000 - slippage_bps
    };
    if rusdy_amount * kept_bps > u64::MAX {
        0
    } else {
        rusdy_amount * kept_bps / 10_000
    }
}

/// Validates a slippage-safe DeFi redemption: returns the minimum USDC
/// expected after the slippage tolerance.
pub fn calculate_emergency_redemption(rusdy_amount: u64, slippage_bps: u64) -> (r: u64)
    ensures
        r == redemption_after_slippage(rusdy_amount as int, slippage_bps as int),
        r <= rusdy_amount,
{
    let kept_bps = 10_000u64.saturating_sub(slippage_bps);
    let product = match rusdy_amount.checked_mul(kept_bps) {
        Some(v) => v,
        None => 0,
    };
    proof {
        if rusdy_amount * kept_bps <= u64::MAX {
            assert(rusdy_amount * kept_bps <= rusdy_amount * 10_000) by (nonlinear_arith)
                requires
                    kept_bps <= 10_000,
            ;
        }
    }
    product / 10_000
}

/// The epoch fell on a Thursday, and each day is the weekday after the one
/// before it.
pub proof fn lemma_weekday_steps_daily(ts: int)
    ensures
        weekday(0) == 4,
        weekday(ts + 86_400) == (weekday(ts) + 1) % 7,
        0 <= weekday(ts) < 7,
{
    lemma_fundamental_div_mod(ts, 86_400);
    lemma_fundamental_div_mod_converse(ts + 86_400, 86_400, ts / 86_400 + 1, ts % 86_400);
    vstd::arithmetic::div_mod::lemma_add_mod_noop(ts / 86_400 + 4, 1, 7);
}

/// A year of RUSDY yield at 5% is a twentieth of the principal (rounded down).
pub proof fn lemma_rwa_yield_for_a_year(principal_usdc: u64)
    ensures
        rwa_yield(principal_usdc as int, RWA_SECONDS_PER_YEAR as int) == Some(
            principal_usdc as int / 20,
        ),
{
    let p = principal_usdc as int;
    let y = RWA_SECONDS_PER_YEAR as int;
    if p != 0 {
        assert(p * 500 * y == (p * 500) * y);
        assert(p * 500 * y <= u128::MAX) by (nonlinear_arith)
            requires
                0 <= p <= u64::MAX,
                y == 31_536_000,
        ;
        assert(0 <= p * 500) by (nonlinear_arith)
            requires
                0 <= p,
        ;
        vstd::arithmetic::div_mod::lemma_div_denominator(p * 500 * y, y, 10_000);
        vstd::arithmetic::div_mod::lemma_div_multiples_vanish(p * 500, y);
        assert(y * (p * 500) == p * 500 * y) by (nonlinear_arith);
        assert(y * 10_000 == 10_000 * y);
        vstd::arithmetic::div_mod::lemma_div_denominator(p * 500, 500, 20);
        vstd::arithmetic::div_mod::lemma_div_multiples_vanish(p, 500);
        assert(500 * p == p * 500);
    }
}

/// Investing 100% routes the whole balance, and no percentage routes more
/// than that percentage of it.
pub proof fn lemma_rwa_investment_is_a_percentage(balance: u64, pct: u64)
    ensures
        balance * 100 <= u64::MAX ==> rwa_investment_amount(balance as int, 100) == balance,
        rwa_investment_amount(balance as int, pct as int) * 100 <= balance * pct,
{
    assert(0 <= balance * pct) by (nonlinear_arith)
        requires
            0 <= balance,
            0 <= pct,
    ;
    lemma_fundamental_div_mod(balance * pct, 100);
}

/// A redemption keeps the share of the amount that the slippage leaves: with
/// no slippage it keeps everything, and it never keeps more than
/// `amount * (10000 - slippage) / 10000`.
pub proof fn lemma_redemption_keeps_the_unslipped_share(amount: u64, slippage_bps: u64)
    ensures
        amount * 10_000 <= u64::MAX ==> redemption_after_slippage(amount as int, 0) == amount,
        slippage_bps >= 10_000 ==> redemption_after_slippage(amount as int, slippage_bps as int)
            == 0,
        slippage_bps < 10_000 ==> redemption_after_slippage(amount as int, slippage_bps as int)
            * 10_000 <= amount * (10_000 - slippage_bps),
{
    if slippage_bps < 10_000 {
        assert(0 <= amount * (10_000 - slippage_bps)) by (nonlinear_arith)
            requires
                0 <= amount,
                slippage_bps < 10_000,
        ;
        lemma_fundamental_div_mod(amount * (10_000 - slippage_bps), 10_000);
    }
    vstd::arithmetic::div_mod::lemma_div_multiples_vanish(amount as int, 10_000);
    assert(10_000 * amount == amount * 10_000);
}

} // verus!
