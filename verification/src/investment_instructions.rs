//! Instructions of the two yield strategies (USDC to sUSDS via Sky, USDT to
//! sUSDe via Ethena), as transitions over the pool and position accounts.
//! A position moves Inactive -> PendingExecution (invest) -> Active (keeper
//! confirms) -> PendingWithdrawal (withdraw) -> PendingExecution (invest again).

use vstd::prelude::*;
use crate::errors::EcosystemError;
use crate::math::sat_u64;
use crate::state::{keys_equal, same_key, EthenaPosition, PoolState, Pubkey, SkyPosition};
use crate::yield_strategy::{
    invest_share, keeper_report_verdict, split_investment, validate_keeper_report,
    StrategyStatus, YieldStrategyError, ETHENA_BASE_APY_BPS, INVESTMENT_BPS, SKY_BASE_APY_BPS,
};

verus! {

/// Errors of the strategy instructions, which refuse with errors of both kinds.
#[derive(Clone, Copy, Debug, PartialEq, Eq, Structural)]
pub enum InvestmentError {
    Ecosystem(EcosystemError),
    Strategy(YieldStrategyError),
}

/// A strategy position that may take a new investment.
pub open spec fn may_invest(status: StrategyStatus) -> bool {
    status == StrategyStatus::Inactive || status == StrategyStatus::PendingWithdrawal
}

/// The result of investing a pool of `total` with `liquid` liquid: refused
/// while a position is live, when nothing is liquid, when `total * 8000`
/// overflows, or when the 80% share is zero; otherwise the 80/20 split.
pub open spec fn strategy_invest_split(status: StrategyStatus, total: u64, liquid: u64) -> Result<
    (u64, u64),
    InvestmentError,
> {
    if !may_invest(status) {
        Err(InvestmentError::Strategy(YieldStrategyError::InvestmentAlreadyActive))
    } else if liquid == 0 {
        Err(InvestmentError::Ecosystem(EcosystemError::InsufficientTreasury))
    } else if total * INVESTMENT_BPS > u64::MAX {
        Err(InvestmentError::Strategy(YieldStrategyError::MathOverflow))
    } else if invest_share(total as int) == 0 {
        Err(InvestmentError::Ecosystem(EcosystemError::InvalidInvestmentAmount))
    } else {
        Ok((invest_share(total as int) as u64, (total - invest_share(total as int)) as u64))
    }
}

fn invest_split(status: StrategyStatus, total: u64, liquid: u64) -> (r: Result<(u64, u64), InvestmentError>)
    ensures
        r == strategy_invest_split(status, total, liquid),
{
    if !(status == StrategyStatus::Inactive || status == StrategyStatus::PendingWithdrawal) {
        return Err(InvestmentError::Strategy(YieldStrategyError::InvestmentAlreadyActive));
    }
    if liquid == 0 {
        return Err(InvestmentError::Ecosystem(EcosystemError::InsufficientTreasury));
    }
    let (invest_amount, liquid_amount) = match split_investment(total) {
        Ok(split) => split,
        Err(e) => return Err(InvestmentError::Strategy(e)),
    };
    if invest_amount == 0 {
        return Err(InvestmentError::Ecosystem(EcosystemError::InvalidInvestmentAmount));
    }
    Ok((invest_amount, liquid_amount))
}

/// The result of a keeper's yield report on a position: refused unless the
/// position is active and the report is not from the future.
pub open spec fn yield_report_check(status: StrategyStatus, report_ts: i64, now: i64) -> Result<
    (),
    YieldStrategyError,
> {
    if status != StrategyStatus::Active {
        Err(YieldStrategyError::InvalidStrategyStatus)
    } else if report_ts > now {
        Err(YieldStrategyError::InvalidTimestamp)
    } else {
        Ok(())
    }
}

/// The result of a keeper instruction signed by `signer` on a position owned
/// by `authority`: refused as unauthorized unless the signer is the position's
/// (the protocol's) authority; otherwise the result of the instruction's own
/// check.
pub open spec fn keeper_outcome(
    authority: Pubkey,
    signer: Pubkey,
    check: Result<(), YieldStrategyError>,
) -> Result<(), InvestmentError> {
    if !same_key(authority, signer) {
        Err(InvestmentError::Ecosystem(EcosystemError::Unauthorized))
    } else {
        match check {
            Ok(()) => Ok(()),
            Err(e) => Err(InvestmentError::Strategy(e)),
        }
    }
}

/// The check of a withdrawal: only an active position can be withdrawn.
pub open spec fn withdraw_check(status: StrategyStatus) -> Result<(), YieldStrategyError> {
    if status == StrategyStatus::Active {
        Ok(())
    } else {
        Err(YieldStrategyError::InvalidStrategyStatus)
    }
}

// ---------------------------------------------------------------------------
// Strategy 1: USDC -> USDS -> sUSDS (Sky Protocol)
// ---------------------------------------------------------------------------

/// The Sky position as first set up: empty, at the base rate, inactive.
pub open spec fn new_sky_position(authority: Pubkey, now: i64, bump: u8) -> SkyPosition {
    SkyPosition {
        authority,
        usdc_deposited: 0,
        susds_balance: 0,
        total_yield_earned: 0,
        current_apy_bps: SKY_BASE_APY_BPS,
        last_update_ts: now,
        status: StrategyStatus::Inactive,
        bump,
    }
}

/// Initialize the Sky Protocol position account.
pub fn initialize_sky_position(authority: Pubkey, now: i64, position_bump: u8) -> (r: SkyPosition)
    ensures
        r == new_sky_position(authority, now, position_bump),
{
    SkyPosition {
        authority,
        usdc_deposited: 0,
        susds_balance: 0,
        total_yield_earned: 0,
        current_apy_bps: SKY_BASE_APY_BPS,
        last_update_ts: now,
        status: StrategyStatus::Inactive,
        bump: position_bump,
    }
}

/// Route 80% of the USDC pool into sUSDS; 20% stays liquid. The pool's
/// liquid and invested USDC become the split of its total (which add up to
/// it), and the position records the invested amount and awaits the keeper.
pub fn invest_usdc_to_susds(pool: &mut PoolState, position: &mut SkyPosition, now: i64) -> (r: Result<
    (),
    InvestmentError,
>)
    ensures
        match strategy_invest_split(old(position).status, old(pool).total_usdc, old(pool).liquid_usdc) {
            Ok((invest, liquid)) => {
                &&& r is Ok
                &&& *final(pool) == (PoolState {
                    liquid_usdc: liquid,
                    invested_usdc: invest,
                    last_update_ts: now,
                    ..*old(pool)
                })
                &&& *final(position) == (SkyPosition {
                    usdc_deposited: invest,
                    status: StrategyStatus::PendingExecution,
                    last_update_ts: now,
                    ..*old(position)
                })
                &&& final(pool).liquid_usdc + final(pool).invested_usdc == old(pool).total_usdc
            },
            Err(e) => {
                &&& r == Err::<(), InvestmentError>(e)
                &&& *final(pool) == *old(pool)
                &&& *final(position) == *old(position)
            },
        },
{
    let (invest_amount, liquid_amount) = match invest_split(
        position.status,
        pool.total_usdc,
        pool.liquid_usdc,
    ) {
        Ok(split) => split,
        Err(e) => return Err(e),
    };
    pool.liquid_usdc = liquid_amount;
    pool.invested_usdc = invest_amount;
    pool.last_update_ts = now;
    position.usdc_deposited = invest_amount;
    position.status = StrategyStatus::PendingExecution;
    position.last_update_ts = pool.last_update_ts;
    Ok(())
}

/// Keeper confirms the sUSDS position is live and reports its balance: only
/// the protocol authority may report, and the report must pass
/// `validate_keeper_report` against the deposit while the position awaits
/// execution; the position becomes active with that balance.
pub fn confirm_sky_investment(
    position: &mut SkyPosition,
    signer: &Pubkey,
    susds_balance: u64,
    report_ts: i64,
    now: i64,
) -> (r: Result<(), InvestmentError>)
    ensures
        r == keeper_outcome(
            old(position).authority,
            *signer,
            keeper_report_verdict(
                old(position).usdc_deposited as int,
                susds_balance as int,
                StrategyStatus::PendingExecution,
                old(position).status,
                report_ts as int,
                now as int,
            ),
        ),
        r is Ok ==> *final(position) == (SkyPosition {
            susds_balance,
            status: StrategyStatus::Active,
            last_update_ts: now,
            ..*old(position)
        }),
        r is Err ==> *final(position) == *old(position),
{
    if !keys_equal(&position.authority, signer) {
        return Err(InvestmentError::Ecosystem(EcosystemError::Unauthorized));
    }
    match validate_keeper_report(
        position.usdc_deposited,
        susds_balance,
        &StrategyStatus::PendingExecution,
        &position.status,
        report_ts,
        now,
    ) {
        Ok(()) => {},
        Err(e) => return Err(InvestmentError::Strategy(e)),
    }
    position.susds_balance = susds_balance;
    position.status = StrategyStatus::Active;
    position.last_update_ts = now;
    Ok(())
}

/// Keeper reports yield on the sUSDS position (only the protocol authority
/// may report, and only on an active position): the yield is the balance's
/// increase since the last report (0 if it fell), credited (saturating) to the
/// position's total and to the pool's liquid and total USDC.
pub fn report_sky_yield(
    position: &mut SkyPosition,
    pool: &mut PoolState,
    signer: &Pubkey,
    new_susds_balance: u64,
    new_apy_bps: u64,
    report_ts: i64,
    now: i64,
) -> (r: Result<(), InvestmentError>)
    ensures
        r == keeper_outcome(
            old(position).authority,
            *signer,
            yield_report_check(old(position).status, report_ts, now),
        ),
        r is Ok ==> {
            let earned = sat_u64(new_susds_balance - old(position).susds_balance);
            &&& *final(position) == (SkyPosition {
                susds_balance: new_susds_balance,
                current_apy_bps: new_apy_bps,
                total_yield_earned: sat_u64(old(position).total_yield_earned + earned) as u64,
                last_update_ts: now,
                ..*old(position)
            })
            &&& *final(pool) == (PoolState {
                liquid_usdc: sat_u64(old(pool).liquid_usdc + earned) as u64,
                total_usdc: sat_u64(old(pool).total_usdc + earned) as u64,
                last_update_ts: now,
                ..*old(pool)
            })
        },
        r is Err ==> *final(position) == *old(position) && *final(pool) == *old(pool),
{
    if !keys_equal(&position.authority, signer) {
        return Err(InvestmentError::Ecosystem(EcosystemError::Unauthorized));
    }
    if position.status != StrategyStatus::Active {
        return Err(InvestmentError::Strategy(YieldStrategyError::InvalidStrategyStatus));
    }
    if report_ts > now {
        return Err(InvestmentError::Strategy(YieldStrategyError::InvalidTimestamp));
    }
    let yield_earned = new_susds_balance.saturating_sub(position.susds_balance);
    position.susds_balance = new_susds_balance;
    position.current_apy_bps = new_apy_bps;
    position.total_yield_earned = position.total_yield_earned.saturating_add(yield_earned);
    position.last_update_ts = now;
    pool.liquid_usdc = pool.liquid_usdc.saturating_add(yield_earned);
    pool.total_usdc = pool.total_usdc.saturating_add(yield_earned);
    pool.last_update_ts = now;
    Ok(())
}

/// Initiate withdrawal from sUSDS back to USDC: only the protocol authority
/// may, and only an active position can be withdrawn; it then awaits the
/// keeper's unwinding.
pub fn withdraw_from_susds(position: &mut SkyPosition, signer: &Pubkey) -> (r: Result<(), InvestmentError>)
    ensures
        r == keeper_outcome(old(position).authority, *signer, withdraw_check(old(position).status)),
        r is Err ==> *final(position) == *old(position),
        r is Ok ==> *final(position) == (SkyPosition {
            status: StrategyStatus::PendingWithdrawal,
            ..*old(position)
        }),
{
    if !keys_equal(&position.authority, signer) {
        return Err(InvestmentError::Ecosystem(EcosystemError::Unauthorized));
    }
    if position.status != StrategyStatus::Active {
        return Err(InvestmentError::Strategy(YieldStrategyError::InvalidStrategyStatus));
    }
    position.status = StrategyStatus::PendingWithdrawal;
    Ok(())
}

// ---------------------------------------------------------------------------
// Strategy 2: USDT -> USDe -> sUSDe (Ethena via Meteora)
// ---------------------------------------------------------------------------

/// The Ethena position as first set up: empty, at the base rate, inactive.
pub open spec fn new_ethena_position(authority: Pubkey, now: i64, bump: u8) -> EthenaPosition {
    EthenaPosition {
        authority,
        usdt_deposited: 0,
        susde_balance: 0,
        total_yield_earned: 0,
        current_apy_bps: ETHENA_BASE_APY_BPS,
        last_update_ts: now,
        status: StrategyStatus::Inactive,
        bump,
    }
}

/// Initialize the Ethena position account.
pub fn initialize_ethena_position(authority: Pubkey, now: i64, position_bump: u8) -> (r: EthenaPosition)
    ensures
        r == new_ethena_position(authority, now, position_bump),
{
    EthenaPosition {
        authority,
        usdt_deposited: 0,
        susde_balance: 0,
        total_yield_earned: 0,
        current_apy_bps: ETHENA_BASE_APY_BPS,
        last_update_ts: now,
        status: StrategyStatus::Inactive,
        bump: position_bump,
    }
}

/// Route 80% of the USDT pool into sUSDe; 20% stays liquid.
pub fn invest_usdt_to_susde(pool: &mut PoolState, position: &mut EthenaPosition, now: i64) -> (r: Result<
    (),
    InvestmentError,
>)
    ensures
        match strategy_invest_split(old(position).status, old(pool).total_usdt, old(pool).liquid_usdt) {
            Ok((invest, liquid)) => {
                &&& r is Ok
                &&& *final(pool) == (PoolState {
                    liquid_usdt: liquid,
                    invested_usdt: invest,
                    last_update_ts: now,
                    ..*old(pool)
                })
                &&& *final(position) == (EthenaPosition {
                    usdt_deposited: invest,
                    status: StrategyStatus::PendingExecution,
                    last_update_ts: now,
                    ..*old(position)
                })
                &&& final(pool).liquid_usdt + final(pool).invested_usdt == old(pool).total_usdt
            },
            Err(e) => {
                &&& r == Err::<(), InvestmentError>(e)
                &&& *final(pool) == *old(pool)
                &&& *final(position) == *old(position)
            },
        },
{
    let (invest_amount, liquid_amount) = match invest_split(
        position.status,
        pool.total_usdt,
        pool.liquid_usdt,
    ) {
        Ok(split) => split,
        Err(e) => return Err(e),
    };
    pool.liquid_usdt = liquid_amount;
    pool.invested_usdt = invest_amount;
    pool.last_update_ts = now;
    position.usdt_deposited = invest_amount;
    position.status = StrategyStatus::PendingExecution;
    position.last_update_ts = pool.last_update_ts;
    Ok(())
}

/// Keeper confirms the sUSDe position is live (only the protocol authority
/// may report).
pub fn confirm_ethena_investment(
    position: &mut EthenaPosition,
    signer: &Pubkey,
    susde_balance: u64,
    report_ts: i64,
    now: i64,
) -> (r: Result<(), InvestmentError>)
    ensures
        r == keeper_outcome(
            old(position).authority,
            *signer,
            keeper_report_verdict(
                old(position).usdt_deposited as int,
                susde_balance as int,
                StrategyStatus::PendingExecution,
                old(position).status,
                report_ts as int,
                now as int,
            ),
        ),
        r is Ok ==> *final(position) == (EthenaPosition {
            susde_balance,
            status: StrategyStatus::Active,
            last_update_ts: now,
            ..*old(position)
        }),
        r is Err ==> *final(position) == *old(position),
{
    if !keys_equal(&position.authority, signer) {
        return Err(InvestmentError::Ecosystem(EcosystemError::Unauthorized));
    }
    match validate_keeper_report(
        position.usdt_deposited,
        susde_balance,
        &StrategyStatus::PendingExecution,
        &position.status,
        report_ts,
        now,
    ) {
        Ok(()) => {},
        Err(e) => return Err(InvestmentError::Strategy(e)),
    }
    position.susde_balance = susde_balance;
    position.status = StrategyStatus::Active;
    position.last_update_ts = now;
    Ok(())
}

/// Keeper reports yield on the sUSDe position (Ethena APY is variable; only
/// the protocol authority may report).
pub fn report_ethena_yield(
    position: &mut EthenaPosition,
    pool: &mut PoolState,
    signer: &Pubkey,
    new_susde_balance: u64,
    new_apy_bps: u64,
    report_ts: i64,
    now: i64,
) -> (r: Result<(), InvestmentError>)
    ensures
        r == keeper_outcome(
            old(position).authority,
            *signer,
            yield_report_check(old(position).status, report_ts, now),
        ),
        r is Ok ==> {
            let earned = sat_u64(new_susde_balance - old(position).susde_balance);
            &&& *final(position) == (EthenaPosition {
                susde_balance: new_susde_balance,
                current_apy_bps: new_apy_bps,
                total_yield_earned: sat_u64(old(position).total_yield_earned + earned) as u64,
                last_update_ts: now,
                ..*old(position)
            })
            &&& *final(pool) == (PoolState {
                liquid_usdt: sat_u64(old(pool).liquid_usdt + earned) as u64,
                total_usdt: sat_u64(old(pool).total_usdt + earned) as u64,
                last_update_ts: now,
                ..*old(pool)
            })
        },
        r is Err ==> *final(position) == *old(position) && *final(pool) == *old(pool),
{
    if !keys_equal(&position.authority, signer) {
        return Err(InvestmentError::Ecosystem(EcosystemError::Unauthorized));
    }
    if position.status != StrategyStatus::Active {
        return Err(InvestmentError::Strategy(YieldStrategyError::InvalidStrategyStatus));
    }
    if report_ts > now {
        return Err(InvestmentError::Strategy(YieldStrategyError::InvalidTimestamp));
    }
    let yield_earned = new_susde_balance.saturating_sub(position.susde_balance);
    position.susde_balance = new_susde_balance;
    position.current_apy_bps = new_apy_bps;
    position.total_yield_earned = position.total_yield_earned.saturating_add(yield_earned);
    position.last_update_ts = now;
    pool.liquid_usdt = pool.liquid_usdt.saturating_add(yield_earned);
    pool.total_usdt = pool.total_usdt.saturating_add(yield_earned);
    pool.last_update_ts = now;
    Ok(())
}

/// Initiate withdrawal from sUSDe back to USDT (only the protocol authority
/// may, and only on an active position).
pub fn withdraw_from_susde(position: &mut EthenaPosition, signer: &Pubkey) -> (r: Result<(), InvestmentError>)
    ensures
        r == keeper_outcome(old(position).authority, *signer, withdraw_check(old(position).status)),
        r is Err ==> *final(position) == *old(position),
        r is Ok ==> *final(position) == (EthenaPosition {
            status: StrategyStatus::PendingWithdrawal,
            ..*old(position)
        }),
{
    if !keys_equal(&position.authority, signer) {
        return Err(InvestmentError::Ecosystem(EcosystemError::Unauthorized));
    }
    if position.status != StrategyStatus::Active {
        return Err(InvestmentError::Strategy(YieldStrategyError::InvalidStrategyStatus));
    }
    position.status = StrategyStatus::PendingWithdrawal;
    Ok(())
}

/// A strategy investment is refused while a position is pending or active;
/// otherwise, when the pool has liquid funds and 80% of it is nonzero (and
/// `total * 8000` fits `u64`), it invests 80% of the pool (rounded down) and
/// keeps the rest liquid, the two adding up to the pool.
pub proof fn lemma_strategy_invests_eighty_percent(status: StrategyStatus, total: u64, liquid: u64)
    ensures
        (status == StrategyStatus::PendingExecution || status == StrategyStatus::Active)
            ==> strategy_invest_split(status, total, liquid) == Err::<(u64, u64), InvestmentError>(
            InvestmentError::Strategy(YieldStrategyError::InvestmentAlreadyActive),
        ),
        strategy_invest_split(status, total, liquid) matches Ok((invest, kept)) ==> {
            &&& invest + kept == total
            &&& invest == total * 8_000 / 10_000
            &&& invest > 0
            &&& liquid > 0
        },
        ((status == StrategyStatus::Inactive || status == StrategyStatus::PendingWithdrawal)
            && liquid > 0 && total * 8_000 <= u64::MAX && total * 8_000 / 10_000 > 0)
            ==> strategy_invest_split(status, total, liquid) is Ok,
{
}

/// Only the position's authority may act as keeper: every keeper instruction
/// signed by anyone else is refused as unauthorized, whatever its own check
/// says, and one signed by the authority gives its own check's result.
pub proof fn lemma_keeper_must_be_the_authority(
    authority: Pubkey,
    signer: Pubkey,
    check: Result<(), YieldStrategyError>,
)
    ensures
        !same_key(authority, signer) ==> keeper_outcome(authority, signer, check) == Err::<
            (),
            InvestmentError,
        >(InvestmentError::Ecosystem(EcosystemError::Unauthorized)),
        same_key(authority, signer) ==> (keeper_outcome(authority, signer, check) is Ok <==> check is Ok),
        same_key(authority, signer) && check is Err ==> keeper_outcome(authority, signer, check)
            == Err::<(), InvestmentError>(InvestmentError::Strategy(check->Err_0)),
{
}

} // verus!
