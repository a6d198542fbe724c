//! The program's launchpad, yield, unstaking, Morpho and admin instructions,
//! each as a transition over plain account values. Every instruction either
//! succeeds with the new account values (and, where tokens move, the amounts
//! the token program must move) or is refused with an error and leaves every
//! account as it was.

use vstd::prelude::*;
use crate::errors::EcosystemError;
use crate::math::{
    apply_bps_exact, bps_of, exact_bps_of, sat_i64, sat_u64, saturating_add_i64, saturating_sub_i64,
};
use crate::morpho::{
    accrue_yield_index, accrued_index, apy_for_holder, calculate_fee,
    calculate_holder_yield, calculate_investment_amount, eligible_pool_type, fee_spec,
    holder_apy_bps, holder_yield, is_eligible_pool_type, scale_to_holder_rate, yield_at_rate,
    CAMPAIGN_DURATION_SECONDS,
    CAMPAIGN_YIELD_BPS, INVESTMENT_RATIO_BPS, NORMAL_YIELD_BPS, YIELD_INDEX_PRECISION,
};
use crate::rwa::{
    business_seconds, business_seconds_elapsed, lemma_business_seconds_bounds,
    lemma_business_seconds_weekly, UNSTAKE_BUSINESS_SECONDS,
};
use crate::state::{
    keys_equal, same_key, HolderInfo, LaunchpadState, MorphoPool, MorphoPoolType, Pubkey,
    RevenueDistribution, TreasuryVault, UnstakingRequest, YieldConfig,
};

verus! {

// ---------------------------------------------------------------------------
// Initialization
// ---------------------------------------------------------------------------

/// The launchpad as first set up: the given authority and accounts, the vault
/// PDA as mint authority, nothing minted or raised, not paused, and investment
/// blocked until an admin approves a pool.
pub open spec fn new_launchpad(
    authority: Pubkey,
    token_mint: Pubkey,
    usdc_mint: Pubkey,
    usdc_vault: Pubkey,
    tax_vault: Pubkey,
    vault_pda: Pubkey,
    bump: u8,
) -> LaunchpadState {
    LaunchpadState {
        authority,
        token_mint,
        usdc_mint,
        usdc_vault,
        vault: usdc_vault,
        tax_vault,
        mint_authority: vault_pda,
        total_tokens_minted: 0,
        total_usdc_raised: 0,
        paused: false,
        investment_pending_approval: true,
        bump,
    }
}

/// Set up the launchpad state (`state_bump` is the bump of its address).
pub fn initialize_launchpad(
    authority: Pubkey,
    token_mint: Pubkey,
    usdc_mint: Pubkey,
    usdc_vault: Pubkey,
    tax_vault: Pubkey,
    vault_pda: Pubkey,
    state_bump: u8,
) -> (r: LaunchpadState)
    ensures
        r == new_launchpad(authority, token_mint, usdc_mint, usdc_vault, tax_vault, vault_pda, state_bump),
{
    LaunchpadState {
        authority,
        token_mint,
        usdc_mint,
        usdc_vault,
        vault: usdc_vault,
        tax_vault,
        mint_authority: vault_pda,
        total_tokens_minted: 0,
        total_usdc_raised: 0,
        paused: false,
        investment_pending_approval: true,
        bump: state_bump,
    }
}

/// The treasury as first set up: empty, last updated now.
pub open spec fn new_treasury(authority: Pubkey, now: i64, bump: u8) -> TreasuryVault {
    TreasuryVault {
        authority,
        total_usdc: 0,
        total_deposited: 0,
        total_yields_earned: 0,
        total_yields_distributed: 0,
        morpho_balance: 0,
        morpho_yield_earned: 0,
        liquid_usdc: 0,
        last_update: now,
        bump,
    }
}

/// The revenue split as first set up: 40% to holders and 20% each to
/// marketing, the asset manager and the protocol; 80% of the pool invested.
pub open spec fn new_revenue_distribution(
    authority: Pubkey,
    marketing_address: Pubkey,
    asset_manager_address: Pubkey,
    protocol_address: Pubkey,
    bump: u8,
) -> RevenueDistribution {
    RevenueDistribution {
        authority,
        holder_share_bps: 4_000,
        marketing_share_bps: 2_000,
        asset_manager_share_bps: 2_000,
        protocol_share_bps: 2_000,
        marketing_address,
        asset_manager_address,
        protocol_address,
        investment_ratio_bps: INVESTMENT_RATIO_BPS,
        bump,
    }
}

/// The yield configuration as first set up: index at 1.0, the normal and
/// campaign rates, the campaign length, nothing invested, updated now.
pub open spec fn new_yield_config(now: i64, bump: u8) -> YieldConfig {
    YieldConfig {
        global_yield_index: YIELD_INDEX_PRECISION,
        normal_yield_bps: NORMAL_YIELD_BPS,
        campaign_yield_bps: CAMPAIGN_YIELD_BPS,
        campaign_duration_seconds: CAMPAIGN_DURATION_SECONDS,
        morpho_invested_usdc: 0,
        morpho_yield_earned: 0,
        last_index_update: now,
        investment_ratio_bps: INVESTMENT_RATIO_BPS,
        bump,
    }
}

/// Set up the treasury vault, the revenue split and the yield configuration.
pub fn initialize_treasury(
    authority: Pubkey,
    marketing_address: Pubkey,
    asset_manager_address: Pubkey,
    protocol_address: Pubkey,
    now: i64,
    treasury_bump: u8,
    distribution_bump: u8,
    yield_config_bump: u8,
) -> (r: (TreasuryVault, RevenueDistribution, YieldConfig))
    ensures
        r.0 == new_treasury(authority, now, treasury_bump),
        r.1 == new_revenue_distribution(
            authority,
            marketing_address,
            asset_manager_address,
            protocol_address,
            distribution_bump,
        ),
        r.2 == new_yield_config(now, yield_config_bump),
{
    let treasury = TreasuryVault {
        authority,
        total_usdc: 0,
        total_deposited: 0,
        total_yields_earned: 0,
        total_yields_distributed: 0,
        morpho_balance: 0,
        morpho_yield_earned: 0,
        liquid_usdc: 0,
        last_update: now,
        bump: treasury_bump,
    };
    let dist = RevenueDistribution {
        authority,
        holder_share_bps: 4_000,
        marketing_share_bps: 2_000,
        asset_manager_share_bps: 2_000,
        protocol_share_bps: 2_000,
        marketing_address,
        asset_manager_address,
        protocol_address,
        investment_ratio_bps: INVESTMENT_RATIO_BPS,
        bump: distribution_bump,
    };
    let yc = YieldConfig {
        global_yield_index: YIELD_INDEX_PRECISION,
        normal_yield_bps: NORMAL_YIELD_BPS,
        campaign_yield_bps: CAMPAIGN_YIELD_BPS,
        campaign_duration_seconds: CAMPAIGN_DURATION_SECONDS,
        morpho_invested_usdc: 0,
        morpho_yield_earned: 0,
        last_index_update: now,
        investment_ratio_bps: INVESTMENT_RATIO_BPS,
        bump: yield_config_bump,
    };
    (treasury, dist, yc)
}

// ---------------------------------------------------------------------------
// Yield index and holder settlement
// ---------------------------------------------------------------------------

/// Seconds since the last index update, saturating, and never negative.
pub open spec fn index_elapsed(now: int, last_update: int) -> int {
    let e = sat_i64(now - last_update);
    if e < 0 {
        0
    } else {
        e
    }
}

/// The yield configuration with its index accrued at `apy_bps` up to `now`.
pub open spec fn refreshed_index(yc: YieldConfig, apy_bps: u64, now: i64) -> YieldConfig {
    YieldConfig {
        global_yield_index: accrued_index(
            yc.global_yield_index as int,
            apy_bps as int,
            index_elapsed(now as int, yc.last_index_update as int),
        ) as u128,
        last_index_update: now,
        ..yc
    }
}

/// The yield a holder earned at `apy_bps` between their snapshot and `index`.
pub open spec fn earned_since_snapshot(h: HolderInfo, index: u128, apy_bps: u64) -> int {
    yield_at_rate(
        holder_yield(index as int, h.yield_index_snapshot as int, h.token_balance as int),
        apy_bps as int,
    )
}

/// The holder with the yield earned at their rate since their snapshot added
/// to their unclaimed yield (saturating), the snapshot moved to `index`, and
/// the balance set to `new_balance`.
pub open spec fn settled_holder(h: HolderInfo, index: u128, apy_bps: u64, new_balance: u64) -> HolderInfo {
    HolderInfo {
        unclaimed_yield: sat_u64(h.unclaimed_yield + earned_since_snapshot(h, index, apy_bps)) as u64,
        yield_index_snapshot: index,
        token_balance: new_balance,
        ..h
    }
}

fn refresh_index(yield_config: &mut YieldConfig, apy_bps: u64, now: i64)
    ensures
        *final(yield_config) == refreshed_index(*old(yield_config), apy_bps, now),
        final(yield_config).global_yield_index >= old(yield_config).global_yield_index,
{
    let since = saturating_sub_i64(now, yield_config.last_index_update);
    let elapsed = if since < 0 {
        0
    } else {
        since
    };
    yield_config.global_yield_index = accrue_yield_index(
        yield_config.global_yield_index,
        apy_bps,
        elapsed,
    );
    yield_config.last_index_update = now;
}

fn settle_holder(holder: &mut HolderInfo, index: u128, apy_bps: u64, new_balance: u64)
    ensures
        *final(holder) == settled_holder(*old(holder), index, apy_bps, new_balance),
{
    let pending = scale_to_holder_rate(
        calculate_holder_yield(index, holder.yield_index_snapshot, holder.token_balance),
        apy_bps,
    );
    holder.unclaimed_yield = holder.unclaimed_yield.saturating_add(pending);
    holder.yield_index_snapshot = index;
    holder.token_balance = new_balance;
}

// ---------------------------------------------------------------------------
// Mint and burn at the fixed 1:1 peg
// ---------------------------------------------------------------------------

/// What a mint asks of the token program: mint `tokens_to_mint` to the user
/// (1:1 with the USDC paid in) and `protocol_fee` to the protocol treasury.
#[derive(Clone, Copy, Debug, PartialEq, Eq, Structural)]
pub struct MintReceipt {
    pub tokens_to_mint: u64,
    pub protocol_fee: u64,
}

/// The mint transition: refused while paused or for a zero amount; otherwise
/// the index is accrued at the normal rate, the holder's pending yield is
/// settled at their rate and their balance grows by the amount, a campaign purchase starts
/// the holder's campaign clock if it has not started, and the launchpad
/// totals grow by the amount.
pub open spec fn mint_transition(
    launchpad: LaunchpadState,
    yc: YieldConfig,
    holder: HolderInfo,
    usdc_amount: u64,
    is_campaign: bool,
    now: i64,
) -> Result<(LaunchpadState, YieldConfig, HolderInfo, MintReceipt), EcosystemError> {
    if launchpad.paused {
        Err(EcosystemError::LaunchpadPaused)
    } else if usdc_amount == 0 {
        Err(EcosystemError::InsufficientUsdc)
    } else {
        let y = refreshed_index(yc, yc.normal_yield_bps, now);
        let fee = fee_spec(
            usdc_amount as int,
            holder.is_launchpad_investor,
            holder.launchpad_purchased_amount as int,
        ).0;
        let settled = settled_holder(
            holder,
            y.global_yield_index,
            apy_for_holder(holder.campaign_expires_at as int, now as int),
            sat_u64(holder.token_balance + usdc_amount) as u64,
        );
        let h = if is_campaign && holder.campaign_expires_at == 0 {
            HolderInfo {
                campaign_expires_at: sat_i64(now + yc.campaign_duration_seconds) as i64,
                ..settled
            }
        } else {
            settled
        };
        let l = LaunchpadState {
            total_tokens_minted: sat_u64(launchpad.total_tokens_minted + usdc_amount) as u64,
            total_usdc_raised: sat_u64(launchpad.total_usdc_raised + usdc_amount) as u64,
            ..launchpad
        };
        Ok((l, y, h, MintReceipt { tokens_to_mint: usdc_amount, protocol_fee: fee as u64 }))
    }
}

/// Mint tokens at the fixed 1 USDC = 1 token peg. The fee (launchpad tier or
/// standard tier) is minted to the protocol treasury, 100% of it. Buying
/// enrolls the holder in yield; campaign buyers earn the campaign rate for 6 months.
pub fn mint_tokens(
    launchpad: &mut LaunchpadState,
    yield_config: &mut YieldConfig,
    holder: &mut HolderInfo,
    usdc_amount: u64,
    is_campaign: bool,
    now: i64,
) -> (r: Result<MintReceipt, EcosystemError>)
    ensures
        match mint_transition(*old(launchpad), *old(yield_config), *old(holder), usdc_amount, is_campaign, now) {
            Ok((l, y, h, receipt)) => {
                &&& r == Ok::<MintReceipt, EcosystemError>(receipt)
                &&& *final(launchpad) == l
                &&& *final(yield_config) == y
                &&& *final(holder) == h
            },
            Err(e) => {
                &&& r == Err::<MintReceipt, EcosystemError>(e)
                &&& *final(launchpad) == *old(launchpad)
                &&& *final(yield_config) == *old(yield_config)
                &&& *final(holder) == *old(holder)
            },
        },
        final(yield_config).global_yield_index >= old(yield_config).global_yield_index,
        r matches Ok(receipt) ==> receipt.tokens_to_mint == usdc_amount,
{
    if launchpad.paused {
        return Err(EcosystemError::LaunchpadPaused);
    }
    if usdc_amount == 0 {
        return Err(EcosystemError::InsufficientUsdc);
    }
    let apy = yield_config.normal_yield_bps;
    refresh_index(yield_config, apy, now);
    let tokens_to_mint = usdc_amount;
    let fee_result = calculate_fee(
        usdc_amount,
        holder.is_launchpad_investor,
        holder.launchpad_purchased_amount,
    );
    let protocol_fee = fee_result.total_fee;
    let new_balance = holder.token_balance.saturating_add(tokens_to_mint);
    let index = yield_config.global_yield_index;
    let campaign_unstarted = holder.campaign_expires_at == 0;
    let holder_apy = holder_apy_bps(holder.campaign_expires_at, now);
    settle_holder(holder, index, holder_apy, new_balance);
    if is_campaign && campaign_unstarted {
        holder.campaign_expires_at = saturating_add_i64(now, yield_config.campaign_duration_seconds);
    }
    launchpad.total_tokens_minted = launchpad.total_tokens_minted.saturating_add(tokens_to_mint);
    launchpad.total_usdc_raised = launchpad.total_usdc_raised.saturating_add(usdc_amount);
    Ok(MintReceipt { tokens_to_mint, protocol_fee })
}

/// What a burn asks of the token program: return `usdc_to_return` USDC to the
/// user (1:1 with the tokens burned) and move `protocol_fee` from the vault
/// to the protocol treasury.
#[derive(Clone, Copy, Debug, PartialEq, Eq, Structural)]
pub struct BurnReceipt {
    pub usdc_to_return: u64,
    pub protocol_fee: u64,
}

/// The burn transition: refused while paused, for a zero amount, or beyond
/// the holder's balance; otherwise the index is accrued at the normal rate
/// and the holder's pending yield is settled at their rate as their balance
/// drops by the amount.
pub open spec fn burn_transition(
    launchpad: LaunchpadState,
    yc: YieldConfig,
    holder: HolderInfo,
    token_amount: u64,
    now: i64,
) -> Result<(YieldConfig, HolderInfo, BurnReceipt), EcosystemError> {
    if launchpad.paused {
        Err(EcosystemError::LaunchpadPaused)
    } else if token_amount == 0 {
        Err(EcosystemError::InvalidRedeemAmount)
    } else if holder.token_balance < token_amount {
        Err(EcosystemError::InsufficientTokens)
    } else {
        let y = refreshed_index(yc, yc.normal_yield_bps, now);
        let fee = fee_spec(
            token_amount as int,
            holder.is_launchpad_investor,
            holder.launchpad_purchased_amount as int,
        ).0;
        let h = settled_holder(
            holder,
            y.global_yield_index,
            apy_for_holder(holder.campaign_expires_at as int, now as int),
            (holder.token_balance - token_amount) as u64,
        );
        Ok((y, h, BurnReceipt { usdc_to_return: token_amount, protocol_fee: fee as u64 }))
    }
}

/// Burn tokens and receive USDC back at the fixed 1:1 peg; the fee goes 100%
/// to the protocol treasury.
pub fn burn_tokens(
    launchpad: &LaunchpadState,
    yield_config: &mut YieldConfig,
    holder: &mut HolderInfo,
    token_amount: u64,
    now: i64,
) -> (r: Result<BurnReceipt, EcosystemError>)
    ensures
        match burn_transition(*launchpad, *old(yield_config), *old(holder), token_amount, now) {
            Ok((y, h, receipt)) => {
                &&& r == Ok::<BurnReceipt, EcosystemError>(receipt)
                &&& *final(yield_config) == y
                &&& *final(holder) == h
            },
            Err(e) => {
                &&& r == Err::<BurnReceipt, EcosystemError>(e)
                &&& *final(yield_config) == *old(yield_config)
                &&& *final(holder) == *old(holder)
            },
        },
        final(yield_config).global_yield_index >= old(yield_config).global_yield_index,
        r matches Ok(receipt) ==> receipt.usdc_to_return == token_amount,
{
    if launchpad.paused {
        return Err(EcosystemError::LaunchpadPaused);
    }
    if token_amount == 0 {
        return Err(EcosystemError::InvalidRedeemAmount);
    }
    if holder.token_balance < token_amount {
        return Err(EcosystemError::InsufficientTokens);
    }
    let apy = yield_config.normal_yield_bps;
    refresh_index(yield_config, apy, now);
    let fee_result = calculate_fee(
        token_amount,
        holder.is_launchpad_investor,
        holder.launchpad_purchased_amount,
    );
    let protocol_fee = fee_result.total_fee;
    let usdc_to_return = token_amount;
    let index = yield_config.global_yield_index;
    let new_balance = holder.token_balance - token_amount;
    let holder_apy = holder_apy_bps(holder.campaign_expires_at, now);
    settle_holder(holder, index, holder_apy, new_balance);
    Ok(BurnReceipt { usdc_to_return, protocol_fee })
}

// ---------------------------------------------------------------------------
// Yield claim
// ---------------------------------------------------------------------------

/// The claim transition: the shared index is accrued to now at the normal
/// rate; the holder is owed their unclaimed yield plus the yield since their
/// snapshot at their own rate, campaign or normal (saturating). Refused when
/// that is zero; otherwise it is paid out, the unclaimed yield is cleared and
/// the snapshot moves to the index.
pub open spec fn claim_transition(yc: YieldConfig, holder: HolderInfo, now: i64) -> Result<
    (YieldConfig, HolderInfo, u64),
    EcosystemError,
> {
    let y = refreshed_index(yc, yc.normal_yield_bps, now);
    let total = sat_u64(
        holder.unclaimed_yield + earned_since_snapshot(
            holder,
            y.global_yield_index,
            apy_for_holder(holder.campaign_expires_at as int, now as int),
        ),
    );
    if total == 0 {
        Err(EcosystemError::NoYieldToClaim)
    } else {
        Ok(
            (
                y,
                HolderInfo {
                    yield_index_snapshot: y.global_yield_index,
                    unclaimed_yield: 0,
                    ..holder
                },
                total as u64,
            ),
        )
    }
}

/// Claim accumulated yield; the result is the USDC to pay the holder. Any
/// holder earns automatically just by holding.
pub fn claim_yield(yield_config: &mut YieldConfig, holder: &mut HolderInfo, now: i64) -> (r: Result<
    u64,
    EcosystemError,
>)
    ensures
        match claim_transition(*old(yield_config), *old(holder), now) {
            Ok((y, h, amount)) => {
                &&& r == Ok::<u64, EcosystemError>(amount)
                &&& *final(yield_config) == y
                &&& *final(holder) == h
            },
            Err(e) => {
                &&& r == Err::<u64, EcosystemError>(e)
                &&& *final(yield_config) == *old(yield_config)
                &&& *final(holder) == *old(holder)
            },
        },
        final(yield_config).global_yield_index >= old(yield_config).global_yield_index,
{
    let apy = holder_apy_bps(holder.campaign_expires_at, now);
    let since = saturating_sub_i64(now, yield_config.last_index_update);
    let elapsed = if since < 0 {
        0
    } else {
        since
    };
    let new_index = accrue_yield_index(
        yield_config.global_yield_index,
        yield_config.normal_yield_bps,
        elapsed,
    );
    let new_yield = scale_to_holder_rate(
        calculate_holder_yield(new_index, holder.yield_index_snapshot, holder.token_balance),
        apy,
    );
    let total_claimable = holder.unclaimed_yield.saturating_add(new_yield);
    if total_claimable == 0 {
        return Err(EcosystemError::NoYieldToClaim);
    }
    yield_config.global_yield_index = new_index;
    yield_config.last_index_update = now;
    holder.yield_index_snapshot = new_index;
    holder.unclaimed_yield = 0;
    Ok(total_claimable)
}

// ---------------------------------------------------------------------------
// Unstaking: 48 business-hour countdown (weekend-paused)
// ---------------------------------------------------------------------------

/// The unstake request transition: refused for a zero amount or beyond the
/// holder's balance; otherwise the holder's pending yield is settled at their
/// rate at the current index (not accrued) as their balance drops by the amount, and a
/// request to return the same amount of USDC (1:1) starts its clock now.
pub open spec fn request_unstake_transition(
    yc: YieldConfig,
    holder: HolderInfo,
    user: Pubkey,
    amount: u64,
    now: i64,
    bump: u8,
) -> Result<(HolderInfo, UnstakingRequest), EcosystemError> {
    if amount == 0 || holder.token_balance < amount {
        Err(EcosystemError::InsufficientTokens)
    } else {
        Ok(
            (
                settled_holder(
                    holder,
                    yc.global_yield_index,
                    apy_for_holder(holder.campaign_expires_at as int, now as int),
                    (holder.token_balance - amount) as u64,
                ),
                UnstakingRequest {
                    user,
                    amount,
                    usdc_to_return: amount,
                    requested_at: now,
                    completed: false,
                    emergency_redeemed: false,
                    bump,
                },
            ),
        )
    }
}

/// Step 1 of exiting: request to unstake `amount`, starting the 48
/// business-hour countdown; the result is the new request.
pub fn request_unstake(
    yield_config: &YieldConfig,
    holder: &mut HolderInfo,
    user: Pubkey,
    amount: u64,
    now: i64,
    request_bump: u8,
) -> (r: Result<UnstakingRequest, EcosystemError>)
    ensures
        match request_unstake_transition(*yield_config, *old(holder), user, amount, now, request_bump) {
            Ok((h, request)) => {
                &&& r == Ok::<UnstakingRequest, EcosystemError>(request)
                &&& *final(holder) == h
            },
            Err(e) => {
                &&& r == Err::<UnstakingRequest, EcosystemError>(e)
                &&& *final(holder) == *old(holder)
            },
        },
{
    if amount == 0 {
        return Err(EcosystemError::InsufficientTokens);
    }
    if holder.token_balance < amount {
        return Err(EcosystemError::InsufficientTokens);
    }
    let new_balance = holder.token_balance - amount;
    let holder_apy = holder_apy_bps(holder.campaign_expires_at, now);
    settle_holder(holder, yield_config.global_yield_index, holder_apy, new_balance);
    Ok(
        UnstakingRequest {
            user,
            amount,
            usdc_to_return: amount,
            requested_at: now,
            completed: false,
            emergency_redeemed: false,
            bump: request_bump,
        },
    )
}

/// The completion transition: refused once the request was completed or
/// redeemed, and until 48 business hours have passed since it was made;
/// otherwise the request is completed and its USDC is returned.
pub open spec fn complete_unstake_transition(request: UnstakingRequest, now: i64) -> Result<
    (UnstakingRequest, u64),
    EcosystemError,
> {
    if request.completed || request.emergency_redeemed {
        Err(EcosystemError::UnstakeAlreadyCompleted)
    } else if business_seconds(request.requested_at as int, now as int) < UNSTAKE_BUSINESS_SECONDS {
        Err(EcosystemError::UnstakeCooldownNotMet)
    } else {
        Ok((UnstakingRequest { completed: true, ..request }, request.usdc_to_return))
    }
}

/// Step 2: complete the unstake after 48 business hours (weekends excluded
/// from the timer); the result is the USDC to return to the user.
pub fn complete_unstake(request: &mut UnstakingRequest, now: i64) -> (r: Result<u64, EcosystemError>)
    requires
        !old(request).completed && !old(request).emergency_redeemed
            ==> now - old(request).requested_at <= i64::MAX,
    ensures
        match complete_unstake_transition(*old(request), now) {
            Ok((req, amount)) => {
                &&& r == Ok::<u64, EcosystemError>(amount)
                &&& *final(request) == req
            },
            Err(e) => {
                &&& r == Err::<u64, EcosystemError>(e)
                &&& *final(request) == *old(request)
            },
        },
{
    if request.completed {
        return Err(EcosystemError::UnstakeAlreadyCompleted);
    }
    if request.emergency_redeemed {
        return Err(EcosystemError::UnstakeAlreadyCompleted);
    }
    let elapsed = business_seconds_elapsed(request.requested_at, now);
    if elapsed < UNSTAKE_BUSINESS_SECONDS {
        return Err(EcosystemError::UnstakeCooldownNotMet);
    }
    request.completed = true;
    Ok(request.usdc_to_return)
}

/// The amount paid out on an emergency redemption of `amount`: the amount
/// less the 0.5% emergency fee (rounded down), which stays in the vault.
pub open spec fn emergency_payout(amount: int) -> int {
    amount - amount * (EMERGENCY_REDEEM_FEE_BPS as int) / 10_000
}

/// The emergency transition: refused once the request was completed or
/// redeemed; otherwise it is marked redeemed and completed at once and the
/// requested amount less the emergency fee is paid out, bypassing the countdown.
pub open spec fn emergency_redeem_transition(request: UnstakingRequest) -> Result<
    (UnstakingRequest, u64),
    EcosystemError,
> {
    if request.completed || request.emergency_redeemed {
        Err(EcosystemError::UnstakeAlreadyCompleted)
    } else {
        Ok(
            (
                UnstakingRequest { emergency_redeemed: true, completed: true, ..request },
                emergency_payout(request.amount as int) as u64,
            ),
        )
    }
}

/// Emergency redeem fee: 0.5% (50 bps) of the amount redeemed.
pub const EMERGENCY_REDEEM_FEE_BPS: u64 = 50;

/// Emergency exit: immediate, but exposes the user to AMM slippage and costs
/// the emergency fee; the result is the amount to pay out.
pub fn emergency_redeem_defi(request: &mut UnstakingRequest) -> (r: Result<u64, EcosystemError>)
    ensures
        match emergency_redeem_transition(*old(request)) {
            Ok((req, amount)) => {
                &&& r == Ok::<u64, EcosystemError>(amount)
                &&& *final(request) == req
            },
            Err(e) => {
                &&& r == Err::<u64, EcosystemError>(e)
                &&& *final(request) == *old(request)
            },
        },
{
    if request.completed {
        return Err(EcosystemError::UnstakeAlreadyCompleted);
    }
    if request.emergency_redeemed {
        return Err(EcosystemError::UnstakeAlreadyCompleted);
    }
    let fee = apply_bps_exact(request.amount, EMERGENCY_REDEEM_FEE_BPS);
    request.emergency_redeemed = true;
    request.completed = true;
    Ok(request.amount - fee)
}

// ---------------------------------------------------------------------------
// Morpho investment: admin approval required before investing
// ---------------------------------------------------------------------------

/// The proposal transition: only the launchpad authority may propose, and
/// only an eligible pool type; the pool starts unapproved, inactive and empty.
pub open spec fn propose_pool_transition(
    launchpad: LaunchpadState,
    signer: Pubkey,
    pool_address: Pubkey,
    pool_name: [u8; 64],
    pool_type: MorphoPoolType,
    apy_bps: u64,
    bump: u8,
) -> Result<MorphoPool, EcosystemError> {
    if !same_key(launchpad.authority, signer) {
        Err(EcosystemError::Unauthorized)
    } else if !eligible_pool_type(pool_type) {
        Err(EcosystemError::IneligiblePoolType)
    } else {
        Ok(
            MorphoPool {
                pool_address,
                pool_name,
                pool_type,
                apy_bps,
                approved: false,
                is_active: false,
                invested_usdc: 0,
                approved_at: 0,
                bump,
            },
        )
    }
}

/// Admin proposes a Morpho pool; it is not active until approved. The result
/// is the new pool account.
pub fn propose_morpho_pool(
    launchpad: &LaunchpadState,
    signer: &Pubkey,
    pool_address: Pubkey,
    pool_name: [u8; 64],
    pool_type: MorphoPoolType,
    apy_bps: u64,
    pool_bump: u8,
) -> (r: Result<MorphoPool, EcosystemError>)
    ensures
        r == propose_pool_transition(
            *launchpad,
            *signer,
            pool_address,
            pool_name,
            pool_type,
            apy_bps,
            pool_bump,
        ),
{
    if !keys_equal(&launchpad.authority, signer) {
        return Err(EcosystemError::Unauthorized);
    }
    if !is_eligible_pool_type(&pool_type) {
        return Err(EcosystemError::IneligiblePoolType);
    }
    Ok(
        MorphoPool {
            pool_address,
            pool_name,
            pool_type,
            apy_bps,
            approved: false,
            is_active: false,
            invested_usdc: 0,
            approved_at: 0,
            bump: pool_bump,
        },
    )
}

/// The approval transition: only the launchpad authority may approve; the
/// pool becomes approved and active as of now, and investment is unblocked.
pub open spec fn approve_pool_transition(
    launchpad: LaunchpadState,
    signer: Pubkey,
    pool: MorphoPool,
    now: i64,
) -> Result<(LaunchpadState, MorphoPool), EcosystemError> {
    if !same_key(launchpad.authority, signer) {
        Err(EcosystemError::Unauthorized)
    } else if !eligible_pool_type(pool.pool_type) {
        Err(EcosystemError::IneligiblePoolType)
    } else {
        Ok(
            (
                LaunchpadState { investment_pending_approval: false, ..launchpad },
                MorphoPool { approved: true, is_active: true, approved_at: now, ..pool },
            ),
        )
    }
}

/// Admin approves a proposed Morpho pool: investment becomes unblocked.
pub fn approve_morpho_pool(
    launchpad: &mut LaunchpadState,
    signer: &Pubkey,
    pool: &mut MorphoPool,
    now: i64,
) -> (r: Result<(), EcosystemError>)
    ensures
        match approve_pool_transition(*old(launchpad), *signer, *old(pool), now) {
            Ok((l, p)) => {
                &&& r is Ok
                &&& *final(launchpad) == l
                &&& *final(pool) == p
            },
            Err(e) => {
                &&& r == Err::<(), EcosystemError>(e)
                &&& *final(launchpad) == *old(launchpad)
                &&& *final(pool) == *old(pool)
            },
        },
{
    if !keys_equal(&launchpad.authority, signer) {
        return Err(EcosystemError::Unauthorized);
    }
    if !is_eligible_pool_type(&pool.pool_type) {
        return Err(EcosystemError::IneligiblePoolType);
    }
    pool.approved = true;
    pool.is_active = true;
    pool.approved_at = now;
    launchpad.investment_pending_approval = false;
    Ok(())
}

/// The most the treasury may hold in Morpho: the investment ratio of its
/// total USDC (the rest stays liquid for redemptions).
pub open spec fn morpho_cap(treasury: TreasuryVault, dist: RevenueDistribution) -> int {
    bps_of(treasury.total_usdc as int, dist.investment_ratio_bps as int)
}

/// The investment transition: refused while investment awaits approval, into
/// an unapproved or inactive pool, for a zero amount, beyond the treasury's
/// liquid USDC, or when the Morpho balance would exceed the investment ratio
/// of the treasury's total USDC; otherwise the amount moves from the
/// treasury's liquid USDC to its Morpho balance and is added to the pool's
/// and the configuration's invested totals (saturating).
pub open spec fn invest_transition(
    launchpad: LaunchpadState,
    treasury: TreasuryVault,
    dist: RevenueDistribution,
    yc: YieldConfig,
    pool: MorphoPool,
    amount: u64,
) -> Result<(TreasuryVault, YieldConfig, MorphoPool), EcosystemError> {
    if launchpad.investment_pending_approval {
        Err(EcosystemError::InvestmentPendingApproval)
    } else if !pool.approved {
        Err(EcosystemError::PoolNotApproved)
    } else if !pool.is_active {
        Err(EcosystemError::PoolNotActive)
    } else if amount == 0 {
        Err(EcosystemError::InvalidInvestmentAmount)
    } else if treasury.liquid_usdc < amount {
        Err(EcosystemError::InsufficientTreasury)
    } else if treasury.morpho_balance + amount > morpho_cap(treasury, dist) {
        Err(EcosystemError::InvalidInvestmentAmount)
    } else {
        Ok(
            (
                TreasuryVault {
                    liquid_usdc: (treasury.liquid_usdc - amount) as u64,
                    morpho_balance: (treasury.morpho_balance + amount) as u64,
                    ..treasury
                },
                YieldConfig {
                    morpho_invested_usdc: sat_u64(yc.morpho_invested_usdc + amount) as u64,
                    ..yc
                },
                MorphoPool { invested_usdc: sat_u64(pool.invested_usdc + amount) as u64, ..pool },
            ),
        )
    }
}

/// Invest liquid USDC into the approved Morpho pool, keeping the treasury's
/// Morpho balance within the investment ratio of its total USDC (80% by
/// default, 20% kept liquid); an off-chain keeper executes the transfer.
pub fn invest_in_morpho(
    launchpad: &LaunchpadState,
    treasury: &mut TreasuryVault,
    dist: &RevenueDistribution,
    yield_config: &mut YieldConfig,
    pool: &mut MorphoPool,
    amount: u64,
) -> (r: Result<(), EcosystemError>)
    ensures
        match invest_transition(*launchpad, *old(treasury), *dist, *old(yield_config), *old(pool), amount) {
            Ok((t, y, p)) => {
                &&& r is Ok
                &&& *final(treasury) == t
                &&& *final(yield_config) == y
                &&& *final(pool) == p
            },
            Err(e) => {
                &&& r == Err::<(), EcosystemError>(e)
                &&& *final(treasury) == *old(treasury)
                &&& *final(yield_config) == *old(yield_config)
                &&& *final(pool) == *old(pool)
            },
        },
        r is Ok ==> old(pool).approved && old(pool).is_active && !launchpad.investment_pending_approval,
        r is Ok ==> final(treasury).morpho_balance <= morpho_cap(*old(treasury), *dist),
        old(treasury).morpho_balance <= morpho_cap(*old(treasury), *dist)
            ==> final(treasury).morpho_balance <= morpho_cap(*final(treasury), *dist),
        r is Ok ==> final(treasury).liquid_usdc + final(treasury).morpho_balance
            == old(treasury).liquid_usdc + old(treasury).morpho_balance,
{
    if launchpad.investment_pending_approval {
        return Err(EcosystemError::InvestmentPendingApproval);
    }
    if !pool.approved {
        return Err(EcosystemError::PoolNotApproved);
    }
    if !pool.is_active {
        return Err(EcosystemError::PoolNotActive);
    }
    if amount == 0 {
        return Err(EcosystemError::InvalidInvestmentAmount);
    }
    if treasury.liquid_usdc < amount {
        return Err(EcosystemError::InsufficientTreasury);
    }
    let max_investable = calculate_investment_amount(treasury.total_usdc, dist.investment_ratio_bps);
    let new_morpho_balance = match treasury.morpho_balance.checked_add(amount) {
        Some(b) => b,
        None => {
            return Err(EcosystemError::InvalidInvestmentAmount);
        },
    };
    if new_morpho_balance > max_investable {
        return Err(EcosystemError::InvalidInvestmentAmount);
    }
    treasury.liquid_usdc = treasury.liquid_usdc - amount;
    treasury.morpho_balance = new_morpho_balance;
    pool.invested_usdc = pool.invested_usdc.saturating_add(amount);
    yield_config.morpho_invested_usdc = yield_config.morpho_invested_usdc.saturating_add(amount);
    Ok(())
}

/// The yield report transition: only the launchpad authority may report, and
/// only a nonzero yield; it is added (saturating) to the treasury's Morpho
/// yield, total yield and liquid USDC, and to the configuration's Morpho yield.
pub open spec fn report_yield_transition(
    launchpad: LaunchpadState,
    signer: Pubkey,
    treasury: TreasuryVault,
    yc: YieldConfig,
    yield_amount: u64,
) -> Result<(TreasuryVault, YieldConfig), EcosystemError> {
    if !same_key(launchpad.authority, signer) {
        Err(EcosystemError::Unauthorized)
    } else if yield_amount == 0 {
        Err(EcosystemError::NoMorphoYield)
    } else {
        Ok(
            (
                TreasuryVault {
                    morpho_yield_earned: sat_u64(treasury.morpho_yield_earned + yield_amount) as u64,
                    total_yields_earned: sat_u64(treasury.total_yields_earned + yield_amount) as u64,
                    liquid_usdc: sat_u64(treasury.liquid_usdc + yield_amount) as u64,
                    ..treasury
                },
                YieldConfig {
                    morpho_yield_earned: sat_u64(yc.morpho_yield_earned + yield_amount) as u64,
                    ..yc
                },
            ),
        )
    }
}

/// Keeper reports Morpho yield back on-chain.
pub fn report_morpho_yield(
    launchpad: &LaunchpadState,
    signer: &Pubkey,
    treasury: &mut TreasuryVault,
    yield_config: &mut YieldConfig,
    yield_amount: u64,
) -> (r: Result<(), EcosystemError>)
    ensures
        match report_yield_transition(*launchpad, *signer, *old(treasury), *old(yield_config), yield_amount) {
            Ok((t, y)) => {
                &&& r is Ok
                &&& *final(treasury) == t
                &&& *final(yield_config) == y
            },
            Err(e) => {
                &&& r == Err::<(), EcosystemError>(e)
                &&& *final(treasury) == *old(treasury)
                &&& *final(yield_config) == *old(yield_config)
            },
        },
{
    if !keys_equal(&launchpad.authority, signer) {
        return Err(EcosystemError::Unauthorized);
    }
    if yield_amount == 0 {
        return Err(EcosystemError::NoMorphoYield);
    }
    treasury.morpho_yield_earned = treasury.morpho_yield_earned.saturating_add(yield_amount);
    treasury.total_yields_earned = treasury.total_yields_earned.saturating_add(yield_amount);
    treasury.liquid_usdc = treasury.liquid_usdc.saturating_add(yield_amount);
    yield_config.morpho_yield_earned = yield_config.morpho_yield_earned.saturating_add(yield_amount);
    Ok(())
}

// ---------------------------------------------------------------------------
// Admin: revenue split, distribution, pause
// ---------------------------------------------------------------------------

/// A revenue split whose four shares make up exactly 100% (10000 bps) and
/// whose investment ratio is at most 100%.
pub open spec fn valid_split(dist: RevenueDistribution) -> bool {
    &&& dist.holder_share_bps + dist.marketing_share_bps + dist.asset_manager_share_bps
        + dist.protocol_share_bps == 10_000
    &&& dist.investment_ratio_bps <= 10_000
}

/// The split update transition: only the launchpad authority may update; the
/// four shares must sum to exactly 10000 bps (a sum beyond `u64` is refused
/// the same way) and the ratio be at most 10000 bps.
pub open spec fn update_split_transition(
    launchpad: LaunchpadState,
    signer: Pubkey,
    dist: RevenueDistribution,
    holder_bps: u64,
    marketing_bps: u64,
    asset_manager_bps: u64,
    protocol_bps: u64,
    investment_ratio_bps: u64,
) -> Result<RevenueDistribution, EcosystemError> {
    if !same_key(launchpad.authority, signer) {
        Err(EcosystemError::Unauthorized)
    } else if holder_bps + marketing_bps + asset_manager_bps + protocol_bps != 10_000 {
        Err(EcosystemError::InvalidDistributionShares)
    } else if investment_ratio_bps > 10_000 {
        Err(EcosystemError::InvalidInvestmentRatio)
    } else {
        Ok(
            RevenueDistribution {
                holder_share_bps: holder_bps,
                marketing_share_bps: marketing_bps,
                asset_manager_share_bps: asset_manager_bps,
                protocol_share_bps: protocol_bps,
                investment_ratio_bps,
                ..dist
            },
        )
    }
}

/// Update the revenue split ratios; the shares must sum to 10000 bps (100%).
pub fn update_revenue_split(
    launchpad: &LaunchpadState,
    signer: &Pubkey,
    dist: &mut RevenueDistribution,
    holder_bps: u64,
    marketing_bps: u64,
    asset_manager_bps: u64,
    protocol_bps: u64,
    investment_ratio_bps: u64,
) -> (r: Result<(), EcosystemError>)
    ensures
        match update_split_transition(
            *launchpad,
            *signer,
            *old(dist),
            holder_bps,
            marketing_bps,
            asset_manager_bps,
            protocol_bps,
            investment_ratio_bps,
        ) {
            Ok(d) => {
                &&& r is Ok
                &&& *final(dist) == d
            },
            Err(e) => {
                &&& r == Err::<(), EcosystemError>(e)
                &&& *final(dist) == *old(dist)
            },
        },
        r is Ok ==> valid_split(*final(dist)),
{
    if !keys_equal(&launchpad.authority, signer) {
        return Err(EcosystemError::Unauthorized);
    }
    let shares_sum = match holder_bps.checked_add(marketing_bps) {
        None => None,
        Some(a) => match a.checked_add(asset_manager_bps) {
            None => None,
            Some(b) => b.checked_add(protocol_bps),
        },
    };
    match shares_sum {
        Some(total) => {
            if total != 10_000 {
                return Err(EcosystemError::InvalidDistributionShares);
            }
        },
        None => {
            return Err(EcosystemError::InvalidDistributionShares);
        },
    }
    if investment_ratio_bps > 10_000 {
        return Err(EcosystemError::InvalidInvestmentRatio);
    }
    dist.holder_share_bps = holder_bps;
    dist.marketing_share_bps = marketing_bps;
    dist.asset_manager_share_bps = asset_manager_bps;
    dist.protocol_share_bps = protocol_bps;
    dist.investment_ratio_bps = investment_ratio_bps;
    Ok(())
}

/// The four parties' shares of a distribution, with the addresses that the
/// marketing, asset-manager and protocol shares are paid to (the holders'
/// share stays in the treasury for holders to claim).
#[derive(Clone, Copy, Debug, PartialEq, Eq)]
pub struct RevenueShares {
    pub holder_share: u64,
    pub marketing_share: u64,
    pub manager_share: u64,
    pub protocol_share: u64,
    pub marketing_address: Pubkey,
    pub asset_manager_address: Pubkey,
    pub protocol_address: Pubkey,
}

/// Yield earned and not yet distributed.
pub open spec fn distributable(treasury: TreasuryVault) -> int {
    treasury.total_yields_earned - treasury.total_yields_distributed
}

/// Each party's share of the distributable yield, `d * bps / 10000` rounded
/// down (exact; capped at `u64::MAX` only for shares above 100%), with the
/// recipients named in the split.
pub open spec fn revenue_shares(treasury: TreasuryVault, dist: RevenueDistribution) -> RevenueShares {
    let d = distributable(treasury);
    RevenueShares {
        holder_share: exact_bps_of(d, dist.holder_share_bps as int) as u64,
        marketing_share: exact_bps_of(d, dist.marketing_share_bps as int) as u64,
        manager_share: exact_bps_of(d, dist.asset_manager_share_bps as int) as u64,
        protocol_share: exact_bps_of(d, dist.protocol_share_bps as int) as u64,
        marketing_address: dist.marketing_address,
        asset_manager_address: dist.asset_manager_address,
        protocol_address: dist.protocol_address,
    }
}

/// The sum of the four shares.
pub open spec fn shares_total(s: RevenueShares) -> int {
    s.holder_share + s.marketing_share + s.manager_share + s.protocol_share
}

/// The distribution transition: refused when nothing is left to distribute;
/// otherwise each party gets its share of the undistributed yield and the
/// sum of the shares is added (saturating) to the distributed total.
pub open spec fn distribute_transition(treasury: TreasuryVault, dist: RevenueDistribution) -> Result<
    (TreasuryVault, RevenueShares),
    EcosystemError,
> {
    if treasury.total_yields_earned <= treasury.total_yields_distributed {
        Err(EcosystemError::InsufficientYield)
    } else {
        let shares = revenue_shares(treasury, dist);
        Ok(
            (
                TreasuryVault {
                    total_yields_distributed: sat_u64(
                        treasury.total_yields_distributed + shares_total(shares),
                    ) as u64,
                    ..treasury
                },
                shares,
            ),
        )
    }
}

/// Whether `distribute_revenue` can add up the four shares of this treasury
/// and split within `u64` (always so under a valid split).
pub fn distribution_fits(treasury: &TreasuryVault, dist: &RevenueDistribution) -> (r: bool)
    ensures
        r == (treasury.total_yields_earned > treasury.total_yields_distributed ==> shares_total(
            revenue_shares(*treasury, *dist),
        ) <= u64::MAX),
{
    if treasury.total_yields_earned <= treasury.total_yields_distributed {
        return true;
    }
    let distributable = treasury.total_yields_earned - treasury.total_yields_distributed;
    let holder_share = apply_bps_exact(distributable, dist.holder_share_bps);
    let marketing_share = apply_bps_exact(distributable, dist.marketing_share_bps);
    let manager_share = apply_bps_exact(distributable, dist.asset_manager_share_bps);
    let protocol_share = apply_bps_exact(distributable, dist.protocol_share_bps);
    match holder_share.checked_add(marketing_share) {
        None => false,
        Some(a) => match a.checked_add(manager_share) {
            None => false,
            Some(b) => b.checked_add(protocol_share).is_some(),
        },
    }
}

/// Distribute revenue to all parties based on the current split; the result
/// is each party's share and where it is paid.
pub fn distribute_revenue(treasury: &mut TreasuryVault, dist: &RevenueDistribution) -> (r: Result<
    RevenueShares,
    EcosystemError,
>)
    requires
        old(treasury).total_yields_earned > old(treasury).total_yields_distributed ==> shares_total(
            revenue_shares(*old(treasury), *dist),
        ) <= u64::MAX,
    ensures
        match distribute_transition(*old(treasury), *dist) {
            Ok((t, shares)) => {
                &&& r == Ok::<RevenueShares, EcosystemError>(shares)
                &&& *final(treasury) == t
            },
            Err(e) => {
                &&& r == Err::<RevenueShares, EcosystemError>(e)
                &&& *final(treasury) == *old(treasury)
            },
        },
{
    if treasury.total_yields_earned <= treasury.total_yields_distributed {
        return Err(EcosystemError::InsufficientYield);
    }
    let distributable = treasury.total_yields_earned - treasury.total_yields_distributed;
    let holder_share = apply_bps_exact(distributable, dist.holder_share_bps);
    let marketing_share = apply_bps_exact(distributable, dist.marketing_share_bps);
    let manager_share = apply_bps_exact(distributable, dist.asset_manager_share_bps);
    let protocol_share = apply_bps_exact(distributable, dist.protocol_share_bps);
    treasury.total_yields_distributed = treasury.total_yields_distributed.saturating_add(
        holder_share + marketing_share + manager_share + protocol_share,
    );
    Ok(
        RevenueShares {
            holder_share,
            marketing_share,
            manager_share,
            protocol_share,
            marketing_address: dist.marketing_address,
            asset_manager_address: dist.asset_manager_address,
            protocol_address: dist.protocol_address,
        },
    )
}

/// The pause (or resume) transition: only the launchpad authority may set
/// the paused flag.
pub open spec fn set_paused_transition(launchpad: LaunchpadState, signer: Pubkey, paused: bool) -> Result<
    LaunchpadState,
    EcosystemError,
> {
    if !same_key(launchpad.authority, signer) {
        Err(EcosystemError::Unauthorized)
    } else {
        Ok(LaunchpadState { paused, ..launchpad })
    }
}

/// Pause the launchpad (emergency use only).
pub fn pause_launchpad(launchpad: &mut LaunchpadState, signer: &Pubkey) -> (r: Result<(), EcosystemError>)
    ensures
        match set_paused_transition(*old(launchpad), *signer, true) {
            Ok(l) => r is Ok && *final(launchpad) == l,
            Err(e) => r == Err::<(), EcosystemError>(e) && *final(launchpad) == *old(launchpad),
        },
{
    if !keys_equal(&launchpad.authority, signer) {
        return Err(EcosystemError::Unauthorized);
    }
    launchpad.paused = true;
    Ok(())
}

/// Resume the launchpad.
pub fn resume_launchpad(launchpad: &mut LaunchpadState, signer: &Pubkey) -> (r: Result<(), EcosystemError>)
    ensures
        match set_paused_transition(*old(launchpad), *signer, false) {
            Ok(l) => r is Ok && *final(launchpad) == l,
            Err(e) => r == Err::<(), EcosystemError>(e) && *final(launchpad) == *old(launchpad),
        },
{
    if !keys_equal(&launchpad.authority, signer) {
        return Err(EcosystemError::Unauthorized);
    }
    launchpad.paused = false;
    Ok(())
}

// ---------------------------------------------------------------------------
// Properties that span instructions
// ---------------------------------------------------------------------------

/// Mint and burn are inverse at the 1:1 peg: after minting `amount` tokens
/// for `amount` USDC, the holder can burn the same amount (at any later time)
/// for the same USDC back, and their token balance returns to what it was.
pub proof fn lemma_mint_then_burn_restores_balance(
    launchpad: LaunchpadState,
    yc: YieldConfig,
    holder: HolderInfo,
    amount: u64,
    is_campaign: bool,
    mint_time: i64,
    burn_time: i64,
)
    requires
        mint_transition(launchpad, yc, holder, amount, is_campaign, mint_time) is Ok,
        holder.token_balance + amount <= u64::MAX,
    ensures
        ({
            let (l1, y1, h1, minted) = mint_transition(
                launchpad,
                yc,
                holder,
                amount,
                is_campaign,
                mint_time,
            )->Ok_0;
            &&& burn_transition(l1, y1, h1, amount, burn_time) is Ok
            &&& burn_transition(l1, y1, h1, amount, burn_time)->Ok_0.1.token_balance
                == holder.token_balance
            &&& burn_transition(l1, y1, h1, amount, burn_time)->Ok_0.2.usdc_to_return
                == minted.tokens_to_mint
        }),
{
}

/// A paused launchpad refuses every mint and every burn.
pub proof fn lemma_pause_blocks_mint_and_burn(
    launchpad: LaunchpadState,
    signer: Pubkey,
    yc: YieldConfig,
    holder: HolderInfo,
    amount: u64,
    is_campaign: bool,
    now: i64,
)
    requires
        set_paused_transition(launchpad, signer, true) is Ok,
    ensures
        ({
            let paused = set_paused_transition(launchpad, signer, true)->Ok_0;
            &&& mint_transition(paused, yc, holder, amount, is_campaign, now) == Err::<
                (LaunchpadState, YieldConfig, HolderInfo, MintReceipt),
                EcosystemError,
            >(EcosystemError::LaunchpadPaused)
            &&& burn_transition(paused, yc, holder, amount, now) == Err::<
                (YieldConfig, HolderInfo, BurnReceipt),
                EcosystemError,
            >(EcosystemError::LaunchpadPaused)
        }),
{
}

/// A resumed launchpad accepts every mint of a nonzero amount.
pub proof fn lemma_resume_reopens_mint(
    launchpad: LaunchpadState,
    signer: Pubkey,
    yc: YieldConfig,
    holder: HolderInfo,
    amount: u64,
    is_campaign: bool,
    now: i64,
)
    requires
        set_paused_transition(launchpad, signer, false) is Ok,
        amount > 0,
    ensures
        mint_transition(
            set_paused_transition(launchpad, signer, false)->Ok_0,
            yc,
            holder,
            amount,
            is_campaign,
            now,
        ) is Ok,
{
}

/// An unstake request pays out at most once: after it completes or is
/// redeemed in an emergency, both ways out refuse it.
pub proof fn lemma_unstake_pays_out_once(request: UnstakingRequest, now: i64, later: i64)
    ensures
        complete_unstake_transition(request, now) matches Ok((done, _)) ==> {
            &&& complete_unstake_transition(done, later) == Err::<(UnstakingRequest, u64), EcosystemError>(
                EcosystemError::UnstakeAlreadyCompleted,
            )
            &&& emergency_redeem_transition(done) == Err::<(UnstakingRequest, u64), EcosystemError>(
                EcosystemError::UnstakeAlreadyCompleted,
            )
        },
        emergency_redeem_transition(request) matches Ok((done, _)) ==> {
            &&& complete_unstake_transition(done, later) == Err::<(UnstakingRequest, u64), EcosystemError>(
                EcosystemError::UnstakeAlreadyCompleted,
            )
            &&& emergency_redeem_transition(done) == Err::<(UnstakingRequest, u64), EcosystemError>(
                EcosystemError::UnstakeAlreadyCompleted,
            )
        },
{
}

/// A claim pays out everything owed: claiming again at the same moment is
/// refused for lack of yield.
pub proof fn lemma_claim_leaves_nothing_to_claim(yc: YieldConfig, holder: HolderInfo, now: i64)
    requires
        claim_transition(yc, holder, now) is Ok,
    ensures
        ({
            let (y1, h1, _) = claim_transition(yc, holder, now)->Ok_0;
            claim_transition(y1, h1, now) == Err::<(YieldConfig, HolderInfo, u64), EcosystemError>(
                EcosystemError::NoYieldToClaim,
            )
        }),
{
}

/// The yield configuration after a claim: accrued when the claim is paid,
/// unchanged when it is refused.
pub open spec fn config_after_claim(yc: YieldConfig, holder: HolderInfo, now: i64) -> YieldConfig {
    match claim_transition(yc, holder, now) {
        Ok((y, _, _)) => y,
        Err(_) => yc,
    }
}

proof fn lemma_rate_scaling_keeps_zero(normal_rate_yield: int, apy_bps: int)
    requires
        0 <= normal_rate_yield,
        NORMAL_YIELD_BPS <= apy_bps,
    ensures
        (yield_at_rate(normal_rate_yield, apy_bps) == 0) == (normal_rate_yield == 0),
{
    if normal_rate_yield > 0 {
        assert(normal_rate_yield * apy_bps >= 4_500) by (nonlinear_arith)
            requires
                normal_rate_yield >= 1,
                apy_bps >= 4_500,
        ;
    }
}

/// A holder's yield accrues at that holder's own rate, whatever other
/// holders' campaigns are: whether a claim is paid, and the shared index it
/// leaves behind, do not depend on the claimer's campaign, so a later claim
/// by any other holder gets the same result either way.
pub proof fn lemma_claim_independent_of_claimer_campaign(
    yc: YieldConfig,
    claimer: HolderInfo,
    alternative_campaign_expires_at: i64,
    other: HolderInfo,
    claim_time: i64,
    later: i64,
)
    ensures
        ({
            let alt = HolderInfo { campaign_expires_at: alternative_campaign_expires_at, ..claimer };
            &&& (claim_transition(yc, claimer, claim_time) is Ok) == (claim_transition(
                yc,
                alt,
                claim_time,
            ) is Ok)
            &&& config_after_claim(yc, claimer, claim_time) == config_after_claim(yc, alt, claim_time)
            &&& claim_transition(config_after_claim(yc, claimer, claim_time), other, later)
                == claim_transition(config_after_claim(yc, alt, claim_time), other, later)
        }),
{
    let alt = HolderInfo { campaign_expires_at: alternative_campaign_expires_at, ..claimer };
    let y = refreshed_index(yc, yc.normal_yield_bps, claim_time);
    let base = holder_yield(
        y.global_yield_index as int,
        claimer.yield_index_snapshot as int,
        claimer.token_balance as int,
    );
    lemma_rate_scaling_keeps_zero(
        base,
        apy_for_holder(claimer.campaign_expires_at as int, claim_time as int) as int,
    );
    lemma_rate_scaling_keeps_zero(
        base,
        apy_for_holder(alternative_campaign_expires_at as int, claim_time as int) as int,
    );
}

proof fn lemma_bps_share_bound(d: int, b: int)
    requires
        0 <= d,
        0 <= b,
    ensures
        exact_bps_of(d, b) * 10_000 <= d * b,
        0 <= exact_bps_of(d, b),
        d <= u64::MAX && b <= 10_000 ==> d * b < (exact_bps_of(d, b) + 1) * 10_000,
{
    assert(0 <= d * b) by (nonlinear_arith)
        requires
            0 <= d,
            0 <= b,
    ;
    vstd::arithmetic::div_mod::lemma_fundamental_div_mod(d * b, 10_000);
    if d <= u64::MAX && b <= 10_000 {
        assert(d * b <= d * 10_000) by (nonlinear_arith)
            requires
                0 <= d,
                b <= 10_000,
        ;
    }
}

/// Under a valid split the four shares never add up to more than the yield
/// left to distribute, and fall short of it by at most 3 (one unit of
/// rounding per share), so a distribution keeps the distributed total within
/// the total earned and leaves the earned total unchanged.
pub proof fn lemma_distribution_within_earnings(treasury: TreasuryVault, dist: RevenueDistribution)
    requires
        valid_split(dist),
        treasury.total_yields_distributed <= treasury.total_yields_earned,
    ensures
        shares_total(revenue_shares(treasury, dist)) <= distributable(treasury),
        distributable(treasury) - shares_total(revenue_shares(treasury, dist)) <= 3,
        distribute_transition(treasury, dist) matches Ok((t, _)) ==> {
            &&& t.total_yields_distributed <= t.total_yields_earned
            &&& t.total_yields_earned == treasury.total_yields_earned
        },
{
    let d = distributable(treasury);
    lemma_bps_share_bound(d, dist.holder_share_bps as int);
    lemma_bps_share_bound(d, dist.marketing_share_bps as int);
    lemma_bps_share_bound(d, dist.asset_manager_share_bps as int);
    lemma_bps_share_bound(d, dist.protocol_share_bps as int);
    let s = revenue_shares(treasury, dist);
    assert(d * dist.holder_share_bps + d * dist.marketing_share_bps + d * dist.asset_manager_share_bps
        + d * dist.protocol_share_bps == d * 10_000) by (nonlinear_arith)
        requires
            dist.holder_share_bps + dist.marketing_share_bps + dist.asset_manager_share_bps
                + dist.protocol_share_bps == 10_000,
    ;
    assert(shares_total(s) * 10_000 <= d * 10_000);
    assert(d * 10_000 < (shares_total(s) + 4) * 10_000);
}

/// Reporting Morpho yield keeps the distributed total within the total earned.
pub proof fn lemma_report_keeps_distribution_within_earnings(
    launchpad: LaunchpadState,
    signer: Pubkey,
    treasury: TreasuryVault,
    yc: YieldConfig,
    yield_amount: u64,
)
    requires
        treasury.total_yields_distributed <= treasury.total_yields_earned,
    ensures
        report_yield_transition(launchpad, signer, treasury, yc, yield_amount) matches Ok((t, _))
            ==> t.total_yields_distributed <= t.total_yields_earned,
{
}

/// The Morpho cap is the split's own investment ratio of the treasury's
/// total USDC: an investment that passes the approval, pool, amount and
/// liquidity checks succeeds exactly when the Morpho balance after it is at
/// most `total_usdc * investment_ratio_bps / 10000` (the product saturating at
/// `u64::MAX`, as the program computes it), and it then moves exactly the
/// amount from liquid USDC to the Morpho balance.
pub proof fn lemma_invest_cap_is_the_splits_ratio(
    launchpad: LaunchpadState,
    treasury: TreasuryVault,
    dist: RevenueDistribution,
    yc: YieldConfig,
    pool: MorphoPool,
    amount: u64,
)
    requires
        !launchpad.investment_pending_approval,
        pool.approved,
        pool.is_active,
        amount > 0,
        amount <= treasury.liquid_usdc,
    ensures
        ({
            let product = treasury.total_usdc * dist.investment_ratio_bps;
            let cap = if product > u64::MAX {
                u64::MAX as int / 10_000
            } else {
                product / 10_000
            };
            &&& (invest_transition(launchpad, treasury, dist, yc, pool, amount) is Ok) <==> (
            treasury.morpho_balance + amount <= cap)
            &&& treasury.morpho_balance + amount > cap ==> invest_transition(
                launchpad,
                treasury,
                dist,
                yc,
                pool,
                amount,
            ) == Err::<(TreasuryVault, YieldConfig, MorphoPool), EcosystemError>(
                EcosystemError::InvalidInvestmentAmount,
            )
        }),
        invest_transition(launchpad, treasury, dist, yc, pool, amount) matches Ok((t, _, _)) ==> {
            &&& t.morpho_balance == treasury.morpho_balance + amount
            &&& t.liquid_usdc == treasury.liquid_usdc - amount
            &&& t.total_usdc == treasury.total_usdc
        },
{
}

/// Each party's share of a distribution is the undistributed yield `d` times
/// that party's own basis points over 10000, rounded down (capped at
/// `u64::MAX`), paid to that party's own address; the distributed total grows
/// by the sum of the four shares (saturating). A distribution is refused
/// exactly when nothing is left to distribute.
pub proof fn lemma_distribution_shares_follow_the_split(treasury: TreasuryVault, dist: RevenueDistribution)
    ensures
        (distribute_transition(treasury, dist) is Err) <==> treasury.total_yields_earned
            <= treasury.total_yields_distributed,
        distribute_transition(treasury, dist) matches Ok((t, shares)) ==> {
            let d = treasury.total_yields_earned - treasury.total_yields_distributed;
            &&& shares.holder_share == (if d * dist.holder_share_bps / 10_000 > u64::MAX {
                u64::MAX as int
            } else {
                d * dist.holder_share_bps / 10_000
            })
            &&& shares.marketing_share == (if d * dist.marketing_share_bps / 10_000 > u64::MAX {
                u64::MAX as int
            } else {
                d * dist.marketing_share_bps / 10_000
            })
            &&& shares.manager_share == (if d * dist.asset_manager_share_bps / 10_000 > u64::MAX {
                u64::MAX as int
            } else {
                d * dist.asset_manager_share_bps / 10_000
            })
            &&& shares.protocol_share == (if d * dist.protocol_share_bps / 10_000 > u64::MAX {
                u64::MAX as int
            } else {
                d * dist.protocol_share_bps / 10_000
            })
            &&& shares.marketing_address == dist.marketing_address
            &&& shares.asset_manager_address == dist.asset_manager_address
            &&& shares.protocol_address == dist.protocol_address
            &&& (treasury.total_yields_distributed + shares.holder_share + shares.marketing_share
                + shares.manager_share + shares.protocol_share <= u64::MAX
                ==> t.total_yields_distributed == treasury.total_yields_distributed
                + shares.holder_share + shares.marketing_share + shares.manager_share
                + shares.protocol_share)
            &&& t.total_yields_earned == treasury.total_yields_earned
        },
{
}

/// A burn carries the holder's tier fee, the same fee that a mint of the same
/// amount by the same holder carries: a launchpad investor with a recorded
/// purchase pays 0.1% (10 bps) on the part within that purchase and 0.5% (50
/// bps) on the excess, everyone else 0.5% on the whole amount (each product
/// saturating at `u64::MAX` before the division by 10000).
pub proof fn lemma_burn_fee_is_the_holders_tier_fee(
    launchpad: LaunchpadState,
    yc: YieldConfig,
    holder: HolderInfo,
    amount: u64,
    is_campaign: bool,
    now: i64,
)
    ensures
        burn_transition(launchpad, yc, holder, amount, now) matches Ok((_, _, receipt)) ==> {
            &&& mint_transition(launchpad, yc, holder, amount, is_campaign, now) matches Ok(
                (_, _, _, minted),
            ) && minted.protocol_fee == receipt.protocol_fee
            &&& receipt.usdc_to_return == amount
            &&& (holder.is_launchpad_investor && holder.launchpad_purchased_amount > 0 && amount
                <= holder.launchpad_purchased_amount) ==> receipt.protocol_fee == (if amount * 10
                > u64::MAX {
                u64::MAX as int
            } else {
                amount * 10
            }) / 10_000
            &&& !(holder.is_launchpad_investor && holder.launchpad_purchased_amount > 0)
                ==> receipt.protocol_fee == (if amount * 50 > u64::MAX {
                u64::MAX as int
            } else {
                amount * 50
            }) / 10_000
        },
        mint_transition(launchpad, yc, holder, amount, is_campaign, now) matches Ok(
            (_, _, _, minted),
        ) ==> {
            &&& minted.tokens_to_mint == amount
            &&& (holder.is_launchpad_investor && holder.launchpad_purchased_amount > 0 && amount
                <= holder.launchpad_purchased_amount) ==> minted.protocol_fee == (if amount * 10
                > u64::MAX {
                u64::MAX as int
            } else {
                amount * 10
            }) / 10_000
            &&& !(holder.is_launchpad_investor && holder.launchpad_purchased_amount > 0)
                ==> minted.protocol_fee == (if amount * 50 > u64::MAX {
                u64::MAX as int
            } else {
                amount * 50
            }) / 10_000
        },
{
}

/// The campaign clock starts once, at the first campaign purchase: a mint
/// leaves a started campaign (`campaign_expires_at != 0`) unchanged, a
/// non-campaign mint never starts one, and a campaign mint by a holder whose
/// campaign has not started sets it to end `campaign_duration_seconds` from
/// now (saturating).
pub proof fn lemma_campaign_starts_once(
    launchpad: LaunchpadState,
    yc: YieldConfig,
    holder: HolderInfo,
    amount: u64,
    is_campaign: bool,
    now: i64,
)
    ensures
        mint_transition(launchpad, yc, holder, amount, is_campaign, now) matches Ok((_, _, h, _))
            ==> {
            &&& (holder.campaign_expires_at != 0 || !is_campaign) ==> h.campaign_expires_at
                == holder.campaign_expires_at
            &&& (holder.campaign_expires_at == 0 && is_campaign) ==> h.campaign_expires_at == (
            if now + yc.campaign_duration_seconds > i64::MAX {
                i64::MAX as int
            } else if now + yc.campaign_duration_seconds < i64::MIN {
                i64::MIN as int
            } else {
                now + yc.campaign_duration_seconds
            })
        },
{
}

/// A claim pays out all of the holder's unclaimed yield: a holder with
/// unclaimed yield is never refused for lack of yield, the amount paid is
/// at least that unclaimed yield (it adds the yield earned since the
/// snapshot, saturating), and afterwards nothing is left unclaimed.
pub proof fn lemma_claim_pays_unclaimed_yield(yc: YieldConfig, holder: HolderInfo, now: i64)
    ensures
        holder.unclaimed_yield > 0 ==> claim_transition(yc, holder, now) is Ok,
        claim_transition(yc, holder, now) matches Ok((_, h, paid)) ==> {
            &&& paid >= holder.unclaimed_yield
            &&& paid > 0
            &&& h.unclaimed_yield == 0
            &&& h.token_balance == holder.token_balance
        },
{
    let y = refreshed_index(yc, yc.normal_yield_bps, now);
    let base = holder_yield(
        y.global_yield_index as int,
        holder.yield_index_snapshot as int,
        holder.token_balance as int,
    );
    assert(0 <= base);
    let apy = apy_for_holder(holder.campaign_expires_at as int, now as int) as int;
    assert(0 <= base * apy) by (nonlinear_arith)
        requires
            0 <= base,
            0 <= apy,
    ;
}

/// A mint is refused exactly while the launchpad is paused or for a zero
/// amount; otherwise it mints the amount 1:1, adds it to the holder's balance
/// and to the launchpad's minted and raised totals (where they do not
/// overflow), and never lowers the holder's unclaimed yield or the index.
pub proof fn lemma_mint_credits_the_amount(
    launchpad: LaunchpadState,
    yc: YieldConfig,
    holder: HolderInfo,
    amount: u64,
    is_campaign: bool,
    now: i64,
)
    ensures
        (mint_transition(launchpad, yc, holder, amount, is_campaign, now) is Ok) <==> (
        !launchpad.paused && amount > 0),
        mint_transition(launchpad, yc, holder, amount, is_campaign, now) matches Ok(
            (l, y, h, receipt),
        ) ==> {
            &&& receipt.tokens_to_mint == amount
            &&& holder.token_balance + amount <= u64::MAX ==> h.token_balance == holder.token_balance
                + amount
            &&& launchpad.total_tokens_minted + amount <= u64::MAX ==> l.total_tokens_minted
                == launchpad.total_tokens_minted + amount
            &&& launchpad.total_usdc_raised + amount <= u64::MAX ==> l.total_usdc_raised
                == launchpad.total_usdc_raised + amount
            &&& h.unclaimed_yield >= holder.unclaimed_yield
            &&& h.yield_index_snapshot == y.global_yield_index
            &&& y.global_yield_index >= yc.global_yield_index
            &&& l.paused == launchpad.paused && l.authority == launchpad.authority
        },
{
    let y = refreshed_index(yc, yc.normal_yield_bps, now);
    let base = holder_yield(
        y.global_yield_index as int,
        holder.yield_index_snapshot as int,
        holder.token_balance as int,
    );
    let apy = apy_for_holder(holder.campaign_expires_at as int, now as int) as int;
    assert(0 <= base * apy) by (nonlinear_arith)
        requires
            0 <= base,
            0 <= apy,
    ;
    if !launchpad.paused && amount > 0 {
        crate::morpho::lemma_accrual_monotone_in_time(
            yc.global_yield_index,
            yc.normal_yield_bps,
            0,
            index_elapsed(now as int, yc.last_index_update as int),
        );
    }
}

/// A burn is refused exactly while the launchpad is paused, for a zero
/// amount, or beyond the holder's balance; otherwise the balance drops by
/// exactly the amount and the same amount of USDC is returned.
pub proof fn lemma_burn_debits_the_amount(
    launchpad: LaunchpadState,
    yc: YieldConfig,
    holder: HolderInfo,
    amount: u64,
    now: i64,
)
    ensures
        (burn_transition(launchpad, yc, holder, amount, now) is Ok) <==> (!launchpad.paused && amount
            > 0 && amount <= holder.token_balance),
        burn_transition(launchpad, yc, holder, amount, now) matches Ok((_, h, receipt)) ==> {
            &&& h.token_balance == holder.token_balance - amount
            &&& receipt.usdc_to_return == amount
            &&& receipt.protocol_fee <= amount
        },
{
}

/// A claim by a holder in an active campaign pays the campaign rate (70%)
/// where the same holder outside a campaign would be paid the normal rate
/// (45%): the campaign payout is the normal payout times 7000 / 4500, rounded
/// down (capped at `u64::MAX`), and both leave the same shared index.
pub proof fn lemma_campaign_claim_pays_campaign_rate(
    yc: YieldConfig,
    holder: HolderInfo,
    campaign_expires_at: i64,
    now: i64,
)
    requires
        holder.unclaimed_yield == 0,
        holder.campaign_expires_at == 0,
        campaign_expires_at > 0,
        now < campaign_expires_at,
    ensures
        claim_transition(yc, holder, now) matches Ok((y, _, normal_paid)) ==> {
            let campaign_holder = HolderInfo { campaign_expires_at, ..holder };
            &&& claim_transition(yc, campaign_holder, now) matches Ok((y2, _, campaign_paid))
                && y2 == y && campaign_paid == (if normal_paid * 7_000 / 4_500 > u64::MAX {
                u64::MAX as int
            } else {
                normal_paid * 7_000 / 4_500
            })
        },
{
    let y = refreshed_index(yc, yc.normal_yield_bps, now);
    let base = holder_yield(
        y.global_yield_index as int,
        holder.yield_index_snapshot as int,
        holder.token_balance as int,
    );
    assert(0 <= base <= u64::MAX);
    vstd::arithmetic::div_mod::lemma_div_multiples_vanish(base, 4_500);
    assert(base * 4_500 == 4_500 * base) by (nonlinear_arith);
    if base > 0 {
        assert(base * 7_000 >= 4_500) by (nonlinear_arith)
            requires
                base >= 1,
        ;
    }
}

/// An unstake request is refused exactly for a zero amount or one beyond the
/// holder's balance; otherwise it takes the amount off the balance and
/// records a fresh request, started now, to return the same amount of USDC.
pub proof fn lemma_unstake_request_records_the_amount(
    yc: YieldConfig,
    holder: HolderInfo,
    user: Pubkey,
    amount: u64,
    now: i64,
    bump: u8,
)
    ensures
        (request_unstake_transition(yc, holder, user, amount, now, bump) is Ok) <==> (amount > 0
            && amount <= holder.token_balance),
        request_unstake_transition(yc, holder, user, amount, now, bump) matches Ok((h, request))
            ==> {
            &&& h.token_balance == holder.token_balance - amount
            &&& request.amount == amount
            &&& request.usdc_to_return == amount
            &&& request.requested_at == now
            &&& request.user == user
            &&& !request.completed && !request.emergency_redeemed
        },
{
}

/// The 48 business-hour wait: an open request is refused as too early at any
/// time less than 48 hours after it was made, and completes, returning its
/// USDC, at any time a week or more after it was made (a week always holds
/// five business days).
pub proof fn lemma_unstake_wait_is_48_business_hours(request: UnstakingRequest, now: i64)
    requires
        !request.completed,
        !request.emergency_redeemed,
    ensures
        now < request.requested_at + 172_800 ==> complete_unstake_transition(request, now) == Err::<
            (UnstakingRequest, u64),
            EcosystemError,
        >(EcosystemError::UnstakeCooldownNotMet),
        now >= request.requested_at + 604_800 ==> (complete_unstake_transition(request, now) matches Ok(
            (done, paid),
        ) && paid == request.usdc_to_return && done.completed),
{
    lemma_business_seconds_bounds(request.requested_at as int, now as int);
    if now >= request.requested_at + 604_800 {
        let week_end = request.requested_at + 604_800;
        lemma_business_seconds_weekly(request.requested_at as int);
        crate::rwa::lemma_business_seconds_additive(request.requested_at as int, week_end, now as int);
        lemma_business_seconds_bounds(week_end, now as int);
    }
}

/// An emergency redemption withholds exactly the 0.5% fee: the amount paid
/// plus `amount * 50 / 10000` is the requested amount.
pub proof fn lemma_emergency_fee_is_half_a_percent(request: UnstakingRequest)
    ensures
        (emergency_redeem_transition(request) is Ok) <==> (!request.completed
            && !request.emergency_redeemed),
        emergency_redeem_transition(request) matches Ok((done, paid)) ==> {
            &&& paid + request.amount * 50 / 10_000 == request.amount
            &&& done.completed && done.emergency_redeemed
        },
{
}

/// An accepted investment adds exactly the amount to the pool's and the
/// configuration's invested totals (where they do not overflow).
pub proof fn lemma_invest_records_the_amount(
    launchpad: LaunchpadState,
    treasury: TreasuryVault,
    dist: RevenueDistribution,
    yc: YieldConfig,
    pool: MorphoPool,
    amount: u64,
)
    ensures
        invest_transition(launchpad, treasury, dist, yc, pool, amount) matches Ok((_, y, p)) ==> {
            &&& pool.invested_usdc + amount <= u64::MAX ==> p.invested_usdc == pool.invested_usdc
                + amount
            &&& yc.morpho_invested_usdc + amount <= u64::MAX ==> y.morpho_invested_usdc
                == yc.morpho_invested_usdc + amount
            &&& p.approved && p.is_active
        },
        launchpad.investment_pending_approval ==> invest_transition(
            launchpad,
            treasury,
            dist,
            yc,
            pool,
            amount,
        ) == Err::<(TreasuryVault, YieldConfig, MorphoPool), EcosystemError>(
            EcosystemError::InvestmentPendingApproval,
        ),
{
}

/// A yield report is accepted exactly from the launchpad authority and for a
/// nonzero amount, and then credits exactly that amount to the treasury's
/// Morpho yield, total yield and liquid USDC (where they do not overflow).
pub proof fn lemma_report_credits_the_yield(
    launchpad: LaunchpadState,
    signer: Pubkey,
    treasury: TreasuryVault,
    yc: YieldConfig,
    amount: u64,
)
    ensures
        (report_yield_transition(launchpad, signer, treasury, yc, amount) is Ok) <==> (same_key(
            launchpad.authority,
            signer,
        ) && amount > 0),
        report_yield_transition(launchpad, signer, treasury, yc, amount) matches Ok((t, y)) ==> {
            &&& treasury.total_yields_earned + amount <= u64::MAX ==> t.total_yields_earned
                == treasury.total_yields_earned + amount
            &&& treasury.morpho_yield_earned + amount <= u64::MAX ==> t.morpho_yield_earned
                == treasury.morpho_yield_earned + amount
            &&& treasury.liquid_usdc + amount <= u64::MAX ==> t.liquid_usdc == treasury.liquid_usdc
                + amount
            &&& t.total_yields_distributed == treasury.total_yields_distributed
            &&& yc.morpho_yield_earned + amount <= u64::MAX ==> y.morpho_yield_earned
                == yc.morpho_yield_earned + amount
        },
{
}

/// A split update is accepted exactly from the launchpad authority, with four
/// shares adding up to 10000 bps and a ratio of at most 10000 bps; it then
/// sets exactly the given shares and ratio and keeps the addresses.
pub proof fn lemma_split_update_sets_the_split(
    launchpad: LaunchpadState,
    signer: Pubkey,
    dist: RevenueDistribution,
    holder_bps: u64,
    marketing_bps: u64,
    asset_manager_bps: u64,
    protocol_bps: u64,
    investment_ratio_bps: u64,
)
    ensures
        (update_split_transition(
            launchpad,
            signer,
            dist,
            holder_bps,
            marketing_bps,
            asset_manager_bps,
            protocol_bps,
            investment_ratio_bps,
        ) is Ok) <==> (same_key(launchpad.authority, signer) && holder_bps + marketing_bps
            + asset_manager_bps + protocol_bps == 10_000 && investment_ratio_bps <= 10_000),
        update_split_transition(
            launchpad,
            signer,
            dist,
            holder_bps,
            marketing_bps,
            asset_manager_bps,
            protocol_bps,
            investment_ratio_bps,
        ) matches Ok(d) ==> {
            &&& d.holder_share_bps == holder_bps
            &&& d.marketing_share_bps == marketing_bps
            &&& d.asset_manager_share_bps == asset_manager_bps
            &&& d.protocol_share_bps == protocol_bps
            &&& d.investment_ratio_bps == investment_ratio_bps
            &&& d.marketing_address == dist.marketing_address
            &&& d.asset_manager_address == dist.asset_manager_address
            &&& d.protocol_address == dist.protocol_address
        },
{
}

/// The treasury starts with the documented split: 40% to holders and 20%
/// each to marketing, the asset manager and the protocol (100% in all), 80%
/// of the pool invested, the given recipients, and an empty vault whose
/// yield index starts at 1.0 with the 45% and 70% rates.
pub proof fn lemma_initial_split_is_forty_twenty_twenty_twenty(
    authority: Pubkey,
    marketing_address: Pubkey,
    asset_manager_address: Pubkey,
    protocol_address: Pubkey,
    now: i64,
    bump: u8,
)
    ensures
        ({
            let d = new_revenue_distribution(
                authority,
                marketing_address,
                asset_manager_address,
                protocol_address,
                bump,
            );
            &&& d.holder_share_bps == 4_000
            &&& d.marketing_share_bps == 2_000
            &&& d.asset_manager_share_bps == 2_000
            &&& d.protocol_share_bps == 2_000
            &&& d.investment_ratio_bps == 8_000
            &&& d.marketing_address == marketing_address
            &&& d.asset_manager_address == asset_manager_address
            &&& d.protocol_address == protocol_address
            &&& d.authority == authority
        }),
        new_treasury(authority, now, bump).total_usdc == 0,
        new_treasury(authority, now, bump).total_yields_earned == 0,
        new_treasury(authority, now, bump).total_yields_distributed == 0,
        new_yield_config(now, bump).global_yield_index == 1_000_000_000_000,
        new_yield_config(now, bump).normal_yield_bps == 4_500,
        new_yield_config(now, bump).campaign_yield_bps == 7_000,
        new_yield_config(now, bump).campaign_duration_seconds == 15_552_000,
{
}

} // verus!
