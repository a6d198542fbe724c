use ecosystem_token::errors::EcosystemError;
use ecosystem_token::instructions::{
    approve_morpho_pool, burn_tokens, claim_yield, complete_unstake, distribute_revenue,
    emergency_redeem_defi, initialize_launchpad, initialize_treasury, invest_in_morpho,
    mint_tokens, pause_launchpad, propose_morpho_pool, report_morpho_yield, request_unstake,
    resume_launchpad, update_revenue_split, BurnReceipt, MintReceipt, RevenueShares,
};
use ecosystem_token::morpho::{CAMPAIGN_DURATION_SECONDS, YIELD_INDEX_PRECISION};
use ecosystem_token::state::{HolderInfo, LaunchpadState, MorphoPoolType, Pubkey, YieldConfig};

const MONDAY: i64 = 1704067200;

fn key(n: u8) -> Pubkey {
    Pubkey { bytes: [n; 32] }
}

fn launchpad() -> LaunchpadState {
    initialize_launchpad(key(1), key(2), key(3), key(4), key(5), key(6), 254)
}

fn yield_config(now: i64) -> YieldConfig {
    initialize_treasury(key(1), key(7), key(8), key(9), now, 1, 2, 3).2
}

fn new_holder(user: Pubkey) -> HolderInfo {
    HolderInfo {
        user,
        yield_index_snapshot: 0,
        unclaimed_yield: 0,
        campaign_expires_at: 0,
        is_launchpad_investor: false,
        launchpad_purchased_amount: 0,
        token_balance: 0,
        bump: 0,
    }
}

#[test]
fn launchpad_starts_empty_unpaused_and_blocked() {
    let l = launchpad();
    assert_eq!(l.total_tokens_minted, 0);
    assert_eq!(l.total_usdc_raised, 0);
    assert!(!l.paused);
    assert!(l.investment_pending_approval);
    assert_eq!(l.vault.bytes, [4; 32]);
    assert_eq!(l.mint_authority.bytes, [6; 32]);
    assert_eq!(l.bump, 254);
}

#[test]
fn treasury_starts_with_default_split() {
    let (t, d, y) = initialize_treasury(key(1), key(7), key(8), key(9), 42, 1, 2, 3);
    assert_eq!(t.total_yields_earned, 0);
    assert_eq!(t.last_update, 42);
    assert_eq!(
        (d.holder_share_bps, d.marketing_share_bps, d.asset_manager_share_bps, d.protocol_share_bps),
        (4_000, 2_000, 2_000, 2_000)
    );
    assert_eq!(
        (d.marketing_address, d.asset_manager_address, d.protocol_address),
        (key(7), key(8), key(9))
    );
    assert_eq!(d.investment_ratio_bps, 8_000);
    assert_eq!(y.global_yield_index, YIELD_INDEX_PRECISION);
    assert_eq!(y.normal_yield_bps, 4_500);
    assert_eq!(y.campaign_yield_bps, 7_000);
    assert_eq!(y.last_index_update, 42);
}

#[test]
fn mint_at_one_to_one_peg_with_fee() {
    let mut l = launchpad();
    let mut y = yield_config(MONDAY);
    let mut h = new_holder(key(10));
    let receipt = mint_tokens(&mut l, &mut y, &mut h, 1_000_000, true, MONDAY).unwrap();
    assert_eq!(receipt, MintReceipt { tokens_to_mint: 1_000_000, protocol_fee: 5_000 });
    assert_eq!(h.token_balance, 1_000_000);
    assert_eq!(h.yield_index_snapshot, YIELD_INDEX_PRECISION);
    assert_eq!(h.campaign_expires_at, MONDAY + CAMPAIGN_DURATION_SECONDS);
    assert_eq!(l.total_tokens_minted, 1_000_000);
    assert_eq!(l.total_usdc_raised, 1_000_000);
}

#[test]
fn mint_refusals() {
    let mut l = launchpad();
    let mut y = yield_config(MONDAY);
    let mut h = new_holder(key(10));
    assert_eq!(
        mint_tokens(&mut l, &mut y, &mut h, 0, false, MONDAY),
        Err(EcosystemError::InsufficientUsdc)
    );
    pause_launchpad(&mut l, &key(1)).unwrap();
    assert_eq!(
        mint_tokens(&mut l, &mut y, &mut h, 5, false, MONDAY),
        Err(EcosystemError::LaunchpadPaused)
    );
    assert_eq!(h.token_balance, 0);
    assert_eq!(l.total_tokens_minted, 0);
}

#[test]
fn mint_then_burn_restores_balance_and_pays_back_one_to_one() {
    let mut l = launchpad();
    let mut y = yield_config(MONDAY);
    let mut h = new_holder(key(10));
    mint_tokens(&mut l, &mut y, &mut h, 2_000_000, false, MONDAY).unwrap();
    let receipt = burn_tokens(&l, &mut y, &mut h, 2_000_000, MONDAY + 31_536_000).unwrap();
    assert_eq!(receipt, BurnReceipt { usdc_to_return: 2_000_000, protocol_fee: 10_000 });
    assert_eq!(h.token_balance, 0);
    // a year at 45% on 2_000_000 tokens was settled into unclaimed yield
    assert_eq!(h.unclaimed_yield, 900_000);
    assert_eq!(y.global_yield_index, 1_450_000_000_000);
}

#[test]
fn burn_refusals_leave_state_unchanged() {
    let mut l = launchpad();
    let mut y = yield_config(MONDAY);
    let mut h = new_holder(key(10));
    mint_tokens(&mut l, &mut y, &mut h, 100, false, MONDAY).unwrap();
    assert_eq!(
        burn_tokens(&l, &mut y, &mut h, 0, MONDAY + 10),
        Err(EcosystemError::InvalidRedeemAmount)
    );
    assert_eq!(
        burn_tokens(&l, &mut y, &mut h, 101, MONDAY + 10),
        Err(EcosystemError::InsufficientTokens)
    );
    assert_eq!(y.last_index_update, MONDAY);
    assert_eq!(h.token_balance, 100);
    pause_launchpad(&mut l, &key(1)).unwrap();
    assert_eq!(
        burn_tokens(&l, &mut y, &mut h, 50, MONDAY + 10),
        Err(EcosystemError::LaunchpadPaused)
    );
    resume_launchpad(&mut l, &key(1)).unwrap();
    assert!(burn_tokens(&l, &mut y, &mut h, 50, MONDAY + 10).is_ok());
    assert_eq!(h.token_balance, 50);
}

#[test]
fn pause_and_resume_need_the_authority() {
    let mut l = launchpad();
    assert_eq!(pause_launchpad(&mut l, &key(99)), Err(EcosystemError::Unauthorized));
    assert!(!l.paused);
    pause_launchpad(&mut l, &key(1)).unwrap();
    assert!(l.paused);
    assert_eq!(resume_launchpad(&mut l, &key(99)), Err(EcosystemError::Unauthorized));
    assert!(l.paused);
    resume_launchpad(&mut l, &key(1)).unwrap();
    assert!(!l.paused);
}

#[test]
fn claim_pays_accrued_yield_once() {
    let mut l = launchpad();
    let mut y = yield_config(MONDAY);
    let mut h = new_holder(key(10));
    mint_tokens(&mut l, &mut y, &mut h, 1_000_000, false, MONDAY).unwrap();
    let later = MONDAY + 31_536_000;
    assert_eq!(claim_yield(&mut y, &mut h, later), Ok(450_000));
    assert_eq!(h.unclaimed_yield, 0);
    assert_eq!(h.yield_index_snapshot, y.global_yield_index);
    assert_eq!(claim_yield(&mut y, &mut h, later), Err(EcosystemError::NoYieldToClaim));
}

#[test]
fn claim_uses_campaign_rate() {
    let mut l = launchpad();
    let mut y = yield_config(MONDAY);
    let mut h = new_holder(key(10));
    mint_tokens(&mut l, &mut y, &mut h, 1_000_000, true, MONDAY).unwrap();
    // 0.1 year at 70%: 7% of the balance
    assert_eq!(claim_yield(&mut y, &mut h, MONDAY + 3_153_600), Ok(70_000));
}

#[test]
fn unstake_waits_for_48_business_hours() {
    let mut l = launchpad();
    let mut y = yield_config(MONDAY);
    let mut h = new_holder(key(10));
    mint_tokens(&mut l, &mut y, &mut h, 1_000, false, MONDAY).unwrap();
    assert_eq!(
        request_unstake(&y, &mut h, key(10), 0, MONDAY, 9).err(),
        Some(EcosystemError::InsufficientTokens)
    );
    assert_eq!(
        request_unstake(&y, &mut h, key(10), 1_001, MONDAY, 9).err(),
        Some(EcosystemError::InsufficientTokens)
    );
    // requested Thursday 00:00
    let thursday = MONDAY + 3 * 86_400;
    let mut req = request_unstake(&y, &mut h, key(10), 400, thursday, 9).unwrap();
    assert_eq!(h.token_balance, 600);
    assert_eq!(req.usdc_to_return, 400);
    assert_eq!(req.requested_at, thursday);
    // Friday 01:00: 25 business hours so far
    assert_eq!(complete_unstake(&mut req, thursday + 86_400 + 3_600), Err(EcosystemError::UnstakeCooldownNotMet));
    // Sunday: still 48 business hours, the weekend does not count further
    assert_eq!(complete_unstake(&mut req, thursday + 3 * 86_400), Ok(400));
    assert!(req.completed);
    assert_eq!(complete_unstake(&mut req, thursday + 10 * 86_400), Err(EcosystemError::UnstakeAlreadyCompleted));
    assert_eq!(emergency_redeem_defi(&mut req), Err(EcosystemError::UnstakeAlreadyCompleted));
}

#[test]
fn unstake_over_weekend_is_paused() {
    let mut l = launchpad();
    let mut y = yield_config(MONDAY);
    let mut h = new_holder(key(10));
    mint_tokens(&mut l, &mut y, &mut h, 1_000, false, MONDAY).unwrap();
    let friday = MONDAY + 4 * 86_400;
    let mut req = request_unstake(&y, &mut h, key(10), 10, friday, 9).unwrap();
    // Monday 00:00: only Friday counted
    assert_eq!(complete_unstake(&mut req, friday + 3 * 86_400), Err(EcosystemError::UnstakeCooldownNotMet));
    // Tuesday 00:00: Friday + Monday
    assert_eq!(complete_unstake(&mut req, friday + 4 * 86_400), Ok(10));
}

#[test]
fn emergency_redeem_is_immediate_and_once() {
    let mut l = launchpad();
    let mut y = yield_config(MONDAY);
    let mut h = new_holder(key(10));
    mint_tokens(&mut l, &mut y, &mut h, 1_000, false, MONDAY).unwrap();
    let mut req = request_unstake(&y, &mut h, key(10), 300, MONDAY, 9).unwrap();
    // 0.5% emergency fee: 300 * 50 / 10_000 = 1 is withheld
    assert_eq!(emergency_redeem_defi(&mut req), Ok(299));
    assert!(req.completed && req.emergency_redeemed);
    assert_eq!(emergency_redeem_defi(&mut req), Err(EcosystemError::UnstakeAlreadyCompleted));
    assert_eq!(complete_unstake(&mut req, MONDAY + 10 * 86_400), Err(EcosystemError::UnstakeAlreadyCompleted));
}

#[test]
fn morpho_pool_lifecycle() {
    let mut l = launchpad();
    let (mut t, d, mut y) = initialize_treasury(key(1), key(7), key(8), key(9), MONDAY, 1, 2, 3);
    t.total_usdc = 1_000_000;
    t.liquid_usdc = 1_000_000;
    assert_eq!(
        propose_morpho_pool(&l, &key(99), key(20), [0; 64], MorphoPoolType::CashEquivalentBacked, 500, 7)
            .err(),
        Some(EcosystemError::Unauthorized)
    );
    let mut pool = propose_morpho_pool(
        &l,
        &key(1),
        key(20),
        [b'M'; 64],
        MorphoPoolType::StablecoinIsolatedVault,
        500,
        7,
    )
    .unwrap();
    assert!(!pool.approved && !pool.is_active);
    assert_eq!(
        invest_in_morpho(&l, &mut t, &d, &mut y, &mut pool, 100),
        Err(EcosystemError::InvestmentPendingApproval)
    );
    assert_eq!(approve_morpho_pool(&mut l, &key(99), &mut pool, MONDAY), Err(EcosystemError::Unauthorized));
    approve_morpho_pool(&mut l, &key(1), &mut pool, MONDAY).unwrap();
    assert!(pool.approved && pool.is_active);
    assert_eq!(pool.approved_at, MONDAY);
    assert!(!l.investment_pending_approval);
    assert_eq!(
        invest_in_morpho(&l, &mut t, &d, &mut y, &mut pool, 0),
        Err(EcosystemError::InvalidInvestmentAmount)
    );
    assert_eq!(
        invest_in_morpho(&l, &mut t, &d, &mut y, &mut pool, 800_001),
        Err(EcosystemError::InvalidInvestmentAmount)
    );
    invest_in_morpho(&l, &mut t, &d, &mut y, &mut pool, 800_000).unwrap();
    assert_eq!(t.liquid_usdc, 200_000);
    assert_eq!(t.morpho_balance, 800_000);
    assert_eq!(pool.invested_usdc, 800_000);
    assert_eq!(y.morpho_invested_usdc, 800_000);
    assert_eq!(
        invest_in_morpho(&l, &mut t, &d, &mut y, &mut pool, 300_000),
        Err(EcosystemError::InsufficientTreasury)
    );
    // the cap is on the total invested: 20% stays liquid
    assert_eq!(
        invest_in_morpho(&l, &mut t, &d, &mut y, &mut pool, 1),
        Err(EcosystemError::InvalidInvestmentAmount)
    );
    assert_eq!(t.morpho_balance, 800_000);
}

#[test]
fn morpho_cap_counts_earlier_investments() {
    let mut l = launchpad();
    let (mut t, d, mut y) = initialize_treasury(key(1), key(7), key(8), key(9), MONDAY, 1, 2, 3);
    t.total_usdc = 100;
    t.liquid_usdc = 100;
    let mut pool =
        propose_morpho_pool(&l, &key(1), key(20), [0; 64], MorphoPoolType::CashEquivalentBacked, 1, 7)
            .unwrap();
    approve_morpho_pool(&mut l, &key(1), &mut pool, MONDAY).unwrap();
    invest_in_morpho(&l, &mut t, &d, &mut y, &mut pool, 50).unwrap();
    invest_in_morpho(&l, &mut t, &d, &mut y, &mut pool, 30).unwrap();
    assert_eq!(
        invest_in_morpho(&l, &mut t, &d, &mut y, &mut pool, 20),
        Err(EcosystemError::InvalidInvestmentAmount)
    );
    assert_eq!((t.morpho_balance, t.liquid_usdc), (80, 20));
}

#[test]
fn morpho_pool_refusals_by_status() {
    let mut l = launchpad();
    let (mut t, d, mut y) = initialize_treasury(key(1), key(7), key(8), key(9), MONDAY, 1, 2, 3);
    let mut pool = propose_morpho_pool(&l, &key(1), key(20), [0; 64], MorphoPoolType::FixedAssetCollateralTier, 1, 7)
        .unwrap();
    l.investment_pending_approval = false;
    assert_eq!(
        invest_in_morpho(&l, &mut t, &d, &mut y, &mut pool, 1),
        Err(EcosystemError::PoolNotApproved)
    );
    pool.approved = true;
    assert_eq!(
        invest_in_morpho(&l, &mut t, &d, &mut y, &mut pool, 1),
        Err(EcosystemError::PoolNotActive)
    );
}

#[test]
fn yield_report_and_distribution() {
    let l = launchpad();
    let (mut t, mut d, mut y) = initialize_treasury(key(1), key(7), key(8), key(9), MONDAY, 1, 2, 3);
    assert_eq!(distribute_revenue(&mut t, &d), Err(EcosystemError::InsufficientYield));
    assert_eq!(report_morpho_yield(&l, &key(99), &mut t, &mut y, 10), Err(EcosystemError::Unauthorized));
    assert_eq!(report_morpho_yield(&l, &key(1), &mut t, &mut y, 0), Err(EcosystemError::NoMorphoYield));
    report_morpho_yield(&l, &key(1), &mut t, &mut y, 10_003).unwrap();
    assert_eq!(t.total_yields_earned, 10_003);
    assert_eq!(t.morpho_yield_earned, 10_003);
    assert_eq!(t.liquid_usdc, 10_003);
    assert_eq!(y.morpho_yield_earned, 10_003);
    let shares = distribute_revenue(&mut t, &d).unwrap();
    assert_eq!(
        shares,
        RevenueShares {
            holder_share: 4_001,
            marketing_share: 2_000,
            manager_share: 2_000,
            protocol_share: 2_000,
            marketing_address: key(7),
            asset_manager_address: key(8),
            protocol_address: key(9),
        }
    );
    assert_eq!(t.total_yields_distributed, 10_001);
    assert!(t.total_yields_distributed <= t.total_yields_earned);
    // new split
    assert_eq!(
        update_revenue_split(&l, &key(99), &mut d, 10_000, 0, 0, 0, 0),
        Err(EcosystemError::Unauthorized)
    );
    assert_eq!(
        update_revenue_split(&l, &key(1), &mut d, 5_000, 0, 0, 0, 0),
        Err(EcosystemError::InvalidDistributionShares)
    );
    assert_eq!(
        update_revenue_split(&l, &key(1), &mut d, 10_000, 0, 0, 0, 10_001),
        Err(EcosystemError::InvalidInvestmentRatio)
    );
    // shares whose sum leaves u64 are refused, not wrapped
    assert_eq!(
        update_revenue_split(&l, &key(1), &mut d, u64::MAX, 10_001, 0, 0, 0),
        Err(EcosystemError::InvalidDistributionShares)
    );
    assert_eq!(d.holder_share_bps, 4_000);
    update_revenue_split(&l, &key(1), &mut d, 7_000, 1_000, 1_000, 1_000, 9_000).unwrap();
    assert_eq!(d.holder_share_bps, 7_000);
    assert_eq!(d.investment_ratio_bps, 9_000);
    report_morpho_yield(&l, &key(1), &mut t, &mut y, 1_000).unwrap();
    let shares = distribute_revenue(&mut t, &d).unwrap();
    // 1_002 distributable
    assert_eq!(shares.holder_share, 701);
    assert_eq!(shares.marketing_share, 100);
    assert_eq!(t.total_yields_distributed, 10_001 + 701 + 300);
}

#[test]
fn large_distribution_is_exact() {
    let l = launchpad();
    let (mut t, d, mut y) = initialize_treasury(key(1), key(7), key(8), key(9), MONDAY, 1, 2, 3);
    report_morpho_yield(&l, &key(1), &mut t, &mut y, 10_000_000_000_000_000).unwrap();
    let shares = distribute_revenue(&mut t, &d).unwrap();
    assert_eq!(shares.holder_share, 4_000_000_000_000_000);
    assert_eq!(shares.protocol_share, 2_000_000_000_000_000);
    assert_eq!(t.total_yields_distributed, 10_000_000_000_000_000);
}

#[test]
fn claim_by_a_campaign_holder_does_not_raise_other_holders_yield() {
    let run = |b_campaign: bool| {
        let mut l = launchpad();
        let mut y = yield_config(MONDAY);
        let mut a = new_holder(key(10));
        let mut b = new_holder(key(11));
        mint_tokens(&mut l, &mut y, &mut a, 1_000_000, false, MONDAY).unwrap();
        mint_tokens(&mut l, &mut y, &mut b, 1_000_000, b_campaign, MONDAY).unwrap();
        let b_claim = claim_yield(&mut y, &mut b, MONDAY + 3_153_600).unwrap();
        let a_claim = claim_yield(&mut y, &mut a, MONDAY + 31_536_000).unwrap();
        (b_claim, a_claim)
    };
    let (b_campaign, a_with) = run(true);
    let (b_normal, a_without) = run(false);
    // B earns 70% or 45% over 0.1 year
    assert_eq!((b_campaign, b_normal), (70_000, 45_000));
    // A's yield is the same either way
    assert_eq!(a_with, a_without);
}

#[test]
fn settlement_uses_the_holders_rate() {
    let mut l = launchpad();
    let mut y = yield_config(MONDAY);
    let mut h = new_holder(key(10));
    mint_tokens(&mut l, &mut y, &mut h, 1_000_000, true, MONDAY).unwrap();
    // a second purchase 0.1 year later settles 0.1 year at 70%
    mint_tokens(&mut l, &mut y, &mut h, 1, true, MONDAY + 3_153_600).unwrap();
    assert_eq!(h.unclaimed_yield, 70_000);
}

#[test]
fn completed_request_with_far_future_time_is_refused() {
    let mut l = launchpad();
    let mut y = yield_config(MONDAY);
    let mut h = new_holder(key(10));
    mint_tokens(&mut l, &mut y, &mut h, 10, false, MONDAY).unwrap();
    let mut req = request_unstake(&y, &mut h, key(10), 10, -5, 9).unwrap();
    assert_eq!(emergency_redeem_defi(&mut req), Ok(10));
    assert_eq!(complete_unstake(&mut req, i64::MAX), Err(EcosystemError::UnstakeAlreadyCompleted));
}
