use ecosystem_token::errors::EcosystemError;
use ecosystem_token::investment_instructions::{
    confirm_ethena_investment, confirm_sky_investment, initialize_ethena_position,
    initialize_sky_position, invest_usdc_to_susds, invest_usdt_to_susde, report_ethena_yield,
    report_sky_yield, withdraw_from_susde, withdraw_from_susds, InvestmentError,
};
use ecosystem_token::state::{PoolState, Pubkey};
use ecosystem_token::yield_strategy::{StrategyStatus, YieldStrategyError};

fn key(n: u8) -> Pubkey {
    Pubkey { bytes: [n; 32] }
}

fn pool(total_usdc: u64, liquid_usdc: u64, total_usdt: u64, liquid_usdt: u64) -> PoolState {
    PoolState {
        authority: key(1),
        total_usdc,
        liquid_usdc,
        invested_usdc: 0,
        total_usdt,
        liquid_usdt,
        invested_usdt: 0,
        total_yield_distributed: 0,
        last_update_ts: 0,
        bump: 0,
    }
}

#[test]
fn sky_position_lifecycle() {
    let mut p = pool(1_000_000, 1_000_000, 0, 0);
    let mut pos = initialize_sky_position(key(1), 10, 5);
    assert_eq!(pos.status, StrategyStatus::Inactive);
    assert_eq!(pos.current_apy_bps, 600);
    invest_usdc_to_susds(&mut p, &mut pos, 20).unwrap();
    assert_eq!((p.invested_usdc, p.liquid_usdc), (800_000, 200_000));
    assert_eq!(p.last_update_ts, 20);
    assert_eq!(pos.usdc_deposited, 800_000);
    assert_eq!(pos.status, StrategyStatus::PendingExecution);
    // a second investment is refused while the first awaits the keeper
    assert_eq!(
        invest_usdc_to_susds(&mut p, &mut pos, 21),
        Err(InvestmentError::Strategy(YieldStrategyError::InvestmentAlreadyActive))
    );
    // yield cannot be reported before the position is live
    assert_eq!(
        report_sky_yield(&mut pos, &mut p, &key(1), 900_000, 700, 25, 30),
        Err(InvestmentError::Strategy(YieldStrategyError::InvalidStrategyStatus))
    );
    // only the protocol authority may report
    assert_eq!(
        confirm_sky_investment(&mut pos, &key(2), 800_000, 25, 30),
        Err(InvestmentError::Ecosystem(EcosystemError::Unauthorized))
    );
    assert_eq!(pos.status, StrategyStatus::PendingExecution);
    assert_eq!(
        confirm_sky_investment(&mut pos, &key(1), 500_000, 25, 30),
        Err(InvestmentError::Strategy(YieldStrategyError::KeeperReportOutOfRange))
    );
    assert_eq!(
        confirm_sky_investment(&mut pos, &key(1), 800_000, 31, 30),
        Err(InvestmentError::Strategy(YieldStrategyError::InvalidTimestamp))
    );
    confirm_sky_investment(&mut pos, &key(1), 790_000, 25, 30).unwrap();
    assert_eq!(pos.status, StrategyStatus::Active);
    assert_eq!(pos.susds_balance, 790_000);
    assert_eq!(
        confirm_sky_investment(&mut pos, &key(1), 790_000, 25, 30),
        Err(InvestmentError::Strategy(YieldStrategyError::InvalidStrategyStatus))
    );
    assert_eq!(
        report_sky_yield(&mut pos, &mut p, &key(1), 800_000, 650, 41, 40),
        Err(InvestmentError::Strategy(YieldStrategyError::InvalidTimestamp))
    );
    assert_eq!(
        report_sky_yield(&mut pos, &mut p, &key(2), 900_000, 650, 40, 40),
        Err(InvestmentError::Ecosystem(EcosystemError::Unauthorized))
    );
    assert_eq!(pos.susds_balance, 790_000);
    report_sky_yield(&mut pos, &mut p, &key(1), 800_000, 650, 40, 40).unwrap();
    assert_eq!(pos.total_yield_earned, 10_000);
    assert_eq!(pos.current_apy_bps, 650);
    assert_eq!((p.liquid_usdc, p.total_usdc), (210_000, 1_010_000));
    // a falling balance earns nothing
    report_sky_yield(&mut pos, &mut p, &key(1), 700_000, 650, 50, 50).unwrap();
    assert_eq!(pos.total_yield_earned, 10_000);
    assert_eq!(pos.susds_balance, 700_000);
    assert_eq!(
        withdraw_from_susds(&mut pos, &key(2)),
        Err(InvestmentError::Ecosystem(EcosystemError::Unauthorized))
    );
    withdraw_from_susds(&mut pos, &key(1)).unwrap();
    assert_eq!(pos.status, StrategyStatus::PendingWithdrawal);
    assert_eq!(withdraw_from_susds(&mut pos, &key(1)), Err(InvestmentError::Strategy(YieldStrategyError::InvalidStrategyStatus)));
    // after a withdrawal the pool can be invested again
    invest_usdc_to_susds(&mut p, &mut pos, 60).unwrap();
    assert_eq!(p.invested_usdc + p.liquid_usdc, p.total_usdc);
}

#[test]
fn sky_investment_refusals() {
    let mut pos = initialize_sky_position(key(1), 10, 5);
    let mut empty = pool(1_000_000, 0, 0, 0);
    assert_eq!(
        invest_usdc_to_susds(&mut empty, &mut pos, 1),
        Err(InvestmentError::Ecosystem(EcosystemError::InsufficientTreasury))
    );
    let mut tiny = pool(1, 1, 0, 0);
    assert_eq!(
        invest_usdc_to_susds(&mut tiny, &mut pos, 1),
        Err(InvestmentError::Ecosystem(EcosystemError::InvalidInvestmentAmount))
    );
    let mut huge = pool(u64::MAX, 1, 0, 0);
    assert_eq!(
        invest_usdc_to_susds(&mut huge, &mut pos, 1),
        Err(InvestmentError::Strategy(YieldStrategyError::MathOverflow))
    );
    assert_eq!(pos.status, StrategyStatus::Inactive);
    assert_eq!(huge.liquid_usdc, 1);
}

#[test]
fn ethena_position_lifecycle() {
    let mut p = pool(0, 0, 500_000, 500_000);
    let mut pos = initialize_ethena_position(key(1), 10, 6);
    assert_eq!(pos.current_apy_bps, 2_000);
    assert_eq!(
        invest_usdt_to_susde(&mut pool(0, 0, 500_000, 0), &mut pos, 20),
        Err(InvestmentError::Ecosystem(EcosystemError::InsufficientTreasury))
    );
    invest_usdt_to_susde(&mut p, &mut pos, 20).unwrap();
    assert_eq!((p.invested_usdt, p.liquid_usdt), (400_000, 100_000));
    assert_eq!(pos.usdt_deposited, 400_000);
    assert_eq!(
        withdraw_from_susde(&mut pos, &key(1)),
        Err(InvestmentError::Strategy(YieldStrategyError::InvalidStrategyStatus))
    );
    assert_eq!(
        confirm_ethena_investment(&mut pos, &key(3), 440_000, 20, 20),
        Err(InvestmentError::Ecosystem(EcosystemError::Unauthorized))
    );
    confirm_ethena_investment(&mut pos, &key(1), 440_000, 20, 20).unwrap();
    assert_eq!(pos.status, StrategyStatus::Active);
    assert_eq!(
        report_ethena_yield(&mut pos, &mut p, &key(3), 450_000, 2_500, 30, 30),
        Err(InvestmentError::Ecosystem(EcosystemError::Unauthorized))
    );
    report_ethena_yield(&mut pos, &mut p, &key(1), 450_000, 2_500, 30, 30).unwrap();
    assert_eq!(pos.total_yield_earned, 10_000);
    assert_eq!((p.liquid_usdt, p.total_usdt), (110_000, 510_000));
    assert_eq!(p.total_usdc, 0);
    withdraw_from_susde(&mut pos, &key(1)).unwrap();
    assert_eq!(pos.status, StrategyStatus::PendingWithdrawal);
    assert_eq!(
        report_ethena_yield(&mut pos, &mut p, &key(1), 460_000, 2_500, 40, 40),
        Err(InvestmentError::Strategy(YieldStrategyError::InvalidStrategyStatus))
    );
}
