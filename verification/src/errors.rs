//! Errors of the program's instructions.

use vstd::prelude::*;

verus! {

/// Every way an instruction of the program can be refused.
#[derive(Clone, Copy, Debug, PartialEq, Eq, Structural)]
pub enum EcosystemError {
    // Launchpad
    /// Launchpad is paused.
    LaunchpadPaused,
    /// Insufficient USDC balance.
    InsufficientUsdc,
    /// Tier 2 tokens must complete the unstake flow before burning.
    CannotRedeemTier2,
    /// Invalid amount: must be greater than zero.
    InvalidRedeemAmount,
    // Yield / holders
    /// No yield available to claim.
    NoYieldToClaim,
    /// Yield snapshot not ready for distribution.
    YieldSnapshotNotReady,
    /// Snapshot frequency not met.
    SnapshotFrequencyNotMet,
    /// Insufficient yield in treasury.
    InsufficientYield,
    // Unstaking
    /// 48 business hours have not elapsed: funds still routing from Morpho to USDC.
    UnstakeCooldownNotMet,
    /// Unstake request already completed.
    UnstakeAlreadyCompleted,
    /// No pending unstake request found.
    NoUnstakeRequest,
    /// Unstake request already pending.
    UnstakeAlreadyPending,
    // Morpho investment
    /// Investment blocked: waiting for admin approval of a Morpho pool.
    InvestmentPendingApproval,
    /// Morpho pool type is not eligible.
    IneligiblePoolType,
    /// Morpho pool not yet approved by admin.
    PoolNotApproved,
    /// Morpho pool is not currently active.
    PoolNotActive,
    /// Insufficient treasury balance for investment.
    InsufficientTreasury,
    /// No Morpho yield available to claim.
    NoMorphoYield,
    /// Invalid investment amount.
    InvalidInvestmentAmount,
    // Revenue distribution
    /// Revenue distribution shares must sum to 10000 basis points.
    InvalidDistributionShares,
    /// Investment ratio must be between 0 and 10000 basis points.
    InvalidInvestmentRatio,
    // Vesting
    /// Tokens are locked during the vesting period.
    VestingLocked,
    /// Cannot transfer locked Tier 2 tokens.
    CannotTransferLocked,
    // Tokens
    /// Insufficient token balance.
    InsufficientTokens,
    /// No tokens to operate on.
    NoStakedTokens,
    // General
    /// Arithmetic overflow: operation rejected for safety.
    MathOverflow,
    /// Unauthorized: signer is not the program authority.
    Unauthorized,
    /// Invalid timestamp.
    InvalidTimestamp,
}

} // verus!
