//! The faults with which an operation is refused. A refused operation leaves
//! every record as it was.

use vstd::prelude::*;

verus! {

/// Why an operation was refused.
#[derive(Clone, Copy, Debug, PartialEq, Eq, Structural)]
pub enum ErrorCode {
    /// The caller is not the admin or owner that the operation asks for.
    Unauthorized,
    /// The market has already been settled.
    MarketAlreadySettled,
    /// The market is not active.
    MarketNotActive,
    /// The market is not settled.
    MarketNotSettled,
    /// The oracle price moved by more than the limit.
    OracleMoveTooLarge,
    /// Leverage must be between 1x and 3x.
    InvalidLeverage,
    /// The position is already liquidated.
    PositionAlreadyLiquidated,
    /// The position is healthy and cannot be liquidated.
    PositionHealthy,
    /// The slippage tolerance was exceeded.
    SlippageExceeded,
    /// No fees are available to claim.
    NoFeesToClaim,
    /// The asset symbol is not valid.
    InvalidAssetSymbol,
    /// The settlement time is not valid.
    InvalidSettlementTime,
    /// The settlement slot is not tradable.
    SlotNotTradable,
    /// The settlement slot has expired.
    SlotExpired,
    /// The settlement slot is not the one named.
    InvalidSettlementSlot,
    /// The settlement slot does not settle instantly.
    NotInstantSettlement,
    /// The bet amount is below the minimum.
    BetAmountTooSmall,
    /// The price table has no entry for the asset.
    AssetNotFound,
    /// The bet is not the one named.
    InvalidBetId,
    /// The bet has already been settled.
    BetAlreadySettled,
    /// The asset type is not valid.
    InvalidAssetType,
    /// The fee rate is not valid.
    InvalidFeeRate,
    /// The pool is inactive.
    PoolInactive,
    /// An amount left the range of its integer type.
    MathOverflow,
    /// The output amount is below the minimum asked for.
    InsufficientOutputAmount,
    /// The price source is not valid.
    InvalidPriceSource,
    /// The proposer has staked too little to create a proposal.
    InsufficientStakeForProposal,
    /// The title is too long.
    TitleTooLong,
    /// The description is too long.
    DescriptionTooLong,
    /// The proposal is not active.
    ProposalNotActive,
    /// The voting period has ended.
    VotingPeriodEnded,
    /// The voter has no voting power.
    NoVotingPower,
    /// The voting period has not ended.
    VotingPeriodNotEnded,
    /// The proposal has not passed.
    ProposalNotPassed,
    /// The proposal has already been executed.
    ProposalAlreadyExecuted,
    /// The execution delay has not passed.
    ExecutionDelayNotMet,
    /// The oracle handed over price data that cannot be used.
    InvalidPriceData,
}

} // verus!
