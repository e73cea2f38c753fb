//! Errors of the clearing house.

use vstd::prelude::*;

verus! {

/// The program's own error codes, in the order of their numbers.
#[derive(Clone, Copy, Debug, PartialEq, Eq, Structural)]
pub enum RogueTraderError {
    Paused,
    ZeroAmount,
    DepositTooSmall,
    WithdrawTooSmall,
    InsufficientLiquidity,
    MathOverflow,
    InvalidConfig,
    InvalidBotId,
    InvalidGroupId,
    MaxActiveBetsReached,
    StakeBelowMinimum,
    InsufficientCounterpartyLiquidity,
    PythPriceTooStale,
    PythConfidenceTooWide,
    PythFeedNotInGroup,
    BetNotExpired,
    BetAlreadySettled,
    BetNotSettled,
    FeedMismatch,
    ExponentChanged,
    InvalidDirection,
    UnauthorizedSettler,
    InvalidReferrer,
    SelfReferral,
    ReferrerAlreadySet,
    InsufficientFreeCapital,
    StaleBetBufferNotElapsed,
    InvalidFeeSplit,
    TooManyFeeds,
    CounterpartyCountMismatch,
    InvalidLpAmount,
    InvalidFeeWallet,
    VaultBetMismatch,
    InvalidPythAccount,
    InvalidWithdrawalFeeSplit,
    SettlementWindowExpired,
    InvalidCounterpartyVault,
    DuplicateCounterparty,
    SelfCounterparty,
    MissingCounterparty,
    InvalidPrice,
    InvalidDuration,
    Unauthorized,
    InvalidPendingAuthority,
    NoPendingTransfer,
    RafflePaused,
    EmptyRewardsPool,
    RaffleTooEarly,
}

/// A failure of an instruction: one of the program's own errors, or account
/// data that does not decode.
#[derive(Clone, Copy, Debug, PartialEq, Eq, Structural)]
pub enum ProgramError {
    InvalidAccountData,
    Program(RogueTraderError),
}

} // verus!
