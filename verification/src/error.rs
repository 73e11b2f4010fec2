use vstd::prelude::*;

verus! {

/// The errors that the contracts answer with.
#[derive(Clone, Debug, PartialEq, Eq)]
pub enum ContractError {
    /// The sender is not allowed to perform the action.
    Unauthorized,
    /// A stored item that the action needs is absent.
    NotFound,
    /// The contract has been stopped by its admin.
    ContractNotActive,
    /// A coin of another denomination than uscrt was sent.
    UnsupportedToken,
    /// The named validator is not one of the chain's validators.
    ValidatorNotFound(String),
    /// The tier deposits are missing.
    DepositsEmpty,
    /// The tier deposits are not in strictly decreasing order.
    DepositsNotDecreasing,
    /// A deposit of zero uscrt.
    DepositZero,
    /// The depositor already is in the best tier.
    ReachedMaxTier,
    /// The deposit does not reach the next tier, which needs `usd` more USD,
    /// worth `uscrt` uscrt.
    DepositTooSmall { usd: u128, uscrt: u128 },
    /// There is nothing to claim or withdraw.
    NothingToWithdraw,
    /// No staking rewards have accumulated.
    NoRewards,
    /// Redelegation to the validator already in use.
    SameValidator,
    /// Part of the delegation cannot be redelegated yet.
    CannotRedelegateFull,
    /// The tier contract answered with something else than a tier.
    CannotGetTier,
    /// The tier contract answered with something else than its settings.
    CannotGetMinTier,
    /// The maximal payments are missing.
    MaxPaymentsEmpty,
    /// The maximal payments are not in strictly decreasing order.
    MaxPaymentsNotDecreasing,
    /// Tokens per tier are not given for exactly the tiers there are.
    ArraysDifferentLength,
    /// Tokens per tier do not add up to the tokens for sale.
    TokensPerTierSumMismatch,
    /// A sale must end after it starts.
    EndBeforeStart,
    /// A sale must end in the future.
    EndsInPast,
    /// The sale is not running now.
    IdoNotActive,
    /// Nothing would be bought.
    ZeroAmount,
    /// Every token of the sale is sold.
    AllTokensSold,
    /// Every token of the sale for the buyer's tier is sold.
    AllTierTokensSold,
    /// The buyer has paid the most that the tier allows.
    TierLimitReached,
    /// At most `max` tokens can be bought.
    BuyLimit { max: u128 },
    /// No purchase is released yet.
    NothingToReceive,
    /// The unsold tokens were already withdrawn.
    AlreadyWithdrawn,
    /// The sale has not ended.
    IdoNotFinished,
    /// An index past the end of a stored list.
    OutOfBounds,
}

} // verus!
