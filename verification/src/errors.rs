use vstd::prelude::*;

verus! {

/// Why an action was refused. Every refusal is final for that action and
/// leaves all records as they were.
#[derive(Clone, Copy, Debug, PartialEq, Eq, Structural)]
pub enum ErrorCode {
    /// A price, fee, level or timestamp computation left its integer range,
    /// or a price was scaled by a zero denominator.
    MathOverflow,
    /// The game is paused.
    GamePaused,
    /// The caller is not the owner or authority that the record names.
    Unauthorized,
    /// The payer's balance does not cover the charge.
    InsufficientFunds,
    /// The player's defend cooldown has not run out.
    CooldownNotExpired,
    /// An upgrade is already pending on the holding.
    UpgradeInProgress,
    /// The holding's risk is below the takeover threshold.
    AssetNotAtRisk,
    /// The request is malformed or comes too early.
    InvalidParameters,
    /// The work cooldown has not run out.
    CooldownActive,
    /// The player's credits do not cover the amount.
    InsufficientCredits,
    /// The player already owns the business.
    AlreadyOwned,
    /// The player does not own the business.
    NotOwned,
    /// The business id is not in the catalog.
    InvalidBusinessId,
    /// All business slots are in use.
    MaxSlotsReached,
    /// The treasury is paused.
    TreasuryPaused,
    /// The fee exceeds ten percent.
    FeeTooHigh,
    /// A zero amount was given.
    ZeroAmount,
    /// A market computation left its integer range.
    MathError,
    /// The pool cannot pay out anything for the trade.
    InsufficientLiquidity,
    /// The trade exceeds the treasury's trade limit.
    TradeTooLarge,
    /// The trade would pay out less than the caller's minimum.
    SlippageExceeded,
    /// A reserve is below the treasury's liquidity floor.
    PoolNotReady,
    /// The seed liquidity is too small.
    InsufficientSeed,
}

} // verus!
