use vstd::prelude::*;
use crate::identity::Identity;

verus! {

/// A participant has joined the asset game.
#[derive(Clone, Copy, Debug, PartialEq, Eq)]
pub struct PlayerJoined {
    pub player: Identity,
}

/// A player has bought an asset.
#[derive(Clone, Copy, Debug, PartialEq, Eq)]
pub struct AssetBought {
    pub player: Identity,
    pub class: Identity,
    /// What the buyer pays, fee included.
    pub price: u64,
    pub level: u16,
}

/// An upgrade of a holding has been queued and paid.
#[derive(Clone, Copy, Debug, PartialEq, Eq)]
pub struct UpgradeQueued {
    pub player: Identity,
    pub class: Identity,
    pub end_ts: i64,
}

/// A pending upgrade has been completed.
#[derive(Clone, Copy, Debug, PartialEq, Eq)]
pub struct UpgradeFinished {
    pub player: Identity,
    pub class: Identity,
    pub new_level: u16,
}

/// A player has spent tokens on the defence of a holding.
#[derive(Clone, Copy, Debug, PartialEq, Eq)]
pub struct Defended {
    pub player: Identity,
    pub class: Identity,
    pub spend: u64,
    pub risk_after: u32,
    pub shield_after: u32,
}

/// A holding has changed its owner by a takeover.
#[derive(Clone, Copy, Debug, PartialEq, Eq)]
pub struct TakenOver {
    pub from_player: Identity,
    pub to_player: Identity,
    pub class: Identity,
    pub level: u16,
    /// What the attacker pays, fee included.
    pub cost: u64,
}

/// A player has worked and received the reward.
#[derive(Clone, Copy, Debug, PartialEq, Eq)]
pub struct WorkCompleted {
    pub player: Identity,
    pub reward: u64,
    pub new_streak: u32,
    pub new_level: u8,
    pub timestamp: i64,
}

/// A player has bought a business.
#[derive(Clone, Copy, Debug, PartialEq, Eq)]
pub struct BusinessPurchased {
    pub player: Identity,
    pub business_id: u8,
    pub cost: u64,
    pub timestamp: i64,
}

/// A player's streak has been broken by a gap of more than 48 hours.
#[derive(Clone, Copy, Debug, PartialEq, Eq)]
pub struct StreakBroken {
    pub player: Identity,
    pub old_streak: u32,
    pub timestamp: i64,
}

/// A player's work level has risen.
#[derive(Clone, Copy, Debug, PartialEq, Eq)]
pub struct LevelUp {
    pub player: Identity,
    pub new_level: u8,
    pub new_cooldown_hours: u8,
    pub timestamp: i64,
}

/// A trade with the pool has been made.
#[derive(Clone, Copy, Debug, PartialEq, Eq)]
pub struct SwapExecuted {
    pub user: Identity,
    pub base_in: u64,
    pub quote_out: u64,
    pub fee_paid: u64,
    /// Quote units per base unit before the trade, scaled by 1_000_000.
    pub price_before: u64,
    /// Quote units per base unit after the trade, scaled by 1_000_000.
    pub price_after: u64,
    pub timestamp: i64,
}

/// The treasury has been set up.
#[derive(Clone, Copy, Debug, PartialEq, Eq)]
pub struct TreasuryInitialized {
    pub base_mint: Identity,
    pub quote_mint: Identity,
    pub fee_bps: u16,
    pub timestamp: i64,
}

/// Liquidity has been deposited into the pool.
#[derive(Clone, Copy, Debug, PartialEq, Eq)]
pub struct LiquidityAdded {
    pub base_amount: u64,
    pub quote_amount: u64,
    pub total_base_reserve: u64,
    pub total_quote_reserve: u64,
    pub timestamp: i64,
}

/// The treasury's parameters have been changed.
#[derive(Clone, Copy, Debug, PartialEq, Eq)]
pub struct TreasuryParamsUpdated {
    pub old_fee_bps: u16,
    pub new_fee_bps: u16,
    pub old_max_trade: u64,
    pub new_max_trade: u64,
    pub timestamp: i64,
}

} // verus!
