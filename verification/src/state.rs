use vstd::prelude::*;
use crate::identity::Identity;
use crate::instructions::work::spec_cooldown_hours;

verus! {

/// The game-wide configuration. There is one such record.
#[derive(Clone, Copy, Debug, PartialEq, Eq)]
pub struct GameConfig {
    pub admin: Identity,
    pub wealth_mint: Identity,
    pub treasury_vault: Identity,
    /// Fee on every charge, in basis points.
    pub fee_bps: u16,
    pub paused: bool,
    pub bump_config: u8,
    pub bump_vault: u8,
    pub default_upgrade_cd: i64,
    pub default_defend_cd: i64,
    /// The risk score from which a holding can be taken over.
    pub risk_threshold: u32,
    pub risk_growth_per_sec: u32,
    pub defend_risk_reduction_per_token: u32,
}

/// A participant of the asset game.
#[derive(Clone, Copy, Debug, PartialEq, Eq)]
pub struct Player {
    pub authority: Identity,
    /// When the player last defended any holding.
    pub last_defend_ts: i64,
    pub bump: u8,
}

/// A participant of the work game.
#[derive(Clone, Debug, PartialEq, Eq)]
pub struct PlayerState {
    pub owner: Identity,
    /// When the player last worked; 0 before the first time.
    pub last_work_timestamp: i64,
    pub streak_count: u32,
    /// 0 (novice) to 4 (master).
    pub work_frequency_level: u8,
    pub total_work_actions: u64,
    pub credits: u64,
    pub wealth_tokens: u64,
    pub businesses_owned: Vec<u8>,
    pub active_business_slots: Vec<u8>,
    pub last_streak_check: i64,
    pub cooldown_hours: u8,
    pub bump: u8,
}

/// A player of the work game as a value: the two business lists are
/// sequences, everything else is as in the record.
pub struct PlayerStateView {
    pub owner: Identity,
    pub last_work_timestamp: i64,
    pub streak_count: u32,
    pub work_frequency_level: u8,
    pub total_work_actions: u64,
    pub credits: u64,
    pub wealth_tokens: u64,
    pub businesses_owned: Seq<u8>,
    pub active_business_slots: Seq<u8>,
    pub last_streak_check: i64,
    pub cooldown_hours: u8,
    pub bump: u8,
}

impl PlayerStateView {
    /// What holds of every player of the work game: the level is one of the
    /// five, the cooldown is that of the level, no business is owned twice,
    /// and the active businesses are at most five, all different and all
    /// owned.
    pub open spec fn wf(self) -> bool {
        &&& self.work_frequency_level <= 4
        &&& self.cooldown_hours == spec_cooldown_hours(self.work_frequency_level)
        &&& self.businesses_owned.no_duplicates()
        &&& self.active_business_slots.no_duplicates()
        &&& self.active_business_slots.len() <= 5
        &&& forall|i: int|
            0 <= i < self.active_business_slots.len() ==> self.businesses_owned.contains(
                #[trigger] self.active_business_slots[i],
            )
    }
}

impl View for PlayerState {
    type V = PlayerStateView;

    open spec fn view(&self) -> PlayerStateView {
        PlayerStateView {
            owner: self.owner,
            last_work_timestamp: self.last_work_timestamp,
            streak_count: self.streak_count,
            work_frequency_level: self.work_frequency_level,
            total_work_actions: self.total_work_actions,
            credits: self.credits,
            wealth_tokens: self.wealth_tokens,
            businesses_owned: self.businesses_owned@,
            active_business_slots: self.active_business_slots@,
            last_streak_check: self.last_streak_check,
            cooldown_hours: self.cooldown_hours,
            bump: self.bump,
        }
    }
}

impl PlayerState {
    /// Whether the record is a well-formed player of the work game.
    pub open spec fn wf(&self) -> bool {
        self@.wf()
    }
}

/// The template of an asset: its price curve, cooldowns and risk growth.
#[derive(Clone, Copy, Debug, PartialEq, Eq)]
pub struct AssetClass {
    pub class_id: u64,
    pub base_price: u64,
    pub price_scale_num: u64,
    pub price_scale_den: u64,
    pub base_yield: u64,
    /// Upgrade cooldown of this class; 0 selects the game-wide default.
    pub upgrade_cd: i64,
    /// Defend cooldown of this class; 0 selects the game-wide default.
    pub defend_cd: i64,
    pub base_risk_growth_per_sec: u32,
    pub bump: u8,
}

/// One player's ownership of one asset class.
#[derive(Clone, Copy, Debug, PartialEq, Eq)]
pub struct Holding {
    pub player: Identity,
    pub class: Identity,
    pub level: u16,
    pub shield: u32,
    pub last_claim_ts: i64,
    /// When the pending upgrade completes; 0 while none is pending.
    pub upgrade_end_ts: i64,
    pub last_defend_ts: i64,
    pub last_risk_ts: i64,
    pub risk_score: u32,
    pub bump: u8,
}

impl Holding {
    /// What holds of every holding: its level is at least 1.
    pub open spec fn wf(&self) -> bool {
        self.level >= 1
    }

    /// Whether an upgrade of the holding is pending.
    pub open spec fn upgrade_pending(&self) -> bool {
        self.upgrade_end_ts != 0
    }
}

/// The highest fee a treasury may take, in basis points: ten percent.
pub const MAX_FEE_BPS: u16 = 1000;

/// The operator of the market between the base and the quote currency.
#[derive(Clone, Copy, Debug, PartialEq, Eq)]
pub struct Treasury {
    pub bump: u8,
    pub base_mint: Identity,
    pub quote_mint: Identity,
    pub base_vault: Identity,
    pub quote_vault: Identity,
    /// Fee on every trade's output, in basis points; at most 1000.
    pub fee_bps: u16,
    pub max_trade_units: u64,
    pub paused: bool,
    pub min_base_liquidity: u64,
    pub min_quote_liquidity: u64,
    pub last_params_slot: u64,
    pub params_authority: Identity,
}

impl Treasury {
    /// What holds of every treasury: its fee is at most ten percent.
    pub open spec fn wf(&self) -> bool {
        self.fee_bps <= MAX_FEE_BPS
    }
}

} // verus!
