use vstd::prelude::*;
use crate::identity::Identity;
use crate::state::{PlayerState, PlayerStateView};

verus! {

/// The credits that a new player of the work game starts with.
pub const STARTING_CREDITS: u64 = 1000;

/// The record of a new player of the work game: 1000 credits, no work done,
/// no streak, level 0 with its cooldown of 24 hours, and no business.
pub fn initialize_player(owner: Identity, bump: u8, now: i64) -> (player: PlayerState)
    ensures
        player@ == (PlayerStateView {
            owner,
            last_work_timestamp: 0,
            streak_count: 0,
            work_frequency_level: 0,
            total_work_actions: 0,
            credits: STARTING_CREDITS,
            wealth_tokens: 0,
            businesses_owned: Seq::<u8>::empty(),
            active_business_slots: Seq::<u8>::empty(),
            last_streak_check: now,
            cooldown_hours: 24,
            bump,
        }),
        player.wf(),
{
    PlayerState {
        owner,
        last_work_timestamp: 0,
        streak_count: 0,
        work_frequency_level: 0,
        total_work_actions: 0,
        credits: STARTING_CREDITS,
        wealth_tokens: 0,
        businesses_owned: Vec::new(),
        active_business_slots: Vec::new(),
        last_streak_check: now,
        cooldown_hours: 24,
        bump,
    }
}

} // verus!
