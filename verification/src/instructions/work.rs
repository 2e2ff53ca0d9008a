use vstd::prelude::*;
use crate::errors::ErrorCode;
use crate::events::{LevelUp, StreakBroken, WorkCompleted};
use crate::state::PlayerState;

verus! {

/// Seconds in the window within which the next work keeps the streak.
pub const STREAK_WINDOW: i64 = 172800;

/// Seconds after which the next work counts as a new day.
pub const DAY_SECONDS: i64 = 86400;

/// The level that a streak of this length earns.
pub open spec fn spec_level_for_streak(streak: u32) -> u8 {
    if streak >= 30 {
        4
    } else if streak >= 14 {
        3
    } else if streak >= 7 {
        2
    } else if streak >= 3 {
        1
    } else {
        0
    }
}

/// The hours between two works at this level.
pub open spec fn spec_cooldown_hours(level: u8) -> u8 {
    if level == 1 {
        18
    } else if level == 2 {
        12
    } else if level == 3 {
        9
    } else if level == 4 {
        6
    } else {
        24
    }
}

/// The reward multiplier of a level, in percent.
pub open spec fn spec_level_multiplier(level: u8) -> int {
    if level == 1 {
        125
    } else if level == 2 {
        150
    } else if level == 3 {
        175
    } else if level == 4 {
        200
    } else {
        100
    }
}

/// The reward multiplier for this many active businesses, in percent.
pub open spec fn spec_synergy_multiplier(slots: int) -> int {
    if slots <= 1 {
        100
    } else if slots == 2 {
        125
    } else if slots == 3 {
        150
    } else if slots == 4 {
        175
    } else {
        200
    }
}

/// Two credits for each day of the streak, for at most 50 days.
pub open spec fn spec_streak_bonus(streak: u32) -> int {
    if streak < 50 {
        streak * 2
    } else {
        100
    }
}

/// The reward for one work: 100 credits, scaled by the level, then by the
/// active businesses, each time rounded down, and then the streak bonus.
pub open spec fn spec_work_reward(level: u8, slots: int, streak: u32) -> int {
    100 * spec_level_multiplier(level) / 100 * spec_synergy_multiplier(slots) / 100
        + spec_streak_bonus(streak)
}

/// The player after the level has been raised to what the streak earns. The
/// level and the cooldown change only when the streak earns a higher level.
pub open spec fn spec_level_update(player: PlayerState) -> PlayerState {
    if spec_level_for_streak(player.streak_count) > player.work_frequency_level {
        PlayerState {
            work_frequency_level: spec_level_for_streak(player.streak_count),
            cooldown_hours: spec_cooldown_hours(spec_level_for_streak(player.streak_count)),
            ..player
        }
    } else {
        player
    }
}

/// The player after the streak has been brought up to a work at `now`.
///
/// The first work starts a streak of 1. A work within 48 hours of the last
/// one keeps the streak, and extends it by a day if at least 24 hours have
/// passed. A later work breaks the streak: it starts again at 1, at level 0
/// and with a cooldown of 24 hours. `MathOverflow` when the streak cannot be
/// counted any further.
pub open spec fn spec_streak_update(player: PlayerState, now: i64) -> Result<
    PlayerState,
    ErrorCode,
> {
    let elapsed = now - player.last_work_timestamp;
    if player.last_work_timestamp == 0 {
        Ok(PlayerState { streak_count: 1, last_streak_check: now, ..player })
    } else if elapsed <= STREAK_WINDOW {
        if elapsed >= DAY_SECONDS {
            if player.streak_count == u32::MAX {
                Err(ErrorCode::MathOverflow)
            } else {
                Ok(
                    spec_level_update(
                        PlayerState {
                            streak_count: (player.streak_count + 1) as u32,
                            last_streak_check: now,
                            ..player
                        },
                    ),
                )
            }
        } else {
            Ok(PlayerState { last_streak_check: now, ..player })
        }
    } else {
        Ok(
            PlayerState {
                streak_count: 1,
                work_frequency_level: 0,
                cooldown_hours: 24,
                last_streak_check: now,
                ..player
            },
        )
    }
}

/// Whether the player may work at `now`: always the first time, and later
/// once the cooldown has passed since the last work.
pub open spec fn spec_may_work(player: PlayerState, now: i64) -> bool {
    player.last_work_timestamp == 0 || now - player.last_work_timestamp >= player.cooldown_hours
        * 3600
}

/// The reward of the player's next work, as the player stands.
pub open spec fn spec_player_reward(player: PlayerState) -> int {
    spec_work_reward(
        player.work_frequency_level,
        player.active_business_slots@.len() as int,
        player.streak_count,
    )
}

/// The player after a work at `now`, or the reason why the work is refused.
pub open spec fn spec_do_work(player: PlayerState, now: i64) -> Result<PlayerState, ErrorCode> {
    if !spec_may_work(player, now) {
        Err(ErrorCode::CooldownActive)
    } else {
        match spec_streak_update(player, now) {
            Err(e) => Err(e),
            Ok(updated) => if updated.total_work_actions + 1 > u64::MAX || updated.credits
                + spec_player_reward(updated) > u64::MAX {
                Err(ErrorCode::MathOverflow)
            } else {
                Ok(
                    PlayerState {
                        last_work_timestamp: now,
                        total_work_actions: (updated.total_work_actions + 1) as u64,
                        credits: (updated.credits + spec_player_reward(updated)) as u64,
                        ..updated
                    },
                )
            },
        }
    }
}

/// The notifications of a work that took the player from `before` to `after`
/// at `now`: the work itself, the broken streak if the streak fell, and the
/// new level if the level rose.
pub open spec fn spec_work_events(before: PlayerState, after: PlayerState, now: i64) -> (
    WorkCompleted,
    Option<StreakBroken>,
    Option<LevelUp>,
) {
    (
        WorkCompleted {
            player: after.owner,
            reward: (after.credits - before.credits) as u64,
            new_streak: after.streak_count,
            new_level: after.work_frequency_level,
            timestamp: now,
        },
        if after.streak_count < before.streak_count {
            Some(
                StreakBroken {
                    player: after.owner,
                    old_streak: before.streak_count,
                    timestamp: now,
                },
            )
        } else {
            None
        },
        if after.work_frequency_level > before.work_frequency_level {
            Some(
                LevelUp {
                    player: after.owner,
                    new_level: after.work_frequency_level,
                    new_cooldown_hours: after.cooldown_hours,
                    timestamp: now,
                },
            )
        } else {
            None
        },
    )
}

/// Works once at `current_time`: brings the streak and the level up to date,
/// pays the reward and counts the work. A refused work leaves the player as
/// it was.
pub fn do_work(player: &mut PlayerState, current_time: i64) -> (r: Result<
    (WorkCompleted, Option<StreakBroken>, Option<LevelUp>),
    ErrorCode,
>)
    ensures
        match spec_do_work(*old(player), current_time) {
            Ok(after) => {
                &&& *final(player) == after
                &&& r == Ok::<(WorkCompleted, Option<StreakBroken>, Option<LevelUp>), ErrorCode>(
                    spec_work_events(*old(player), after, current_time),
                )
            },
            Err(e) => {
                &&& *final(player) == *old(player)
                &&& r == Err::<(WorkCompleted, Option<StreakBroken>, Option<LevelUp>), ErrorCode>(e)
            },
        },
        old(player).wf() ==> final(player).wf(),
{
    let cooldown_seconds: i128 = (player.cooldown_hours as i128) * 3600;
    let time_since_last_work: i128 = current_time as i128 - player.last_work_timestamp as i128;
    if !(player.last_work_timestamp == 0 || time_since_last_work >= cooldown_seconds) {
        return Err(ErrorCode::CooldownActive);
    }
    let old_streak = player.streak_count;
    let old_level = player.work_frequency_level;
    let old_cooldown_hours = player.cooldown_hours;
    let old_streak_check = player.last_streak_check;
    match handle_streak_update(player, current_time) {
        Ok(()) => {},
        Err(e) => {
            return Err(e);
        },
    }
    let base_reward = match calculate_work_reward(player) {
        Ok(reward) => reward,
        Err(e) => {
            return Err(e);
        },
    };
    let counted = player.total_work_actions.checked_add(1);
    let paid = player.credits.checked_add(base_reward);
    match (counted, paid) {
        (Some(total), Some(credits)) => {
            player.last_work_timestamp = current_time;
            player.total_work_actions = total;
            player.credits = credits;
        },
        _ => {
            player.streak_count = old_streak;
            player.work_frequency_level = old_level;
            player.cooldown_hours = old_cooldown_hours;
            player.last_streak_check = old_streak_check;
            return Err(ErrorCode::MathOverflow);
        },
    }
    let completed = WorkCompleted {
        player: player.owner,
        reward: base_reward,
        new_streak: player.streak_count,
        new_level: player.work_frequency_level,
        timestamp: current_time,
    };
    let broken = if player.streak_count < old_streak {
        Some(StreakBroken { player: player.owner, old_streak, timestamp: current_time })
    } else {
        None
    };
    let level_up = if player.work_frequency_level > old_level {
        Some(
            LevelUp {
                player: player.owner,
                new_level: player.work_frequency_level,
                new_cooldown_hours: player.cooldown_hours,
                timestamp: current_time,
            },
        )
    } else {
        None
    };
    Ok((completed, broken, level_up))
}

/// Brings the streak, and with it the level, up to a work at `current_time`.
pub fn handle_streak_update(player: &mut PlayerState, current_time: i64) -> (r: Result<
    (),
    ErrorCode,
>)
    ensures
        match spec_streak_update(*old(player), current_time) {
            Ok(updated) => r is Ok && *final(player) == updated,
            Err(e) => r == Err::<(), ErrorCode>(e) && *final(player) == *old(player),
        },
        old(player).wf() ==> final(player).wf(),
{
    let time_since_last: i128 = current_time as i128 - player.last_work_timestamp as i128;
    if player.last_work_timestamp == 0 {
        player.streak_count = 1;
    } else if time_since_last <= STREAK_WINDOW as i128 {
        if time_since_last >= DAY_SECONDS as i128 {
            if player.streak_count == u32::MAX {
                return Err(ErrorCode::MathOverflow);
            }
            player.streak_count = player.streak_count + 1;
            let _ = update_work_frequency_level(player);
        }
    } else {
        player.streak_count = 1;
        player.work_frequency_level = 0;
        player.cooldown_hours = 24;
    }
    player.last_streak_check = current_time;
    Ok(())
}

/// Raises the level to what the streak earns, and shortens the cooldown with
/// it. A level is never lowered here.
pub fn update_work_frequency_level(player: &mut PlayerState) -> (r: Result<(), ErrorCode>)
    ensures
        r is Ok,
        *final(player) == spec_level_update(*old(player)),
        final(player).work_frequency_level >= old(player).work_frequency_level,
{
    let streak = player.streak_count;
    let new_level: u8 = if streak >= 30 {
        4
    } else if streak >= 14 {
        3
    } else if streak >= 7 {
        2
    } else if streak >= 3 {
        1
    } else {
        0
    };
    if new_level > player.work_frequency_level {
        player.work_frequency_level = new_level;
        player.cooldown_hours = if new_level == 1 {
            18
        } else if new_level == 2 {
            12
        } else if new_level == 3 {
            9
        } else {
            6
        };
    }
    Ok(())
}

/// The reward of the player's next work, as the player stands.
pub fn calculate_work_reward(player: &PlayerState) -> (r: Result<u64, ErrorCode>)
    ensures
        r == Ok::<u64, ErrorCode>(spec_player_reward(*player) as u64),
        100 <= spec_player_reward(*player) <= 500,
{
    let mut base_reward: u64 = 100;
    let level = player.work_frequency_level;
    let level_multiplier: u64 = if level == 1 {
        125
    } else if level == 2 {
        150
    } else if level == 3 {
        175
    } else if level == 4 {
        200
    } else {
        100
    };
    base_reward = base_reward * level_multiplier / 100;
    let slot_count = player.active_business_slots.len();
    let synergy_multiplier: u64 = if slot_count <= 1 {
        100
    } else if slot_count == 2 {
        125
    } else if slot_count == 3 {
        150
    } else if slot_count == 4 {
        175
    } else {
        200
    };
    base_reward = base_reward * synergy_multiplier / 100;
    let streak = player.streak_count;
    let streak_bonus: u64 = if streak < 50 {
        streak as u64 * 2
    } else {
        100
    };
    base_reward = base_reward + streak_bonus;
    Ok(base_reward)
}

} // verus!
