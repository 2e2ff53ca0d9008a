use vstd::prelude::*;
use crate::errors::ErrorCode;
use crate::events::UpgradeQueued;
use crate::identity::Identity;
use crate::math::{price_for_level, spec_cooldown, spec_level_charge, upgrade_cd, with_fee};
use crate::state::{AssetClass, GameConfig, Holding, Player};

verus! {

/// What queueing an upgrade comes to: the charge and the moment at which the
/// upgrade completes, or the reason for the refusal. The charge is the price
/// of the next level and the fee on it. The checks stand in the order in
/// which they are made; the first that fails names the error.
pub open spec fn spec_queue_upgrade(
    holding: Holding,
    owner: Identity,
    player: Player,
    game_config: GameConfig,
    asset_class: AssetClass,
    owner_balance: u64,
    now: i64,
) -> Result<(u64, i64), ErrorCode> {
    if player.authority != owner {
        Err(ErrorCode::Unauthorized)
    } else if game_config.paused {
        Err(ErrorCode::GamePaused)
    } else if holding.player != owner {
        Err(ErrorCode::Unauthorized)
    } else if holding.upgrade_pending() {
        Err(ErrorCode::UpgradeInProgress)
    } else if holding.level == u16::MAX {
        Err(ErrorCode::MathOverflow)
    } else {
        match spec_level_charge(asset_class, game_config, (holding.level + 1) as u16) {
            Err(e) => Err(e),
            Ok(total_cost) => if owner_balance < total_cost {
                Err(ErrorCode::InsufficientFunds)
            } else if now + spec_cooldown(asset_class.upgrade_cd, game_config.default_upgrade_cd)
                > i64::MAX || now + spec_cooldown(
                asset_class.upgrade_cd,
                game_config.default_upgrade_cd,
            ) < i64::MIN {
                Err(ErrorCode::MathOverflow)
            } else {
                Ok(
                    (
                        total_cost,
                        (now + spec_cooldown(
                            asset_class.upgrade_cd,
                            game_config.default_upgrade_cd,
                        )) as i64,
                    ),
                )
            },
        }
    }
}

/// Queues the upgrade of a holding to its next level.
///
/// `owner_balance` is the owner's token balance as read for this action. On
/// success the holding's upgrade completes one upgrade cooldown after `now`,
/// and the caller owes the game's vault the returned charge from the owner.
/// On failure the holding is left as it was.
pub fn queue_upgrade(
    holding: &mut Holding,
    owner: Identity,
    player: &Player,
    game_config: &GameConfig,
    asset_class: &AssetClass,
    owner_balance: u64,
    now: i64,
) -> (r: Result<(u64, UpgradeQueued), ErrorCode>)
    ensures
        match spec_queue_upgrade(
            *old(holding),
            owner,
            *player,
            *game_config,
            *asset_class,
            owner_balance,
            now,
        ) {
            Ok((total_cost, end_ts)) => {
                &&& *final(holding) == (Holding { upgrade_end_ts: end_ts, ..*old(holding) })
                &&& r == Ok::<(u64, UpgradeQueued), ErrorCode>(
                    (
                        total_cost,
                        UpgradeQueued {
                            player: old(holding).player,
                            class: old(holding).class,
                            end_ts,
                        },
                    ),
                )
            },
            Err(e) => {
                &&& *final(holding) == *old(holding)
                &&& r == Err::<(u64, UpgradeQueued), ErrorCode>(e)
            },
        },
        old(holding).wf() ==> final(holding).wf(),
{
    if player.authority != owner {
        return Err(ErrorCode::Unauthorized);
    }
    if game_config.paused {
        return Err(ErrorCode::GamePaused);
    }
    if holding.player != owner {
        return Err(ErrorCode::Unauthorized);
    }
    if holding.upgrade_end_ts != 0 {
        return Err(ErrorCode::UpgradeInProgress);
    }
    let next_level = match holding.level.checked_add(1) {
        Some(l) => l,
        None => {
            return Err(ErrorCode::MathOverflow);
        },
    };
    let price = match price_for_level(
        asset_class.base_price,
        asset_class.price_scale_num,
        asset_class.price_scale_den,
        next_level,
    ) {
        Ok(p) => p,
        Err(e) => {
            return Err(e);
        },
    };
    let total_cost = match with_fee(price, game_config.fee_bps) {
        Ok(t) => t,
        Err(e) => {
            return Err(e);
        },
    };
    if owner_balance < total_cost {
        return Err(ErrorCode::InsufficientFunds);
    }
    let cooldown = upgrade_cd(asset_class, game_config);
    let end_ts = match now.checked_add(cooldown) {
        Some(t) => t,
        None => {
            return Err(ErrorCode::MathOverflow);
        },
    };
    holding.upgrade_end_ts = end_ts;
    Ok((total_cost, UpgradeQueued { player: holding.player, class: holding.class, end_ts }))
}

} // verus!
