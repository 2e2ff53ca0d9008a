use vstd::prelude::*;
use crate::errors::ErrorCode;
use crate::events::Defended;
use crate::identity::Identity;
use crate::math::{defend_cd, saturating_u32, spec_cooldown, spec_update_risk, update_risk};
use crate::state::{AssetClass, GameConfig, Holding, Player};

verus! {

/// The holding after `spend_amount` tokens were spent on its defence at
/// `now`: the risk falls by the spend times the game's reduction rate, but
/// not below zero; the shield rises by a thousandth of the spend, rounded
/// down, but not above the largest 32-bit value.
pub open spec fn spec_defended(holding: Holding, game_config: GameConfig, spend_amount: u64, now: i64) -> Holding {
    Holding {
        risk_score: saturating_u32(
            holding.risk_score - spend_amount * game_config.defend_risk_reduction_per_token,
        ),
        shield: saturating_u32(holding.shield + spend_amount / 1000),
        last_defend_ts: now,
        ..holding
    }
}

/// What a defence comes to: the holding after it, or the reason for the
/// refusal. The cooldown runs from the player's last defence of any holding.
/// The holding's risk is brought up to `now` before the spend takes effect.
/// The checks stand in the order in which they are made; the first that
/// fails names the error.
pub open spec fn spec_defend(
    holding: Holding,
    player: Player,
    owner: Identity,
    game_config: GameConfig,
    asset_class: AssetClass,
    owner_balance: u64,
    spend_amount: u64,
    now: i64,
) -> Result<Holding, ErrorCode> {
    if player.authority != owner {
        Err(ErrorCode::Unauthorized)
    } else if game_config.paused {
        Err(ErrorCode::GamePaused)
    } else if holding.player != owner {
        Err(ErrorCode::Unauthorized)
    } else if now - player.last_defend_ts < spec_cooldown(
        asset_class.defend_cd,
        game_config.default_defend_cd,
    ) {
        Err(ErrorCode::CooldownNotExpired)
    } else if owner_balance < spend_amount {
        Err(ErrorCode::InsufficientFunds)
    } else {
        Ok(
            spec_defended(
                spec_update_risk(holding, asset_class, game_config, now),
                game_config,
                spend_amount,
                now,
            ),
        )
    }
}

/// Spends `spend_amount` tokens of the owner on the defence of a holding.
///
/// `owner_balance` is the owner's token balance as read for this action. On
/// success the caller owes the game's vault `spend_amount` from the owner.
/// On failure the holding and the player are left as they were.
pub fn defend(
    holding: &mut Holding,
    player: &mut Player,
    owner: Identity,
    game_config: &GameConfig,
    asset_class: &AssetClass,
    owner_balance: u64,
    spend_amount: u64,
    now: i64,
) -> (r: Result<Defended, ErrorCode>)
    ensures
        match spec_defend(
            *old(holding),
            *old(player),
            owner,
            *game_config,
            *asset_class,
            owner_balance,
            spend_amount,
            now,
        ) {
            Ok(defended) => {
                &&& *final(holding) == defended
                &&& *final(player) == (Player { last_defend_ts: now, ..*old(player) })
                &&& r == Ok::<Defended, ErrorCode>(
                    Defended {
                        player: defended.player,
                        class: defended.class,
                        spend: spend_amount,
                        risk_after: defended.risk_score,
                        shield_after: defended.shield,
                    },
                )
            },
            Err(e) => {
                &&& *final(holding) == *old(holding)
                &&& *final(player) == *old(player)
                &&& r == Err::<Defended, ErrorCode>(e)
            },
        },
        final(holding).level == old(holding).level,
        old(holding).wf() ==> final(holding).wf(),
{
    if player.authority != owner {
        return Err(ErrorCode::Unauthorized);
    }
    if game_config.paused {
        return Err(ErrorCode::GamePaused);
    }
    if holding.player != owner {
        return Err(ErrorCode::Unauthorized);
    }
    let cooldown = defend_cd(asset_class, game_config);
    let time_since_last_defend: i128 = now as i128 - player.last_defend_ts as i128;
    if time_since_last_defend < cooldown as i128 {
        return Err(ErrorCode::CooldownNotExpired);
    }
    if owner_balance < spend_amount {
        return Err(ErrorCode::InsufficientFunds);
    }
    update_risk(holding, asset_class, game_config, now);

    assert((spend_amount as u128) * (game_config.defend_risk_reduction_per_token as u128)
        <= 0xffff_ffff_ffff_ffff * 0xffff_ffff) by (nonlinear_arith)
        requires
            spend_amount <= 0xffff_ffff_ffff_ffff,
            game_config.defend_risk_reduction_per_token <= 0xffff_ffff,
    ;
    let risk_reduction: u128 = (spend_amount as u128)
        * (game_config.defend_risk_reduction_per_token as u128);
    holding.risk_score = if risk_reduction >= holding.risk_score as u128 {
        0
    } else {
        holding.risk_score - risk_reduction as u32
    };

    let shield_increase: u64 = spend_amount / 1000;
    let raised: u64 = holding.shield as u64 + shield_increase;
    holding.shield = if raised > u32::MAX as u64 {
        u32::MAX
    } else {
        raised as u32
    };

    holding.last_defend_ts = now;
    player.last_defend_ts = now;
    Ok(
        Defended {
            player: holding.player,
            class: holding.class,
            spend: spend_amount,
            risk_after: holding.risk_score,
            shield_after: holding.shield,
        },
    )
}

} // verus!
