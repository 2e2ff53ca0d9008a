use vstd::prelude::*;
use crate::errors::ErrorCode;
use crate::events::TakenOver;
use crate::identity::Identity;
use crate::math::{spec_takeover_charge, spec_update_risk, takeover_cost, update_risk, with_fee};
use crate::state::{AssetClass, GameConfig, Holding, Player};

verus! {

/// What a takeover attempt comes to: the holding as the attacker gets it and
/// the notification, or the reason for the refusal. The holding's risk is
/// first brought up to `now`. The checks stand in the order in which they are
/// made; the first that fails names the error.
pub open spec fn spec_takeover(
    target_holding: Holding,
    attacker: Identity,
    attacker_player: Player,
    game_config: GameConfig,
    asset_class: AssetClass,
    attacker_balance: u64,
    now: i64,
) -> Result<(Holding, TakenOver), ErrorCode> {
    if attacker_player.authority != attacker {
        Err(ErrorCode::Unauthorized)
    } else if game_config.paused {
        Err(ErrorCode::GamePaused)
    } else if spec_update_risk(target_holding, asset_class, game_config, now).risk_score
        < game_config.risk_threshold {
        Err(ErrorCode::AssetNotAtRisk)
    } else {
        match spec_takeover_charge(asset_class, game_config, target_holding.level) {
            Err(e) => Err(e),
            Ok(total_cost) => if attacker_balance < total_cost {
                Err(ErrorCode::InsufficientFunds)
            } else {
                Ok(
                    (
                        Holding {
                            player: attacker,
                            shield: 0,
                            upgrade_end_ts: 0,
                            last_defend_ts: now,
                            last_risk_ts: now,
                            risk_score: game_config.risk_threshold / 4,
                            ..target_holding
                        },
                        TakenOver {
                            from_player: target_holding.player,
                            to_player: attacker,
                            class: target_holding.class,
                            level: target_holding.level,
                            cost: total_cost,
                        },
                    ),
                )
            },
        }
    }
}

/// Takes a holding over for `attacker`, where its risk has reached the
/// threshold.
///
/// `attacker_balance` is the attacker's token balance as read for this
/// action. On success the holding belongs to the attacker, its shield and its
/// pending upgrade are gone, its risk is a quarter of the threshold, and the
/// caller owes the game's vault the `cost` of the returned notification from
/// the attacker. On failure the holding is left as it was.
pub fn takeover(
    target_holding: &mut Holding,
    attacker: Identity,
    attacker_player: &Player,
    game_config: &GameConfig,
    asset_class: &AssetClass,
    attacker_balance: u64,
    now: i64,
) -> (r: Result<TakenOver, ErrorCode>)
    ensures
        match spec_takeover(
            *old(target_holding),
            attacker,
            *attacker_player,
            *game_config,
            *asset_class,
            attacker_balance,
            now,
        ) {
            Ok((holding, event)) => {
                &&& r == Ok::<TakenOver, ErrorCode>(event)
                &&& *final(target_holding) == holding
            },
            Err(e) => {
                &&& r == Err::<TakenOver, ErrorCode>(e)
                &&& *final(target_holding) == *old(target_holding)
            },
        },
        r == Err::<TakenOver, ErrorCode>(ErrorCode::AssetNotAtRisk) <==> attacker_player.authority
            == attacker && !game_config.paused && spec_update_risk(
            *old(target_holding),
            *asset_class,
            *game_config,
            now,
        ).risk_score < game_config.risk_threshold,
        r is Ok ==> final(target_holding).risk_score == game_config.risk_threshold / 4
            && final(target_holding).player == attacker && !final(target_holding).upgrade_pending(),
        final(target_holding).level == old(target_holding).level,
        old(target_holding).wf() ==> final(target_holding).wf(),
{
    if attacker_player.authority != attacker {
        return Err(ErrorCode::Unauthorized);
    }
    if game_config.paused {
        return Err(ErrorCode::GamePaused);
    }
    let mut updated: Holding = *target_holding;
    update_risk(&mut updated, asset_class, game_config, now);
    if updated.risk_score < game_config.risk_threshold {
        return Err(ErrorCode::AssetNotAtRisk);
    }
    let cost = match takeover_cost(
        asset_class.base_price,
        asset_class.price_scale_num,
        asset_class.price_scale_den,
        updated.level,
    ) {
        Ok(c) => c,
        Err(e) => {
            return Err(e);
        },
    };
    let total_cost = match with_fee(cost, game_config.fee_bps) {
        Ok(t) => t,
        Err(e) => {
            return Err(e);
        },
    };
    if attacker_balance < total_cost {
        return Err(ErrorCode::InsufficientFunds);
    }
    let from_player = updated.player;
    updated.player = attacker;
    updated.shield = 0;
    updated.upgrade_end_ts = 0;
    updated.last_defend_ts = now;
    updated.last_risk_ts = now;
    updated.risk_score = game_config.risk_threshold / 4;
    *target_holding = updated;
    Ok(
        TakenOver {
            from_player,
            to_player: attacker,
            class: updated.class,
            level: updated.level,
            cost: total_cost,
        },
    )
}

} // verus!
